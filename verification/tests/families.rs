use zkevm_opcode_defs::definitions::bitmask::{
    max_num_flags_for_version, max_num_variants_for_version, opcode_as_integer_bitmask,
    total_description_bits_for_version, total_description_bits_rounded_for_version,
    total_opcode_description_and_aux_bits_for_version,
};
use zkevm_opcode_defs::definitions::enumeration::{
    destination_spellings_of, source_spellings_of,
};
use zkevm_opcode_defs::{
    all_conditions, all_isa_versions, all_opcode_prototypes, all_opcodes,
    compute_decoding_format, full_variants_product, invalid_opcode_variant, AddOpcode,
    BinopOpcode, Condition, ContextOpcode, DivOpcode, FarCallOpcode, ISAVersion,
    ImmMemHandlerFlags, InvalidOpcode, JumpOpcode, LogOpcode, MulOpcode, NearCallOpcode,
    NopOpcode, Opcode, OpcodeProps, OpcodeVariant, OpcodeVariantData, OpcodeVariantProps,
    Operand, PtrOpcode, RegOrImmFlags, RetOpcode, ShiftOpcode, SubOpcode, UMAOpcode,
    NUM_OPCODES,
};

const FULL_REG: Operand = Operand::Full(ImmMemHandlerFlags::UseRegOnly);
const REG_OR_IMM: Operand = Operand::RegOrImm(RegOrImmFlags::UseRegOnly);

#[test]
fn addressing_modes() {
    assert_eq!(ImmMemHandlerFlags::all_variants().len(), 6);
    assert_eq!(ImmMemHandlerFlags::num_variants(), 6);
    assert_eq!(ImmMemHandlerFlags::num_src_variants(), 6);
    assert_eq!(ImmMemHandlerFlags::num_dst_variants(), 4);
    for (index, flags) in ImmMemHandlerFlags::all_variants().iter().enumerate() {
        assert_eq!(flags.variant_index(), index);
        assert_eq!(flags.encoding_byte() as usize, index);
    }
    assert!(!ImmMemHandlerFlags::UseRegOnly.is_memory_used());
    assert!(!ImmMemHandlerFlags::UseImm16Only.is_memory_used());
    assert!(ImmMemHandlerFlags::UseStackWithPushPop.is_memory_used());
    assert!(ImmMemHandlerFlags::UseStackWithOffset.is_memory_used());
    assert!(ImmMemHandlerFlags::UseAbsoluteOnStack.is_memory_used());
    assert!(ImmMemHandlerFlags::UseCodePage.is_memory_used());
    assert!(ImmMemHandlerFlags::UseRegOnly.is_allowed_for_dst());
    assert!(ImmMemHandlerFlags::UseAbsoluteOnStack.is_allowed_for_dst());
    assert!(!ImmMemHandlerFlags::UseImm16Only.is_allowed_for_dst());
    assert!(!ImmMemHandlerFlags::UseCodePage.is_allowed_for_dst());

    assert_eq!(
        RegOrImmFlags::all_variants(),
        [RegOrImmFlags::UseRegOnly, RegOrImmFlags::UseImm16Only]
    );
    assert_eq!(RegOrImmFlags::num_variants(), 2);
    assert_eq!(RegOrImmFlags::num_src_variants(), 2);
    assert_eq!(RegOrImmFlags::num_dst_variants(), 1);
    assert_eq!(RegOrImmFlags::UseRegOnly.variant_index(), 0);
    assert_eq!(RegOrImmFlags::UseImm16Only.variant_index(), 4);
    assert_eq!(RegOrImmFlags::UseImm16Only.encoding_byte(), 4);
    assert_eq!(
        RegOrImmFlags::UseImm16Only.variant_index(),
        ImmMemHandlerFlags::UseImm16Only.variant_index()
    );
    assert!(!RegOrImmFlags::UseRegOnly.is_memory_used());
    assert!(!RegOrImmFlags::UseImm16Only.is_memory_used());
    assert!(RegOrImmFlags::UseRegOnly.is_allowed_for_dst());
    assert!(!RegOrImmFlags::UseImm16Only.is_allowed_for_dst());

    assert_eq!(Operand::RegOnly.variant_idx(), 0);
    assert_eq!(Operand::RegOrImm(RegOrImmFlags::UseImm16Only).variant_idx(), 4);
    assert_eq!(Operand::Full(ImmMemHandlerFlags::UseCodePage).variant_idx(), 5);
}

#[test]
fn spellings_of_the_operand_classes() {
    assert_eq!(source_spellings_of(&vec![]), vec![Operand::RegOnly]);
    assert_eq!(
        source_spellings_of(&vec![Operand::RegOnly, Operand::RegOnly]),
        vec![Operand::RegOnly]
    );
    assert_eq!(
        source_spellings_of(&vec![REG_OR_IMM]),
        vec![
            Operand::RegOrImm(RegOrImmFlags::UseRegOnly),
            Operand::RegOrImm(RegOrImmFlags::UseImm16Only)
        ]
    );
    assert_eq!(
        source_spellings_of(&vec![FULL_REG, Operand::RegOnly]),
        vec![
            Operand::Full(ImmMemHandlerFlags::UseRegOnly),
            Operand::Full(ImmMemHandlerFlags::UseStackWithPushPop),
            Operand::Full(ImmMemHandlerFlags::UseStackWithOffset),
            Operand::Full(ImmMemHandlerFlags::UseAbsoluteOnStack),
            Operand::Full(ImmMemHandlerFlags::UseImm16Only),
            Operand::Full(ImmMemHandlerFlags::UseCodePage),
        ]
    );
    assert_eq!(destination_spellings_of(&vec![]), vec![Operand::RegOnly]);
    assert_eq!(
        destination_spellings_of(&vec![Operand::RegOnly]),
        vec![Operand::RegOnly]
    );
    assert_eq!(
        destination_spellings_of(&vec![REG_OR_IMM]),
        vec![Operand::RegOrImm(RegOrImmFlags::UseRegOnly)]
    );
    assert_eq!(
        destination_spellings_of(&vec![FULL_REG]),
        vec![
            Operand::Full(ImmMemHandlerFlags::UseRegOnly),
            Operand::Full(ImmMemHandlerFlags::UseStackWithPushPop),
            Operand::Full(ImmMemHandlerFlags::UseStackWithOffset),
            Operand::Full(ImmMemHandlerFlags::UseAbsoluteOnStack),
        ]
    );
}

#[test]
fn conditions_and_their_indices() {
    let all = all_conditions();
    assert_eq!(all.len(), 8);
    for (index, condition) in all.iter().enumerate() {
        assert_eq!(condition.variant_index(), index);
        assert_eq!(Condition::materialize_variant(index), *condition);
    }
    assert_eq!(Condition::materialize_variant(0), Condition::Always);
    assert_eq!(Condition::materialize_variant(7), Condition::GtOrLt);
}

#[test]
fn versions() {
    assert_eq!(all_isa_versions(), [ISAVersion(0), ISAVersion(1)]);
    assert_eq!(ISAVersion(1).as_index(), 1);
    assert_eq!(
        ISAVersion::all_backward_compatible_versions(ISAVersion(0)),
        vec![ISAVersion(0)]
    );
    assert_eq!(
        ISAVersion::all_backward_compatible_versions(ISAVersion(1)),
        vec![ISAVersion(0), ISAVersion(1)]
    );
    assert_eq!(
        ISAVersion::all_backward_compatible_versions(ISAVersion(9)),
        vec![ISAVersion(0), ISAVersion(1)]
    );
}

#[test]
fn the_families_in_table_order() {
    let prototypes = all_opcode_prototypes();
    assert_eq!(prototypes.len(), NUM_OPCODES);
    assert_eq!(all_opcodes(), prototypes.to_vec());
    let names: Vec<&str> = prototypes.iter().map(|p| p.name()).collect();
    assert_eq!(
        names,
        vec![
            "Invalid opcode",
            "Nop opcode",
            "Add opcode",
            "Sub opcode",
            "Mul opcode",
            "Div opcode",
            "Jump opcode",
            "Binop opcode",
            "Shift opcode",
            "Ptr opcode",
            "Near call opcode",
            "Context opcode",
            "Log opcode",
            "Far call opcode",
            "Ret opcode",
            "UMA opcode",
        ]
    );
    let indices: Vec<usize> = prototypes.iter().map(|p| p.variant_idx()).collect();
    assert_eq!(
        indices,
        vec![0, 1, 2, 3, 4, 5, 6, 9, 8, 10, 11, 7, 12, 13, 14, 15]
    );
    for (i, a) in names.iter().enumerate() {
        for b in names[i + 1..].iter() {
            assert_ne!(a, b);
        }
    }
}

#[test]
fn sub_variants_are_indexed_densely() {
    fn check<V: OpcodeVariantProps + PartialEq + std::fmt::Debug>(count: usize) {
        let all = V::all_variants();
        assert_eq!(all.len(), count);
        for (index, variant) in all.iter().enumerate() {
            assert_eq!(variant.variant_index(), index);
            for version in [ISAVersion(0), ISAVersion(1), ISAVersion(2), ISAVersion(200)] {
                let found = V::from_variant_index_for_version(index, &version);
                if variant.is_available_for_version(version) {
                    assert_eq!(found.as_ref(), Some(variant));
                    assert!(index <= V::max_variant_idx_for_version(version));
                } else {
                    assert_eq!(found, None);
                    assert!(index > V::max_variant_idx_for_version(version));
                }
                assert_eq!(
                    variant.is_available_for_version(version),
                    variant.minimal_version() <= version
                );
                assert_eq!(
                    variant.is_added_in_version(version),
                    variant.minimal_version() == version
                );
            }
        }
        for version in [ISAVersion(0), ISAVersion(1), ISAVersion(2)] {
            assert_eq!(V::from_variant_index_for_version(count, &version), None);
            assert_eq!(V::from_variant_index_for_version(usize::MAX, &version), None);
            let available: Vec<V> = V::all_variants()
                .into_iter()
                .filter(|v| v.minimal_version() <= version)
                .collect();
            assert_eq!(V::variants_for_version(version), available);
            let added: Vec<V> = V::all_variants()
                .into_iter()
                .filter(|v| v.minimal_version() == version)
                .collect();
            assert_eq!(V::variants_added_in_version(version), added);
        }
    }
    check::<InvalidOpcode>(1);
    check::<NopOpcode>(1);
    check::<AddOpcode>(1);
    check::<SubOpcode>(1);
    check::<MulOpcode>(1);
    check::<DivOpcode>(1);
    check::<JumpOpcode>(1);
    check::<BinopOpcode>(3);
    check::<ShiftOpcode>(4);
    check::<PtrOpcode>(4);
    check::<NearCallOpcode>(1);
    check::<ContextOpcode>(10);
    check::<LogOpcode>(8);
    check::<FarCallOpcode>(3);
    check::<RetOpcode>(3);
    check::<UMAOpcode>(5);
}

#[test]
fn log_family_grows_with_the_third_version() {
    assert_eq!(LogOpcode::max_variant_idx_for_version(ISAVersion(0)), 4);
    assert_eq!(LogOpcode::max_variant_idx_for_version(ISAVersion(1)), 4);
    assert_eq!(LogOpcode::max_variant_idx_for_version(ISAVersion(2)), 7);
    assert_eq!(LogOpcode::StorageRead.max_variant_idx(ISAVersion(1)), 4);
    assert_eq!(LogOpcode::StorageRead.max_variant_idx(ISAVersion(2)), 7);
    assert_eq!(LogOpcode::Decommit.minimal_version(), ISAVersion(2));
    assert_eq!(LogOpcode::Event.minimal_version(), ISAVersion(0));
    assert_eq!(
        LogOpcode::from_variant_index_for_version(5, &ISAVersion(1)),
        None
    );
    assert_eq!(
        LogOpcode::from_variant_index_for_version(5, &ISAVersion(2)),
        Some(LogOpcode::Decommit)
    );
    assert_eq!(LogOpcode::variants_for_version(ISAVersion(1)).len(), 5);
    assert_eq!(LogOpcode::variants_for_version(ISAVersion(2)).len(), 8);
    assert_eq!(
        LogOpcode::variants_added_in_version(ISAVersion(2)),
        vec![
            LogOpcode::Decommit,
            LogOpcode::TransientStorageRead,
            LogOpcode::TransientStorageWrite
        ]
    );
    assert_eq!(LogOpcode::variants_added_in_version(ISAVersion(1)), vec![]);
    let data = LogOpcode::StorageRead.variants_data(ISAVersion(1));
    let flags: Vec<usize> = data.iter().map(|d| d.num_non_exclusive_flags).collect();
    assert_eq!(flags, vec![0, 0, 1, 1, 0]);
    let data = LogOpcode::StorageRead.variants_data(ISAVersion(2));
    let flags: Vec<usize> = data.iter().map(|d| d.num_non_exclusive_flags).collect();
    assert_eq!(flags, vec![0, 0, 1, 1, 0, 0, 0, 0]);
    for (index, entry) in data.iter().enumerate() {
        assert_eq!(entry.variant_idx, index);
        assert_eq!(entry.num_used_immediates, 0);
    }
}

#[test]
fn declarations_of_the_families() {
    let v0 = ISAVersion(0);
    let v1 = ISAVersion(1);
    assert_eq!(
        full_variants_product(0, 2, 1, 2),
        vec![
            OpcodeVariantData {
                variant_idx: 0,
                num_non_exclusive_flags: 1,
                num_used_immediates: 2
            },
            OpcodeVariantData {
                variant_idx: 1,
                num_non_exclusive_flags: 1,
                num_used_immediates: 2
            },
            OpcodeVariantData {
                variant_idx: 2,
                num_non_exclusive_flags: 1,
                num_used_immediates: 2
            },
        ]
    );
    assert_eq!(full_variants_product(3, 2, 0, 0), vec![]);
    assert_eq!(full_variants_product(4, 4, 2, 1).len(), 1);
    assert_eq!(
        full_variants_product(usize::MAX, usize::MAX, 0, 0)[0].variant_idx,
        usize::MAX
    );

    assert_eq!(
        BinopOpcode::Xor.variants_data(v0),
        full_variants_product(0, 2, 1, 2)
    );
    assert_eq!(SubOpcode::Sub.variants_data(v1), full_variants_product(0, 0, 2, 2));
    assert_eq!(DivOpcode.variants_data(v1), full_variants_product(0, 0, 2, 2));
    assert_eq!(MulOpcode.variants_data(v1), full_variants_product(0, 0, 1, 2));
    assert_eq!(
        FarCallOpcode::Normal.variants_data(v1),
        full_variants_product(0, 2, 2, 1)
    );
    assert_eq!(
        UMAOpcode::HeapRead.variants_data(v0),
        full_variants_product(0, 4, 1, 0)
    );
    assert_eq!(
        ContextOpcode::This.variants_data(v0),
        full_variants_product(0, 9, 0, 0)
    );
    assert_eq!(JumpOpcode.variants_data(v0), full_variants_product(0, 0, 0, 1));
    assert_eq!(InvalidOpcode.variants_data(v0), full_variants_product(0, 0, 0, 0));

    assert_eq!(AddOpcode::Add.input_operands(v0), vec![FULL_REG, Operand::RegOnly]);
    assert_eq!(AddOpcode::Add.output_operands(v0), vec![FULL_REG]);
    assert_eq!(MulOpcode.output_operands(v0), vec![FULL_REG, Operand::RegOnly]);
    assert_eq!(DivOpcode.input_operands(v0), vec![FULL_REG, Operand::RegOnly]);
    assert_eq!(DivOpcode.output_operands(v0), vec![FULL_REG, Operand::RegOnly]);
    assert_eq!(JumpOpcode.input_operands(v0), vec![FULL_REG]);
    assert_eq!(JumpOpcode.output_operands(v0), vec![]);
    assert_eq!(InvalidOpcode.input_operands(v0), vec![]);
    assert_eq!(NearCallOpcode.input_operands(v1), vec![Operand::RegOnly]);
    assert_eq!(RetOpcode::Panic.input_operands(v1), vec![]);
    assert_eq!(RetOpcode::Okay.input_operands(v1), vec![Operand::RegOnly]);
    assert_eq!(ContextOpcode::This.input_operands(v1), vec![]);
    assert_eq!(ContextOpcode::This.output_operands(v1), vec![Operand::RegOnly]);
    assert_eq!(
        ContextOpcode::SetContextU128.input_operands(v1),
        vec![Operand::RegOnly]
    );
    assert_eq!(ContextOpcode::SetContextU128.output_operands(v1), vec![]);
    assert_eq!(ContextOpcode::IncrementTxNumber.input_operands(v1), vec![]);
    assert_eq!(ContextOpcode::IncrementTxNumber.output_operands(v1), vec![]);
    assert_eq!(LogOpcode::StorageRead.input_operands(v1), vec![Operand::RegOnly]);
    assert_eq!(LogOpcode::StorageRead.output_operands(v1), vec![Operand::RegOnly]);
    assert_eq!(
        LogOpcode::StorageWrite.input_operands(v1),
        vec![Operand::RegOnly, Operand::RegOnly]
    );
    assert_eq!(LogOpcode::StorageWrite.output_operands(v1), vec![]);
    assert_eq!(LogOpcode::PrecompileCall.output_operands(v1), vec![Operand::RegOnly]);

    // from the second version on the offset of a heap access may be an immediate
    assert_eq!(UMAOpcode::HeapRead.input_operands(v0), vec![Operand::RegOnly]);
    assert_eq!(UMAOpcode::HeapRead.input_operands(v1), vec![REG_OR_IMM]);
    assert_eq!(
        UMAOpcode::HeapWrite.input_operands(v0),
        vec![Operand::RegOnly, Operand::RegOnly]
    );
    assert_eq!(
        UMAOpcode::AuxHeapWrite.input_operands(v1),
        vec![REG_OR_IMM, Operand::RegOnly]
    );
    assert_eq!(UMAOpcode::FatPointerRead.input_operands(v1), vec![Operand::RegOnly]);
    assert_eq!(UMAOpcode::HeapWrite.output_operands(v1), vec![Operand::RegOnly]);
    assert_eq!(
        UMAOpcode::HeapRead.output_operands(v1),
        vec![Operand::RegOnly, Operand::RegOnly]
    );

    assert_eq!(PtrOpcode::Add.max_variant_idx(v0), 2);
    assert_eq!(PtrOpcode::max_variant_idx_for_version(v0), 3);
    assert_eq!(ContextOpcode::This.max_variant_idx(v0), 9);
}

#[test]
fn kernel_mode_and_static_context() {
    let kernel: Vec<Opcode> = vec![
        Opcode::Context(ContextOpcode::SetContextU128),
        Opcode::Context(ContextOpcode::SetErgsPerPubdataByte),
        Opcode::Context(ContextOpcode::IncrementTxNumber),
        Opcode::Log(LogOpcode::Event),
        Opcode::Log(LogOpcode::ToL1Message),
        Opcode::Log(LogOpcode::PrecompileCall),
        Opcode::Log(LogOpcode::Decommit),
        Opcode::FarCall(FarCallOpcode::Mimic),
    ];
    let not_static: Vec<Opcode> = vec![
        Opcode::Context(ContextOpcode::SetContextU128),
        Opcode::Context(ContextOpcode::SetErgsPerPubdataByte),
        Opcode::Context(ContextOpcode::IncrementTxNumber),
        Opcode::Log(LogOpcode::StorageWrite),
        Opcode::Log(LogOpcode::Event),
        Opcode::Log(LogOpcode::ToL1Message),
        Opcode::Log(LogOpcode::TransientStorageWrite),
    ];
    let mut seen = 0;
    for prototype in all_opcode_prototypes() {
        // only the log family knows a third version
        let version = if matches!(prototype, Opcode::Log(_)) {
            ISAVersion(2)
        } else {
            ISAVersion(1)
        };
        for data in prototype.variants_data(version) {
            let opcode =
                prototype.materialize_subvariant_from_prototype(data.variant_idx, &version);
            assert_eq!(opcode.materialize_subvariant_idx(), data.variant_idx);
            assert_eq!(opcode.variant_idx(), prototype.variant_idx());
            assert_eq!(opcode.requires_kernel_mode(), kernel.contains(&opcode));
            assert_eq!(
                opcode.can_be_used_in_static_context(),
                !not_static.contains(&opcode)
            );
            let variant = OpcodeVariant {
                opcode,
                src0_operand_type: Operand::RegOnly,
                dst0_operand_type: Operand::RegOnly,
                flags: [false, false],
            };
            assert_eq!(variant.requires_kernel_mode(), kernel.contains(&opcode));
            assert_eq!(
                variant.can_be_used_in_static_context(),
                !not_static.contains(&opcode)
            );
            seen += 1;
        }
    }
    assert_eq!(seen, 48);
}

#[test]
fn memory_operands() {
    let v1 = ISAVersion(1);
    let from_memory = [1usize, 2, 3, 4, 5, 6, 8, 9, 10];
    let into_memory = [1usize, 2, 3, 4, 5, 8, 9, 10];
    for prototype in all_opcode_prototypes() {
        assert_eq!(
            prototype.can_have_src0_from_mem(v1),
            from_memory.contains(&prototype.variant_idx())
        );
        assert_eq!(
            prototype.can_write_dst0_into_memory(v1),
            into_memory.contains(&prototype.variant_idx())
        );
    }
    assert!(AddOpcode::Add.can_have_src0_from_mem(v1));
    assert!(AddOpcode::Add.can_write_dst0_into_memory(v1));
    assert!(JumpOpcode.can_have_src0_from_mem(v1));
    assert!(!JumpOpcode.can_write_dst0_into_memory(v1));
    assert!(!UMAOpcode::HeapRead.can_have_src0_from_mem(v1));
    assert!(!UMAOpcode::HeapRead.can_write_dst0_into_memory(v1));
    assert!(!InvalidOpcode.can_have_src0_from_mem(v1));
}

#[test]
fn swapped_operands() {
    fn on_registers(opcode: Opcode, flags: [bool; 2]) -> OpcodeVariant {
        OpcodeVariant {
            opcode,
            src0_operand_type: FULL_REG,
            dst0_operand_type: FULL_REG,
            flags,
        }
    }
    assert!(!on_registers(Opcode::Sub(SubOpcode::Sub), [true, false]).swap_operands());
    assert!(on_registers(Opcode::Sub(SubOpcode::Sub), [false, true]).swap_operands());
    assert!(on_registers(Opcode::Div(DivOpcode), [true, true]).swap_operands());
    assert!(on_registers(Opcode::Shift(ShiftOpcode::Rol), [false, true]).swap_operands());
    assert!(on_registers(Opcode::Ptr(PtrOpcode::Pack), [true, false]).swap_operands());
    assert!(!on_registers(Opcode::Ptr(PtrOpcode::Pack), [false, true]).swap_operands());
    assert!(!on_registers(Opcode::Add(AddOpcode::Add), [true, true]).swap_operands());
    assert!(!on_registers(Opcode::Mul(MulOpcode), [true, true]).swap_operands());
    assert!(invalid_opcode_variant().is_explicit_panic());
    assert!(!on_registers(Opcode::Ret(RetOpcode::Panic), [false, false]).is_explicit_panic());
}

#[test]
fn description_bits() {
    for version in [ISAVersion(0), ISAVersion(1)] {
        assert_eq!(max_num_variants_for_version(version), 10);
        assert_eq!(max_num_flags_for_version(version), 2);
        assert_eq!(total_description_bits_for_version(version), 38);
        assert_eq!(total_description_bits_rounded_for_version(version), 48);
        assert_eq!(total_opcode_description_and_aux_bits_for_version(version), 51);
        assert_eq!(
            compute_decoding_format(version),
            "38 bits in total.\n16 bit flags for opcode|10 bit flags for variant|2 bit flags for flags|6 bits flags for input type|4 bit flags for output type"
        );
    }
}

#[test]
fn one_hot_description_of_a_variant() {
    let version = ISAVersion(1);
    // family 0, sub-variant 0, both spellings 0, usable in a static context, a panic
    assert_eq!(
        opcode_as_integer_bitmask(&invalid_opcode_variant(), version),
        1 | 1 << 16 | 1 << 28 | 1 << 34 | 1 << 49 | 1 << 50
    );
    let shift = OpcodeVariant {
        opcode: Opcode::Shift(ShiftOpcode::Rol),
        src0_operand_type: Operand::Full(ImmMemHandlerFlags::UseCodePage),
        dst0_operand_type: Operand::Full(ImmMemHandlerFlags::UseAbsoluteOnStack),
        flags: [true, true],
    };
    assert_eq!(
        opcode_as_integer_bitmask(&shift, version),
        1 << 8 | 1 << 18 | 1 << 26 | 1 << 27 | 1 << 33 | 1 << 37 | 1 << 49
    );
    let event = OpcodeVariant {
        opcode: Opcode::Log(LogOpcode::Event),
        src0_operand_type: Operand::RegOnly,
        dst0_operand_type: Operand::RegOnly,
        flags: [false, true],
    };
    // needs kernel mode and cannot be used in a static context
    assert_eq!(
        opcode_as_integer_bitmask(&event, version),
        1 << 12 | 1 << 19 | 1 << 27 | 1 << 28 | 1 << 34 | 1 << 48
    );
    let heap_read = OpcodeVariant {
        opcode: Opcode::UMA(UMAOpcode::HeapRead),
        src0_operand_type: Operand::RegOrImm(RegOrImmFlags::UseImm16Only),
        dst0_operand_type: Operand::RegOnly,
        flags: [true, false],
    };
    assert_eq!(
        opcode_as_integer_bitmask(&heap_read, version),
        1 << 15 | 1 << 16 | 1 << 26 | 1 << 32 | 1 << 34 | 1 << 49
    );
}
