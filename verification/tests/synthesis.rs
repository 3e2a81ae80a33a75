use zkevm_opcode_defs::definitions::enumeration::{push_flag_block, push_opcode_block};
use zkevm_opcode_defs::{
    all_variants_in_version, compute_encoding_density, default_isa_version, find_new_opcodes,
    invalid_opcode_variant, nop_opcode_variant, panic_opcode_variant, semantically_equal,
    synthesize_bit_decomposition_table, synthesize_opcode_decoding_tables,
    synthesize_opcode_decoding_tables_legacy, AddOpcode, ISAVersion, ImmMemHandlerFlags,
    InvalidOpcode, NopOpcode, Opcode, OpcodeTables, OpcodeVariant, Operand, RegOrImmFlags,
    SynthesisError, UMAOpcode, OPCODES_TABLE_SIZE, OPCODES_TABLE_WIDTH,
};

fn variant(opcode: Opcode, src: Operand, dst: Operand, flags: [bool; 2]) -> OpcodeVariant {
    OpcodeVariant {
        opcode,
        src0_operand_type: src,
        dst0_operand_type: dst,
        flags,
    }
}

#[test]
fn shape_of_the_table() {
    assert_eq!(OPCODES_TABLE_SIZE, 1 << OPCODES_TABLE_WIDTH);
    for version in [ISAVersion(0), ISAVersion(1), ISAVersion(7)] {
        let table = synthesize_opcode_decoding_tables(11, version).unwrap();
        assert_eq!(table.len(), 2048);
        assert_eq!(table[0], invalid_opcode_variant());
        assert_eq!(table[0].opcode, Opcode::Invalid(InvalidOpcode));
        assert_eq!(table[0].src0_operand_type, Operand::RegOnly);
        assert_eq!(table[0].dst0_operand_type, Operand::RegOnly);
        assert_eq!(table[0].flags, [false, false]);
        let density = if version.0 == 0 { 1085 } else { 1093 };
        for slot in 1..density {
            assert_ne!(table[slot], invalid_opcode_variant());
        }
        for slot in density..2048 {
            assert_eq!(table[slot], invalid_opcode_variant());
        }
    }
    assert_eq!(
        synthesize_opcode_decoding_tables(11, ISAVersion(7)),
        synthesize_opcode_decoding_tables(11, ISAVersion(1))
    );
    assert_eq!(
        synthesize_opcode_decoding_tables(12, ISAVersion(1))
            .unwrap()
            .len(),
        4096
    );
}

#[test]
fn a_narrow_index_field_overflows() {
    for bits in 0..11 {
        assert_eq!(
            synthesize_opcode_decoding_tables(bits, ISAVersion(0)),
            Err(SynthesisError::TableOverflow)
        );
        assert_eq!(
            synthesize_opcode_decoding_tables(bits, ISAVersion(1)),
            Err(SynthesisError::TableOverflow)
        );
        assert_eq!(
            synthesize_opcode_decoding_tables_legacy(bits, ISAVersion(0)),
            Err(SynthesisError::TableOverflow)
        );
    }
}

#[test]
fn the_legacy_synthesis_knows_the_first_version_only() {
    assert_eq!(
        synthesize_opcode_decoding_tables_legacy(11, ISAVersion(0)),
        synthesize_opcode_decoding_tables(11, ISAVersion(0))
    );
    assert_eq!(
        synthesize_opcode_decoding_tables_legacy(11, ISAVersion(1)),
        Err(SynthesisError::UnknownOperandCombination)
    );
    assert_eq!(
        synthesize_opcode_decoding_tables_legacy(3, ISAVersion(2)),
        Err(SynthesisError::UnknownOperandCombination)
    );
}

#[test]
fn the_order_of_the_enumeration() {
    let v0 = all_variants_in_version(ISAVersion(0));
    let full = |f| Operand::Full(f);
    assert_eq!(v0[0], invalid_opcode_variant());
    assert_eq!(v0[1], nop_opcode_variant());
    // the destination runs faster than the source
    assert_eq!(
        v0[2],
        variant(
            Opcode::Nop(NopOpcode),
            full(ImmMemHandlerFlags::UseRegOnly),
            full(ImmMemHandlerFlags::UseStackWithPushPop),
            [false, false]
        )
    );
    assert_eq!(
        v0[5],
        variant(
            Opcode::Nop(NopOpcode),
            full(ImmMemHandlerFlags::UseStackWithPushPop),
            full(ImmMemHandlerFlags::UseRegOnly),
            [false, false]
        )
    );
    assert_eq!(
        v0[24],
        variant(
            Opcode::Nop(NopOpcode),
            full(ImmMemHandlerFlags::UseCodePage),
            full(ImmMemHandlerFlags::UseAbsoluteOnStack),
            [false, false]
        )
    );
    // and the flags run fastest
    assert_eq!(
        v0[25],
        variant(
            Opcode::Add(AddOpcode::Add),
            full(ImmMemHandlerFlags::UseRegOnly),
            full(ImmMemHandlerFlags::UseRegOnly),
            [false, false]
        )
    );
    assert_eq!(
        v0[26],
        variant(
            Opcode::Add(AddOpcode::Add),
            full(ImmMemHandlerFlags::UseRegOnly),
            full(ImmMemHandlerFlags::UseRegOnly),
            [true, false]
        )
    );
    assert_eq!(
        v0[27],
        variant(
            Opcode::Add(AddOpcode::Add),
            full(ImmMemHandlerFlags::UseRegOnly),
            full(ImmMemHandlerFlags::UseStackWithPushPop),
            [false, false]
        )
    );
    assert_eq!(v0[73].opcode, Opcode::Sub(zkevm_opcode_defs::SubOpcode::Sub));
    assert_eq!(v0[73].flags, [false, false]);
    assert_eq!(v0[74].flags, [false, true]);
    assert_eq!(v0[75].flags, [true, false]);
    assert_eq!(v0[76].flags, [true, true]);
    assert_eq!(v0[1073], panic_opcode_variant());
    assert_eq!(
        v0[1075],
        variant(
            Opcode::UMA(UMAOpcode::HeapRead),
            Operand::RegOnly,
            Operand::RegOnly,
            [false, false]
        )
    );
    assert_eq!(v0.len(), 1085);
    // no variant occurs twice
    for (i, a) in v0.iter().enumerate() {
        for b in v0[i + 1..].iter() {
            assert_ne!(a, b);
        }
    }
}

#[test]
fn blocks_of_the_enumeration() {
    let mut out = vec![invalid_opcode_variant()];
    let add = Opcode::Add(AddOpcode::Add);
    push_flag_block(&mut out, add, Operand::RegOnly, Operand::RegOnly, 0);
    assert_eq!(out.len(), 2);
    push_flag_block(&mut out, add, Operand::RegOnly, Operand::RegOnly, 1);
    assert_eq!(out.len(), 4);
    assert_eq!(out[2].flags, [false, false]);
    assert_eq!(out[3].flags, [true, false]);
    push_flag_block(&mut out, add, Operand::RegOnly, Operand::RegOnly, 2);
    assert_eq!(out.len(), 8);
    assert_eq!(out[0], invalid_opcode_variant());
    let mut via_opcode = vec![];
    push_opcode_block(&mut via_opcode, add, ISAVersion(1), 1);
    assert_eq!(via_opcode.len(), 48);
    assert_eq!(
        &via_opcode[..],
        &all_variants_in_version(ISAVersion(1))[25..73]
    );
}

#[test]
fn the_second_version_extends_the_first_in_place() {
    let v0 = synthesize_opcode_decoding_tables(11, ISAVersion(0)).unwrap();
    let v1 = synthesize_opcode_decoding_tables(11, ISAVersion(1)).unwrap();
    let density_v0 = compute_encoding_density(ISAVersion(0));
    let density_v1 = compute_encoding_density(ISAVersion(1));
    for slot in 0..density_v0 {
        assert!(semantically_equal(&v0[slot], &v1[slot]));
        if slot < 1075 || slot >= 1083 {
            assert_eq!(v0[slot], v1[slot]);
        } else {
            // the heap accesses are spelled anew
            assert_eq!(v0[slot].src0_operand_type, Operand::RegOnly);
            assert_eq!(
                v1[slot].src0_operand_type,
                Operand::RegOrImm(RegOrImmFlags::UseRegOnly)
            );
        }
    }
    for slot in density_v0..density_v1 {
        assert_eq!(
            v1[slot].src0_operand_type,
            Operand::RegOrImm(RegOrImmFlags::UseImm16Only)
        );
        assert!(matches!(v1[slot].opcode, Opcode::UMA(_)));
    }
    assert_eq!(v1[1085].opcode, Opcode::UMA(UMAOpcode::HeapRead));
    assert_eq!(v1[1085].flags, [false, false]);
    assert_eq!(v1[1086].opcode, Opcode::UMA(UMAOpcode::HeapRead));
    assert_eq!(v1[1086].flags, [true, false]);
    assert_eq!(v1[1092].opcode, Opcode::UMA(UMAOpcode::AuxHeapWrite));
    // every variant of the second version has a slot, and one only
    let all_v1 = all_variants_in_version(ISAVersion(1));
    for wanted in all_v1.iter() {
        let slots = v1.iter().filter(|held| *held == wanted).count();
        if *wanted == invalid_opcode_variant() {
            assert_eq!(slots, 2048 - 1093 + 1);
        } else {
            assert_eq!(slots, 1);
        }
    }
}

#[test]
fn merging_a_later_version() {
    let heap_read = |src, flags| {
        variant(
            Opcode::UMA(UMAOpcode::HeapRead),
            src,
            Operand::RegOnly,
            flags,
        )
    };
    let reg = Operand::RegOnly;
    let reg_or_imm = Operand::RegOrImm(RegOrImmFlags::UseRegOnly);
    let imm = Operand::RegOrImm(RegOrImmFlags::UseImm16Only);
    let mut table = vec![
        invalid_opcode_variant(),
        heap_read(reg, [false, false]),
        heap_read(reg, [true, false]),
    ];
    let new = vec![
        heap_read(imm, [true, false]),
        invalid_opcode_variant(),
        heap_read(reg_or_imm, [true, false]),
        heap_read(imm, [false, false]),
        heap_read(reg_or_imm, [false, false]),
    ];
    let difference = find_new_opcodes(&mut table, &new).unwrap();
    assert_eq!(
        table,
        vec![
            invalid_opcode_variant(),
            heap_read(reg_or_imm, [false, false]),
            heap_read(reg_or_imm, [true, false]),
        ]
    );
    assert_eq!(
        difference,
        vec![heap_read(imm, [true, false]), heap_read(imm, [false, false])]
    );

    let mut empty = vec![];
    assert_eq!(find_new_opcodes(&mut empty, &new), Ok(new.clone()));
    assert!(empty.is_empty());
    assert_eq!(find_new_opcodes(&mut table, &[]), Err(SynthesisError::MissingPredecessor));
}

#[test]
fn a_later_version_must_offer_what_an_earlier_did() {
    let mut table = vec![invalid_opcode_variant(), nop_opcode_variant()];
    let before = table.clone();
    let new = vec![invalid_opcode_variant(), panic_opcode_variant()];
    assert_eq!(
        find_new_opcodes(&mut table, &new),
        Err(SynthesisError::MissingPredecessor)
    );
    assert_eq!(table, before);
    let mut v1 = all_variants_in_version(ISAVersion(1));
    let v0 = all_variants_in_version(ISAVersion(0));
    assert_eq!(
        find_new_opcodes(&mut v1, &v0),
        Err(SynthesisError::MissingPredecessor)
    );
}

#[test]
fn semantic_equality() {
    let heap_read = |src, dst, flags| variant(Opcode::UMA(UMAOpcode::HeapRead), src, dst, flags);
    let reg = Operand::RegOnly;
    let reg_or_imm = Operand::RegOrImm(RegOrImmFlags::UseRegOnly);
    let imm = Operand::RegOrImm(RegOrImmFlags::UseImm16Only);
    let full = Operand::Full(ImmMemHandlerFlags::UseRegOnly);
    let a = heap_read(reg, reg, [false, false]);
    assert!(semantically_equal(&a, &a));
    assert!(semantically_equal(&a, &heap_read(reg_or_imm, reg, [false, false])));
    assert!(semantically_equal(&heap_read(reg_or_imm, reg, [false, false]), &a));
    assert!(!semantically_equal(&a, &heap_read(imm, reg, [false, false])));
    assert!(!semantically_equal(&a, &heap_read(full, reg, [false, false])));
    assert!(!semantically_equal(
        &heap_read(reg_or_imm, reg, [false, false]),
        &heap_read(imm, reg, [false, false])
    ));
    assert!(!semantically_equal(&a, &heap_read(reg, reg_or_imm, [false, false])));
    assert!(!semantically_equal(&a, &heap_read(reg, reg, [true, false])));
    assert!(!semantically_equal(&a, &heap_read(reg, reg, [false, true])));
    assert!(!semantically_equal(
        &a,
        &variant(Opcode::UMA(UMAOpcode::HeapWrite), reg, reg, [false, false])
    ));
    assert_ne!(a, heap_read(reg_or_imm, reg, [false, false]));
    assert_eq!(a, heap_read(reg, reg, [false, false]));
}

#[test]
fn the_tables_run_parallel() {
    let tables = OpcodeTables::new(default_isa_version()).unwrap();
    assert_eq!(tables.version(), ISAVersion(1));
    assert_eq!(
        *tables.table(),
        synthesize_opcode_decoding_tables(11, ISAVersion(1)).unwrap()
    );
    assert_eq!(
        *tables.bitmasks(),
        synthesize_bit_decomposition_table(tables.table(), ISAVersion(1))
    );
    for slot in [0usize, 1, 25, 1073, 1092, 2047] {
        assert_eq!(tables.variant_at(slot), tables.table()[slot]);
        assert_eq!(tables.bitmask_at(slot), tables.bitmasks()[slot]);
        assert_eq!(tables.price_at(slot), tables.prices()[slot]);
    }
    for (slot, held) in tables.table().iter().enumerate().take(1093) {
        assert_eq!(tables.canonical_index(held), Some(slot));
    }
    assert_eq!(tables.canonical_index(&invalid_opcode_variant()), Some(0));
    for version in [ISAVersion(0), ISAVersion(1), ISAVersion(2), ISAVersion(255)] {
        assert!(OpcodeTables::new(version).is_ok());
    }
}
