use zkevm_opcode_defs::{
    default_isa_version, nop_opcode_variant, panic_opcode_variant, AddOpcode,
    AllowedIntegerRepresentation, AllowedPcOrImm, Condition, DecodedOpcode,
    EncodingModeProduction, ISAVersion, ImmMemHandlerFlags, InvalidOpcode, NonCanonicalEncoding,
    Opcode, OpcodeTables, OpcodeVariant, Operand, RetOpcode, UMAOpcode, VariantMonotonicNumber,
    VmEncodingMode, INVALID_OPCODE_ERGS,
};
use zkevm_opcode_defs::ethereum_types::U256;

type Instruction = DecodedOpcode<8, EncodingModeProduction>;

fn tables() -> OpcodeTables {
    OpcodeTables::new(default_isa_version()).unwrap()
}

fn add_on_registers() -> OpcodeVariant {
    OpcodeVariant {
        opcode: Opcode::Add(AddOpcode::Add),
        src0_operand_type: Operand::Full(ImmMemHandlerFlags::UseRegOnly),
        dst0_operand_type: Operand::Full(ImmMemHandlerFlags::UseRegOnly),
        flags: [false, false],
    }
}

#[test]
fn word_zero_is_the_invalid_opcode() {
    let tables = tables();
    let (decoded, number) =
        EncodingModeProduction::parse_preliminary_variant_and_absolute_number(&tables, 0);
    assert_eq!(number, VariantMonotonicNumber(0));
    assert_eq!(decoded.variant.opcode, Opcode::Invalid(InvalidOpcode));
    assert_eq!(decoded.variant.src0_operand_type, Operand::RegOnly);
    assert_eq!(decoded.variant.dst0_operand_type, Operand::RegOnly);
    assert_eq!(decoded.variant.flags, [false, false]);
    assert_eq!(decoded.condition, Condition::Always);
    assert_eq!(tables.price_at(number.into_usize()), u32::MAX);
    assert_eq!(tables.prices()[0], INVALID_OPCODE_ERGS);
    assert!(decoded.variant.is_explicit_panic());
}

#[test]
fn source_registers_are_the_nibbles_of_the_third_byte() {
    let tables = tables();
    let index = tables.canonical_index(&add_on_registers()).unwrap();
    assert_eq!(index, 25);
    let raw = (index as u64) | (0x01u64 << 16);
    let (decoded, number) =
        EncodingModeProduction::parse_preliminary_variant_and_absolute_number(&tables, raw);
    assert_eq!(number.into_usize(), index);
    assert_eq!(decoded.variant, add_on_registers());
    assert_eq!(decoded.src0_reg_idx, 1);
    assert_eq!(decoded.src1_reg_idx, 0);
    assert_eq!(decoded.dst0_reg_idx, 0);
    assert_eq!(decoded.dst1_reg_idx, 0);
    assert_eq!(decoded.imm_0, 0);
    assert_eq!(decoded.imm_1, 0);
}

#[test]
fn every_field_has_its_place_in_the_code_word() {
    let tables = tables();
    let instruction = Instruction {
        variant: add_on_registers(),
        condition: Condition::Ne,
        src0_reg_idx: 3,
        src1_reg_idx: 15,
        dst0_reg_idx: 7,
        dst1_reg_idx: 9,
        imm_0: 0xbeef,
        imm_1: 0x1234,
    };
    assert!(EncodingModeProduction::is_encodable(&tables, &instruction));
    let raw = instruction.serialize_as_integer(&tables);
    assert_eq!(raw, 0x1234_beef_97f3_c019);
    assert_eq!(
        instruction.serialize_as_bytes(&tables),
        [0x12, 0x34, 0xbe, 0xef, 0x97, 0xf3, 0xc0, 0x19]
    );
    assert!(EncodingModeProduction::is_canonical_encoding(raw));
    let (decoded, number) =
        EncodingModeProduction::parse_preliminary_variant_and_absolute_number(&tables, raw);
    assert_eq!(number.into_usize(), 25);
    assert_eq!(decoded.variant, instruction.variant);
    assert_eq!(decoded.condition, Condition::Ne);
    assert_eq!(
        (
            decoded.src0_reg_idx,
            decoded.src1_reg_idx,
            decoded.dst0_reg_idx,
            decoded.dst1_reg_idx
        ),
        (3, 15, 7, 9)
    );
    assert_eq!((decoded.imm_0, decoded.imm_1), (0xbeef, 0x1234));
}

#[test]
fn encoding_and_decoding_round_trip_over_the_whole_table() {
    let tables = tables();
    let conditions = zkevm_opcode_defs::all_conditions();
    for (slot, variant) in tables.table().iter().enumerate() {
        let instruction = Instruction {
            variant: *variant,
            condition: conditions[slot % 8],
            src0_reg_idx: (slot % 16) as u8,
            src1_reg_idx: ((slot / 16) % 16) as u8,
            dst0_reg_idx: ((slot / 3) % 16) as u8,
            dst1_reg_idx: ((slot / 7) % 16) as u8,
            imm_0: (slot as u16).wrapping_mul(31),
            imm_1: (slot as u16).wrapping_mul(977),
        };
        let raw = instruction.serialize_as_integer(&tables);
        assert!(EncodingModeProduction::is_canonical_encoding(raw));
        let (decoded, number) =
            EncodingModeProduction::parse_preliminary_variant_and_absolute_number(&tables, raw);
        assert_eq!(decoded.variant, instruction.variant);
        assert_eq!(decoded.condition, instruction.condition);
        assert_eq!(decoded.src0_reg_idx, instruction.src0_reg_idx);
        assert_eq!(decoded.src1_reg_idx, instruction.src1_reg_idx);
        assert_eq!(decoded.dst0_reg_idx, instruction.dst0_reg_idx);
        assert_eq!(decoded.dst1_reg_idx, instruction.dst1_reg_idx);
        assert_eq!(decoded.imm_0, instruction.imm_0);
        assert_eq!(decoded.imm_1, instruction.imm_1);
        // every variant but the padding behind slot zero sits in its first slot
        if slot < 1093 {
            assert_eq!(number.into_usize(), slot);
            assert_eq!(instruction.serialize_as_integer(&tables) & 0x7ff, slot as u64);
        } else {
            assert_eq!(number.into_usize(), 0);
        }
    }
}

#[test]
fn reserved_bits_break_canonicality() {
    assert!(EncodingModeProduction::is_canonical_encoding(0));
    assert!(EncodingModeProduction::is_canonical_encoding(
        0xffff_ffff_ffff_e7ff
    ));
    assert!(!EncodingModeProduction::is_canonical_encoding(1 << 11));
    assert!(!EncodingModeProduction::is_canonical_encoding(1 << 12));
    assert!(!EncodingModeProduction::is_canonical_encoding(
        0xffff_ffff_ffff_ffff
    ));
    assert!(!EncodingModeProduction::is_canonical_encoding(
        0x1234_beef_97f3_c019 | 0x0800
    ));
    assert!(!EncodingModeProduction::is_canonical_encoding(
        0x1234_beef_97f3_c019 | 0x1000
    ));
}

#[test]
fn decode_refuses_a_word_that_is_not_canonical() {
    let tables = tables();
    assert_eq!(
        EncodingModeProduction::decode(&tables, 0x0800).err(),
        Some(NonCanonicalEncoding)
    );
    assert_eq!(
        EncodingModeProduction::decode(&tables, 0x1019).err(),
        Some(NonCanonicalEncoding)
    );
    let (decoded, number) = EncodingModeProduction::decode(&tables, 0x0001_0019).unwrap();
    assert_eq!(number.into_usize(), 25);
    assert_eq!(decoded.src0_reg_idx, 1);
}

#[test]
fn derived_code_words_come_from_the_encoder() {
    let tables = tables();
    let nop = Instruction {
        variant: nop_opcode_variant(),
        condition: Condition::Always,
        src0_reg_idx: 0,
        src1_reg_idx: 0,
        dst0_reg_idx: 0,
        dst1_reg_idx: 0,
        imm_0: 0,
        imm_1: 0,
    };
    assert_eq!(
        EncodingModeProduction::nop_encoding(&tables),
        EncodingModeProduction::encode_as_integer(&tables, &nop)
    );
    assert_eq!(EncodingModeProduction::nop_encoding(&tables), 1);
    assert_eq!(tables.table()[1], nop_opcode_variant());

    let mut panic = nop;
    panic.variant = panic_opcode_variant();
    assert_eq!(
        EncodingModeProduction::exception_revert_encoding(&tables),
        EncodingModeProduction::encode_as_integer(&tables, &panic)
    );
    assert_eq!(
        EncodingModeProduction::exception_revert_encoding(&tables),
        1073
    );
    assert_eq!(tables.table()[1073].opcode, Opcode::Ret(RetOpcode::Panic));
    assert_eq!(
        tables.nop_bitspread(),
        tables.bitmasks()[tables.canonical_index(&nop_opcode_variant()).unwrap()]
    );
    assert_eq!(tables.panic_bitspread(), tables.bitmasks()[1073]);
}

#[test]
fn derived_code_words_are_the_same_in_the_first_version() {
    let tables = OpcodeTables::new(ISAVersion(0)).unwrap();
    assert_eq!(tables.version(), ISAVersion(0));
    assert_eq!(EncodingModeProduction::nop_encoding(&tables), 1);
    assert_eq!(
        EncodingModeProduction::exception_revert_encoding(&tables),
        1073
    );
}

#[test]
fn a_variant_outside_the_table_cannot_be_encoded() {
    let tables = tables();
    let never_synthesized = OpcodeVariant {
        opcode: Opcode::Add(AddOpcode::Add),
        src0_operand_type: Operand::RegOnly,
        dst0_operand_type: Operand::RegOnly,
        flags: [false, false],
    };
    assert_eq!(tables.canonical_index(&never_synthesized), None);
    assert_eq!(tables.monotonic_index(&never_synthesized), None);
    let mut instruction = Instruction::default();
    instruction.variant = never_synthesized;
    assert!(!EncodingModeProduction::is_encodable(&tables, &instruction));
    instruction.variant = add_on_registers();
    assert!(EncodingModeProduction::is_encodable(&tables, &instruction));
    instruction.dst1_reg_idx = 16;
    assert!(!EncodingModeProduction::is_encodable(&tables, &instruction));
    // the first version does not know an immediate offset
    let first = OpcodeTables::new(ISAVersion(0)).unwrap();
    let immediate_offset = OpcodeVariant {
        opcode: Opcode::UMA(UMAOpcode::HeapRead),
        src0_operand_type: Operand::RegOrImm(zkevm_opcode_defs::RegOrImmFlags::UseImm16Only),
        dst0_operand_type: Operand::RegOnly,
        flags: [false, false],
    };
    assert_eq!(first.canonical_index(&immediate_offset), None);
    assert_eq!(tables.canonical_index(&immediate_offset), Some(1085));
    assert_eq!(
        tables.monotonic_index(&immediate_offset),
        Some(VariantMonotonicNumber::from_usize(1085))
    );
}

#[test]
fn masking_keeps_the_immediates() {
    let mut instruction = Instruction {
        variant: add_on_registers(),
        condition: Condition::Gt,
        src0_reg_idx: 1,
        src1_reg_idx: 2,
        dst0_reg_idx: 3,
        dst1_reg_idx: 4,
        imm_0: 5,
        imm_1: 6,
    };
    let mut other = instruction;
    instruction.mask_into_panic();
    assert_eq!(instruction.variant, panic_opcode_variant());
    assert_eq!(instruction.condition, Condition::Always);
    assert_eq!(
        (
            instruction.src0_reg_idx,
            instruction.src1_reg_idx,
            instruction.dst0_reg_idx,
            instruction.dst1_reg_idx
        ),
        (0, 0, 0, 0)
    );
    assert_eq!((instruction.imm_0, instruction.imm_1), (5, 6));
    other.mask_into_nop();
    assert_eq!(other.variant, nop_opcode_variant());
    assert_eq!(other.condition, Condition::Always);
    assert_eq!((other.src0_reg_idx, other.dst1_reg_idx), (0, 0));
    assert_eq!((other.imm_0, other.imm_1), (5, 6));
}

#[test]
fn default_instruction_is_a_plain_nop_on_registers() {
    let instruction = Instruction::default();
    assert_eq!(instruction.variant, OpcodeVariant::default());
    assert_eq!(
        instruction.variant.opcode,
        Opcode::Nop(zkevm_opcode_defs::NopOpcode)
    );
    assert_eq!(instruction.variant.src0_operand_type, Operand::RegOnly);
    assert_eq!(instruction.condition, Condition::Always);
    assert_eq!((instruction.imm_0, instruction.imm_1), (0, 0));
}

#[test]
fn variant_and_condition_of_a_word() {
    let tables = tables();
    let raw = 25u64 | (5u64 << 13) | (0xffff_ffffu64 << 32);
    let (variant, condition, slot) =
        EncodingModeProduction::variant_and_condition_from_u64_word(&tables, raw);
    assert_eq!(variant, add_on_registers());
    assert_eq!(condition, Condition::Le);
    assert_eq!(slot, 25);
}

#[test]
fn program_counter_splits_into_word_and_place() {
    assert_eq!(EncodingModeProduction::split_pc(0), (0, 0));
    assert_eq!(EncodingModeProduction::split_pc(7), (1, 3));
    assert_eq!(EncodingModeProduction::split_pc(0xffff), (0x3fff, 3));
}

#[test]
fn code_words_of_a_memory_word() {
    let word = U256([4, 3, 2, 1]);
    assert_eq!(
        EncodingModeProduction::integer_representaiton_from_u256(word, 0),
        1
    );
    assert_eq!(
        EncodingModeProduction::integer_representaiton_from_u256(word, 1),
        2
    );
    assert_eq!(
        EncodingModeProduction::integer_representaiton_from_u256(word, 2),
        3
    );
    assert_eq!(
        EncodingModeProduction::integer_representaiton_from_u256(word, 3),
        4
    );
}

#[test]
fn integers_are_written_big_endian() {
    assert_eq!(
        0x0102_0304_0506_0708u64.encode_as_bytes(),
        [1, 2, 3, 4, 5, 6, 7, 8]
    );
    assert_eq!(
        0x0102_0304_0506_0708_090a_0b0c_0d0e_0f10u128.encode_as_bytes(),
        [1, 2, 3, 4, 5, 6, 7, 8, 9, 10, 11, 12, 13, 14, 15, 16]
    );
    assert_eq!(u64::MAX.encode_as_bytes(), [0xff; 8]);
    assert_eq!(0u128.encode_as_bytes(), [0; 16]);
}

#[test]
fn program_counters_clip_and_wrap() {
    assert_eq!(<u16 as AllowedPcOrImm>::from_u64_clipped(0x1_2345), 0x2345);
    assert_eq!(
        <u32 as AllowedPcOrImm>::from_u64_clipped(0x1_2345_6789),
        0x2345_6789
    );
    assert_eq!(AllowedPcOrImm::as_u64(7u16), 7);
    assert_eq!(AllowedPcOrImm::as_u64(u32::MAX), 0xffff_ffff);
    assert_eq!(AllowedPcOrImm::wrapping_add(0xffffu16, 2), 1);
    assert_eq!(AllowedPcOrImm::wrapping_sub(0u16, 1), 0xffff);
    assert_eq!(AllowedPcOrImm::wrapping_add(0xffff_ffffu32, 2), 1);
    assert_eq!(AllowedPcOrImm::wrapping_sub(1u32, 2), 0xffff_ffff);
    assert_eq!(<u16 as AllowedPcOrImm>::max(), u16::MAX);
    assert_eq!(<u32 as AllowedPcOrImm>::max(), u32::MAX);
}
