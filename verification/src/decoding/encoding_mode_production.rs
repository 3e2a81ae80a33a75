//! The production layout of a code word, on 64 bits.
//!
//! From the least significant bit: eleven bits for the slot of the variant in
//! the decoding table, two reserved bits that are zero, three bits for the
//! condition, four nibbles for the registers (first source, second source,
//! first destination, second destination), and sixteen bits for each of the
//! two immediates.

use vstd::prelude::*;
use ethereum_types::U256;
use crate::decoding::{
    AllowedIntegerRepresentation, AllowedPcOrImm, VariantMonotonicNumber, VmEncodingMode,
};
use crate::definitions::condition::{lemma_condition_index_round_trip, Condition};
use crate::definitions::variant::OpcodeVariant;
use crate::opcode::DecodedOpcode;
use crate::definitions::content::{
    is_variant_of_version, lemma_table_content, lemma_table_variants, lemma_tables_exist,
};
use crate::definitions::opcode_trait::ISAVersion;
use crate::definitions::stability::{lemma_table_shape, spec_num_non_padding_slots};
use crate::definitions::synthesis::synthesis_prefix;
use crate::tables::{
    lemma_index_decides_membership, nop_opcode_variant, panic_opcode_variant,
    spec_nop_opcode_variant, spec_panic_opcode_variant, spec_variant_key, OpcodeTables,
};
use crate::u256::u256_to_words;
use crate::utils::{merge_u4, split_as_u4};
use crate::{DST_REGS_SHIFT, OPCODES_TABLE_SIZE, OPCODES_TABLE_WIDTH, SRC_REGS_SHIFT};

verus! {

#[derive(Clone, Copy, Debug, PartialEq, Eq, Hash, Structural)]
pub struct EncodingModeProduction;

/// The slot of the variant: bits 0 to 10.
pub open spec fn spec_variant_bits(raw: u64) -> usize {
    (raw % 0x800) as usize
}

/// The reserved bits: bits 11 and 12.
pub open spec fn spec_reserved_bits(raw: u64) -> u64 {
    (raw / 0x800) % 4
}

/// The index of the condition: bits 13 to 15.
pub open spec fn spec_condition_bits(raw: u64) -> usize {
    ((raw / 0x2000) % 8) as usize
}

/// The register of the first source: bits 16 to 19.
pub open spec fn spec_src0_bits(raw: u64) -> u8 {
    ((raw / 0x1_0000) % 16) as u8
}

/// The register of the second source: bits 20 to 23.
pub open spec fn spec_src1_bits(raw: u64) -> u8 {
    ((raw / 0x10_0000) % 16) as u8
}

/// The register of the first destination: bits 24 to 27.
pub open spec fn spec_dst0_bits(raw: u64) -> u8 {
    ((raw / 0x100_0000) % 16) as u8
}

/// The register of the second destination: bits 28 to 31.
pub open spec fn spec_dst1_bits(raw: u64) -> u8 {
    ((raw / 0x1000_0000) % 16) as u8
}

/// The first immediate: bits 32 to 47.
pub open spec fn spec_imm0_bits(raw: u64) -> u16 {
    ((raw / 0x1_0000_0000) % 0x1_0000) as u16
}

/// The second immediate: bits 48 to 63.
pub open spec fn spec_imm1_bits(raw: u64) -> u16 {
    (raw / 0x1_0000_0000_0000) as u16
}

/// The code word with the given fields and the reserved bits zero.
pub open spec fn spec_pack(
    variant_bits: usize,
    condition: usize,
    src0: u8,
    src1: u8,
    dst0: u8,
    dst1: u8,
    imm_0: u16,
    imm_1: u16,
) -> u64 {
    (variant_bits + condition * 0x2000 + src0 * 0x1_0000 + src1 * 0x10_0000 + dst0 * 0x100_0000
        + dst1 * 0x1000_0000 + imm_0 * 0x1_0000_0000 + imm_1 * 0x1_0000_0000_0000) as u64
}

/// Whether the fields fit the bits that the layout gives them.
pub open spec fn fields_fit(
    variant_bits: usize,
    condition: usize,
    src0: u8,
    src1: u8,
    dst0: u8,
    dst1: u8,
) -> bool {
    variant_bits < 0x800 && condition < 8 && src0 < 16 && src1 < 16 && dst0 < 16 && dst1 < 16
}

/// Packing fields that fit loses nothing: every field can be read back, and
/// the reserved bits are zero.
pub proof fn lemma_pack_unpack(
    variant_bits: usize,
    condition: usize,
    src0: u8,
    src1: u8,
    dst0: u8,
    dst1: u8,
    imm_0: u16,
    imm_1: u16,
)
    requires
        fields_fit(variant_bits, condition, src0, src1, dst0, dst1),
    ensures
        ({
            let raw = spec_pack(variant_bits, condition, src0, src1, dst0, dst1, imm_0, imm_1);
            &&& spec_variant_bits(raw) == variant_bits
            &&& spec_reserved_bits(raw) == 0
            &&& spec_condition_bits(raw) == condition
            &&& spec_src0_bits(raw) == src0
            &&& spec_src1_bits(raw) == src1
            &&& spec_dst0_bits(raw) == dst0
            &&& spec_dst1_bits(raw) == dst1
            &&& spec_imm0_bits(raw) == imm_0
            &&& spec_imm1_bits(raw) == imm_1
        }),
{
    let a = variant_bits as u64;
    let c = condition as u64;
    let s0 = src0 as u64;
    let s1 = src1 as u64;
    let d0 = dst0 as u64;
    let d1 = dst1 as u64;
    let i0 = imm_0 as u64;
    let i1 = imm_1 as u64;
    let raw = spec_pack(variant_bits, condition, src0, src1, dst0, dst1, imm_0, imm_1);
    assert(raw == a + c * 0x2000 + s0 * 0x1_0000 + s1 * 0x10_0000 + d0 * 0x100_0000 + d1
        * 0x1000_0000 + i0 * 0x1_0000_0000 + i1 * 0x1_0000_0000_0000);
    assert(raw % 0x800 == a && (raw / 0x800) % 4 == 0 && (raw / 0x2000) % 8 == c && (raw
        / 0x1_0000) % 16 == s0 && (raw / 0x10_0000) % 16 == s1 && (raw / 0x100_0000) % 16 == d0
        && (raw / 0x1000_0000) % 16 == d1 && (raw / 0x1_0000_0000) % 0x1_0000 == i0 && raw
        / 0x1_0000_0000_0000 == i1) by (bit_vector)
        requires
            a < 0x800 && c < 8 && s0 < 16 && s1 < 16 && d0 < 16 && d1 < 16 && i0 < 0x1_0000 && i1
                < 0x1_0000,
            raw == a + c * 0x2000 + s0 * 0x1_0000 + s1 * 0x10_0000 + d0 * 0x100_0000 + d1
                * 0x1000_0000 + i0 * 0x1_0000_0000 + i1 * 0x1_0000_0000_0000,
    ;
}

/// A canonical code word is made of its fields.
pub proof fn lemma_unpack_pack(raw: u64)
    requires
        spec_reserved_bits(raw) == 0,
    ensures
        raw == spec_pack(
            spec_variant_bits(raw),
            spec_condition_bits(raw),
            spec_src0_bits(raw),
            spec_src1_bits(raw),
            spec_dst0_bits(raw),
            spec_dst1_bits(raw),
            spec_imm0_bits(raw),
            spec_imm1_bits(raw),
        ),
{
    assert(raw == raw % 0x800 + ((raw / 0x2000) % 8) * 0x2000 + ((raw / 0x1_0000) % 16)
        * 0x1_0000 + ((raw / 0x10_0000) % 16) * 0x10_0000 + ((raw / 0x100_0000) % 16)
        * 0x100_0000 + ((raw / 0x1000_0000) % 16) * 0x1000_0000 + ((raw / 0x1_0000_0000)
        % 0x1_0000) * 0x1_0000_0000 + (raw / 0x1_0000_0000_0000) * 0x1_0000_0000_0000)
        by (bit_vector)
        requires
            (raw / 0x800) % 4 == 0,
    ;
}

/// A code word with one of the two reserved bits set is not canonical,
/// whatever its other bits.
pub proof fn lemma_reserved_bit_breaks_canonicality(raw: u64)
    ensures
        (raw & 0x800 != 0 || raw & 0x1000 != 0) <==> spec_reserved_bits(raw) != 0,
        spec_reserved_bits(raw) != 0 ==> !EncodingModeProduction::spec_is_canonical_encoding(raw),
{
    assert((raw & 0x800 != 0 || raw & 0x1000 != 0) <==> (raw / 0x800) % 4 != 0) by (bit_vector);
}

impl EncodingModeProduction {
    pub const IMM0_SHIFT: u32 = 32;

    pub const IMM1_SHIFT: u32 = 48;

    pub const VARIANT_AND_CONDITION_BITS: usize = 16;

    /// The bits of the slot.
    pub const VARIANT_MASK: u64 = 0x7ff;

    /// The bits of the condition.
    pub const CONDITION_MASK: u64 = 0xe000;

    /// As many ones as there are reserved bits.
    pub const UNUSED_GAP_RAW_MASK: u64 = 0x3;

    /// The reserved bits.
    pub const UNUSED_BITS_MASK: u64 = 0x1800;

    /// The variant in the slot that the code word names, the condition of the
    /// code word, and the slot.
    pub fn variant_and_condition_from_u64_word(tables: &OpcodeTables, raw_value: u64) -> (r: (
        OpcodeVariant,
        Condition,
        usize,
    ))
        ensures
            tables.wf(),
            r.0 == tables.spec_table()[spec_variant_bits(raw_value) as int],
            r.1 == Condition::spec_materialize_variant(spec_condition_bits(raw_value)),
            r.2 == spec_variant_bits(raw_value),
            r.2 < OPCODES_TABLE_SIZE,
    {
        let variant_bits = raw_value & Self::VARIANT_MASK;
        assert(raw_value & 0x7ff == raw_value % 0x800) by (bit_vector);
        let opcode_variant = tables.variant_at(variant_bits as usize);
        let condition_bits = (raw_value & Self::CONDITION_MASK) >> 13;
        assert((raw_value & 0xe000) >> 13 == (raw_value / 0x2000) % 8) by (bit_vector);
        let condition = Condition::materialize_variant(condition_bits as usize);
        (opcode_variant, condition, variant_bits as usize)
    }
}

/// A code word with a reserved bit set: it is not canonical and holds no
/// instruction.
#[derive(Clone, Copy, Debug, PartialEq, Eq, Hash, Structural)]
pub struct NonCanonicalEncoding;

impl EncodingModeProduction {
    /// The instruction that a code word holds and the slot of its variant, or
    /// the failure that a code word with a reserved bit set is. The caller
    /// masks such a code word into a panic.
    pub fn decode(tables: &OpcodeTables, raw_value: u64) -> (r: Result<
        (DecodedOpcode<8, Self>, VariantMonotonicNumber),
        NonCanonicalEncoding,
    >)
        ensures
            match r {
                Ok(decoded) => Self::spec_is_canonical_encoding(raw_value) && decoded
                    == Self::spec_parse(tables, raw_value),
                Err(_) => !Self::spec_is_canonical_encoding(raw_value),
            },
    {
        if !Self::is_canonical_encoding(raw_value) {
            return Err(NonCanonicalEncoding);
        }
        Ok(Self::parse_preliminary_variant_and_absolute_number(tables, raw_value))
    }

    /// Whether the instruction has a code word: the table holds its variant and
    /// its register indices fit four bits each.
    pub fn is_encodable(tables: &OpcodeTables, opcode: &DecodedOpcode<8, Self>) -> (r: bool)
        ensures
            r == Self::spec_is_encodable(tables, opcode),
    {
        tables.canonical_index(&opcode.variant).is_some() && opcode.src0_reg_idx < 16
            && opcode.src1_reg_idx < 16 && opcode.dst0_reg_idx < 16 && opcode.dst1_reg_idx < 16
    }
}

/// The masks of the layout are what the widths of its fields make them.
pub proof fn lemma_masks()
    ensures
        EncodingModeProduction::VARIANT_MASK == (1u64 << 11) - 1,
        EncodingModeProduction::CONDITION_MASK == 7u64 << 13,
        EncodingModeProduction::UNUSED_GAP_RAW_MASK == (1u64 << 2) - 1,
        EncodingModeProduction::UNUSED_BITS_MASK == EncodingModeProduction::UNUSED_GAP_RAW_MASK
            << 11,
{
    assert(0x7ffu64 == (1u64 << 11) - 1 && 0xe000u64 == 7u64 << 13 && 0x3u64 == (1u64 << 2) - 1
        && 0x1800u64 == 0x3u64 << 11) by (bit_vector);
}

impl VmEncodingMode<8> for EncodingModeProduction {
    type PcOrImm = u16;

    type IntegerRepresentation = u64;

    open spec fn spec_is_encodable(tables: &OpcodeTables, opcode: &DecodedOpcode<8, Self>) -> bool {
        &&& tables.spec_table().contains(opcode.variant)
        &&& opcode.src0_reg_idx < 16
        &&& opcode.src1_reg_idx < 16
        &&& opcode.dst0_reg_idx < 16
        &&& opcode.dst1_reg_idx < 16
    }

    open spec fn spec_encode_as_integer(
        tables: &OpcodeTables,
        opcode: &DecodedOpcode<8, Self>,
    ) -> u64 {
        spec_pack(
            tables.spec_canonical_index(opcode.variant)->0,
            opcode.condition.spec_variant_index(),
            opcode.src0_reg_idx,
            opcode.src1_reg_idx,
            opcode.dst0_reg_idx,
            opcode.dst1_reg_idx,
            opcode.imm_0,
            opcode.imm_1,
        )
    }

    open spec fn spec_parse(tables: &OpcodeTables, integer_representaiton: u64) -> (
        DecodedOpcode<8, Self>,
        VariantMonotonicNumber,
    ) {
        (
            DecodedOpcode {
                variant: tables.spec_table()[spec_variant_bits(integer_representaiton) as int],
                condition: Condition::spec_materialize_variant(
                    spec_condition_bits(integer_representaiton),
                ),
                src0_reg_idx: spec_src0_bits(integer_representaiton),
                src1_reg_idx: spec_src1_bits(integer_representaiton),
                dst0_reg_idx: spec_dst0_bits(integer_representaiton),
                dst1_reg_idx: spec_dst1_bits(integer_representaiton),
                imm_0: spec_imm0_bits(integer_representaiton),
                imm_1: spec_imm1_bits(integer_representaiton),
            },
            VariantMonotonicNumber(spec_variant_bits(integer_representaiton)),
        )
    }

    open spec fn spec_is_canonical_encoding(value: u64) -> bool {
        spec_reserved_bits(value) == 0
    }

    open spec fn spec_split_pc(pc: u16) -> (u16, u16) {
        (pc / 4, pc % 4)
    }

    open spec fn spec_code_words_per_word() -> nat {
        4
    }

    /// The code words of a word of memory are its limbs, the most significant
    /// first.
    open spec fn spec_integer_representaiton_from_words(words: Seq<u64>, index: u16) -> u64 {
        words[3 - index]
    }

    fn nop_encoding(tables: &OpcodeTables) -> (r: u64) {
        let variant = nop_opcode_variant();
        let full_nop_opcode = DecodedOpcode::<8, Self> {
            variant,
            condition: Condition::Always,
            src0_reg_idx: 0,
            src1_reg_idx: 0,
            dst0_reg_idx: 0,
            dst1_reg_idx: 0,
            imm_0: u16::from_u64_clipped(0),
            imm_1: u16::from_u64_clipped(0),
        };
        proof {
            use_type_invariant(tables);
        }
        Self::encode_as_integer(tables, &full_nop_opcode)
    }

    fn exception_revert_encoding(tables: &OpcodeTables) -> (r: u64) {
        // ret.panic r0
        let variant = panic_opcode_variant();
        let full_panic_opcode = DecodedOpcode::<8, Self> {
            variant,
            condition: Condition::Always,
            src0_reg_idx: 0,
            src1_reg_idx: 0,
            dst0_reg_idx: 0,
            dst1_reg_idx: 0,
            imm_0: u16::from_u64_clipped(0),
            imm_1: u16::from_u64_clipped(0),
        };
        proof {
            use_type_invariant(tables);
        }
        Self::encode_as_integer(tables, &full_panic_opcode)
    }

    fn parse_preliminary_variant_and_absolute_number(
        tables: &OpcodeTables,
        integer_representaiton: u64,
    ) -> (r: (DecodedOpcode<8, Self>, VariantMonotonicNumber)) {
        let raw_value = integer_representaiton;
        let (variant, condition, variant_bits) = Self::variant_and_condition_from_u64_word(
            tables,
            raw_value,
        );
        // The rest is read as plain integers.
        assert((raw_value >> 16) & 0xff == (raw_value / 0x1_0000) % 256 && (raw_value >> 24) & 0xff
            == (raw_value / 0x100_0000) % 256 && (raw_value >> 32) & 0xffff == (raw_value
            / 0x1_0000_0000) % 0x1_0000 && raw_value >> 48 == raw_value / 0x1_0000_0000_0000
            && raw_value >> 48 <= 0xffff) by (bit_vector);
        let src_byte = ((raw_value >> SRC_REGS_SHIFT) & 0xff) as u8;
        let dst_byte = ((raw_value >> DST_REGS_SHIFT) & 0xff) as u8;
        let imm_0 = ((raw_value >> Self::IMM0_SHIFT) & 0xffff) as u16;
        let imm_1 = (raw_value >> Self::IMM1_SHIFT) as u16;
        let (src0_reg_idx, src1_reg_idx) = split_as_u4(src_byte);
        let (dst0_reg_idx, dst1_reg_idx) = split_as_u4(dst_byte);
        assert(((raw_value / 0x1_0000) % 256) % 16 == (raw_value / 0x1_0000) % 16 && ((raw_value
            / 0x1_0000) % 256) / 16 == (raw_value / 0x10_0000) % 16 && ((raw_value / 0x100_0000)
            % 256) % 16 == (raw_value / 0x100_0000) % 16 && ((raw_value / 0x100_0000) % 256) / 16
            == (raw_value / 0x1000_0000) % 16) by (bit_vector);
        let new = DecodedOpcode {
            variant,
            condition,
            src0_reg_idx,
            src1_reg_idx,
            dst0_reg_idx,
            dst1_reg_idx,
            imm_0,
            imm_1,
        };
        (new, VariantMonotonicNumber::from_usize(variant_bits))
    }

    fn encode_as_integer(tables: &OpcodeTables, opcode: &DecodedOpcode<8, Self>) -> (r: u64) {
        let variant_bits = match tables.canonical_index(&opcode.variant) {
            Some(variant_bits) => variant_bits,
            None => 0,
        };
        let condition = opcode.condition.variant_index();
        let src_registers_byte = merge_u4(opcode.src0_reg_idx, opcode.src1_reg_idx);
        let dst_registers_byte = merge_u4(opcode.dst0_reg_idx, opcode.dst1_reg_idx);
        let a = variant_bits as u64;
        let c = condition as u64;
        let s = src_registers_byte as u64;
        let d = dst_registers_byte as u64;
        let i0 = opcode.imm_0 as u64;
        let i1 = opcode.imm_1 as u64;

        let mut encoding: u64 = 0;
        encoding |= a;
        encoding |= c << 13;
        encoding |= s << 16;
        encoding |= d << 24;
        encoding |= i0 << 32;
        encoding |= i1 << 48;
        assert(encoding == a + c * 0x2000 + s * 0x1_0000 + d * 0x100_0000 + i0 * 0x1_0000_0000 + i1
            * 0x1_0000_0000_0000) by (bit_vector)
            requires
                a < 0x800 && c < 8 && s < 256 && d < 256 && i0 < 0x1_0000 && i1 < 0x1_0000,
                encoding == 0 | a | (c << 13) | (s << 16) | (d << 24) | (i0 << 32) | (i1 << 48),
        ;
        encoding
    }

    fn encode_as_bytes(tables: &OpcodeTables, opcode: &DecodedOpcode<8, Self>) -> (r: [u8; 8]) {
        Self::encode_as_integer(tables, opcode).encode_as_bytes()
    }

    fn split_pc(pc: u16) -> (r: (u16, u16)) {
        assert(pc >> 2 == pc / 4 && pc & 0b11 == pc % 4) by (bit_vector);
        (pc >> 2, pc & 0b11)
    }

    fn integer_representaiton_from_u256(value: U256, index: u16) -> (r: u64) {
        let words = u256_to_words(&value);
        match index {
            0 => words[3],
            1 => words[2],
            2 => words[1],
            _ => words[0],
        }
    }

    fn is_canonical_encoding(value: u64) -> (r: bool) {
        let unused_bits = value & Self::UNUSED_BITS_MASK;
        assert((value & 0x1800 == 0) <==> ((value / 0x800) % 4 == 0)) by (bit_vector);
        unused_bits == 0
    }
}

/// Encoding and then decoding gives the instruction back: its variant, its
/// condition, its registers and its immediates, and with them the slot of the
/// variant. The code word is canonical.
pub proof fn lemma_encode_decode_round_trip(
    tables: OpcodeTables,
    opcode: DecodedOpcode<8, EncodingModeProduction>,
)
    requires
        tables.wf(),
        EncodingModeProduction::spec_is_encodable(&tables, &opcode),
    ensures
        EncodingModeProduction::spec_parse(
            &tables,
            EncodingModeProduction::spec_encode_as_integer(&tables, &opcode),
        ).0 == opcode,
        Some(
            EncodingModeProduction::spec_parse(
                &tables,
                EncodingModeProduction::spec_encode_as_integer(&tables, &opcode),
            ).1.0,
        ) == tables.spec_canonical_index(opcode.variant),
        EncodingModeProduction::spec_is_canonical_encoding(
            EncodingModeProduction::spec_encode_as_integer(&tables, &opcode),
        ),
{
    lemma_index_decides_membership(tables.spec_index(), tables.spec_table(), opcode.variant);
    let index = tables.spec_canonical_index(opcode.variant)->0;
    lemma_condition_index_round_trip(opcode.condition, 0);
    lemma_pack_unpack(
        index,
        opcode.condition.spec_variant_index(),
        opcode.src0_reg_idx,
        opcode.src1_reg_idx,
        opcode.dst0_reg_idx,
        opcode.dst1_reg_idx,
        opcode.imm_0,
        opcode.imm_1,
    );
}

/// The two derived code words are nothing but the slots of their variants:
/// every other field of them is zero. They follow the table, whatever slots a
/// synthesis gives the two variants.
pub proof fn lemma_derived_code_words(tables: OpcodeTables)
    requires
        tables.wf(),
    ensures
        tables.spec_canonical_index(spec_nop_opcode_variant()) is Some,
        tables.spec_canonical_index(spec_panic_opcode_variant()) is Some,
        EncodingModeProduction::spec_encode_as_integer(
            &tables,
            &DecodedOpcode::<8, EncodingModeProduction>::spec_nop(),
        ) == tables.spec_canonical_index(spec_nop_opcode_variant())->0,
        EncodingModeProduction::spec_encode_as_integer(
            &tables,
            &DecodedOpcode::<8, EncodingModeProduction>::spec_panic(),
        ) == tables.spec_canonical_index(spec_panic_opcode_variant())->0,
{
    lemma_index_decides_membership(
        tables.spec_index(),
        tables.spec_table(),
        spec_nop_opcode_variant(),
    );
    lemma_index_decides_membership(
        tables.spec_index(),
        tables.spec_table(),
        spec_panic_opcode_variant(),
    );
}

/// Every instruction that the instruction set has can be written down and read
/// back: one of a variant of the version of the tables, with registers that
/// exist.
pub proof fn lemma_every_instruction_round_trips(
    tables: OpcodeTables,
    opcode: DecodedOpcode<8, EncodingModeProduction>,
)
    requires
        tables.wf(),
        is_variant_of_version(
            opcode.variant,
            if tables.spec_version().0 == 0 {
                ISAVersion(0)
            } else {
                ISAVersion(1)
            },
        ),
        opcode.src0_reg_idx < 16,
        opcode.src1_reg_idx < 16,
        opcode.dst0_reg_idx < 16,
        opcode.dst1_reg_idx < 16,
    ensures
        EncodingModeProduction::spec_is_encodable(&tables, &opcode),
        EncodingModeProduction::spec_parse(
            &tables,
            EncodingModeProduction::spec_encode_as_integer(&tables, &opcode),
        ).0 == opcode,
{
    lemma_tables_exist(tables.spec_version());
    lemma_table_content(OPCODES_TABLE_WIDTH, tables.spec_version(), opcode.variant);
    lemma_encode_decode_round_trip(tables, opcode);
}

/// Decoding a canonical code word and encoding the instruction gives the code
/// word back, provided that the slot which the code word names is the first of
/// its variant: every slot but the padding behind slot zero is.
pub proof fn lemma_decode_encode_round_trip(tables: OpcodeTables, raw: u64)
    requires
        tables.wf(),
        EncodingModeProduction::spec_is_canonical_encoding(raw),
        tables.spec_canonical_index(tables.spec_table()[spec_variant_bits(raw) as int]) == Some(
            spec_variant_bits(raw),
        ),
    ensures
        EncodingModeProduction::spec_is_encodable(
            &tables,
            &EncodingModeProduction::spec_parse(&tables, raw).0,
        ),
        EncodingModeProduction::spec_encode_as_integer(
            &tables,
            &EncodingModeProduction::spec_parse(&tables, raw).0,
        ) == raw,
{
    let decoded = EncodingModeProduction::spec_parse(&tables, raw).0;
    lemma_index_decides_membership(tables.spec_index(), tables.spec_table(), decoded.variant);
    lemma_condition_index_round_trip(Condition::Always, spec_condition_bits(raw));
    lemma_unpack_pack(raw);
}

/// Every slot that holds a variant of the version is the slot of its variant:
/// a canonical code word that names such a slot is the code word of the
/// instruction that it holds.
pub proof fn lemma_code_words_are_unique(tables: OpcodeTables, raw: u64)
    requires
        tables.wf(),
        EncodingModeProduction::spec_is_canonical_encoding(raw),
        spec_variant_bits(raw) < spec_num_non_padding_slots(tables.spec_version()),
    ensures
        tables.spec_canonical_index(tables.spec_table()[spec_variant_bits(raw) as int]) == Some(
            spec_variant_bits(raw),
        ),
        EncodingModeProduction::spec_encode_as_integer(
            &tables,
            &EncodingModeProduction::spec_parse(&tables, raw).0,
        ) == raw,
{
    let version = tables.spec_version();
    let slot = spec_variant_bits(raw) as int;
    let table = tables.spec_table();
    lemma_table_variants(version);
    lemma_tables_exist(version);
    lemma_table_shape(OPCODES_TABLE_WIDTH, version);
    let variants = synthesis_prefix(version, 2)->Ok_0;
    lemma_index_decides_membership(tables.spec_index(), table, table[slot]);
    let first = tables.spec_index()[spec_variant_key(table[slot])] as int;
    assert(table[first] == table[slot]);
    assert(first <= slot);
    if first < slot {
        assert(variants[first] != variants[slot]);
    }
    lemma_decode_encode_round_trip(tables, raw);
}

} // verus!
