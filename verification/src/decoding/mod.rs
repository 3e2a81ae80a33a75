//! Encoding modes: how a decoded instruction and a code word turn into each
//! other.

use vstd::prelude::*;
use ethereum_types::U256;
use crate::opcode::DecodedOpcode;
use crate::definitions::condition::Condition;
use crate::tables::{spec_nop_opcode_variant, spec_panic_opcode_variant, OpcodeTables};

pub mod encoding_mode_production;

verus! {

/// The slot of a variant in the decoding table.
#[derive(Clone, Copy, Debug, PartialEq, Eq, Hash, Structural)]
pub struct VariantMonotonicNumber(pub usize);

impl VariantMonotonicNumber {
    pub fn from_usize(value: usize) -> (r: Self)
        ensures
            r == VariantMonotonicNumber(value),
    {
        Self(value)
    }

    pub fn into_usize(self) -> (r: usize)
        ensures
            r == self.0,
    {
        self.0
    }
}

/// `256^k`.
pub open spec fn pow256(k: nat) -> nat
    decreases k,
{
    if k == 0 {
        1
    } else {
        256 * pow256((k - 1) as nat)
    }
}

/// The digit of weight `256^k` of a number written to the base 256.
pub open spec fn byte_of(value: nat, k: nat) -> u8 {
    ((value / pow256(k)) % 256) as u8
}

/// Whether `bytes` writes `value` to the base 256, the most significant digit
/// first.
pub open spec fn is_big_endian_of(bytes: Seq<u8>, value: nat) -> bool {
    forall|i: int| 0 <= i < bytes.len() ==> #[trigger] bytes[i] == byte_of(
        value,
        (bytes.len() - 1 - i) as nat,
    )
}

/// An integer that can hold a code word of `N` bytes.
pub trait AllowedIntegerRepresentation<const N: usize>: Sized + Copy {
    spec fn spec_as_nat(self) -> nat;

    /// The bytes of the integer, the most significant first.
    fn encode_as_bytes(self) -> (r: [u8; N])
        ensures
            is_big_endian_of(r@, self.spec_as_nat()),
    ;
}

/// The powers of 256 that a code word of sixteen bytes needs.
pub proof fn lemma_pow256_values()
    ensures
        pow256(0) == 1,
        pow256(1) == 0x100,
        pow256(2) == 0x10000,
        pow256(3) == 0x1000000,
        pow256(4) == 0x100000000,
        pow256(5) == 0x10000000000,
        pow256(6) == 0x1000000000000,
        pow256(7) == 0x100000000000000,
        pow256(8) == 0x10000000000000000,
        pow256(9) == 0x1000000000000000000,
        pow256(10) == 0x100000000000000000000,
        pow256(11) == 0x10000000000000000000000,
        pow256(12) == 0x1000000000000000000000000,
        pow256(13) == 0x100000000000000000000000000,
        pow256(14) == 0x10000000000000000000000000000,
        pow256(15) == 0x1000000000000000000000000000000,
{
    reveal_with_fuel(pow256, 2);
    assert(pow256(0) == 1);
    assert(pow256(1) == 0x100);
    assert(pow256(2) == 0x10000);
    assert(pow256(3) == 0x1000000);
    assert(pow256(4) == 0x100000000);
    assert(pow256(5) == 0x10000000000);
    assert(pow256(6) == 0x1000000000000);
    assert(pow256(7) == 0x100000000000000);
    assert(pow256(8) == 0x10000000000000000);
    assert(pow256(9) == 0x1000000000000000000);
    assert(pow256(10) == 0x100000000000000000000);
    assert(pow256(11) == 0x10000000000000000000000);
    assert(pow256(12) == 0x1000000000000000000000000);
    assert(pow256(13) == 0x100000000000000000000000000);
    assert(pow256(14) == 0x10000000000000000000000000000);
    assert(pow256(15) == 0x1000000000000000000000000000000);
}

/// The digits of a 128-bit number to the base 256 are its bytes.
pub proof fn lemma_u128_bytes(x: u128)
    ensures
        (x & 0xff) as u8 == byte_of(x as nat, 0),
        ((x >> 8) & 0xff) as u8 == byte_of(x as nat, 1),
        ((x >> 16) & 0xff) as u8 == byte_of(x as nat, 2),
        ((x >> 24) & 0xff) as u8 == byte_of(x as nat, 3),
        ((x >> 32) & 0xff) as u8 == byte_of(x as nat, 4),
        ((x >> 40) & 0xff) as u8 == byte_of(x as nat, 5),
        ((x >> 48) & 0xff) as u8 == byte_of(x as nat, 6),
        ((x >> 56) & 0xff) as u8 == byte_of(x as nat, 7),
        ((x >> 64) & 0xff) as u8 == byte_of(x as nat, 8),
        ((x >> 72) & 0xff) as u8 == byte_of(x as nat, 9),
        ((x >> 80) & 0xff) as u8 == byte_of(x as nat, 10),
        ((x >> 88) & 0xff) as u8 == byte_of(x as nat, 11),
        ((x >> 96) & 0xff) as u8 == byte_of(x as nat, 12),
        ((x >> 104) & 0xff) as u8 == byte_of(x as nat, 13),
        ((x >> 112) & 0xff) as u8 == byte_of(x as nat, 14),
        ((x >> 120) & 0xff) as u8 == byte_of(x as nat, 15),
{
    lemma_pow256_values();
    assert(x & 0xff == (x / 1) % 256
        && x & 0xff <= 0xff
        && (x >> 8) & 0xff == (x / 0x100) % 256
        && (x >> 8) & 0xff <= 0xff
        && (x >> 16) & 0xff == (x / 0x10000) % 256
        && (x >> 16) & 0xff <= 0xff
        && (x >> 24) & 0xff == (x / 0x1000000) % 256
        && (x >> 24) & 0xff <= 0xff) by (bit_vector);
    assert((x >> 32) & 0xff == (x / 0x100000000) % 256
        && (x >> 32) & 0xff <= 0xff
        && (x >> 40) & 0xff == (x / 0x10000000000) % 256
        && (x >> 40) & 0xff <= 0xff
        && (x >> 48) & 0xff == (x / 0x1000000000000) % 256
        && (x >> 48) & 0xff <= 0xff
        && (x >> 56) & 0xff == (x / 0x100000000000000) % 256
        && (x >> 56) & 0xff <= 0xff) by (bit_vector);
    assert((x >> 64) & 0xff == (x / 0x10000000000000000) % 256
        && (x >> 64) & 0xff <= 0xff
        && (x >> 72) & 0xff == (x / 0x1000000000000000000) % 256
        && (x >> 72) & 0xff <= 0xff
        && (x >> 80) & 0xff == (x / 0x100000000000000000000) % 256
        && (x >> 80) & 0xff <= 0xff
        && (x >> 88) & 0xff == (x / 0x10000000000000000000000) % 256
        && (x >> 88) & 0xff <= 0xff) by (bit_vector);
    assert((x >> 96) & 0xff == (x / 0x1000000000000000000000000) % 256
        && (x >> 96) & 0xff <= 0xff
        && (x >> 104) & 0xff == (x / 0x100000000000000000000000000) % 256
        && (x >> 104) & 0xff <= 0xff
        && (x >> 112) & 0xff == (x / 0x10000000000000000000000000000) % 256
        && (x >> 112) & 0xff <= 0xff
        && (x >> 120) & 0xff == (x / 0x1000000000000000000000000000000) % 256
        && (x >> 120) & 0xff <= 0xff) by (bit_vector);
}

/// The digits of a 64-bit number to the base 256 are its bytes.
pub proof fn lemma_u64_bytes(x: u64)
    ensures
        (x & 0xff) as u8 == byte_of(x as nat, 0),
        ((x >> 8) & 0xff) as u8 == byte_of(x as nat, 1),
        ((x >> 16) & 0xff) as u8 == byte_of(x as nat, 2),
        ((x >> 24) & 0xff) as u8 == byte_of(x as nat, 3),
        ((x >> 32) & 0xff) as u8 == byte_of(x as nat, 4),
        ((x >> 40) & 0xff) as u8 == byte_of(x as nat, 5),
        ((x >> 48) & 0xff) as u8 == byte_of(x as nat, 6),
        ((x >> 56) & 0xff) as u8 == byte_of(x as nat, 7),
{
    lemma_pow256_values();
    assert(x & 0xff == (x / 1) % 256
        && x & 0xff <= 0xff
        && (x >> 8) & 0xff == (x / 0x100) % 256
        && (x >> 8) & 0xff <= 0xff
        && (x >> 16) & 0xff == (x / 0x10000) % 256
        && (x >> 16) & 0xff <= 0xff
        && (x >> 24) & 0xff == (x / 0x1000000) % 256
        && (x >> 24) & 0xff <= 0xff
        && (x >> 32) & 0xff == (x / 0x100000000) % 256
        && (x >> 32) & 0xff <= 0xff
        && (x >> 40) & 0xff == (x / 0x10000000000) % 256
        && (x >> 40) & 0xff <= 0xff
        && (x >> 48) & 0xff == (x / 0x1000000000000) % 256
        && (x >> 48) & 0xff <= 0xff
        && (x >> 56) & 0xff == (x / 0x100000000000000) % 256
        && (x >> 56) & 0xff <= 0xff) by (bit_vector);
}

impl AllowedIntegerRepresentation<16> for u128 {
    open spec fn spec_as_nat(self) -> nat {
        self as nat
    }

    fn encode_as_bytes(self) -> (r: [u8; 16]) {
        let x = self;
        proof {
            lemma_u128_bytes(x);
        }
        let b0 = #[verifier::truncate] ((x & 0xff) as u8);
        let b1 = #[verifier::truncate] (((x >> 8) & 0xff) as u8);
        let b2 = #[verifier::truncate] (((x >> 16) & 0xff) as u8);
        let b3 = #[verifier::truncate] (((x >> 24) & 0xff) as u8);
        let b4 = #[verifier::truncate] (((x >> 32) & 0xff) as u8);
        let b5 = #[verifier::truncate] (((x >> 40) & 0xff) as u8);
        let b6 = #[verifier::truncate] (((x >> 48) & 0xff) as u8);
        let b7 = #[verifier::truncate] (((x >> 56) & 0xff) as u8);
        let b8 = #[verifier::truncate] (((x >> 64) & 0xff) as u8);
        let b9 = #[verifier::truncate] (((x >> 72) & 0xff) as u8);
        let b10 = #[verifier::truncate] (((x >> 80) & 0xff) as u8);
        let b11 = #[verifier::truncate] (((x >> 88) & 0xff) as u8);
        let b12 = #[verifier::truncate] (((x >> 96) & 0xff) as u8);
        let b13 = #[verifier::truncate] (((x >> 104) & 0xff) as u8);
        let b14 = #[verifier::truncate] (((x >> 112) & 0xff) as u8);
        let b15 = #[verifier::truncate] (((x >> 120) & 0xff) as u8);
        let r = [b15, b14, b13, b12, b11, b10, b9, b8, b7, b6, b5, b4, b3, b2, b1, b0];
        assert forall|i: int| 0 <= i < 16 implies #[trigger] r@[i] == byte_of(
            x as nat,
            (16 - 1 - i) as nat,
        ) by {
            if i == 0 {
                assert(r@[0] == b15);
            }
            if i == 1 {
                assert(r@[1] == b14);
            }
            if i == 2 {
                assert(r@[2] == b13);
            }
            if i == 3 {
                assert(r@[3] == b12);
            }
            if i == 4 {
                assert(r@[4] == b11);
            }
            if i == 5 {
                assert(r@[5] == b10);
            }
            if i == 6 {
                assert(r@[6] == b9);
            }
            if i == 7 {
                assert(r@[7] == b8);
            }
            if i == 8 {
                assert(r@[8] == b7);
            }
            if i == 9 {
                assert(r@[9] == b6);
            }
            if i == 10 {
                assert(r@[10] == b5);
            }
            if i == 11 {
                assert(r@[11] == b4);
            }
            if i == 12 {
                assert(r@[12] == b3);
            }
            if i == 13 {
                assert(r@[13] == b2);
            }
            if i == 14 {
                assert(r@[14] == b1);
            }
            if i == 15 {
                assert(r@[15] == b0);
            }
        }
        r
    }
}

impl AllowedIntegerRepresentation<8> for u64 {
    open spec fn spec_as_nat(self) -> nat {
        self as nat
    }

    fn encode_as_bytes(self) -> (r: [u8; 8]) {
        let x = self;
        proof {
            lemma_u64_bytes(x);
        }
        let b0 = #[verifier::truncate] ((x & 0xff) as u8);
        let b1 = #[verifier::truncate] (((x >> 8) & 0xff) as u8);
        let b2 = #[verifier::truncate] (((x >> 16) & 0xff) as u8);
        let b3 = #[verifier::truncate] (((x >> 24) & 0xff) as u8);
        let b4 = #[verifier::truncate] (((x >> 32) & 0xff) as u8);
        let b5 = #[verifier::truncate] (((x >> 40) & 0xff) as u8);
        let b6 = #[verifier::truncate] (((x >> 48) & 0xff) as u8);
        let b7 = #[verifier::truncate] (((x >> 56) & 0xff) as u8);
        let r = [b7, b6, b5, b4, b3, b2, b1, b0];
        assert forall|i: int| 0 <= i < 8 implies #[trigger] r@[i] == byte_of(
            x as nat,
            (8 - 1 - i) as nat,
        ) by {
            if i == 0 {
                assert(r@[0] == b7);
            }
            if i == 1 {
                assert(r@[1] == b6);
            }
            if i == 2 {
                assert(r@[2] == b5);
            }
            if i == 3 {
                assert(r@[3] == b4);
            }
            if i == 4 {
                assert(r@[4] == b3);
            }
            if i == 5 {
                assert(r@[5] == b2);
            }
            if i == 6 {
                assert(r@[6] == b1);
            }
            if i == 7 {
                assert(r@[7] == b0);
            }
        }
        r
    }
}
/// An integer that can hold a program counter or an immediate.
pub trait AllowedPcOrImm: Sized + Copy {
    spec fn spec_as_u64(self) -> u64;

    /// The largest value of the type.
    spec fn spec_max() -> Self;

    /// The value that keeps the low bits of `value`.
    spec fn spec_from_u64_clipped(value: u64) -> Self;

    fn from_u64_clipped(value: u64) -> (r: Self)
        ensures
            r == Self::spec_from_u64_clipped(value),
            r.spec_as_u64() == value % ((Self::spec_max().spec_as_u64() + 1) as u64),
    ;

    fn as_u64(self) -> (r: u64)
        ensures
            r == self.spec_as_u64(),
            r <= Self::spec_max().spec_as_u64(),
    ;

    fn wrapping_add(self, other: Self) -> (r: Self)
        ensures
            r.spec_as_u64() == (self.spec_as_u64() + other.spec_as_u64()) % (
            Self::spec_max().spec_as_u64() + 1),
    ;

    fn wrapping_sub(self, other: Self) -> (r: Self)
        ensures
            r.spec_as_u64() == (self.spec_as_u64() - other.spec_as_u64()) % (
            Self::spec_max().spec_as_u64() + 1),
    ;

    fn max() -> (r: Self)
        ensures
            r == Self::spec_max(),
    ;
}

impl AllowedPcOrImm for u16 {
    open spec fn spec_as_u64(self) -> u64 {
        self as u64
    }

    open spec fn spec_max() -> Self {
        u16::MAX
    }

    open spec fn spec_from_u64_clipped(value: u64) -> Self {
        (value % 0x1_0000) as u16
    }

    fn from_u64_clipped(value: u64) -> (r: Self) {
        assert(value & 0xffff == value % 0x1_0000 && value & 0xffff <= 0xffff) by (bit_vector);
        (value & 0xffff) as u16
    }

    fn as_u64(self) -> (r: u64) {
        self as u64
    }

    fn wrapping_add(self, other: Self) -> (r: Self) {
        proof {
            let sum = self as int + other as int;
            if sum >= 0x1_0000 {
                assert(sum % 0x1_0000 == sum - 0x1_0000);
            } else {
                assert(sum % 0x1_0000 == sum);
            }
        }
        self.wrapping_add(other)
    }

    fn wrapping_sub(self, other: Self) -> (r: Self) {
        proof {
            let difference = self as int - other as int;
            if difference < 0 {
                assert(difference % 0x1_0000 == difference + 0x1_0000);
            } else {
                assert(difference % 0x1_0000 == difference);
            }
        }
        self.wrapping_sub(other)
    }

    fn max() -> (r: Self) {
        u16::MAX
    }
}

impl AllowedPcOrImm for u32 {
    open spec fn spec_as_u64(self) -> u64 {
        self as u64
    }

    open spec fn spec_max() -> Self {
        u32::MAX
    }

    open spec fn spec_from_u64_clipped(value: u64) -> Self {
        (value % 0x1_0000_0000) as u32
    }

    fn from_u64_clipped(value: u64) -> (r: Self) {
        assert(value & 0xffff_ffff == value % 0x1_0000_0000 && value & 0xffff_ffff <= 0xffff_ffff)
            by (bit_vector);
        (value & 0xffff_ffff) as u32
    }

    fn as_u64(self) -> (r: u64) {
        self as u64
    }

    fn wrapping_add(self, other: Self) -> (r: Self) {
        proof {
            let sum = self as int + other as int;
            if sum >= 0x1_0000_0000 {
                assert(sum % 0x1_0000_0000 == sum - 0x1_0000_0000);
            } else {
                assert(sum % 0x1_0000_0000 == sum);
            }
        }
        self.wrapping_add(other)
    }

    fn wrapping_sub(self, other: Self) -> (r: Self) {
        proof {
            let difference = self as int - other as int;
            if difference < 0 {
                assert(difference % 0x1_0000_0000 == difference + 0x1_0000_0000);
            } else {
                assert(difference % 0x1_0000_0000 == difference);
            }
        }
        self.wrapping_sub(other)
    }

    fn max() -> (r: Self) {
        u32::MAX
    }
}

/// How instructions are laid out in code words of `N` bytes.
pub trait VmEncodingMode<const N: usize>: Sized + Copy {
    type PcOrImm: AllowedPcOrImm;

    type IntegerRepresentation: AllowedIntegerRepresentation<N>;

    /// Whether the instruction has a code word: its variant has a slot in the
    /// table and every field fits its bits.
    spec fn spec_is_encodable(tables: &OpcodeTables, opcode: &DecodedOpcode<N, Self>) -> bool;

    /// The code word of the instruction.
    spec fn spec_encode_as_integer(
        tables: &OpcodeTables,
        opcode: &DecodedOpcode<N, Self>,
    ) -> Self::IntegerRepresentation;

    /// The instruction that a code word holds, and the slot of its variant.
    spec fn spec_parse(
        tables: &OpcodeTables,
        integer_representaiton: Self::IntegerRepresentation,
    ) -> (DecodedOpcode<N, Self>, VariantMonotonicNumber);

    /// Whether every reserved bit of the code word is zero.
    spec fn spec_is_canonical_encoding(value: Self::IntegerRepresentation) -> bool;

    /// The word of memory that holds the instruction at `pc`, and the place of
    /// the instruction within the word.
    spec fn spec_split_pc(pc: Self::PcOrImm) -> (Self::PcOrImm, Self::PcOrImm);

    /// How many code words a word of memory holds.
    spec fn spec_code_words_per_word() -> nat;

    /// The code word at place `index` of a word of memory with the given
    /// limbs.
    spec fn spec_integer_representaiton_from_words(
        words: Seq<u64>,
        index: Self::PcOrImm,
    ) -> Self::IntegerRepresentation;

    /// The code word of `nop`: the `nop` variant, always executed, on register
    /// zero and with immediates zero.
    fn nop_encoding(tables: &OpcodeTables) -> (r: Self::IntegerRepresentation)
        ensures
            r == Self::spec_encode_as_integer(
                tables,
                &(DecodedOpcode::<N, Self> {
                    variant: spec_nop_opcode_variant(),
                    condition: Condition::Always,
                    src0_reg_idx: 0,
                    src1_reg_idx: 0,
                    dst0_reg_idx: 0,
                    dst1_reg_idx: 0,
                    imm_0: Self::PcOrImm::spec_from_u64_clipped(0),
                    imm_1: Self::PcOrImm::spec_from_u64_clipped(0),
                }),
            ),
    ;

    /// The code word of the panic that reverts a frame: `ret.panic`, always
    /// executed, on register zero and with immediates zero.
    fn exception_revert_encoding(tables: &OpcodeTables) -> (r: Self::IntegerRepresentation)
        ensures
            r == Self::spec_encode_as_integer(
                tables,
                &(DecodedOpcode::<N, Self> {
                    variant: spec_panic_opcode_variant(),
                    condition: Condition::Always,
                    src0_reg_idx: 0,
                    src1_reg_idx: 0,
                    dst0_reg_idx: 0,
                    dst1_reg_idx: 0,
                    imm_0: Self::PcOrImm::spec_from_u64_clipped(0),
                    imm_1: Self::PcOrImm::spec_from_u64_clipped(0),
                }),
            ),
    ;

    fn parse_preliminary_variant_and_absolute_number(
        tables: &OpcodeTables,
        integer_representaiton: Self::IntegerRepresentation,
    ) -> (r: (DecodedOpcode<N, Self>, VariantMonotonicNumber))
        ensures
            r == Self::spec_parse(tables, integer_representaiton),
    ;

    fn encode_as_integer(tables: &OpcodeTables, opcode: &DecodedOpcode<N, Self>) -> (r:
        Self::IntegerRepresentation)
        requires
            Self::spec_is_encodable(tables, opcode),
        ensures
            r == Self::spec_encode_as_integer(tables, opcode),
    ;

    fn encode_as_bytes(tables: &OpcodeTables, opcode: &DecodedOpcode<N, Self>) -> (r: [u8; N])
        requires
            Self::spec_is_encodable(tables, opcode),
        ensures
            is_big_endian_of(r@, Self::spec_encode_as_integer(tables, opcode).spec_as_nat()),
    ;

    fn split_pc(pc: Self::PcOrImm) -> (r: (Self::PcOrImm, Self::PcOrImm))
        ensures
            r == Self::spec_split_pc(pc),
    ;

    fn integer_representaiton_from_u256(value: U256, index: Self::PcOrImm) -> (r:
        Self::IntegerRepresentation)
        requires
            index.spec_as_u64() < Self::spec_code_words_per_word(),
        ensures
            r == Self::spec_integer_representaiton_from_words(
                crate::u256::u256_words(value),
                index,
            ),
    ;

    /// Whether every reserved bit of the code word is zero. A code word with a
    /// reserved bit set is not canonical, whatever its other bits.
    fn is_canonical_encoding(value: Self::IntegerRepresentation) -> (r: bool)
        ensures
            r == Self::spec_is_canonical_encoding(value),
    ;
}

} // verus!
