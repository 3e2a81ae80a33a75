//! The 256-bit words of the machine, as the four 64-bit limbs that they are
//! made of.

use vstd::prelude::*;
use ethereum_types::U256;

verus! {

/// `ethereum_types::U256`: an unsigned integer of 256 bits, held as four limbs
/// of 64 bits. The library takes such a value for its limbs and nothing else.
#[verifier::external_type_specification]
#[verifier::external_body]
pub struct ExU256(ethereum_types::U256);

/// The four limbs of a 256-bit word, the least significant first.
pub uninterp spec fn u256_words(value: U256) -> Seq<u64>;

/// Reads the limbs of a word: the public field of `ethereum_types::U256`,
/// which holds them as an array of four, the least significant first.
#[verifier::external_body]
pub(crate) fn u256_to_words(value: &U256) -> (r: [u64; 4])
    ensures
        r@ == u256_words(*value),
{
    value.0
}

/// Makes a word of its limbs, with the constructor of `ethereum_types::U256`,
/// which takes them as an array of four, the least significant first.
#[verifier::external_body]
pub(crate) fn u256_from_words(words: [u64; 4]) -> (r: U256)
    ensures
        u256_words(r) == words@,
{
    U256(words)
}

/// The low half of a limb.
pub open spec fn low_u32(limb: u64) -> u32 {
    (limb % 0x1_0000_0000) as u32
}

/// The high half of a limb.
pub open spec fn high_u32(limb: u64) -> u32 {
    (limb / 0x1_0000_0000) as u32
}

/// The limb with the given halves.
pub open spec fn limb_of(low: u32, high: u32) -> u64 {
    (low + high * 0x1_0000_0000) as u64
}

/// The two halves of a limb.
pub fn split_limb(limb: u64) -> (r: (u32, u32))
    ensures
        r.0 == low_u32(limb),
        r.1 == high_u32(limb),
{
    assert(limb & 0xffff_ffff == limb % 0x1_0000_0000 && limb >> 32 == limb / 0x1_0000_0000 && (limb
        >> 32) <= 0xffff_ffff && (limb & 0xffff_ffff) <= 0xffff_ffff) by (bit_vector);
    ((limb & 0xffff_ffff) as u32, (limb >> 32) as u32)
}

/// The limb with the given halves.
pub fn join_limb(low: u32, high: u32) -> (r: u64)
    ensures
        r == limb_of(low, high),
        low_u32(r) == low,
        high_u32(r) == high,
{
    let r = (low as u64) | ((high as u64) << 32);
    assert(r == low + high * 0x1_0000_0000) by (bit_vector)
        requires
            r == (low as u64) | ((high as u64) << 32),
    ;
    r
}

/// The byte of weight `256^k` of a limb, for `k` below 8.
pub open spec fn limb_byte(limb: u64, k: nat) -> u8 {
    ((limb as nat / crate::decoding::pow256(k)) % 256) as u8
}

/// The four bytes of the high half of a limb, the least significant first.
pub fn high_bytes(limb: u64) -> (r: [u8; 4])
    ensures
        r@[0] == limb_byte(limb, 4),
        r@[1] == limb_byte(limb, 5),
        r@[2] == limb_byte(limb, 6),
        r@[3] == limb_byte(limb, 7),
{
    proof {
        crate::decoding::lemma_u64_bytes(limb);
    }
    [
        #[verifier::truncate]
        (((limb >> 32) & 0xff) as u8),
        #[verifier::truncate]
        (((limb >> 40) & 0xff) as u8),
        #[verifier::truncate]
        (((limb >> 48) & 0xff) as u8),
        #[verifier::truncate]
        (((limb >> 56) & 0xff) as u8),
    ]
}

/// A limb is made of its halves.
pub proof fn lemma_limb_halves(limb: u64, low: u32, high: u32)
    ensures
        limb_of(low_u32(limb), high_u32(limb)) == limb,
        low_u32(limb_of(low, high)) == low,
        high_u32(limb_of(low, high)) == high,
{
}

/// The largest offset that can be dereferenced, as a word.
pub fn max_offset_to_deref() -> (r: U256)
    ensures
        u256_words(r) == seq![0xffff_ffdfu64, 0, 0, 0],
{
    u256_from_words([crate::definitions::uma::MAX_OFFSET_TO_DEREF_LOW_U32 as u64, 0, 0, 0])
}

/// The bound on what can be added to the offset of a fat pointer or taken from
/// it, as a word: `2^32`.
pub fn max_offset_for_add_sub() -> (r: U256)
    ensures
        u256_words(r) == seq![0x1_0000_0000u64, 0, 0, 0],
{
    u256_from_words([0x1_0000_0000u64, 0, 0, 0])
}

} // verus!
