//! Small helpers of the codec.

use vstd::prelude::*;
use ethereum_types::U256;
use sha2::Digest;
use crate::decoding::encoding_mode_production::EncodingModeProduction;
use crate::decoding::{AllowedPcOrImm, VmEncodingMode};
use crate::definitions::versioned_hash::{
    code_hash_bytes, ContractCodeSha256, VersionedHashGeneric,
};
use crate::u256::{u256_from_words, u256_to_words, u256_words};

verus! {

/// The two nibbles of a byte: the low one first.
pub fn split_as_u4(value: u8) -> (r: (u8, u8))
    ensures
        r.0 == value % 16,
        r.1 == value / 16,
        r.0 < 16,
        r.1 < 16,
{
    assert(value & 15 == value % 16 && value >> 4 == value / 16) by (bit_vector);
    (value & 0x0f, value >> 4)
}

/// The byte with the given nibbles.
pub fn merge_u4(low: u8, high: u8) -> (r: u8)
    requires
        low < 16,
        high < 16,
    ensures
        r == low + 16 * high,
{
    assert(low | (high << 4) == low + 16 * high) by (bit_vector)
        requires
            low < 16,
            high < 16,
    ;
    low | (high << 4)
}

/// A byte is made of its nibbles.
pub proof fn lemma_nibbles(value: u8, low: u8, high: u8)
    requires
        low < 16,
        high < 16,
    ensures
        (value % 16) + 16 * (value / 16) == value,
        ((low + 16 * high) as u8) % 16 == low,
        ((low + 16 * high) as u8) / 16 == high,
{
}

/// The words of a fat pointer without its page and its start: the high half of
/// the first limb and the low half of the second are cleared.
pub open spec fn spec_erase_fat_pointer_metadata(words: Seq<u64>) -> Seq<u64> {
    seq![
        (words[0] % 0x1_0000_0000) as u64,
        ((words[1] / 0x1_0000_0000) * 0x1_0000_0000) as u64,
        words[2],
        words[3],
    ]
}

/// Erases the page and the start from a fat pointer that goes to an opcode
/// which must not get one. The offset, the length and the upper 128 bits stay.
pub fn erase_fat_pointer_metadata(ptr: &mut U256)
    ensures
        u256_words(*final(ptr)) == spec_erase_fat_pointer_metadata(u256_words(*old(ptr))),
{
    let words = u256_to_words(ptr);
    let w0 = words[0];
    let w1 = words[1];
    assert(w0 & 0x00000000_ffffffffu64 == w0 % 0x1_0000_0000 && w1 & 0xffffffff_00000000u64 == (w1
        / 0x1_0000_0000) * 0x1_0000_0000) by (bit_vector);
    *ptr = u256_from_words(
        [w0 & 0x00000000_ffffffffu64, w1 & 0xffffffff_00000000u64, words[2], words[3]],
    );
}

/// The SHA-256 digest of a sequence of bytes: 32 bytes.
pub uninterp spec fn sha256_digest(data: Seq<u8>) -> Seq<u8>;

/// The SHA-256 digest of `data`, computed by `sha2::Sha256::digest`, which
/// hashes all of `data` at once with a fresh hasher.
#[verifier::external_body]
fn sha256(data: &[u8]) -> (r: [u8; 32])
    ensures
        r@ == sha256_digest(data@),
{
    sha2::Sha256::digest(data).into()
}

/// The bytes of the first `n` words, one word after the other.
pub open spec fn words_bytes(words: Seq<[u8; 32]>, n: nat) -> Seq<u8>
    decreases n,
{
    if n == 0 {
        Seq::empty()
    } else {
        words_bytes(words, (n - 1) as nat) + words[n - 1]@
    }
}

/// Whether a bytecode of so many words can have a code hash in an encoding mode
/// whose program counter goes up to `max_pc`: the number of words must be odd,
/// so that the SHA-256 round function sees whole blocks, and within the reach
/// of the program counter.
pub open spec fn code_length_is_valid(num_words: nat, max_pc: u64) -> bool {
    num_words % 2 == 1 && num_words <= max_pc
}

/// The versioned hash of a bytecode: version 1, at rest, with the number of
/// words and the digest of the bytes of the bytecode from its fifth byte on.
pub open spec fn spec_bytecode_hash(bytecode_words: Seq<[u8; 32]>, digest: Seq<u8>) -> Seq<u8> {
    code_hash_bytes(
        ContractCodeSha256::CODE_AT_REST_MARKER,
        (bytecode_words.len() % 0x1_0000) as u16,
        digest.subrange(4, 32),
    )
}

/// The versioned hash of a bytecode in the production encoding.
pub fn bytecode_to_code_hash(bytecode_words: &[[u8; 32]]) -> (r: Result<[u8; 32], ()>)
    ensures
        match r {
            Ok(hash) => {
                &&& code_length_is_valid(bytecode_words@.len(), u16::MAX as u64)
                &&& hash@ == spec_bytecode_hash(
                    bytecode_words@,
                    sha256_digest(words_bytes(bytecode_words@, bytecode_words@.len())),
                )
            },
            Err(_) => !code_length_is_valid(bytecode_words@.len(), u16::MAX as u64),
        },
{
    bytecode_to_code_hash_for_mode::<8, EncodingModeProduction>(bytecode_words)
}

/// The versioned hash of a bytecode, or an error where the bytecode has an even
/// number of words or more words than the program counter of the encoding mode
/// can reach.
pub fn bytecode_to_code_hash_for_mode<const N: usize, E: VmEncodingMode<N>>(
    bytecode_words: &[[u8; 32]],
) -> (r: Result<[u8; 32], ()>)
    ensures
        match r {
            Ok(hash) => {
                &&& code_length_is_valid(
                    bytecode_words@.len(),
                    E::PcOrImm::spec_max().spec_as_u64(),
                )
                &&& hash@ == spec_bytecode_hash(
                    bytecode_words@,
                    sha256_digest(words_bytes(bytecode_words@, bytecode_words@.len())),
                )
            },
            Err(_) => !code_length_is_valid(
                bytecode_words@.len(),
                E::PcOrImm::spec_max().spec_as_u64(),
            ),
        },
{
    if bytecode_words.len() % 2 != 1 {
        return Err(());
    }
    // The program counter must reach every word.
    if bytecode_words.len() as u64 > E::PcOrImm::max().as_u64() {
        return Err(());
    }
    let mut bytes: Vec<u8> = Vec::new();
    let mut i: usize = 0;
    while i < bytecode_words.len()
        invariant
            i <= bytecode_words.len(),
            bytes@ == words_bytes(bytecode_words@, i as nat),
        decreases bytecode_words.len() - i,
    {
        let word = &bytecode_words[i];
        let ghost before = bytes@;
        let mut k: usize = 0;
        while k < 32
            invariant
                k <= 32,
                bytes@ == before + word@.subrange(0, k as int),
            decreases 32 - k,
        {
            bytes.push(word[k]);
            assert(word@.subrange(0, k + 1) =~= word@.subrange(0, k as int).push(word@[k as int]));
            k += 1;
        }
        assert(word@.subrange(0, 32) =~= word@);
        i += 1;
    }
    let digest = sha256(bytes.as_slice());
    versioned_hash_of_digest(digest, bytecode_words.len())
}

/// The versioned hash of a bytecode of `num_words` words whose bytes have the
/// given SHA-256 digest.
pub fn versioned_hash_of_digest(digest: [u8; 32], num_words: usize) -> (r: Result<[u8; 32], ()>)
    ensures
        r matches Ok(hash) && hash@ == code_hash_bytes(
            ContractCodeSha256::CODE_AT_REST_MARKER,
            (num_words % 0x1_0000) as u16,
            digest@.subrange(4, 32),
        ),
{
    let versioned_hash =
        VersionedHashGeneric::<ContractCodeSha256>::from_digest_and_preimage_num_words(
        digest,
        (num_words % 0x1_0000) as u16,
    );
    match versioned_hash.serialize() {
        Some(versioned_hash_bytes) => Ok(versioned_hash_bytes),
        None => Err(()),
    }
}

} // verus!
