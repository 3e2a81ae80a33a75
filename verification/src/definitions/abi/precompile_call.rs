//! The parameters of a precompile call.

use vstd::prelude::*;
use ethereum_types::U256;
use crate::u256::{
    high_u32, join_limb, limb_of, low_u32, split_limb, u256_from_words, u256_to_words, u256_words,
};

verus! {

/// Where a precompile reads and writes. Whether offsets and lengths count bytes
/// or words is for the precompile to say.
#[derive(Clone, Copy, Debug, PartialEq, Eq, PartialOrd, Ord, Hash, Structural)]
pub struct PrecompileCallABI {
    pub input_memory_offset: u32,
    pub input_memory_length: u32,
    pub output_memory_offset: u32,
    pub output_memory_length: u32,
    pub memory_page_to_read: u32,
    pub memory_page_to_write: u32,
    pub precompile_interpreted_data: u64,
}

impl PrecompileCallABI {
    /// The parameters that a word holds: the input in the first limb, the
    /// output in the second, the pages in the third, each pair with its first
    /// member in the low half, and the data of the precompile in the fourth.
    pub open spec fn spec_from_words(words: Seq<u64>) -> Self {
        PrecompileCallABI {
            input_memory_offset: low_u32(words[0]),
            input_memory_length: high_u32(words[0]),
            output_memory_offset: low_u32(words[1]),
            output_memory_length: high_u32(words[1]),
            memory_page_to_read: low_u32(words[2]),
            memory_page_to_write: high_u32(words[2]),
            precompile_interpreted_data: words[3],
        }
    }

    pub open spec fn spec_to_words(self) -> Seq<u64> {
        seq![
            limb_of(self.input_memory_offset, self.input_memory_length),
            limb_of(self.output_memory_offset, self.output_memory_length),
            limb_of(self.memory_page_to_read, self.memory_page_to_write),
            self.precompile_interpreted_data,
        ]
    }

    pub fn from_u256(raw_value: U256) -> (r: Self)
        ensures
            r == Self::spec_from_words(u256_words(raw_value)),
    {
        let raw = u256_to_words(&raw_value);
        let (input_memory_offset, input_memory_length) = split_limb(raw[0]);
        let (output_memory_offset, output_memory_length) = split_limb(raw[1]);
        let (memory_page_to_read, memory_page_to_write) = split_limb(raw[2]);
        let precompile_interpreted_data = raw[3];
        Self {
            input_memory_offset,
            input_memory_length,
            output_memory_offset,
            output_memory_length,
            memory_page_to_read,
            memory_page_to_write,
            precompile_interpreted_data,
        }
    }

    pub fn to_u256(self) -> (r: U256)
        ensures
            u256_words(r) == self.spec_to_words(),
    {
        u256_from_words(
            [
                join_limb(self.input_memory_offset, self.input_memory_length),
                join_limb(self.output_memory_offset, self.output_memory_length),
                join_limb(self.memory_page_to_read, self.memory_page_to_write),
                self.precompile_interpreted_data,
            ],
        )
    }
}

/// What a precompile returns beside its output.
#[derive(Clone, Copy, Debug, PartialEq, Eq, PartialOrd, Ord, Hash, Structural)]
pub struct PrecompileAuxData {
    pub extra_ergs_cost: u32,
    pub extra_pubdata_cost: u32,
}

impl PrecompileAuxData {
    /// The two costs that the lowest limb of a word holds: the ergs in the low
    /// half.
    pub open spec fn spec_from_words(words: Seq<u64>) -> Self {
        PrecompileAuxData {
            extra_ergs_cost: low_u32(words[0]),
            extra_pubdata_cost: high_u32(words[0]),
        }
    }

    pub open spec fn spec_to_words(self) -> Seq<u64> {
        seq![limb_of(self.extra_ergs_cost, self.extra_pubdata_cost), 0, 0, 0]
    }

    pub fn from_u256(raw_value: U256) -> (r: Self)
        ensures
            r == Self::spec_from_words(u256_words(raw_value)),
    {
        let raw = u256_to_words(&raw_value);
        let (extra_ergs_cost, extra_pubdata_cost) = split_limb(raw[0]);
        Self { extra_ergs_cost, extra_pubdata_cost }
    }

    pub fn to_u256(self) -> (r: U256)
        ensures
            u256_words(r) == self.spec_to_words(),
    {
        u256_from_words([join_limb(self.extra_ergs_cost, self.extra_pubdata_cost), 0, 0, 0])
    }
}

/// Parameters written to a word and read back are the same parameters.
pub proof fn lemma_precompile_round_trip(abi: PrecompileCallABI, aux: PrecompileAuxData)
    ensures
        PrecompileCallABI::spec_from_words(abi.spec_to_words()) == abi,
        PrecompileAuxData::spec_from_words(aux.spec_to_words()) == aux,
{
}

} // verus!
