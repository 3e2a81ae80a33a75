//! The parameters of a return.

use vstd::prelude::*;
use ethereum_types::U256;
use crate::definitions::abi::far_call::FAR_CALL_FORWARDING_MODE_BYTE_IDX;
use crate::definitions::abi::fat_pointer::FatPointer;
use crate::u256::{high_bytes, limb_byte, u256_to_words, u256_words};

verus! {

pub const RET_FORWARDING_MODE_BYTE_IDX: usize = 28;

/// A return names its forwarding mode where a far call does.
pub proof fn lemma_forwarding_mode_bytes_agree()
    ensures
        RET_FORWARDING_MODE_BYTE_IDX == FAR_CALL_FORWARDING_MODE_BYTE_IDX,
{
}

/// Where the caller finds the returned data.
#[derive(Clone, Copy, Debug, PartialEq, Eq, PartialOrd, Ord, Hash, Structural)]
pub enum RetForwardPageType {
    UseHeap,
    ForwardFatPointer,
    UseAuxHeap,
}

impl RetForwardPageType {
    /// The mode with the given number; the heap for a number that names none.
    pub open spec fn spec_from_u8(value: u8) -> Self {
        if value == 1 {
            RetForwardPageType::ForwardFatPointer
        } else if value == 2 {
            RetForwardPageType::UseAuxHeap
        } else {
            RetForwardPageType::UseHeap
        }
    }

    pub fn from_u8(value: u8) -> (r: Self)
        ensures
            r == Self::spec_from_u8(value),
    {
        match value {
            0 => RetForwardPageType::UseHeap,
            1 => RetForwardPageType::ForwardFatPointer,
            2 => RetForwardPageType::UseAuxHeap,
            _ => RetForwardPageType::UseHeap,
        }
    }
}

#[derive(Clone, Copy, Debug, PartialEq, Eq, PartialOrd, Ord, Hash, Structural)]
pub struct RetABI {
    pub memory_quasi_fat_pointer: FatPointer,
    pub page_forwarding_mode: RetForwardPageType,
}

impl RetABI {
    /// The parameters that a word holds: the fat pointer in the two lowest
    /// limbs, the forwarding mode in the lowest byte of the high half of the
    /// highest limb.
    pub open spec fn spec_from_words(words: Seq<u64>) -> Self {
        RetABI {
            memory_quasi_fat_pointer: FatPointer::spec_from_words(words),
            page_forwarding_mode: RetForwardPageType::spec_from_u8(limb_byte(words[3], 4)),
        }
    }

    pub fn from_u256(raw_value: U256) -> (r: Self)
        ensures
            r == Self::spec_from_words(u256_words(raw_value)),
    {
        let quasi_fat_pointer = FatPointer::from_u256(raw_value);
        let raw = u256_to_words(&raw_value);
        let bytes = high_bytes(raw[3]);
        let page_forwarding_mode = RetForwardPageType::from_u8(bytes[0]);
        Self { memory_quasi_fat_pointer: quasi_fat_pointer, page_forwarding_mode }
    }
}

} // verus!
