//! The parameters of a far call.

use vstd::prelude::*;
use ethereum_types::U256;
use crate::definitions::abi::fat_pointer::FatPointer;
use crate::u256::{high_bytes, limb_byte, low_u32, split_limb, u256_to_words, u256_words};

verus! {

pub const FAR_CALL_FORWARDING_MODE_BYTE_IDX: usize = 28;

pub const FAR_CALL_SHARD_ID_BYTE_IDX: usize = 29;

pub const FAR_CALL_CONSTRUCTOR_CALL_BYTE_IDX: usize = 30;

pub const FAR_CALL_SYSTEM_CALL_BYTE_IDX: usize = 31;

/// Where the callee finds its calldata.
#[derive(Clone, Copy, Debug, PartialEq, Eq, PartialOrd, Ord, Hash, Structural)]
pub enum FarCallForwardPageType {
    UseHeap,
    ForwardFatPointer,
    UseAuxHeap,
}

impl FarCallForwardPageType {
    /// The mode with the given number; the heap for a number that names none.
    pub open spec fn spec_from_u8(value: u8) -> Self {
        if value == 1 {
            FarCallForwardPageType::ForwardFatPointer
        } else if value == 2 {
            FarCallForwardPageType::UseAuxHeap
        } else {
            FarCallForwardPageType::UseHeap
        }
    }

    pub fn from_u8(value: u8) -> (r: Self)
        ensures
            r == Self::spec_from_u8(value),
    {
        match value {
            0 => FarCallForwardPageType::UseHeap,
            1 => FarCallForwardPageType::ForwardFatPointer,
            2 => FarCallForwardPageType::UseAuxHeap,
            _ => FarCallForwardPageType::UseHeap,
        }
    }
}

#[derive(Clone, Copy, Debug, PartialEq, Eq, PartialOrd, Ord, Hash, Structural)]
pub struct FarCallABI {
    pub memory_quasi_fat_pointer: FatPointer,
    pub ergs_passed: u32,
    pub shard_id: u8,
    pub forwarding_mode: FarCallForwardPageType,
    pub constructor_call: bool,
    pub to_system: bool,
}

impl FarCallABI {
    /// The parameters that a word holds: the fat pointer in the two lowest
    /// limbs; in the highest limb the ergs in the low half, and above it one
    /// byte each for the forwarding mode, the shard, the constructor marker
    /// and the system call marker.
    pub open spec fn spec_from_words(words: Seq<u64>) -> Self {
        FarCallABI {
            memory_quasi_fat_pointer: FatPointer::spec_from_words(words),
            ergs_passed: low_u32(words[3]),
            shard_id: limb_byte(words[3], 5),
            forwarding_mode: FarCallForwardPageType::spec_from_u8(limb_byte(words[3], 4)),
            constructor_call: limb_byte(words[3], 6) != 0,
            to_system: limb_byte(words[3], 7) != 0,
        }
    }

    pub fn from_u256(raw_value: U256) -> (r: Self)
        ensures
            r == Self::spec_from_words(u256_words(raw_value)),
    {
        let quasi_fat_pointer = FatPointer::from_u256(raw_value);
        let raw = u256_to_words(&raw_value);
        let extra_data = raw[3];
        let (ergs_passed, _) = split_limb(extra_data);
        let bytes = high_bytes(extra_data);
        let forwarding_byte = bytes[0];
        let shard_id = bytes[1];
        let constructor_call_byte = bytes[2];
        let to_system_byte = bytes[3];
        let page_forwarding_mode = FarCallForwardPageType::from_u8(forwarding_byte);
        let constructor_call = constructor_call_byte != 0;
        let to_system = to_system_byte != 0;
        Self {
            memory_quasi_fat_pointer: quasi_fat_pointer,
            ergs_passed,
            shard_id,
            forwarding_mode: page_forwarding_mode,
            constructor_call,
            to_system,
        }
    }
}

} // verus!
