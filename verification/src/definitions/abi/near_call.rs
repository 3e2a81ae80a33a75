//! The parameters of a near call.

use vstd::prelude::*;
use ethereum_types::U256;
use crate::u256::{low_u32, split_limb, u256_to_words, u256_words};

verus! {

#[derive(Clone, Copy, Debug, PartialEq, Eq, PartialOrd, Ord, Hash, Structural)]
pub struct NearCallABI {
    pub ergs_passed: u32,
}

impl NearCallABI {
    /// The ergs that a near call passes: the low half of the lowest limb.
    pub fn from_u256(raw_value: U256) -> (r: Self)
        ensures
            r.ergs_passed == low_u32(u256_words(raw_value)[0]),
    {
        let raw = u256_to_words(&raw_value);
        let (ergs_passed, _) = split_limb(raw[0]);
        Self { ergs_passed }
    }
}

} // verus!
