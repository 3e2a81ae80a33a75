//! The fat pointer: a slice of a memory page with a position in it.

use vstd::prelude::*;
use ethereum_types::U256;
use crate::u256::{
    high_u32, join_limb, limb_of, low_u32, split_limb, u256_from_words, u256_to_words, u256_words,
};

verus! {

/// A slice of a memory page and an offset into the slice.
#[derive(Clone, Copy, Debug, PartialEq, Eq, PartialOrd, Ord, Hash, Structural)]
pub struct FatPointer {
    /// Offset relative to `start`.
    pub offset: u32,
    /// The memory page of the slice.
    pub memory_page: u32,
    /// Absolute start of the slice.
    pub start: u32,
    /// Length of the slice.
    pub length: u32,
}

/// What is wrong with a fat pointer, as a set of two findings.
#[derive(Clone, Copy, Debug, PartialEq, Eq, Hash, Structural)]
pub struct FatPointerValidationException {
    /// The pointer is fresh and its offset is not zero.
    pub offset_is_not_zero_when_expected: bool,
    /// Start and length together go beyond the 32-bit address space.
    pub deref_beyond_heap_range: bool,
}

impl FatPointerValidationException {
    pub const OFFSET_IS_NOT_ZERO_WHEN_EXPECTED_BIT: u64 = 1;

    pub const DEREF_BEYOND_HEAP_RANGE_BIT: u64 = 2;

    /// No finding.
    pub fn empty() -> (r: Self)
        ensures
            !r.offset_is_not_zero_when_expected,
            !r.deref_beyond_heap_range,
    {
        FatPointerValidationException {
            offset_is_not_zero_when_expected: false,
            deref_beyond_heap_range: false,
        }
    }

    pub fn is_empty(&self) -> (r: bool)
        ensures
            r == (!self.offset_is_not_zero_when_expected && !self.deref_beyond_heap_range),
    {
        !self.offset_is_not_zero_when_expected && !self.deref_beyond_heap_range
    }

    pub open spec fn spec_bits(&self) -> u64 {
        ((if self.offset_is_not_zero_when_expected {
            1int
        } else {
            0int
        }) + (if self.deref_beyond_heap_range {
            2int
        } else {
            0int
        })) as u64
    }

    /// The findings as bits: bit 0 for the offset, bit 1 for the range.
    pub fn bits(&self) -> (r: u64)
        ensures
            r == self.spec_bits(),
    {
        let mut bits: u64 = 0;
        if self.offset_is_not_zero_when_expected {
            bits += Self::OFFSET_IS_NOT_ZERO_WHEN_EXPECTED_BIT;
        }
        if self.deref_beyond_heap_range {
            bits += Self::DEREF_BEYOND_HEAP_RANGE_BIT;
        }
        bits
    }
}

impl FatPointer {
    pub const FAT_POINTER_PACKED_WIDTH: u32 = 128;

    /// The pointer that the two lowest limbs of a word hold: offset and page in
    /// the first, start and length in the second, the first-named in the low
    /// half.
    pub open spec fn spec_from_words(words: Seq<u64>) -> Self {
        FatPointer {
            offset: low_u32(words[0]),
            memory_page: high_u32(words[0]),
            start: low_u32(words[1]),
            length: high_u32(words[1]),
        }
    }

    /// The limbs of the word that holds the pointer; the upper two are zero.
    pub open spec fn spec_to_words(self) -> Seq<u64> {
        seq![limb_of(self.offset, self.memory_page), limb_of(self.start, self.length), 0, 0]
    }

    pub open spec fn spec_validate(self, is_fresh: bool) -> FatPointerValidationException {
        FatPointerValidationException {
            offset_is_not_zero_when_expected: is_fresh && self.offset != 0,
            deref_beyond_heap_range: self.start + self.length > u32::MAX,
        }
    }

    /// The formally empty pointer.
    pub fn empty() -> (r: Self)
        ensures
            r == (FatPointer { offset: 0, memory_page: 0, start: 0, length: 0 }),
    {
        Self { length: 0, start: 0, memory_page: 0, offset: 0 }
    }

    pub fn from_u256(value: U256) -> (r: Self)
        ensures
            r == Self::spec_from_words(u256_words(value)),
    {
        let raw_value = u256_to_words(&value);
        let (offset, memory_page) = split_limb(raw_value[0]);
        let (start, length) = split_limb(raw_value[1]);
        Self { offset, memory_page, start, length }
    }

    /// A fresh pointer must have offset zero, and start and length must not
    /// overflow together.
    pub fn validate(self, is_fresh: bool) -> (r: FatPointerValidationException)
        ensures
            r == self.spec_validate(is_fresh),
    {
        let mut exceptions = FatPointerValidationException::empty();
        if is_fresh && self.offset != 0 {
            exceptions.offset_is_not_zero_when_expected = true;
        }
        if self.start as u64 + self.length as u64 > u32::MAX as u64 {
            exceptions.deref_beyond_heap_range = true;
        }
        exceptions
    }

    /// Whether the offset lies within the slice. Start and length of a pointer
    /// that the machine made are known to be good, so this is all that is left
    /// to check.
    pub fn validate_in_bounds(&self) -> (r: bool)
        ensures
            r == (self.offset < self.length),
    {
        let in_bounds = self.offset < self.length;
        in_bounds
    }

    /// Whether the offset lies within the slice or at its end: a far call and a
    /// return may pass an empty slice.
    pub fn validate_as_slice(&self) -> (r: bool)
        ensures
            r == (self.offset <= self.length),
    {
        let is_valid_slice = self.offset <= self.length;
        is_valid_slice
    }

    /// Whether the pointer is the empty slice at offset zero, which cannot be
    /// addressed.
    pub fn is_trivial(&self) -> (r: bool)
        ensures
            r == (self.length == 0 && self.offset == 0),
    {
        self.length == 0 && self.offset == 0
    }

    pub fn to_u256(self) -> (r: U256)
        ensures
            u256_words(r) == self.spec_to_words(),
    {
        u256_from_words(
            [join_limb(self.offset, self.memory_page), join_limb(self.start, self.length), 0, 0],
        )
    }
}

/// A pointer written to a word and read back is the same pointer.
pub proof fn lemma_fat_pointer_round_trip(pointer: FatPointer)
    ensures
        FatPointer::spec_from_words(pointer.spec_to_words()) == pointer,
{
}

} // verus!
