//! What the `meta` opcode reports of the machine.

use vstd::prelude::*;
use ethereum_types::U256;
use crate::u256::{join_limb, limb_of, u256_from_words, u256_words};

verus! {

#[derive(Clone, Copy, Debug, PartialEq, Eq, PartialOrd, Ord, Hash, Structural)]
pub struct VmMetaParameters {
    pub ergs_per_pubdata_byte: u32,
    pub heap_size: u32,
    pub aux_heap_size: u32,
    pub this_shard_id: u8,
    pub caller_shard_id: u8,
    pub code_shard_id: u8,
}

impl VmMetaParameters {
    /// The limbs of the word that reports the parameters: the price of pubdata
    /// in the first; the sizes of the two heaps in the second; nothing in the
    /// third; and in the high half of the fourth the three shards, one byte
    /// each, this one lowest.
    pub open spec fn spec_to_words(self) -> Seq<u64> {
        seq![
            self.ergs_per_pubdata_byte as u64,
            limb_of(self.heap_size, self.aux_heap_size),
            0,
            ((self.this_shard_id + self.caller_shard_id * 0x100 + self.code_shard_id * 0x1_0000)
                * 0x1_0000_0000) as u64,
        ]
    }

    pub fn to_u256(self) -> (r: U256)
        ensures
            u256_words(r) == self.spec_to_words(),
    {
        let a = self.this_shard_id as u64;
        let b = self.caller_shard_id as u64;
        let c = self.code_shard_id as u64;
        let tmp = a | (b << 8) | (c << 16);
        assert((tmp << 32) == (a + b * 0x100 + c * 0x1_0000) * 0x1_0000_0000) by (bit_vector)
            requires
                a < 256 && b < 256 && c < 256,
                tmp == a | (b << 8) | (c << 16),
        ;
        u256_from_words(
            [
                self.ergs_per_pubdata_byte as u64,
                join_limb(self.heap_size, self.aux_heap_size),
                0,
                tmp << 32,
            ],
        )
    }
}

} // verus!
