//! Circuit cost constants, in ergs.
//!
//! Every price formula of the instruction set refers to these numbers. They are
//! inputs here: changing one of them changes the price table and therefore
//! requires a system upgrade.

use vstd::prelude::*;

verus! {

pub const VM_CYCLE_COST_IN_ERGS: u32 = 4;

pub const RAM_PERMUTATION_COST_IN_ERGS: u32 = 1;

pub const CODE_DECOMMITMENT_COST_PER_WORD_IN_ERGS: u32 = 4;

pub const STORAGE_APPLICATION_COST_IN_ERGS: u32 = 678;

pub const CODE_DECOMMITTER_SORTER_COST_IN_ERGS: u32 = 1;

pub const LOG_DEMUXER_COST_IN_ERGS: u32 = 1;

pub const STORAGE_SORTER_COST_IN_ERGS: u32 = 2;

pub const EVENTS_OR_L1_MESSAGES_SORTER_COST_IN_ERGS: u32 = 1;

pub const INITIAL_WRITES_PUBDATA_HASHER_COST_IN_ERGS: u32 = 18;

pub const REPEATED_WRITES_PUBDATA_HASHER_COST_IN_ERGS: u32 = 11;

pub const CODE_DECOMMITMENT_SORTER_COST_IN_ERGS: u32 = 1;

// The circuits below exist once per batch, so these are floors that keep a
// single transaction from exhausting them, not prices for work done.
pub const L1_MESSAGE_MIN_COST_IN_ERGS: u32 = 156250;

pub const INITIAL_WRITES_PUBDATA_HASHER_MIN_COST_IN_ERGS: u32 = 0;

pub const REPEATED_WRITES_PUBDATA_HASHER_MIN_COST_IN_ERGS: u32 = 0;

/// The larger of the two pubdata hasher floors.
pub const STORAGE_WRITE_HASHER_MIN_COST_IN_ERGS: u32 = 0;

// Not used by the VM itself, only by the contracts that wrap the precompiles.
pub const KECCAK256_CIRCUIT_COST_IN_ERGS: u32 = 40;

pub const SHA256_CIRCUIT_COST_IN_ERGS: u32 = 7;

pub const ECRECOVER_CIRCUIT_COST_IN_ERGS: u32 = 1112;

/// The storage write hasher floor is the larger of the floors of the two
/// pubdata hashers.
pub proof fn lemma_storage_write_hasher_floor()
    ensures
        STORAGE_WRITE_HASHER_MIN_COST_IN_ERGS >= INITIAL_WRITES_PUBDATA_HASHER_MIN_COST_IN_ERGS,
        STORAGE_WRITE_HASHER_MIN_COST_IN_ERGS >= REPEATED_WRITES_PUBDATA_HASHER_MIN_COST_IN_ERGS,
        STORAGE_WRITE_HASHER_MIN_COST_IN_ERGS == INITIAL_WRITES_PUBDATA_HASHER_MIN_COST_IN_ERGS
            || STORAGE_WRITE_HASHER_MIN_COST_IN_ERGS
            == REPEATED_WRITES_PUBDATA_HASHER_MIN_COST_IN_ERGS,
{
}

} // verus!
