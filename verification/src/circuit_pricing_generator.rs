//! Derivation of the circuit cost constants from the capacity of the circuits.
//!
//! A circuit is worth `ERGS_PER_CIRCUIT`; what one unit of its input costs is
//! that worth divided by the number of units that the circuit takes, rounded
//! up. The constants of `circuit_prices` are what this derivation gives.

use vstd::prelude::*;
use vstd::string::*;
use crate::circuit_prices::{
    CODE_DECOMMITMENT_COST_PER_WORD_IN_ERGS, CODE_DECOMMITMENT_SORTER_COST_IN_ERGS,
    CODE_DECOMMITTER_SORTER_COST_IN_ERGS, ECRECOVER_CIRCUIT_COST_IN_ERGS,
    EVENTS_OR_L1_MESSAGES_SORTER_COST_IN_ERGS, INITIAL_WRITES_PUBDATA_HASHER_COST_IN_ERGS,
    INITIAL_WRITES_PUBDATA_HASHER_MIN_COST_IN_ERGS, KECCAK256_CIRCUIT_COST_IN_ERGS,
    L1_MESSAGE_MIN_COST_IN_ERGS, LOG_DEMUXER_COST_IN_ERGS, RAM_PERMUTATION_COST_IN_ERGS,
    REPEATED_WRITES_PUBDATA_HASHER_COST_IN_ERGS, REPEATED_WRITES_PUBDATA_HASHER_MIN_COST_IN_ERGS,
    SHA256_CIRCUIT_COST_IN_ERGS, STORAGE_APPLICATION_COST_IN_ERGS, STORAGE_SORTER_COST_IN_ERGS,
    STORAGE_WRITE_HASHER_MIN_COST_IN_ERGS, VM_CYCLE_COST_IN_ERGS,
};
use crate::decimal::{decimal_chars, push_decimal};
use crate::system_params::{
    max, spec_max, ERGS_PER_CIRCUIT, INITIAL_STORAGE_WRITE_PUBDATA_BYTES, MAX_PUBDATA_PER_BLOCK,
    MAX_TX_ERGS_LIMIT, REPEATED_STORAGE_WRITE_PUBDATA_BYTES,
};

verus! {

// How many units of input each circuit takes. The circuits take at least as
// many; the margin spares a repricing on every small change of the prover.
pub const CYCLES_PER_VM_SNAPSHOT: u32 = 23000;

pub const CYCLES_PER_RAM_PERMUTATION: u32 = 260000;

pub const CYCLES_PER_CODE_DECOMMITTER: u32 = 12100;

pub const CYCLES_PER_STORAGE_APPLICATION: u32 = 118;

pub const CYCLES_PER_KECCAK256_CIRCUIT: u32 = 2050;

pub const CYCLES_PER_SHA256_CIRCUIT: u32 = 11500;

pub const CYCLES_PER_ECRECOVER_CIRCUIT: u32 = 72;

pub const CYCLES_FOR_CODE_DECOMMITTER_SORTER: u32 = 192500;

pub const CYCLES_FOR_LOG_DEMUXER: u32 = 101500;

pub const CYCLES_FOR_STORAGE_SORTER: u32 = 79000;

pub const CYCLES_FOR_EVENTS_OR_L1_MESSAGES_SORTER: u32 = 88000;

// Of these circuits a batch has only one.
pub const LIMIT_FOR_L1_MESSAGES_MERKLIZER: u32 = 512;

pub const LIMIT_FOR_INITIAL_WRITES_PUBDATA_HASHER: u32 = 4600;

pub const LIMIT_FOR_REPEATED_WRITES_PUBDATA_HASHER: u32 = 7400;

/// `a / b`, rounded up.
pub open spec fn spec_ceil_div(a: u32, b: u32) -> u32 {
    ((a + b - 1) / (b as int)) as u32
}

/// `a / b`, rounded up: the least `r` with `r * b >= a`.
pub fn ceil_div(a: u32, b: u32) -> (r: u32)
    requires
        b > 0,
        a + b <= u32::MAX,
    ensures
        r == spec_ceil_div(a, b),
        r * b >= a,
        r > 0 ==> (r - 1) * b < a,
{
    let r = (a + b - 1) / b;
    proof {
        let n = (a + b - 1) as int;
        let d = b as int;
        assert(n == d * (n / d) + n % d && 0 <= n % d < d) by (nonlinear_arith)
            requires
                d > 0,
                n >= 0,
        ;
        assert(r * b == d * (n / d)) by (nonlinear_arith)
            requires
                r == n / d,
                b == d,
        ;
        assert((r - 1) * b == r * b - b) by (nonlinear_arith);
    }
    r
}

/// The floor under the price of a write that goes through a pubdata hasher
/// which takes `limit` writes of `bytes_per_write` bytes: nothing where pubdata
/// alone keeps a batch from exhausting the hasher, else what makes a
/// transaction run out of ergs no later than the hasher runs out of room.
pub open spec fn spec_min_price_for_pubdata_write(limit: u32, bytes_per_write: u32) -> u32 {
    if MAX_PUBDATA_PER_BLOCK <= limit * bytes_per_write {
        0
    } else {
        spec_ceil_div(MAX_TX_ERGS_LIMIT, limit)
    }
}

pub fn min_price_for_pubdata_write(limit: u32, bytes_per_write: u32) -> (r: u32)
    requires
        limit > 0,
        limit * bytes_per_write <= u32::MAX,
        MAX_TX_ERGS_LIMIT + limit <= u32::MAX,
    ensures
        r == spec_min_price_for_pubdata_write(limit, bytes_per_write),
{
    let max_possible_bytes_circuit_wise = limit * bytes_per_write;
    if MAX_PUBDATA_PER_BLOCK <= max_possible_bytes_circuit_wise {
        0
    } else {
        ceil_div(MAX_TX_ERGS_LIMIT, limit)
    }
}

/// The line that declares a constant.
pub open spec fn spec_ergs_constant(name: Seq<char>, value: u32) -> Seq<char> {
    "pub const "@ + name + ": u32 = "@ + decimal_chars(value as nat) + ";\n"@
}

/// The lines of a comment.
pub open spec fn spec_comment(text: Seq<char>) -> Seq<char> {
    "\n// "@ + text + "\n"@
}

/// The line that declares the constant `name` with the given value.
pub fn ergs_constant(name: &str, value: u32) -> (r: String)
    ensures
        r@ == spec_ergs_constant(name@, value),
{
    let mut out = String::from_str("pub const ");
    out.append(name);
    out.append(": u32 = ");
    push_decimal(&mut out, value as u64);
    out.append(";\n");
    out
}

/// The comment on a line of its own, after an empty line.
pub fn comment(text: &str) -> (r: String)
    ensures
        r@ == spec_comment(text@),
{
    let mut out = String::from_str("\n// ");
    out.append(text);
    out.append("\n");
    out
}

/// A round of the decommitter puts out two words of code, and the user pays
/// by the word.
pub const CYCLES_PER_CODE_DECOMMITTER_PAIR: u32 = 2 * CYCLES_PER_CODE_DECOMMITTER;

/// The floor under the price of a storage write that is the first to its slot.
pub open spec fn spec_min_price_for_initial_pubdata_write() -> u32 {
    spec_min_price_for_pubdata_write(
        LIMIT_FOR_INITIAL_WRITES_PUBDATA_HASHER,
        INITIAL_STORAGE_WRITE_PUBDATA_BYTES as u32,
    )
}

/// The floor under the price of a storage write to a slot that was written
/// before.
pub open spec fn spec_min_price_for_repeated_pubdata_write() -> u32 {
    spec_min_price_for_pubdata_write(
        LIMIT_FOR_REPEATED_WRITES_PUBDATA_HASHER,
        REPEATED_STORAGE_WRITE_PUBDATA_BYTES as u32,
    )
}

/// The floor under the price of any storage write: the larger of the two.
pub open spec fn spec_storage_write_hasher_min_cost() -> u32 {
    spec_max(
        spec_min_price_for_initial_pubdata_write(),
        spec_min_price_for_repeated_pubdata_write(),
    )
}

/// Above the floors of the circuits of which a batch has only one.
pub open spec fn spec_single_instance_note() -> Seq<char> {
    "The following circuits are single-instance and so the provided prices are just minimal prices to preserve DDoS safety"@
}

fn single_instance_note() -> (r: &'static str)
    ensures
        r@ == spec_single_instance_note(),
{
    "The following circuits are single-instance and so the provided prices are just minimal prices to preserve DDoS safety"
}

/// Above the floor of a storage write.
pub open spec fn spec_hasher_maximum_note() -> Seq<char> {
    "Equals to max(INITIAL_WRITES_PUBDATA_HASHER_MIN_COST_IN_ERGS, REPEATED_WRITES_PUBDATA_HASHER_MIN_COST_IN_ERGS)"@
}

fn hasher_maximum_note() -> (r: &'static str)
    ensures
        r@ == spec_hasher_maximum_note(),
{
    "Equals to max(INITIAL_WRITES_PUBDATA_HASHER_MIN_COST_IN_ERGS, REPEATED_WRITES_PUBDATA_HASHER_MIN_COST_IN_ERGS)"
}

/// Above the prices of the precompile circuits.
pub open spec fn spec_wrappers_only_note() -> Seq<char> {
    "The following constants should not be used in the VM directly, but only in Solidity wrappers"@
}

fn wrappers_only_note() -> (r: &'static str)
    ensures
        r@ == spec_wrappers_only_note(),
{
    "The following constants should not be used in the VM directly, but only in Solidity wrappers"
}

/// The declarations of all circuit cost constants, as derived.
pub open spec fn spec_circuit_prices() -> Seq<char> {
    spec_ergs_constant(
        "VM_CYCLE_COST_IN_ERGS"@,
        spec_ceil_div(ERGS_PER_CIRCUIT, CYCLES_PER_VM_SNAPSHOT),
    )
    + spec_ergs_constant(
        "RAM_PERMUTATION_COST_IN_ERGS"@,
        spec_ceil_div(ERGS_PER_CIRCUIT, CYCLES_PER_RAM_PERMUTATION),
    )
    + spec_ergs_constant(
        "CODE_DECOMMITMENT_COST_PER_WORD_IN_ERGS"@,
        spec_ceil_div(ERGS_PER_CIRCUIT, CYCLES_PER_CODE_DECOMMITTER_PAIR),
    )
    + spec_ergs_constant(
        "STORAGE_APPLICATION_COST_IN_ERGS"@,
        spec_ceil_div(ERGS_PER_CIRCUIT, CYCLES_PER_STORAGE_APPLICATION),
    )
    + spec_ergs_constant(
        "CODE_DECOMMITTER_SORTER_COST_IN_ERGS"@,
        spec_ceil_div(ERGS_PER_CIRCUIT, CYCLES_FOR_CODE_DECOMMITTER_SORTER),
    )
    + spec_ergs_constant(
        "LOG_DEMUXER_COST_IN_ERGS"@,
        spec_ceil_div(ERGS_PER_CIRCUIT, CYCLES_FOR_LOG_DEMUXER),
    )
    + spec_ergs_constant(
        "STORAGE_SORTER_COST_IN_ERGS"@,
        spec_ceil_div(ERGS_PER_CIRCUIT, CYCLES_FOR_STORAGE_SORTER),
    )
    + spec_ergs_constant(
        "EVENTS_OR_L1_MESSAGES_SORTER_COST_IN_ERGS"@,
        spec_ceil_div(ERGS_PER_CIRCUIT, CYCLES_FOR_EVENTS_OR_L1_MESSAGES_SORTER),
    )
    + spec_ergs_constant(
        "INITIAL_WRITES_PUBDATA_HASHER_COST_IN_ERGS"@,
        spec_ceil_div(ERGS_PER_CIRCUIT, LIMIT_FOR_INITIAL_WRITES_PUBDATA_HASHER),
    )
    + spec_ergs_constant(
        "REPEATED_WRITES_PUBDATA_HASHER_COST_IN_ERGS"@,
        spec_ceil_div(ERGS_PER_CIRCUIT, LIMIT_FOR_REPEATED_WRITES_PUBDATA_HASHER),
    )
    + spec_ergs_constant(
        "CODE_DECOMMITMENT_SORTER_COST_IN_ERGS"@,
        spec_ceil_div(ERGS_PER_CIRCUIT, CYCLES_FOR_CODE_DECOMMITTER_SORTER),
    )
    + spec_comment(spec_single_instance_note())
    + spec_ergs_constant(
        "L1_MESSAGE_MIN_COST_IN_ERGS"@,
        spec_ceil_div(MAX_TX_ERGS_LIMIT, LIMIT_FOR_L1_MESSAGES_MERKLIZER),
    )
    + spec_ergs_constant(
        "INITIAL_WRITES_PUBDATA_HASHER_MIN_COST_IN_ERGS"@,
        spec_min_price_for_initial_pubdata_write(),
    )
    + spec_ergs_constant(
        "REPEATED_WRITES_PUBDATA_HASHER_MIN_COST_IN_ERGS"@,
        spec_min_price_for_repeated_pubdata_write(),
    )
    + spec_comment(spec_hasher_maximum_note())
    + spec_ergs_constant(
        "STORAGE_WRITE_HASHER_MIN_COST_IN_ERGS"@,
        spec_storage_write_hasher_min_cost(),
    )
    + spec_comment(spec_wrappers_only_note())
    + spec_ergs_constant(
        "KECCAK256_CIRCUIT_COST_IN_ERGS"@,
        spec_ceil_div(ERGS_PER_CIRCUIT, CYCLES_PER_KECCAK256_CIRCUIT),
    )
    + spec_ergs_constant(
        "SHA256_CIRCUIT_COST_IN_ERGS"@,
        spec_ceil_div(ERGS_PER_CIRCUIT, CYCLES_PER_SHA256_CIRCUIT),
    )
    + spec_ergs_constant(
        "ECRECOVER_CIRCUIT_COST_IN_ERGS"@,
        spec_ceil_div(ERGS_PER_CIRCUIT, CYCLES_PER_ECRECOVER_CIRCUIT),
    )
}

/// The declarations of all circuit cost constants, derived from the capacity
/// of the circuits and the limits of a batch: the text of the module
/// `circuit_prices`, without its heading.
pub fn circuit_prices() -> (r: String)
    ensures
        r@ == spec_circuit_prices(),
{
    let min_price_for_initial_pubdata_write = min_price_for_pubdata_write(
        LIMIT_FOR_INITIAL_WRITES_PUBDATA_HASHER,
        INITIAL_STORAGE_WRITE_PUBDATA_BYTES as u32,
    );
    let min_price_for_repeated_pubdata_write = min_price_for_pubdata_write(
        LIMIT_FOR_REPEATED_WRITES_PUBDATA_HASHER,
        REPEATED_STORAGE_WRITE_PUBDATA_BYTES as u32,
    );
    let mut out = String::new();
    let ghost mut text: Seq<char> = Seq::empty();
    assert(out@ =~= text);
    out.append(
        ergs_constant(
            "VM_CYCLE_COST_IN_ERGS",
            ceil_div(ERGS_PER_CIRCUIT, CYCLES_PER_VM_SNAPSHOT),
        ).as_str(),
    );
    proof {
        text = text + spec_ergs_constant(
            "VM_CYCLE_COST_IN_ERGS"@,
            spec_ceil_div(ERGS_PER_CIRCUIT, CYCLES_PER_VM_SNAPSHOT),
        );
    }
    assert(out@ == text);
    out.append(
        ergs_constant(
            "RAM_PERMUTATION_COST_IN_ERGS",
            ceil_div(ERGS_PER_CIRCUIT, CYCLES_PER_RAM_PERMUTATION),
        ).as_str(),
    );
    proof {
        text = text + spec_ergs_constant(
            "RAM_PERMUTATION_COST_IN_ERGS"@,
            spec_ceil_div(ERGS_PER_CIRCUIT, CYCLES_PER_RAM_PERMUTATION),
        );
    }
    assert(out@ == text);
    out.append(
        ergs_constant(
            "CODE_DECOMMITMENT_COST_PER_WORD_IN_ERGS",
            ceil_div(ERGS_PER_CIRCUIT, CYCLES_PER_CODE_DECOMMITTER_PAIR),
        ).as_str(),
    );
    proof {
        text = text + spec_ergs_constant(
            "CODE_DECOMMITMENT_COST_PER_WORD_IN_ERGS"@,
            spec_ceil_div(ERGS_PER_CIRCUIT, CYCLES_PER_CODE_DECOMMITTER_PAIR),
        );
    }
    assert(out@ == text);
    out.append(
        ergs_constant(
            "STORAGE_APPLICATION_COST_IN_ERGS",
            ceil_div(ERGS_PER_CIRCUIT, CYCLES_PER_STORAGE_APPLICATION),
        ).as_str(),
    );
    proof {
        text = text + spec_ergs_constant(
            "STORAGE_APPLICATION_COST_IN_ERGS"@,
            spec_ceil_div(ERGS_PER_CIRCUIT, CYCLES_PER_STORAGE_APPLICATION),
        );
    }
    assert(out@ == text);
    out.append(
        ergs_constant(
            "CODE_DECOMMITTER_SORTER_COST_IN_ERGS",
            ceil_div(ERGS_PER_CIRCUIT, CYCLES_FOR_CODE_DECOMMITTER_SORTER),
        ).as_str(),
    );
    proof {
        text = text + spec_ergs_constant(
            "CODE_DECOMMITTER_SORTER_COST_IN_ERGS"@,
            spec_ceil_div(ERGS_PER_CIRCUIT, CYCLES_FOR_CODE_DECOMMITTER_SORTER),
        );
    }
    assert(out@ == text);
    out.append(
        ergs_constant(
            "LOG_DEMUXER_COST_IN_ERGS",
            ceil_div(ERGS_PER_CIRCUIT, CYCLES_FOR_LOG_DEMUXER),
        ).as_str(),
    );
    proof {
        text = text + spec_ergs_constant(
            "LOG_DEMUXER_COST_IN_ERGS"@,
            spec_ceil_div(ERGS_PER_CIRCUIT, CYCLES_FOR_LOG_DEMUXER),
        );
    }
    assert(out@ == text);
    out.append(
        ergs_constant(
            "STORAGE_SORTER_COST_IN_ERGS",
            ceil_div(ERGS_PER_CIRCUIT, CYCLES_FOR_STORAGE_SORTER),
        ).as_str(),
    );
    proof {
        text = text + spec_ergs_constant(
            "STORAGE_SORTER_COST_IN_ERGS"@,
            spec_ceil_div(ERGS_PER_CIRCUIT, CYCLES_FOR_STORAGE_SORTER),
        );
    }
    assert(out@ == text);
    out.append(
        ergs_constant(
            "EVENTS_OR_L1_MESSAGES_SORTER_COST_IN_ERGS",
            ceil_div(ERGS_PER_CIRCUIT, CYCLES_FOR_EVENTS_OR_L1_MESSAGES_SORTER),
        ).as_str(),
    );
    proof {
        text = text + spec_ergs_constant(
            "EVENTS_OR_L1_MESSAGES_SORTER_COST_IN_ERGS"@,
            spec_ceil_div(ERGS_PER_CIRCUIT, CYCLES_FOR_EVENTS_OR_L1_MESSAGES_SORTER),
        );
    }
    assert(out@ == text);
    out.append(
        ergs_constant(
            "INITIAL_WRITES_PUBDATA_HASHER_COST_IN_ERGS",
            ceil_div(ERGS_PER_CIRCUIT, LIMIT_FOR_INITIAL_WRITES_PUBDATA_HASHER),
        ).as_str(),
    );
    proof {
        text = text + spec_ergs_constant(
            "INITIAL_WRITES_PUBDATA_HASHER_COST_IN_ERGS"@,
            spec_ceil_div(ERGS_PER_CIRCUIT, LIMIT_FOR_INITIAL_WRITES_PUBDATA_HASHER),
        );
    }
    assert(out@ == text);
    out.append(
        ergs_constant(
            "REPEATED_WRITES_PUBDATA_HASHER_COST_IN_ERGS",
            ceil_div(ERGS_PER_CIRCUIT, LIMIT_FOR_REPEATED_WRITES_PUBDATA_HASHER),
        ).as_str(),
    );
    proof {
        text = text + spec_ergs_constant(
            "REPEATED_WRITES_PUBDATA_HASHER_COST_IN_ERGS"@,
            spec_ceil_div(ERGS_PER_CIRCUIT, LIMIT_FOR_REPEATED_WRITES_PUBDATA_HASHER),
        );
    }
    assert(out@ == text);
    out.append(
        ergs_constant(
            "CODE_DECOMMITMENT_SORTER_COST_IN_ERGS",
            ceil_div(ERGS_PER_CIRCUIT, CYCLES_FOR_CODE_DECOMMITTER_SORTER),
        ).as_str(),
    );
    proof {
        text = text + spec_ergs_constant(
            "CODE_DECOMMITMENT_SORTER_COST_IN_ERGS"@,
            spec_ceil_div(ERGS_PER_CIRCUIT, CYCLES_FOR_CODE_DECOMMITTER_SORTER),
        );
    }
    assert(out@ == text);
    out.append(comment(single_instance_note()).as_str());
    proof {
        text = text + spec_comment(spec_single_instance_note());
    }
    assert(out@ == text);
    out.append(
        ergs_constant(
            "L1_MESSAGE_MIN_COST_IN_ERGS",
            ceil_div(MAX_TX_ERGS_LIMIT, LIMIT_FOR_L1_MESSAGES_MERKLIZER),
        ).as_str(),
    );
    proof {
        text = text + spec_ergs_constant(
            "L1_MESSAGE_MIN_COST_IN_ERGS"@,
            spec_ceil_div(MAX_TX_ERGS_LIMIT, LIMIT_FOR_L1_MESSAGES_MERKLIZER),
        );
    }
    assert(out@ == text);
    out.append(
        ergs_constant(
            "INITIAL_WRITES_PUBDATA_HASHER_MIN_COST_IN_ERGS",
            min_price_for_initial_pubdata_write,
        ).as_str(),
    );
    proof {
        text = text + spec_ergs_constant(
            "INITIAL_WRITES_PUBDATA_HASHER_MIN_COST_IN_ERGS"@,
            spec_min_price_for_initial_pubdata_write(),
        );
    }
    assert(out@ == text);
    out.append(
        ergs_constant(
            "REPEATED_WRITES_PUBDATA_HASHER_MIN_COST_IN_ERGS",
            min_price_for_repeated_pubdata_write,
        ).as_str(),
    );
    proof {
        text = text + spec_ergs_constant(
            "REPEATED_WRITES_PUBDATA_HASHER_MIN_COST_IN_ERGS"@,
            spec_min_price_for_repeated_pubdata_write(),
        );
    }
    assert(out@ == text);
    out.append(comment(hasher_maximum_note()).as_str());
    proof {
        text = text + spec_comment(spec_hasher_maximum_note());
    }
    assert(out@ == text);
    out.append(
        ergs_constant(
            "STORAGE_WRITE_HASHER_MIN_COST_IN_ERGS",
            max(min_price_for_initial_pubdata_write, min_price_for_repeated_pubdata_write),
        ).as_str(),
    );
    proof {
        text = text + spec_ergs_constant(
            "STORAGE_WRITE_HASHER_MIN_COST_IN_ERGS"@,
            spec_storage_write_hasher_min_cost(),
        );
    }
    assert(out@ == text);
    out.append(comment(wrappers_only_note()).as_str());
    proof {
        text = text + spec_comment(spec_wrappers_only_note());
    }
    assert(out@ == text);
    out.append(
        ergs_constant(
            "KECCAK256_CIRCUIT_COST_IN_ERGS",
            ceil_div(ERGS_PER_CIRCUIT, CYCLES_PER_KECCAK256_CIRCUIT),
        ).as_str(),
    );
    proof {
        text = text + spec_ergs_constant(
            "KECCAK256_CIRCUIT_COST_IN_ERGS"@,
            spec_ceil_div(ERGS_PER_CIRCUIT, CYCLES_PER_KECCAK256_CIRCUIT),
        );
    }
    assert(out@ == text);
    out.append(
        ergs_constant(
            "SHA256_CIRCUIT_COST_IN_ERGS",
            ceil_div(ERGS_PER_CIRCUIT, CYCLES_PER_SHA256_CIRCUIT),
        ).as_str(),
    );
    proof {
        text = text + spec_ergs_constant(
            "SHA256_CIRCUIT_COST_IN_ERGS"@,
            spec_ceil_div(ERGS_PER_CIRCUIT, CYCLES_PER_SHA256_CIRCUIT),
        );
    }
    assert(out@ == text);
    out.append(
        ergs_constant(
            "ECRECOVER_CIRCUIT_COST_IN_ERGS",
            ceil_div(ERGS_PER_CIRCUIT, CYCLES_PER_ECRECOVER_CIRCUIT),
        ).as_str(),
    );
    proof {
        text = text + spec_ergs_constant(
            "ECRECOVER_CIRCUIT_COST_IN_ERGS"@,
            spec_ceil_div(ERGS_PER_CIRCUIT, CYCLES_PER_ECRECOVER_CIRCUIT),
        );
    }
    assert(out@ == text);
    out
}

/// The constants of `circuit_prices` are the values that the derivation gives.
pub proof fn lemma_circuit_prices_are_derived()
    ensures
        VM_CYCLE_COST_IN_ERGS == spec_ceil_div(ERGS_PER_CIRCUIT, CYCLES_PER_VM_SNAPSHOT),
        RAM_PERMUTATION_COST_IN_ERGS == spec_ceil_div(ERGS_PER_CIRCUIT, CYCLES_PER_RAM_PERMUTATION),
        CODE_DECOMMITMENT_COST_PER_WORD_IN_ERGS
            == spec_ceil_div(ERGS_PER_CIRCUIT, CYCLES_PER_CODE_DECOMMITTER_PAIR),
        STORAGE_APPLICATION_COST_IN_ERGS
            == spec_ceil_div(ERGS_PER_CIRCUIT, CYCLES_PER_STORAGE_APPLICATION),
        CODE_DECOMMITTER_SORTER_COST_IN_ERGS
            == spec_ceil_div(ERGS_PER_CIRCUIT, CYCLES_FOR_CODE_DECOMMITTER_SORTER),
        LOG_DEMUXER_COST_IN_ERGS == spec_ceil_div(ERGS_PER_CIRCUIT, CYCLES_FOR_LOG_DEMUXER),
        STORAGE_SORTER_COST_IN_ERGS == spec_ceil_div(ERGS_PER_CIRCUIT, CYCLES_FOR_STORAGE_SORTER),
        EVENTS_OR_L1_MESSAGES_SORTER_COST_IN_ERGS
            == spec_ceil_div(ERGS_PER_CIRCUIT, CYCLES_FOR_EVENTS_OR_L1_MESSAGES_SORTER),
        INITIAL_WRITES_PUBDATA_HASHER_COST_IN_ERGS
            == spec_ceil_div(ERGS_PER_CIRCUIT, LIMIT_FOR_INITIAL_WRITES_PUBDATA_HASHER),
        REPEATED_WRITES_PUBDATA_HASHER_COST_IN_ERGS
            == spec_ceil_div(ERGS_PER_CIRCUIT, LIMIT_FOR_REPEATED_WRITES_PUBDATA_HASHER),
        CODE_DECOMMITMENT_SORTER_COST_IN_ERGS
            == spec_ceil_div(ERGS_PER_CIRCUIT, CYCLES_FOR_CODE_DECOMMITTER_SORTER),
        L1_MESSAGE_MIN_COST_IN_ERGS
            == spec_ceil_div(MAX_TX_ERGS_LIMIT, LIMIT_FOR_L1_MESSAGES_MERKLIZER),
        INITIAL_WRITES_PUBDATA_HASHER_MIN_COST_IN_ERGS
            == spec_min_price_for_initial_pubdata_write(),
        REPEATED_WRITES_PUBDATA_HASHER_MIN_COST_IN_ERGS
            == spec_min_price_for_repeated_pubdata_write(),
        STORAGE_WRITE_HASHER_MIN_COST_IN_ERGS == spec_storage_write_hasher_min_cost(),
        KECCAK256_CIRCUIT_COST_IN_ERGS
            == spec_ceil_div(ERGS_PER_CIRCUIT, CYCLES_PER_KECCAK256_CIRCUIT),
        SHA256_CIRCUIT_COST_IN_ERGS == spec_ceil_div(ERGS_PER_CIRCUIT, CYCLES_PER_SHA256_CIRCUIT),
        ECRECOVER_CIRCUIT_COST_IN_ERGS
            == spec_ceil_div(ERGS_PER_CIRCUIT, CYCLES_PER_ECRECOVER_CIRCUIT),
{
    assert(spec_ceil_div(80000, 24200) == 4);
}

} // verus!
