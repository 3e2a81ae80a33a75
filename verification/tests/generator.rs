use zkevm_opcode_defs::circuit_prices::{
    CODE_DECOMMITMENT_COST_PER_WORD_IN_ERGS, ECRECOVER_CIRCUIT_COST_IN_ERGS,
    L1_MESSAGE_MIN_COST_IN_ERGS, STORAGE_APPLICATION_COST_IN_ERGS, VM_CYCLE_COST_IN_ERGS,
};
use zkevm_opcode_defs::circuit_pricing_generator::{
    ceil_div, circuit_prices, comment, ergs_constant, min_price_for_pubdata_write,
    CYCLES_PER_CODE_DECOMMITTER, CYCLES_PER_ECRECOVER_CIRCUIT, CYCLES_PER_STORAGE_APPLICATION,
    CYCLES_PER_VM_SNAPSHOT, LIMIT_FOR_INITIAL_WRITES_PUBDATA_HASHER,
    LIMIT_FOR_L1_MESSAGES_MERKLIZER,
};
use zkevm_opcode_defs::decimal::to_decimal;
use zkevm_opcode_defs::system_params::{ERGS_PER_CIRCUIT, MAX_TX_ERGS_LIMIT};

#[test]
fn division_rounds_up() {
    assert_eq!(ceil_div(0, 5), 0);
    assert_eq!(ceil_div(1, 5), 1);
    assert_eq!(ceil_div(5, 5), 1);
    assert_eq!(ceil_div(6, 5), 2);
    assert_eq!(ceil_div(10, 1), 10);
    assert_eq!(ceil_div(80000, 23000), 4);
    assert_eq!(
        ceil_div(ERGS_PER_CIRCUIT, CYCLES_PER_VM_SNAPSHOT),
        VM_CYCLE_COST_IN_ERGS
    );
    assert_eq!(
        ceil_div(ERGS_PER_CIRCUIT, 2 * CYCLES_PER_CODE_DECOMMITTER),
        CODE_DECOMMITMENT_COST_PER_WORD_IN_ERGS
    );
    assert_eq!(
        ceil_div(ERGS_PER_CIRCUIT, CYCLES_PER_STORAGE_APPLICATION),
        STORAGE_APPLICATION_COST_IN_ERGS
    );
    assert_eq!(
        ceil_div(ERGS_PER_CIRCUIT, CYCLES_PER_ECRECOVER_CIRCUIT),
        ECRECOVER_CIRCUIT_COST_IN_ERGS
    );
    assert_eq!(
        ceil_div(MAX_TX_ERGS_LIMIT, LIMIT_FOR_L1_MESSAGES_MERKLIZER),
        L1_MESSAGE_MIN_COST_IN_ERGS
    );
}

#[test]
fn pubdata_alone_protects_the_hashers() {
    assert_eq!(
        min_price_for_pubdata_write(LIMIT_FOR_INITIAL_WRITES_PUBDATA_HASHER, 64),
        0
    );
    // a hasher with room for a hundred writes would need a floor
    assert_eq!(min_price_for_pubdata_write(100, 64), 800_000);
    assert_eq!(min_price_for_pubdata_write(3, 1000), 26_666_667);
}

#[test]
fn numbers_in_decimal() {
    assert_eq!(to_decimal(0), "0");
    assert_eq!(to_decimal(7), "7");
    assert_eq!(to_decimal(10), "10");
    assert_eq!(to_decimal(156250), "156250");
    assert_eq!(to_decimal(1_000_000_007), "1000000007");
    assert_eq!(to_decimal(u64::MAX), "18446744073709551615");
}

#[test]
fn lines_of_the_price_module() {
    assert_eq!(
        ergs_constant("VM_CYCLE_COST_IN_ERGS", 4),
        "pub const VM_CYCLE_COST_IN_ERGS: u32 = 4;\n"
    );
    assert_eq!(ergs_constant("X", 0), "pub const X: u32 = 0;\n");
    assert_eq!(
        ergs_constant("Y", u32::MAX),
        "pub const Y: u32 = 4294967295;\n"
    );
    assert_eq!(comment("as it is"), "\n// as it is\n");
}

#[test]
fn the_derived_prices_are_the_published_ones() {
    let expected = "pub const VM_CYCLE_COST_IN_ERGS: u32 = 4;
pub const RAM_PERMUTATION_COST_IN_ERGS: u32 = 1;
pub const CODE_DECOMMITMENT_COST_PER_WORD_IN_ERGS: u32 = 4;
pub const STORAGE_APPLICATION_COST_IN_ERGS: u32 = 678;
pub const CODE_DECOMMITTER_SORTER_COST_IN_ERGS: u32 = 1;
pub const LOG_DEMUXER_COST_IN_ERGS: u32 = 1;
pub const STORAGE_SORTER_COST_IN_ERGS: u32 = 2;
pub const EVENTS_OR_L1_MESSAGES_SORTER_COST_IN_ERGS: u32 = 1;
pub const INITIAL_WRITES_PUBDATA_HASHER_COST_IN_ERGS: u32 = 18;
pub const REPEATED_WRITES_PUBDATA_HASHER_COST_IN_ERGS: u32 = 11;
pub const CODE_DECOMMITMENT_SORTER_COST_IN_ERGS: u32 = 1;

// The following circuits are single-instance and so the provided prices are just minimal prices to preserve DDoS safety
pub const L1_MESSAGE_MIN_COST_IN_ERGS: u32 = 156250;
pub const INITIAL_WRITES_PUBDATA_HASHER_MIN_COST_IN_ERGS: u32 = 0;
pub const REPEATED_WRITES_PUBDATA_HASHER_MIN_COST_IN_ERGS: u32 = 0;

// Equals to max(INITIAL_WRITES_PUBDATA_HASHER_MIN_COST_IN_ERGS, REPEATED_WRITES_PUBDATA_HASHER_MIN_COST_IN_ERGS)
pub const STORAGE_WRITE_HASHER_MIN_COST_IN_ERGS: u32 = 0;

// The following constants should not be used in the VM directly, but only in Solidity wrappers
pub const KECCAK256_CIRCUIT_COST_IN_ERGS: u32 = 40;
pub const SHA256_CIRCUIT_COST_IN_ERGS: u32 = 7;
pub const ECRECOVER_CIRCUIT_COST_IN_ERGS: u32 = 1112;
";
    assert_eq!(circuit_prices(), expected);
}
