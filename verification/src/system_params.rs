//! System-wide limits, well-known addresses and storage access costs.

use vstd::prelude::*;
use crate::circuit_prices::STORAGE_WRITE_HASHER_MIN_COST_IN_ERGS;
use crate::{CALL_LIKE_ERGS_COST, ERGS_PER_CODE_WORD_DECOMMITTMENT};

verus! {

pub const MAX_TX_ERGS_LIMIT: u32 = 80_000_000;

pub const VM_INITIAL_FRAME_ERGS: u32 = u32::MAX;

pub const EVM_SIMULATOR_STIPEND: u32 = 1u32 << 30;

/// What one circuit is worth, in ergs.
pub const ERGS_PER_CIRCUIT: u32 = 80000;

/// A call stack depth that no transaction can exceed: every frame costs at
/// least `CALL_LIKE_ERGS_COST`, and 80 more frames are left for the near calls
/// that the bootloader makes on its own account.
pub const VM_MAX_STACK_DEPTH: u32 = VM_INITIAL_FRAME_ERGS / CALL_LIKE_ERGS_COST + 80;

pub const INITIAL_FRAME_SUCCESSFUL_EXIT_PC: u16 = 0u16;

pub const INITIAL_FRAME_FORMAL_EH_LOCATION: u16 = u16::MAX;

/// System contracts live from `2^15` upwards.
pub const SYSTEM_CONTRACTS_OFFSET_ADDRESS: u16 = 0x8000;

pub const KECCAK256_ROUND_FUNCTION_PRECOMPILE_ADDRESS: u16 = SYSTEM_CONTRACTS_OFFSET_ADDRESS + 0x10;

pub const SHA256_ROUND_FUNCTION_PRECOMPILE_ADDRESS: u16 = 0x02;

pub const ECRECOVER_INNER_FUNCTION_PRECOMPILE_ADDRESS: u16 = 0x01;

pub const SECP256R1_VERIFY_PRECOMPILE_ADDRESS: u16 = 0x100;

pub const MAX_PUBDATA_COST_PER_QUERY: i32 = 65;

pub const INITIAL_STORAGE_WRITE_PUBDATA_BYTES: usize = 64;

pub const REPEATED_STORAGE_WRITE_PUBDATA_BYTES: usize = 40;

pub const L1_MESSAGE_PUBDATA_BYTES: u32 = 1 + 1 + 2 + 20 + 32 + 32;

/// The most pubdata, in bytes, that one batch can publish.
pub const MAX_PUBDATA_PER_BLOCK: u32 = 110000;

pub const STORAGE_AUX_BYTE: u8 = 0;

pub const EVENT_AUX_BYTE: u8 = 1;

pub const L1_MESSAGE_AUX_BYTE: u8 = 2;

pub const PRECOMPILE_AUX_BYTE: u8 = 3;

pub const TRANSIENT_STORAGE_AUX_BYTE: u8 = 4;

pub const BOOTLOADER_FORMAL_ADDRESS_LOW: u16 = SYSTEM_CONTRACTS_OFFSET_ADDRESS + 0x01;

pub const DEPLOYER_SYSTEM_CONTRACT_ADDRESS_LOW: u16 = SYSTEM_CONTRACTS_OFFSET_ADDRESS + 0x02;

pub const NONCE_MANAGER_SYSTEM_CONTRACT_ADDRESS_LOW: u16 = SYSTEM_CONTRACTS_OFFSET_ADDRESS + 0x03;

pub const KNOWN_CODE_FACTORY_SYSTEM_CONTRACT_ADDRESS_LOW: u16 = SYSTEM_CONTRACTS_OFFSET_ADDRESS
    + 0x04;

/// Where the unrestricted address space begins.
pub const ADDRESS_UNRESTRICTED_SPACE: u64 = 1u64 << 16;

pub const ADDRESS_ECRECOVER: u16 = 0x0001;

pub const ADDRESS_SHA256: u16 = 0x0002;

pub const ADDRESS_RIPEMD160: u16 = 0x0003;

pub const ADDRESS_IDENTITY: u16 = 0x0004;

pub const ADDRESS_MODEXP: u16 = 0x0005;

pub const ADDRESS_ECADD: u16 = 0x0006;

pub const ADDRESS_ECMUL: u16 = 0x0007;

pub const ADDRESS_ECPAIRING: u16 = 0x0008;

pub const ADDRESS_BLAKE2F: u16 = 0x0009;

pub const ADDRESS_POINT_EVALUATION: u16 = 0x000A;

pub const ADDRESS_BOOTLOADER: u16 = 0x8001;

pub const ADDRESS_ACCOUNT_CODE_STORAGE: u16 = 0x8002;

pub const ADDRESS_NONCE_HOLDER: u16 = 0x8003;

pub const ADDRESS_KNOWN_CODES_STORAGE: u16 = 0x8004;

pub const ADDRESS_IMMUTABLE_SIMULATOR: u16 = 0x8005;

pub const ADDRESS_CONTRACT_DEPLOYER: u16 = 0x8006;

pub const ADDRESS_FORCE_DEPLOYER: u16 = 0x8007;

pub const ADDRESS_L1_MESSENGER: u16 = 0x8008;

pub const ADDRESS_MSG_VALUE: u16 = 0x8009;

pub const ADDRESS_ETH_TOKEN: u16 = 0x800A;

pub const ADDRESS_SYSTEM_CONTEXT: u16 = 0x800B;

pub const ADDRESS_BOOTLOADER_UTILITIES: u16 = 0x800C;

pub const ADDRESS_EVENT_WRITER: u16 = 0x800D;

pub const ADDRESS_KECCAK256: u16 = 0x8010;

pub const BOOTLOADER_MAX_MEMORY: u32 = u32::MAX;

/// Memory that a new frame gets for free: 4 KB.
pub const NEW_FRAME_MEMORY_STIPEND: u32 = 1u32 << 12;

/// Memory that a new kernel frame gets for free: 2 MB, enough for any
/// bytecode that the decommit opcode can load.
pub const NEW_KERNEL_FRAME_MEMORY_STIPEND: u32 = 1u32 << 21;

pub const INTERNAL_ERGS_TO_VISIBLE_ERGS_CONVERSION_CONSTANT: u32 = 1;

/// The largest bytecode, in bytes, whose decommitment the message value
/// simulator pays for by itself.
pub const MAX_AUTOMATICALLY_SUPPORTED_MSG_VALUE_BYTECODE: u32 = 100_000;

pub const DECOMMITMENT_MSG_VALUE_SIMULATOR_OVERHEAD: u32 = ERGS_PER_CODE_WORD_DECOMMITTMENT
    * MAX_AUTOMATICALLY_SUPPORTED_MSG_VALUE_BYTECODE / 32;

/// What a caller of the message value simulator always hands over: enough for
/// the simulator itself, for the decommitment of the callee and for the 2300
/// gas stipend.
pub const MSG_VALUE_SIMULATOR_ADDITIVE_COST: u32 = 14500
    + DECOMMITMENT_MSG_VALUE_SIMULATOR_OVERHEAD;

pub open spec fn spec_max(a: u32, b: u32) -> u32 {
    if a > b {
        a
    } else {
        b
    }
}

/// The larger of two prices.
pub fn max(a: u32, b: u32) -> (r: u32)
    ensures
        r == spec_max(a, b),
        r >= a,
        r >= b,
{
    if a > b {
        a
    } else {
        b
    }
}

/// The least that a storage write must cost for a transfer with the 2300 gas
/// stipend to be unable to write: the stipend and one more.
pub const MIN_STORAGE_WRITE_PRICE_FOR_REENTRANCY_PROTECTION: u32 = 2300 + 1;

/// The floor under the price of a storage write: the larger of the reentrancy
/// floor and the floor of the pubdata hashers.
pub const MIN_STORAGE_WRITE_COST: u32 = 2301;

pub const STORAGE_ACCESS_COLD_READ_COST: u32 = 2000;

/// The larger of the storage write floor and 5500.
pub const STORAGE_ACCESS_COLD_WRITE_COST: u32 = 5500;

pub const STORAGE_ACCESS_WARM_READ_COST: u32 = 30;

pub const STORAGE_ACCESS_WARM_WRITE_COST: u32 = 60;

/// The two storage write constants are the maxima that their definitions name.
pub proof fn lemma_storage_write_floors()
    ensures
        MIN_STORAGE_WRITE_COST == spec_max(
            MIN_STORAGE_WRITE_PRICE_FOR_REENTRANCY_PROTECTION,
            STORAGE_WRITE_HASHER_MIN_COST_IN_ERGS,
        ),
        STORAGE_ACCESS_COLD_WRITE_COST == spec_max(MIN_STORAGE_WRITE_COST, 5500),
{
}

/// Computation bounds pubdata: every byte of pubdata that one storage query can
/// publish is backed by at least 80 ergs of the cold write cost.
pub proof fn lemma_cold_write_covers_pubdata()
    ensures
        STORAGE_ACCESS_COLD_WRITE_COST as int / MAX_PUBDATA_COST_PER_QUERY as int >= 80,
{
}

/// The bytecode that the message value simulator supports is a whole number of
/// 32-byte words.
pub proof fn lemma_msg_value_bytecode_is_whole_words()
    ensures
        MAX_AUTOMATICALLY_SUPPORTED_MSG_VALUE_BYTECODE % 32 == 0,
{
}

} // verus!
