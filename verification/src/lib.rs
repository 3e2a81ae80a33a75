//! Instruction set of the virtual machine: its opcode families, the decoding
//! table synthesized from them, the codec between decoded instructions and raw
//! code words, and the price of every opcode.

use vstd::prelude::*;
use crate::circuit_prices::{
    CODE_DECOMMITMENT_COST_PER_WORD_IN_ERGS, CODE_DECOMMITTER_SORTER_COST_IN_ERGS,
    RAM_PERMUTATION_COST_IN_ERGS, VM_CYCLE_COST_IN_ERGS,
};

pub use ethereum_types;
pub use sha2;

pub use crate::decoding::encoding_mode_production::{EncodingModeProduction, NonCanonicalEncoding};
pub use crate::decoding::{
    AllowedIntegerRepresentation, AllowedPcOrImm, VariantMonotonicNumber, VmEncodingMode,
};
pub use crate::definitions::abi::far_call::{FarCallABI, FarCallForwardPageType};
pub use crate::definitions::abi::fat_pointer::{FatPointer, FatPointerValidationException};
pub use crate::definitions::abi::meta::VmMetaParameters;
pub use crate::definitions::abi::near_call::NearCallABI;
pub use crate::definitions::abi::precompile_call::{PrecompileAuxData, PrecompileCallABI};
pub use crate::definitions::abi::ret::{RetABI, RetForwardPageType};
pub use crate::definitions::add::AddOpcode;
pub use crate::definitions::all::Opcode;
pub use crate::definitions::binop::BinopOpcode;
pub use crate::definitions::bitmask::{
    compute_decoding_format, max_num_flags_for_version, max_num_variants_for_version,
    opcode_as_integer_bitmask, synthesize_bit_decomposition_table,
    total_description_bits_for_version, total_description_bits_rounded_for_version,
    total_opcode_description_and_aux_bits_for_version,
};
pub use crate::definitions::condition::{all_conditions, Condition};
pub use crate::definitions::context::ContextOpcode;
pub use crate::definitions::density::compute_encoding_density;
pub use crate::definitions::div::DivOpcode;
pub use crate::definitions::enumeration::{
    all_opcode_prototypes, all_opcodes, all_variants_in_version,
};
pub use crate::definitions::far_call::FarCallOpcode;
pub use crate::definitions::invalid_opcode::InvalidOpcode;
pub use crate::definitions::jump::JumpOpcode;
pub use crate::definitions::log::LogOpcode;
pub use crate::definitions::mul::MulOpcode;
pub use crate::definitions::near_call::NearCallOpcode;
pub use crate::definitions::noop::NopOpcode;
pub use crate::definitions::opcode_trait::{
    all_isa_versions, full_variants_product, ISAVersion, OpcodeProps, OpcodeVariantData,
    OpcodeVariantProps, Operand,
};
pub use crate::definitions::ptr::PtrOpcode;
pub use crate::definitions::ret::RetOpcode;
pub use crate::definitions::shift::ShiftOpcode;
pub use crate::definitions::sub::SubOpcode;
pub use crate::definitions::synthesis::{
    find_new_opcodes, synthesize_opcode_decoding_tables,
    synthesize_opcode_decoding_tables_legacy, SynthesisError,
};
pub use crate::definitions::uma::UMAOpcode;
pub use crate::definitions::variant::{invalid_opcode_variant, semantically_equal, OpcodeVariant};
pub use crate::definitions::versioned_hash::{
    ContractCodeSha256, ContractCodeSha256Storage, VersionedHashDef, VersionedHashGeneric,
};
pub use crate::imm_mem_modifiers::{ImmMemHandlerFlags, RegOrImmFlags};
pub use crate::opcode::DecodedOpcode;
pub use crate::tables::{
    default_isa_version, nop_opcode_variant, panic_opcode_variant, OpcodeTables,
};
pub use crate::utils::{
    bytecode_to_code_hash, bytecode_to_code_hash_for_mode, erase_fat_pointer_metadata, merge_u4,
    split_as_u4,
};

pub mod circuit_prices;
pub mod circuit_pricing_generator;
pub mod decimal;
pub mod decoding;
pub mod definitions;
pub mod imm_mem_modifiers;
pub mod opcode;
pub mod system_params;
pub mod tables;
pub mod u256;
pub mod utils;

verus! {

pub const REGISTERS_COUNT: usize = 15;

/// Width of the index field of a code word: the decoding table has `2^11` slots.
pub const OPCODES_TABLE_WIDTH: usize = 11;

/// Number of slots of the decoding table.
pub const OPCODES_TABLE_SIZE: usize = 2048;

pub const CONDITIONAL_BITS_SHIFT: usize = 13;

pub const MEMORY_GROWTH_ERGS_PER_BYTE: u32 = 1;

pub const VARIANT_AND_CONDITION_ENCODING_BITS: usize = 16;

pub const REGISTER_INDEX_ENCODING_BITS: usize = 4;

pub const SRC_REGS_SHIFT: u32 = 16;

pub const DST_REGS_SHIFT: u32 = 24;

pub const NUM_OPCODES: usize = 16;

/// One bit for each opcode family.
pub const OPCODE_TYPE_BITS: usize = NUM_OPCODES;

pub const OPCODE_INPUT_VARIANT_FLAGS: usize = 6;

pub const OPCODE_OUTPUT_VARIANT_FLAGS: usize = 4;

pub const KERNEL_MODE_FLAG_BITS: usize = 1;

pub const CAN_BE_USED_IN_STATIC_CONTEXT_FLAG_BITS: usize = 1;

pub const EXPLICIT_PANIC_FLAG_BITS: usize = 1;

pub const KERNER_MODE_FLAG_IDX: usize = 0;

pub const CAN_BE_USED_IN_STATIC_CONTEXT_FLAG_IDX: usize = 1;

pub const EXPLICIT_PANIC_FLAG_IDX: usize = 2;

pub const WIDTH_MULTIPLE: usize = 16;

pub const INITIAL_SP_ON_FAR_CALL: u64 = 0;

pub const UNMAPPED_PAGE: u32 = 0;

pub const BOOTLOADER_BASE_PAGE: u32 = 8;

pub const BOOTLOADER_CODE_PAGE: u32 = BOOTLOADER_BASE_PAGE;

pub const BOOTLOADER_CALLDATA_PAGE: u32 = BOOTLOADER_BASE_PAGE - 1;

pub const BOOTLOADER_STACK_PAGE: u32 = BOOTLOADER_BASE_PAGE + 1;

pub const BOOTLOADER_HEAP_PAGE: u32 = BOOTLOADER_BASE_PAGE + 2;

pub const BOOTLOADER_AUX_HEAP_PAGE: u32 = BOOTLOADER_BASE_PAGE + 3;

pub const NEW_MEMORY_PAGES_PER_FAR_CALL: u32 = 8;

pub const STARTING_TIMESTAMP: u32 = 1024;

pub const STARTING_BASE_PAGE: u32 = 2048;

pub const TIME_DELTA_PER_CYCLE: u32 = 4;

pub const MAX_PENDING_CYCLES: usize = 1;

pub const LOG2_NUM_ADDRESSABLE_HEAP_BYTES: u32 = 24;

/// How many independent flags an opcode variant can carry.
pub const NUM_NON_EXCLUSIVE_FLAGS: usize = 2;

pub const TOTAL_AUX_BITS: usize = KERNEL_MODE_FLAG_BITS + CAN_BE_USED_IN_STATIC_CONTEXT_FLAG_BITS
    + EXPLICIT_PANIC_FLAG_BITS;

/// An invalid opcode burns all the ergs of its frame at once.
pub const INVALID_OPCODE_ERGS: u32 = u32::MAX;

/// Price of an opcode that can read its input from the stack and write its
/// output there: such an opcode takes one or two RAM permutations more than an
/// average one.
pub const RICH_ADDRESSING_OPCODE_ERGS: u32 = VM_CYCLE_COST_IN_ERGS + 2
    * RAM_PERMUTATION_COST_IN_ERGS;

pub const AVERAGE_OPCODE_ERGS: u32 = VM_CYCLE_COST_IN_ERGS + RAM_PERMUTATION_COST_IN_ERGS;

// I/O overhead of the operations that leave state behind.
pub const STORAGE_READ_IO_PRICE: u32 = 150;

pub const STORAGE_WRITE_IO_PRICE: u32 = 250;

pub const EVENT_IO_PRICE: u32 = 25;

pub const L1_MESSAGE_IO_PRICE: u32 = 100;

/// Price of a new item on the call stack.
pub const CALL_LIKE_ERGS_COST: u32 = 20;

pub const ERGS_PER_CODE_WORD_DECOMMITTMENT: u32 = CODE_DECOMMITMENT_COST_PER_WORD_IN_ERGS;

/// The table has one slot for every value of the index field.
pub proof fn lemma_table_size()
    ensures
        OPCODES_TABLE_SIZE == 1usize << OPCODES_TABLE_WIDTH,
        OPCODES_TABLE_SIZE == vstd::arithmetic::power2::pow2(OPCODES_TABLE_WIDTH as nat),
{
    assert(1usize << 11 == 2048) by (bit_vector);
    vstd::arithmetic::power2::lemma2_to64();
}

/// The price of the decommitter's sorter fits in sixteen bits, and memory
/// growth costs one erg per byte.
pub proof fn lemma_price_constants()
    ensures
        CODE_DECOMMITTER_SORTER_COST_IN_ERGS <= u16::MAX,
        MEMORY_GROWTH_ERGS_PER_BYTE == 1,
{
}

} // verus!
