//! The `far call` family.

use vstd::prelude::*;
use crate::definitions::opcode_trait::{
    full_variants_product, spec_full_variants_product, ISAVersion, OpcodeProps,
    OpcodeVariantData, OpcodeVariantProps, Operand,
};
use crate::circuit_prices::{
    CODE_DECOMMITMENT_SORTER_COST_IN_ERGS, RAM_PERMUTATION_COST_IN_ERGS,
    STORAGE_SORTER_COST_IN_ERGS, VM_CYCLE_COST_IN_ERGS,
};
use crate::{CALL_LIKE_ERGS_COST, STORAGE_READ_IO_PRICE};

verus! {

/// A call into another contract.
#[derive(Clone, Copy, Debug, PartialEq, Eq, PartialOrd, Ord, Hash, Structural)]
pub enum FarCallOpcode {
    Normal,
    Delegate,
    Mimic,
}

// Registers are numbered from zero.
pub const CALL_IMPLICIT_CALLDATA_FAT_PTR_REGISTER: u8 = 0;

pub const CALL_IMPLICIT_CONSTRUCTOR_MARKER_REGISTER: u8 = 1;

pub const CALL_SYSTEM_ABI_REGISTERS: std::ops::Range<u8> = 2..12;

pub const CALL_RESERVED_RANGE: std::ops::Range<u8> = 12..14;

pub const CALL_IMPLICIT_PARAMETER_REG_IDX: u8 = 14;

pub const FAR_CALL_STATIC_FLAG_IDX: usize = 0;

pub const FAR_CALL_SHARD_FLAG_IDX: usize = 1;

impl OpcodeVariantProps for FarCallOpcode {
    open spec fn spec_all_variants() -> Seq<Self> {
        seq![FarCallOpcode::Normal, FarCallOpcode::Delegate, FarCallOpcode::Mimic]
    }

    open spec fn spec_minimal_version(&self) -> ISAVersion {
        ISAVersion(0)
    }

    open spec fn spec_max_variant_idx_for_version(version: ISAVersion) -> usize {
        2
    }

    open spec fn spec_variant_index(&self) -> usize {
        match self {
            FarCallOpcode::Normal => 0,
            FarCallOpcode::Delegate => 1,
            FarCallOpcode::Mimic => 2,
        }
    }

    open spec fn spec_ergs_price(&self) -> u32 {
        (2 * VM_CYCLE_COST_IN_ERGS + RAM_PERMUTATION_COST_IN_ERGS + STORAGE_READ_IO_PRICE
            + CALL_LIKE_ERGS_COST + STORAGE_SORTER_COST_IN_ERGS
            + CODE_DECOMMITMENT_SORTER_COST_IN_ERGS) as u32
    }

    proof fn lemma_variants_are_indexed() {
        assert forall|v: Self| #[trigger]
            v.spec_variant_index() < Self::spec_all_variants().len()
                && Self::spec_all_variants()[v.spec_variant_index() as int] == v by {
            match v {
                FarCallOpcode::Normal => {
                    assert(Self::spec_all_variants()[0] == v);
                },
                FarCallOpcode::Delegate => {
                    assert(Self::spec_all_variants()[1] == v);
                },
                FarCallOpcode::Mimic => {
                    assert(Self::spec_all_variants()[2] == v);
                },
            }
        }
    }

    proof fn lemma_max_variant_idx_for_version(version: ISAVersion) {
    }

    fn all_variants() -> (r: Vec<Self>) {
        vec![FarCallOpcode::Normal, FarCallOpcode::Delegate, FarCallOpcode::Mimic]
    }

    fn minimal_version(&self) -> (r: ISAVersion) {
        ISAVersion(0)
    }

    fn max_variant_idx_for_version(_version: ISAVersion) -> (r: usize) {
        FarCallOpcode::Mimic.variant_index()
    }

    fn variant_index(&self) -> (r: usize) {
        match self {
            FarCallOpcode::Normal => 0,
            FarCallOpcode::Delegate => 1,
            FarCallOpcode::Mimic => 2,
        }
    }

    fn from_variant_index_for_version(index: usize, _version: &ISAVersion) -> (r: Option<Self>) {
        proof {
            assert(Self::spec_all_variants()[0] == FarCallOpcode::Normal);
            assert(Self::spec_all_variants()[1] == FarCallOpcode::Delegate);
            assert(Self::spec_all_variants()[2] == FarCallOpcode::Mimic);
        }
        match index {
            0 => Some(FarCallOpcode::Normal),
            1 => Some(FarCallOpcode::Delegate),
            2 => Some(FarCallOpcode::Mimic),
            _ => None,
        }
    }

    fn ergs_price(&self) -> (r: u32) {
        2 * VM_CYCLE_COST_IN_ERGS + RAM_PERMUTATION_COST_IN_ERGS + STORAGE_READ_IO_PRICE
            + CALL_LIKE_ERGS_COST + STORAGE_SORTER_COST_IN_ERGS
            + CODE_DECOMMITMENT_SORTER_COST_IN_ERGS
    }
}

impl OpcodeProps for FarCallOpcode {
    open spec fn spec_name(&self) -> Seq<char> {
        "Far call opcode"@
    }

    open spec fn spec_variants_data(&self, version: ISAVersion) -> Seq<OpcodeVariantData> {
        spec_full_variants_product(
            0,
            Self::spec_max_variant_idx_for_version(version),
            2,
            1,
        )
    }

    open spec fn spec_max_variant_idx(&self, version: ISAVersion) -> usize {
        Self::spec_max_variant_idx_for_version(version)
    }

    open spec fn spec_input_operands(&self, version: ISAVersion) -> Seq<Operand> {
        seq![Operand::RegOnly, Operand::RegOnly]
    }

    open spec fn spec_output_operands(&self, version: ISAVersion) -> Seq<Operand> {
        Seq::empty()
    }

    open spec fn spec_requires_kernel_mode(&self) -> bool {
        match self {
            FarCallOpcode::Normal | FarCallOpcode::Delegate => false,
            FarCallOpcode::Mimic => true,
        }
    }

    open spec fn spec_can_be_used_in_static_context(&self) -> bool {
        true
    }

    fn name(&self) -> (r: &'static str) {
        "Far call opcode"
    }

    fn variants_data(&self, version: ISAVersion) -> (r: Vec<OpcodeVariantData>) {
        full_variants_product(0, Self::max_variant_idx_for_version(version), 2, 1)
    }

    fn max_variant_idx(&self, version: ISAVersion) -> (r: usize) {
        Self::max_variant_idx_for_version(version)
    }

    fn input_operands(&self, _version: ISAVersion) -> (r: Vec<Operand>) {
        vec![Operand::RegOnly, Operand::RegOnly]
    }

    fn output_operands(&self, _version: ISAVersion) -> (r: Vec<Operand>) {
        Vec::new()
    }

    fn requires_kernel_mode(&self) -> (r: bool) {
        match self {
            FarCallOpcode::Normal | FarCallOpcode::Delegate => false,
            FarCallOpcode::Mimic => true,
        }
    }

    fn can_be_used_in_static_context(&self) -> (r: bool) {
        true
    }
}

} // verus!
