//! The `add` family.

use vstd::prelude::*;
use crate::definitions::opcode_trait::{
    full_variants_product, spec_full_variants_product, ISAVersion, OpcodeProps,
    OpcodeVariantData, OpcodeVariantProps, Operand,
};
use crate::imm_mem_modifiers::ImmMemHandlerFlags;
use crate::RICH_ADDRESSING_OPCODE_ERGS;

verus! {

/// Addition.
#[derive(Clone, Copy, Debug, PartialEq, Eq, PartialOrd, Ord, Hash, Structural)]
pub enum AddOpcode {
    Add,
}

impl OpcodeVariantProps for AddOpcode {
    open spec fn spec_all_variants() -> Seq<Self> {
        seq![AddOpcode::Add]
    }

    open spec fn spec_minimal_version(&self) -> ISAVersion {
        ISAVersion(0)
    }

    open spec fn spec_max_variant_idx_for_version(version: ISAVersion) -> usize {
        0
    }

    open spec fn spec_variant_index(&self) -> usize {
        match self {
            AddOpcode::Add => 0,
        }
    }

    open spec fn spec_ergs_price(&self) -> u32 {
        RICH_ADDRESSING_OPCODE_ERGS
    }

    proof fn lemma_variants_are_indexed() {
    }

    proof fn lemma_max_variant_idx_for_version(version: ISAVersion) {
    }

    fn all_variants() -> (r: Vec<Self>) {
        vec![AddOpcode::Add]
    }

    fn minimal_version(&self) -> (r: ISAVersion) {
        ISAVersion(0)
    }

    fn max_variant_idx_for_version(_version: ISAVersion) -> (r: usize) {
        AddOpcode::Add.variant_index()
    }

    fn variant_index(&self) -> (r: usize) {
        match self {
            AddOpcode::Add => 0,
        }
    }

    fn from_variant_index_for_version(index: usize, _version: &ISAVersion) -> (r: Option<Self>) {
        proof {
            assert(Self::spec_all_variants()[0] == AddOpcode::Add);
        }
        match index {
            0 => Some(AddOpcode::Add),
            _ => None,
        }
    }

    fn ergs_price(&self) -> (r: u32) {
        RICH_ADDRESSING_OPCODE_ERGS
    }
}

impl OpcodeProps for AddOpcode {
    open spec fn spec_name(&self) -> Seq<char> {
        "Add opcode"@
    }

    open spec fn spec_variants_data(&self, version: ISAVersion) -> Seq<OpcodeVariantData> {
        spec_full_variants_product(
            0,
            Self::spec_max_variant_idx_for_version(version),
            1,
            2,
        )
    }

    open spec fn spec_max_variant_idx(&self, version: ISAVersion) -> usize {
        Self::spec_max_variant_idx_for_version(version)
    }

    open spec fn spec_input_operands(&self, version: ISAVersion) -> Seq<Operand> {
        seq![Operand::Full(ImmMemHandlerFlags::UseRegOnly), Operand::RegOnly]
    }

    open spec fn spec_output_operands(&self, version: ISAVersion) -> Seq<Operand> {
        seq![Operand::Full(ImmMemHandlerFlags::UseRegOnly)]
    }

    open spec fn spec_requires_kernel_mode(&self) -> bool {
        false
    }

    open spec fn spec_can_be_used_in_static_context(&self) -> bool {
        true
    }

    fn name(&self) -> (r: &'static str) {
        "Add opcode"
    }

    fn variants_data(&self, version: ISAVersion) -> (r: Vec<OpcodeVariantData>) {
        full_variants_product(0, Self::max_variant_idx_for_version(version), 1, 2)
    }

    fn max_variant_idx(&self, version: ISAVersion) -> (r: usize) {
        Self::max_variant_idx_for_version(version)
    }

    fn input_operands(&self, _version: ISAVersion) -> (r: Vec<Operand>) {
        vec![Operand::Full(ImmMemHandlerFlags::UseRegOnly), Operand::RegOnly]
    }

    fn output_operands(&self, _version: ISAVersion) -> (r: Vec<Operand>) {
        vec![Operand::Full(ImmMemHandlerFlags::UseRegOnly)]
    }

    fn requires_kernel_mode(&self) -> (r: bool) {
        false
    }

    fn can_be_used_in_static_context(&self) -> (r: bool) {
        true
    }
}

} // verus!
