//! The `ptr` family.

use vstd::prelude::*;
use crate::definitions::opcode_trait::{
    full_variants_product, spec_full_variants_product, ISAVersion, OpcodeProps,
    OpcodeVariantData, OpcodeVariantProps, Operand,
};
use crate::imm_mem_modifiers::ImmMemHandlerFlags;
use crate::RICH_ADDRESSING_OPCODE_ERGS;

verus! {

/// Operations on fat pointers.
#[derive(Clone, Copy, Debug, PartialEq, Eq, PartialOrd, Ord, Hash, Structural)]
pub enum PtrOpcode {
    Add,
    Sub,
    Pack,
    Shrink,
}

impl OpcodeVariantProps for PtrOpcode {
    open spec fn spec_all_variants() -> Seq<Self> {
        seq![PtrOpcode::Add, PtrOpcode::Sub, PtrOpcode::Pack, PtrOpcode::Shrink]
    }

    open spec fn spec_minimal_version(&self) -> ISAVersion {
        ISAVersion(0)
    }

    open spec fn spec_max_variant_idx_for_version(version: ISAVersion) -> usize {
        3
    }

    open spec fn spec_variant_index(&self) -> usize {
        match self {
            PtrOpcode::Add => 0,
            PtrOpcode::Sub => 1,
            PtrOpcode::Pack => 2,
            PtrOpcode::Shrink => 3,
        }
    }

    open spec fn spec_ergs_price(&self) -> u32 {
        RICH_ADDRESSING_OPCODE_ERGS
    }

    proof fn lemma_variants_are_indexed() {
        assert forall|v: Self| #[trigger]
            v.spec_variant_index() < Self::spec_all_variants().len()
                && Self::spec_all_variants()[v.spec_variant_index() as int] == v by {
            match v {
                PtrOpcode::Add => {
                    assert(Self::spec_all_variants()[0] == v);
                },
                PtrOpcode::Sub => {
                    assert(Self::spec_all_variants()[1] == v);
                },
                PtrOpcode::Pack => {
                    assert(Self::spec_all_variants()[2] == v);
                },
                PtrOpcode::Shrink => {
                    assert(Self::spec_all_variants()[3] == v);
                },
            }
        }
    }

    proof fn lemma_max_variant_idx_for_version(version: ISAVersion) {
    }

    fn all_variants() -> (r: Vec<Self>) {
        vec![PtrOpcode::Add, PtrOpcode::Sub, PtrOpcode::Pack, PtrOpcode::Shrink]
    }

    fn minimal_version(&self) -> (r: ISAVersion) {
        ISAVersion(0)
    }

    fn max_variant_idx_for_version(_version: ISAVersion) -> (r: usize) {
        PtrOpcode::Shrink.variant_index()
    }

    fn variant_index(&self) -> (r: usize) {
        match self {
            PtrOpcode::Add => 0,
            PtrOpcode::Sub => 1,
            PtrOpcode::Pack => 2,
            PtrOpcode::Shrink => 3,
        }
    }

    fn from_variant_index_for_version(index: usize, _version: &ISAVersion) -> (r: Option<Self>) {
        proof {
            assert(Self::spec_all_variants()[0] == PtrOpcode::Add);
            assert(Self::spec_all_variants()[1] == PtrOpcode::Sub);
            assert(Self::spec_all_variants()[2] == PtrOpcode::Pack);
            assert(Self::spec_all_variants()[3] == PtrOpcode::Shrink);
        }
        match index {
            0 => Some(PtrOpcode::Add),
            1 => Some(PtrOpcode::Sub),
            2 => Some(PtrOpcode::Pack),
            3 => Some(PtrOpcode::Shrink),
            _ => None,
        }
    }

    fn ergs_price(&self) -> (r: u32) {
        RICH_ADDRESSING_OPCODE_ERGS
    }
}

impl OpcodeProps for PtrOpcode {
    open spec fn spec_name(&self) -> Seq<char> {
        "Ptr opcode"@
    }

    open spec fn spec_variants_data(&self, version: ISAVersion) -> Seq<OpcodeVariantData> {
        spec_full_variants_product(
            0,
            Self::spec_max_variant_idx_for_version(version),
            1,
            2,
        )
    }

    open spec fn spec_max_variant_idx(&self, version: ISAVersion) -> usize {
        2
    }

    open spec fn spec_input_operands(&self, version: ISAVersion) -> Seq<Operand> {
        seq![Operand::Full(ImmMemHandlerFlags::UseRegOnly), Operand::RegOnly]
    }

    open spec fn spec_output_operands(&self, version: ISAVersion) -> Seq<Operand> {
        seq![Operand::Full(ImmMemHandlerFlags::UseRegOnly)]
    }

    open spec fn spec_requires_kernel_mode(&self) -> bool {
        false
    }

    open spec fn spec_can_be_used_in_static_context(&self) -> bool {
        true
    }

    fn name(&self) -> (r: &'static str) {
        "Ptr opcode"
    }

    fn variants_data(&self, version: ISAVersion) -> (r: Vec<OpcodeVariantData>) {
        full_variants_product(0, Self::max_variant_idx_for_version(version), 1, 2)
    }

    fn max_variant_idx(&self, _version: ISAVersion) -> (r: usize) {
        PtrOpcode::Pack.variant_index()
    }

    fn input_operands(&self, _version: ISAVersion) -> (r: Vec<Operand>) {
        vec![Operand::Full(ImmMemHandlerFlags::UseRegOnly), Operand::RegOnly]
    }

    fn output_operands(&self, _version: ISAVersion) -> (r: Vec<Operand>) {
        vec![Operand::Full(ImmMemHandlerFlags::UseRegOnly)]
    }

    fn requires_kernel_mode(&self) -> (r: bool) {
        false
    }

    fn can_be_used_in_static_context(&self) -> (r: bool) {
        true
    }
}

} // verus!
