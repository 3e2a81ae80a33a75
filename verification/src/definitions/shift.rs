//! The `shift` family.

use vstd::prelude::*;
use crate::definitions::opcode_trait::{
    full_variants_product, spec_full_variants_product, ISAVersion, OpcodeProps,
    OpcodeVariantData, OpcodeVariantProps, Operand,
};
use crate::imm_mem_modifiers::ImmMemHandlerFlags;
use crate::RICH_ADDRESSING_OPCODE_ERGS;

verus! {

/// Shifts and rotations.
#[derive(Clone, Copy, Debug, PartialEq, Eq, PartialOrd, Ord, Hash, Structural)]
pub enum ShiftOpcode {
    Shl,
    Shr,
    Rol,
    Ror,
}

impl OpcodeVariantProps for ShiftOpcode {
    open spec fn spec_all_variants() -> Seq<Self> {
        seq![ShiftOpcode::Shl, ShiftOpcode::Shr, ShiftOpcode::Rol, ShiftOpcode::Ror]
    }

    open spec fn spec_minimal_version(&self) -> ISAVersion {
        ISAVersion(0)
    }

    open spec fn spec_max_variant_idx_for_version(version: ISAVersion) -> usize {
        3
    }

    open spec fn spec_variant_index(&self) -> usize {
        match self {
            ShiftOpcode::Shl => 0,
            ShiftOpcode::Shr => 1,
            ShiftOpcode::Rol => 2,
            ShiftOpcode::Ror => 3,
        }
    }

    open spec fn spec_ergs_price(&self) -> u32 {
        RICH_ADDRESSING_OPCODE_ERGS
    }

    proof fn lemma_variants_are_indexed() {
        assert forall|v: Self| #[trigger]
            v.spec_variant_index() < Self::spec_all_variants().len()
                && Self::spec_all_variants()[v.spec_variant_index() as int] == v by {
            match v {
                ShiftOpcode::Shl => {
                    assert(Self::spec_all_variants()[0] == v);
                },
                ShiftOpcode::Shr => {
                    assert(Self::spec_all_variants()[1] == v);
                },
                ShiftOpcode::Rol => {
                    assert(Self::spec_all_variants()[2] == v);
                },
                ShiftOpcode::Ror => {
                    assert(Self::spec_all_variants()[3] == v);
                },
            }
        }
    }

    proof fn lemma_max_variant_idx_for_version(version: ISAVersion) {
    }

    fn all_variants() -> (r: Vec<Self>) {
        vec![ShiftOpcode::Shl, ShiftOpcode::Shr, ShiftOpcode::Rol, ShiftOpcode::Ror]
    }

    fn minimal_version(&self) -> (r: ISAVersion) {
        ISAVersion(0)
    }

    fn max_variant_idx_for_version(_version: ISAVersion) -> (r: usize) {
        ShiftOpcode::Ror.variant_index()
    }

    fn variant_index(&self) -> (r: usize) {
        match self {
            ShiftOpcode::Shl => 0,
            ShiftOpcode::Shr => 1,
            ShiftOpcode::Rol => 2,
            ShiftOpcode::Ror => 3,
        }
    }

    fn from_variant_index_for_version(index: usize, _version: &ISAVersion) -> (r: Option<Self>) {
        proof {
            assert(Self::spec_all_variants()[0] == ShiftOpcode::Shl);
            assert(Self::spec_all_variants()[1] == ShiftOpcode::Shr);
            assert(Self::spec_all_variants()[2] == ShiftOpcode::Rol);
            assert(Self::spec_all_variants()[3] == ShiftOpcode::Ror);
        }
        match index {
            0 => Some(ShiftOpcode::Shl),
            1 => Some(ShiftOpcode::Shr),
            2 => Some(ShiftOpcode::Rol),
            3 => Some(ShiftOpcode::Ror),
            _ => None,
        }
    }

    fn ergs_price(&self) -> (r: u32) {
        RICH_ADDRESSING_OPCODE_ERGS
    }
}

impl OpcodeProps for ShiftOpcode {
    open spec fn spec_name(&self) -> Seq<char> {
        "Shift opcode"@
    }

    open spec fn spec_variants_data(&self, version: ISAVersion) -> Seq<OpcodeVariantData> {
        spec_full_variants_product(
            0,
            Self::spec_max_variant_idx_for_version(version),
            2,
            2,
        )
    }

    open spec fn spec_max_variant_idx(&self, version: ISAVersion) -> usize {
        Self::spec_max_variant_idx_for_version(version)
    }

    open spec fn spec_input_operands(&self, version: ISAVersion) -> Seq<Operand> {
        seq![Operand::Full(ImmMemHandlerFlags::UseRegOnly), Operand::RegOnly]
    }

    open spec fn spec_output_operands(&self, version: ISAVersion) -> Seq<Operand> {
        seq![Operand::Full(ImmMemHandlerFlags::UseRegOnly)]
    }

    open spec fn spec_requires_kernel_mode(&self) -> bool {
        false
    }

    open spec fn spec_can_be_used_in_static_context(&self) -> bool {
        true
    }

    fn name(&self) -> (r: &'static str) {
        "Shift opcode"
    }

    fn variants_data(&self, version: ISAVersion) -> (r: Vec<OpcodeVariantData>) {
        full_variants_product(0, Self::max_variant_idx_for_version(version), 2, 2)
    }

    fn max_variant_idx(&self, version: ISAVersion) -> (r: usize) {
        Self::max_variant_idx_for_version(version)
    }

    fn input_operands(&self, _version: ISAVersion) -> (r: Vec<Operand>) {
        vec![Operand::Full(ImmMemHandlerFlags::UseRegOnly), Operand::RegOnly]
    }

    fn output_operands(&self, _version: ISAVersion) -> (r: Vec<Operand>) {
        vec![Operand::Full(ImmMemHandlerFlags::UseRegOnly)]
    }

    fn requires_kernel_mode(&self) -> (r: bool) {
        false
    }

    fn can_be_used_in_static_context(&self) -> (r: bool) {
        true
    }
}

} // verus!
