//! The `ret` family.

use vstd::prelude::*;
use crate::definitions::opcode_trait::{
    full_variants_product, spec_full_variants_product, ISAVersion, OpcodeProps,
    OpcodeVariantData, OpcodeVariantProps, Operand,
};
use crate::AVERAGE_OPCODE_ERGS;

verus! {

/// Return from a frame: normally, by revert or by panic.
#[derive(Clone, Copy, Debug, PartialEq, Eq, PartialOrd, Ord, Hash, Structural)]
pub enum RetOpcode {
    /// Normal return.
    Okay,
    Revert,
    Panic,
}

pub const RET_IMPLICIT_RETURNDATA_PARAMS_REGISTER: u8 = 0;

pub const RET_RESERVED_REGISTER_0: u8 = 1;

pub const RET_RESERVED_REGISTER_1: u8 = 2;

pub const RET_RESERVED_REGISTER_2: u8 = 3;

pub const RET_TO_LABEL_BIT_IDX: usize = 0;

impl OpcodeVariantProps for RetOpcode {
    open spec fn spec_all_variants() -> Seq<Self> {
        seq![RetOpcode::Okay, RetOpcode::Revert, RetOpcode::Panic]
    }

    open spec fn spec_minimal_version(&self) -> ISAVersion {
        ISAVersion(0)
    }

    open spec fn spec_max_variant_idx_for_version(version: ISAVersion) -> usize {
        2
    }

    open spec fn spec_variant_index(&self) -> usize {
        match self {
            RetOpcode::Okay => 0,
            RetOpcode::Revert => 1,
            RetOpcode::Panic => 2,
        }
    }

    open spec fn spec_ergs_price(&self) -> u32 {
        AVERAGE_OPCODE_ERGS
    }

    proof fn lemma_variants_are_indexed() {
        assert forall|v: Self| #[trigger]
            v.spec_variant_index() < Self::spec_all_variants().len()
                && Self::spec_all_variants()[v.spec_variant_index() as int] == v by {
            match v {
                RetOpcode::Okay => {
                    assert(Self::spec_all_variants()[0] == v);
                },
                RetOpcode::Revert => {
                    assert(Self::spec_all_variants()[1] == v);
                },
                RetOpcode::Panic => {
                    assert(Self::spec_all_variants()[2] == v);
                },
            }
        }
    }

    proof fn lemma_max_variant_idx_for_version(version: ISAVersion) {
    }

    fn all_variants() -> (r: Vec<Self>) {
        vec![RetOpcode::Okay, RetOpcode::Revert, RetOpcode::Panic]
    }

    fn minimal_version(&self) -> (r: ISAVersion) {
        ISAVersion(0)
    }

    fn max_variant_idx_for_version(_version: ISAVersion) -> (r: usize) {
        RetOpcode::Panic.variant_index()
    }

    fn variant_index(&self) -> (r: usize) {
        match self {
            RetOpcode::Okay => 0,
            RetOpcode::Revert => 1,
            RetOpcode::Panic => 2,
        }
    }

    fn from_variant_index_for_version(index: usize, _version: &ISAVersion) -> (r: Option<Self>) {
        proof {
            assert(Self::spec_all_variants()[0] == RetOpcode::Okay);
            assert(Self::spec_all_variants()[1] == RetOpcode::Revert);
            assert(Self::spec_all_variants()[2] == RetOpcode::Panic);
        }
        match index {
            0 => Some(RetOpcode::Okay),
            1 => Some(RetOpcode::Revert),
            2 => Some(RetOpcode::Panic),
            _ => None,
        }
    }

    fn ergs_price(&self) -> (r: u32) {
        AVERAGE_OPCODE_ERGS
    }
}

impl OpcodeProps for RetOpcode {
    open spec fn spec_name(&self) -> Seq<char> {
        "Ret opcode"@
    }

    open spec fn spec_variants_data(&self, version: ISAVersion) -> Seq<OpcodeVariantData> {
        spec_full_variants_product(
            0,
            Self::spec_max_variant_idx_for_version(version),
            1,
            1,
        )
    }

    open spec fn spec_max_variant_idx(&self, version: ISAVersion) -> usize {
        Self::spec_max_variant_idx_for_version(version)
    }

    open spec fn spec_input_operands(&self, version: ISAVersion) -> Seq<Operand> {
        match self {
            RetOpcode::Okay | RetOpcode::Revert => seq![Operand::RegOnly],
            RetOpcode::Panic => Seq::empty(),
        }
    }

    open spec fn spec_output_operands(&self, version: ISAVersion) -> Seq<Operand> {
        Seq::empty()
    }

    open spec fn spec_requires_kernel_mode(&self) -> bool {
        false
    }

    open spec fn spec_can_be_used_in_static_context(&self) -> bool {
        true
    }

    fn name(&self) -> (r: &'static str) {
        "Ret opcode"
    }

    fn variants_data(&self, version: ISAVersion) -> (r: Vec<OpcodeVariantData>) {
        full_variants_product(0, Self::max_variant_idx_for_version(version), 1, 1)
    }

    fn max_variant_idx(&self, version: ISAVersion) -> (r: usize) {
        Self::max_variant_idx_for_version(version)
    }

    fn input_operands(&self, _version: ISAVersion) -> (r: Vec<Operand>) {
        match self {
            RetOpcode::Okay | RetOpcode::Revert => vec![Operand::RegOnly],
            RetOpcode::Panic => Vec::new(),
        }
    }

    fn output_operands(&self, _version: ISAVersion) -> (r: Vec<Operand>) {
        Vec::new()
    }

    fn requires_kernel_mode(&self) -> (r: bool) {
        false
    }

    fn can_be_used_in_static_context(&self) -> (r: bool) {
        true
    }
}

} // verus!
