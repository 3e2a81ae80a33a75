//! The closed set of opcodes: one variant for each family.

use vstd::prelude::*;
use crate::definitions::add::AddOpcode;
use crate::definitions::binop::BinopOpcode;
use crate::definitions::context::ContextOpcode;
use crate::definitions::div::DivOpcode;
use crate::definitions::far_call::FarCallOpcode;
use crate::definitions::invalid_opcode::InvalidOpcode;
use crate::definitions::jump::JumpOpcode;
use crate::definitions::log::LogOpcode;
use crate::definitions::mul::MulOpcode;
use crate::definitions::near_call::NearCallOpcode;
use crate::definitions::noop::NopOpcode;
use crate::definitions::ptr::PtrOpcode;
use crate::definitions::ret::RetOpcode;
use crate::definitions::shift::ShiftOpcode;
use crate::definitions::sub::SubOpcode;
use crate::definitions::uma::UMAOpcode;
use crate::definitions::opcode_trait::{
    first_operand_is_full, variant_from_index, ISAVersion, OpcodeProps, OpcodeVariantData,
    OpcodeVariantProps, Operand,
};

verus! {

/// An opcode: a family and, within the family, a sub-variant.
#[derive(Clone, Copy, Debug, PartialEq, Eq, PartialOrd, Ord, Hash, Structural)]
pub enum Opcode {
    Invalid(InvalidOpcode),
    Nop(NopOpcode),
    Add(AddOpcode),
    Sub(SubOpcode),
    Mul(MulOpcode),
    Div(DivOpcode),
    Jump(JumpOpcode),
    Context(ContextOpcode),
    Shift(ShiftOpcode),
    Binop(BinopOpcode),
    Ptr(PtrOpcode),
    NearCall(NearCallOpcode),
    Log(LogOpcode),
    FarCall(FarCallOpcode),
    Ret(RetOpcode),
    UMA(UMAOpcode),
}

impl Opcode {
    /// Price of the opcode, in ergs.
    pub open spec fn spec_ergs_price(&self) -> u32 {
        match self {
            Opcode::Invalid(sub) => sub.spec_ergs_price(),
            Opcode::Nop(sub) => sub.spec_ergs_price(),
            Opcode::Add(sub) => sub.spec_ergs_price(),
            Opcode::Sub(sub) => sub.spec_ergs_price(),
            Opcode::Mul(sub) => sub.spec_ergs_price(),
            Opcode::Div(sub) => sub.spec_ergs_price(),
            Opcode::Jump(sub) => sub.spec_ergs_price(),
            Opcode::Context(sub) => sub.spec_ergs_price(),
            Opcode::Shift(sub) => sub.spec_ergs_price(),
            Opcode::Binop(sub) => sub.spec_ergs_price(),
            Opcode::Ptr(sub) => sub.spec_ergs_price(),
            Opcode::NearCall(sub) => sub.spec_ergs_price(),
            Opcode::Log(sub) => sub.spec_ergs_price(),
            Opcode::FarCall(sub) => sub.spec_ergs_price(),
            Opcode::Ret(sub) => sub.spec_ergs_price(),
            Opcode::UMA(sub) => sub.spec_ergs_price(),
        }
    }

    /// Index of the opcode's family.
    pub open spec fn spec_variant_idx(&self) -> usize {
        match self {
            Opcode::Invalid(_) => 0,
            Opcode::Nop(_) => 1,
            Opcode::Add(_) => 2,
            Opcode::Sub(_) => 3,
            Opcode::Mul(_) => 4,
            Opcode::Div(_) => 5,
            Opcode::Jump(_) => 6,
            Opcode::Context(_) => 7,
            Opcode::Shift(_) => 8,
            Opcode::Binop(_) => 9,
            Opcode::Ptr(_) => 10,
            Opcode::NearCall(_) => 11,
            Opcode::Log(_) => 12,
            Opcode::FarCall(_) => 13,
            Opcode::Ret(_) => 14,
            Opcode::UMA(_) => 15,
        }
    }

    /// Index of the opcode's sub-variant within its family.
    pub open spec fn spec_materialize_subvariant_idx(&self) -> usize {
        match self {
            Opcode::Invalid(sub) => sub.spec_variant_index(),
            Opcode::Nop(sub) => sub.spec_variant_index(),
            Opcode::Add(sub) => sub.spec_variant_index(),
            Opcode::Sub(sub) => sub.spec_variant_index(),
            Opcode::Mul(sub) => sub.spec_variant_index(),
            Opcode::Div(sub) => sub.spec_variant_index(),
            Opcode::Jump(sub) => sub.spec_variant_index(),
            Opcode::Context(sub) => sub.spec_variant_index(),
            Opcode::Shift(sub) => sub.spec_variant_index(),
            Opcode::Binop(sub) => sub.spec_variant_index(),
            Opcode::Ptr(sub) => sub.spec_variant_index(),
            Opcode::NearCall(sub) => sub.spec_variant_index(),
            Opcode::Log(sub) => sub.spec_variant_index(),
            Opcode::FarCall(sub) => sub.spec_variant_index(),
            Opcode::Ret(sub) => sub.spec_variant_index(),
            Opcode::UMA(sub) => sub.spec_variant_index(),
        }
    }

    pub open spec fn spec_requires_kernel_mode(&self) -> bool {
        match self {
            Opcode::Invalid(sub) => sub.spec_requires_kernel_mode(),
            Opcode::Nop(sub) => sub.spec_requires_kernel_mode(),
            Opcode::Add(sub) => sub.spec_requires_kernel_mode(),
            Opcode::Sub(sub) => sub.spec_requires_kernel_mode(),
            Opcode::Mul(sub) => sub.spec_requires_kernel_mode(),
            Opcode::Div(sub) => sub.spec_requires_kernel_mode(),
            Opcode::Jump(sub) => sub.spec_requires_kernel_mode(),
            Opcode::Context(sub) => sub.spec_requires_kernel_mode(),
            Opcode::Shift(sub) => sub.spec_requires_kernel_mode(),
            Opcode::Binop(sub) => sub.spec_requires_kernel_mode(),
            Opcode::Ptr(sub) => sub.spec_requires_kernel_mode(),
            Opcode::NearCall(sub) => sub.spec_requires_kernel_mode(),
            Opcode::Log(sub) => sub.spec_requires_kernel_mode(),
            Opcode::FarCall(sub) => sub.spec_requires_kernel_mode(),
            Opcode::Ret(sub) => sub.spec_requires_kernel_mode(),
            Opcode::UMA(sub) => sub.spec_requires_kernel_mode(),
        }
    }

    pub open spec fn spec_can_be_used_in_static_context(&self) -> bool {
        match self {
            Opcode::Invalid(sub) => sub.spec_can_be_used_in_static_context(),
            Opcode::Nop(sub) => sub.spec_can_be_used_in_static_context(),
            Opcode::Add(sub) => sub.spec_can_be_used_in_static_context(),
            Opcode::Sub(sub) => sub.spec_can_be_used_in_static_context(),
            Opcode::Mul(sub) => sub.spec_can_be_used_in_static_context(),
            Opcode::Div(sub) => sub.spec_can_be_used_in_static_context(),
            Opcode::Jump(sub) => sub.spec_can_be_used_in_static_context(),
            Opcode::Context(sub) => sub.spec_can_be_used_in_static_context(),
            Opcode::Shift(sub) => sub.spec_can_be_used_in_static_context(),
            Opcode::Binop(sub) => sub.spec_can_be_used_in_static_context(),
            Opcode::Ptr(sub) => sub.spec_can_be_used_in_static_context(),
            Opcode::NearCall(sub) => sub.spec_can_be_used_in_static_context(),
            Opcode::Log(sub) => sub.spec_can_be_used_in_static_context(),
            Opcode::FarCall(sub) => sub.spec_can_be_used_in_static_context(),
            Opcode::Ret(sub) => sub.spec_can_be_used_in_static_context(),
            Opcode::UMA(sub) => sub.spec_can_be_used_in_static_context(),
        }
    }

    pub open spec fn spec_input_operands(&self, version: ISAVersion) -> Seq<Operand> {
        match self {
            Opcode::Invalid(sub) => sub.spec_input_operands(version),
            Opcode::Nop(sub) => sub.spec_input_operands(version),
            Opcode::Add(sub) => sub.spec_input_operands(version),
            Opcode::Sub(sub) => sub.spec_input_operands(version),
            Opcode::Mul(sub) => sub.spec_input_operands(version),
            Opcode::Div(sub) => sub.spec_input_operands(version),
            Opcode::Jump(sub) => sub.spec_input_operands(version),
            Opcode::Context(sub) => sub.spec_input_operands(version),
            Opcode::Shift(sub) => sub.spec_input_operands(version),
            Opcode::Binop(sub) => sub.spec_input_operands(version),
            Opcode::Ptr(sub) => sub.spec_input_operands(version),
            Opcode::NearCall(sub) => sub.spec_input_operands(version),
            Opcode::Log(sub) => sub.spec_input_operands(version),
            Opcode::FarCall(sub) => sub.spec_input_operands(version),
            Opcode::Ret(sub) => sub.spec_input_operands(version),
            Opcode::UMA(sub) => sub.spec_input_operands(version),
        }
    }

    pub open spec fn spec_output_operands(&self, version: ISAVersion) -> Seq<Operand> {
        match self {
            Opcode::Invalid(sub) => sub.spec_output_operands(version),
            Opcode::Nop(sub) => sub.spec_output_operands(version),
            Opcode::Add(sub) => sub.spec_output_operands(version),
            Opcode::Sub(sub) => sub.spec_output_operands(version),
            Opcode::Mul(sub) => sub.spec_output_operands(version),
            Opcode::Div(sub) => sub.spec_output_operands(version),
            Opcode::Jump(sub) => sub.spec_output_operands(version),
            Opcode::Context(sub) => sub.spec_output_operands(version),
            Opcode::Shift(sub) => sub.spec_output_operands(version),
            Opcode::Binop(sub) => sub.spec_output_operands(version),
            Opcode::Ptr(sub) => sub.spec_output_operands(version),
            Opcode::NearCall(sub) => sub.spec_output_operands(version),
            Opcode::Log(sub) => sub.spec_output_operands(version),
            Opcode::FarCall(sub) => sub.spec_output_operands(version),
            Opcode::Ret(sub) => sub.spec_output_operands(version),
            Opcode::UMA(sub) => sub.spec_output_operands(version),
        }
    }

    /// Name of the opcode's family.
    pub open spec fn spec_name(&self) -> Seq<char> {
        match self {
            Opcode::Invalid(sub) => sub.spec_name(),
            Opcode::Nop(sub) => sub.spec_name(),
            Opcode::Add(sub) => sub.spec_name(),
            Opcode::Sub(sub) => sub.spec_name(),
            Opcode::Mul(sub) => sub.spec_name(),
            Opcode::Div(sub) => sub.spec_name(),
            Opcode::Jump(sub) => sub.spec_name(),
            Opcode::Context(sub) => sub.spec_name(),
            Opcode::Shift(sub) => sub.spec_name(),
            Opcode::Binop(sub) => sub.spec_name(),
            Opcode::Ptr(sub) => sub.spec_name(),
            Opcode::NearCall(sub) => sub.spec_name(),
            Opcode::Log(sub) => sub.spec_name(),
            Opcode::FarCall(sub) => sub.spec_name(),
            Opcode::Ret(sub) => sub.spec_name(),
            Opcode::UMA(sub) => sub.spec_name(),
        }
    }

    /// What the opcode's family declares of its sub-variants at `version`.
    pub open spec fn spec_variants_data(&self, version: ISAVersion) -> Seq<OpcodeVariantData> {
        match self {
            Opcode::Invalid(sub) => sub.spec_variants_data(version),
            Opcode::Nop(sub) => sub.spec_variants_data(version),
            Opcode::Add(sub) => sub.spec_variants_data(version),
            Opcode::Sub(sub) => sub.spec_variants_data(version),
            Opcode::Mul(sub) => sub.spec_variants_data(version),
            Opcode::Div(sub) => sub.spec_variants_data(version),
            Opcode::Jump(sub) => sub.spec_variants_data(version),
            Opcode::Context(sub) => sub.spec_variants_data(version),
            Opcode::Shift(sub) => sub.spec_variants_data(version),
            Opcode::Binop(sub) => sub.spec_variants_data(version),
            Opcode::Ptr(sub) => sub.spec_variants_data(version),
            Opcode::NearCall(sub) => sub.spec_variants_data(version),
            Opcode::Log(sub) => sub.spec_variants_data(version),
            Opcode::FarCall(sub) => sub.spec_variants_data(version),
            Opcode::Ret(sub) => sub.spec_variants_data(version),
            Opcode::UMA(sub) => sub.spec_variants_data(version),
        }
    }

    pub open spec fn spec_max_variant_idx(&self, version: ISAVersion) -> usize {
        match self {
            Opcode::Invalid(sub) => sub.spec_max_variant_idx(version),
            Opcode::Nop(sub) => sub.spec_max_variant_idx(version),
            Opcode::Add(sub) => sub.spec_max_variant_idx(version),
            Opcode::Sub(sub) => sub.spec_max_variant_idx(version),
            Opcode::Mul(sub) => sub.spec_max_variant_idx(version),
            Opcode::Div(sub) => sub.spec_max_variant_idx(version),
            Opcode::Jump(sub) => sub.spec_max_variant_idx(version),
            Opcode::Context(sub) => sub.spec_max_variant_idx(version),
            Opcode::Shift(sub) => sub.spec_max_variant_idx(version),
            Opcode::Binop(sub) => sub.spec_max_variant_idx(version),
            Opcode::Ptr(sub) => sub.spec_max_variant_idx(version),
            Opcode::NearCall(sub) => sub.spec_max_variant_idx(version),
            Opcode::Log(sub) => sub.spec_max_variant_idx(version),
            Opcode::FarCall(sub) => sub.spec_max_variant_idx(version),
            Opcode::Ret(sub) => sub.spec_max_variant_idx(version),
            Opcode::UMA(sub) => sub.spec_max_variant_idx(version),
        }
    }

    /// The first version that has the opcode.
    pub open spec fn spec_minimal_version(&self) -> ISAVersion {
        match self {
            Opcode::Invalid(sub) => sub.spec_minimal_version(),
            Opcode::Nop(sub) => sub.spec_minimal_version(),
            Opcode::Add(sub) => sub.spec_minimal_version(),
            Opcode::Sub(sub) => sub.spec_minimal_version(),
            Opcode::Mul(sub) => sub.spec_minimal_version(),
            Opcode::Div(sub) => sub.spec_minimal_version(),
            Opcode::Jump(sub) => sub.spec_minimal_version(),
            Opcode::Context(sub) => sub.spec_minimal_version(),
            Opcode::Shift(sub) => sub.spec_minimal_version(),
            Opcode::Binop(sub) => sub.spec_minimal_version(),
            Opcode::Ptr(sub) => sub.spec_minimal_version(),
            Opcode::NearCall(sub) => sub.spec_minimal_version(),
            Opcode::Log(sub) => sub.spec_minimal_version(),
            Opcode::FarCall(sub) => sub.spec_minimal_version(),
            Opcode::Ret(sub) => sub.spec_minimal_version(),
            Opcode::UMA(sub) => sub.spec_minimal_version(),
        }
    }

    /// The opcode of the same family as `self` whose sub-variant has index `idx`,
    /// if `version` has it.
    pub open spec fn spec_materialize_subvariant_from_prototype(
        &self,
        idx: usize,
        version: ISAVersion,
    ) -> Option<Self> {
        match self {
            Opcode::Invalid(_) => match variant_from_index::<InvalidOpcode>(idx, version) {
                Some(sub) => Some(Opcode::Invalid(sub)),
                None => None,
            },
            Opcode::Nop(_) => match variant_from_index::<NopOpcode>(idx, version) {
                Some(sub) => Some(Opcode::Nop(sub)),
                None => None,
            },
            Opcode::Add(_) => match variant_from_index::<AddOpcode>(idx, version) {
                Some(sub) => Some(Opcode::Add(sub)),
                None => None,
            },
            Opcode::Sub(_) => match variant_from_index::<SubOpcode>(idx, version) {
                Some(sub) => Some(Opcode::Sub(sub)),
                None => None,
            },
            Opcode::Mul(_) => match variant_from_index::<MulOpcode>(idx, version) {
                Some(sub) => Some(Opcode::Mul(sub)),
                None => None,
            },
            Opcode::Div(_) => match variant_from_index::<DivOpcode>(idx, version) {
                Some(sub) => Some(Opcode::Div(sub)),
                None => None,
            },
            Opcode::Jump(_) => match variant_from_index::<JumpOpcode>(idx, version) {
                Some(sub) => Some(Opcode::Jump(sub)),
                None => None,
            },
            Opcode::Context(_) => match variant_from_index::<ContextOpcode>(idx, version) {
                Some(sub) => Some(Opcode::Context(sub)),
                None => None,
            },
            Opcode::Shift(_) => match variant_from_index::<ShiftOpcode>(idx, version) {
                Some(sub) => Some(Opcode::Shift(sub)),
                None => None,
            },
            Opcode::Binop(_) => match variant_from_index::<BinopOpcode>(idx, version) {
                Some(sub) => Some(Opcode::Binop(sub)),
                None => None,
            },
            Opcode::Ptr(_) => match variant_from_index::<PtrOpcode>(idx, version) {
                Some(sub) => Some(Opcode::Ptr(sub)),
                None => None,
            },
            Opcode::NearCall(_) => match variant_from_index::<NearCallOpcode>(idx, version) {
                Some(sub) => Some(Opcode::NearCall(sub)),
                None => None,
            },
            Opcode::Log(_) => match variant_from_index::<LogOpcode>(idx, version) {
                Some(sub) => Some(Opcode::Log(sub)),
                None => None,
            },
            Opcode::FarCall(_) => match variant_from_index::<FarCallOpcode>(idx, version) {
                Some(sub) => Some(Opcode::FarCall(sub)),
                None => None,
            },
            Opcode::Ret(_) => match variant_from_index::<RetOpcode>(idx, version) {
                Some(sub) => Some(Opcode::Ret(sub)),
                None => None,
            },
            Opcode::UMA(_) => match variant_from_index::<UMAOpcode>(idx, version) {
                Some(sub) => Some(Opcode::UMA(sub)),
                None => None,
            },
        }
    }

    pub fn ergs_price(&self) -> (r: u32)
        ensures
            r == self.spec_ergs_price(),
    {
        match self {
            Opcode::Invalid(sub) => sub.ergs_price(),
            Opcode::Nop(sub) => sub.ergs_price(),
            Opcode::Add(sub) => sub.ergs_price(),
            Opcode::Sub(sub) => sub.ergs_price(),
            Opcode::Mul(sub) => sub.ergs_price(),
            Opcode::Div(sub) => sub.ergs_price(),
            Opcode::Jump(sub) => sub.ergs_price(),
            Opcode::Context(sub) => sub.ergs_price(),
            Opcode::Shift(sub) => sub.ergs_price(),
            Opcode::Binop(sub) => sub.ergs_price(),
            Opcode::Ptr(sub) => sub.ergs_price(),
            Opcode::NearCall(sub) => sub.ergs_price(),
            Opcode::Log(sub) => sub.ergs_price(),
            Opcode::FarCall(sub) => sub.ergs_price(),
            Opcode::Ret(sub) => sub.ergs_price(),
            Opcode::UMA(sub) => sub.ergs_price(),
        }
    }

    /// The opcode of the same family as `self` whose sub-variant has index `idx`.
    /// The family must have that sub-variant at `version`.
    pub fn materialize_subvariant_from_prototype(&self, idx: usize, version: &ISAVersion) -> (r:
        Self)
        requires
            self.spec_materialize_subvariant_from_prototype(idx, *version) is Some,
        ensures
            Some(r) == self.spec_materialize_subvariant_from_prototype(idx, *version),
    {
        match self.try_materialize_subvariant_from_prototype(idx, version) {
            Some(opcode) => opcode,
            None => *self,
        }
    }

    /// The opcode of the same family as `self` whose sub-variant has index `idx`,
    /// or `None` where the family has no such sub-variant at `version`.
    pub fn try_materialize_subvariant_from_prototype(
        &self,
        idx: usize,
        version: &ISAVersion,
    ) -> (r: Option<Self>)
        ensures
            r == self.spec_materialize_subvariant_from_prototype(idx, *version),
    {
        match self {
            Opcode::Invalid(_) => match InvalidOpcode::from_variant_index_for_version(
                idx,
                version,
            ) {
                Some(sub) => Some(Opcode::Invalid(sub)),
                None => None,
            },
            Opcode::Nop(_) => match NopOpcode::from_variant_index_for_version(idx, version) {
                Some(sub) => Some(Opcode::Nop(sub)),
                None => None,
            },
            Opcode::Add(_) => match AddOpcode::from_variant_index_for_version(idx, version) {
                Some(sub) => Some(Opcode::Add(sub)),
                None => None,
            },
            Opcode::Sub(_) => match SubOpcode::from_variant_index_for_version(idx, version) {
                Some(sub) => Some(Opcode::Sub(sub)),
                None => None,
            },
            Opcode::Mul(_) => match MulOpcode::from_variant_index_for_version(idx, version) {
                Some(sub) => Some(Opcode::Mul(sub)),
                None => None,
            },
            Opcode::Div(_) => match DivOpcode::from_variant_index_for_version(idx, version) {
                Some(sub) => Some(Opcode::Div(sub)),
                None => None,
            },
            Opcode::Jump(_) => match JumpOpcode::from_variant_index_for_version(idx, version) {
                Some(sub) => Some(Opcode::Jump(sub)),
                None => None,
            },
            Opcode::Context(_) => match ContextOpcode::from_variant_index_for_version(
                idx,
                version,
            ) {
                Some(sub) => Some(Opcode::Context(sub)),
                None => None,
            },
            Opcode::Shift(_) => match ShiftOpcode::from_variant_index_for_version(idx, version) {
                Some(sub) => Some(Opcode::Shift(sub)),
                None => None,
            },
            Opcode::Binop(_) => match BinopOpcode::from_variant_index_for_version(idx, version) {
                Some(sub) => Some(Opcode::Binop(sub)),
                None => None,
            },
            Opcode::Ptr(_) => match PtrOpcode::from_variant_index_for_version(idx, version) {
                Some(sub) => Some(Opcode::Ptr(sub)),
                None => None,
            },
            Opcode::NearCall(_) => match NearCallOpcode::from_variant_index_for_version(
                idx,
                version,
            ) {
                Some(sub) => Some(Opcode::NearCall(sub)),
                None => None,
            },
            Opcode::Log(_) => match LogOpcode::from_variant_index_for_version(idx, version) {
                Some(sub) => Some(Opcode::Log(sub)),
                None => None,
            },
            Opcode::FarCall(_) => match FarCallOpcode::from_variant_index_for_version(
                idx,
                version,
            ) {
                Some(sub) => Some(Opcode::FarCall(sub)),
                None => None,
            },
            Opcode::Ret(_) => match RetOpcode::from_variant_index_for_version(idx, version) {
                Some(sub) => Some(Opcode::Ret(sub)),
                None => None,
            },
            Opcode::UMA(_) => match UMAOpcode::from_variant_index_for_version(idx, version) {
                Some(sub) => Some(Opcode::UMA(sub)),
                None => None,
            },
        }
    }

    pub fn variant_idx(&self) -> (r: usize)
        ensures
            r == self.spec_variant_idx(),
            r < 16,
    {
        match self {
            Opcode::Invalid(_) => 0,
            Opcode::Nop(_) => 1,
            Opcode::Add(_) => 2,
            Opcode::Sub(_) => 3,
            Opcode::Mul(_) => 4,
            Opcode::Div(_) => 5,
            Opcode::Jump(_) => 6,
            Opcode::Context(_) => 7,
            Opcode::Shift(_) => 8,
            Opcode::Binop(_) => 9,
            Opcode::Ptr(_) => 10,
            Opcode::NearCall(_) => 11,
            Opcode::Log(_) => 12,
            Opcode::FarCall(_) => 13,
            Opcode::Ret(_) => 14,
            Opcode::UMA(_) => 15,
        }
    }

    pub fn materialize_subvariant_idx(&self) -> (r: usize)
        ensures
            r == self.spec_materialize_subvariant_idx(),
            r < 10,
    {
        match self {
            Opcode::Invalid(sub) => sub.variant_index(),
            Opcode::Nop(sub) => sub.variant_index(),
            Opcode::Add(sub) => sub.variant_index(),
            Opcode::Sub(sub) => sub.variant_index(),
            Opcode::Mul(sub) => sub.variant_index(),
            Opcode::Div(sub) => sub.variant_index(),
            Opcode::Jump(sub) => sub.variant_index(),
            Opcode::Context(sub) => sub.variant_index(),
            Opcode::Shift(sub) => sub.variant_index(),
            Opcode::Binop(sub) => sub.variant_index(),
            Opcode::Ptr(sub) => sub.variant_index(),
            Opcode::NearCall(sub) => sub.variant_index(),
            Opcode::Log(sub) => sub.variant_index(),
            Opcode::FarCall(sub) => sub.variant_index(),
            Opcode::Ret(sub) => sub.variant_index(),
            Opcode::UMA(sub) => sub.variant_index(),
        }
    }

    pub fn requires_kernel_mode(&self) -> (r: bool)
        ensures
            r == self.spec_requires_kernel_mode(),
    {
        match self {
            Opcode::Invalid(sub) => sub.requires_kernel_mode(),
            Opcode::Nop(sub) => sub.requires_kernel_mode(),
            Opcode::Add(sub) => sub.requires_kernel_mode(),
            Opcode::Sub(sub) => sub.requires_kernel_mode(),
            Opcode::Mul(sub) => sub.requires_kernel_mode(),
            Opcode::Div(sub) => sub.requires_kernel_mode(),
            Opcode::Jump(sub) => sub.requires_kernel_mode(),
            Opcode::Context(sub) => sub.requires_kernel_mode(),
            Opcode::Shift(sub) => sub.requires_kernel_mode(),
            Opcode::Binop(sub) => sub.requires_kernel_mode(),
            Opcode::Ptr(sub) => sub.requires_kernel_mode(),
            Opcode::NearCall(sub) => sub.requires_kernel_mode(),
            Opcode::Log(sub) => sub.requires_kernel_mode(),
            Opcode::FarCall(sub) => sub.requires_kernel_mode(),
            Opcode::Ret(sub) => sub.requires_kernel_mode(),
            Opcode::UMA(sub) => sub.requires_kernel_mode(),
        }
    }

    pub fn can_be_used_in_static_context(&self) -> (r: bool)
        ensures
            r == self.spec_can_be_used_in_static_context(),
    {
        match self {
            Opcode::Invalid(sub) => sub.can_be_used_in_static_context(),
            Opcode::Nop(sub) => sub.can_be_used_in_static_context(),
            Opcode::Add(sub) => sub.can_be_used_in_static_context(),
            Opcode::Sub(sub) => sub.can_be_used_in_static_context(),
            Opcode::Mul(sub) => sub.can_be_used_in_static_context(),
            Opcode::Div(sub) => sub.can_be_used_in_static_context(),
            Opcode::Jump(sub) => sub.can_be_used_in_static_context(),
            Opcode::Context(sub) => sub.can_be_used_in_static_context(),
            Opcode::Shift(sub) => sub.can_be_used_in_static_context(),
            Opcode::Binop(sub) => sub.can_be_used_in_static_context(),
            Opcode::Ptr(sub) => sub.can_be_used_in_static_context(),
            Opcode::NearCall(sub) => sub.can_be_used_in_static_context(),
            Opcode::Log(sub) => sub.can_be_used_in_static_context(),
            Opcode::FarCall(sub) => sub.can_be_used_in_static_context(),
            Opcode::Ret(sub) => sub.can_be_used_in_static_context(),
            Opcode::UMA(sub) => sub.can_be_used_in_static_context(),
        }
    }

    /// Whether the first input of the opcode can come from memory.
    pub fn can_have_src0_from_mem(&self, version: ISAVersion) -> (r: bool)
        ensures
            r == first_operand_is_full(self.spec_input_operands(version)),
    {
        match self {
            Opcode::Invalid(sub) => sub.can_have_src0_from_mem(version),
            Opcode::Nop(sub) => sub.can_have_src0_from_mem(version),
            Opcode::Add(sub) => sub.can_have_src0_from_mem(version),
            Opcode::Sub(sub) => sub.can_have_src0_from_mem(version),
            Opcode::Mul(sub) => sub.can_have_src0_from_mem(version),
            Opcode::Div(sub) => sub.can_have_src0_from_mem(version),
            Opcode::Jump(sub) => sub.can_have_src0_from_mem(version),
            Opcode::Context(sub) => sub.can_have_src0_from_mem(version),
            Opcode::Shift(sub) => sub.can_have_src0_from_mem(version),
            Opcode::Binop(sub) => sub.can_have_src0_from_mem(version),
            Opcode::Ptr(sub) => sub.can_have_src0_from_mem(version),
            Opcode::NearCall(sub) => sub.can_have_src0_from_mem(version),
            Opcode::Log(sub) => sub.can_have_src0_from_mem(version),
            Opcode::FarCall(sub) => sub.can_have_src0_from_mem(version),
            Opcode::Ret(sub) => sub.can_have_src0_from_mem(version),
            Opcode::UMA(sub) => sub.can_have_src0_from_mem(version),
        }
    }

    /// Whether the first output of the opcode can go to memory.
    pub fn can_write_dst0_into_memory(&self, version: ISAVersion) -> (r: bool)
        ensures
            r == first_operand_is_full(self.spec_output_operands(version)),
    {
        match self {
            Opcode::Invalid(sub) => sub.can_write_dst0_into_memory(version),
            Opcode::Nop(sub) => sub.can_write_dst0_into_memory(version),
            Opcode::Add(sub) => sub.can_write_dst0_into_memory(version),
            Opcode::Sub(sub) => sub.can_write_dst0_into_memory(version),
            Opcode::Mul(sub) => sub.can_write_dst0_into_memory(version),
            Opcode::Div(sub) => sub.can_write_dst0_into_memory(version),
            Opcode::Jump(sub) => sub.can_write_dst0_into_memory(version),
            Opcode::Context(sub) => sub.can_write_dst0_into_memory(version),
            Opcode::Shift(sub) => sub.can_write_dst0_into_memory(version),
            Opcode::Binop(sub) => sub.can_write_dst0_into_memory(version),
            Opcode::Ptr(sub) => sub.can_write_dst0_into_memory(version),
            Opcode::NearCall(sub) => sub.can_write_dst0_into_memory(version),
            Opcode::Log(sub) => sub.can_write_dst0_into_memory(version),
            Opcode::FarCall(sub) => sub.can_write_dst0_into_memory(version),
            Opcode::Ret(sub) => sub.can_write_dst0_into_memory(version),
            Opcode::UMA(sub) => sub.can_write_dst0_into_memory(version),
        }
    }

    pub fn input_operands(&self, version: ISAVersion) -> (r: Vec<Operand>)
        ensures
            r@ == self.spec_input_operands(version),
    {
        match self {
            Opcode::Invalid(sub) => sub.input_operands(version),
            Opcode::Nop(sub) => sub.input_operands(version),
            Opcode::Add(sub) => sub.input_operands(version),
            Opcode::Sub(sub) => sub.input_operands(version),
            Opcode::Mul(sub) => sub.input_operands(version),
            Opcode::Div(sub) => sub.input_operands(version),
            Opcode::Jump(sub) => sub.input_operands(version),
            Opcode::Context(sub) => sub.input_operands(version),
            Opcode::Shift(sub) => sub.input_operands(version),
            Opcode::Binop(sub) => sub.input_operands(version),
            Opcode::Ptr(sub) => sub.input_operands(version),
            Opcode::NearCall(sub) => sub.input_operands(version),
            Opcode::Log(sub) => sub.input_operands(version),
            Opcode::FarCall(sub) => sub.input_operands(version),
            Opcode::Ret(sub) => sub.input_operands(version),
            Opcode::UMA(sub) => sub.input_operands(version),
        }
    }

    pub fn output_operands(&self, version: ISAVersion) -> (r: Vec<Operand>)
        ensures
            r@ == self.spec_output_operands(version),
    {
        match self {
            Opcode::Invalid(sub) => sub.output_operands(version),
            Opcode::Nop(sub) => sub.output_operands(version),
            Opcode::Add(sub) => sub.output_operands(version),
            Opcode::Sub(sub) => sub.output_operands(version),
            Opcode::Mul(sub) => sub.output_operands(version),
            Opcode::Div(sub) => sub.output_operands(version),
            Opcode::Jump(sub) => sub.output_operands(version),
            Opcode::Context(sub) => sub.output_operands(version),
            Opcode::Shift(sub) => sub.output_operands(version),
            Opcode::Binop(sub) => sub.output_operands(version),
            Opcode::Ptr(sub) => sub.output_operands(version),
            Opcode::NearCall(sub) => sub.output_operands(version),
            Opcode::Log(sub) => sub.output_operands(version),
            Opcode::FarCall(sub) => sub.output_operands(version),
            Opcode::Ret(sub) => sub.output_operands(version),
            Opcode::UMA(sub) => sub.output_operands(version),
        }
    }

    /// Name of the opcode's family.
    pub fn name(&self) -> (r: &'static str)
        ensures
            r@ == self.spec_name(),
    {
        match self {
            Opcode::Invalid(sub) => sub.name(),
            Opcode::Nop(sub) => sub.name(),
            Opcode::Add(sub) => sub.name(),
            Opcode::Sub(sub) => sub.name(),
            Opcode::Mul(sub) => sub.name(),
            Opcode::Div(sub) => sub.name(),
            Opcode::Jump(sub) => sub.name(),
            Opcode::Context(sub) => sub.name(),
            Opcode::Shift(sub) => sub.name(),
            Opcode::Binop(sub) => sub.name(),
            Opcode::Ptr(sub) => sub.name(),
            Opcode::NearCall(sub) => sub.name(),
            Opcode::Log(sub) => sub.name(),
            Opcode::FarCall(sub) => sub.name(),
            Opcode::Ret(sub) => sub.name(),
            Opcode::UMA(sub) => sub.name(),
        }
    }

    /// What the opcode's family declares of its sub-variants at `version`.
    pub fn variants_data(&self, version: ISAVersion) -> (r: Vec<OpcodeVariantData>)
        ensures
            r@ == self.spec_variants_data(version),
    {
        match self {
            Opcode::Invalid(sub) => sub.variants_data(version),
            Opcode::Nop(sub) => sub.variants_data(version),
            Opcode::Add(sub) => sub.variants_data(version),
            Opcode::Sub(sub) => sub.variants_data(version),
            Opcode::Mul(sub) => sub.variants_data(version),
            Opcode::Div(sub) => sub.variants_data(version),
            Opcode::Jump(sub) => sub.variants_data(version),
            Opcode::Context(sub) => sub.variants_data(version),
            Opcode::Shift(sub) => sub.variants_data(version),
            Opcode::Binop(sub) => sub.variants_data(version),
            Opcode::Ptr(sub) => sub.variants_data(version),
            Opcode::NearCall(sub) => sub.variants_data(version),
            Opcode::Log(sub) => sub.variants_data(version),
            Opcode::FarCall(sub) => sub.variants_data(version),
            Opcode::Ret(sub) => sub.variants_data(version),
            Opcode::UMA(sub) => sub.variants_data(version),
        }
    }

    pub fn max_variant_idx(&self, version: ISAVersion) -> (r: usize)
        ensures
            r == self.spec_max_variant_idx(version),
    {
        match self {
            Opcode::Invalid(sub) => sub.max_variant_idx(version),
            Opcode::Nop(sub) => sub.max_variant_idx(version),
            Opcode::Add(sub) => sub.max_variant_idx(version),
            Opcode::Sub(sub) => sub.max_variant_idx(version),
            Opcode::Mul(sub) => sub.max_variant_idx(version),
            Opcode::Div(sub) => sub.max_variant_idx(version),
            Opcode::Jump(sub) => sub.max_variant_idx(version),
            Opcode::Context(sub) => sub.max_variant_idx(version),
            Opcode::Shift(sub) => sub.max_variant_idx(version),
            Opcode::Binop(sub) => sub.max_variant_idx(version),
            Opcode::Ptr(sub) => sub.max_variant_idx(version),
            Opcode::NearCall(sub) => sub.max_variant_idx(version),
            Opcode::Log(sub) => sub.max_variant_idx(version),
            Opcode::FarCall(sub) => sub.max_variant_idx(version),
            Opcode::Ret(sub) => sub.max_variant_idx(version),
            Opcode::UMA(sub) => sub.max_variant_idx(version),
        }
    }

    /// The first version that has the opcode.
    pub fn minimal_version(&self) -> (r: ISAVersion)
        ensures
            r == self.spec_minimal_version(),
    {
        match self {
            Opcode::Invalid(sub) => sub.minimal_version(),
            Opcode::Nop(sub) => sub.minimal_version(),
            Opcode::Add(sub) => sub.minimal_version(),
            Opcode::Sub(sub) => sub.minimal_version(),
            Opcode::Mul(sub) => sub.minimal_version(),
            Opcode::Div(sub) => sub.minimal_version(),
            Opcode::Jump(sub) => sub.minimal_version(),
            Opcode::Context(sub) => sub.minimal_version(),
            Opcode::Shift(sub) => sub.minimal_version(),
            Opcode::Binop(sub) => sub.minimal_version(),
            Opcode::Ptr(sub) => sub.minimal_version(),
            Opcode::NearCall(sub) => sub.minimal_version(),
            Opcode::Log(sub) => sub.minimal_version(),
            Opcode::FarCall(sub) => sub.minimal_version(),
            Opcode::Ret(sub) => sub.minimal_version(),
            Opcode::UMA(sub) => sub.minimal_version(),
        }
    }
}

} // verus!
