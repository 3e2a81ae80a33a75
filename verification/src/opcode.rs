//! A decoded instruction.

use vstd::prelude::*;
use crate::decoding::{
    is_big_endian_of, AllowedIntegerRepresentation, AllowedPcOrImm, VmEncodingMode,
};
use crate::definitions::all::Opcode;
use crate::definitions::condition::Condition;
use crate::definitions::noop::NopOpcode;
use crate::definitions::opcode_trait::Operand;
use crate::definitions::ret::RetOpcode;
use crate::definitions::variant::OpcodeVariant;
use crate::imm_mem_modifiers::ImmMemHandlerFlags;
use crate::tables::{spec_nop_opcode_variant, spec_panic_opcode_variant, OpcodeTables};

verus! {

/// A decoded instruction: a variant, the condition on which it executes, four
/// register indices and two immediates.
#[derive(Clone, Copy, Debug)]
pub struct DecodedOpcode<const N: usize, E: VmEncodingMode<N>> {
    pub variant: OpcodeVariant,
    pub condition: Condition,
    pub src0_reg_idx: u8,
    pub src1_reg_idx: u8,
    pub dst0_reg_idx: u8,
    pub dst1_reg_idx: u8,
    pub imm_0: E::PcOrImm,
    pub imm_1: E::PcOrImm,
}

impl<const N: usize, E: VmEncodingMode<N>> Default for DecodedOpcode<N, E> {
    /// The default variant, always executed, on register zero and with both
    /// immediates zero.
    fn default() -> (r: Self)
        ensures
            r == Self::spec_plain(
                crate::definitions::variant::variant_of(
                    Opcode::Nop(NopOpcode),
                    Operand::RegOnly,
                    Operand::RegOnly,
                    false,
                    false,
                ),
            ),
    {
        DecodedOpcode {
            variant: OpcodeVariant::default(),
            condition: Condition::Always,
            src0_reg_idx: 0,
            src1_reg_idx: 0,
            dst0_reg_idx: 0,
            dst1_reg_idx: 0,
            imm_0: E::PcOrImm::from_u64_clipped(0),
            imm_1: E::PcOrImm::from_u64_clipped(0),
        }
    }
}

impl<const N: usize, E: VmEncodingMode<N>> DecodedOpcode<N, E> {
    /// The instruction that executes `variant` always, on register zero and
    /// with both immediates zero.
    pub open spec fn spec_plain(variant: OpcodeVariant) -> Self {
        DecodedOpcode {
            variant: variant,
            condition: Condition::Always,
            src0_reg_idx: 0,
            src1_reg_idx: 0,
            dst0_reg_idx: 0,
            dst1_reg_idx: 0,
            imm_0: E::PcOrImm::spec_from_u64_clipped(0),
            imm_1: E::PcOrImm::spec_from_u64_clipped(0),
        }
    }

    /// The `nop` instruction.
    pub open spec fn spec_nop() -> Self {
        Self::spec_plain(spec_nop_opcode_variant())
    }

    /// The panic instruction.
    pub open spec fn spec_panic() -> Self {
        Self::spec_plain(spec_panic_opcode_variant())
    }

    /// The instruction with its variant and condition replaced and its
    /// registers cleared. The immediates stay.
    pub open spec fn spec_masked(self, variant: OpcodeVariant) -> Self {
        DecodedOpcode {
            variant: variant,
            condition: Condition::Always,
            src0_reg_idx: 0,
            src1_reg_idx: 0,
            dst0_reg_idx: 0,
            dst1_reg_idx: 0,
            imm_0: self.imm_0,
            imm_1: self.imm_1,
        }
    }

    /// Turns the instruction into a panic: `ret.panic` on register zero,
    /// always executed. The immediates stay as they are.
    pub fn mask_into_panic(&mut self)
        ensures
            *final(self) == old(self).spec_masked(spec_panic_opcode_variant()),
    {
        self.variant.opcode = Opcode::Ret(RetOpcode::Panic);
        // The panic must execute whatever the flags say.
        self.condition = Condition::Always;
        self.variant.src0_operand_type = Operand::RegOnly;
        self.variant.dst0_operand_type = Operand::RegOnly;
        self.variant.flags = [false, false];
        self.src0_reg_idx = 0;
        self.src1_reg_idx = 0;
        self.dst0_reg_idx = 0;
        self.dst1_reg_idx = 0;
    }

    /// Turns the instruction into a `nop` on register zero, always executed.
    /// The immediates stay as they are.
    pub fn mask_into_nop(&mut self)
        ensures
            *final(self) == old(self).spec_masked(spec_nop_opcode_variant()),
    {
        self.variant.opcode = Opcode::Nop(NopOpcode);
        self.condition = Condition::Always;
        self.variant.src0_operand_type = Operand::Full(ImmMemHandlerFlags::UseRegOnly);
        self.variant.dst0_operand_type = Operand::Full(ImmMemHandlerFlags::UseRegOnly);
        self.variant.flags = [false, false];
        self.src0_reg_idx = 0;
        self.src1_reg_idx = 0;
        self.dst0_reg_idx = 0;
        self.dst1_reg_idx = 0;
    }

    /// The code word of the instruction. The table must hold the variant, and
    /// every field must fit its bits.
    pub fn serialize_as_integer(&self, tables: &OpcodeTables) -> (r: E::IntegerRepresentation)
        requires
            E::spec_is_encodable(tables, self),
        ensures
            r == E::spec_encode_as_integer(tables, self),
    {
        E::encode_as_integer(tables, self)
    }

    /// The bytes of the code word of the instruction, the most significant
    /// first.
    pub fn serialize_as_bytes(&self, tables: &OpcodeTables) -> (r: [u8; N])
        requires
            E::spec_is_encodable(tables, self),
        ensures
            is_big_endian_of(r@, E::spec_encode_as_integer(tables, self).spec_as_nat()),
    {
        E::encode_as_bytes(tables, self)
    }
}

} // verus!
