//! An opcode together with the addressing modes and flags that an instruction
//! spells out: the unit of the decoding table.

use vstd::prelude::*;
use crate::definitions::all::Opcode;
use crate::definitions::invalid_opcode::InvalidOpcode;
use crate::definitions::noop::NopOpcode;
use crate::definitions::opcode_trait::Operand;
use crate::imm_mem_modifiers::RegOrImmFlags;
use crate::NUM_NON_EXCLUSIVE_FLAGS;

verus! {

/// One slot of the decoding table: an opcode, the spelling of its first source
/// and of its first destination, and up to two independent flags. Two variants
/// are the same slot exactly if all four agree.
#[derive(Clone, Copy, Debug, Eq, PartialOrd, Ord, Hash)]
pub struct OpcodeVariant {
    pub opcode: Opcode,
    pub src0_operand_type: Operand,
    pub dst0_operand_type: Operand,
    pub flags: [bool; NUM_NON_EXCLUSIVE_FLAGS],
}

pub const SET_FLAGS_FLAG_IDX: usize = 0;

pub const SWAP_OPERANDS_FLAG_IDX_FOR_ARITH_OPCODES: usize = 1;

pub const SWAP_OPERANDS_FLAG_IDX_FOR_PTR_OPCODE: usize = 0;

/// The variant with the given parts.
pub open spec fn variant_of(
    opcode: Opcode,
    src: Operand,
    dst: Operand,
    flag0: bool,
    flag1: bool,
) -> OpcodeVariant {
    OpcodeVariant {
        opcode: opcode,
        src0_operand_type: src,
        dst0_operand_type: dst,
        flags: [flag0, flag1],
    }
}

/// The canonical invalid variant: the invalid opcode on registers, no flag set.
pub open spec fn spec_invalid_opcode_variant() -> OpcodeVariant {
    variant_of(Opcode::Invalid(InvalidOpcode), Operand::RegOnly, Operand::RegOnly, false, false)
}

pub fn invalid_opcode_variant() -> (r: OpcodeVariant)
    ensures
        r == spec_invalid_opcode_variant(),
{
    OpcodeVariant {
        opcode: Opcode::Invalid(InvalidOpcode),
        src0_operand_type: Operand::RegOnly,
        dst0_operand_type: Operand::RegOnly,
        flags: [false, false],
    }
}

/// A variant is its four parts.
pub proof fn lemma_variant_parts(v: OpcodeVariant)
    ensures
        v == variant_of(
            v.opcode,
            v.src0_operand_type,
            v.dst0_operand_type,
            v.flags@[0],
            v.flags@[1],
        ),
{
    let w = variant_of(
        v.opcode,
        v.src0_operand_type,
        v.dst0_operand_type,
        v.flags@[0],
        v.flags@[1],
    );
    assert(v.flags@ =~= w.flags@);
    assert(v.flags == w.flags);
}

/// Two variants are equal exactly if their parts are.
pub proof fn lemma_variant_equality(a: OpcodeVariant, b: OpcodeVariant)
    ensures
        a == b <==> (a.opcode == b.opcode && a.src0_operand_type == b.src0_operand_type
            && a.dst0_operand_type == b.dst0_operand_type && a.flags@[0] == b.flags@[0]
            && a.flags@[1] == b.flags@[1]),
{
    lemma_variant_parts(a);
    lemma_variant_parts(b);
}

impl PartialEq for OpcodeVariant {
    fn eq(&self, other: &Self) -> (r: bool) {
        let r = self.opcode == other.opcode && self.src0_operand_type == other.src0_operand_type
            && self.dst0_operand_type == other.dst0_operand_type && self.flags[0]
            == other.flags[0] && self.flags[1] == other.flags[1];
        proof {
            lemma_variant_equality(*self, *other);
        }
        r
    }
}

impl vstd::std_specs::cmp::PartialEqSpecImpl for OpcodeVariant {
    open spec fn obeys_eq_spec() -> bool {
        true
    }

    open spec fn eq_spec(&self, other: &Self) -> bool {
        *self == *other
    }
}

impl OpcodeVariant {
    pub open spec fn spec_ergs_price(&self) -> u32 {
        self.opcode.spec_ergs_price()
    }

    /// Whether the instruction takes its two inputs in the other order: flag 1
    /// of `sub`, `div` and the shifts, flag 0 of the pointer opcodes.
    pub open spec fn spec_swap_operands(&self) -> bool {
        match self.opcode {
            Opcode::Sub(_) | Opcode::Div(_) | Opcode::Shift(_) => self.flags@[1],
            Opcode::Ptr(_) => self.flags@[0],
            _ => false,
        }
    }

    pub open spec fn spec_is_explicit_panic(&self) -> bool {
        self.opcode is Invalid
    }

    /// Price of the variant: that of its opcode, whatever the addressing modes
    /// and the flags.
    pub fn ergs_price(&self) -> (r: u32)
        ensures
            r == self.spec_ergs_price(),
            r == self.opcode.spec_ergs_price(),
    {
        self.opcode.ergs_price()
    }

    pub fn swap_operands(&self) -> (r: bool)
        ensures
            r == self.spec_swap_operands(),
    {
        match self.opcode {
            Opcode::Sub(_) | Opcode::Div(_) | Opcode::Shift(_) => {
                self.flags[SWAP_OPERANDS_FLAG_IDX_FOR_ARITH_OPCODES]
            },
            Opcode::Ptr(_) => self.flags[SWAP_OPERANDS_FLAG_IDX_FOR_PTR_OPCODE],
            _ => false,
        }
    }

    pub fn requires_kernel_mode(&self) -> (r: bool)
        ensures
            r == self.opcode.spec_requires_kernel_mode(),
    {
        self.opcode.requires_kernel_mode()
    }

    pub fn can_be_used_in_static_context(&self) -> (r: bool)
        ensures
            r == self.opcode.spec_can_be_used_in_static_context(),
    {
        self.opcode.can_be_used_in_static_context()
    }

    /// The invalid opcode burns all ergs and then behaves as a panic.
    pub fn is_explicit_panic(&self) -> (r: bool)
        ensures
            r == self.spec_is_explicit_panic(),
    {
        match &self.opcode {
            Opcode::Invalid(_) => true,
            _ => false,
        }
    }
}

impl Default for OpcodeVariant {
    /// The `nop` opcode on registers, no flag set.
    fn default() -> (r: Self)
        ensures
            r == variant_of(
                Opcode::Nop(NopOpcode),
                Operand::RegOnly,
                Operand::RegOnly,
                false,
                false,
            ),
    {
        OpcodeVariant {
            opcode: Opcode::Nop(NopOpcode),
            src0_operand_type: Operand::RegOnly,
            dst0_operand_type: Operand::RegOnly,
            flags: [false, false],
        }
    }
}

/// Whether two sources are read in the same way: equal, or one a register and
/// the other the register spelling of a register-or-immediate operand.
pub open spec fn sources_equivalent(a: Operand, b: Operand) -> bool {
    a == b || (a == Operand::RegOnly && b == Operand::RegOrImm(RegOrImmFlags::UseRegOnly)) || (a
        == Operand::RegOrImm(RegOrImmFlags::UseRegOnly) && b == Operand::RegOnly)
}

/// Whether two variants execute in the same way: the same opcode, flags and
/// destination, and equivalent sources.
pub open spec fn spec_semantically_equal(a: OpcodeVariant, b: OpcodeVariant) -> bool {
    a.opcode == b.opcode && a.flags@[0] == b.flags@[0] && a.flags@[1] == b.flags@[1]
        && a.dst0_operand_type == b.dst0_operand_type && sources_equivalent(
        a.src0_operand_type,
        b.src0_operand_type,
    )
}

pub fn semantically_equal(a: &OpcodeVariant, b: &OpcodeVariant) -> (r: bool)
    ensures
        r == spec_semantically_equal(*a, *b),
{
    if a.opcode != b.opcode {
        return false;
    }
    if a.flags[0] != b.flags[0] || a.flags[1] != b.flags[1] {
        return false;
    }
    // First the destination: it has no second spelling.
    if a.dst0_operand_type != b.dst0_operand_type {
        return false;
    }
    if a.src0_operand_type == b.src0_operand_type {
        return true;
    }
    match (a.src0_operand_type, b.src0_operand_type) {
        (Operand::RegOnly, Operand::RegOrImm(RegOrImmFlags::UseRegOnly))
        | (Operand::RegOrImm(RegOrImmFlags::UseRegOnly), Operand::RegOnly) => true,
        _ => false,
    }
}

/// Semantic equality is an equivalence relation, and equal variants are
/// semantically equal.
pub proof fn lemma_semantic_equality_is_equivalence(
    a: OpcodeVariant,
    b: OpcodeVariant,
    c: OpcodeVariant,
)
    ensures
        spec_semantically_equal(a, a),
        spec_semantically_equal(a, b) ==> spec_semantically_equal(b, a),
        spec_semantically_equal(a, b) && spec_semantically_equal(b, c) ==> spec_semantically_equal(
            a,
            c,
        ),
{
}

} // verus!
