//! Condition codes.

use vstd::prelude::*;

verus! {

/// When an instruction executes, as a test on the flags. Three bits of the code
/// word hold the index of the condition.
#[derive(Clone, Copy, Debug, PartialEq, Eq, PartialOrd, Ord, Hash, Structural)]
pub enum Condition {
    Always,
    Gt,
    Lt,
    Eq,
    Ge,
    Le,
    Ne,
    GtOrLt,
}

pub const CONDITIONAL_BITS_WIDTH: usize = 3;

pub const NUM_CONDITIONS: usize = 8;

impl Condition {
    pub const NUM_VARIANTS: usize = 8;

    pub open spec fn spec_variant_index(&self) -> usize {
        match self {
            Condition::Always => 0,
            Condition::Gt => 1,
            Condition::Lt => 2,
            Condition::Eq => 3,
            Condition::Ge => 4,
            Condition::Le => 5,
            Condition::Ne => 6,
            Condition::GtOrLt => 7,
        }
    }

    /// The condition with the given index.
    pub open spec fn spec_materialize_variant(idx: usize) -> Self {
        spec_all_conditions()[idx as int]
    }

    /// The condition with the given index, which is below 8.
    pub fn materialize_variant(idx: usize) -> (r: Self)
        requires
            idx < Self::NUM_VARIANTS,
        ensures
            r == Self::spec_materialize_variant(idx),
            r.spec_variant_index() == idx,
    {
        match idx {
            0 => Condition::Always,
            1 => Condition::Gt,
            2 => Condition::Lt,
            3 => Condition::Eq,
            4 => Condition::Ge,
            5 => Condition::Le,
            6 => Condition::Ne,
            _ => Condition::GtOrLt,
        }
    }

    pub fn variant_index(&self) -> (r: usize)
        ensures
            r == self.spec_variant_index(),
            r < Self::NUM_VARIANTS,
    {
        match self {
            Condition::Always => 0,
            Condition::Gt => 1,
            Condition::Lt => 2,
            Condition::Eq => 3,
            Condition::Ge => 4,
            Condition::Le => 5,
            Condition::Ne => 6,
            Condition::GtOrLt => 7,
        }
    }
}

/// Every condition, in the order of its index.
pub open spec fn spec_all_conditions() -> Seq<Condition> {
    seq![
        Condition::Always,
        Condition::Gt,
        Condition::Lt,
        Condition::Eq,
        Condition::Ge,
        Condition::Le,
        Condition::Ne,
        Condition::GtOrLt,
    ]
}

pub fn all_conditions() -> (r: [Condition; NUM_CONDITIONS])
    ensures
        r@ == spec_all_conditions(),
{
    let r = [
        Condition::Always,
        Condition::Gt,
        Condition::Lt,
        Condition::Eq,
        Condition::Ge,
        Condition::Le,
        Condition::Ne,
        Condition::GtOrLt,
    ];
    assert(r@ =~= spec_all_conditions());
    r
}

/// A condition and its index determine each other.
pub proof fn lemma_condition_index_round_trip(c: Condition, idx: usize)
    ensures
        Condition::spec_materialize_variant(c.spec_variant_index()) == c,
        c.spec_variant_index() < 8,
        idx < 8 ==> Condition::spec_materialize_variant(idx).spec_variant_index() == idx,
{
}

} // verus!
