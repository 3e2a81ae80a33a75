//! Addressing-mode spellings of an operand.

use vstd::prelude::*;

verus! {

/// The six ways in which a fully addressable operand can be read.
#[derive(Clone, Copy, Debug, PartialOrd, Ord, PartialEq, Eq, Hash, Structural)]
pub enum ImmMemHandlerFlags {
    UseRegOnly,
    UseStackWithPushPop,
    UseStackWithOffset,
    UseAbsoluteOnStack,
    UseImm16Only,
    UseCodePage,
}

impl ImmMemHandlerFlags {
    pub const NUM_VARIANTS: usize = 6;

    /// Every spelling, in the order of its index.
    pub open spec fn spec_all_variants() -> Seq<Self> {
        seq![
            ImmMemHandlerFlags::UseRegOnly,
            ImmMemHandlerFlags::UseStackWithPushPop,
            ImmMemHandlerFlags::UseStackWithOffset,
            ImmMemHandlerFlags::UseAbsoluteOnStack,
            ImmMemHandlerFlags::UseImm16Only,
            ImmMemHandlerFlags::UseCodePage,
        ]
    }

    pub open spec fn spec_variant_index(&self) -> usize {
        match self {
            ImmMemHandlerFlags::UseRegOnly => 0,
            ImmMemHandlerFlags::UseStackWithPushPop => 1,
            ImmMemHandlerFlags::UseStackWithOffset => 2,
            ImmMemHandlerFlags::UseAbsoluteOnStack => 3,
            ImmMemHandlerFlags::UseImm16Only => 4,
            ImmMemHandlerFlags::UseCodePage => 5,
        }
    }

    pub open spec fn spec_is_memory_used(&self) -> bool {
        !(*self == ImmMemHandlerFlags::UseRegOnly || *self == ImmMemHandlerFlags::UseImm16Only)
    }

    /// A destination cannot be an immediate nor lie on the code page.
    pub open spec fn spec_is_allowed_for_dst(&self) -> bool {
        !(*self == ImmMemHandlerFlags::UseImm16Only || *self == ImmMemHandlerFlags::UseCodePage)
    }

    pub fn all_variants() -> (r: [Self; 6])
        ensures
            r@ == Self::spec_all_variants(),
    {
        let r = [
            ImmMemHandlerFlags::UseRegOnly,
            ImmMemHandlerFlags::UseStackWithPushPop,
            ImmMemHandlerFlags::UseStackWithOffset,
            ImmMemHandlerFlags::UseAbsoluteOnStack,
            ImmMemHandlerFlags::UseImm16Only,
            ImmMemHandlerFlags::UseCodePage,
        ];
        assert(r@ =~= Self::spec_all_variants());
        r
    }

    pub fn encoding_byte(&self) -> (r: u8)
        ensures
            r == self.spec_variant_index(),
    {
        match self {
            ImmMemHandlerFlags::UseRegOnly => 0,
            ImmMemHandlerFlags::UseStackWithPushPop => 1,
            ImmMemHandlerFlags::UseStackWithOffset => 2,
            ImmMemHandlerFlags::UseAbsoluteOnStack => 3,
            ImmMemHandlerFlags::UseImm16Only => 4,
            ImmMemHandlerFlags::UseCodePage => 5,
        }
    }

    pub fn is_memory_used(&self) -> (r: bool)
        ensures
            r == self.spec_is_memory_used(),
    {
        match self {
            ImmMemHandlerFlags::UseRegOnly | ImmMemHandlerFlags::UseImm16Only => false,
            _ => true,
        }
    }

    pub fn num_variants() -> (r: usize)
        ensures
            r == Self::spec_all_variants().len(),
    {
        Self::NUM_VARIANTS
    }

    pub fn num_src_variants() -> (r: usize)
        ensures
            r == Self::spec_all_variants().len(),
            r == 6,
    {
        Self::NUM_VARIANTS
    }

    pub fn num_dst_variants() -> (r: usize)
        ensures
            r == Self::spec_all_variants().filter(|f: Self| f.spec_is_allowed_for_dst()).len(),
            r == 4,
    {
        proof {
            lemma_destination_spellings();
        }
        Self::NUM_VARIANTS - 2
    }

    pub fn variant_index(&self) -> (r: usize)
        ensures
            r == self.spec_variant_index(),
            r < 6,
            Self::spec_all_variants()[r as int] == *self,
    {
        match self {
            ImmMemHandlerFlags::UseRegOnly => 0,
            ImmMemHandlerFlags::UseStackWithPushPop => 1,
            ImmMemHandlerFlags::UseStackWithOffset => 2,
            ImmMemHandlerFlags::UseAbsoluteOnStack => 3,
            ImmMemHandlerFlags::UseImm16Only => 4,
            ImmMemHandlerFlags::UseCodePage => 5,
        }
    }

    pub fn is_allowed_for_dst(&self) -> (r: bool)
        ensures
            r == self.spec_is_allowed_for_dst(),
    {
        match self {
            ImmMemHandlerFlags::UseImm16Only | ImmMemHandlerFlags::UseCodePage => false,
            _ => true,
        }
    }
}

/// The two ways in which an operand that is a register or an immediate can be
/// read. Each has the index of the full spelling of the same name.
#[derive(Clone, Copy, Debug, PartialOrd, Ord, PartialEq, Eq, Hash, Structural)]
pub enum RegOrImmFlags {
    UseRegOnly,
    UseImm16Only,
}

impl RegOrImmFlags {
    pub const NUM_VARIANTS: usize = 2;

    pub open spec fn spec_all_variants() -> Seq<Self> {
        seq![RegOrImmFlags::UseRegOnly, RegOrImmFlags::UseImm16Only]
    }

    pub open spec fn spec_variant_index(&self) -> usize {
        match self {
            RegOrImmFlags::UseRegOnly => 0,
            RegOrImmFlags::UseImm16Only => 4,
        }
    }

    pub open spec fn spec_is_allowed_for_dst(&self) -> bool {
        *self != RegOrImmFlags::UseImm16Only
    }

    /// The full spelling that reads the operand in the same way.
    pub open spec fn as_full(&self) -> ImmMemHandlerFlags {
        match self {
            RegOrImmFlags::UseRegOnly => ImmMemHandlerFlags::UseRegOnly,
            RegOrImmFlags::UseImm16Only => ImmMemHandlerFlags::UseImm16Only,
        }
    }

    pub fn all_variants() -> (r: [Self; 2])
        ensures
            r@ == Self::spec_all_variants(),
    {
        let r = [RegOrImmFlags::UseRegOnly, RegOrImmFlags::UseImm16Only];
        assert(r@ =~= Self::spec_all_variants());
        r
    }

    pub fn encoding_byte(&self) -> (r: u8)
        ensures
            r == self.spec_variant_index(),
    {
        match self {
            RegOrImmFlags::UseRegOnly => 0,
            RegOrImmFlags::UseImm16Only => 4,
        }
    }

    pub fn is_memory_used(&self) -> (r: bool)
        ensures
            !r,
    {
        false
    }

    pub fn num_variants() -> (r: usize)
        ensures
            r == Self::spec_all_variants().len(),
    {
        Self::NUM_VARIANTS
    }

    pub fn num_src_variants() -> (r: usize)
        ensures
            r == Self::spec_all_variants().len(),
            r == 2,
    {
        Self::NUM_VARIANTS
    }

    pub fn num_dst_variants() -> (r: usize)
        ensures
            r == Self::spec_all_variants().filter(|f: Self| f.spec_is_allowed_for_dst()).len(),
            r == 1,
    {
        proof {
            lemma_destination_spellings();
        }
        Self::NUM_VARIANTS - 1
    }

    pub fn variant_index(&self) -> (r: usize)
        ensures
            r == self.spec_variant_index(),
    {
        match self {
            RegOrImmFlags::UseRegOnly => 0,
            RegOrImmFlags::UseImm16Only => 4,
        }
    }

    pub fn is_allowed_for_dst(&self) -> (r: bool)
        ensures
            r == self.spec_is_allowed_for_dst(),
    {
        match self {
            RegOrImmFlags::UseImm16Only => false,
            _ => true,
        }
    }
}

/// The spellings that a destination may take: four of the full ones, one of
/// the register-or-immediate ones.
pub proof fn lemma_destination_spellings()
    ensures
        ImmMemHandlerFlags::spec_all_variants().filter(
            |f: ImmMemHandlerFlags| f.spec_is_allowed_for_dst(),
        ) == seq![
            ImmMemHandlerFlags::UseRegOnly,
            ImmMemHandlerFlags::UseStackWithPushPop,
            ImmMemHandlerFlags::UseStackWithOffset,
            ImmMemHandlerFlags::UseAbsoluteOnStack,
        ],
        RegOrImmFlags::spec_all_variants().filter(|f: RegOrImmFlags| f.spec_is_allowed_for_dst())
            == seq![RegOrImmFlags::UseRegOnly],
{
    reveal_with_fuel(Seq::filter, 8);
    let full = ImmMemHandlerFlags::spec_all_variants();
    let p = |f: ImmMemHandlerFlags| f.spec_is_allowed_for_dst();
    let f5 = full.drop_last();
    let f4 = f5.drop_last();
    let f3 = f4.drop_last();
    let f2 = f3.drop_last();
    let f1 = f2.drop_last();
    let f0 = f1.drop_last();
    assert(f0.len() == 0);
    assert(f1.filter(p) =~= seq![ImmMemHandlerFlags::UseRegOnly]);
    assert(f2.filter(p) =~= seq![
        ImmMemHandlerFlags::UseRegOnly,
        ImmMemHandlerFlags::UseStackWithPushPop,
    ]);
    assert(f3.filter(p) =~= seq![
        ImmMemHandlerFlags::UseRegOnly,
        ImmMemHandlerFlags::UseStackWithPushPop,
        ImmMemHandlerFlags::UseStackWithOffset,
    ]);
    assert(f4.filter(p) =~= seq![
        ImmMemHandlerFlags::UseRegOnly,
        ImmMemHandlerFlags::UseStackWithPushPop,
        ImmMemHandlerFlags::UseStackWithOffset,
        ImmMemHandlerFlags::UseAbsoluteOnStack,
    ]);
    assert(f5.filter(p) =~= f4.filter(p));
    assert(full.filter(p) =~= f4.filter(p));
    let short = RegOrImmFlags::spec_all_variants();
    let q = |f: RegOrImmFlags| f.spec_is_allowed_for_dst();
    let s1 = short.drop_last();
    let s0 = s1.drop_last();
    assert(s0.len() == 0);
    assert(s1.filter(q) =~= seq![RegOrImmFlags::UseRegOnly]);
    assert(short.filter(q) =~= s1.filter(q));
}

/// A register-or-immediate spelling has the index and the properties of the
/// full spelling that it stands for.
pub proof fn lemma_reg_or_imm_agrees_with_full(f: RegOrImmFlags)
    ensures
        f.spec_variant_index() == f.as_full().spec_variant_index(),
        f.spec_is_allowed_for_dst() == f.as_full().spec_is_allowed_for_dst(),
        !f.as_full().spec_is_memory_used(),
{
}

} // verus!
