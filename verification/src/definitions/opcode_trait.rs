//! What every opcode family declares of itself.

use vstd::prelude::*;
use crate::imm_mem_modifiers::{ImmMemHandlerFlags, RegOrImmFlags};

verus! {

/// The capability class of an operand, and within the class the spelling that
/// an instruction uses.
#[derive(Clone, Copy, Debug, PartialEq, Eq, PartialOrd, Ord, Hash, Structural)]
pub enum Operand {
    RegOnly,
    RegOrImm(RegOrImmFlags),
    Full(ImmMemHandlerFlags),
}

impl Operand {
    pub open spec fn spec_variant_idx(&self) -> usize {
        match self {
            Operand::RegOnly => 0,
            Operand::RegOrImm(v) => v.spec_variant_index(),
            Operand::Full(v) => v.spec_variant_index(),
        }
    }

    /// Index of the spelling: that of a register for `RegOnly`.
    pub fn variant_idx(&self) -> (r: usize)
        ensures
            r == self.spec_variant_idx(),
            r < 6,
    {
        match self {
            Operand::RegOnly => 0,
            Operand::RegOrImm(v) => v.variant_index(),
            Operand::Full(v) => v.variant_index(),
        }
    }
}

/// A version of the instruction set. Versions are totally ordered, and what one
/// version offers every later version offers too.
#[derive(Clone, Copy, Debug, PartialEq, Eq, PartialOrd, Ord, Hash, Structural)]
pub struct ISAVersion(pub u8);

pub const NUM_ISA_VERSIONS: usize = 2;

/// The registered versions, in ascending order.
pub open spec fn spec_all_isa_versions() -> Seq<ISAVersion> {
    seq![ISAVersion(0), ISAVersion(1)]
}

/// The registered versions ascend strictly.
pub proof fn lemma_versions_ascend(i: int, j: int)
    requires
        0 <= i < j < spec_all_isa_versions().len(),
    ensures
        spec_all_isa_versions()[i].0 < spec_all_isa_versions()[j].0,
{
}

pub fn all_isa_versions() -> (r: [ISAVersion; NUM_ISA_VERSIONS])
    ensures
        r@ == spec_all_isa_versions(),
{
    let r = [ISAVersion(0), ISAVersion(1)];
    assert(r@ =~= spec_all_isa_versions());
    r
}

impl ISAVersion {
    pub open spec fn spec_as_index(&self) -> usize {
        self.0 as usize
    }

    pub fn as_index(&self) -> (r: usize)
        ensures
            r == self.spec_as_index(),
    {
        self.0 as usize
    }

    /// The registered versions that are not later than `including`.
    pub open spec fn spec_all_backward_compatible_versions(including: Self) -> Seq<Self> {
        spec_all_isa_versions().filter(|v: ISAVersion| v.0 <= including.0)
    }

    pub fn all_backward_compatible_versions(including: Self) -> (r: Vec<Self>)
        ensures
            r@ == Self::spec_all_backward_compatible_versions(including),
            r@ == (if including.0 == 0 {
                seq![ISAVersion(0)]
            } else {
                seq![ISAVersion(0), ISAVersion(1)]
            }),
    {
        let all = all_isa_versions();
        let mut result: Vec<Self> = Vec::new();
        let mut i: usize = 0;
        proof {
            reveal(Seq::filter);
            assert(spec_all_isa_versions().take(0) =~= Seq::<ISAVersion>::empty());
        }
        while i < NUM_ISA_VERSIONS
            invariant
                i <= NUM_ISA_VERSIONS,
                all@ == spec_all_isa_versions(),
                result@ == spec_all_isa_versions().take(i as int).filter(
                    |v: ISAVersion| v.0 <= including.0,
                ),
                i == 0 ==> result@.len() == 0,
                i == 1 ==> result@ =~= seq![ISAVersion(0)],
                i == 2 ==> result@ =~= (if including.0 == 0 {
                    seq![ISAVersion(0)]
                } else {
                    seq![ISAVersion(0), ISAVersion(1)]
                }),
            decreases NUM_ISA_VERSIONS - i,
        {
            let v = all[i];
            proof {
                reveal(Seq::filter);
                assert(spec_all_isa_versions().take(i + 1).drop_last()
                    =~= spec_all_isa_versions().take(i as int));
            }
            if v.0 <= including.0 {
                result.push(v);
            }
            i += 1;
        }
        proof {
            assert(spec_all_isa_versions().take(2) =~= spec_all_isa_versions());
        }
        result
    }
}

/// What a family declares of one of its sub-variants.
#[derive(Clone, Copy, Debug, PartialEq, Eq, PartialOrd, Ord, Hash, Structural)]
pub struct OpcodeVariantData {
    pub variant_idx: usize,
    pub num_non_exclusive_flags: usize,
    pub num_used_immediates: usize,
}

/// Whether a list of operands begins with a fully addressable one: only such an
/// operand can lie in memory.
pub open spec fn first_operand_is_full(operands: Seq<Operand>) -> bool {
    operands.len() > 0 && operands[0] is Full
}

/// A sub-variant is available from its minimal version on.
pub open spec fn variant_is_available<V: OpcodeVariantProps>(v: V, version: ISAVersion) -> bool {
    v.spec_minimal_version().0 <= version.0
}

pub open spec fn variant_is_added<V: OpcodeVariantProps>(v: V, version: ISAVersion) -> bool {
    v.spec_minimal_version() == version
}

/// The sub-variant of family `V` with the given index, if `version` has it.
pub open spec fn variant_from_index<V: OpcodeVariantProps>(
    index: usize,
    version: ISAVersion,
) -> Option<V> {
    if index < V::spec_all_variants().len() && variant_is_available(
        V::spec_all_variants()[index as int],
        version,
    ) {
        Some(V::spec_all_variants()[index as int])
    } else {
        None
    }
}

/// The capabilities of an opcode: its operands, its auxiliary properties and
/// the sub-variants of its family.
pub trait OpcodeProps {
    spec fn spec_name(&self) -> Seq<char>;

    /// One entry for each sub-variant that the family has at `version`, in the
    /// order of the sub-variants' indices.
    spec fn spec_variants_data(&self, version: ISAVersion) -> Seq<OpcodeVariantData>;

    spec fn spec_max_variant_idx(&self, version: ISAVersion) -> usize;

    spec fn spec_input_operands(&self, version: ISAVersion) -> Seq<Operand>;

    spec fn spec_output_operands(&self, version: ISAVersion) -> Seq<Operand>;

    spec fn spec_requires_kernel_mode(&self) -> bool;

    spec fn spec_can_be_used_in_static_context(&self) -> bool;

    fn name(&self) -> (r: &'static str)
        ensures
            r@ == self.spec_name(),
    ;

    fn variants_data(&self, version: ISAVersion) -> (r: Vec<OpcodeVariantData>)
        ensures
            r@ == self.spec_variants_data(version),
    ;

    fn max_variant_idx(&self, version: ISAVersion) -> (r: usize)
        ensures
            r == self.spec_max_variant_idx(version),
    ;

    fn input_operands(&self, version: ISAVersion) -> (r: Vec<Operand>)
        ensures
            r@ == self.spec_input_operands(version),
    ;

    fn output_operands(&self, version: ISAVersion) -> (r: Vec<Operand>)
        ensures
            r@ == self.spec_output_operands(version),
    ;

    fn requires_kernel_mode(&self) -> (r: bool)
        ensures
            r == self.spec_requires_kernel_mode(),
    ;

    fn can_be_used_in_static_context(&self) -> (r: bool)
        ensures
            r == self.spec_can_be_used_in_static_context(),
    ;

    fn can_have_src0_from_mem(&self, version: ISAVersion) -> (r: bool)
        ensures
            r == first_operand_is_full(self.spec_input_operands(version)),
    {
        let possible_sources = self.input_operands(version);
        if possible_sources.len() == 0 {
            false
        } else {
            match possible_sources[0] {
                Operand::Full(_) => true,
                Operand::RegOnly => false,
                Operand::RegOrImm(_) => false,
            }
        }
    }

    /// No family has a first output that is a register or an immediate: such
    /// an opcode is left out.
    fn can_write_dst0_into_memory(&self, version: ISAVersion) -> (r: bool)
        requires
            self.spec_output_operands(version).len() > 0 ==> !(self.spec_output_operands(
                version,
            )[0] is RegOrImm),
        ensures
            r == first_operand_is_full(self.spec_output_operands(version)),
    {
        let possible_dests = self.output_operands(version);
        if possible_dests.len() == 0 {
            false
        } else {
            match possible_dests[0] {
                Operand::Full(_) => true,
                _ => false,
            }
        }
    }
}

/// The sub-variants of one opcode family.
pub trait OpcodeVariantProps: Sized + Copy {
    /// Every sub-variant of the family, in the order of its index.
    spec fn spec_all_variants() -> Seq<Self>;

    /// The first version that has the sub-variant.
    spec fn spec_minimal_version(&self) -> ISAVersion;

    /// Largest index of a sub-variant that `version` has.
    spec fn spec_max_variant_idx_for_version(version: ISAVersion) -> usize;

    /// Index of the sub-variant within its family: dense, from zero, and the
    /// same in every version.
    spec fn spec_variant_index(&self) -> usize;

    spec fn spec_ergs_price(&self) -> u32;

    /// The family's sub-variants are numbered in the order in which
    /// `all_variants` lists them, there is at least one, and the minimal
    /// versions do not decrease along the list.
    proof fn lemma_variants_are_indexed()
        ensures
            Self::spec_all_variants().len() > 0,
            forall|i: int|
                0 <= i < Self::spec_all_variants().len() ==> (
                #[trigger] Self::spec_all_variants()[i]).spec_variant_index() == i,
            forall|v: Self| #[trigger]
                v.spec_variant_index() < Self::spec_all_variants().len()
                    && Self::spec_all_variants()[v.spec_variant_index() as int] == v,
    ;

    /// The largest index that a version has belongs to a sub-variant of that
    /// version, and no sub-variant of the version has a larger one. Every
    /// family has had its first sub-variant from the first version on.
    proof fn lemma_max_variant_idx_for_version(version: ISAVersion)
        ensures
            Self::spec_max_variant_idx_for_version(version) < Self::spec_all_variants().len(),
            Self::spec_all_variants()[Self::spec_max_variant_idx_for_version(
                version,
            ) as int].spec_minimal_version().0 <= version.0,
            forall|i: int|
                0 <= i < Self::spec_all_variants().len() ==> ((
                #[trigger] Self::spec_all_variants()[i]).spec_minimal_version().0 <= version.0 <==> i
                    <= Self::spec_max_variant_idx_for_version(version)),
    ;

    fn all_variants() -> (r: Vec<Self>)
        ensures
            r@ == Self::spec_all_variants(),
    ;

    fn minimal_version(&self) -> (r: ISAVersion)
        ensures
            r == self.spec_minimal_version(),
    ;

    fn max_variant_idx_for_version(version: ISAVersion) -> (r: usize)
        ensures
            r == Self::spec_max_variant_idx_for_version(version),
    ;

    fn is_available_for_version(&self, version: ISAVersion) -> (r: bool)
        ensures
            r == (self.spec_minimal_version().0 <= version.0),
    {
        self.minimal_version().0 <= version.0
    }

    fn is_added_in_version(&self, version: ISAVersion) -> (r: bool)
        ensures
            r == (self.spec_minimal_version() == version),
    {
        self.minimal_version().0 == version.0
    }

    /// The sub-variants that `version` has, in the order of their indices.
    fn variants_for_version(version: ISAVersion) -> (r: Vec<Self>)
        ensures
            r@ == Self::spec_all_variants().filter(
                |el: Self| el.spec_minimal_version().0 <= version.0,
            ),
    {
        let all = Self::all_variants();
        let mut result: Vec<Self> = Vec::new();
        let mut i: usize = 0;
        proof {
            reveal(Seq::filter);
            assert(all@.take(0) =~= Seq::<Self>::empty());
        }
        while i < all.len()
            invariant
                i <= all.len(),
                result@ == all@.take(i as int).filter(
                    |el: Self| el.spec_minimal_version().0 <= version.0,
                ),
            decreases all.len() - i,
        {
            let el = all[i];
            proof {
                reveal(Seq::filter);
                assert(all@.take(i + 1).drop_last() =~= all@.take(i as int));
            }
            if el.is_available_for_version(version) {
                result.push(el);
            }
            i += 1;
        }
        proof {
            assert(all@.take(all.len() as int) =~= all@);
        }
        result
    }

    /// The sub-variants whose first version is `version`.
    fn variants_added_in_version(version: ISAVersion) -> (r: Vec<Self>)
        ensures
            r@ == Self::spec_all_variants().filter(
                |el: Self| el.spec_minimal_version() == version,
            ),
    {
        let all = Self::all_variants();
        let mut result: Vec<Self> = Vec::new();
        let mut i: usize = 0;
        proof {
            reveal(Seq::filter);
            assert(all@.take(0) =~= Seq::<Self>::empty());
        }
        while i < all.len()
            invariant
                i <= all.len(),
                result@ == all@.take(i as int).filter(
                    |el: Self| el.spec_minimal_version() == version,
                ),
            decreases all.len() - i,
        {
            let el = all[i];
            proof {
                reveal(Seq::filter);
                assert(all@.take(i + 1).drop_last() =~= all@.take(i as int));
            }
            if el.is_added_in_version(version) {
                result.push(el);
            }
            i += 1;
        }
        proof {
            assert(all@.take(all.len() as int) =~= all@);
        }
        result
    }

    fn variant_index(&self) -> (r: usize)
        ensures
            r == self.spec_variant_index(),
    ;

    /// The sub-variant with the given index, or `None` where `version` has no
    /// such sub-variant.
    fn from_variant_index_for_version(index: usize, version: &ISAVersion) -> (r: Option<Self>)
        ensures
            r == (if index < Self::spec_all_variants().len()
                && Self::spec_all_variants()[index as int].spec_minimal_version().0 <= version.0 {
                Some(Self::spec_all_variants()[index as int])
            } else {
                None
            }),
    ;

    fn ergs_price(&self) -> (r: u32)
        ensures
            r == self.spec_ergs_price(),
    ;
}

/// The data of one sub-variant of a family whose sub-variants all have the same
/// number of flags and of immediates.
pub open spec fn uniform_variant_data(
    idx: usize,
    num_non_exclusive_flags: usize,
    num_immedates: usize,
) -> OpcodeVariantData {
    OpcodeVariantData {
        variant_idx: idx,
        num_non_exclusive_flags: num_non_exclusive_flags,
        num_used_immediates: num_immedates,
    }
}

/// One entry for each index from `first` to `last`, both included, all with the
/// same number of flags and of immediates.
pub open spec fn spec_full_variants_product(
    first: usize,
    last: usize,
    num_non_exclusive_flags: usize,
    num_immedates: usize,
) -> Seq<OpcodeVariantData> {
    Seq::new(
        if first <= last {
            (last - first + 1) as nat
        } else {
            0
        },
        |i: int|
            uniform_variant_data((first + i) as usize, num_non_exclusive_flags, num_immedates),
    )
}

pub fn full_variants_product(
    first: usize,
    last: usize,
    num_non_exclusive_flags: usize,
    num_immedates: usize,
) -> (r: Vec<OpcodeVariantData>)
    ensures
        r@ == spec_full_variants_product(first, last, num_non_exclusive_flags, num_immedates),
{
    let mut result: Vec<OpcodeVariantData> = Vec::new();
    if first > last {
        return result;
    }
    let mut idx: usize = first;
    loop
        invariant_except_break
            result@ =~= Seq::new(
                (idx - first) as nat,
                |i: int|
                    uniform_variant_data(
                        (first + i) as usize,
                        num_non_exclusive_flags,
                        num_immedates,
                    ),
            ),
        invariant
            first <= idx <= last,
        ensures
            idx == last,
            result@ =~= Seq::new(
                (last - first + 1) as nat,
                |i: int|
                    uniform_variant_data(
                        (first + i) as usize,
                        num_non_exclusive_flags,
                        num_immedates,
                    ),
            ),
        decreases last - idx,
    {
        let descr = OpcodeVariantData {
            variant_idx: idx,
            num_non_exclusive_flags: num_non_exclusive_flags,
            num_used_immediates: num_immedates,
        };
        result.push(descr);
        if idx == last {
            break;
        }
        idx += 1;
    }
    result
}

} // verus!
