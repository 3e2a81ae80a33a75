//! No variant has two slots: the enumeration of a version runs through its
//! variants in a strictly ascending order.

use vstd::prelude::*;
use crate::definitions::add::AddOpcode;
use crate::definitions::all::Opcode;
use crate::definitions::binop::BinopOpcode;
use crate::definitions::context::ContextOpcode;
use crate::definitions::density::lemma_family_data;
use crate::definitions::div::DivOpcode;
use crate::definitions::enumeration::{
    destination_spellings, destinations_block, families_block, family_block, flag_block,
    opcode_block, source_spellings, sources_block, spec_all_opcode_prototypes,
    spec_all_variants_in_version, subvariant_block,
};
use crate::definitions::extension::{
    family_position, lemma_flag_block_entry, lemma_materialize_keeps_family,
};
use crate::definitions::far_call::FarCallOpcode;
use crate::definitions::invalid_opcode::InvalidOpcode;
use crate::definitions::jump::JumpOpcode;
use crate::definitions::log::LogOpcode;
use crate::definitions::mul::MulOpcode;
use crate::definitions::near_call::NearCallOpcode;
use crate::definitions::noop::NopOpcode;
use crate::definitions::opcode_trait::{
    ISAVersion, OpcodeVariantData, OpcodeVariantProps, Operand,
};
use crate::definitions::ptr::PtrOpcode;
use crate::definitions::ret::RetOpcode;
use crate::definitions::shift::ShiftOpcode;
use crate::definitions::sub::SubOpcode;
use crate::definitions::uma::UMAOpcode;
use crate::definitions::variant::{spec_semantically_equal, OpcodeVariant};
use crate::imm_mem_modifiers::RegOrImmFlags;

verus! {

/// The place of a spelling among the spellings of its class. The register
/// spelling of a register-or-immediate operand has the place of a register.
pub open spec fn operand_rank(operand: Operand) -> int {
    match operand {
        Operand::RegOnly => 0,
        Operand::RegOrImm(RegOrImmFlags::UseRegOnly) => 0,
        Operand::RegOrImm(RegOrImmFlags::UseImm16Only) => 1,
        Operand::Full(f) => f.spec_variant_index() as int,
    }
}

/// The place of a variant in the order of the enumeration: by family, by
/// sub-variant, by source, by destination, by flags. Variants that execute in
/// the same way have the same place.
pub open spec fn variant_rank(variant: OpcodeVariant) -> int {
    4096 * family_position(variant.opcode) + 256
        * variant.opcode.spec_materialize_subvariant_idx() + 32 * operand_rank(
        variant.src0_operand_type,
    ) + 4 * operand_rank(variant.dst0_operand_type) + (if variant.flags@[0] {
        2int
    } else {
        0int
    }) + (if variant.flags@[1] {
        1int
    } else {
        0int
    })
}

/// Whether the variants of a sequence ascend strictly.
pub open spec fn ascending(variants: Seq<OpcodeVariant>) -> bool {
    forall|i: int, j: int|
        0 <= i < j < variants.len() ==> variant_rank(#[trigger] variants[i]) < variant_rank(
            #[trigger] variants[j],
        )
}

/// Whether the spellings of a list ascend strictly.
pub open spec fn spellings_ascending(spellings: Seq<Operand>) -> bool {
    forall|i: int, j: int|
        0 <= i < j < spellings.len() ==> operand_rank(#[trigger] spellings[i]) < operand_rank(
            #[trigger] spellings[j],
        )
}

/// Variants that execute in the same way have the same place.
pub proof fn lemma_rank_respects_semantics(a: OpcodeVariant, b: OpcodeVariant)
    requires
        spec_semantically_equal(a, b),
    ensures
        variant_rank(a) == variant_rank(b),
{
}

/// The places of the parts of a variant are bounded.
pub proof fn lemma_rank_parts(variant: OpcodeVariant)
    ensures
        0 <= family_position(variant.opcode) < 16,
        0 <= variant.opcode.spec_materialize_subvariant_idx() < 10,
        0 <= operand_rank(variant.src0_operand_type) < 6,
        0 <= operand_rank(variant.dst0_operand_type) < 6,
{
    crate::tables::lemma_opcode_by_indices(variant.opcode, variant.opcode);
}

/// The lists of spellings ascend.
pub proof fn lemma_spellings_ascend(operands: Seq<Operand>)
    ensures
        spellings_ascending(source_spellings(operands)),
        spellings_ascending(destination_spellings(operands)),
{
}

/// Two ascending sequences of which the first lies below the second make an
/// ascending sequence.
pub proof fn lemma_ascending_concat(a: Seq<OpcodeVariant>, b: Seq<OpcodeVariant>)
    requires
        ascending(a),
        ascending(b),
        forall|i: int, j: int|
            0 <= i < a.len() && 0 <= j < b.len() ==> variant_rank(#[trigger] a[i]) < variant_rank(
                #[trigger] b[j],
            ),
    ensures
        ascending(a + b),
{
    let c = a + b;
    assert forall|i: int, j: int| 0 <= i < j < c.len() implies variant_rank(#[trigger] c[i])
        < variant_rank(#[trigger] c[j]) by {
        if j < a.len() {
            assert(c[i] == a[i] && c[j] == a[j]);
        } else if i < a.len() {
            assert(c[i] == a[i] && c[j] == b[j - a.len()]);
        } else {
            assert(c[i] == b[i - a.len()] && c[j] == b[j - a.len()]);
        }
    }
}

/// A flag block ascends.
pub proof fn lemma_flag_block_ascends(opcode: Opcode, src: Operand, dst: Operand, num_flags: usize)
    ensures
        ascending(flag_block(opcode, src, dst, num_flags)),
{
    let block = flag_block(opcode, src, dst, num_flags);
    assert forall|i: int, j: int| 0 <= i < j < block.len() implies variant_rank(
        #[trigger] block[i],
    ) < variant_rank(#[trigger] block[j]) by {
        lemma_flag_block_entry(opcode, src, dst, num_flags, i);
        lemma_flag_block_entry(opcode, src, dst, num_flags, j);
    }
}

/// A block of destinations ascends, and its variants have the opcode and the
/// source of the block and one of its first `n` destinations.
pub proof fn lemma_destinations_block_ascends(
    opcode: Opcode,
    src: Operand,
    dsts: Seq<Operand>,
    num_flags: usize,
    n: nat,
)
    requires
        n <= dsts.len(),
        spellings_ascending(dsts),
    ensures
        ascending(destinations_block(opcode, src, dsts, num_flags, n)),
        forall|k: int|
            0 <= k < destinations_block(opcode, src, dsts, num_flags, n).len() ==> {
                let e = #[trigger] destinations_block(opcode, src, dsts, num_flags, n)[k];
                &&& e.opcode == opcode
                &&& e.src0_operand_type == src
                &&& exists|t: int| 0 <= t < n && e.dst0_operand_type == dsts[t]
            },
    decreases n,
{
    if n > 0 {
        let before = destinations_block(opcode, src, dsts, num_flags, (n - 1) as nat);
        let added = flag_block(opcode, src, dsts[n - 1], num_flags);
        lemma_destinations_block_ascends(opcode, src, dsts, num_flags, (n - 1) as nat);
        lemma_flag_block_ascends(opcode, src, dsts[n - 1], num_flags);
        assert forall|i: int, j: int|
            0 <= i < before.len() && 0 <= j < added.len() implies variant_rank(
            #[trigger] before[i],
        ) < variant_rank(#[trigger] added[j]) by {
            lemma_flag_block_entry(opcode, src, dsts[n - 1], num_flags, j);
            let t = choose|t: int| 0 <= t < n - 1 && before[i].dst0_operand_type == dsts[t];
            assert(operand_rank(dsts[t]) < operand_rank(dsts[n - 1]));
        }
        lemma_ascending_concat(before, added);
        let block = destinations_block(opcode, src, dsts, num_flags, n);
        assert forall|k: int| 0 <= k < block.len() implies {
            let e = #[trigger] block[k];
            &&& e.opcode == opcode
            &&& e.src0_operand_type == src
            &&& exists|t: int| 0 <= t < n && e.dst0_operand_type == dsts[t]
        } by {
            if k < before.len() {
                assert(block[k] == before[k]);
                let t = choose|t: int| 0 <= t < n - 1 && before[k].dst0_operand_type == dsts[t];
                assert(0 <= t < n && block[k].dst0_operand_type == dsts[t]);
            } else {
                lemma_flag_block_entry(opcode, src, dsts[n - 1], num_flags, k - before.len());
                assert(block[k] == added[k - before.len()]);
                assert(0 <= n - 1 < n && block[k].dst0_operand_type == dsts[n - 1]);
            }
        }
    }
}

/// A block of sources ascends, and its variants have the opcode of the block
/// and one of its first `n` sources.
pub proof fn lemma_sources_block_ascends(
    opcode: Opcode,
    srcs: Seq<Operand>,
    dsts: Seq<Operand>,
    num_flags: usize,
    n: nat,
)
    requires
        n <= srcs.len(),
        spellings_ascending(srcs),
        spellings_ascending(dsts),
        forall|t: int| 0 <= t < dsts.len() ==> 0 <= operand_rank(#[trigger] dsts[t]) < 6,
    ensures
        ascending(sources_block(opcode, srcs, dsts, num_flags, n)),
        forall|k: int|
            0 <= k < sources_block(opcode, srcs, dsts, num_flags, n).len() ==> {
                let e = #[trigger] sources_block(opcode, srcs, dsts, num_flags, n)[k];
                &&& e.opcode == opcode
                &&& exists|t: int| 0 <= t < n && e.src0_operand_type == srcs[t]
            },
    decreases n,
{
    if n > 0 {
        let before = sources_block(opcode, srcs, dsts, num_flags, (n - 1) as nat);
        let added = destinations_block(opcode, srcs[n - 1], dsts, num_flags, dsts.len());
        lemma_sources_block_ascends(opcode, srcs, dsts, num_flags, (n - 1) as nat);
        lemma_destinations_block_ascends(opcode, srcs[n - 1], dsts, num_flags, dsts.len());
        assert forall|i: int, j: int|
            0 <= i < before.len() && 0 <= j < added.len() implies variant_rank(
            #[trigger] before[i],
        ) < variant_rank(#[trigger] added[j]) by {
            let t = choose|t: int| 0 <= t < n - 1 && before[i].src0_operand_type == srcs[t];
            assert(operand_rank(srcs[t]) < operand_rank(srcs[n - 1]));
            lemma_rank_parts(before[i]);
            let u = choose|u: int| 0 <= u < dsts.len() && added[j].dst0_operand_type == dsts[u];
            assert(0 <= operand_rank(dsts[u]) < 6);
        }
        lemma_ascending_concat(before, added);
        let block = sources_block(opcode, srcs, dsts, num_flags, n);
        assert forall|k: int| 0 <= k < block.len() implies {
            let e = #[trigger] block[k];
            &&& e.opcode == opcode
            &&& exists|t: int| 0 <= t < n && e.src0_operand_type == srcs[t]
        } by {
            if k < before.len() {
                assert(block[k] == before[k]);
                let t = choose|t: int| 0 <= t < n - 1 && before[k].src0_operand_type == srcs[t];
                assert(0 <= t < n && block[k].src0_operand_type == srcs[t]);
            } else {
                assert(block[k] == added[k - before.len()]);
                assert(0 <= n - 1 < n && block[k].src0_operand_type == srcs[n - 1]);
            }
        }
    }
}

/// The variants of an opcode ascend and have that opcode.
pub proof fn lemma_opcode_block_ascends(opcode: Opcode, version: ISAVersion, num_flags: usize)
    ensures
        ascending(opcode_block(opcode, version, num_flags)),
        forall|k: int|
            0 <= k < opcode_block(opcode, version, num_flags).len() ==> (
            #[trigger] opcode_block(opcode, version, num_flags)[k]).opcode == opcode,
{
    let srcs = source_spellings(opcode.spec_input_operands(version));
    let dsts = destination_spellings(opcode.spec_output_operands(version));
    lemma_spellings_ascend(opcode.spec_input_operands(version));
    lemma_spellings_ascend(opcode.spec_output_operands(version));
    assert forall|t: int| 0 <= t < dsts.len() implies 0 <= operand_rank(#[trigger] dsts[t])
        < 6 by {}
    lemma_sources_block_ascends(opcode, srcs, dsts, num_flags, srcs.len());
}

/// The opcode that a family materializes for an index has that index.
pub proof fn lemma_materialize_keeps_index(proto: Opcode, idx: usize, version: ISAVersion)
    requires
        proto.spec_materialize_subvariant_from_prototype(idx, version) is Some,
    ensures
        proto.spec_materialize_subvariant_from_prototype(
            idx,
            version,
        )->0.spec_materialize_subvariant_idx() == idx,
{
    InvalidOpcode::lemma_variants_are_indexed();
    NopOpcode::lemma_variants_are_indexed();
    AddOpcode::lemma_variants_are_indexed();
    SubOpcode::lemma_variants_are_indexed();
    MulOpcode::lemma_variants_are_indexed();
    DivOpcode::lemma_variants_are_indexed();
    JumpOpcode::lemma_variants_are_indexed();
    ContextOpcode::lemma_variants_are_indexed();
    ShiftOpcode::lemma_variants_are_indexed();
    BinopOpcode::lemma_variants_are_indexed();
    PtrOpcode::lemma_variants_are_indexed();
    NearCallOpcode::lemma_variants_are_indexed();
    LogOpcode::lemma_variants_are_indexed();
    FarCallOpcode::lemma_variants_are_indexed();
    RetOpcode::lemma_variants_are_indexed();
    UMAOpcode::lemma_variants_are_indexed();
}

/// The variants of a sub-variant ascend, belong to the family and have the
/// index of the sub-variant.
pub proof fn lemma_subvariant_block_ascends(
    proto: Opcode,
    version: ISAVersion,
    data: OpcodeVariantData,
)
    ensures
        ascending(subvariant_block(proto, version, data)),
        forall|k: int|
            0 <= k < subvariant_block(proto, version, data).len() ==> {
                let e = #[trigger] subvariant_block(proto, version, data)[k];
                &&& family_position(e.opcode) == family_position(proto)
                &&& e.opcode.spec_materialize_subvariant_idx() == data.variant_idx
            },
{
    let materialized = proto.spec_materialize_subvariant_from_prototype(
        data.variant_idx,
        version,
    );
    if materialized is Some {
        lemma_materialize_keeps_family(proto, data.variant_idx, version);
        lemma_materialize_keeps_index(proto, data.variant_idx, version);
        lemma_opcode_block_ascends(materialized->0, version, data.num_non_exclusive_flags);
    }
}

/// The variants of a family ascend, belong to the family and have the index of
/// one of its first `n` sub-variants.
pub proof fn lemma_family_block_ascends(proto: Opcode, version: ISAVersion, n: nat)
    requires
        n <= proto.spec_variants_data(version).len(),
    ensures
        ascending(family_block(proto, version, n)),
        forall|k: int|
            0 <= k < family_block(proto, version, n).len() ==> {
                let e = #[trigger] family_block(proto, version, n)[k];
                &&& family_position(e.opcode) == family_position(proto)
                &&& e.opcode.spec_materialize_subvariant_idx() < n
            },
    decreases n,
{
    if n > 0 {
        let before = family_block(proto, version, (n - 1) as nat);
        let data = proto.spec_variants_data(version)[n - 1];
        let added = subvariant_block(proto, version, data);
        lemma_family_block_ascends(proto, version, (n - 1) as nat);
        lemma_subvariant_block_ascends(proto, version, data);
        lemma_family_data(proto, version, n - 1);
        assert forall|i: int, j: int|
            0 <= i < before.len() && 0 <= j < added.len() implies variant_rank(
            #[trigger] before[i],
        ) < variant_rank(#[trigger] added[j]) by {
            lemma_rank_parts(before[i]);
            lemma_rank_parts(added[j]);
        }
        lemma_ascending_concat(before, added);
        let block = family_block(proto, version, n);
        assert forall|k: int| 0 <= k < block.len() implies {
            let e = #[trigger] block[k];
            &&& family_position(e.opcode) == family_position(proto)
            &&& e.opcode.spec_materialize_subvariant_idx() < n
        } by {
            if k < before.len() {
                assert(block[k] == before[k]);
            } else {
                assert(block[k] == added[k - before.len()]);
            }
        }
    }
}

/// The variants of the first `n` families ascend and belong to these families.
pub proof fn lemma_families_block_ascends(version: ISAVersion, n: nat)
    requires
        n <= spec_all_opcode_prototypes().len(),
    ensures
        ascending(families_block(version, n)),
        forall|k: int|
            0 <= k < families_block(version, n).len() ==> family_position(
                (#[trigger] families_block(version, n)[k]).opcode,
            ) < n,
    decreases n,
{
    if n > 0 {
        let before = families_block(version, (n - 1) as nat);
        let proto = spec_all_opcode_prototypes()[n - 1];
        let added = family_block(proto, version, proto.spec_variants_data(version).len());
        lemma_families_block_ascends(version, (n - 1) as nat);
        lemma_family_block_ascends(proto, version, proto.spec_variants_data(version).len());
        assert(family_position(proto) == n - 1);
        assert forall|i: int, j: int|
            0 <= i < before.len() && 0 <= j < added.len() implies variant_rank(
            #[trigger] before[i],
        ) < variant_rank(#[trigger] added[j]) by {
            lemma_rank_parts(before[i]);
            lemma_rank_parts(added[j]);
        }
        lemma_ascending_concat(before, added);
        let block = families_block(version, n);
        assert forall|k: int| 0 <= k < block.len() implies family_position(
            (#[trigger] block[k]).opcode,
        ) < n by {
            if k < before.len() {
                assert(block[k] == before[k]);
            } else {
                assert(block[k] == added[k - before.len()]);
            }
        }
    }
}

/// The enumeration of a version ascends: no variant occurs twice in it.
pub proof fn lemma_enumeration_ascends(version: ISAVersion)
    ensures
        ascending(spec_all_variants_in_version(version)),
{
    lemma_families_block_ascends(version, 16);
}

} // verus!
