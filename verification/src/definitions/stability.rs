//! What holds of every synthesized table: its shape, and the stability of its
//! indices from one version to the next.

use vstd::prelude::*;
use vstd::arithmetic::power2::pow2;
use crate::definitions::all::Opcode;
use crate::definitions::density::lemma_enumeration_matches_density;
use crate::definitions::enumeration::{
    destinations_block, families_block, family_block, flag_block, opcode_block, sources_block,
    spec_all_opcode_prototypes, spec_all_variants_in_version, subvariant_block,
};
use crate::definitions::invalid_opcode::InvalidOpcode;
use crate::definitions::opcode_trait::{spec_all_isa_versions, ISAVersion, Operand};
use crate::definitions::synthesis::{
    covers, extended_table, lemma_extension_is_stable, merged_difference, merged_in_place,
    spec_synthesize_opcode_decoding_tables, synthesis_prefix, SynthesisError,
};
use crate::definitions::variant::{
    spec_invalid_opcode_variant, spec_semantically_equal, OpcodeVariant,
};

verus! {

/// The variants of fewer families are a prefix of the variants of more.
pub proof fn lemma_families_block_prefix(version: ISAVersion, n: nat, m: nat)
    requires
        n <= m,
    ensures
        families_block(version, n).len() <= families_block(version, m).len(),
        families_block(version, m).take(families_block(version, n).len() as int)
            == families_block(version, n),
    decreases m,
{
    if n < m {
        lemma_families_block_prefix(version, n, (m - 1) as nat);
        let less = families_block(version, (m - 1) as nat);
        assert(families_block(version, m).take(families_block(version, n).len() as int)
            =~= less.take(families_block(version, n).len() as int));
    } else {
        assert(families_block(version, m).take(families_block(version, n).len() as int)
            =~= families_block(version, n));
    }
}

/// The first variant of every version is the canonical invalid variant.
pub proof fn lemma_first_variant_is_invalid(version: ISAVersion)
    ensures
        spec_all_variants_in_version(version).len() > 0,
        spec_all_variants_in_version(version)[0] == spec_invalid_opcode_variant(),
{
    let proto = spec_all_opcode_prototypes()[0];
    let invalid = Opcode::Invalid(InvalidOpcode);
    assert(proto == invalid);
    assert(proto.spec_variants_data(version).len() == 1);
    assert(proto.spec_variants_data(version)[0].num_non_exclusive_flags == 0);
    assert(proto.spec_materialize_subvariant_from_prototype(0, version) == Some(invalid));
    let block = flag_block(invalid, Operand::RegOnly, Operand::RegOnly, 0);
    assert(block =~= seq![spec_invalid_opcode_variant()]);
    let srcs = seq![Operand::RegOnly];
    reveal_with_fuel(destinations_block, 2);
    reveal_with_fuel(sources_block, 2);
    assert(destinations_block(invalid, Operand::RegOnly, srcs, 0, 1) =~= block);
    assert(sources_block(invalid, srcs, srcs, 0, 1) =~= block);
    assert(opcode_block(invalid, version, 0) =~= block);
    assert(subvariant_block(proto, version, proto.spec_variants_data(version)[0]) =~= block);
    reveal_with_fuel(family_block, 2);
    assert(family_block(proto, version, 1) =~= block);
    reveal_with_fuel(families_block, 2);
    assert(families_block(version, 1) =~= block);
    lemma_families_block_prefix(version, 1, 16);
    assert(families_block(version, 16).take(1)[0] == block[0]);
}

/// Nothing can be merged into an empty table: all that is new is appended.
pub proof fn lemma_merge_into_empty(new: Seq<OpcodeVariant>, n: nat)
    requires
        n <= new.len(),
    ensures
        merged_in_place(Seq::empty(), new, n) == Seq::<OpcodeVariant>::empty(),
        merged_difference(Seq::empty(), new, n) == new.take(n as int),
    decreases n,
{
    let empty = Seq::<OpcodeVariant>::empty();
    if n > 0 {
        lemma_merge_into_empty(new, (n - 1) as nat);
        assert(merged_in_place(empty, new, n) =~= empty);
        assert(merged_difference(empty, new, n) =~= new.take(n as int));
    } else {
        assert(merged_difference(empty, new, n) =~= new.take(n as int));
    }
}

/// The table of the first version is the enumeration of its variants.
pub proof fn lemma_first_version_table(up_to_version: ISAVersion)
    ensures
        synthesis_prefix(up_to_version, 1) == Ok::<Seq<OpcodeVariant>, SynthesisError>(
            spec_all_variants_in_version(ISAVersion(0)),
        ),
{
    let version = spec_all_isa_versions()[0];
    assert(version == ISAVersion(0));
    let new = spec_all_variants_in_version(version);
    let empty = Seq::<OpcodeVariant>::empty();
    lemma_merge_into_empty(new, new.len());
    assert(new.take(new.len() as int) =~= new);
    assert(extended_table(empty, new) =~= new);
    lemma_enumeration_matches_density(version);
    assert(covers(new, empty));
    reveal_with_fuel(synthesis_prefix, 2);
}

/// The shape of a synthesized table: it has one slot for each value of the
/// index field, the first slot holds the invalid variant, the variants of the
/// versions come first and unchanged, and every slot behind them holds the
/// invalid variant.
pub proof fn lemma_table_shape(table_bits: usize, up_to_version: ISAVersion)
    requires
        spec_synthesize_opcode_decoding_tables(table_bits, up_to_version) is Ok,
    ensures
        ({
            let table = spec_synthesize_opcode_decoding_tables(table_bits, up_to_version)->Ok_0;
            let variants = synthesis_prefix(up_to_version, 2)->Ok_0;
            &&& table.len() == pow2(table_bits as nat)
            &&& table[0] == spec_invalid_opcode_variant()
            &&& 0 < variants.len() <= table.len()
            &&& forall|i: int| 0 <= i < variants.len() ==> #[trigger] table[i] == variants[i]
            &&& forall|i: int|
                variants.len() <= i < table.len() ==> #[trigger] table[i]
                    == spec_invalid_opcode_variant()
        }),
{
}

/// How many slots of the table of a version hold variants of the version: the
/// slots behind them are padding.
pub open spec fn spec_num_non_padding_slots(up_to_version: ISAVersion) -> nat {
    match synthesis_prefix(up_to_version, spec_all_isa_versions().len()) {
        Ok(variants) => variants.len(),
        Err(_) => 0,
    }
}

/// The tables of two versions agree on which versions they were folded from,
/// if both versions are at or behind the last registered one.
proof fn lemma_same_fold(v0: ISAVersion, v1: ISAVersion, n: nat)
    requires
        n <= 2,
        forall|k: int|
            0 <= k < n ==> ((#[trigger] spec_all_isa_versions()[k]).0 > v0.0
                <==> spec_all_isa_versions()[k].0 > v1.0),
    ensures
        synthesis_prefix(v0, n) == synthesis_prefix(v1, n),
    decreases n,
{
    if n > 0 {
        lemma_same_fold(v0, v1, (n - 1) as nat);
        assert(spec_all_isa_versions()[n - 1].0 > v0.0 <==> spec_all_isa_versions()[n - 1].0
            > v1.0);
    }
}

/// Index stability across versions: a slot that holds a variant of an earlier
/// version holds, in the table of every later version, a variant that executes
/// in the same way. Only the spelling of the variant may have changed.
pub proof fn lemma_tables_are_monotonic(
    bits0: usize,
    v0: ISAVersion,
    bits1: usize,
    v1: ISAVersion,
)
    requires
        v0.0 <= v1.0,
        spec_synthesize_opcode_decoding_tables(bits0, v0) is Ok,
        spec_synthesize_opcode_decoding_tables(bits1, v1) is Ok,
    ensures
        spec_num_non_padding_slots(v0) <= spec_num_non_padding_slots(v1),
        forall|i: int|
            0 <= i < spec_num_non_padding_slots(v0) ==> spec_semantically_equal(
                #[trigger] spec_synthesize_opcode_decoding_tables(bits0, v0)->Ok_0[i],
                spec_synthesize_opcode_decoding_tables(bits1, v1)->Ok_0[i],
            ),
{
    let t0 = spec_synthesize_opcode_decoding_tables(bits0, v0)->Ok_0;
    let t1 = spec_synthesize_opcode_decoding_tables(bits1, v1)->Ok_0;
    let a0 = synthesis_prefix(v0, 2)->Ok_0;
    let a1 = synthesis_prefix(v1, 2)->Ok_0;
    lemma_table_shape(bits0, v0);
    lemma_table_shape(bits1, v1);
    let versions = spec_all_isa_versions();
    assert(versions[0] == ISAVersion(0) && versions[1] == ISAVersion(1));
    if v0.0 >= 1 || v1.0 == 0 {
        lemma_same_fold(v0, v1, 2);
        assert(a0 == a1);
    } else {
        lemma_same_fold(v0, v1, 1);
        let first = synthesis_prefix(v0, 1);
        assert(synthesis_prefix(v1, 1) == first);
        reveal_with_fuel(synthesis_prefix, 2);
        assert(first is Ok);
        assert(a0 == first->Ok_0);
        let new = spec_all_variants_in_version(versions[1]);
        assert(a1 == extended_table(a0, new));
        lemma_extension_is_stable(a0, new);
    }
}

} // verus!
