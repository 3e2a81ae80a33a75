//! What the table holds: every variant of the version, each in one slot only.

use vstd::prelude::*;
use crate::definitions::all::Opcode;
use crate::definitions::density::lemma_family_data;
use crate::definitions::distinct::{
    ascending, lemma_enumeration_ascends, lemma_rank_respects_semantics, variant_rank,
};
use crate::definitions::enumeration::{
    destination_spellings, destinations_block, families_block, family_block, flag_block,
    opcode_block, source_spellings, sources_block, spec_all_opcode_prototypes,
    spec_all_variants_in_version, subvariant_block,
};
use crate::definitions::extension::{family_position, lemma_synthesis_succeeds, well_spelled};
use crate::definitions::noop::NopOpcode;
use crate::definitions::opcode_trait::{ISAVersion, OpcodeVariantProps, Operand};
use crate::definitions::ret::RetOpcode;
use crate::definitions::stability::lemma_table_shape;
use crate::definitions::synthesis::{
    extended_table, find_equivalent, lemma_find_equivalent, lemma_merged_in_place,
    merged_difference, merged_in_place, spec_synthesize_opcode_decoding_tables, synthesis_prefix,
};
use crate::definitions::variant::{
    lemma_variant_parts, spec_invalid_opcode_variant, spec_semantically_equal, variant_of,
    OpcodeVariant,
};
use crate::tables::{
    has_ambiguous_slot, spec_nop_opcode_variant, spec_panic_opcode_variant, spec_tables_outcome,
};
use crate::OPCODES_TABLE_WIDTH;

verus! {

/// Whether a sub-variant with so many flags has variants with these flags set.
pub open spec fn flags_allowed(flag0: bool, flag1: bool, num_flags: usize) -> bool {
    (num_flags >= 1 || !flag0) && (num_flags >= 2 || !flag1)
}

/// Whether `version` has the variant: it has the opcode, the source and the
/// destination are spellings that the opcode has, and no flag is set that the
/// opcode lacks.
pub open spec fn is_variant_of_version(variant: OpcodeVariant, version: ISAVersion) -> bool {
    let opcode = variant.opcode;
    let idx = opcode.spec_materialize_subvariant_idx();
    &&& idx < opcode.spec_variants_data(version).len()
    &&& opcode.spec_materialize_subvariant_from_prototype(idx, version) == Some(opcode)
    &&& well_spelled(variant, version)
    &&& flags_allowed(
        variant.flags@[0],
        variant.flags@[1],
        opcode.spec_variants_data(version)[idx as int].num_non_exclusive_flags,
    )
}

/// A sequence holds what one of its two parts holds.
pub proof fn lemma_concat_contains(a: Seq<OpcodeVariant>, b: Seq<OpcodeVariant>, x: OpcodeVariant)
    requires
        a.contains(x) || b.contains(x),
    ensures
        (a + b).contains(x),
{
    if a.contains(x) {
        let i = choose|i: int| 0 <= i < a.len() && a[i] == x;
        assert((a + b)[i] == x);
    } else {
        let i = choose|i: int| 0 <= i < b.len() && b[i] == x;
        assert((a + b)[a.len() + i] == x);
    }
}

/// A flag block holds every setting of the flags that the sub-variant has.
pub proof fn lemma_flag_block_contains(
    opcode: Opcode,
    src: Operand,
    dst: Operand,
    num_flags: usize,
    flag0: bool,
    flag1: bool,
)
    requires
        flags_allowed(flag0, flag1, num_flags),
    ensures
        flag_block(opcode, src, dst, num_flags).contains(
            variant_of(opcode, src, dst, flag0, flag1),
        ),
{
    let block = flag_block(opcode, src, dst, num_flags);
    let x = variant_of(opcode, src, dst, flag0, flag1);
    if num_flags == 0 {
        assert(block[0] == x);
    } else if num_flags == 1 {
        if flag0 {
            assert(block[1] == x);
        } else {
            assert(block[0] == x);
        }
    } else {
        if flag0 {
            if flag1 {
                assert(block[3] == x);
            } else {
                assert(block[2] == x);
            }
        } else {
            if flag1 {
                assert(block[1] == x);
            } else {
                assert(block[0] == x);
            }
        }
    }
}

/// A block of destinations holds the variants on each of its destinations.
pub proof fn lemma_destinations_block_contains(
    opcode: Opcode,
    src: Operand,
    dsts: Seq<Operand>,
    num_flags: usize,
    n: nat,
    t: int,
    flag0: bool,
    flag1: bool,
)
    requires
        0 <= t < n <= dsts.len(),
        flags_allowed(flag0, flag1, num_flags),
    ensures
        destinations_block(opcode, src, dsts, num_flags, n).contains(
            variant_of(opcode, src, dsts[t], flag0, flag1),
        ),
    decreases n,
{
    let x = variant_of(opcode, src, dsts[t], flag0, flag1);
    let before = destinations_block(opcode, src, dsts, num_flags, (n - 1) as nat);
    let added = flag_block(opcode, src, dsts[n - 1], num_flags);
    if t < n - 1 {
        lemma_destinations_block_contains(
            opcode,
            src,
            dsts,
            num_flags,
            (n - 1) as nat,
            t,
            flag0,
            flag1,
        );
    } else {
        lemma_flag_block_contains(opcode, src, dsts[n - 1], num_flags, flag0, flag1);
    }
    lemma_concat_contains(before, added, x);
}

/// A block of sources holds the variants on each of its sources and each
/// destination.
pub proof fn lemma_sources_block_contains(
    opcode: Opcode,
    srcs: Seq<Operand>,
    dsts: Seq<Operand>,
    num_flags: usize,
    n: nat,
    t: int,
    u: int,
    flag0: bool,
    flag1: bool,
)
    requires
        0 <= t < n <= srcs.len(),
        0 <= u < dsts.len(),
        flags_allowed(flag0, flag1, num_flags),
    ensures
        sources_block(opcode, srcs, dsts, num_flags, n).contains(
            variant_of(opcode, srcs[t], dsts[u], flag0, flag1),
        ),
    decreases n,
{
    let x = variant_of(opcode, srcs[t], dsts[u], flag0, flag1);
    let before = sources_block(opcode, srcs, dsts, num_flags, (n - 1) as nat);
    let added = destinations_block(opcode, srcs[n - 1], dsts, num_flags, dsts.len());
    if t < n - 1 {
        lemma_sources_block_contains(
            opcode,
            srcs,
            dsts,
            num_flags,
            (n - 1) as nat,
            t,
            u,
            flag0,
            flag1,
        );
    } else {
        lemma_destinations_block_contains(
            opcode,
            srcs[n - 1],
            dsts,
            num_flags,
            dsts.len(),
            u,
            flag0,
            flag1,
        );
    }
    lemma_concat_contains(before, added, x);
}

/// The block of a family holds the block of each of its first `n`
/// sub-variants.
pub proof fn lemma_family_block_contains(
    proto: Opcode,
    version: ISAVersion,
    n: nat,
    t: int,
    x: OpcodeVariant,
)
    requires
        0 <= t < n <= proto.spec_variants_data(version).len(),
        subvariant_block(proto, version, proto.spec_variants_data(version)[t]).contains(x),
    ensures
        family_block(proto, version, n).contains(x),
    decreases n,
{
    let before = family_block(proto, version, (n - 1) as nat);
    let data = proto.spec_variants_data(version);
    let added = subvariant_block(proto, version, data[n - 1]);
    assert(family_block(proto, version, n) == before + added);
    if t < n - 1 {
        lemma_family_block_contains(proto, version, (n - 1) as nat, t, x);
        assert(before.contains(x));
    } else {
        assert(t == n - 1);
        assert(added.contains(x));
    }
    lemma_concat_contains(before, added, x);
}

/// The block of the first `n` families holds the block of each of them.
pub proof fn lemma_families_block_contains(version: ISAVersion, n: nat, k: int, x: OpcodeVariant)
    requires
        0 <= k < n <= spec_all_opcode_prototypes().len(),
        family_block(
            spec_all_opcode_prototypes()[k],
            version,
            spec_all_opcode_prototypes()[k].spec_variants_data(version).len(),
        ).contains(x),
    ensures
        families_block(version, n).contains(x),
    decreases n,
{
    let before = families_block(version, (n - 1) as nat);
    let proto = spec_all_opcode_prototypes()[n - 1];
    let added = family_block(proto, version, proto.spec_variants_data(version).len());
    if k < n - 1 {
        lemma_families_block_contains(version, (n - 1) as nat, k, x);
    }
    lemma_concat_contains(before, added, x);
}

/// What is asked of the opcode that stands for a family is asked of the
/// family: every opcode of the family answers as it does.
pub proof fn lemma_family_speaks_with_one_voice(opcode: Opcode, version: ISAVersion, idx: usize)
    ensures
        family_position(opcode) < 16,
        spec_all_opcode_prototypes()[family_position(opcode) as int].spec_variants_data(version)
            == opcode.spec_variants_data(version),
        spec_all_opcode_prototypes()[family_position(
            opcode,
        ) as int].spec_materialize_subvariant_from_prototype(idx, version)
            == opcode.spec_materialize_subvariant_from_prototype(idx, version),
{
}

/// The enumeration of a version holds every variant that the version has.
pub proof fn lemma_enumeration_is_complete(variant: OpcodeVariant, version: ISAVersion)
    requires
        is_variant_of_version(variant, version),
    ensures
        spec_all_variants_in_version(version).contains(variant),
{
    let opcode = variant.opcode;
    let idx = opcode.spec_materialize_subvariant_idx();
    let k = family_position(opcode) as int;
    let proto = spec_all_opcode_prototypes()[k];
    lemma_family_speaks_with_one_voice(opcode, version, idx);
    lemma_family_data(proto, version, idx as int);
    let data = proto.spec_variants_data(version)[idx as int];
    let srcs = source_spellings(opcode.spec_input_operands(version));
    let dsts = destination_spellings(opcode.spec_output_operands(version));
    let t = choose|t: int| 0 <= t < srcs.len() && srcs[t] == variant.src0_operand_type;
    let u = choose|u: int| 0 <= u < dsts.len() && dsts[u] == variant.dst0_operand_type;
    lemma_variant_parts(variant);
    lemma_sources_block_contains(
        opcode,
        srcs,
        dsts,
        data.num_non_exclusive_flags,
        srcs.len(),
        t,
        u,
        variant.flags@[0],
        variant.flags@[1],
    );
    assert(subvariant_block(proto, version, data) == opcode_block(
        opcode,
        version,
        data.num_non_exclusive_flags,
    ));
    lemma_family_block_contains(
        proto,
        version,
        proto.spec_variants_data(version).len(),
        idx as int,
        variant,
    );
    lemma_families_block_contains(version, 16, k, variant);
}

/// Every version has the `nop` variant and the panic variant.
pub proof fn lemma_derived_variants_exist(version: ISAVersion)
    ensures
        spec_all_variants_in_version(version).contains(spec_nop_opcode_variant()),
        spec_all_variants_in_version(version).contains(spec_panic_opcode_variant()),
{
    let nop = spec_nop_opcode_variant();
    let nop_sources = source_spellings(nop.opcode.spec_input_operands(version));
    let nop_destinations = destination_spellings(nop.opcode.spec_output_operands(version));
    assert(nop_sources[0] == nop.src0_operand_type);
    assert(nop_destinations[0] == nop.dst0_operand_type);
    assert(NopOpcode::spec_all_variants()[0] == NopOpcode);
    assert(is_variant_of_version(nop, version));
    lemma_enumeration_is_complete(nop, version);
    let panic = spec_panic_opcode_variant();
    let panic_sources = source_spellings(panic.opcode.spec_input_operands(version));
    let panic_destinations = destination_spellings(panic.opcode.spec_output_operands(version));
    assert(panic_sources[0] == panic.src0_operand_type);
    assert(panic_destinations[0] == panic.dst0_operand_type);
    assert(RetOpcode::spec_all_variants()[2] == RetOpcode::Panic);
    assert(panic.opcode.spec_variants_data(version)[2].num_non_exclusive_flags == 1);
    assert(is_variant_of_version(panic, version));
    lemma_enumeration_is_complete(panic, version);
}

/// Every variant of a flag block has the opcode and the spellings of the block
/// and no flag that the sub-variant lacks.
pub proof fn lemma_flag_block_is_sound(
    opcode: Opcode,
    src: Operand,
    dst: Operand,
    num_flags: usize,
    k: int,
)
    requires
        0 <= k < flag_block(opcode, src, dst, num_flags).len(),
    ensures
        ({
            let e = flag_block(opcode, src, dst, num_flags)[k];
            &&& e.opcode == opcode
            &&& e.src0_operand_type == src
            &&& e.dst0_operand_type == dst
            &&& flags_allowed(e.flags@[0], e.flags@[1], num_flags)
        }),
{
}

/// Every variant of a block of destinations has the opcode and the source of
/// the block, one of its destinations and no flag that the sub-variant lacks.
pub proof fn lemma_destinations_block_is_sound(
    opcode: Opcode,
    src: Operand,
    dsts: Seq<Operand>,
    num_flags: usize,
    n: nat,
    k: int,
)
    requires
        n <= dsts.len(),
        0 <= k < destinations_block(opcode, src, dsts, num_flags, n).len(),
    ensures
        ({
            let e = destinations_block(opcode, src, dsts, num_flags, n)[k];
            &&& e.opcode == opcode
            &&& e.src0_operand_type == src
            &&& dsts.contains(e.dst0_operand_type)
            &&& flags_allowed(e.flags@[0], e.flags@[1], num_flags)
        }),
    decreases n,
{
    if n > 0 {
        let before = destinations_block(opcode, src, dsts, num_flags, (n - 1) as nat);
        if k < before.len() {
            lemma_destinations_block_is_sound(opcode, src, dsts, num_flags, (n - 1) as nat, k);
        } else {
            lemma_flag_block_is_sound(opcode, src, dsts[n - 1], num_flags, k - before.len());
        }
    }
}

/// Every variant of a block of sources has the opcode of the block, one of its
/// sources, one of its destinations and no flag that the sub-variant lacks.
pub proof fn lemma_sources_block_is_sound(
    opcode: Opcode,
    srcs: Seq<Operand>,
    dsts: Seq<Operand>,
    num_flags: usize,
    n: nat,
    k: int,
)
    requires
        n <= srcs.len(),
        0 <= k < sources_block(opcode, srcs, dsts, num_flags, n).len(),
    ensures
        ({
            let e = sources_block(opcode, srcs, dsts, num_flags, n)[k];
            &&& e.opcode == opcode
            &&& srcs.contains(e.src0_operand_type)
            &&& dsts.contains(e.dst0_operand_type)
            &&& flags_allowed(e.flags@[0], e.flags@[1], num_flags)
        }),
    decreases n,
{
    if n > 0 {
        let before = sources_block(opcode, srcs, dsts, num_flags, (n - 1) as nat);
        if k < before.len() {
            lemma_sources_block_is_sound(opcode, srcs, dsts, num_flags, (n - 1) as nat, k);
        } else {
            lemma_destinations_block_is_sound(
                opcode,
                srcs[n - 1],
                dsts,
                num_flags,
                dsts.len(),
                k - before.len(),
            );
        }
    }
}

/// Every variant of a sub-variant of a family is a variant of the version.
pub proof fn lemma_subvariant_block_is_sound(
    proto: Opcode,
    version: ISAVersion,
    t: int,
    k: int,
)
    requires
        0 <= t < proto.spec_variants_data(version).len(),
        0 <= k < subvariant_block(proto, version, proto.spec_variants_data(version)[t]).len(),
    ensures
        is_variant_of_version(
            subvariant_block(proto, version, proto.spec_variants_data(version)[t])[k],
            version,
        ),
{
    let data = proto.spec_variants_data(version)[t];
    lemma_family_data(proto, version, t);
    let opcode = proto.spec_materialize_subvariant_from_prototype(data.variant_idx, version)->0;
    crate::definitions::distinct::lemma_materialize_keeps_index(proto, data.variant_idx, version);
    crate::definitions::extension::lemma_materialize_keeps_family(
        proto,
        data.variant_idx,
        version,
    );
    lemma_family_speaks_with_one_voice(proto, version, data.variant_idx);
    lemma_family_speaks_with_one_voice(opcode, version, data.variant_idx);
    lemma_sources_block_is_sound(
        opcode,
        source_spellings(opcode.spec_input_operands(version)),
        destination_spellings(opcode.spec_output_operands(version)),
        data.num_non_exclusive_flags,
        source_spellings(opcode.spec_input_operands(version)).len(),
        k,
    );
}

/// Every variant of a family is a variant of the version.
pub proof fn lemma_family_block_is_sound(proto: Opcode, version: ISAVersion, n: nat, k: int)
    requires
        n <= proto.spec_variants_data(version).len(),
        0 <= k < family_block(proto, version, n).len(),
    ensures
        is_variant_of_version(family_block(proto, version, n)[k], version),
    decreases n,
{
    if n > 0 {
        let before = family_block(proto, version, (n - 1) as nat);
        if k < before.len() {
            lemma_family_block_is_sound(proto, version, (n - 1) as nat, k);
        } else {
            lemma_subvariant_block_is_sound(proto, version, n - 1, k - before.len());
        }
    }
}

/// Every variant of the first `n` families is a variant of the version.
pub proof fn lemma_families_block_is_sound(version: ISAVersion, n: nat, k: int)
    requires
        n <= spec_all_opcode_prototypes().len(),
        0 <= k < families_block(version, n).len(),
    ensures
        is_variant_of_version(families_block(version, n)[k], version),
    decreases n,
{
    if n > 0 {
        let before = families_block(version, (n - 1) as nat);
        if k < before.len() {
            lemma_families_block_is_sound(version, (n - 1) as nat, k);
        } else {
            let proto = spec_all_opcode_prototypes()[n - 1];
            lemma_family_block_is_sound(
                proto,
                version,
                proto.spec_variants_data(version).len(),
                k - before.len(),
            );
        }
    }
}

/// The enumeration of a version holds the variants of the version and nothing
/// else, each once.
pub proof fn lemma_enumeration_content(version: ISAVersion, variant: OpcodeVariant)
    ensures
        spec_all_variants_in_version(version).contains(variant) <==> is_variant_of_version(
            variant,
            version,
        ),
        ascending(spec_all_variants_in_version(version)),
{
    let table = spec_all_variants_in_version(version);
    if table.contains(variant) {
        let k = choose|k: int| 0 <= k < table.len() && table[k] == variant;
        lemma_families_block_is_sound(version, 16, k);
    }
    if is_variant_of_version(variant, version) {
        lemma_enumeration_is_complete(variant, version);
    }
    lemma_enumeration_ascends(version);
}

/// Whether the variant of `new` at index `n` finds no slot to take when it is
/// merged, and is appended.
pub open spec fn is_appended(old: Seq<OpcodeVariant>, new: Seq<OpcodeVariant>, n: nat) -> bool {
    !(find_equivalent(merged_in_place(old, new, n), new[n as int], 0) < old.len())
}

/// The index in `new` of the variant that a merge of the first `n` variants of
/// `new` appends at place `a`.
pub open spec fn difference_origin(
    old: Seq<OpcodeVariant>,
    new: Seq<OpcodeVariant>,
    n: nat,
    a: int,
) -> int
    decreases n,
{
    if n == 0 {
        0
    } else if is_appended(old, new, (n - 1) as nat) && a == merged_difference(
        old,
        new,
        (n - 1) as nat,
    ).len() {
        n - 1
    } else {
        difference_origin(old, new, (n - 1) as nat, a)
    }
}

/// What a merge appends are variants of `new`, in the order of `new`.
pub proof fn lemma_difference_origin(
    old: Seq<OpcodeVariant>,
    new: Seq<OpcodeVariant>,
    n: nat,
    a: int,
    b: int,
)
    requires
        n <= new.len(),
        0 <= a <= b < merged_difference(old, new, n).len(),
    ensures
        0 <= difference_origin(old, new, n, a) < n,
        merged_difference(old, new, n)[a] == new[difference_origin(old, new, n, a)],
        is_appended(old, new, difference_origin(old, new, n, a) as nat),
        a < b ==> difference_origin(old, new, n, a) < difference_origin(old, new, n, b),
    decreases n,
{
    if n > 0 {
        let before = merged_difference(old, new, (n - 1) as nat);
        if is_appended(old, new, (n - 1) as nat) {
            if b < before.len() {
                lemma_difference_origin(old, new, (n - 1) as nat, a, b);
            } else if a < before.len() {
                lemma_difference_origin(old, new, (n - 1) as nat, a, a);
            }
        } else {
            lemma_difference_origin(old, new, (n - 1) as nat, a, b);
        }
    }
}

/// A table that ascends and is extended by variants that ascend holds no
/// variant twice.
pub proof fn lemma_extended_table_is_distinct(old: Seq<OpcodeVariant>, new: Seq<OpcodeVariant>)
    requires
        ascending(old),
        ascending(new),
    ensures
        forall|i: int, j: int|
            0 <= i < j < extended_table(old, new).len() ==> #[trigger] extended_table(old, new)[i]
                != #[trigger] extended_table(old, new)[j],
{
    let n = new.len();
    let merged = merged_in_place(old, new, n);
    let appended = merged_difference(old, new, n);
    let table = extended_table(old, new);
    lemma_merged_in_place(old, new, n);
    assert forall|i: int, j: int| 0 <= i < j < table.len() implies #[trigger] table[i]
        != #[trigger] table[j] by {
        if j < merged.len() {
            lemma_rank_respects_semantics(old[i], merged[i]);
            lemma_rank_respects_semantics(old[j], merged[j]);
            assert(variant_rank(old[i]) < variant_rank(old[j]));
        } else if i >= merged.len() {
            let a = i - merged.len();
            let b = j - merged.len();
            lemma_difference_origin(old, new, n, a, b);
            lemma_difference_origin(old, new, n, b, b);
            let from_a = difference_origin(old, new, n, a);
            let from_b = difference_origin(old, new, n, b);
            assert(variant_rank(new[from_a]) < variant_rank(new[from_b]));
        } else {
            let b = j - merged.len();
            lemma_difference_origin(old, new, n, b, b);
            let from_b = difference_origin(old, new, n, b);
            if table[i] == table[j] {
                // The slot would have been found when the variant was merged.
                let then = merged_in_place(old, new, from_b as nat);
                lemma_merged_in_place(old, new, from_b as nat);
                lemma_find_equivalent(then, new[from_b], 0);
                lemma_rank_respects_semantics(old[i], merged[i]);
                lemma_rank_respects_semantics(old[i], then[i]);
                assert(spec_semantically_equal(old[i], merged[i]));
                assert(spec_semantically_equal(old[i], then[i]));
                assert(spec_semantically_equal(new[from_b], then[i]));
                assert(false);
            }
        }
    }
}

/// An extended table holds every variant of the version that extended it.
pub proof fn lemma_extended_table_holds_new(
    old: Seq<OpcodeVariant>,
    new: Seq<OpcodeVariant>,
    n: nat,
    j: int,
)
    requires
        ascending(new),
        0 <= j < n <= new.len(),
    ensures
        (merged_in_place(old, new, n) + merged_difference(old, new, n)).contains(new[j]),
    decreases n,
{
    let before = merged_in_place(old, new, (n - 1) as nat);
    let appended_before = merged_difference(old, new, (n - 1) as nat);
    let after = merged_in_place(old, new, n);
    let appended = merged_difference(old, new, n);
    let candidate = new[n - 1];
    lemma_merged_in_place(old, new, (n - 1) as nat);
    lemma_merged_in_place(old, new, n);
    lemma_find_equivalent(before, candidate, 0);
    let found = find_equivalent(before, candidate, 0);
    if j == n - 1 {
        if found < old.len() {
            assert((after + appended)[found] == new[j]);
        } else {
            assert((after + appended)[after.len() + appended.len() - 1] == new[j]);
        }
    } else {
        lemma_extended_table_holds_new(old, new, (n - 1) as nat, j);
        let x = choose|x: int|
            0 <= x < (before + appended_before).len() && (before + appended_before)[x] == new[j];
        if x < before.len() {
            if found == x {
                // The slot is taken by a variant that executes as `new[j]`
                // does: by `new[j]` itself.
                lemma_rank_respects_semantics(candidate, new[j]);
                assert(candidate == new[j]);
            }
            assert((after + appended)[x] == new[j]);
        } else {
            assert(appended[x - before.len()] == new[j]);
            assert((after + appended)[x] == new[j]);
        }
    }
}

/// Once a slot holds a variant of the later version it holds one for good.
pub proof fn lemma_slot_stays_new(
    old: Seq<OpcodeVariant>,
    new: Seq<OpcodeVariant>,
    m: nat,
    n: nat,
    i: int,
)
    requires
        m <= n <= new.len(),
        0 <= i < old.len(),
        new.contains(merged_in_place(old, new, m)[i]),
    ensures
        new.contains(merged_in_place(old, new, n)[i]),
    decreases n,
{
    if m < n {
        lemma_slot_stays_new(old, new, m, (n - 1) as nat, i);
        let before = merged_in_place(old, new, (n - 1) as nat);
        lemma_merged_in_place(old, new, (n - 1) as nat);
        lemma_find_equivalent(before, new[n - 1], 0);
        assert(new.contains(new[n - 1]));
    }
}

/// A table that ascends and is extended by a version that covers it holds, in
/// the end, variants of that version only.
pub proof fn lemma_extended_table_holds_new_only(
    old: Seq<OpcodeVariant>,
    new: Seq<OpcodeVariant>,
    k: int,
)
    requires
        ascending(old),
        crate::definitions::synthesis::covers(new, old),
        0 <= k < extended_table(old, new).len(),
    ensures
        new.contains(extended_table(old, new)[k]),
{
    let n = new.len();
    let merged = merged_in_place(old, new, n);
    lemma_merged_in_place(old, new, n);
    if k < old.len() {
        // The counterpart of the variant takes the slot when its turn comes.
        let j = choose|j: int| 0 <= j < new.len() && spec_semantically_equal(new[j], old[k]);
        let then = merged_in_place(old, new, j as nat);
        lemma_merged_in_place(old, new, j as nat);
        lemma_find_equivalent(then, new[j], 0);
        let found = find_equivalent(then, new[j], 0);
        assert(spec_semantically_equal(new[j], then[k]));
        assert(found <= k);
        lemma_rank_respects_semantics(new[j], then[found]);
        lemma_rank_respects_semantics(old[found], then[found]);
        lemma_rank_respects_semantics(new[j], old[k]);
        assert(found == k);
        assert(merged_in_place(old, new, (j + 1) as nat)[k] == new[j]);
        lemma_slot_stays_new(old, new, (j + 1) as nat, n, k);
    } else {
        let a = k - old.len();
        lemma_difference_origin(old, new, n, a, a);
    }
}

/// What the table of a version holds: the variants of the version, spelled as
/// the version spells them, each in one slot, and the invalid variant in the
/// slots that are left. A version behind the last registered one has the
/// variants of that one.
pub proof fn lemma_table_content(table_bits: usize, version: ISAVersion, variant: OpcodeVariant)
    requires
        table_bits >= OPCODES_TABLE_WIDTH,
    ensures
        spec_synthesize_opcode_decoding_tables(table_bits, version) is Ok,
        spec_synthesize_opcode_decoding_tables(table_bits, version)->Ok_0.contains(variant)
            <==> is_variant_of_version(
            variant,
            if version.0 == 0 {
                ISAVersion(0)
            } else {
                ISAVersion(1)
            },
        ),
{
    lemma_synthesis_succeeds(table_bits, version);
    lemma_table_shape(table_bits, version);
    let table = spec_synthesize_opcode_decoding_tables(table_bits, version)->Ok_0;
    let variants = synthesis_prefix(version, 2)->Ok_0;
    let old = spec_all_variants_in_version(ISAVersion(0));
    let new = spec_all_variants_in_version(ISAVersion(1));
    let last = if version.0 == 0 {
        ISAVersion(0)
    } else {
        ISAVersion(1)
    };
    let enumeration = spec_all_variants_in_version(last);
    lemma_enumeration_content(last, variant);
    lemma_enumeration_content(last, spec_invalid_opcode_variant());
    crate::definitions::stability::lemma_first_variant_is_invalid(last);
    lemma_enumeration_ascends(ISAVersion(0));
    lemma_enumeration_ascends(ISAVersion(1));
    if version.0 == 0 {
        crate::definitions::stability::lemma_first_version_table(version);
        reveal_with_fuel(synthesis_prefix, 3);
        assert(crate::definitions::opcode_trait::spec_all_isa_versions()[1] == ISAVersion(1));
        assert(variants == enumeration);
    } else {
        crate::definitions::extension::lemma_second_version_table(version);
        crate::definitions::extension::lemma_second_version_covers_first();
        assert(variants == extended_table(old, new));
    }
    if table.contains(variant) {
        let k = choose|k: int| 0 <= k < table.len() && table[k] == variant;
        if k < variants.len() {
            if version.0 != 0 {
                lemma_extended_table_holds_new_only(old, new, k);
            }
            assert(enumeration.contains(variant));
        } else {
            assert(variant == spec_invalid_opcode_variant());
            assert(enumeration[0] == variant);
        }
    }
    if enumeration.contains(variant) {
        let j = choose|j: int| 0 <= j < enumeration.len() && enumeration[j] == variant;
        if version.0 != 0 {
            lemma_extended_table_holds_new(old, new, new.len(), j);
        }
        let k = choose|k: int| 0 <= k < variants.len() && variants[k] == variant;
        assert(table[k] == variant);
    }
}

/// No variant of a version has two slots among those that hold the variants
/// of the version, and among them are the `nop` variant and the panic variant.
pub proof fn lemma_table_variants(version: ISAVersion)
    ensures
        synthesis_prefix(version, 2) is Ok,
        forall|i: int, j: int|
            0 <= i < j < synthesis_prefix(version, 2)->Ok_0.len() ==> (
            #[trigger] synthesis_prefix(version, 2)->Ok_0[i]) != (#[trigger] synthesis_prefix(
                version,
                2,
            )->Ok_0[j]),
        synthesis_prefix(version, 2)->Ok_0.contains(spec_nop_opcode_variant()),
        synthesis_prefix(version, 2)->Ok_0.contains(spec_panic_opcode_variant()),
{
    lemma_synthesis_succeeds(OPCODES_TABLE_WIDTH, version);
    let variants = synthesis_prefix(version, 2)->Ok_0;
    let old = spec_all_variants_in_version(ISAVersion(0));
    let new = spec_all_variants_in_version(ISAVersion(1));
    lemma_enumeration_ascends(ISAVersion(0));
    lemma_enumeration_ascends(ISAVersion(1));
    let nop = spec_nop_opcode_variant();
    let panic = spec_panic_opcode_variant();
    if version.0 == 0 {
        crate::definitions::stability::lemma_first_version_table(version);
        reveal_with_fuel(synthesis_prefix, 3);
        assert(crate::definitions::opcode_trait::spec_all_isa_versions()[1] == ISAVersion(1));
        assert(variants == old);
        lemma_derived_variants_exist(ISAVersion(0));
    } else {
        crate::definitions::extension::lemma_second_version_table(version);
        assert(variants == extended_table(old, new));
        lemma_extended_table_is_distinct(old, new);
        lemma_derived_variants_exist(ISAVersion(1));
        let at_nop = choose|j: int| 0 <= j < new.len() && new[j] == nop;
        let at_panic = choose|j: int| 0 <= j < new.len() && new[j] == panic;
        lemma_extended_table_holds_new(old, new, new.len(), at_nop);
        lemma_extended_table_holds_new(old, new, new.len(), at_panic);
    }
    assert forall|i: int, j: int| 0 <= i < j < variants.len() implies #[trigger] variants[i]
        != #[trigger] variants[j] by {}
}

/// The tables of every version exist: the decoding table can be synthesized,
/// it holds no variant but the invalid one in two slots, and it holds the `nop`
/// variant and the panic variant.
pub proof fn lemma_tables_exist(version: ISAVersion)
    ensures
        spec_tables_outcome(version) is Ok,
        spec_tables_outcome(version) == spec_synthesize_opcode_decoding_tables(
            OPCODES_TABLE_WIDTH,
            version,
        ),
{
    lemma_synthesis_succeeds(OPCODES_TABLE_WIDTH, version);
    lemma_table_shape(OPCODES_TABLE_WIDTH, version);
    lemma_table_variants(version);
    let table = spec_synthesize_opcode_decoding_tables(OPCODES_TABLE_WIDTH, version)->Ok_0;
    let variants = synthesis_prefix(version, 2)->Ok_0;
    let nop = spec_nop_opcode_variant();
    let panic = spec_panic_opcode_variant();
    let x = choose|x: int| 0 <= x < variants.len() && variants[x] == nop;
    assert(table[x] == nop);
    let y = choose|y: int| 0 <= y < variants.len() && variants[y] == panic;
    assert(table[y] == panic);
    assert(!has_ambiguous_slot(table)) by {
        if has_ambiguous_slot(table) {
            let (i, j) = choose|i: int, j: int|
                0 <= i < j < table.len() && #[trigger] table[i] == #[trigger] table[j] && table[j]
                    != spec_invalid_opcode_variant();
            assert(j < variants.len());
            assert(variants[i] != variants[j]);
        }
    }
}

} // verus!
