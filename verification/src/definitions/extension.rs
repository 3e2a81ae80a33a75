//! Why the synthesis of the table cannot fail: what the second version adds to
//! the first.
//!
//! The two registered versions have the same variants in the same order, but
//! for the `uma` family, the last of all: from the second version on the
//! offset of a heap access may be an immediate. So the second version spells
//! the source of the four heap accesses as a register or an immediate, and has
//! eight variants that the first has not.

use vstd::prelude::*;
use vstd::arithmetic::power2::{lemma2_to64, lemma_pow2_strictly_increases, pow2};
use crate::definitions::all::Opcode;
use crate::definitions::content::lemma_families_block_is_sound;
use crate::definitions::counts::{lemma_densities, lemma_uma_family};
use crate::definitions::distinct::lemma_families_block_ascends;
use crate::definitions::density::{
    lemma_enumeration_matches_density, lemma_families_block_len, lemma_family_data,
};
use crate::definitions::enumeration::{
    destination_spellings, destinations_block, families_block, family_block, flag_block,
    opcode_block, source_spellings, sources_block, spec_all_opcode_prototypes,
    spec_all_variants_in_version, subvariant_block,
};
use crate::definitions::opcode_trait::{spec_all_isa_versions, ISAVersion, Operand};
use crate::definitions::stability::{lemma_first_variant_is_invalid, lemma_first_version_table};
use crate::definitions::synthesis::{
    covers, extended_table, find_equivalent, has_counterpart, lemma_find_equivalent,
    lemma_merged_in_place, merged_difference, merged_in_place,
    spec_synthesize_opcode_decoding_tables, synthesis_prefix, SynthesisError,
};
use crate::definitions::uma::UMAOpcode;
use crate::definitions::variant::{
    lemma_semantic_equality_is_equivalence, lemma_variant_equality, spec_semantically_equal,
    variant_of, OpcodeVariant,
};
use crate::imm_mem_modifiers::RegOrImmFlags;

verus! {

/// The place of the family of an opcode in the order in which the families
/// enter the table.
pub open spec fn family_position(opcode: Opcode) -> nat {
    match opcode {
        Opcode::Invalid(_) => 0,
        Opcode::Nop(_) => 1,
        Opcode::Add(_) => 2,
        Opcode::Sub(_) => 3,
        Opcode::Mul(_) => 4,
        Opcode::Div(_) => 5,
        Opcode::Jump(_) => 6,
        Opcode::Binop(_) => 7,
        Opcode::Shift(_) => 8,
        Opcode::Ptr(_) => 9,
        Opcode::NearCall(_) => 10,
        Opcode::Context(_) => 11,
        Opcode::Log(_) => 12,
        Opcode::FarCall(_) => 13,
        Opcode::Ret(_) => 14,
        Opcode::UMA(_) => 15,
    }
}

/// Whether the source and the destination of a variant are spellings that its
/// opcode has at `version`.
pub open spec fn well_spelled(variant: OpcodeVariant, version: ISAVersion) -> bool {
    &&& source_spellings(variant.opcode.spec_input_operands(version)).contains(
        variant.src0_operand_type,
    )
    &&& destination_spellings(variant.opcode.spec_output_operands(version)).contains(
        variant.dst0_operand_type,
    )
}

/// Every variant of a flag block has the opcode and the spellings of the block.
pub proof fn lemma_flag_block_entry(
    opcode: Opcode,
    src: Operand,
    dst: Operand,
    num_flags: usize,
    k: int,
)
    requires
        0 <= k < flag_block(opcode, src, dst, num_flags).len(),
    ensures
        flag_block(opcode, src, dst, num_flags)[k].opcode == opcode,
        flag_block(opcode, src, dst, num_flags)[k].src0_operand_type == src,
        flag_block(opcode, src, dst, num_flags)[k].dst0_operand_type == dst,
{
}

/// The opcode that a family materializes belongs to the family.
pub proof fn lemma_materialize_keeps_family(proto: Opcode, idx: usize, version: ISAVersion)
    requires
        proto.spec_materialize_subvariant_from_prototype(idx, version) is Some,
    ensures
        family_position(proto.spec_materialize_subvariant_from_prototype(idx, version)->0)
            == family_position(proto),
{
}

/// Within one version no two variants differ in spelling only: well spelled
/// variants that execute in the same way are the same variant.
pub proof fn lemma_semantic_uniqueness(a: OpcodeVariant, b: OpcodeVariant, version: ISAVersion)
    requires
        well_spelled(a, version),
        well_spelled(b, version),
        spec_semantically_equal(a, b),
    ensures
        a == b,
{
    let spellings = source_spellings(a.opcode.spec_input_operands(version));
    let i = choose|i: int| 0 <= i < spellings.len() && spellings[i] == a.src0_operand_type;
    let j = choose|j: int| 0 <= j < spellings.len() && spellings[j] == b.src0_operand_type;
    assert(a.src0_operand_type == b.src0_operand_type);
    lemma_variant_equality(a, b);
}

/// The opcode that stands for the `uma` family.
pub open spec fn uma_prototype() -> Opcode {
    Opcode::UMA(UMAOpcode::HeapRead)
}

/// The variants of the `uma` family at the first version: every access on
/// registers, without and with the increment of the pointer.
pub open spec fn uma_variants_of_first_version() -> Seq<OpcodeVariant> {
    seq![
        variant_of(
            Opcode::UMA(UMAOpcode::HeapRead),
            Operand::RegOnly,
            Operand::RegOnly,
            false,
            false,
        ),
        variant_of(
            Opcode::UMA(UMAOpcode::HeapRead),
            Operand::RegOnly,
            Operand::RegOnly,
            true,
            false,
        ),
        variant_of(
            Opcode::UMA(UMAOpcode::HeapWrite),
            Operand::RegOnly,
            Operand::RegOnly,
            false,
            false,
        ),
        variant_of(
            Opcode::UMA(UMAOpcode::HeapWrite),
            Operand::RegOnly,
            Operand::RegOnly,
            true,
            false,
        ),
        variant_of(
            Opcode::UMA(UMAOpcode::AuxHeapRead),
            Operand::RegOnly,
            Operand::RegOnly,
            false,
            false,
        ),
        variant_of(
            Opcode::UMA(UMAOpcode::AuxHeapRead),
            Operand::RegOnly,
            Operand::RegOnly,
            true,
            false,
        ),
        variant_of(
            Opcode::UMA(UMAOpcode::AuxHeapWrite),
            Operand::RegOnly,
            Operand::RegOnly,
            false,
            false,
        ),
        variant_of(
            Opcode::UMA(UMAOpcode::AuxHeapWrite),
            Operand::RegOnly,
            Operand::RegOnly,
            true,
            false,
        ),
        variant_of(
            Opcode::UMA(UMAOpcode::FatPointerRead),
            Operand::RegOnly,
            Operand::RegOnly,
            false,
            false,
        ),
        variant_of(
            Opcode::UMA(UMAOpcode::FatPointerRead),
            Operand::RegOnly,
            Operand::RegOnly,
            true,
            false,
        ),
    ]
}

/// The variants of the `uma` family at the second version: the offset of a
/// heap access is a register or an immediate.
pub open spec fn uma_variants_of_second_version() -> Seq<OpcodeVariant> {
    seq![
        variant_of(
            Opcode::UMA(UMAOpcode::HeapRead),
            Operand::RegOrImm(RegOrImmFlags::UseRegOnly),
            Operand::RegOnly,
            false,
            false,
        ),
        variant_of(
            Opcode::UMA(UMAOpcode::HeapRead),
            Operand::RegOrImm(RegOrImmFlags::UseRegOnly),
            Operand::RegOnly,
            true,
            false,
        ),
        variant_of(
            Opcode::UMA(UMAOpcode::HeapRead),
            Operand::RegOrImm(RegOrImmFlags::UseImm16Only),
            Operand::RegOnly,
            false,
            false,
        ),
        variant_of(
            Opcode::UMA(UMAOpcode::HeapRead),
            Operand::RegOrImm(RegOrImmFlags::UseImm16Only),
            Operand::RegOnly,
            true,
            false,
        ),
        variant_of(
            Opcode::UMA(UMAOpcode::HeapWrite),
            Operand::RegOrImm(RegOrImmFlags::UseRegOnly),
            Operand::RegOnly,
            false,
            false,
        ),
        variant_of(
            Opcode::UMA(UMAOpcode::HeapWrite),
            Operand::RegOrImm(RegOrImmFlags::UseRegOnly),
            Operand::RegOnly,
            true,
            false,
        ),
        variant_of(
            Opcode::UMA(UMAOpcode::HeapWrite),
            Operand::RegOrImm(RegOrImmFlags::UseImm16Only),
            Operand::RegOnly,
            false,
            false,
        ),
        variant_of(
            Opcode::UMA(UMAOpcode::HeapWrite),
            Operand::RegOrImm(RegOrImmFlags::UseImm16Only),
            Operand::RegOnly,
            true,
            false,
        ),
        variant_of(
            Opcode::UMA(UMAOpcode::AuxHeapRead),
            Operand::RegOrImm(RegOrImmFlags::UseRegOnly),
            Operand::RegOnly,
            false,
            false,
        ),
        variant_of(
            Opcode::UMA(UMAOpcode::AuxHeapRead),
            Operand::RegOrImm(RegOrImmFlags::UseRegOnly),
            Operand::RegOnly,
            true,
            false,
        ),
        variant_of(
            Opcode::UMA(UMAOpcode::AuxHeapRead),
            Operand::RegOrImm(RegOrImmFlags::UseImm16Only),
            Operand::RegOnly,
            false,
            false,
        ),
        variant_of(
            Opcode::UMA(UMAOpcode::AuxHeapRead),
            Operand::RegOrImm(RegOrImmFlags::UseImm16Only),
            Operand::RegOnly,
            true,
            false,
        ),
        variant_of(
            Opcode::UMA(UMAOpcode::AuxHeapWrite),
            Operand::RegOrImm(RegOrImmFlags::UseRegOnly),
            Operand::RegOnly,
            false,
            false,
        ),
        variant_of(
            Opcode::UMA(UMAOpcode::AuxHeapWrite),
            Operand::RegOrImm(RegOrImmFlags::UseRegOnly),
            Operand::RegOnly,
            true,
            false,
        ),
        variant_of(
            Opcode::UMA(UMAOpcode::AuxHeapWrite),
            Operand::RegOrImm(RegOrImmFlags::UseImm16Only),
            Operand::RegOnly,
            false,
            false,
        ),
        variant_of(
            Opcode::UMA(UMAOpcode::AuxHeapWrite),
            Operand::RegOrImm(RegOrImmFlags::UseImm16Only),
            Operand::RegOnly,
            true,
            false,
        ),
        variant_of(
            Opcode::UMA(UMAOpcode::FatPointerRead),
            Operand::RegOnly,
            Operand::RegOnly,
            false,
            false,
        ),
        variant_of(
            Opcode::UMA(UMAOpcode::FatPointerRead),
            Operand::RegOnly,
            Operand::RegOnly,
            true,
            false,
        ),
    ]
}

/// The variants of one access at the first version.
proof fn lemma_uma_block_of_first_version(opcode: Opcode)
    requires
        opcode is UMA,
    ensures
        opcode_block(opcode, ISAVersion(0), 1) == seq![
            variant_of(opcode, Operand::RegOnly, Operand::RegOnly, false, false),
            variant_of(opcode, Operand::RegOnly, Operand::RegOnly, true, false),
        ],
{
    let version = ISAVersion(0);
    let one = seq![Operand::RegOnly];
    assert(source_spellings(opcode.spec_input_operands(version)) =~= one);
    assert(destination_spellings(opcode.spec_output_operands(version)) =~= one);
    reveal_with_fuel(destinations_block, 2);
    reveal_with_fuel(sources_block, 2);
    let block = flag_block(opcode, Operand::RegOnly, Operand::RegOnly, 1);
    assert(destinations_block(opcode, Operand::RegOnly, one, 1, 1) =~= block);
    assert(sources_block(opcode, one, one, 1, 1) =~= block);
    assert(opcode_block(opcode, version, 1) =~= seq![
        variant_of(opcode, Operand::RegOnly, Operand::RegOnly, false, false),
        variant_of(opcode, Operand::RegOnly, Operand::RegOnly, true, false),
    ]);
}

/// The variants of one access at the second version.
proof fn lemma_uma_block_of_second_version(opcode: Opcode)
    requires
        opcode is UMA,
    ensures
        opcode == Opcode::UMA(UMAOpcode::FatPointerRead) ==> opcode_block(
            opcode,
            ISAVersion(1),
            1,
        ) == seq![
            variant_of(opcode, Operand::RegOnly, Operand::RegOnly, false, false),
            variant_of(opcode, Operand::RegOnly, Operand::RegOnly, true, false),
        ],
        opcode != Opcode::UMA(UMAOpcode::FatPointerRead) ==> opcode_block(
            opcode,
            ISAVersion(1),
            1,
        ) == seq![
            variant_of(
                opcode,
                Operand::RegOrImm(RegOrImmFlags::UseRegOnly),
                Operand::RegOnly,
                false,
                false,
            ),
            variant_of(
                opcode,
                Operand::RegOrImm(RegOrImmFlags::UseRegOnly),
                Operand::RegOnly,
                true,
                false,
            ),
            variant_of(
                opcode,
                Operand::RegOrImm(RegOrImmFlags::UseImm16Only),
                Operand::RegOnly,
                false,
                false,
            ),
            variant_of(
                opcode,
                Operand::RegOrImm(RegOrImmFlags::UseImm16Only),
                Operand::RegOnly,
                true,
                false,
            ),
        ],
{
    let version = ISAVersion(1);
    let one = seq![Operand::RegOnly];
    assert(destination_spellings(opcode.spec_output_operands(version)) =~= one);
    reveal_with_fuel(destinations_block, 2);
    reveal_with_fuel(sources_block, 3);
    if opcode == Opcode::UMA(UMAOpcode::FatPointerRead) {
        assert(source_spellings(opcode.spec_input_operands(version)) =~= one);
        let block = flag_block(opcode, Operand::RegOnly, Operand::RegOnly, 1);
        assert(destinations_block(opcode, Operand::RegOnly, one, 1, 1) =~= block);
        assert(sources_block(opcode, one, one, 1, 1) =~= block);
        assert(opcode_block(opcode, version, 1) =~= seq![
            variant_of(opcode, Operand::RegOnly, Operand::RegOnly, false, false),
            variant_of(opcode, Operand::RegOnly, Operand::RegOnly, true, false),
        ]);
    } else {
        let reg = Operand::RegOrImm(RegOrImmFlags::UseRegOnly);
        let imm = Operand::RegOrImm(RegOrImmFlags::UseImm16Only);
        let two = seq![reg, imm];
        assert(source_spellings(opcode.spec_input_operands(version)) =~= two);
        let on_reg = flag_block(opcode, reg, Operand::RegOnly, 1);
        let on_imm = flag_block(opcode, imm, Operand::RegOnly, 1);
        assert(destinations_block(opcode, reg, one, 1, 1) =~= on_reg);
        assert(destinations_block(opcode, imm, one, 1, 1) =~= on_imm);
        assert(sources_block(opcode, two, one, 1, 1) =~= on_reg);
        assert(sources_block(opcode, two, one, 1, 2) =~= on_reg + on_imm);
        assert(opcode_block(opcode, version, 1) =~= seq![
            variant_of(opcode, reg, Operand::RegOnly, false, false),
            variant_of(opcode, reg, Operand::RegOnly, true, false),
            variant_of(opcode, imm, Operand::RegOnly, false, false),
            variant_of(opcode, imm, Operand::RegOnly, true, false),
        ]);
    }
}

/// The sub-variant blocks of the `uma` family are the blocks of its opcodes.
proof fn lemma_uma_subvariant_block(version: ISAVersion, i: int)
    requires
        version.0 <= 1,
        0 <= i < 5,
    ensures
        uma_prototype().spec_variants_data(version).len() == 5,
        subvariant_block(
            uma_prototype(),
            version,
            uma_prototype().spec_variants_data(version)[i],
        ) == opcode_block(
            Opcode::UMA(
                seq![
                    UMAOpcode::HeapRead,
                    UMAOpcode::HeapWrite,
                    UMAOpcode::AuxHeapRead,
                    UMAOpcode::AuxHeapWrite,
                    UMAOpcode::FatPointerRead,
                ][i],
            ),
            version,
            1,
        ),
{
    lemma_family_data(uma_prototype(), version, i);
}

/// The variants of the `uma` family at the two registered versions.
pub proof fn lemma_uma_variants()
    ensures
        family_block(uma_prototype(), ISAVersion(0), 5) == uma_variants_of_first_version(),
        family_block(uma_prototype(), ISAVersion(1), 5) == uma_variants_of_second_version(),
{
    let proto = uma_prototype();
    let v0 = ISAVersion(0);
    let v1 = ISAVersion(1);
    reveal_with_fuel(family_block, 6);

    lemma_uma_subvariant_block(v0, 0);
    lemma_uma_subvariant_block(v1, 0);
    lemma_uma_block_of_first_version(Opcode::UMA(UMAOpcode::HeapRead));
    lemma_uma_block_of_second_version(Opcode::UMA(UMAOpcode::HeapRead));
    lemma_uma_subvariant_block(v0, 1);
    lemma_uma_subvariant_block(v1, 1);
    lemma_uma_block_of_first_version(Opcode::UMA(UMAOpcode::HeapWrite));
    lemma_uma_block_of_second_version(Opcode::UMA(UMAOpcode::HeapWrite));
    lemma_uma_subvariant_block(v0, 2);
    lemma_uma_subvariant_block(v1, 2);
    lemma_uma_block_of_first_version(Opcode::UMA(UMAOpcode::AuxHeapRead));
    lemma_uma_block_of_second_version(Opcode::UMA(UMAOpcode::AuxHeapRead));
    lemma_uma_subvariant_block(v0, 3);
    lemma_uma_subvariant_block(v1, 3);
    lemma_uma_block_of_first_version(Opcode::UMA(UMAOpcode::AuxHeapWrite));
    lemma_uma_block_of_second_version(Opcode::UMA(UMAOpcode::AuxHeapWrite));
    lemma_uma_subvariant_block(v0, 4);
    lemma_uma_subvariant_block(v1, 4);
    lemma_uma_block_of_first_version(Opcode::UMA(UMAOpcode::FatPointerRead));
    lemma_uma_block_of_second_version(Opcode::UMA(UMAOpcode::FatPointerRead));
    assert(family_block(proto, v0, 5) =~= uma_variants_of_first_version());
    assert(family_block(proto, v1, 5) =~= uma_variants_of_second_version());
}

/// Every opcode but those of the `uma` family has the same variants at the two
/// registered versions.
proof fn lemma_opcode_block_of_both_versions(opcode: Opcode, num_flags: usize)
    requires
        family_position(opcode) < 15,
    ensures
        opcode_block(opcode, ISAVersion(0), num_flags) == opcode_block(
            opcode,
            ISAVersion(1),
            num_flags,
        ),
{
    assert(opcode.spec_input_operands(ISAVersion(0)) == opcode.spec_input_operands(ISAVersion(1)));
    assert(opcode.spec_output_operands(ISAVersion(0)) == opcode.spec_output_operands(
        ISAVersion(1),
    ));
}

/// Every family but `uma` declares the same sub-variants at the two registered
/// versions.
proof fn lemma_family_data_of_both_versions(proto: Opcode, idx: usize)
    requires
        family_position(proto) < 15,
    ensures
        proto.spec_variants_data(ISAVersion(0)) == proto.spec_variants_data(ISAVersion(1)),
        proto.spec_materialize_subvariant_from_prototype(idx, ISAVersion(0))
            == proto.spec_materialize_subvariant_from_prototype(idx, ISAVersion(1)),
{
}

/// Every family but `uma` has the same variants at the two registered versions.
proof fn lemma_family_block_of_both_versions(proto: Opcode, n: nat)
    requires
        family_position(proto) < 15,
        n <= proto.spec_variants_data(ISAVersion(0)).len(),
    ensures
        family_block(proto, ISAVersion(0), n) == family_block(proto, ISAVersion(1), n),
    decreases n,
{
    if n > 0 {
        lemma_family_block_of_both_versions(proto, (n - 1) as nat);
        let data = proto.spec_variants_data(ISAVersion(0))[n - 1];
        lemma_family_data_of_both_versions(proto, data.variant_idx);
        let materialized = proto.spec_materialize_subvariant_from_prototype(
            data.variant_idx,
            ISAVersion(0),
        );
        if materialized is Some {
            lemma_materialize_keeps_family(proto, data.variant_idx, ISAVersion(0));
            lemma_opcode_block_of_both_versions(materialized->0, data.num_non_exclusive_flags);
        }
    }
}

/// The first `n` families, `uma` not among them, have the same variants at the
/// two registered versions.
proof fn lemma_families_block_of_both_versions(n: nat)
    requires
        n <= 15,
    ensures
        families_block(ISAVersion(0), n) == families_block(ISAVersion(1), n),
    decreases n,
{
    if n > 0 {
        lemma_families_block_of_both_versions((n - 1) as nat);
        let proto = spec_all_opcode_prototypes()[n - 1];
        assert(family_position(proto) == n - 1);
        lemma_family_data_of_both_versions(proto, 0);
        lemma_family_block_of_both_versions(
            proto,
            proto.spec_variants_data(ISAVersion(0)).len(),
        );
    }
}

/// The variants that the two registered versions share: those of all families
/// but `uma`.
pub open spec fn shared_variants() -> Seq<OpcodeVariant> {
    families_block(ISAVersion(0), 15)
}

/// The two registered versions have the same 1075 variants in front, and
/// behind them the variants of the `uma` family.
pub proof fn lemma_versions_decompose()
    ensures
        shared_variants().len() == 1075,
        spec_all_variants_in_version(ISAVersion(0)) == shared_variants()
            + uma_variants_of_first_version(),
        spec_all_variants_in_version(ISAVersion(1)) == shared_variants()
            + uma_variants_of_second_version(),
        forall|i: int|
            0 <= i < 1075 ==> family_position((#[trigger] shared_variants()[i]).opcode) < 15,
{
    lemma_families_block_of_both_versions(15);
    lemma_uma_variants();
    lemma_densities(ISAVersion(0));
    lemma_families_block_len(ISAVersion(0), 15);
    lemma_uma_family(ISAVersion(0));
    lemma_uma_family(ISAVersion(1));
    assert(spec_all_opcode_prototypes()[15] == uma_prototype());
    reveal_with_fuel(families_block, 2);
    lemma_families_block_ascends(ISAVersion(0), 15);
}

/// How many of the first `n` variants of `new` have no counterpart in `old`.
pub open spec fn unmatched_count(old: Seq<OpcodeVariant>, new: Seq<OpcodeVariant>, n: nat) -> nat
    decreases n,
{
    if n == 0 {
        0
    } else {
        unmatched_count(old, new, (n - 1) as nat) + (if has_counterpart(old, new[n - 1]) {
            0nat
        } else {
            1nat
        })
    }
}

/// While a table is merged, a variant finds a slot to take exactly if the table
/// held a counterpart of it before the merge began.
pub proof fn lemma_slot_found_iff_counterpart(
    old: Seq<OpcodeVariant>,
    new: Seq<OpcodeVariant>,
    n: nat,
    variant: OpcodeVariant,
)
    requires
        n <= new.len(),
    ensures
        find_equivalent(merged_in_place(old, new, n), variant, 0) < old.len() <==> has_counterpart(
            old,
            variant,
        ),
{
    let table = merged_in_place(old, new, n);
    lemma_merged_in_place(old, new, n);
    lemma_find_equivalent(table, variant, 0);
    let found = find_equivalent(table, variant, 0);
    if found < old.len() {
        lemma_semantic_equality_is_equivalence(old[found], table[found], variant);
        lemma_semantic_equality_is_equivalence(variant, table[found], variant);
        assert(spec_semantically_equal(old[found], variant));
    }
    if has_counterpart(old, variant) {
        let j = choose|j: int| 0 <= j < old.len() && spec_semantically_equal(old[j], variant);
        lemma_semantic_equality_is_equivalence(old[j], table[j], variant);
        lemma_semantic_equality_is_equivalence(table[j], old[j], variant);
        lemma_semantic_equality_is_equivalence(variant, table[j], variant);
        assert(spec_semantically_equal(variant, table[j]));
    }
}

/// What a merge appends: the variants without a counterpart in the table.
pub proof fn lemma_difference_len(old: Seq<OpcodeVariant>, new: Seq<OpcodeVariant>, n: nat)
    requires
        n <= new.len(),
    ensures
        merged_difference(old, new, n).len() == unmatched_count(old, new, n),
    decreases n,
{
    if n > 0 {
        lemma_difference_len(old, new, (n - 1) as nat);
        lemma_slot_found_iff_counterpart(old, new, (n - 1) as nat, new[n - 1]);
    }
}

/// Variants that the table holds at their own index have a counterpart there.
pub proof fn lemma_shared_prefix_is_matched(
    old: Seq<OpcodeVariant>,
    new: Seq<OpcodeVariant>,
    n: nat,
)
    requires
        n <= new.len(),
        n <= old.len(),
        forall|j: int| 0 <= j < n ==> #[trigger] new[j] == old[j],
    ensures
        unmatched_count(old, new, n) == 0,
    decreases n,
{
    if n > 0 {
        lemma_shared_prefix_is_matched(old, new, (n - 1) as nat);
        assert(spec_semantically_equal(old[n - 1], new[n - 1]));
    }
}

/// No variant of the first version has an immediate as the offset of a heap
/// access.
proof fn lemma_immediate_offset_is_new(variant: OpcodeVariant)
    requires
        variant.opcode is UMA,
        variant.src0_operand_type == Operand::RegOrImm(RegOrImmFlags::UseImm16Only),
    ensures
        !has_counterpart(spec_all_variants_in_version(ISAVersion(0)), variant),
{
    let table = spec_all_variants_in_version(ISAVersion(0));
    assert forall|j: int| 0 <= j < table.len() implies !spec_semantically_equal(
        #[trigger] table[j],
        variant,
    ) by {
        lemma_families_block_is_sound(ISAVersion(0), 16, j);
        if spec_semantically_equal(table[j], variant) {
            let spellings = source_spellings(table[j].opcode.spec_input_operands(ISAVersion(0)));
            let i = choose|i: int|
                0 <= i < spellings.len() && spellings[i] == table[j].src0_operand_type;
            assert(false);
        }
    }
}

/// The variant of the first version in slot `1075 + m` executes as the given
/// variant of the second version does.
proof fn lemma_uma_counterpart(m: int, variant: OpcodeVariant)
    requires
        0 <= m < 10,
        spec_semantically_equal(uma_variants_of_first_version()[m], variant),
    ensures
        has_counterpart(spec_all_variants_in_version(ISAVersion(0)), variant),
{
    lemma_versions_decompose();
    let table = spec_all_variants_in_version(ISAVersion(0));
    assert(table[1075 + m] == uma_variants_of_first_version()[m]);
}

/// Of the eighteen `uma` variants of the second version, eight have no
/// counterpart in the first: those with an immediate offset.
pub proof fn lemma_second_version_adds_eight()
    ensures
        unmatched_count(
            spec_all_variants_in_version(ISAVersion(0)),
            spec_all_variants_in_version(ISAVersion(1)),
            1093,
        ) == 8,
{
    lemma_versions_decompose();
    let old = spec_all_variants_in_version(ISAVersion(0));
    let new = spec_all_variants_in_version(ISAVersion(1));
    let u0 = uma_variants_of_first_version();
    let u1 = uma_variants_of_second_version();
    assert(new.len() == 1093 && old.len() == 1085);
    lemma_shared_prefix_is_matched(old, new, 1075);

    assert(new[1075] == u1[0]);
    lemma_uma_counterpart(0, u1[0]);
    assert(unmatched_count(old, new, 1076) == 0);
    assert(new[1076] == u1[1]);
    lemma_uma_counterpart(1, u1[1]);
    assert(unmatched_count(old, new, 1077) == 0);
    assert(new[1077] == u1[2]);
    lemma_immediate_offset_is_new(u1[2]);
    assert(unmatched_count(old, new, 1078) == 1);
    assert(new[1078] == u1[3]);
    lemma_immediate_offset_is_new(u1[3]);
    assert(unmatched_count(old, new, 1079) == 2);
    assert(new[1079] == u1[4]);
    lemma_uma_counterpart(2, u1[4]);
    assert(unmatched_count(old, new, 1080) == 2);
    assert(new[1080] == u1[5]);
    lemma_uma_counterpart(3, u1[5]);
    assert(unmatched_count(old, new, 1081) == 2);
    assert(new[1081] == u1[6]);
    lemma_immediate_offset_is_new(u1[6]);
    assert(unmatched_count(old, new, 1082) == 3);
    assert(new[1082] == u1[7]);
    lemma_immediate_offset_is_new(u1[7]);
    assert(unmatched_count(old, new, 1083) == 4);
    assert(new[1083] == u1[8]);
    lemma_uma_counterpart(4, u1[8]);
    assert(unmatched_count(old, new, 1084) == 4);
    assert(new[1084] == u1[9]);
    lemma_uma_counterpart(5, u1[9]);
    assert(unmatched_count(old, new, 1085) == 4);
    assert(new[1085] == u1[10]);
    lemma_immediate_offset_is_new(u1[10]);
    assert(unmatched_count(old, new, 1086) == 5);
    assert(new[1086] == u1[11]);
    lemma_immediate_offset_is_new(u1[11]);
    assert(unmatched_count(old, new, 1087) == 6);
    assert(new[1087] == u1[12]);
    lemma_uma_counterpart(6, u1[12]);
    assert(unmatched_count(old, new, 1088) == 6);
    assert(new[1088] == u1[13]);
    lemma_uma_counterpart(7, u1[13]);
    assert(unmatched_count(old, new, 1089) == 6);
    assert(new[1089] == u1[14]);
    lemma_immediate_offset_is_new(u1[14]);
    assert(unmatched_count(old, new, 1090) == 7);
    assert(new[1090] == u1[15]);
    lemma_immediate_offset_is_new(u1[15]);
    assert(unmatched_count(old, new, 1091) == 8);
    assert(new[1091] == u1[16]);
    lemma_uma_counterpart(8, u1[16]);
    assert(unmatched_count(old, new, 1092) == 8);
    assert(new[1092] == u1[17]);
    lemma_uma_counterpart(9, u1[17]);
    assert(unmatched_count(old, new, 1093) == 8);
}

/// Every variant of the first version has a counterpart in the second.
pub proof fn lemma_second_version_covers_first()
    ensures
        covers(
            spec_all_variants_in_version(ISAVersion(1)),
            spec_all_variants_in_version(ISAVersion(0)),
        ),
{
    lemma_versions_decompose();
    let old = spec_all_variants_in_version(ISAVersion(0));
    let new = spec_all_variants_in_version(ISAVersion(1));
    let u0 = uma_variants_of_first_version();
    let u1 = uma_variants_of_second_version();
    assert forall|i: int| 0 <= i < old.len() implies has_counterpart(new, #[trigger] old[i]) by {
        if i < 1075 {
            assert(new[i] == old[i]);
            assert(spec_semantically_equal(new[i], old[i]));
        } else {
            let m = i - 1075;
            assert(old[i] == u0[m]);
            // Two variants of the first version to each access, and four of
            // the second to each heap access.
            let j = if m < 8 {
                (m / 2) * 4 + m % 2
            } else {
                m + 8
            };
            assert(new[1075 + j] == u1[j]);
            assert(spec_semantically_equal(u1[j], u0[m]));
        }
    }
}

/// The table of the second version: that of the first with the new spellings
/// in their old slots and the eight new variants behind them.
pub proof fn lemma_second_version_table(up_to_version: ISAVersion)
    requires
        up_to_version.0 >= 1,
    ensures
        synthesis_prefix(up_to_version, 2) == Ok::<Seq<OpcodeVariant>, SynthesisError>(
            extended_table(
                spec_all_variants_in_version(ISAVersion(0)),
                spec_all_variants_in_version(ISAVersion(1)),
            ),
        ),
        extended_table(
            spec_all_variants_in_version(ISAVersion(0)),
            spec_all_variants_in_version(ISAVersion(1)),
        ).len() == 1093,
{
    let old = spec_all_variants_in_version(ISAVersion(0));
    let new = spec_all_variants_in_version(ISAVersion(1));
    lemma_first_version_table(up_to_version);
    lemma_second_version_covers_first();
    lemma_second_version_adds_eight();
    lemma_densities(ISAVersion(0));
    lemma_densities(ISAVersion(1));
    lemma_enumeration_matches_density(ISAVersion(0));
    lemma_enumeration_matches_density(ISAVersion(1));
    lemma_difference_len(old, new, 1093);
    lemma_merged_in_place(old, new, 1093);
    assert(spec_all_isa_versions()[1] == ISAVersion(1));
    reveal_with_fuel(synthesis_prefix, 3);
}

/// Every variant that a merged table holds was in the table before or is one
/// of the variants that were merged in.
pub proof fn lemma_merged_entries(
    old: Seq<OpcodeVariant>,
    new: Seq<OpcodeVariant>,
    n: nat,
    i: int,
)
    requires
        n <= new.len(),
        0 <= i < old.len(),
    ensures
        merged_in_place(old, new, n).len() == old.len(),
        merged_in_place(old, new, n)[i] == old[i] || new.contains(merged_in_place(old, new, n)[i]),
    decreases n,
{
    lemma_merged_in_place(old, new, n);
    if n > 0 {
        lemma_merged_entries(old, new, (n - 1) as nat, i);
        let before = merged_in_place(old, new, (n - 1) as nat);
        lemma_find_equivalent(before, new[n - 1], 0);
        assert(new.contains(new[n - 1]));
    }
}

/// The synthesis of the table succeeds: for every version, and for every width
/// of the index field from eleven bits on.
pub proof fn lemma_synthesis_succeeds(table_bits: usize, up_to_version: ISAVersion)
    requires
        table_bits >= 11,
    ensures
        spec_synthesize_opcode_decoding_tables(table_bits, up_to_version) is Ok,
        synthesis_prefix(up_to_version, 2) is Ok,
        synthesis_prefix(up_to_version, 2)->Ok_0.len() == (if up_to_version.0 == 0 {
            1085nat
        } else {
            1093nat
        }),
{
    lemma2_to64();
    if table_bits > 11 {
        lemma_pow2_strictly_increases(11, table_bits as nat);
    }
    let old = spec_all_variants_in_version(ISAVersion(0));
    let new = spec_all_variants_in_version(ISAVersion(1));
    lemma_first_variant_is_invalid(ISAVersion(0));
    lemma_densities(ISAVersion(0));
    lemma_enumeration_matches_density(ISAVersion(0));
    lemma_first_version_table(up_to_version);
    assert(spec_all_isa_versions()[1] == ISAVersion(1));
    if up_to_version.0 == 0 {
        reveal_with_fuel(synthesis_prefix, 3);
        assert(synthesis_prefix(up_to_version, 2) == Ok::<Seq<OpcodeVariant>, SynthesisError>(old));
    } else {
        lemma_second_version_table(up_to_version);
        let table = extended_table(old, new);
        lemma_merged_entries(old, new, new.len(), 0);
        let first = merged_in_place(old, new, new.len())[0];
        assert(table[0] == first);
        if first != old[0] {
            let j = choose|j: int| 0 <= j < new.len() && new[j] == first;
            lemma_families_block_is_sound(ISAVersion(1), 16, j);
            lemma_merged_in_place(old, new, new.len());
            assert(spec_semantically_equal(old[0], first));
            let spellings = source_spellings(first.opcode.spec_input_operands(ISAVersion(1)));
            let i = choose|i: int|
                0 <= i < spellings.len() && spellings[i] == first.src0_operand_type;
            lemma_variant_equality(first, old[0]);
        }
    }
}

/// What the synthesis gives: a table where the index field has eleven bits or
/// more, and an overflow where it has fewer.
pub proof fn lemma_synthesis_outcome(table_bits: usize, up_to_version: ISAVersion)
    ensures
        table_bits >= 11 ==> spec_synthesize_opcode_decoding_tables(
            table_bits,
            up_to_version,
        ) is Ok,
        table_bits < 11 ==> spec_synthesize_opcode_decoding_tables(table_bits, up_to_version)
            == Err::<Seq<OpcodeVariant>, SynthesisError>(SynthesisError::TableOverflow),
{
    if table_bits >= 11 {
        lemma_synthesis_succeeds(table_bits, up_to_version);
    } else {
        lemma_synthesis_succeeds(11, up_to_version);
        lemma2_to64();
        if table_bits < 10 {
            lemma_pow2_strictly_increases(table_bits as nat, 10);
        }
        assert(pow2(table_bits as nat) <= 1024);
    }
}

} // verus!
