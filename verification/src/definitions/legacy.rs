//! What the legacy synthesis gives: the table of the first version, and
//! nothing for any later one.

use vstd::prelude::*;
use crate::definitions::all::Opcode;
use crate::definitions::density::lemma_enumeration_matches_density;
use crate::definitions::enumeration::{
    destination_spellings, families_block, family_block, source_spellings,
    spec_all_opcode_prototypes, spec_all_variants_in_version,
};
use crate::definitions::extension::{family_position, lemma_materialize_keeps_family};
use crate::imm_mem_modifiers::ImmMemHandlerFlags;
use crate::definitions::opcode_trait::{spec_all_isa_versions, ISAVersion, Operand};
use crate::definitions::stability::lemma_first_version_table;
use crate::definitions::synthesis::{
    legacy_families_block, legacy_family_block, legacy_prefix, legacy_supports,
    spec_synthesize_opcode_decoding_tables, spec_synthesize_opcode_decoding_tables_legacy,
    synthesis_prefix, SynthesisError,
};
use crate::definitions::variant::OpcodeVariant;

verus! {

/// Whether the opcodes of the family take their first input from anywhere.
pub open spec fn family_source_is_full(opcode: Opcode) -> bool {
    1 <= family_position(opcode) <= 9
}

/// Whether the opcodes of the family put their first output anywhere.
pub open spec fn family_destination_is_full(opcode: Opcode) -> bool {
    1 <= family_position(opcode) <= 9 && family_position(opcode) != 6
}

/// At the first version the family of an opcode decides how the opcode is
/// spelled: fully or on registers.
proof fn lemma_spelling_by_family(opcode: Opcode)
    ensures
        source_spellings(opcode.spec_input_operands(ISAVersion(0))) == (if family_source_is_full(
            opcode,
        ) {
            source_spellings(seq![Operand::Full(ImmMemHandlerFlags::UseRegOnly)])
        } else {
            source_spellings(Seq::empty())
        }),
        destination_spellings(opcode.spec_output_operands(ISAVersion(0))) == (
        if family_destination_is_full(opcode) {
            destination_spellings(seq![Operand::Full(ImmMemHandlerFlags::UseRegOnly)])
        } else {
            destination_spellings(Seq::empty())
        }),
{
    let inputs = opcode.spec_input_operands(ISAVersion(0));
    let outputs = opcode.spec_output_operands(ISAVersion(0));
    if family_source_is_full(opcode) {
        assert(inputs.len() > 0 && inputs[0] is Full);
    } else {
        assert(inputs.len() == 0 || inputs[0] == Operand::RegOnly);
    }
    if family_destination_is_full(opcode) {
        assert(outputs.len() > 0 && outputs[0] is Full);
    } else {
        assert(outputs.len() == 0 || outputs[0] == Operand::RegOnly);
    }
    assert(source_spellings(inputs) =~= (if family_source_is_full(opcode) {
        source_spellings(seq![Operand::Full(ImmMemHandlerFlags::UseRegOnly)])
    } else {
        source_spellings(Seq::empty())
    }));
    assert(destination_spellings(outputs) =~= (if family_destination_is_full(opcode) {
        destination_spellings(seq![Operand::Full(ImmMemHandlerFlags::UseRegOnly)])
    } else {
        destination_spellings(Seq::empty())
    }));
}

/// At the first version all opcodes of a family are spelled alike.
proof fn lemma_family_is_spelled_alike(proto: Opcode, idx: usize)
    requires
        proto.spec_materialize_subvariant_from_prototype(idx, ISAVersion(0)) is Some,
    ensures
        source_spellings(
            proto.spec_materialize_subvariant_from_prototype(
                idx,
                ISAVersion(0),
            )->0.spec_input_operands(ISAVersion(0)),
        ) == source_spellings(proto.spec_input_operands(ISAVersion(0))),
        destination_spellings(
            proto.spec_materialize_subvariant_from_prototype(
                idx,
                ISAVersion(0),
            )->0.spec_output_operands(ISAVersion(0)),
        ) == destination_spellings(proto.spec_output_operands(ISAVersion(0))),
{
    let opcode = proto.spec_materialize_subvariant_from_prototype(idx, ISAVersion(0))->0;
    lemma_materialize_keeps_family(proto, idx, ISAVersion(0));
    lemma_spelling_by_family(opcode);
    lemma_spelling_by_family(proto);
}

/// At the first version the legacy variants of a family are its variants.
proof fn lemma_legacy_family_block(proto: Opcode, n: nat)
    requires
        n <= proto.spec_variants_data(ISAVersion(0)).len(),
    ensures
        legacy_family_block(proto, ISAVersion(0), n) == family_block(proto, ISAVersion(0), n),
    decreases n,
{
    if n > 0 {
        lemma_legacy_family_block(proto, (n - 1) as nat);
        let data = proto.spec_variants_data(ISAVersion(0))[n - 1];
        if proto.spec_materialize_subvariant_from_prototype(data.variant_idx, ISAVersion(0))
            is Some {
            lemma_family_is_spelled_alike(proto, data.variant_idx);
        }
    }
}

/// The legacy enumeration can spell every family at the first version, and
/// every family but `uma` at the second.
proof fn lemma_legacy_support(k: int)
    requires
        0 <= k < 16,
    ensures
        legacy_supports(spec_all_opcode_prototypes()[k], ISAVersion(0)),
        legacy_supports(spec_all_opcode_prototypes()[k], ISAVersion(1)) <==> k < 15,
{
}

/// At the first version the legacy variants of the first `n` families are
/// their variants.
proof fn lemma_legacy_families_of_first_version(n: nat)
    requires
        n <= 16,
    ensures
        legacy_families_block(ISAVersion(0), n) == Ok::<Seq<OpcodeVariant>, SynthesisError>(
            families_block(ISAVersion(0), n),
        ),
    decreases n,
{
    if n > 0 {
        lemma_legacy_families_of_first_version((n - 1) as nat);
        let proto = spec_all_opcode_prototypes()[n - 1];
        lemma_legacy_support(n - 1);
        lemma_legacy_family_block(proto, proto.spec_variants_data(ISAVersion(0)).len());
    }
}

/// At the second version the legacy enumeration fails at the `uma` family, the
/// last of all, whose heap accesses take a register or an immediate.
proof fn lemma_legacy_families_of_second_version(n: nat)
    requires
        n <= 16,
    ensures
        n <= 15 ==> legacy_families_block(ISAVersion(1), n) is Ok,
        n == 16 ==> legacy_families_block(ISAVersion(1), n) == Err::<
            Seq<OpcodeVariant>,
            SynthesisError,
        >(SynthesisError::UnknownOperandCombination),
    decreases n,
{
    if n > 0 {
        lemma_legacy_families_of_second_version((n - 1) as nat);
        lemma_legacy_support(n - 1);
    }
}

/// What the legacy synthesis gives: for the first version the table of
/// `synthesize_opcode_decoding_tables`, if the index field is wide enough for
/// it, and for every later version the failure at the `uma` family.
pub proof fn lemma_legacy_outcome(table_bits: usize, up_to_version: ISAVersion)
    ensures
        up_to_version.0 == 0 ==> spec_synthesize_opcode_decoding_tables_legacy(
            table_bits,
            up_to_version,
        ) == spec_synthesize_opcode_decoding_tables(table_bits, up_to_version),
        up_to_version.0 >= 1 ==> spec_synthesize_opcode_decoding_tables_legacy(
            table_bits,
            up_to_version,
        ) == Err::<Seq<OpcodeVariant>, SynthesisError>(SynthesisError::UnknownOperandCombination),
{
    let versions = spec_all_isa_versions();
    assert(versions[0] == ISAVersion(0) && versions[1] == ISAVersion(1));
    let first = spec_all_variants_in_version(ISAVersion(0));
    lemma_legacy_families_of_first_version(16);
    lemma_enumeration_matches_density(ISAVersion(0));
    lemma_first_version_table(up_to_version);
    reveal_with_fuel(legacy_prefix, 3);
    reveal_with_fuel(synthesis_prefix, 3);
    assert(Seq::<OpcodeVariant>::empty() + first =~= first);
    assert(legacy_prefix(up_to_version, 1) == Ok::<Seq<OpcodeVariant>, SynthesisError>(first));
    if up_to_version.0 >= 1 {
        lemma_legacy_families_of_second_version(16);
    }
}

} // verus!
