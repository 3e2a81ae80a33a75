//! Synthesis of the decoding table: the variants of the registered versions,
//! folded in ascending order so that no index ever moves, and padded with the
//! invalid variant to the size of the index field.

use vstd::prelude::*;
use vstd::arithmetic::power2::{lemma2_to64, lemma_pow2_strictly_increases, pow2};
use crate::definitions::density::{
    compute_encoding_density, lemma_enumeration_matches_density, spec_encoding_density,
};
use crate::definitions::all::Opcode;
use crate::definitions::extension::lemma_synthesis_outcome;
use crate::definitions::legacy::lemma_legacy_outcome;
use crate::definitions::enumeration::{
    all_opcodes, all_variants_in_version, destination_spellings, destination_spellings_of,
    push_spellings_block, source_spellings, source_spellings_of, sources_block,
    spec_all_opcode_prototypes, spec_all_variants_in_version,
};
use crate::definitions::opcode_trait::{
    all_isa_versions, spec_all_isa_versions, ISAVersion, OpcodeVariantData, Operand,
    NUM_ISA_VERSIONS,
};
use crate::OPCODES_TABLE_WIDTH;
use crate::definitions::variant::{
    invalid_opcode_variant, semantically_equal, spec_invalid_opcode_variant,
    spec_semantically_equal, OpcodeVariant,
};

verus! {

/// Why there is no decoding table. The synthesis makes every check and reports
/// the first that fails; a failure is fatal at startup, since nothing may run
/// on a table that did not pass every check. With the families as they are
/// declared, only an index field that is too narrow makes the synthesis fail,
/// and only a version behind the first makes the legacy synthesis fail.
#[derive(Clone, Copy, Debug, PartialEq, Eq, Hash, Structural)]
pub enum SynthesisError {
    /// A variant of an earlier version has no semantically equal variant in a
    /// later one.
    MissingPredecessor,
    /// The table of a version does not have the length that the families'
    /// declarations give.
    DensityMismatch,
    /// The first slot does not hold the invalid variant.
    FirstSlotNotInvalid,
    /// The variants do not fit the index field.
    TableOverflow,
    /// A family has a first input that is a register or an immediate, which
    /// the legacy enumeration cannot spell.
    UnknownOperandCombination,
    /// A variant other than the invalid one has two slots of the table.
    DuplicateVariant,
    /// The table lacks the `nop` variant or the panic variant, from which the
    /// derived code words are made.
    MissingDerivedVariant,
}

/// Whether `new` holds a variant that executes as `variant` does.
pub open spec fn has_counterpart(new: Seq<OpcodeVariant>, variant: OpcodeVariant) -> bool {
    exists|j: int| 0 <= j < new.len() && spec_semantically_equal(#[trigger] new[j], variant)
}

/// Whether every variant of `old` has a semantic counterpart in `new`: a later
/// version must offer all that an earlier one did.
pub open spec fn covers(new: Seq<OpcodeVariant>, old: Seq<OpcodeVariant>) -> bool {
    forall|i: int| 0 <= i < old.len() ==> has_counterpart(new, #[trigger] old[i])
}

/// The least index from `start` on at which `table` holds a variant that
/// executes as `variant` does, or the length of `table` if there is none.
pub open spec fn find_equivalent(
    table: Seq<OpcodeVariant>,
    variant: OpcodeVariant,
    start: int,
) -> int
    decreases table.len() - start,
{
    if start < 0 || start >= table.len() {
        table.len() as int
    } else if spec_semantically_equal(variant, table[start]) {
        start
    } else {
        find_equivalent(table, variant, start + 1)
    }
}

/// The table after one variant of a later version has been merged in place: it
/// takes the slot of the first variant that executes as it does, if any.
pub open spec fn merge_in_place(table: Seq<OpcodeVariant>, variant: OpcodeVariant) -> Seq<
    OpcodeVariant,
> {
    if find_equivalent(table, variant, 0) < table.len() {
        table.update(find_equivalent(table, variant, 0), variant)
    } else {
        table
    }
}

/// The table after the first `n` variants of `new` have been merged in place,
/// one after the other.
pub open spec fn merged_in_place(old: Seq<OpcodeVariant>, new: Seq<OpcodeVariant>, n: nat) -> Seq<
    OpcodeVariant,
>
    decreases n,
{
    if n == 0 {
        old
    } else {
        merge_in_place(merged_in_place(old, new, (n - 1) as nat), new[n - 1])
    }
}

/// Those of the first `n` variants of `new` that found no slot to take, in
/// their order.
pub open spec fn merged_difference(
    old: Seq<OpcodeVariant>,
    new: Seq<OpcodeVariant>,
    n: nat,
) -> Seq<OpcodeVariant>
    decreases n,
{
    if n == 0 {
        Seq::empty()
    } else if find_equivalent(merged_in_place(old, new, (n - 1) as nat), new[n - 1], 0)
        < old.len() {
        merged_difference(old, new, (n - 1) as nat)
    } else {
        merged_difference(old, new, (n - 1) as nat).push(new[n - 1])
    }
}

/// The table extended by a later version: the old slots, each holding the
/// spelling that the later version gives its variant, and behind them the
/// variants that are new.
pub open spec fn extended_table(old: Seq<OpcodeVariant>, new: Seq<OpcodeVariant>) -> Seq<
    OpcodeVariant,
> {
    merged_in_place(old, new, new.len()) + merged_difference(old, new, new.len())
}

/// What `find_equivalent` finds: the first equivalent slot from `start` on.
pub proof fn lemma_find_equivalent(table: Seq<OpcodeVariant>, variant: OpcodeVariant, start: int)
    requires
        0 <= start <= table.len(),
    ensures
        start <= find_equivalent(table, variant, start) <= table.len(),
        find_equivalent(table, variant, start) < table.len() ==> spec_semantically_equal(
            variant,
            table[find_equivalent(table, variant, start)],
        ),
        forall|i: int|
            start <= i < find_equivalent(table, variant, start) ==> !spec_semantically_equal(
                variant,
                #[trigger] table[i],
            ),
    decreases table.len() - start,
{
    if start < table.len() && !spec_semantically_equal(variant, table[start]) {
        lemma_find_equivalent(table, variant, start + 1);
    }
}

/// Merging in place keeps the length of the table, and every slot keeps a
/// variant that executes as the one it held.
pub proof fn lemma_merged_in_place(old: Seq<OpcodeVariant>, new: Seq<OpcodeVariant>, n: nat)
    requires
        n <= new.len(),
    ensures
        merged_in_place(old, new, n).len() == old.len(),
        forall|i: int|
            0 <= i < old.len() ==> spec_semantically_equal(
                #[trigger] old[i],
                merged_in_place(old, new, n)[i],
            ),
    decreases n,
{
    if n > 0 {
        lemma_merged_in_place(old, new, (n - 1) as nat);
        let prev = merged_in_place(old, new, (n - 1) as nat);
        lemma_find_equivalent(prev, new[n - 1], 0);
    }
}

/// Index stability: extending the table moves no slot, and every old slot
/// holds a variant that executes as the one it held before.
pub proof fn lemma_extension_is_stable(old: Seq<OpcodeVariant>, new: Seq<OpcodeVariant>)
    ensures
        extended_table(old, new).len() >= old.len(),
        forall|i: int|
            0 <= i < old.len() ==> spec_semantically_equal(
                #[trigger] old[i],
                extended_table(old, new)[i],
            ),
{
    lemma_merged_in_place(old, new, new.len());
}

/// Merges the variants of a later version into the table `accumulator`.
///
/// A variant of `new` takes the slot of the first variant of the table that
/// executes as it does; the variants that find no such slot are returned, in
/// their order, for the caller to append. Where the table holds a variant that
/// has no counterpart in `new`, nothing is merged.
pub fn find_new_opcodes(accumulator: &mut Vec<OpcodeVariant>, new: &[OpcodeVariant]) -> (r: Result<
    Vec<OpcodeVariant>,
    SynthesisError,
>)
    ensures
        match r {
            Ok(difference) => {
                &&& covers(new@, old(accumulator)@)
                &&& final(accumulator)@ == merged_in_place(old(accumulator)@, new@, new@.len())
                &&& difference@ == merged_difference(old(accumulator)@, new@, new@.len())
            },
            Err(e) => {
                &&& e == SynthesisError::MissingPredecessor
                &&& !covers(new@, old(accumulator)@)
                &&& final(accumulator)@ == old(accumulator)@
            },
        },
{
    let ghost before = accumulator@;
    // A later version must offer all that an earlier one did.
    let mut i: usize = 0;
    while i < accumulator.len()
        invariant
            i <= accumulator.len(),
            accumulator@ == before,
            forall|k: int| 0 <= k < i ==> has_counterpart(new@, #[trigger] before[k]),
        decreases accumulator.len() - i,
    {
        let mut found_equal = false;
        let mut j: usize = 0;
        while j < new.len() && !found_equal
            invariant
                j <= new.len(),
                i < accumulator.len(),
                accumulator@ == before,
                found_equal ==> has_counterpart(new@, before[i as int]),
                !found_equal ==> forall|k: int|
                    0 <= k < j ==> !spec_semantically_equal(#[trigger] new@[k], before[i as int]),
            decreases new.len() - j + (if found_equal { 0int } else { 1int }),
        {
            if semantically_equal(&new[j], &accumulator[i]) {
                found_equal = true;
            }
            j += 1;
        }
        if !found_equal {
            assert(!has_counterpart(new@, before[i as int]));
            return Err(SynthesisError::MissingPredecessor);
        }
        i += 1;
    }
    assert(covers(new@, before));

    let mut difference: Vec<OpcodeVariant> = Vec::new();
    let mut n: usize = 0;
    while n < new.len()
        invariant
            n <= new.len(),
            accumulator@ == merged_in_place(before, new@, n as nat),
            accumulator@.len() == before.len(),
            difference@ == merged_difference(before, new@, n as nat),
        decreases new.len() - n,
    {
        let candidate = new[n];
        let ghost table = accumulator@;
        let mut found_equivalent = false;
        let mut k: usize = 0;
        while k < accumulator.len() && !found_equivalent
            invariant
                k <= accumulator.len(),
                accumulator@.len() == table.len(),
                !found_equivalent ==> accumulator@ == table,
                !found_equivalent ==> find_equivalent(table, candidate, 0) == find_equivalent(
                    table,
                    candidate,
                    k as int,
                ),
                found_equivalent ==> find_equivalent(table, candidate, 0) < table.len(),
                found_equivalent ==> accumulator@ == merge_in_place(table, candidate),
            decreases accumulator.len() - k + (if found_equivalent { 0int } else { 1int }),
        {
            if semantically_equal(&candidate, &accumulator[k]) {
                found_equivalent = true;
                accumulator[k] = candidate;
            }
            k += 1;
        }
        if !found_equivalent {
            difference.push(candidate);
        }
        proof {
            lemma_merged_in_place(before, new@, n as nat);
        }
        n += 1;
    }
    Ok(difference)
}

/// The table after the first `n` registered versions, of those that are not
/// later than `up_to_version`, have been folded in.
pub open spec fn synthesis_prefix(up_to_version: ISAVersion, n: nat) -> Result<
    Seq<OpcodeVariant>,
    SynthesisError,
>
    decreases n,
{
    if n == 0 {
        Ok(Seq::empty())
    } else {
        match synthesis_prefix(up_to_version, (n - 1) as nat) {
            Err(e) => Err(e),
            Ok(table) => {
                let version = spec_all_isa_versions()[n - 1];
                let new = spec_all_variants_in_version(version);
                if version.0 > up_to_version.0 {
                    Ok(table)
                } else if !covers(new, table) {
                    Err(SynthesisError::MissingPredecessor)
                } else if extended_table(table, new).len() != spec_encoding_density(version) {
                    Err(SynthesisError::DensityMismatch)
                } else {
                    Ok(extended_table(table, new))
                }
            },
        }
    }
}

/// The table padded with the invalid variant to `size` slots.
pub open spec fn padded_table(table: Seq<OpcodeVariant>, size: nat) -> Seq<OpcodeVariant> {
    Seq::new(
        size,
        |i: int|
            if i < table.len() {
                table[i]
            } else {
                spec_invalid_opcode_variant()
            },
    )
}

/// The decoding table with `2^table_bits` slots for the versions up to
/// `up_to_version`, or the reason why there is none.
pub open spec fn spec_synthesize_opcode_decoding_tables(
    table_bits: usize,
    up_to_version: ISAVersion,
) -> Result<Seq<OpcodeVariant>, SynthesisError> {
    match synthesis_prefix(up_to_version, spec_all_isa_versions().len()) {
        Err(e) => Err(e),
        Ok(table) => if table.len() == 0 || table[0] != spec_invalid_opcode_variant() {
            Err(SynthesisError::FirstSlotNotInvalid)
        } else if table.len() > pow2(table_bits as nat) {
            Err(SynthesisError::TableOverflow)
        } else {
            Ok(padded_table(table, pow2(table_bits as nat)))
        },
    }
}

/// `2^bits` as a machine integer.
fn table_size(bits: usize) -> (r: usize)
    requires
        bits < 32,
    ensures
        r == pow2(bits as nat),
        1 <= r <= 0x8000_0000,
{
    proof {
        lemma2_to64();
        if bits < 31 {
            lemma_pow2_strictly_increases(bits as nat, 31);
        }
        if bits > 0 {
            lemma_pow2_strictly_increases(0, bits as nat);
        }
        vstd::bits::lemma_usize_shl_is_mul(1usize, bits);
    }
    1usize << bits
}

/// Synthesizes the decoding table with `2^table_bits` slots for the versions up
/// to `up_to_version`.
///
/// The registered versions are folded in ascending order. The variants of the
/// first become the table. Each later version is merged in: its spelling of a
/// variant takes the slot that the variant has, and what is new to the version
/// is appended, so that no index ever moves. After each version the length of
/// the table is checked against the density of the version. At the end the
/// first slot must hold the invalid variant, and the table is padded with that
/// variant to its full size. Where a check fails there is no table, only the
/// reason.
///
/// With the families as they are declared no check but the last can fail: an
/// index field of eleven bits or more holds the variants of every version, and
/// a narrower one holds those of none.
pub fn synthesize_opcode_decoding_tables(table_bits: usize, up_to_version: ISAVersion) -> (r:
    Result<Vec<OpcodeVariant>, SynthesisError>)
    requires
        table_bits < 32,
    ensures
        match r {
            Ok(table) => {
                &&& spec_synthesize_opcode_decoding_tables(table_bits, up_to_version) == Ok::<
                    Seq<OpcodeVariant>,
                    SynthesisError,
                >(table@)
                &&& table@.len() == pow2(table_bits as nat)
                &&& table@[0] == spec_invalid_opcode_variant()
            },
            Err(e) => spec_synthesize_opcode_decoding_tables(table_bits, up_to_version) == Err::<
                Seq<OpcodeVariant>,
                SynthesisError,
            >(e),
        },
        table_bits >= OPCODES_TABLE_WIDTH ==> r is Ok,
        table_bits < OPCODES_TABLE_WIDTH ==> r == Err::<Vec<OpcodeVariant>, SynthesisError>(
            SynthesisError::TableOverflow,
        ),
{
    proof {
        lemma_synthesis_outcome(table_bits, up_to_version);
    }
    let versions = all_isa_versions();
    let mut result: Vec<OpcodeVariant> = Vec::new();
    let mut v: usize = 0;
    while v < NUM_ISA_VERSIONS
        invariant
            v <= NUM_ISA_VERSIONS,
            versions@ == spec_all_isa_versions(),
            synthesis_prefix(up_to_version, v as nat) == Ok::<Seq<OpcodeVariant>, SynthesisError>(
                result@,
            ),
            result@.len() <= 15360,
            table_bits >= 11 ==> spec_synthesize_opcode_decoding_tables(
                table_bits,
                up_to_version,
            ) is Ok,
            table_bits < 11 ==> spec_synthesize_opcode_decoding_tables(table_bits, up_to_version)
                == Err::<Seq<OpcodeVariant>, SynthesisError>(SynthesisError::TableOverflow),
        decreases NUM_ISA_VERSIONS - v,
    {
        let version = versions[v];
        if version.0 <= up_to_version.0 {
            let all_opcodes_in_version = all_variants_in_version(version);
            let ghost table = result@;
            match find_new_opcodes(&mut result, all_opcodes_in_version.as_slice()) {
                Err(e) => {
                    proof {
                        lemma_failure_is_final(up_to_version, (v + 1) as nat, 2);
                    }
                    return Err(e);
                },
                Ok(mut new_opcodes) => {
                    proof {
                        lemma_enumeration_matches_density(version);
                    }
                    let density = compute_encoding_density(version);
                    if new_opcodes.len() > density || result.len() != density - new_opcodes.len() {
                        proof {
                            lemma_failure_is_final(up_to_version, (v + 1) as nat, 2);
                        }
                        return Err(SynthesisError::DensityMismatch);
                    }
                    result.append(&mut new_opcodes);
                },
            }
        }
        v += 1;
    }
    let invalid = invalid_opcode_variant();
    if result.len() == 0 || result[0] != invalid {
        return Err(SynthesisError::FirstSlotNotInvalid);
    }
    let size = table_size(table_bits);
    if result.len() > size {
        return Err(SynthesisError::TableOverflow);
    }
    let ghost table = result@;
    while result.len() < size
        invariant
            table.len() <= result@.len() <= size,
            invalid == spec_invalid_opcode_variant(),
            result@ == padded_table(table, result@.len()),
        decreases size - result.len(),
    {
        result.push(invalid);
    }
    Ok(result)
}

/// Whether the legacy enumeration can spell the operands of a family: it knows
/// registers and fully addressable operands only.
pub open spec fn legacy_supports(proto: Opcode, version: ISAVersion) -> bool {
    !(proto.spec_input_operands(version).len() > 0 && proto.spec_input_operands(
        version,
    )[0] is RegOrImm)
}

/// The legacy variants of one sub-variant: spelled as the opcode that stands
/// for the family is, whatever the operands of the sub-variant itself.
pub open spec fn legacy_subvariant_block(
    proto: Opcode,
    version: ISAVersion,
    data: OpcodeVariantData,
) -> Seq<OpcodeVariant> {
    match proto.spec_materialize_subvariant_from_prototype(data.variant_idx, version) {
        Some(opcode) => sources_block(
            opcode,
            source_spellings(proto.spec_input_operands(version)),
            destination_spellings(proto.spec_output_operands(version)),
            data.num_non_exclusive_flags,
            source_spellings(proto.spec_input_operands(version)).len(),
        ),
        None => Seq::empty(),
    }
}

/// The legacy variants of the first `n` sub-variants of a family.
pub open spec fn legacy_family_block(proto: Opcode, version: ISAVersion, n: nat) -> Seq<
    OpcodeVariant,
>
    decreases n,
{
    if n == 0 {
        Seq::empty()
    } else {
        legacy_family_block(proto, version, (n - 1) as nat) + legacy_subvariant_block(
            proto,
            version,
            proto.spec_variants_data(version)[n - 1],
        )
    }
}

/// The legacy variants of the first `n` families, or the failure that the
/// first family with operands that the legacy enumeration cannot spell causes.
pub open spec fn legacy_families_block(version: ISAVersion, n: nat) -> Result<
    Seq<OpcodeVariant>,
    SynthesisError,
>
    decreases n,
{
    if n == 0 {
        Ok(Seq::empty())
    } else {
        match legacy_families_block(version, (n - 1) as nat) {
            Err(e) => Err(e),
            Ok(table) => if legacy_supports(spec_all_opcode_prototypes()[n - 1], version) {
                Ok(
                    table + legacy_family_block(
                        spec_all_opcode_prototypes()[n - 1],
                        version,
                        spec_all_opcode_prototypes()[n - 1].spec_variants_data(version).len(),
                    ),
                )
            } else {
                Err(SynthesisError::UnknownOperandCombination)
            },
        }
    }
}

/// The legacy table after the first `n` registered versions, of those that are
/// not later than `up_to_version`: every version appends all of its variants.
pub open spec fn legacy_prefix(up_to_version: ISAVersion, n: nat) -> Result<
    Seq<OpcodeVariant>,
    SynthesisError,
>
    decreases n,
{
    if n == 0 {
        Ok(Seq::empty())
    } else {
        match legacy_prefix(up_to_version, (n - 1) as nat) {
            Err(e) => Err(e),
            Ok(table) => {
                let version = spec_all_isa_versions()[n - 1];
                if version.0 > up_to_version.0 {
                    Ok(table)
                } else {
                    match legacy_families_block(version, spec_all_opcode_prototypes().len()) {
                        Err(e) => Err(e),
                        Ok(added) => if (table + added).len() != spec_encoding_density(version) {
                            Err(SynthesisError::DensityMismatch)
                        } else {
                            Ok(table + added)
                        },
                    }
                }
            },
        }
    }
}

/// The legacy decoding table with `2^table_bits` slots, or the reason why there
/// is none.
pub open spec fn spec_synthesize_opcode_decoding_tables_legacy(
    table_bits: usize,
    up_to_version: ISAVersion,
) -> Result<Seq<OpcodeVariant>, SynthesisError> {
    match legacy_prefix(up_to_version, spec_all_isa_versions().len()) {
        Err(e) => Err(e),
        Ok(table) => if table.len() == 0 || table[0] != spec_invalid_opcode_variant() {
            Err(SynthesisError::FirstSlotNotInvalid)
        } else if table.len() > pow2(table_bits as nat) {
            Err(SynthesisError::TableOverflow)
        } else {
            Ok(padded_table(table, pow2(table_bits as nat)))
        },
    }
}

/// Appends the legacy variants of the family of `proto` at `version`.
fn push_legacy_family_block(result: &mut Vec<OpcodeVariant>, proto: Opcode, version: ISAVersion)
    ensures
        final(result)@ == old(result)@ + legacy_family_block(
            proto,
            version,
            proto.spec_variants_data(version).len(),
        ),
{
    let ghost before = result@;
    let variants = proto.variants_data(version);
    let inputs = proto.input_operands(version);
    let outputs = proto.output_operands(version);
    let srcs = source_spellings_of(&inputs);
    let dsts = destination_spellings_of(&outputs);
    let mut i: usize = 0;
    while i < variants.len()
        invariant
            i <= variants.len(),
            variants@ == proto.spec_variants_data(version),
            srcs@ == source_spellings(proto.spec_input_operands(version)),
            dsts@ == destination_spellings(proto.spec_output_operands(version)),
            result@ == before + legacy_family_block(proto, version, i as nat),
        decreases variants.len() - i,
    {
        let variant_data = variants[i];
        match proto.try_materialize_subvariant_from_prototype(variant_data.variant_idx, &version) {
            Some(opcode) => {
                push_spellings_block(
                    result,
                    opcode,
                    &srcs,
                    &dsts,
                    variant_data.num_non_exclusive_flags,
                );
            },
            None => {},
        }
        i += 1;
    }
}

/// Whether the legacy enumeration can spell the operands of a family.
fn legacy_can_spell(proto: &Opcode, version: ISAVersion) -> (r: bool)
    ensures
        r == legacy_supports(*proto, version),
{
    let inputs = proto.input_operands(version);
    if inputs.len() == 0 {
        true
    } else {
        match inputs[0] {
            Operand::RegOrImm(_) => false,
            _ => true,
        }
    }
}

/// Once the legacy enumeration of a version has failed it stays failed.
proof fn lemma_legacy_families_failure_is_final(version: ISAVersion, n: nat, m: nat)
    requires
        n <= m,
        legacy_families_block(version, n) is Err,
    ensures
        legacy_families_block(version, m) == legacy_families_block(version, n),
    decreases m,
{
    if n < m {
        lemma_legacy_families_failure_is_final(version, n, (m - 1) as nat);
    }
}

/// Once the legacy fold has failed it stays failed, with the same reason.
proof fn lemma_legacy_failure_is_final(up_to_version: ISAVersion, n: nat, m: nat)
    requires
        n <= m,
        legacy_prefix(up_to_version, n) is Err,
    ensures
        legacy_prefix(up_to_version, m) == legacy_prefix(up_to_version, n),
    decreases m,
{
    if n < m {
        lemma_legacy_failure_is_final(up_to_version, n, (m - 1) as nat);
    }
}

/// What is known of the outcome of the legacy synthesis before it runs.
pub open spec fn legacy_outcome_is_known(table_bits: usize, up_to_version: ISAVersion) -> bool {
    &&& up_to_version.0 == 0 ==> spec_synthesize_opcode_decoding_tables_legacy(
        table_bits,
        up_to_version,
    ) == spec_synthesize_opcode_decoding_tables(table_bits, up_to_version)
    &&& up_to_version.0 == 0 && table_bits >= 11
        ==> spec_synthesize_opcode_decoding_tables_legacy(table_bits, up_to_version) is Ok
    &&& up_to_version.0 >= 1 ==> spec_synthesize_opcode_decoding_tables_legacy(
        table_bits,
        up_to_version,
    ) == Err::<Seq<OpcodeVariant>, SynthesisError>(SynthesisError::UnknownOperandCombination)
}

/// Synthesizes the decoding table as it was synthesized before a family could
/// take a register or an immediate as its first input.
///
/// Every registered version up to `up_to_version` appends all of its variants,
/// each sub-variant spelled as the opcode that stands for its family. For the
/// first version this is the table of `synthesize_opcode_decoding_tables`; a
/// later version fails one of the checks.
pub fn synthesize_opcode_decoding_tables_legacy(
    table_bits: usize,
    up_to_version: ISAVersion,
) -> (r: Result<Vec<OpcodeVariant>, SynthesisError>)
    requires
        table_bits < 32,
    ensures
        match r {
            Ok(table) => {
                &&& spec_synthesize_opcode_decoding_tables_legacy(table_bits, up_to_version)
                    == Ok::<Seq<OpcodeVariant>, SynthesisError>(table@)
                &&& table@.len() == pow2(table_bits as nat)
                &&& table@[0] == spec_invalid_opcode_variant()
            },
            Err(e) => spec_synthesize_opcode_decoding_tables_legacy(table_bits, up_to_version)
                == Err::<Seq<OpcodeVariant>, SynthesisError>(e),
        },
        up_to_version.0 == 0 ==> spec_synthesize_opcode_decoding_tables_legacy(
            table_bits,
            up_to_version,
        ) == spec_synthesize_opcode_decoding_tables(table_bits, up_to_version),
        up_to_version.0 == 0 && table_bits >= OPCODES_TABLE_WIDTH ==> r is Ok,
        up_to_version.0 >= 1 ==> r == Err::<Vec<OpcodeVariant>, SynthesisError>(
            SynthesisError::UnknownOperandCombination,
        ),
{
    proof {
        lemma_legacy_outcome(table_bits, up_to_version);
        lemma_synthesis_outcome(table_bits, up_to_version);
    }
    let all_opcodes = all_opcodes();
    let versions = all_isa_versions();
    let mut result: Vec<OpcodeVariant> = Vec::new();
    let mut v: usize = 0;
    while v < NUM_ISA_VERSIONS
        invariant
            v <= NUM_ISA_VERSIONS,
            versions@ == spec_all_isa_versions(),
            all_opcodes@ == spec_all_opcode_prototypes(),
            legacy_prefix(up_to_version, v as nat) == Ok::<Seq<OpcodeVariant>, SynthesisError>(
                result@,
            ),
            legacy_outcome_is_known(table_bits, up_to_version),
        decreases NUM_ISA_VERSIONS - v,
    {
        let version = versions[v];
        if version.0 <= up_to_version.0 {
            let ghost table = result@;
            let mut i: usize = 0;
            while i < all_opcodes.len()
                invariant
                    i <= all_opcodes.len(),
                    v < NUM_ISA_VERSIONS,
                    version == spec_all_isa_versions()[v as int],
                    version.0 <= up_to_version.0,
                    all_opcodes@ == spec_all_opcode_prototypes(),
                    legacy_prefix(up_to_version, v as nat) == Ok::<
                        Seq<OpcodeVariant>,
                        SynthesisError,
                    >(table),
                    legacy_families_block(version, i as nat) matches Ok(added) && result@ == table
                        + added,
                    legacy_outcome_is_known(table_bits, up_to_version),
                decreases all_opcodes.len() - i,
            {
                let opcode = all_opcodes[i];
                if !legacy_can_spell(&opcode, version) {
                    proof {
                        lemma_legacy_families_failure_is_final(version, (i + 1) as nat, 16);
                        lemma_legacy_failure_is_final(up_to_version, (v + 1) as nat, 2);
                    }
                    return Err(SynthesisError::UnknownOperandCombination);
                }
                push_legacy_family_block(&mut result, opcode, version);
                i += 1;
            }
            let density = compute_encoding_density(version);
            if result.len() != density {
                proof {
                    lemma_legacy_failure_is_final(up_to_version, (v + 1) as nat, 2);
                }
                return Err(SynthesisError::DensityMismatch);
            }
        }
        v += 1;
    }
    let invalid = invalid_opcode_variant();
    if result.len() == 0 || result[0] != invalid {
        return Err(SynthesisError::FirstSlotNotInvalid);
    }
    let size = table_size(table_bits);
    if result.len() > size {
        return Err(SynthesisError::TableOverflow);
    }
    let ghost table = result@;
    while result.len() < size
        invariant
            table.len() <= result@.len() <= size,
            invalid == spec_invalid_opcode_variant(),
            result@ == padded_table(table, result@.len()),
        decreases size - result.len(),
    {
        result.push(invalid);
    }
    Ok(result)
}

/// Once the fold has failed it stays failed, with the same reason.
proof fn lemma_failure_is_final(up_to_version: ISAVersion, n: nat, m: nat)
    requires
        n <= m,
        synthesis_prefix(up_to_version, n) is Err,
    ensures
        synthesis_prefix(up_to_version, m) == synthesis_prefix(up_to_version, n),
    decreases m,
{
    if n < m {
        lemma_failure_is_final(up_to_version, n, (m - 1) as nat);
    }
}

} // verus!
