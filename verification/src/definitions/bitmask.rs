//! The one-hot description of a variant that the decoder circuit consumes: one
//! bit for the family, one for the sub-variant, one for each flag that is set,
//! one for each of the two spellings, and the auxiliary bits.

use vstd::prelude::*;
use vstd::string::*;
use crate::decimal::{decimal_chars, push_decimal};
use crate::definitions::all::Opcode;
use crate::definitions::enumeration::{all_opcodes, spec_all_opcode_prototypes};
use crate::definitions::opcode_trait::{
    all_isa_versions, spec_all_isa_versions, ISAVersion, OpcodeVariantData, NUM_ISA_VERSIONS,
};
use crate::definitions::variant::OpcodeVariant;
use crate::imm_mem_modifiers::ImmMemHandlerFlags;
use crate::{
    CAN_BE_USED_IN_STATIC_CONTEXT_FLAG_BITS, EXPLICIT_PANIC_FLAG_BITS, KERNEL_MODE_FLAG_BITS,
    NUM_OPCODES, OPCODE_INPUT_VARIANT_FLAGS, OPCODE_OUTPUT_VARIANT_FLAGS, OPCODE_TYPE_BITS,
    TOTAL_AUX_BITS, WIDTH_MULTIPLE,
};

verus! {

pub open spec fn spec_max_usize(a: usize, b: usize) -> usize {
    if a >= b {
        a
    } else {
        b
    }
}

/// The largest number of sub-variants among the first `n` families.
pub open spec fn families_max_variants(version: ISAVersion, n: nat) -> usize
    decreases n,
{
    if n == 0 {
        0
    } else {
        spec_max_usize(
            families_max_variants(version, (n - 1) as nat),
            (spec_all_opcode_prototypes()[n - 1].spec_max_variant_idx(version) + 1) as usize,
        )
    }
}

/// The largest number of sub-variants that a family has at `version`: so many
/// bits describe the sub-variant.
pub open spec fn spec_max_num_variants_for_version(version: ISAVersion) -> usize {
    families_max_variants(version, spec_all_opcode_prototypes().len())
}

/// The largest number of flags among the first `n` entries of `data`.
pub open spec fn data_max_flags(data: Seq<OpcodeVariantData>, n: nat) -> usize
    decreases n,
{
    if n == 0 {
        0
    } else {
        spec_max_usize(data_max_flags(data, (n - 1) as nat), data[n - 1].num_non_exclusive_flags)
    }
}

/// The largest number of flags that a sub-variant of the family declares in
/// one of the first `n` registered versions, of those not later than `version`.
pub open spec fn versions_max_flags(proto: Opcode, version: ISAVersion, n: nat) -> usize
    decreases n,
{
    if n == 0 {
        0
    } else if spec_all_isa_versions()[n - 1].0 <= version.0 {
        spec_max_usize(
            versions_max_flags(proto, version, (n - 1) as nat),
            data_max_flags(
                proto.spec_variants_data(spec_all_isa_versions()[n - 1]),
                proto.spec_variants_data(spec_all_isa_versions()[n - 1]).len(),
            ),
        )
    } else {
        versions_max_flags(proto, version, (n - 1) as nat)
    }
}

/// The largest number of flags among the first `n` families.
pub open spec fn families_max_flags(version: ISAVersion, n: nat) -> usize
    decreases n,
{
    if n == 0 {
        0
    } else {
        spec_max_usize(
            families_max_flags(version, (n - 1) as nat),
            versions_max_flags(
                spec_all_opcode_prototypes()[n - 1],
                version,
                spec_all_isa_versions().len(),
            ),
        )
    }
}

/// The largest number of flags that a sub-variant declares in a registered
/// version up to `version`: so many bits describe the flags.
pub open spec fn spec_max_num_flags_for_version(version: ISAVersion) -> usize {
    families_max_flags(version, spec_all_opcode_prototypes().len())
}

/// No family has more than ten sub-variants, and the context family has ten in
/// every version.
pub proof fn lemma_max_num_variants(version: ISAVersion)
    ensures
        spec_max_num_variants_for_version(version) == 10,
{
    reveal_with_fuel(families_max_variants, 17);
    let p = spec_all_opcode_prototypes();
    assert(p[0].spec_max_variant_idx(version) == 0);
    assert(p[1].spec_max_variant_idx(version) == 0);
    assert(p[2].spec_max_variant_idx(version) == 0);
    assert(p[3].spec_max_variant_idx(version) == 0);
    assert(p[4].spec_max_variant_idx(version) == 0);
    assert(p[5].spec_max_variant_idx(version) == 0);
    assert(p[6].spec_max_variant_idx(version) == 0);
    assert(p[7].spec_max_variant_idx(version) == 2);
    assert(p[8].spec_max_variant_idx(version) == 3);
    assert(p[9].spec_max_variant_idx(version) == 2);
    assert(p[10].spec_max_variant_idx(version) == 0);
    assert(p[11].spec_max_variant_idx(version) == 9);
    assert(p[12].spec_max_variant_idx(version) <= 7);
    assert(p[13].spec_max_variant_idx(version) == 2);
    assert(p[14].spec_max_variant_idx(version) == 2);
    assert(p[15].spec_max_variant_idx(version) == 4);
}

/// The largest number of flags among the entries of `data` is one of theirs or
/// zero, and none of theirs is larger.
pub proof fn lemma_data_max_flags(data: Seq<OpcodeVariantData>, n: nat, bound: usize)
    requires
        n <= data.len(),
        forall|i: int| 0 <= i < n ==> (#[trigger] data[i]).num_non_exclusive_flags <= bound,
    ensures
        data_max_flags(data, n) <= bound,
        forall|i: int|
            0 <= i < n ==> (#[trigger] data[i]).num_non_exclusive_flags <= data_max_flags(
                data,
                n,
            ),
    decreases n,
{
    if n > 0 {
        lemma_data_max_flags(data, (n - 1) as nat, bound);
    }
}

/// No sub-variant has more than two flags.
pub proof fn lemma_family_max_flags(proto: Opcode, version: ISAVersion)
    ensures
        versions_max_flags(proto, version, spec_all_isa_versions().len()) <= 2,
{
    reveal_with_fuel(versions_max_flags, 3);
    let v0 = spec_all_isa_versions()[0];
    let v1 = spec_all_isa_versions()[1];
    assert forall|i: int| 0 <= i < proto.spec_variants_data(v0).len() implies (
    #[trigger] proto.spec_variants_data(v0)[i]).num_non_exclusive_flags <= 2 by {
        crate::definitions::density::lemma_family_data(proto, v0, i);
    }
    assert forall|i: int| 0 <= i < proto.spec_variants_data(v1).len() implies (
    #[trigger] proto.spec_variants_data(v1)[i]).num_non_exclusive_flags <= 2 by {
        crate::definitions::density::lemma_family_data(proto, v1, i);
    }
    lemma_data_max_flags(proto.spec_variants_data(v0), proto.spec_variants_data(v0).len(), 2);
    lemma_data_max_flags(proto.spec_variants_data(v1), proto.spec_variants_data(v1).len(), 2);
}

/// The largest number of flags among the first `n` families is at most two.
pub proof fn lemma_families_max_flags_bound(version: ISAVersion, n: nat)
    requires
        n <= spec_all_opcode_prototypes().len(),
    ensures
        families_max_flags(version, n) <= 2,
    decreases n,
{
    if n > 0 {
        lemma_families_max_flags_bound(version, (n - 1) as nat);
        lemma_family_max_flags(spec_all_opcode_prototypes()[n - 1], version);
    }
}

/// The maximum over the first `n` families does not decrease with `n`.
proof fn lemma_families_max_flags_grows(version: ISAVersion, n: nat, m: nat)
    requires
        n <= m,
    ensures
        families_max_flags(version, n) <= families_max_flags(version, m),
    decreases m,
{
    if n < m {
        lemma_families_max_flags_grows(version, n, (m - 1) as nat);
    }
}

/// Some sub-variant has two flags in every version, and none has more.
pub proof fn lemma_max_num_flags(version: ISAVersion)
    ensures
        spec_max_num_flags_for_version(version) == 2,
{
    lemma_families_max_flags_bound(version, 16);
    // The `sub` family, fourth in the order of the families, has two flags
    // from the first version on.
    let proto = spec_all_opcode_prototypes()[3];
    let v0 = spec_all_isa_versions()[0];
    let data = proto.spec_variants_data(v0);
    assert(data.len() == 1);
    assert(data[0].num_non_exclusive_flags == 2);
    reveal_with_fuel(data_max_flags, 2);
    assert(data_max_flags(data, 1) == 2);
    reveal_with_fuel(versions_max_flags, 3);
    assert(versions_max_flags(proto, version, 1) == 2);
    assert(versions_max_flags(proto, version, 2) >= 2);
    assert(families_max_flags(version, 4) >= 2);
    lemma_families_max_flags_grows(version, 4, 16);
}

fn max_usize(a: usize, b: usize) -> (r: usize)
    ensures
        r == spec_max_usize(a, b),
{
    if a >= b {
        a
    } else {
        b
    }
}

/// The largest number of sub-variants that a family has at `version`.
pub fn max_num_variants_for_version(version: ISAVersion) -> (r: usize)
    ensures
        r == spec_max_num_variants_for_version(version),
        r == 10,
{
    let all_opcodes = all_opcodes();
    let mut max_num_variants: usize = 0;
    let mut i: usize = 0;
    while i < all_opcodes.len()
        invariant
            i <= all_opcodes.len(),
            all_opcodes@ == spec_all_opcode_prototypes(),
            max_num_variants == families_max_variants(version, i as nat),
        decreases all_opcodes.len() - i,
    {
        let max_idx = all_opcodes[i].max_variant_idx(version);
        assert(max_idx <= 9) by {
            lemma_max_variant_idx_bound(all_opcodes@[i as int], version);
        }
        // The indices start at zero.
        max_num_variants = max_usize(max_num_variants, max_idx + 1);
        i += 1;
    }
    proof {
        lemma_max_num_variants(version);
    }
    max_num_variants
}

/// No family has a sub-variant with an index above nine.
pub proof fn lemma_max_variant_idx_bound(opcode: Opcode, version: ISAVersion)
    ensures
        opcode.spec_max_variant_idx(version) <= 9,
{
}

/// The largest number of flags that a sub-variant declares in a registered
/// version up to `version`.
pub fn max_num_flags_for_version(version: ISAVersion) -> (r: usize)
    ensures
        r == spec_max_num_flags_for_version(version),
        r == 2,
{
    let all_opcodes = all_opcodes();
    let versions = all_isa_versions();
    let mut num_flags: usize = 0;
    let mut i: usize = 0;
    while i < all_opcodes.len()
        invariant
            i <= all_opcodes.len(),
            all_opcodes@ == spec_all_opcode_prototypes(),
            versions@ == spec_all_isa_versions(),
            num_flags == families_max_flags(version, i as nat),
        decreases all_opcodes.len() - i,
    {
        let op = all_opcodes[i];
        let mut max_for_opcode: usize = 0;
        let mut v: usize = 0;
        while v < NUM_ISA_VERSIONS
            invariant
                v <= NUM_ISA_VERSIONS,
                versions@ == spec_all_isa_versions(),
                max_for_opcode == versions_max_flags(op, version, v as nat),
            decreases NUM_ISA_VERSIONS - v,
        {
            let el = versions[v];
            if el.0 <= version.0 {
                let data = op.variants_data(el);
                let mut max_flags_for_added_in_this_version: usize = 0;
                let mut k: usize = 0;
                while k < data.len()
                    invariant
                        k <= data.len(),
                        max_flags_for_added_in_this_version == data_max_flags(data@, k as nat),
                    decreases data.len() - k,
                {
                    max_flags_for_added_in_this_version = max_usize(
                        max_flags_for_added_in_this_version,
                        data[k].num_non_exclusive_flags,
                    );
                    k += 1;
                }
                max_for_opcode = max_usize(max_for_opcode, max_flags_for_added_in_this_version);
            }
            v += 1;
        }
        num_flags = max_usize(num_flags, max_for_opcode);
        i += 1;
    }
    proof {
        lemma_max_num_flags(version);
    }
    num_flags
}

/// How many bits describe a variant before the auxiliary bits: one for each
/// family, sub-variant, flag, source spelling and destination spelling.
pub open spec fn spec_total_description_bits_for_version(version: ISAVersion) -> usize {
    (OPCODE_TYPE_BITS + spec_max_num_variants_for_version(version)
        + spec_max_num_flags_for_version(version) + OPCODE_INPUT_VARIANT_FLAGS
        + OPCODE_OUTPUT_VARIANT_FLAGS) as usize
}

/// The number of description bits, rounded up to a multiple of sixteen.
pub open spec fn spec_total_description_bits_rounded_for_version(version: ISAVersion) -> usize {
    let total = spec_total_description_bits_for_version(version);
    if total % WIDTH_MULTIPLE != 0 {
        (total + (WIDTH_MULTIPLE - total % WIDTH_MULTIPLE)) as usize
    } else {
        total
    }
}

pub fn total_description_bits_for_version(version: ISAVersion) -> (r: usize)
    ensures
        r == spec_total_description_bits_for_version(version),
        r == 38,
{
    let total = OPCODE_TYPE_BITS + max_num_variants_for_version(version)
        + max_num_flags_for_version(version) + OPCODE_INPUT_VARIANT_FLAGS
        + OPCODE_OUTPUT_VARIANT_FLAGS;
    total
}

pub fn total_description_bits_rounded_for_version(version: ISAVersion) -> (r: usize)
    ensures
        r == spec_total_description_bits_rounded_for_version(version),
        r == 48,
        r % WIDTH_MULTIPLE == 0,
{
    let mut total = OPCODE_TYPE_BITS + max_num_variants_for_version(version)
        + max_num_flags_for_version(version) + OPCODE_INPUT_VARIANT_FLAGS
        + OPCODE_OUTPUT_VARIANT_FLAGS;
    if total % WIDTH_MULTIPLE != 0 {
        total += WIDTH_MULTIPLE - total % WIDTH_MULTIPLE;
    }
    total
}

pub fn total_opcode_description_and_aux_bits_for_version(version: ISAVersion) -> (r: usize)
    ensures
        r == spec_total_description_bits_rounded_for_version(version) + TOTAL_AUX_BITS,
        r == 51,
{
    total_description_bits_rounded_for_version(version) + TOTAL_AUX_BITS
}

/// The description of the layout of the description bits, in words.
pub open spec fn spec_compute_decoding_format(version: ISAVersion) -> Seq<char> {
    decimal_chars(spec_total_description_bits_for_version(version) as nat)
        + " bits in total.\n"@ + decimal_chars(NUM_OPCODES as nat) + " bit flags for opcode|"@
        + decimal_chars(spec_max_num_variants_for_version(version) as nat)
        + " bit flags for variant|"@ + decimal_chars(
        spec_max_num_flags_for_version(version) as nat,
    ) + " bit flags for flags|"@ + decimal_chars(OPCODE_INPUT_VARIANT_FLAGS as nat)
        + " bits flags for input type|"@ + decimal_chars(OPCODE_OUTPUT_VARIANT_FLAGS as nat)
        + " bit flags for output type"@
}

/// Says in words how the description bits of a variant are laid out: how many
/// there are, and how many of them describe the family, the sub-variant, the
/// flags, the source and the destination.
pub fn compute_decoding_format(assert_version: ISAVersion) -> (r: String)
    ensures
        r@ == spec_compute_decoding_format(assert_version),
{
    let all_opcodes = all_opcodes();
    let num_opcodes = all_opcodes.len();
    let num_options = max_num_variants_for_version(assert_version);
    let num_flags = max_num_flags_for_version(assert_version);
    let input_flags = ImmMemHandlerFlags::num_src_variants();
    let output_flags = ImmMemHandlerFlags::num_dst_variants();
    let total_bits = num_opcodes + num_options + num_flags + input_flags + output_flags;

    let mut out = String::new();
    push_decimal(&mut out, total_bits as u64);
    out.append(" bits in total.\n");
    push_decimal(&mut out, num_opcodes as u64);
    out.append(" bit flags for opcode|");
    push_decimal(&mut out, num_options as u64);
    out.append(" bit flags for variant|");
    push_decimal(&mut out, num_flags as u64);
    out.append(" bit flags for flags|");
    push_decimal(&mut out, input_flags as u64);
    out.append(" bits flags for input type|");
    push_decimal(&mut out, output_flags as u64);
    out.append(" bit flags for output type");
    assert(out@ =~= spec_compute_decoding_format(assert_version));
    out
}

/// Whether bit `k` of a word is set.
pub open spec fn bit_is_set(word: u64, k: u64) -> bool {
    (word >> k) & 1 == 1
}

/// Whether bit `k` of the description of `variant` is set.
///
/// From bit 0: sixteen bits of which the one at the family's index is set; ten
/// bits of which the one at the sub-variant's index is set; the two flags; six
/// bits of which the one at the index of the source spelling is set; four bits
/// for the destination spelling likewise. From the next multiple of sixteen:
/// whether the opcode requires kernel mode, whether it can be used in a static
/// context, and whether it is the invalid opcode, which panics.
pub open spec fn variant_bit(variant: OpcodeVariant, version: ISAVersion, k: u64) -> bool {
    let variants_shift = NUM_OPCODES;
    let flags_shift = variants_shift + spec_max_num_variants_for_version(version);
    let src_shift = flags_shift + spec_max_num_flags_for_version(version);
    let dst_shift = src_shift + ImmMemHandlerFlags::spec_all_variants().len();
    let aux_shift = spec_total_description_bits_rounded_for_version(version);
    ||| k == variant.opcode.spec_variant_idx()
    ||| k == variants_shift + variant.opcode.spec_materialize_subvariant_idx()
    ||| (k == flags_shift && variant.flags@[0])
    ||| (k == flags_shift + 1 && variant.flags@[1])
    ||| k == src_shift + variant.src0_operand_type.spec_variant_idx()
    ||| k == dst_shift + variant.dst0_operand_type.spec_variant_idx()
    ||| (k == aux_shift && variant.opcode.spec_requires_kernel_mode())
    ||| (k == aux_shift + KERNEL_MODE_FLAG_BITS
        && variant.opcode.spec_can_be_used_in_static_context())
    ||| (k == aux_shift + KERNEL_MODE_FLAG_BITS + CAN_BE_USED_IN_STATIC_CONTEXT_FLAG_BITS
        && variant.spec_is_explicit_panic())
}

/// Whether `word` is the description of `variant`: exactly the bits of the
/// variant are set.
pub open spec fn is_bitmask_of(word: u64, variant: OpcodeVariant, version: ISAVersion) -> bool {
    forall|k: u64| k < 64 ==> (#[trigger] bit_is_set(word, k) <==> variant_bit(variant, version, k))
}

/// Setting one bit of a word changes that bit and no other.
pub proof fn lemma_set_bit(word: u64, position: u64, k: u64)
    by (bit_vector)
    requires
        position < 64,
        k < 64,
    ensures
        ((word | (1u64 << position)) >> k) & 1 == 1 <==> (((word >> k) & 1 == 1) || k
            == position),
{
}

/// No bit of zero is set.
pub proof fn lemma_zero_has_no_bit(k: u64)
    by (bit_vector)
    requires
        k < 64,
    ensures
        (0u64 >> k) & 1 != 1,
{
}

/// A word with the bit at `position` set as well.
fn with_bit(word: u64, position: usize) -> (r: u64)
    requires
        position < 64,
    ensures
        forall|k: u64|
            k < 64 ==> (#[trigger] bit_is_set(r, k) <==> (bit_is_set(word, k) || k == position)),
{
    let r = word | (1u64 << (position as u64));
    assert forall|k: u64| k < 64 implies (#[trigger] bit_is_set(r, k) <==> (bit_is_set(word, k)
        || k == position)) by {
        lemma_set_bit(word, position as u64, k);
    }
    r
}

/// The one-hot description of a variant.
pub fn opcode_as_integer_bitmask(full_opcode_variant: &OpcodeVariant, version: ISAVersion) -> (r:
    u64)
    ensures
        is_bitmask_of(r, *full_opcode_variant, version),
{
    let max_variant_bits_in_version = max_num_variants_for_version(version);
    let max_num_flags_in_version = max_num_flags_for_version(version);
    let ghost variant = *full_opcode_variant;

    let mut encoding: u64 = 0;
    let mut global_shift: usize = 0;
    proof {
        assert forall|k: u64| k < 64 implies !bit_is_set(0u64, k) by {
            lemma_zero_has_no_bit(k);
        }
    }
    // The family.
    encoding = with_bit(encoding, global_shift + full_opcode_variant.opcode.variant_idx());
    global_shift += NUM_OPCODES;
    // The sub-variant.
    encoding = with_bit(
        encoding,
        global_shift + full_opcode_variant.opcode.materialize_subvariant_idx(),
    );
    global_shift += max_variant_bits_in_version;
    // The flags.
    let mut i: usize = 0;
    while i < 2
        invariant
            i <= 2,
            global_shift == 26,
            variant == *full_opcode_variant,
            forall|k: u64|
                k < 64 ==> (#[trigger] bit_is_set(encoding, k) <==> (k
                    == variant.opcode.spec_variant_idx() || k == 16
                    + variant.opcode.spec_materialize_subvariant_idx() || (k == 26 && i > 0
                    && variant.flags@[0]) || (k == 27 && i > 1 && variant.flags@[1]))),
        decreases 2 - i,
    {
        if full_opcode_variant.flags[i] {
            encoding = with_bit(encoding, global_shift + i);
        }
        i += 1;
    }
    global_shift += max_num_flags_in_version;
    // The spelling of the first source.
    encoding = with_bit(
        encoding,
        global_shift + full_opcode_variant.src0_operand_type.variant_idx(),
    );
    global_shift += ImmMemHandlerFlags::num_src_variants();
    // The spelling of the first destination.
    encoding = with_bit(
        encoding,
        global_shift + full_opcode_variant.dst0_operand_type.variant_idx(),
    );
    global_shift += ImmMemHandlerFlags::num_dst_variants();

    let aligned_num_description_bits = total_description_bits_rounded_for_version(version);
    assert(global_shift <= aligned_num_description_bits);
    global_shift = aligned_num_description_bits;
    // The auxiliary bits.
    if full_opcode_variant.requires_kernel_mode() {
        encoding = with_bit(encoding, global_shift);
    }
    global_shift += KERNEL_MODE_FLAG_BITS;
    if full_opcode_variant.can_be_used_in_static_context() {
        encoding = with_bit(encoding, global_shift);
    }
    global_shift += CAN_BE_USED_IN_STATIC_CONTEXT_FLAG_BITS;
    // The invalid opcode is an explicit panic.
    if full_opcode_variant.is_explicit_panic() {
        encoding = with_bit(encoding, global_shift);
    }
    global_shift += EXPLICIT_PANIC_FLAG_BITS;
    assert(global_shift <= 64);
    proof {
        lemma_max_num_variants(version);
        lemma_max_num_flags(version);
    }
    encoding
}

/// The descriptions of the variants of a table, slot by slot.
pub fn synthesize_bit_decomposition_table(
    opcodes: &[OpcodeVariant],
    assert_version: ISAVersion,
) -> (r: Vec<u64>)
    ensures
        r@.len() == opcodes@.len(),
        forall|i: int|
            0 <= i < opcodes@.len() ==> is_bitmask_of(
                #[trigger] r@[i],
                opcodes@[i],
                assert_version,
            ),
{
    let mut result: Vec<u64> = Vec::new();
    let mut i: usize = 0;
    while i < opcodes.len()
        invariant
            i <= opcodes.len(),
            result@.len() == i,
            forall|k: int|
                0 <= k < i ==> is_bitmask_of(#[trigger] result@[k], opcodes@[k], assert_version),
        decreases opcodes.len() - i,
    {
        let encoding = opcode_as_integer_bitmask(&opcodes[i], assert_version);
        result.push(encoding);
        i += 1;
    }
    result
}

/// A word is determined by its bits: a variant has one description.
pub proof fn lemma_bitmask_is_unique(a: u64, b: u64, variant: OpcodeVariant, version: ISAVersion)
    requires
        is_bitmask_of(a, variant, version),
        is_bitmask_of(b, variant, version),
    ensures
        a == b,
{
    assert forall|k: u64| k < 64 implies (#[trigger] bit_is_set(a, k) <==> bit_is_set(b, k)) by {}
    lemma_equal_bits(a, b);
}

/// Two words with the same bits are equal.
pub proof fn lemma_equal_bits(a: u64, b: u64)
    requires
        forall|k: u64| k < 64 ==> (#[trigger] bit_is_set(a, k) <==> bit_is_set(b, k)),
    ensures
        a == b,
{
    assert(bit_is_set(a, 0) <==> bit_is_set(b, 0));
    assert(bit_is_set(a, 1) <==> bit_is_set(b, 1));
    assert(bit_is_set(a, 2) <==> bit_is_set(b, 2));
    assert(bit_is_set(a, 3) <==> bit_is_set(b, 3));
    assert(bit_is_set(a, 4) <==> bit_is_set(b, 4));
    assert(bit_is_set(a, 5) <==> bit_is_set(b, 5));
    assert(bit_is_set(a, 6) <==> bit_is_set(b, 6));
    assert(bit_is_set(a, 7) <==> bit_is_set(b, 7));
    assert(bit_is_set(a, 8) <==> bit_is_set(b, 8));
    assert(bit_is_set(a, 9) <==> bit_is_set(b, 9));
    assert(bit_is_set(a, 10) <==> bit_is_set(b, 10));
    assert(bit_is_set(a, 11) <==> bit_is_set(b, 11));
    assert(bit_is_set(a, 12) <==> bit_is_set(b, 12));
    assert(bit_is_set(a, 13) <==> bit_is_set(b, 13));
    assert(bit_is_set(a, 14) <==> bit_is_set(b, 14));
    assert(bit_is_set(a, 15) <==> bit_is_set(b, 15));
    assert(bit_is_set(a, 16) <==> bit_is_set(b, 16));
    assert(bit_is_set(a, 17) <==> bit_is_set(b, 17));
    assert(bit_is_set(a, 18) <==> bit_is_set(b, 18));
    assert(bit_is_set(a, 19) <==> bit_is_set(b, 19));
    assert(bit_is_set(a, 20) <==> bit_is_set(b, 20));
    assert(bit_is_set(a, 21) <==> bit_is_set(b, 21));
    assert(bit_is_set(a, 22) <==> bit_is_set(b, 22));
    assert(bit_is_set(a, 23) <==> bit_is_set(b, 23));
    assert(bit_is_set(a, 24) <==> bit_is_set(b, 24));
    assert(bit_is_set(a, 25) <==> bit_is_set(b, 25));
    assert(bit_is_set(a, 26) <==> bit_is_set(b, 26));
    assert(bit_is_set(a, 27) <==> bit_is_set(b, 27));
    assert(bit_is_set(a, 28) <==> bit_is_set(b, 28));
    assert(bit_is_set(a, 29) <==> bit_is_set(b, 29));
    assert(bit_is_set(a, 30) <==> bit_is_set(b, 30));
    assert(bit_is_set(a, 31) <==> bit_is_set(b, 31));
    assert(bit_is_set(a, 32) <==> bit_is_set(b, 32));
    assert(bit_is_set(a, 33) <==> bit_is_set(b, 33));
    assert(bit_is_set(a, 34) <==> bit_is_set(b, 34));
    assert(bit_is_set(a, 35) <==> bit_is_set(b, 35));
    assert(bit_is_set(a, 36) <==> bit_is_set(b, 36));
    assert(bit_is_set(a, 37) <==> bit_is_set(b, 37));
    assert(bit_is_set(a, 38) <==> bit_is_set(b, 38));
    assert(bit_is_set(a, 39) <==> bit_is_set(b, 39));
    assert(bit_is_set(a, 40) <==> bit_is_set(b, 40));
    assert(bit_is_set(a, 41) <==> bit_is_set(b, 41));
    assert(bit_is_set(a, 42) <==> bit_is_set(b, 42));
    assert(bit_is_set(a, 43) <==> bit_is_set(b, 43));
    assert(bit_is_set(a, 44) <==> bit_is_set(b, 44));
    assert(bit_is_set(a, 45) <==> bit_is_set(b, 45));
    assert(bit_is_set(a, 46) <==> bit_is_set(b, 46));
    assert(bit_is_set(a, 47) <==> bit_is_set(b, 47));
    assert(bit_is_set(a, 48) <==> bit_is_set(b, 48));
    assert(bit_is_set(a, 49) <==> bit_is_set(b, 49));
    assert(bit_is_set(a, 50) <==> bit_is_set(b, 50));
    assert(bit_is_set(a, 51) <==> bit_is_set(b, 51));
    assert(bit_is_set(a, 52) <==> bit_is_set(b, 52));
    assert(bit_is_set(a, 53) <==> bit_is_set(b, 53));
    assert(bit_is_set(a, 54) <==> bit_is_set(b, 54));
    assert(bit_is_set(a, 55) <==> bit_is_set(b, 55));
    assert(bit_is_set(a, 56) <==> bit_is_set(b, 56));
    assert(bit_is_set(a, 57) <==> bit_is_set(b, 57));
    assert(bit_is_set(a, 58) <==> bit_is_set(b, 58));
    assert(bit_is_set(a, 59) <==> bit_is_set(b, 59));
    assert(bit_is_set(a, 60) <==> bit_is_set(b, 60));
    assert(bit_is_set(a, 61) <==> bit_is_set(b, 61));
    assert(bit_is_set(a, 62) <==> bit_is_set(b, 62));
    assert(bit_is_set(a, 63) <==> bit_is_set(b, 63));
    assert(a == b) by (bit_vector)
        requires
            ((a >> 0u64) & 1 == 1) == ((b >> 0u64) & 1 == 1),
            ((a >> 1u64) & 1 == 1) == ((b >> 1u64) & 1 == 1),
            ((a >> 2u64) & 1 == 1) == ((b >> 2u64) & 1 == 1),
            ((a >> 3u64) & 1 == 1) == ((b >> 3u64) & 1 == 1),
            ((a >> 4u64) & 1 == 1) == ((b >> 4u64) & 1 == 1),
            ((a >> 5u64) & 1 == 1) == ((b >> 5u64) & 1 == 1),
            ((a >> 6u64) & 1 == 1) == ((b >> 6u64) & 1 == 1),
            ((a >> 7u64) & 1 == 1) == ((b >> 7u64) & 1 == 1),
            ((a >> 8u64) & 1 == 1) == ((b >> 8u64) & 1 == 1),
            ((a >> 9u64) & 1 == 1) == ((b >> 9u64) & 1 == 1),
            ((a >> 10u64) & 1 == 1) == ((b >> 10u64) & 1 == 1),
            ((a >> 11u64) & 1 == 1) == ((b >> 11u64) & 1 == 1),
            ((a >> 12u64) & 1 == 1) == ((b >> 12u64) & 1 == 1),
            ((a >> 13u64) & 1 == 1) == ((b >> 13u64) & 1 == 1),
            ((a >> 14u64) & 1 == 1) == ((b >> 14u64) & 1 == 1),
            ((a >> 15u64) & 1 == 1) == ((b >> 15u64) & 1 == 1),
            ((a >> 16u64) & 1 == 1) == ((b >> 16u64) & 1 == 1),
            ((a >> 17u64) & 1 == 1) == ((b >> 17u64) & 1 == 1),
            ((a >> 18u64) & 1 == 1) == ((b >> 18u64) & 1 == 1),
            ((a >> 19u64) & 1 == 1) == ((b >> 19u64) & 1 == 1),
            ((a >> 20u64) & 1 == 1) == ((b >> 20u64) & 1 == 1),
            ((a >> 21u64) & 1 == 1) == ((b >> 21u64) & 1 == 1),
            ((a >> 22u64) & 1 == 1) == ((b >> 22u64) & 1 == 1),
            ((a >> 23u64) & 1 == 1) == ((b >> 23u64) & 1 == 1),
            ((a >> 24u64) & 1 == 1) == ((b >> 24u64) & 1 == 1),
            ((a >> 25u64) & 1 == 1) == ((b >> 25u64) & 1 == 1),
            ((a >> 26u64) & 1 == 1) == ((b >> 26u64) & 1 == 1),
            ((a >> 27u64) & 1 == 1) == ((b >> 27u64) & 1 == 1),
            ((a >> 28u64) & 1 == 1) == ((b >> 28u64) & 1 == 1),
            ((a >> 29u64) & 1 == 1) == ((b >> 29u64) & 1 == 1),
            ((a >> 30u64) & 1 == 1) == ((b >> 30u64) & 1 == 1),
            ((a >> 31u64) & 1 == 1) == ((b >> 31u64) & 1 == 1),
            ((a >> 32u64) & 1 == 1) == ((b >> 32u64) & 1 == 1),
            ((a >> 33u64) & 1 == 1) == ((b >> 33u64) & 1 == 1),
            ((a >> 34u64) & 1 == 1) == ((b >> 34u64) & 1 == 1),
            ((a >> 35u64) & 1 == 1) == ((b >> 35u64) & 1 == 1),
            ((a >> 36u64) & 1 == 1) == ((b >> 36u64) & 1 == 1),
            ((a >> 37u64) & 1 == 1) == ((b >> 37u64) & 1 == 1),
            ((a >> 38u64) & 1 == 1) == ((b >> 38u64) & 1 == 1),
            ((a >> 39u64) & 1 == 1) == ((b >> 39u64) & 1 == 1),
            ((a >> 40u64) & 1 == 1) == ((b >> 40u64) & 1 == 1),
            ((a >> 41u64) & 1 == 1) == ((b >> 41u64) & 1 == 1),
            ((a >> 42u64) & 1 == 1) == ((b >> 42u64) & 1 == 1),
            ((a >> 43u64) & 1 == 1) == ((b >> 43u64) & 1 == 1),
            ((a >> 44u64) & 1 == 1) == ((b >> 44u64) & 1 == 1),
            ((a >> 45u64) & 1 == 1) == ((b >> 45u64) & 1 == 1),
            ((a >> 46u64) & 1 == 1) == ((b >> 46u64) & 1 == 1),
            ((a >> 47u64) & 1 == 1) == ((b >> 47u64) & 1 == 1),
            ((a >> 48u64) & 1 == 1) == ((b >> 48u64) & 1 == 1),
            ((a >> 49u64) & 1 == 1) == ((b >> 49u64) & 1 == 1),
            ((a >> 50u64) & 1 == 1) == ((b >> 50u64) & 1 == 1),
            ((a >> 51u64) & 1 == 1) == ((b >> 51u64) & 1 == 1),
            ((a >> 52u64) & 1 == 1) == ((b >> 52u64) & 1 == 1),
            ((a >> 53u64) & 1 == 1) == ((b >> 53u64) & 1 == 1),
            ((a >> 54u64) & 1 == 1) == ((b >> 54u64) & 1 == 1),
            ((a >> 55u64) & 1 == 1) == ((b >> 55u64) & 1 == 1),
            ((a >> 56u64) & 1 == 1) == ((b >> 56u64) & 1 == 1),
            ((a >> 57u64) & 1 == 1) == ((b >> 57u64) & 1 == 1),
            ((a >> 58u64) & 1 == 1) == ((b >> 58u64) & 1 == 1),
            ((a >> 59u64) & 1 == 1) == ((b >> 59u64) & 1 == 1),
            ((a >> 60u64) & 1 == 1) == ((b >> 60u64) & 1 == 1),
            ((a >> 61u64) & 1 == 1) == ((b >> 61u64) & 1 == 1),
            ((a >> 62u64) & 1 == 1) == ((b >> 62u64) & 1 == 1),
            ((a >> 63u64) & 1 == 1) == ((b >> 63u64) & 1 == 1),
    ;
}

} // verus!
