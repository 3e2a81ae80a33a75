//! How many variants a version has, counted from the families' declarations
//! alone, without enumerating the variants.

use vstd::prelude::*;
use vstd::arithmetic::power2::{lemma2_to64, pow2};
use crate::definitions::all::Opcode;
use crate::definitions::enumeration::{
    all_opcodes, destination_spellings, destinations_block, families_block, family_block,
    flag_block, opcode_block, source_spellings, sources_block, spec_all_opcode_prototypes,
    spec_all_variants_in_version,
};
use crate::definitions::opcode_trait::{ISAVersion, OpcodeVariantData, OpcodeVariantProps, Operand};
use crate::definitions::add::AddOpcode;
use crate::definitions::binop::BinopOpcode;
use crate::definitions::context::ContextOpcode;
use crate::definitions::div::DivOpcode;
use crate::definitions::far_call::FarCallOpcode;
use crate::definitions::invalid_opcode::InvalidOpcode;
use crate::definitions::jump::JumpOpcode;
use crate::definitions::log::LogOpcode;
use crate::definitions::mul::MulOpcode;
use crate::definitions::near_call::NearCallOpcode;
use crate::definitions::noop::NopOpcode;
use crate::definitions::ptr::PtrOpcode;
use crate::definitions::ret::RetOpcode;
use crate::definitions::shift::ShiftOpcode;
use crate::definitions::sub::SubOpcode;
use crate::definitions::uma::UMAOpcode;
use crate::imm_mem_modifiers::{ImmMemHandlerFlags, RegOrImmFlags};

verus! {

/// In how many ways an input of the given class can be spelled.
pub open spec fn source_multiplicity(operand: Operand) -> nat {
    match operand {
        Operand::Full(_) => 6,
        Operand::RegOrImm(_) => 2,
        Operand::RegOnly => 1,
    }
}

/// In how many ways an output of the given class can be spelled.
pub open spec fn destination_multiplicity(operand: Operand) -> nat {
    match operand {
        Operand::Full(_) => 4,
        Operand::RegOrImm(_) => 1,
        Operand::RegOnly => 1,
    }
}

/// The product of the multiplicities of the first `n` inputs.
pub open spec fn sources_product(inputs: Seq<Operand>, n: nat) -> nat
    decreases n,
{
    if n == 0 {
        1
    } else {
        sources_product(inputs, (n - 1) as nat) * source_multiplicity(inputs[n - 1])
    }
}

/// The product of the multiplicities of the first `n` outputs.
pub open spec fn destinations_product(outputs: Seq<Operand>, n: nat) -> nat
    decreases n,
{
    if n == 0 {
        1
    } else {
        destinations_product(outputs, (n - 1) as nat) * destination_multiplicity(outputs[n - 1])
    }
}

/// How many variants one opcode has: its flags times the spellings of its
/// operands.
pub open spec fn opcode_density(opcode: Opcode, version: ISAVersion, num_flags: usize) -> nat {
    pow2(num_flags as nat) * (sources_product(
        opcode.spec_input_operands(version),
        opcode.spec_input_operands(version).len(),
    ) * destinations_product(
        opcode.spec_output_operands(version),
        opcode.spec_output_operands(version).len(),
    ))
}

/// How many variants the sub-variant that `data` describes has.
pub open spec fn subvariant_density(
    proto: Opcode,
    version: ISAVersion,
    data: OpcodeVariantData,
) -> nat {
    match proto.spec_materialize_subvariant_from_prototype(data.variant_idx, version) {
        Some(opcode) => opcode_density(opcode, version, data.num_non_exclusive_flags),
        None => 0,
    }
}

/// How many variants the first `n` sub-variants of a family have.
pub open spec fn family_density(proto: Opcode, version: ISAVersion, n: nat) -> nat
    decreases n,
{
    if n == 0 {
        0
    } else {
        family_density(proto, version, (n - 1) as nat) + subvariant_density(
            proto,
            version,
            proto.spec_variants_data(version)[n - 1],
        )
    }
}

/// How many variants the first `n` families have.
pub open spec fn families_density(version: ISAVersion, n: nat) -> nat
    decreases n,
{
    if n == 0 {
        0
    } else {
        families_density(version, (n - 1) as nat) + family_density(
            spec_all_opcode_prototypes()[n - 1],
            version,
            spec_all_opcode_prototypes()[n - 1].spec_variants_data(version).len(),
        )
    }
}

/// How many variants `version` has.
pub open spec fn spec_encoding_density(version: ISAVersion) -> nat {
    families_density(version, spec_all_opcode_prototypes().len())
}

/// Only the first operand of an opcode can be anything but a register, there
/// are at most two inputs and two outputs, and no first output is a register
/// or an immediate.
pub open spec fn operands_well_shaped(inputs: Seq<Operand>, outputs: Seq<Operand>) -> bool {
    &&& inputs.len() <= 2
    &&& outputs.len() <= 2
    &&& inputs.len() == 2 ==> inputs[1] == Operand::RegOnly
    &&& outputs.len() == 2 ==> outputs[1] == Operand::RegOnly
    &&& outputs.len() > 0 ==> !(outputs[0] is RegOrImm)
}

/// Every opcode has well-shaped operands in every version.
pub proof fn lemma_operand_shapes(opcode: Opcode, version: ISAVersion)
    ensures
        operands_well_shaped(
            opcode.spec_input_operands(version),
            opcode.spec_output_operands(version),
        ),
{
}

/// What every family declares of its sub-variants: the entries are numbered
/// from zero, each belongs to a sub-variant that the version has, none has more
/// than two flags, and there are at most ten.
pub proof fn lemma_family_data(proto: Opcode, version: ISAVersion, i: int)
    requires
        0 <= i < proto.spec_variants_data(version).len(),
    ensures
        proto.spec_variants_data(version).len() <= 10,
        proto.spec_variants_data(version)[i].variant_idx == i,
        proto.spec_variants_data(version)[i].num_non_exclusive_flags <= 2,
        proto.spec_materialize_subvariant_from_prototype(i as usize, version) is Some,
{
    match proto {
        Opcode::Invalid(_) => {
            InvalidOpcode::lemma_max_variant_idx_for_version(version);
        },
        Opcode::Nop(_) => {
            NopOpcode::lemma_max_variant_idx_for_version(version);
        },
        Opcode::Add(_) => {
            AddOpcode::lemma_max_variant_idx_for_version(version);
        },
        Opcode::Sub(_) => {
            SubOpcode::lemma_max_variant_idx_for_version(version);
        },
        Opcode::Mul(_) => {
            MulOpcode::lemma_max_variant_idx_for_version(version);
        },
        Opcode::Div(_) => {
            DivOpcode::lemma_max_variant_idx_for_version(version);
        },
        Opcode::Jump(_) => {
            JumpOpcode::lemma_max_variant_idx_for_version(version);
        },
        Opcode::Context(_) => {
            ContextOpcode::lemma_max_variant_idx_for_version(version);
        },
        Opcode::Shift(_) => {
            ShiftOpcode::lemma_max_variant_idx_for_version(version);
        },
        Opcode::Binop(_) => {
            BinopOpcode::lemma_max_variant_idx_for_version(version);
        },
        Opcode::Ptr(_) => {
            PtrOpcode::lemma_max_variant_idx_for_version(version);
        },
        Opcode::NearCall(_) => {
            NearCallOpcode::lemma_max_variant_idx_for_version(version);
        },
        Opcode::Log(_) => {
            LogOpcode::lemma_max_variant_idx_for_version(version);
        },
        Opcode::FarCall(_) => {
            FarCallOpcode::lemma_max_variant_idx_for_version(version);
        },
        Opcode::Ret(_) => {
            RetOpcode::lemma_max_variant_idx_for_version(version);
        },
        Opcode::UMA(_) => {
            UMAOpcode::lemma_max_variant_idx_for_version(version);
        },
    }
}

/// With well-shaped operands the products of the multiplicities are the
/// numbers of spellings of the first source and of the first destination.
pub proof fn lemma_products_count_spellings(inputs: Seq<Operand>, outputs: Seq<Operand>)
    requires
        operands_well_shaped(inputs, outputs),
    ensures
        sources_product(inputs, inputs.len()) == source_spellings(inputs).len(),
        destinations_product(outputs, outputs.len()) == destination_spellings(outputs).len(),
        1 <= source_spellings(inputs).len() <= 6,
        1 <= destination_spellings(outputs).len() <= 4,
{
    reveal_with_fuel(sources_product, 3);
    reveal_with_fuel(destinations_product, 3);
    assert(sources_product(inputs, 0) == 1);
    assert(destinations_product(outputs, 0) == 1);
    if inputs.len() >= 1 {
        assert(sources_product(inputs, 1) == 1 * source_multiplicity(inputs[0]));
        assert(sources_product(inputs, 1) == source_spellings(inputs).len());
    }
    if inputs.len() == 2 {
        assert(sources_product(inputs, 2) == sources_product(inputs, 1) * 1);
    }
    if outputs.len() >= 1 {
        assert(destinations_product(outputs, 1) == 1 * destination_multiplicity(outputs[0]));
        assert(destinations_product(outputs, 1) == destination_spellings(outputs).len());
    }
    if outputs.len() == 2 {
        assert(destinations_product(outputs, 2) == destinations_product(outputs, 1) * 1);
    }
}

/// A flag block has one variant for each setting of the flags.
pub proof fn lemma_flag_block_len(opcode: Opcode, src: Operand, dst: Operand, num_flags: usize)
    requires
        num_flags <= 2,
    ensures
        flag_block(opcode, src, dst, num_flags).len() == pow2(num_flags as nat),
{
    lemma2_to64();
}

/// The block of `n` destinations is `n` flag blocks long.
pub proof fn lemma_destinations_block_len(
    opcode: Opcode,
    src: Operand,
    dsts: Seq<Operand>,
    num_flags: usize,
    n: nat,
)
    requires
        num_flags <= 2,
    ensures
        destinations_block(opcode, src, dsts, num_flags, n).len() == n * pow2(num_flags as nat),
    decreases n,
{
    if n > 0 {
        lemma_destinations_block_len(opcode, src, dsts, num_flags, (n - 1) as nat);
        lemma_flag_block_len(opcode, src, dsts[n - 1], num_flags);
        let p = pow2(num_flags as nat);
        assert((n - 1) * p + p == n * p) by (nonlinear_arith);
    } else {
        assert(0 * pow2(num_flags as nat) == 0) by (nonlinear_arith);
    }
}

/// The block of `n` sources is `n` destination blocks long.
pub proof fn lemma_sources_block_len(
    opcode: Opcode,
    srcs: Seq<Operand>,
    dsts: Seq<Operand>,
    num_flags: usize,
    n: nat,
)
    requires
        num_flags <= 2,
    ensures
        sources_block(opcode, srcs, dsts, num_flags, n).len() == n * (dsts.len() * pow2(
            num_flags as nat,
        )),
    decreases n,
{
    if n > 0 {
        lemma_sources_block_len(opcode, srcs, dsts, num_flags, (n - 1) as nat);
        lemma_destinations_block_len(opcode, srcs[n - 1], dsts, num_flags, dsts.len());
        let k = dsts.len() * pow2(num_flags as nat);
        assert((n - 1) * k + k == n * k) by (nonlinear_arith);
    } else {
        assert(0 * (dsts.len() * pow2(num_flags as nat)) == 0) by (nonlinear_arith);
    }
}

/// An opcode has as many variants as its density says.
pub proof fn lemma_opcode_block_len(opcode: Opcode, version: ISAVersion, num_flags: usize)
    requires
        num_flags <= 2,
    ensures
        opcode_block(opcode, version, num_flags).len() == opcode_density(
            opcode,
            version,
            num_flags,
        ),
        1 <= opcode_density(opcode, version, num_flags) <= 96,
{
    let inputs = opcode.spec_input_operands(version);
    let outputs = opcode.spec_output_operands(version);
    lemma_operand_shapes(opcode, version);
    lemma_products_count_spellings(inputs, outputs);
    let srcs = source_spellings(inputs);
    let dsts = destination_spellings(outputs);
    lemma_sources_block_len(opcode, srcs, dsts, num_flags, srcs.len());
    let p = pow2(num_flags as nat);
    lemma2_to64();
    assert(1 <= p <= 4);
    let s = srcs.len();
    let d = dsts.len();
    assert(s * (d * p) == p * (s * d)) by (nonlinear_arith);
    assert(1 <= p * (s * d) <= 96) by (nonlinear_arith)
        requires
            1 <= p <= 4,
            1 <= s <= 6,
            1 <= d <= 4,
    ;
}

/// The first `n` sub-variants of a family have as many variants as their
/// densities say.
pub proof fn lemma_family_block_len(proto: Opcode, version: ISAVersion, n: nat)
    requires
        n <= proto.spec_variants_data(version).len(),
    ensures
        family_block(proto, version, n).len() == family_density(proto, version, n),
        n <= family_density(proto, version, n) <= 96 * n,
    decreases n,
{
    if n > 0 {
        lemma_family_block_len(proto, version, (n - 1) as nat);
        lemma_family_data(proto, version, n - 1);
        let data = proto.spec_variants_data(version)[n - 1];
        let opcode = proto.spec_materialize_subvariant_from_prototype(
            data.variant_idx,
            version,
        )->0;
        lemma_opcode_block_len(opcode, version, data.num_non_exclusive_flags);
    }
}

/// The first `n` families have as many variants as their densities say.
pub proof fn lemma_families_block_len(version: ISAVersion, n: nat)
    requires
        n <= spec_all_opcode_prototypes().len(),
    ensures
        families_block(version, n).len() == families_density(version, n),
        n <= families_density(version, n) <= 960 * n,
    decreases n,
{
    if n > 0 {
        lemma_families_block_len(version, (n - 1) as nat);
        let proto = spec_all_opcode_prototypes()[n - 1];
        let len = proto.spec_variants_data(version).len();
        lemma_family_block_len(proto, version, len);
        if len > 0 {
            lemma_family_data(proto, version, 0);
        } else {
            lemma_family_has_data(proto, version);
        }
    }
}

/// Every family declares at least one sub-variant in every version.
pub proof fn lemma_family_has_data(proto: Opcode, version: ISAVersion)
    ensures
        proto.spec_variants_data(version).len() >= 1,
{
}

/// The enumeration of a version and its density agree: the table has exactly
/// as many variants as the families' declarations say.
pub proof fn lemma_enumeration_matches_density(version: ISAVersion)
    ensures
        spec_all_variants_in_version(version).len() == spec_encoding_density(version),
        16 <= spec_encoding_density(version) <= 15360,
{
    lemma_families_block_len(version, spec_all_opcode_prototypes().len());
}

/// `2^num_flags`, for a number of flags that a sub-variant can declare.
fn flags_multiplier(num_flags: usize) -> (r: usize)
    requires
        num_flags <= 2,
    ensures
        r == pow2(num_flags as nat),
{
    proof {
        lemma2_to64();
    }
    assert(1usize << 0usize == 1usize && 1usize << 1usize == 2usize && 1usize << 2usize == 4usize)
        by (bit_vector);
    1usize << num_flags
}

/// How many variants one opcode has.
fn compute_opcode_density(opcode: Opcode, version: ISAVersion, num_flags: usize) -> (r: usize)
    requires
        num_flags <= 2,
    ensures
        r == opcode_density(opcode, version, num_flags),
        r <= 96,
{
    proof {
        lemma_operand_shapes(opcode, version);
        lemma_products_count_spellings(
            opcode.spec_input_operands(version),
            opcode.spec_output_operands(version),
        );
        lemma_opcode_block_len(opcode, version, num_flags);
        reveal_with_fuel(sources_product, 3);
        reveal_with_fuel(destinations_product, 3);
    }
    let inputs = opcode.input_operands(version);
    let outputs = opcode.output_operands(version);
    let mut num_source_modes: usize = 1;
    let mut i: usize = 0;
    while i < inputs.len()
        invariant
            i <= inputs.len() <= 2,
            inputs@ == opcode.spec_input_operands(version),
            num_source_modes == sources_product(inputs@, i as nat),
            num_source_modes <= 6,
            operands_well_shaped(inputs@, outputs@),
        decreases inputs.len() - i,
    {
        let multiplier = match inputs[i] {
            Operand::Full(_) => ImmMemHandlerFlags::num_src_variants(),
            Operand::RegOrImm(_) => RegOrImmFlags::num_src_variants(),
            Operand::RegOnly => 1,
        };
        proof {
            reveal_with_fuel(sources_product, 3);
        }
        num_source_modes = num_source_modes * multiplier;
        i += 1;
    }
    let mut num_destination_modes: usize = 1;
    let mut j: usize = 0;
    while j < outputs.len()
        invariant
            j <= outputs.len() <= 2,
            outputs@ == opcode.spec_output_operands(version),
            num_destination_modes == destinations_product(outputs@, j as nat),
            num_destination_modes <= 4,
            operands_well_shaped(inputs@, outputs@),
        decreases outputs.len() - j,
    {
        let multiplier = match outputs[j] {
            Operand::Full(_) => ImmMemHandlerFlags::num_dst_variants(),
            Operand::RegOrImm(_) => RegOrImmFlags::num_dst_variants(),
            Operand::RegOnly => 1,
        };
        proof {
            reveal_with_fuel(destinations_product, 3);
        }
        num_destination_modes = num_destination_modes * multiplier;
        j += 1;
    }
    assert(num_source_modes * num_destination_modes <= 24) by (nonlinear_arith)
        requires
            num_source_modes <= 6,
            num_destination_modes <= 4,
    ;
    let num_addressing_modes = num_source_modes * num_destination_modes;
    let multiplier_for_non_exclusive = flags_multiplier(num_flags);
    proof {
        lemma2_to64();
        let p = multiplier_for_non_exclusive as int;
        let a = num_addressing_modes as int;
        assert(p * a <= 96) by (nonlinear_arith)
            requires
                0 <= p <= 4,
                0 <= a <= 24,
        ;
    }
    multiplier_for_non_exclusive * num_addressing_modes
}

/// How many variants `version` has, from the families' declarations: for each
/// sub-variant the number of settings of its flags times the numbers of
/// spellings of its operands. The enumeration of the version has this length.
pub fn compute_encoding_density(for_version: ISAVersion) -> (r: usize)
    ensures
        r == spec_encoding_density(for_version),
        r == spec_all_variants_in_version(for_version).len(),
{
    let all_prototypes = all_opcodes();
    let mut num_options: usize = 0;
    let mut idx: usize = 0;
    while idx < all_prototypes.len()
        invariant
            idx <= all_prototypes.len(),
            all_prototypes@ == spec_all_opcode_prototypes(),
            num_options == families_density(for_version, idx as nat),
            num_options <= 960 * idx,
        decreases all_prototypes.len() - idx,
    {
        let proto = all_prototypes[idx];
        let variants_data = proto.variants_data(for_version);
        let mut family_options: usize = 0;
        let mut k: usize = 0;
        proof {
            lemma_family_has_data(proto, for_version);
            lemma_family_data(proto, for_version, 0);
        }
        while k < variants_data.len()
            invariant
                k <= variants_data.len() <= 10,
                variants_data@ == proto.spec_variants_data(for_version),
                family_options == family_density(proto, for_version, k as nat),
                family_options <= 96 * k,
            decreases variants_data.len() - k,
        {
            let variant = variants_data[k];
            proof {
                lemma_family_data(proto, for_version, k as int);
            }
            match proto.try_materialize_subvariant_from_prototype(
                variant.variant_idx,
                &for_version,
            ) {
                Some(concrete_opcode_without_addressing) => {
                    let all_variants = compute_opcode_density(
                        concrete_opcode_without_addressing,
                        for_version,
                        variant.num_non_exclusive_flags,
                    );
                    family_options += all_variants;
                },
                None => {},
            }
            k += 1;
        }
        num_options += family_options;
        idx += 1;
    }
    proof {
        lemma_enumeration_matches_density(for_version);
    }
    num_options
}

} // verus!
