//! How many variants each family has, in numbers.

use vstd::prelude::*;
use vstd::arithmetic::power2::{lemma2_to64, pow2};
use crate::definitions::add::AddOpcode;
use crate::definitions::all::Opcode;
use crate::definitions::binop::BinopOpcode;
use crate::definitions::context::ContextOpcode;
use crate::definitions::density::{
    families_density, family_density, lemma_family_data, lemma_operand_shapes,
    lemma_products_count_spellings, spec_encoding_density, subvariant_density,
};
use crate::definitions::div::DivOpcode;
use crate::definitions::enumeration::{
    destination_spellings, source_spellings, spec_all_opcode_prototypes,
};
use crate::definitions::far_call::FarCallOpcode;
use crate::definitions::invalid_opcode::InvalidOpcode;
use crate::definitions::jump::JumpOpcode;
use crate::definitions::log::LogOpcode;
use crate::definitions::mul::MulOpcode;
use crate::definitions::near_call::NearCallOpcode;
use crate::definitions::noop::NopOpcode;
use crate::definitions::opcode_trait::ISAVersion;
use crate::definitions::ptr::PtrOpcode;
use crate::definitions::ret::RetOpcode;
use crate::definitions::shift::ShiftOpcode;
use crate::definitions::sub::SubOpcode;
use crate::definitions::uma::UMAOpcode;

verus! {

/// The density of sub-variant `i` of a family, from the flags and the operands
/// of the opcode that it materializes.
pub proof fn lemma_subvariant_density(proto: Opcode, version: ISAVersion, i: int)
    requires
        0 <= i < proto.spec_variants_data(version).len(),
    ensures
        proto.spec_materialize_subvariant_from_prototype(i as usize, version) is Some,
        proto.spec_variants_data(version)[i].variant_idx == i,
        proto.spec_variants_data(version)[i].num_non_exclusive_flags <= 2,
        subvariant_density(proto, version, proto.spec_variants_data(version)[i]) == pow2(
            proto.spec_variants_data(version)[i].num_non_exclusive_flags as nat,
        ) * (source_spellings(
            proto.spec_materialize_subvariant_from_prototype(
                i as usize,
                version,
            )->0.spec_input_operands(version),
        ).len() * destination_spellings(
            proto.spec_materialize_subvariant_from_prototype(
                i as usize,
                version,
            )->0.spec_output_operands(version),
        ).len()),
        pow2(0) == 1,
        pow2(1) == 2,
        pow2(2) == 4,
{
    lemma_family_data(proto, version, i);
    let data = proto.spec_variants_data(version)[i];
    let opcode = proto.spec_materialize_subvariant_from_prototype(i as usize, version)->0;
    lemma_operand_shapes(opcode, version);
    lemma_products_count_spellings(
        opcode.spec_input_operands(version),
        opcode.spec_output_operands(version),
    );
    lemma2_to64();
}

/// The `invalid` family has 1 variants at the registered versions.
pub proof fn lemma_invalid_family(version: ISAVersion)
    requires
        version.0 <= 1,
    ensures
        (Opcode::Invalid(InvalidOpcode)).spec_variants_data(version).len() == 1,
        family_density(Opcode::Invalid(InvalidOpcode), version, 1) == 1,
{
    let proto = Opcode::Invalid(InvalidOpcode);
    assert(proto.spec_variants_data(version).len() == 1);
    assert(family_density(proto, version, 0) == 0);
    lemma_subvariant_density(proto, version, 0);
    let opcode0 = proto.spec_materialize_subvariant_from_prototype(0, version)->0;
    let settings0 = pow2(proto.spec_variants_data(version)[0].num_non_exclusive_flags as nat);
    let sources0 = source_spellings(opcode0.spec_input_operands(version)).len();
    let destinations0 = destination_spellings(opcode0.spec_output_operands(version)).len();
    assert(settings0 == 1);
    assert(sources0 == 1);
    assert(destinations0 == 1);
    assert(settings0 * (sources0 * destinations0) == 1) by (nonlinear_arith)
        requires
            settings0 == 1,
            sources0 == 1,
            destinations0 == 1,
    ;
    assert(subvariant_density(proto, version, proto.spec_variants_data(version)[0]) == 1);
    assert(family_density(proto, version, 1) == 1);
}

/// The `nop` family has 24 variants at the registered versions.
pub proof fn lemma_nop_family(version: ISAVersion)
    requires
        version.0 <= 1,
    ensures
        (Opcode::Nop(NopOpcode)).spec_variants_data(version).len() == 1,
        family_density(Opcode::Nop(NopOpcode), version, 1) == 24,
{
    let proto = Opcode::Nop(NopOpcode);
    assert(proto.spec_variants_data(version).len() == 1);
    assert(family_density(proto, version, 0) == 0);
    lemma_subvariant_density(proto, version, 0);
    let opcode0 = proto.spec_materialize_subvariant_from_prototype(0, version)->0;
    let settings0 = pow2(proto.spec_variants_data(version)[0].num_non_exclusive_flags as nat);
    let sources0 = source_spellings(opcode0.spec_input_operands(version)).len();
    let destinations0 = destination_spellings(opcode0.spec_output_operands(version)).len();
    assert(settings0 == 1);
    assert(sources0 == 6);
    assert(destinations0 == 4);
    assert(settings0 * (sources0 * destinations0) == 24) by (nonlinear_arith)
        requires
            settings0 == 1,
            sources0 == 6,
            destinations0 == 4,
    ;
    assert(subvariant_density(proto, version, proto.spec_variants_data(version)[0]) == 24);
    assert(family_density(proto, version, 1) == 24);
}

/// The `add` family has 48 variants at the registered versions.
pub proof fn lemma_add_family(version: ISAVersion)
    requires
        version.0 <= 1,
    ensures
        (Opcode::Add(AddOpcode::Add)).spec_variants_data(version).len() == 1,
        family_density(Opcode::Add(AddOpcode::Add), version, 1) == 48,
{
    let proto = Opcode::Add(AddOpcode::Add);
    assert(proto.spec_variants_data(version).len() == 1);
    assert(family_density(proto, version, 0) == 0);
    lemma_subvariant_density(proto, version, 0);
    let opcode0 = proto.spec_materialize_subvariant_from_prototype(0, version)->0;
    let settings0 = pow2(proto.spec_variants_data(version)[0].num_non_exclusive_flags as nat);
    let sources0 = source_spellings(opcode0.spec_input_operands(version)).len();
    let destinations0 = destination_spellings(opcode0.spec_output_operands(version)).len();
    assert(settings0 == 2);
    assert(sources0 == 6);
    assert(destinations0 == 4);
    assert(settings0 * (sources0 * destinations0) == 48) by (nonlinear_arith)
        requires
            settings0 == 2,
            sources0 == 6,
            destinations0 == 4,
    ;
    assert(subvariant_density(proto, version, proto.spec_variants_data(version)[0]) == 48);
    assert(family_density(proto, version, 1) == 48);
}

/// The `sub` family has 96 variants at the registered versions.
pub proof fn lemma_sub_family(version: ISAVersion)
    requires
        version.0 <= 1,
    ensures
        (Opcode::Sub(SubOpcode::Sub)).spec_variants_data(version).len() == 1,
        family_density(Opcode::Sub(SubOpcode::Sub), version, 1) == 96,
{
    let proto = Opcode::Sub(SubOpcode::Sub);
    assert(proto.spec_variants_data(version).len() == 1);
    assert(family_density(proto, version, 0) == 0);
    lemma_subvariant_density(proto, version, 0);
    let opcode0 = proto.spec_materialize_subvariant_from_prototype(0, version)->0;
    let settings0 = pow2(proto.spec_variants_data(version)[0].num_non_exclusive_flags as nat);
    let sources0 = source_spellings(opcode0.spec_input_operands(version)).len();
    let destinations0 = destination_spellings(opcode0.spec_output_operands(version)).len();
    assert(settings0 == 4);
    assert(sources0 == 6);
    assert(destinations0 == 4);
    assert(settings0 * (sources0 * destinations0) == 96) by (nonlinear_arith)
        requires
            settings0 == 4,
            sources0 == 6,
            destinations0 == 4,
    ;
    assert(subvariant_density(proto, version, proto.spec_variants_data(version)[0]) == 96);
    assert(family_density(proto, version, 1) == 96);
}

/// The `mul` family has 48 variants at the registered versions.
pub proof fn lemma_mul_family(version: ISAVersion)
    requires
        version.0 <= 1,
    ensures
        (Opcode::Mul(MulOpcode)).spec_variants_data(version).len() == 1,
        family_density(Opcode::Mul(MulOpcode), version, 1) == 48,
{
    let proto = Opcode::Mul(MulOpcode);
    assert(proto.spec_variants_data(version).len() == 1);
    assert(family_density(proto, version, 0) == 0);
    lemma_subvariant_density(proto, version, 0);
    let opcode0 = proto.spec_materialize_subvariant_from_prototype(0, version)->0;
    let settings0 = pow2(proto.spec_variants_data(version)[0].num_non_exclusive_flags as nat);
    let sources0 = source_spellings(opcode0.spec_input_operands(version)).len();
    let destinations0 = destination_spellings(opcode0.spec_output_operands(version)).len();
    assert(settings0 == 2);
    assert(sources0 == 6);
    assert(destinations0 == 4);
    assert(settings0 * (sources0 * destinations0) == 48) by (nonlinear_arith)
        requires
            settings0 == 2,
            sources0 == 6,
            destinations0 == 4,
    ;
    assert(subvariant_density(proto, version, proto.spec_variants_data(version)[0]) == 48);
    assert(family_density(proto, version, 1) == 48);
}

/// The `div` family has 96 variants at the registered versions.
pub proof fn lemma_div_family(version: ISAVersion)
    requires
        version.0 <= 1,
    ensures
        (Opcode::Div(DivOpcode)).spec_variants_data(version).len() == 1,
        family_density(Opcode::Div(DivOpcode), version, 1) == 96,
{
    let proto = Opcode::Div(DivOpcode);
    assert(proto.spec_variants_data(version).len() == 1);
    assert(family_density(proto, version, 0) == 0);
    lemma_subvariant_density(proto, version, 0);
    let opcode0 = proto.spec_materialize_subvariant_from_prototype(0, version)->0;
    let settings0 = pow2(proto.spec_variants_data(version)[0].num_non_exclusive_flags as nat);
    let sources0 = source_spellings(opcode0.spec_input_operands(version)).len();
    let destinations0 = destination_spellings(opcode0.spec_output_operands(version)).len();
    assert(settings0 == 4);
    assert(sources0 == 6);
    assert(destinations0 == 4);
    assert(settings0 * (sources0 * destinations0) == 96) by (nonlinear_arith)
        requires
            settings0 == 4,
            sources0 == 6,
            destinations0 == 4,
    ;
    assert(subvariant_density(proto, version, proto.spec_variants_data(version)[0]) == 96);
    assert(family_density(proto, version, 1) == 96);
}

/// The `jump` family has 6 variants at the registered versions.
pub proof fn lemma_jump_family(version: ISAVersion)
    requires
        version.0 <= 1,
    ensures
        (Opcode::Jump(JumpOpcode)).spec_variants_data(version).len() == 1,
        family_density(Opcode::Jump(JumpOpcode), version, 1) == 6,
{
    let proto = Opcode::Jump(JumpOpcode);
    assert(proto.spec_variants_data(version).len() == 1);
    assert(family_density(proto, version, 0) == 0);
    lemma_subvariant_density(proto, version, 0);
    let opcode0 = proto.spec_materialize_subvariant_from_prototype(0, version)->0;
    let settings0 = pow2(proto.spec_variants_data(version)[0].num_non_exclusive_flags as nat);
    let sources0 = source_spellings(opcode0.spec_input_operands(version)).len();
    let destinations0 = destination_spellings(opcode0.spec_output_operands(version)).len();
    assert(settings0 == 1);
    assert(sources0 == 6);
    assert(destinations0 == 1);
    assert(settings0 * (sources0 * destinations0) == 6) by (nonlinear_arith)
        requires
            settings0 == 1,
            sources0 == 6,
            destinations0 == 1,
    ;
    assert(subvariant_density(proto, version, proto.spec_variants_data(version)[0]) == 6);
    assert(family_density(proto, version, 1) == 6);
}

/// The `binop` family has 144 variants at the registered versions.
pub proof fn lemma_binop_family(version: ISAVersion)
    requires
        version.0 <= 1,
    ensures
        (Opcode::Binop(BinopOpcode::Xor)).spec_variants_data(version).len() == 3,
        family_density(Opcode::Binop(BinopOpcode::Xor), version, 3) == 144,
{
    let proto = Opcode::Binop(BinopOpcode::Xor);
    assert(proto.spec_variants_data(version).len() == 3);
    assert(family_density(proto, version, 0) == 0);
    lemma_subvariant_density(proto, version, 0);
    let opcode0 = proto.spec_materialize_subvariant_from_prototype(0, version)->0;
    let settings0 = pow2(proto.spec_variants_data(version)[0].num_non_exclusive_flags as nat);
    let sources0 = source_spellings(opcode0.spec_input_operands(version)).len();
    let destinations0 = destination_spellings(opcode0.spec_output_operands(version)).len();
    assert(settings0 == 2);
    assert(sources0 == 6);
    assert(destinations0 == 4);
    assert(settings0 * (sources0 * destinations0) == 48) by (nonlinear_arith)
        requires
            settings0 == 2,
            sources0 == 6,
            destinations0 == 4,
    ;
    assert(subvariant_density(proto, version, proto.spec_variants_data(version)[0]) == 48);
    assert(family_density(proto, version, 1) == 48);
    lemma_subvariant_density(proto, version, 1);
    let opcode1 = proto.spec_materialize_subvariant_from_prototype(1, version)->0;
    let settings1 = pow2(proto.spec_variants_data(version)[1].num_non_exclusive_flags as nat);
    let sources1 = source_spellings(opcode1.spec_input_operands(version)).len();
    let destinations1 = destination_spellings(opcode1.spec_output_operands(version)).len();
    assert(settings1 == 2);
    assert(sources1 == 6);
    assert(destinations1 == 4);
    assert(settings1 * (sources1 * destinations1) == 48) by (nonlinear_arith)
        requires
            settings1 == 2,
            sources1 == 6,
            destinations1 == 4,
    ;
    assert(subvariant_density(proto, version, proto.spec_variants_data(version)[1]) == 48);
    assert(family_density(proto, version, 2) == 96);
    lemma_subvariant_density(proto, version, 2);
    let opcode2 = proto.spec_materialize_subvariant_from_prototype(2, version)->0;
    let settings2 = pow2(proto.spec_variants_data(version)[2].num_non_exclusive_flags as nat);
    let sources2 = source_spellings(opcode2.spec_input_operands(version)).len();
    let destinations2 = destination_spellings(opcode2.spec_output_operands(version)).len();
    assert(settings2 == 2);
    assert(sources2 == 6);
    assert(destinations2 == 4);
    assert(settings2 * (sources2 * destinations2) == 48) by (nonlinear_arith)
        requires
            settings2 == 2,
            sources2 == 6,
            destinations2 == 4,
    ;
    assert(subvariant_density(proto, version, proto.spec_variants_data(version)[2]) == 48);
    assert(family_density(proto, version, 3) == 144);
}

/// The `shift` family has 384 variants at the registered versions.
pub proof fn lemma_shift_family(version: ISAVersion)
    requires
        version.0 <= 1,
    ensures
        (Opcode::Shift(ShiftOpcode::Shl)).spec_variants_data(version).len() == 4,
        family_density(Opcode::Shift(ShiftOpcode::Shl), version, 4) == 384,
{
    let proto = Opcode::Shift(ShiftOpcode::Shl);
    assert(proto.spec_variants_data(version).len() == 4);
    assert(family_density(proto, version, 0) == 0);
    lemma_subvariant_density(proto, version, 0);
    let opcode0 = proto.spec_materialize_subvariant_from_prototype(0, version)->0;
    let settings0 = pow2(proto.spec_variants_data(version)[0].num_non_exclusive_flags as nat);
    let sources0 = source_spellings(opcode0.spec_input_operands(version)).len();
    let destinations0 = destination_spellings(opcode0.spec_output_operands(version)).len();
    assert(settings0 == 4);
    assert(sources0 == 6);
    assert(destinations0 == 4);
    assert(settings0 * (sources0 * destinations0) == 96) by (nonlinear_arith)
        requires
            settings0 == 4,
            sources0 == 6,
            destinations0 == 4,
    ;
    assert(subvariant_density(proto, version, proto.spec_variants_data(version)[0]) == 96);
    assert(family_density(proto, version, 1) == 96);
    lemma_subvariant_density(proto, version, 1);
    let opcode1 = proto.spec_materialize_subvariant_from_prototype(1, version)->0;
    let settings1 = pow2(proto.spec_variants_data(version)[1].num_non_exclusive_flags as nat);
    let sources1 = source_spellings(opcode1.spec_input_operands(version)).len();
    let destinations1 = destination_spellings(opcode1.spec_output_operands(version)).len();
    assert(settings1 == 4);
    assert(sources1 == 6);
    assert(destinations1 == 4);
    assert(settings1 * (sources1 * destinations1) == 96) by (nonlinear_arith)
        requires
            settings1 == 4,
            sources1 == 6,
            destinations1 == 4,
    ;
    assert(subvariant_density(proto, version, proto.spec_variants_data(version)[1]) == 96);
    assert(family_density(proto, version, 2) == 192);
    lemma_subvariant_density(proto, version, 2);
    let opcode2 = proto.spec_materialize_subvariant_from_prototype(2, version)->0;
    let settings2 = pow2(proto.spec_variants_data(version)[2].num_non_exclusive_flags as nat);
    let sources2 = source_spellings(opcode2.spec_input_operands(version)).len();
    let destinations2 = destination_spellings(opcode2.spec_output_operands(version)).len();
    assert(settings2 == 4);
    assert(sources2 == 6);
    assert(destinations2 == 4);
    assert(settings2 * (sources2 * destinations2) == 96) by (nonlinear_arith)
        requires
            settings2 == 4,
            sources2 == 6,
            destinations2 == 4,
    ;
    assert(subvariant_density(proto, version, proto.spec_variants_data(version)[2]) == 96);
    assert(family_density(proto, version, 3) == 288);
    lemma_subvariant_density(proto, version, 3);
    let opcode3 = proto.spec_materialize_subvariant_from_prototype(3, version)->0;
    let settings3 = pow2(proto.spec_variants_data(version)[3].num_non_exclusive_flags as nat);
    let sources3 = source_spellings(opcode3.spec_input_operands(version)).len();
    let destinations3 = destination_spellings(opcode3.spec_output_operands(version)).len();
    assert(settings3 == 4);
    assert(sources3 == 6);
    assert(destinations3 == 4);
    assert(settings3 * (sources3 * destinations3) == 96) by (nonlinear_arith)
        requires
            settings3 == 4,
            sources3 == 6,
            destinations3 == 4,
    ;
    assert(subvariant_density(proto, version, proto.spec_variants_data(version)[3]) == 96);
    assert(family_density(proto, version, 4) == 384);
}

/// The `ptr` family has 192 variants at the registered versions.
pub proof fn lemma_ptr_family(version: ISAVersion)
    requires
        version.0 <= 1,
    ensures
        (Opcode::Ptr(PtrOpcode::Add)).spec_variants_data(version).len() == 4,
        family_density(Opcode::Ptr(PtrOpcode::Add), version, 4) == 192,
{
    let proto = Opcode::Ptr(PtrOpcode::Add);
    assert(proto.spec_variants_data(version).len() == 4);
    assert(family_density(proto, version, 0) == 0);
    lemma_subvariant_density(proto, version, 0);
    let opcode0 = proto.spec_materialize_subvariant_from_prototype(0, version)->0;
    let settings0 = pow2(proto.spec_variants_data(version)[0].num_non_exclusive_flags as nat);
    let sources0 = source_spellings(opcode0.spec_input_operands(version)).len();
    let destinations0 = destination_spellings(opcode0.spec_output_operands(version)).len();
    assert(settings0 == 2);
    assert(sources0 == 6);
    assert(destinations0 == 4);
    assert(settings0 * (sources0 * destinations0) == 48) by (nonlinear_arith)
        requires
            settings0 == 2,
            sources0 == 6,
            destinations0 == 4,
    ;
    assert(subvariant_density(proto, version, proto.spec_variants_data(version)[0]) == 48);
    assert(family_density(proto, version, 1) == 48);
    lemma_subvariant_density(proto, version, 1);
    let opcode1 = proto.spec_materialize_subvariant_from_prototype(1, version)->0;
    let settings1 = pow2(proto.spec_variants_data(version)[1].num_non_exclusive_flags as nat);
    let sources1 = source_spellings(opcode1.spec_input_operands(version)).len();
    let destinations1 = destination_spellings(opcode1.spec_output_operands(version)).len();
    assert(settings1 == 2);
    assert(sources1 == 6);
    assert(destinations1 == 4);
    assert(settings1 * (sources1 * destinations1) == 48) by (nonlinear_arith)
        requires
            settings1 == 2,
            sources1 == 6,
            destinations1 == 4,
    ;
    assert(subvariant_density(proto, version, proto.spec_variants_data(version)[1]) == 48);
    assert(family_density(proto, version, 2) == 96);
    lemma_subvariant_density(proto, version, 2);
    let opcode2 = proto.spec_materialize_subvariant_from_prototype(2, version)->0;
    let settings2 = pow2(proto.spec_variants_data(version)[2].num_non_exclusive_flags as nat);
    let sources2 = source_spellings(opcode2.spec_input_operands(version)).len();
    let destinations2 = destination_spellings(opcode2.spec_output_operands(version)).len();
    assert(settings2 == 2);
    assert(sources2 == 6);
    assert(destinations2 == 4);
    assert(settings2 * (sources2 * destinations2) == 48) by (nonlinear_arith)
        requires
            settings2 == 2,
            sources2 == 6,
            destinations2 == 4,
    ;
    assert(subvariant_density(proto, version, proto.spec_variants_data(version)[2]) == 48);
    assert(family_density(proto, version, 3) == 144);
    lemma_subvariant_density(proto, version, 3);
    let opcode3 = proto.spec_materialize_subvariant_from_prototype(3, version)->0;
    let settings3 = pow2(proto.spec_variants_data(version)[3].num_non_exclusive_flags as nat);
    let sources3 = source_spellings(opcode3.spec_input_operands(version)).len();
    let destinations3 = destination_spellings(opcode3.spec_output_operands(version)).len();
    assert(settings3 == 2);
    assert(sources3 == 6);
    assert(destinations3 == 4);
    assert(settings3 * (sources3 * destinations3) == 48) by (nonlinear_arith)
        requires
            settings3 == 2,
            sources3 == 6,
            destinations3 == 4,
    ;
    assert(subvariant_density(proto, version, proto.spec_variants_data(version)[3]) == 48);
    assert(family_density(proto, version, 4) == 192);
}

/// The `near call` family has 1 variants at the registered versions.
pub proof fn lemma_near_call_family(version: ISAVersion)
    requires
        version.0 <= 1,
    ensures
        (Opcode::NearCall(NearCallOpcode)).spec_variants_data(version).len() == 1,
        family_density(Opcode::NearCall(NearCallOpcode), version, 1) == 1,
{
    let proto = Opcode::NearCall(NearCallOpcode);
    assert(proto.spec_variants_data(version).len() == 1);
    assert(family_density(proto, version, 0) == 0);
    lemma_subvariant_density(proto, version, 0);
    let opcode0 = proto.spec_materialize_subvariant_from_prototype(0, version)->0;
    let settings0 = pow2(proto.spec_variants_data(version)[0].num_non_exclusive_flags as nat);
    let sources0 = source_spellings(opcode0.spec_input_operands(version)).len();
    let destinations0 = destination_spellings(opcode0.spec_output_operands(version)).len();
    assert(settings0 == 1);
    assert(sources0 == 1);
    assert(destinations0 == 1);
    assert(settings0 * (sources0 * destinations0) == 1) by (nonlinear_arith)
        requires
            settings0 == 1,
            sources0 == 1,
            destinations0 == 1,
    ;
    assert(subvariant_density(proto, version, proto.spec_variants_data(version)[0]) == 1);
    assert(family_density(proto, version, 1) == 1);
}

/// Every sub-variant of the `context` family has one variant: all of its
/// operands are registers, and it has no flag.
pub proof fn lemma_context_subvariant(version: ISAVersion, i: int)
    requires
        version.0 <= 1,
        0 <= i < 10,
    ensures
        (Opcode::Context(ContextOpcode::This)).spec_variants_data(version).len() == 10,
        subvariant_density(
            Opcode::Context(ContextOpcode::This),
            version,
            (Opcode::Context(ContextOpcode::This)).spec_variants_data(version)[i],
        ) == 1,
{
    let proto = Opcode::Context(ContextOpcode::This);
    assert(proto.spec_variants_data(version).len() == 10);
    lemma_subvariant_density(proto, version, i);
    let opcode = proto.spec_materialize_subvariant_from_prototype(i as usize, version)->0;
    let settings = pow2(proto.spec_variants_data(version)[i].num_non_exclusive_flags as nat);
    let sources = source_spellings(opcode.spec_input_operands(version)).len();
    let destinations = destination_spellings(opcode.spec_output_operands(version)).len();
    assert(settings == 1);
    assert(opcode is Context);
    assert(sources == 1);
    assert(destinations == 1);
    assert(settings * (sources * destinations) == 1) by (nonlinear_arith)
        requires
            settings == 1,
            sources == 1,
            destinations == 1,
    ;
}

/// A family whose sub-variants all have `each` variants has `n * each`
/// variants in its first `n` sub-variants.
pub proof fn lemma_uniform_family_density(proto: Opcode, version: ISAVersion, each: nat, n: nat)
    requires
        n <= proto.spec_variants_data(version).len(),
        forall|i: int|
            0 <= i < proto.spec_variants_data(version).len() ==> subvariant_density(
                proto,
                version,
                #[trigger] proto.spec_variants_data(version)[i],
            ) == each,
    ensures
        family_density(proto, version, n) == n * each,
    decreases n,
{
    if n > 0 {
        lemma_uniform_family_density(proto, version, each, (n - 1) as nat);
        assert((n - 1) * each + each == n * each) by (nonlinear_arith);
    } else {
        assert(0 * each == 0) by (nonlinear_arith);
    }
}

/// The `context` family has 10 variants at the registered versions.
pub proof fn lemma_context_family(version: ISAVersion)
    requires
        version.0 <= 1,
    ensures
        (Opcode::Context(ContextOpcode::This)).spec_variants_data(version).len() == 10,
        family_density(Opcode::Context(ContextOpcode::This), version, 10) == 10,
{
    let proto = Opcode::Context(ContextOpcode::This);
    lemma_context_subvariant(version, 0);
    assert forall|i: int|
        0 <= i < proto.spec_variants_data(version).len() implies subvariant_density(
        proto,
        version,
        #[trigger] proto.spec_variants_data(version)[i],
    ) == 1 by {
        lemma_context_subvariant(version, i);
    }
    lemma_uniform_family_density(proto, version, 1, 10);
}

/// The `log` family has 7 variants at the registered versions.
pub proof fn lemma_log_family(version: ISAVersion)
    requires
        version.0 <= 1,
    ensures
        (Opcode::Log(LogOpcode::StorageRead)).spec_variants_data(version).len() == 5,
        family_density(Opcode::Log(LogOpcode::StorageRead), version, 5) == 7,
{
    let proto = Opcode::Log(LogOpcode::StorageRead);
    assert(proto.spec_variants_data(version).len() == 5);
    assert(family_density(proto, version, 0) == 0);
    lemma_subvariant_density(proto, version, 0);
    let opcode0 = proto.spec_materialize_subvariant_from_prototype(0, version)->0;
    let settings0 = pow2(proto.spec_variants_data(version)[0].num_non_exclusive_flags as nat);
    let sources0 = source_spellings(opcode0.spec_input_operands(version)).len();
    let destinations0 = destination_spellings(opcode0.spec_output_operands(version)).len();
    assert(settings0 == 1);
    assert(sources0 == 1);
    assert(destinations0 == 1);
    assert(settings0 * (sources0 * destinations0) == 1) by (nonlinear_arith)
        requires
            settings0 == 1,
            sources0 == 1,
            destinations0 == 1,
    ;
    assert(subvariant_density(proto, version, proto.spec_variants_data(version)[0]) == 1);
    assert(family_density(proto, version, 1) == 1);
    lemma_subvariant_density(proto, version, 1);
    let opcode1 = proto.spec_materialize_subvariant_from_prototype(1, version)->0;
    let settings1 = pow2(proto.spec_variants_data(version)[1].num_non_exclusive_flags as nat);
    let sources1 = source_spellings(opcode1.spec_input_operands(version)).len();
    let destinations1 = destination_spellings(opcode1.spec_output_operands(version)).len();
    assert(settings1 == 1);
    assert(sources1 == 1);
    assert(destinations1 == 1);
    assert(settings1 * (sources1 * destinations1) == 1) by (nonlinear_arith)
        requires
            settings1 == 1,
            sources1 == 1,
            destinations1 == 1,
    ;
    assert(subvariant_density(proto, version, proto.spec_variants_data(version)[1]) == 1);
    assert(family_density(proto, version, 2) == 2);
    lemma_subvariant_density(proto, version, 2);
    let opcode2 = proto.spec_materialize_subvariant_from_prototype(2, version)->0;
    let settings2 = pow2(proto.spec_variants_data(version)[2].num_non_exclusive_flags as nat);
    let sources2 = source_spellings(opcode2.spec_input_operands(version)).len();
    let destinations2 = destination_spellings(opcode2.spec_output_operands(version)).len();
    assert(settings2 == 2);
    assert(sources2 == 1);
    assert(destinations2 == 1);
    assert(settings2 * (sources2 * destinations2) == 2) by (nonlinear_arith)
        requires
            settings2 == 2,
            sources2 == 1,
            destinations2 == 1,
    ;
    assert(subvariant_density(proto, version, proto.spec_variants_data(version)[2]) == 2);
    assert(family_density(proto, version, 3) == 4);
    lemma_subvariant_density(proto, version, 3);
    let opcode3 = proto.spec_materialize_subvariant_from_prototype(3, version)->0;
    let settings3 = pow2(proto.spec_variants_data(version)[3].num_non_exclusive_flags as nat);
    let sources3 = source_spellings(opcode3.spec_input_operands(version)).len();
    let destinations3 = destination_spellings(opcode3.spec_output_operands(version)).len();
    assert(settings3 == 2);
    assert(sources3 == 1);
    assert(destinations3 == 1);
    assert(settings3 * (sources3 * destinations3) == 2) by (nonlinear_arith)
        requires
            settings3 == 2,
            sources3 == 1,
            destinations3 == 1,
    ;
    assert(subvariant_density(proto, version, proto.spec_variants_data(version)[3]) == 2);
    assert(family_density(proto, version, 4) == 6);
    lemma_subvariant_density(proto, version, 4);
    let opcode4 = proto.spec_materialize_subvariant_from_prototype(4, version)->0;
    let settings4 = pow2(proto.spec_variants_data(version)[4].num_non_exclusive_flags as nat);
    let sources4 = source_spellings(opcode4.spec_input_operands(version)).len();
    let destinations4 = destination_spellings(opcode4.spec_output_operands(version)).len();
    assert(settings4 == 1);
    assert(sources4 == 1);
    assert(destinations4 == 1);
    assert(settings4 * (sources4 * destinations4) == 1) by (nonlinear_arith)
        requires
            settings4 == 1,
            sources4 == 1,
            destinations4 == 1,
    ;
    assert(subvariant_density(proto, version, proto.spec_variants_data(version)[4]) == 1);
    assert(family_density(proto, version, 5) == 7);
}

/// The `far call` family has 12 variants at the registered versions.
pub proof fn lemma_far_call_family(version: ISAVersion)
    requires
        version.0 <= 1,
    ensures
        (Opcode::FarCall(FarCallOpcode::Normal)).spec_variants_data(version).len() == 3,
        family_density(Opcode::FarCall(FarCallOpcode::Normal), version, 3) == 12,
{
    let proto = Opcode::FarCall(FarCallOpcode::Normal);
    assert(proto.spec_variants_data(version).len() == 3);
    assert(family_density(proto, version, 0) == 0);
    lemma_subvariant_density(proto, version, 0);
    let opcode0 = proto.spec_materialize_subvariant_from_prototype(0, version)->0;
    let settings0 = pow2(proto.spec_variants_data(version)[0].num_non_exclusive_flags as nat);
    let sources0 = source_spellings(opcode0.spec_input_operands(version)).len();
    let destinations0 = destination_spellings(opcode0.spec_output_operands(version)).len();
    assert(settings0 == 4);
    assert(sources0 == 1);
    assert(destinations0 == 1);
    assert(settings0 * (sources0 * destinations0) == 4) by (nonlinear_arith)
        requires
            settings0 == 4,
            sources0 == 1,
            destinations0 == 1,
    ;
    assert(subvariant_density(proto, version, proto.spec_variants_data(version)[0]) == 4);
    assert(family_density(proto, version, 1) == 4);
    lemma_subvariant_density(proto, version, 1);
    let opcode1 = proto.spec_materialize_subvariant_from_prototype(1, version)->0;
    let settings1 = pow2(proto.spec_variants_data(version)[1].num_non_exclusive_flags as nat);
    let sources1 = source_spellings(opcode1.spec_input_operands(version)).len();
    let destinations1 = destination_spellings(opcode1.spec_output_operands(version)).len();
    assert(settings1 == 4);
    assert(sources1 == 1);
    assert(destinations1 == 1);
    assert(settings1 * (sources1 * destinations1) == 4) by (nonlinear_arith)
        requires
            settings1 == 4,
            sources1 == 1,
            destinations1 == 1,
    ;
    assert(subvariant_density(proto, version, proto.spec_variants_data(version)[1]) == 4);
    assert(family_density(proto, version, 2) == 8);
    lemma_subvariant_density(proto, version, 2);
    let opcode2 = proto.spec_materialize_subvariant_from_prototype(2, version)->0;
    let settings2 = pow2(proto.spec_variants_data(version)[2].num_non_exclusive_flags as nat);
    let sources2 = source_spellings(opcode2.spec_input_operands(version)).len();
    let destinations2 = destination_spellings(opcode2.spec_output_operands(version)).len();
    assert(settings2 == 4);
    assert(sources2 == 1);
    assert(destinations2 == 1);
    assert(settings2 * (sources2 * destinations2) == 4) by (nonlinear_arith)
        requires
            settings2 == 4,
            sources2 == 1,
            destinations2 == 1,
    ;
    assert(subvariant_density(proto, version, proto.spec_variants_data(version)[2]) == 4);
    assert(family_density(proto, version, 3) == 12);
}

/// The `ret` family has 6 variants at the registered versions.
pub proof fn lemma_ret_family(version: ISAVersion)
    requires
        version.0 <= 1,
    ensures
        (Opcode::Ret(RetOpcode::Okay)).spec_variants_data(version).len() == 3,
        family_density(Opcode::Ret(RetOpcode::Okay), version, 3) == 6,
{
    let proto = Opcode::Ret(RetOpcode::Okay);
    assert(proto.spec_variants_data(version).len() == 3);
    assert(family_density(proto, version, 0) == 0);
    lemma_subvariant_density(proto, version, 0);
    let opcode0 = proto.spec_materialize_subvariant_from_prototype(0, version)->0;
    let settings0 = pow2(proto.spec_variants_data(version)[0].num_non_exclusive_flags as nat);
    let sources0 = source_spellings(opcode0.spec_input_operands(version)).len();
    let destinations0 = destination_spellings(opcode0.spec_output_operands(version)).len();
    assert(settings0 == 2);
    assert(sources0 == 1);
    assert(destinations0 == 1);
    assert(settings0 * (sources0 * destinations0) == 2) by (nonlinear_arith)
        requires
            settings0 == 2,
            sources0 == 1,
            destinations0 == 1,
    ;
    assert(subvariant_density(proto, version, proto.spec_variants_data(version)[0]) == 2);
    assert(family_density(proto, version, 1) == 2);
    lemma_subvariant_density(proto, version, 1);
    let opcode1 = proto.spec_materialize_subvariant_from_prototype(1, version)->0;
    let settings1 = pow2(proto.spec_variants_data(version)[1].num_non_exclusive_flags as nat);
    let sources1 = source_spellings(opcode1.spec_input_operands(version)).len();
    let destinations1 = destination_spellings(opcode1.spec_output_operands(version)).len();
    assert(settings1 == 2);
    assert(sources1 == 1);
    assert(destinations1 == 1);
    assert(settings1 * (sources1 * destinations1) == 2) by (nonlinear_arith)
        requires
            settings1 == 2,
            sources1 == 1,
            destinations1 == 1,
    ;
    assert(subvariant_density(proto, version, proto.spec_variants_data(version)[1]) == 2);
    assert(family_density(proto, version, 2) == 4);
    lemma_subvariant_density(proto, version, 2);
    let opcode2 = proto.spec_materialize_subvariant_from_prototype(2, version)->0;
    let settings2 = pow2(proto.spec_variants_data(version)[2].num_non_exclusive_flags as nat);
    let sources2 = source_spellings(opcode2.spec_input_operands(version)).len();
    let destinations2 = destination_spellings(opcode2.spec_output_operands(version)).len();
    assert(settings2 == 2);
    assert(sources2 == 1);
    assert(destinations2 == 1);
    assert(settings2 * (sources2 * destinations2) == 2) by (nonlinear_arith)
        requires
            settings2 == 2,
            sources2 == 1,
            destinations2 == 1,
    ;
    assert(subvariant_density(proto, version, proto.spec_variants_data(version)[2]) == 2);
    assert(family_density(proto, version, 3) == 6);
}

/// The `uma` family has ten variants at the first version and eighteen at the
/// second, where the offset of a heap access may be an immediate.
pub proof fn lemma_uma_family(version: ISAVersion)
    requires
        version.0 <= 1,
    ensures
        (Opcode::UMA(UMAOpcode::HeapRead)).spec_variants_data(version).len() == 5,
        family_density(Opcode::UMA(UMAOpcode::HeapRead), version, 5) == (if version.0 == 0 {
            10nat
        } else {
            18nat
        }),
{
    let proto = Opcode::UMA(UMAOpcode::HeapRead);
    assert(proto.spec_variants_data(version).len() == 5);
    assert(family_density(proto, version, 0) == 0);
    lemma_subvariant_density(proto, version, 0);
    let opcode0 = proto.spec_materialize_subvariant_from_prototype(0, version)->0;
    let settings0 = pow2(proto.spec_variants_data(version)[0].num_non_exclusive_flags as nat);
    let sources0 = source_spellings(opcode0.spec_input_operands(version)).len();
    let destinations0 = destination_spellings(opcode0.spec_output_operands(version)).len();
    assert(settings0 == 2);
    assert(sources0 == (if version.0 == 0 { 1nat } else { 2nat }));
    assert(destinations0 == 1);
    assert(settings0 * (sources0 * destinations0) == (if version.0 == 0 {
        2nat
    } else {
        4nat
    })) by (nonlinear_arith)
        requires
            settings0 == 2,
            sources0 == (if version.0 == 0 { 1nat } else { 2nat }),
            destinations0 == 1,
    ;
    assert(subvariant_density(proto, version, proto.spec_variants_data(version)[0]) == (
    if version.0 == 0 {
        2nat
    } else {
        4nat
    }));
    assert(family_density(proto, version, 1) == (if version.0 == 0 { 2nat } else { 4nat }));
    lemma_subvariant_density(proto, version, 1);
    let opcode1 = proto.spec_materialize_subvariant_from_prototype(1, version)->0;
    let settings1 = pow2(proto.spec_variants_data(version)[1].num_non_exclusive_flags as nat);
    let sources1 = source_spellings(opcode1.spec_input_operands(version)).len();
    let destinations1 = destination_spellings(opcode1.spec_output_operands(version)).len();
    assert(settings1 == 2);
    assert(sources1 == (if version.0 == 0 { 1nat } else { 2nat }));
    assert(destinations1 == 1);
    assert(settings1 * (sources1 * destinations1) == (if version.0 == 0 {
        2nat
    } else {
        4nat
    })) by (nonlinear_arith)
        requires
            settings1 == 2,
            sources1 == (if version.0 == 0 { 1nat } else { 2nat }),
            destinations1 == 1,
    ;
    assert(subvariant_density(proto, version, proto.spec_variants_data(version)[1]) == (
    if version.0 == 0 {
        2nat
    } else {
        4nat
    }));
    assert(family_density(proto, version, 2) == (if version.0 == 0 { 4nat } else { 8nat }));
    lemma_subvariant_density(proto, version, 2);
    let opcode2 = proto.spec_materialize_subvariant_from_prototype(2, version)->0;
    let settings2 = pow2(proto.spec_variants_data(version)[2].num_non_exclusive_flags as nat);
    let sources2 = source_spellings(opcode2.spec_input_operands(version)).len();
    let destinations2 = destination_spellings(opcode2.spec_output_operands(version)).len();
    assert(settings2 == 2);
    assert(sources2 == (if version.0 == 0 { 1nat } else { 2nat }));
    assert(destinations2 == 1);
    assert(settings2 * (sources2 * destinations2) == (if version.0 == 0 {
        2nat
    } else {
        4nat
    })) by (nonlinear_arith)
        requires
            settings2 == 2,
            sources2 == (if version.0 == 0 { 1nat } else { 2nat }),
            destinations2 == 1,
    ;
    assert(subvariant_density(proto, version, proto.spec_variants_data(version)[2]) == (
    if version.0 == 0 {
        2nat
    } else {
        4nat
    }));
    assert(family_density(proto, version, 3) == (if version.0 == 0 { 6nat } else { 12nat }));
    lemma_subvariant_density(proto, version, 3);
    let opcode3 = proto.spec_materialize_subvariant_from_prototype(3, version)->0;
    let settings3 = pow2(proto.spec_variants_data(version)[3].num_non_exclusive_flags as nat);
    let sources3 = source_spellings(opcode3.spec_input_operands(version)).len();
    let destinations3 = destination_spellings(opcode3.spec_output_operands(version)).len();
    assert(settings3 == 2);
    assert(sources3 == (if version.0 == 0 { 1nat } else { 2nat }));
    assert(destinations3 == 1);
    assert(settings3 * (sources3 * destinations3) == (if version.0 == 0 {
        2nat
    } else {
        4nat
    })) by (nonlinear_arith)
        requires
            settings3 == 2,
            sources3 == (if version.0 == 0 { 1nat } else { 2nat }),
            destinations3 == 1,
    ;
    assert(subvariant_density(proto, version, proto.spec_variants_data(version)[3]) == (
    if version.0 == 0 {
        2nat
    } else {
        4nat
    }));
    assert(family_density(proto, version, 4) == (if version.0 == 0 { 8nat } else { 16nat }));
    lemma_subvariant_density(proto, version, 4);
    let opcode4 = proto.spec_materialize_subvariant_from_prototype(4, version)->0;
    let settings4 = pow2(proto.spec_variants_data(version)[4].num_non_exclusive_flags as nat);
    let sources4 = source_spellings(opcode4.spec_input_operands(version)).len();
    let destinations4 = destination_spellings(opcode4.spec_output_operands(version)).len();
    assert(settings4 == 2);
    assert(sources4 == 1);
    assert(destinations4 == 1);
    assert(settings4 * (sources4 * destinations4) == 2) by (nonlinear_arith)
        requires
            settings4 == 2,
            sources4 == 1,
            destinations4 == 1,
    ;
    assert(subvariant_density(proto, version, proto.spec_variants_data(version)[4]) == 2);
    assert(family_density(proto, version, 5) == (if version.0 == 0 { 10nat } else { 18nat }));
}

/// The first version has 1085 variants and the second 1093, of which the
/// first fifteen families have 1075 in both: the variants of either version
/// fit a table of `2^11` slots.
pub proof fn lemma_densities(version: ISAVersion)
    requires
        version.0 <= 1,
    ensures
        families_density(version, 15) == 1075,
        spec_encoding_density(version) == (if version.0 == 0 {
            1085nat
        } else {
            1093nat
        }),
{
    let prototypes = spec_all_opcode_prototypes();
    assert(families_density(version, 0) == 0);
    lemma_invalid_family(version);
    assert(prototypes[0] == Opcode::Invalid(InvalidOpcode));
    assert(families_density(version, 1) == 1);
    lemma_nop_family(version);
    assert(prototypes[1] == Opcode::Nop(NopOpcode));
    assert(families_density(version, 2) == 25);
    lemma_add_family(version);
    assert(prototypes[2] == Opcode::Add(AddOpcode::Add));
    assert(families_density(version, 3) == 73);
    lemma_sub_family(version);
    assert(prototypes[3] == Opcode::Sub(SubOpcode::Sub));
    assert(families_density(version, 4) == 169);
    lemma_mul_family(version);
    assert(prototypes[4] == Opcode::Mul(MulOpcode));
    assert(families_density(version, 5) == 217);
    lemma_div_family(version);
    assert(prototypes[5] == Opcode::Div(DivOpcode));
    assert(families_density(version, 6) == 313);
    lemma_jump_family(version);
    assert(prototypes[6] == Opcode::Jump(JumpOpcode));
    assert(families_density(version, 7) == 319);
    lemma_binop_family(version);
    assert(prototypes[7] == Opcode::Binop(BinopOpcode::Xor));
    assert(families_density(version, 8) == 463);
    lemma_shift_family(version);
    assert(prototypes[8] == Opcode::Shift(ShiftOpcode::Shl));
    assert(families_density(version, 9) == 847);
    lemma_ptr_family(version);
    assert(prototypes[9] == Opcode::Ptr(PtrOpcode::Add));
    assert(families_density(version, 10) == 1039);
    lemma_near_call_family(version);
    assert(prototypes[10] == Opcode::NearCall(NearCallOpcode));
    assert(families_density(version, 11) == 1040);
    lemma_context_family(version);
    assert(prototypes[11] == Opcode::Context(ContextOpcode::This));
    assert(families_density(version, 12) == 1050);
    lemma_log_family(version);
    assert(prototypes[12] == Opcode::Log(LogOpcode::StorageRead));
    assert(families_density(version, 13) == 1057);
    lemma_far_call_family(version);
    assert(prototypes[13] == Opcode::FarCall(FarCallOpcode::Normal));
    assert(families_density(version, 14) == 1069);
    lemma_ret_family(version);
    assert(prototypes[14] == Opcode::Ret(RetOpcode::Okay));
    assert(families_density(version, 15) == 1075);
    lemma_uma_family(version);
    assert(prototypes[15] == Opcode::UMA(UMAOpcode::HeapRead));
}

} // verus!
