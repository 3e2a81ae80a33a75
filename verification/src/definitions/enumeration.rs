//! Every variant that a version of the instruction set has, in the fixed order
//! on which the indices of the decoding table rest: by family, by sub-variant,
//! by source spelling, by destination spelling, by flags.

use vstd::prelude::*;
use crate::definitions::add::AddOpcode;
use crate::definitions::all::Opcode;
use crate::definitions::binop::BinopOpcode;
use crate::definitions::context::ContextOpcode;
use crate::definitions::div::DivOpcode;
use crate::definitions::far_call::FarCallOpcode;
use crate::definitions::invalid_opcode::InvalidOpcode;
use crate::definitions::jump::JumpOpcode;
use crate::definitions::log::LogOpcode;
use crate::definitions::mul::MulOpcode;
use crate::definitions::near_call::NearCallOpcode;
use crate::definitions::noop::NopOpcode;
use crate::definitions::opcode_trait::{ISAVersion, OpcodeVariantData, Operand};
use crate::definitions::ptr::PtrOpcode;
use crate::definitions::ret::RetOpcode;
use crate::definitions::shift::ShiftOpcode;
use crate::definitions::sub::SubOpcode;
use crate::definitions::uma::UMAOpcode;
use crate::definitions::variant::{spec_invalid_opcode_variant, variant_of, OpcodeVariant};
use crate::imm_mem_modifiers::{ImmMemHandlerFlags, RegOrImmFlags};
use crate::NUM_OPCODES;

verus! {

/// One opcode of each family, in the order in which the families enter the
/// decoding table.
pub open spec fn spec_all_opcode_prototypes() -> Seq<Opcode> {
    seq![
        Opcode::Invalid(InvalidOpcode),
        Opcode::Nop(NopOpcode),
        Opcode::Add(AddOpcode::Add),
        Opcode::Sub(SubOpcode::Sub),
        Opcode::Mul(MulOpcode),
        Opcode::Div(DivOpcode),
        Opcode::Jump(JumpOpcode),
        Opcode::Binop(BinopOpcode::Xor),
        Opcode::Shift(ShiftOpcode::Shl),
        Opcode::Ptr(PtrOpcode::Add),
        Opcode::NearCall(NearCallOpcode),
        Opcode::Context(ContextOpcode::This),
        Opcode::Log(LogOpcode::StorageRead),
        Opcode::FarCall(FarCallOpcode::Normal),
        Opcode::Ret(RetOpcode::Okay),
        Opcode::UMA(UMAOpcode::HeapRead),
    ]
}

pub fn all_opcode_prototypes() -> (r: [Opcode; NUM_OPCODES])
    ensures
        r@ == spec_all_opcode_prototypes(),
{
    let opcodes = [
        Opcode::Invalid(InvalidOpcode),
        Opcode::Nop(NopOpcode),
        Opcode::Add(AddOpcode::Add),
        Opcode::Sub(SubOpcode::Sub),
        Opcode::Mul(MulOpcode),
        Opcode::Div(DivOpcode),
        Opcode::Jump(JumpOpcode),
        Opcode::Binop(BinopOpcode::Xor),
        Opcode::Shift(ShiftOpcode::Shl),
        Opcode::Ptr(PtrOpcode::Add),
        Opcode::NearCall(NearCallOpcode),
        Opcode::Context(ContextOpcode::This),
        Opcode::Log(LogOpcode::StorageRead),
        Opcode::FarCall(FarCallOpcode::Normal),
        Opcode::Ret(RetOpcode::Okay),
        Opcode::UMA(UMAOpcode::HeapRead),
    ];
    assert(opcodes@ =~= spec_all_opcode_prototypes());
    opcodes
}

/// The families, each stood for by one of its opcodes: what is asked of such an
/// opcode is asked of its family.
pub fn all_opcodes() -> (r: Vec<Opcode>)
    ensures
        r@ == spec_all_opcode_prototypes(),
        r@.len() == NUM_OPCODES,
        r@[0] is Invalid,
{
    let protos = all_opcode_prototypes();
    let mut opcodes: Vec<Opcode> = Vec::new();
    let mut i: usize = 0;
    while i < NUM_OPCODES
        invariant
            i <= NUM_OPCODES,
            protos@.len() == NUM_OPCODES,
            opcodes@ == protos@.take(i as int),
        decreases NUM_OPCODES - i,
    {
        opcodes.push(protos[i]);
        assert(protos@.take(i + 1) =~= protos@.take(i as int).push(protos@[i as int]));
        i += 1;
    }
    assert(protos@.take(NUM_OPCODES as int) =~= protos@);
    opcodes
}

/// The length and the first two letters of the name of a family.
pub open spec fn name_signature(name: Seq<char>) -> (nat, char, char) {
    (name.len(), name[0], name[1])
}

/// The signatures of the names of the families, in table order.
pub open spec fn family_name_signatures() -> Seq<(nat, char, char)> {
    seq![
        (14nat, 'I', 'n'),
        (10nat, 'N', 'o'),
        (10nat, 'A', 'd'),
        (10nat, 'S', 'u'),
        (10nat, 'M', 'u'),
        (10nat, 'D', 'i'),
        (11nat, 'J', 'u'),
        (12nat, 'B', 'i'),
        (12nat, 'S', 'h'),
        (10nat, 'P', 't'),
        (16nat, 'N', 'e'),
        (14nat, 'C', 'o'),
        (10nat, 'L', 'o'),
        (15nat, 'F', 'a'),
        (10nat, 'R', 'e'),
        (10nat, 'U', 'M'),
    ]
}

proof fn lemma_name_of_invalid()
    ensures
        name_signature(spec_all_opcode_prototypes()[0].spec_name())
            == family_name_signatures()[0],
{
    reveal_strlit("Invalid opcode");
}

proof fn lemma_name_of_nop()
    ensures
        name_signature(spec_all_opcode_prototypes()[1].spec_name())
            == family_name_signatures()[1],
{
    reveal_strlit("Nop opcode");
}

proof fn lemma_name_of_add()
    ensures
        name_signature(spec_all_opcode_prototypes()[2].spec_name())
            == family_name_signatures()[2],
{
    reveal_strlit("Add opcode");
}

proof fn lemma_name_of_sub()
    ensures
        name_signature(spec_all_opcode_prototypes()[3].spec_name())
            == family_name_signatures()[3],
{
    reveal_strlit("Sub opcode");
}

proof fn lemma_name_of_mul()
    ensures
        name_signature(spec_all_opcode_prototypes()[4].spec_name())
            == family_name_signatures()[4],
{
    reveal_strlit("Mul opcode");
}

proof fn lemma_name_of_div()
    ensures
        name_signature(spec_all_opcode_prototypes()[5].spec_name())
            == family_name_signatures()[5],
{
    reveal_strlit("Div opcode");
}

proof fn lemma_name_of_jump()
    ensures
        name_signature(spec_all_opcode_prototypes()[6].spec_name())
            == family_name_signatures()[6],
{
    reveal_strlit("Jump opcode");
}

proof fn lemma_name_of_binop()
    ensures
        name_signature(spec_all_opcode_prototypes()[7].spec_name())
            == family_name_signatures()[7],
{
    reveal_strlit("Binop opcode");
}

proof fn lemma_name_of_shift()
    ensures
        name_signature(spec_all_opcode_prototypes()[8].spec_name())
            == family_name_signatures()[8],
{
    reveal_strlit("Shift opcode");
}

proof fn lemma_name_of_ptr()
    ensures
        name_signature(spec_all_opcode_prototypes()[9].spec_name())
            == family_name_signatures()[9],
{
    reveal_strlit("Ptr opcode");
}

proof fn lemma_name_of_near_call()
    ensures
        name_signature(spec_all_opcode_prototypes()[10].spec_name())
            == family_name_signatures()[10],
{
    reveal_strlit("Near call opcode");
}

proof fn lemma_name_of_context()
    ensures
        name_signature(spec_all_opcode_prototypes()[11].spec_name())
            == family_name_signatures()[11],
{
    reveal_strlit("Context opcode");
}

proof fn lemma_name_of_log()
    ensures
        name_signature(spec_all_opcode_prototypes()[12].spec_name())
            == family_name_signatures()[12],
{
    reveal_strlit("Log opcode");
}

proof fn lemma_name_of_far_call()
    ensures
        name_signature(spec_all_opcode_prototypes()[13].spec_name())
            == family_name_signatures()[13],
{
    reveal_strlit("Far call opcode");
}

proof fn lemma_name_of_ret()
    ensures
        name_signature(spec_all_opcode_prototypes()[14].spec_name())
            == family_name_signatures()[14],
{
    reveal_strlit("Ret opcode");
}

proof fn lemma_name_of_uma()
    ensures
        name_signature(spec_all_opcode_prototypes()[15].spec_name())
            == family_name_signatures()[15],
{
    reveal_strlit("UMA opcode");
}

/// No two families have the same name: names of the same length differ in
/// one of their first two letters.
pub proof fn lemma_family_names_are_distinct(i: int, j: int)
    requires
        0 <= i < j < spec_all_opcode_prototypes().len(),
    ensures
        spec_all_opcode_prototypes()[i].spec_name() != spec_all_opcode_prototypes()[
            j
        ].spec_name(),
{
    lemma_name_of_invalid();
    lemma_name_of_nop();
    lemma_name_of_add();
    lemma_name_of_sub();
    lemma_name_of_mul();
    lemma_name_of_div();
    lemma_name_of_jump();
    lemma_name_of_binop();
    lemma_name_of_shift();
    lemma_name_of_ptr();
    lemma_name_of_near_call();
    lemma_name_of_context();
    lemma_name_of_log();
    lemma_name_of_far_call();
    lemma_name_of_ret();
    lemma_name_of_uma();
    let signatures = family_name_signatures();
    assert(signatures[i] != signatures[j]);
}

/// The spellings of a first source, by the class of the first input: a
/// register where there is no input.
pub open spec fn source_spellings(inputs: Seq<Operand>) -> Seq<Operand> {
    if inputs.len() == 0 {
        seq![Operand::RegOnly]
    } else {
        match inputs[0] {
            Operand::RegOnly => seq![Operand::RegOnly],
            Operand::RegOrImm(_) => seq![
                Operand::RegOrImm(RegOrImmFlags::UseRegOnly),
                Operand::RegOrImm(RegOrImmFlags::UseImm16Only),
            ],
            Operand::Full(_) => seq![
                Operand::Full(ImmMemHandlerFlags::UseRegOnly),
                Operand::Full(ImmMemHandlerFlags::UseStackWithPushPop),
                Operand::Full(ImmMemHandlerFlags::UseStackWithOffset),
                Operand::Full(ImmMemHandlerFlags::UseAbsoluteOnStack),
                Operand::Full(ImmMemHandlerFlags::UseImm16Only),
                Operand::Full(ImmMemHandlerFlags::UseCodePage),
            ],
        }
    }
}

/// The spellings of a first destination, by the class of the first output: a
/// register where there is no output. A destination is never an immediate and
/// never lies on the code page.
pub open spec fn destination_spellings(outputs: Seq<Operand>) -> Seq<Operand> {
    if outputs.len() == 0 {
        seq![Operand::RegOnly]
    } else {
        match outputs[0] {
            Operand::RegOnly => seq![Operand::RegOnly],
            Operand::RegOrImm(_) => seq![Operand::RegOrImm(RegOrImmFlags::UseRegOnly)],
            Operand::Full(_) => seq![
                Operand::Full(ImmMemHandlerFlags::UseRegOnly),
                Operand::Full(ImmMemHandlerFlags::UseStackWithPushPop),
                Operand::Full(ImmMemHandlerFlags::UseStackWithOffset),
                Operand::Full(ImmMemHandlerFlags::UseAbsoluteOnStack),
            ],
        }
    }
}

pub fn source_spellings_of(inputs: &Vec<Operand>) -> (r: Vec<Operand>)
    ensures
        r@ == source_spellings(inputs@),
{
    let mut result: Vec<Operand> = Vec::new();
    if inputs.len() == 0 {
        result.push(Operand::RegOnly);
        return result;
    }
    match inputs[0] {
        Operand::RegOnly => {
            result.push(Operand::RegOnly);
        },
        Operand::RegOrImm(_) => {
            let all = RegOrImmFlags::all_variants();
            let mut i: usize = 0;
            while i < 2
                invariant
                    i <= 2,
                    all@ == RegOrImmFlags::spec_all_variants(),
                    result@ == Seq::new(i as nat, |k: int| Operand::RegOrImm(all@[k])),
                decreases 2 - i,
            {
                result.push(Operand::RegOrImm(all[i]));
                i += 1;
            }
        },
        Operand::Full(_) => {
            let all = ImmMemHandlerFlags::all_variants();
            let mut i: usize = 0;
            while i < 6
                invariant
                    i <= 6,
                    all@ == ImmMemHandlerFlags::spec_all_variants(),
                    result@ == Seq::new(i as nat, |k: int| Operand::Full(all@[k])),
                decreases 6 - i,
            {
                result.push(Operand::Full(all[i]));
                i += 1;
            }
        },
    }
    result
}

pub fn destination_spellings_of(outputs: &Vec<Operand>) -> (r: Vec<Operand>)
    ensures
        r@ == destination_spellings(outputs@),
{
    let mut result: Vec<Operand> = Vec::new();
    if outputs.len() == 0 {
        result.push(Operand::RegOnly);
        return result;
    }
    match outputs[0] {
        Operand::RegOnly => {
            result.push(Operand::RegOnly);
        },
        Operand::RegOrImm(_) => {
            let all = RegOrImmFlags::all_variants();
            let mut i: usize = 0;
            while i < 2
                invariant
                    i <= 2,
                    all@ == RegOrImmFlags::spec_all_variants(),
                    i == 0 ==> result@ == Seq::<Operand>::empty(),
                    i > 0 ==> result@ == seq![Operand::RegOrImm(RegOrImmFlags::UseRegOnly)],
                decreases 2 - i,
            {
                if all[i].is_allowed_for_dst() {
                    result.push(Operand::RegOrImm(all[i]));
                }
                i += 1;
            }
        },
        Operand::Full(_) => {
            let all = ImmMemHandlerFlags::all_variants();
            let mut i: usize = 0;
            while i < 6
                invariant
                    i <= 6,
                    all@ == ImmMemHandlerFlags::spec_all_variants(),
                    i <= 4 ==> result@ == Seq::new(i as nat, |k: int| Operand::Full(all@[k])),
                    i > 4 ==> result@ == Seq::new(4, |k: int| Operand::Full(all@[k])),
                decreases 6 - i,
            {
                if all[i].is_allowed_for_dst() {
                    result.push(Operand::Full(all[i]));
                }
                i += 1;
            }
        },
    }
    result
}

/// The variants of one opcode on one pair of spellings: one for each setting of
/// the flags that the sub-variant declares, the first flag varying slowest.
pub open spec fn flag_block(
    opcode: Opcode,
    src: Operand,
    dst: Operand,
    num_flags: usize,
) -> Seq<OpcodeVariant> {
    if num_flags == 0 {
        seq![variant_of(opcode, src, dst, false, false)]
    } else if num_flags == 1 {
        seq![variant_of(opcode, src, dst, false, false), variant_of(opcode, src, dst, true, false)]
    } else {
        seq![
            variant_of(opcode, src, dst, false, false),
            variant_of(opcode, src, dst, false, true),
            variant_of(opcode, src, dst, true, false),
            variant_of(opcode, src, dst, true, true),
        ]
    }
}

/// The variants of one opcode on one source spelling and on the first `n`
/// destination spellings.
pub open spec fn destinations_block(
    opcode: Opcode,
    src: Operand,
    dsts: Seq<Operand>,
    num_flags: usize,
    n: nat,
) -> Seq<OpcodeVariant>
    decreases n,
{
    if n == 0 {
        Seq::empty()
    } else {
        destinations_block(opcode, src, dsts, num_flags, (n - 1) as nat) + flag_block(
            opcode,
            src,
            dsts[n - 1],
            num_flags,
        )
    }
}

/// The variants of one opcode on the first `n` source spellings and on all
/// destination spellings.
pub open spec fn sources_block(
    opcode: Opcode,
    srcs: Seq<Operand>,
    dsts: Seq<Operand>,
    num_flags: usize,
    n: nat,
) -> Seq<OpcodeVariant>
    decreases n,
{
    if n == 0 {
        Seq::empty()
    } else {
        sources_block(opcode, srcs, dsts, num_flags, (n - 1) as nat) + destinations_block(
            opcode,
            srcs[n - 1],
            dsts,
            num_flags,
            dsts.len(),
        )
    }
}

/// Every variant of one opcode at `version`: the cross product of its source
/// spellings, its destination spellings and its flags.
pub open spec fn opcode_block(opcode: Opcode, version: ISAVersion, num_flags: usize) -> Seq<
    OpcodeVariant,
> {
    sources_block(
        opcode,
        source_spellings(opcode.spec_input_operands(version)),
        destination_spellings(opcode.spec_output_operands(version)),
        num_flags,
        source_spellings(opcode.spec_input_operands(version)).len(),
    )
}

/// Every variant of the sub-variant that `data` describes, of the family of
/// `proto`.
pub open spec fn subvariant_block(
    proto: Opcode,
    version: ISAVersion,
    data: OpcodeVariantData,
) -> Seq<OpcodeVariant> {
    match proto.spec_materialize_subvariant_from_prototype(data.variant_idx, version) {
        Some(opcode) => opcode_block(opcode, version, data.num_non_exclusive_flags),
        None => Seq::empty(),
    }
}

/// Every variant of the first `n` sub-variants of the family of `proto`.
pub open spec fn family_block(proto: Opcode, version: ISAVersion, n: nat) -> Seq<OpcodeVariant>
    decreases n,
{
    if n == 0 {
        Seq::empty()
    } else {
        family_block(proto, version, (n - 1) as nat) + subvariant_block(
            proto,
            version,
            proto.spec_variants_data(version)[n - 1],
        )
    }
}

/// Every variant of the first `n` families.
pub open spec fn families_block(version: ISAVersion, n: nat) -> Seq<OpcodeVariant>
    decreases n,
{
    if n == 0 {
        Seq::empty()
    } else {
        families_block(version, (n - 1) as nat) + family_block(
            spec_all_opcode_prototypes()[n - 1],
            version,
            spec_all_opcode_prototypes()[n - 1].spec_variants_data(version).len(),
        )
    }
}

/// Every variant that `version` has, in table order.
pub open spec fn spec_all_variants_in_version(version: ISAVersion) -> Seq<OpcodeVariant> {
    families_block(version, spec_all_opcode_prototypes().len())
}

/// Appends the variants of one opcode on one pair of spellings.
pub fn push_flag_block(
    result: &mut Vec<OpcodeVariant>,
    opcode: Opcode,
    src: Operand,
    dst: Operand,
    num_flags: usize,
)
    ensures
        final(result)@ == old(result)@ + flag_block(opcode, src, dst, num_flags),
{
    let ghost before = result@;
    if num_flags == 0 {
        result.push(
            OpcodeVariant {
                opcode,
                src0_operand_type: src,
                dst0_operand_type: dst,
                flags: [false, false],
            },
        );
    } else if num_flags == 1 {
        result.push(
            OpcodeVariant {
                opcode,
                src0_operand_type: src,
                dst0_operand_type: dst,
                flags: [false, false],
            },
        );
        result.push(
            OpcodeVariant {
                opcode,
                src0_operand_type: src,
                dst0_operand_type: dst,
                flags: [true, false],
            },
        );
    } else {
        result.push(
            OpcodeVariant {
                opcode,
                src0_operand_type: src,
                dst0_operand_type: dst,
                flags: [false, false],
            },
        );
        result.push(
            OpcodeVariant {
                opcode,
                src0_operand_type: src,
                dst0_operand_type: dst,
                flags: [false, true],
            },
        );
        result.push(
            OpcodeVariant {
                opcode,
                src0_operand_type: src,
                dst0_operand_type: dst,
                flags: [true, false],
            },
        );
        result.push(
            OpcodeVariant {
                opcode,
                src0_operand_type: src,
                dst0_operand_type: dst,
                flags: [true, true],
            },
        );
    }
    assert(result@ =~= before + flag_block(opcode, src, dst, num_flags));
}

/// Appends the variants of one opcode on the given source and destination
/// spellings: for each source every destination, for each pair every setting
/// of the flags.
pub fn push_spellings_block(
    result: &mut Vec<OpcodeVariant>,
    opcode: Opcode,
    srcs: &Vec<Operand>,
    dsts: &Vec<Operand>,
    num_flags: usize,
)
    ensures
        final(result)@ == old(result)@ + sources_block(
            opcode,
            srcs@,
            dsts@,
            num_flags,
            srcs@.len(),
        ),
{
    let ghost before = result@;
    let mut i: usize = 0;
    while i < srcs.len()
        invariant
            i <= srcs.len(),
            result@ == before + sources_block(opcode, srcs@, dsts@, num_flags, i as nat),
        decreases srcs.len() - i,
    {
        let ghost at_source = result@;
        let mut j: usize = 0;
        while j < dsts.len()
            invariant
                i < srcs.len(),
                j <= dsts.len(),
                result@ == at_source + destinations_block(
                    opcode,
                    srcs@[i as int],
                    dsts@,
                    num_flags,
                    j as nat,
                ),
            decreases dsts.len() - j,
        {
            push_flag_block(result, opcode, srcs[i], dsts[j], num_flags);
            j += 1;
        }
        i += 1;
    }
}

/// Appends every variant of one opcode at `version`.
pub fn push_opcode_block(
    result: &mut Vec<OpcodeVariant>,
    opcode: Opcode,
    version: ISAVersion,
    num_flags: usize,
)
    ensures
        final(result)@ == old(result)@ + opcode_block(opcode, version, num_flags),
{
    let inputs = opcode.input_operands(version);
    let outputs = opcode.output_operands(version);
    let srcs = source_spellings_of(&inputs);
    let dsts = destination_spellings_of(&outputs);
    push_spellings_block(result, opcode, &srcs, &dsts, num_flags);
}

/// Appends every variant of the family of `proto` at `version`. A sub-variant
/// that the family declares and cannot materialize at `version` adds nothing.
pub fn push_family_block(result: &mut Vec<OpcodeVariant>, proto: Opcode, version: ISAVersion)
    ensures
        final(result)@ == old(result)@ + family_block(
            proto,
            version,
            proto.spec_variants_data(version).len(),
        ),
{
    let ghost before = result@;
    let all_variants_in_this_version = proto.variants_data(version);
    let mut i: usize = 0;
    while i < all_variants_in_this_version.len()
        invariant
            i <= all_variants_in_this_version.len(),
            all_variants_in_this_version@ == proto.spec_variants_data(version),
            result@ == before + family_block(proto, version, i as nat),
        decreases all_variants_in_this_version.len() - i,
    {
        let variant_data = all_variants_in_this_version[i];
        match proto.try_materialize_subvariant_from_prototype(variant_data.variant_idx, &version) {
            Some(concrete_opcode_without_addressing) => {
                push_opcode_block(
                    result,
                    concrete_opcode_without_addressing,
                    version,
                    variant_data.num_non_exclusive_flags,
                );
            },
            None => {},
        }
        i += 1;
    }
}

/// Every variant that `version` has, in table order: the canonical invalid
/// variant first.
pub fn all_variants_in_version(version: ISAVersion) -> (r: Vec<OpcodeVariant>)
    ensures
        r@ == spec_all_variants_in_version(version),
        r@.len() > 0,
        r@[0] == spec_invalid_opcode_variant(),
{
    proof {
        crate::definitions::stability::lemma_first_variant_is_invalid(version);
    }
    let all_prototypes = all_opcodes();
    let mut result: Vec<OpcodeVariant> = Vec::new();
    let mut i: usize = 0;
    while i < all_prototypes.len()
        invariant
            i <= all_prototypes.len(),
            all_prototypes@ == spec_all_opcode_prototypes(),
            result@ == families_block(version, i as nat),
        decreases all_prototypes.len() - i,
    {
        push_family_block(&mut result, all_prototypes[i], version);
        i += 1;
    }
    result
}

} // verus!
