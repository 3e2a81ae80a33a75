//! The `uma` family.

use vstd::prelude::*;
use crate::definitions::opcode_trait::{
    full_variants_product, spec_full_variants_product, ISAVersion, OpcodeProps,
    OpcodeVariantData, OpcodeVariantProps, Operand,
};
use crate::circuit_prices::{RAM_PERMUTATION_COST_IN_ERGS, VM_CYCLE_COST_IN_ERGS};
use crate::imm_mem_modifiers::RegOrImmFlags;

verus! {

/// Unaligned memory accesses: to the heap, to the auxiliary heap and through a
/// fat pointer. From version 1 on the offset of a heap access may be an
/// immediate.
#[derive(Clone, Copy, Debug, PartialEq, Eq, PartialOrd, Ord, Hash, Structural)]
pub enum UMAOpcode {
    HeapRead,
    HeapWrite,
    AuxHeapRead,
    AuxHeapWrite,
    FatPointerRead,
}

/// The largest offset that can be dereferenced, `2^32 - 33`: one word read from
/// it still ends within the 32-bit address space.
pub const MAX_OFFSET_TO_DEREF_LOW_U32: u32 = 0xffff_ffdf;

/// The flag that makes an access return the pointer moved past what was
/// accessed.
pub const UMA_INCREMENT_FLAG_IDX: usize = 0;

impl OpcodeVariantProps for UMAOpcode {
    open spec fn spec_all_variants() -> Seq<Self> {
        seq![
            UMAOpcode::HeapRead,
            UMAOpcode::HeapWrite,
            UMAOpcode::AuxHeapRead,
            UMAOpcode::AuxHeapWrite,
            UMAOpcode::FatPointerRead,
        ]
    }

    open spec fn spec_minimal_version(&self) -> ISAVersion {
        ISAVersion(0)
    }

    open spec fn spec_max_variant_idx_for_version(version: ISAVersion) -> usize {
        4
    }

    open spec fn spec_variant_index(&self) -> usize {
        match self {
            UMAOpcode::HeapRead => 0,
            UMAOpcode::HeapWrite => 1,
            UMAOpcode::AuxHeapRead => 2,
            UMAOpcode::AuxHeapWrite => 3,
            UMAOpcode::FatPointerRead => 4,
        }
    }

    open spec fn spec_ergs_price(&self) -> u32 {
        match self {
            UMAOpcode::HeapRead
            | UMAOpcode::AuxHeapRead
            | UMAOpcode::FatPointerRead => {
                (VM_CYCLE_COST_IN_ERGS + 3 * RAM_PERMUTATION_COST_IN_ERGS) as u32
            },
            UMAOpcode::HeapWrite
            | UMAOpcode::AuxHeapWrite => {
                (2 * VM_CYCLE_COST_IN_ERGS + 5 * RAM_PERMUTATION_COST_IN_ERGS) as u32
            },
        }
    }

    proof fn lemma_variants_are_indexed() {
        assert forall|v: Self| #[trigger]
            v.spec_variant_index() < Self::spec_all_variants().len()
                && Self::spec_all_variants()[v.spec_variant_index() as int] == v by {
            match v {
                UMAOpcode::HeapRead => {
                    assert(Self::spec_all_variants()[0] == v);
                },
                UMAOpcode::HeapWrite => {
                    assert(Self::spec_all_variants()[1] == v);
                },
                UMAOpcode::AuxHeapRead => {
                    assert(Self::spec_all_variants()[2] == v);
                },
                UMAOpcode::AuxHeapWrite => {
                    assert(Self::spec_all_variants()[3] == v);
                },
                UMAOpcode::FatPointerRead => {
                    assert(Self::spec_all_variants()[4] == v);
                },
            }
        }
    }

    proof fn lemma_max_variant_idx_for_version(version: ISAVersion) {
    }

    fn all_variants() -> (r: Vec<Self>) {
        vec![
            UMAOpcode::HeapRead,
            UMAOpcode::HeapWrite,
            UMAOpcode::AuxHeapRead,
            UMAOpcode::AuxHeapWrite,
            UMAOpcode::FatPointerRead,
        ]
    }

    fn minimal_version(&self) -> (r: ISAVersion) {
        ISAVersion(0)
    }

    fn max_variant_idx_for_version(_version: ISAVersion) -> (r: usize) {
        UMAOpcode::FatPointerRead.variant_index()
    }

    fn variant_index(&self) -> (r: usize) {
        match self {
            UMAOpcode::HeapRead => 0,
            UMAOpcode::HeapWrite => 1,
            UMAOpcode::AuxHeapRead => 2,
            UMAOpcode::AuxHeapWrite => 3,
            UMAOpcode::FatPointerRead => 4,
        }
    }

    fn from_variant_index_for_version(index: usize, _version: &ISAVersion) -> (r: Option<Self>) {
        proof {
            assert(Self::spec_all_variants()[0] == UMAOpcode::HeapRead);
            assert(Self::spec_all_variants()[1] == UMAOpcode::HeapWrite);
            assert(Self::spec_all_variants()[2] == UMAOpcode::AuxHeapRead);
            assert(Self::spec_all_variants()[3] == UMAOpcode::AuxHeapWrite);
            assert(Self::spec_all_variants()[4] == UMAOpcode::FatPointerRead);
        }
        match index {
            0 => Some(UMAOpcode::HeapRead),
            1 => Some(UMAOpcode::HeapWrite),
            2 => Some(UMAOpcode::AuxHeapRead),
            3 => Some(UMAOpcode::AuxHeapWrite),
            4 => Some(UMAOpcode::FatPointerRead),
            _ => None,
        }
    }

    fn ergs_price(&self) -> (r: u32) {
        match self {
            UMAOpcode::HeapRead
            | UMAOpcode::AuxHeapRead
            | UMAOpcode::FatPointerRead => {
                VM_CYCLE_COST_IN_ERGS + 3 * RAM_PERMUTATION_COST_IN_ERGS
            },
            UMAOpcode::HeapWrite
            | UMAOpcode::AuxHeapWrite => {
                2 * VM_CYCLE_COST_IN_ERGS + 5 * RAM_PERMUTATION_COST_IN_ERGS
            },
        }
    }
}

impl OpcodeProps for UMAOpcode {
    open spec fn spec_name(&self) -> Seq<char> {
        "UMA opcode"@
    }

    open spec fn spec_variants_data(&self, version: ISAVersion) -> Seq<OpcodeVariantData> {
        spec_full_variants_product(
            0,
            Self::spec_max_variant_idx_for_version(version),
            1,
            0,
        )
    }

    open spec fn spec_max_variant_idx(&self, version: ISAVersion) -> usize {
        Self::spec_max_variant_idx_for_version(version)
    }

    open spec fn spec_input_operands(&self, version: ISAVersion) -> Seq<Operand> {
        if version.0 == 0 {
            match self {
                UMAOpcode::HeapWrite | UMAOpcode::AuxHeapWrite => seq![
                    Operand::RegOnly,
                    Operand::RegOnly,
                ],
                _ => seq![Operand::RegOnly],
            }
        } else {
            match self {
                UMAOpcode::HeapWrite | UMAOpcode::AuxHeapWrite => seq![
                    Operand::RegOrImm(RegOrImmFlags::UseRegOnly),
                    Operand::RegOnly,
                ],
                UMAOpcode::HeapRead | UMAOpcode::AuxHeapRead => seq![
                    Operand::RegOrImm(RegOrImmFlags::UseRegOnly),
                ],
                UMAOpcode::FatPointerRead => seq![Operand::RegOnly],
            }
        }
    }

    open spec fn spec_output_operands(&self, version: ISAVersion) -> Seq<Operand> {
        match self {
            UMAOpcode::HeapRead
            | UMAOpcode::AuxHeapRead
            | UMAOpcode::FatPointerRead => {
                seq![Operand::RegOnly, Operand::RegOnly]
            },
            UMAOpcode::HeapWrite | UMAOpcode::AuxHeapWrite => seq![Operand::RegOnly],
        }
    }

    open spec fn spec_requires_kernel_mode(&self) -> bool {
        false
    }

    open spec fn spec_can_be_used_in_static_context(&self) -> bool {
        true
    }

    fn name(&self) -> (r: &'static str) {
        "UMA opcode"
    }

    fn variants_data(&self, version: ISAVersion) -> (r: Vec<OpcodeVariantData>) {
        full_variants_product(0, Self::max_variant_idx_for_version(version), 1, 0)
    }

    fn max_variant_idx(&self, version: ISAVersion) -> (r: usize) {
        Self::max_variant_idx_for_version(version)
    }

    fn input_operands(&self, version: ISAVersion) -> (r: Vec<Operand>) {
        if version.0 == 0 {
            match self {
                UMAOpcode::HeapWrite | UMAOpcode::AuxHeapWrite => vec![
                    Operand::RegOnly,
                    Operand::RegOnly,
                ],
                _ => vec![Operand::RegOnly],
            }
        } else {
            match self {
                UMAOpcode::HeapWrite | UMAOpcode::AuxHeapWrite => vec![
                    Operand::RegOrImm(RegOrImmFlags::UseRegOnly),
                    Operand::RegOnly,
                ],
                UMAOpcode::HeapRead | UMAOpcode::AuxHeapRead => vec![
                    Operand::RegOrImm(RegOrImmFlags::UseRegOnly),
                ],
                UMAOpcode::FatPointerRead => vec![Operand::RegOnly],
            }
        }
    }

    fn output_operands(&self, _version: ISAVersion) -> (r: Vec<Operand>) {
        match self {
            UMAOpcode::HeapRead
            | UMAOpcode::AuxHeapRead
            | UMAOpcode::FatPointerRead => {
                vec![Operand::RegOnly, Operand::RegOnly]
            },
            UMAOpcode::HeapWrite | UMAOpcode::AuxHeapWrite => vec![Operand::RegOnly],
        }
    }

    fn requires_kernel_mode(&self) -> (r: bool) {
        false
    }

    fn can_be_used_in_static_context(&self) -> (r: bool) {
        true
    }
}

} // verus!
