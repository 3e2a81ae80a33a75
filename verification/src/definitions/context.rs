//! The `context` family.

use vstd::prelude::*;
use crate::definitions::opcode_trait::{
    full_variants_product, spec_full_variants_product, ISAVersion, OpcodeProps,
    OpcodeVariantData, OpcodeVariantProps, Operand,
};
use crate::AVERAGE_OPCODE_ERGS;

verus! {

/// Reads and writes of the execution context.
#[derive(Clone, Copy, Debug, PartialEq, Eq, PartialOrd, Ord, Hash, Structural)]
pub enum ContextOpcode {
    This,
    Caller,
    CodeAddress,
    Meta,
    ErgsLeft,
    Sp,
    GetContextU128,
    SetContextU128,
    SetErgsPerPubdataByte,
    IncrementTxNumber,
}

impl OpcodeVariantProps for ContextOpcode {
    open spec fn spec_all_variants() -> Seq<Self> {
        seq![
            ContextOpcode::This,
            ContextOpcode::Caller,
            ContextOpcode::CodeAddress,
            ContextOpcode::Meta,
            ContextOpcode::ErgsLeft,
            ContextOpcode::Sp,
            ContextOpcode::GetContextU128,
            ContextOpcode::SetContextU128,
            ContextOpcode::SetErgsPerPubdataByte,
            ContextOpcode::IncrementTxNumber,
        ]
    }

    open spec fn spec_minimal_version(&self) -> ISAVersion {
        ISAVersion(0)
    }

    open spec fn spec_max_variant_idx_for_version(version: ISAVersion) -> usize {
        9
    }

    open spec fn spec_variant_index(&self) -> usize {
        match self {
            ContextOpcode::This => 0,
            ContextOpcode::Caller => 1,
            ContextOpcode::CodeAddress => 2,
            ContextOpcode::Meta => 3,
            ContextOpcode::ErgsLeft => 4,
            ContextOpcode::Sp => 5,
            ContextOpcode::GetContextU128 => 6,
            ContextOpcode::SetContextU128 => 7,
            ContextOpcode::SetErgsPerPubdataByte => 8,
            ContextOpcode::IncrementTxNumber => 9,
        }
    }

    open spec fn spec_ergs_price(&self) -> u32 {
        AVERAGE_OPCODE_ERGS
    }

    proof fn lemma_variants_are_indexed() {
        assert forall|v: Self| #[trigger]
            v.spec_variant_index() < Self::spec_all_variants().len()
                && Self::spec_all_variants()[v.spec_variant_index() as int] == v by {
            match v {
                ContextOpcode::This => {
                    assert(Self::spec_all_variants()[0] == v);
                },
                ContextOpcode::Caller => {
                    assert(Self::spec_all_variants()[1] == v);
                },
                ContextOpcode::CodeAddress => {
                    assert(Self::spec_all_variants()[2] == v);
                },
                ContextOpcode::Meta => {
                    assert(Self::spec_all_variants()[3] == v);
                },
                ContextOpcode::ErgsLeft => {
                    assert(Self::spec_all_variants()[4] == v);
                },
                ContextOpcode::Sp => {
                    assert(Self::spec_all_variants()[5] == v);
                },
                ContextOpcode::GetContextU128 => {
                    assert(Self::spec_all_variants()[6] == v);
                },
                ContextOpcode::SetContextU128 => {
                    assert(Self::spec_all_variants()[7] == v);
                },
                ContextOpcode::SetErgsPerPubdataByte => {
                    assert(Self::spec_all_variants()[8] == v);
                },
                ContextOpcode::IncrementTxNumber => {
                    assert(Self::spec_all_variants()[9] == v);
                },
            }
        }
    }

    proof fn lemma_max_variant_idx_for_version(version: ISAVersion) {
    }

    fn all_variants() -> (r: Vec<Self>) {
        vec![
            ContextOpcode::This,
            ContextOpcode::Caller,
            ContextOpcode::CodeAddress,
            ContextOpcode::Meta,
            ContextOpcode::ErgsLeft,
            ContextOpcode::Sp,
            ContextOpcode::GetContextU128,
            ContextOpcode::SetContextU128,
            ContextOpcode::SetErgsPerPubdataByte,
            ContextOpcode::IncrementTxNumber,
        ]
    }

    fn minimal_version(&self) -> (r: ISAVersion) {
        ISAVersion(0)
    }

    fn max_variant_idx_for_version(_version: ISAVersion) -> (r: usize) {
        ContextOpcode::IncrementTxNumber.variant_index()
    }

    fn variant_index(&self) -> (r: usize) {
        match self {
            ContextOpcode::This => 0,
            ContextOpcode::Caller => 1,
            ContextOpcode::CodeAddress => 2,
            ContextOpcode::Meta => 3,
            ContextOpcode::ErgsLeft => 4,
            ContextOpcode::Sp => 5,
            ContextOpcode::GetContextU128 => 6,
            ContextOpcode::SetContextU128 => 7,
            ContextOpcode::SetErgsPerPubdataByte => 8,
            ContextOpcode::IncrementTxNumber => 9,
        }
    }

    fn from_variant_index_for_version(index: usize, _version: &ISAVersion) -> (r: Option<Self>) {
        proof {
            assert(Self::spec_all_variants()[0] == ContextOpcode::This);
            assert(Self::spec_all_variants()[1] == ContextOpcode::Caller);
            assert(Self::spec_all_variants()[2] == ContextOpcode::CodeAddress);
            assert(Self::spec_all_variants()[3] == ContextOpcode::Meta);
            assert(Self::spec_all_variants()[4] == ContextOpcode::ErgsLeft);
            assert(Self::spec_all_variants()[5] == ContextOpcode::Sp);
            assert(Self::spec_all_variants()[6] == ContextOpcode::GetContextU128);
            assert(Self::spec_all_variants()[7] == ContextOpcode::SetContextU128);
            assert(Self::spec_all_variants()[8] == ContextOpcode::SetErgsPerPubdataByte);
            assert(Self::spec_all_variants()[9] == ContextOpcode::IncrementTxNumber);
        }
        match index {
            0 => Some(ContextOpcode::This),
            1 => Some(ContextOpcode::Caller),
            2 => Some(ContextOpcode::CodeAddress),
            3 => Some(ContextOpcode::Meta),
            4 => Some(ContextOpcode::ErgsLeft),
            5 => Some(ContextOpcode::Sp),
            6 => Some(ContextOpcode::GetContextU128),
            7 => Some(ContextOpcode::SetContextU128),
            8 => Some(ContextOpcode::SetErgsPerPubdataByte),
            9 => Some(ContextOpcode::IncrementTxNumber),
            _ => None,
        }
    }

    fn ergs_price(&self) -> (r: u32) {
        AVERAGE_OPCODE_ERGS
    }
}

impl OpcodeProps for ContextOpcode {
    open spec fn spec_name(&self) -> Seq<char> {
        "Context opcode"@
    }

    open spec fn spec_variants_data(&self, version: ISAVersion) -> Seq<OpcodeVariantData> {
        spec_full_variants_product(
            0,
            Self::spec_max_variant_idx_for_version(version),
            0,
            0,
        )
    }

    open spec fn spec_max_variant_idx(&self, version: ISAVersion) -> usize {
        Self::spec_max_variant_idx_for_version(version)
    }

    open spec fn spec_input_operands(&self, version: ISAVersion) -> Seq<Operand> {
        match self {
            ContextOpcode::This
            | ContextOpcode::Caller
            | ContextOpcode::CodeAddress
            | ContextOpcode::Meta
            | ContextOpcode::ErgsLeft
            | ContextOpcode::Sp
            | ContextOpcode::GetContextU128
            | ContextOpcode::IncrementTxNumber => {
                Seq::empty()
            },
            ContextOpcode::SetContextU128
            | ContextOpcode::SetErgsPerPubdataByte => {
                seq![Operand::RegOnly]
            },
        }
    }

    open spec fn spec_output_operands(&self, version: ISAVersion) -> Seq<Operand> {
        match self {
            ContextOpcode::This
            | ContextOpcode::Caller
            | ContextOpcode::CodeAddress
            | ContextOpcode::Meta
            | ContextOpcode::ErgsLeft
            | ContextOpcode::Sp
            | ContextOpcode::GetContextU128 => {
                seq![Operand::RegOnly]
            },
            ContextOpcode::SetContextU128
            | ContextOpcode::SetErgsPerPubdataByte
            | ContextOpcode::IncrementTxNumber => {
                Seq::empty()
            },
        }
    }

    open spec fn spec_requires_kernel_mode(&self) -> bool {
        match self {
            ContextOpcode::This
            | ContextOpcode::Caller
            | ContextOpcode::CodeAddress
            | ContextOpcode::Meta
            | ContextOpcode::ErgsLeft
            | ContextOpcode::Sp
            | ContextOpcode::GetContextU128 => {
                false
            },
            ContextOpcode::SetContextU128
            | ContextOpcode::SetErgsPerPubdataByte
            | ContextOpcode::IncrementTxNumber => {
                true
            },
        }
    }

    open spec fn spec_can_be_used_in_static_context(&self) -> bool {
        match self {
            ContextOpcode::This
            | ContextOpcode::Caller
            | ContextOpcode::CodeAddress
            | ContextOpcode::Meta
            | ContextOpcode::ErgsLeft
            | ContextOpcode::Sp
            | ContextOpcode::GetContextU128 => {
                true
            },
            ContextOpcode::SetContextU128
            | ContextOpcode::SetErgsPerPubdataByte
            | ContextOpcode::IncrementTxNumber => {
                false
            },
        }
    }

    fn name(&self) -> (r: &'static str) {
        "Context opcode"
    }

    fn variants_data(&self, version: ISAVersion) -> (r: Vec<OpcodeVariantData>) {
        full_variants_product(0, Self::max_variant_idx_for_version(version), 0, 0)
    }

    fn max_variant_idx(&self, version: ISAVersion) -> (r: usize) {
        Self::max_variant_idx_for_version(version)
    }

    fn input_operands(&self, _version: ISAVersion) -> (r: Vec<Operand>) {
        match self {
            ContextOpcode::This
            | ContextOpcode::Caller
            | ContextOpcode::CodeAddress
            | ContextOpcode::Meta
            | ContextOpcode::ErgsLeft
            | ContextOpcode::Sp
            | ContextOpcode::GetContextU128
            | ContextOpcode::IncrementTxNumber => {
                Vec::new()
            },
            ContextOpcode::SetContextU128
            | ContextOpcode::SetErgsPerPubdataByte => {
                vec![Operand::RegOnly]
            },
        }
    }

    fn output_operands(&self, _version: ISAVersion) -> (r: Vec<Operand>) {
        match self {
            ContextOpcode::This
            | ContextOpcode::Caller
            | ContextOpcode::CodeAddress
            | ContextOpcode::Meta
            | ContextOpcode::ErgsLeft
            | ContextOpcode::Sp
            | ContextOpcode::GetContextU128 => {
                vec![Operand::RegOnly]
            },
            ContextOpcode::SetContextU128
            | ContextOpcode::SetErgsPerPubdataByte
            | ContextOpcode::IncrementTxNumber => {
                Vec::new()
            },
        }
    }

    fn requires_kernel_mode(&self) -> (r: bool) {
        match self {
            ContextOpcode::This
            | ContextOpcode::Caller
            | ContextOpcode::CodeAddress
            | ContextOpcode::Meta
            | ContextOpcode::ErgsLeft
            | ContextOpcode::Sp
            | ContextOpcode::GetContextU128 => {
                false
            },
            ContextOpcode::SetContextU128
            | ContextOpcode::SetErgsPerPubdataByte
            | ContextOpcode::IncrementTxNumber => {
                true
            },
        }
    }

    fn can_be_used_in_static_context(&self) -> (r: bool) {
        match self {
            ContextOpcode::This
            | ContextOpcode::Caller
            | ContextOpcode::CodeAddress
            | ContextOpcode::Meta
            | ContextOpcode::ErgsLeft
            | ContextOpcode::Sp
            | ContextOpcode::GetContextU128 => {
                true
            },
            ContextOpcode::SetContextU128
            | ContextOpcode::SetErgsPerPubdataByte
            | ContextOpcode::IncrementTxNumber => {
                false
            },
        }
    }
}

} // verus!
