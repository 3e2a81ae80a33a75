//! The `log` family.

use vstd::prelude::*;
use crate::definitions::opcode_trait::{
    ISAVersion, OpcodeProps, OpcodeVariantData, OpcodeVariantProps, Operand,
};
use crate::circuit_prices::{
    CODE_DECOMMITMENT_SORTER_COST_IN_ERGS, EVENTS_OR_L1_MESSAGES_SORTER_COST_IN_ERGS,
    L1_MESSAGE_MIN_COST_IN_ERGS, LOG_DEMUXER_COST_IN_ERGS, RAM_PERMUTATION_COST_IN_ERGS,
    STORAGE_SORTER_COST_IN_ERGS, STORAGE_WRITE_HASHER_MIN_COST_IN_ERGS, VM_CYCLE_COST_IN_ERGS,
};
use crate::system_params::{
    max, spec_max, MIN_STORAGE_WRITE_COST, STORAGE_ACCESS_COLD_READ_COST,
    STORAGE_ACCESS_COLD_WRITE_COST, STORAGE_ACCESS_WARM_READ_COST, STORAGE_ACCESS_WARM_WRITE_COST,
};
use crate::{EVENT_IO_PRICE, L1_MESSAGE_IO_PRICE};

verus! {

/// Storage accesses, events, messages to L1, precompile calls and decommitment.
#[derive(Clone, Copy, Debug, PartialEq, Eq, PartialOrd, Ord, Hash, Structural)]
pub enum LogOpcode {
    StorageRead,
    StorageWrite,
    ToL1Message,
    Event,
    PrecompileCall,
    Decommit,
    TransientStorageRead,
    TransientStorageWrite,
}

/// The flag of a message or an event that says that it is the first of its
/// series.
pub const FIRST_MESSAGE_FLAG_IDX: usize = 0;

impl OpcodeVariantProps for LogOpcode {
    open spec fn spec_all_variants() -> Seq<Self> {
        seq![
            LogOpcode::StorageRead,
            LogOpcode::StorageWrite,
            LogOpcode::ToL1Message,
            LogOpcode::Event,
            LogOpcode::PrecompileCall,
            LogOpcode::Decommit,
            LogOpcode::TransientStorageRead,
            LogOpcode::TransientStorageWrite,
        ]
    }

    open spec fn spec_minimal_version(&self) -> ISAVersion {
        match self {
            LogOpcode::StorageRead
            | LogOpcode::StorageWrite
            | LogOpcode::ToL1Message
            | LogOpcode::Event
            | LogOpcode::PrecompileCall => {
                ISAVersion(0)
            },
            LogOpcode::Decommit
            | LogOpcode::TransientStorageRead
            | LogOpcode::TransientStorageWrite => {
                ISAVersion(2)
            },
        }
    }

    open spec fn spec_max_variant_idx_for_version(version: ISAVersion) -> usize {
        if version.0 >= 2 {
            7
        } else {
            4
        }
    }

    open spec fn spec_variant_index(&self) -> usize {
        match self {
            LogOpcode::StorageRead => 0,
            LogOpcode::StorageWrite => 1,
            LogOpcode::ToL1Message => 2,
            LogOpcode::Event => 3,
            LogOpcode::PrecompileCall => 4,
            LogOpcode::Decommit => 5,
            LogOpcode::TransientStorageRead => 6,
            LogOpcode::TransientStorageWrite => 7,
        }
    }

    open spec fn spec_ergs_price(&self) -> u32 {
        match self {
            LogOpcode::StorageRead
            | LogOpcode::Event
            | LogOpcode::PrecompileCall
            | LogOpcode::Decommit
            | LogOpcode::TransientStorageRead
            | LogOpcode::TransientStorageWrite => {
                self.spec_formula_price()
            },
            LogOpcode::StorageWrite => {
                price_with_floor(self.spec_formula_price(), MIN_STORAGE_WRITE_COST)
            },
            LogOpcode::ToL1Message => {
                price_with_floor(self.spec_formula_price(), L1_MESSAGE_MIN_COST_IN_ERGS)
            },
        }
    }

    proof fn lemma_variants_are_indexed() {
        assert forall|v: Self| #[trigger]
            v.spec_variant_index() < Self::spec_all_variants().len()
                && Self::spec_all_variants()[v.spec_variant_index() as int] == v by {
            match v {
                LogOpcode::StorageRead => {
                    assert(Self::spec_all_variants()[0] == v);
                },
                LogOpcode::StorageWrite => {
                    assert(Self::spec_all_variants()[1] == v);
                },
                LogOpcode::ToL1Message => {
                    assert(Self::spec_all_variants()[2] == v);
                },
                LogOpcode::Event => {
                    assert(Self::spec_all_variants()[3] == v);
                },
                LogOpcode::PrecompileCall => {
                    assert(Self::spec_all_variants()[4] == v);
                },
                LogOpcode::Decommit => {
                    assert(Self::spec_all_variants()[5] == v);
                },
                LogOpcode::TransientStorageRead => {
                    assert(Self::spec_all_variants()[6] == v);
                },
                LogOpcode::TransientStorageWrite => {
                    assert(Self::spec_all_variants()[7] == v);
                },
            }
        }
    }

    proof fn lemma_max_variant_idx_for_version(version: ISAVersion) {
        assert(Self::spec_all_variants()[0] == LogOpcode::StorageRead);
        assert(Self::spec_all_variants()[1] == LogOpcode::StorageWrite);
        assert(Self::spec_all_variants()[2] == LogOpcode::ToL1Message);
        assert(Self::spec_all_variants()[3] == LogOpcode::Event);
        assert(Self::spec_all_variants()[4] == LogOpcode::PrecompileCall);
        assert(Self::spec_all_variants()[5] == LogOpcode::Decommit);
        assert(Self::spec_all_variants()[6] == LogOpcode::TransientStorageRead);
        assert(Self::spec_all_variants()[7] == LogOpcode::TransientStorageWrite);
    }

    fn all_variants() -> (r: Vec<Self>) {
        vec![
            LogOpcode::StorageRead,
            LogOpcode::StorageWrite,
            LogOpcode::ToL1Message,
            LogOpcode::Event,
            LogOpcode::PrecompileCall,
            LogOpcode::Decommit,
            LogOpcode::TransientStorageRead,
            LogOpcode::TransientStorageWrite,
        ]
    }

    fn minimal_version(&self) -> (r: ISAVersion) {
        match self {
            LogOpcode::StorageRead
            | LogOpcode::StorageWrite
            | LogOpcode::ToL1Message
            | LogOpcode::Event
            | LogOpcode::PrecompileCall => {
                ISAVersion(0)
            },
            LogOpcode::Decommit
            | LogOpcode::TransientStorageRead
            | LogOpcode::TransientStorageWrite => {
                ISAVersion(2)
            },
        }
    }

    fn max_variant_idx_for_version(version: ISAVersion) -> (r: usize) {
        if version.0 >= 2 {
            LogOpcode::TransientStorageWrite.variant_index()
        } else {
            LogOpcode::PrecompileCall.variant_index()
        }
    }

    fn variant_index(&self) -> (r: usize) {
        match self {
            LogOpcode::StorageRead => 0,
            LogOpcode::StorageWrite => 1,
            LogOpcode::ToL1Message => 2,
            LogOpcode::Event => 3,
            LogOpcode::PrecompileCall => 4,
            LogOpcode::Decommit => 5,
            LogOpcode::TransientStorageRead => 6,
            LogOpcode::TransientStorageWrite => 7,
        }
    }

    fn from_variant_index_for_version(index: usize, version: &ISAVersion) -> (r: Option<Self>) {
        proof {
            assert(Self::spec_all_variants()[0] == LogOpcode::StorageRead);
            assert(Self::spec_all_variants()[1] == LogOpcode::StorageWrite);
            assert(Self::spec_all_variants()[2] == LogOpcode::ToL1Message);
            assert(Self::spec_all_variants()[3] == LogOpcode::Event);
            assert(Self::spec_all_variants()[4] == LogOpcode::PrecompileCall);
            assert(Self::spec_all_variants()[5] == LogOpcode::Decommit);
            assert(Self::spec_all_variants()[6] == LogOpcode::TransientStorageRead);
            assert(Self::spec_all_variants()[7] == LogOpcode::TransientStorageWrite);
        }
        match index {
            0 => Some(LogOpcode::StorageRead),
            1 => Some(LogOpcode::StorageWrite),
            2 => Some(LogOpcode::ToL1Message),
            3 => Some(LogOpcode::Event),
            4 => Some(LogOpcode::PrecompileCall),
            5 => if version.0 >= 2 {
                Some(LogOpcode::Decommit)
            } else {
                None
            },
            6 => if version.0 >= 2 {
                Some(LogOpcode::TransientStorageRead)
            } else {
                None
            },
            7 => if version.0 >= 2 {
                Some(LogOpcode::TransientStorageWrite)
            } else {
                None
            },
            _ => None,
        }
    }

    fn ergs_price(&self) -> (r: u32) {
        match self {
            LogOpcode::StorageRead
            | LogOpcode::Event
            | LogOpcode::PrecompileCall
            | LogOpcode::Decommit
            | LogOpcode::TransientStorageRead
            | LogOpcode::TransientStorageWrite => {
                self.formula_price()
            },
            LogOpcode::StorageWrite => max(self.formula_price(), MIN_STORAGE_WRITE_COST),
            LogOpcode::ToL1Message => max(self.formula_price(), L1_MESSAGE_MIN_COST_IN_ERGS),
        }
    }
}

impl OpcodeProps for LogOpcode {
    open spec fn spec_name(&self) -> Seq<char> {
        "Log opcode"@
    }

    open spec fn spec_variants_data(&self, version: ISAVersion) -> Seq<OpcodeVariantData> {
        if version.0 >= 2 {
            seq![
                OpcodeVariantData {
                    variant_idx: 0,
                    num_non_exclusive_flags: 0,
                    num_used_immediates: 0,
                },
                OpcodeVariantData {
                    variant_idx: 1,
                    num_non_exclusive_flags: 0,
                    num_used_immediates: 0,
                },
                OpcodeVariantData {
                    variant_idx: 2,
                    num_non_exclusive_flags: 1,
                    num_used_immediates: 0,
                },
                OpcodeVariantData {
                    variant_idx: 3,
                    num_non_exclusive_flags: 1,
                    num_used_immediates: 0,
                },
                OpcodeVariantData {
                    variant_idx: 4,
                    num_non_exclusive_flags: 0,
                    num_used_immediates: 0,
                },
                OpcodeVariantData {
                    variant_idx: 5,
                    num_non_exclusive_flags: 0,
                    num_used_immediates: 0,
                },
                OpcodeVariantData {
                    variant_idx: 6,
                    num_non_exclusive_flags: 0,
                    num_used_immediates: 0,
                },
                OpcodeVariantData {
                    variant_idx: 7,
                    num_non_exclusive_flags: 0,
                    num_used_immediates: 0,
                },
            ]
        } else {
            seq![
                OpcodeVariantData {
                    variant_idx: 0,
                    num_non_exclusive_flags: 0,
                    num_used_immediates: 0,
                },
                OpcodeVariantData {
                    variant_idx: 1,
                    num_non_exclusive_flags: 0,
                    num_used_immediates: 0,
                },
                OpcodeVariantData {
                    variant_idx: 2,
                    num_non_exclusive_flags: 1,
                    num_used_immediates: 0,
                },
                OpcodeVariantData {
                    variant_idx: 3,
                    num_non_exclusive_flags: 1,
                    num_used_immediates: 0,
                },
                OpcodeVariantData {
                    variant_idx: 4,
                    num_non_exclusive_flags: 0,
                    num_used_immediates: 0,
                },
            ]
        }
    }

    open spec fn spec_max_variant_idx(&self, version: ISAVersion) -> usize {
        Self::spec_max_variant_idx_for_version(version)
    }

    open spec fn spec_input_operands(&self, version: ISAVersion) -> Seq<Operand> {
        match self {
            LogOpcode::StorageRead | LogOpcode::TransientStorageRead => seq![Operand::RegOnly],
            LogOpcode::StorageWrite
            | LogOpcode::ToL1Message
            | LogOpcode::Event
            | LogOpcode::PrecompileCall
            | LogOpcode::Decommit
            | LogOpcode::TransientStorageWrite => {
                seq![Operand::RegOnly, Operand::RegOnly]
            },
        }
    }

    open spec fn spec_output_operands(&self, version: ISAVersion) -> Seq<Operand> {
        match self {
            LogOpcode::StorageRead
            | LogOpcode::PrecompileCall
            | LogOpcode::Decommit
            | LogOpcode::TransientStorageRead => {
                seq![Operand::RegOnly]
            },
            LogOpcode::StorageWrite
            | LogOpcode::ToL1Message
            | LogOpcode::Event
            | LogOpcode::TransientStorageWrite => {
                Seq::empty()
            },
        }
    }

    open spec fn spec_requires_kernel_mode(&self) -> bool {
        match self {
            LogOpcode::StorageRead
            | LogOpcode::StorageWrite
            | LogOpcode::TransientStorageRead
            | LogOpcode::TransientStorageWrite => {
                false
            },
            LogOpcode::ToL1Message
            | LogOpcode::Event
            | LogOpcode::PrecompileCall
            | LogOpcode::Decommit => {
                true
            },
        }
    }

    open spec fn spec_can_be_used_in_static_context(&self) -> bool {
        match self {
            LogOpcode::StorageRead
            | LogOpcode::PrecompileCall
            | LogOpcode::Decommit
            | LogOpcode::TransientStorageRead => {
                true
            },
            LogOpcode::StorageWrite
            | LogOpcode::ToL1Message
            | LogOpcode::Event
            | LogOpcode::TransientStorageWrite => {
                false
            },
        }
    }

    fn name(&self) -> (r: &'static str) {
        "Log opcode"
    }

    fn variants_data(&self, version: ISAVersion) -> (r: Vec<OpcodeVariantData>) {
        if version.0 >= 2 {
            vec![
                OpcodeVariantData {
                    variant_idx: 0,
                    num_non_exclusive_flags: 0,
                    num_used_immediates: 0,
                },
                OpcodeVariantData {
                    variant_idx: 1,
                    num_non_exclusive_flags: 0,
                    num_used_immediates: 0,
                },
                OpcodeVariantData {
                    variant_idx: 2,
                    num_non_exclusive_flags: 1,
                    num_used_immediates: 0,
                },
                OpcodeVariantData {
                    variant_idx: 3,
                    num_non_exclusive_flags: 1,
                    num_used_immediates: 0,
                },
                OpcodeVariantData {
                    variant_idx: 4,
                    num_non_exclusive_flags: 0,
                    num_used_immediates: 0,
                },
                OpcodeVariantData {
                    variant_idx: 5,
                    num_non_exclusive_flags: 0,
                    num_used_immediates: 0,
                },
                OpcodeVariantData {
                    variant_idx: 6,
                    num_non_exclusive_flags: 0,
                    num_used_immediates: 0,
                },
                OpcodeVariantData {
                    variant_idx: 7,
                    num_non_exclusive_flags: 0,
                    num_used_immediates: 0,
                },
            ]
        } else {
            vec![
                OpcodeVariantData {
                    variant_idx: 0,
                    num_non_exclusive_flags: 0,
                    num_used_immediates: 0,
                },
                OpcodeVariantData {
                    variant_idx: 1,
                    num_non_exclusive_flags: 0,
                    num_used_immediates: 0,
                },
                OpcodeVariantData {
                    variant_idx: 2,
                    num_non_exclusive_flags: 1,
                    num_used_immediates: 0,
                },
                OpcodeVariantData {
                    variant_idx: 3,
                    num_non_exclusive_flags: 1,
                    num_used_immediates: 0,
                },
                OpcodeVariantData {
                    variant_idx: 4,
                    num_non_exclusive_flags: 0,
                    num_used_immediates: 0,
                },
            ]
        }
    }

    fn max_variant_idx(&self, version: ISAVersion) -> (r: usize) {
        Self::max_variant_idx_for_version(version)
    }

    fn input_operands(&self, _version: ISAVersion) -> (r: Vec<Operand>) {
        match self {
            LogOpcode::StorageRead | LogOpcode::TransientStorageRead => vec![Operand::RegOnly],
            LogOpcode::StorageWrite
            | LogOpcode::ToL1Message
            | LogOpcode::Event
            | LogOpcode::PrecompileCall
            | LogOpcode::Decommit
            | LogOpcode::TransientStorageWrite => {
                vec![Operand::RegOnly, Operand::RegOnly]
            },
        }
    }

    fn output_operands(&self, _version: ISAVersion) -> (r: Vec<Operand>) {
        match self {
            LogOpcode::StorageRead
            | LogOpcode::PrecompileCall
            | LogOpcode::Decommit
            | LogOpcode::TransientStorageRead => {
                vec![Operand::RegOnly]
            },
            LogOpcode::StorageWrite
            | LogOpcode::ToL1Message
            | LogOpcode::Event
            | LogOpcode::TransientStorageWrite => {
                Vec::new()
            },
        }
    }

    fn requires_kernel_mode(&self) -> (r: bool) {
        match self {
            LogOpcode::StorageRead
            | LogOpcode::StorageWrite
            | LogOpcode::TransientStorageRead
            | LogOpcode::TransientStorageWrite => {
                false
            },
            LogOpcode::ToL1Message
            | LogOpcode::Event
            | LogOpcode::PrecompileCall
            | LogOpcode::Decommit => {
                true
            },
        }
    }

    fn can_be_used_in_static_context(&self) -> (r: bool) {
        match self {
            LogOpcode::StorageRead
            | LogOpcode::PrecompileCall
            | LogOpcode::Decommit
            | LogOpcode::TransientStorageRead => {
                true
            },
            LogOpcode::StorageWrite
            | LogOpcode::ToL1Message
            | LogOpcode::Event
            | LogOpcode::TransientStorageWrite => {
                false
            },
        }
    }
}

impl LogOpcode {
    /// What the circuits and the storage access behind the sub-variant cost,
    /// before any floor is applied.
    pub open spec fn spec_formula_price(&self) -> u32 {
        match self {
            LogOpcode::StorageRead => {
                (VM_CYCLE_COST_IN_ERGS + RAM_PERMUTATION_COST_IN_ERGS + LOG_DEMUXER_COST_IN_ERGS
                    + STORAGE_SORTER_COST_IN_ERGS + STORAGE_ACCESS_COLD_READ_COST) as u32
            },
            LogOpcode::StorageWrite => {
                (VM_CYCLE_COST_IN_ERGS + RAM_PERMUTATION_COST_IN_ERGS + 2 * LOG_DEMUXER_COST_IN_ERGS
                    + 2 * STORAGE_SORTER_COST_IN_ERGS + STORAGE_ACCESS_COLD_WRITE_COST) as u32
            },
            LogOpcode::ToL1Message => {
                (L1_MESSAGE_IO_PRICE + VM_CYCLE_COST_IN_ERGS + RAM_PERMUTATION_COST_IN_ERGS + 2
                    * LOG_DEMUXER_COST_IN_ERGS
                    + 2 * EVENTS_OR_L1_MESSAGES_SORTER_COST_IN_ERGS) as u32
            },
            LogOpcode::Event => {
                (EVENT_IO_PRICE + VM_CYCLE_COST_IN_ERGS + RAM_PERMUTATION_COST_IN_ERGS + 2
                    * LOG_DEMUXER_COST_IN_ERGS
                    + 2 * EVENTS_OR_L1_MESSAGES_SORTER_COST_IN_ERGS) as u32
            },
            LogOpcode::PrecompileCall => {
                (VM_CYCLE_COST_IN_ERGS + RAM_PERMUTATION_COST_IN_ERGS
                    + LOG_DEMUXER_COST_IN_ERGS) as u32
            },
            LogOpcode::Decommit => {
                (VM_CYCLE_COST_IN_ERGS + RAM_PERMUTATION_COST_IN_ERGS
                    + CODE_DECOMMITMENT_SORTER_COST_IN_ERGS) as u32
            },
            LogOpcode::TransientStorageRead => {
                (VM_CYCLE_COST_IN_ERGS + RAM_PERMUTATION_COST_IN_ERGS + LOG_DEMUXER_COST_IN_ERGS
                    + STORAGE_SORTER_COST_IN_ERGS + STORAGE_ACCESS_WARM_READ_COST) as u32
            },
            LogOpcode::TransientStorageWrite => {
                (VM_CYCLE_COST_IN_ERGS + RAM_PERMUTATION_COST_IN_ERGS + 2 * LOG_DEMUXER_COST_IN_ERGS
                    + 2 * STORAGE_SORTER_COST_IN_ERGS + STORAGE_ACCESS_WARM_WRITE_COST) as u32
            },
        }
    }

    pub fn formula_price(&self) -> (r: u32)
        ensures
            r == self.spec_formula_price(),
    {
        match self {
            LogOpcode::StorageRead => {
                VM_CYCLE_COST_IN_ERGS + RAM_PERMUTATION_COST_IN_ERGS + LOG_DEMUXER_COST_IN_ERGS
                    + STORAGE_SORTER_COST_IN_ERGS + STORAGE_ACCESS_COLD_READ_COST
            },
            LogOpcode::StorageWrite => {
                VM_CYCLE_COST_IN_ERGS + RAM_PERMUTATION_COST_IN_ERGS + 2 * LOG_DEMUXER_COST_IN_ERGS
                    + 2 * STORAGE_SORTER_COST_IN_ERGS + STORAGE_ACCESS_COLD_WRITE_COST
            },
            LogOpcode::ToL1Message => {
                L1_MESSAGE_IO_PRICE + VM_CYCLE_COST_IN_ERGS + RAM_PERMUTATION_COST_IN_ERGS + 2
                    * LOG_DEMUXER_COST_IN_ERGS + 2 * EVENTS_OR_L1_MESSAGES_SORTER_COST_IN_ERGS
            },
            LogOpcode::Event => {
                EVENT_IO_PRICE + VM_CYCLE_COST_IN_ERGS + RAM_PERMUTATION_COST_IN_ERGS + 2
                    * LOG_DEMUXER_COST_IN_ERGS + 2 * EVENTS_OR_L1_MESSAGES_SORTER_COST_IN_ERGS
            },
            LogOpcode::PrecompileCall => {
                VM_CYCLE_COST_IN_ERGS + RAM_PERMUTATION_COST_IN_ERGS + LOG_DEMUXER_COST_IN_ERGS
            },
            LogOpcode::Decommit => {
                VM_CYCLE_COST_IN_ERGS + RAM_PERMUTATION_COST_IN_ERGS
                    + CODE_DECOMMITMENT_SORTER_COST_IN_ERGS
            },
            LogOpcode::TransientStorageRead => {
                VM_CYCLE_COST_IN_ERGS + RAM_PERMUTATION_COST_IN_ERGS + LOG_DEMUXER_COST_IN_ERGS
                    + STORAGE_SORTER_COST_IN_ERGS + STORAGE_ACCESS_WARM_READ_COST
            },
            LogOpcode::TransientStorageWrite => {
                VM_CYCLE_COST_IN_ERGS + RAM_PERMUTATION_COST_IN_ERGS + 2 * LOG_DEMUXER_COST_IN_ERGS
                    + 2 * STORAGE_SORTER_COST_IN_ERGS + STORAGE_ACCESS_WARM_WRITE_COST
            },
        }
    }

    /// No log opcode takes a fat pointer as its first input.
    pub fn src0_can_be_pointer(&self) -> (r: bool)
        ensures
            !r,
    {
        false
    }

    /// No log opcode takes a fat pointer as its second input.
    pub fn src1_can_be_pointer(&self) -> (r: bool)
        ensures
            !r,
    {
        false
    }
}

/// A price that never falls below its floor: the larger of the two.
pub open spec fn price_with_floor(formula_price: u32, floor: u32) -> u32 {
    spec_max(formula_price, floor)
}

/// Whatever the circuits cost, the operations that go through a circuit of
/// which a batch has only one are priced at their floor or above: a storage
/// write at `MIN_STORAGE_WRITE_COST`, a message to L1 at
/// `L1_MESSAGE_MIN_COST_IN_ERGS`.
pub proof fn lemma_price_floors(formula_price: u32)
    ensures
        price_with_floor(formula_price, MIN_STORAGE_WRITE_COST) >= MIN_STORAGE_WRITE_COST,
        price_with_floor(formula_price, L1_MESSAGE_MIN_COST_IN_ERGS)
            >= L1_MESSAGE_MIN_COST_IN_ERGS,
        price_with_floor(formula_price, MIN_STORAGE_WRITE_COST) >= formula_price,
        price_with_floor(formula_price, L1_MESSAGE_MIN_COST_IN_ERGS) >= formula_price,
        LogOpcode::StorageWrite.spec_ergs_price() >= MIN_STORAGE_WRITE_COST,
        LogOpcode::StorageWrite.spec_ergs_price() >= STORAGE_WRITE_HASHER_MIN_COST_IN_ERGS,
        LogOpcode::ToL1Message.spec_ergs_price() >= L1_MESSAGE_MIN_COST_IN_ERGS,
{
}

} // verus!
