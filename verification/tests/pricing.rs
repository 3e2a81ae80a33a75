use zkevm_opcode_defs::circuit_prices::{
    L1_MESSAGE_MIN_COST_IN_ERGS, STORAGE_WRITE_HASHER_MIN_COST_IN_ERGS,
};
use zkevm_opcode_defs::definitions::log::FIRST_MESSAGE_FLAG_IDX;
use zkevm_opcode_defs::system_params::{
    max, MIN_STORAGE_WRITE_COST, MIN_STORAGE_WRITE_PRICE_FOR_REENTRANCY_PROTECTION,
    STORAGE_ACCESS_COLD_WRITE_COST, VM_MAX_STACK_DEPTH,
};
use zkevm_opcode_defs::{
    default_isa_version, AddOpcode, BinopOpcode, ContextOpcode, DivOpcode, FarCallOpcode,
    InvalidOpcode, JumpOpcode, LogOpcode, MulOpcode, NearCallOpcode, NopOpcode, Opcode,
    OpcodeTables, OpcodeVariantProps, PtrOpcode, RetOpcode, ShiftOpcode, SubOpcode, UMAOpcode,
    AVERAGE_OPCODE_ERGS, INVALID_OPCODE_ERGS, RICH_ADDRESSING_OPCODE_ERGS,
};

#[test]
fn prices_of_the_families() {
    assert_eq!(RICH_ADDRESSING_OPCODE_ERGS, 6);
    assert_eq!(AVERAGE_OPCODE_ERGS, 5);
    assert_eq!(Opcode::Invalid(InvalidOpcode).ergs_price(), u32::MAX);
    assert_eq!(InvalidOpcode.ergs_price(), INVALID_OPCODE_ERGS);
    assert_eq!(Opcode::Nop(NopOpcode).ergs_price(), 6);
    assert_eq!(Opcode::Add(AddOpcode::Add).ergs_price(), 6);
    assert_eq!(Opcode::Sub(SubOpcode::Sub).ergs_price(), 6);
    assert_eq!(Opcode::Mul(MulOpcode).ergs_price(), 6);
    assert_eq!(Opcode::Div(DivOpcode).ergs_price(), 6);
    assert_eq!(Opcode::Jump(JumpOpcode).ergs_price(), 6);
    assert_eq!(Opcode::Binop(BinopOpcode::Or).ergs_price(), 6);
    assert_eq!(Opcode::Shift(ShiftOpcode::Ror).ergs_price(), 6);
    assert_eq!(Opcode::Ptr(PtrOpcode::Shrink).ergs_price(), 6);
    assert_eq!(Opcode::NearCall(NearCallOpcode).ergs_price(), 25);
    assert_eq!(Opcode::Context(ContextOpcode::Meta).ergs_price(), 5);
    assert_eq!(Opcode::FarCall(FarCallOpcode::Mimic).ergs_price(), 182);
    assert_eq!(Opcode::Ret(RetOpcode::Revert).ergs_price(), 5);
    assert_eq!(Opcode::UMA(UMAOpcode::HeapRead).ergs_price(), 7);
    assert_eq!(Opcode::UMA(UMAOpcode::AuxHeapRead).ergs_price(), 7);
    assert_eq!(Opcode::UMA(UMAOpcode::FatPointerRead).ergs_price(), 7);
    assert_eq!(Opcode::UMA(UMAOpcode::HeapWrite).ergs_price(), 13);
    assert_eq!(Opcode::UMA(UMAOpcode::AuxHeapWrite).ergs_price(), 13);
}

#[test]
fn prices_of_the_log_family() {
    assert_eq!(LogOpcode::StorageRead.ergs_price(), 2008);
    assert_eq!(LogOpcode::StorageWrite.ergs_price(), 5511);
    assert_eq!(LogOpcode::ToL1Message.ergs_price(), 156250);
    assert_eq!(LogOpcode::Event.ergs_price(), 34);
    assert_eq!(LogOpcode::PrecompileCall.ergs_price(), 6);
    assert_eq!(LogOpcode::Decommit.ergs_price(), 6);
    assert_eq!(LogOpcode::TransientStorageRead.ergs_price(), 38);
    assert_eq!(LogOpcode::TransientStorageWrite.ergs_price(), 71);
    assert_eq!(LogOpcode::ToL1Message.formula_price(), 109);
    assert_eq!(LogOpcode::StorageWrite.formula_price(), 5511);
    assert!(!LogOpcode::StorageRead.src0_can_be_pointer());
    assert!(!LogOpcode::StorageRead.src1_can_be_pointer());
    assert_eq!(FIRST_MESSAGE_FLAG_IDX, 0);
}

#[test]
fn single_instance_operations_never_cost_less_than_their_floor() {
    assert!(LogOpcode::StorageWrite.ergs_price() >= MIN_STORAGE_WRITE_COST);
    assert!(LogOpcode::StorageWrite.ergs_price() >= STORAGE_WRITE_HASHER_MIN_COST_IN_ERGS);
    assert!(LogOpcode::ToL1Message.ergs_price() >= L1_MESSAGE_MIN_COST_IN_ERGS);
    // the floor holds whatever the formula gives, even nothing
    assert_eq!(max(0, L1_MESSAGE_MIN_COST_IN_ERGS), 156250);
    assert_eq!(max(0, MIN_STORAGE_WRITE_COST), 2301);
    assert_eq!(max(200_000, L1_MESSAGE_MIN_COST_IN_ERGS), 200_000);
    assert_eq!(max(7, 7), 7);
    assert_eq!(MIN_STORAGE_WRITE_PRICE_FOR_REENTRANCY_PROTECTION, 2301);
    assert_eq!(
        MIN_STORAGE_WRITE_COST,
        max(
            MIN_STORAGE_WRITE_PRICE_FOR_REENTRANCY_PROTECTION,
            STORAGE_WRITE_HASHER_MIN_COST_IN_ERGS
        )
    );
    assert_eq!(
        STORAGE_ACCESS_COLD_WRITE_COST,
        max(MIN_STORAGE_WRITE_COST, 5500)
    );
    assert_eq!(VM_MAX_STACK_DEPTH, 214_748_444);
}

#[test]
fn the_price_of_a_slot_is_the_price_of_its_opcode() {
    let tables = OpcodeTables::new(default_isa_version()).unwrap();
    assert_eq!(tables.prices().len(), 2048);
    for (slot, variant) in tables.table().iter().enumerate() {
        assert_eq!(tables.prices()[slot], variant.opcode.ergs_price());
        assert_eq!(tables.price_at(slot), variant.ergs_price());
    }
    // whatever the addressing mode and the flags
    let first_add = tables.table()[25];
    for slot in 25..73 {
        assert_eq!(tables.table()[slot].opcode, first_add.opcode);
        assert_eq!(tables.prices()[slot], 6);
    }
    // the padding burns everything
    for slot in 1093..2048 {
        assert_eq!(tables.prices()[slot], u32::MAX);
    }
}
