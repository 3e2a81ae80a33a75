use zkevm_opcode_defs::ethereum_types::U256;
use zkevm_opcode_defs::u256::{
    join_limb, max_offset_for_add_sub, max_offset_to_deref, split_limb,
};
use zkevm_opcode_defs::{
    erase_fat_pointer_metadata, merge_u4, split_as_u4, FarCallABI, FarCallForwardPageType,
    FatPointer, FatPointerValidationException, NearCallABI, PrecompileAuxData,
    PrecompileCallABI, RetABI, RetForwardPageType, VmMetaParameters,
};

#[test]
fn fat_pointer_lies_in_the_two_lowest_limbs() {
    let word = U256([
        0x0000_0002_0000_0001,
        0x0000_0004_0000_0003,
        0xdead_beef_dead_beef,
        0xffff_ffff_ffff_ffff,
    ]);
    let pointer = FatPointer::from_u256(word);
    assert_eq!(
        pointer,
        FatPointer {
            offset: 1,
            memory_page: 2,
            start: 3,
            length: 4
        }
    );
    assert_eq!(
        pointer.to_u256(),
        U256([0x0000_0002_0000_0001, 0x0000_0004_0000_0003, 0, 0])
    );
    assert_eq!(FatPointer::from_u256(pointer.to_u256()), pointer);
    assert_eq!(FatPointer::empty().to_u256(), U256::zero());
    assert_eq!(
        FatPointer::empty(),
        FatPointer {
            offset: 0,
            memory_page: 0,
            start: 0,
            length: 0
        }
    );
    let wide = FatPointer {
        offset: u32::MAX,
        memory_page: 0x8000_0000,
        start: 0x7fff_ffff,
        length: 1,
    };
    assert_eq!(
        wide.to_u256(),
        U256([0x8000_0000_ffff_ffff, 0x0000_0001_7fff_ffff, 0, 0])
    );
    assert_eq!(FatPointer::from_u256(wide.to_u256()), wide);
}

#[test]
fn fat_pointer_validation() {
    let pointer = FatPointer {
        offset: 1,
        memory_page: 2,
        start: 3,
        length: 4,
    };
    assert!(pointer.validate(false).is_empty());
    assert_eq!(pointer.validate(false), FatPointerValidationException::empty());
    let fresh = pointer.validate(true);
    assert!(fresh.offset_is_not_zero_when_expected);
    assert!(!fresh.deref_beyond_heap_range);
    assert_eq!(fresh.bits(), 1);
    let overflowing = FatPointer {
        offset: 0,
        memory_page: 0,
        start: u32::MAX,
        length: 1,
    };
    let exceptions = overflowing.validate(true);
    assert!(!exceptions.offset_is_not_zero_when_expected);
    assert!(exceptions.deref_beyond_heap_range);
    assert_eq!(exceptions.bits(), 2);
    let both = FatPointer {
        offset: 9,
        memory_page: 0,
        start: 0x8000_0000,
        length: 0x8000_0000,
    }
    .validate(true);
    assert_eq!(both.bits(), 3);
    assert!(!both.is_empty());
    let at_the_edge = FatPointer {
        offset: 0,
        memory_page: 0,
        start: 0x8000_0000,
        length: 0x7fff_ffff,
    };
    assert_eq!(at_the_edge.validate(true).bits(), 0);

    assert!(pointer.validate_in_bounds());
    assert!(pointer.validate_as_slice());
    let at_end = FatPointer {
        offset: 4,
        memory_page: 2,
        start: 3,
        length: 4,
    };
    assert!(!at_end.validate_in_bounds());
    assert!(at_end.validate_as_slice());
    let beyond = FatPointer {
        offset: 5,
        memory_page: 2,
        start: 3,
        length: 4,
    };
    assert!(!beyond.validate_as_slice());
    assert!(FatPointer::empty().is_trivial());
    assert!(!pointer.is_trivial());
    assert!(!FatPointer::empty().validate_in_bounds());
    assert_eq!(FatPointer::FAT_POINTER_PACKED_WIDTH, 128);
}

#[test]
fn far_call_parameters() {
    let word = U256([
        0x0000_0002_0000_0001,
        0x0000_0004_0000_0003,
        0,
        0x0100_0701_0000_2710,
    ]);
    let abi = FarCallABI::from_u256(word);
    assert_eq!(
        abi.memory_quasi_fat_pointer,
        FatPointer {
            offset: 1,
            memory_page: 2,
            start: 3,
            length: 4
        }
    );
    assert_eq!(abi.ergs_passed, 10_000);
    assert_eq!(abi.forwarding_mode, FarCallForwardPageType::ForwardFatPointer);
    assert_eq!(abi.shard_id, 7);
    assert!(!abi.constructor_call);
    assert!(abi.to_system);

    let other = FarCallABI::from_u256(U256([0, 0, 0, 0x0009_0002_ffff_ffff]));
    assert_eq!(other.ergs_passed, u32::MAX);
    assert_eq!(other.forwarding_mode, FarCallForwardPageType::UseAuxHeap);
    assert_eq!(other.shard_id, 0);
    assert!(other.constructor_call);
    assert!(!other.to_system);

    assert_eq!(FarCallForwardPageType::from_u8(0), FarCallForwardPageType::UseHeap);
    assert_eq!(
        FarCallForwardPageType::from_u8(1),
        FarCallForwardPageType::ForwardFatPointer
    );
    assert_eq!(
        FarCallForwardPageType::from_u8(2),
        FarCallForwardPageType::UseAuxHeap
    );
    assert_eq!(FarCallForwardPageType::from_u8(3), FarCallForwardPageType::UseHeap);
    assert_eq!(
        FarCallForwardPageType::from_u8(255),
        FarCallForwardPageType::UseHeap
    );
}

#[test]
fn return_parameters() {
    let abi = RetABI::from_u256(U256([
        0x0000_0002_0000_0001,
        0x0000_0004_0000_0003,
        0,
        0xffff_ff02_ffff_ffff,
    ]));
    assert_eq!(abi.memory_quasi_fat_pointer.length, 4);
    assert_eq!(abi.page_forwarding_mode, RetForwardPageType::UseAuxHeap);
    assert_eq!(
        RetABI::from_u256(U256::zero()).page_forwarding_mode,
        RetForwardPageType::UseHeap
    );
    assert_eq!(RetForwardPageType::from_u8(1), RetForwardPageType::ForwardFatPointer);
    assert_eq!(RetForwardPageType::from_u8(2), RetForwardPageType::UseAuxHeap);
    assert_eq!(RetForwardPageType::from_u8(17), RetForwardPageType::UseHeap);
}

#[test]
fn near_call_parameters() {
    assert_eq!(
        NearCallABI::from_u256(U256([0xaaaa_bbbb_0000_1234, 1, 2, 3])).ergs_passed,
        0x1234
    );
}

#[test]
fn precompile_parameters() {
    let word = U256([
        0x0000_0002_0000_0001,
        0x0000_0004_0000_0003,
        0x0000_0006_0000_0005,
        0x0123_4567_89ab_cdef,
    ]);
    let abi = PrecompileCallABI::from_u256(word);
    assert_eq!(
        abi,
        PrecompileCallABI {
            input_memory_offset: 1,
            input_memory_length: 2,
            output_memory_offset: 3,
            output_memory_length: 4,
            memory_page_to_read: 5,
            memory_page_to_write: 6,
            precompile_interpreted_data: 0x0123_4567_89ab_cdef,
        }
    );
    assert_eq!(abi.to_u256(), word);

    let aux = PrecompileAuxData::from_u256(U256([0x0000_0009_0000_0008, 7, 7, 7]));
    assert_eq!(
        aux,
        PrecompileAuxData {
            extra_ergs_cost: 8,
            extra_pubdata_cost: 9
        }
    );
    assert_eq!(aux.to_u256(), U256([0x0000_0009_0000_0008, 0, 0, 0]));
}

#[test]
fn meta_parameters() {
    let meta = VmMetaParameters {
        ergs_per_pubdata_byte: 0x11,
        heap_size: 0x22,
        aux_heap_size: 0x33,
        this_shard_id: 0x44,
        caller_shard_id: 0x55,
        code_shard_id: 0x66,
    };
    assert_eq!(
        meta.to_u256(),
        U256([0x11, 0x0000_0033_0000_0022, 0, 0x0066_5544_0000_0000])
    );
}

#[test]
fn erasing_the_metadata_of_a_fat_pointer() {
    let mut word = U256([
        0x1111_1111_2222_2222,
        0x3333_3333_4444_4444,
        0x5555_5555_5555_5555,
        0x6666_6666_6666_6666,
    ]);
    erase_fat_pointer_metadata(&mut word);
    assert_eq!(
        word,
        U256([
            0x0000_0000_2222_2222,
            0x3333_3333_0000_0000,
            0x5555_5555_5555_5555,
            0x6666_6666_6666_6666,
        ])
    );
}

#[test]
fn limbs_and_nibbles() {
    assert_eq!(split_limb(0x1234_5678_9abc_def0), (0x9abc_def0, 0x1234_5678));
    assert_eq!(join_limb(0x9abc_def0, 0x1234_5678), 0x1234_5678_9abc_def0);
    assert_eq!(split_as_u4(0xa5), (5, 10));
    assert_eq!(merge_u4(5, 10), 0xa5);
    assert_eq!(merge_u4(15, 15), 0xff);
    assert_eq!(split_as_u4(0), (0, 0));
    assert_eq!(max_offset_to_deref(), U256::from(0xffff_ffdfu64));
    assert_eq!(max_offset_to_deref(), U256::from((1u64 << 32) - 33));
    assert_eq!(max_offset_for_add_sub(), U256::from(1u64 << 32));
}
