use zkevm_opcode_defs::utils::versioned_hash_of_digest;
use zkevm_opcode_defs::{
    bytecode_to_code_hash, bytecode_to_code_hash_for_mode, ContractCodeSha256,
    ContractCodeSha256Storage, EncodingModeProduction, VersionedHashDef, VersionedHashGeneric,
};

const SHA256_OF_32_ZERO_BYTES: [u8; 32] = [
    0x66, 0x68, 0x7a, 0xad, 0xf8, 0x62, 0xbd, 0x77, 0x6c, 0x8f, 0xc1, 0x8b, 0x8e, 0x9f, 0x8e, 0x20,
    0x08, 0x97, 0x14, 0x85, 0x6e, 0xe2, 0x33, 0xb3, 0x90, 0x2a, 0x59, 0x1d, 0x0d, 0x5f, 0x29, 0x25,
];

#[test]
fn code_hash_of_one_zero_word() {
    let hash = bytecode_to_code_hash(&[[0u8; 32]]).unwrap();
    assert_eq!(&hash[..4], &[1, 0, 0, 1]);
    assert_eq!(&hash[4..], &SHA256_OF_32_ZERO_BYTES[4..]);
    assert_eq!(
        bytecode_to_code_hash_for_mode::<8, EncodingModeProduction>(&[[0u8; 32]]),
        Ok(hash)
    );
}

#[test]
fn code_hash_depends_on_every_word() {
    let mut words = vec![[0u8; 32]; 3];
    let all_zero = bytecode_to_code_hash(&words).unwrap();
    assert_eq!(&all_zero[..4], &[1, 0, 0, 3]);
    assert_ne!(&all_zero[4..], &SHA256_OF_32_ZERO_BYTES[4..]);
    words[2][31] = 1;
    let changed = bytecode_to_code_hash(&words).unwrap();
    assert_eq!(&changed[..4], &[1, 0, 0, 3]);
    assert_ne!(changed, all_zero);
    words[2][31] = 0;
    words[0][0] = 1;
    assert_ne!(bytecode_to_code_hash(&words).unwrap(), changed);
}

#[test]
fn code_hash_wants_an_odd_number_of_words_within_reach() {
    assert_eq!(bytecode_to_code_hash(&[]), Err(()));
    assert_eq!(bytecode_to_code_hash(&[[0u8; 32]; 2]), Err(()));
    assert_eq!(bytecode_to_code_hash(&[[7u8; 32]; 4]), Err(()));
    assert!(bytecode_to_code_hash(&vec![[0u8; 32]; 65535]).is_ok());
    assert_eq!(bytecode_to_code_hash(&vec![[0u8; 32]; 65536]), Err(()));
    assert_eq!(bytecode_to_code_hash(&vec![[0u8; 32]; 65537]), Err(()));
    let longest = bytecode_to_code_hash(&vec![[0u8; 32]; 65535]).unwrap();
    assert_eq!(&longest[..4], &[1, 0, 0xff, 0xff]);
}

#[test]
fn versioned_hash_of_a_digest() {
    let mut digest = [0u8; 32];
    for (i, byte) in digest.iter_mut().enumerate() {
        *byte = i as u8;
    }
    let hash = versioned_hash_of_digest(digest, 0x0305).unwrap();
    assert_eq!(&hash[..4], &[1, 0, 3, 5]);
    assert_eq!(&hash[4..], &digest[4..]);

    let versioned =
        VersionedHashGeneric::<ContractCodeSha256>::from_digest_and_preimage_num_words(
            digest, 0x0305,
        );
    assert_eq!(versioned.layout_ref().code_length_in_words, 0x0305);
    assert_eq!(versioned.layout_ref().extra_marker, 0);
    assert_eq!(&versioned.layout_ref().partial_hash[..], &digest[4..]);
    assert_eq!(versioned.serialize(), Some(hash));
    assert_eq!(versioned.serialize_to_stored(), Some(hash));
}

#[test]
fn versioned_hash_round_trip() {
    let storage = ContractCodeSha256Storage {
        code_length_in_words: 0xabcd,
        extra_marker: ContractCodeSha256::YET_CONSTRUCTED_MARKER,
        partial_hash: [0x5a; 28],
    };
    let bytes = ContractCodeSha256::serialize(storage).unwrap();
    assert_eq!(bytes[0], ContractCodeSha256::VERSION_BYTE);
    assert_eq!(bytes[1], 1);
    assert_eq!(&bytes[2..4], &[0xab, 0xcd]);
    assert_eq!(&bytes[4..], &[0x5a; 28]);
    assert_eq!(ContractCodeSha256::try_deserialize(bytes), Some(storage));

    // in storage every code is at rest
    let stored = ContractCodeSha256::serialize_to_stored(storage).unwrap();
    assert_eq!(stored[1], ContractCodeSha256::CODE_AT_REST_MARKER);
    assert_eq!(&stored[2..], &bytes[2..]);

    let read = VersionedHashGeneric::<ContractCodeSha256>::try_create_from_raw(bytes).unwrap();
    assert_eq!(*read.layout_ref(), storage);
    assert_eq!(read.serialize(), Some(bytes));
    assert_eq!(read.serialize_to_stored(), Some(stored));
}

#[test]
fn another_version_byte_is_not_recognized() {
    let mut bytes = [0u8; 32];
    assert_eq!(ContractCodeSha256::try_deserialize(bytes), None);
    assert!(VersionedHashGeneric::<ContractCodeSha256>::try_create_from_raw(bytes).is_none());
    bytes[0] = 2;
    assert_eq!(ContractCodeSha256::try_deserialize(bytes), None);
    bytes[0] = 1;
    assert_eq!(
        ContractCodeSha256::try_deserialize(bytes),
        Some(ContractCodeSha256Storage {
            code_length_in_words: 0,
            extra_marker: 0,
            partial_hash: [0; 28],
        })
    );
}
