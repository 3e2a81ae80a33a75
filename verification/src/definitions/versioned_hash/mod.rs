//! Versioned hashes: 32 bytes that begin with a version and say in the
//! following bytes what the rest commits to.

use vstd::prelude::*;

verus! {

/// One kind of versioned hash: its version byte, what it stores, and how that
/// is laid out in 32 bytes.
pub trait VersionedHashDef: Sized + Copy {
    /// The first byte of every hash of this kind.
    const VERSION_BYTE: u8;

    type StorageLayout: Sized + Copy;

    /// The 32 bytes of the hash.
    spec fn spec_serialize(storage: Self::StorageLayout) -> Option<Seq<u8>>;

    /// The 32 bytes of the hash as storage holds it.
    spec fn spec_serialize_to_stored(storage: Self::StorageLayout) -> Option<Seq<u8>>;

    /// What 32 bytes hold, if they are a hash of this kind.
    spec fn spec_try_deserialize(input: Seq<u8>) -> Option<Self::StorageLayout>;

    fn serialize(storage: Self::StorageLayout) -> (r: Option<[u8; 32]>)
        ensures
            match r {
                Some(bytes) => Self::spec_serialize(storage) == Some(bytes@),
                None => Self::spec_serialize(storage) is None,
            },
    ;

    fn serialize_to_stored(storage: Self::StorageLayout) -> (r: Option<[u8; 32]>)
        ensures
            match r {
                Some(bytes) => Self::spec_serialize_to_stored(storage) == Some(bytes@),
                None => Self::spec_serialize_to_stored(storage) is None,
            },
    ;

    /// What the bytes hold, or `None` where they do not begin with the version
    /// byte of this kind.
    fn try_deserialize(input: [u8; 32]) -> (r: Option<Self::StorageLayout>)
        ensures
            r == Self::spec_try_deserialize(input@),
    ;
}

/// A versioned hash of kind `V`.
#[derive(Clone, Copy, Debug)]
pub struct VersionedHashGeneric<V: VersionedHashDef> {
    data: V::StorageLayout,
}

impl<V: VersionedHashDef> VersionedHashGeneric<V> {
    /// What the hash stores.
    pub closed spec fn spec_layout(&self) -> V::StorageLayout {
        self.data
    }

    pub fn serialize(self) -> (r: Option<[u8; 32]>)
        ensures
            match r {
                Some(bytes) => V::spec_serialize(self.spec_layout()) == Some(bytes@),
                None => V::spec_serialize(self.spec_layout()) is None,
            },
    {
        V::serialize(self.data)
    }

    pub fn serialize_to_stored(self) -> (r: Option<[u8; 32]>)
        ensures
            match r {
                Some(bytes) => V::spec_serialize_to_stored(self.spec_layout()) == Some(bytes@),
                None => V::spec_serialize_to_stored(self.spec_layout()) is None,
            },
    {
        V::serialize_to_stored(self.data)
    }

    /// The hash that the bytes hold, or `None` where they are of another
    /// version.
    pub fn try_create_from_raw(input: [u8; 32]) -> (r: Option<Self>)
        ensures
            match r {
                Some(hash) => V::spec_try_deserialize(input@) == Some(hash.spec_layout()),
                None => V::spec_try_deserialize(input@) is None,
            },
    {
        match V::try_deserialize(input) {
            Some(layout) => Some(Self { data: layout }),
            None => None,
        }
    }

    pub fn layout_ref(&self) -> (r: &V::StorageLayout)
        ensures
            *r == self.spec_layout(),
    {
        &self.data
    }
}

impl VersionedHashGeneric<ContractCodeSha256> {
    /// The hash of a bytecode of `num_words` words with the given SHA-256
    /// digest: the digest without its first four bytes, at rest.
    pub fn from_digest_and_preimage_num_words(digest: [u8; 32], num_words: u16) -> (r: Self)
        ensures
            r.spec_layout().code_length_in_words == num_words,
            r.spec_layout().extra_marker == ContractCodeSha256::CODE_AT_REST_MARKER,
            r.spec_layout().partial_hash@ == digest@.subrange(4, 32),
    {
        let mut truncated_digest = [0u8; 28];
        let mut i: usize = 0;
        while i < 28
            invariant
                i <= 28,
                forall|k: int| 0 <= k < i ==> truncated_digest@[k] == digest@[k + 4],
            decreases 28 - i,
        {
            truncated_digest[i] = digest[i + 4];
            i += 1;
        }
        assert(truncated_digest@ =~= digest@.subrange(4, 32));
        Self {
            data: ContractCodeSha256Storage {
                code_length_in_words: num_words,
                extra_marker: 0u8,
                partial_hash: truncated_digest,
            },
        }
    }
}

/// The hash of the bytecode of a contract: version 1.
#[derive(Clone, Copy, Debug, PartialEq, Eq, Hash, Structural)]
pub struct ContractCodeSha256;

/// What the hash of a bytecode stores: the length of the bytecode in words, a
/// marker that tells a contract at rest from one under construction, and the
/// last 28 bytes of the SHA-256 digest of the bytecode.
#[derive(Clone, Copy, Debug, PartialEq, Eq, Hash)]
pub struct ContractCodeSha256Storage {
    pub code_length_in_words: u16,
    pub extra_marker: u8,
    pub partial_hash: [u8; 28],
}

impl ContractCodeSha256 {
    pub const CODE_AT_REST_MARKER: u8 = 0;

    pub const YET_CONSTRUCTED_MARKER: u8 = 1;
}

/// The 32 bytes of a code hash: the version, the marker, the length of the
/// code as two bytes with the high one first, and the partial digest.
pub open spec fn code_hash_bytes(
    marker: u8,
    code_length_in_words: u16,
    partial_hash: Seq<u8>,
) -> Seq<u8> {
    seq![
        ContractCodeSha256::VERSION_BYTE,
        marker,
        (code_length_in_words / 256) as u8,
        (code_length_in_words % 256) as u8,
    ] + partial_hash
}

/// Writes the 32 bytes of a code hash.
fn write_code_hash(marker: u8, code_length_in_words: u16, partial_hash: &[u8; 28]) -> (r: [u8; 32])
    ensures
        r@ == code_hash_bytes(marker, code_length_in_words, partial_hash@),
{
    let mut result = [0u8; 32];
    result[0] = ContractCodeSha256::VERSION_BYTE;
    result[1] = marker;
    result[2] = (code_length_in_words / 256) as u8;
    result[3] = (code_length_in_words % 256) as u8;
    let mut i: usize = 0;
    while i < 28
        invariant
            i <= 28,
            result@[0] == ContractCodeSha256::VERSION_BYTE,
            result@[1] == marker,
            result@[2] == (code_length_in_words / 256) as u8,
            result@[3] == (code_length_in_words % 256) as u8,
            forall|k: int| 0 <= k < i ==> result@[k + 4] == partial_hash@[k],
        decreases 28 - i,
    {
        result[i + 4] = partial_hash[i];
        i += 1;
    }
    assert(result@ =~= code_hash_bytes(marker, code_length_in_words, partial_hash@));
    result
}

impl VersionedHashDef for ContractCodeSha256 {
    const VERSION_BYTE: u8 = 0x01;

    type StorageLayout = ContractCodeSha256Storage;

    open spec fn spec_serialize(storage: ContractCodeSha256Storage) -> Option<Seq<u8>> {
        Some(
            code_hash_bytes(
                storage.extra_marker,
                storage.code_length_in_words,
                storage.partial_hash@,
            ),
        )
    }

    /// In storage every code is at rest.
    open spec fn spec_serialize_to_stored(storage: ContractCodeSha256Storage) -> Option<Seq<u8>> {
        Some(
            code_hash_bytes(
                ContractCodeSha256::CODE_AT_REST_MARKER,
                storage.code_length_in_words,
                storage.partial_hash@,
            ),
        )
    }

    open spec fn spec_try_deserialize(input: Seq<u8>) -> Option<ContractCodeSha256Storage> {
        if input[0] != ContractCodeSha256::VERSION_BYTE {
            None
        } else {
            Some(
                choose|storage: ContractCodeSha256Storage|
                    storage.extra_marker == input[1] && storage.code_length_in_words == input[2]
                        * 256 + input[3] && storage.partial_hash@ == input.subrange(4, 32),
            )
        }
    }

    fn serialize(storage: ContractCodeSha256Storage) -> (r: Option<[u8; 32]>) {
        Some(
            write_code_hash(
                storage.extra_marker,
                storage.code_length_in_words,
                &storage.partial_hash,
            ),
        )
    }

    fn serialize_to_stored(storage: ContractCodeSha256Storage) -> (r: Option<[u8; 32]>) {
        Some(write_code_hash(0, storage.code_length_in_words, &storage.partial_hash))
    }

    fn try_deserialize(input: [u8; 32]) -> (r: Option<ContractCodeSha256Storage>) {
        if input[0] != Self::VERSION_BYTE {
            return None;
        }
        let extra_marker = input[1];
        let code_length_in_words = (input[2] as u16) * 256 + input[3] as u16;
        let mut partial_hash = [0u8; 28];
        let mut i: usize = 0;
        while i < 28
            invariant
                i <= 28,
                forall|k: int| 0 <= k < i ==> partial_hash@[k] == input@[k + 4],
            decreases 28 - i,
        {
            partial_hash[i] = input[i + 4];
            i += 1;
        }
        let storage = ContractCodeSha256Storage {
            code_length_in_words,
            extra_marker,
            partial_hash,
        };
        proof {
            assert(partial_hash@ =~= input@.subrange(4, 32));
            assert(storage.extra_marker == input@[1] && storage.code_length_in_words == input@[2]
                * 256 + input@[3] && storage.partial_hash@ == input@.subrange(4, 32));
            lemma_storage_by_parts(storage, Self::spec_try_deserialize(input@)->0);
        }
        Some(storage)
    }
}

/// What a code hash stores is its three parts.
pub proof fn lemma_storage_by_parts(a: ContractCodeSha256Storage, b: ContractCodeSha256Storage)
    requires
        a.extra_marker == b.extra_marker,
        a.code_length_in_words == b.code_length_in_words,
        a.partial_hash@ == b.partial_hash@,
    ensures
        a == b,
{
    assert(a.partial_hash@ =~= b.partial_hash@);
    assert(a.partial_hash == b.partial_hash);
}

/// A code hash that is written and read back stores what it stored, and its
/// bytes begin with the version byte. Bytes that begin with another byte hold
/// no code hash.
pub proof fn lemma_code_hash_round_trip(storage: ContractCodeSha256Storage, input: Seq<u8>)
    ensures
        ContractCodeSha256::spec_try_deserialize(
            ContractCodeSha256::spec_serialize(storage)->0,
        ) == Some(storage),
        ContractCodeSha256::spec_serialize(storage)->0.len() == 32,
        ContractCodeSha256::spec_serialize(storage)->0[0] == ContractCodeSha256::VERSION_BYTE,
        input[0] != ContractCodeSha256::VERSION_BYTE ==> ContractCodeSha256::spec_try_deserialize(
            input,
        ) is None,
{
    let bytes = ContractCodeSha256::spec_serialize(storage)->0;
    assert(bytes.subrange(4, 32) =~= storage.partial_hash@);
    assert(bytes[2] * 256 + bytes[3] == storage.code_length_in_words);
    assert(storage.extra_marker == bytes[1] && storage.code_length_in_words == bytes[2] * 256
        + bytes[3] && storage.partial_hash@ == bytes.subrange(4, 32));
    let read = ContractCodeSha256::spec_try_deserialize(bytes)->0;
    lemma_storage_by_parts(read, storage);
}

} // verus!
