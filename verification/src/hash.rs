//! Fixed-length binary identifiers and their wire form.

use vstd::prelude::*;
use crate::codec::{decode_hex, encode_hex, hex_decoding, hex_text, lemma_hex_round_trip};
use crate::error::{DecodeError, FormatError};
use crate::json::{writable, Json, JsonValue};

verus! {

/// A kind of binary identifier: a byte sequence whose length the kind fixes.
pub trait HashType: Sized {
    /// The number of bytes of every identifier of this kind.
    spec fn byte_len() -> nat;

    /// The bytes of the identifier.
    spec fn bytes_view(&self) -> Seq<u8>;

    /// Every identifier has the length of its kind.
    proof fn lemma_byte_len(&self)
        ensures
            self.bytes_view().len() == Self::byte_len(),
    ;

    /// The number of bytes of every identifier of this kind.
    fn len_bytes() -> (n: usize)
        ensures
            n == Self::byte_len(),
    ;

    /// The bytes of the identifier.
    fn bytes(&self) -> (b: &[u8])
        ensures
            b@ == self.bytes_view(),
    ;

    /// The identifier with the given bytes.
    fn from_slice(bytes: &[u8]) -> (h: Self)
        requires
            bytes@.len() == Self::byte_len(),
        ensures
            h.bytes_view() == bytes@,
    ;
}

/// Copies a slice of `N` bytes into an array.
fn array_of<const N: usize>(bytes: &[u8]) -> (out: [u8; N])
    requires
        bytes@.len() == N,
    ensures
        out@ == bytes@,
{
    let mut out: [u8; N] = [0u8; N];
    let mut i: usize = 0;
    while i < N
        invariant
            i <= N,
            bytes@.len() == N,
            forall|j: int| 0 <= j < i ==> out@[j] == bytes@[j],
        decreases N - i,
    {
        out[i] = bytes[i];
        i = i + 1;
    }
    assert(out@ =~= bytes@);
    out
}

/// The hash that names a block: 32 bytes.
#[derive(Clone, Copy, Debug, PartialEq, Eq, Hash)]
pub struct BlockHash(pub [u8; 32]);

/// The blob that a miner hashes to find a block: 76 bytes.
#[derive(Clone, Copy, Debug, PartialEq, Eq, Hash)]
pub struct BlockHashingBlob(pub [u8; 76]);

/// The short payment identifier of an integrated address: 8 bytes.
#[derive(Clone, Copy, Debug, PartialEq, Eq, Hash)]
pub struct PaymentId(pub [u8; 8]);

impl HashType for BlockHash {
    open spec fn byte_len() -> nat {
        32
    }

    open spec fn bytes_view(&self) -> Seq<u8> {
        self.0@
    }

    proof fn lemma_byte_len(&self) {
    }

    fn len_bytes() -> (n: usize) {
        32
    }

    fn bytes(&self) -> (b: &[u8]) {
        self.0.as_slice()
    }

    fn from_slice(bytes: &[u8]) -> (h: Self) {
        BlockHash(array_of::<32>(bytes))
    }
}

impl HashType for BlockHashingBlob {
    open spec fn byte_len() -> nat {
        76
    }

    open spec fn bytes_view(&self) -> Seq<u8> {
        self.0@
    }

    proof fn lemma_byte_len(&self) {
    }

    fn len_bytes() -> (n: usize) {
        76
    }

    fn bytes(&self) -> (b: &[u8]) {
        self.0.as_slice()
    }

    fn from_slice(bytes: &[u8]) -> (h: Self) {
        BlockHashingBlob(array_of::<76>(bytes))
    }
}

impl HashType for PaymentId {
    open spec fn byte_len() -> nat {
        8
    }

    open spec fn bytes_view(&self) -> Seq<u8> {
        self.0@
    }

    proof fn lemma_byte_len(&self) {
    }

    fn len_bytes() -> (n: usize) {
        8
    }

    fn bytes(&self) -> (b: &[u8]) {
        self.0.as_slice()
    }

    fn from_slice(bytes: &[u8]) -> (h: Self) {
        PaymentId(array_of::<8>(bytes))
    }
}

/// What reading a JSON value as an identifier of `len` bytes gives: the value
/// has to be a text, and the text the hexadecimal form of `len` bytes.
pub open spec fn hash_of_json(value: JsonValue, len: nat) -> Result<Seq<u8>, DecodeError> {
    match value.as_text() {
        Err(e) => Err(e),
        Ok(text) => match hex_decoding(text, len) {
            Ok(bytes) => Ok(bytes),
            Err(e) => Err(DecodeError::Format(e)),
        },
    }
}

/// What reading the member `name` of a record as an identifier of `len` bytes gives.
pub open spec fn hash_field(value: JsonValue, name: Seq<char>, len: nat) -> Result<
    Seq<u8>,
    DecodeError,
> {
    match value.field(name) {
        Ok(member) => hash_of_json(member, len),
        Err(e) => Err(e),
    }
}

/// An identifier as it travels: lowercase hexadecimal text.
#[derive(Clone, Debug, PartialEq, Eq)]
pub struct HashString<T>(pub T);

impl<T: HashType> HashString<T> {
    /// The hexadecimal text of the identifier.
    pub fn encode(&self) -> (text: String)
        ensures
            text@ == hex_text(self.0.bytes_view()),
            text@.len() == 2 * T::byte_len(),
    {
        proof {
            self.0.lemma_byte_len();
        }
        encode_hex(self.0.bytes())
    }

    /// Reads an identifier from its hexadecimal text.
    pub fn decode(text: &str) -> (r: Result<HashString<T>, FormatError>)
        ensures
            match r {
                Ok(h) => hex_decoding(text@, T::byte_len()) == Ok::<Seq<u8>, FormatError>(
                    h.0.bytes_view(),
                ),
                Err(e) => hex_decoding(text@, T::byte_len()) == Err::<Seq<u8>, FormatError>(e),
            },
    {
        match decode_hex(text, T::len_bytes()) {
            Ok(bytes) => Ok(HashString(T::from_slice(bytes.as_slice()))),
            Err(e) => Err(e),
        }
    }

    /// The JSON value sent for the identifier: its hexadecimal text.
    pub fn serialize(&self) -> (j: Json)
        ensures
            j@ == JsonValue::Text(hex_text(self.0.bytes_view())),
            writable(j),
    {
        Json::Text(self.encode())
    }

    /// Reads an identifier from the JSON value received for it.
    pub fn deserialize(value: &Json) -> (r: Result<HashString<T>, DecodeError>)
        ensures
            match r {
                Ok(h) => hash_of_json(value@, T::byte_len()) == Ok::<Seq<u8>, DecodeError>(
                    h.0.bytes_view(),
                ),
                Err(e) => hash_of_json(value@, T::byte_len()) == Err::<Seq<u8>, DecodeError>(e),
            },
    {
        match value.as_text() {
            Err(e) => Err(e),
            Ok(text) => match Self::decode(text) {
                Ok(h) => Ok(h),
                Err(e) => Err(DecodeError::Format(e)),
            },
        }
    }

    /// Reads the member `name` of a record as an identifier.
    pub fn deserialize_field(value: &Json, name: &str) -> (r: Result<HashString<T>, DecodeError>)
        ensures
            match r {
                Ok(h) => hash_field(value@, name@, T::byte_len()) == Ok::<Seq<u8>, DecodeError>(
                    h.0.bytes_view(),
                ),
                Err(e) => hash_field(value@, name@, T::byte_len()) == Err::<Seq<u8>, DecodeError>(
                    e,
                ),
            },
    {
        match value.field(name) {
            Ok(member) => Self::deserialize(member),
            Err(e) => Err(e),
        }
    }
}

/// An identifier of any kind survives the way through its text unchanged:
/// reading what `encode` wrote gives the same bytes.
pub proof fn lemma_hash_round_trip<T: HashType>(h: T)
    ensures
        hex_decoding(hex_text(h.bytes_view()), T::byte_len()) == Ok::<Seq<u8>, FormatError>(
            h.bytes_view(),
        ),
        hash_of_json(JsonValue::Text(hex_text(h.bytes_view())), T::byte_len()) == Ok::<
            Seq<u8>,
            DecodeError,
        >(h.bytes_view()),
{
    h.lemma_byte_len();
    lemma_hex_round_trip(h.bytes_view());
}

} // verus!
