//! The byte encoding of the values that travel between nodes.
//!
//! A value is encoded as the bytes of its fields, one after the other, in the
//! order in which the fields are declared. An integer is its bytes from the
//! lowest to the highest, a boolean is one byte, zero or one, and a hash is its
//! 32 bytes. Decoding reads a value at a place in the bytes and says where the
//! next value starts.

use crate::types::Hash256;
use vstd::bytes::{
    lemma_auto_spec_u64_to_from_le_bytes, spec_u64_from_le_bytes, spec_u64_to_le_bytes,
    u64_from_le_bytes, u64_to_le_bytes,
};
use vstd::prelude::*;
use vstd::slice::slice_subrange;

verus! {

/// Why bytes could not be decoded.
#[derive(Debug, Clone, Copy, PartialEq, Eq)]
pub enum DecodeError {
    /// The bytes end before the value does.
    TooShort,
    /// The bytes are no encoding of a value.
    Invalid,
}

/// The bytes that were encoded so far.
pub struct SszStream {
    buffer: Vec<u8>,
}

impl View for SszStream {
    type V = Seq<u8>;

    closed spec fn view(&self) -> Seq<u8> {
        self.buffer@
    }
}

/// A value that can be encoded.
pub trait Encodable {
    /// The encoding of the value.
    spec fn ssz_bytes(&self) -> Seq<u8>;

    /// Appends the encoding of the value to `s`.
    fn ssz_append(&self, s: &mut SszStream)
        ensures
            final(s)@ == old(s)@ + self.ssz_bytes(),
    ;
}

/// A value that can be decoded from what [`Encodable`] made of it.
pub trait Decodable: Encodable + Sized {
    /// The value that `bytes` hold at `index` and the place where the next
    /// value starts, or why there is no such value.
    spec fn ssz_parse(bytes: Seq<u8>, index: int) -> Result<(Self, int), DecodeError>;

    /// Decodes the value that `bytes` hold at `index`.
    fn ssz_decode(bytes: &[u8], index: usize) -> (decoded: Result<(Self, usize), DecodeError>)
        ensures
            decoded_as(decoded, Self::ssz_parse(bytes@, index as int)),
    ;

    /// Decoding gives back what was encoded, wherever in the bytes the
    /// encoding stands, and ends where the encoding ends.
    proof fn lemma_round_trip(&self, before: Seq<u8>, after: Seq<u8>)
        ensures
            Self::ssz_parse(before + self.ssz_bytes() + after, before.len() as int) == Ok::<
                (Self, int),
                DecodeError,
            >((*self, (before.len() + self.ssz_bytes().len()) as int)),
    ;
}

/// Whether `decoded` is what `parsed` says: the same value and the same
/// place, or the same error.
pub open spec fn decoded_as<T>(
    decoded: Result<(T, usize), DecodeError>,
    parsed: Result<(T, int), DecodeError>,
) -> bool {
    match decoded {
        Ok((value, next)) => parsed == Ok::<(T, int), DecodeError>((value, next as int)),
        Err(e) => parsed == Err::<(T, int), DecodeError>(e),
    }
}

impl SszStream {
    /// A stream that holds no bytes.
    pub fn new() -> (s: SszStream)
        ensures
            s@ == Seq::<u8>::empty(),
    {
        SszStream { buffer: Vec::new() }
    }

    /// Appends the encoding of `value`.
    pub fn append<E: Encodable>(&mut self, value: &E)
        ensures
            final(self)@ == old(self)@ + value.ssz_bytes(),
    {
        value.ssz_append(self);
    }

    /// Appends `bytes` as they are.
    pub fn append_encoded_raw(&mut self, bytes: &[u8])
        ensures
            final(self)@ == old(self)@ + bytes@,
    {
        let mut i: usize = 0;
        while i < bytes.len()
            invariant
                i <= bytes.len(),
                self@ == old(self)@ + bytes@.take(i as int),
            decreases bytes.len() - i,
        {
            self.buffer.push(bytes[i]);
            assert(bytes@.take(i + 1) =~= bytes@.take(i as int).push(bytes@[i as int]));
            i += 1;
        }
        assert(bytes@.take(i as int) =~= bytes@);
    }

    /// The bytes that were encoded.
    pub fn drain(self) -> (bytes: Vec<u8>)
        ensures
            bytes@ == self@,
    {
        self.buffer
    }
}

/// Encodes `val`.
pub fn ssz_encode<T: Encodable>(val: &T) -> (bytes: Vec<u8>)
    ensures
        bytes@ == val.ssz_bytes(),
{
    let mut ssz_stream = SszStream::new();
    ssz_stream.append(val);
    ssz_stream.drain()
}

/// The value that `bytes` hold at `index`, where they hold one.
pub open spec fn parsed<T: Decodable>(bytes: Seq<u8>, index: int) -> T {
    T::ssz_parse(bytes, index)->Ok_0.0
}

/// Whether `bytes` hold `len` bytes from `index` on.
pub open spec fn holds(bytes: Seq<u8>, index: int, len: int) -> bool {
    0 <= index && index + len <= bytes.len()
}

impl Encodable for u64 {
    open spec fn ssz_bytes(&self) -> Seq<u8> {
        spec_u64_to_le_bytes(*self)
    }

    fn ssz_append(&self, s: &mut SszStream) {
        let bytes = u64_to_le_bytes(*self);
        s.append_encoded_raw(bytes.as_slice());
    }
}

impl Decodable for u64 {
    open spec fn ssz_parse(bytes: Seq<u8>, index: int) -> Result<(u64, int), DecodeError> {
        if holds(bytes, index, 8) {
            Ok((spec_u64_from_le_bytes(bytes.subrange(index, index + 8)), index + 8))
        } else {
            Err(DecodeError::TooShort)
        }
    }

    fn ssz_decode(bytes: &[u8], index: usize) -> (decoded: Result<(u64, usize), DecodeError>) {
        if bytes.len() < 8 || index > bytes.len() - 8 {
            return Err(DecodeError::TooShort);
        }
        let value = u64_from_le_bytes(slice_subrange(bytes, index, index + 8));
        Ok((value, index + 8))
    }

    proof fn lemma_round_trip(&self, before: Seq<u8>, after: Seq<u8>) {
        lemma_auto_spec_u64_to_from_le_bytes();
        let all = before + self.ssz_bytes() + after;
        assert(all.subrange(before.len() as int, before.len() as int + 8) =~= self.ssz_bytes());
    }
}

impl Encodable for bool {
    open spec fn ssz_bytes(&self) -> Seq<u8> {
        if *self {
            seq![1u8]
        } else {
            seq![0u8]
        }
    }

    fn ssz_append(&self, s: &mut SszStream) {
        let byte: [u8; 1] = if *self {
            [1u8]
        } else {
            [0u8]
        };
        assert(byte@ =~= self.ssz_bytes());
        s.append_encoded_raw(byte.as_slice());
    }
}

impl Decodable for bool {
    open spec fn ssz_parse(bytes: Seq<u8>, index: int) -> Result<(bool, int), DecodeError> {
        if !holds(bytes, index, 1) {
            Err(DecodeError::TooShort)
        } else if bytes[index] == 0 {
            Ok((false, index + 1))
        } else if bytes[index] == 1 {
            Ok((true, index + 1))
        } else {
            Err(DecodeError::Invalid)
        }
    }

    fn ssz_decode(bytes: &[u8], index: usize) -> (decoded: Result<(bool, usize), DecodeError>) {
        if index >= bytes.len() {
            return Err(DecodeError::TooShort);
        }
        let byte = bytes[index];
        if byte == 0 {
            Ok((false, index + 1))
        } else if byte == 1 {
            Ok((true, index + 1))
        } else {
            Err(DecodeError::Invalid)
        }
    }

    proof fn lemma_round_trip(&self, before: Seq<u8>, after: Seq<u8>) {
    }
}

impl Encodable for Hash256 {
    open spec fn ssz_bytes(&self) -> Seq<u8> {
        self.bytes@
    }

    fn ssz_append(&self, s: &mut SszStream) {
        s.append_encoded_raw(self.bytes.as_slice());
    }
}

impl Decodable for Hash256 {
    open spec fn ssz_parse(bytes: Seq<u8>, index: int) -> Result<(Hash256, int), DecodeError> {
        if holds(bytes, index, 32) {
            Ok((Hash256::of_bytes(bytes.subrange(index, index + 32)), index + 32))
        } else {
            Err(DecodeError::TooShort)
        }
    }

    fn ssz_decode(bytes: &[u8], index: usize) -> (decoded: Result<(Hash256, usize), DecodeError>) {
        if bytes.len() < 32 || index > bytes.len() - 32 {
            return Err(DecodeError::TooShort);
        }
        let hash = Hash256::from_slice(slice_subrange(bytes, index, index + 32));
        Ok((hash, index + 32))
    }

    proof fn lemma_round_trip(&self, before: Seq<u8>, after: Seq<u8>) {
        let all = before + self.ssz_bytes() + after;
        assert(all.subrange(before.len() as int, before.len() as int + 32) =~= self.bytes@);
        Hash256::lemma_of_bytes(self.bytes@);
        Hash256::lemma_same_bytes(*self, Hash256::of_bytes(self.bytes@));
    }
}

} // verus!
