//! What a value type offers to be written to and read from the wire.

use crate::error::CodecError;
use vstd::prelude::*;

verus! {

/// The format in which the server sent a value.
#[derive(Clone, Copy, Debug, PartialEq, Eq, Structural)]
pub enum PgValueFormat {
    Text,
    Binary,
}

/// Whether an encoded value is the SQL null.
#[derive(Clone, Copy, Debug, PartialEq, Eq, Structural)]
pub enum IsNull {
    Yes,
    No,
}

/// A value as the server sent it: its format and its bytes.
#[derive(Clone, Copy, Debug)]
pub struct PgValueRef<'r> {
    pub format: PgValueFormat,
    pub bytes: &'r [u8],
}

impl<'r> PgValueRef<'r> {
    /// The value of the given format and bytes.
    pub fn new(format: PgValueFormat, bytes: &'r [u8]) -> (value: Self)
        ensures
            value.format == format,
            value.bytes@ == bytes@,
    {
        PgValueRef { format, bytes }
    }

    /// The format in which the value came.
    pub fn format(&self) -> (format: PgValueFormat)
        ensures
            format == self.format,
    {
        self.format
    }

    /// The bytes of the value.
    pub fn as_bytes(&self) -> (bytes: &'r [u8])
        ensures
            bytes@ == self.bytes@,
    {
        self.bytes
    }
}

/// A value type that can be written to the wire.
pub trait Encode {
    /// The bytes that stand for the value on the wire, or why it has none.
    spec fn payload(&self) -> Result<Seq<u8>, CodecError>;

    /// Appends the value's payload to `buf`; no value of these types is the
    /// SQL null. A value without a payload leaves `buf` as it was.
    fn encode_by_ref(&self, buf: &mut Vec<u8>) -> (r: Result<IsNull, CodecError>)
        ensures
            match self.payload() {
                Ok(bytes) => r == Ok::<IsNull, CodecError>(IsNull::No) && final(buf)@ == old(buf)@
                    + bytes,
                Err(e) => r == Err::<IsNull, CodecError>(e) && final(buf)@ == old(buf)@,
            },
    ;

    /// The number of bytes that encoding the value appends.
    fn size_hint(&self) -> (n: usize)
        ensures
            self.payload() matches Ok(bytes) ==> n == bytes.len(),
    ;
}

/// A value type that can be read from the wire.
pub trait Decode: Sized {
    /// Whether `r` is what decoding `value` gives.
    spec fn decodes(value: PgValueRef<'_>, r: Result<Self, CodecError>) -> bool;

    /// Reads a value of the type from what the server sent.
    fn decode(value: PgValueRef<'_>) -> (r: Result<Self, CodecError>)
        ensures
            Self::decodes(value, r),
    ;
}

} // verus!
