//! The point of the plane and its binary layout: nineteen bytes, each
//! coordinate in eight bytes of network byte order between marker bytes.
//!
//! A coordinate is a 64-bit floating-point number. The codec hands out its
//! bit pattern and leaves the number to the caller.

use crate::byte_order::read_u64_be;
use crate::byte_order::u64_from_be;
use crate::codec::Decode;
use crate::codec::PgValueFormat;
use crate::codec::PgValueRef;
use crate::error::CodecError;
use crate::error::WireField;
use crate::type_info::PgTypeInfo;
use crate::type_info::Type;
use vstd::prelude::*;
use vstd::slice::slice_subrange;

verus! {

/// A point of the plane: the bit patterns of its two coordinates.
#[derive(Clone, Copy, Debug, PartialEq, Eq, Structural)]
pub struct PgPoint {
    pub x_bits: u64,
    pub y_bits: u64,
}

/// The number of bytes of a point on the wire.
pub const POINT_SIZE: usize = 19;

impl PgPoint {
    /// What decoding a payload of the given format gives. The three marker
    /// bytes are passed over, whatever they hold, and bytes past the
    /// nineteenth are not read.
    pub open spec fn decoded(format: PgValueFormat, bytes: Seq<u8>) -> Result<PgPoint, CodecError> {
        if format == PgValueFormat::Text {
            Err(CodecError::FormatUnsupported { wire_type: PgTypeInfo::Point })
        } else if bytes.len() < 1 {
            Err(Self::short(WireField::OpenMarker, bytes.len()))
        } else if bytes.len() < 9 {
            Err(Self::short(WireField::X, bytes.len()))
        } else if bytes.len() < 10 {
            Err(Self::short(WireField::Separator, bytes.len()))
        } else if bytes.len() < 18 {
            Err(Self::short(WireField::Y, bytes.len()))
        } else if bytes.len() < 19 {
            Err(Self::short(WireField::CloseMarker, bytes.len()))
        } else {
            Ok(
                PgPoint {
                    x_bits: u64_from_be(bytes.subrange(1, 9)),
                    y_bits: u64_from_be(bytes.subrange(10, 18)),
                },
            )
        }
    }

    /// The error for a payload of `actual` bytes in which `field` is the
    /// first that is not whole.
    pub open spec fn short(field: WireField, actual: nat) -> CodecError {
        CodecError::ShortBuffer { field, expected: POINT_SIZE, actual: actual as usize }
    }
}

/// Passes over one marker byte: what follows it, if there is a byte.
fn skip_marker<'a>(buf: &'a [u8]) -> (rest: Option<&'a [u8]>)
    ensures
        rest is Some <==> buf@.len() >= 1,
        rest matches Some(after) ==> after@ == buf@.skip(1),
{
    if buf.len() >= 1 {
        Some(slice_subrange(buf, 1, buf.len()))
    } else {
        None
    }
}

impl Type for PgPoint {
    open spec fn wire_type() -> PgTypeInfo {
        PgTypeInfo::Point
    }

    fn type_info() -> (info: PgTypeInfo) {
        PgTypeInfo::Point
    }
}

/// The error for a payload of `actual` bytes that ends within `field`.
fn short_buffer(field: WireField, actual: usize) -> (error: CodecError)
    ensures
        error == PgPoint::short(field, actual as nat),
{
    CodecError::ShortBuffer { field, expected: POINT_SIZE, actual }
}

impl Decode for PgPoint {
    open spec fn decodes(value: PgValueRef<'_>, r: Result<Self, CodecError>) -> bool {
        r == Self::decoded(value.format, value.bytes@)
    }

    fn decode(value: PgValueRef<'_>) -> (r: Result<Self, CodecError>) {
        match value.format() {
            PgValueFormat::Binary => {
                let bytes = value.as_bytes();
                let actual = bytes.len();
                let mut buf = match skip_marker(bytes) {
                    Some(rest) => rest,
                    None => {
                        return Err(short_buffer(WireField::OpenMarker, actual));
                    },
                };
                let x_bits = match read_u64_be(&mut buf) {
                    Ok(bits) => bits,
                    Err(_) => {
                        return Err(short_buffer(WireField::X, actual));
                    },
                };
                buf = match skip_marker(buf) {
                    Some(rest) => rest,
                    None => {
                        return Err(short_buffer(WireField::Separator, actual));
                    },
                };
                let y_bits = match read_u64_be(&mut buf) {
                    Ok(bits) => bits,
                    Err(_) => {
                        return Err(short_buffer(WireField::Y, actual));
                    },
                };
                if skip_marker(buf).is_none() {
                    return Err(short_buffer(WireField::CloseMarker, actual));
                }
                proof {
                    let all = value.bytes@;
                    assert(all.skip(1).take(8) =~= all.subrange(1, 9));
                    assert(all.skip(1).skip(8).skip(1).take(8) =~= all.subrange(10, 18));
                }
                Ok(PgPoint { x_bits, y_bits })
            },
            PgValueFormat::Text => Err(
                CodecError::FormatUnsupported { wire_type: PgTypeInfo::Point },
            ),
        }
    }
}

/// No payload is decoded in the text format.
pub proof fn lemma_text_unsupported(bytes: Seq<u8>)
    ensures
        PgPoint::decoded(PgValueFormat::Text, bytes) == Err::<PgPoint, CodecError>(
            CodecError::FormatUnsupported { wire_type: PgTypeInfo::Point },
        ),
{
}

/// A binary payload is decoded exactly when it has nineteen bytes or more;
/// a shorter one gives the short-buffer error with its own length.
pub proof fn lemma_short_payload(bytes: Seq<u8>)
    ensures
        PgPoint::decoded(PgValueFormat::Binary, bytes) is Ok <==> bytes.len() >= POINT_SIZE,
        bytes.len() < POINT_SIZE ==> (PgPoint::decoded(PgValueFormat::Binary, bytes) matches Err(
            CodecError::ShortBuffer { expected, actual, .. },
        ) && expected == POINT_SIZE && actual == bytes.len()),
{
}

} // verus!
