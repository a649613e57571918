//! The calendar duration of the server, `{months, days, microseconds}`, and
//! its wire layout: sixteen bytes in network byte order, microseconds first.

use crate::byte_order::i32_be_bytes;
use crate::byte_order::i32_from_be;
use crate::byte_order::i32_to_be_bytes;
use crate::byte_order::i64_be_bytes;
use crate::byte_order::i64_from_be;
use crate::byte_order::i64_to_be_bytes;
use crate::byte_order::lemma_i32_bytes_round_trip;
use crate::byte_order::lemma_i32_round_trip;
use crate::byte_order::lemma_i64_bytes_round_trip;
use crate::byte_order::lemma_i64_round_trip;
use crate::byte_order::read_i32_be;
use crate::byte_order::read_i64_be;
use crate::codec::Decode;
use crate::codec::Encode;
use crate::codec::IsNull;
use crate::codec::PgValueFormat;
use crate::codec::PgValueRef;
use crate::error::CodecError;
use crate::error::WireField;
use crate::type_info::PgTypeInfo;
use crate::type_info::Type;
use vstd::prelude::*;

verus! {

/// A calendar duration as the server holds it.
#[derive(Clone, Copy, Debug, PartialEq, Eq, Structural)]
pub struct PgInterval {
    pub months: i32,
    pub days: i32,
    pub microseconds: i64,
}

/// The number of bytes of an interval on the wire.
pub const INTERVAL_SIZE: usize = 16;

impl PgInterval {
    /// The sixteen bytes of the interval on the wire: the microseconds in
    /// eight bytes, then the days and the months in four bytes each.
    pub open spec fn wire_bytes(self) -> Seq<u8> {
        i64_be_bytes(self.microseconds) + i32_be_bytes(self.days) + i32_be_bytes(self.months)
    }

    /// What decoding a payload of the given format gives. Bytes past the
    /// sixteenth are not read.
    pub open spec fn decoded(format: PgValueFormat, bytes: Seq<u8>) -> Result<
        PgInterval,
        CodecError,
    > {
        if format == PgValueFormat::Text {
            Err(CodecError::FormatUnsupported { wire_type: PgTypeInfo::Interval })
        } else if bytes.len() < 8 {
            Err(Self::short(WireField::Microseconds, bytes.len()))
        } else if bytes.len() < 12 {
            Err(Self::short(WireField::Days, bytes.len()))
        } else if bytes.len() < 16 {
            Err(Self::short(WireField::Months, bytes.len()))
        } else {
            Ok(
                PgInterval {
                    microseconds: i64_from_be(bytes.subrange(0, 8)),
                    days: i32_from_be(bytes.subrange(8, 12)),
                    months: i32_from_be(bytes.subrange(12, 16)),
                },
            )
        }
    }

    /// The error for a payload of `actual` bytes in which `field` is the
    /// first that is not whole.
    pub open spec fn short(field: WireField, actual: nat) -> CodecError {
        CodecError::ShortBuffer { field, expected: INTERVAL_SIZE, actual: actual as usize }
    }
}

impl Type for PgInterval {
    open spec fn wire_type() -> PgTypeInfo {
        PgTypeInfo::Interval
    }

    fn type_info() -> (info: PgTypeInfo) {
        PgTypeInfo::Interval
    }
}

impl Type for [PgInterval] {
    open spec fn wire_type() -> PgTypeInfo {
        PgTypeInfo::IntervalArray
    }

    fn type_info() -> (info: PgTypeInfo) {
        PgTypeInfo::IntervalArray
    }
}

/// The error for a payload of `actual` bytes that ends within `field`.
fn short_buffer(field: WireField, actual: usize) -> (error: CodecError)
    ensures
        error == PgInterval::short(field, actual as nat),
{
    CodecError::ShortBuffer { field, expected: INTERVAL_SIZE, actual }
}

impl Decode for PgInterval {
    open spec fn decodes(value: PgValueRef<'_>, r: Result<Self, CodecError>) -> bool {
        r == Self::decoded(value.format, value.bytes@)
    }

    fn decode(value: PgValueRef<'_>) -> (r: Result<Self, CodecError>) {
        match value.format() {
            PgValueFormat::Binary => {
                let bytes = value.as_bytes();
                let actual = bytes.len();
                let mut buf = bytes;
                let microseconds = match read_i64_be(&mut buf) {
                    Ok(microseconds) => microseconds,
                    Err(_) => {
                        return Err(short_buffer(WireField::Microseconds, actual));
                    },
                };
                let days = match read_i32_be(&mut buf) {
                    Ok(days) => days,
                    Err(_) => {
                        return Err(short_buffer(WireField::Days, actual));
                    },
                };
                let months = match read_i32_be(&mut buf) {
                    Ok(months) => months,
                    Err(_) => {
                        return Err(short_buffer(WireField::Months, actual));
                    },
                };
                proof {
                    let all = value.bytes@;
                    assert(all.take(8) =~= all.subrange(0, 8));
                    assert(all.skip(8).take(4) =~= all.subrange(8, 12));
                    assert(all.skip(8).skip(4).take(4) =~= all.subrange(12, 16));
                }
                Ok(PgInterval { months, days, microseconds })
            },
            PgValueFormat::Text => Err(
                CodecError::FormatUnsupported { wire_type: PgTypeInfo::Interval },
            ),
        }
    }
}

impl Encode for PgInterval {
    open spec fn payload(&self) -> Result<Seq<u8>, CodecError> {
        Ok(self.wire_bytes())
    }

    fn encode_by_ref(&self, buf: &mut Vec<u8>) -> (r: Result<IsNull, CodecError>) {
        let microseconds = i64_to_be_bytes(self.microseconds);
        let days = i32_to_be_bytes(self.days);
        let months = i32_to_be_bytes(self.months);
        buf.extend_from_slice(microseconds.as_slice());
        buf.extend_from_slice(days.as_slice());
        buf.extend_from_slice(months.as_slice());
        assert(buf@ =~= old(buf)@ + self.wire_bytes());
        Ok(IsNull::No)
    }

    fn size_hint(&self) -> (n: usize)
        ensures
            n == INTERVAL_SIZE,
    {
        proof {
            lemma_wire_bytes_len(*self);
        }
        INTERVAL_SIZE
    }
}

/// An interval takes sixteen bytes on the wire.
pub proof fn lemma_wire_bytes_len(interval: PgInterval)
    ensures
        interval.wire_bytes().len() == INTERVAL_SIZE,
{
    lemma_i64_round_trip(interval.microseconds);
    lemma_i32_round_trip(interval.days);
    lemma_i32_round_trip(interval.months);
}

/// No payload is decoded in the text format.
pub proof fn lemma_text_unsupported(bytes: Seq<u8>)
    ensures
        PgInterval::decoded(PgValueFormat::Text, bytes) == Err::<PgInterval, CodecError>(
            CodecError::FormatUnsupported { wire_type: PgTypeInfo::Interval },
        ),
{
}

/// A binary payload is decoded exactly when it has sixteen bytes or more;
/// a shorter one gives the short-buffer error with its own length.
pub proof fn lemma_short_payload(bytes: Seq<u8>)
    ensures
        PgInterval::decoded(PgValueFormat::Binary, bytes) is Ok <==> bytes.len() >= INTERVAL_SIZE,
        bytes.len() < INTERVAL_SIZE ==> (PgInterval::decoded(PgValueFormat::Binary, bytes) matches Err(
            CodecError::ShortBuffer { expected, actual, .. },
        ) && expected == INTERVAL_SIZE && actual == bytes.len()),
{
}

/// Encoding what a payload of sixteen bytes decodes to gives the payload
/// back: the two directions agree on the layout.
pub proof fn lemma_encode_decode(bytes: Seq<u8>)
    requires
        bytes.len() == INTERVAL_SIZE,
    ensures
        PgInterval::decoded(PgValueFormat::Binary, bytes) matches Ok(interval)
            && interval.wire_bytes() == bytes,
{
    lemma_i64_bytes_round_trip(bytes.subrange(0, 8));
    lemma_i32_bytes_round_trip(bytes.subrange(8, 12));
    lemma_i32_bytes_round_trip(bytes.subrange(12, 16));
    assert(bytes.subrange(0, 8) + bytes.subrange(8, 12) + bytes.subrange(12, 16) =~= bytes);
}

/// Decoding the bytes that an interval encodes to gives the interval back,
/// for every interval.
pub proof fn lemma_decode_encode(interval: PgInterval)
    ensures
        PgInterval::decoded(PgValueFormat::Binary, interval.wire_bytes()) == Ok::<
            PgInterval,
            CodecError,
        >(interval),
{
    lemma_i64_round_trip(interval.microseconds);
    lemma_i32_round_trip(interval.days);
    lemma_i32_round_trip(interval.months);
    let bytes = interval.wire_bytes();
    assert(bytes.subrange(0, 8) =~= i64_be_bytes(interval.microseconds));
    assert(bytes.subrange(8, 12) =~= i32_be_bytes(interval.days));
    assert(bytes.subrange(12, 16) =~= i32_be_bytes(interval.months));
}

} // verus!
