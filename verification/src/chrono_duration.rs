//! The adapter for the duration of chrono, which may be negative and ends
//! at `i64::MAX` milliseconds either way.

use crate::bridge::converts;
use crate::bridge::duration_nanos;
use crate::bridge::encode_converted;
use crate::bridge::host_decodes;
use crate::bridge::host_interval;
use crate::bridge::host_payload;
use crate::bridge::lemma_host_payload_len;
use crate::bridge::out_of_range;
use crate::bridge::HostDuration;
use crate::codec::Decode;
use crate::codec::Encode;
use crate::codec::IsNull;
use crate::codec::PgValueRef;
use crate::error::CodecError;
use crate::error::RangeStep;
use crate::interval::PgInterval;
use crate::interval::INTERVAL_SIZE;
use crate::type_info::PgTypeInfo;
use crate::type_info::Type;
use std::time::Duration;
use vstd::prelude::*;
use vstd::std_specs::convert::TryFromSpecImpl;

verus! {

/// The duration of chrono, opaque to the verifier.
#[verifier::external_type_specification]
#[verifier::external_body]
pub struct ExChronoDuration(chrono::Duration);

/// The error of chrono's conversions, carried through and never looked into.
#[verifier::external_type_specification]
#[verifier::external_body]
pub struct ExChronoOutOfRange(chrono::OutOfRangeError);

/// The nanoseconds that a duration of chrono holds, below zero for a
/// negative duration: `num_seconds() * 1_000_000_000 + subsec_nanos()`, as
/// chrono documents the two. This number is all that the contracts say of a
/// duration of chrono.
pub uninterp spec fn chrono_nanos(d: chrono::Duration) -> int;

/// The nanoseconds of the longest duration of chrono: `i64::MAX`
/// milliseconds.
pub open spec fn chrono_max_nanos() -> nat {
    (i64::MAX * 1_000_000) as nat
}

/// `TimeDelta::to_std` of chrono. Believed, not proved: it refuses the
/// negative durations and no others, and the duration of std that it gives
/// holds the same nanoseconds.
pub assume_specification[ chrono::Duration::to_std ](d: &chrono::Duration) -> (r: Result<
    Duration,
    chrono::OutOfRangeError,
>)
    ensures
        r is Ok <==> chrono_nanos(*d) >= 0,
        r matches Ok(std) ==> duration_nanos(std) == chrono_nanos(*d),
;

/// `TimeDelta::from_std` of chrono. Believed, not proved: it refuses the
/// durations past `i64::MAX` milliseconds and no others, and the duration
/// that it gives holds the same nanoseconds.
pub assume_specification[ chrono::Duration::from_std ](duration: Duration) -> (r: Result<
    chrono::Duration,
    chrono::OutOfRangeError,
>)
    ensures
        r is Ok <==> duration_nanos(duration) <= chrono_max_nanos(),
        r matches Ok(d) ==> chrono_nanos(d) == duration_nanos(duration),
;

impl HostDuration for chrono::Duration {
    open spec fn nanos(&self) -> int {
        chrono_nanos(*self)
    }

    open spec fn holds(nanos: nat) -> bool {
        nanos <= chrono_max_nanos()
    }

    fn to_interval(&self) -> (r: Result<PgInterval, CodecError>) {
        match self.to_std() {
            Ok(std) => PgInterval::from_std(std),
            Err(_) => Err(out_of_range(RangeStep::HostDuration)),
        }
    }

    fn from_interval(interval: PgInterval) -> (r: Result<Self, CodecError>) {
        match interval.to_std() {
            Ok(std) => match chrono::Duration::from_std(std) {
                Ok(d) => Ok(d),
                Err(_) => Err(out_of_range(RangeStep::HostDuration)),
            },
            Err(e) => Err(e),
        }
    }
}

impl TryFrom<chrono::Duration> for PgInterval {
    type Error = CodecError;

    fn try_from(value: chrono::Duration) -> (r: Result<PgInterval, CodecError>) {
        value.to_interval()
    }
}

impl TryFromSpecImpl<chrono::Duration> for PgInterval {
    open spec fn obeys_try_from_spec() -> bool {
        true
    }

    open spec fn try_from_spec(value: chrono::Duration) -> Result<PgInterval, CodecError> {
        host_interval(chrono_nanos(value))
    }
}

impl Type for chrono::Duration {
    open spec fn wire_type() -> PgTypeInfo {
        PgTypeInfo::Interval
    }

    fn type_info() -> (info: PgTypeInfo) {
        PgTypeInfo::Interval
    }
}

impl Type for [chrono::Duration] {
    open spec fn wire_type() -> PgTypeInfo {
        PgTypeInfo::IntervalArray
    }

    fn type_info() -> (info: PgTypeInfo) {
        PgTypeInfo::IntervalArray
    }
}

impl Decode for chrono::Duration {
    open spec fn decodes(value: PgValueRef<'_>, r: Result<Self, CodecError>) -> bool {
        host_decodes(value, r)
    }

    fn decode(value: PgValueRef<'_>) -> (r: Result<Self, CodecError>) {
        match PgInterval::decode(value) {
            Ok(interval) => Self::from_interval(interval),
            Err(e) => Err(e),
        }
    }
}

impl Encode for chrono::Duration {
    open spec fn payload(&self) -> Result<Seq<u8>, CodecError> {
        host_payload(self.nanos())
    }

    fn encode_by_ref(&self, buf: &mut Vec<u8>) -> (r: Result<IsNull, CodecError>) {
        encode_converted(self.to_interval(), buf)
    }

    fn size_hint(&self) -> (n: usize)
        ensures
            n == INTERVAL_SIZE,
    {
        proof {
            lemma_host_payload_len(self.nanos());
        }
        INTERVAL_SIZE
    }
}

/// chrono has a duration for every interval that comes to a duration of
/// std: a conversion to chrono fails only where the one to std does.
pub proof fn lemma_chrono_holds_every_interval(interval: PgInterval, r: Result<
    chrono::Duration,
    CodecError,
>)
    requires
        converts(interval, r),
    ensures
        r is Ok <==> interval.std_nanos() is Ok,
{
}

} // verus!
