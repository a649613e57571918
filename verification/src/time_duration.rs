//! The adapter for the duration of time, which may be negative and counts
//! its whole seconds in 64 signed bits.

use crate::bridge::converts;
use crate::bridge::duration_nanos;
use crate::bridge::encode_converted;
use crate::bridge::host_decodes;
use crate::bridge::host_interval;
use crate::bridge::host_payload;
use crate::bridge::lemma_host_payload_len;
use crate::bridge::out_of_range;
use crate::bridge::HostDuration;
use crate::codec::Decode;
use crate::codec::Encode;
use crate::codec::IsNull;
use crate::codec::PgValueRef;
use crate::error::CodecError;
use crate::error::RangeStep;
use crate::interval::PgInterval;
use crate::interval::INTERVAL_SIZE;
use crate::type_info::PgTypeInfo;
use crate::type_info::Type;
use std::time::Duration;
use vstd::prelude::*;
use vstd::std_specs::convert::TryFromSpecImpl;

verus! {

/// The duration of time, opaque to the verifier.
#[verifier::external_type_specification]
#[verifier::external_body]
pub struct ExTimeDuration(time::Duration);

/// The error of time's conversions, carried through and never looked into.
#[verifier::external_type_specification]
#[verifier::external_body]
pub struct ExTimeConversionRange(time::error::ConversionRange);

/// The nanoseconds that a duration of time holds, below zero for a negative
/// duration, as `whole_nanoseconds` returns them. This number is all that
/// the contracts say of a duration of time.
pub uninterp spec fn time_nanos(d: time::Duration) -> int;

/// The conversion of time from its own duration to that of std. Believed,
/// not proved: it refuses the negative durations and no others, and the
/// duration of std that it gives holds the same nanoseconds.
pub assume_specification[ <Duration as TryFrom<time::Duration>>::try_from ](
    duration: time::Duration,
) -> (r: Result<Duration, time::error::ConversionRange>)
    ensures
        r is Ok <==> time_nanos(duration) >= 0,
        r matches Ok(std) ==> duration_nanos(std) == time_nanos(duration),
;

/// The conversion of time from the duration of std to its own. Believed,
/// not proved: it refuses the durations whose whole seconds are past
/// `i64::MAX` and no others, and the duration that it gives holds the same
/// nanoseconds.
pub assume_specification[ <time::Duration as TryFrom<Duration>>::try_from ](
    duration: Duration,
) -> (r: Result<time::Duration, time::error::ConversionRange>)
    ensures
        r is Ok <==> duration_nanos(duration) / 1_000_000_000 <= i64::MAX,
        r matches Ok(d) ==> time_nanos(d) == duration_nanos(duration),
;

impl HostDuration for time::Duration {
    open spec fn nanos(&self) -> int {
        time_nanos(*self)
    }

    open spec fn holds(nanos: nat) -> bool {
        nanos / 1_000_000_000 <= i64::MAX
    }

    fn to_interval(&self) -> (r: Result<PgInterval, CodecError>) {
        match Duration::try_from(*self) {
            Ok(std) => PgInterval::from_std(std),
            Err(_) => Err(out_of_range(RangeStep::HostDuration)),
        }
    }

    fn from_interval(interval: PgInterval) -> (r: Result<Self, CodecError>) {
        match interval.to_std() {
            Ok(std) => match time::Duration::try_from(std) {
                Ok(d) => Ok(d),
                Err(_) => Err(out_of_range(RangeStep::HostDuration)),
            },
            Err(e) => Err(e),
        }
    }
}

impl TryFrom<time::Duration> for PgInterval {
    type Error = CodecError;

    fn try_from(value: time::Duration) -> (r: Result<PgInterval, CodecError>) {
        value.to_interval()
    }
}

impl TryFromSpecImpl<time::Duration> for PgInterval {
    open spec fn obeys_try_from_spec() -> bool {
        true
    }

    open spec fn try_from_spec(value: time::Duration) -> Result<PgInterval, CodecError> {
        host_interval(time_nanos(value))
    }
}

impl Type for time::Duration {
    open spec fn wire_type() -> PgTypeInfo {
        PgTypeInfo::Interval
    }

    fn type_info() -> (info: PgTypeInfo) {
        PgTypeInfo::Interval
    }
}

impl Type for [time::Duration] {
    open spec fn wire_type() -> PgTypeInfo {
        PgTypeInfo::IntervalArray
    }

    fn type_info() -> (info: PgTypeInfo) {
        PgTypeInfo::IntervalArray
    }
}

impl Decode for time::Duration {
    open spec fn decodes(value: PgValueRef<'_>, r: Result<Self, CodecError>) -> bool {
        host_decodes(value, r)
    }

    fn decode(value: PgValueRef<'_>) -> (r: Result<Self, CodecError>) {
        match PgInterval::decode(value) {
            Ok(interval) => Self::from_interval(interval),
            Err(e) => Err(e),
        }
    }
}

impl Encode for time::Duration {
    open spec fn payload(&self) -> Result<Seq<u8>, CodecError> {
        host_payload(self.nanos())
    }

    fn encode_by_ref(&self, buf: &mut Vec<u8>) -> (r: Result<IsNull, CodecError>) {
        encode_converted(self.to_interval(), buf)
    }

    fn size_hint(&self) -> (n: usize)
        ensures
            n == INTERVAL_SIZE,
    {
        proof {
            lemma_host_payload_len(self.nanos());
        }
        INTERVAL_SIZE
    }
}

/// time has a duration for every interval that comes to a duration of std:
/// a conversion to time fails only where the one to std does.
pub proof fn lemma_time_holds_every_interval(interval: PgInterval, r: Result<
    time::Duration,
    CodecError,
>)
    requires
        converts(interval, r),
    ensures
        r is Ok <==> interval.std_nanos() is Ok,
{
}

} // verus!
