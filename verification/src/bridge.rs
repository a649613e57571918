//! The bridge between intervals and host durations: one policy for every
//! host duration type, and the adapter for the duration of std.
//!
//! The policy counts a day as 86 400 seconds and a month as thirty days.
//! That is a fixed approximation, not the calendar's month.

use crate::codec::Encode;
use crate::codec::IsNull;
use crate::codec::PgValueRef;
use crate::error::CodecError;
use crate::error::RangeStep;
use crate::interval::lemma_wire_bytes_len;
use crate::interval::PgInterval;
use crate::interval::INTERVAL_SIZE;
use crate::type_info::PgTypeInfo;
use crate::type_info::Type;
use std::time::Duration;
use vstd::prelude::*;
use vstd::std_specs::convert::TryFromSpecImpl;

verus! {

/// The seconds of a day.
pub const SECONDS_PER_DAY: u64 = 86_400;

/// The days that a month counts for.
pub const DAYS_PER_MONTH: u64 = 30;

/// The seconds that a month counts for: thirty days.
pub const SECONDS_PER_MONTH: u64 = 2_592_000;

/// The microseconds of a second.
pub const MICROS_PER_SECOND: i64 = 1_000_000;

/// The nanoseconds of a microsecond.
pub const NANOS_PER_MICRO: i64 = 1_000;

/// The nanoseconds of a second.
pub const NANOS_PER_SECOND: u64 = 1_000_000_000;

/// The range error of `step`.
pub open spec fn overflow(step: RangeStep) -> CodecError {
    CodecError::RangeOverflow { step }
}

/// The range error of `step`.
pub(crate) fn out_of_range(step: RangeStep) -> (error: CodecError)
    ensures
        error == overflow(step),
{
    CodecError::RangeOverflow { step }
}

/// The interval that stands for a duration of `nanos` nanoseconds: no
/// months, no days, and the duration's microseconds. A duration with a part
/// below one microsecond has none, nor has one whose microseconds do not fit
/// into 64 signed bits.
pub open spec fn interval_of_nanos(nanos: nat) -> Result<PgInterval, CodecError> {
    if nanos % 1_000 != 0 {
        Err(CodecError::PrecisionLoss)
    } else if nanos / 1_000 > i64::MAX {
        Err(overflow(RangeStep::Microseconds))
    } else {
        Ok(PgInterval { months: 0, days: 0, microseconds: (nanos / 1_000) as i64 })
    }
}

/// The interval that stands for a host duration of `nanos` nanoseconds,
/// which may be negative. The host types go through the duration of std,
/// which has no negative values.
pub open spec fn host_interval(nanos: int) -> Result<PgInterval, CodecError> {
    if nanos < 0 {
        Err(overflow(RangeStep::HostDuration))
    } else {
        interval_of_nanos(nanos as nat)
    }
}

impl PgInterval {
    /// The whole seconds that the interval comes to, and the nanoseconds
    /// past them; or the first step of the conversion that leaves its range.
    /// Only a negative field stops the conversion: no product or sum of it
    /// can leave 64 unsigned bits.
    pub open spec fn std_parts(self) -> Result<(u64, u32), CodecError> {
        if self.months < 0 {
            Err(overflow(RangeStep::Months))
        } else if self.days < 0 {
            Err(overflow(RangeStep::Days))
        } else if self.microseconds <= -MICROS_PER_SECOND {
            Err(overflow(RangeStep::WholeSeconds))
        } else if self.microseconds < 0 {
            Err(overflow(RangeStep::Nanoseconds))
        } else {
            Ok(
                (
                    (self.months * SECONDS_PER_MONTH + self.days * SECONDS_PER_DAY
                        + self.microseconds / MICROS_PER_SECOND) as u64,
                    ((self.microseconds % MICROS_PER_SECOND) * NANOS_PER_MICRO) as u32,
                ),
            )
        }
    }

    /// The nanoseconds that the interval comes to, where `std_parts` has a
    /// value.
    pub open spec fn std_nanos(self) -> Result<nat, CodecError> {
        match self.std_parts() {
            Ok((secs, nanos)) => Ok((secs * NANOS_PER_SECOND + nanos) as nat),
            Err(e) => Err(e),
        }
    }

    /// The interval for a duration of `nanos` nanoseconds.
    pub fn from_nanos(nanos: u128) -> (r: Result<PgInterval, CodecError>)
        ensures
            r == interval_of_nanos(nanos as nat),
    {
        if nanos % 1_000 != 0 {
            return Err(CodecError::PrecisionLoss);
        }
        match i64::try_from(nanos / 1_000) {
            Ok(microseconds) => Ok(PgInterval { months: 0, days: 0, microseconds }),
            Err(_) => Err(out_of_range(RangeStep::Microseconds)),
        }
    }

    /// The seconds and nanoseconds of the interval, each step of the sum
    /// checked.
    pub fn to_std_parts(self) -> (r: Result<(u64, u32), CodecError>)
        ensures
            r == self.std_parts(),
    {
        let months = match u64::try_from(self.months) {
            Ok(months) => months,
            Err(_) => {
                return Err(out_of_range(RangeStep::Months));
            },
        };
        let month_seconds = match months.checked_mul(SECONDS_PER_MONTH) {
            Some(seconds) => seconds,
            None => {
                return Err(out_of_range(RangeStep::MonthsToSeconds));
            },
        };
        let days = match u64::try_from(self.days) {
            Ok(days) => days,
            Err(_) => {
                return Err(out_of_range(RangeStep::Days));
            },
        };
        let day_seconds = match days.checked_mul(SECONDS_PER_DAY) {
            Some(seconds) => seconds,
            None => {
                return Err(out_of_range(RangeStep::DaysToSeconds));
            },
        };
        let calendar_seconds = match month_seconds.checked_add(day_seconds) {
            Some(seconds) => seconds,
            None => {
                return Err(out_of_range(RangeStep::MonthsPlusDays));
            },
        };
        let whole_seconds = match u64::try_from(self.microseconds / MICROS_PER_SECOND) {
            Ok(seconds) => seconds,
            Err(_) => {
                return Err(out_of_range(RangeStep::WholeSeconds));
            },
        };
        let seconds = match calendar_seconds.checked_add(whole_seconds) {
            Some(seconds) => seconds,
            None => {
                return Err(out_of_range(RangeStep::TotalSeconds));
            },
        };
        let nanos = match u32::try_from((self.microseconds % MICROS_PER_SECOND) * NANOS_PER_MICRO) {
            Ok(nanos) => nanos,
            Err(_) => {
                return Err(out_of_range(RangeStep::Nanoseconds));
            },
        };
        Ok((seconds, nanos))
    }

    /// The interval for a duration of std.
    pub fn from_std(value: Duration) -> (r: Result<PgInterval, CodecError>)
        ensures
            r == interval_of_nanos(duration_nanos(value)),
    {
        Self::from_nanos(value.as_nanos())
    }

    /// The duration of std that the interval comes to.
    pub fn to_std(self) -> (r: Result<Duration, CodecError>)
        ensures
            match self.std_nanos() {
                Ok(nanos) => r matches Ok(d) && duration_nanos(d) == nanos,
                Err(e) => r matches Err(x) && x == e,
            },
    {
        match self.to_std_parts() {
            Ok((seconds, nanos)) => Ok(Duration::new(seconds, nanos)),
            Err(e) => Err(e),
        }
    }
}

/// The nanoseconds that a duration of std holds, as `Duration::as_nanos`
/// returns them. A duration is opaque to the verifier; this number is all
/// that the contracts say of one.
pub uninterp spec fn duration_nanos(d: Duration) -> nat;

/// `Duration::as_nanos` of std. Believed, not proved: it returns the total
/// of the duration's nanoseconds.
pub assume_specification[ Duration::as_nanos ](d: &Duration) -> (nanos: u128)
    ensures
        nanos == duration_nanos(*d),
;

/// `Duration::new` of std. Believed, not proved: the duration holds the
/// seconds and the nanoseconds together. std panics where the whole seconds
/// among the nanoseconds carry the seconds past 64 bits; the condition
/// leaves that out.
pub assume_specification[ Duration::new ](secs: u64, nanos: u32) -> (d: Duration)
    requires
        secs + nanos / 1_000_000_000 <= u64::MAX,
    ensures
        duration_nanos(d) == secs * 1_000_000_000 + nanos,
;

/// A host duration type, with its two conversions.
pub trait HostDuration: Sized {
    /// The nanoseconds that the duration holds; negative where the type has
    /// negative durations.
    spec fn nanos(&self) -> int;

    /// Whether the type has a duration of `nanos` nanoseconds.
    spec fn holds(nanos: nat) -> bool;

    /// The interval that stands for the duration.
    fn to_interval(&self) -> (r: Result<PgInterval, CodecError>)
        ensures
            r == host_interval(self.nanos()),
    ;

    /// The duration that the interval comes to: one of the interval's
    /// nanoseconds where the type has one, else the error of the step that
    /// left its range.
    fn from_interval(interval: PgInterval) -> (r: Result<Self, CodecError>)
        ensures
            match interval.std_nanos() {
                Ok(nanos) => if Self::holds(nanos) {
                    r matches Ok(d) && d.nanos() == nanos
                } else {
                    r matches Err(x) && x == overflow(RangeStep::HostDuration)
                },
                Err(e) => r matches Err(x) && x == e,
            },
    ;
}

/// Whether `r` is what `from_interval` of the host type `D` gives for
/// `interval`.
pub open spec fn converts<D: HostDuration>(interval: PgInterval, r: Result<D, CodecError>) -> bool {
    match interval.std_nanos() {
        Ok(nanos) => if D::holds(nanos) {
            r matches Ok(d) && d.nanos() == nanos
        } else {
            r matches Err(x) && x == overflow(RangeStep::HostDuration)
        },
        Err(e) => r matches Err(x) && x == e,
    }
}

/// Whether `r` is what decoding `value` as the host type `D` gives: the
/// interval's decoding error, or what converting the interval gives.
pub open spec fn host_decodes<D: HostDuration>(value: PgValueRef<'_>, r: Result<D, CodecError>) -> bool {
    match PgInterval::decoded(value.format, value.bytes@) {
        Ok(interval) => converts(interval, r),
        Err(e) => r matches Err(x) && x == e,
    }
}

impl HostDuration for Duration {
    open spec fn nanos(&self) -> int {
        duration_nanos(*self) as int
    }

    open spec fn holds(nanos: nat) -> bool {
        true
    }

    fn to_interval(&self) -> (r: Result<PgInterval, CodecError>) {
        PgInterval::from_std(*self)
    }

    fn from_interval(interval: PgInterval) -> (r: Result<Self, CodecError>) {
        interval.to_std()
    }
}

impl TryFrom<Duration> for PgInterval {
    type Error = CodecError;

    fn try_from(value: Duration) -> (r: Result<PgInterval, CodecError>) {
        PgInterval::from_std(value)
    }
}

impl TryFromSpecImpl<Duration> for PgInterval {
    open spec fn obeys_try_from_spec() -> bool {
        true
    }

    open spec fn try_from_spec(value: Duration) -> Result<PgInterval, CodecError> {
        interval_of_nanos(duration_nanos(value))
    }
}

impl Type for Duration {
    open spec fn wire_type() -> PgTypeInfo {
        PgTypeInfo::Interval
    }

    fn type_info() -> (info: PgTypeInfo) {
        PgTypeInfo::Interval
    }
}

impl Type for [Duration] {
    open spec fn wire_type() -> PgTypeInfo {
        PgTypeInfo::IntervalArray
    }

    fn type_info() -> (info: PgTypeInfo) {
        PgTypeInfo::IntervalArray
    }
}

/// The payload of a host duration of `nanos` nanoseconds: that of its
/// interval.
pub open spec fn host_payload(nanos: int) -> Result<Seq<u8>, CodecError> {
    match host_interval(nanos) {
        Ok(interval) => Ok(interval.wire_bytes()),
        Err(e) => Err(e),
    }
}

/// Appends to `buf` the payload of the interval that a host duration gave,
/// or hands on why it gave none.
pub fn encode_converted(converted: Result<PgInterval, CodecError>, buf: &mut Vec<u8>) -> (r: Result<
    IsNull,
    CodecError,
>)
    ensures
        match converted {
            Ok(interval) => r == Ok::<IsNull, CodecError>(IsNull::No) && final(buf)@ == old(buf)@
                + interval.wire_bytes(),
            Err(e) => r == Err::<IsNull, CodecError>(e) && final(buf)@ == old(buf)@,
        },
{
    match converted {
        Ok(interval) => interval.encode_by_ref(buf),
        Err(e) => Err(e),
    }
}

impl Encode for Duration {
    open spec fn payload(&self) -> Result<Seq<u8>, CodecError> {
        host_payload(self.nanos())
    }

    fn encode_by_ref(&self, buf: &mut Vec<u8>) -> (r: Result<IsNull, CodecError>) {
        encode_converted(self.to_interval(), buf)
    }

    fn size_hint(&self) -> (n: usize)
        ensures
            n == INTERVAL_SIZE,
    {
        proof {
            lemma_host_payload_len(self.nanos());
        }
        INTERVAL_SIZE
    }
}

/// A host duration that has a payload has one of sixteen bytes.
pub proof fn lemma_host_payload_len(nanos: int)
    ensures
        host_payload(nanos) matches Ok(bytes) ==> bytes.len() == INTERVAL_SIZE,
{
    if let Ok(interval) = host_interval(nanos) {
        lemma_wire_bytes_len(interval);
    }
}

/// A month counts for thirty days of 86 400 seconds.
pub proof fn lemma_month_is_thirty_days()
    ensures
        SECONDS_PER_MONTH == DAYS_PER_MONTH * SECONDS_PER_DAY,
        SECONDS_PER_DAY == 24 * 60 * 60,
{
}

/// A host duration of whole microseconds goes to an interval and comes
/// back as it was: the interval comes to the nanoseconds of the duration,
/// and whatever converts the interval to the host type gives a duration of
/// those nanoseconds. This holds of the durations that have an interval:
/// those that are not negative and whose microseconds fit into 64 signed
/// bits.
pub proof fn lemma_round_trip<D: HostDuration>(d: D)
    requires
        D::holds(d.nanos() as nat),
        d.nanos() >= 0,
        d.nanos() % 1_000 == 0,
        d.nanos() / 1_000 <= i64::MAX,
    ensures
        host_interval(d.nanos()) matches Ok(interval) && interval.std_nanos() == Ok::<
            nat,
            CodecError,
        >(d.nanos() as nat) && (forall|back: Result<D, CodecError>| #[trigger]
            converts(interval, back) ==> (back matches Ok(same) && same.nanos() == d.nanos())),
{
}

/// No interval comes to more than 5 761 043 572 161 654 whole seconds, so
/// no product or sum of the conversion leaves 64 unsigned bits.
pub proof fn lemma_std_parts_bound(interval: PgInterval)
    ensures
        interval.std_parts() matches Ok((secs, nanos)) ==> secs <= 5_761_043_572_161_654 && nanos
            <= 999_999_000,
{
}

/// A duration that is not negative and has a part below one microsecond
/// has no interval: the conversion fails for want of precision and never
/// rounds.
pub proof fn lemma_precision_loss<D: HostDuration>(d: D)
    requires
        d.nanos() >= 0,
        d.nanos() % 1_000 != 0,
    ensures
        host_interval(d.nanos()) == Err::<PgInterval, CodecError>(CodecError::PrecisionLoss),
{
}

/// An interval converts to a duration exactly when none of its fields is
/// negative. The conversion checks every product and sum, and none of them
/// is ever the step that fails.
pub proof fn lemma_to_std_succeeds(interval: PgInterval)
    ensures
        interval.std_parts() is Ok <==> interval.months >= 0 && interval.days >= 0
            && interval.microseconds >= 0,
        interval.std_parts() matches Ok((secs, nanos)) ==> nanos < NANOS_PER_SECOND,
        interval.std_parts() matches Err(e) ==> e == overflow(RangeStep::Months) || e == overflow(
            RangeStep::Days,
        ) || e == overflow(RangeStep::WholeSeconds) || e == overflow(RangeStep::Nanoseconds),
{
}

} // verus!
