//! Why a value could not be decoded, encoded or converted.

use crate::type_info::PgTypeInfo;
use vstd::prelude::*;

verus! {

/// A part of a fixed wire layout.
#[derive(Clone, Copy, Debug, PartialEq, Eq, Structural)]
pub enum WireField {
    /// The microseconds of an interval.
    Microseconds,
    /// The days of an interval.
    Days,
    /// The months of an interval.
    Months,
    /// The marker byte before the first coordinate of a point.
    OpenMarker,
    /// The first coordinate of a point.
    X,
    /// The marker byte between the coordinates of a point.
    Separator,
    /// The second coordinate of a point.
    Y,
    /// The marker byte after the second coordinate of a point.
    CloseMarker,
}

/// The step of a duration conversion at which a number left its range.
#[derive(Clone, Copy, Debug, PartialEq, Eq, Structural)]
pub enum RangeStep {
    /// The duration's microseconds do not fit into 64 signed bits.
    Microseconds,
    /// The months are negative.
    Months,
    /// The months, in seconds, do not fit into 64 unsigned bits.
    MonthsToSeconds,
    /// The days are negative.
    Days,
    /// The days, in seconds, do not fit into 64 unsigned bits.
    DaysToSeconds,
    /// The seconds of months and days together do not fit.
    MonthsPlusDays,
    /// The whole seconds of the microseconds are negative.
    WholeSeconds,
    /// The seconds of months, days and microseconds together do not fit.
    TotalSeconds,
    /// The microseconds past the whole seconds are negative.
    Nanoseconds,
    /// The host duration type cannot give or take the value.
    HostDuration,
}

/// Why a value could not be decoded, encoded or converted.
#[derive(Clone, Copy, Debug, PartialEq, Eq, Structural)]
pub enum CodecError {
    /// The value came in a format in which the wire type is not decoded.
    FormatUnsupported { wire_type: PgTypeInfo },
    /// The duration has a part below one microsecond.
    PrecisionLoss,
    /// A number left its range at `step`.
    RangeOverflow { step: RangeStep },
    /// The payload has `actual` bytes, the layout `expected`, and `field` is
    /// the first that is not whole.
    ShortBuffer { field: WireField, expected: usize, actual: usize },
}

} // verus!
