//! The wire type catalog: which wire type carries each host type, and which
//! host type stands for each wire type.

use crate::interval::PgInterval;
use std::time::Duration;
use vstd::prelude::*;

verus! {

/// A wire type of the server: an object identifier and a display name.
#[derive(Clone, Copy, Debug, PartialEq, Eq, Structural)]
pub enum PgTypeInfo {
    /// A point in the plane.
    Point,
    /// A calendar duration.
    Interval,
    /// A one-dimensional array of calendar durations.
    IntervalArray,
}

/// The object identifier of the `point` type.
pub const POINT_OID: u32 = 600;

/// The object identifier of the `interval` type.
pub const INTERVAL_OID: u32 = 1186;

/// The object identifier of the `interval[]` type.
pub const INTERVAL_ARRAY_OID: u32 = 1187;

impl PgTypeInfo {
    /// The object identifier under which the server knows the type.
    pub open spec fn spec_oid(self) -> u32 {
        match self {
            PgTypeInfo::Point => POINT_OID,
            PgTypeInfo::Interval => INTERVAL_OID,
            PgTypeInfo::IntervalArray => INTERVAL_ARRAY_OID,
        }
    }

    /// The name under which the type is shown.
    pub open spec fn spec_name(self) -> Seq<char> {
        match self {
            PgTypeInfo::Point => "POINT"@,
            PgTypeInfo::Interval => "INTERVAL"@,
            PgTypeInfo::IntervalArray => "INTERVAL[]"@,
        }
    }

    /// The name of the host type that a value of the wire type decodes to.
    pub open spec fn spec_host_type(self) -> Seq<char> {
        match self {
            PgTypeInfo::Point => "PgPoint"@,
            PgTypeInfo::Interval => "PgInterval"@,
            PgTypeInfo::IntervalArray => "Vec<PgInterval>"@,
        }
    }

    /// The wire type that the catalog lists under `oid`, if it lists one.
    pub open spec fn spec_from_oid(oid: u32) -> Option<PgTypeInfo> {
        if oid == POINT_OID {
            Some(PgTypeInfo::Point)
        } else if oid == INTERVAL_OID {
            Some(PgTypeInfo::Interval)
        } else if oid == INTERVAL_ARRAY_OID {
            Some(PgTypeInfo::IntervalArray)
        } else {
            None
        }
    }

    /// The object identifier under which the server knows the type.
    #[verifier::when_used_as_spec(spec_oid)]
    pub fn oid(self) -> (oid: u32)
        ensures
            oid == self.spec_oid(),
    {
        match self {
            PgTypeInfo::Point => POINT_OID,
            PgTypeInfo::Interval => INTERVAL_OID,
            PgTypeInfo::IntervalArray => INTERVAL_ARRAY_OID,
        }
    }

    /// The name under which the type is shown.
    pub fn name(self) -> (name: &'static str)
        ensures
            name@ == self.spec_name(),
    {
        match self {
            PgTypeInfo::Point => "POINT",
            PgTypeInfo::Interval => "INTERVAL",
            PgTypeInfo::IntervalArray => "INTERVAL[]",
        }
    }

    /// The name of the host type that a value of the wire type decodes to.
    pub fn host_type(self) -> (name: &'static str)
        ensures
            name@ == self.spec_host_type(),
    {
        match self {
            PgTypeInfo::Point => "PgPoint",
            PgTypeInfo::Interval => "PgInterval",
            PgTypeInfo::IntervalArray => "Vec<PgInterval>",
        }
    }

    /// The wire type that the catalog lists under `oid`, if it lists one.
    pub fn from_oid(oid: u32) -> (info: Option<PgTypeInfo>)
        ensures
            info == Self::spec_from_oid(oid),
    {
        if oid == POINT_OID {
            Some(PgTypeInfo::Point)
        } else if oid == INTERVAL_OID {
            Some(PgTypeInfo::Interval)
        } else if oid == INTERVAL_ARRAY_OID {
            Some(PgTypeInfo::IntervalArray)
        } else {
            None
        }
    }
}

/// A host type that has a wire type.
pub trait Type {
    /// The wire type that carries values of the host type.
    spec fn wire_type() -> PgTypeInfo;

    /// The wire type that carries values of the host type.
    fn type_info() -> (info: PgTypeInfo)
        ensures
            info == Self::wire_type(),
    ;
}

/// Every wire type of the catalog is found again under its own identifier,
/// so no two wire types share one.
pub proof fn lemma_oid_identifies(info: PgTypeInfo)
    ensures
        PgTypeInfo::spec_from_oid(info.spec_oid()) == Some(info),
{
}

/// An identifier that the catalog lists belongs to the wire type listed.
pub proof fn lemma_from_oid_sound(oid: u32)
    ensures
        PgTypeInfo::spec_from_oid(oid) matches Some(info) ==> info.spec_oid() == oid,
{
}

/// The wire type of a duration does not depend on the host type that holds
/// it: every host duration goes as an interval, and every sequence of host
/// durations as an interval array.
pub proof fn lemma_durations_share_wire_types()
    ensures
        <PgInterval as Type>::wire_type() == PgTypeInfo::Interval,
        <Duration as Type>::wire_type() == PgTypeInfo::Interval,
        <chrono::Duration as Type>::wire_type() == PgTypeInfo::Interval,
        <time::Duration as Type>::wire_type() == PgTypeInfo::Interval,
        <[PgInterval] as Type>::wire_type() == PgTypeInfo::IntervalArray,
        <[Duration] as Type>::wire_type() == PgTypeInfo::IntervalArray,
        <[chrono::Duration] as Type>::wire_type() == PgTypeInfo::IntervalArray,
        <[time::Duration] as Type>::wire_type() == PgTypeInfo::IntervalArray,
{
}

} // verus!
