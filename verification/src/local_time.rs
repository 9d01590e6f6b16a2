//! Points in time, as seen from the local time zone.

use vstd::prelude::*;

verus! {

/// The first millisecond of the calendar, counted from the Unix epoch.
pub const MIN_MILLIS: i64 = -8334601228800000;

/// The last millisecond of the calendar, counted from the Unix epoch.
pub const MAX_MILLIS: i64 = 8210266876799999;

/// Milliseconds since the Unix epoch.
#[derive(Clone, Copy, Debug)]
pub struct MillisSinceEpoch(pub i64);

/// When something was recorded.
#[derive(Clone, Copy, Debug)]
pub struct Timestamp {
    pub timestamp: MillisSinceEpoch,
    /// Offset of the recorder's time zone from UTC, in minutes.
    pub tz_offset: i32,
}

impl Timestamp {
    /// Whether the calendar reaches to this point in time.
    pub open spec fn in_calendar(self) -> bool {
        MIN_MILLIS <= self.timestamp.0 <= MAX_MILLIS
    }
}

/// A point in time, with the local offset from UTC that is in effect then.
#[derive(Clone, Copy, Debug)]
pub struct LocalTime {
    /// Whole seconds since the Unix epoch.
    pub secs: i64,
    /// Nanoseconds past the second.
    pub nanos: u32,
    /// Seconds that the local clock is ahead of UTC.
    pub utc_offset: i32,
}

impl LocalTime {
    /// The offset from UTC is less than a day.
    pub open spec fn has_valid_offset(self) -> bool {
        -86400 < self.utc_offset < 86400
    }

    /// This is the point in time `millis` milliseconds after the Unix epoch.
    pub open spec fn is_at(self, millis: i64) -> bool {
        &&& self.secs == millis as int / 1000
        &&& self.nanos == (millis as int % 1000) * 1000000
    }

    /// This is a reading of the machine's clock, with the local offset.
    pub closed spec fn is_clock_reading(self) -> bool {
        call_ensures(local_now, (), self)
    }

    /// This is what the machine gives as the local time `millis` milliseconds after the
    /// Unix epoch.
    pub closed spec fn is_local_time_at(self, millis: i64) -> bool {
        call_ensures(local_time_at, (millis,), self)
    }
}

/// A reading of the clock is what the clock gave, and a local time is what the time zone
/// makes of it.
pub(crate) proof fn law_times_are_the_machines(now: LocalTime, millis: i64)
    ensures
        now.is_clock_reading() <==> call_ensures(local_now, (), now),
        now.is_local_time_at(millis) <==> call_ensures(local_time_at, (millis,), now),
{
}

/// A reading of the clock is a time of day.
pub proof fn law_clock_readings_are_times(now: LocalTime)
    requires
        now.is_clock_reading(),
    ensures
        now.nanos < 1000000000,
        -86400 < now.utc_offset < 86400,
{
}

/// Local times keep to the point in time that was asked for, to the millisecond.
pub proof fn law_local_times_keep_the_instant(now: LocalTime, millis: i64)
    requires
        now.is_local_time_at(millis),
    ensures
        now.secs * 1000 + now.nanos / 1000000 == millis,
        now.nanos % 1000000 == 0,
        now.nanos < 1000000000,
        -86400 < now.utc_offset < 86400,
{
}

/// `chrono::TimeZone::timestamp_millis_opt` of `chrono::Local`: the point in time that
/// many milliseconds after the Unix epoch. Every millisecond of the calendar gives
/// exactly one. The offset from UTC is the machine's to say; it is less than a day.
#[verifier::external_body]
pub(crate) fn local_time_at(millis: i64) -> (r: LocalTime)
    requires
        MIN_MILLIS <= millis <= MAX_MILLIS,
    ensures
        r.is_at(millis),
        r.has_valid_offset(),
{
    let t = chrono::TimeZone::timestamp_millis_opt(&chrono::Local, millis).unwrap();
    LocalTime {
        secs: t.timestamp(),
        nanos: t.timestamp_subsec_nanos(),
        utc_offset: t.offset().local_minus_utc(),
    }
}

/// `chrono::Local::now`: the current time. The machine's clock and time zone decide;
/// it is not within a leap second, and the offset from UTC is less than a day.
#[verifier::external_body]
pub(crate) fn local_now() -> (r: LocalTime)
    ensures
        r.nanos < 1000000000,
        r.has_valid_offset(),
{
    let t = chrono::Local::now();
    LocalTime {
        secs: t.timestamp(),
        nanos: t.timestamp_subsec_nanos(),
        utc_offset: t.offset().local_minus_utc(),
    }
}

} // verus!
