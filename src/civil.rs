use vstd::prelude::*;

verus! {

/// A proleptic Gregorian calendar date.
#[derive(Clone, Copy, Debug, PartialEq, Eq, Structural)]
pub struct CivilDate {
    pub year: i32,
    pub month: u32,
    pub day: u32,
}

/// A time of day, to the second, in UTC.
#[derive(Clone, Copy, Debug, PartialEq, Eq, Structural)]
pub struct TimeOfDay {
    pub hour: u32,
    pub minute: u32,
    pub second: u32,
}

/// Earliest year that the calendar library represents.
pub const MIN_YEAR: i32 = -262143;

/// Latest year that the calendar library represents.
pub const MAX_YEAR: i32 = 262142;

pub open spec fn is_leap_year(y: int) -> bool {
    (y % 4 == 0 && y % 100 != 0) || y % 400 == 0
}

pub open spec fn days_in_month(y: int, m: int) -> int {
    if m == 2 {
        if is_leap_year(y) {
            29
        } else {
            28
        }
    } else if m == 4 || m == 6 || m == 9 || m == 11 {
        30
    } else {
        31
    }
}

impl CivilDate {
    /// A real calendar date within the representable years.
    pub open spec fn wf(&self) -> bool {
        &&& MIN_YEAR <= self.year <= MAX_YEAR
        &&& 1 <= self.month <= 12
        &&& 1 <= self.day <= days_in_month(self.year as int, self.month as int)
    }
}

impl TimeOfDay {
    pub open spec fn wf(&self) -> bool {
        self.hour < 24 && self.minute < 60 && self.second < 60
    }
}

/// Days from 1970-01-01 to the given date (negative before it).
pub open spec fn days_from_civil(y: int, m: int, d: int) -> int {
    let ya = if m <= 2 {
        y - 1
    } else {
        y
    };
    let era = ya / 400;
    let yoe = ya - era * 400;
    let mp = if m > 2 {
        m - 3
    } else {
        m + 9
    };
    let doy = (153 * mp + 2) / 5 + d - 1;
    let doe = yoe * 365 + yoe / 4 - yoe / 100 + doy;
    era * 146097 + doe - 719468
}

/// Seconds since the Unix epoch, leap seconds not counted.
pub open spec fn unix_seconds(date: CivilDate, time: TimeOfDay) -> int {
    days_from_civil(date.year as int, date.month as int, date.day as int) * 86400
        + time.hour * 3600 + time.minute * 60 + time.second
}

/// The timestamp of any valid date and time is far inside the `i64` range.
pub proof fn unix_seconds_bounded(date: CivilDate, time: TimeOfDay)
    requires
        date.wf(),
        time.wf(),
    ensures
        -0x1000_0000_0000 < unix_seconds(date, time) < 0x1000_0000_0000,
{
    let y = date.year as int;
    let m = date.month as int;
    let d = date.day as int;
    let ya = if m <= 2 { y - 1 } else { y };
    let era = ya / 400;
    let yoe = ya - era * 400;
    assert(-657 <= era <= 656) by (nonlinear_arith)
        requires
            era == ya / 400,
            -262144 <= ya <= 262142,
    ;
    assert(0 <= yoe < 400);
    let mp = if m > 2 { m - 3 } else { m + 9 };
    let doy = (153 * mp + 2) / 5 + d - 1;
    assert(0 <= doy < 400) by (nonlinear_arith)
        requires
            doy == (153 * mp + 2) / 5 + d - 1,
            0 <= mp < 12,
            1 <= d <= 31,
    ;
    let doe = yoe * 365 + yoe / 4 - yoe / 100 + doy;
    assert(0 <= doe < 200000) by (nonlinear_arith)
        requires
            doe == yoe * 365 + yoe / 4 - yoe / 100 + doy,
            0 <= yoe < 400,
            0 <= doy < 400,
    ;
    let days = era * 146097 + doe - 719468;
    assert(days == days_from_civil(y, m, d));
    assert(-100_000_000 < days < 100_000_000) by (nonlinear_arith)
        requires
            days == era * 146097 + doe - 719468,
            -657 <= era <= 656,
            0 <= doe < 200000,
    ;
    assert(-0x1000_0000_0000 < days * 86400 + time.hour * 3600 + time.minute * 60 + time.second < 0x1000_0000_0000) by (nonlinear_arith)
        requires
            -100_000_000 < days < 100_000_000,
            time.hour < 24,
            time.minute < 60,
            time.second < 60,
    ;
}

/// Relies on chrono (NaiveDate::from_ymd_opt, NaiveDate::and_hms_opt,
/// Utc::from_utc_datetime, DateTime::timestamp): the number of non-leap
/// seconds since 1970-01-01 00:00:00 UTC. Both constructors succeed on a
/// valid date and time.
#[verifier::external_body]
pub(crate) fn utc_timestamp(date: &CivilDate, time: &TimeOfDay) -> (r: i64)
    requires
        date.wf(),
        time.wf(),
    ensures
        r == unix_seconds(*date, *time),
{
    let d = chrono::NaiveDate::from_ymd_opt(date.year, date.month, date.day).unwrap();
    let dt = d.and_hms_opt(time.hour, time.minute, time.second).unwrap();
    chrono::TimeZone::from_utc_datetime(&chrono::Utc, &dt).timestamp()
}

} // verus!
