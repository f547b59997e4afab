//! Calendar instants: a proleptic-Gregorian civil date, a time of day,
//! and a fixed UTC offset, all held as plain integers.
//!
//! The date is stored as a day count since 1970-01-01, computed by the
//! standard civil-calendar formulas, so that astronomical code can work
//! in whole seconds without consulting a calendar again.

use vstd::prelude::*;
use crate::domain::ValidationError;

verus! {

/// Gregorian leap-year rule.
pub open spec fn spec_is_leap_year(y: int) -> bool {
    y % 4 == 0 && (y % 100 != 0 || y % 400 == 0)
}

/// Days in a month of the proleptic Gregorian calendar.
pub open spec fn spec_days_in_month(y: int, m: int) -> int {
    if m == 2 {
        if spec_is_leap_year(y) {
            29
        } else {
            28
        }
    } else if m == 4 || m == 6 || m == 9 || m == 11 {
        30
    } else {
        31
    }
}

/// Day count since 1970-01-01 of a civil date (valid for year >= 1).
pub open spec fn spec_days_from_civil(y: int, m: int, d: int) -> int {
    let yy = if m <= 2 {
        y - 1
    } else {
        y
    };
    let era = yy / 400;
    let yoe = yy - era * 400;
    let mp = if m > 2 {
        m - 3
    } else {
        m + 9
    };
    let doy = (153 * mp + 2) / 5 + d - 1;
    let doe = yoe * 365 + yoe / 4 - yoe / 100 + doy;
    era * 146097 + doe - 719468
}

/// The civil date (year, month, day) of a day count since 1970-01-01
/// (valid for dates of year >= 1, where the day count stays above
/// -719469).
pub open spec fn spec_civil_from_days(z0: int) -> (int, int, int) {
    let z = z0 + 719468;
    let era = z / 146097;
    let doe = z - era * 146097;
    let yoe = (doe - doe / 1460 + doe / 36524 - doe / 146096) / 365;
    let y0 = yoe + era * 400;
    let doy = doe - (365 * yoe + yoe / 4 - yoe / 100);
    let mp = (5 * doy + 2) / 153;
    let d = doy - (153 * mp + 2) / 5 + 1;
    let m = if mp < 10 {
        mp + 3
    } else {
        mp - 9
    };
    let y = if m <= 2 {
        y0 + 1
    } else {
        y0
    };
    (y, m, d)
}

/// A calendar date with a time of day and a fixed UTC offset.
///
/// `days` counts civil days since 1970-01-01 in the instant's own
/// offset; `second` is the clock time as seconds since local midnight;
/// `offset` is seconds east of UTC.
#[derive(Clone, Copy, Debug, PartialEq, Eq, Structural)]
pub struct Instant {
    days: i64,
    second: i64,
    offset: i64,
}

impl Instant {
    /// Spec-level constructor, so that contracts can name the exact
    /// instant a computation produces (meaningful when the components
    /// are within `wf` bounds).
    pub closed spec fn spec_make(days: int, second: int, offset: int) -> Instant {
        Instant { days: days as i64, second: second as i64, offset: offset as i64 }
    }

    pub closed spec fn spec_days(&self) -> int {
        self.days as int
    }

    pub closed spec fn spec_second_of_day(&self) -> int {
        self.second as int
    }

    pub closed spec fn spec_offset_seconds(&self) -> int {
        self.offset as int
    }

    /// Seconds since the epoch 1970-01-01T00:00:00 UTC.
    pub open spec fn spec_utc_seconds(&self) -> int {
        self.spec_days() * 86400 + self.spec_second_of_day() - self.spec_offset_seconds()
    }

    /// Field bounds: the date stays within years 1 to 9999 (with one
    /// day of slack on either side, since a resolved event time may
    /// spill across midnight), the time of day is a valid second, and
    /// the offset is less than a day in magnitude.
    pub open spec fn wf(&self) -> bool {
        &&& -719468 <= self.spec_days() <= 2933000
        &&& 0 <= self.spec_second_of_day() < 86400
        &&& -86400 < self.spec_offset_seconds() < 86400
    }

    /// Build an instant from a civil date, clock time and UTC offset.
    /// Succeeds exactly when every component is within its range and
    /// the day exists in that month; the error names the first range
    /// violated and the offending value.
    pub fn new(
        year: i64,
        month: i64,
        day: i64,
        hour: i64,
        minute: i64,
        second: i64,
        utc_offset_seconds: i64,
    ) -> (r: Result<Instant, ValidationError>)
        ensures
            r is Ok <==> (1 <= year <= 9999 && 1 <= month <= 12 && 1 <= day
                <= spec_days_in_month(year as int, month as int) && 0 <= hour <= 23 && 0 <= minute
                <= 59 && 0 <= second <= 59 && -86399 <= utc_offset_seconds <= 86399),
            r matches Ok(i) ==> {
                &&& i.spec_days() == spec_days_from_civil(year as int, month as int, day as int)
                &&& i.spec_second_of_day() == hour * 3600 + minute * 60 + second
                &&& i.spec_offset_seconds() == utc_offset_seconds as int
                &&& i.wf()
            },
    {
        if !(1 <= year && year <= 9999) {
            return Err(ValidationError { expected_min: 1, expected_max: 9999, found: year });
        }
        if !(1 <= month && month <= 12) {
            return Err(ValidationError { expected_min: 1, expected_max: 12, found: month });
        }
        let dim = days_in_month(year, month);
        if !(1 <= day && day <= dim) {
            return Err(ValidationError { expected_min: 1, expected_max: dim, found: day });
        }
        if !(0 <= hour && hour <= 23) {
            return Err(ValidationError { expected_min: 0, expected_max: 23, found: hour });
        }
        if !(0 <= minute && minute <= 59) {
            return Err(ValidationError { expected_min: 0, expected_max: 59, found: minute });
        }
        if !(0 <= second && second <= 59) {
            return Err(ValidationError { expected_min: 0, expected_max: 59, found: second });
        }
        if !(-86399 <= utc_offset_seconds && utc_offset_seconds <= 86399) {
            return Err(
                ValidationError {
                    expected_min: -86399,
                    expected_max: 86399,
                    found: utc_offset_seconds,
                },
            );
        }
        let days = days_from_civil(year, month, day);
        Ok(
            Instant {
                days,
                second: hour * 3600 + minute * 60 + second,
                offset: utc_offset_seconds,
            },
        )
    }

    /// Internal constructor from a raw day count and second (used when
    /// a computed event time is normalised into a day).
    pub(crate) fn from_parts(days: i64, second: i64, offset: i64) -> (r: Instant)
        requires
            -719468 <= days <= 2933000,
            0 <= second < 86400,
            -86400 < offset < 86400,
        ensures
            r == Instant::spec_make(days as int, second as int, offset as int),
            r.spec_days() == days as int,
            r.spec_second_of_day() == second as int,
            r.spec_offset_seconds() == offset as int,
            r.wf(),
    {
        Instant { days, second, offset }
    }

    pub fn days(&self) -> (r: i64)
        ensures
            r as int == self.spec_days(),
    {
        self.days
    }

    pub fn second_of_day(&self) -> (r: i64)
        ensures
            r as int == self.spec_second_of_day(),
    {
        self.second
    }

    pub fn offset_seconds(&self) -> (r: i64)
        ensures
            r as int == self.spec_offset_seconds(),
    {
        self.offset
    }

    /// The civil date (year, month, day) of this instant.
    pub fn ymd(&self) -> (r: (i64, i64, i64))
        requires
            self.wf(),
        ensures
            (r.0 as int, r.1 as int, r.2 as int) == spec_civil_from_days(self.spec_days()),
    {
        civil_from_days(self.days)
    }
}

/// Leap-year test, exactly the Gregorian rule.
pub fn is_leap_year(y: i64) -> (r: bool)
    requires
        0 <= y,
    ensures
        r == spec_is_leap_year(y as int),
{
    y % 4 == 0 && (y % 100 != 0 || y % 400 == 0)
}

/// Days in a month, matching `spec_days_in_month`.
pub fn days_in_month(y: i64, m: i64) -> (r: i64)
    requires
        0 <= y,
        1 <= m <= 12,
    ensures
        r as int == spec_days_in_month(y as int, m as int),
{
    if m == 2 {
        if is_leap_year(y) {
            29
        } else {
            28
        }
    } else if m == 4 || m == 6 || m == 9 || m == 11 {
        30
    } else {
        31
    }
}

/// Day count since 1970-01-01 of a civil date.
pub fn days_from_civil(y: i64, m: i64, d: i64) -> (r: i64)
    requires
        1 <= y <= 9999,
        1 <= m <= 12,
        1 <= d <= 31,
    ensures
        r as int == spec_days_from_civil(y as int, m as int, d as int),
        -719468 <= r <= 2932965,
{
    let yy: i64 = if m <= 2 {
        y - 1
    } else {
        y
    };
    let era: i64 = ((yy as u64) / 400) as i64;
    let yoe: i64 = yy - era * 400;
    let mp: i64 = if m > 2 {
        m - 3
    } else {
        m + 9
    };
    let doy: i64 = (((153 * mp + 2) as u64) / 5) as i64 + d - 1;
    let doe: i64 = yoe * 365 + ((yoe as u64) / 4) as i64 - ((yoe as u64) / 100) as i64 + doy;
    proof {
        assert(0 <= yy as int / 400 <= 24) by (nonlinear_arith)
            requires
                0 <= yy <= 9999,
        ;
        assert(0 <= yoe as int / 4 <= 100) by (nonlinear_arith)
            requires
                0 <= yoe <= 399,
        ;
        assert(0 <= yoe as int / 100 <= 4) by (nonlinear_arith)
            requires
                0 <= yoe <= 399,
        ;
        assert(0 <= (153 * mp as int + 2) / 5 <= 340) by (nonlinear_arith)
            requires
                0 <= mp <= 11,
        ;
    }
    era * 146097 + doe - 719468
}

/// The civil date of a day count since 1970-01-01.
pub fn civil_from_days(z0: i64) -> (r: (i64, i64, i64))
    requires
        -719468 <= z0 <= 2933000,
    ensures
        (r.0 as int, r.1 as int, r.2 as int) == spec_civil_from_days(z0 as int),
{
    let z: i64 = z0 + 719468;
    let era: i64 = ((z as u64) / 146097) as i64;
    proof {
        assert(0 <= z as int / 146097 <= 25) by (nonlinear_arith)
            requires
                0 <= z <= 3652468,
        ;
        assert(z as int / 146097 * 146097 <= z as int && z as int - z as int / 146097 * 146097
            < 146097) by (nonlinear_arith)
            requires
                0 <= z,
        ;
    }
    let doe: i64 = z - era * 146097;
    let t1: i64 = ((doe as u64) / 1460) as i64;
    let t2: i64 = ((doe as u64) / 36524) as i64;
    let t3: i64 = ((doe as u64) / 146096) as i64;
    proof {
        assert(0 <= doe as int / 1460 <= 100 && 0 <= doe as int / 36524 <= 4 && 0 <= doe as int
            / 146096 <= 1) by (nonlinear_arith)
            requires
                0 <= doe <= 146096,
        ;
        assert(doe as int / 1460 <= doe as int / 1460 * 1460 / 1460 + 1);
        assert(doe as int - doe as int / 1460 >= 0) by (nonlinear_arith)
            requires
                0 <= doe <= 146096,
        ;
    }
    let num: i64 = doe - t1 + t2 - t3;
    proof {
        assert(0 <= num) by {
            if doe < 146096 {
                assert(doe as int / 146096 == 0) by (nonlinear_arith)
                    requires
                        0 <= doe < 146096,
                ;
            } else {
                assert(doe == 146096);
                assert(146096int / 1460 == 100 && 146096int / 36524 == 4 && 146096int / 146096
                    == 1);
            }
        }
        assert(0 <= num as int / 365 <= 400) by (nonlinear_arith)
            requires
                0 <= num <= 146200,
        ;
    }
    let yoe: i64 = ((num as u64) / 365) as i64;
    let y0: i64 = yoe + era * 400;
    let t4: i64 = ((yoe as u64) / 4) as i64;
    let t5: i64 = ((yoe as u64) / 100) as i64;
    proof {
        assert(0 <= yoe as int / 4 <= 100 && 0 <= yoe as int / 100 <= 4) by (nonlinear_arith)
            requires
                0 <= yoe <= 400,
        ;
    }
    let doy: i64 = doe - (365 * yoe + t4 - t5);
    let (mp, _r1): (i64, i64) = crate::fixed::divmod_floor(5 * doy + 2, 153);
    proof {
        vstd::arithmetic::div_mod::lemma_div_is_ordered(
            (5 * doy + 2) as int,
            731000,
            153,
        );
        vstd::arithmetic::div_mod::lemma_div_is_ordered(
            -731000,
            (5 * doy + 2) as int,
            153,
        );
        assert(731000int / 153 == 4777 && (-731000int) / 153 == -4778);
    }
    let (q2, _r2): (i64, i64) = crate::fixed::divmod_floor(153 * mp + 2, 5);
    proof {
        vstd::arithmetic::div_mod::lemma_div_is_ordered(
            (153 * mp + 2) as int,
            731000,
            5,
        );
        vstd::arithmetic::div_mod::lemma_div_is_ordered(
            -731000,
            (153 * mp + 2) as int,
            5,
        );
    }
    let d: i64 = doy - q2 + 1;
    let m: i64 = if mp < 10 {
        mp + 3
    } else {
        mp - 9
    };
    let y: i64 = if m <= 2 {
        y0 + 1
    } else {
        y0
    };
    (y, m, d)
}

} // verus!
