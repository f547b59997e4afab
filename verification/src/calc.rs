//! The solar-position calculator and event-time resolver.
//!
//! All quantities are exact fixed-point integers: angles in
//! microdegrees, trigonometric values scaled by 1e9, times of day in
//! microminutes. The spec functions below define the whole computation
//! chain (a fixed-point rendering of the standard NOAA solar-position
//! formulas: mean longitude and anomaly, equation of center, apparent
//! longitude, obliquity, declination, equation of time, true solar
//! time, hour angle); each executable function returns exactly its spec
//! value, so every published result is pinned down to the formula.

use vstd::prelude::*;
use crate::fixed::{mul_div, divmod_floor, tdiv};
use crate::trig::{
    sin_udeg, cos_udeg, asin_udeg, acos_udeg, spec_sin_udeg, spec_cos_udeg, spec_asin_udeg,
    spec_acos_udeg, clamp_unit,
};
use crate::instant::Instant;
use crate::domain::{
    Coordinates, Direction, Event, EventTime, FixedElevationEvent, VariableElevationEvent,
};

verus! {

/// Julian centuries since J2000.0, scaled by 1e9, of an instant.
pub open spec fn spec_t9(i: Instant) -> int {
    let jd = tdiv(i.spec_utc_seconds() * 1_000_000, 86400) + 2_440_587_500_000;
    tdiv((jd - 2_451_545_000_000) * 1000, 36525)
}

/// Geometric mean longitude of the Sun, microdegrees (not reduced).
pub open spec fn spec_mean_long(t9: int) -> int {
    280_466_460 + tdiv(t9 * 36_000_769_830, 1_000_000_000) + tdiv(
        tdiv(t9 * t9, 1_000_000_000) * 3032,
        10_000_000_000,
    )
}

/// Geometric mean anomaly of the Sun, microdegrees (not reduced).
pub open spec fn spec_mean_anom(t9: int) -> int {
    357_529_110 + tdiv(t9 * 35_999_050_290, 1_000_000_000) - tdiv(
        tdiv(t9 * t9, 1_000_000_000) * 1537,
        10_000_000_000,
    )
}

/// Eccentricity of Earth's orbit, scaled by 1e9.
pub open spec fn spec_ecc(t9: int) -> int {
    16_708_634 - tdiv(t9 * 42_037, 1_000_000_000) - tdiv(
        tdiv(t9 * t9, 1_000_000_000) * 1267,
        10_000_000_000,
    )
}

/// Equation of the center of the Sun, microdegrees.
pub open spec fn spec_eq_center(t9: int) -> int {
    let m = spec_mean_anom(t9);
    let c1 = 1_914_602 - tdiv(t9 * 4817, 1_000_000_000) - tdiv(
        tdiv(t9 * t9, 1_000_000_000) * 14,
        1_000_000_000,
    );
    let c2 = 19_993 - tdiv(t9 * 101, 1_000_000_000);
    tdiv(spec_sin_udeg(m) * c1, 1_000_000_000) + tdiv(spec_sin_udeg(2 * m) * c2, 1_000_000_000)
        + tdiv(spec_sin_udeg(3 * m) * 289, 1_000_000_000)
}

/// Longitude of the ascending node correction term, microdegrees.
pub open spec fn spec_omega(t9: int) -> int {
    125_040_000 - tdiv(t9 * 1_934_136_000, 1_000_000_000)
}

/// Apparent longitude of the Sun, microdegrees.
pub open spec fn spec_app_long(t9: int) -> int {
    spec_mean_long(t9) + spec_eq_center(t9) - 5690 - tdiv(
        spec_sin_udeg(spec_omega(t9)) * 4780,
        1_000_000_000,
    )
}

/// Corrected obliquity of the ecliptic, microdegrees.
pub open spec fn spec_obliq_corr(t9: int) -> int {
    23_439_291 - tdiv(t9 * 13_004, 1_000_000_000) + tdiv(
        spec_cos_udeg(spec_omega(t9)) * 2560,
        1_000_000_000,
    )
}

/// Solar declination, microdegrees.
pub open spec fn spec_declination(t9: int) -> int {
    spec_asin_udeg(
        tdiv(spec_sin_udeg(spec_obliq_corr(t9)) * spec_sin_udeg(spec_app_long(t9)), 1_000_000_000),
    )
}

/// tan^2 of half the corrected obliquity, scaled by 1e9 (guarded so the
/// division is always by a clearly positive cosine).
pub open spec fn spec_var_y(t9: int) -> int {
    let h = tdiv(spec_obliq_corr(t9), 2);
    let ch = spec_cos_udeg(h);
    if ch < 900_000_000 {
        0
    } else {
        let ty = tdiv(spec_sin_udeg(h) * 1_000_000_000, ch);
        tdiv(ty * ty, 1_000_000_000)
    }
}

/// Equation of time in microminutes (true solar time minus mean time).
pub open spec fn spec_eq_time(t9: int) -> int {
    let vy = spec_var_y(t9);
    let gml = spec_mean_long(t9);
    let m = spec_mean_anom(t9);
    let ecc = spec_ecc(t9);
    let a1 = tdiv(vy * spec_sin_udeg(2 * gml), 1_000_000_000);
    let a2 = tdiv(ecc * spec_sin_udeg(m), 1_000_000_000);
    let a3 = tdiv(
        tdiv(tdiv(ecc * vy, 1_000_000_000) * spec_sin_udeg(m), 1_000_000_000) * spec_cos_udeg(
            2 * gml,
        ),
        1_000_000_000,
    );
    let a4 = tdiv(tdiv(vy * vy, 1_000_000_000) * spec_sin_udeg(4 * gml), 1_000_000_000);
    let a5 = tdiv(tdiv(ecc * ecc, 1_000_000_000) * spec_sin_udeg(2 * m), 1_000_000_000);
    let sum = a1 - 2 * a2 + 4 * a3 - tdiv(a4, 2) - tdiv(a5 * 5, 4);
    4 * tdiv(sum * 57_295_780, 1_000_000_000)
}

/// True solar time in microminutes of the local day, within [0, 1440e6).
pub open spec fn spec_true_solar_time(i: Instant, lon: int) -> int {
    (tdiv(i.spec_second_of_day() * 1_000_000, 60) + spec_eq_time(spec_t9(i)) + 4 * lon - tdiv(
        i.spec_offset_seconds() * 1_000_000,
        60,
    ) + 5_760_000_000) % 1_440_000_000
}

/// Solar hour angle in microdegrees, within [-180e6, 180e6); zero at
/// solar noon, negative in the morning.
pub open spec fn spec_hour_angle(i: Instant, lon: int) -> int {
    tdiv(spec_true_solar_time(i, lon), 4) - 180_000_000
}

/// The sine of the solar elevation (scaled by 1e9, clamped to the unit
/// range): sin(lat)sin(dec) + cos(lat)cos(dec)cos(hour angle).
pub open spec fn spec_elev_arg(i: Instant, lat: int, lon: int) -> int {
    let dec = spec_declination(spec_t9(i));
    clamp_unit(
        tdiv(spec_sin_udeg(lat) * spec_sin_udeg(dec), 1_000_000_000) + tdiv(
            tdiv(spec_cos_udeg(lat) * spec_cos_udeg(dec), 1_000_000_000) * spec_cos_udeg(
                spec_hour_angle(i, lon),
            ),
            1_000_000_000,
        ),
    )
}

/// Solar elevation above the horizon, microdegrees within [-90e6, 90e6].
pub open spec fn spec_solar_elevation(i: Instant, lat: int, lon: int) -> int {
    spec_asin_udeg(spec_elev_arg(i, lat, lon))
}

/// Solar azimuth, microdegrees clockwise from north within [0, 360e6)
/// (0 when the spherical formula degenerates at the zenith or a pole).
pub open spec fn spec_solar_azimuth(i: Instant, lat: int, lon: int) -> int {
    let dec = spec_declination(spec_t9(i));
    let zen = 90_000_000 - spec_solar_elevation(i, lat, lon);
    let denom = tdiv(spec_cos_udeg(lat) * spec_sin_udeg(zen), 1_000_000_000);
    if denom <= 0 {
        0
    } else {
        let num = tdiv(spec_sin_udeg(lat) * spec_cos_udeg(zen), 1_000_000_000) - spec_sin_udeg(dec);
        let az0 = spec_acos_udeg(clamp_unit(tdiv(num * 1_000_000_000, denom)));
        if spec_hour_angle(i, lon) > 0 {
            (az0 + 180_000_000) % 360_000_000
        } else {
            (540_000_000 - az0) % 360_000_000
        }
    }
}

/// Local clock time of solar noon in microminutes since local midnight
/// (may fall outside [0, 1440e6) for extreme longitude/offset pairs).
pub open spec fn spec_noon_umin(i: Instant, lon: int) -> int {
    720_000_000 - 4 * lon - spec_eq_time(spec_t9(i)) + tdiv(i.spec_offset_seconds() * 1_000_000, 60)
}

/// cos(lat)cos(dec), scaled by 1e9: the denominator of the hour-angle
/// inversion. Not positive only in degenerate polar configurations.
pub open spec fn spec_event_denom(i: Instant, lat: int) -> int {
    tdiv(spec_cos_udeg(lat) * spec_cos_udeg(spec_declination(spec_t9(i))), 1_000_000_000)
}

/// The cosine (scaled by 1e9) of the half-day arc for a crossing of the
/// target elevation `te`: (sin(te) - sin(lat)sin(dec)) / (cos(lat)cos(dec)).
/// Meaningful when `spec_event_denom` is positive; outside [-1e9, 1e9]
/// exactly when the Sun never crosses `te` on that day (polar day or night).
pub open spec fn spec_event_cos_arg(i: Instant, lat: int, te: int) -> int {
    let dec = spec_declination(spec_t9(i));
    tdiv(
        (spec_sin_udeg(te) - tdiv(spec_sin_udeg(lat) * spec_sin_udeg(dec), 1_000_000_000))
            * 1_000_000_000,
        spec_event_denom(i, lat),
    )
}

/// Local clock time (microminutes) of the fixed-elevation crossing, or
/// None when the event does not occur that day.
pub open spec fn spec_event_umin(i: Instant, lat: int, lon: int, te: int, dir: Direction) -> Option<
    int,
> {
    if spec_event_denom(i, lat) <= 0 {
        None
    } else {
        let ca = spec_event_cos_arg(i, lat, te);
        if ca > 1_000_000_000 || ca < -1_000_000_000 {
            None
        } else {
            let off = 4 * spec_acos_udeg(ca);
            match dir {
                Direction::Ascending => Some(spec_noon_umin(i, lon) - off),
                Direction::Descending => Some(spec_noon_umin(i, lon) + off),
            }
        }
    }
}

/// Clamp a day count into the representable calendar range.
pub open spec fn spec_clamp_days(d: int) -> int {
    if d < -719468 {
        -719468
    } else if d > 2933000 {
        2933000
    } else {
        d
    }
}

/// The instant on (or adjacent to) the civil day of `i` at the local
/// clock time `umin` microminutes, normalised into a day.
pub open spec fn spec_instant_at(i: Instant, umin: int) -> Instant {
    let s = tdiv(umin * 60, 1_000_000);
    Instant::spec_make(
        spec_clamp_days(i.spec_days() + s / 86400),
        s % 86400,
        i.spec_offset_seconds(),
    )
}

/// The full event-time resolution: a fixed-elevation crossing solved by
/// hour-angle inversion (absent when the Sun never reaches the
/// threshold that day), or closed-form solar noon (always present).
pub open spec fn spec_resolve(i: Instant, lat: int, lon: int, event: Event) -> Option<Instant> {
    match event {
        Event::Fixed(f) => match spec_event_umin(
            i,
            lat,
            lon,
            -f.degrees_below_horizon.spec_value(),
            f.solar_direction,
        ) {
            Some(u) => Some(spec_instant_at(i, u)),
            None => None,
        },
        Event::Variable(VariableElevationEvent::SolarNoon) => Some(
            spec_instant_at(i, spec_noon_umin(i, lon)),
        ),
    }
}

fn t9_of(i: &Instant) -> (r: i64)
    requires
        i.wf(),
    ensures
        r as int == spec_t9(*i),
        -85_000_000_000 <= r <= 85_000_000_000,
{
    let utc: i64 = i.days() * 86400 + i.second_of_day() - i.offset_seconds();
    let jdd = mul_div(utc, 1_000_000, 86400, Ghost(260_000_000_000), Ghost(1_000_000));
    let jd = jdd + 2_440_587_500_000;
    mul_div(jd - 2_451_545_000_000, 1000, 36525, Ghost(3_100_000_000_000), Ghost(1000))
}

fn mean_long_of(t9: i64) -> (r: i64)
    requires
        -85_000_000_000 <= t9 <= 85_000_000_000,
    ensures
        r as int == spec_mean_long(t9 as int),
        -3_070_000_000_000 <= r <= 3_070_000_000_000,
{
    let tsq = mul_div(t9, t9, 1_000_000_000, Ghost(85_000_000_000), Ghost(85_000_000_000));
    let lin = mul_div(t9, 36_000_769_830, 1_000_000_000, Ghost(85_000_000_000), Ghost(
        36_000_769_830,
    ));
    let quad = mul_div(tsq, 3032, 10_000_000_000, Ghost(7_225_000_000_000), Ghost(3032));
    280_466_460 + lin + quad
}

fn mean_anom_of(t9: i64) -> (r: i64)
    requires
        -85_000_000_000 <= t9 <= 85_000_000_000,
    ensures
        r as int == spec_mean_anom(t9 as int),
        -3_070_000_000_000 <= r <= 3_070_000_000_000,
{
    let tsq = mul_div(t9, t9, 1_000_000_000, Ghost(85_000_000_000), Ghost(85_000_000_000));
    let lin = mul_div(t9, 35_999_050_290, 1_000_000_000, Ghost(85_000_000_000), Ghost(
        35_999_050_290,
    ));
    let quad = mul_div(tsq, 1537, 10_000_000_000, Ghost(7_225_000_000_000), Ghost(1537));
    357_529_110 + lin - quad
}

fn ecc_of(t9: i64) -> (r: i64)
    requires
        -85_000_000_000 <= t9 <= 85_000_000_000,
    ensures
        r as int == spec_ecc(t9 as int),
        -22_000_000 <= r <= 22_000_000,
{
    let tsq = mul_div(t9, t9, 1_000_000_000, Ghost(85_000_000_000), Ghost(85_000_000_000));
    let lin = mul_div(t9, 42_037, 1_000_000_000, Ghost(85_000_000_000), Ghost(42_037));
    let quad = mul_div(tsq, 1267, 10_000_000_000, Ghost(7_225_000_000_000), Ghost(1267));
    16_708_634 - lin - quad
}

fn eq_center_of(t9: i64) -> (r: i64)
    requires
        -85_000_000_000 <= t9 <= 85_000_000_000,
    ensures
        r as int == spec_eq_center(t9 as int),
        -2_460_000 <= r <= 2_460_000,
{
    let m = mean_anom_of(t9);
    let tsq = mul_div(t9, t9, 1_000_000_000, Ghost(85_000_000_000), Ghost(85_000_000_000));
    let c1 = 1_914_602 - mul_div(t9, 4817, 1_000_000_000, Ghost(85_000_000_000), Ghost(4817))
        - mul_div(tsq, 14, 1_000_000_000, Ghost(7_225_000_000_000), Ghost(14));
    let c2 = 19_993 - mul_div(t9, 101, 1_000_000_000, Ghost(85_000_000_000), Ghost(101));
    let s1 = sin_udeg(m);
    let s2 = sin_udeg(2 * m);
    let s3 = sin_udeg(3 * m);
    let p1 = mul_div(s1, c1, 1_000_000_000, Ghost(1_000_000_000), Ghost(2_430_000));
    let p2 = mul_div(s2, c2, 1_000_000_000, Ghost(1_000_000_000), Ghost(29_000));
    let p3 = mul_div(s3, 289, 1_000_000_000, Ghost(1_000_000_000), Ghost(289));
    p1 + p2 + p3
}

fn omega_of(t9: i64) -> (r: i64)
    requires
        -85_000_000_000 <= t9 <= 85_000_000_000,
    ensures
        r as int == spec_omega(t9 as int),
        -165_000_000_000 <= r <= 165_000_000_000,
{
    125_040_000 - mul_div(t9, 1_934_136_000, 1_000_000_000, Ghost(85_000_000_000), Ghost(
        1_934_136_000,
    ))
}

fn app_long_of(t9: i64) -> (r: i64)
    requires
        -85_000_000_000 <= t9 <= 85_000_000_000,
    ensures
        r as int == spec_app_long(t9 as int),
        -3_080_000_000_000 <= r <= 3_080_000_000_000,
{
    let so = sin_udeg(omega_of(t9));
    mean_long_of(t9) + eq_center_of(t9) - 5690 - mul_div(so, 4780, 1_000_000_000, Ghost(
        1_000_000_000,
    ), Ghost(4780))
}

fn obliq_corr_of(t9: i64) -> (r: i64)
    requires
        -85_000_000_000 <= t9 <= 85_000_000_000,
    ensures
        r as int == spec_obliq_corr(t9 as int),
        22_000_000 <= r <= 24_600_000,
{
    let co = cos_udeg(omega_of(t9));
    23_439_291 - mul_div(t9, 13_004, 1_000_000_000, Ghost(85_000_000_000), Ghost(13_004)) + mul_div(
        co,
        2560,
        1_000_000_000,
        Ghost(1_000_000_000),
        Ghost(2560),
    )
}

fn declination_of(t9: i64) -> (r: i64)
    requires
        -85_000_000_000 <= t9 <= 85_000_000_000,
    ensures
        r as int == spec_declination(t9 as int),
        -90_000_000 <= r <= 90_000_000,
{
    let soc = sin_udeg(obliq_corr_of(t9));
    let sal = sin_udeg(app_long_of(t9));
    asin_udeg(mul_div(soc, sal, 1_000_000_000, Ghost(1_000_000_000), Ghost(1_000_000_000)))
}

fn var_y_of(t9: i64) -> (r: i64)
    requires
        -85_000_000_000 <= t9 <= 85_000_000_000,
    ensures
        r as int == spec_var_y(t9 as int),
        -1_240_000_000 <= r <= 1_240_000_000,
{
    let oc = obliq_corr_of(t9);
    let h = mul_div(oc, 1, 2, Ghost(24_600_000), Ghost(1));
    let ch = cos_udeg(h);
    if ch < 900_000_000 {
        0
    } else {
        let ty = mul_div(sin_udeg(h), 1_000_000_000, ch, Ghost(1_000_000_000), Ghost(
            1_000_000_000,
        ));
        proof {
            vstd::arithmetic::div_mod::lemma_div_is_ordered_by_denominator(
                1_000_000_000_000_000_000,
                900_000_000,
                ch as int,
            );
        }
        mul_div(ty, ty, 1_000_000_000, Ghost(1_112_000_000), Ghost(1_112_000_000))
    }
}

fn eq_time_of(t9: i64) -> (r: i64)
    requires
        -85_000_000_000 <= t9 <= 85_000_000_000,
    ensures
        r as int == spec_eq_time(t9 as int),
        -510_000_000 <= r <= 510_000_000,
{
    let vy = var_y_of(t9);
    let gml = mean_long_of(t9);
    let m = mean_anom_of(t9);
    let ecc = ecc_of(t9);
    let a1 = mul_div(vy, sin_udeg(2 * gml), 1_000_000_000, Ghost(1_240_000_000), Ghost(
        1_000_000_000,
    ));
    let a2 = mul_div(ecc, sin_udeg(m), 1_000_000_000, Ghost(22_000_000), Ghost(1_000_000_000));
    let ev = mul_div(ecc, vy, 1_000_000_000, Ghost(22_000_000), Ghost(1_240_000_000));
    let evs = mul_div(ev, sin_udeg(m), 1_000_000_000, Ghost(27_300_000), Ghost(1_000_000_000));
    let a3 = mul_div(evs, cos_udeg(2 * gml), 1_000_000_000, Ghost(27_300_000), Ghost(
        1_000_000_000,
    ));
    let v2 = mul_div(vy, vy, 1_000_000_000, Ghost(1_240_000_000), Ghost(1_240_000_000));
    let a4 = mul_div(v2, sin_udeg(4 * gml), 1_000_000_000, Ghost(1_540_000_000), Ghost(
        1_000_000_000,
    ));
    let e2 = mul_div(ecc, ecc, 1_000_000_000, Ghost(22_000_000), Ghost(22_000_000));
    let a5 = mul_div(e2, sin_udeg(2 * m), 1_000_000_000, Ghost(485_000), Ghost(1_000_000_000));
    let h4 = mul_div(a4, 1, 2, Ghost(1_540_000_000), Ghost(1));
    let q5 = mul_div(a5, 5, 4, Ghost(485_000), Ghost(5));
    let sum = a1 - 2 * a2 + 4 * a3 - h4 - q5;
    4 * mul_div(sum, 57_295_780, 1_000_000_000, Ghost(2_200_000_000), Ghost(57_295_780))
}

fn true_solar_time_of(i: &Instant, lon: i64, eqt: i64) -> (r: i64)
    requires
        i.wf(),
        -180_000_000 <= lon <= 180_000_000,
        eqt as int == spec_eq_time(spec_t9(*i)),
        -510_000_000 <= eqt <= 510_000_000,
    ensures
        r as int == spec_true_solar_time(*i, lon as int),
        0 <= r < 1_440_000_000,
{
    let smin = mul_div(i.second_of_day(), 1_000_000, 60, Ghost(86400), Ghost(1_000_000));
    let tzmin = mul_div(i.offset_seconds(), 1_000_000, 60, Ghost(86400), Ghost(1_000_000));
    let pre: i64 = smin + eqt + 4 * lon - tzmin + 5_760_000_000;
    (((pre as u64) % 1_440_000_000u64) as i64)
}

/// The solar-position calculator: an immutable snapshot binding an
/// instant and a coordinate, with the per-instant astronomical
/// quantities (declination, equation of time, true solar time, hour
/// angle) computed once at construction.
#[derive(Clone, Copy, Debug)]
pub struct SolarCalculations {
    instant: Instant,
    coordinates: Coordinates,
    declination: i64,
    eq_of_time: i64,
    true_solar_time: i64,
    hour_angle: i64,
}

impl SolarCalculations {
    /// Validity: the instant and coordinates are well formed and every
    /// cached quantity equals its spec-level value for this instant and
    /// coordinate.
    pub closed spec fn wf(&self) -> bool {
        &&& self.instant.wf()
        &&& self.coordinates.wf()
        &&& self.declination as int == spec_declination(spec_t9(self.instant))
        &&& -90_000_000 <= self.declination <= 90_000_000
        &&& self.eq_of_time as int == spec_eq_time(spec_t9(self.instant))
        &&& -510_000_000 <= self.eq_of_time <= 510_000_000
        &&& self.true_solar_time as int == spec_true_solar_time(
            self.instant,
            self.coordinates.longitude.spec_value(),
        )
        &&& 0 <= self.true_solar_time < 1_440_000_000
        &&& self.hour_angle as int == spec_hour_angle(
            self.instant,
            self.coordinates.longitude.spec_value(),
        )
        &&& -180_000_000 <= self.hour_angle <= 180_000_000
    }

    pub closed spec fn spec_instant(&self) -> Instant {
        self.instant
    }

    pub closed spec fn spec_coordinates(&self) -> Coordinates {
        self.coordinates
    }

    pub fn instant(&self) -> (r: Instant)
        ensures
            r == self.spec_instant(),
    {
        self.instant
    }

    pub fn coordinates(&self) -> (r: Coordinates)
        ensures
            r == self.spec_coordinates(),
    {
        self.coordinates
    }

    /// Build a calculator: a pure function of its inputs with no
    /// fallible path (the coordinates and instant are already valid).
    pub fn new(instant: Instant, coordinates: Coordinates) -> (r: SolarCalculations)
        requires
            instant.wf(),
            coordinates.wf(),
        ensures
            r.spec_instant() == instant,
            r.spec_coordinates() == coordinates,
            r.wf(),
    {
        let t9 = t9_of(&instant);
        let declination = declination_of(t9);
        let eq_of_time = eq_time_of(t9);
        let lon = coordinates.longitude.value();
        let tst = true_solar_time_of(&instant, lon, eq_of_time);
        let hour_angle = mul_div(tst, 1, 4, Ghost(1_440_000_000), Ghost(1)) - 180_000_000;
        SolarCalculations {
            instant,
            coordinates,
            declination,
            eq_of_time,
            true_solar_time: tst,
            hour_angle,
        }
    }

    /// Rebuild the calculator for the same coordinates at a new
    /// instant. The receiver is untouched: a caller holding the prior
    /// snapshot keeps a valid calculator.
    pub fn refresh(&self, new_instant: Instant) -> (r: SolarCalculations)
        requires
            self.wf(),
            new_instant.wf(),
        ensures
            r.spec_instant() == new_instant,
            r.spec_coordinates() == self.spec_coordinates(),
            r.wf(),
    {
        SolarCalculations::new(new_instant, self.coordinates)
    }

    /// The Sun's elevation above the horizon at this calculator's
    /// instant and coordinate, in microdegrees within [-90e6, 90e6].
    pub fn solar_elevation(&self) -> (r: i64)
        requires
            self.wf(),
        ensures
            r as int == spec_solar_elevation(
                self.spec_instant(),
                self.spec_coordinates().latitude.spec_value(),
                self.spec_coordinates().longitude.spec_value(),
            ),
            -90_000_000 <= r <= 90_000_000,
    {
        let lat = self.coordinates.latitude.value();
        let s1 = mul_div(
            sin_udeg(lat),
            sin_udeg(self.declination),
            1_000_000_000,
            Ghost(1_000_000_000),
            Ghost(1_000_000_000),
        );
        let cc = mul_div(
            cos_udeg(lat),
            cos_udeg(self.declination),
            1_000_000_000,
            Ghost(1_000_000_000),
            Ghost(1_000_000_000),
        );
        let s2 = mul_div(
            cc,
            cos_udeg(self.hour_angle),
            1_000_000_000,
            Ghost(1_000_000_000),
            Ghost(1_000_000_000),
        );
        let arg0 = s1 + s2;
        let arg = if arg0 > 1_000_000_000 {
            1_000_000_000
        } else if arg0 < -1_000_000_000 {
            -1_000_000_000
        } else {
            arg0
        };
        asin_udeg(arg)
    }

    /// The Sun's azimuth, microdegrees clockwise from north within
    /// [0, 360e6).
    pub fn solar_azimuth(&self) -> (r: i64)
        requires
            self.wf(),
        ensures
            r as int == spec_solar_azimuth(
                self.spec_instant(),
                self.spec_coordinates().latitude.spec_value(),
                self.spec_coordinates().longitude.spec_value(),
            ),
            0 <= r < 360_000_000,
    {
        let lat = self.coordinates.latitude.value();
        let elev = self.solar_elevation();
        let zen = 90_000_000 - elev;
        let denom = mul_div(
            cos_udeg(lat),
            sin_udeg(zen),
            1_000_000_000,
            Ghost(1_000_000_000),
            Ghost(1_000_000_000),
        );
        if denom <= 0 {
            0
        } else {
            let num = mul_div(
                sin_udeg(lat),
                cos_udeg(zen),
                1_000_000_000,
                Ghost(1_000_000_000),
                Ghost(1_000_000_000),
            ) - sin_udeg(self.declination);
            let q = mul_div(num, 1_000_000_000, denom, Ghost(2_000_000_000), Ghost(1_000_000_000));
            let caz = if q > 1_000_000_000 {
                1_000_000_000
            } else if q < -1_000_000_000 {
                -1_000_000_000
            } else {
                q
            };
            let az0 = acos_udeg(caz);
            if self.hour_angle > 0 {
                ((((az0 + 180_000_000) as u64) % 360_000_000u64) as i64)
            } else {
                ((((540_000_000 - az0) as u64) % 360_000_000u64) as i64)
            }
        }
    }

    /// Local clock time of solar noon, microminutes since local
    /// midnight (closed-form, from the equation of time and longitude).
    fn noon_umin(&self) -> (r: i64)
        requires
            self.wf(),
        ensures
            r as int == spec_noon_umin(
                self.spec_instant(),
                self.spec_coordinates().longitude.spec_value(),
            ),
            -3_400_000_000 <= r <= 3_400_000_000,
    {
        let lon = self.coordinates.longitude.value();
        let tzmin = mul_div(
            self.instant.offset_seconds(),
            1_000_000,
            60,
            Ghost(86400),
            Ghost(1_000_000),
        );
        720_000_000 - 4 * lon - self.eq_of_time + tzmin
    }

    /// Resolve the instant at which the described event occurs on this
    /// calculator's civil date, or report that it never does.
    ///
    /// A fixed-elevation event is absent exactly when the hour-angle
    /// equation has no solution that day (its cosine argument falls
    /// outside the unit range, or the denominator degenerates at a
    /// pole): polar day or polar night. Solar noon always resolves.
    pub fn event_time(&self, event: &Event) -> (r: EventTime)
        requires
            self.wf(),
            (*event matches Event::Fixed(f) ==> f.degrees_below_horizon.wf()),
        ensures
            r.0 == spec_resolve(
                self.spec_instant(),
                self.spec_coordinates().latitude.spec_value(),
                self.spec_coordinates().longitude.spec_value(),
                *event,
            ),
            (*event matches Event::Variable(v) ==> r.0 is Some),
            (*event matches Event::Fixed(f) ==> ((r.0 is None) <==> (spec_event_denom(
                self.spec_instant(),
                self.spec_coordinates().latitude.spec_value(),
            ) <= 0 || spec_event_cos_arg(
                self.spec_instant(),
                self.spec_coordinates().latitude.spec_value(),
                -f.degrees_below_horizon.spec_value(),
            ) > 1_000_000_000 || spec_event_cos_arg(
                self.spec_instant(),
                self.spec_coordinates().latitude.spec_value(),
                -f.degrees_below_horizon.spec_value(),
            ) < -1_000_000_000))),
            (r.0 matches Some(ev) ==> ev.wf()),
    {
        match event {
            Event::Variable(VariableElevationEvent::SolarNoon) => {
                let noon = self.noon_umin();
                EventTime::new(Some(instant_at(&self.instant, noon)))
            },
            Event::Fixed(f) => {
                let lat = self.coordinates.latitude.value();
                let te = -f.degrees_below_horizon.value();
                let denom = mul_div(
                    cos_udeg(lat),
                    cos_udeg(self.declination),
                    1_000_000_000,
                    Ghost(1_000_000_000),
                    Ghost(1_000_000_000),
                );
                if denom <= 0 {
                    EventTime::new(None)
                } else {
                    let s1 = mul_div(
                        sin_udeg(lat),
                        sin_udeg(self.declination),
                        1_000_000_000,
                        Ghost(1_000_000_000),
                        Ghost(1_000_000_000),
                    );
                    let num = sin_udeg(te) - s1;
                    let ca = mul_div(
                        num,
                        1_000_000_000,
                        denom,
                        Ghost(2_000_000_000),
                        Ghost(1_000_000_000),
                    );
                    if ca > 1_000_000_000 || ca < -1_000_000_000 {
                        EventTime::new(None)
                    } else {
                        let ha0 = acos_udeg(ca);
                        let off = 4 * ha0;
                        let noon = self.noon_umin();
                        let ev = match f.solar_direction {
                            Direction::Ascending => noon - off,
                            Direction::Descending => noon + off,
                        };
                        EventTime::new(Some(instant_at(&self.instant, ev)))
                    }
                }
            },
        }
    }
}

/// Place a local clock time (microminutes) on the civil day of `i`,
/// normalising into the adjacent day when it spills over midnight.
fn instant_at(i: &Instant, umin: i64) -> (r: Instant)
    requires
        i.wf(),
        -4_200_000_000 <= umin <= 4_200_000_000,
    ensures
        r == spec_instant_at(*i, umin as int),
        r.wf(),
{
    let s = mul_div(umin, 60, 1_000_000, Ghost(4_200_000_000), Ghost(60));
    let (q, sec) = divmod_floor(s, 86400);
    proof {
        vstd::arithmetic::div_mod::lemma_div_is_ordered(s as int, 252_000, 86400);
        vstd::arithmetic::div_mod::lemma_div_is_ordered(-252_000, s as int, 86400);
    }
    let d0 = i.days() + q;
    let dc = if d0 < -719468 {
        -719468i64
    } else if d0 > 2933000 {
        2933000i64
    } else {
        d0
    };
    Instant::from_parts(dc, sec, i.offset_seconds())
}

/// Refreshing and rebuilding agree: two calculators over the same
/// instant and coordinates answer every elevation, azimuth and
/// event-time query identically, because each answer is a function of
/// the instant and coordinates alone.
pub proof fn lemma_refresh_equals_new(a: SolarCalculations, b: SolarCalculations)
    requires
        a.spec_instant() == b.spec_instant(),
        a.spec_coordinates() == b.spec_coordinates(),
    ensures
        spec_solar_elevation(
            a.spec_instant(),
            a.spec_coordinates().latitude.spec_value(),
            a.spec_coordinates().longitude.spec_value(),
        ) == spec_solar_elevation(
            b.spec_instant(),
            b.spec_coordinates().latitude.spec_value(),
            b.spec_coordinates().longitude.spec_value(),
        ),
        spec_solar_azimuth(
            a.spec_instant(),
            a.spec_coordinates().latitude.spec_value(),
            a.spec_coordinates().longitude.spec_value(),
        ) == spec_solar_azimuth(
            b.spec_instant(),
            b.spec_coordinates().latitude.spec_value(),
            b.spec_coordinates().longitude.spec_value(),
        ),
        forall|e: Event|
            spec_resolve(
                a.spec_instant(),
                a.spec_coordinates().latitude.spec_value(),
                a.spec_coordinates().longitude.spec_value(),
                e,
            ) == spec_resolve(
                b.spec_instant(),
                b.spec_coordinates().latitude.spec_value(),
                b.spec_coordinates().longitude.spec_value(),
                e,
            ),
{
}

/// Ascending and descending crossings of one threshold are exactly
/// symmetric about solar noon (in microminutes of local clock time):
/// when the ascending event exists, so does the descending one, at the
/// mirrored time.
pub proof fn lemma_event_symmetry(i: Instant, lat: int, lon: int, te: int)
    requires
        spec_event_umin(i, lat, lon, te, Direction::Ascending) is Some,
    ensures
        spec_event_umin(i, lat, lon, te, Direction::Descending) is Some,
        (spec_event_umin(i, lat, lon, te, Direction::Ascending) matches Some(a)
            && spec_event_umin(i, lat, lon, te, Direction::Descending) matches Some(d)
            && spec_noon_umin(i, lon) - a == d - spec_noon_umin(i, lon)),
{
}

/// Solar noon always resolves to a present instant, whatever the
/// coordinate and date (even under polar day or polar night).
pub proof fn lemma_solar_noon_always_resolves(i: Instant, lat: int, lon: int)
    ensures
        spec_resolve(i, lat, lon, Event::Variable(VariableElevationEvent::SolarNoon)) is Some,
{
}

/// A fixed-elevation event is absent exactly when the cosine of its
/// half-day arc falls outside the unit range (or the denominator
/// degenerates at a pole): absence is a computed outcome, not an error.
pub proof fn lemma_fixed_event_absence(i: Instant, lat: int, lon: int, f: FixedElevationEvent)
    ensures
        (spec_resolve(i, lat, lon, Event::Fixed(f)) is None) <==> (spec_event_denom(i, lat) <= 0
            || spec_event_cos_arg(i, lat, -f.degrees_below_horizon.spec_value()) > 1_000_000_000
            || spec_event_cos_arg(i, lat, -f.degrees_below_horizon.spec_value())
            < -1_000_000_000),
{
}

} // verus!
