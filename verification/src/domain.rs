//! Validated value types: coordinates, elevation angles, event
//! descriptors, and the day-part classifier.
//!
//! Angles are fixed-point integers in microdegrees (degrees scaled by
//! 1_000_000). Construction is the sole validation gate: a `Latitude`,
//! `Longitude` or `Altitude` is never observable outside its closed
//! range.

use vstd::prelude::*;
use vstd::string::StringSliceAdditionalSpecFns;
use crate::instant::Instant;
use crate::parse::{parse_angle_udeg, spec_parse_angle_udeg};

verus! {

/// A validation failure: the closed range (in microdegrees) that was
/// expected and the offending value. Rendering a human-readable message
/// from these fields is the caller's concern.
#[derive(Clone, Copy, Debug, PartialEq, Eq, Structural)]
pub struct ValidationError {
    pub expected_min: i64,
    pub expected_max: i64,
    pub found: i64,
}

/// An enumeration of the different parts of the day. Not all of them
/// necessarily occur during a given 24-hour period.
#[derive(Clone, Copy, Debug, PartialEq, Eq, Structural)]
pub enum DayPart {
    Day,
    CivilTwilight,
    NauticalTwilight,
    AstronomicalTwilight,
    Night,
}

impl DayPart {
    /// The classification table: breakpoints at -18, -12, -6 and 0.833
    /// degrees, each belonging to the higher-elevation side.
    pub open spec fn spec_from_elevation(angle: int) -> DayPart {
        if angle < -18_000_000 {
            DayPart::Night
        } else if angle < -12_000_000 {
            DayPart::AstronomicalTwilight
        } else if angle < -6_000_000 {
            DayPart::NauticalTwilight
        } else if angle < 833_000 {
            DayPart::CivilTwilight
        } else {
            DayPart::Day
        }
    }

    /// Classify an elevation angle (microdegrees). Total: every `i64`
    /// input is classified.
    pub fn from_elevation_angle(angle: i64) -> (r: DayPart)
        ensures
            r == DayPart::spec_from_elevation(angle as int),
    {
        if angle < -18_000_000 {
            DayPart::Night
        } else if angle < -12_000_000 {
            DayPart::AstronomicalTwilight
        } else if angle < -6_000_000 {
            DayPart::NauticalTwilight
        } else if angle < 833_000 {
            DayPart::CivilTwilight
        } else {
            DayPart::Day
        }
    }
}

/// The classifier partitions the whole line of elevation angles: each
/// category is returned exactly on its half-open band, with boundary
/// values belonging to the higher band (exactly -18 degrees is
/// astronomical twilight; exactly 0.833 degrees is day).
pub proof fn lemma_day_part_partition(angle: int)
    ensures
        DayPart::spec_from_elevation(angle) == DayPart::Night <==> angle < -18_000_000,
        DayPart::spec_from_elevation(angle) == DayPart::AstronomicalTwilight <==> (-18_000_000
            <= angle < -12_000_000),
        DayPart::spec_from_elevation(angle) == DayPart::NauticalTwilight <==> (-12_000_000 <= angle
            < -6_000_000),
        DayPart::spec_from_elevation(angle) == DayPart::CivilTwilight <==> (-6_000_000 <= angle
            < 833_000),
        DayPart::spec_from_elevation(angle) == DayPart::Day <==> angle >= 833_000,
{
}

/// An enumeration of parsed commands.
#[derive(Clone, Copy, Debug, PartialEq, Eq, Structural)]
pub enum Action {
    Report { json: bool },
    Poll { watch: bool, json: bool },
}

/// An enumeration of the two subcommands.
#[derive(Clone, Copy, Debug, PartialEq, Eq, Structural)]
pub enum Command {
    Report { json: bool },
    Poll { watch: bool, json: bool },
}

/// Container for all necessary runtime configuration: the validated
/// coordinates, the instant the calculations are anchored to, and the
/// action to run.
#[derive(Clone, Copy, Debug, PartialEq, Eq, Structural)]
pub struct Config {
    pub coordinates: Coordinates,
    pub date: Instant,
    pub action: Action,
}

/// A newtype representing an optional event instant. Absence is a
/// first-class outcome (the event never occurs on that date at that
/// location), not an error.
#[derive(Clone, Copy, Debug, PartialEq, Eq, Structural)]
pub struct EventTime(pub Option<Instant>);

impl EventTime {
    pub fn new(instant: Option<Instant>) -> (r: Self)
        ensures
            r.0 == instant,
    {
        Self(instant)
    }

    pub fn is_some(&self) -> (r: bool)
        ensures
            r == self.0 is Some,
    {
        self.0.is_some()
    }

    /// The clock time of the event, as seconds since local midnight,
    /// when the event occurs.
    pub fn time(&self) -> (r: Option<i64>)
        ensures
            match self.0 {
                Some(i) => r matches Some(s) && s as int == i.spec_second_of_day(),
                None => r is None,
            },
    {
        match &self.0 {
            Some(i) => Some(i.second_of_day()),
            None => None,
        }
    }
}

/// Newtype wrapper for an elevation angle validated to lie between
/// -90 and +90 degrees (microdegrees internally).
#[derive(Clone, Copy, Debug, PartialEq, Eq, Structural)]
pub struct Altitude {
    v: i64,
}

impl Altitude {
    pub closed spec fn spec_value(&self) -> int {
        self.v as int
    }

    pub open spec fn wf(&self) -> bool {
        -90_000_000 <= self.spec_value() <= 90_000_000
    }

    /// Validating constructor: succeeds exactly on microdegree values
    /// within [-90e6, 90e6], and round-trips the value unchanged.
    pub fn new(alt: i64) -> (r: Result<Self, ValidationError>)
        ensures
            r is Ok <==> -90_000_000 <= alt <= 90_000_000,
            r matches Ok(a) ==> a.spec_value() == alt as int && a.wf(),
            r matches Err(e) ==> e == (ValidationError {
                expected_min: -90_000_000i64,
                expected_max: 90_000_000i64,
                found: alt,
            }),
    {
        if -90_000_000 <= alt && alt <= 90_000_000 {
            Ok(Self { v: alt })
        } else {
            Err(ValidationError { expected_min: -90_000_000, expected_max: 90_000_000, found: alt })
        }
    }

    pub fn value(&self) -> (v: i64)
        ensures
            v as int == self.spec_value(),
    {
        self.v
    }

    /// Parse a decimal-degree string (such as a command-line argument)
    /// and validate it; an unparseable string reports the expected
    /// range with a zero placeholder for the offending value.
    pub fn parse(alt: &str) -> (r: Result<Self, ValidationError>)
        ensures
            spec_parse_angle_udeg(alt.spec_bytes()) is None ==> r is Err,
            (spec_parse_angle_udeg(alt.spec_bytes()) matches Some(v) ==> ((r is Ok <==> -90_000_000
                <= v <= 90_000_000) && (r matches Ok(a) ==> a.spec_value() == v))),
    {
        match parse_angle_udeg(alt) {
            Some(v) => Self::new(v),
            None => Err(
                ValidationError { expected_min: -90_000_000, expected_max: 90_000_000, found: 0 },
            ),
        }
    }
}

/// Represents a latitude in decimal microdegrees. Valid values are from
/// -90e6..=+90e6. Positive values are to the north, negative to the south.
#[derive(Clone, Copy, Debug, PartialEq, Eq, Structural)]
pub struct Latitude {
    v: i64,
}

impl Latitude {
    pub closed spec fn spec_value(&self) -> int {
        self.v as int
    }

    pub open spec fn wf(&self) -> bool {
        -90_000_000 <= self.spec_value() <= 90_000_000
    }

    /// Validating constructor: succeeds exactly on microdegree values
    /// within [-90e6, 90e6], and round-trips the value unchanged.
    pub fn new(value: i64) -> (r: Result<Self, ValidationError>)
        ensures
            r is Ok <==> -90_000_000 <= value <= 90_000_000,
            r matches Ok(l) ==> l.spec_value() == value as int && l.wf(),
            r matches Err(e) ==> e == (ValidationError {
                expected_min: -90_000_000i64,
                expected_max: 90_000_000i64,
                found: value,
            }),
    {
        if -90_000_000 <= value && value <= 90_000_000 {
            Ok(Self { v: value })
        } else {
            Err(ValidationError {
                expected_min: -90_000_000,
                expected_max: 90_000_000,
                found: value,
            })
        }
    }

    pub fn value(&self) -> (v: i64)
        ensures
            v as int == self.spec_value(),
    {
        self.v
    }

    /// Parse a decimal-degree string (such as a command-line argument)
    /// and validate it; an unparseable string reports the expected
    /// range with a zero placeholder for the offending value.
    pub fn parse(value: &str) -> (r: Result<Self, ValidationError>)
        ensures
            spec_parse_angle_udeg(value.spec_bytes()) is None ==> r is Err,
            (spec_parse_angle_udeg(value.spec_bytes()) matches Some(v) ==> ((r is Ok
                <==> -90_000_000 <= v <= 90_000_000) && (r matches Ok(l) ==> l.spec_value() == v))),
    {
        match parse_angle_udeg(value) {
            Some(v) => Self::new(v),
            None => Err(
                ValidationError { expected_min: -90_000_000, expected_max: 90_000_000, found: 0 },
            ),
        }
    }
}

/// Represents a longitude in decimal microdegrees. Valid values are from
/// -180e6..=+180e6. Positive values are to the east, negative to the west.
#[derive(Clone, Copy, Debug, PartialEq, Eq, Structural)]
pub struct Longitude {
    v: i64,
}

impl Longitude {
    pub closed spec fn spec_value(&self) -> int {
        self.v as int
    }

    pub open spec fn wf(&self) -> bool {
        -180_000_000 <= self.spec_value() <= 180_000_000
    }

    /// Validating constructor: succeeds exactly on microdegree values
    /// within [-180e6, 180e6], and round-trips the value unchanged.
    pub fn new(value: i64) -> (r: Result<Self, ValidationError>)
        ensures
            r is Ok <==> -180_000_000 <= value <= 180_000_000,
            r matches Ok(l) ==> l.spec_value() == value as int && l.wf(),
            r matches Err(e) ==> e == (ValidationError {
                expected_min: -180_000_000i64,
                expected_max: 180_000_000i64,
                found: value,
            }),
    {
        if -180_000_000 <= value && value <= 180_000_000 {
            Ok(Self { v: value })
        } else {
            Err(ValidationError {
                expected_min: -180_000_000,
                expected_max: 180_000_000,
                found: value,
            })
        }
    }

    pub fn value(&self) -> (v: i64)
        ensures
            v as int == self.spec_value(),
    {
        self.v
    }

    /// Parse a decimal-degree string (such as a command-line argument)
    /// and validate it; an unparseable string reports the expected
    /// range with a zero placeholder for the offending value.
    pub fn parse(value: &str) -> (r: Result<Self, ValidationError>)
        ensures
            spec_parse_angle_udeg(value.spec_bytes()) is None ==> r is Err,
            (spec_parse_angle_udeg(value.spec_bytes()) matches Some(v) ==> ((r is Ok
                <==> -180_000_000 <= v <= 180_000_000) && (r matches Ok(l) ==> l.spec_value()
                == v))),
    {
        match parse_angle_udeg(value) {
            Some(v) => Self::new(v),
            None => Err(
                ValidationError { expected_min: -180_000_000, expected_max: 180_000_000, found: 0 },
            ),
        }
    }
}

/// Represents a position on a map described by a latitude and longitude.
#[derive(Clone, Copy, Debug, PartialEq, Eq, Structural)]
pub struct Coordinates {
    pub latitude: Latitude,
    pub longitude: Longitude,
}

impl Coordinates {
    pub open spec fn wf(&self) -> bool {
        self.latitude.wf() && self.longitude.wf()
    }

    pub fn new(latitude: Latitude, longitude: Longitude) -> (r: Self)
        ensures
            r.latitude == latitude,
            r.longitude == longitude,
    {
        Self { latitude, longitude }
    }
}

/// A list of plain event names supported by the command line interface.
#[derive(Clone, Copy, Debug, PartialEq, Eq, Structural)]
pub enum RawEventName {
    Sunrise,
    Sunset,
    CivilDawn,
    CivilDusk,
    NauticalDawn,
    NauticalDusk,
    AstronomicalDawn,
    AstronomicalDusk,
    CustomAM,
    CustomPM,
    SolarNoon,
}

/// An enumeration of possible event names, with required data attached.
/// CustomAM/PM carry the custom altitude, in contrast to `RawEventName`
/// where that data is absent.
#[derive(Clone, Copy, Debug, PartialEq, Eq, Structural)]
pub enum EventName {
    Sunrise,
    Sunset,
    CivilDawn,
    CivilDusk,
    NauticalDawn,
    NauticalDusk,
    AstronomicalDawn,
    AstronomicalDusk,
    CustomAM(Altitude),
    CustomPM(Altitude),
    SolarNoon,
}

/// The set of possible directions of travel of the Sun relative to the
/// observer: either ascending or descending.
#[derive(Clone, Copy, Debug, PartialEq, Eq, Structural)]
pub enum Direction {
    Ascending,
    Descending,
}

/// Events which occur when the Sun reaches a specific elevation relative
/// to the horizon. For example, sunrise always occurs when the centre of
/// the Sun is 0.833 degrees below the horizon.
#[derive(Clone, Copy, Debug, PartialEq, Eq, Structural)]
pub struct FixedElevationEvent {
    pub degrees_below_horizon: Altitude,
    pub solar_direction: Direction,
}

impl FixedElevationEvent {
    pub fn new(degrees_below_horizon: Altitude, solar_direction: Direction) -> (r: Self)
        ensures
            r.degrees_below_horizon == degrees_below_horizon,
            r.solar_direction == solar_direction,
    {
        Self { degrees_below_horizon, solar_direction }
    }
}

/// Events which occur when the Sun is at a variable elevation. Solar
/// noon occurs at the maximum solar elevation, which varies with time
/// and location.
#[derive(Clone, Copy, Debug, PartialEq, Eq, Structural)]
pub enum VariableElevationEvent {
    SolarNoon,
}

/// Any supported solar event: either a fixed-elevation crossing or a
/// variable-elevation event with its own derivation.
#[derive(Clone, Copy, Debug, PartialEq, Eq, Structural)]
pub enum Event {
    Fixed(FixedElevationEvent),
    Variable(VariableElevationEvent),
}

impl Event {
    /// Build the event descriptor for a named event, per the fixed
    /// threshold table (0.833, 6, 12 and 18 degrees below the horizon).
    pub fn from_event_name(event: EventName) -> (r: Self)
        ensures
            event == EventName::Sunrise ==> (r matches Event::Fixed(f)
                && f.degrees_below_horizon.spec_value() == 833_000
                && f.solar_direction == Direction::Ascending),
            event == EventName::Sunset ==> (r matches Event::Fixed(f)
                && f.degrees_below_horizon.spec_value() == 833_000
                && f.solar_direction == Direction::Descending),
            event == EventName::CivilDawn ==> (r matches Event::Fixed(f)
                && f.degrees_below_horizon.spec_value() == 6_000_000
                && f.solar_direction == Direction::Ascending),
            event == EventName::CivilDusk ==> (r matches Event::Fixed(f)
                && f.degrees_below_horizon.spec_value() == 6_000_000
                && f.solar_direction == Direction::Descending),
            event == EventName::NauticalDawn ==> (r matches Event::Fixed(f)
                && f.degrees_below_horizon.spec_value() == 12_000_000
                && f.solar_direction == Direction::Ascending),
            event == EventName::NauticalDusk ==> (r matches Event::Fixed(f)
                && f.degrees_below_horizon.spec_value() == 12_000_000
                && f.solar_direction == Direction::Descending),
            event == EventName::AstronomicalDawn ==> (r matches Event::Fixed(f)
                && f.degrees_below_horizon.spec_value() == 18_000_000
                && f.solar_direction == Direction::Ascending),
            event == EventName::AstronomicalDusk ==> (r matches Event::Fixed(f)
                && f.degrees_below_horizon.spec_value() == 18_000_000
                && f.solar_direction == Direction::Descending),
            (event matches EventName::CustomAM(alt) ==> r == Event::Fixed(
                FixedElevationEvent {
                    degrees_below_horizon: alt,
                    solar_direction: Direction::Ascending,
                },
            )),
            (event matches EventName::CustomPM(alt) ==> r == Event::Fixed(
                FixedElevationEvent {
                    degrees_below_horizon: alt,
                    solar_direction: Direction::Descending,
                },
            )),
            event == EventName::SolarNoon ==> r == Event::Variable(
                VariableElevationEvent::SolarNoon,
            ),
    {
        match event {
            EventName::Sunrise => Event::Fixed(
                FixedElevationEvent::new(Altitude { v: 833_000 }, Direction::Ascending),
            ),
            EventName::Sunset => Event::Fixed(
                FixedElevationEvent::new(Altitude { v: 833_000 }, Direction::Descending),
            ),
            EventName::CivilDawn => Event::Fixed(
                FixedElevationEvent::new(Altitude { v: 6_000_000 }, Direction::Ascending),
            ),
            EventName::CivilDusk => Event::Fixed(
                FixedElevationEvent::new(Altitude { v: 6_000_000 }, Direction::Descending),
            ),
            EventName::NauticalDawn => Event::Fixed(
                FixedElevationEvent::new(Altitude { v: 12_000_000 }, Direction::Ascending),
            ),
            EventName::NauticalDusk => Event::Fixed(
                FixedElevationEvent::new(Altitude { v: 12_000_000 }, Direction::Descending),
            ),
            EventName::AstronomicalDawn => Event::Fixed(
                FixedElevationEvent::new(Altitude { v: 18_000_000 }, Direction::Ascending),
            ),
            EventName::AstronomicalDusk => Event::Fixed(
                FixedElevationEvent::new(Altitude { v: 18_000_000 }, Direction::Descending),
            ),
            EventName::CustomAM(alt) => Event::Fixed(
                FixedElevationEvent::new(alt, Direction::Ascending),
            ),
            EventName::CustomPM(alt) => Event::Fixed(
                FixedElevationEvent::new(alt, Direction::Descending),
            ),
            EventName::SolarNoon => Event::Variable(VariableElevationEvent::SolarNoon),
        }
    }
}

} // verus!
