use heliocron::domain::{
    Altitude, Coordinates, DayPart, Direction, Event, EventName, EventTime, FixedElevationEvent,
    Latitude, Longitude, VariableElevationEvent,
};
use heliocron::instant::Instant;

const DEG: i64 = 1_000_000;

#[test]
fn latitude_round_trips_valid_values() {
    for v in [-90 * DEG, -51_476_900, 0, 12, 51_476_900, 90 * DEG] {
        let lat = Latitude::new(v).unwrap();
        assert_eq!(lat.value(), v);
    }
}

#[test]
fn latitude_rejects_out_of_range_values() {
    for v in [-90 * DEG - 1, 90 * DEG + 1, i64::MIN, i64::MAX, 180 * DEG] {
        let r = Latitude::new(v);
        assert!(r.is_err());
        let e = r.unwrap_err();
        assert_eq!(e.expected_min, -90 * DEG);
        assert_eq!(e.expected_max, 90 * DEG);
        assert_eq!(e.found, v);
    }
}

#[test]
fn longitude_round_trips_and_rejects_boundaries() {
    for v in [-180 * DEG, -500, 0, 180 * DEG] {
        assert_eq!(Longitude::new(v).unwrap().value(), v);
    }
    for v in [-180 * DEG - 1, 180 * DEG + 1, i64::MIN] {
        assert!(Longitude::new(v).is_err());
    }
}

#[test]
fn altitude_round_trips_and_rejects_boundaries() {
    for v in [-90 * DEG, -833_000, 0, 833_000, 90 * DEG] {
        assert_eq!(Altitude::new(v).unwrap().value(), v);
    }
    for v in [-90 * DEG - 1, 90 * DEG + 1] {
        assert!(Altitude::new(v).is_err());
    }
}

#[test]
fn classify_partitions_the_line_with_exact_boundaries() {
    assert_eq!(DayPart::from_elevation_angle(-90 * DEG), DayPart::Night);
    assert_eq!(DayPart::from_elevation_angle(-18 * DEG - 1), DayPart::Night);
    assert_eq!(
        DayPart::from_elevation_angle(-18 * DEG),
        DayPart::AstronomicalTwilight
    );
    assert_eq!(
        DayPart::from_elevation_angle(-12 * DEG - 1),
        DayPart::AstronomicalTwilight
    );
    assert_eq!(
        DayPart::from_elevation_angle(-12 * DEG),
        DayPart::NauticalTwilight
    );
    assert_eq!(
        DayPart::from_elevation_angle(-6 * DEG - 1),
        DayPart::NauticalTwilight
    );
    assert_eq!(DayPart::from_elevation_angle(-6 * DEG), DayPart::CivilTwilight);
    assert_eq!(DayPart::from_elevation_angle(832_999), DayPart::CivilTwilight);
    assert_eq!(DayPart::from_elevation_angle(833_000), DayPart::Day);
    assert_eq!(DayPart::from_elevation_angle(90 * DEG), DayPart::Day);
    assert_eq!(DayPart::from_elevation_angle(0), DayPart::CivilTwilight);
}

#[test]
fn event_table_matches_the_named_events() {
    let cases: [(EventName, i64, Direction); 8] = [
        (EventName::Sunrise, 833_000, Direction::Ascending),
        (EventName::Sunset, 833_000, Direction::Descending),
        (EventName::CivilDawn, 6 * DEG, Direction::Ascending),
        (EventName::CivilDusk, 6 * DEG, Direction::Descending),
        (EventName::NauticalDawn, 12 * DEG, Direction::Ascending),
        (EventName::NauticalDusk, 12 * DEG, Direction::Descending),
        (EventName::AstronomicalDawn, 18 * DEG, Direction::Ascending),
        (EventName::AstronomicalDusk, 18 * DEG, Direction::Descending),
    ];
    for (name, deg_below, dir) in cases {
        match Event::from_event_name(name) {
            Event::Fixed(f) => {
                assert_eq!(f.degrees_below_horizon.value(), deg_below);
                assert_eq!(f.solar_direction, dir);
            }
            Event::Variable(_) => panic!("expected a fixed-elevation event"),
        }
    }
    let custom = Altitude::new(4 * DEG).unwrap();
    match Event::from_event_name(EventName::CustomAM(custom)) {
        Event::Fixed(f) => {
            assert_eq!(f.degrees_below_horizon.value(), 4 * DEG);
            assert_eq!(f.solar_direction, Direction::Ascending);
        }
        Event::Variable(_) => panic!("expected a fixed-elevation event"),
    }
    match Event::from_event_name(EventName::CustomPM(custom)) {
        Event::Fixed(f) => {
            assert_eq!(f.degrees_below_horizon.value(), 4 * DEG);
            assert_eq!(f.solar_direction, Direction::Descending);
        }
        Event::Variable(_) => panic!("expected a fixed-elevation event"),
    }
    assert!(matches!(
        Event::from_event_name(EventName::SolarNoon),
        Event::Variable(VariableElevationEvent::SolarNoon)
    ));
}

#[test]
fn event_time_exposes_presence_and_clock_time() {
    let i = Instant::new(2022, 6, 21, 4, 43, 0, 0).unwrap();
    let present = EventTime::new(Some(i));
    assert!(present.is_some());
    assert_eq!(present.time(), Some(4 * 3600 + 43 * 60));
    let absent = EventTime::new(None);
    assert!(!absent.is_some());
    assert_eq!(absent.time(), None);
}

#[test]
fn fixed_elevation_event_keeps_its_parts() {
    let alt = Altitude::new(833_000).unwrap();
    let f = FixedElevationEvent::new(alt, Direction::Descending);
    assert_eq!(f.degrees_below_horizon.value(), 833_000);
    assert_eq!(f.solar_direction, Direction::Descending);
}

#[test]
fn coordinates_keep_their_parts() {
    let c = Coordinates::new(
        Latitude::new(51_476_900).unwrap(),
        Longitude::new(-500).unwrap(),
    );
    assert_eq!(c.latitude.value(), 51_476_900);
    assert_eq!(c.longitude.value(), -500);
}
