use heliocron::calc::SolarCalculations;
use heliocron::domain::{
    Coordinates, Event, EventName, EventTime, Latitude, Longitude,
};
use heliocron::instant::Instant;

const DEG: i64 = 1_000_000;

fn coords(lat_udeg: i64, lon_udeg: i64) -> Coordinates {
    Coordinates::new(
        Latitude::new(lat_udeg).unwrap(),
        Longitude::new(lon_udeg).unwrap(),
    )
}

fn london() -> Coordinates {
    coords(51_476_900, -500)
}

fn resolve(calc: &SolarCalculations, name: EventName) -> EventTime {
    calc.event_time(&Event::from_event_name(name))
}

fn time_of(e: &EventTime) -> i64 {
    e.time().expect("event should occur")
}

#[test]
fn june_solstice_in_london_has_long_days() {
    // Northern summer solstice, UTC+00:00.
    let i = Instant::new(2022, 6, 21, 12, 0, 0, 0).unwrap();
    let calc = SolarCalculations::new(i, london());

    let sunrise = time_of(&resolve(&calc, EventName::Sunrise));
    let sunset = time_of(&resolve(&calc, EventName::Sunset));
    let noon = time_of(&resolve(&calc, EventName::SolarNoon));

    // Sunrise well before 05:00 civil time.
    assert!(sunrise < 5 * 3600, "sunrise {sunrise}");
    assert!(sunrise > 2 * 3600, "sunrise {sunrise}");
    // Sunset late in the evening (about 20:21 UTC; on the UTC+1 civil
    // clock it falls after 21:00); the day is longer than 16 hours.
    assert!(sunset > 20 * 3600, "sunset {sunset}");
    assert!(sunset < 21 * 3600, "sunset {sunset}");
    assert!(sunset - sunrise > 16 * 3600, "day length {}", sunset - sunrise);
    // Solar noon near 12:00 (within a quarter hour).
    assert!((noon - 12 * 3600).abs() < 15 * 60, "noon {noon}");

    // The Sun stands higher than 60 degrees at solar noon.
    let noon_instant = resolve(&calc, EventName::SolarNoon).0.unwrap();
    let at_noon = calc.refresh(noon_instant);
    assert!(at_noon.solar_elevation() > 60 * DEG);
}

#[test]
fn june_solstice_in_london_at_british_summer_time() {
    // The same scenario one hour east of UTC: sunrise before 05:00 and
    // sunset after 21:00 on the local clock.
    let i = Instant::new(2022, 6, 21, 12, 0, 0, 3600).unwrap();
    let calc = SolarCalculations::new(i, london());
    let sunrise = time_of(&resolve(&calc, EventName::Sunrise));
    let sunset = time_of(&resolve(&calc, EventName::Sunset));
    assert!(sunrise < 5 * 3600, "sunrise {sunrise}");
    assert!(sunset > 21 * 3600, "sunset {sunset}");
}

#[test]
fn december_solstice_in_london_has_short_days() {
    // Winter solstice: sunrise after 08:00, sunset before 16:00, and a
    // shorter day than at the June solstice.
    let i = Instant::new(2022, 12, 21, 12, 0, 0, 0).unwrap();
    let calc = SolarCalculations::new(i, london());
    let sunrise = time_of(&resolve(&calc, EventName::Sunrise));
    let sunset = time_of(&resolve(&calc, EventName::Sunset));
    assert!(sunrise > 8 * 3600, "sunrise {sunrise}");
    assert!(sunset < 16 * 3600, "sunset {sunset}");

    let j = Instant::new(2022, 6, 21, 12, 0, 0, 0).unwrap();
    let june = SolarCalculations::new(j, london());
    let june_len =
        time_of(&resolve(&june, EventName::Sunset)) - time_of(&resolve(&june, EventName::Sunrise));
    assert!(sunset - sunrise < june_len);
}

#[test]
fn equinox_at_the_equator_is_symmetric_about_noon() {
    let i = Instant::new(2022, 3, 20, 12, 0, 0, 0).unwrap();
    let calc = SolarCalculations::new(i, coords(0, 0));
    let sunrise = time_of(&resolve(&calc, EventName::Sunrise));
    let sunset = time_of(&resolve(&calc, EventName::Sunset));
    let noon = time_of(&resolve(&calc, EventName::SolarNoon));
    // Exact symmetry in the model, up to one second of rounding.
    assert!(((noon - sunrise) - (sunset - noon)).abs() <= 1);
    // Roughly a six o'clock sunrise.
    assert!(sunrise > 5 * 3600 + 1800 && sunrise < 6 * 3600 + 1800, "sunrise {sunrise}");
}

#[test]
fn polar_day_and_night_have_no_sunrise_but_a_solar_noon() {
    // Svalbard, far beyond the Arctic circle.
    let midsummer = Instant::new(2022, 6, 21, 12, 0, 0, 0).unwrap();
    let calc = SolarCalculations::new(midsummer, coords(78 * DEG, 15 * DEG));
    assert!(!resolve(&calc, EventName::Sunrise).is_some());
    assert!(!resolve(&calc, EventName::Sunset).is_some());
    assert!(resolve(&calc, EventName::SolarNoon).is_some());

    let midwinter = Instant::new(2022, 12, 21, 12, 0, 0, 0).unwrap();
    let calc = SolarCalculations::new(midwinter, coords(78 * DEG, 15 * DEG));
    assert!(!resolve(&calc, EventName::Sunrise).is_some());
    assert!(!resolve(&calc, EventName::Sunset).is_some());
    assert!(resolve(&calc, EventName::SolarNoon).is_some());
}

#[test]
fn refresh_matches_building_anew() {
    let i1 = Instant::new(2022, 6, 21, 6, 0, 0, 0).unwrap();
    let i2 = Instant::new(2022, 6, 21, 18, 0, 0, 0).unwrap();
    let first = SolarCalculations::new(i1, london());
    let refreshed = first.refresh(i2);
    let rebuilt = SolarCalculations::new(i2, london());

    assert_eq!(refreshed.solar_elevation(), rebuilt.solar_elevation());
    assert_eq!(refreshed.solar_azimuth(), rebuilt.solar_azimuth());
    assert_eq!(
        resolve(&refreshed, EventName::Sunrise).time(),
        resolve(&rebuilt, EventName::Sunrise).time()
    );
    assert_eq!(
        resolve(&refreshed, EventName::SolarNoon).time(),
        resolve(&rebuilt, EventName::SolarNoon).time()
    );
    // The first snapshot is untouched and still answers queries.
    assert_eq!(first.instant().second_of_day(), 6 * 3600);
}

#[test]
fn elevation_and_azimuth_follow_the_day() {
    let c = london();
    let morning = SolarCalculations::new(Instant::new(2022, 6, 21, 6, 0, 0, 0).unwrap(), c);
    let noonish = SolarCalculations::new(Instant::new(2022, 6, 21, 12, 2, 0, 0).unwrap(), c);
    let night = SolarCalculations::new(Instant::new(2022, 6, 21, 0, 30, 0, 0).unwrap(), c);

    assert!(morning.solar_elevation() > 0);
    assert!(noonish.solar_elevation() > morning.solar_elevation());
    assert!(night.solar_elevation() < 0);

    // Azimuth swings from the east side in the morning to near south at noon.
    let am = morning.solar_azimuth();
    assert!(am > 60 * DEG && am < 120 * DEG, "morning azimuth {am}");
    let md = noonish.solar_azimuth();
    assert!(md > 150 * DEG && md < 210 * DEG, "midday azimuth {md}");
}

#[test]
fn twilight_thresholds_order_the_morning() {
    // Dawn events at a mid latitude in spring come in threshold order.
    let i = Instant::new(2022, 3, 20, 12, 0, 0, 0).unwrap();
    let calc = SolarCalculations::new(i, london());
    let astro = time_of(&resolve(&calc, EventName::AstronomicalDawn));
    let nautical = time_of(&resolve(&calc, EventName::NauticalDawn));
    let civil = time_of(&resolve(&calc, EventName::CivilDawn));
    let sunrise = time_of(&resolve(&calc, EventName::Sunrise));
    assert!(astro < nautical && nautical < civil && civil < sunrise);
    let dusk = time_of(&resolve(&calc, EventName::CivilDusk));
    let sunset = time_of(&resolve(&calc, EventName::Sunset));
    assert!(dusk > sunset);
}

#[test]
fn events_near_the_date_line_normalise_into_a_day() {
    // At longitude 180 with a UTC clock, solar noon falls around local
    // midnight, so resolved instants spill across the civil date and
    // must still carry a valid clock time on an adjacent day.
    let i = Instant::new(2022, 6, 21, 12, 0, 0, 0).unwrap();
    let calc = SolarCalculations::new(i, coords(10 * DEG, 180 * DEG));
    let noon = resolve(&calc, EventName::SolarNoon);
    assert!(noon.is_some());
    let t = noon.time().unwrap();
    assert!(0 <= t && t < 86400);
    let instant = noon.0.unwrap();
    assert!((instant.days() - i.days()).abs() <= 1);
}
