use sunrise_sunset::events::{
    check_hour_angle_cosine, sun_events, validate_observer, InputField, SolarError, SunEvents,
};
use sunrise_sunset::julian::{J2000_JULIAN, MICROS_PER_DAY};

#[test]
fn latitude_at_the_poles_is_rejected() {
    let lat = Err(SolarError::InvalidInput { field: InputField::Latitude });
    assert_eq!(validate_observer(90_000_000, 0), lat);
    assert_eq!(validate_observer(-90_000_000, 0), lat);
    assert_eq!(validate_observer(120_000_000, -5_000), lat);
}

#[test]
fn negative_elevation_is_rejected() {
    assert_eq!(
        validate_observer(27_670_600, -5_000),
        Err(SolarError::InvalidInput { field: InputField::Elevation })
    );
}

#[test]
fn valid_observers_are_accepted() {
    assert_eq!(validate_observer(27_670_600, 0), Ok(()));
    assert_eq!(validate_observer(89_999_999, 8_848_000), Ok(()));
    assert_eq!(validate_observer(-89_999_999, 0), Ok(()));
}

#[test]
fn hour_angle_cosine_domain() {
    assert_eq!(check_hour_angle_cosine(1_000_000_000), Ok(()));
    assert_eq!(check_hour_angle_cosine(-1_000_000_000), Ok(()));
    assert_eq!(check_hour_angle_cosine(0), Ok(()));
    assert_eq!(check_hour_angle_cosine(1_000_000_001), Err(SolarError::SunNeverRisesOrSets));
    assert_eq!(check_hour_angle_cosine(-1_000_000_001), Err(SolarError::SunNeverRisesOrSets));
}

#[test]
fn events_around_j2000_transit() {
    let noon = 946_728_000_000_000;
    assert_eq!(
        sun_events(J2000_JULIAN, 90_000_000),
        SunEvents { sunrise: noon - MICROS_PER_DAY / 4, transit: noon, sunset: noon + MICROS_PER_DAY / 4 }
    );
    let e = sun_events(J2000_JULIAN, 0);
    assert_eq!((e.sunrise, e.transit, e.sunset), (noon, noon, noon));
    let e = sun_events(J2000_JULIAN, 180_000_000);
    assert_eq!(e.sunrise, noon - MICROS_PER_DAY / 2);
    assert_eq!(e.sunset, noon + MICROS_PER_DAY / 2);
}

#[test]
fn events_ordered_within_a_day_of_transit() {
    for w in [1u32, 1_000, 45_000_000, 104_194_260, 179_999_999, 180_000_000] {
        let e = sun_events(J2000_JULIAN + 8_572 * MICROS_PER_DAY, w);
        assert!(e.sunrise < e.transit && e.transit < e.sunset);
        assert!(e.transit - e.sunrise <= MICROS_PER_DAY / 2);
        assert!(e.sunset - e.transit <= MICROS_PER_DAY / 2);
    }
}

#[test]
fn wider_hour_angle_widens_the_day() {
    let narrow = sun_events(J2000_JULIAN, 100_000_000);
    let wide = sun_events(J2000_JULIAN, 100_500_000);
    assert!(wide.sunrise < narrow.sunrise);
    assert!(wide.sunset > narrow.sunset);
    assert_eq!(narrow.sunrise - wide.sunrise, 500_000 * 240);
}
