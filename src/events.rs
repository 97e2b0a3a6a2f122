//! Input validation, the polar-day / polar-night decision, and the sunrise
//! and sunset instants around a solar transit.
use vstd::prelude::*;
use crate::julian::{
    day_number_of, epoch_of, julian_of, mean_solar_time_of, transit_of, J2000_JULIAN,
    MAX_TRANSIT_OFFSET, MICROS_PER_MICRODEGREE, UNIX_EPOCH_JULIAN,
};

verus! {

/// Latitude of a pole, in micro-degrees.
pub const POLE_LATITUDE: i32 = 90_000_000;

/// One, as an hour-angle cosine in units of 1e-9.
pub const COSINE_ONE: i64 = 1_000_000_000;

/// Largest hour angle, in micro-degrees: half a turn.
pub const MAX_HOUR_ANGLE: u32 = 180_000_000;

/// Half a day, in microseconds.
pub const HALF_DAY: i64 = 43_200_000_000;

/// The input that was rejected.
#[derive(Clone, Copy, Debug, PartialEq, Eq, Structural)]
pub enum InputField {
    Latitude,
    Elevation,
}

/// Why no sunrise and sunset could be computed.
#[derive(Clone, Copy, Debug, PartialEq, Eq, Structural)]
pub enum SolarError {
    /// The latitude is not strictly between the poles, or the elevation is
    /// below sea level.
    InvalidInput { field: InputField },
    /// The hour-angle cosine lies outside [-1, 1]: the sun stays above or
    /// below the adjusted horizon all day (polar day or polar night).
    SunNeverRisesOrSets,
}

/// Sunrise, solar transit and sunset, in microseconds from the Unix epoch.
#[derive(Clone, Copy, Debug, PartialEq, Eq, Structural)]
pub struct SunEvents {
    pub sunrise: i64,
    pub transit: i64,
    pub sunset: i64,
}

/// A latitude (micro-degrees) strictly between the poles.
pub open spec fn latitude_valid(latitude: int) -> bool {
    -POLE_LATITUDE < latitude < POLE_LATITUDE
}

/// A hour-angle cosine (units of 1e-9) within [-1, 1].
pub open spec fn cosine_in_domain(cosine: int) -> bool {
    -COSINE_ONE <= cosine <= COSINE_ONE
}

/// Sunrise, in microseconds from the Unix epoch, for a transit Julian date
/// and an hour angle in micro-degrees: the transit less `hour_angle / 360` days.
pub open spec fn sunrise_of(transit: int, hour_angle: int) -> int {
    epoch_of(transit) - hour_angle * MICROS_PER_MICRODEGREE
}

/// Sunset, in microseconds from the Unix epoch, for a transit Julian date
/// and an hour angle in micro-degrees: the transit plus `hour_angle / 360` days.
pub open spec fn sunset_of(transit: int, hour_angle: int) -> int {
    epoch_of(transit) + hour_angle * MICROS_PER_MICRODEGREE
}

/// Checks the observer: the latitude (micro-degrees) must lie strictly
/// between -90 and 90 degrees, and the elevation (millimetres) must not be
/// negative. The latitude is checked first.
pub fn validate_observer(latitude: i32, elevation: i64) -> (r: Result<(), SolarError>)
    ensures
        r is Ok <==> latitude_valid(latitude as int) && elevation >= 0,
        r == Err::<(), SolarError>(SolarError::InvalidInput { field: InputField::Latitude })
            <==> !latitude_valid(latitude as int),
        r == Err::<(), SolarError>(SolarError::InvalidInput { field: InputField::Elevation })
            <==> latitude_valid(latitude as int) && elevation < 0,
{
    if latitude <= -POLE_LATITUDE || latitude >= POLE_LATITUDE {
        Err(SolarError::InvalidInput { field: InputField::Latitude })
    } else if elevation < 0 {
        Err(SolarError::InvalidInput { field: InputField::Elevation })
    } else {
        Ok(())
    }
}

/// Decides whether the sun crosses the adjusted horizon: the hour-angle
/// cosine (units of 1e-9) must lie within [-1, 1].
pub fn check_hour_angle_cosine(cosine: i64) -> (r: Result<(), SolarError>)
    ensures
        r is Ok <==> cosine_in_domain(cosine as int),
        r is Err ==> r == Err::<(), SolarError>(SolarError::SunNeverRisesOrSets),
{
    if cosine < -COSINE_ONE || cosine > COSINE_ONE {
        Err(SolarError::SunNeverRisesOrSets)
    } else {
        Ok(())
    }
}

/// Sunrise and sunset around a solar transit (a Julian date in
/// microseconds), for an hour angle in micro-degrees: the transit less and
/// plus `hour_angle / 360` days, all as instants from the Unix epoch.
pub fn sun_events(transit: i64, hour_angle: u32) -> (e: SunEvents)
    requires
        -MAX_TRANSIT_OFFSET <= transit - J2000_JULIAN <= MAX_TRANSIT_OFFSET,
        hour_angle <= MAX_HOUR_ANGLE,
    ensures
        e.transit == epoch_of(transit as int),
        e.sunrise == sunrise_of(transit as int, hour_angle as int),
        e.sunset == sunset_of(transit as int, hour_angle as int),
        e.transit - HALF_DAY <= e.sunrise <= e.transit <= e.sunset <= e.transit + HALF_DAY,
        hour_angle > 0 ==> e.sunrise < e.sunset,
{
    let t: i64 = transit - UNIX_EPOCH_JULIAN;
    let half_span: i64 = (hour_angle as i64) * MICROS_PER_MICRODEGREE;
    SunEvents { sunrise: t - half_span, transit: t, sunset: t + half_span }
}

/// Whenever the sun crosses the horizon at a positive hour angle, sunrise
/// comes strictly before sunset, and both lie within the day-long window
/// centred on the solar transit.
pub proof fn lemma_events_ordered(transit: int, hour_angle: int)
    requires
        0 < hour_angle <= MAX_HOUR_ANGLE,
    ensures
        sunrise_of(transit, hour_angle) < sunset_of(transit, hour_angle),
        epoch_of(transit) - HALF_DAY <= sunrise_of(transit, hour_angle) <= epoch_of(transit),
        epoch_of(transit) <= sunset_of(transit, hour_angle) <= epoch_of(transit) + HALF_DAY,
{
}

/// A wider hour angle, as a lower horizon gives, moves sunrise earlier and
/// sunset later; an equal one leaves both unchanged.
pub proof fn lemma_events_widen(transit: int, narrow: int, wide: int)
    requires
        narrow <= wide,
    ensures
        sunrise_of(transit, wide) <= sunrise_of(transit, narrow),
        sunset_of(transit, narrow) <= sunset_of(transit, wide),
{
}

/// Julian date of the solar transit that an instant selects at a longitude,
/// given the equation-of-time correction for that day.
pub open spec fn transit_at(instant: int, longitude: int, correction: int) -> int {
    transit_of(mean_solar_time_of(day_number_of(julian_of(instant)), longitude), correction)
}

/// The computation is a function of its inputs: the same instant,
/// longitude, correction and hour angle always give the same sunrise and
/// sunset.
pub proof fn lemma_events_deterministic(
    instant: int,
    longitude: int,
    correction: int,
    hour_angle: int,
    again: (int, int, int, int),
)
    requires
        again == (instant, longitude, correction, hour_angle),
    ensures
        sunrise_of(transit_at(instant, longitude, correction), hour_angle) == sunrise_of(
            transit_at(again.0, again.1, again.2),
            again.3,
        ),
        sunset_of(transit_at(instant, longitude, correction), hour_angle) == sunset_of(
            transit_at(again.0, again.1, again.2),
            again.3,
        ),
{
}

} // verus!
