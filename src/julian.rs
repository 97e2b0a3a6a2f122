//! Conversions between Unix instants and Julian dates, and the Julian-day
//! arithmetic that selects the solar day and its mean solar time.
use vstd::prelude::*;

verus! {

/// Microseconds in one day.
pub const MICROS_PER_DAY: i64 = 86_400_000_000;

/// Julian date of the Unix epoch (2440587.5 days), in microseconds.
pub const UNIX_EPOCH_JULIAN: i64 = 210_866_760_000_000_000;

/// Julian date of the J2000 epoch (2451545.0 days), in microseconds.
pub const J2000_JULIAN: i64 = 211_813_488_000_000_000;

/// Fraction of a day for the leap-year correction (0.0008 days), in microseconds.
pub const LEAP_YEAR_FRACTION: i64 = 69_120_000;

/// Fixed leap-second correction (69.184 seconds), in microseconds.
pub const ADDED_SECONDS: i64 = 69_184_000;

/// Largest magnitude of an instant, in microseconds from the Unix epoch,
/// that the library accepts (about 285,000 years either side).
pub const MAX_INSTANT: i64 = 9_000_000_000_000_000_000;

/// Largest magnitude of a Julian day number derived from an accepted instant.
pub const MAX_DAY_NUMBER: i64 = 104_200_000;

/// Largest magnitude of a mean solar time, in microseconds from J2000.
pub const MAX_MEAN_SOLAR_TIME: i64 = 9_005_000_000_000_000_000;

/// Largest magnitude of a solar transit, in microseconds from J2000.
pub const MAX_TRANSIT_OFFSET: i64 = 9_010_000_000_000_000_000;

/// Microseconds of time per micro-degree of rotation: a full turn of
/// 360 degrees takes one day.
pub const MICROS_PER_MICRODEGREE: i64 = 240;

/// The Julian date of an instant.
pub open spec fn julian_of(instant: int) -> int {
    instant + UNIX_EPOCH_JULIAN
}

/// The instant of a Julian date.
pub open spec fn epoch_of(julian: int) -> int {
    julian - UNIX_EPOCH_JULIAN
}

/// A Julian date that corresponds to an accepted instant.
pub open spec fn julian_in_range(julian: int) -> bool {
    -MAX_INSTANT <= epoch_of(julian) <= MAX_INSTANT
}

/// Smallest integer `n` with `a <= n * d`, for `d > 0`.
pub open spec fn ceil_div(a: int, d: int) -> int {
    -((-a) / d)
}

/// The Julian day number, counted from J2000, that a Julian date selects:
/// `ceil(julian - (2451545.0 + 0.0008) + 69.184 / 86400)` in days.
pub open spec fn day_number_of(julian: int) -> int {
    ceil_div(julian - J2000_JULIAN - LEAP_YEAR_FRACTION + ADDED_SECONDS, MICROS_PER_DAY as int)
}

/// Mean solar time `n - longitude / 360` days, in microseconds from J2000.
pub open spec fn mean_solar_time_of(day_number: int, longitude: int) -> int {
    day_number * MICROS_PER_DAY - longitude * MICROS_PER_MICRODEGREE
}

/// Julian date of the solar transit: J2000 plus the mean solar time plus
/// the equation-of-time correction.
pub open spec fn transit_of(mean_solar_time: int, correction: int) -> int {
    J2000_JULIAN + mean_solar_time + correction
}

/// Converts an instant (microseconds from the Unix epoch) to a Julian date
/// in microseconds.
pub fn epoch_to_julian(instant: i64) -> (julian: i64)
    requires
        -MAX_INSTANT <= instant <= MAX_INSTANT,
    ensures
        julian == julian_of(instant as int),
        julian_in_range(julian as int),
{
    instant + UNIX_EPOCH_JULIAN
}

/// Converts a Julian date in microseconds to an instant (microseconds from
/// the Unix epoch).
pub fn julian_to_epoch(julian: i64) -> (instant: i64)
    requires
        julian >= i64::MIN + UNIX_EPOCH_JULIAN,
    ensures
        instant == epoch_of(julian as int),
{
    julian - UNIX_EPOCH_JULIAN
}

/// The Julian day number, counted from J2000, whose solar transit the
/// computation targets: the Julian date less J2000 and the leap-year
/// fraction, plus the leap-second correction, rounded up to whole days.
pub fn julian_day_number(julian: i64) -> (n: i64)
    requires
        julian_in_range(julian as int),
    ensures
        n == day_number_of(julian as int),
        (n - 1) * MICROS_PER_DAY < julian - J2000_JULIAN - LEAP_YEAR_FRACTION + ADDED_SECONDS,
        julian - J2000_JULIAN - LEAP_YEAR_FRACTION + ADDED_SECONDS <= n * MICROS_PER_DAY,
        -MAX_DAY_NUMBER <= n <= MAX_DAY_NUMBER,
{
    let x: i64 = julian - J2000_JULIAN - LEAP_YEAR_FRACTION + ADDED_SECONDS;
    if x > 0 {
        let q: i64 = (x - 1) / MICROS_PER_DAY + 1;
        q
    } else {
        let q: i64 = (-x) / MICROS_PER_DAY;
        -q
    }
}

/// Mean solar time of a Julian day number at a longitude (micro-degrees,
/// east positive): `n - longitude / 360` days, in microseconds from J2000.
pub fn mean_solar_time(day_number: i64, longitude: i32) -> (t: i64)
    requires
        -MAX_DAY_NUMBER <= day_number <= MAX_DAY_NUMBER,
    ensures
        t == mean_solar_time_of(day_number as int, longitude as int),
        -MAX_MEAN_SOLAR_TIME <= t <= MAX_MEAN_SOLAR_TIME,
{
    day_number * MICROS_PER_DAY - (longitude as i64) * MICROS_PER_MICRODEGREE
}

/// Julian date of the solar transit (local solar noon), from the mean solar
/// time and the equation-of-time correction `0.0053 sin(M) - 0.0069 sin(2L)`
/// days, both in microseconds.
pub fn solar_transit(mean_solar_time: i64, correction: i32) -> (j: i64)
    requires
        -MAX_MEAN_SOLAR_TIME <= mean_solar_time <= MAX_MEAN_SOLAR_TIME,
    ensures
        j == transit_of(mean_solar_time as int, correction as int),
        -MAX_TRANSIT_OFFSET <= j - J2000_JULIAN <= MAX_TRANSIT_OFFSET,
{
    J2000_JULIAN + mean_solar_time + correction as i64
}

/// Converting an instant to a Julian date and back gives the instant, and
/// converting a Julian date to an instant and back gives the Julian date.
pub proof fn lemma_julian_round_trip(instant: int, julian: int)
    ensures
        epoch_of(julian_of(instant)) == instant,
        julian_of(epoch_of(julian)) == julian,
{
}

} // verus!
