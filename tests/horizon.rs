use sunrise_sunset::horizon::{horizon_altitude, SEA_LEVEL_HORIZON};

#[test]
fn sea_level_horizon_is_refraction_only() {
    assert_eq!(horizon_altitude(0), -833_000);
    assert_eq!(horizon_altitude(0), SEA_LEVEL_HORIZON);
}

#[test]
fn horizon_at_one_hundred_metres() {
    // 2.076 * sqrt(100) / 60 = 0.346 degrees of dip
    assert_eq!(horizon_altitude(100_000), -1_179_000);
}

#[test]
fn horizon_at_one_metre_and_two_metres() {
    // 2.076 / 60 = 0.0346 degrees
    assert_eq!(horizon_altitude(1_000), -867_600);
    // sqrt(2 * 1e8) rounded down is 14142; 2076 * 14142 / 600 = 48931
    assert_eq!(horizon_altitude(2_000), -881_931);
}

#[test]
fn horizon_falls_as_elevation_grows() {
    let mut last = horizon_altitude(0);
    for e in [1i64, 10, 999, 1_000, 5_000, 1_000_000, 8_848_000, i64::MAX] {
        let a = horizon_altitude(e);
        assert!(a <= last);
        last = a;
    }
}
