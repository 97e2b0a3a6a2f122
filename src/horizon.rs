//! The altitude of the refraction- and elevation-adjusted horizon.
use vstd::prelude::*;

verus! {

/// Apparent altitude of the horizon at sea level, from atmospheric
/// refraction and the solar radius (-0.833 degrees), in micro-degrees.
pub const SEA_LEVEL_HORIZON: i64 = -833_000;

/// Dip of the horizon per square root of a metre of elevation is
/// 2.076 / 60 degrees. With the elevation in millimetres scaled by
/// `ELEVATION_SCALE`, the square root is in units of 1e-4 metre^(1/2), and
/// the dip in micro-degrees is `DIP_FACTOR * root / DIP_DIVISOR`.
pub const ELEVATION_SCALE: u128 = 100_000;

/// Numerator of the dip factor (see `ELEVATION_SCALE`).
pub const DIP_FACTOR: i64 = 2076;

/// Denominator of the dip factor (see `ELEVATION_SCALE`).
pub const DIP_DIVISOR: i64 = 600;

/// The integer square root of `x`, rounded down, defined by counting up.
pub open spec fn floor_sqrt(x: nat) -> nat
    decreases x,
{
    if x == 0 {
        0
    } else {
        let r = floor_sqrt((x - 1) as nat);
        if (r + 1) * (r + 1) <= x {
            (r + 1) as nat
        } else {
            r
        }
    }
}

/// `r` is the square root of `x` rounded down.
pub open spec fn is_floor_sqrt(x: int, r: int) -> bool {
    0 <= r && r * r <= x < (r + 1) * (r + 1)
}

/// Altitude of the horizon, in micro-degrees, seen from an elevation in
/// millimetres: `-0.833 - 2.076 * sqrt(elevation) / 60` degrees.
pub open spec fn horizon_altitude_of(elevation: nat) -> int {
    SEA_LEVEL_HORIZON - (DIP_FACTOR * floor_sqrt(elevation * (ELEVATION_SCALE as nat))) / (DIP_DIVISOR as int)
}

/// `floor_sqrt` is the square root rounded down.
pub proof fn lemma_floor_sqrt(x: nat)
    ensures
        is_floor_sqrt(x as int, floor_sqrt(x) as int),
    decreases x,
{
    if x > 0 {
        lemma_floor_sqrt((x - 1) as nat);
        let r = floor_sqrt((x - 1) as nat) as int;
        if (r + 1) * (r + 1) <= x {
            assert(x < (r + 2) * (r + 2)) by (nonlinear_arith)
                requires
                    x - 1 < (r + 1) * (r + 1),
                    r >= 0,
            ;
        }
    }
}

/// The square root rounded down is unique.
pub proof fn lemma_floor_sqrt_unique(x: int, r: int, s: int)
    requires
        is_floor_sqrt(x, r),
        is_floor_sqrt(x, s),
    ensures
        r == s,
{
    if r < s {
        assert((r + 1) * (r + 1) <= s * s) by (nonlinear_arith)
            requires
                0 <= r < s,
        ;
    } else if s < r {
        assert((s + 1) * (s + 1) <= r * r) by (nonlinear_arith)
            requires
                0 <= s < r,
        ;
    }
}

/// The square root rounded down never decreases as its argument grows.
pub proof fn lemma_floor_sqrt_monotonic(x: nat, y: nat)
    requires
        x <= y,
    ensures
        floor_sqrt(x) <= floor_sqrt(y),
{
    lemma_floor_sqrt(x);
    lemma_floor_sqrt(y);
    let r = floor_sqrt(x) as int;
    let s = floor_sqrt(y) as int;
    if s < r {
        assert((s + 1) * (s + 1) <= r * r) by (nonlinear_arith)
            requires
                0 <= s < r,
        ;
    }
}

/// Square root of `x` rounded down, by bisection.
fn square_root(x: u128) -> (r: u128)
    requires
        x < 0x1_0000_0000_0000_0000_0000,
    ensures
        r == floor_sqrt(x as nat),
        r < 0x100_0000_0000,
{
    let mut lo: u128 = 0;
    let mut hi: u128 = 0x100_0000_0000;
    assert(hi * hi == 0x1_0000_0000_0000_0000_0000);
    while hi - lo > 1
        invariant
            lo < hi <= 0x100_0000_0000,
            lo * lo <= x < hi * hi,
        decreases hi - lo,
    {
        let mid: u128 = lo + (hi - lo) / 2;
        assert(mid * mid <= 0x1_0000_0000_0000_0000_0000) by (nonlinear_arith)
            requires
                mid <= 0x100_0000_0000,
        ;
        if mid * mid <= x {
            lo = mid;
        } else {
            hi = mid;
        }
    }
    proof {
        lemma_floor_sqrt(x as nat);
        lemma_floor_sqrt_unique(x as int, lo as int, floor_sqrt(x as nat) as int);
    }
    lo
}

/// Altitude of the horizon, in micro-degrees, seen from an elevation in
/// millimetres above sea level: `-0.833 - 2.076 * sqrt(elevation) / 60`
/// degrees, with the square root taken to 1e-4 of a metre^(1/2).
pub fn horizon_altitude(elevation: i64) -> (altitude: i64)
    requires
        elevation >= 0,
    ensures
        altitude == horizon_altitude_of(elevation as nat),
        altitude <= SEA_LEVEL_HORIZON,
{
    let scaled: u128 = (elevation as u128) * ELEVATION_SCALE;
    let root: u128 = square_root(scaled);
    let dip: i64 = DIP_FACTOR * (root as i64) / DIP_DIVISOR;
    SEA_LEVEL_HORIZON - dip
}

/// A higher observer sees a lower horizon: the horizon altitude never rises
/// as the elevation grows, and at sea level it is -0.833 degrees.
pub proof fn lemma_horizon_falls_with_elevation(low: nat, high: nat)
    requires
        low <= high,
    ensures
        horizon_altitude_of(high) <= horizon_altitude_of(low),
        horizon_altitude_of(0) == SEA_LEVEL_HORIZON,
{
    assert(low * (ELEVATION_SCALE as nat) <= high * (ELEVATION_SCALE as nat)) by (nonlinear_arith)
        requires
            low <= high,
    ;
    lemma_floor_sqrt_monotonic(low * (ELEVATION_SCALE as nat), high * (ELEVATION_SCALE as nat));
    let a = floor_sqrt(low * (ELEVATION_SCALE as nat)) as int;
    let b = floor_sqrt(high * (ELEVATION_SCALE as nat)) as int;
    assert(DIP_FACTOR * a / 600 <= DIP_FACTOR * b / 600) by (nonlinear_arith)
        requires
            0 <= a <= b,
    ;
    reveal_with_fuel(floor_sqrt, 1);
}

} // verus!
