//! Sunrise and sunset from a closed-form solar-position approximation,
//! computed on exact fixed-point quantities.
//!
//! Units used throughout the library:
//! - instants and Julian dates are whole microseconds (`i64`);
//! - angles are whole micro-degrees;
//! - elevation is whole millimetres above sea level.
//!
//! The trigonometric stages of the computation (equation of center, ecliptic
//! longitude, declination, hour-angle cosine and its arc cosine) are real-valued
//! and are carried out by the caller; the library takes their results as
//! fixed-point values and does every exact step around them.

pub mod events;
pub mod horizon;
pub mod julian;
