//! Signed whole-day differences between proleptic-Gregorian calendar dates,
//! parsed from and rendered to text with a strptime-style pattern.

pub mod calendar;
pub mod pattern;
pub mod render;
pub mod resolve;
