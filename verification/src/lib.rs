//! Calendar-aware difference between two zoned instants.
//!
//! The heart of the crate is `date_component::calculate`, which breaks the gap
//! between two points in time into calendar components (years, months, weeks,
//! days, hours, minutes, seconds) with correct month/day borrowing, together
//! with flat totals of the elapsed physical time. The time-of-day components
//! are derived from the physical duration, so they stay correct across
//! daylight-saving transitions.

pub mod civil;
pub mod date_component;
pub mod zone;
