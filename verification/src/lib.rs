//! Coordination core for a small fleet of differential-drive robots.
//!
//! The fleet is driven through an ordered queue of motion primitives using
//! live pose feedback.  All geometry is carried out over exact integers:
//! angles are measured in thousandths of a degree (a full turn is
//! 360 000 units, so the controllers' breakpoints at fractions of a half
//! turn are exact), positions in integer arena units, and distance
//! comparisons are performed on squared lengths, which agrees with
//! comparing the true lengths because both sides are non-negative.

pub mod angle;
pub mod steer;
pub mod task;
pub mod telemetry;
pub mod sequencer;
