//! A verified core for a small real-time simulation: one circular body
//! falling under gravity inside a window, bouncing off (or stopping at) the
//! walls, and nudged by pointer clicks.
//!
//! All scalars are signed fixed-point integers ([`fixed::SCALE`] stored units
//! per world unit) and time advances in ticks of 1/60 second, so every stage
//! of the per-frame update is exact integer arithmetic with a proved
//! contract. The host loop (windowing, rendering, input) stays outside; it
//! hands the library plain values each frame.

pub mod body;
pub mod fixed;
pub mod laws;
pub mod step;
