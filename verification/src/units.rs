//! Shared measurement conventions.
//!
//! Absolute humidity itself is computed outside the library (it takes
//! floating-point math); the library decides when the sensors publish or
//! consume it.

use vstd::prelude::*;

verus! {

/// Humidity-capable sensors publish absolute humidity on every poll whose
/// count is a multiple of this; the VOC sensor refreshes its on-chip
/// humidity compensation at twice this interval.
pub const ABS_HUMIDITY_INTERVAL: u64 = 5;

} // verus!
