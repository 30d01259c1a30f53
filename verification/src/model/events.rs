//! Domain events for tracking booking actions.
//!
//! The core never emits these in-band: callers layer event emission on top
//! after observing a manager call's result.

use vstd::prelude::*;

verus! {

/// The event recorded when a booking is created.
#[derive(Debug, Clone)]
pub struct BookingCreated {
    /// The unique identifier for the booking that was created.
    pub booking_id: String,
    /// When the creation occurred, as seconds since the Unix epoch.
    pub timestamp: i64,
}

/// The event recorded when a booking is canceled.
#[derive(Debug, Clone)]
pub struct BookingCanceled {
    /// The unique identifier for the booking that was canceled.
    pub booking_id: String,
    /// The reason for the booking cancellation.
    pub reason: String,
    /// When the cancellation occurred, as seconds since the Unix epoch.
    pub timestamp: i64,
}

} // verus!
