//! Concrete booking entities: a booking with a list of items.

use vstd::prelude::*;
use crate::model::status::BookingStatus;

verus! {

/// Represents a booking made by a user, with a concrete list of items.
///
/// This is the aggregate that the rule-validation traits consume: it carries
/// the booking's identifier, the user who made it, the items included, the
/// current status, and the creation time.
#[derive(Debug, Clone)]
pub struct Booking {
    /// A unique identifier for the booking.
    pub id: String,
    /// The identifier of the user who made the booking.
    pub user_id: String,
    /// A list of items included in the booking.
    pub items: Vec<BookingItem>,
    /// The current status of the booking.
    pub status: BookingStatus,
    /// When the booking was created, as seconds since the Unix epoch.
    pub created_at: i64,
}

/// Represents an item within a booking: the item's identifier, the quantity
/// reserved, and the price for each unit.
#[derive(Debug, Clone)]
pub struct BookingItem {
    /// A unique identifier for the item being booked.
    pub item_id: String,
    /// The quantity of the item being reserved.
    pub quantity: u32,
    /// The price per unit of the item, in minor currency units.
    pub price_per_unit: u64,
}

} // verus!
