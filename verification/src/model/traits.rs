//! A trait for entities whose stock can be reserved and released.

use vstd::prelude::*;

verus! {

/// The `Reservable` trait defines the basic functionality for any entity
/// that can be reserved in a given quantity, such as items, rooms, seats, or
/// tickets. It allows checking availability, reserving, and releasing
/// resources.
///
/// The core state machine never calls these methods; they are the contract
/// for collaborating inventory logic that callers layer on top.
pub trait Reservable {
    /// Returns the unique identifier for the reservable item.
    fn get_id(&self) -> String;

    /// Checks if the item is available for booking in the requested
    /// quantity.
    fn is_available(&self, quantity: u32) -> bool;

    /// Reserves the specified quantity of the item, adjusting its
    /// availability accordingly.
    fn reserve(&mut self, quantity: u32);

    /// Releases the reserved quantity of the item back to availability.
    fn release(&mut self, quantity: u32);
}

} // verus!
