//! The capability contract an entity must satisfy to be booked.

use vstd::prelude::*;

verus! {

/// The `Bookable` trait defines the common interface for any entity (e.g.,
/// rooms, vehicles, events) that can be booked or reserved. Types
/// implementing this trait provide the specific logic for identifying the
/// entity and checking its availability.
///
/// The two spec functions give the mathematical identifier and availability
/// of the item; the two executable methods must return exactly those values,
/// so the booking manager's contracts can speak of them.
pub trait Bookable {
    /// The item's identifier, at the specification level.
    spec fn spec_id(&self) -> Seq<char>;

    /// Whether the item can currently be booked, at the specification level.
    spec fn spec_available(&self) -> bool;

    /// Returns the stable identifier of the item.
    fn id(&self) -> (r: &str)
        ensures
            r@ == self.spec_id(),
    ;

    /// Returns whether the item can currently be booked.
    fn is_available(&self) -> (r: bool)
        ensures
            r == self.spec_available(),
    ;
}

/// A ready-made bookable item: an identifier together with a fixed
/// availability flag.
///
/// Callers with richer item types implement [`Bookable`] themselves; this
/// type covers the common case where the identifier and the availability are
/// already plain values.
#[derive(Debug, Clone, PartialEq, Eq)]
pub struct SimpleItem {
    /// The stable identifier of the item.
    pub id: String,
    /// Whether the item can currently be booked.
    pub available: bool,
}

impl Bookable for SimpleItem {
    open spec fn spec_id(&self) -> Seq<char> {
        self.id@
    }

    open spec fn spec_available(&self) -> bool {
        self.available
    }

    fn id(&self) -> (r: &str) {
        self.id.as_str()
    }

    fn is_available(&self) -> (r: bool) {
        self.available
    }
}

} // verus!
