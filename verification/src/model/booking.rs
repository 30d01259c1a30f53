//! The generic booking record and its derived-state queries.

use vstd::prelude::*;
use crate::model::status::BookingStatus;
use crate::traits::Bookable;

verus! {

/// Represents a generic booking entry.
///
/// This struct is designed to be flexible and can represent any kind of
/// bookable item, such as hotel rooms, flights, events, or rentals.
///
/// # Type Parameters
/// - `T`: The type of item being booked. Must implement the `Bookable` trait
///   for the derived-state queries.
/// - `ID`: Identifier type used for both booking ID and user ID.
/// - `Timestamp`: Type representing time values, chosen by the caller.
/// - `Metadata`: Optional additional data specific to the domain.
#[derive(Debug, Clone, PartialEq, Eq)]
pub struct Booking<T, ID, Timestamp, Metadata> {
    /// Unique identifier for this booking.
    pub id: ID,
    /// Optional ID of the user making the booking.
    pub user_id: Option<ID>,
    /// The item that is being booked.
    pub item: T,
    /// Current status of the booking.
    pub status: BookingStatus,
    /// Timestamp indicating when the booking was created.
    pub created_at: Timestamp,
    /// Optional timestamp indicating when the booking expires.
    pub expires_at: Option<Timestamp>,
    /// Optional metadata extending the booking with domain-specific data.
    pub metadata: Option<Metadata>,
}

impl<T, ID, Timestamp, Metadata> Booking<T, ID, Timestamp, Metadata> {
    /// The same booking with its status replaced and every other field kept.
    pub open spec fn spec_with_status(self, status: BookingStatus) -> Self {
        Booking { status, ..self }
    }
}

impl<T, ID, Timestamp, Metadata> Booking<T, ID, Timestamp, Metadata> where T: Bookable {
    /// Returns the ID of the booked item.
    ///
    /// This works for any `T` as long as it implements `Bookable`, so the
    /// structure of `T` itself need not be known.
    pub fn item_id(&self) -> (r: &str)
        ensures
            r@ == self.item.spec_id(),
    {
        self.item.id()
    }

    /// Checks if the booking is in a `Pending` state.
    pub fn is_pending(&self) -> (r: bool)
        ensures
            r == (self.status == BookingStatus::Pending),
    {
        self.status == BookingStatus::Pending
    }

    /// Checks if the booking has been confirmed.
    pub fn is_confirmed(&self) -> (r: bool)
        ensures
            r == (self.status == BookingStatus::Confirmed),
    {
        self.status == BookingStatus::Confirmed
    }

    /// Checks if the booking was canceled.
    pub fn is_canceled(&self) -> (r: bool)
        ensures
            r == (self.status == BookingStatus::Canceled),
    {
        self.status == BookingStatus::Canceled
    }

    /// Checks if the booking has expired.
    ///
    /// This does not evaluate time; it simply checks the status field.
    pub fn is_expired(&self) -> (r: bool)
        ensures
            r == (self.status == BookingStatus::Expired),
    {
        self.status == BookingStatus::Expired
    }

    /// Returns `true` if the booking is considered active: `Pending` or
    /// `Confirmed`.
    pub fn is_active(&self) -> (r: bool)
        ensures
            r == self.status.spec_is_active(),
    {
        self.status == BookingStatus::Pending || self.status == BookingStatus::Confirmed
    }

    /// Returns `true` if the booking is in a final state and can no longer
    /// be modified: `Canceled`, `Expired`, `Failed` or `Completed`.
    pub fn is_final(&self) -> (r: bool)
        ensures
            r == self.status.spec_is_final(),
    {
        match self.status {
            BookingStatus::Canceled
            | BookingStatus::Expired
            | BookingStatus::Failed
            | BookingStatus::Completed => true,
            _ => false,
        }
    }

    /// Returns `true` if the booking is completed successfully.
    pub fn is_completed(&self) -> (r: bool)
        ensures
            r == (self.status == BookingStatus::Completed),
    {
        self.status == BookingStatus::Completed
    }
}

} // verus!
