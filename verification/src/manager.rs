//! Stateless manager providing the booking lifecycle operations.

use vstd::prelude::*;
use crate::error::BookingError;
use crate::model::booking::Booking;
use crate::model::status::BookingStatus;
use crate::traits::Bookable;

verus! {

/// `BookingManager` is a stateless facade over the booking lifecycle:
/// creating bookings and applying status transitions. It holds no state of
/// its own; every operation reads and mutates only the booking it is given.
pub struct BookingManager;

impl BookingManager {
    /// Creates a new booking with status `Pending`, without checking item
    /// availability.
    ///
    /// Use this method if the availability logic is handled externally. It
    /// always succeeds, whatever the item's availability.
    pub fn create<T, ID, Timestamp, Metadata>(
        booking_id: ID,
        user_id: Option<ID>,
        item: T,
        created_at: Timestamp,
        expires_at: Option<Timestamp>,
        metadata: Option<Metadata>,
    ) -> (b: Booking<T, ID, Timestamp, Metadata>) where T: Bookable, ID: Clone
        ensures
            b == (Booking {
                id: booking_id,
                user_id,
                item,
                status: BookingStatus::Pending,
                created_at,
                expires_at,
                metadata,
            }),
    {
        Booking {
            id: booking_id,
            user_id,
            item,
            status: BookingStatus::Pending,
            created_at,
            expires_at,
            metadata,
        }
    }

    /// Attempts to create a booking after checking the item's availability
    /// via `Bookable::is_available`.
    ///
    /// Returns `BookingError::ItemUnavailable`, carrying the item's
    /// identifier, exactly when the item reports itself unavailable; no
    /// booking is constructed in that case. Otherwise behaves exactly like
    /// [`BookingManager::create`].
    pub fn try_create<T, ID, Timestamp, Metadata>(
        booking_id: ID,
        user_id: Option<ID>,
        item: T,
        created_at: Timestamp,
        expires_at: Option<Timestamp>,
        metadata: Option<Metadata>,
    ) -> (r: Result<Booking<T, ID, Timestamp, Metadata>, BookingError>) where
        T: Bookable,
        ID: Clone,

        ensures
            item.spec_available() ==> {
                &&& r matches Ok(b)
                &&& b == (Booking {
                    id: booking_id,
                    user_id,
                    item,
                    status: BookingStatus::Pending,
                    created_at,
                    expires_at,
                    metadata,
                })
            },
            !item.spec_available() ==> {
                &&& r matches Err(e)
                &&& e matches BookingError::ItemUnavailable(s)
                &&& s@ == item.spec_id()
            },
    {
        if !item.is_available() {
            return Err(BookingError::new_item_unavailable(item.id()));
        }
        Ok(
            Booking {
                id: booking_id,
                user_id,
                item,
                status: BookingStatus::Pending,
                created_at,
                expires_at,
                metadata,
            },
        )
    }

    /// Marks an existing booking as `Confirmed`.
    ///
    /// Typically used when payment or approval is completed. The move is
    /// checked against the status transition table: it succeeds exactly when
    /// the current status may move to `Confirmed` (that is, from `Pending`).
    /// On failure the booking is left untouched and the error carries the
    /// rejected `from` and `to` statuses.
    pub fn confirm<T, ID, Timestamp, Metadata>(
        booking: &mut Booking<T, ID, Timestamp, Metadata>,
    ) -> (r: Result<(), BookingError>) where T: Bookable
        ensures
            old(booking).status.spec_can_transition_to(BookingStatus::Confirmed) ==> {
                &&& r is Ok
                &&& *final(booking) == old(booking).spec_with_status(BookingStatus::Confirmed)
            },
            !old(booking).status.spec_can_transition_to(BookingStatus::Confirmed) ==> {
                &&& *final(booking) == *old(booking)
                &&& r matches Err(e) && e == (BookingError::InvalidStatusTransition {
                    from: old(booking).status,
                    to: BookingStatus::Confirmed,
                })
            },
    {
        let from = booking.status.clone();
        let to = BookingStatus::Confirmed;
        if !from.can_transition_to(&to) {
            return Err(BookingError::new_invalid_transition(from, to));
        }
        booking.status = to;
        Ok(())
    }

    /// Marks an existing booking as `Canceled`.
    ///
    /// Can be used due to user request, timeout, or manual rejection. This
    /// operation is unconditional: it bypasses the transition table and
    /// succeeds from any status, terminal ones included.
    pub fn cancel<T, ID, Timestamp, Metadata>(booking: &mut Booking<T, ID, Timestamp, Metadata>)
        ensures
            *final(booking) == old(booking).spec_with_status(BookingStatus::Canceled),
    {
        booking.status = BookingStatus::Canceled;
    }

    /// Marks an existing booking as `Expired`.
    ///
    /// Should be used when the booking is no longer valid due to time
    /// constraints or policies. Like `cancel`, this operation is
    /// unconditional and bypasses the transition table.
    pub fn expire<T, ID, Timestamp, Metadata>(booking: &mut Booking<T, ID, Timestamp, Metadata>)
        ensures
            *final(booking) == old(booking).spec_with_status(BookingStatus::Expired),
    {
        booking.status = BookingStatus::Expired;
    }
}

} // verus!
