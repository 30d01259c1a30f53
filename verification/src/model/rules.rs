//! Validation rules over concrete bookings.

use vstd::prelude::*;
use crate::model::entities::Booking;

verus! {

/// A validation rule for bookings.
///
/// Any rule that implements this trait must say, as the spec function
/// `spec_valid`, which bookings it accepts, and as `spec_error` the message
/// it reports for a booking it rejects; `validate` must then return `Ok`
/// exactly on the accepted bookings and `Err` with that message otherwise.
pub trait BookingRule {
    /// Which bookings this rule accepts, at the specification level.
    spec fn spec_valid(&self, booking: &Booking) -> bool;

    /// The error message reported for a booking this rule rejects.
    spec fn spec_error(&self, booking: &Booking) -> Seq<char>;

    /// Validates the booking according to the rule.
    ///
    /// Returns `Ok(())` if the booking is valid, or `Err` with an error
    /// message explaining why it is not.
    fn validate(&self, booking: &Booking) -> (r: Result<(), String>)
        ensures
            r is Ok <==> self.spec_valid(booking),
            r matches Err(m) ==> m@ == self.spec_error(booking),
    ;
}

/// A rule that ensures a booking contains at least one item.
///
/// This rule is commonly used to ensure that empty bookings are not created.
pub struct MinItemRule;

impl BookingRule for MinItemRule {
    /// A booking passes this rule exactly when its item list is non-empty.
    open spec fn spec_valid(&self, booking: &Booking) -> bool {
        booking.items.len() > 0
    }

    open spec fn spec_error(&self, booking: &Booking) -> Seq<char> {
        "Booking must contain at least one item."@
    }

    /// Validates that the booking contains at least one item.
    fn validate(&self, booking: &Booking) -> (r: Result<(), String>) {
        if booking.items.is_empty() {
            Err(String::from_str("Booking must contain at least one item."))
        } else {
            Ok(())
        }
    }
}

} // verus!
