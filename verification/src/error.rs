//! Errors that can occur during the booking process.

use vstd::prelude::*;
use crate::model::status::BookingStatus;

verus! {

/// The errors a booking operation can report.
#[derive(Debug)]
pub enum BookingError {
    /// The item with the given ID is unavailable.
    ItemUnavailable(String),
    /// The booking status is invalid, e.g., an unregistered status.
    InvalidStatus(String),
    /// A transition between the two statuses is not allowed.
    InvalidStatusTransition { from: BookingStatus, to: BookingStatus },
    /// Booking creation failed, e.g., due to an internal error.
    CreationFailed(String),
    /// Booking rule validation failed.
    RuleValidationFailed(String),
    /// The booking item quantity exceeds the available limit.
    QuantityExceeded,
    /// A general error that fits no other category.
    GeneralError(String),
}

impl BookingError {
    /// Creates an `InvalidStatus` error with the specific status message.
    pub fn new_invalid_status(status: &str) -> (e: Self)
        ensures
            e matches BookingError::InvalidStatus(s) && s@ == status@,
    {
        BookingError::InvalidStatus(String::from_str(status))
    }

    /// Creates an `ItemUnavailable` error with the item ID that is unavailable.
    pub fn new_item_unavailable(item_id: &str) -> (e: Self)
        ensures
            e matches BookingError::ItemUnavailable(s) && s@ == item_id@,
    {
        BookingError::ItemUnavailable(String::from_str(item_id))
    }

    /// Creates an `InvalidStatusTransition` error with the provided from and
    /// to status.
    ///
    /// This error is returned when an attempt is made to move a booking
    /// between two statuses in a way the transition table does not allow.
    pub fn new_invalid_transition(from: BookingStatus, to: BookingStatus) -> (e: Self)
        ensures
            e == (BookingError::InvalidStatusTransition { from, to }),
    {
        BookingError::InvalidStatusTransition { from, to }
    }

    /// Creates a `CreationFailed` error with a specific failure message.
    pub fn new_creation_failed(message: &str) -> (e: Self)
        ensures
            e matches BookingError::CreationFailed(s) && s@ == message@,
    {
        BookingError::CreationFailed(String::from_str(message))
    }

    /// Creates a `RuleValidationFailed` error with a specific validation
    /// failure message.
    pub fn new_rule_validation_failed(message: &str) -> (e: Self)
        ensures
            e matches BookingError::RuleValidationFailed(s) && s@ == message@,
    {
        BookingError::RuleValidationFailed(String::from_str(message))
    }

    /// Creates a `QuantityExceeded` error.
    pub fn new_quantity_exceeded() -> (e: Self)
        ensures
            e == BookingError::QuantityExceeded,
    {
        BookingError::QuantityExceeded
    }

    /// Creates a `GeneralError` with a specific message.
    pub fn new_general_error(message: &str) -> (e: Self)
        ensures
            e matches BookingError::GeneralError(s) && s@ == message@,
    {
        BookingError::GeneralError(String::from_str(message))
    }

    /// The human-readable message for this error.
    pub open spec fn spec_message(self) -> Seq<char> {
        match self {
            BookingError::ItemUnavailable(id) => "Booking item with ID "@ + id@
                + " is unavailable."@,
            BookingError::InvalidStatus(status) => "Booking status is invalid: "@ + status@,
            BookingError::InvalidStatusTransition { from, to } => "Invalid status transition from "@
                + from.spec_name() + " to "@ + to.spec_name(),
            BookingError::CreationFailed(msg) => "Failed to create booking: "@ + msg@,
            BookingError::RuleValidationFailed(msg) => "Booking rule validation failed: "@ + msg@,
            BookingError::QuantityExceeded => "Booking item quantity exceeds available limit."@,
            BookingError::GeneralError(msg) => "General error: "@ + msg@,
        }
    }

    /// Renders the error as its human-readable message.
    pub fn message(&self) -> (r: String)
        ensures
            r@ == self.spec_message(),
    {
        match self {
            BookingError::ItemUnavailable(id) => String::from_str("Booking item with ID ")
                .concat(id.as_str())
                .concat(" is unavailable."),
            BookingError::InvalidStatus(status) => String::from_str("Booking status is invalid: ")
                .concat(status.as_str()),
            BookingError::InvalidStatusTransition { from, to } => String::from_str(
                "Invalid status transition from ",
            ).concat(from.name().as_str()).concat(" to ").concat(to.name().as_str()),
            BookingError::CreationFailed(msg) => String::from_str("Failed to create booking: ")
                .concat(msg.as_str()),
            BookingError::RuleValidationFailed(msg) => String::from_str(
                "Booking rule validation failed: ",
            ).concat(msg.as_str()),
            BookingError::QuantityExceeded => String::from_str(
                "Booking item quantity exceeds available limit.",
            ),
            BookingError::GeneralError(msg) => String::from_str("General error: ").concat(
                msg.as_str(),
            ),
        }
    }
}

} // verus!
