use booking_kit::error::BookingError;
use booking_kit::model::status::BookingStatus;

#[test]
fn test_item_unavailable_message() {
    let error = BookingError::new_item_unavailable("room-9");
    assert!(matches!(&error, BookingError::ItemUnavailable(id) if id == "room-9"));
    assert_eq!(error.message(), "Booking item with ID room-9 is unavailable.");
}

#[test]
fn test_invalid_status_message() {
    let error = BookingError::new_invalid_status("Unknown");
    assert!(matches!(&error, BookingError::InvalidStatus(s) if s == "Unknown"));
    assert_eq!(error.message(), "Booking status is invalid: Unknown");
}

#[test]
fn test_invalid_transition_message_confirmed_to_confirmed() {
    let error = BookingError::new_invalid_transition(
        BookingStatus::Confirmed,
        BookingStatus::Confirmed,
    );
    assert_eq!(
        error.message(),
        "Invalid status transition from Confirmed to Confirmed"
    );
}

#[test]
fn test_creation_failed_message() {
    let error = BookingError::new_creation_failed("storage offline");
    assert!(matches!(&error, BookingError::CreationFailed(m) if m == "storage offline"));
    assert_eq!(error.message(), "Failed to create booking: storage offline");
}

#[test]
fn test_rule_validation_failed_message() {
    let error = BookingError::new_rule_validation_failed("too few items");
    assert!(matches!(&error, BookingError::RuleValidationFailed(m) if m == "too few items"));
    assert_eq!(
        error.message(),
        "Booking rule validation failed: too few items"
    );
}

#[test]
fn test_quantity_exceeded_message() {
    let error = BookingError::new_quantity_exceeded();
    assert!(matches!(&error, BookingError::QuantityExceeded));
    assert_eq!(
        error.message(),
        "Booking item quantity exceeds available limit."
    );
}

#[test]
fn test_general_error_message() {
    let error = BookingError::new_general_error("something went wrong");
    assert!(matches!(&error, BookingError::GeneralError(m) if m == "something went wrong"));
    assert_eq!(error.message(), "General error: something went wrong");
}
