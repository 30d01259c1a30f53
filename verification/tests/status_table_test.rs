use booking_kit::model::status::BookingStatus;

fn all_statuses() -> Vec<BookingStatus> {
    vec![
        BookingStatus::Pending,
        BookingStatus::Confirmed,
        BookingStatus::Canceled,
        BookingStatus::Expired,
        BookingStatus::Failed,
        BookingStatus::Completed,
    ]
}

#[test]
fn test_self_transition_allowed_only_when_not_terminal() {
    // The same-state no-op is legal exactly from Pending and Confirmed.
    for s in all_statuses() {
        let expected =
            s == BookingStatus::Pending || s == BookingStatus::Confirmed;
        assert_eq!(s.can_transition_to(&s), expected);
    }
    assert!(!BookingStatus::Canceled.can_transition_to(&BookingStatus::Canceled));
}

#[test]
fn test_transitions_from_pending() {
    let pending = BookingStatus::Pending;
    assert!(pending.can_transition_to(&BookingStatus::Confirmed));
    assert!(pending.can_transition_to(&BookingStatus::Canceled));
    assert!(pending.can_transition_to(&BookingStatus::Expired));
    assert!(pending.can_transition_to(&BookingStatus::Failed));
    assert!(!pending.can_transition_to(&BookingStatus::Completed));
}

#[test]
fn test_transitions_from_confirmed() {
    let confirmed = BookingStatus::Confirmed;
    assert!(confirmed.can_transition_to(&BookingStatus::Completed));
    assert!(confirmed.can_transition_to(&BookingStatus::Canceled));
    assert!(!confirmed.can_transition_to(&BookingStatus::Pending));
    assert!(!confirmed.can_transition_to(&BookingStatus::Expired));
    assert!(!confirmed.can_transition_to(&BookingStatus::Failed));
}

#[test]
fn test_terminal_statuses_have_no_outgoing_transitions() {
    let terminals = [
        BookingStatus::Canceled,
        BookingStatus::Expired,
        BookingStatus::Failed,
        BookingStatus::Completed,
    ];
    for t in terminals {
        for x in all_statuses() {
            assert!(!t.can_transition_to(&x));
        }
    }
}

#[test]
fn test_status_names() {
    assert_eq!(BookingStatus::Pending.name(), "Pending");
    assert_eq!(BookingStatus::Confirmed.name(), "Confirmed");
    assert_eq!(BookingStatus::Canceled.name(), "Canceled");
    assert_eq!(BookingStatus::Expired.name(), "Expired");
    assert_eq!(BookingStatus::Failed.name(), "Failed");
    assert_eq!(BookingStatus::Completed.name(), "Completed");
}
