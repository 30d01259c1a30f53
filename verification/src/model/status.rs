//! The statuses a booking can have and the transition rules between them.

use vstd::prelude::*;

verus! {

/// The lifecycle states of a booking.
///
/// A booking starts in `Pending`; `Confirmed` is the only other state with
/// outgoing transitions. `Canceled`, `Expired`, `Failed` and `Completed` are
/// terminal: no transition out of them is legal, not even to themselves.
#[derive(Debug, Clone, Copy, PartialEq, Eq, Structural)]
pub enum BookingStatus {
    /// The booking has been created but not yet confirmed.
    Pending,
    /// The booking has been confirmed and is now finalized.
    Confirmed,
    /// The booking has been canceled by the user or the system.
    Canceled,
    /// The booking was not confirmed in time and has expired.
    Expired,
    /// The booking failed.
    Failed,
    /// The booking has been fulfilled or used successfully.
    Completed,
}

impl BookingStatus {
    /// The transition table: which moves from `self` to `next` are legal.
    ///
    /// `Pending` may move to `Confirmed`, `Canceled`, `Expired` or `Failed`,
    /// and a `Pending -> Pending` no-op is allowed by the reflexive fallback
    /// for pairs not listed explicitly. `Confirmed` may move to `Completed`
    /// or `Canceled`, plus the same reflexive no-op. The four terminal
    /// statuses allow nothing, their own status included: the terminal rules
    /// are checked before the reflexive fallback.
    pub open spec fn spec_can_transition_to(self, next: BookingStatus) -> bool {
        match self {
            BookingStatus::Pending => {
                ||| next == BookingStatus::Pending
                ||| next == BookingStatus::Confirmed
                ||| next == BookingStatus::Canceled
                ||| next == BookingStatus::Expired
                ||| next == BookingStatus::Failed
            },
            BookingStatus::Confirmed => {
                ||| next == BookingStatus::Confirmed
                ||| next == BookingStatus::Completed
                ||| next == BookingStatus::Canceled
            },
            BookingStatus::Canceled => false,
            BookingStatus::Expired => false,
            BookingStatus::Failed => false,
            BookingStatus::Completed => false,
        }
    }

    /// A booking in this status is still in flight: `Pending` or `Confirmed`.
    pub open spec fn spec_is_active(self) -> bool {
        self == BookingStatus::Pending || self == BookingStatus::Confirmed
    }

    /// A booking in this status can no longer be modified: `Canceled`,
    /// `Expired`, `Failed` or `Completed`.
    pub open spec fn spec_is_final(self) -> bool {
        ||| self == BookingStatus::Canceled
        ||| self == BookingStatus::Expired
        ||| self == BookingStatus::Failed
        ||| self == BookingStatus::Completed
    }

    /// Validates if a transition from `self` to `next` is allowed.
    pub fn can_transition_to(&self, next: &BookingStatus) -> (r: bool)
        ensures
            r == self.spec_can_transition_to(*next),
    {
        match (*self, *next) {
            // Pending -> Confirmed, Canceled, Expired, or Failed
            (BookingStatus::Pending, BookingStatus::Confirmed)
            | (BookingStatus::Pending, BookingStatus::Canceled)
            | (BookingStatus::Pending, BookingStatus::Expired)
            | (BookingStatus::Pending, BookingStatus::Failed) => true,
            // Confirmed -> Completed, Canceled
            (BookingStatus::Confirmed, BookingStatus::Completed)
            | (BookingStatus::Confirmed, BookingStatus::Canceled) => true,
            // Completed, Canceled, Expired, Failed = terminal states
            (BookingStatus::Completed, _) => false,
            (BookingStatus::Canceled, _) => false,
            (BookingStatus::Expired, _) => false,
            (BookingStatus::Failed, _) => false,
            // Reflexive fallback: a no-op transition unless ruled out above
            (current, proposed) => current == proposed,
        }
    }

    /// The name of the status, as its variant is spelled.
    pub open spec fn spec_name(self) -> Seq<char> {
        match self {
            BookingStatus::Pending => "Pending"@,
            BookingStatus::Confirmed => "Confirmed"@,
            BookingStatus::Canceled => "Canceled"@,
            BookingStatus::Expired => "Expired"@,
            BookingStatus::Failed => "Failed"@,
            BookingStatus::Completed => "Completed"@,
        }
    }

    /// Returns the status name as a `String`.
    pub fn name(&self) -> (r: String)
        ensures
            r@ == self.spec_name(),
    {
        match *self {
            BookingStatus::Pending => String::from_str("Pending"),
            BookingStatus::Confirmed => String::from_str("Confirmed"),
            BookingStatus::Canceled => String::from_str("Canceled"),
            BookingStatus::Expired => String::from_str("Expired"),
            BookingStatus::Failed => String::from_str("Failed"),
            BookingStatus::Completed => String::from_str("Completed"),
        }
    }
}

/// A status allows the transition to itself exactly when it is active: the
/// same-state no-op is legal from `Pending` and `Confirmed` only, never from
/// a terminal status.
pub proof fn lemma_self_transition_iff_active(s: BookingStatus)
    ensures
        s.spec_can_transition_to(s) <==> s.spec_is_active(),
{
}

/// No transition out of a terminal status is legal, whatever the target.
pub proof fn lemma_final_has_no_outgoing(t: BookingStatus, x: BookingStatus)
    requires
        t.spec_is_final(),
    ensures
        !t.spec_can_transition_to(x),
{
}

/// `spec_is_active` and `spec_is_final` partition the statuses: every status
/// is exactly one of active or final.
pub proof fn lemma_active_final_partition(s: BookingStatus)
    ensures
        s.spec_is_active() <==> !s.spec_is_final(),
{
}

} // verus!
