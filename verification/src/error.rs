//! Reasons for which the renewal controller rejects a call.

use vstd::prelude::*;

verus! {

/// Why a call was rejected. A rejected call changes nothing and emits nothing.
#[derive(Clone, Copy, Debug, PartialEq, Eq, Structural)]
pub enum RenewalError {
    /// No record exists under the identifier.
    SubscriptionNotFound,
    /// A record already exists under the identifier.
    DuplicateSubscription,
    /// The record is `Failed`; it admits no further attempt.
    TerminalStateViolation,
    /// The previous attempt failed and the cooldown has not elapsed.
    CooldownActive,
}

impl RenewalError {
    /// The text that describes this rejection.
    pub open spec fn text(self) -> Seq<char> {
        match self {
            RenewalError::SubscriptionNotFound => "Subscription not found"@,
            RenewalError::DuplicateSubscription => "Subscription already exists"@,
            RenewalError::TerminalStateViolation => "Subscription is in FAILED state"@,
            RenewalError::CooldownActive => "Cooldown period active"@,
        }
    }

    /// A human-readable description of the rejection.
    pub fn message(&self) -> (text: &'static str)
        ensures
            text@ == self.text(),
    {
        match self {
            RenewalError::SubscriptionNotFound => "Subscription not found",
            RenewalError::DuplicateSubscription => "Subscription already exists",
            RenewalError::TerminalStateViolation => "Subscription is in FAILED state",
            RenewalError::CooldownActive => "Cooldown period active",
        }
    }
}

} // verus!
