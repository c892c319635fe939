//! Notifications that a renewal attempt gives rise to.

use crate::subscription::{SubscriptionData, SubscriptionState};
use soroban_sdk::Address;
use vstd::prelude::*;

verus! {

/// One notification about a subscription.
#[derive(Clone, Debug, PartialEq, Eq)]
pub enum RenewalEvent {
    /// The attempt succeeded; carries the subscription holder.
    Renewed { sub_id: u64, owner: Address },
    /// The attempt failed; carries the failures counted so far and the ledger
    /// of the attempt.
    Failed { sub_id: u64, failure_count: u32, ledger: u32 },
    /// The attempt failed and left the subscription in `state`.
    StateChanged { sub_id: u64, state: SubscriptionState },
}

impl RenewalEvent {
    /// The topic under which the notification is published.
    pub open spec fn topic_text(self) -> Seq<char> {
        match self {
            RenewalEvent::Renewed { .. } => "renewed"@,
            RenewalEvent::Failed { .. } => "failed"@,
            RenewalEvent::StateChanged { .. } => "state_ch"@,
        }
    }

    /// The subscription that the notification is about.
    pub open spec fn subject(self) -> u64 {
        match self {
            RenewalEvent::Renewed { sub_id, .. } => sub_id,
            RenewalEvent::Failed { sub_id, .. } => sub_id,
            RenewalEvent::StateChanged { sub_id, .. } => sub_id,
        }
    }

    /// The topic under which the notification is published.
    pub fn topic(&self) -> (text: &'static str)
        ensures
            text@ == self.topic_text(),
    {
        match self {
            RenewalEvent::Renewed { .. } => "renewed",
            RenewalEvent::Failed { .. } => "failed",
            RenewalEvent::StateChanged { .. } => "state_ch",
        }
    }

    /// The subscription that the notification is about.
    pub fn sub_id(&self) -> (id: u64)
        ensures
            id == self.subject(),
    {
        match self {
            RenewalEvent::Renewed { sub_id, .. } => *sub_id,
            RenewalEvent::Failed { sub_id, .. } => *sub_id,
            RenewalEvent::StateChanged { sub_id, .. } => *sub_id,
        }
    }
}

/// The notifications of an admitted attempt on subscription `sub_id` that
/// left the record `after`, in the order of their emission: one on success,
/// the failure and then the state change on failure.
pub open spec fn emitted(sub_id: u64, after: SubscriptionData, succeed: bool) -> Seq<RenewalEvent> {
    if succeed {
        seq![RenewalEvent::Renewed { sub_id, owner: after.owner }]
    } else {
        seq![
            RenewalEvent::Failed {
                sub_id,
                failure_count: after.failure_count,
                ledger: after.last_attempt_ledger,
            },
            RenewalEvent::StateChanged { sub_id, state: after.state },
        ]
    }
}

/// Builds the notifications of an admitted attempt on subscription `sub_id`
/// that left the record `after`.
pub fn events_for(sub_id: u64, after: &SubscriptionData, succeed: bool) -> (events: Vec<
    RenewalEvent,
>)
    ensures
        events@ == emitted(sub_id, *after, succeed),
{
    let mut events: Vec<RenewalEvent> = Vec::new();
    if succeed {
        events.push(RenewalEvent::Renewed { sub_id, owner: after.owner.clone() });
    } else {
        events.push(
            RenewalEvent::Failed {
                sub_id,
                failure_count: after.failure_count,
                ledger: after.last_attempt_ledger,
            },
        );
        events.push(RenewalEvent::StateChanged { sub_id, state: after.state });
    }
    events
}

} // verus!
