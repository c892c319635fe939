//! The persisted subscription record, its lifecycle states, and the rule that
//! takes a record from one renewal attempt to the next.

use crate::error::RenewalError;
use soroban_sdk::Address;
use vstd::prelude::*;

verus! {

/// Lifecycle state of a subscription.
#[derive(Clone, Copy, Debug, PartialEq, Eq, Structural)]
pub enum SubscriptionState {
    /// The last attempt succeeded, or no attempt was made yet.
    Active,
    /// At least one attempt failed and the retry limit is not exhausted.
    Retrying,
    /// The retry limit is exhausted; no further transition is permitted.
    Failed,
}

/// One subscription, as persisted under its identifier.
#[derive(Debug, PartialEq, Eq)]
pub struct SubscriptionData {
    /// The subscription holder. Never interpreted, only echoed.
    pub owner: Address,
    pub state: SubscriptionState,
    /// Consecutive failures since the last success or since creation.
    pub failure_count: u32,
    /// Ledger sequence of the most recent attempt; 0 before any attempt.
    pub last_attempt_ledger: u32,
}

impl Clone for SubscriptionData {
    fn clone(&self) -> (copy: Self)
        ensures
            copy == *self,
    {
        SubscriptionData {
            owner: self.owner.clone(),
            state: self.state,
            failure_count: self.failure_count,
            last_attempt_ledger: self.last_attempt_ledger,
        }
    }
}

impl SubscriptionData {
    /// The record of a subscription on which no attempt was made yet.
    pub open spec fn initial(owner: Address) -> Self {
        SubscriptionData {
            owner,
            state: SubscriptionState::Active,
            failure_count: 0,
            last_attempt_ledger: 0,
        }
    }

    /// An active subscription has no failure on its count.
    pub open spec fn well_formed(self) -> bool {
        self.state == SubscriptionState::Active ==> self.failure_count == 0
    }

    /// Whether ledger `now` lies inside the cooldown that follows a failed
    /// attempt. A record without failures has no cooldown.
    pub open spec fn cooling_down(self, now: u32, cooldown_ledgers: u32) -> bool {
        self.failure_count > 0 && now < self.last_attempt_ledger + cooldown_ledgers
    }

    /// Why an attempt at ledger `now` is rejected, if it is. The terminal
    /// state is looked at first, the cooldown second.
    pub open spec fn refusal(self, now: u32, cooldown_ledgers: u32) -> Option<RenewalError> {
        if self.state == SubscriptionState::Failed {
            Some(RenewalError::TerminalStateViolation)
        } else if self.cooling_down(now, cooldown_ledgers) {
            Some(RenewalError::CooldownActive)
        } else {
            None
        }
    }

    /// The record after a successful attempt at ledger `now`.
    pub open spec fn after_success(self, now: u32) -> Self {
        SubscriptionData {
            owner: self.owner,
            state: SubscriptionState::Active,
            failure_count: 0,
            last_attempt_ledger: now,
        }
    }

    /// The record after a failed attempt at ledger `now`: one more failure,
    /// and `Failed` once the failures exceed `max_retries`.
    pub open spec fn after_failure(self, now: u32, max_retries: u32) -> Self {
        SubscriptionData {
            owner: self.owner,
            state: if self.failure_count + 1 > max_retries {
                SubscriptionState::Failed
            } else {
                SubscriptionState::Retrying
            },
            failure_count: (self.failure_count + 1) as u32,
            last_attempt_ledger: now,
        }
    }

    /// What an attempt at ledger `now` makes of the record: the rejection, or
    /// the record that replaces it.
    pub open spec fn after_attempt(
        self,
        now: u32,
        max_retries: u32,
        cooldown_ledgers: u32,
        succeed: bool,
    ) -> Result<Self, RenewalError> {
        match self.refusal(now, cooldown_ledgers) {
            Some(error) => Err(error),
            None => Ok(
                if succeed {
                    self.after_success(now)
                } else {
                    self.after_failure(now, max_retries)
                },
            ),
        }
    }

    /// Whether the attempt is admitted, fails, and finds the failure count at
    /// the largest value the counter can hold.
    pub open spec fn exhausts_counter(
        self,
        now: u32,
        cooldown_ledgers: u32,
        succeed: bool,
    ) -> bool {
        &&& self.refusal(now, cooldown_ledgers) is None
        &&& !succeed
        &&& self.failure_count == u32::MAX
    }

    /// Creates the record of a new subscription: active, without failures,
    /// without an attempt.
    pub fn new(owner: Address) -> (data: Self)
        ensures
            data == Self::initial(owner),
            data.well_formed(),
    {
        SubscriptionData {
            owner,
            state: SubscriptionState::Active,
            failure_count: 0,
            last_attempt_ledger: 0,
        }
    }

    /// Whether an attempt at ledger `now` would fall inside the cooldown.
    pub fn is_cooling_down(&self, now: u32, cooldown_ledgers: u32) -> (cooling: bool)
        ensures
            cooling == self.cooling_down(now, cooldown_ledgers),
    {
        self.failure_count > 0 && (now as u64) < self.last_attempt_ledger as u64
            + cooldown_ledgers as u64
    }

    /// Whether an attempt with outcome `succeed` at ledger `now` would be
    /// admitted as a failure that the counter has no room for. Such an attempt
    /// cannot be applied.
    pub fn would_exhaust_counter(
        &self,
        now: u32,
        cooldown_ledgers: u32,
        succeed: bool,
    ) -> (exhausts: bool)
        ensures
            exhausts == self.exhausts_counter(now, cooldown_ledgers, succeed),
    {
        !succeed && self.failure_count == u32::MAX && self.state != SubscriptionState::Failed
            && !self.is_cooling_down(now, cooldown_ledgers)
    }

    /// Applies one renewal attempt made at ledger `now` under the policy
    /// (`max_retries`, `cooldown_ledgers`), with outcome `succeed`.
    ///
    /// Returns the record that replaces this one, or the reason for which the
    /// attempt is rejected. The record itself is left as it is.
    ///
    /// The attempt must not exhaust the counter: a failure that is admitted
    /// on a count of `u32::MAX` has no outcome that the record can hold.
    pub fn attempt(
        &self,
        now: u32,
        max_retries: u32,
        cooldown_ledgers: u32,
        succeed: bool,
    ) -> (result: Result<SubscriptionData, RenewalError>)
        requires
            !self.exhausts_counter(now, cooldown_ledgers, succeed),
        ensures
            result == self.after_attempt(now, max_retries, cooldown_ledgers, succeed),
            result matches Ok(after) ==> after.well_formed(),
    {
        if self.state == SubscriptionState::Failed {
            return Err(RenewalError::TerminalStateViolation);
        }
        if self.is_cooling_down(now, cooldown_ledgers) {
            return Err(RenewalError::CooldownActive);
        }
        let owner = self.owner.clone();
        if succeed {
            Ok(
                SubscriptionData {
                    owner,
                    state: SubscriptionState::Active,
                    failure_count: 0,
                    last_attempt_ledger: now,
                },
            )
        } else {
            let failure_count: u32 = self.failure_count + 1;
            let state = if failure_count > max_retries {
                SubscriptionState::Failed
            } else {
                SubscriptionState::Retrying
            };
            Ok(SubscriptionData { owner, state, failure_count, last_attempt_ledger: now })
        }
    }
}

} // verus!
