//! The renewal controller: creation, renewal attempts and lookup of
//! subscriptions held in a store.

use crate::error::RenewalError;
use crate::events::{emitted, events_for, RenewalEvent};
use crate::store::SubscriptionStore;
use crate::subscription::{SubscriptionData, SubscriptionState};
use soroban_sdk::Address;
use vstd::prelude::*;

verus! {

/// What an admitted renewal attempt reports back.
#[derive(Clone, Debug, PartialEq, Eq)]
pub struct Renewal {
    /// Whether the subscription was renewed.
    pub renewed: bool,
    /// The notifications to publish, in order.
    pub events: Vec<RenewalEvent>,
}

/// The renewal controller. It keeps no state of its own: every operation
/// works on the store it is handed.
///
/// The controller authorizes nobody and rejects nobody for who they are:
/// whoever holds the store may call it. A caller that admits only certain
/// principals asks the agent registry before it calls.
pub struct SubscriptionRenewalContract;

impl SubscriptionRenewalContract {
    /// What a renewal attempt on subscription `sub_id` at ledger `now` makes
    /// of the records: the rejection, or the record that replaces the one
    /// under `sub_id`.
    pub open spec fn renewed_record(
        records: Map<u64, SubscriptionData>,
        now: u32,
        sub_id: u64,
        max_retries: u32,
        cooldown_ledgers: u32,
        succeed: bool,
    ) -> Result<SubscriptionData, RenewalError> {
        if records.contains_key(sub_id) {
            records[sub_id].after_attempt(now, max_retries, cooldown_ledgers, succeed)
        } else {
            Err(RenewalError::SubscriptionNotFound)
        }
    }

    /// The records after the creation of subscription `sub_id` for `owner`:
    /// one more record where the identifier is free, the same records where
    /// it is taken.
    pub open spec fn after_init(
        records: Map<u64, SubscriptionData>,
        owner: Address,
        sub_id: u64,
    ) -> Map<u64, SubscriptionData> {
        if records.contains_key(sub_id) {
            records
        } else {
            records.insert(sub_id, SubscriptionData::initial(owner))
        }
    }

    /// The records after a renewal attempt on subscription `sub_id`: the
    /// record replaced where the attempt is admitted, the same records where
    /// it is rejected.
    pub open spec fn after_renew(
        records: Map<u64, SubscriptionData>,
        now: u32,
        sub_id: u64,
        max_retries: u32,
        cooldown_ledgers: u32,
        succeed: bool,
    ) -> Map<u64, SubscriptionData> {
        match Self::renewed_record(records, now, sub_id, max_retries, cooldown_ledgers, succeed) {
            Ok(record) => records.insert(sub_id, record),
            Err(_) => records,
        }
    }

    /// Whether the attempt is admitted, fails, and finds the failure count of
    /// the record at the largest value the counter can hold.
    pub open spec fn exhausts_counter(
        records: Map<u64, SubscriptionData>,
        now: u32,
        sub_id: u64,
        cooldown_ledgers: u32,
        succeed: bool,
    ) -> bool {
        records.contains_key(sub_id) && records[sub_id].exhausts_counter(
            now,
            cooldown_ledgers,
            succeed,
        )
    }

    /// Creates the subscription `sub_id` held by `info`: active, without
    /// failures. Rejected with `DuplicateSubscription` where the identifier
    /// is taken.
    pub fn init_sub(store: &mut SubscriptionStore, info: Address, sub_id: u64) -> (result: Result<
        (),
        RenewalError,
    >)
        ensures
            final(store)@ == Self::after_init(old(store)@, info, sub_id),
            result == if old(store)@.contains_key(sub_id) {
                Err::<(), RenewalError>(RenewalError::DuplicateSubscription)
            } else {
                Ok::<(), RenewalError>(())
            },
            old(store).consistent() ==> final(store).consistent(),
    {
        if store.has(sub_id) {
            return Err(RenewalError::DuplicateSubscription);
        }
        store.set(sub_id, SubscriptionData::new(info));
        Ok(())
    }

    /// Whether `result` and the records `after` are what a renewal attempt
    /// makes of the records `before`: an admitted attempt replaces the record
    /// and reports the outcome with its notifications in order, a rejected
    /// one names the rejection and changes nothing.
    pub open spec fn renews(
        before: Map<u64, SubscriptionData>,
        after: Map<u64, SubscriptionData>,
        now: u32,
        sub_id: u64,
        max_retries: u32,
        cooldown_ledgers: u32,
        succeed: bool,
        result: Result<Renewal, RenewalError>,
    ) -> bool {
        &&& after == Self::after_renew(
            before,
            now,
            sub_id,
            max_retries,
            cooldown_ledgers,
            succeed,
        )
        &&& match Self::renewed_record(
            before,
            now,
            sub_id,
            max_retries,
            cooldown_ledgers,
            succeed,
        ) {
            Ok(record) => {
                &&& result matches Ok(renewal)
                &&& renewal.renewed == succeed
                &&& renewal.events@ == emitted(sub_id, record, succeed)
            },
            Err(error) => result == Err::<Renewal, RenewalError>(error),
        }
    }

    /// Applies to the record `data`, read from `store` under `sub_id`, one
    /// renewal attempt, and writes the record that replaces it.
    fn renew_record(
        store: &mut SubscriptionStore,
        data: SubscriptionData,
        current_ledger: u32,
        sub_id: u64,
        max_retries: u32,
        cooldown_ledgers: u32,
        succeed: bool,
    ) -> (result: Result<Renewal, RenewalError>)
        requires
            old(store)@.contains_key(sub_id),
            old(store)@[sub_id] == data,
            !data.exhausts_counter(current_ledger, cooldown_ledgers, succeed),
        ensures
            Self::renews(
                old(store)@,
                final(store)@,
                current_ledger,
                sub_id,
                max_retries,
                cooldown_ledgers,
                succeed,
                result,
            ),
            old(store).consistent() ==> final(store).consistent(),
    {
        let after = match data.attempt(current_ledger, max_retries, cooldown_ledgers, succeed) {
            Ok(after) => after,
            Err(error) => {
                return Err(error);
            },
        };
        let events = events_for(sub_id, &after, succeed);
        store.set(sub_id, after);
        Ok(Renewal { renewed: succeed, events })
    }

    /// Makes one renewal attempt on subscription `sub_id` at ledger
    /// `current_ledger`, under the policy (`max_retries`,
    /// `cooldown_ledgers`), with outcome `succeed`.
    ///
    /// An admitted attempt replaces the record and reports the outcome with
    /// its notifications. A rejected one leaves the store as it was; so does
    /// every attempt on a failed subscription.
    ///
    /// The attempt must not exhaust the counter: a failure that is admitted
    /// on a count of `u32::MAX` has no outcome that the record can hold.
    /// `checked_renew` makes that test itself.
    pub fn renew(
        store: &mut SubscriptionStore,
        current_ledger: u32,
        sub_id: u64,
        max_retries: u32,
        cooldown_ledgers: u32,
        succeed: bool,
    ) -> (result: Result<Renewal, RenewalError>)
        requires
            !Self::exhausts_counter(old(store)@, current_ledger, sub_id, cooldown_ledgers, succeed),
        ensures
            Self::renews(
                old(store)@,
                final(store)@,
                current_ledger,
                sub_id,
                max_retries,
                cooldown_ledgers,
                succeed,
                result,
            ),
            old(store)@.contains_key(sub_id) && old(store)@[sub_id].state
                == SubscriptionState::Failed ==> {
                &&& result == Err::<Renewal, RenewalError>(RenewalError::TerminalStateViolation)
                &&& final(store)@ == old(store)@
            },
            old(store).consistent() ==> final(store).consistent(),
    {
        match store.get(sub_id) {
            Some(data) => Self::renew_record(
                store,
                data,
                current_ledger,
                sub_id,
                max_retries,
                cooldown_ledgers,
                succeed,
            ),
            None => Err(RenewalError::SubscriptionNotFound),
        }
    }

    /// Makes one renewal attempt as `renew` does, unless the attempt would
    /// exhaust the counter: then nothing is done and `None` is returned.
    pub fn checked_renew(
        store: &mut SubscriptionStore,
        current_ledger: u32,
        sub_id: u64,
        max_retries: u32,
        cooldown_ledgers: u32,
        succeed: bool,
    ) -> (result: Option<Result<Renewal, RenewalError>>)
        ensures
            match result {
                Some(outcome) => {
                    &&& !Self::exhausts_counter(
                        old(store)@,
                        current_ledger,
                        sub_id,
                        cooldown_ledgers,
                        succeed,
                    )
                    &&& Self::renews(
                        old(store)@,
                        final(store)@,
                        current_ledger,
                        sub_id,
                        max_retries,
                        cooldown_ledgers,
                        succeed,
                        outcome,
                    )
                },
                None => {
                    &&& Self::exhausts_counter(
                        old(store)@,
                        current_ledger,
                        sub_id,
                        cooldown_ledgers,
                        succeed,
                    )
                    &&& final(store)@ == old(store)@
                },
            },
            old(store).consistent() ==> final(store).consistent(),
    {
        match store.get(sub_id) {
            Some(data) => {
                if data.would_exhaust_counter(current_ledger, cooldown_ledgers, succeed) {
                    None
                } else {
                    Some(
                        Self::renew_record(
                            store,
                            data,
                            current_ledger,
                            sub_id,
                            max_retries,
                            cooldown_ledgers,
                            succeed,
                        ),
                    )
                }
            },
            None => Some(Err(RenewalError::SubscriptionNotFound)),
        }
    }

    /// `Failed` absorbs: a renewal attempt on a failed subscription is
    /// rejected with `TerminalStateViolation`, whatever its ledger, policy and
    /// outcome. As a rejected attempt, it leaves the store as it was.
    pub proof fn failed_subscription_rejects_renewal(
        records: Map<u64, SubscriptionData>,
        now: u32,
        sub_id: u64,
        max_retries: u32,
        cooldown_ledgers: u32,
        succeed: bool,
    )
        requires
            records.contains_key(sub_id),
            records[sub_id].state == SubscriptionState::Failed,
        ensures
            Self::renewed_record(records, now, sub_id, max_retries, cooldown_ledgers, succeed)
                == Err::<SubscriptionData, RenewalError>(RenewalError::TerminalStateViolation),
            !Self::exhausts_counter(records, now, sub_id, cooldown_ledgers, succeed),
    {
    }

    /// A copy of the record of subscription `sub_id`.
    pub fn get_sub(store: &SubscriptionStore, sub_id: u64) -> (result: Result<
        SubscriptionData,
        RenewalError,
    >)
        ensures
            match result {
                Ok(data) => store@.contains_key(sub_id) && data == store@[sub_id],
                Err(error) => {
                    error == RenewalError::SubscriptionNotFound && !store@.contains_key(sub_id)
                },
            },
    {
        match store.get(sub_id) {
            Some(data) => Ok(data),
            None => Err(RenewalError::SubscriptionNotFound),
        }
    }
}

} // verus!
