//! Histories of calls, on one record and on all records of a store, and
//! what holds of every history.

use crate::error::RenewalError;
use crate::renewal::SubscriptionRenewalContract;
use crate::store::all_well_formed;
use crate::subscription::{SubscriptionData, SubscriptionState};
use soroban_sdk::Address;
use vstd::prelude::*;

verus! {

/// One call of the renewal operation: the ledger at which it is made, the
/// policy it is made under, and its outcome.
pub struct Attempt {
    pub now: u32,
    pub max_retries: u32,
    pub cooldown_ledgers: u32,
    pub succeed: bool,
}

/// The record after one call: replaced where the call is admitted, untouched
/// where it is rejected.
pub open spec fn step(data: SubscriptionData, attempt: Attempt) -> SubscriptionData {
    match data.after_attempt(
        attempt.now,
        attempt.max_retries,
        attempt.cooldown_ledgers,
        attempt.succeed,
    ) {
        Ok(after) => after,
        Err(_) => data,
    }
}

/// The record after the calls `attempts`, made in order on `data`.
pub open spec fn replay(data: SubscriptionData, attempts: Seq<Attempt>) -> SubscriptionData
    decreases attempts.len(),
{
    if attempts.len() == 0 {
        data
    } else {
        step(replay(data, attempts.drop_last()), attempts.last())
    }
}

/// Failed calls under one policy, one at each of `ledgers`.
pub open spec fn failures_at(ledgers: Seq<u32>, max_retries: u32, cooldown_ledgers: u32) -> Seq<
    Attempt,
> {
    Seq::new(
        ledgers.len(),
        |i: int| Attempt { now: ledgers[i], max_retries, cooldown_ledgers, succeed: false },
    )
}

/// Whether each ledger but the first lies at least `cooldown_ledgers` after
/// the one before it.
pub open spec fn spaced_by(ledgers: Seq<u32>, cooldown_ledgers: u32) -> bool {
    forall|i: int|
        0 < i < ledgers.len() ==> (#[trigger] ledgers[i]) >= ledgers[i - 1] + cooldown_ledgers
}

/// Whether the calls are made at ledgers that never go back, none before
/// ledger `from`.
pub open spec fn in_ledger_order(attempts: Seq<Attempt>, from: u32) -> bool {
    &&& forall|i: int| 0 <= i < attempts.len() ==> from <= (#[trigger] attempts[i]).now
    &&& forall|i: int, j: int|
        0 <= i <= j < attempts.len() ==> (#[trigger] attempts[i]).now <= (
        #[trigger] attempts[j]).now
}

/// An admitted call leaves a well-formed record, whatever record it found.
pub proof fn attempt_leaves_well_formed(
    data: SubscriptionData,
    now: u32,
    max_retries: u32,
    cooldown_ledgers: u32,
    succeed: bool,
)
    ensures
        data.after_attempt(now, max_retries, cooldown_ledgers, succeed) matches Ok(after)
            ==> after.well_formed(),
{
}

/// Every record that calls of the renewal operation can reach from a new
/// subscription is well formed: while it is active, its failure count is 0.
pub proof fn reachable_records_are_well_formed(owner: Address, attempts: Seq<Attempt>)
    ensures
        replay(SubscriptionData::initial(owner), attempts).well_formed(),
        replay(SubscriptionData::initial(owner), attempts).state == SubscriptionState::Active
            ==> replay(SubscriptionData::initial(owner), attempts).failure_count == 0,
    decreases attempts.len(),
{
    if attempts.len() > 0 {
        reachable_records_are_well_formed(owner, attempts.drop_last());
    }
}

/// Calls of the renewal operation keep a well-formed record well formed.
pub proof fn history_keeps_well_formed(start: SubscriptionData, attempts: Seq<Attempt>)
    requires
        start.well_formed(),
    ensures
        replay(start, attempts).well_formed(),
    decreases attempts.len(),
{
    if attempts.len() > 0 {
        history_keeps_well_formed(start, attempts.drop_last());
    }
}

/// `Failed` absorbs: every call on a failed record is rejected with
/// `TerminalStateViolation`, whatever its ledger, policy and outcome.
pub proof fn failed_rejects_every_attempt(
    data: SubscriptionData,
    now: u32,
    max_retries: u32,
    cooldown_ledgers: u32,
    succeed: bool,
)
    requires
        data.state == SubscriptionState::Failed,
    ensures
        data.after_attempt(now, max_retries, cooldown_ledgers, succeed) == Err::<
            SubscriptionData,
            RenewalError,
        >(RenewalError::TerminalStateViolation),
{
}

/// `Failed` absorbs: no history of calls changes a failed record.
pub proof fn failed_is_absorbing(data: SubscriptionData, attempts: Seq<Attempt>)
    requires
        data.state == SubscriptionState::Failed,
    ensures
        replay(data, attempts) == data,
    decreases attempts.len(),
{
    if attempts.len() > 0 {
        failed_is_absorbing(data, attempts.drop_last());
    }
}

/// The escalation threshold. Take a record that is not failed and has no
/// failure on its count, and make `ledgers.len()` failed calls under the
/// policy `max_retries`, each after the cooldown that follows the one
/// before. Then the record is `Failed` exactly when the calls outnumber
/// `max_retries`, and `Retrying` otherwise (after at least one call).
///
/// Its count is the number of calls, capped at `max_retries + 1`, as far as
/// the counter can hold that number.
pub proof fn escalation_threshold(
    start: SubscriptionData,
    ledgers: Seq<u32>,
    max_retries: u32,
    cooldown_ledgers: u32,
)
    requires
        start.state != SubscriptionState::Failed,
        start.failure_count == 0,
        spaced_by(ledgers, cooldown_ledgers),
    ensures
        ({
            let end = replay(start, failures_at(ledgers, max_retries, cooldown_ledgers));
            let calls = ledgers.len() as int;
            &&& (end.state == SubscriptionState::Failed) == (calls > max_retries)
            &&& 0 < calls <= max_retries ==> end.state == SubscriptionState::Retrying
            &&& calls <= max_retries ==> end.failure_count == calls
            &&& calls > max_retries && max_retries < u32::MAX ==> end.failure_count == max_retries
                + 1
            &&& 0 < calls <= max_retries + 1 ==> end.last_attempt_ledger == ledgers[calls - 1]
        }),
    decreases ledgers.len(),
{
    if ledgers.len() > 0 {
        let earlier = ledgers.drop_last();
        escalation_threshold(start, earlier, max_retries, cooldown_ledgers);
        assert(failures_at(ledgers, max_retries, cooldown_ledgers).drop_last() =~= failures_at(
            earlier,
            max_retries,
            cooldown_ledgers,
        ));
    }
}

/// The cooldown. On a record with a failure on its count that is not
/// failed, a call before the cooldown has elapsed is rejected with
/// `CooldownActive`, and a call at or after its end is admitted.
pub proof fn cooldown_decides_admission(
    data: SubscriptionData,
    now: u32,
    max_retries: u32,
    cooldown_ledgers: u32,
    succeed: bool,
)
    requires
        data.failure_count > 0,
        data.state != SubscriptionState::Failed,
    ensures
        now < data.last_attempt_ledger + cooldown_ledgers ==> data.after_attempt(
            now,
            max_retries,
            cooldown_ledgers,
            succeed,
        ) == Err::<SubscriptionData, RenewalError>(RenewalError::CooldownActive),
        now >= data.last_attempt_ledger + cooldown_ledgers ==> data.after_attempt(
            now,
            max_retries,
            cooldown_ledgers,
            succeed,
        ) is Ok,
{
}

/// A record without failures has no cooldown: unless it is failed, a call
/// on it is admitted at any ledger.
pub proof fn no_cooldown_without_failure(
    data: SubscriptionData,
    now: u32,
    max_retries: u32,
    cooldown_ledgers: u32,
    succeed: bool,
)
    requires
        data.failure_count == 0,
        data.state != SubscriptionState::Failed,
    ensures
        data.after_attempt(now, max_retries, cooldown_ledgers, succeed) is Ok,
{
}

/// Reset on success: an admitted successful call leaves the record active
/// with a failure count of 0, whatever the count was.
pub proof fn success_resets_failures(
    data: SubscriptionData,
    now: u32,
    max_retries: u32,
    cooldown_ledgers: u32,
)
    ensures
        data.after_attempt(now, max_retries, cooldown_ledgers, true) matches Ok(after) ==> {
            &&& after.failure_count == 0
            &&& after.state == SubscriptionState::Active
            &&& after.last_attempt_ledger == now
            &&& after.owner == data.owner
        },
{
}

/// The owner of a record never changes.
pub proof fn owner_is_kept(start: SubscriptionData, attempts: Seq<Attempt>)
    ensures
        replay(start, attempts).owner == start.owner,
    decreases attempts.len(),
{
    if attempts.len() > 0 {
        owner_is_kept(start, attempts.drop_last());
    }
}

/// Where calls are made at ledgers that never go back, none before the
/// ledger of the record's last attempt, that ledger never goes back either,
/// and never lies beyond the ledger of the latest call.
pub proof fn last_attempt_never_recedes(start: SubscriptionData, attempts: Seq<Attempt>)
    requires
        in_ledger_order(attempts, start.last_attempt_ledger),
    ensures
        start.last_attempt_ledger <= replay(start, attempts).last_attempt_ledger,
        attempts.len() > 0 ==> replay(start, attempts).last_attempt_ledger <= attempts.last().now,
    decreases attempts.len(),
{
    if attempts.len() > 0 {
        last_attempt_never_recedes(start, attempts.drop_last());
    }
}

/// One call of the controller that may change the records.
pub enum Call {
    /// The creation of subscription `sub_id` for `owner`.
    Create { owner: Address, sub_id: u64 },
    /// A renewal attempt on subscription `sub_id`.
    Renew { sub_id: u64, attempt: Attempt },
}

/// The records after one call of the controller.
pub open spec fn after_call(records: Map<u64, SubscriptionData>, call: Call) -> Map<
    u64,
    SubscriptionData,
> {
    match call {
        Call::Create { owner, sub_id } => SubscriptionRenewalContract::after_init(
            records,
            owner,
            sub_id,
        ),
        Call::Renew { sub_id, attempt } => SubscriptionRenewalContract::after_renew(
            records,
            attempt.now,
            sub_id,
            attempt.max_retries,
            attempt.cooldown_ledgers,
            attempt.succeed,
        ),
    }
}

/// The records after the calls `calls`, made in order on `records`.
pub open spec fn after_calls(records: Map<u64, SubscriptionData>, calls: Seq<Call>) -> Map<
    u64,
    SubscriptionData,
>
    decreases calls.len(),
{
    if calls.len() == 0 {
        records
    } else {
        after_call(after_calls(records, calls.drop_last()), calls.last())
    }
}

/// Calls of the controller keep well-formed records well formed.
pub proof fn calls_keep_well_formed(records: Map<u64, SubscriptionData>, calls: Seq<Call>)
    requires
        all_well_formed(records),
    ensures
        all_well_formed(after_calls(records, calls)),
    decreases calls.len(),
{
    if calls.len() > 0 {
        calls_keep_well_formed(records, calls.drop_last());
    }
}

/// Every record that calls of the controller can bring about, starting
/// without any record, is well formed: while it is active, its failure count
/// is 0.
pub proof fn reachable_stores_are_well_formed(calls: Seq<Call>, sub_id: u64)
    requires
        after_calls(Map::empty(), calls).contains_key(sub_id),
    ensures
        after_calls(Map::empty(), calls)[sub_id].well_formed(),
        after_calls(Map::empty(), calls)[sub_id].state == SubscriptionState::Active
            ==> after_calls(Map::empty(), calls)[sub_id].failure_count == 0,
{
    calls_keep_well_formed(Map::empty(), calls);
}

/// `Failed` absorbs: once the record of a subscription is failed, no call of
/// the controller changes it, be it a renewal attempt or a creation under
/// its identifier.
pub proof fn failed_subscription_never_changes(
    records: Map<u64, SubscriptionData>,
    sub_id: u64,
    calls: Seq<Call>,
)
    requires
        records.contains_key(sub_id),
        records[sub_id].state == SubscriptionState::Failed,
    ensures
        after_calls(records, calls).contains_key(sub_id),
        after_calls(records, calls)[sub_id] == records[sub_id],
    decreases calls.len(),
{
    if calls.len() > 0 {
        failed_subscription_never_changes(records, sub_id, calls.drop_last());
    }
}

/// A record exists only once it is created: a renewal attempt never makes
/// one, and no call takes one away.
pub proof fn records_come_from_creation_alone(records: Map<u64, SubscriptionData>, call: Call)
    ensures
        match call {
            Call::Create { sub_id, .. } => after_call(records, call).dom() == records.dom().insert(
                sub_id,
            ),
            Call::Renew { .. } => after_call(records, call).dom() == records.dom(),
        },
{
}

} // verus!
