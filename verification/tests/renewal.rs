use soroban_sdk::{Address, Env};
use subscription_renewal::error::RenewalError;
use subscription_renewal::events::RenewalEvent;
use subscription_renewal::renewal::{Renewal, SubscriptionRenewalContract};
use subscription_renewal::store::SubscriptionStore;
use subscription_renewal::subscription::{SubscriptionData, SubscriptionState};

fn subscriber(env: &Env) -> Address {
    Address::from_str(env, "GBF7KERPGRCVJRJ33YXLXDGSW7R5CYAK2YY4HBNF27GOEPDXQVCZUCHR")
}

fn renew_or_abort(
    store: &mut SubscriptionStore,
    ledger: u32,
    sub_id: u64,
    max_retries: u32,
    cooldown: u32,
    succeed: bool,
) -> bool {
    match SubscriptionRenewalContract::renew(store, ledger, sub_id, max_retries, cooldown, succeed)
    {
        Ok(renewal) => renewal.renewed,
        Err(error) => panic!("{}", error.message()),
    }
}

fn record(store: &SubscriptionStore, sub_id: u64) -> SubscriptionData {
    SubscriptionRenewalContract::get_sub(store, sub_id).unwrap()
}

#[test]
fn test_renewal_success() {
    let env = Env::default();
    let mut store = SubscriptionStore::new();

    let user = subscriber(&env);
    let sub_id = 123;

    SubscriptionRenewalContract::init_sub(&mut store, user, sub_id).unwrap();

    let result = renew_or_abort(&mut store, 0, sub_id, 3, 10, true);
    assert!(result);

    let data = record(&store, sub_id);
    assert_eq!(data.state, SubscriptionState::Active);
    assert_eq!(data.failure_count, 0);
}

#[test]
fn test_retry_logic() {
    let env = Env::default();
    let mut store = SubscriptionStore::new();

    let user = subscriber(&env);
    let sub_id = 456;
    let max_retries = 2;
    let cooldown = 10;

    SubscriptionRenewalContract::init_sub(&mut store, user, sub_id).unwrap();

    // First failure
    let result = renew_or_abort(&mut store, 0, sub_id, max_retries, cooldown, false);
    assert!(!result);

    let data = record(&store, sub_id);
    assert_eq!(data.state, SubscriptionState::Retrying);
    assert_eq!(data.failure_count, 1);

    // Second failure, well past the cooldown
    renew_or_abort(&mut store, 100, sub_id, max_retries, cooldown, false);

    // Ledger 105 lies inside the cooldown that started at 100
    assert_eq!(
        SubscriptionRenewalContract::renew(&mut store, 105, sub_id, max_retries, cooldown, false),
        Err(RenewalError::CooldownActive)
    );

    // Third failure (count becomes 3 > max_retries 2)
    renew_or_abort(&mut store, 120, sub_id, max_retries, cooldown, false);

    let data = record(&store, sub_id);
    assert_eq!(data.state, SubscriptionState::Failed);
    assert_eq!(data.failure_count, 3);
}

#[test]
#[should_panic(expected = "Cooldown period active")]
fn test_cooldown_enforcement() {
    let env = Env::default();
    let mut store = SubscriptionStore::new();

    let user = subscriber(&env);
    let sub_id = 789;

    SubscriptionRenewalContract::init_sub(&mut store, user, sub_id).unwrap();

    // Fail once
    renew_or_abort(&mut store, 0, sub_id, 3, 10, false);

    // Try again immediately (cooldown not met)
    renew_or_abort(&mut store, 0, sub_id, 3, 10, false);
}

#[test]
fn test_event_emission_on_success() {
    let env = Env::default();
    let mut store = SubscriptionStore::new();

    let user = subscriber(&env);
    let sub_id = 999;

    SubscriptionRenewalContract::init_sub(&mut store, user.clone(), sub_id).unwrap();

    let renewal =
        SubscriptionRenewalContract::renew(&mut store, 0, sub_id, 3, 10, true).unwrap();
    assert!(renewal.renewed);
    assert_eq!(renewal.events, vec![RenewalEvent::Renewed { sub_id, owner: user }]);

    let data = record(&store, sub_id);
    assert_eq!(data.state, SubscriptionState::Active);
    assert_eq!(data.failure_count, 0);
}

#[test]
fn test_zero_max_retries() {
    let env = Env::default();
    let mut store = SubscriptionStore::new();

    let user = subscriber(&env);
    let sub_id = 111;
    let max_retries = 0;

    SubscriptionRenewalContract::init_sub(&mut store, user, sub_id).unwrap();

    // First failure with max_retries = 0 is terminal
    let result = renew_or_abort(&mut store, 0, sub_id, max_retries, 10, false);
    assert!(!result);

    let data = record(&store, sub_id);
    assert_eq!(data.state, SubscriptionState::Failed);
    assert_eq!(data.failure_count, 1);
}

#[test]
fn test_multiple_failures_then_success() {
    let env = Env::default();
    let mut store = SubscriptionStore::new();

    let user = subscriber(&env);
    let sub_id = 222;
    let max_retries = 3;
    let cooldown = 10;

    SubscriptionRenewalContract::init_sub(&mut store, user, sub_id).unwrap();

    // First failure
    renew_or_abort(&mut store, 0, sub_id, max_retries, cooldown, false);
    let data = record(&store, sub_id);
    assert_eq!(data.state, SubscriptionState::Retrying);
    assert_eq!(data.failure_count, 1);

    // Second failure
    renew_or_abort(&mut store, 20, sub_id, max_retries, cooldown, false);
    let data = record(&store, sub_id);
    assert_eq!(data.state, SubscriptionState::Retrying);
    assert_eq!(data.failure_count, 2);

    // Success resets the count and returns to Active
    let result = renew_or_abort(&mut store, 40, sub_id, max_retries, cooldown, true);
    assert!(result);

    let data = record(&store, sub_id);
    assert_eq!(data.state, SubscriptionState::Active);
    assert_eq!(data.failure_count, 0);
}

#[test]
#[should_panic(expected = "Subscription is in FAILED state")]
fn test_cannot_renew_failed_subscription() {
    let env = Env::default();
    let mut store = SubscriptionStore::new();

    let user = subscriber(&env);
    let sub_id = 333;
    let max_retries = 1;
    let cooldown = 10;

    SubscriptionRenewalContract::init_sub(&mut store, user, sub_id).unwrap();

    // Fail twice to reach the Failed state
    renew_or_abort(&mut store, 0, sub_id, max_retries, cooldown, false);
    renew_or_abort(&mut store, 20, sub_id, max_retries, cooldown, false);

    let data = record(&store, sub_id);
    assert_eq!(data.state, SubscriptionState::Failed);

    // Renewing a failed subscription aborts, even with a successful outcome
    renew_or_abort(&mut store, 40, sub_id, max_retries, cooldown, true);
}

#[test]
fn init_creates_an_active_record_without_failures() {
    let env = Env::default();
    let mut store = SubscriptionStore::new();
    let user = subscriber(&env);

    assert_eq!(SubscriptionRenewalContract::init_sub(&mut store, user.clone(), 7), Ok(()));

    let data = record(&store, 7);
    assert_eq!(
        data,
        SubscriptionData {
            owner: user,
            state: SubscriptionState::Active,
            failure_count: 0,
            last_attempt_ledger: 0,
        }
    );
}

#[test]
fn init_rejects_a_taken_identifier() {
    let env = Env::default();
    let mut store = SubscriptionStore::new();
    let first = subscriber(&env);
    let second =
        Address::from_str(&env, "CAAQCAIBAEAQCAIBAEAQCAIBAEAQCAIBAEAQCAIBAEAQCAIBAEAQC526");

    SubscriptionRenewalContract::init_sub(&mut store, first.clone(), 5).unwrap();
    renew_or_abort(&mut store, 3, 5, 4, 10, false);
    let before = record(&store, 5);

    assert_eq!(
        SubscriptionRenewalContract::init_sub(&mut store, second, 5),
        Err(RenewalError::DuplicateSubscription)
    );
    assert_eq!(record(&store, 5), before);
    assert_eq!(before.owner, first);
}

#[test]
fn renew_of_an_unknown_subscription_is_rejected() {
    let mut store = SubscriptionStore::new();
    assert_eq!(
        SubscriptionRenewalContract::renew(&mut store, 0, 42, 3, 10, true),
        Err(RenewalError::SubscriptionNotFound)
    );
    assert!(!store.has(42));
}

#[test]
fn lookup_of_an_unknown_subscription_is_rejected() {
    let env = Env::default();
    let mut store = SubscriptionStore::new();
    SubscriptionRenewalContract::init_sub(&mut store, subscriber(&env), 1).unwrap();
    assert_eq!(
        SubscriptionRenewalContract::get_sub(&store, 2),
        Err(RenewalError::SubscriptionNotFound)
    );
}

#[test]
fn failed_record_is_left_unchanged_by_every_call() {
    let env = Env::default();
    let mut store = SubscriptionStore::new();
    SubscriptionRenewalContract::init_sub(&mut store, subscriber(&env), 9).unwrap();
    renew_or_abort(&mut store, 5, 9, 0, 10, false);

    let failed = record(&store, 9);
    assert_eq!(failed.state, SubscriptionState::Failed);
    assert_eq!(failed.failure_count, 1);
    assert_eq!(failed.last_attempt_ledger, 5);

    for (ledger, max_retries, cooldown, succeed) in [
        (5, 0, 10, false),
        (6, 100, 0, true),
        (1_000, 3, 10, true),
        (u32::MAX, u32::MAX, u32::MAX, false),
    ] {
        let result =
            SubscriptionRenewalContract::renew(&mut store, ledger, 9, max_retries, cooldown, succeed);
        assert_eq!(result, Err(RenewalError::TerminalStateViolation));
        assert_eq!(record(&store, 9), failed);
    }
}

#[test]
fn state_is_failed_exactly_when_failures_exceed_the_limit() {
    let env = Env::default();
    for max_retries in 0u32..5 {
        let mut store = SubscriptionStore::new();
        SubscriptionRenewalContract::init_sub(&mut store, subscriber(&env), 1).unwrap();
        for failures in 1u32..=max_retries + 1 {
            let ledger = failures * 10;
            let renewal =
                SubscriptionRenewalContract::renew(&mut store, ledger, 1, max_retries, 10, false)
                    .unwrap();
            assert!(!renewal.renewed);
            let data = record(&store, 1);
            assert_eq!(data.failure_count, failures);
            assert_eq!(data.last_attempt_ledger, ledger);
            if failures > max_retries {
                assert_eq!(data.state, SubscriptionState::Failed);
            } else {
                assert_eq!(data.state, SubscriptionState::Retrying);
            }
        }
    }
}

#[test]
fn cooldown_ends_at_last_attempt_plus_cooldown() {
    let env = Env::default();
    let mut store = SubscriptionStore::new();
    SubscriptionRenewalContract::init_sub(&mut store, subscriber(&env), 1).unwrap();
    renew_or_abort(&mut store, 50, 1, 5, 10, false);
    let before = record(&store, 1);

    // One ledger short of the end of the cooldown
    assert_eq!(
        SubscriptionRenewalContract::renew(&mut store, 59, 1, 5, 10, true),
        Err(RenewalError::CooldownActive)
    );
    assert_eq!(record(&store, 1), before);

    // At the end of the cooldown the call proceeds
    let renewal = SubscriptionRenewalContract::renew(&mut store, 60, 1, 5, 10, false).unwrap();
    assert!(!renewal.renewed);
    let data = record(&store, 1);
    assert_eq!(data.failure_count, 2);
    assert_eq!(data.last_attempt_ledger, 60);
}

#[test]
fn cooldown_is_not_cut_short_by_the_width_of_the_counter() {
    let env = Env::default();
    let mut store = SubscriptionStore::new();
    SubscriptionRenewalContract::init_sub(&mut store, subscriber(&env), 1).unwrap();
    renew_or_abort(&mut store, 10, 1, 5, 0, false);

    // 10 + u32::MAX lies beyond every ledger
    assert_eq!(
        SubscriptionRenewalContract::renew(&mut store, u32::MAX, 1, 5, u32::MAX, true),
        Err(RenewalError::CooldownActive)
    );
}

#[test]
fn zero_cooldown_admits_an_immediate_retry() {
    let env = Env::default();
    let mut store = SubscriptionStore::new();
    SubscriptionRenewalContract::init_sub(&mut store, subscriber(&env), 1).unwrap();
    renew_or_abort(&mut store, 7, 1, 5, 0, false);
    renew_or_abort(&mut store, 7, 1, 5, 0, false);
    assert_eq!(record(&store, 1).failure_count, 2);
}

#[test]
fn no_cooldown_applies_without_a_failure() {
    let env = Env::default();
    let mut store = SubscriptionStore::new();
    SubscriptionRenewalContract::init_sub(&mut store, subscriber(&env), 1).unwrap();

    // A new record may be renewed at once, and so may one just renewed
    assert!(renew_or_abort(&mut store, 100, 1, 3, 1_000, true));
    assert!(renew_or_abort(&mut store, 100, 1, 3, 1_000, true));
    assert!(!renew_or_abort(&mut store, 101, 1, 3, 1_000, false));
    let data = record(&store, 1);
    assert_eq!(data.state, SubscriptionState::Retrying);
    assert_eq!(data.last_attempt_ledger, 101);
}

#[test]
fn success_resets_the_failure_count() {
    let env = Env::default();
    let mut store = SubscriptionStore::new();
    let user = subscriber(&env);
    SubscriptionRenewalContract::init_sub(&mut store, user.clone(), 1).unwrap();
    for failures in 1u32..=4 {
        renew_or_abort(&mut store, failures * 10, 1, 9, 10, false);
    }
    assert_eq!(record(&store, 1).failure_count, 4);

    assert!(renew_or_abort(&mut store, 50, 1, 9, 10, true));
    assert_eq!(
        record(&store, 1),
        SubscriptionData {
            owner: user,
            state: SubscriptionState::Active,
            failure_count: 0,
            last_attempt_ledger: 50,
        }
    );
}

#[test]
fn active_records_never_carry_failures() {
    let env = Env::default();
    let mut store = SubscriptionStore::new();
    SubscriptionRenewalContract::init_sub(&mut store, subscriber(&env), 1).unwrap();
    let script = [
        (0, true),
        (1, false),
        (2, false),
        (11, false),
        (12, true),
        (21, true),
        (22, false),
        (32, true),
        (33, true),
        (34, false),
        (44, false),
        (54, false),
        (64, false),
        (74, true),
    ];
    for (ledger, succeed) in script {
        let _ = SubscriptionRenewalContract::renew(&mut store, ledger, 1, 3, 10, succeed);
        let data = record(&store, 1);
        if data.state == SubscriptionState::Active {
            assert_eq!(data.failure_count, 0);
        }
    }
    assert_eq!(record(&store, 1).state, SubscriptionState::Failed);
    assert_eq!(record(&store, 1).failure_count, 4);
}

#[test]
fn failure_emits_the_failure_and_then_the_state_change() {
    let env = Env::default();
    let mut store = SubscriptionStore::new();
    SubscriptionRenewalContract::init_sub(&mut store, subscriber(&env), 8).unwrap();

    let first = SubscriptionRenewalContract::renew(&mut store, 3, 8, 1, 10, false).unwrap();
    assert_eq!(
        first,
        Renewal {
            renewed: false,
            events: vec![
                RenewalEvent::Failed { sub_id: 8, failure_count: 1, ledger: 3 },
                RenewalEvent::StateChanged { sub_id: 8, state: SubscriptionState::Retrying },
            ],
        }
    );

    let second = SubscriptionRenewalContract::renew(&mut store, 13, 8, 1, 10, false).unwrap();
    assert_eq!(
        second.events,
        vec![
            RenewalEvent::Failed { sub_id: 8, failure_count: 2, ledger: 13 },
            RenewalEvent::StateChanged { sub_id: 8, state: SubscriptionState::Failed },
        ]
    );
}

#[test]
fn subscriptions_do_not_affect_each_other() {
    let env = Env::default();
    let mut store = SubscriptionStore::new();
    let first = subscriber(&env);
    let second =
        Address::from_str(&env, "CABAEAQCAIBAEAQCAIBAEAQCAIBAEAQCAIBAEAQCAIBAEAQCAIBAFNSZ");
    SubscriptionRenewalContract::init_sub(&mut store, first.clone(), 1).unwrap();
    SubscriptionRenewalContract::init_sub(&mut store, second.clone(), 2).unwrap();

    renew_or_abort(&mut store, 4, 1, 0, 10, false);

    assert_eq!(record(&store, 1).state, SubscriptionState::Failed);
    assert_eq!(record(&store, 1).owner, first);
    assert_eq!(record(&store, 2), SubscriptionData::new(second));
}

#[test]
fn rejections_describe_themselves() {
    assert_eq!(RenewalError::SubscriptionNotFound.message(), "Subscription not found");
    assert_eq!(RenewalError::DuplicateSubscription.message(), "Subscription already exists");
    assert_eq!(
        RenewalError::TerminalStateViolation.message(),
        "Subscription is in FAILED state"
    );
    assert_eq!(RenewalError::CooldownActive.message(), "Cooldown period active");
}

#[test]
fn events_name_their_topic_and_subscription() {
    let env = Env::default();
    let renewed = RenewalEvent::Renewed { sub_id: 1, owner: subscriber(&env) };
    let failed = RenewalEvent::Failed { sub_id: 2, failure_count: 1, ledger: 0 };
    let changed = RenewalEvent::StateChanged { sub_id: 3, state: SubscriptionState::Failed };
    assert_eq!(renewed.topic(), "renewed");
    assert_eq!(failed.topic(), "failed");
    assert_eq!(changed.topic(), "state_ch");
    assert_eq!(renewed.sub_id(), 1);
    assert_eq!(failed.sub_id(), 2);
    assert_eq!(changed.sub_id(), 3);
}

#[test]
fn checked_renew_declines_to_exhaust_the_counter() {
    let env = Env::default();
    let mut store = SubscriptionStore::new();
    let full = SubscriptionData {
        owner: subscriber(&env),
        state: SubscriptionState::Retrying,
        failure_count: u32::MAX,
        last_attempt_ledger: 0,
    };
    store.set(1, full.clone());

    // An admitted failure has no room on the counter: nothing is done
    assert_eq!(
        SubscriptionRenewalContract::checked_renew(&mut store, 10, 1, u32::MAX, 10, false),
        None
    );
    assert_eq!(record(&store, 1), full);

    // Inside the cooldown the attempt is rejected as ever
    assert_eq!(
        SubscriptionRenewalContract::checked_renew(&mut store, 9, 1, u32::MAX, 10, false),
        Some(Err(RenewalError::CooldownActive))
    );
    assert_eq!(
        SubscriptionRenewalContract::checked_renew(&mut store, 10, 2, u32::MAX, 10, false),
        Some(Err(RenewalError::SubscriptionNotFound))
    );

    // A success is admitted on the full counter and empties it
    let renewal =
        SubscriptionRenewalContract::checked_renew(&mut store, 10, 1, u32::MAX, 10, true)
            .unwrap()
            .unwrap();
    assert!(renewal.renewed);
    assert_eq!(record(&store, 1).failure_count, 0);
    assert_eq!(record(&store, 1).last_attempt_ledger, 10);
}

#[test]
fn checked_renew_agrees_with_renew() {
    let env = Env::default();
    let mut plain = SubscriptionStore::new();
    let mut checked = SubscriptionStore::new();
    SubscriptionRenewalContract::init_sub(&mut plain, subscriber(&env), 1).unwrap();
    SubscriptionRenewalContract::init_sub(&mut checked, subscriber(&env), 1).unwrap();

    let script = [
        (0, false),
        (5, false),
        (10, false),
        (20, true),
        (21, false),
        (31, false),
        (41, false),
        (51, true),
    ];
    for (ledger, succeed) in script {
        let expected = SubscriptionRenewalContract::renew(&mut plain, ledger, 1, 2, 10, succeed);
        let got =
            SubscriptionRenewalContract::checked_renew(&mut checked, ledger, 1, 2, 10, succeed);
        assert_eq!(got, Some(expected));
        assert_eq!(record(&checked, 1), record(&plain, 1));
    }
    assert_eq!(record(&plain, 1).state, SubscriptionState::Failed);
}
