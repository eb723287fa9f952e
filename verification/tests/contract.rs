use soroban_sdk::Env;
use subscription_renewal::{
    AccountId, AddressKind, ContractEnv, ContractError, LedgerInfo, SubscriptionRenewalContract,
    SubscriptionState,
};

type C = SubscriptionRenewalContract;

fn account(n: u8) -> AccountId {
    AccountId { kind: AddressKind::Contract, key: [n; 32] }
}

fn setup() -> (ContractEnv, AccountId) {
    let mut env = ContractEnv::new(Env::default(), LedgerInfo { sequence: 0, timestamp: 0 });
    let admin = account(1);
    C::init(&mut env, admin).unwrap();
    (env, admin)
}

// ── Init tests ────────────────────────────────────────────────────

#[test]
fn test_cannot_init_twice() {
    let (mut env, _admin) = setup();
    let another = account(2);
    let err = C::init(&mut env, another).unwrap_err();
    assert_eq!(err, ContractError::AlreadyInitialized);
}

// ── Renewal success / failure ─────────────────────────────────────

#[test]
fn test_renew_works_after_unpause() {
    let (mut env, _admin) = setup();
    let user = account(2);
    let sub_id = 101u64;
    let merchant = account(3);
    C::init_sub(&mut env, user, merchant, 500, 86400, 1000, sub_id);
    C::approve_renewal(&mut env, sub_id, 1, 1000, 100).unwrap();

    C::set_paused(&mut env, true).unwrap();
    C::set_paused(&mut env, false).unwrap();

    C::acquire_renewal_lock(&mut env, sub_id, 200).unwrap();
    let result = C::renew(&mut env, sub_id, 1, 500, 3, 10, 20260101, true).unwrap();
    assert!(result);
}

#[test]
fn test_renewal_success() {
    let (mut env, _admin) = setup();
    let user = account(2);
    let sub_id = 123u64;
    let merchant = account(3);
    C::init_sub(&mut env, user, merchant, 500, 86400, 1000, sub_id);
    C::approve_renewal(&mut env, sub_id, 1, 1000, 100).unwrap();

    C::acquire_renewal_lock(&mut env, sub_id, 200).unwrap();
    let result = C::renew(&mut env, sub_id, 1, 500, 3, 10, 20260115, true).unwrap();
    assert!(result);

    let data = C::get_sub(&env, sub_id).unwrap();
    assert_eq!(data.state, SubscriptionState::Active);
    assert_eq!(data.failure_count, 0);
}

#[test]
fn test_retry_logic() {
    let (mut env, _admin) = setup();
    let user = account(2);
    let sub_id = 456u64;
    let max_retries = 2u32;
    let cooldown = 10u32;
    let merchant = account(3);
    C::init_sub(&mut env, user, merchant, 500, 86400, 1000, sub_id);

    C::approve_renewal(&mut env, sub_id, 1, 1000, 200).unwrap();
    C::acquire_renewal_lock(&mut env, sub_id, 200).unwrap();
    let result = C::renew(&mut env, sub_id, 1, 500, max_retries, cooldown, 20260201, false).unwrap();
    assert!(!result);

    let data = C::get_sub(&env, sub_id).unwrap();
    assert_eq!(data.state, SubscriptionState::Retrying);
    assert_eq!(data.failure_count, 1);

    env.ledger.sequence = 100;

    C::approve_renewal(&mut env, sub_id, 2, 1000, 200).unwrap();
    C::acquire_renewal_lock(&mut env, sub_id, 200).unwrap();
    C::renew(&mut env, sub_id, 2, 500, max_retries, cooldown, 20260201, false).unwrap();

    env.ledger.sequence = 120;

    C::approve_renewal(&mut env, sub_id, 3, 1000, 200).unwrap();
    C::acquire_renewal_lock(&mut env, sub_id, 200).unwrap();
    C::renew(&mut env, sub_id, 3, 500, max_retries, cooldown, 20260201, false).unwrap();

    let data = C::get_sub(&env, sub_id).unwrap();
    assert_eq!(data.state, SubscriptionState::Failed);
    assert_eq!(data.failure_count, 3);
}

#[test]
fn test_cooldown_enforcement() {
    let (mut env, _admin) = setup();
    let user = account(2);
    let sub_id = 789u64;
    let merchant = account(3);
    C::init_sub(&mut env, user, merchant, 500, 86400, 1000, sub_id);

    C::approve_renewal(&mut env, sub_id, 1, 1000, 100).unwrap();
    C::acquire_renewal_lock(&mut env, sub_id, 200).unwrap();
    C::renew(&mut env, sub_id, 1, 500, 3, 10, 20260301, false).unwrap();

    C::approve_renewal(&mut env, sub_id, 2, 1000, 100).unwrap();
    C::acquire_renewal_lock(&mut env, sub_id, 200).unwrap();
    let err = C::renew(&mut env, sub_id, 2, 500, 3, 10, 20260301, false).unwrap_err();
    assert_eq!(err, ContractError::CooldownActive);
}

#[test]
fn test_event_emission_on_success() {
    let (mut env, _admin) = setup();
    let user = account(2);
    let sub_id = 999u64;
    let merchant = account(3);
    C::init_sub(&mut env, user, merchant, 500, 86400, 1000, sub_id);
    C::approve_renewal(&mut env, sub_id, 1, 1000, 100).unwrap();

    C::acquire_renewal_lock(&mut env, sub_id, 200).unwrap();
    let result = C::renew(&mut env, sub_id, 1, 500, 3, 10, 20260315, true).unwrap();
    assert!(result);

    let data = C::get_sub(&env, sub_id).unwrap();
    assert_eq!(data.state, SubscriptionState::Active);
    assert_eq!(data.failure_count, 0);
}

#[test]
fn test_zero_max_retries() {
    let (mut env, _admin) = setup();
    let user = account(2);
    let sub_id = 111u64;
    let merchant = account(3);
    C::init_sub(&mut env, user, merchant, 500, 86400, 1000, sub_id);
    C::approve_renewal(&mut env, sub_id, 1, 1000, 100).unwrap();

    C::acquire_renewal_lock(&mut env, sub_id, 200).unwrap();
    let result = C::renew(&mut env, sub_id, 1, 500, 0, 10, 20260401, false).unwrap();
    assert!(!result);

    let data = C::get_sub(&env, sub_id).unwrap();
    assert_eq!(data.state, SubscriptionState::Failed);
    assert_eq!(data.failure_count, 1);
}

#[test]
fn test_multiple_failures_then_success() {
    let (mut env, _admin) = setup();
    let user = account(2);
    let sub_id = 222u64;
    let max_retries = 3u32;
    let cooldown = 10u32;
    let merchant = account(3);
    C::init_sub(&mut env, user, merchant, 500, 86400, 1000, sub_id);

    C::approve_renewal(&mut env, sub_id, 1, 1000, 200).unwrap();
    C::acquire_renewal_lock(&mut env, sub_id, 200).unwrap();
    C::renew(&mut env, sub_id, 1, 500, max_retries, cooldown, 20260501, false).unwrap();
    assert_eq!(C::get_sub(&env, sub_id).unwrap().state, SubscriptionState::Retrying);

    env.ledger.sequence = 20;

    C::approve_renewal(&mut env, sub_id, 2, 1000, 200).unwrap();
    C::acquire_renewal_lock(&mut env, sub_id, 200).unwrap();
    C::renew(&mut env, sub_id, 2, 500, max_retries, cooldown, 20260501, false).unwrap();
    assert_eq!(C::get_sub(&env, sub_id).unwrap().state, SubscriptionState::Retrying);

    env.ledger.sequence = 40;

    C::approve_renewal(&mut env, sub_id, 3, 1000, 200).unwrap();
    C::acquire_renewal_lock(&mut env, sub_id, 200).unwrap();
    let result = C::renew(&mut env, sub_id, 3, 500, max_retries, cooldown, 20260501, true).unwrap();
    assert!(result);

    let data = C::get_sub(&env, sub_id).unwrap();
    assert_eq!(data.state, SubscriptionState::Active);
    assert_eq!(data.failure_count, 0);
}

#[test]
fn test_cannot_renew_failed_subscription() {
    let (mut env, _admin) = setup();
    let user = account(2);
    let sub_id = 333u64;
    let merchant = account(3);
    C::init_sub(&mut env, user, merchant, 500, 86400, 1000, sub_id);

    C::approve_renewal(&mut env, sub_id, 1, 1000, 200).unwrap();
    C::acquire_renewal_lock(&mut env, sub_id, 200).unwrap();
    C::renew(&mut env, sub_id, 1, 500, 1, 10, 20260601, false).unwrap();

    env.ledger.sequence = 20;

    C::approve_renewal(&mut env, sub_id, 2, 1000, 200).unwrap();
    C::acquire_renewal_lock(&mut env, sub_id, 200).unwrap();
    C::renew(&mut env, sub_id, 2, 500, 1, 10, 20260601, false).unwrap();

    assert_eq!(C::get_sub(&env, sub_id).unwrap().state, SubscriptionState::Failed);

    env.ledger.sequence = 40;

    C::approve_renewal(&mut env, sub_id, 3, 1000, 200).unwrap();
    C::acquire_renewal_lock(&mut env, sub_id, 200).unwrap();
    let err = C::renew(&mut env, sub_id, 3, 500, 1, 10, 20260701, true).unwrap_err();
    assert_eq!(err, ContractError::SubscriptionFailed);
}

// ── Approval system tests ─────────────────────────────────────────

#[test]
fn test_approval_required_for_renewal() {
    let (mut env, _admin) = setup();
    let user = account(2);
    let sub_id = 500u64;
    let merchant = account(3);
    C::init_sub(&mut env, user, merchant, 500, 86400, 1000, sub_id);
    C::approve_renewal(&mut env, sub_id, 1, 1000, 100).unwrap();

    C::acquire_renewal_lock(&mut env, sub_id, 200).unwrap();
    let result = C::renew(&mut env, sub_id, 1, 500, 3, 10, 20260801, true).unwrap();
    assert!(result);
}

#[test]
fn test_renewal_without_approval_fails() {
    let (mut env, _admin) = setup();
    let user = account(2);
    let sub_id = 501u64;
    let merchant = account(3);
    C::init_sub(&mut env, user, merchant, 500, 86400, 1000, sub_id);

    C::acquire_renewal_lock(&mut env, sub_id, 200).unwrap();
    let err = C::renew(&mut env, sub_id, 999, 500, 3, 10, 20260901, true).unwrap_err();
    assert_eq!(err, ContractError::InvalidApproval);
}

#[test]
fn test_approval_cannot_be_reused() {
    let (mut env, _admin) = setup();
    let user = account(2);
    let sub_id = 502u64;
    let merchant = account(3);
    C::init_sub(&mut env, user, merchant, 500, 86400, 1000, sub_id);
    C::approve_renewal(&mut env, sub_id, 2, 1000, 100).unwrap();

    C::acquire_renewal_lock(&mut env, sub_id, 200).unwrap();
    C::renew(&mut env, sub_id, 2, 500, 3, 10, 20261001, true).unwrap();

    env.ledger.sequence = 20;

    C::acquire_renewal_lock(&mut env, sub_id, 200).unwrap();
    let err = C::renew(&mut env, sub_id, 2, 500, 3, 10, 20261101, true).unwrap_err();
    assert_eq!(err, ContractError::InvalidApproval);
}

#[test]
fn test_expired_approval_rejected() {
    let (mut env, _admin) = setup();
    let user = account(2);
    let sub_id = 503u64;
    let merchant = account(3);
    C::init_sub(&mut env, user, merchant, 500, 86400, 1000, sub_id);
    C::approve_renewal(&mut env, sub_id, 3, 1000, 50).unwrap();

    env.ledger.sequence = 51;

    C::acquire_renewal_lock(&mut env, sub_id, 200).unwrap();
    let err = C::renew(&mut env, sub_id, 3, 500, 3, 10, 20261201, true).unwrap_err();
    assert_eq!(err, ContractError::InvalidApproval);
}

#[test]
fn test_amount_exceeds_max_spend() {
    let (mut env, _admin) = setup();
    let user = account(2);
    let sub_id = 504u64;
    let merchant = account(3);
    C::init_sub(&mut env, user, merchant, 500, 86400, 1000, sub_id);
    C::approve_renewal(&mut env, sub_id, 4, 1000, 100).unwrap();

    C::acquire_renewal_lock(&mut env, sub_id, 200).unwrap();
    let err = C::renew(&mut env, sub_id, 4, 1500, 3, 10, 20270101, true).unwrap_err();
    assert_eq!(err, ContractError::InvalidApproval);
}

#[test]
fn test_multiple_approvals_for_same_subscription() {
    let (mut env, _admin) = setup();
    let user = account(2);
    let sub_id = 505u64;
    let merchant = account(3);
    C::init_sub(&mut env, user, merchant, 500, 86400, 5000, sub_id);
    C::approve_renewal(&mut env, sub_id, 1, 1000, 100).unwrap();
    C::approve_renewal(&mut env, sub_id, 2, 2000, 200).unwrap();

    C::acquire_renewal_lock(&mut env, sub_id, 200).unwrap();
    C::renew(&mut env, sub_id, 1, 500, 3, 10, 20270201, true).unwrap();

    env.ledger.sequence = 20;

    C::acquire_renewal_lock(&mut env, sub_id, 200).unwrap();
    let result = C::renew(&mut env, sub_id, 2, 1500, 3, 10, 20270301, true).unwrap();
    assert!(result);
}

// ── Cycle guard tests ─────────────────────────────────────────────

#[test]
fn test_duplicate_cycle_rejected_after_success() {
    let (mut env, _admin) = setup();
    let user = account(2);
    let sub_id = 600u64;
    let cycle_id = 20260315u64;
    let merchant = account(3);
    C::init_sub(&mut env, user, merchant, 500, 86400, 1000, sub_id);

    C::approve_renewal(&mut env, sub_id, 1, 1000, 100).unwrap();
    C::acquire_renewal_lock(&mut env, sub_id, 200).unwrap();
    let result = C::renew(&mut env, sub_id, 1, 500, 3, 10, cycle_id, true).unwrap();
    assert!(result);

    C::approve_renewal(&mut env, sub_id, 2, 1000, 100).unwrap();
    C::acquire_renewal_lock(&mut env, sub_id, 200).unwrap();
    let err = C::renew(&mut env, sub_id, 2, 500, 3, 10, cycle_id, true).unwrap_err();
    assert_eq!(err, ContractError::DuplicateCycle);
}

#[test]
fn test_retry_same_cycle_allowed_after_failure() {
    let (mut env, _admin) = setup();
    let user = account(2);
    let sub_id = 601u64;
    let cycle_id = 20260315u64;
    let merchant = account(3);
    C::init_sub(&mut env, user, merchant, 500, 86400, 1000, sub_id);

    C::approve_renewal(&mut env, sub_id, 1, 1000, 200).unwrap();
    C::acquire_renewal_lock(&mut env, sub_id, 200).unwrap();
    let result = C::renew(&mut env, sub_id, 1, 500, 3, 10, cycle_id, false).unwrap();
    assert!(!result);

    env.ledger.sequence = 20;

    C::approve_renewal(&mut env, sub_id, 2, 1000, 200).unwrap();
    C::acquire_renewal_lock(&mut env, sub_id, 200).unwrap();
    let result = C::renew(&mut env, sub_id, 2, 500, 3, 10, cycle_id, true).unwrap();
    assert!(result);
}

#[test]
fn test_different_cycle_allowed_after_success() {
    let (mut env, _admin) = setup();
    let user = account(2);
    let sub_id = 602u64;
    let merchant = account(3);
    C::init_sub(&mut env, user, merchant, 500, 86400, 1000, sub_id);

    C::approve_renewal(&mut env, sub_id, 1, 1000, 100).unwrap();
    C::acquire_renewal_lock(&mut env, sub_id, 200).unwrap();
    let result = C::renew(&mut env, sub_id, 1, 500, 3, 10, 20260315, true).unwrap();
    assert!(result);

    C::approve_renewal(&mut env, sub_id, 2, 1000, 100).unwrap();
    C::acquire_renewal_lock(&mut env, sub_id, 200).unwrap();
    let result = C::renew(&mut env, sub_id, 2, 500, 3, 10, 20260415, true).unwrap();
    assert!(result);
}

#[test]
fn test_first_renewal_always_allowed() {
    let (mut env, _admin) = setup();
    let user = account(2);
    let sub_id = 603u64;
    let merchant = account(3);
    C::init_sub(&mut env, user, merchant, 500, 86400, 1000, sub_id);

    C::approve_renewal(&mut env, sub_id, 1, 1000, 100).unwrap();
    C::acquire_renewal_lock(&mut env, sub_id, 200).unwrap();
    let result = C::renew(&mut env, sub_id, 1, 500, 3, 10, 20260101, true).unwrap();
    assert!(result);

    let data = C::get_sub(&env, sub_id).unwrap();
    assert_eq!(data.state, SubscriptionState::Active);
}

// ── Cancel sub tests ──────────────────────────────────────────────

#[test]
fn test_cancel_sub() {
    let (mut env, _admin) = setup();
    let user = account(2);
    let sub_id = 604u64;
    let merchant = account(3);
    C::init_sub(&mut env, user, merchant, 500, 86400, 1000, sub_id);

    C::cancel_sub(&mut env, sub_id).unwrap();

    let data = C::get_sub(&env, sub_id).unwrap();
    assert_eq!(data.state, SubscriptionState::Cancelled);
}

#[test]
fn test_cannot_cancel_twice() {
    let (mut env, _admin) = setup();
    let user = account(2);
    let sub_id = 605u64;
    let merchant = account(3);
    C::init_sub(&mut env, user, merchant, 500, 86400, 1000, sub_id);

    C::cancel_sub(&mut env, sub_id).unwrap();
    let err = C::cancel_sub(&mut env, sub_id).unwrap_err();
    assert_eq!(err, ContractError::AlreadyCancelled);
}

#[test]
fn test_cancel_non_existent_sub() {
    let (mut env, _admin) = setup();
    let err = C::cancel_sub(&mut env, 999).unwrap_err();
    assert_eq!(err, ContractError::SubscriptionNotFound);
}

// ── Spending cap tests ────────────────────────────────────────────

#[test]
fn test_per_subscription_spending_cap() {
    let (mut env, _admin) = setup();
    let user = account(2);
    let merchant = account(3);
    let sub_id = 700u64;
    C::init_sub(&mut env, user, merchant, 500, 86400, 1000, sub_id);
    C::approve_renewal(&mut env, sub_id, 1, 2000, 100).unwrap();

    C::acquire_renewal_lock(&mut env, sub_id, 200).unwrap();
    let err = C::renew(&mut env, sub_id, 1, 1500, 3, 10, 20270101, true).unwrap_err();
    assert_eq!(err, ContractError::SpendingCapExceeded);
}

#[test]
fn test_global_user_spending_cap() {
    let (mut env, _admin) = setup();
    let user = account(2);
    let merchant = account(3);
    C::set_user_cap(&mut env, user, 2000).unwrap();

    let sub_id_1 = 701u64;
    let sub_id_2 = 702u64;
    C::init_sub(&mut env, user, merchant, 1500, 86400, 5000, sub_id_1);
    C::init_sub(&mut env, user, merchant, 1000, 86400, 5000, sub_id_2);

    C::approve_renewal(&mut env, sub_id_1, 1, 2000, 100).unwrap();
    C::approve_renewal(&mut env, sub_id_2, 1, 2000, 100).unwrap();

    C::acquire_renewal_lock(&mut env, sub_id_1, 200).unwrap();
    C::renew(&mut env, sub_id_1, 1, 1500, 3, 10, 20260101, true).unwrap();

    C::acquire_renewal_lock(&mut env, sub_id_2, 200).unwrap();
    let err = C::renew(&mut env, sub_id_2, 1, 1000, 3, 10, 20260101, true).unwrap_err();
    assert_eq!(err, ContractError::GlobalCapExceeded);
}

// ── Renewal lock tests ────────────────────────────────────────────

#[test]
fn test_acquire_renewal_lock() {
    let (mut env, _admin) = setup();
    let sub_id = 710u64;
    C::acquire_renewal_lock(&mut env, sub_id, 200).unwrap();

    let lock = C::get_renewal_lock(&env, sub_id);
    assert!(lock.is_some());
    let lock_data = lock.unwrap();
    assert_eq!(lock_data.locked_at, 0);
    assert_eq!(lock_data.lock_timeout, 200);
}

#[test]
fn test_lock_prevents_concurrent_acquisition() {
    let (mut env, _admin) = setup();
    let sub_id = 711u64;
    C::acquire_renewal_lock(&mut env, sub_id, 200).unwrap();

    let err = C::acquire_renewal_lock(&mut env, sub_id, 200).unwrap_err();
    assert_eq!(err, ContractError::RenewalLockActive);
}

#[test]
fn test_lock_auto_expires_and_reacquirable() {
    let (mut env, _admin) = setup();
    let sub_id = 712u64;
    C::acquire_renewal_lock(&mut env, sub_id, 50).unwrap();

    env.ledger.sequence = 60;

    C::acquire_renewal_lock(&mut env, sub_id, 200).unwrap();

    let lock = C::get_renewal_lock(&env, sub_id);
    assert!(lock.is_some());
    let lock_data = lock.unwrap();
    assert_eq!(lock_data.locked_at, 60);
    assert_eq!(lock_data.lock_timeout, 200);
}

#[test]
fn test_release_renewal_lock() {
    let (mut env, _admin) = setup();
    let sub_id = 713u64;
    C::acquire_renewal_lock(&mut env, sub_id, 200).unwrap();
    assert!(C::get_renewal_lock(&env, sub_id).is_some());

    C::release_renewal_lock(&mut env, sub_id).unwrap();
    assert!(C::get_renewal_lock(&env, sub_id).is_none());
}

#[test]
fn test_release_nonexistent_lock() {
    let (mut env, _admin) = setup();
    let err = C::release_renewal_lock(&mut env, 714u64).unwrap_err();
    assert_eq!(err, ContractError::NoRenewalLock);
}

#[test]
fn test_renew_without_lock_fails() {
    let (mut env, _admin) = setup();
    let user = account(2);
    let sub_id = 715u64;
    let merchant = account(3);
    C::init_sub(&mut env, user, merchant, 500, 86400, 1000, sub_id);
    C::approve_renewal(&mut env, sub_id, 1, 1000, 100).unwrap();

    let err = C::renew(&mut env, sub_id, 1, 500, 3, 10, 20260101, true).unwrap_err();
    assert_eq!(err, ContractError::RenewalLockRequired);
}

#[test]
fn test_renew_with_lock_succeeds_and_auto_releases() {
    let (mut env, _admin) = setup();
    let user = account(2);
    let sub_id = 716u64;
    let merchant = account(3);
    C::init_sub(&mut env, user, merchant, 500, 86400, 1000, sub_id);
    C::approve_renewal(&mut env, sub_id, 1, 1000, 100).unwrap();

    C::acquire_renewal_lock(&mut env, sub_id, 200).unwrap();
    assert!(C::get_renewal_lock(&env, sub_id).is_some());

    let result = C::renew(&mut env, sub_id, 1, 500, 3, 10, 20260101, true).unwrap();
    assert!(result);
    assert!(C::get_renewal_lock(&env, sub_id).is_none());
}

#[test]
fn test_renew_failure_also_releases_lock() {
    let (mut env, _admin) = setup();
    let user = account(2);
    let sub_id = 717u64;
    let merchant = account(3);
    C::init_sub(&mut env, user, merchant, 500, 86400, 1000, sub_id);
    C::approve_renewal(&mut env, sub_id, 1, 1000, 200).unwrap();

    C::acquire_renewal_lock(&mut env, sub_id, 200).unwrap();
    let result = C::renew(&mut env, sub_id, 1, 500, 3, 10, 20260101, false).unwrap();
    assert!(!result);
    assert!(C::get_renewal_lock(&env, sub_id).is_none());
}

#[test]
fn test_renew_with_expired_lock_fails() {
    let (mut env, _admin) = setup();
    let user = account(2);
    let sub_id = 718u64;
    let merchant = account(3);
    C::init_sub(&mut env, user, merchant, 500, 86400, 1000, sub_id);
    C::approve_renewal(&mut env, sub_id, 1, 1000, 200).unwrap();

    C::acquire_renewal_lock(&mut env, sub_id, 50).unwrap();

    env.ledger.sequence = 60;

    let err = C::renew(&mut env, sub_id, 1, 500, 3, 10, 20260101, true).unwrap_err();
    assert_eq!(err, ContractError::RenewalLockExpired);
}

#[test]
fn test_acquire_lock_blocked_when_paused() {
    let (mut env, _admin) = setup();
    let sub_id = 719u64;
    C::set_paused(&mut env, true).unwrap();

    let err = C::acquire_renewal_lock(&mut env, sub_id, 200).unwrap_err();
    assert_eq!(err, ContractError::ProtocolPaused);
}

#[test]
fn test_renew_blocked_when_paused() {
    let (mut env, _admin) = setup();
    let user = account(2);
    let sub_id = 720u64;
    let merchant = account(3);
    C::init_sub(&mut env, user, merchant, 500, 86400, 1000, sub_id);
    C::approve_renewal(&mut env, sub_id, 1, 1000, 100).unwrap();
    // acquire lock before pausing
    C::acquire_renewal_lock(&mut env, sub_id, 200).unwrap();
    C::set_paused(&mut env, true).unwrap();

    let err = C::renew(&mut env, sub_id, 1, 500, 3, 10, 20260101, true).unwrap_err();
    assert_eq!(err, ContractError::ProtocolPaused);
}

// ── Lifecycle timestamp tests ─────────────────────────────────────

#[test]
fn test_lifecycle_created_on_init() {
    let (mut env, _admin) = setup();
    env.ledger.timestamp = 1700000000;

    let user = account(2);
    let sub_id = 800u64;
    let merchant = account(3);
    C::init_sub(&mut env, user, merchant, 500, 86400, 1000, sub_id);

    let lc = C::get_lifecycle(&env, sub_id).unwrap();
    assert_eq!(lc.created_at, 1700000000);
    assert_eq!(lc.activated_at, 1700000000);
    assert_eq!(lc.last_renewed_at, 0);
    assert_eq!(lc.canceled_at, 0);
}

#[test]
fn test_lifecycle_renewed_at_updated_on_success() {
    let (mut env, _admin) = setup();
    env.ledger.timestamp = 1700000000;
    let user = account(2);
    let sub_id = 801u64;
    let merchant = account(3);
    C::init_sub(&mut env, user, merchant, 500, 86400, 1000, sub_id);

    env.ledger.timestamp = 1700100000;
    C::approve_renewal(&mut env, sub_id, 1, 1000, 100).unwrap();
    C::acquire_renewal_lock(&mut env, sub_id, 200).unwrap();
    C::renew(&mut env, sub_id, 1, 500, 3, 10, 20260101, true).unwrap();

    let lc = C::get_lifecycle(&env, sub_id).unwrap();
    assert_eq!(lc.created_at, 1700000000);
    assert_eq!(lc.activated_at, 1700000000);
    assert_eq!(lc.last_renewed_at, 1700100000);
    assert_eq!(lc.canceled_at, 0);
}

#[test]
fn test_lifecycle_canceled_at_set_on_cancel() {
    let (mut env, _admin) = setup();
    env.ledger.timestamp = 1700000000;
    let user = account(2);
    let sub_id = 802u64;
    let merchant = account(3);
    C::init_sub(&mut env, user, merchant, 500, 86400, 1000, sub_id);

    env.ledger.timestamp = 1700200000;
    C::cancel_sub(&mut env, sub_id).unwrap();

    let lc = C::get_lifecycle(&env, sub_id).unwrap();
    assert_eq!(lc.created_at, 1700000000);
    assert_eq!(lc.canceled_at, 1700200000);
}

#[test]
fn test_lifecycle_activated_at_updated_on_recovery_from_retrying() {
    let (mut env, _admin) = setup();
    env.ledger.timestamp = 1700000000;
    let user = account(2);
    let sub_id = 803u64;
    let merchant = account(3);
    C::init_sub(&mut env, user, merchant, 500, 86400, 1000, sub_id);

    env.ledger.timestamp = 1700100000;
    C::approve_renewal(&mut env, sub_id, 1, 1000, 200).unwrap();
    C::acquire_renewal_lock(&mut env, sub_id, 200).unwrap();
    C::renew(&mut env, sub_id, 1, 500, 3, 10, 20260201, false).unwrap();
    assert_eq!(C::get_sub(&env, sub_id).unwrap().state, SubscriptionState::Retrying);

    env.ledger.sequence = 20;
    env.ledger.timestamp = 1700200000;
    C::approve_renewal(&mut env, sub_id, 2, 1000, 200).unwrap();
    C::acquire_renewal_lock(&mut env, sub_id, 200).unwrap();
    C::renew(&mut env, sub_id, 2, 500, 3, 10, 20260201, true).unwrap();

    let lc = C::get_lifecycle(&env, sub_id).unwrap();
    assert_eq!(lc.created_at, 1700000000);
    assert_eq!(lc.activated_at, 1700200000);
    assert_eq!(lc.last_renewed_at, 1700200000);
    assert_eq!(lc.canceled_at, 0);
}

#[test]
fn test_lifecycle_not_updated_on_renewal_failure() {
    let (mut env, _admin) = setup();
    env.ledger.timestamp = 1700000000;
    let user = account(2);
    let sub_id = 804u64;
    let merchant = account(3);
    C::init_sub(&mut env, user, merchant, 500, 86400, 1000, sub_id);

    env.ledger.timestamp = 1700100000;
    C::approve_renewal(&mut env, sub_id, 1, 1000, 200).unwrap();
    C::acquire_renewal_lock(&mut env, sub_id, 200).unwrap();
    C::renew(&mut env, sub_id, 1, 500, 3, 10, 20260301, false).unwrap();

    let lc = C::get_lifecycle(&env, sub_id).unwrap();
    assert_eq!(lc.last_renewed_at, 0);
    assert_eq!(lc.activated_at, 1700000000);
}

#[test]
fn test_lifecycle_multiple_renewals_update_last_renewed() {
    let (mut env, _admin) = setup();
    env.ledger.timestamp = 1700000000;
    let user = account(2);
    let sub_id = 805u64;
    let merchant = account(3);
    C::init_sub(&mut env, user, merchant, 500, 86400, 1000, sub_id);

    env.ledger.timestamp = 1700100000;
    C::approve_renewal(&mut env, sub_id, 1, 1000, 100).unwrap();
    C::acquire_renewal_lock(&mut env, sub_id, 200).unwrap();
    C::renew(&mut env, sub_id, 1, 500, 3, 10, 20260401, true).unwrap();
    assert_eq!(C::get_lifecycle(&env, sub_id).unwrap().last_renewed_at, 1700100000);

    env.ledger.timestamp = 1700200000;
    C::approve_renewal(&mut env, sub_id, 2, 1000, 100).unwrap();
    C::acquire_renewal_lock(&mut env, sub_id, 200).unwrap();
    C::renew(&mut env, sub_id, 2, 500, 3, 10, 20260501, true).unwrap();

    let lc = C::get_lifecycle(&env, sub_id).unwrap();
    assert_eq!(lc.last_renewed_at, 1700200000);
    assert_eq!(lc.created_at, 1700000000);
}

#[test]
fn test_get_lifecycle_nonexistent_sub() {
    let (env, _admin) = setup();
    let err = C::get_lifecycle(&env, 999u64).unwrap_err();
    assert_eq!(err, ContractError::LifecycleNotFound);
}

// ── Renewal window tests ──────────────────────────────────────────

#[test]
fn test_window_start_must_be_before_end() {
    let (mut env, _admin) = setup();
    let err = C::set_window(&mut env, 900u64, 1735689600u64, 1735689600u64).unwrap_err();
    assert_eq!(err, ContractError::InvalidWindow);
}

#[test]
fn test_window_start_after_end_rejected() {
    let (mut env, _admin) = setup();
    let err = C::set_window(&mut env, 901u64, 1735862400u64, 1735689600u64).unwrap_err();
    assert_eq!(err, ContractError::InvalidWindow);
}

#[test]
fn test_renew_within_window_succeeds() {
    let (mut env, _admin) = setup();
    let user = account(2);
    let sub_id = 902u64;
    let merchant = account(3);
    C::init_sub(&mut env, user, merchant, 500, 86400, 1000, sub_id);
    C::set_window(&mut env, sub_id, 1000u64, 2000u64).unwrap();

    env.ledger.timestamp = 1500;
    C::approve_renewal(&mut env, sub_id, 1, 1000, 100).unwrap();
    C::acquire_renewal_lock(&mut env, sub_id, 200).unwrap();
    let result = C::renew(&mut env, sub_id, 1, 500, 3, 10, 20260101u64, true).unwrap();
    assert!(result);
}

#[test]
fn test_renew_before_window_fails() {
    let (mut env, _admin) = setup();
    let user = account(2);
    let sub_id = 903u64;
    let merchant = account(3);
    C::init_sub(&mut env, user, merchant, 500, 86400, 1000, sub_id);
    C::set_window(&mut env, sub_id, 1000u64, 2000u64).unwrap();

    env.ledger.timestamp = 500;
    C::approve_renewal(&mut env, sub_id, 1, 1000, 100).unwrap();
    C::acquire_renewal_lock(&mut env, sub_id, 200).unwrap();
    let err = C::renew(&mut env, sub_id, 1, 500, 3, 10, 20260101u64, true).unwrap_err();
    assert_eq!(err, ContractError::OutsideRenewalWindow);
}

#[test]
fn test_renew_after_window_fails() {
    let (mut env, _admin) = setup();
    let user = account(2);
    let sub_id = 904u64;
    let merchant = account(3);
    C::init_sub(&mut env, user, merchant, 500, 86400, 1000, sub_id);
    C::set_window(&mut env, sub_id, 1000u64, 2000u64).unwrap();

    env.ledger.timestamp = 2500;
    C::approve_renewal(&mut env, sub_id, 1, 1000, 100).unwrap();
    C::acquire_renewal_lock(&mut env, sub_id, 200).unwrap();
    let err = C::renew(&mut env, sub_id, 1, 500, 3, 10, 20260101u64, true).unwrap_err();
    assert_eq!(err, ContractError::OutsideRenewalWindow);
}

#[test]
fn test_renew_without_window_has_no_time_restriction() {
    let (mut env, _admin) = setup();
    let user = account(2);
    let sub_id = 905u64;
    let merchant = account(3);
    C::init_sub(&mut env, user, merchant, 500, 86400, 1000, sub_id);

    env.ledger.timestamp = 9999999999;
    C::approve_renewal(&mut env, sub_id, 1, 1000, 100).unwrap();
    C::acquire_renewal_lock(&mut env, sub_id, 200).unwrap();
    let result = C::renew(&mut env, sub_id, 1, 500, 3, 10, 20260101u64, true).unwrap();
    assert!(result);
}

#[test]
fn test_set_and_get_window() {
    let (mut env, _admin) = setup();
    let user = account(2);
    let sub_id = 906u64;
    let merchant = account(3);
    C::init_sub(&mut env, user, merchant, 500, 86400, 1000, sub_id);
    C::set_window(&mut env, sub_id, 1000u64, 2000u64).unwrap();

    let w = C::get_window(&env, sub_id).unwrap();
    assert_eq!(w.billing_start, 1000);
    assert_eq!(w.billing_end, 2000);
}

#[test]
fn test_approval_consumed_before_window_check() {
    let (mut env, _admin) = setup();
    let user = account(2);
    let sub_id = 907u64;
    let merchant = account(3);
    C::init_sub(&mut env, user, merchant, 500, 86400, 1000, sub_id);
    C::set_window(&mut env, sub_id, 1000u64, 2000u64).unwrap();

    // outside window — renew should fail with OutsideRenewalWindow
    env.ledger.timestamp = 500;
    C::approve_renewal(&mut env, sub_id, 1, 1000, 100).unwrap();
    C::acquire_renewal_lock(&mut env, sub_id, 200).unwrap();
    let err = C::renew(&mut env, sub_id, 1, 500, 3, 10, 20260101u64, true).unwrap_err();
    assert_eq!(err, ContractError::OutsideRenewalWindow);

    // release lock, move inside window, use a fresh approval
    C::release_renewal_lock(&mut env, sub_id).unwrap();
    env.ledger.timestamp = 1500;
    C::approve_renewal(&mut env, sub_id, 2, 1000, 100).unwrap();
    C::acquire_renewal_lock(&mut env, sub_id, 200).unwrap();
    let result = C::renew(&mut env, sub_id, 2, 500, 3, 10, 20260102u64, true).unwrap();
    assert!(result);
}
