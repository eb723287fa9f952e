//! The calls of the subscription-renewal contract, run against a
//! [`ContractEnv`].

use vstd::prelude::*;
use crate::digest::{integrity_hash, same_digest};
use crate::events::{
    ApprovalCreated, ApprovalRejected, ContractEvent, DuplicateRenewalRejected,
    GlobalCapViolated, IntegrityViolationEvent, LifecycleTimestampUpdated, LogMessage,
    PauseToggled, RenewalFailed, RenewalLockAcquired, RenewalLockExpiredEvent,
    RenewalLockReleased, RenewalSuccess, SpendingCapViolated, StateTransition, UserCapUpdated,
    WindowUpdated,
};
use crate::spec::{
    acquire_renewal_lock_spec, approval_rejection, approve_renewal_spec, cancel_sub_spec,
    init_spec, init_sub_spec, release_renewal_lock_spec, renew_spec, require_admin_spec,
    set_logging_contract_spec, set_paused_spec, set_user_cap_spec, set_window_spec,
    stored_terms_digest, Outcome, RenewRequest,
};
use crate::state::ContractEnv;
use crate::types::{
    AccountId, ApprovalKey, ContractError, CycleKey, LifecycleKey, LifecycleTimestamps,
    RenewalApproval, RenewalLockData, RenewalLockKey, RenewalWindow, SubscriptionData,
    SubscriptionState, UserCapKey, WindowKey,
};

verus! {

/// The subscription-renewal contract.
pub struct SubscriptionRenewalContract;

impl SubscriptionRenewalContract {
    // ── Admin / pause management ──────────────────────────────────

    /// Initialize the contract admin. Can only be called once.
    pub fn init(env: &mut ContractEnv, admin: AccountId) -> (r: Result<(), ContractError>)
        ensures
            r == init_spec(old(env)@, admin).0,
            final(env)@ == init_spec(old(env)@, admin).1,
            final(env).host == old(env).host,
    {
        if env.instance.admin.is_some() {
            return Err(ContractError::AlreadyInitialized);
        }
        env.instance.admin = Some(admin);
        env.instance.paused = Some(false);
        Ok(())
    }

    /// Loads the admin and requires its authorization.
    fn require_admin(env: &mut ContractEnv) -> (r: Result<(), ContractError>)
        ensures
            r == require_admin_spec(old(env)@).0,
            final(env)@ == require_admin_spec(old(env)@).1,
            final(env).host == old(env).host,
    {
        match env.instance.admin {
            None => Err(ContractError::NotInitialized),
            Some(admin) => {
                env.require_auth(admin);
                Ok(())
            },
        }
    }

    /// Pause or unpause all renewal execution. Admin only.
    pub fn set_paused(env: &mut ContractEnv, paused: bool) -> (r: Result<(), ContractError>)
        ensures
            r == set_paused_spec(old(env)@, paused).0,
            final(env)@ == set_paused_spec(old(env)@, paused).1,
            final(env).host == old(env).host,
    {
        let r = Self::require_admin(env);
        if r.is_err() {
            return r;
        }
        env.instance.paused = Some(paused);
        env.publish(ContractEvent::PauseToggled(PauseToggled { paused }));
        Ok(())
    }

    /// Query the current pause state.
    pub fn is_paused(env: &ContractEnv) -> (b: bool)
        ensures
            b == env@.paused_flag(),
    {
        match env.instance.paused {
            Some(p) => p,
            None => false,
        }
    }

    /// Set the logging contract address. Admin only.
    pub fn set_logging_contract(env: &mut ContractEnv, address: AccountId) -> (r: Result<(), ContractError>)
        ensures
            r == set_logging_contract_spec(old(env)@, address).0,
            final(env)@ == set_logging_contract_spec(old(env)@, address).1,
            final(env).host == old(env).host,
    {
        let r = Self::require_admin(env);
        if r.is_err() {
            return r;
        }
        env.instance.logging_contract = Some(address);
        Ok(())
    }

    // ── Renewal lock management ────────────────────────────────────

    /// Acquire a processing lock for a subscription renewal; `None` where the
    /// expiry of the existing lock overflows, on which the contract panics.
    pub fn try_acquire_renewal_lock(env: &mut ContractEnv, sub_id: u64, lock_timeout: u32) -> (r: Option<Result<(), ContractError>>)
        ensures
            match r {
                None => acquire_renewal_lock_spec(old(env)@, sub_id, lock_timeout) is Panics
                    && final(env)@ == old(env)@,
                Some(res) => acquire_renewal_lock_spec(old(env)@, sub_id, lock_timeout)
                    == Outcome::Returns(res, final(env)@),
            },
            final(env).host == old(env).host,
    {
        if Self::is_paused(env) {
            return Some(Err(ContractError::ProtocolPaused));
        }
        let lock_key = RenewalLockKey { lock_sub_id: sub_id };
        let current_ledger = env.ledger.sequence;
        match env.locks.get(&lock_key) {
            Some(existing) => {
                if existing.locked_at > u32::MAX - existing.lock_timeout {
                    return None;
                }
                if current_ledger < existing.locked_at + existing.lock_timeout {
                    return Some(Err(ContractError::RenewalLockActive));
                }
                env.publish(ContractEvent::RenewalLockExpired(RenewalLockExpiredEvent {
                    sub_id,
                    original_locked_at: existing.locked_at,
                    expired_at: current_ledger,
                }));
            },
            None => {},
        }
        env.locks.set(lock_key, RenewalLockData { locked_at: current_ledger, lock_timeout });
        env.publish(ContractEvent::RenewalLockAcquired(RenewalLockAcquired {
            sub_id,
            locked_at: current_ledger,
            lock_timeout,
        }));
        Some(Ok(()))
    }

    /// Acquire a processing lock for a subscription renewal.
    pub fn acquire_renewal_lock(env: &mut ContractEnv, sub_id: u64, lock_timeout: u32) -> (r: Result<(), ContractError>)
        requires
            !(acquire_renewal_lock_spec(old(env)@, sub_id, lock_timeout) is Panics),
        ensures
            acquire_renewal_lock_spec(old(env)@, sub_id, lock_timeout) == Outcome::Returns(r, final(env)@),
            final(env).host == old(env).host,
    {
        match Self::try_acquire_renewal_lock(env, sub_id, lock_timeout) {
            Some(r) => r,
            None => {
                proof {
                    assert(false);
                }
                Err(ContractError::RenewalLockActive)
            },
        }
    }

    /// Release a processing lock for a subscription renewal.
    pub fn release_renewal_lock(env: &mut ContractEnv, sub_id: u64) -> (r: Result<(), ContractError>)
        ensures
            r == release_renewal_lock_spec(old(env)@, sub_id).0,
            final(env)@ == release_renewal_lock_spec(old(env)@, sub_id).1,
            final(env).host == old(env).host,
    {
        let lock_key = RenewalLockKey { lock_sub_id: sub_id };
        if !env.locks.has(&lock_key) {
            return Err(ContractError::NoRenewalLock);
        }
        let current_ledger = env.ledger.sequence;
        env.locks.remove(lock_key);
        env.publish(ContractEvent::RenewalLockReleased(RenewalLockReleased {
            sub_id,
            released_at: current_ledger,
        }));
        Ok(())
    }

    /// Query the current renewal lock for a subscription.
    pub fn get_renewal_lock(env: &ContractEnv, sub_id: u64) -> (r: Option<RenewalLockData>)
        ensures
            r == env@.lock(sub_id),
    {
        env.locks.get(&RenewalLockKey { lock_sub_id: sub_id })
    }

    // ── Subscription logic ────────────────────────────────────────

    /// Initialize a subscription whose terms have the integrity digest
    /// `integrity_hash`.
    pub fn init_sub_with_integrity_hash(
        env: &mut ContractEnv,
        owner: AccountId,
        merchant: AccountId,
        amount: i128,
        frequency: u64,
        spending_cap: i128,
        sub_id: u64,
        integrity_hash: [u8; 32],
    )
        ensures
            final(env)@ == init_sub_spec(
                old(env)@, owner, merchant, amount, frequency, spending_cap, sub_id, integrity_hash,
            ),
            final(env).host == old(env).host,
    {
        let data = SubscriptionData {
            owner,
            merchant,
            amount,
            frequency,
            spending_cap,
            integrity_hash,
            state: SubscriptionState::Active,
            failure_count: 0,
            last_attempt_ledger: 0,
        };
        env.subscriptions.set(sub_id, data);
        let now = env.ledger.timestamp;
        let lifecycle = LifecycleTimestamps {
            created_at: now,
            activated_at: now,
            last_renewed_at: 0,
            canceled_at: 0,
        };
        env.lifecycles.set(LifecycleKey { lifecycle_sub_id: sub_id }, lifecycle);
        env.publish(ContractEvent::LifecycleTimestampUpdated(
            LifecycleTimestampUpdated { sub_id, event_kind: 1, timestamp: now },
        ));
        env.publish(ContractEvent::LifecycleTimestampUpdated(
            LifecycleTimestampUpdated { sub_id, event_kind: 2, timestamp: now },
        ));
        env.record_log(sub_id, 2, LogMessage::SubscriptionInitialized);
    }

    /// Initialize a subscription.
    pub fn init_sub(
        env: &mut ContractEnv,
        owner: AccountId,
        merchant: AccountId,
        amount: i128,
        frequency: u64,
        spending_cap: i128,
        sub_id: u64,
    )
        ensures
            ({
                let h = final(env)@.subscriptions[sub_id].integrity_hash;
                &&& h@ == crate::digest::integrity_digest(merchant, amount, frequency, spending_cap)
                &&& final(env)@ == init_sub_spec(
                    old(env)@, owner, merchant, amount, frequency, spending_cap, sub_id, h,
                )
            }),
            final(env).host == old(env).host,
    {
        let h = integrity_hash(&env.host, &merchant, amount, frequency, spending_cap);
        Self::init_sub_with_integrity_hash(env, owner, merchant, amount, frequency, spending_cap, sub_id, h);
    }

    /// Explicitly cancel a subscription.
    pub fn cancel_sub(env: &mut ContractEnv, sub_id: u64) -> (r: Result<(), ContractError>)
        ensures
            r == cancel_sub_spec(old(env)@, sub_id).0,
            final(env)@ == cancel_sub_spec(old(env)@, sub_id).1,
            final(env).host == old(env).host,
    {
        let data = match env.subscriptions.get(&sub_id) {
            None => return Err(ContractError::SubscriptionNotFound),
            Some(d) => d,
        };
        env.require_auth(data.owner);
        if data.state == SubscriptionState::Cancelled {
            return Err(ContractError::AlreadyCancelled);
        }
        let lc_key = LifecycleKey { lifecycle_sub_id: sub_id };
        let lifecycle = match env.lifecycles.get(&lc_key) {
            None => return Err(ContractError::LifecycleNotFound),
            Some(lc) => lc,
        };
        env.subscriptions.set(sub_id, SubscriptionData { state: SubscriptionState::Cancelled, ..data });
        let now = env.ledger.timestamp;
        env.lifecycles.set(lc_key, LifecycleTimestamps { canceled_at: now, ..lifecycle });
        env.publish(ContractEvent::LifecycleTimestampUpdated(
            LifecycleTimestampUpdated { sub_id, event_kind: 4, timestamp: now },
        ));
        env.record_log(sub_id, 5, LogMessage::SubscriptionCancelled);
        env.publish(ContractEvent::StateTransition(
            StateTransition { sub_id, new_state: SubscriptionState::Cancelled },
        ));
        Ok(())
    }

    // ── Approval management ───────────────────────────────────────

    /// Create a renewal approval for a subscription.
    pub fn approve_renewal(
        env: &mut ContractEnv,
        sub_id: u64,
        approval_id: u64,
        max_spend: i128,
        expires_at: u32,
    ) -> (r: Result<(), ContractError>)
        ensures
            r == approve_renewal_spec(old(env)@, sub_id, approval_id, max_spend, expires_at).0,
            final(env)@ == approve_renewal_spec(old(env)@, sub_id, approval_id, max_spend, expires_at).1,
            final(env).host == old(env).host,
    {
        let data = match env.subscriptions.get(&sub_id) {
            None => return Err(ContractError::SubscriptionNotFound),
            Some(d) => d,
        };
        env.require_auth(data.owner);
        let approval = RenewalApproval { sub_id, max_spend, expires_at, used: false };
        env.approvals.set(ApprovalKey { sub_id, approval_id }, approval);
        env.publish(ContractEvent::ApprovalCreated(
            ApprovalCreated { sub_id, approval_id, max_spend, expires_at },
        ));
        Ok(())
    }

    /// Checks that an approval can pay `amount` now: returns it, or the
    /// reason it cannot (4 = not found, 2 = used, 1 = expired, 3 = amount
    /// above its maximum).
    fn validate_approval(env: &ContractEnv, sub_id: u64, approval_id: u64, amount: i128) -> (r: Result<RenewalApproval, u32>)
        ensures
            match r {
                Ok(a) => approval_rejection(env@, sub_id, approval_id, amount) is None
                    && env@.approval(sub_id, approval_id) == Some(a),
                Err(reason) => approval_rejection(env@, sub_id, approval_id, amount) == Some(reason),
            },
    {
        let approval = match env.approvals.get(&ApprovalKey { sub_id, approval_id }) {
            None => return Err(4),
            Some(a) => a,
        };
        if approval.used {
            return Err(2);
        }
        if env.ledger.sequence > approval.expires_at {
            return Err(1);
        }
        if amount > approval.max_spend {
            return Err(3);
        }
        Ok(approval)
    }

    /// Query a subscription.
    pub fn get_sub(env: &ContractEnv, sub_id: u64) -> (r: Result<SubscriptionData, ContractError>)
        ensures
            r == match env@.subscription(sub_id) {
                Some(d) => Ok::<SubscriptionData, ContractError>(d),
                None => Err(ContractError::SubscriptionNotFound),
            },
    {
        match env.subscriptions.get(&sub_id) {
            Some(d) => Ok(d),
            None => Err(ContractError::SubscriptionNotFound),
        }
    }

    /// Query the lifecycle timestamps of a subscription.
    pub fn get_lifecycle(env: &ContractEnv, sub_id: u64) -> (r: Result<LifecycleTimestamps, ContractError>)
        ensures
            r == match env@.lifecycle(sub_id) {
                Some(lc) => Ok::<LifecycleTimestamps, ContractError>(lc),
                None => Err(ContractError::LifecycleNotFound),
            },
    {
        match env.lifecycles.get(&LifecycleKey { lifecycle_sub_id: sub_id }) {
            Some(lc) => Ok(lc),
            None => Err(ContractError::LifecycleNotFound),
        }
    }

    /// Set a billing window for a subscription. Admin only.
    pub fn set_window(env: &mut ContractEnv, sub_id: u64, billing_start: u64, billing_end: u64) -> (r: Result<(), ContractError>)
        ensures
            r == set_window_spec(old(env)@, sub_id, billing_start, billing_end).0,
            final(env)@ == set_window_spec(old(env)@, sub_id, billing_start, billing_end).1,
            final(env).host == old(env).host,
    {
        let r = Self::require_admin(env);
        if r.is_err() {
            return r;
        }
        if billing_start >= billing_end {
            return Err(ContractError::InvalidWindow);
        }
        env.windows.set(WindowKey { sub_id }, RenewalWindow { billing_start, billing_end });
        env.publish(ContractEvent::WindowUpdated(WindowUpdated { sub_id, billing_start, billing_end }));
        Ok(())
    }

    /// Get the billing window for a subscription.
    pub fn get_window(env: &ContractEnv, sub_id: u64) -> (r: Option<RenewalWindow>)
        ensures
            r == env@.window(sub_id),
    {
        env.windows.get(&WindowKey { sub_id })
    }

    /// Set global spending cap for a user. Admin only.
    pub fn set_user_cap(env: &mut ContractEnv, user: AccountId, cap: i128) -> (r: Result<(), ContractError>)
        ensures
            r == set_user_cap_spec(old(env)@, user, cap).0,
            final(env)@ == set_user_cap_spec(old(env)@, user, cap).1,
            final(env).host == old(env).host,
    {
        let r = Self::require_admin(env);
        if r.is_err() {
            return r;
        }
        env.user_amounts.set(UserCapKey::UserCap(user), cap);
        env.publish(ContractEvent::UserCapUpdated(UserCapUpdated { user, cap }));
        Ok(())
    }

    /// Get global spending cap for a user.
    pub fn get_user_cap(env: &ContractEnv, user: AccountId) -> (c: i128)
        ensures
            c == env@.user_cap(user),
    {
        match env.user_amounts.get(&UserCapKey::UserCap(user)) {
            Some(c) => c,
            None => 0,
        }
    }

    /// Get current global spent amount for a user.
    pub fn get_user_spent(env: &ContractEnv, user: AccountId) -> (c: i128)
        ensures
            c == env@.user_spent(user),
    {
        match env.user_amounts.get(&UserCapKey::UserSpent(user)) {
            Some(c) => c,
            None => 0,
        }
    }

    // ── Renewal logic ─────────────────────────────────────────────

    /// Attempt to renew a subscription, given the integrity digest of its
    /// stored terms as computed now; `None` where the contract would panic
    /// on an arithmetic overflow, the environment then unchanged.
    /// `Some(Ok(true))` on success, `Some(Ok(false))` on a failed payment.
    pub fn try_renew_with_integrity_hash(
        env: &mut ContractEnv,
        sub_id: u64,
        approval_id: u64,
        amount: i128,
        max_retries: u32,
        cooldown_ledgers: u32,
        cycle_id: u64,
        succeed: bool,
        current_hash: &[u8; 32],
    ) -> (r: Option<Result<bool, ContractError>>)
        ensures
            ({
                let req = RenewRequest { sub_id, approval_id, amount, max_retries, cooldown_ledgers, cycle_id, succeed };
                match r {
                    None => renew_spec(old(env)@, req, current_hash@) is Panics && final(env)@ == old(env)@,
                    Some(res) => renew_spec(old(env)@, req, current_hash@) == Outcome::Returns(res, final(env)@),
                }
            }),
            final(env).host == old(env).host,
    {
        // 1. Global pause
        if Self::is_paused(env) {
            return Some(Err(ContractError::ProtocolPaused));
        }
        let current_ledger = env.ledger.sequence;

        // 2. Subscription
        let data = match env.subscriptions.get(&sub_id) {
            None => return Some(Err(ContractError::SubscriptionNotFound)),
            Some(d) => d,
        };

        // 3. Failed state
        if data.state == SubscriptionState::Failed {
            return Some(Err(ContractError::SubscriptionFailed));
        }

        // 4. Renewal lock present and not expired
        let lock_key = RenewalLockKey { lock_sub_id: sub_id };
        match env.locks.get(&lock_key) {
            None => return Some(Err(ContractError::RenewalLockRequired)),
            Some(ld) => {
                if ld.locked_at > u32::MAX - ld.lock_timeout {
                    return None;
                }
                if current_ledger >= ld.locked_at + ld.lock_timeout {
                    return Some(Err(ContractError::RenewalLockExpired));
                }
            },
        }

        // 5. Cycle guard
        let cycle_key = CycleKey { sub_id };
        match env.cycles.get(&cycle_key) {
            Some(last) => {
                if cycle_id == last {
                    env.publish(ContractEvent::DuplicateRenewalRejected(
                        DuplicateRenewalRejected { sub_id, cycle_id },
                    ));
                    return Some(Err(ContractError::DuplicateCycle));
                }
            },
            None => {},
        }

        // 6. Cooldown
        if data.failure_count > 0 {
            if data.last_attempt_ledger > u32::MAX - cooldown_ledgers {
                return None;
            }
            if current_ledger < data.last_attempt_ledger + cooldown_ledgers {
                return Some(Err(ContractError::CooldownActive));
            }
        }

        // 7. Approval
        let approval = match Self::validate_approval(env, sub_id, approval_id, amount) {
            Ok(a) => a,
            Err(reason) => {
                env.publish(ContractEvent::ApprovalRejected(
                    ApprovalRejected { sub_id, approval_id, reason },
                ));
                return Some(Err(ContractError::InvalidApproval));
            },
        };

        // 7b. Renewal window
        match env.windows.get(&WindowKey { sub_id }) {
            Some(window) => {
                let current_time = env.ledger.timestamp;
                if current_time < window.billing_start || current_time > window.billing_end {
                    return Some(Err(ContractError::OutsideRenewalWindow));
                }
            },
            None => {},
        }

        // 8. Integrity of the stored terms
        if !same_digest(current_hash, &data.integrity_hash) {
            env.publish(ContractEvent::IntegrityViolation(IntegrityViolationEvent { sub_id }));
            return Some(Err(ContractError::IntegrityViolation));
        }

        // 9. Per-subscription spending cap
        if data.spending_cap > 0 && amount > data.spending_cap {
            env.publish(ContractEvent::SpendingCapViolated(
                SpendingCapViolated { sub_id, amount, cap: data.spending_cap },
            ));
            return Some(Err(ContractError::SpendingCapExceeded));
        }

        // 10. Global user spending cap
        let owner = data.owner;
        let global_cap = Self::get_user_cap(env, owner);
        let current_spent = Self::get_user_spent(env, owner);
        let fits = match current_spent.checked_add(amount) {
            Some(_) => true,
            None => false,
        };
        if global_cap > 0 {
            if !fits {
                return None;
            }
            if current_spent + amount > global_cap {
                env.publish(ContractEvent::GlobalCapViolated(
                    GlobalCapViolated { owner, amount: current_spent + amount, cap: global_cap },
                ));
                return Some(Err(ContractError::GlobalCapExceeded));
            }
        }

        if succeed {
            if !fits {
                return None;
            }
            let lc_key = LifecycleKey { lifecycle_sub_id: sub_id };
            let lifecycle = match env.lifecycles.get(&lc_key) {
                None => {
                    env.publish(ContractEvent::RenewalSuccess(RenewalSuccess { sub_id, owner }));
                    return Some(Err(ContractError::LifecycleNotFound));
                },
                Some(lc) => lc,
            };
            let previous_state = data.state;
            let now = env.ledger.timestamp;
            env.subscriptions.set(
                sub_id,
                SubscriptionData {
                    state: SubscriptionState::Active,
                    failure_count: 0,
                    last_attempt_ledger: current_ledger,
                    ..data
                },
            );
            env.approvals.set(ApprovalKey { sub_id, approval_id }, RenewalApproval { used: true, ..approval });
            env.user_amounts.set(UserCapKey::UserSpent(owner), current_spent + amount);
            env.cycles.set(cycle_key, cycle_id);
            let activated_at = if previous_state == SubscriptionState::Retrying {
                now
            } else {
                lifecycle.activated_at
            };
            env.lifecycles.set(
                lc_key,
                LifecycleTimestamps { last_renewed_at: now, activated_at, ..lifecycle },
            );
            env.locks.remove(lock_key);
            env.publish(ContractEvent::RenewalSuccess(RenewalSuccess { sub_id, owner }));
            env.publish(ContractEvent::LifecycleTimestampUpdated(
                LifecycleTimestampUpdated { sub_id, event_kind: 3, timestamp: now },
            ));
            if previous_state == SubscriptionState::Retrying {
                env.publish(ContractEvent::LifecycleTimestampUpdated(
                    LifecycleTimestampUpdated { sub_id, event_kind: 2, timestamp: now },
                ));
            }
            env.publish(ContractEvent::RenewalLockReleased(
                RenewalLockReleased { sub_id, released_at: current_ledger },
            ));
            env.record_log(sub_id, 2, LogMessage::RenewalSuccessful);
            Some(Ok(true))
        } else {
            if data.failure_count == u32::MAX {
                return None;
            }
            let failure_count = data.failure_count + 1;
            let new_state = if failure_count > max_retries {
                SubscriptionState::Failed
            } else {
                SubscriptionState::Retrying
            };
            env.publish(ContractEvent::RenewalFailed(
                RenewalFailed { sub_id, failure_count, ledger: current_ledger },
            ));
            env.publish(ContractEvent::StateTransition(StateTransition { sub_id, new_state }));
            if failure_count > max_retries {
                env.record_log(sub_id, 3, LogMessage::RenewalFailedMaxRetries);
            } else {
                env.record_log(sub_id, 4, LogMessage::RenewalFailedScheduledForRetry);
            }
            env.subscriptions.set(
                sub_id,
                SubscriptionData { state: new_state, failure_count, last_attempt_ledger: current_ledger, ..data },
            );
            env.approvals.set(ApprovalKey { sub_id, approval_id }, RenewalApproval { used: true, ..approval });
            env.locks.remove(lock_key);
            env.publish(ContractEvent::RenewalLockReleased(
                RenewalLockReleased { sub_id, released_at: current_ledger },
            ));
            Some(Ok(false))
        }
    }

    /// Attempt to renew a subscription, given the integrity digest of its
    /// stored terms as computed now. Returns Ok(true) on success, Ok(false)
    /// on a failed payment (retry path).
    pub fn renew_with_integrity_hash(
        env: &mut ContractEnv,
        sub_id: u64,
        approval_id: u64,
        amount: i128,
        max_retries: u32,
        cooldown_ledgers: u32,
        cycle_id: u64,
        succeed: bool,
        current_hash: &[u8; 32],
    ) -> (r: Result<bool, ContractError>)
        requires
            !(renew_spec(
                old(env)@,
                RenewRequest { sub_id, approval_id, amount, max_retries, cooldown_ledgers, cycle_id, succeed },
                current_hash@,
            ) is Panics),
        ensures
            renew_spec(
                old(env)@,
                RenewRequest { sub_id, approval_id, amount, max_retries, cooldown_ledgers, cycle_id, succeed },
                current_hash@,
            ) == Outcome::Returns(r, final(env)@),
            final(env).host == old(env).host,
    {
        match Self::try_renew_with_integrity_hash(
            env, sub_id, approval_id, amount, max_retries, cooldown_ledgers, cycle_id, succeed, current_hash,
        ) {
            Some(r) => r,
            None => {
                proof {
                    assert(false);
                }
                Err(ContractError::IntegrityViolation)
            },
        }
    }

    /// The integrity digest of the terms of the stored subscription, or
    /// zeros where there is none.
    fn current_terms_digest(env: &ContractEnv, sub_id: u64) -> (h: [u8; 32])
        ensures
            env@.subscription(sub_id) is Some ==> h@ == stored_terms_digest(env@, sub_id),
    {
        match env.subscriptions.get(&sub_id) {
            Some(d) => integrity_hash(&env.host, &d.merchant, d.amount, d.frequency, d.spending_cap),
            None => [0u8; 32],
        }
    }

    /// Attempt to renew a subscription; `None` where the contract would
    /// panic on an arithmetic overflow, the environment then unchanged.
    pub fn try_renew(
        env: &mut ContractEnv,
        sub_id: u64,
        approval_id: u64,
        amount: i128,
        max_retries: u32,
        cooldown_ledgers: u32,
        cycle_id: u64,
        succeed: bool,
    ) -> (r: Option<Result<bool, ContractError>>)
        ensures
            ({
                let req = RenewRequest { sub_id, approval_id, amount, max_retries, cooldown_ledgers, cycle_id, succeed };
                let h = stored_terms_digest(old(env)@, sub_id);
                match r {
                    None => renew_spec(old(env)@, req, h) is Panics && final(env)@ == old(env)@,
                    Some(res) => renew_spec(old(env)@, req, h) == Outcome::Returns(res, final(env)@),
                }
            }),
            final(env).host == old(env).host,
    {
        let h = Self::current_terms_digest(env, sub_id);
        Self::try_renew_with_integrity_hash(
            env, sub_id, approval_id, amount, max_retries, cooldown_ledgers, cycle_id, succeed, &h,
        )
    }

    /// Attempt to renew the subscription.
    /// Returns Ok(true) on success, Ok(false) on a failed payment (retry path).
    pub fn renew(
        env: &mut ContractEnv,
        sub_id: u64,
        approval_id: u64,
        amount: i128,
        max_retries: u32,
        cooldown_ledgers: u32,
        cycle_id: u64,
        succeed: bool,
    ) -> (r: Result<bool, ContractError>)
        requires
            !(renew_spec(
                old(env)@,
                RenewRequest { sub_id, approval_id, amount, max_retries, cooldown_ledgers, cycle_id, succeed },
                stored_terms_digest(old(env)@, sub_id),
            ) is Panics),
        ensures
            renew_spec(
                old(env)@,
                RenewRequest { sub_id, approval_id, amount, max_retries, cooldown_ledgers, cycle_id, succeed },
                stored_terms_digest(old(env)@, sub_id),
            ) == Outcome::Returns(r, final(env)@),
            final(env).host == old(env).host,
    {
        match Self::try_renew(env, sub_id, approval_id, amount, max_retries, cooldown_ledgers, cycle_id, succeed) {
            Some(r) => r,
            None => {
                proof {
                    assert(false);
                }
                Err(ContractError::IntegrityViolation)
            },
        }
    }
}

} // verus!
