//! What each call of the contract does, as a function from the environment
//! before the call to its result and the environment after it.

use vstd::prelude::*;
use crate::events::{
    ApprovalCreated, ApprovalRejected, ContractEvent, DuplicateRenewalRejected,
    GlobalCapViolated, IntegrityViolationEvent, LifecycleTimestampUpdated, LogMessage,
    PauseToggled, RenewalFailed, RenewalLockAcquired, RenewalLockExpiredEvent,
    RenewalLockReleased, RenewalSuccess, SpendingCapViolated, StateTransition, UserCapUpdated,
    WindowUpdated,
};
use crate::state::{ContractView, InstanceStorage};
use crate::types::{
    AccountId, ApprovalKey, ContractError, CycleKey, LifecycleKey, LifecycleTimestamps,
    RenewalApproval, RenewalLockData, RenewalLockKey, RenewalWindow, SubscriptionData,
    SubscriptionState, UserCapKey, WindowKey,
};

verus! {

/// The outcome of a call that can panic: the original contract panics on an
/// arithmetic overflow in a few places.
pub enum Outcome<T> {
    Panics,
    Returns(Result<T, ContractError>, ContractView),
}

/// The arguments of a renewal attempt.
#[derive(Clone, Copy, Debug, PartialEq, Eq, Structural)]
pub struct RenewRequest {
    pub sub_id: u64,
    pub approval_id: u64,
    pub amount: i128,
    pub max_retries: u32,
    pub cooldown_ledgers: u32,
    pub cycle_id: u64,
    pub succeed: bool,
}

pub open spec fn fits_u32(x: int) -> bool {
    0 <= x <= u32::MAX
}

pub open spec fn fits_i128(x: int) -> bool {
    i128::MIN <= x <= i128::MAX
}

// ── Admin / pause ─────────────────────────────────────────────────

pub open spec fn init_spec(s: ContractView, admin: AccountId) -> (Result<(), ContractError>, ContractView) {
    if s.instance.admin is Some {
        (Err(ContractError::AlreadyInitialized), s)
    } else {
        (Ok(()), ContractView {
            instance: InstanceStorage { admin: Some(admin), paused: Some(false), ..s.instance },
            ..s
        })
    }
}

/// Loads the admin and requires its authorization.
pub open spec fn require_admin_spec(s: ContractView) -> (Result<(), ContractError>, ContractView) {
    match s.instance.admin {
        None => (Err(ContractError::NotInitialized), s),
        Some(a) => (Ok(()), s.require_auth(a)),
    }
}

pub open spec fn set_paused_spec(s: ContractView, paused: bool) -> (Result<(), ContractError>, ContractView) {
    let (r, s1) = require_admin_spec(s);
    if r is Err {
        (r, s1)
    } else {
        let s2 = ContractView {
            instance: InstanceStorage { paused: Some(paused), ..s1.instance },
            ..s1
        };
        (Ok(()), s2.publish(ContractEvent::PauseToggled(PauseToggled { paused })))
    }
}

pub open spec fn set_logging_contract_spec(s: ContractView, address: AccountId) -> (Result<(), ContractError>, ContractView) {
    let (r, s1) = require_admin_spec(s);
    if r is Err {
        (r, s1)
    } else {
        (Ok(()), ContractView {
            instance: InstanceStorage { logging_contract: Some(address), ..s1.instance },
            ..s1
        })
    }
}

// ── Renewal locks ─────────────────────────────────────────────────

pub open spec fn acquire_renewal_lock_spec(s: ContractView, sub_id: u64, lock_timeout: u32) -> Outcome<()> {
    let seq = s.ledger.sequence;
    if s.paused_flag() {
        Outcome::Returns(Err(ContractError::ProtocolPaused), s)
    } else {
        let s1 = match s.lock(sub_id) {
            Some(l) => s.publish(ContractEvent::RenewalLockExpired(RenewalLockExpiredEvent {
                sub_id,
                original_locked_at: l.locked_at,
                expired_at: seq,
            })),
            None => s,
        };
        let s2 = ContractView {
            locks: s1.locks.insert(
                RenewalLockKey { lock_sub_id: sub_id },
                RenewalLockData { locked_at: seq, lock_timeout },
            ),
            ..s1
        };
        let done = Outcome::Returns(Ok(()), s2.publish(ContractEvent::RenewalLockAcquired(
            RenewalLockAcquired { sub_id, locked_at: seq, lock_timeout },
        )));
        match s.lock(sub_id) {
            Some(l) => if !fits_u32(l.locked_at + l.lock_timeout) {
                Outcome::Panics
            } else if seq < l.locked_at + l.lock_timeout {
                Outcome::Returns(Err(ContractError::RenewalLockActive), s)
            } else {
                done
            },
            None => done,
        }
    }
}

pub open spec fn release_renewal_lock_spec(s: ContractView, sub_id: u64) -> (Result<(), ContractError>, ContractView) {
    if s.lock(sub_id) is None {
        (Err(ContractError::NoRenewalLock), s)
    } else {
        let s1 = ContractView { locks: s.locks.remove(RenewalLockKey { lock_sub_id: sub_id }), ..s };
        (Ok(()), s1.publish(ContractEvent::RenewalLockReleased(RenewalLockReleased {
            sub_id,
            released_at: s.ledger.sequence,
        })))
    }
}

// ── Subscriptions ─────────────────────────────────────────────────

/// The record `init_sub` stores.
pub open spec fn new_subscription(
    owner: AccountId,
    merchant: AccountId,
    amount: i128,
    frequency: u64,
    spending_cap: i128,
    integrity_hash: [u8; 32],
) -> SubscriptionData {
    SubscriptionData {
        owner,
        merchant,
        amount,
        frequency,
        spending_cap,
        integrity_hash,
        state: SubscriptionState::Active,
        failure_count: 0,
        last_attempt_ledger: 0,
    }
}

pub open spec fn init_sub_spec(
    s: ContractView,
    owner: AccountId,
    merchant: AccountId,
    amount: i128,
    frequency: u64,
    spending_cap: i128,
    sub_id: u64,
    integrity_hash: [u8; 32],
) -> ContractView {
    let now = s.ledger.timestamp;
    let s1 = ContractView {
        subscriptions: s.subscriptions.insert(
            sub_id,
            new_subscription(owner, merchant, amount, frequency, spending_cap, integrity_hash),
        ),
        lifecycles: s.lifecycles.insert(
            LifecycleKey { lifecycle_sub_id: sub_id },
            LifecycleTimestamps { created_at: now, activated_at: now, last_renewed_at: 0, canceled_at: 0 },
        ),
        ..s
    };
    s1.publish(ContractEvent::LifecycleTimestampUpdated(
        LifecycleTimestampUpdated { sub_id, event_kind: 1, timestamp: now },
    )).publish(ContractEvent::LifecycleTimestampUpdated(
        LifecycleTimestampUpdated { sub_id, event_kind: 2, timestamp: now },
    )).record_log(sub_id, 2, LogMessage::SubscriptionInitialized)
}

pub open spec fn cancel_sub_spec(s: ContractView, sub_id: u64) -> (Result<(), ContractError>, ContractView) {
    match s.subscription(sub_id) {
        None => (Err(ContractError::SubscriptionNotFound), s),
        Some(d) => {
            let s1 = s.require_auth(d.owner);
            if d.state == SubscriptionState::Cancelled {
                (Err(ContractError::AlreadyCancelled), s1)
            } else {
                match s.lifecycle(sub_id) {
                    None => (Err(ContractError::LifecycleNotFound), s1),
                    Some(lc) => {
                        let now = s.ledger.timestamp;
                        let s2 = ContractView {
                            subscriptions: s1.subscriptions.insert(
                                sub_id,
                                SubscriptionData { state: SubscriptionState::Cancelled, ..d },
                            ),
                            lifecycles: s1.lifecycles.insert(
                                LifecycleKey { lifecycle_sub_id: sub_id },
                                LifecycleTimestamps { canceled_at: now, ..lc },
                            ),
                            ..s1
                        };
                        (Ok(()), s2.publish(ContractEvent::LifecycleTimestampUpdated(
                            LifecycleTimestampUpdated { sub_id, event_kind: 4, timestamp: now },
                        )).record_log(sub_id, 5, LogMessage::SubscriptionCancelled).publish(
                            ContractEvent::StateTransition(StateTransition {
                                sub_id,
                                new_state: SubscriptionState::Cancelled,
                            }),
                        ))
                    },
                }
            }
        },
    }
}

// ── Approvals ─────────────────────────────────────────────────────

pub open spec fn approve_renewal_spec(
    s: ContractView,
    sub_id: u64,
    approval_id: u64,
    max_spend: i128,
    expires_at: u32,
) -> (Result<(), ContractError>, ContractView) {
    match s.subscription(sub_id) {
        None => (Err(ContractError::SubscriptionNotFound), s),
        Some(d) => {
            let s1 = s.require_auth(d.owner);
            let s2 = ContractView {
                approvals: s1.approvals.insert(
                    ApprovalKey { sub_id, approval_id },
                    RenewalApproval { sub_id, max_spend, expires_at, used: false },
                ),
                ..s1
            };
            (Ok(()), s2.publish(ContractEvent::ApprovalCreated(
                ApprovalCreated { sub_id, approval_id, max_spend, expires_at },
            )))
        },
    }
}

/// Why an approval cannot pay `amount` at the current ledger, if it cannot:
/// 4 = not found, 2 = already used, 1 = expired, 3 = amount above its maximum.
pub open spec fn approval_rejection(s: ContractView, sub_id: u64, approval_id: u64, amount: i128) -> Option<u32> {
    match s.approval(sub_id, approval_id) {
        None => Some(4),
        Some(a) => if a.used {
            Some(2)
        } else if s.ledger.sequence > a.expires_at {
            Some(1)
        } else if amount > a.max_spend {
            Some(3)
        } else {
            None
        },
    }
}

// ── Renewal ───────────────────────────────────────────────────────

/// The environment after a renewal whose payment succeeded.
pub open spec fn renewal_success(
    s: ContractView,
    r: RenewRequest,
    d: SubscriptionData,
    a: RenewalApproval,
    lc: LifecycleTimestamps,
) -> ContractView {
    let seq = s.ledger.sequence;
    let now = s.ledger.timestamp;
    let spent = s.user_spent(d.owner);
    let s1 = ContractView {
        subscriptions: s.subscriptions.insert(
            r.sub_id,
            SubscriptionData {
                state: SubscriptionState::Active,
                failure_count: 0,
                last_attempt_ledger: seq,
                ..d
            },
        ),
        approvals: s.approvals.insert(
            ApprovalKey { sub_id: r.sub_id, approval_id: r.approval_id },
            RenewalApproval { used: true, ..a },
        ),
        user_amounts: s.user_amounts.insert(UserCapKey::UserSpent(d.owner), (spent + r.amount) as i128),
        cycles: s.cycles.insert(CycleKey { sub_id: r.sub_id }, r.cycle_id),
        lifecycles: s.lifecycles.insert(
            LifecycleKey { lifecycle_sub_id: r.sub_id },
            LifecycleTimestamps {
                last_renewed_at: now,
                activated_at: if d.state == SubscriptionState::Retrying { now } else { lc.activated_at },
                ..lc
            },
        ),
        locks: s.locks.remove(RenewalLockKey { lock_sub_id: r.sub_id }),
        ..s
    };
    let s2 = s1.publish(ContractEvent::RenewalSuccess(RenewalSuccess {
        sub_id: r.sub_id,
        owner: d.owner,
    })).publish(ContractEvent::LifecycleTimestampUpdated(
        LifecycleTimestampUpdated { sub_id: r.sub_id, event_kind: 3, timestamp: now },
    ));
    let s3 = if d.state == SubscriptionState::Retrying {
        s2.publish(ContractEvent::LifecycleTimestampUpdated(
            LifecycleTimestampUpdated { sub_id: r.sub_id, event_kind: 2, timestamp: now },
        ))
    } else {
        s2
    };
    s3.publish(ContractEvent::RenewalLockReleased(
        RenewalLockReleased { sub_id: r.sub_id, released_at: seq },
    )).record_log(r.sub_id, 2, LogMessage::RenewalSuccessful)
}

/// The state a subscription moves to after its `failure_count`-th failed payment.
pub open spec fn state_after_failure(failure_count: int, max_retries: u32) -> SubscriptionState {
    if failure_count > max_retries {
        SubscriptionState::Failed
    } else {
        SubscriptionState::Retrying
    }
}

/// The environment after a renewal whose payment failed.
pub open spec fn renewal_failure(
    s: ContractView,
    r: RenewRequest,
    d: SubscriptionData,
    a: RenewalApproval,
) -> ContractView {
    let seq = s.ledger.sequence;
    let count = (d.failure_count + 1) as u32;
    let new_state = state_after_failure(count as int, r.max_retries);
    let s1 = s.publish(ContractEvent::RenewalFailed(
        RenewalFailed { sub_id: r.sub_id, failure_count: count, ledger: seq },
    )).publish(ContractEvent::StateTransition(StateTransition { sub_id: r.sub_id, new_state }));
    let s2 = if new_state == SubscriptionState::Failed {
        s1.record_log(r.sub_id, 3, LogMessage::RenewalFailedMaxRetries)
    } else {
        s1.record_log(r.sub_id, 4, LogMessage::RenewalFailedScheduledForRetry)
    };
    let s3 = ContractView {
        subscriptions: s2.subscriptions.insert(
            r.sub_id,
            SubscriptionData { state: new_state, failure_count: count, last_attempt_ledger: seq, ..d },
        ),
        approvals: s2.approvals.insert(
            ApprovalKey { sub_id: r.sub_id, approval_id: r.approval_id },
            RenewalApproval { used: true, ..a },
        ),
        locks: s2.locks.remove(RenewalLockKey { lock_sub_id: r.sub_id }),
        ..s2
    };
    s3.publish(ContractEvent::RenewalLockReleased(
        RenewalLockReleased { sub_id: r.sub_id, released_at: seq },
    ))
}

/// Whether the renewal window of the subscription, if one is set, excludes
/// the current ledger time.
pub open spec fn outside_window(s: ContractView, sub_id: u64) -> bool {
    match s.window(sub_id) {
        Some(w) => s.ledger.timestamp < w.billing_start || s.ledger.timestamp > w.billing_end,
        None => false,
    }
}

/// A renewal attempt, given the integrity digest of the stored terms as
/// computed now (`current_hash`).
pub open spec fn renew_spec(s: ContractView, r: RenewRequest, current_hash: Seq<u8>) -> Outcome<bool> {
    let seq = s.ledger.sequence;
    if s.paused_flag() {
        Outcome::Returns(Err(ContractError::ProtocolPaused), s)
    } else {
        match s.subscription(r.sub_id) {
            None => Outcome::Returns(Err(ContractError::SubscriptionNotFound), s),
            Some(d) => if d.state == SubscriptionState::Failed {
                Outcome::Returns(Err(ContractError::SubscriptionFailed), s)
            } else {
                match s.lock(r.sub_id) {
                    None => Outcome::Returns(Err(ContractError::RenewalLockRequired), s),
                    Some(l) => if !fits_u32(l.locked_at + l.lock_timeout) {
                        Outcome::Panics
                    } else if seq >= l.locked_at + l.lock_timeout {
                        Outcome::Returns(Err(ContractError::RenewalLockExpired), s)
                    } else if s.last_cycle(r.sub_id) == Some(r.cycle_id) {
                        Outcome::Returns(
                            Err(ContractError::DuplicateCycle),
                            s.publish(ContractEvent::DuplicateRenewalRejected(
                                DuplicateRenewalRejected { sub_id: r.sub_id, cycle_id: r.cycle_id },
                            )),
                        )
                    } else {
                        renew_after_cycle_check(s, r, current_hash, d)
                    },
                }
            },
        }
    }
}

/// The rest of a renewal attempt, once the lock and the cycle passed.
pub open spec fn renew_after_cycle_check(
    s: ContractView,
    r: RenewRequest,
    current_hash: Seq<u8>,
    d: SubscriptionData,
) -> Outcome<bool> {
    let seq = s.ledger.sequence;
    if d.failure_count > 0 && !fits_u32(d.last_attempt_ledger + r.cooldown_ledgers) {
        Outcome::Panics
    } else if d.failure_count > 0 && seq < d.last_attempt_ledger + r.cooldown_ledgers {
        Outcome::Returns(Err(ContractError::CooldownActive), s)
    } else {
        match approval_rejection(s, r.sub_id, r.approval_id, r.amount) {
            Some(reason) => Outcome::Returns(
                Err(ContractError::InvalidApproval),
                s.publish(ContractEvent::ApprovalRejected(
                    ApprovalRejected { sub_id: r.sub_id, approval_id: r.approval_id, reason },
                )),
            ),
            None => renew_after_approval(s, r, current_hash, d),
        }
    }
}

/// The rest of a renewal attempt, once the approval passed.
pub open spec fn renew_after_approval(
    s: ContractView,
    r: RenewRequest,
    current_hash: Seq<u8>,
    d: SubscriptionData,
) -> Outcome<bool> {
    let a = s.approval(r.sub_id, r.approval_id).unwrap();
    let cap = s.user_cap(d.owner);
    let spent = s.user_spent(d.owner);
    if outside_window(s, r.sub_id) {
        Outcome::Returns(Err(ContractError::OutsideRenewalWindow), s)
    } else if current_hash != d.integrity_hash@ {
        Outcome::Returns(
            Err(ContractError::IntegrityViolation),
            s.publish(ContractEvent::IntegrityViolation(IntegrityViolationEvent { sub_id: r.sub_id })),
        )
    } else if d.spending_cap > 0 && r.amount > d.spending_cap {
        Outcome::Returns(
            Err(ContractError::SpendingCapExceeded),
            s.publish(ContractEvent::SpendingCapViolated(
                SpendingCapViolated { sub_id: r.sub_id, amount: r.amount, cap: d.spending_cap },
            )),
        )
    } else if cap > 0 && !fits_i128(spent + r.amount) {
        Outcome::Panics
    } else if cap > 0 && spent + r.amount > cap {
        Outcome::Returns(
            Err(ContractError::GlobalCapExceeded),
            s.publish(ContractEvent::GlobalCapViolated(
                GlobalCapViolated { owner: d.owner, amount: (spent + r.amount) as i128, cap },
            )),
        )
    } else if r.succeed {
        if !fits_i128(spent + r.amount) {
            Outcome::Panics
        } else {
            match s.lifecycle(r.sub_id) {
                None => Outcome::Returns(
                    Err(ContractError::LifecycleNotFound),
                    s.publish(ContractEvent::RenewalSuccess(
                        RenewalSuccess { sub_id: r.sub_id, owner: d.owner },
                    )),
                ),
                Some(lc) => Outcome::Returns(Ok(true), renewal_success(s, r, d, a, lc)),
            }
        }
    } else if d.failure_count == u32::MAX {
        Outcome::Panics
    } else {
        Outcome::Returns(Ok(false), renewal_failure(s, r, d, a))
    }
}

/// The integrity digest of the terms of the stored subscription `sub_id`.
pub open spec fn stored_terms_digest(s: ContractView, sub_id: u64) -> Seq<u8> {
    match s.subscription(sub_id) {
        Some(d) => crate::digest::integrity_digest(d.merchant, d.amount, d.frequency, d.spending_cap),
        None => Seq::empty(),
    }
}

// ── Windows and caps ──────────────────────────────────────────────

pub open spec fn set_window_spec(s: ContractView, sub_id: u64, billing_start: u64, billing_end: u64) -> (Result<(), ContractError>, ContractView) {
    let (r, s1) = require_admin_spec(s);
    if r is Err {
        (r, s1)
    } else if billing_start >= billing_end {
        (Err(ContractError::InvalidWindow), s1)
    } else {
        let s2 = ContractView {
            windows: s1.windows.insert(WindowKey { sub_id }, RenewalWindow { billing_start, billing_end }),
            ..s1
        };
        (Ok(()), s2.publish(ContractEvent::WindowUpdated(WindowUpdated { sub_id, billing_start, billing_end })))
    }
}

pub open spec fn set_user_cap_spec(s: ContractView, user: AccountId, cap: i128) -> (Result<(), ContractError>, ContractView) {
    let (r, s1) = require_admin_spec(s);
    if r is Err {
        (r, s1)
    } else {
        let s2 = ContractView { user_amounts: s1.user_amounts.insert(UserCapKey::UserCap(user), cap), ..s1 };
        (Ok(()), s2.publish(ContractEvent::UserCapUpdated(UserCapUpdated { user, cap })))
    }
}

} // verus!
