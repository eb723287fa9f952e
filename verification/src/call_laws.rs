//! For each call: when it goes through, what it writes, and what it leaves
//! alone.

use vstd::prelude::*;
use crate::spec::{
    acquire_renewal_lock_spec, approve_renewal_spec, cancel_sub_spec, init_spec, init_sub_spec,
    release_renewal_lock_spec, renew_spec, set_logging_contract_spec, set_paused_spec,
    set_user_cap_spec, set_window_spec, Outcome, RenewRequest,
};
use crate::state::ContractView;
use crate::events::{
    ApprovalCreated, ContractEvent, LifecycleTimestampUpdated, PauseToggled, RenewalFailed,
    RenewalLockAcquired, RenewalLockReleased, RenewalSuccess, StateTransition, UserCapUpdated,
    WindowUpdated,
};
use crate::spec::state_after_failure;
use crate::types::{
    error_code, AccountId, ApprovalKey, ContractError, CycleKey, LifecycleKey, RenewalApproval,
    RenewalLockData, RenewalLockKey, RenewalWindow, SubscriptionData, SubscriptionState,
    UserCapKey, WindowKey,
};

verus! {

/// `m1` and `m2` agree at every key but `k`.
pub open spec fn agree_except<K, V>(m1: Map<K, V>, m2: Map<K, V>, k: K) -> bool {
    forall|x: K| x != k ==> #[trigger] m1.get(x) == m2.get(x)
}

/// Two environments hold the same persistent storage apart from subscription
/// records (which the caller describes separately).
pub open spec fn same_except_subscriptions(a: ContractView, b: ContractView) -> bool {
    &&& a.instance == b.instance
    &&& a.locks == b.locks
    &&& a.approvals == b.approvals
    &&& a.cycles == b.cycles
    &&& a.windows == b.windows
    &&& a.user_amounts == b.user_amounts
}

// ── Renewal ───────────────────────────────────────────────────────

/// Everything a renewal checks before it pays or counts a failure, as a
/// conjunction of conditions on the environment, the request and the
/// integrity digest computed now (`h`).
pub open spec fn renewal_admissible(s: ContractView, r: RenewRequest, h: Seq<u8>) -> bool {
    let seq = s.ledger.sequence;
    let now = s.ledger.timestamp;
    &&& !s.paused_flag()
    &&& s.subscription(r.sub_id) is Some
    &&& s.lock(r.sub_id) is Some
    &&& s.approval(r.sub_id, r.approval_id) is Some
    &&& {
        let d = s.subscription(r.sub_id).unwrap();
        let l = s.lock(r.sub_id).unwrap();
        let a = s.approval(r.sub_id, r.approval_id).unwrap();
        let cap = s.user_cap(d.owner);
        let spent = s.user_spent(d.owner);
        &&& d.state != SubscriptionState::Failed
        &&& l.locked_at + l.lock_timeout <= u32::MAX
        &&& seq < l.locked_at + l.lock_timeout
        &&& s.last_cycle(r.sub_id) != Some(r.cycle_id)
        &&& d.failure_count > 0 ==> d.last_attempt_ledger + r.cooldown_ledgers <= seq
        &&& !a.used
        &&& seq <= a.expires_at
        &&& r.amount <= a.max_spend
        &&& (s.window(r.sub_id) matches Some(w) ==> w.billing_start <= now <= w.billing_end)
        &&& h == d.integrity_hash@
        &&& d.spending_cap > 0 ==> r.amount <= d.spending_cap
        &&& (r.succeed || cap > 0) ==> i128::MIN <= spent + r.amount <= i128::MAX
        &&& cap > 0 ==> spent + r.amount <= cap
        &&& r.succeed ==> s.lifecycle(r.sub_id) is Some
        &&& !r.succeed ==> d.failure_count < u32::MAX
    }
}

/// A renewal goes through only when it is admissible; it then pays exactly
/// when payment was requested.
pub proof fn law_renewal_only_when_admissible(s: ContractView, r: RenewRequest, h: Seq<u8>, paid: bool, s2: ContractView)
    requires
        renew_spec(s, r, h) == Outcome::<bool>::Returns(Ok(paid), s2),
    ensures
        renewal_admissible(s, r, h),
        paid == r.succeed,
{
}

/// An admissible renewal always goes through, paid exactly when payment was
/// requested.
pub proof fn law_admissible_renewal_goes_through(s: ContractView, r: RenewRequest, h: Seq<u8>)
    requires
        renewal_admissible(s, r, h),
    ensures
        renew_spec(s, r, h) matches Outcome::Returns(res, _) && res == Ok::<bool, ContractError>(r.succeed),
{
}

/// A renewal inside a billing window: every renewal that goes through,
/// paid or not, happens within the subscription's window where one is set.
pub proof fn law_renewal_within_window(s: ContractView, r: RenewRequest, h: Seq<u8>, paid: bool, s2: ContractView, w: RenewalWindow)
    requires
        renew_spec(s, r, h) == Outcome::<bool>::Returns(Ok(paid), s2),
        s.window(r.sub_id) == Some(w),
    ensures
        w.billing_start <= s.ledger.timestamp <= w.billing_end,
{
    law_renewal_only_when_admissible(s, r, h, paid, s2);
}

/// Each refusal of a renewal has its reason: the error names a condition
/// that holds of the environment and the request.
pub proof fn law_renewal_errors_have_their_reason(s: ContractView, r: RenewRequest, h: Seq<u8>, e: ContractError, s2: ContractView)
    requires
        renew_spec(s, r, h) == Outcome::<bool>::Returns(Err(e), s2),
    ensures
        e == ContractError::ProtocolPaused <==> s.paused_flag(),
        e == ContractError::SubscriptionNotFound ==> s.subscription(r.sub_id) is None,
        e == ContractError::SubscriptionFailed
            ==> s.subscription(r.sub_id).unwrap().state == SubscriptionState::Failed,
        e == ContractError::RenewalLockRequired ==> s.lock(r.sub_id) is None,
        e == ContractError::RenewalLockExpired ==> s.ledger.sequence
            >= s.lock(r.sub_id).unwrap().locked_at + s.lock(r.sub_id).unwrap().lock_timeout,
        e == ContractError::DuplicateCycle ==> s.last_cycle(r.sub_id) == Some(r.cycle_id),
        e == ContractError::CooldownActive ==> ({
            let d = s.subscription(r.sub_id).unwrap();
            d.failure_count > 0 && s.ledger.sequence < d.last_attempt_ledger + r.cooldown_ledgers
        }),
        e == ContractError::InvalidApproval ==> ({
            let a = s.approval(r.sub_id, r.approval_id);
            a is None || a.unwrap().used || s.ledger.sequence > a.unwrap().expires_at
                || r.amount > a.unwrap().max_spend
        }),
        e == ContractError::OutsideRenewalWindow ==> ({
            let w = s.window(r.sub_id);
            w is Some && (s.ledger.timestamp < w.unwrap().billing_start
                || s.ledger.timestamp > w.unwrap().billing_end)
        }),
        e == ContractError::IntegrityViolation ==> h != s.subscription(r.sub_id).unwrap().integrity_hash@,
        e == ContractError::SpendingCapExceeded ==> ({
            let d = s.subscription(r.sub_id).unwrap();
            d.spending_cap > 0 && r.amount > d.spending_cap
        }),
        e == ContractError::GlobalCapExceeded ==> ({
            let owner = s.subscription(r.sub_id).unwrap().owner;
            s.user_cap(owner) > 0 && s.user_spent(owner) + r.amount > s.user_cap(owner)
        }),
        e == ContractError::LifecycleNotFound ==> r.succeed && s.lifecycle(r.sub_id) is None,
        e != ContractError::AlreadyInitialized && e != ContractError::NotInitialized
            && e != ContractError::RenewalLockActive && e != ContractError::NoRenewalLock
            && e != ContractError::AlreadyCancelled && e != ContractError::InvalidWindow,
{
}

/// A renewal touches only the records of its own subscription, its own
/// approval and what its owner has spent; it never changes instance
/// storage, billing windows, caps, the ledger or required authorizations.
pub proof fn law_renewal_touches_only_its_records(s: ContractView, r: RenewRequest, h: Seq<u8>, res: Result<bool, ContractError>, s2: ContractView)
    requires
        renew_spec(s, r, h) == Outcome::<bool>::Returns(res, s2),
    ensures
        s2.instance == s.instance,
        s2.windows == s.windows,
        s2.ledger == s.ledger,
        s2.auths == s.auths,
        agree_except(s2.subscriptions, s.subscriptions, r.sub_id),
        agree_except(s2.locks, s.locks, RenewalLockKey { lock_sub_id: r.sub_id }),
        agree_except(s2.cycles, s.cycles, CycleKey { sub_id: r.sub_id }),
        agree_except(s2.lifecycles, s.lifecycles, LifecycleKey { lifecycle_sub_id: r.sub_id }),
        agree_except(s2.approvals, s.approvals, ApprovalKey { sub_id: r.sub_id, approval_id: r.approval_id }),
        forall|k: UserCapKey| #[trigger] s2.user_amounts.get(k) != s.user_amounts.get(k)
            ==> s.subscription(r.sub_id) is Some
                && k == UserCapKey::UserSpent(s.subscription(r.sub_id).unwrap().owner),
        forall|u: AccountId| #[trigger] s2.user_cap(u) == s.user_cap(u),
{
}

// ── Subscriptions ─────────────────────────────────────────────────

/// Creating a subscription writes only that subscription and its lifecycle
/// timestamps: every other record, every cap and spent amount, instance
/// storage and the required authorizations stay as they were.
pub proof fn law_init_sub_writes_only_its_records(
    s: ContractView,
    owner: AccountId,
    merchant: AccountId,
    amount: i128,
    frequency: u64,
    spending_cap: i128,
    sub_id: u64,
    hash: [u8; 32],
)
    ensures
        ({
            let s2 = init_sub_spec(s, owner, merchant, amount, frequency, spending_cap, sub_id, hash);
            &&& same_except_subscriptions(s2, s)
            &&& s2.user_amounts == s.user_amounts
            &&& forall|u: AccountId| #[trigger] s2.user_spent(u) == s.user_spent(u) && s2.user_cap(u) == s.user_cap(u)
            &&& agree_except(s2.subscriptions, s.subscriptions, sub_id)
            &&& agree_except(s2.lifecycles, s.lifecycles, LifecycleKey { lifecycle_sub_id: sub_id })
            &&& s2.auths == s.auths
            &&& s2.ledger == s.ledger
        }),
{
}

/// Cancelling goes through exactly on a stored subscription that is not yet
/// cancelled and has lifecycle timestamps, whatever its other state
/// (active, retrying or failed); it requires the owner's authorization
/// whenever the subscription exists, marks it cancelled keeping all its other
/// fields, and writes nothing else but its lifecycle.
pub proof fn law_cancel_sub(s: ContractView, sub_id: u64)
    ensures
        cancel_sub_spec(s, sub_id).0 is Ok <==> (s.subscription(sub_id) is Some
            && s.subscription(sub_id).unwrap().state != SubscriptionState::Cancelled
            && s.lifecycle(sub_id) is Some),
        s.subscription(sub_id) is Some ==> cancel_sub_spec(s, sub_id).1.auths
            == s.auths.push(s.subscription(sub_id).unwrap().owner),
        s.subscription(sub_id) is None ==> cancel_sub_spec(s, sub_id)
            == (Err::<(), ContractError>(ContractError::SubscriptionNotFound), s),
        cancel_sub_spec(s, sub_id).0 is Ok ==> ({
            let d = s.subscription(sub_id).unwrap();
            let s2 = cancel_sub_spec(s, sub_id).1;
            &&& s2.subscription(sub_id) == Some(SubscriptionData { state: SubscriptionState::Cancelled, ..d })
            &&& same_except_subscriptions(s2, s)
            &&& agree_except(s2.subscriptions, s.subscriptions, sub_id)
            &&& agree_except(s2.lifecycles, s.lifecycles, LifecycleKey { lifecycle_sub_id: sub_id })
        }),
{
}

// ── Approvals ─────────────────────────────────────────────────────

/// Approving goes through exactly on a stored subscription; it requires the
/// owner's authorization, stores exactly the new unused approval under its
/// key (replacing any earlier one, used or not), and writes nothing else.
pub proof fn law_approve_renewal(s: ContractView, sub_id: u64, approval_id: u64, max_spend: i128, expires_at: u32)
    ensures
        ({
            let (res, s2) = approve_renewal_spec(s, sub_id, approval_id, max_spend, expires_at);
            &&& res is Ok <==> s.subscription(sub_id) is Some
            &&& res is Err ==> s2 == s
            &&& res is Ok ==> {
                &&& s2.approval(sub_id, approval_id)
                    == Some(RenewalApproval { sub_id, max_spend, expires_at, used: false })
                &&& agree_except(s2.approvals, s.approvals, ApprovalKey { sub_id, approval_id })
                &&& s2.auths == s.auths.push(s.subscription(sub_id).unwrap().owner)
                &&& s2.instance == s.instance && s2.subscriptions == s.subscriptions
                &&& s2.locks == s.locks && s2.cycles == s.cycles && s2.lifecycles == s.lifecycles
                &&& s2.windows == s.windows && s2.user_amounts == s.user_amounts
            }
        }),
{
}

// ── Admin calls ───────────────────────────────────────────────────

/// Setting a user's cap goes through exactly when the contract is
/// initialized; it sets that user's cap, and changes no other cap, no spent
/// amount and no other storage.
pub proof fn law_set_user_cap(s: ContractView, user: AccountId, cap: i128)
    ensures
        ({
            let (res, s2) = set_user_cap_spec(s, user, cap);
            &&& res is Ok <==> s.instance.admin is Some
            &&& res is Ok ==> {
                &&& s2.user_cap(user) == cap
                &&& forall|u: AccountId| #[trigger] s2.user_spent(u) == s.user_spent(u)
                &&& forall|u: AccountId| u != user ==> #[trigger] s2.user_cap(u) == s.user_cap(u)
                &&& agree_except(s2.user_amounts, s.user_amounts, UserCapKey::UserCap(user))
                &&& s2.subscriptions == s.subscriptions && same_except_caps(s2, s)
            }
        }),
{
}

/// Two environments hold the same storage apart from caps and spent amounts.
pub open spec fn same_except_caps(a: ContractView, b: ContractView) -> bool {
    &&& a.instance == b.instance
    &&& a.subscriptions == b.subscriptions
    &&& a.locks == b.locks
    &&& a.approvals == b.approvals
    &&& a.cycles == b.cycles
    &&& a.lifecycles == b.lifecycles
    &&& a.windows == b.windows
}

/// Setting a billing window goes through exactly when the contract is
/// initialized and the window starts before it ends; it sets that window
/// and changes nothing else in storage.
pub proof fn law_set_window(s: ContractView, sub_id: u64, start: u64, end: u64)
    ensures
        ({
            let (res, s2) = set_window_spec(s, sub_id, start, end);
            &&& res is Ok <==> (s.instance.admin is Some && start < end)
            &&& res is Ok ==> {
                &&& s2.window(sub_id) == Some(RenewalWindow { billing_start: start, billing_end: end })
                &&& agree_except(s2.windows, s.windows, WindowKey { sub_id })
                &&& s2.instance == s.instance && s2.subscriptions == s.subscriptions
                &&& s2.locks == s.locks && s2.approvals == s.approvals && s2.cycles == s.cycles
                &&& s2.lifecycles == s.lifecycles && s2.user_amounts == s.user_amounts
            }
        }),
{
}

/// Pausing and setting the logging contract change only their own flag;
/// initializing sets the admin and clears the pause flag, and touches no
/// persistent storage.
pub proof fn law_instance_calls_touch_only_their_entry(s: ContractView, admin: AccountId, paused: bool, address: AccountId)
    ensures
        set_paused_spec(s, paused).0 is Ok <==> s.instance.admin is Some,
        set_paused_spec(s, paused).0 is Ok ==> ({
            let s2 = set_paused_spec(s, paused).1;
            &&& s2.instance.paused == Some(paused)
            &&& s2.instance.admin == s.instance.admin
            &&& s2.instance.logging_contract == s.instance.logging_contract
            &&& same_except_caps(ContractView { instance: s.instance, ..s2 }, s)
            &&& s2.user_amounts == s.user_amounts
        }),
        set_logging_contract_spec(s, address).0 is Ok <==> s.instance.admin is Some,
        set_logging_contract_spec(s, address).0 is Ok ==> ({
            let s2 = set_logging_contract_spec(s, address).1;
            &&& s2.instance.logging_contract == Some(address)
            &&& s2.instance.admin == s.instance.admin
            &&& s2.instance.paused == s.instance.paused
            &&& same_except_caps(ContractView { instance: s.instance, ..s2 }, s)
            &&& s2.user_amounts == s.user_amounts
        }),
        init_spec(s, admin).0 is Ok <==> s.instance.admin is None,
        init_spec(s, admin).0 is Ok ==> ({
            let s2 = init_spec(s, admin).1;
            &&& s2.instance.admin == Some(admin)
            &&& s2.instance.paused == Some(false)
            &&& s2.instance.logging_contract == s.instance.logging_contract
            &&& same_except_caps(ContractView { instance: s.instance, ..s2 }, s)
            &&& s2.user_amounts == s.user_amounts
            &&& s2.events == s.events
            &&& s2.auths == s.auths
        }),
{
}

// ── Locks ─────────────────────────────────────────────────────────

/// Acquiring a lock goes through whenever the contract is not paused and
/// there is no lock, or the lock has expired; it then writes only that lock.
/// Releasing goes through exactly when there is a lock, and removes only it.
pub proof fn law_lock_calls(s: ContractView, sub_id: u64, lock_timeout: u32)
    ensures
        !s.paused_flag() && (s.lock(sub_id) matches Some(l) ==> (
            l.locked_at + l.lock_timeout <= u32::MAX && s.ledger.sequence >= l.locked_at + l.lock_timeout))
            ==> (acquire_renewal_lock_spec(s, sub_id, lock_timeout) matches Outcome::Returns(res, _)
                && res is Ok),
        forall|res: Result<(), ContractError>, s2: ContractView|
            acquire_renewal_lock_spec(s, sub_id, lock_timeout) == Outcome::<()>::Returns(res, s2) && res is Ok
            ==> {
                &&& s2.lock(sub_id) == Some(RenewalLockData { locked_at: s.ledger.sequence, lock_timeout })
                &&& agree_except(s2.locks, s.locks, RenewalLockKey { lock_sub_id: sub_id })
                &&& s2.instance == s.instance && s2.subscriptions == s.subscriptions
                &&& s2.approvals == s.approvals && s2.cycles == s.cycles && s2.lifecycles == s.lifecycles
                &&& s2.windows == s.windows && s2.user_amounts == s.user_amounts && s2.auths == s.auths
            },
        release_renewal_lock_spec(s, sub_id).0 is Ok ==> ({
            let s2 = release_renewal_lock_spec(s, sub_id).1;
            &&& s2.lock(sub_id) is None
            &&& agree_except(s2.locks, s.locks, RenewalLockKey { lock_sub_id: sub_id })
            &&& s2.instance == s.instance && s2.subscriptions == s.subscriptions
            &&& s2.approvals == s.approvals && s2.cycles == s.cycles && s2.lifecycles == s.lifecycles
            &&& s2.windows == s.windows && s2.user_amounts == s.user_amounts && s2.auths == s.auths
        }),
{
}

// ── Events and authorizations ─────────────────────────────────────

/// Calls only append to the events published so far.
pub open spec fn appends_events(s: ContractView, s2: ContractView) -> bool {
    s2.events.len() >= s.events.len() && s2.events.subrange(0, s.events.len() as int) == s.events
}

/// A paid renewal first announces the payment to the owner; a failed one
/// first announces the failure count and then the new state; both end by
/// announcing the lock release. Earlier events stay as they were.
pub proof fn law_renewal_announces(s: ContractView, r: RenewRequest, h: Seq<u8>, paid: bool, s2: ContractView)
    requires
        renew_spec(s, r, h) == Outcome::<bool>::Returns(Ok(paid), s2),
    ensures
        appends_events(s, s2),
        ({
            let n = s.events.len() as int;
            let d = s.subscription(r.sub_id).unwrap();
            let seq = s.ledger.sequence;
            &&& paid ==> s2.events[n] == ContractEvent::RenewalSuccess(RenewalSuccess { sub_id: r.sub_id, owner: d.owner })
            &&& paid ==> s2.events[n + 1] == ContractEvent::LifecycleTimestampUpdated(
                LifecycleTimestampUpdated { sub_id: r.sub_id, event_kind: 3, timestamp: s.ledger.timestamp })
            &&& !paid ==> s2.events[n] == ContractEvent::RenewalFailed(
                RenewalFailed { sub_id: r.sub_id, failure_count: (d.failure_count + 1) as u32, ledger: seq })
            &&& !paid ==> s2.events[n + 1] == ContractEvent::StateTransition(StateTransition {
                sub_id: r.sub_id,
                new_state: state_after_failure(d.failure_count + 1, r.max_retries),
            })
            &&& !paid ==> s2.events.last() == ContractEvent::RenewalLockReleased(
                RenewalLockReleased { sub_id: r.sub_id, released_at: seq })
        }),
{
    let n = s.events.len() as int;
    assert(s2.events.subrange(0, n) =~= s.events);
}

/// The events and authorizations of the other calls: each appends to what
/// was published, announces what it did, and the admin calls require the
/// admin's authorization and no other.
pub proof fn law_calls_announce_and_authorize(
    s: ContractView,
    paused: bool,
    sub_id: u64,
    approval_id: u64,
    max_spend: i128,
    expires_at: u32,
    lock_timeout: u32,
    start: u64,
    end: u64,
    user: AccountId,
    cap: i128,
)
    ensures
        set_paused_spec(s, paused).0 is Ok ==> {
            let s2 = set_paused_spec(s, paused).1;
            &&& s2.events == s.events.push(ContractEvent::PauseToggled(PauseToggled { paused }))
            &&& s2.auths == s.auths.push(s.instance.admin.unwrap())
        },
        set_window_spec(s, sub_id, start, end).0 is Ok ==> {
            let s2 = set_window_spec(s, sub_id, start, end).1;
            &&& s2.events == s.events.push(ContractEvent::WindowUpdated(
                WindowUpdated { sub_id, billing_start: start, billing_end: end }))
            &&& s2.auths == s.auths.push(s.instance.admin.unwrap())
        },
        set_user_cap_spec(s, user, cap).0 is Ok ==> {
            let s2 = set_user_cap_spec(s, user, cap).1;
            &&& s2.events == s.events.push(ContractEvent::UserCapUpdated(UserCapUpdated { user, cap }))
            &&& s2.auths == s.auths.push(s.instance.admin.unwrap())
        },
        approve_renewal_spec(s, sub_id, approval_id, max_spend, expires_at).0 is Ok ==>
            approve_renewal_spec(s, sub_id, approval_id, max_spend, expires_at).1.events
                == s.events.push(ContractEvent::ApprovalCreated(
                    ApprovalCreated { sub_id, approval_id, max_spend, expires_at })),
        release_renewal_lock_spec(s, sub_id).0 is Ok ==>
            release_renewal_lock_spec(s, sub_id).1.events == s.events.push(ContractEvent::RenewalLockReleased(
                RenewalLockReleased { sub_id, released_at: s.ledger.sequence })),
        forall|s2: ContractView|
            acquire_renewal_lock_spec(s, sub_id, lock_timeout) == Outcome::<()>::Returns(Ok(()), s2)
            ==> appends_events(s, s2) && s2.events.last() == ContractEvent::RenewalLockAcquired(
                RenewalLockAcquired { sub_id, locked_at: s.ledger.sequence, lock_timeout }),
        cancel_sub_spec(s, sub_id).0 is Ok ==> ({
            let s2 = cancel_sub_spec(s, sub_id).1;
            &&& appends_events(s, s2)
            &&& s2.events[s.events.len() as int] == ContractEvent::LifecycleTimestampUpdated(
                LifecycleTimestampUpdated { sub_id, event_kind: 4, timestamp: s.ledger.timestamp })
            &&& s2.events.last() == ContractEvent::StateTransition(
                StateTransition { sub_id, new_state: SubscriptionState::Cancelled })
        }),
        set_paused_spec(s, paused).0 is Err ==> set_paused_spec(s, paused).1 == s,
        set_window_spec(s, sub_id, start, end).0 == Err::<(), ContractError>(ContractError::NotInitialized)
            ==> set_window_spec(s, sub_id, start, end).1 == s,
        set_user_cap_spec(s, user, cap).0 is Err ==> set_user_cap_spec(s, user, cap).1 == s,
{
    let s2 = cancel_sub_spec(s, sub_id).1;
    if cancel_sub_spec(s, sub_id).0 is Ok {
        let n = s.events.len() as int;
        if s.instance.logging_contract is Some {
            assert(s2.events.subrange(0, n) =~= s.events);
        } else {
            assert(s2.events.subrange(0, n) =~= s.events);
        }
    }
    assert forall|s3: ContractView|
        acquire_renewal_lock_spec(s, sub_id, lock_timeout) == Outcome::<()>::Returns(Ok(()), s3)
        implies appends_events(s, s3) && s3.events.last() == ContractEvent::RenewalLockAcquired(
            RenewalLockAcquired { sub_id, locked_at: s.ledger.sequence, lock_timeout }) by {
        assert(s3.events.subrange(0, s.events.len() as int) =~= s.events);
    }
}

/// The error numbers of the ABI are 1 to 19, one per error.
pub proof fn law_error_codes_distinct(a: ContractError, b: ContractError)
    ensures
        1 <= error_code(a) <= 19,
        error_code(a) == error_code(b) <==> a == b,
{
}

/// Where nothing is stored, the contract is not paused, and a user has no
/// global cap and has spent nothing.
pub proof fn law_defaults(s: ContractView, u: AccountId)
    ensures
        s.instance.paused is None ==> !s.paused_flag(),
        s.user_amounts.get(UserCapKey::UserCap(u)) is None ==> s.user_cap(u) == 0,
        s.user_amounts.get(UserCapKey::UserSpent(u)) is None ==> s.user_spent(u) == 0,
        s.user_amounts.get(UserCapKey::UserCap(u)) matches Some(c) ==> s.user_cap(u) == c,
        s.user_amounts.get(UserCapKey::UserSpent(u)) matches Some(c) ==> s.user_spent(u) == c,
{
}

} // verus!
