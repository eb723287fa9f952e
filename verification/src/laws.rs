//! Properties of the contract that span calls, or hold of every call.

use vstd::prelude::*;
use crate::digest::integrity_digest;
use crate::spec::{
    acquire_renewal_lock_spec, approve_renewal_spec, cancel_sub_spec, init_spec, init_sub_spec,
    release_renewal_lock_spec, renew_spec, set_logging_contract_spec, set_paused_spec,
    set_user_cap_spec, set_window_spec, state_after_failure, stored_terms_digest, Outcome,
    RenewRequest,
};
use crate::state::ContractView;
use crate::types::{AccountId, ContractError, LifecycleTimestamps, RenewalLockData, RenewalWindow, SubscriptionState};

verus! {

/// The contract can be initialized once: after a successful `init`, every
/// later `init` is refused with `AlreadyInitialized` and changes nothing.
pub proof fn law_init_only_once(s: ContractView, admin: AccountId, other: AccountId)
    requires
        init_spec(s, admin).0 is Ok,
    ensures
        init_spec(init_spec(s, admin).1, other) == (
            Err::<(), ContractError>(ContractError::AlreadyInitialized),
            init_spec(s, admin).1,
        ),
{
}

/// Admin calls on a contract that was never initialized are refused with
/// `NotInitialized` and change nothing.
pub proof fn law_admin_calls_need_init(
    s: ContractView,
    paused: bool,
    address: AccountId,
    sub_id: u64,
    start: u64,
    end: u64,
    cap: i128,
)
    requires
        s.instance.admin is None,
    ensures
        set_paused_spec(s, paused) == (Err::<(), ContractError>(ContractError::NotInitialized), s),
        set_logging_contract_spec(s, address) == (Err::<(), ContractError>(ContractError::NotInitialized), s),
        set_window_spec(s, sub_id, start, end) == (Err::<(), ContractError>(ContractError::NotInitialized), s),
        set_user_cap_spec(s, address, cap) == (Err::<(), ContractError>(ContractError::NotInitialized), s),
{
}

/// The pause flag reads back what `set_paused` wrote.
pub proof fn law_pause_reads_back(s: ContractView, paused: bool)
    requires
        s.instance.admin is Some,
    ensures
        set_paused_spec(s, paused).0 is Ok,
        set_paused_spec(s, paused).1.paused_flag() == paused,
{
}

/// While the contract is paused, acquiring a lock and renewing are refused
/// with `ProtocolPaused` and change nothing.
pub proof fn law_pause_blocks_renewals(s: ContractView, sub_id: u64, lock_timeout: u32, r: RenewRequest, h: Seq<u8>)
    requires
        s.paused_flag(),
    ensures
        acquire_renewal_lock_spec(s, sub_id, lock_timeout) == Outcome::<()>::Returns(Err(ContractError::ProtocolPaused), s),
        renew_spec(s, r, h) == Outcome::<bool>::Returns(Err(ContractError::ProtocolPaused), s),
{
}

/// A refused renewal leaves storage, ledger and required authorizations
/// as they were; it may only have published a rejection event.
pub proof fn law_refused_renewal_keeps_storage(s: ContractView, r: RenewRequest, h: Seq<u8>, e: ContractError, s2: ContractView)
    requires
        renew_spec(s, r, h) == Outcome::<bool>::Returns(Err(e), s2),
    ensures
        s2.same_storage(s),
        s2.ledger == s.ledger,
        s2.auths == s.auths,
        s2.events.len() <= s.events.len() + 1,
        s2.events.subrange(0, s.events.len() as int) == s.events,
{
    assert(s.events.push(s2.events.last()).subrange(0, s.events.len() as int) =~= s.events);
}

/// Every other refused call leaves storage as it was (it may have required
/// an authorization).
pub proof fn law_refused_calls_keep_storage(
    s: ContractView,
    admin: AccountId,
    paused: bool,
    sub_id: u64,
    approval_id: u64,
    max_spend: i128,
    expires_at: u32,
    lock_timeout: u32,
    start: u64,
    end: u64,
    user: AccountId,
    cap: i128,
)
    ensures
        init_spec(s, admin).0 is Err ==> init_spec(s, admin).1 == s,
        set_paused_spec(s, paused).0 is Err ==> set_paused_spec(s, paused).1.same_storage(s),
        set_logging_contract_spec(s, admin).0 is Err ==> set_logging_contract_spec(s, admin).1.same_storage(s),
        release_renewal_lock_spec(s, sub_id).0 is Err ==> release_renewal_lock_spec(s, sub_id).1 == s,
        cancel_sub_spec(s, sub_id).0 is Err ==> cancel_sub_spec(s, sub_id).1.same_storage(s),
        approve_renewal_spec(s, sub_id, approval_id, max_spend, expires_at).0 is Err
            ==> approve_renewal_spec(s, sub_id, approval_id, max_spend, expires_at).1 == s,
        set_window_spec(s, sub_id, start, end).0 is Err ==> set_window_spec(s, sub_id, start, end).1.same_storage(s),
        set_user_cap_spec(s, user, cap).0 is Err ==> set_user_cap_spec(s, user, cap).1.same_storage(s),
        forall|e: ContractError, s2: ContractView|
            acquire_renewal_lock_spec(s, sub_id, lock_timeout) == Outcome::<()>::Returns(Err(e), s2) ==> s2 == s,
{
}

/// A renewal goes through only with an approval of the subscription that
/// was unused, not expired and large enough, and within the subscription's
/// spending cap and the owner's global cap; afterwards the approval is used.
pub proof fn law_renewal_respects_approval_and_caps(s: ContractView, r: RenewRequest, h: Seq<u8>, paid: bool, s2: ContractView)
    requires
        renew_spec(s, r, h) == Outcome::<bool>::Returns(Ok(paid), s2),
    ensures
        s.subscription(r.sub_id) is Some,
        ({
            let d = s.subscription(r.sub_id).unwrap();
            let a = s.approval(r.sub_id, r.approval_id);
            &&& a is Some
            &&& !a.unwrap().used
            &&& s.ledger.sequence <= a.unwrap().expires_at
            &&& r.amount <= a.unwrap().max_spend
            &&& d.spending_cap > 0 ==> r.amount <= d.spending_cap
            &&& s.user_cap(d.owner) > 0 ==> s.user_spent(d.owner) + r.amount <= s.user_cap(d.owner)
            &&& s2.approval(r.sub_id, r.approval_id) == Some(crate::types::RenewalApproval { used: true, ..a.unwrap() })
        }),
{
}

/// An approval pays for at most one renewal: once a renewal went through
/// with it, no renewal with it goes through while it stays as stored.
pub proof fn law_approval_single_use(
    s: ContractView,
    r: RenewRequest,
    h: Seq<u8>,
    paid: bool,
    s2: ContractView,
    s3: ContractView,
    r2: RenewRequest,
    h2: Seq<u8>,
)
    requires
        renew_spec(s, r, h) == Outcome::<bool>::Returns(Ok(paid), s2),
        r2.sub_id == r.sub_id,
        r2.approval_id == r.approval_id,
        s3.approval(r.sub_id, r.approval_id) == s2.approval(r.sub_id, r.approval_id),
    ensures
        forall|paid2: bool, s4: ContractView| renew_spec(s3, r2, h2) != Outcome::<bool>::Returns(Ok(paid2), s4),
{
    law_renewal_respects_approval_and_caps(s, r, h, paid, s2);
    assert forall|paid2: bool, s4: ContractView| renew_spec(s3, r2, h2) != Outcome::<bool>::Returns(Ok(paid2), s4) by {
        if renew_spec(s3, r2, h2) == Outcome::<bool>::Returns(Ok(paid2), s4) {
            law_renewal_respects_approval_and_caps(s3, r2, h2, paid2, s4);
        }
    }
}

/// What a user has spent grows by exactly the amount of each paid renewal,
/// stays within the user's global cap where one is set, and does not change
/// on a failed payment.
pub proof fn law_spent_accounting(s: ContractView, r: RenewRequest, h: Seq<u8>, paid: bool, s2: ContractView)
    requires
        renew_spec(s, r, h) == Outcome::<bool>::Returns(Ok(paid), s2),
    ensures
        ({
            let owner = s.subscription(r.sub_id).unwrap().owner;
            &&& paid ==> s2.user_spent(owner) == s.user_spent(owner) + r.amount
            &&& paid && s.user_cap(owner) > 0 ==> s2.user_spent(owner) <= s2.user_cap(owner)
            &&& !paid ==> s2.user_amounts == s.user_amounts
        }),
{
}

/// A renewal goes through only under a renewal lock that has not expired,
/// and every renewal that goes through, paid or not, releases that lock.
pub proof fn law_renewal_needs_and_releases_lock(s: ContractView, r: RenewRequest, h: Seq<u8>, paid: bool, s2: ContractView)
    requires
        renew_spec(s, r, h) == Outcome::<bool>::Returns(Ok(paid), s2),
    ensures
        s.lock(r.sub_id) is Some,
        s.ledger.sequence < s.lock(r.sub_id).unwrap().locked_at + s.lock(r.sub_id).unwrap().lock_timeout,
        s2.lock(r.sub_id) is None,
{
}

/// A billing cycle is paid at most once: a paid renewal records its cycle,
/// a renewal of the recorded cycle never goes through, and a failed payment
/// leaves the recorded cycle as it was.
pub proof fn law_cycle_paid_once(s: ContractView, r: RenewRequest, h: Seq<u8>, paid: bool, s2: ContractView)
    requires
        renew_spec(s, r, h) == Outcome::<bool>::Returns(Ok(paid), s2),
    ensures
        paid ==> s2.last_cycle(r.sub_id) == Some(r.cycle_id),
        !paid ==> s2.cycles == s.cycles,
        s.last_cycle(r.sub_id) != Some(r.cycle_id),
{
}

/// The retry policy: a failed payment counts one more failure and moves the
/// subscription to `Failed` once the failures exceed `max_retries`, to
/// `Retrying` before; a paid renewal makes it `Active` with no failures.
pub proof fn law_retry_policy(s: ContractView, r: RenewRequest, h: Seq<u8>, paid: bool, s2: ContractView)
    requires
        renew_spec(s, r, h) == Outcome::<bool>::Returns(Ok(paid), s2),
    ensures
        ({
            let d = s.subscription(r.sub_id).unwrap();
            let d2 = s2.subscription(r.sub_id).unwrap();
            &&& s2.subscription(r.sub_id) is Some
            &&& d2.last_attempt_ledger == s.ledger.sequence
            &&& paid ==> d2.state == SubscriptionState::Active && d2.failure_count == 0
            &&& !paid ==> d2.failure_count == d.failure_count + 1
                && d2.state == state_after_failure(d.failure_count + 1, r.max_retries)
            &&& !paid && d.failure_count + 1 > r.max_retries ==> d2.state == SubscriptionState::Failed
            &&& !paid && d.failure_count + 1 <= r.max_retries ==> d2.state == SubscriptionState::Retrying
            &&& d2.owner == d.owner && d2.merchant == d.merchant && d2.amount == d.amount
            &&& d2.frequency == d.frequency && d2.spending_cap == d.spending_cap
            &&& d2.integrity_hash == d.integrity_hash
        }),
{
}

/// A subscription in the `Failed` state is never renewed.
pub proof fn law_failed_subscription_not_renewed(s: ContractView, r: RenewRequest, h: Seq<u8>)
    requires
        !s.paused_flag(),
        s.subscription(r.sub_id) is Some,
        s.subscription(r.sub_id).unwrap().state == SubscriptionState::Failed,
    ensures
        renew_spec(s, r, h) == Outcome::<bool>::Returns(Err(ContractError::SubscriptionFailed), s),
{
}

/// Lifecycle timestamps: creation sets created and activated to now; a paid
/// renewal sets last_renewed to now, and activated to now only when the
/// subscription was retrying; a failed payment changes none of them;
/// cancellation sets canceled to now; created_at never changes after creation.
pub proof fn law_lifecycle_timestamps(
    s: ContractView,
    r: RenewRequest,
    h: Seq<u8>,
    paid: bool,
    s2: ContractView,
)
    requires
        renew_spec(s, r, h) == Outcome::<bool>::Returns(Ok(paid), s2),
    ensures
        ({
            let lc = s.lifecycle(r.sub_id).unwrap();
            let now = s.ledger.timestamp;
            let retrying = s.subscription(r.sub_id).unwrap().state == SubscriptionState::Retrying;
            &&& paid ==> s2.lifecycle(r.sub_id) == Some(LifecycleTimestamps {
                last_renewed_at: now,
                activated_at: if retrying { now } else { lc.activated_at },
                ..lc
            })
            &&& !paid ==> s2.lifecycles == s.lifecycles
        }),
{
}

/// Creating a subscription stamps its creation and activation with the
/// current time; cancelling it stamps its cancellation and keeps the rest.
pub proof fn law_lifecycle_create_and_cancel(
    s: ContractView,
    owner: AccountId,
    merchant: AccountId,
    amount: i128,
    frequency: u64,
    spending_cap: i128,
    sub_id: u64,
    hash: [u8; 32],
)
    ensures
        ({
            let now = s.ledger.timestamp;
            init_sub_spec(s, owner, merchant, amount, frequency, spending_cap, sub_id, hash).lifecycle(sub_id)
                == Some(LifecycleTimestamps { created_at: now, activated_at: now, last_renewed_at: 0, canceled_at: 0 })
        }),
        cancel_sub_spec(s, sub_id).0 is Ok ==> ({
            let lc = s.lifecycle(sub_id).unwrap();
            cancel_sub_spec(s, sub_id).1.lifecycle(sub_id)
                == Some(LifecycleTimestamps { canceled_at: s.ledger.timestamp, ..lc })
        }),
{
}

/// A new subscription holds the given terms, is active and has no failures.
pub proof fn law_init_sub_stores_terms(
    s: ContractView,
    owner: AccountId,
    merchant: AccountId,
    amount: i128,
    frequency: u64,
    spending_cap: i128,
    sub_id: u64,
    hash: [u8; 32],
)
    ensures
        ({
            let d = init_sub_spec(s, owner, merchant, amount, frequency, spending_cap, sub_id, hash).subscription(sub_id);
            &&& d is Some
            &&& d.unwrap().owner == owner && d.unwrap().merchant == merchant
            &&& d.unwrap().amount == amount && d.unwrap().frequency == frequency
            &&& d.unwrap().spending_cap == spending_cap && d.unwrap().integrity_hash == hash
            &&& d.unwrap().state == SubscriptionState::Active && d.unwrap().failure_count == 0
        }),
{
}

/// Subscription records are written only by `init_sub`, `cancel_sub` and
/// `renew`: every other call leaves them as they were.
pub proof fn law_other_calls_keep_subscriptions(
    s: ContractView,
    admin: AccountId,
    paused: bool,
    sub_id: u64,
    approval_id: u64,
    max_spend: i128,
    expires_at: u32,
    lock_timeout: u32,
    start: u64,
    end: u64,
    user: AccountId,
    cap: i128,
)
    ensures
        init_spec(s, admin).1.subscriptions == s.subscriptions,
        set_paused_spec(s, paused).1.subscriptions == s.subscriptions,
        set_logging_contract_spec(s, admin).1.subscriptions == s.subscriptions,
        release_renewal_lock_spec(s, sub_id).1.subscriptions == s.subscriptions,
        approve_renewal_spec(s, sub_id, approval_id, max_spend, expires_at).1.subscriptions == s.subscriptions,
        set_window_spec(s, sub_id, start, end).1.subscriptions == s.subscriptions,
        set_user_cap_spec(s, user, cap).1.subscriptions == s.subscriptions,
        forall|res: Result<(), ContractError>, s2: ContractView|
            acquire_renewal_lock_spec(s, sub_id, lock_timeout) == Outcome::<()>::Returns(res, s2)
                ==> s2.subscriptions == s.subscriptions,
{
}

/// A cancelled subscription cannot be cancelled again.
pub proof fn law_cancel_once(s: ContractView, sub_id: u64)
    requires
        cancel_sub_spec(s, sub_id).0 is Ok,
    ensures
        cancel_sub_spec(s, sub_id).1.subscription(sub_id).unwrap().state == SubscriptionState::Cancelled,
        cancel_sub_spec(cancel_sub_spec(s, sub_id).1, sub_id).0
            == Err::<(), ContractError>(ContractError::AlreadyCancelled),
{
}

/// Renewal locks: an acquired lock holds the current ledger and the timeout;
/// while it has not expired no other lock is acquired (where its expiry
/// overflows, the contract panics instead); a released lock is gone.
pub proof fn law_renewal_lock(s: ContractView, sub_id: u64, lock_timeout: u32, other_timeout: u32)
    ensures
        forall|s2: ContractView|
            acquire_renewal_lock_spec(s, sub_id, lock_timeout) == Outcome::<()>::Returns(Ok(()), s2)
                ==> s2.lock(sub_id) == Some(RenewalLockData { locked_at: s.ledger.sequence, lock_timeout }),
        !s.paused_flag() && s.lock(sub_id) is Some
            && s.lock(sub_id).unwrap().locked_at + s.lock(sub_id).unwrap().lock_timeout <= u32::MAX
            && s.ledger.sequence < s.lock(sub_id).unwrap().locked_at + s.lock(sub_id).unwrap().lock_timeout
            ==> acquire_renewal_lock_spec(s, sub_id, other_timeout)
                == Outcome::<()>::Returns(Err(ContractError::RenewalLockActive), s),
        release_renewal_lock_spec(s, sub_id).0 is Ok ==> release_renewal_lock_spec(s, sub_id).1.lock(sub_id) is None,
        release_renewal_lock_spec(s, sub_id).0 is Err <==> s.lock(sub_id) is None,
{
}

/// A billing window reads back what `set_window` wrote; a window that does
/// not start before it ends is refused.
pub proof fn law_window(s: ContractView, sub_id: u64, start: u64, end: u64)
    requires
        s.instance.admin is Some,
    ensures
        start < end ==> set_window_spec(s, sub_id, start, end).0 is Ok
            && set_window_spec(s, sub_id, start, end).1.window(sub_id)
                == Some(RenewalWindow { billing_start: start, billing_end: end }),
        start >= end ==> set_window_spec(s, sub_id, start, end).0
            == Err::<(), ContractError>(ContractError::InvalidWindow),
{
}

/// A user cap reads back what `set_user_cap` wrote.
pub proof fn law_user_cap_reads_back(s: ContractView, user: AccountId, cap: i128)
    requires
        s.instance.admin is Some,
    ensures
        set_user_cap_spec(s, user, cap).0 is Ok,
        set_user_cap_spec(s, user, cap).1.user_cap(user) == cap,
{
}

/// Every stored subscription carries the integrity digest of its terms.
pub open spec fn terms_intact(s: ContractView) -> bool {
    forall|id: u64| #[trigger] s.subscriptions.contains_key(id) ==>
        s.subscriptions[id].integrity_hash@ == integrity_digest(
            s.subscriptions[id].merchant,
            s.subscriptions[id].amount,
            s.subscriptions[id].frequency,
            s.subscriptions[id].spending_cap,
        )
}

/// The integrity check never fires on subscriptions this contract wrote:
/// creating a subscription with the digest of its terms, and every call
/// that goes through, keep every stored subscription intact, and a renewal
/// of an intact subscription is never refused for an integrity violation.
pub proof fn law_integrity_holds(
    s: ContractView,
    owner: AccountId,
    merchant: AccountId,
    amount: i128,
    frequency: u64,
    spending_cap: i128,
    sub_id: u64,
    hash: [u8; 32],
    r: RenewRequest,
    approval_id: u64,
    max_spend: i128,
    expires_at: u32,
)
    requires
        terms_intact(s),
    ensures
        hash@ == integrity_digest(merchant, amount, frequency, spending_cap)
            ==> terms_intact(init_sub_spec(s, owner, merchant, amount, frequency, spending_cap, sub_id, hash)),
        terms_intact(cancel_sub_spec(s, sub_id).1),
        terms_intact(approve_renewal_spec(s, sub_id, approval_id, max_spend, expires_at).1),
        forall|res: Result<bool, ContractError>, s2: ContractView|
            renew_spec(s, r, stored_terms_digest(s, r.sub_id)) == Outcome::<bool>::Returns(res, s2)
                ==> terms_intact(s2) && res != Err::<bool, ContractError>(ContractError::IntegrityViolation),
{
    let s_init = init_sub_spec(s, owner, merchant, amount, frequency, spending_cap, sub_id, hash);
    if hash@ == integrity_digest(merchant, amount, frequency, spending_cap) {
        assert forall|id: u64| #[trigger] s_init.subscriptions.contains_key(id) implies
            s_init.subscriptions[id].integrity_hash@ == integrity_digest(
                s_init.subscriptions[id].merchant,
                s_init.subscriptions[id].amount,
                s_init.subscriptions[id].frequency,
                s_init.subscriptions[id].spending_cap,
            ) by {
            if id != sub_id {
                assert(s.subscriptions.contains_key(id));
            }
        }
    }
    let s_cancel = cancel_sub_spec(s, sub_id).1;
    assert forall|id: u64| #[trigger] s_cancel.subscriptions.contains_key(id) implies
        s_cancel.subscriptions[id].integrity_hash@ == integrity_digest(
            s_cancel.subscriptions[id].merchant,
            s_cancel.subscriptions[id].amount,
            s_cancel.subscriptions[id].frequency,
            s_cancel.subscriptions[id].spending_cap,
        ) by {
        assert(s.subscriptions.contains_key(id));
    }
    let s_approve = approve_renewal_spec(s, sub_id, approval_id, max_spend, expires_at).1;
    assert(s_approve.subscriptions == s.subscriptions);
    assert forall|res: Result<bool, ContractError>, s2: ContractView|
        renew_spec(s, r, stored_terms_digest(s, r.sub_id)) == Outcome::<bool>::Returns(res, s2)
        implies terms_intact(s2) && res != Err::<bool, ContractError>(ContractError::IntegrityViolation) by {
        if s.subscriptions.contains_key(r.sub_id) {
            assert(s.subscriptions.contains_key(r.sub_id));
        }
        assert forall|id: u64| #[trigger] s2.subscriptions.contains_key(id) implies
            s2.subscriptions[id].integrity_hash@ == integrity_digest(
                s2.subscriptions[id].merchant,
                s2.subscriptions[id].amount,
                s2.subscriptions[id].frequency,
                s2.subscriptions[id].spending_cap,
            ) by {
            assert(s.subscriptions.contains_key(id));
        }
    }
}

} // verus!
