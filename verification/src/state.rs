//! The contract's environment: its instance and persistent storage, the
//! ledger it runs in, the events it has published and the authorizations it
//! has required.

use vstd::prelude::*;
use soroban_sdk::Env;
use crate::events::{ContractEvent, LogMessage, LogRecord};
use crate::table::Table;
use crate::types::{
    AccountId, ApprovalKey, CycleKey, LedgerInfo, LifecycleKey, LifecycleTimestamps,
    RenewalApproval, RenewalLockData, RenewalLockKey, RenewalWindow, SubscriptionData,
    UserCapKey, WindowKey,
};

verus! {

/// Contract-level storage: admin, pause flag and logging contract.
#[derive(Clone, Copy, Debug, PartialEq, Eq)]
pub struct InstanceStorage {
    pub admin: Option<AccountId>,
    pub paused: Option<bool>,
    pub logging_contract: Option<AccountId>,
}

/// What the contract sees and changes while it runs.
///
/// `events` holds every event the contract has published, in order; when a
/// call returns an error, the host discards that call's storage writes and
/// marks the events it published as coming from a failed call, so the
/// model leaves storage as it was and keeps those events. `auths` holds
/// every address whose authorization a call has required, in order.
pub struct ContractEnv {
    pub host: Env,
    pub instance: InstanceStorage,
    pub subscriptions: Table<u64, SubscriptionData>,
    pub locks: Table<RenewalLockKey, RenewalLockData>,
    pub approvals: Table<ApprovalKey, RenewalApproval>,
    pub cycles: Table<CycleKey, u64>,
    pub lifecycles: Table<LifecycleKey, LifecycleTimestamps>,
    pub windows: Table<WindowKey, RenewalWindow>,
    pub user_amounts: Table<UserCapKey, i128>,
    pub ledger: LedgerInfo,
    pub events: Vec<ContractEvent>,
    pub auths: Vec<AccountId>,
}

/// The mathematical view of a [`ContractEnv`].
pub struct ContractView {
    pub instance: InstanceStorage,
    pub subscriptions: Map<u64, SubscriptionData>,
    pub locks: Map<RenewalLockKey, RenewalLockData>,
    pub approvals: Map<ApprovalKey, RenewalApproval>,
    pub cycles: Map<CycleKey, u64>,
    pub lifecycles: Map<LifecycleKey, LifecycleTimestamps>,
    pub windows: Map<WindowKey, RenewalWindow>,
    pub user_amounts: Map<UserCapKey, i128>,
    pub ledger: LedgerInfo,
    pub events: Seq<ContractEvent>,
    pub auths: Seq<AccountId>,
}

impl View for ContractEnv {
    type V = ContractView;

    open spec fn view(&self) -> ContractView {
        ContractView {
            instance: self.instance,
            subscriptions: self.subscriptions.view(),
            locks: self.locks.view(),
            approvals: self.approvals.view(),
            cycles: self.cycles.view(),
            lifecycles: self.lifecycles.view(),
            windows: self.windows.view(),
            user_amounts: self.user_amounts.view(),
            ledger: self.ledger,
            events: self.events@,
            auths: self.auths@,
        }
    }
}

impl ContractView {
    /// The pause flag, false where none was stored.
    pub open spec fn paused_flag(self) -> bool {
        match self.instance.paused {
            Some(p) => p,
            None => false,
        }
    }

    pub open spec fn subscription(self, sub_id: u64) -> Option<SubscriptionData> {
        self.subscriptions.get(sub_id)
    }

    pub open spec fn lock(self, sub_id: u64) -> Option<RenewalLockData> {
        self.locks.get(RenewalLockKey { lock_sub_id: sub_id })
    }

    pub open spec fn approval(self, sub_id: u64, approval_id: u64) -> Option<RenewalApproval> {
        self.approvals.get(ApprovalKey { sub_id, approval_id })
    }

    pub open spec fn last_cycle(self, sub_id: u64) -> Option<u64> {
        self.cycles.get(CycleKey { sub_id })
    }

    pub open spec fn lifecycle(self, sub_id: u64) -> Option<LifecycleTimestamps> {
        self.lifecycles.get(LifecycleKey { lifecycle_sub_id: sub_id })
    }

    pub open spec fn window(self, sub_id: u64) -> Option<RenewalWindow> {
        self.windows.get(WindowKey { sub_id })
    }

    /// The global spending cap of `user`, 0 where none was stored.
    pub open spec fn user_cap(self, user: AccountId) -> i128 {
        match self.user_amounts.get(UserCapKey::UserCap(user)) {
            Some(c) => c,
            None => 0,
        }
    }

    /// What `user` has spent, 0 where nothing was stored.
    pub open spec fn user_spent(self, user: AccountId) -> i128 {
        match self.user_amounts.get(UserCapKey::UserSpent(user)) {
            Some(c) => c,
            None => 0,
        }
    }

    /// The same environment after publishing `e`.
    pub open spec fn publish(self, e: ContractEvent) -> ContractView {
        ContractView { events: self.events.push(e), ..self }
    }

    /// The same environment after requiring the authorization of `a`.
    pub open spec fn require_auth(self, a: AccountId) -> ContractView {
        ContractView { auths: self.auths.push(a), ..self }
    }

    /// The same environment after sending a log record, which happens only
    /// where a logging contract is configured.
    pub open spec fn record_log(self, sub_id: u64, event_type: u32, message: LogMessage) -> ContractView {
        if self.instance.logging_contract is Some {
            self.publish(ContractEvent::Log(LogRecord { sub_id, event_type, message }))
        } else {
            self
        }
    }

    /// Whether two environments hold the same storage.
    pub open spec fn same_storage(self, other: ContractView) -> bool {
        &&& self.instance == other.instance
        &&& self.subscriptions == other.subscriptions
        &&& self.locks == other.locks
        &&& self.approvals == other.approvals
        &&& self.cycles == other.cycles
        &&& self.lifecycles == other.lifecycles
        &&& self.windows == other.windows
        &&& self.user_amounts == other.user_amounts
    }
}

impl ContractEnv {
    /// An environment with empty storage, running in `ledger`.
    pub fn new(host: Env, ledger: LedgerInfo) -> (e: ContractEnv)
        ensures
            e@.instance == (InstanceStorage { admin: None, paused: None, logging_contract: None }),
            e@.subscriptions == Map::<u64, SubscriptionData>::empty(),
            e@.locks == Map::<RenewalLockKey, RenewalLockData>::empty(),
            e@.approvals == Map::<ApprovalKey, RenewalApproval>::empty(),
            e@.cycles == Map::<CycleKey, u64>::empty(),
            e@.lifecycles == Map::<LifecycleKey, LifecycleTimestamps>::empty(),
            e@.windows == Map::<WindowKey, RenewalWindow>::empty(),
            e@.user_amounts == Map::<UserCapKey, i128>::empty(),
            e@.ledger == ledger,
            e@.events == Seq::<ContractEvent>::empty(),
            e@.auths == Seq::<AccountId>::empty(),
    {
        ContractEnv {
            host,
            instance: InstanceStorage { admin: None, paused: None, logging_contract: None },
            subscriptions: Table::new(),
            locks: Table::new(),
            approvals: Table::new(),
            cycles: Table::new(),
            lifecycles: Table::new(),
            windows: Table::new(),
            user_amounts: Table::new(),
            ledger,
            events: Vec::new(),
            auths: Vec::new(),
        }
    }

    /// Publishes `e`.
    pub fn publish(&mut self, e: ContractEvent)
        ensures
            final(self)@ == old(self)@.publish(e),
            final(self).host == old(self).host,
    {
        self.events.push(e);
    }

    /// Requires the authorization of `a` for the current call.
    pub fn require_auth(&mut self, a: AccountId)
        ensures
            final(self)@ == old(self)@.require_auth(a),
            final(self).host == old(self).host,
    {
        self.auths.push(a);
    }

    /// Sends a log record where a logging contract is configured.
    pub fn record_log(&mut self, sub_id: u64, event_type: u32, message: LogMessage)
        ensures
            final(self)@ == old(self)@.record_log(sub_id, event_type, message),
            final(self).host == old(self).host,
    {
        if self.instance.logging_contract.is_some() {
            self.publish(ContractEvent::Log(LogRecord { sub_id, event_type, message }));
        }
    }
}

} // verus!
