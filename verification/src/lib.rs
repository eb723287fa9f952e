//! A subscription-renewal contract: subscriptions, renewal approvals, renewal
//! locks, retry policy, spending caps and lifecycle timestamps, run against a
//! model of the contract's storage, ledger, events and authorizations.

pub mod call_laws;
pub mod contract;
pub mod digest;
pub mod events;
pub mod laws;
pub mod spec;
pub mod state;
pub mod table;
pub mod types;

pub use contract::SubscriptionRenewalContract;
pub use events::{
    ApprovalCreated, ApprovalRejected, ContractEvent, DuplicateRenewalRejected,
    GlobalCapViolated, IntegrityViolationEvent, LifecycleTimestampUpdated, LogMessage, LogRecord,
    PauseToggled, RenewalFailed, RenewalLockAcquired, RenewalLockExpiredEvent,
    RenewalLockReleased, RenewalSuccess, SpendingCapViolated, StateTransition, UserCapUpdated,
    WindowUpdated,
};
pub use state::{ContractEnv, InstanceStorage};
pub use types::{
    AccountId, AddressKind, ApprovalKey, ContractError, CycleKey, LedgerInfo, LifecycleKey,
    LifecycleTimestamps, RenewalApproval, RenewalLockData, RenewalLockKey, RenewalWindow,
    SubscriptionData, SubscriptionState, UserCapKey, WindowKey,
};
