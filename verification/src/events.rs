//! Events the contract publishes.

use vstd::prelude::*;
use crate::types::{AccountId, SubscriptionState};

verus! {

#[derive(Clone, Copy, Debug, PartialEq, Eq)]
pub struct RenewalSuccess {
    pub sub_id: u64,
    pub owner: AccountId,
}

#[derive(Clone, Copy, Debug, PartialEq, Eq, Structural)]
pub struct RenewalFailed {
    pub sub_id: u64,
    pub failure_count: u32,
    pub ledger: u32,
}

#[derive(Clone, Copy, Debug, PartialEq, Eq, Structural)]
pub struct StateTransition {
    pub sub_id: u64,
    pub new_state: SubscriptionState,
}

#[derive(Clone, Copy, Debug, PartialEq, Eq, Structural)]
pub struct PauseToggled {
    pub paused: bool,
}

#[derive(Clone, Copy, Debug, PartialEq, Eq, Structural)]
pub struct ApprovalCreated {
    pub sub_id: u64,
    pub approval_id: u64,
    pub max_spend: i128,
    pub expires_at: u32,
}

/// `reason`: 1 = expired, 2 = used, 3 = amount exceeded, 4 = not found.
#[derive(Clone, Copy, Debug, PartialEq, Eq, Structural)]
pub struct ApprovalRejected {
    pub sub_id: u64,
    pub approval_id: u64,
    pub reason: u32,
}

#[derive(Clone, Copy, Debug, PartialEq, Eq, Structural)]
pub struct DuplicateRenewalRejected {
    pub sub_id: u64,
    pub cycle_id: u64,
}

#[derive(Clone, Copy, Debug, PartialEq, Eq, Structural)]
pub struct IntegrityViolationEvent {
    pub sub_id: u64,
}

#[derive(Clone, Copy, Debug, PartialEq, Eq, Structural)]
pub struct RenewalLockAcquired {
    pub sub_id: u64,
    pub locked_at: u32,
    pub lock_timeout: u32,
}

#[derive(Clone, Copy, Debug, PartialEq, Eq, Structural)]
pub struct RenewalLockReleased {
    pub sub_id: u64,
    pub released_at: u32,
}

#[derive(Clone, Copy, Debug, PartialEq, Eq, Structural)]
pub struct RenewalLockExpiredEvent {
    pub sub_id: u64,
    pub original_locked_at: u32,
    pub expired_at: u32,
}

/// `event_kind`: 1 = created, 2 = activated, 3 = renewed, 4 = canceled.
#[derive(Clone, Copy, Debug, PartialEq, Eq, Structural)]
pub struct LifecycleTimestampUpdated {
    pub sub_id: u64,
    pub event_kind: u32,
    pub timestamp: u64,
}

#[derive(Clone, Copy, Debug, PartialEq, Eq, Structural)]
pub struct WindowUpdated {
    pub sub_id: u64,
    pub billing_start: u64,
    pub billing_end: u64,
}

#[derive(Clone, Copy, Debug, PartialEq, Eq, Structural)]
pub struct SpendingCapViolated {
    pub sub_id: u64,
    pub amount: i128,
    pub cap: i128,
}

#[derive(Clone, Copy, Debug, PartialEq, Eq)]
pub struct GlobalCapViolated {
    pub owner: AccountId,
    pub amount: i128,
    pub cap: i128,
}

#[derive(Clone, Copy, Debug, PartialEq, Eq)]
pub struct UserCapUpdated {
    pub user: AccountId,
    pub cap: i128,
}

/// The messages of the log records sent when a logging contract is configured.
#[derive(Clone, Copy, Debug, PartialEq, Eq, Structural)]
pub enum LogMessage {
    SubscriptionInitialized,
    SubscriptionCancelled,
    RenewalSuccessful,
    RenewalFailedMaxRetries,
    RenewalFailedScheduledForRetry,
}

/// The text of a log message.
pub open spec fn log_text(m: LogMessage) -> Seq<char> {
    match m {
        LogMessage::SubscriptionInitialized => "Subscription initialized"@,
        LogMessage::SubscriptionCancelled => "Subscription cancelled"@,
        LogMessage::RenewalSuccessful => "Renewal successful"@,
        LogMessage::RenewalFailedMaxRetries => "Renewal failed - max retries exceeded"@,
        LogMessage::RenewalFailedScheduledForRetry => "Renewal failed - scheduled for retry"@,
    }
}

impl LogMessage {
    /// The text of the message.
    pub fn text(&self) -> (t: &'static str)
        ensures
            t@ == log_text(*self),
    {
        match self {
            LogMessage::SubscriptionInitialized => "Subscription initialized",
            LogMessage::SubscriptionCancelled => "Subscription cancelled",
            LogMessage::RenewalSuccessful => "Renewal successful",
            LogMessage::RenewalFailedMaxRetries => "Renewal failed - max retries exceeded",
            LogMessage::RenewalFailedScheduledForRetry => "Renewal failed - scheduled for retry",
        }
    }
}

/// A log record, published under the topics ("log", sub_id).
#[derive(Clone, Copy, Debug, PartialEq, Eq, Structural)]
pub struct LogRecord {
    pub sub_id: u64,
    pub event_type: u32,
    pub message: LogMessage,
}

/// Any event the contract publishes.
#[derive(Clone, Copy, Debug, PartialEq, Eq)]
pub enum ContractEvent {
    RenewalSuccess(RenewalSuccess),
    RenewalFailed(RenewalFailed),
    StateTransition(StateTransition),
    PauseToggled(PauseToggled),
    ApprovalCreated(ApprovalCreated),
    ApprovalRejected(ApprovalRejected),
    DuplicateRenewalRejected(DuplicateRenewalRejected),
    IntegrityViolation(IntegrityViolationEvent),
    RenewalLockAcquired(RenewalLockAcquired),
    RenewalLockReleased(RenewalLockReleased),
    RenewalLockExpired(RenewalLockExpiredEvent),
    LifecycleTimestampUpdated(LifecycleTimestampUpdated),
    WindowUpdated(WindowUpdated),
    SpendingCapViolated(SpendingCapViolated),
    GlobalCapViolated(GlobalCapViolated),
    UserCapUpdated(UserCapUpdated),
    Log(LogRecord),
}

} // verus!
