//! Plain data of the subscription-renewal contract: accounts, errors,
//! stored records and storage keys.

use vstd::prelude::*;

verus! {

/// Which kind of Stellar address an account is.
#[derive(Clone, Copy, Debug, PartialEq, Eq, Structural)]
pub enum AddressKind {
    /// An account address (`G...`), identified by an Ed25519 public key.
    Account,
    /// A contract address (`C...`), identified by a contract hash.
    Contract,
}

/// A Stellar address, held as its kind and its 32-byte payload.
#[derive(Clone, Copy, Debug, PartialEq, Eq)]
pub struct AccountId {
    pub kind: AddressKind,
    pub key: [u8; 32],
}

impl AccountId {
    /// Whether two addresses are the same address.
    pub fn same(&self, other: &AccountId) -> (b: bool)
        ensures
            b == (*self == *other),
    {
        if self.kind != other.kind {
            return false;
        }
        let mut i: usize = 0;
        while i < 32
            invariant
                0 <= i <= 32,
                forall|j: int| 0 <= j < i ==> self.key[j] == other.key[j],
            decreases 32 - i,
        {
            if self.key[i] != other.key[i] {
                return false;
            }
            i = i + 1;
        }
        assert(self.key =~= other.key);
        true
    }
}

/// All typed errors returned by the contract.
#[derive(Clone, Copy, Debug, PartialEq, Eq, Structural)]
pub enum ContractError {
    AlreadyInitialized,
    NotInitialized,
    ProtocolPaused,
    RenewalLockActive,
    NoRenewalLock,
    SubscriptionNotFound,
    AlreadyCancelled,
    LifecycleNotFound,
    SubscriptionFailed,
    RenewalLockRequired,
    RenewalLockExpired,
    DuplicateCycle,
    CooldownActive,
    InvalidApproval,
    OutsideRenewalWindow,
    IntegrityViolation,
    SpendingCapExceeded,
    GlobalCapExceeded,
    InvalidWindow,
}

/// The number of an error in the contract's ABI (1 to 19, in declaration order).
pub open spec fn error_code(e: ContractError) -> u32 {
    match e {
        ContractError::AlreadyInitialized => 1,
        ContractError::NotInitialized => 2,
        ContractError::ProtocolPaused => 3,
        ContractError::RenewalLockActive => 4,
        ContractError::NoRenewalLock => 5,
        ContractError::SubscriptionNotFound => 6,
        ContractError::AlreadyCancelled => 7,
        ContractError::LifecycleNotFound => 8,
        ContractError::SubscriptionFailed => 9,
        ContractError::RenewalLockRequired => 10,
        ContractError::RenewalLockExpired => 11,
        ContractError::DuplicateCycle => 12,
        ContractError::CooldownActive => 13,
        ContractError::InvalidApproval => 14,
        ContractError::OutsideRenewalWindow => 15,
        ContractError::IntegrityViolation => 16,
        ContractError::SpendingCapExceeded => 17,
        ContractError::GlobalCapExceeded => 18,
        ContractError::InvalidWindow => 19,
    }
}

impl ContractError {
    /// The number of this error in the contract's ABI.
    pub fn code(&self) -> (c: u32)
        ensures
            c == error_code(*self),
    {
        match self {
            ContractError::AlreadyInitialized => 1,
            ContractError::NotInitialized => 2,
            ContractError::ProtocolPaused => 3,
            ContractError::RenewalLockActive => 4,
            ContractError::NoRenewalLock => 5,
            ContractError::SubscriptionNotFound => 6,
            ContractError::AlreadyCancelled => 7,
            ContractError::LifecycleNotFound => 8,
            ContractError::SubscriptionFailed => 9,
            ContractError::RenewalLockRequired => 10,
            ContractError::RenewalLockExpired => 11,
            ContractError::DuplicateCycle => 12,
            ContractError::CooldownActive => 13,
            ContractError::InvalidApproval => 14,
            ContractError::OutsideRenewalWindow => 15,
            ContractError::IntegrityViolation => 16,
            ContractError::SpendingCapExceeded => 17,
            ContractError::GlobalCapExceeded => 18,
            ContractError::InvalidWindow => 19,
        }
    }
}

/// Data stored for an active renewal lock.
#[derive(Clone, Copy, Debug, PartialEq, Eq, Structural)]
pub struct RenewalLockData {
    pub locked_at: u32,
    pub lock_timeout: u32,
}

/// Renewal approval bound to subscription, amount, and expiration.
#[derive(Clone, Copy, Debug, PartialEq, Eq, Structural)]
pub struct RenewalApproval {
    pub sub_id: u64,
    pub max_spend: i128,
    pub expires_at: u32,
    pub used: bool,
}

/// The current state of a subscription.
#[derive(Clone, Copy, Debug, PartialEq, Eq, Structural)]
pub enum SubscriptionState {
    Active,
    Retrying,
    Failed,
    Cancelled,
}

/// Core subscription data stored on-chain.
#[derive(Clone, Copy, Debug, PartialEq, Eq)]
pub struct SubscriptionData {
    pub owner: AccountId,
    pub merchant: AccountId,
    pub amount: i128,
    pub frequency: u64,
    pub spending_cap: i128,
    pub integrity_hash: [u8; 32],
    pub state: SubscriptionState,
    pub failure_count: u32,
    pub last_attempt_ledger: u32,
}

/// Audit timestamps (Unix seconds) of a subscription's lifecycle events.
#[derive(Clone, Copy, Debug, PartialEq, Eq, Structural)]
pub struct LifecycleTimestamps {
    pub created_at: u64,
    pub activated_at: u64,
    pub last_renewed_at: u64,
    pub canceled_at: u64,
}

/// Billing window for a subscription renewal.
#[derive(Clone, Copy, Debug, PartialEq, Eq, Structural)]
pub struct RenewalWindow {
    pub billing_start: u64,
    pub billing_end: u64,
}

/// The ledger the contract runs in: its sequence number and its close time.
#[derive(Clone, Copy, Debug, PartialEq, Eq, Structural)]
pub struct LedgerInfo {
    pub sequence: u32,
    pub timestamp: u64,
}

/// Storage key for approvals: (sub_id, approval_id).
#[derive(Clone, Copy, Debug, PartialEq, Eq, Structural)]
pub struct ApprovalKey {
    pub sub_id: u64,
    pub approval_id: u64,
}

/// Storage key for cycle-level deduplication per subscription.
#[derive(Clone, Copy, Debug, PartialEq, Eq, Structural)]
pub struct CycleKey {
    pub sub_id: u64,
}

/// Storage key for the renewal processing lock.
#[derive(Clone, Copy, Debug, PartialEq, Eq, Structural)]
pub struct RenewalLockKey {
    pub lock_sub_id: u64,
}

/// Storage key for the lifecycle timestamps of a subscription.
#[derive(Clone, Copy, Debug, PartialEq, Eq, Structural)]
pub struct LifecycleKey {
    pub lifecycle_sub_id: u64,
}

/// Storage key for the renewal window of a subscription.
#[derive(Clone, Copy, Debug, PartialEq, Eq, Structural)]
pub struct WindowKey {
    pub sub_id: u64,
}

/// Storage key for the global spending cap of a user and for what the user has spent.
#[derive(Clone, Copy, Debug, PartialEq, Eq)]
pub enum UserCapKey {
    UserCap(AccountId),
    UserSpent(AccountId),
}

/// Keys whose equality can be decided at run time.
pub trait StorageKey: Copy + Sized {
    fn same_key(&self, other: &Self) -> (b: bool)
        ensures
            b == (*self == *other),
    ;
}

impl StorageKey for u64 {
    fn same_key(&self, other: &u64) -> (b: bool) {
        *self == *other
    }
}

impl StorageKey for ApprovalKey {
    fn same_key(&self, other: &ApprovalKey) -> (b: bool) {
        self.sub_id == other.sub_id && self.approval_id == other.approval_id
    }
}

impl StorageKey for CycleKey {
    fn same_key(&self, other: &CycleKey) -> (b: bool) {
        self.sub_id == other.sub_id
    }
}

impl StorageKey for RenewalLockKey {
    fn same_key(&self, other: &RenewalLockKey) -> (b: bool) {
        self.lock_sub_id == other.lock_sub_id
    }
}

impl StorageKey for LifecycleKey {
    fn same_key(&self, other: &LifecycleKey) -> (b: bool) {
        self.lifecycle_sub_id == other.lifecycle_sub_id
    }
}

impl StorageKey for WindowKey {
    fn same_key(&self, other: &WindowKey) -> (b: bool) {
        self.sub_id == other.sub_id
    }
}

impl StorageKey for UserCapKey {
    fn same_key(&self, other: &UserCapKey) -> (b: bool) {
        match (self, other) {
            (UserCapKey::UserCap(a), UserCapKey::UserCap(b)) => a.same(b),
            (UserCapKey::UserSpent(a), UserCapKey::UserSpent(b)) => a.same(b),
            _ => false,
        }
    }
}

} // verus!
