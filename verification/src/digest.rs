//! The integrity digest of a subscription's terms: SHA-256 of the XDR
//! encoding of (merchant, amount, frequency, spending_cap), computed by the
//! Soroban host.

use vstd::prelude::*;
use soroban_sdk::address_payload::AddressPayload;
use soroban_sdk::xdr::ToXdr;
use soroban_sdk::{Address, Bytes, BytesN, Env};
use crate::types::{AccountId, AddressKind};

verus! {

/// The Soroban environment, used here for its host functions.
#[verifier::external_type_specification]
#[verifier::external_body]
pub struct ExEnv(soroban_sdk::Env);

/// The bytes that `soroban_sdk::xdr::ToXdr::to_xdr` produces for the tuple
/// (merchant address, amount, frequency, spending cap): the ScVal XDR of a
/// vector of these four values.
pub uninterp spec fn subscription_terms_xdr(
    merchant: AccountId,
    amount: i128,
    frequency: u64,
    spending_cap: i128,
) -> Seq<u8>;

/// The SHA-256 digest of `data`, as `soroban_sdk::crypto::Crypto::sha256` computes it.
pub uninterp spec fn sha256_digest(data: Seq<u8>) -> Seq<u8>;

/// The integrity digest of a subscription's terms.
pub open spec fn integrity_digest(
    merchant: AccountId,
    amount: i128,
    frequency: u64,
    spending_cap: i128,
) -> Seq<u8> {
    sha256_digest(subscription_terms_xdr(merchant, amount, frequency, spending_cap))
}

/// Calls `ToXdr::to_xdr` on (merchant, amount, frequency, spending_cap), the
/// merchant turned into a `soroban_sdk::Address` by `Address::from_payload`.
/// Claimed: the bytes depend on these four values alone (they are named
/// `subscription_terms_xdr`). Nothing more is stated of them.
#[verifier::external_body]
fn encode_subscription_terms(
    host: &Env,
    merchant: &AccountId,
    amount: i128,
    frequency: u64,
    spending_cap: i128,
) -> (r: Vec<u8>)
    ensures
        r@ == subscription_terms_xdr(*merchant, amount, frequency, spending_cap),
{
    let key = BytesN::from_array(host, &merchant.key);
    let payload = match merchant.kind {
        AddressKind::Account => AddressPayload::AccountIdPublicKeyEd25519(key),
        AddressKind::Contract => AddressPayload::ContractIdHash(key),
    };
    let address = Address::from_payload(host, payload);
    (address, amount, frequency, spending_cap).to_xdr(host).iter().collect()
}

/// Calls `Crypto::sha256` of the host on `data`. Claimed: the 32 bytes
/// depend on `data` alone (they are named `sha256_digest`).
#[verifier::external_body]
fn sha256(host: &Env, data: &Vec<u8>) -> (r: [u8; 32])
    ensures
        r@ == sha256_digest(data@),
{
    host.crypto().sha256(&Bytes::from_slice(host, data.as_slice())).to_array()
}

/// The integrity digest of the given subscription terms.
pub fn integrity_hash(
    host: &Env,
    merchant: &AccountId,
    amount: i128,
    frequency: u64,
    spending_cap: i128,
) -> (h: [u8; 32])
    ensures
        h@ == integrity_digest(*merchant, amount, frequency, spending_cap),
{
    let encoded = encode_subscription_terms(host, merchant, amount, frequency, spending_cap);
    sha256(host, &encoded)
}

/// Whether two digests are the same bytes.
pub fn same_digest(a: &[u8; 32], b: &[u8; 32]) -> (r: bool)
    ensures
        r == (a@ == b@),
{
    let mut i: usize = 0;
    while i < 32
        invariant
            0 <= i <= 32,
            forall|j: int| 0 <= j < i ==> a[j] == b[j],
        decreases 32 - i,
    {
        if a[i] != b[i] {
            assert(a@[i as int] != b@[i as int]);
            return false;
        }
        i = i + 1;
    }
    assert(a@ =~= b@);
    true
}

} // verus!
