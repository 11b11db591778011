//! Fixed quantities of the protocol.

use vstd::prelude::*;

verus! {

/// A creator offers three kinds of reward: common, uncommon and rare.
pub const NFT_RANKING: usize = 3;

/// Bytes of storage that one account identifier takes.
pub const ACCOUNT_ID_STORAGE_COST: u64 = 8;

/// Bytes of storage that one registration takes: two account identifiers
/// and a kilobyte of reward descriptions.
pub const CREATOR_REGISTRY_STORAGE_COST: u64 = 1_016;

/// Gas units set aside for one fungible-token transfer.
pub const GAS_FOR_FT_TRANSFER: u64 = 20_000_000_000_000;

/// The deposit, in the smallest unit of the native token, that must come
/// with a pledge: a hundredth of a whole token.
pub const MIN_PLEDGE_DEPOSIT: u128 = 10_000_000_000_000_000_000_000;

/// The deposit that goes with the outbound transfer of a settlement.
pub const FT_TRANSFER_DEPOSIT: u128 = 1;

/// Reads the constant `near_sdk::env::STORAGE_PRICE_PER_BYTE`. Trusted: the
/// contract gives the value that near-sdk declares for it, ten to the
/// nineteenth of the smallest unit of the native token.
#[verifier::external_body]
fn storage_price_per_byte() -> (price: u128)
    ensures
        price == 10_000_000_000_000_000_000u128,
{
    near_sdk::env::STORAGE_PRICE_PER_BYTE
}

/// What the storage of a registration costs, as an abstract number.
pub open spec fn registration_deposit() -> nat {
    10_160_000_000_000_000_000_000nat
}

/// The deposit that a creator attaches to cover the storage of a
/// registration: its size in bytes times the price of a byte.
pub fn creator_registry_deposit() -> (deposit: u128)
    ensures
        deposit == registration_deposit(),
{
    let bytes: u128 = CREATOR_REGISTRY_STORAGE_COST as u128;
    bytes * storage_price_per_byte()
}

} // verus!
