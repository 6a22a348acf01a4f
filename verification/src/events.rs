//! Audit records: every mutating operation returns one on success, naming
//! the actor, the affected pool and the operation-specific payload, so that
//! the surrounding host can publish it.

use vstd::prelude::*;

use crate::states::AccountId;

verus! {

/// A new pool was created.
#[derive(Clone, Debug, PartialEq, Eq)]
pub struct GachaInitialized {
    pub admin: AccountId,
    pub gacha_state: AccountId,
}

/// A key was added to the pool.
#[derive(Clone, Debug, PartialEq, Eq)]
pub struct KeyAdded {
    pub admin: AccountId,
    pub key: Vec<u8>,
    pub total_keys: u16,
    pub gacha_state: AccountId,
}

/// The pool was finalized.
#[derive(Clone, Debug, PartialEq, Eq)]
pub struct GachaFinalized {
    pub admin: AccountId,
    pub total_keys: u16,
    pub gacha_state: AccountId,
}

/// The pool was paused or unpaused.
#[derive(Clone, Debug, PartialEq, Eq)]
pub struct GachaPaused {
    pub admin: AccountId,
    pub paused: bool,
    pub gacha_state: AccountId,
}

/// The pool was halted or unhalted.
#[derive(Clone, Debug, PartialEq, Eq)]
pub struct GachaHalted {
    pub admin: AccountId,
    pub halted: bool,
    pub gacha_state: AccountId,
}

/// Administration of the pool was transferred.
#[derive(Clone, Debug, PartialEq, Eq)]
pub struct AdminTransferred {
    pub previous_admin: AccountId,
    pub new_admin: AccountId,
    pub gacha_state: AccountId,
}

/// A payment configuration was added.
#[derive(Clone, Debug, PartialEq, Eq)]
pub struct PaymentConfigAdded {
    pub admin: AccountId,
    pub payment_mint: AccountId,
    pub payment_price: u64,
    pub payment_recipient_account: AccountId,
    pub gacha_state: AccountId,
}

/// A payment configuration was removed.
#[derive(Clone, Debug, PartialEq, Eq)]
pub struct PaymentConfigRemoved {
    pub admin: AccountId,
    pub payment_mint: AccountId,
    pub gacha_state: AccountId,
}

/// A requester performed a pull.
#[derive(Clone, Debug, PartialEq, Eq)]
pub struct GachaPulled {
    pub user: AccountId,
    pub nonce: u64,
    pub payment_mint: AccountId,
    pub price: u64,
    pub gacha_state: AccountId,
}

/// A pull was settled with a drawn reward.
#[derive(Clone, Debug, PartialEq, Eq)]
pub struct GachaResult {
    pub user: AccountId,
    pub key_index: u16,
    pub encrypted_key: Vec<u8>,
    pub gacha_state: AccountId,
}

/// The decryption key was released after full settlement.
#[derive(Clone, Debug, PartialEq, Eq)]
pub struct DecryptionKeyReleased {
    pub admin: AccountId,
    pub decryption_key: Vec<u8>,
    pub gacha_state: AccountId,
}

} // verus!
