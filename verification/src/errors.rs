//! Error definitions: every failure an operation can report.
//!
//! Every operation is all-or-nothing: an error means no state was changed.

use vstd::prelude::*;

verus! {

/// Tagged errors returned by the pool's operations.
#[derive(Clone, Copy, Debug, PartialEq, Eq, Structural)]
pub enum GachaError {
    /// The pool is out of keys: the remaining set is empty.
    GachaIsEmpty,
    /// This pull request has already been settled.
    AlreadySettled,
    /// No keys were added to the pool before finalizing.
    NoKeysInPool,
    /// Cannot add an empty key.
    EmptyKeyProvided,
    /// The pool has not been finalized by the admin yet.
    GachaNotFinalized,
    /// The pool has already been finalized and cannot be modified.
    GachaAlreadyFinalized,
    /// Not enough keys available for more pulls.
    NotEnoughKeys,
    /// The randomness account is invalid or owned by the wrong program.
    InvalidSwitchboardAccount,
    /// Randomness has not been resolved by the oracle yet.
    RandomnessNotResolved,
    /// The randomness commitment is for a past slot and is no longer valid
    /// for a new pull.
    RandomnessNotCurrent,
    /// The commitment slot of the presented randomness differs from the one
    /// captured at pull time.
    RandomnessExpired,
    /// Cannot settle in the same slot as the pull.
    SlotNotPassed,
    /// The pool is currently paused by the admin: no further pulls.
    GachaPaused,
    /// The pool is currently halted by the admin: no further settles.
    GachaHalted,
    /// The key pool, or the payment-configuration table, is at capacity.
    KeyPoolFull,
    /// A key longer than the fixed maximum length was provided.
    KeyTooLong,
    /// The selected key index was out of bounds.  An internal invariant
    /// violation: unreachable from any well-formed pool.
    IndexOutOfBounds,
    /// The randomness value from the oracle was malformed.
    InvalidRandomnessValue,
    /// The randomness account data could not be parsed.
    InvalidRandomnessAccount,
    /// The payment method is not configured for this pool, or a duplicate
    /// configuration was offered.
    InvalidPaymentConfig,
    /// An account, or the caller, has the wrong owner.
    IncorrectOwner,
    /// Mismatched accounts were presented.
    AccountMismatch,
    /// The paying account's balance is below the configured price.
    InsufficientFunds,
    /// The presented mint account differs from the configured one.
    MintMismatch,
    /// A token payment was requested but no token program was supplied.
    TokenProgramMissing,
    /// Not every pull has been settled yet: the decryption key stays held.
    GachaNotComplete,
    /// A stored key did not decode as UTF-8 text.
    InvalidUtf8String,
}

} // verus!
