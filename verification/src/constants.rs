//! Program-wide constants and configuration values.

use vstd::prelude::*;

verus! {

/// Maximum number of reward keys that one pool may hold.
pub const MAX_KEYS: usize = 500;

/// Maximum allowed distance, in slots, between the randomness commitment
/// slot and the slot at which a pull runs.  Rejects stale commitments whose
/// outcome could already have been computed off-line.
pub const MAX_SLOT_DIFFERENCE: u64 = 20;

/// Maximum length, in bytes, of one encrypted reward key and of the
/// released decryption key.
pub const KEY_LEN: usize = 120;

/// Capacity of a pool's payment-configuration table.
pub const MAX_PAYMENT_CONFIGS: usize = 16;

} // verus!
