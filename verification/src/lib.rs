//! A fair, tamper-resistant reward-allocation engine.
//!
//! A finite pool of opaque reward records is handed out one record per
//! request, without replacement, using externally supplied verifiable
//! randomness consumed through a two-phase pull (commit) / settle (reveal)
//! protocol.  Administrative gates (pause, halt), a registry of accepted
//! payment methods, and freshness rules on the randomness commitment guard
//! every mutating operation.

pub mod admin;
pub mod constants;
pub mod errors;
pub mod events;
pub mod helpers;
pub mod laws;
pub mod oracle;
pub mod states;
pub mod user;
