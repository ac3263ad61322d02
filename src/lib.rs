//! An escrow for hash-timelocked atomic swaps of fungible tokens.
//!
//! A funder locks tokens in a vault shared by all swaps of one token type.
//! The redeemer claims them by revealing the pre-image of a committed hash;
//! otherwise the refundee takes them back after expiry, or earlier with the
//! redeemer's consent. Each swap is one record at a derived address; the
//! record exists exactly while its funds are locked.
//!
//! - `address`: addresses and fixed-width seed encodings.
//! - `derivation`: derived addresses and the secret hash.
//! - `state`: the swap record and the store of records.
//! - `events`: errors, token transfer orders and audit events.
//! - `instructions`: the four operations and their exact outcomes.
//! - `laws`: what holds across operations.
pub mod address;
pub mod derivation;
pub mod state;
pub mod events;
pub mod instructions;
pub mod laws;
