//! A single-node ledger: signed value transfers batched into blocks that are
//! chained by hash and secured by proof-of-work.
//!
//! Every function in this crate is verified against its contract. Calls into
//! the cryptographic and encoding crates go through a small number of
//! functions marked `external_body`, whose contracts are assumed.

pub mod error;
pub mod hexfmt;
pub mod sha;
pub mod canon;
pub mod curve;
pub mod transaction;
pub mod wallet;
pub mod clock;
pub mod block;
pub mod blockchain;
pub mod key_hex;
pub mod signature_hex;
pub mod summary;
