//! Key custody and transaction signing for the Flow blockchain.
//!
//! The crate generates and protects P-256 signing keys, builds transactions,
//! encodes the byte-exact envelope that is signed, and decides how a
//! submitted transaction is followed until it is final. It reads no file and
//! talks to no network: the program around it does, and hands it plain
//! values.
//!
//! - `key`: signing keys, encrypted records and the vault that holds them.
//! - `flow`: transactions, their builder, the envelope and its signature.
//! - `submission`: what to do with each answer while waiting for a seal.
//! - `wire`, `hexfmt`, `crypto`, `text`: encodings and primitives, with the
//!   calls into the crates that implement them.
//! - `cadence`, `mint`: the arguments and the transaction of a mint.
//! - `config`, `profile`, `storage`, `utils`, `doctor`: the decisions of the
//!   commands around the core.

pub mod cadence;
pub mod config;
pub mod crypto;
pub mod doctor;
pub mod errors;
pub mod flow;
pub mod hexfmt;
pub mod key;
pub mod mint;
pub mod profile;
pub mod storage;
pub mod submission;
pub mod text;
pub mod utils;
pub mod wire;

pub use errors::{MtmfError, Result};
