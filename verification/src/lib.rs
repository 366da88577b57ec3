//! A single-ledger token accounting library.
//!
//! The crate models a fungible-token contract: a balance ledger with a
//! conservation invariant, storage-cost accounting for account registration,
//! owner-gated feature toggles (mint, freeze, metadata update), a per-account
//! freeze registry, and a two-phase transfer-with-callback protocol whose
//! resolution step reconciles how much of a transfer the remote receiver
//! actually used, refunding the remainder or burning it when the sender
//! account has vanished.
//!
//! The host that carries the calls (caller identity, attached deposits,
//! storage measurement, asynchronous dispatch and callback delivery) is out
//! of scope: every entry point takes those facts as plain arguments, and the
//! surrounding process drives the asynchronous leg.

pub mod access;
pub mod contract;
pub mod errors;
pub mod events;
pub mod freeze;
pub mod laws;
pub mod ledger;
pub mod metadata;
pub mod storage;

pub use contract::Config;
pub use contract::Contract;
pub use contract::PendingTransfer;
pub use errors::ErrorClass;
pub use errors::Feature;
pub use errors::TokenError;
pub use events::Event;
pub use events::LogData;
pub use ledger::Ledger;
pub use metadata::TokenMetadata;
