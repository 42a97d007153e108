//! Error taxonomy of the swap engine.
//!
//! Configuration and validation failures (`InvalidMnemonic`, `Parse`,
//! `KeyDerivation`, `Bitcoin`) are local and never retried. `Vhtlc` covers
//! both the integrity failure raised when a reconstructed locking address
//! does not match the stored one and the "no spendable coins" condition.
//! `Network` and `Arkade` carry remote failures verbatim for the caller to
//! retry under its own policy.

use vstd::prelude::*;

verus! {

/// Errors surfaced by the swap engine.
#[derive(Debug, Clone)]
pub enum Error {
    /// No mnemonic found in storage.
    NoMnemonic,
    /// Invalid mnemonic phrase.
    InvalidMnemonic(String),
    /// Swap not found in storage.
    SwapNotFound(String),
    /// Storage operation failed.
    Storage(String),
    /// Parse error.
    Parse(String),
    /// Serialization or deserialization failed.
    Serde(String),
    /// Bitcoin-related error.
    Bitcoin(String),
    /// Key derivation error.
    KeyDerivation(String),
    /// VHTLC operation error.
    Vhtlc(String),
    /// Network/HTTP error.
    Network(String),
    /// Arkade settlement-network error.
    Arkade(String),
    /// Generic error with context.
    Other(String),
}

/// Result type alias using the engine's [`Error`] type.
pub type Result<T> = core::result::Result<T, Error>;

} // verus!
