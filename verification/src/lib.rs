//! Client-side engine for non-custodial cross-chain atomic swaps between a
//! Bitcoin virtual-UTXO settlement layer (Arkade) and EVM-chain tokens.
//!
//! The crate covers deterministic key derivation from a seed phrase, the
//! parameter store connecting derived secrets to on-chain swap state, and the
//! VHTLC (virtual hashed-timelock contract) claim/refund planning logic,
//! including the integrity check that protects against server-supplied
//! parameter tampering. Network transports and storage backends are supplied
//! by the caller; the contracts they must satisfy are stated on the traits in
//! [`storage`].

pub mod api;
pub mod client;
pub mod crypto;
pub mod encoding;
pub mod error;
pub mod hd_wallet;
pub mod storage;
pub mod types;
pub mod vhtlc;
pub mod vtxo_swap;
pub mod wallet;

pub use client::ExtendedSwapStorageData;
pub use error::Error;
pub use error::Result;
pub use hd_wallet::HdWallet;
pub use storage::MemorySwapStorage;
pub use storage::MemoryWalletStorage;
pub use storage::SwapStorage;
pub use storage::WalletStorage;
pub use storage::WalletStorageExt;
pub use types::Network;
pub use types::SwapData;
pub use types::SwapParams;
pub use types::VhtlcAmounts;
pub use wallet::Wallet;
