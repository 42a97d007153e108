//! Types exchanged with the remote swap service.

pub mod types;

pub use types::ApiError;
pub use types::AssetPair;
pub use types::BtcToEvmSwapResponse;
pub use types::Chain;
pub use types::ClaimGelatoRequest;
pub use types::CreateVtxoSwapRequest;
pub use types::EstimateVtxoSwapRequest;
pub use types::EstimateVtxoSwapResponse;
pub use types::EvmChain;
pub use types::EvmToBtcSwapResponse;
pub use types::GelatoSubmitRequest;
pub use types::GelatoSubmitResponse;
pub use types::GetSwapResponse;
pub use types::QuoteRequest;
pub use types::RecoverSwapsRequest;
pub use types::RecoverSwapsResponse;
pub use types::RecoveredSwap;
pub use types::SwapCommonFields;
pub use types::SwapDirection;
pub use types::SwapStatus;
pub use types::TokenId;
pub use types::TokenInfo;
pub use types::Version;
pub use types::VtxoSwapResponse;
pub use types::VtxoSwapStatus;
