//! Data model of the remote swap service's requests and responses.
//!
//! Amounts are integers in the smallest unit; identifiers and timestamps are
//! plain strings and Unix seconds. Serialization to the wire format lives
//! with the caller; the engine only reads these values.

use vstd::prelude::*;

verus! {

/// Token identifier for supported assets.
#[derive(Debug, Clone, PartialEq, Eq)]
pub enum TokenId {
    /// Bitcoin over Lightning.
    BtcLightning,
    /// Bitcoin on the Arkade settlement network.
    BtcArkade,
    /// Dynamic coin identifier for EVM tokens.
    Coin(String),
}

impl TokenId {
    /// The string form of a token identifier.
    pub open spec fn spec_as_str(&self) -> Seq<char> {
        match self {
            TokenId::BtcLightning => "btc_lightning"@,
            TokenId::BtcArkade => "btc_arkade"@,
            TokenId::Coin(s) => s@,
        }
    }

    /// Get the string representation of the token ID.
    pub fn as_str(&self) -> (r: &str)
        ensures
            r@ == self.spec_as_str(),
    {
        match self {
            TokenId::BtcLightning => "btc_lightning",
            TokenId::BtcArkade => "btc_arkade",
            TokenId::Coin(s) => s.as_str(),
        }
    }
}

/// Blockchain network a token lives on.
#[derive(Debug, Clone, Copy, PartialEq, Eq, Structural)]
pub enum Chain {
    /// The Arkade settlement network.
    Arkade,
    /// The Lightning network.
    Lightning,
    /// Polygon.
    Polygon,
    /// Ethereum.
    Ethereum,
}

/// Token information.
#[derive(Debug, Clone, PartialEq, Eq)]
pub struct TokenInfo {
    /// Token identifier.
    pub token_id: TokenId,
    /// Ticker symbol.
    pub symbol: String,
    /// Chain the token lives on.
    pub chain: Chain,
    /// Human-readable name.
    pub name: String,
    /// Number of decimals of the smallest unit.
    pub decimals: u8,
}

/// Asset pair for trading.
#[derive(Debug, Clone, PartialEq, Eq)]
pub struct AssetPair {
    /// Source token.
    pub source: TokenInfo,
    /// Target token.
    pub target: TokenInfo,
}

/// Status of a directional (BTC to EVM or EVM to BTC) swap.
///
/// The remote counterpart owns and drives this state machine; the client is a
/// passive observer except when it itself executes a claim or refund.
/// [`SwapStatus::is_invariant_violation`] flags the two states a correct
/// implementation must never reach; [`SwapStatus::valid_transition`] encodes
/// the designed transitions.
#[derive(Debug, Clone, Copy, PartialEq, Eq, Structural)]
pub enum SwapStatus {
    /// Created, waiting for the client to fund the BTC leg.
    Pending,
    /// The client has funded the BTC leg.
    ClientFunded,
    /// The client funded and then refunded before the service locked the EVM
    /// side. Terminal.
    ClientRefunded,
    /// The service has locked the EVM-side HTLC with the client's hash lock.
    ServerFunded,
    /// The client is claiming the EVM side by revealing the preimage; the
    /// secret is public but the claim is not yet confirmed.
    ClientRedeeming,
    /// The client has claimed the EVM side; the preimage is public.
    ClientRedeemed,
    /// The service claimed the BTC leg using the revealed preimage.
    /// Terminal; the swap succeeded.
    ServerRedeemed,
    /// The EVM-side HTLC timed out and the service refunded it; the client
    /// keeps its BTC. Terminal.
    ClientFundedServerRefunded,
    /// The client refunded the BTC leg while the service's EVM-side HTLC was
    /// still live. A locktime-ordering bug that permits theft: this state
    /// must never be reached and is to be alerted on, never silently
    /// handled.
    ClientRefundedServerFunded,
    /// Both sides refunded after recovering from
    /// [`SwapStatus::ClientRefundedServerFunded`]. Terminal.
    ClientRefundedServerRefunded,
    /// Never funded; timed out while pending. Terminal.
    Expired,
    /// Funded with wrong parameters (amount, address); only the client
    /// funded and must refund.
    ClientInvalidFunded,
    /// Funded after the payment-channel invoice expired; the client must
    /// refund.
    ClientFundedTooLate,
    /// The client both redeemed and refunded: it obtained both sides of the
    /// value. Always a bug or an attack, never a designed transition.
    ClientRedeemedAndClientRefunded,
}

impl SwapStatus {
    /// The two states a correct implementation must never reach. They are
    /// represented so that operators can alert on them, distinctly from the
    /// healthy states.
    pub open spec fn spec_is_invariant_violation(self) -> bool {
        self is ClientRefundedServerFunded || self is ClientRedeemedAndClientRefunded
    }

    /// See [`SwapStatus::spec_is_invariant_violation`].
    pub fn is_invariant_violation(&self) -> (r: bool)
        ensures
            r == self.spec_is_invariant_violation(),
    {
        match self {
            SwapStatus::ClientRefundedServerFunded => true,
            SwapStatus::ClientRedeemedAndClientRefunded => true,
            _ => false,
        }
    }

    /// States from which no designed transition leaves.
    pub open spec fn spec_is_terminal(self) -> bool {
        ||| self is ClientRefunded
        ||| self is ServerRedeemed
        ||| self is ClientFundedServerRefunded
        ||| self is ClientRefundedServerRefunded
        ||| self is Expired
        ||| self is ClientRedeemedAndClientRefunded
    }

    /// See [`SwapStatus::spec_is_terminal`].
    pub fn is_terminal(&self) -> (r: bool)
        ensures
            r == self.spec_is_terminal(),
    {
        match self {
            SwapStatus::ClientRefunded => true,
            SwapStatus::ServerRedeemed => true,
            SwapStatus::ClientFundedServerRefunded => true,
            SwapStatus::ClientRefundedServerRefunded => true,
            SwapStatus::Expired => true,
            SwapStatus::ClientRedeemedAndClientRefunded => true,
            _ => false,
        }
    }

    /// The designed transitions of the directional swap state machine. The
    /// recovery edge out of the invariant-violation state
    /// `ClientRefundedServerFunded` is included; no designed edge enters it,
    /// and none touches `ClientRedeemedAndClientRefunded` at all.
    pub open spec fn spec_valid_transition(self, to: SwapStatus) -> bool {
        match self {
            SwapStatus::Pending => to is ClientFunded || to is Expired,
            SwapStatus::ClientFunded => to is ServerFunded || to is ClientRefunded
                || to is ClientInvalidFunded || to is ClientFundedTooLate,
            SwapStatus::ClientInvalidFunded => to is ClientRefunded,
            SwapStatus::ClientFundedTooLate => to is ClientRefunded,
            SwapStatus::ServerFunded => to is ClientRedeeming || to is ClientFundedServerRefunded,
            SwapStatus::ClientRedeeming => to is ClientRedeemed,
            SwapStatus::ClientRedeemed => to is ServerRedeemed,
            SwapStatus::ClientRefundedServerFunded => to is ClientRefundedServerRefunded,
            _ => false,
        }
    }

    /// See [`SwapStatus::spec_valid_transition`].
    pub fn valid_transition(&self, to: &SwapStatus) -> (r: bool)
        ensures
            r == self.spec_valid_transition(*to),
    {
        match self {
            SwapStatus::Pending => matches!(to, SwapStatus::ClientFunded | SwapStatus::Expired),
            SwapStatus::ClientFunded => matches!(
                to,
                SwapStatus::ServerFunded | SwapStatus::ClientRefunded
                    | SwapStatus::ClientInvalidFunded | SwapStatus::ClientFundedTooLate,
            ),
            SwapStatus::ClientInvalidFunded => matches!(to, SwapStatus::ClientRefunded),
            SwapStatus::ClientFundedTooLate => matches!(to, SwapStatus::ClientRefunded),
            SwapStatus::ServerFunded => matches!(
                to,
                SwapStatus::ClientRedeeming | SwapStatus::ClientFundedServerRefunded,
            ),
            SwapStatus::ClientRedeeming => matches!(to, SwapStatus::ClientRedeemed),
            SwapStatus::ClientRedeemed => matches!(to, SwapStatus::ServerRedeemed),
            SwapStatus::ClientRefundedServerFunded => matches!(
                to,
                SwapStatus::ClientRefundedServerRefunded,
            ),
            _ => false,
        }
    }
}

/// No designed transition leaves a terminal state, and no designed
/// transition enters an invariant-violation state.
pub proof fn lemma_status_machine_shape(from: SwapStatus, to: SwapStatus)
    ensures
        from.spec_is_terminal() ==> !from.spec_valid_transition(to),
        from.spec_valid_transition(to) ==> !to.spec_is_invariant_violation(),
{
}

/// Common fields shared across all swap directions.
#[derive(Debug, Clone, PartialEq, Eq)]
pub struct SwapCommonFields {
    /// Unique swap identifier.
    pub id: String,
    /// Current status of the swap.
    pub status: SwapStatus,
    /// Hash lock for the HTLC (32-byte hex string with 0x prefix).
    pub hash_lock: String,
    /// Protocol fee amount in satoshis.
    pub fee_sats: i64,
    /// Client's public key (refund or claim key), hex-encoded.
    pub sender_pk: String,
    /// The swap service's public key, hex-encoded.
    pub receiver_pk: String,
    /// The settlement-network server's public key, hex-encoded.
    pub server_pk: String,
    /// Timestamp past which refund is permitted.
    pub refund_locktime: u32,
    /// Relative timelock for claim, in seconds.
    pub unilateral_claim_delay: i64,
    /// Relative timelock for refund, in seconds.
    pub unilateral_refund_delay: i64,
    /// Relative timelock for refund without receiver, in seconds.
    pub unilateral_refund_without_receiver_delay: i64,
    /// Bitcoin network name (e.g. "signet", "mainnet").
    pub network: String,
    /// When the swap was created (RFC 3339 timestamp, kept opaque).
    pub created_at: String,
}

/// BTC to EVM swap response.
#[derive(Debug, Clone, PartialEq, Eq)]
pub struct BtcToEvmSwapResponse {
    /// Fields shared across directions.
    pub common: SwapCommonFields,
    /// EVM HTLC contract address.
    pub htlc_address_evm: String,
    /// Arkade VHTLC address.
    pub htlc_address_arkade: String,
    /// User's EVM address to receive tokens.
    pub user_address_evm: String,
    /// Lightning invoice for payment.
    pub ln_invoice: String,
    /// The amount of satoshis the service expects to receive.
    pub sats_receive: i64,
    /// Token being sent (source).
    pub source_token: TokenId,
    /// Token being received (target).
    pub target_token: TokenId,
    /// Bitcoin HTLC claim transaction ID.
    pub bitcoin_htlc_claim_txid: Option<String>,
    /// Bitcoin HTLC fund transaction ID.
    pub bitcoin_htlc_fund_txid: Option<String>,
    /// EVM HTLC claim transaction ID.
    pub evm_htlc_claim_txid: Option<String>,
    /// EVM HTLC fund transaction ID.
    pub evm_htlc_fund_txid: Option<String>,
}

/// EVM to BTC swap response.
#[derive(Debug, Clone, PartialEq, Eq)]
pub struct EvmToBtcSwapResponse {
    /// Fields shared across directions.
    pub common: SwapCommonFields,
    /// EVM HTLC contract address.
    pub htlc_address_evm: String,
    /// Arkade VHTLC address.
    pub htlc_address_arkade: String,
    /// User's EVM address sending tokens.
    pub user_address_evm: String,
    /// User's Arkade address to receive BTC, when one was provided.
    pub user_address_arkade: Option<String>,
    /// Lightning invoice for payment.
    pub ln_invoice: String,
    /// Token being sent (source).
    pub source_token: TokenId,
    /// Token being received (target).
    pub target_token: TokenId,
    /// Net satoshis the user will receive.
    pub sats_receive: i64,
    /// Bitcoin HTLC fund transaction ID.
    pub bitcoin_htlc_fund_txid: Option<String>,
    /// Bitcoin HTLC claim transaction ID.
    pub bitcoin_htlc_claim_txid: Option<String>,
    /// EVM HTLC claim transaction ID.
    pub evm_htlc_claim_txid: Option<String>,
    /// EVM HTLC fund transaction ID.
    pub evm_htlc_fund_txid: Option<String>,
    /// Create-swap transaction hash.
    pub create_swap_tx: Option<String>,
    /// Token approval transaction hash.
    pub approve_tx: Option<String>,
    /// Relay forwarder contract address.
    pub gelato_forwarder_address: Option<String>,
    /// Relay user nonce for replay protection.
    pub gelato_user_nonce: Option<String>,
    /// Relay user deadline timestamp.
    pub gelato_user_deadline: Option<String>,
    /// ERC20 token address the approval targets.
    pub source_token_address: String,
}

/// Swap direction discriminator.
#[derive(Debug, Clone, Copy, PartialEq, Eq, Structural)]
pub enum SwapDirection {
    /// BTC settles first, EVM side pays out.
    BtcToEvm,
    /// EVM side pays in, BTC pays out.
    EvmToBtc,
}

/// Tagged union of the swap responses.
#[derive(Debug, Clone, PartialEq, Eq)]
pub enum GetSwapResponse {
    /// A BTC to EVM swap.
    BtcToEvm(BtcToEvmSwapResponse),
    /// An EVM to BTC swap.
    EvmToBtc(EvmToBtcSwapResponse),
}

impl GetSwapResponse {
    /// The common fields regardless of direction.
    pub open spec fn spec_common(&self) -> SwapCommonFields {
        match self {
            GetSwapResponse::BtcToEvm(r) => r.common,
            GetSwapResponse::EvmToBtc(r) => r.common,
        }
    }

    /// Get the common fields regardless of swap direction.
    pub fn common(&self) -> (r: &SwapCommonFields)
        ensures
            *r == self.spec_common(),
    {
        match self {
            GetSwapResponse::BtcToEvm(r) => &r.common,
            GetSwapResponse::EvmToBtc(r) => &r.common,
        }
    }

    /// Get the swap ID.
    pub fn id(&self) -> (r: String)
        ensures
            r@ == self.spec_common().id@,
    {
        self.common().id.clone()
    }

    /// Get the swap status.
    pub fn status(&self) -> (r: SwapStatus)
        ensures
            r == self.spec_common().status,
    {
        self.common().status
    }

    /// The direction of the swap.
    pub open spec fn spec_direction(&self) -> SwapDirection {
        match self {
            GetSwapResponse::BtcToEvm(_) => SwapDirection::BtcToEvm,
            GetSwapResponse::EvmToBtc(_) => SwapDirection::EvmToBtc,
        }
    }

    /// Get the direction of the swap.
    pub fn direction(&self) -> (r: SwapDirection)
        ensures
            r == self.spec_direction(),
    {
        match self {
            GetSwapResponse::BtcToEvm(_) => SwapDirection::BtcToEvm,
            GetSwapResponse::EvmToBtc(_) => SwapDirection::EvmToBtc,
        }
    }
}

/// EVM chain selector.
#[derive(Debug, Clone, Copy, PartialEq, Eq, Structural)]
pub enum EvmChain {
    /// Ethereum mainnet.
    Ethereum,
    /// Polygon.
    Polygon,
}

impl EvmChain {
    /// The lowercase name of the chain.
    pub open spec fn spec_as_str(self) -> Seq<char> {
        match self {
            EvmChain::Ethereum => "ethereum"@,
            EvmChain::Polygon => "polygon"@,
        }
    }

    /// See [`EvmChain::spec_as_str`].
    pub fn as_str(&self) -> (r: &'static str)
        ensures
            r@ == self.spec_as_str(),
    {
        match self {
            EvmChain::Ethereum => "ethereum",
            EvmChain::Polygon => "polygon",
        }
    }

    /// The chain a canonical (lowercase) name denotes, if any.
    pub open spec fn spec_from_name(s: Seq<char>) -> Option<EvmChain> {
        if s == "ethereum"@ {
            Some(EvmChain::Ethereum)
        } else if s == "polygon"@ {
            Some(EvmChain::Polygon)
        } else {
            None
        }
    }

    /// Parse an EVM chain from its canonical lowercase name.
    pub fn from_name(s: &str) -> (r: Result<EvmChain, String>)
        ensures
            r matches Ok(c) ==> EvmChain::spec_from_name(s@) == Some(c),
            r is Err <==> EvmChain::spec_from_name(s@) is None,
    {
        let t = s.to_owned();
        if t == "ethereum".to_owned() {
            Ok(EvmChain::Ethereum)
        } else if t == "polygon".to_owned() {
            Ok(EvmChain::Polygon)
        } else {
            Err("Unknown EVM chain: expected ethereum or polygon".to_owned())
        }
    }
}

/// Relay submit request.
#[derive(Debug, Clone, PartialEq, Eq)]
pub struct GelatoSubmitRequest {
    /// Signature authorizing the relayed create-swap call.
    pub create_swap_signature: String,
    /// User nonce for replay protection.
    pub user_nonce: String,
    /// Deadline for the relayed call.
    pub user_deadline: String,
}

/// Relay submit response.
#[derive(Debug, Clone, PartialEq, Eq)]
pub struct GelatoSubmitResponse {
    /// Relay task identifier of the create-swap call.
    pub create_swap_task_id: String,
    /// Human-readable status message.
    pub message: String,
}

/// Version information.
#[derive(Debug, Clone, PartialEq, Eq)]
pub struct Version {
    /// Release tag.
    pub tag: String,
    /// Commit hash the service was built from.
    pub commit_hash: String,
}

/// Quote request parameters.
#[derive(Debug, Clone, PartialEq, Eq)]
pub struct QuoteRequest {
    /// Source token.
    pub from: TokenId,
    /// Target token.
    pub to: TokenId,
    /// Amount in satoshis.
    pub base_amount: u64,
}

/// Claim request for the relay.
#[derive(Debug, Clone, PartialEq, Eq)]
pub struct ClaimGelatoRequest {
    /// The revealed secret, hex-encoded.
    pub secret: String,
}

/// Recover swaps request.
#[derive(Debug, Clone, PartialEq, Eq)]
pub struct RecoverSwapsRequest {
    /// The identity xpub whose swaps to recover.
    pub xpub: String,
}

/// A recovered swap together with the derivation index it was created at.
#[derive(Debug, Clone, PartialEq, Eq)]
pub struct RecoveredSwap {
    /// The server-reported swap.
    pub swap: GetSwapResponse,
    /// The derivation index the swap's parameters were derived at.
    pub index: u32,
}

/// Recover swaps response.
#[derive(Debug, Clone, PartialEq, Eq)]
pub struct RecoverSwapsResponse {
    /// The recovered swaps with their indices.
    pub swaps: Vec<RecoveredSwap>,
    /// The highest derivation index the service has seen for this identity.
    pub highest_index: u32,
}

/// API error response.
#[derive(Debug, Clone, PartialEq, Eq)]
pub struct ApiError {
    /// The error message.
    pub error: String,
}

/// Status of a VTXO (BTC to BTC refresh) swap: the directional machine
/// without an EVM leg.
#[derive(Debug, Clone, Copy, PartialEq, Eq, Structural)]
pub enum VtxoSwapStatus {
    /// Waiting for the client to fund its VHTLC.
    Pending,
    /// The client has funded its VHTLC; the server funds next.
    ClientFunded,
    /// The server has funded its VHTLC; the client can claim.
    ServerFunded,
    /// The client claimed the server's VHTLC, revealing the preimage.
    ClientRedeemed,
    /// The server claimed the client's VHTLC. Terminal; the swap succeeded.
    ServerRedeemed,
    /// The client refunded before the server funded. Terminal.
    ClientRefunded,
    /// The server refunded after timeout (client funded but never claimed).
    /// Terminal.
    ClientFundedServerRefunded,
    /// Never funded; timed out while pending. Terminal.
    Expired,
}

impl VtxoSwapStatus {
    /// States from which no designed transition leaves.
    pub open spec fn spec_is_terminal(self) -> bool {
        ||| self is ServerRedeemed
        ||| self is ClientRefunded
        ||| self is ClientFundedServerRefunded
        ||| self is Expired
    }

    /// See [`VtxoSwapStatus::spec_is_terminal`].
    pub fn is_terminal(&self) -> (r: bool)
        ensures
            r == self.spec_is_terminal(),
    {
        match self {
            VtxoSwapStatus::ServerRedeemed => true,
            VtxoSwapStatus::ClientRefunded => true,
            VtxoSwapStatus::ClientFundedServerRefunded => true,
            VtxoSwapStatus::Expired => true,
            _ => false,
        }
    }

    /// The designed transitions of the refresh-swap state machine: the
    /// success path in order, with the two refund exits and expiry.
    pub open spec fn spec_valid_transition(self, to: VtxoSwapStatus) -> bool {
        match self {
            VtxoSwapStatus::Pending => to is ClientFunded || to is Expired,
            VtxoSwapStatus::ClientFunded => to is ServerFunded || to is ClientRefunded,
            VtxoSwapStatus::ServerFunded => to is ClientRedeemed
                || to is ClientFundedServerRefunded,
            VtxoSwapStatus::ClientRedeemed => to is ServerRedeemed,
            _ => false,
        }
    }

    /// See [`VtxoSwapStatus::spec_valid_transition`].
    pub fn valid_transition(&self, to: &VtxoSwapStatus) -> (r: bool)
        ensures
            r == self.spec_valid_transition(*to),
    {
        match self {
            VtxoSwapStatus::Pending => matches!(
                to,
                VtxoSwapStatus::ClientFunded | VtxoSwapStatus::Expired,
            ),
            VtxoSwapStatus::ClientFunded => matches!(
                to,
                VtxoSwapStatus::ServerFunded | VtxoSwapStatus::ClientRefunded,
            ),
            VtxoSwapStatus::ServerFunded => matches!(
                to,
                VtxoSwapStatus::ClientRedeemed | VtxoSwapStatus::ClientFundedServerRefunded,
            ),
            VtxoSwapStatus::ClientRedeemed => matches!(to, VtxoSwapStatus::ServerRedeemed),
            _ => false,
        }
    }
}

/// Request to estimate the fee of a VTXO refresh swap.
#[derive(Debug, Clone, PartialEq, Eq)]
pub struct EstimateVtxoSwapRequest {
    /// The coins to refresh, as "txid:vout" outpoint strings.
    pub vtxos: Vec<String>,
}

/// Response from VTXO swap estimation.
#[derive(Debug, Clone, PartialEq, Eq)]
pub struct EstimateVtxoSwapResponse {
    /// Total fee in satoshis.
    pub fee_sats: i64,
    /// Total input amount in satoshis.
    pub total_input_sats: i64,
    /// Amount the user will receive (inputs minus fee).
    pub output_sats: i64,
    /// Number of coins being refreshed.
    pub vtxo_count: usize,
    /// Expected expiry (Unix seconds) of the resulting coins: the minimum
    /// expiry among the server coins funding the swap.
    pub expected_vtxo_expiry: i64,
}

/// Request to create a VTXO refresh swap.
#[derive(Debug, Clone, PartialEq, Eq)]
pub struct CreateVtxoSwapRequest {
    /// The coins to refresh, as "txid:vout" outpoint strings.
    pub vtxos: Vec<String>,
    /// SHA-256 of the preimage; the client generates the secret.
    pub preimage_hash: String,
    /// Client's public key for the VHTLC, hex-encoded.
    pub client_pk: String,
    /// User identity key for recovery purposes, hex-encoded.
    pub user_id: String,
}

/// Response from creating or fetching a VTXO refresh swap.
#[derive(Debug, Clone, PartialEq, Eq)]
pub struct VtxoSwapResponse {
    /// Swap identifier.
    pub id: String,
    /// Swap status.
    pub status: VtxoSwapStatus,
    /// Creation timestamp (RFC 3339, kept opaque).
    pub created_at: String,
    /// Client's VHTLC address (the client funds this first).
    pub client_vhtlc_address: String,
    /// Amount the client should fund, in satoshis.
    pub client_fund_amount_sats: i64,
    /// Client's public key, hex-encoded.
    pub client_pk: String,
    /// Client VHTLC locktime (Unix timestamp).
    pub client_locktime: u64,
    /// Client claim delay in seconds.
    pub client_unilateral_claim_delay: i64,
    /// Client refund delay in seconds.
    pub client_unilateral_refund_delay: i64,
    /// Client refund-without-receiver delay in seconds.
    pub client_unilateral_refund_without_receiver_delay: i64,
    /// Server's VHTLC address (funded after the client's).
    pub server_vhtlc_address: String,
    /// Amount the server will fund, in satoshis.
    pub server_fund_amount_sats: i64,
    /// Server's public key, hex-encoded.
    pub server_pk: String,
    /// Server VHTLC locktime (Unix timestamp).
    pub server_locktime: u64,
    /// Server claim delay in seconds.
    pub server_unilateral_claim_delay: i64,
    /// Server refund delay in seconds.
    pub server_unilateral_refund_delay: i64,
    /// Server refund-without-receiver delay in seconds.
    pub server_unilateral_refund_without_receiver_delay: i64,
    /// The settlement-network server's public key, hex-encoded.
    pub arkade_server_pk: String,
    /// The preimage hash (SHA-256), hex-encoded.
    pub preimage_hash: String,
    /// Fee in satoshis.
    pub fee_sats: i64,
    /// Bitcoin network name.
    pub network: String,
}

} // verus!
