//! Tests of the status state machines, network names, hex decoding, and the
//! refresh-swap reconstruction.

use lendaswap_core::api::types::EvmChain;
use lendaswap_core::api::types::SwapStatus;
use lendaswap_core::api::types::TokenId;
use lendaswap_core::api::types::VtxoSwapResponse;
use lendaswap_core::api::types::VtxoSwapStatus;
use lendaswap_core::encoding::hex_decode;
use lendaswap_core::encoding::hex_encode;
use lendaswap_core::vtxo_swap::claim_server_vhtlc;
use lendaswap_core::vtxo_swap::refund_client_vhtlc;
use lendaswap_core::Error;
use lendaswap_core::HdWallet;
use lendaswap_core::Network;

const PHRASE: &str =
    "abandon abandon abandon abandon abandon abandon abandon abandon abandon abandon abandon about";

#[test]
fn test_status_transitions_success_path() {
    assert!(SwapStatus::Pending.valid_transition(&SwapStatus::ClientFunded));
    assert!(SwapStatus::ClientFunded.valid_transition(&SwapStatus::ServerFunded));
    assert!(SwapStatus::ServerFunded.valid_transition(&SwapStatus::ClientRedeeming));
    assert!(SwapStatus::ClientRedeeming.valid_transition(&SwapStatus::ClientRedeemed));
    assert!(SwapStatus::ClientRedeemed.valid_transition(&SwapStatus::ServerRedeemed));
    // The service claims the BTC leg only after the client's redeem confirms.
    assert!(!SwapStatus::ClientRedeeming.valid_transition(&SwapStatus::ServerRedeemed));
    assert!(SwapStatus::ServerRedeemed.is_terminal());
}

#[test]
fn test_status_transitions_refund_paths() {
    assert!(SwapStatus::Pending.valid_transition(&SwapStatus::Expired));
    assert!(SwapStatus::ClientFunded.valid_transition(&SwapStatus::ClientRefunded));
    assert!(SwapStatus::ClientFunded.valid_transition(&SwapStatus::ClientInvalidFunded));
    assert!(SwapStatus::ClientInvalidFunded.valid_transition(&SwapStatus::ClientRefunded));
    assert!(SwapStatus::ClientFunded.valid_transition(&SwapStatus::ClientFundedTooLate));
    assert!(SwapStatus::ClientFundedTooLate.valid_transition(&SwapStatus::ClientRefunded));
    assert!(SwapStatus::ServerFunded.valid_transition(&SwapStatus::ClientFundedServerRefunded));
    assert!(!SwapStatus::ClientRefunded.valid_transition(&SwapStatus::ClientFunded));
    assert!(!SwapStatus::Expired.valid_transition(&SwapStatus::ClientFunded));
}

#[test]
fn test_invariant_violation_states_flagged() {
    assert!(SwapStatus::ClientRefundedServerFunded.is_invariant_violation());
    assert!(SwapStatus::ClientRedeemedAndClientRefunded.is_invariant_violation());
    assert!(!SwapStatus::ServerRedeemed.is_invariant_violation());

    // No designed transition enters either of them.
    for from in [
        SwapStatus::Pending,
        SwapStatus::ClientFunded,
        SwapStatus::ServerFunded,
        SwapStatus::ClientRedeeming,
        SwapStatus::ClientRedeemed,
    ] {
        assert!(!from.valid_transition(&SwapStatus::ClientRefundedServerFunded));
        assert!(!from.valid_transition(&SwapStatus::ClientRedeemedAndClientRefunded));
    }
    // The recovery edge out of the violation state is designed.
    assert!(
        SwapStatus::ClientRefundedServerFunded
            .valid_transition(&SwapStatus::ClientRefundedServerRefunded)
    );
}

#[test]
fn test_vtxo_status_transitions() {
    assert!(VtxoSwapStatus::Pending.valid_transition(&VtxoSwapStatus::ClientFunded));
    assert!(VtxoSwapStatus::Pending.valid_transition(&VtxoSwapStatus::Expired));
    assert!(VtxoSwapStatus::ClientFunded.valid_transition(&VtxoSwapStatus::ServerFunded));
    assert!(VtxoSwapStatus::ClientFunded.valid_transition(&VtxoSwapStatus::ClientRefunded));
    assert!(VtxoSwapStatus::ServerFunded.valid_transition(&VtxoSwapStatus::ClientRedeemed));
    assert!(
        VtxoSwapStatus::ServerFunded.valid_transition(&VtxoSwapStatus::ClientFundedServerRefunded)
    );
    assert!(VtxoSwapStatus::ClientRedeemed.valid_transition(&VtxoSwapStatus::ServerRedeemed));
    assert!(VtxoSwapStatus::ServerRedeemed.is_terminal());
    assert!(!VtxoSwapStatus::ClientRefunded.valid_transition(&VtxoSwapStatus::ClientFunded));
}

#[test]
fn test_network_names() {
    assert_eq!(Network::from_name("bitcoin").unwrap(), Network::Bitcoin);
    assert_eq!(Network::from_name("mainnet").unwrap(), Network::Bitcoin);
    assert_eq!(Network::from_name("testnet").unwrap(), Network::Testnet);
    assert_eq!(Network::from_name("testnet3").unwrap(), Network::Testnet);
    assert_eq!(Network::from_name("regtest").unwrap(), Network::Regtest);
    assert_eq!(Network::from_name("signet").unwrap(), Network::Mutinynet);
    assert_eq!(Network::from_name("mutinynet").unwrap(), Network::Mutinynet);
    assert!(matches!(Network::from_name("moonnet").unwrap_err(), Error::Parse(_)));

    // Letter case is ignored, as a service may report either form.
    assert_eq!(Network::from_name("MAINNET").unwrap(), Network::Bitcoin);
    assert_eq!(Network::from_name("Signet").unwrap(), Network::Mutinynet);
    assert_eq!(Network::from_name("RegTest").unwrap(), Network::Regtest);

    // Every network's canonical name parses back to it.
    for n in [Network::Bitcoin, Network::Testnet, Network::Regtest, Network::Mutinynet] {
        assert_eq!(n.name().parse::<Network>().unwrap(), n);
    }

    assert!(Network::Bitcoin.is_mainnet());
    assert!(!Network::Mutinynet.is_mainnet());
}

#[test]
fn test_evm_chain_names() {
    assert_eq!(EvmChain::Ethereum.as_str(), "ethereum");
    assert_eq!(EvmChain::Polygon.as_str(), "polygon");
    assert_eq!(EvmChain::from_name("polygon").unwrap(), EvmChain::Polygon);
    assert!(EvmChain::from_name("solana").is_err());
}

#[test]
fn test_token_id_strings() {
    assert_eq!(TokenId::BtcLightning.as_str(), "btc_lightning");
    assert_eq!(TokenId::BtcArkade.as_str(), "btc_arkade");
    assert_eq!(TokenId::Coin("usdc_pol".to_string()).as_str(), "usdc_pol");
}

#[test]
fn test_hex_decode_exact() {
    assert_eq!(hex_decode("").unwrap(), Vec::<u8>::new());
    assert_eq!(hex_decode("00ff10Ab").unwrap(), vec![0x00, 0xff, 0x10, 0xab]);
    assert!(matches!(hex_decode("abc").unwrap_err(), Error::Parse(_)));
    assert!(matches!(hex_decode("zz").unwrap_err(), Error::Parse(_)));
}

#[test]
fn test_hex_decode_matches_reference() {
    let wallet = HdWallet::from_mnemonic(PHRASE, Network::Bitcoin).unwrap();
    let params = wallet.derive_swap_params(0).unwrap();
    let encoded = hex::encode(&params.public_key);
    assert_eq!(hex_decode(&encoded).unwrap(), params.public_key);
    assert_eq!(hex::decode(&encoded).unwrap(), params.public_key);
}

#[test]
fn test_hex_encode_round_trip() {
    let bytes: Vec<u8> = vec![0x00, 0x0f, 0x10, 0xab, 0xff];
    let encoded = hex_encode(&bytes);
    assert_eq!(encoded, "000f10abff");
    assert_eq!(encoded, hex::encode(&bytes));
    assert_eq!(hex_decode(&encoded).unwrap(), bytes);
    assert_eq!(hex_encode(&Vec::new()), "");
}

fn vtxo_swap_response() -> VtxoSwapResponse {
    let wallet = HdWallet::from_mnemonic(PHRASE, Network::Regtest).unwrap();
    let server = wallet.derive_swap_params(10).unwrap();
    let arkade = wallet.derive_swap_params(11).unwrap();
    VtxoSwapResponse {
        id: "refresh-1".to_string(),
        status: VtxoSwapStatus::ServerFunded,
        created_at: "2026-01-01T00:00:00Z".to_string(),
        client_vhtlc_address: String::new(),
        client_fund_amount_sats: 5_000,
        client_pk: String::new(),
        client_locktime: 1_653_195_600,
        client_unilateral_claim_delay: 144,
        client_unilateral_refund_delay: 1024,
        client_unilateral_refund_without_receiver_delay: 2048,
        server_vhtlc_address: String::new(),
        server_fund_amount_sats: 4_900,
        server_pk: hex::encode(&server.public_key),
        server_locktime: 1_653_195_000,
        server_unilateral_claim_delay: 144,
        server_unilateral_refund_delay: 1024,
        server_unilateral_refund_without_receiver_delay: 2048,
        arkade_server_pk: hex::encode(&arkade.public_key),
        preimage_hash: String::new(),
        fee_sats: 100,
        network: "regtest".to_string(),
    }
}

/// Claiming the server's VHTLC in a refresh swap reconstructs against the
/// server-side address; refunding the client's own VHTLC reconstructs
/// against the client-side address. Both reject a mismatch.
#[test]
fn test_vtxo_swap_reconstruction() {
    let wallet = HdWallet::from_mnemonic(PHRASE, Network::Regtest).unwrap();
    let params = wallet.derive_swap_params(0).unwrap();
    let mut swap = vtxo_swap_response();

    let secp = bitcoin::secp256k1::Secp256k1::new();
    let own_sk = bitcoin::secp256k1::SecretKey::from_slice(&params.secret_key).unwrap();
    let own_pk = bitcoin::secp256k1::PublicKey::from_secret_key(&secp, &own_sk);
    let server_pk =
        bitcoin::secp256k1::PublicKey::from_slice(&hex::decode(&swap.server_pk).unwrap()).unwrap();
    let arkade_pk =
        bitcoin::secp256k1::PublicKey::from_slice(&hex::decode(&swap.arkade_server_pk).unwrap())
            .unwrap();
    let sha = <bitcoin::hashes::sha256::Hash as bitcoin::hashes::Hash>::hash(&params.preimage);
    let h20 = <bitcoin::hashes::ripemd160::Hash as bitcoin::hashes::Hash>::hash(
        &<bitcoin::hashes::sha256::Hash as bitcoin::hashes::Hash>::to_byte_array(sha),
    );
    let delay = |v: i64| ark_rs::core::server::parse_sequence_number(v).unwrap();

    // Server VHTLC: server sends, the caller receives.
    let server_side = ark_rs::core::vhtlc::VhtlcScript::new(
        ark_rs::core::vhtlc::VhtlcOptions {
            sender: server_pk.into(),
            receiver: own_pk.into(),
            server: arkade_pk.into(),
            preimage_hash: h20,
            refund_locktime: swap.server_locktime as u32,
            unilateral_claim_delay: delay(swap.server_unilateral_claim_delay),
            unilateral_refund_delay: delay(swap.server_unilateral_refund_delay),
            unilateral_refund_without_receiver_delay: delay(
                swap.server_unilateral_refund_without_receiver_delay,
            ),
        },
        bitcoin::Network::Regtest,
    )
    .unwrap();
    swap.server_vhtlc_address = server_side.address().encode();

    // Client VHTLC: the caller sends, the server receives.
    let client_side = ark_rs::core::vhtlc::VhtlcScript::new(
        ark_rs::core::vhtlc::VhtlcOptions {
            sender: own_pk.into(),
            receiver: server_pk.into(),
            server: arkade_pk.into(),
            preimage_hash: h20,
            refund_locktime: swap.client_locktime as u32,
            unilateral_claim_delay: delay(swap.client_unilateral_claim_delay),
            unilateral_refund_delay: delay(swap.client_unilateral_refund_delay),
            unilateral_refund_without_receiver_delay: delay(
                swap.client_unilateral_refund_without_receiver_delay,
            ),
        },
        bitcoin::Network::Regtest,
    )
    .unwrap();
    swap.client_vhtlc_address = client_side.address().encode();

    let claim_ctx = claim_server_vhtlc(&swap, &params, Network::Regtest).unwrap();
    assert_eq!(claim_ctx.address, swap.server_vhtlc_address);
    assert_eq!(claim_ctx.params.receiver_pk, params.public_key);
    assert_eq!(hex::encode(&claim_ctx.params.sender_pk), swap.server_pk);

    let refund_ctx = refund_client_vhtlc(&swap, &params, Network::Regtest).unwrap();
    assert_eq!(refund_ctx.address, swap.client_vhtlc_address);
    assert_eq!(refund_ctx.params.sender_pk, params.public_key);
    assert_eq!(hex::encode(&refund_ctx.params.receiver_pk), swap.server_pk);

    // Tampered addresses are rejected before anything else can happen.
    let mut tampered = swap.clone();
    tampered.server_vhtlc_address = tampered.client_vhtlc_address.clone();
    assert!(matches!(
        claim_server_vhtlc(&tampered, &params, Network::Regtest).unwrap_err(),
        Error::Vhtlc(_)
    ));
}
