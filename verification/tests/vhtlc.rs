//! VHTLC planning tests: address integrity, coin classification, witness
//! asymmetry, and locktime gating.

use lendaswap_core::vhtlc::condition_witness_bytes;
use lendaswap_core::vhtlc::plan_executable_at;
use lendaswap_core::vhtlc::prepare_claim;
use lendaswap_core::vhtlc::prepare_refund;
use lendaswap_core::vhtlc::query_amounts;
use lendaswap_core::vhtlc::select_inputs;
use lendaswap_core::vhtlc::sign_checkpoint_input;
use lendaswap_core::vhtlc::sign_primary_input;
use lendaswap_core::vhtlc::Coin;
use lendaswap_core::vhtlc::SpendLeaf;
use lendaswap_core::vhtlc::VhtlcRole;
use lendaswap_core::Error;
use lendaswap_core::HdWallet;
use lendaswap_core::Network;
use lendaswap_core::SwapData;
use lendaswap_core::SwapParams;

const PHRASE: &str =
    "abandon abandon abandon abandon abandon abandon abandon abandon abandon abandon abandon about";

const REFUND_LOCKTIME: u32 = 1_653_195_600;

fn test_params() -> SwapParams {
    let wallet = HdWallet::from_mnemonic(PHRASE, Network::Regtest).unwrap();
    wallet.derive_swap_params(0).unwrap()
}

/// Counterparty and server keys: other derived public keys, hex-encoded.
fn other_keys() -> (String, String) {
    let wallet = HdWallet::from_mnemonic(PHRASE, Network::Regtest).unwrap();
    let a = wallet.derive_swap_params(1).unwrap();
    let b = wallet.derive_swap_params(2).unwrap();
    (hex::encode(&a.public_key), hex::encode(&b.public_key))
}

/// The locking address this swap's parameters produce, computed with the
/// Arkade library directly.
fn expected_address(params: &SwapParams, data: &SwapData, caller_is_receiver: bool) -> String {
    let secp = bitcoin::secp256k1::Secp256k1::new();
    let own_sk = bitcoin::secp256k1::SecretKey::from_slice(&params.secret_key).unwrap();
    let own_pk = bitcoin::secp256k1::PublicKey::from_secret_key(&secp, &own_sk);
    let counterparty =
        bitcoin::secp256k1::PublicKey::from_slice(&hex::decode(&data.lendaswap_pk).unwrap())
            .unwrap();
    let server =
        bitcoin::secp256k1::PublicKey::from_slice(&hex::decode(&data.arkade_server_pk).unwrap())
            .unwrap();
    let sha = <bitcoin::hashes::sha256::Hash as bitcoin::hashes::Hash>::hash(&params.preimage);
    let h20 = <bitcoin::hashes::ripemd160::Hash as bitcoin::hashes::Hash>::hash(
        &<bitcoin::hashes::sha256::Hash as bitcoin::hashes::Hash>::to_byte_array(sha),
    );
    let (sender, receiver) = if caller_is_receiver {
        (counterparty, own_pk)
    } else {
        (own_pk, counterparty)
    };
    let opts = ark_rs::core::vhtlc::VhtlcOptions {
        sender: sender.into(),
        receiver: receiver.into(),
        server: server.into(),
        preimage_hash: h20,
        refund_locktime: data.refund_locktime,
        unilateral_claim_delay: ark_rs::core::server::parse_sequence_number(
            data.unilateral_claim_delay,
        )
        .unwrap(),
        unilateral_refund_delay: ark_rs::core::server::parse_sequence_number(
            data.unilateral_refund_delay,
        )
        .unwrap(),
        unilateral_refund_without_receiver_delay: ark_rs::core::server::parse_sequence_number(
            data.unilateral_refund_without_receiver_delay,
        )
        .unwrap(),
    };
    let vhtlc = ark_rs::core::vhtlc::VhtlcScript::new(opts, bitcoin::Network::Regtest).unwrap();
    vhtlc.address().encode()
}

fn test_swap_data() -> SwapData {
    let (lendaswap_pk, arkade_server_pk) = other_keys();
    SwapData {
        key_index: 0,
        lendaswap_pk,
        arkade_server_pk,
        refund_locktime: REFUND_LOCKTIME,
        unilateral_claim_delay: 144,
        unilateral_refund_delay: 1024,
        unilateral_refund_without_receiver_delay: 2048,
        network: Network::Regtest,
        vhtlc_address: String::new(),
    }
}

#[test]
fn test_prepare_claim_accepts_matching_address() {
    let params = test_params();
    let mut data = test_swap_data();
    data.vhtlc_address = expected_address(&params, &data, true);

    let ctx = prepare_claim(&data, &params).unwrap();
    assert_eq!(ctx.address, data.vhtlc_address);
    assert_eq!(ctx.role, VhtlcRole::Claim);
    // On claim the counterparty is the sender and the caller the receiver.
    assert_eq!(hex::encode(&ctx.params.sender_pk), data.lendaswap_pk);
    assert_eq!(ctx.params.receiver_pk, params.public_key);
    assert_eq!(ctx.params.refund_locktime, REFUND_LOCKTIME);
}

#[test]
fn test_prepare_refund_swaps_roles() {
    let params = test_params();
    let mut data = test_swap_data();
    data.vhtlc_address = expected_address(&params, &data, false);

    let ctx = prepare_refund(&data, &params).unwrap();
    assert_eq!(ctx.address, data.vhtlc_address);
    assert_eq!(ctx.role, VhtlcRole::Refund);
    // On refund the caller is the sender and the counterparty the receiver.
    assert_eq!(ctx.params.sender_pk, params.public_key);
    assert_eq!(hex::encode(&ctx.params.receiver_pk), data.lendaswap_pk);
}

#[test]
fn test_prepare_rejects_mismatched_address() {
    let params = test_params();
    let mut data = test_swap_data();
    // A syntactically fine but wrong address: the one for the opposite role.
    data.vhtlc_address = expected_address(&params, &data, false);

    let claim_err = prepare_claim(&data, &params).unwrap_err();
    assert!(matches!(claim_err, Error::Vhtlc(_)));

    data.vhtlc_address = "not-the-stored-address".to_string();
    let refund_err = prepare_refund(&data, &params).unwrap_err();
    assert!(matches!(refund_err, Error::Vhtlc(_)));
}

#[test]
fn test_prepare_rejects_bad_counterparty_key() {
    let params = test_params();
    let mut data = test_swap_data();
    data.vhtlc_address = expected_address(&params, &data, true);

    let mut bad = data.clone();
    bad.lendaswap_pk = "zz not hex".to_string();
    assert!(matches!(prepare_claim(&bad, &params).unwrap_err(), Error::Parse(_)));

    let mut bad2 = data.clone();
    // Valid hex but not a curve point.
    bad2.arkade_server_pk = "00".repeat(33);
    assert!(matches!(prepare_claim(&bad2, &params).unwrap_err(), Error::Bitcoin(_)));

    let mut bad3 = data;
    bad3.unilateral_claim_delay = -1;
    assert!(matches!(prepare_claim(&bad3, &params).unwrap_err(), Error::Vhtlc(_)));
}

#[test]
fn test_query_amounts_classifies_each_coin_once() {
    let coins = vec![
        Coin { amount: 1000, is_spent: false, is_recoverable: false },
        Coin { amount: 500, is_spent: true, is_recoverable: false },
        Coin { amount: 200, is_spent: false, is_recoverable: true },
    ];
    let amounts = query_amounts(&coins);
    assert_eq!(amounts.spendable, 1000);
    assert_eq!(amounts.spent, 500);
    assert_eq!(amounts.recoverable, 200);
    let total: u64 = coins.iter().map(|c| c.amount).sum();
    assert_eq!(amounts.spendable + amounts.spent + amounts.recoverable, total);
}

#[test]
fn test_query_amounts_empty() {
    let amounts = query_amounts(&Vec::new());
    assert_eq!(amounts.spendable, 0);
    assert_eq!(amounts.spent, 0);
    assert_eq!(amounts.recoverable, 0);
}

#[test]
fn test_select_inputs_takes_all_spendable_coins() {
    let coins = vec![
        Coin { amount: 600, is_spent: false, is_recoverable: false },
        Coin { amount: 500, is_spent: true, is_recoverable: false },
        Coin { amount: 200, is_spent: false, is_recoverable: true },
        Coin { amount: 400, is_spent: false, is_recoverable: false },
    ];
    let plan = select_inputs(&coins, VhtlcRole::Claim, REFUND_LOCKTIME).unwrap();
    assert_eq!(plan.input_indices, vec![0, 3]);
    assert_eq!(plan.total_amount, 1000);
    assert_eq!(plan.leaf, SpendLeaf::Claim);
    assert_eq!(plan.locktime, None);
}

#[test]
fn test_select_inputs_nothing_spendable() {
    let coins = vec![
        Coin { amount: 500, is_spent: true, is_recoverable: false },
        Coin { amount: 200, is_spent: false, is_recoverable: true },
    ];
    let err = select_inputs(&coins, VhtlcRole::Claim, REFUND_LOCKTIME).unwrap_err();
    assert!(matches!(err, Error::Vhtlc(_)));
}

#[test]
fn test_refund_plan_carries_locktime() {
    let coins = vec![Coin { amount: 700, is_spent: false, is_recoverable: false }];
    let plan = select_inputs(&coins, VhtlcRole::Refund, REFUND_LOCKTIME).unwrap();
    assert_eq!(plan.leaf, SpendLeaf::RefundWithoutReceiver);
    assert_eq!(plan.locktime, Some(REFUND_LOCKTIME));

    // Before the locktime the plan is rejected even though coins are
    // spendable; at and after the locktime it is permitted.
    assert!(!plan_executable_at(&plan, REFUND_LOCKTIME - 1));
    assert!(plan_executable_at(&plan, REFUND_LOCKTIME));
    assert!(plan_executable_at(&plan, REFUND_LOCKTIME + 1));
}

#[test]
fn test_refund_rejects_non_timestamp_locktime() {
    let coins = vec![Coin { amount: 700, is_spent: false, is_recoverable: false }];
    // Below the Unix-timestamp threshold of absolute locktimes.
    let err = select_inputs(&coins, VhtlcRole::Refund, 499_999_999).unwrap_err();
    assert!(matches!(err, Error::Vhtlc(_)));
}

#[test]
fn test_condition_witness_layout() {
    let preimage: Vec<u8> = (0u8..32).collect();
    let bytes = condition_witness_bytes(&preimage);
    assert_eq!(bytes.len(), 34);
    assert_eq!(bytes[0], 1);
    assert_eq!(bytes[1], 32);
    assert_eq!(&bytes[2..], preimage.as_slice());
}

#[test]
fn test_witness_asymmetry() {
    let params = test_params();
    let sighash: Vec<u8> = (100u8..132).collect();

    let claim_w = sign_primary_input(VhtlcRole::Claim, &params, &sighash).unwrap();
    let refund_w = sign_primary_input(VhtlcRole::Refund, &params, &sighash).unwrap();

    // Claim-path signing embeds the preimage payload; refund-path does not.
    let payload = claim_w.condition.clone().unwrap();
    assert_eq!(payload, condition_witness_bytes(&params.preimage));
    assert!(refund_w.condition.is_none());

    // Everything else is identical for otherwise-equal inputs.
    assert_eq!(claim_w.signature, refund_w.signature);
    assert_eq!(claim_w.xonly_pubkey, refund_w.xonly_pubkey);

    // Checkpoint co-signing never attaches the preimage.
    let cp = sign_checkpoint_input(&params, &sighash).unwrap();
    assert!(cp.condition.is_none());
    assert_eq!(cp.signature, claim_w.signature);
}

/// The signature is the deterministic BIP340 signature, recomputed with the
/// curve library directly, and verifies under the signer's x-only key.
#[test]
fn test_signature_matches_secp_reference() {
    let params = test_params();
    let sighash: Vec<u8> = (0u8..32).collect();
    let w = sign_primary_input(VhtlcRole::Claim, &params, &sighash).unwrap();

    let secp = bitcoin::secp256k1::Secp256k1::new();
    let sk = bitcoin::secp256k1::SecretKey::from_slice(&params.secret_key).unwrap();
    let kp = bitcoin::key::Keypair::from_secret_key(&secp, &sk);
    let msg = bitcoin::secp256k1::Message::from_digest_slice(&sighash).unwrap();
    let expected = secp.sign_schnorr_no_aux_rand(&msg, &kp);
    assert_eq!(w.signature.as_slice(), expected.serialize().as_slice());

    let xonly = bitcoin::secp256k1::XOnlyPublicKey::from_slice(&w.xonly_pubkey).unwrap();
    assert!(secp.verify_schnorr(&expected, &msg, &xonly).is_ok());
}

#[test]
fn test_sign_rejects_bad_sighash_length() {
    let params = test_params();
    let short = vec![0u8; 31];
    assert!(sign_primary_input(VhtlcRole::Claim, &params, &short).is_err());
}
