//! Wallet, storage and recovery tests.

use lendaswap_core::api::types::BtcToEvmSwapResponse;
use lendaswap_core::api::types::GetSwapResponse;
use lendaswap_core::api::types::RecoverSwapsResponse;
use lendaswap_core::api::types::RecoveredSwap;
use lendaswap_core::api::types::SwapCommonFields;
use lendaswap_core::api::types::SwapStatus;
use lendaswap_core::api::types::TokenId;
use lendaswap_core::client::clear_swaps;
use lendaswap_core::client::load_swap_data_from_storage;
use lendaswap_core::client::recover_swaps_apply;
use lendaswap_core::client::swap_data_for_claim;
use lendaswap_core::client::swap_data_for_refund;
use lendaswap_core::client::update_swap_status;
use lendaswap_core::Error;
use lendaswap_core::ExtendedSwapStorageData;
use lendaswap_core::HdWallet;
use lendaswap_core::MemorySwapStorage;
use lendaswap_core::MemoryWalletStorage;
use lendaswap_core::Network;
use lendaswap_core::SwapStorage;
use lendaswap_core::Wallet;

const PHRASE: &str =
    "abandon abandon abandon abandon abandon abandon abandon abandon abandon abandon abandon about";

fn common_fields(id: &str, status: SwapStatus) -> SwapCommonFields {
    SwapCommonFields {
        id: id.to_string(),
        status,
        hash_lock: "0x00".to_string(),
        fee_sats: 10,
        sender_pk: "aa".to_string(),
        receiver_pk: "bb".to_string(),
        server_pk: "cc".to_string(),
        refund_locktime: 1_653_195_600,
        unilateral_claim_delay: 144,
        unilateral_refund_delay: 1024,
        unilateral_refund_without_receiver_delay: 2048,
        network: "regtest".to_string(),
        created_at: "2026-01-01T00:00:00Z".to_string(),
    }
}

fn btc_to_evm_response(id: &str, status: SwapStatus) -> GetSwapResponse {
    GetSwapResponse::BtcToEvm(BtcToEvmSwapResponse {
        common: common_fields(id, status),
        htlc_address_evm: "0xE".to_string(),
        htlc_address_arkade: "tark-lock".to_string(),
        user_address_evm: "0xU".to_string(),
        ln_invoice: String::new(),
        sats_receive: 1000,
        source_token: TokenId::BtcArkade,
        target_token: TokenId::Coin("usdc_pol".to_string()),
        bitcoin_htlc_claim_txid: None,
        bitcoin_htlc_fund_txid: None,
        evm_htlc_claim_txid: None,
        evm_htlc_fund_txid: None,
    })
}

fn record(id: &str, index: u32) -> ExtendedSwapStorageData {
    let wallet = HdWallet::from_mnemonic(PHRASE, Network::Regtest).unwrap();
    ExtendedSwapStorageData {
        response: btc_to_evm_response(id, SwapStatus::Pending),
        swap_params: wallet.derive_swap_params(index).unwrap(),
    }
}

#[test]
fn test_generate_or_get_mnemonic() {
    let storage = MemoryWalletStorage::new();
    let mut wallet = Wallet::new(storage, Network::Bitcoin);

    // First call should generate
    let mnemonic1 = wallet.generate_or_get_mnemonic().unwrap();
    assert!(!mnemonic1.is_empty());

    // Second call should return same mnemonic
    let mnemonic2 = wallet.generate_or_get_mnemonic().unwrap();
    assert_eq!(mnemonic1, mnemonic2);
}

#[test]
fn test_import_mnemonic() {
    let storage = MemoryWalletStorage::new();
    let mut wallet = Wallet::new(storage, Network::Bitcoin);

    let phrase = "abandon abandon abandon abandon abandon abandon abandon abandon abandon abandon abandon about";
    wallet.import_mnemonic(phrase).unwrap();

    let stored = wallet.get_mnemonic().unwrap().unwrap();
    assert_eq!(stored, phrase);
}

#[test]
fn test_derive_swap_params() {
    let storage = MemoryWalletStorage::new();
    let mut wallet = Wallet::new(storage, Network::Bitcoin);

    wallet.generate_or_get_mnemonic().unwrap();

    // First derivation should use index 0
    let params1 = wallet.derive_swap_params().unwrap();
    assert_eq!(params1.key_index, 0);

    // Second derivation should use index 1
    let params2 = wallet.derive_swap_params().unwrap();
    assert_eq!(params2.key_index, 1);

    // Keys should be different
    assert_ne!(params1.secret_key, params2.secret_key);
}

#[test]
fn test_derive_without_mnemonic_fails() {
    let storage = MemoryWalletStorage::new();
    let wallet = Wallet::new(storage, Network::Bitcoin);
    let err = wallet.derive_swap_params_at_index(0).unwrap_err();
    assert!(matches!(err, Error::NoMnemonic));
}

#[test]
fn test_import_resets_key_index() {
    let storage = MemoryWalletStorage::new();
    let mut wallet = Wallet::new(storage, Network::Bitcoin);
    wallet.set_key_index(9).unwrap();
    wallet.import_mnemonic(PHRASE).unwrap();
    assert_eq!(wallet.get_key_index().unwrap(), 0);
}

#[test]
fn test_swap_storage_roundtrip() {
    let mut storage = MemorySwapStorage::new();
    let a = record("swap-a", 0);
    let b = record("swap-b", 1);

    storage.store(&"swap-a".to_string(), a).unwrap();
    storage.store(&"swap-b".to_string(), b).unwrap();

    let got = storage.get(&"swap-a".to_string()).unwrap().unwrap();
    assert_eq!(got.response.id(), "swap-a");
    assert_eq!(got.swap_params.key_index, 0);

    // Overwrite keeps a single entry per id.
    let a2 = record("swap-a", 5);
    storage.store(&"swap-a".to_string(), a2).unwrap();
    let got2 = storage.get(&"swap-a".to_string()).unwrap().unwrap();
    assert_eq!(got2.swap_params.key_index, 5);

    let mut ids = storage.list().unwrap();
    ids.sort();
    assert_eq!(ids, vec!["swap-a".to_string(), "swap-b".to_string()]);
    assert_eq!(storage.get_all().unwrap().len(), 2);

    storage.delete(&"swap-a".to_string()).unwrap();
    assert!(storage.get(&"swap-a".to_string()).unwrap().is_none());
    assert_eq!(storage.list().unwrap(), vec!["swap-b".to_string()]);

    clear_swaps(&mut storage).unwrap();
    assert!(storage.list().unwrap().is_empty());
}

#[test]
fn test_update_swap_status_merges() {
    let mut storage = MemorySwapStorage::new();
    let original = record("swap-a", 3);
    let original_params = original.swap_params.clone();
    storage.store(&"swap-a".to_string(), original).unwrap();

    let fresh = btc_to_evm_response("swap-a", SwapStatus::ServerFunded);
    update_swap_status(&mut storage, &"swap-a".to_string(), fresh).unwrap();

    let merged = storage.get(&"swap-a".to_string()).unwrap().unwrap();
    assert_eq!(merged.response.status(), SwapStatus::ServerFunded);
    // The locally held parameters are never overwritten.
    assert_eq!(merged.swap_params, original_params);
}

#[test]
fn test_update_swap_status_unknown_id() {
    let mut storage = MemorySwapStorage::new();
    let fresh = btc_to_evm_response("missing", SwapStatus::Pending);
    let err = update_swap_status(&mut storage, &"missing".to_string(), fresh).unwrap_err();
    assert!(matches!(err, Error::SwapNotFound(_)));
}

#[test]
fn test_load_swap_data_from_storage_missing() {
    let storage = MemorySwapStorage::new();
    let err = load_swap_data_from_storage(&storage, &"nope".to_string()).unwrap_err();
    assert!(matches!(err, Error::SwapNotFound(_)));
}

/// Recovery rehydrates exactly the reported swaps, re-derives byte-identical
/// parameters at the reported indices, and moves the key-index counter past
/// the highest reported index.
#[test]
fn test_recover_swaps_rehydrates_storage() {
    let wallet_storage = MemoryWalletStorage::new();
    let mut wallet = Wallet::new(wallet_storage, Network::Regtest);
    wallet.import_mnemonic(PHRASE).unwrap();

    let mut storage = MemorySwapStorage::new();
    // A stale record that recovery must purge.
    storage.store(&"stale".to_string(), record("stale", 7)).unwrap();

    let response = RecoverSwapsResponse {
        swaps: vec![
            RecoveredSwap { swap: btc_to_evm_response("swap_a", SwapStatus::ServerRedeemed), index: 0 },
            RecoveredSwap { swap: btc_to_evm_response("swap_b", SwapStatus::ClientFunded), index: 2 },
        ],
        highest_index: 2,
    };
    recover_swaps_apply(&mut wallet, &mut storage, response).unwrap();

    // Storage holds exactly swap_a and swap_b.
    let mut ids = storage.list().unwrap();
    ids.sort();
    assert_eq!(ids, vec!["swap_a".to_string(), "swap_b".to_string()]);

    // Each merged with parameters matching a fresh derivation.
    let reference = HdWallet::from_mnemonic(PHRASE, Network::Regtest).unwrap();
    let a = storage.get(&"swap_a".to_string()).unwrap().unwrap();
    assert_eq!(a.swap_params, reference.derive_swap_params(0).unwrap());
    assert_eq!(a.response.status(), SwapStatus::ServerRedeemed);
    let b = storage.get(&"swap_b".to_string()).unwrap().unwrap();
    assert_eq!(b.swap_params, reference.derive_swap_params(2).unwrap());

    // The key-index counter moved past the highest reported index.
    assert!(wallet.get_key_index().unwrap() > 2);
    // The next created swap gets a fresh index.
    let next = wallet.derive_swap_params().unwrap();
    assert_eq!(next.key_index, 3);
}

#[test]
fn test_swap_data_builders_bind_directions() {
    let rec = record("swap-a", 1);

    // A BTC-to-EVM record refunds but does not claim.
    let data = swap_data_for_refund(&rec, Network::Regtest).unwrap();
    assert_eq!(data.vhtlc_address, "tark-lock");
    assert_eq!(data.lendaswap_pk, "bb");
    assert_eq!(data.arkade_server_pk, "cc");
    assert_eq!(data.key_index, 1);
    let err = swap_data_for_claim(&rec, Network::Regtest).unwrap_err();
    assert!(matches!(err, Error::Vhtlc(_)));
}
