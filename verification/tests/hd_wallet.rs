//! Key-derivation tests: determinism, branch separation, and agreement with
//! the underlying BIP39/BIP32 libraries computed independently.

use lendaswap_core::hd_wallet::derive_user_id_from_xpub;
use lendaswap_core::HdWallet;
use lendaswap_core::Network;
use lendaswap_core::SwapParams;
use core::str::FromStr;
use sha2::Digest;

const PHRASE: &str =
    "abandon abandon abandon abandon abandon abandon abandon abandon abandon abandon abandon about";

#[test]
fn test_generate_wallet() {
    let wallet = HdWallet::generate(Network::Bitcoin, 12).unwrap();
    let mnemonic = wallet.mnemonic_phrase();
    assert!(mnemonic.split_whitespace().count() == 12);
}

#[test]
fn test_derive_keypair() {
    let wallet = HdWallet::generate(Network::Bitcoin, 12).unwrap();
    let SwapParams {
        secret_key: sk1,
        public_key: pk1,
        preimage: preimage1,
        preimage_hash: preimage_hash1,
        ..
    } = wallet.derive_swap_params(0).unwrap();
    let SwapParams {
        secret_key: sk2,
        public_key: pk2,
        preimage: preimage2,
        preimage_hash: preimage_hash2,
        ..
    } = wallet.derive_swap_params(1).unwrap();

    // Different indices should produce different keys
    assert_ne!(sk1, sk2);
    assert_ne!(pk1, pk2);

    assert_ne!(preimage1, preimage2);
    assert_ne!(preimage_hash1, preimage_hash2);

    // Same index should produce same keys
    let SwapParams {
        secret_key: sk1_again,
        public_key: pk1_again,
        preimage: preimage1_again,
        preimage_hash: preimage_hash1_again,
        ..
    } = wallet.derive_swap_params(0).unwrap();

    assert_eq!(sk1, sk1_again);
    assert_eq!(pk1, pk1_again);

    assert_eq!(preimage1, preimage1_again);
    assert_eq!(preimage_hash1, preimage_hash1_again);
}

#[test]
fn test_from_mnemonic() {
    let wallet1 = HdWallet::generate(Network::Bitcoin, 12).unwrap();
    let phrase = wallet1.mnemonic_phrase();

    let wallet2 = HdWallet::from_mnemonic(&phrase, Network::Bitcoin).unwrap();

    // Same mnemonic should produce same keys and preimages
    let SwapParams { secret_key: sk1, preimage: preimage1, .. } =
        wallet1.derive_swap_params(0).unwrap();
    let SwapParams { secret_key: sk2, preimage: preimage2, .. } =
        wallet2.derive_swap_params(0).unwrap();

    assert_eq!(sk1, sk2);
    assert_eq!(preimage1, preimage2);
}

#[test]
fn test_mnemonic_phrase_is_canonical() {
    // Stray whitespace parses, but the wallet renders the canonical form.
    let sloppy = format!("  {}  ", PHRASE.replace(' ', "  "));
    let wallet = HdWallet::from_mnemonic(&sloppy, Network::Bitcoin).unwrap();
    assert_eq!(wallet.mnemonic_phrase(), PHRASE);

    // Both renderings derive the same keys.
    let reference = HdWallet::from_mnemonic(PHRASE, Network::Bitcoin).unwrap();
    assert_eq!(
        wallet.derive_swap_params(0).unwrap(),
        reference.derive_swap_params(0).unwrap()
    );
}

#[test]
fn test_invalid_mnemonic_rejected() {
    let err = HdWallet::from_mnemonic("not a valid phrase at all", Network::Bitcoin).unwrap_err();
    assert!(matches!(err, lendaswap_core::Error::InvalidMnemonic(_)));
}

#[test]
fn test_generate_rejects_bad_word_count() {
    assert!(HdWallet::generate(Network::Bitcoin, 13).is_err());
    assert!(HdWallet::generate(Network::Bitcoin, 24).is_ok());
}

#[test]
fn test_hardened_index_boundary_rejected() {
    let wallet = HdWallet::from_mnemonic(PHRASE, Network::Bitcoin).unwrap();
    let err = wallet.derive_swap_params(0x8000_0000).unwrap_err();
    assert!(matches!(err, lendaswap_core::Error::KeyDerivation(_)));
    assert!(wallet.derive_swap_params(0x7FFF_FFFF).is_ok());
}

/// The preimage hash is the SHA-256 of the preimage, the preimage is the
/// tagged hash of the secret key, and the public key matches the secret key,
/// all recomputed here with the hash and curve libraries directly.
#[test]
fn test_derived_params_internal_consistency() {
    let wallet = HdWallet::from_mnemonic(PHRASE, Network::Bitcoin).unwrap();
    let params = wallet.derive_swap_params(7).unwrap();

    assert_eq!(params.key_index, 7);
    assert_eq!(params.secret_key.len(), 32);
    assert_eq!(params.public_key.len(), 33);
    assert_eq!(params.preimage.len(), 32);
    assert_eq!(params.preimage_hash.len(), 32);
    assert_eq!(params.user_id.len(), 33);

    // preimage == sha256(sha256(tag) || sha256(tag) || secret_key)
    let tag_hash = sha2::Sha256::digest(b"lendaswap/preimage");
    let mut buf = Vec::new();
    buf.extend_from_slice(&tag_hash);
    buf.extend_from_slice(&tag_hash);
    buf.extend_from_slice(&params.secret_key);
    let expected_preimage = sha2::Sha256::digest(&buf);
    assert_eq!(params.preimage.as_slice(), expected_preimage.as_slice());

    // preimage_hash == sha256(preimage)
    let expected_hash = sha2::Sha256::digest(&params.preimage);
    assert_eq!(params.preimage_hash.as_slice(), expected_hash.as_slice());

    // public_key is the secp256k1 public key of secret_key
    let secp = bitcoin::secp256k1::Secp256k1::new();
    let sk = bitcoin::secp256k1::SecretKey::from_slice(&params.secret_key).unwrap();
    let pk = bitcoin::secp256k1::PublicKey::from_secret_key(&secp, &sk);
    assert_eq!(params.public_key.as_slice(), &pk.serialize());
}

/// The swap signing key comes from the fully hardened path
/// m/83696968'/121923'/index', recomputed here with the BIP32 library
/// directly.
#[test]
fn test_signing_key_matches_bip32_reference() {
    let wallet = HdWallet::from_mnemonic(PHRASE, Network::Bitcoin).unwrap();
    let params = wallet.derive_swap_params(3).unwrap();

    let mnemonic = bip39::Mnemonic::from_str(PHRASE).unwrap();
    let seed = mnemonic.to_seed_normalized("");
    let secp = bitcoin::secp256k1::Secp256k1::new();
    let master = bitcoin::bip32::Xpriv::new_master(bitcoin::NetworkKind::Main, &seed).unwrap();
    let path = bitcoin::bip32::DerivationPath::from_str("m/83696968'/121923'/3'").unwrap();
    let derived = master.derive_priv(&secp, &path).unwrap();
    assert_eq!(params.secret_key.as_slice(), &derived.private_key.secret_bytes());
}

/// Identity keys derived from the seed agree with non-hardened derivation
/// from the shared identity xpub: the two routes give the same key, so the
/// remote service can recompute identity keys from the xpub alone.
#[test]
fn test_user_id_routes_agree() {
    let wallet = HdWallet::from_mnemonic(PHRASE, Network::Bitcoin).unwrap();
    let xpub = wallet.derive_user_id_xpub().unwrap();

    for index in [0u32, 1, 2, 41] {
        let params = wallet.derive_swap_params(index).unwrap();
        let via_xpub = derive_user_id_from_xpub(&xpub, index).unwrap();
        assert_eq!(params.user_id, via_xpub);
    }

    // The xpub route recomputed with the BIP32 library directly.
    let mnemonic = bip39::Mnemonic::from_str(PHRASE).unwrap();
    let seed = mnemonic.to_seed_normalized("");
    let secp = bitcoin::secp256k1::Secp256k1::new();
    let master = bitcoin::bip32::Xpriv::new_master(bitcoin::NetworkKind::Main, &seed).unwrap();
    let root_path = bitcoin::bip32::DerivationPath::from_str("m/9419'/121923'/0'").unwrap();
    let root = master.derive_priv(&secp, &root_path).unwrap();
    let expected_xpub = bitcoin::bip32::Xpub::from_priv(&secp, &root);
    assert_eq!(xpub, expected_xpub.to_string());

    let child_path = bitcoin::bip32::DerivationPath::from_str("m/9419/121923/5").unwrap();
    let expected_child = expected_xpub.derive_pub(&secp, &child_path).unwrap();
    let via_lib = derive_user_id_from_xpub(&xpub, 5).unwrap();
    assert_eq!(via_lib.as_slice(), &expected_child.public_key.serialize());
}

/// The identity branch is separate from the signing branch: identity keys
/// never equal swap public keys.
#[test]
fn test_identity_branch_is_separate() {
    let wallet = HdWallet::from_mnemonic(PHRASE, Network::Testnet).unwrap();
    let params = wallet.derive_swap_params(0).unwrap();
    assert_ne!(params.user_id, params.public_key);
}
