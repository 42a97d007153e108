//! Trusted wrappers around the hash and secp256k1 primitives the engine
//! relies on.
//!
//! Each digest or signature is named by an uninterpreted spec function of the
//! inputs alone; the wrappers promise nothing beyond determinism, the output
//! length, and when parsing succeeds. Everything built on top of these names
//! is verified.

use vstd::prelude::*;

use crate::error::Error;

verus! {

/// The SHA-256 digest of a byte sequence.
pub uninterp spec fn sha256_of(data: Seq<u8>) -> Seq<u8>;

/// The RIPEMD-160 digest of a byte sequence.
pub uninterp spec fn ripemd160_of(data: Seq<u8>) -> Seq<u8>;

/// Whether 32 bytes are a valid secp256k1 secret key (non-zero and below the
/// curve order).
pub uninterp spec fn seckey_valid(sk: Seq<u8>) -> bool;

/// The 33-byte compressed secp256k1 public key of a secret key.
pub uninterp spec fn pubkey_of(sk: Seq<u8>) -> Seq<u8>;

/// The 64-byte BIP340 Schnorr signature over `msg` by `sk`, with zeroed
/// auxiliary randomness.
pub uninterp spec fn schnorr_sig_of(sk: Seq<u8>, msg: Seq<u8>) -> Seq<u8>;

/// Whether a byte string is a valid SEC encoding of a secp256k1 public key
/// (33-byte compressed or 65-byte uncompressed point on the curve).
pub uninterp spec fn pubkey_bytes_valid(b: Seq<u8>) -> bool;

/// The 33-byte compressed re-encoding of a valid public-key byte string.
pub uninterp spec fn compressed_of(b: Seq<u8>) -> Seq<u8>;

/// Relies on `sha2::Sha256::digest`: the digest is a function of the input
/// bytes alone and is always 32 bytes long.
#[verifier::external_body]
pub(crate) fn sha256(data: &Vec<u8>) -> (r: Vec<u8>)
    ensures
        r@ == sha256_of(data@),
        r@.len() == 32,
{
    <sha2::Sha256 as sha2::Digest>::digest(data.as_slice()).as_slice().to_vec()
}

/// Relies on `bitcoin::hashes::ripemd160::Hash::hash`: the digest is a
/// function of the input bytes alone and is always 20 bytes long.
#[verifier::external_body]
pub(crate) fn ripemd160(data: &Vec<u8>) -> (r: Vec<u8>)
    ensures
        r@ == ripemd160_of(data@),
        r@.len() == 20,
{
    let h = <bitcoin::hashes::ripemd160::Hash as bitcoin::hashes::Hash>::hash(data.as_slice());
    <bitcoin::hashes::ripemd160::Hash as bitcoin::hashes::Hash>::to_byte_array(h).to_vec()
}

/// Relies on `secp256k1::SecretKey::from_slice` (succeeds exactly on 32-byte
/// keys in the valid scalar range) and `secp256k1::PublicKey::from_secret_key`
/// with `serialize` (the compressed public key is a function of the secret
/// key alone).
#[verifier::external_body]
pub(crate) fn secp256k1_pubkey(secret: &Vec<u8>) -> (r: Result<Vec<u8>, Error>)
    ensures
        r is Ok ==> secret@.len() == 32 && seckey_valid(secret@),
        secret@.len() == 32 && seckey_valid(secret@) ==> r is Ok,
        r matches Ok(pk) ==> pk@ == pubkey_of(secret@) && pk@.len() == 33 && pubkey_bytes_valid(
            pk@,
        ),
        r matches Err(e) ==> e is KeyDerivation,
{
    let secp = bitcoin::secp256k1::Secp256k1::new();
    let sk = bitcoin::secp256k1::SecretKey::from_slice(secret.as_slice())
        .map_err(|e| Error::KeyDerivation(format!("Invalid secret key: {}", e)))?;
    let pk = bitcoin::secp256k1::PublicKey::from_secret_key(&secp, &sk);
    Ok(pk.serialize().to_vec())
}

/// Relies on `secp256k1::PublicKey::from_slice` (succeeds exactly on valid
/// SEC-encoded points) and `serialize` (the compressed encoding is a function
/// of the parsed key alone).
#[verifier::external_body]
pub(crate) fn compressed_pubkey(bytes: &Vec<u8>) -> (r: Result<Vec<u8>, Error>)
    ensures
        r is Ok ==> pubkey_bytes_valid(bytes@),
        pubkey_bytes_valid(bytes@) ==> r is Ok,
        r matches Ok(pk) ==> pk@ == compressed_of(bytes@) && pk@.len() == 33 && pubkey_bytes_valid(
            pk@,
        ),
        r matches Err(e) ==> e is Bitcoin,
{
    let pk = bitcoin::secp256k1::PublicKey::from_slice(bytes.as_slice())
        .map_err(|e| Error::Bitcoin(format!("Invalid public key: {}", e)))?;
    Ok(pk.serialize().to_vec())
}

/// Relies on `secp256k1::Secp256k1::sign_schnorr_no_aux_rand`: BIP340 signing
/// with zeroed auxiliary randomness is deterministic in the secret key and
/// the 32-byte message alone. `Message::from_digest_slice` succeeds exactly
/// on 32-byte input.
#[verifier::external_body]
pub(crate) fn schnorr_sign(secret: &Vec<u8>, msg: &Vec<u8>) -> (r: Result<Vec<u8>, Error>)
    ensures
        r is Ok ==> secret@.len() == 32 && seckey_valid(secret@) && msg@.len() == 32,
        secret@.len() == 32 && seckey_valid(secret@) && msg@.len() == 32 ==> r is Ok,
        r matches Ok(sig) ==> sig@ == schnorr_sig_of(secret@, msg@) && sig@.len() == 64,
{
    let secp = bitcoin::secp256k1::Secp256k1::new();
    let sk = bitcoin::secp256k1::SecretKey::from_slice(secret.as_slice())
        .map_err(|e| Error::KeyDerivation(format!("Invalid secret key: {}", e)))?;
    let kp = bitcoin::key::Keypair::from_secret_key(&secp, &sk);
    let m = bitcoin::secp256k1::Message::from_digest_slice(msg.as_slice())
        .map_err(|e| Error::Vhtlc(format!("Invalid sighash message: {}", e)))?;
    let sig = secp.sign_schnorr_no_aux_rand(&m, &kp);
    Ok(sig.serialize().to_vec())
}

} // verus!
