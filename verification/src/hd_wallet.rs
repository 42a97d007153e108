//! Hierarchical-deterministic key derivation for swaps.
//!
//! From a single BIP39 seed phrase the engine derives, per swap index, an
//! independent signing key, an HTLC preimage tied to that key by a tagged
//! hash, and a user-identity public key on a separate branch. The signing
//! branch is fully hardened, so no derived key reveals the master key or a
//! sibling. Identity keys hang below a hardened identity root whose extended
//! public key can be shared with the remote service: the service derives the
//! per-index identity keys non-hardened from it, which enables swap recovery
//! without exposing any spending capability.

use vstd::prelude::*;

use crate::crypto::pubkey_of;
use crate::crypto::seckey_valid;
use crate::crypto::sha256;
use crate::crypto::sha256_of;
use crate::crypto::secp256k1_pubkey;
use crate::error::Error;
use crate::types::Network;
use crate::types::SwapParams;
use crate::types::wf_swap_params;

verus! {

/// Derivation-path prefix for signing keys.
pub const SIGNING_PREFIX: u32 = 83696968;

/// Derivation-path prefix for identity keys.
pub const ID_PREFIX: u32 = 9419;

/// Service namespace constant ("LSW" encoded) separating this protocol's
/// derivations from any other user of the same prefixes.
pub const LSW_IDENTIFIER: u32 = 121923;

/// Bit marking a child number as hardened.
pub const HARDENED_BIT: u32 = 0x8000_0000;

/// Whether a BIP39 seed phrase is valid (known words, good checksum).
pub uninterp spec fn mnemonic_ok(phrase: Seq<char>) -> bool;

/// The 64-byte BIP39 seed of a valid phrase, with an empty passphrase.
pub uninterp spec fn seed_of(phrase: Seq<char>) -> Seq<u8>;

/// The canonical rendering of a valid phrase: its words joined by single
/// spaces.
pub uninterp spec fn canonical_of(phrase: Seq<char>) -> Seq<char>;

/// The 32-byte secret key obtained by BIP32 child derivation from the master
/// key of `seed` along `path` (entries are raw child numbers; the high bit
/// marks a hardened step). Independent of the network: version bytes only
/// affect serialization.
pub uninterp spec fn derived_secret_of(seed: Seq<u8>, path: Seq<u32>) -> Seq<u8>;

/// The base58 string encoding of the extended public key derived from the
/// master key of `seed` along `path`. Mainnet and the test networks use
/// different version bytes, hence the flag.
pub uninterp spec fn xpub_of(seed: Seq<u8>, path: Seq<u32>, mainnet: bool) -> Seq<char>;

/// The 33-byte compressed public key reached from the extended public key
/// encoded by `xpub` along the non-hardened `path`.
pub uninterp spec fn xpub_child_pk_of(xpub: Seq<char>, path: Seq<u32>) -> Seq<u8>;

/// Whether a string parses as an extended public key whose recorded depth
/// leaves room for further derivation steps (at most 250 of the 255
/// representable levels used).
pub uninterp spec fn xpub_wf(xpub: Seq<char>) -> bool;

/// Number of maximal runs of non-space characters: the word count of a
/// space-separated phrase. `in_word` carries whether the previous character
/// was part of a word.
pub open spec fn count_words_from(s: Seq<char>, in_word: bool) -> int
    decreases s.len(),
{
    if s.len() == 0 {
        0
    } else {
        let is_space = s[0] == ' ';
        (if !is_space && !in_word {
            1int
        } else {
            0int
        }) + count_words_from(s.skip(1), !is_space)
    }
}

/// The number of space-separated words in a phrase.
pub open spec fn spec_word_count(s: Seq<char>) -> int {
    count_words_from(s, false)
}

/// Relies on `bip39::Mnemonic::from_str` (succeeds exactly on valid phrases)
/// and `bip39::Mnemonic::to_seed_normalized` with an empty passphrase (the
/// 64-byte seed is a function of the phrase alone).
#[verifier::external_body]
pub(crate) fn mnemonic_to_seed(phrase: &str) -> (r: Result<Vec<u8>, Error>)
    ensures
        r is Ok ==> mnemonic_ok(phrase@),
        mnemonic_ok(phrase@) ==> r is Ok,
        r matches Ok(s) ==> s@ == seed_of(phrase@) && s@.len() == 64,
        r matches Err(e) ==> e is InvalidMnemonic,
{
    let mnemonic = <bip39::Mnemonic as core::str::FromStr>::from_str(phrase)
        .map_err(|e| Error::InvalidMnemonic(format!("{}", e)))?;
    Ok(mnemonic.to_seed_normalized("").to_vec())
}

/// Relies on `bip39::Mnemonic::from_str` and the `Display` rendering of
/// `bip39::Mnemonic`: parsing succeeds exactly on valid phrases; the
/// rendering joins the parsed words with single spaces, so it is a function
/// of the phrase alone, parses back as a valid mnemonic, and yields the same
/// seed, since the seed is computed from the word sequence.
#[verifier::external_body]
pub(crate) fn canonical_mnemonic(phrase: &str) -> (r: Result<String, Error>)
    ensures
        r is Ok ==> mnemonic_ok(phrase@),
        mnemonic_ok(phrase@) ==> r is Ok,
        r matches Ok(c) ==> c@ == canonical_of(phrase@) && mnemonic_ok(c@) && seed_of(c@)
            == seed_of(phrase@),
        r matches Err(e) ==> e is InvalidMnemonic,
{
    let mnemonic = <bip39::Mnemonic as core::str::FromStr>::from_str(phrase)
        .map_err(|e| Error::InvalidMnemonic(format!("{}", e)))?;
    Ok(mnemonic.to_string())
}

/// Relies on `bip39::Mnemonic::generate`: it draws fresh entropy from the
/// operating system, succeeds exactly on the supported word counts, and every
/// phrase it returns renders as exactly `word_count` words joined by single
/// spaces and parses back as a valid mnemonic.
#[verifier::external_body]
pub(crate) fn generate_mnemonic(word_count: usize) -> (r: Result<String, Error>)
    ensures
        r is Ok ==> (word_count == 12 || word_count == 15 || word_count == 18 || word_count == 21
            || word_count == 24),
        (word_count == 12 || word_count == 15 || word_count == 18 || word_count == 21
            || word_count == 24) ==> r is Ok,
        r matches Ok(p) ==> mnemonic_ok(p@) && spec_word_count(p@) == word_count,
        r matches Err(e) ==> e is KeyDerivation,
{
    let words = match word_count {
        12 => bip39::WordCount::Words12,
        15 => bip39::WordCount::Words15,
        18 => bip39::WordCount::Words18,
        21 => bip39::WordCount::Words21,
        24 => bip39::WordCount::Words24,
        n => {
            return Err(Error::KeyDerivation(format!("Unsupported word count: {}", n)));
        },
    };
    let mnemonic = bip39::Mnemonic::generate(words)
        .map_err(|e| Error::KeyDerivation(format!("Failed to generate mnemonic: {}", e)))?;
    Ok(mnemonic.to_string())
}

/// Relies on `bitcoin::bip32::Xpriv::new_master` and `derive_priv`: the
/// derived secret key bytes are a function of the seed and the path alone
/// (the network kind passed to `new_master` only selects serialization
/// version bytes, which the returned key bytes do not contain), and every key
/// the derivation returns is a valid secp256k1 secret key. Derivation treats
/// the astronomically improbable invalid-tweak and invalid-master-key cases
/// as unreachable; up to those, derivation succeeds whenever the path leaves
/// the one-byte depth counter in range.
#[verifier::external_body]
pub(crate) fn derive_secret_key(seed: &Vec<u8>, path: &Vec<u32>) -> (r: Result<Vec<u8>, Error>)
    ensures
        r matches Ok(k) ==> k@ == derived_secret_of(seed@, path@) && k@.len() == 32
            && seckey_valid(k@),
        path@.len() <= 255 ==> r is Ok,
        r matches Err(e) ==> e is KeyDerivation,
{
    let secp = bitcoin::secp256k1::Secp256k1::new();
    let master = bitcoin::bip32::Xpriv::new_master(bitcoin::NetworkKind::Main, seed.as_slice())
        .map_err(|e| Error::KeyDerivation(format!("Failed to derive master key: {}", e)))?;
    let children: Vec<bitcoin::bip32::ChildNumber> =
        path.iter().map(|n| bitcoin::bip32::ChildNumber::from(*n)).collect();
    let derived = master
        .derive_priv(&secp, &children)
        .map_err(|e| Error::KeyDerivation(format!("Key derivation failed: {}", e)))?;
    Ok(derived.private_key.secret_bytes().to_vec())
}

/// Relies on `bitcoin::bip32::Xpriv::new_master`, `derive_priv`,
/// `Xpub::from_priv` and the base58 `Display` encoding of `Xpub`: the encoded
/// extended public key is a function of the seed, the path, and the network
/// kind (mainnet or not) alone. The encoding records the derivation depth
/// (the path length, from a depth-zero master key) and round-trips through
/// `Xpub::from_str`, so a short path yields a well-formed xpub; the
/// improbable invalid-key events are treated as unreachable, as above.
#[verifier::external_body]
pub(crate) fn derive_xpub_string(seed: &Vec<u8>, path: &Vec<u32>, mainnet: bool) -> (r: Result<
    String,
    Error,
>)
    ensures
        r matches Ok(x) ==> x@ == xpub_of(seed@, path@, mainnet),
        r matches Ok(x) ==> (path@.len() <= 250 ==> xpub_wf(x@)),
        path@.len() <= 255 ==> r is Ok,
        r matches Err(e) ==> e is KeyDerivation,
{
    let network = if mainnet { bitcoin::NetworkKind::Main } else { bitcoin::NetworkKind::Test };
    let secp = bitcoin::secp256k1::Secp256k1::new();
    let master = bitcoin::bip32::Xpriv::new_master(network, seed.as_slice())
        .map_err(|e| Error::KeyDerivation(format!("Failed to derive master key: {}", e)))?;
    let children: Vec<bitcoin::bip32::ChildNumber> =
        path.iter().map(|n| bitcoin::bip32::ChildNumber::from(*n)).collect();
    let derived = master
        .derive_priv(&secp, &children)
        .map_err(|e| Error::KeyDerivation(format!("Key derivation failed: {}", e)))?;
    let xpub = bitcoin::bip32::Xpub::from_priv(&secp, &derived);
    Ok(xpub.to_string())
}

/// Relies on `bitcoin::bip32::Xpub::from_str` and `derive_pub`: the derived
/// compressed public key is a function of the encoded extended public key and
/// the non-hardened path alone. `derive_pub` fails on any hardened path entry
/// and `from_str` fails on a malformed encoding; on a well-formed xpub with a
/// short non-hardened path it succeeds, treating the improbable invalid-tweak
/// event as unreachable, as above.
#[verifier::external_body]
pub(crate) fn xpub_child_pubkey(xpub: &str, path: &Vec<u32>) -> (r: Result<Vec<u8>, Error>)
    ensures
        r matches Ok(pk) ==> pk@ == xpub_child_pk_of(xpub@, path@) && pk@.len() == 33,
        (xpub_wf(xpub@) && path@.len() <= 5 && (forall|i: int|
            0 <= i < path@.len() ==> #[trigger] path@[i] < HARDENED_BIT)) ==> r is Ok,
        r matches Err(e) ==> e is KeyDerivation,
{
    let parsed = <bitcoin::bip32::Xpub as core::str::FromStr>::from_str(xpub)
        .map_err(|e| Error::KeyDerivation(format!("Invalid derivation path: {}", e)))?;
    let secp = bitcoin::secp256k1::Secp256k1::new();
    let children: Vec<bitcoin::bip32::ChildNumber> =
        path.iter().map(|n| bitcoin::bip32::ChildNumber::from(*n)).collect();
    let derived = parsed
        .derive_pub(&secp, &children)
        .map_err(|e| Error::KeyDerivation(format!("Failed to derive user_id: {}", e)))?;
    Ok(derived.public_key.serialize().to_vec())
}

/// A raw child number with the hardened bit set.
pub open spec fn hardened(i: u32) -> u32 {
    i | HARDENED_BIT
}

/// The fully hardened signing-key path for a swap index:
/// `m/SIGNING_PREFIX'/LSW_IDENTIFIER'/index'`.
pub open spec fn signing_path(index: u32) -> Seq<u32> {
    seq![hardened(SIGNING_PREFIX), hardened(LSW_IDENTIFIER), hardened(index)]
}

/// The hardened root path of the identity branch:
/// `m/ID_PREFIX'/LSW_IDENTIFIER'/0'`.
pub open spec fn user_id_root_path() -> Seq<u32> {
    seq![hardened(ID_PREFIX), hardened(LSW_IDENTIFIER), hardened(0)]
}

/// The non-hardened identity path for a swap index below the identity root:
/// `m/ID_PREFIX/LSW_IDENTIFIER/index`.
pub open spec fn user_id_child_path(index: u32) -> Seq<u32> {
    seq![ID_PREFIX, LSW_IDENTIFIER, index]
}

/// The ASCII bytes of the tag string that domain-separates preimage
/// generation ("lendaswap/preimage").
pub open spec fn preimage_tag() -> Seq<u8> {
    seq![
        108u8,
        101u8,
        110u8,
        100u8,
        97u8,
        115u8,
        119u8,
        97u8,
        112u8,
        47u8,
        112u8,
        114u8,
        101u8,
        105u8,
        109u8,
        97u8,
        103u8,
        101u8,
    ]
}

/// BIP340-style tagged hash: `sha256(sha256(tag) || sha256(tag) || data)`.
pub open spec fn spec_tagged_hash(tag: Seq<u8>, data: Seq<u8>) -> Seq<u8> {
    sha256_of(sha256_of(tag) + sha256_of(tag) + data)
}

/// The swap signing key for a phrase and index.
pub open spec fn spec_secret_key(phrase: Seq<char>, index: u32) -> Seq<u8> {
    derived_secret_of(seed_of(phrase), signing_path(index))
}

/// The HTLC preimage for a phrase and index: a tagged hash of the swap
/// signing key's raw bytes, so recovery needs only the seed and the index.
pub open spec fn spec_preimage(phrase: Seq<char>, index: u32) -> Seq<u8> {
    spec_tagged_hash(preimage_tag(), spec_secret_key(phrase, index))
}

/// The encoded identity-branch extended public key for a phrase.
pub open spec fn spec_user_id_xpub(phrase: Seq<char>, mainnet: bool) -> Seq<char> {
    xpub_of(seed_of(phrase), user_id_root_path(), mainnet)
}

/// The identity public key for a phrase and index: the non-hardened child of
/// the identity xpub at the index path.
pub open spec fn spec_user_id(phrase: Seq<char>, mainnet: bool, index: u32) -> Seq<u8> {
    xpub_child_pk_of(spec_user_id_xpub(phrase, mainnet), user_id_child_path(index))
}

/// Everything [`HdWallet::derive_swap_params`] promises of its output: each
/// field is the stated function of the phrase, the network kind and the
/// index, the preimage hash is the SHA-256 digest of the preimage, and the
/// public key matches the secret key.
pub open spec fn spec_swap_params_match(
    phrase: Seq<char>,
    mainnet: bool,
    index: u32,
    p: SwapParams,
) -> bool {
    &&& p.key_index == index
    &&& p.secret_key@ == spec_secret_key(phrase, index)
    &&& p.public_key@ == pubkey_of(p.secret_key@)
    &&& p.preimage@ == spec_preimage(phrase, index)
    &&& p.preimage_hash@ == sha256_of(p.preimage@)
    &&& p.user_id@ == spec_user_id(phrase, mainnet, index)
}

/// Derivation is deterministic: two parameter sets derived from the same
/// phrase, network kind and index agree on every field.
pub proof fn lemma_derivation_deterministic(
    phrase: Seq<char>,
    mainnet: bool,
    index: u32,
    first: SwapParams,
    second: SwapParams,
)
    requires
        spec_swap_params_match(phrase, mainnet, index, first),
        spec_swap_params_match(phrase, mainnet, index, second),
    ensures
        first.secret_key@ == second.secret_key@,
        first.public_key@ == second.public_key@,
        first.preimage@ == second.preimage@,
        first.preimage_hash@ == second.preimage_hash@,
        first.user_id@ == second.user_id@,
        first.key_index == second.key_index,
{
}

/// The two identity-key derivation routes agree: deriving the identity key
/// for an index directly from the seed phrase gives exactly the non-hardened
/// child of the shared identity xpub at that index, so the remote service can
/// recompute identity keys from the xpub alone.
pub proof fn lemma_user_id_routes_agree(phrase: Seq<char>, mainnet: bool, index: u32)
    ensures
        spec_user_id(phrase, mainnet, index) == xpub_child_pk_of(
            spec_user_id_xpub(phrase, mainnet),
            user_id_child_path(index),
        ),
{
}

/// Builds the executable signing path for an index.
fn signing_path_vec(index: u32) -> (p: Vec<u32>)
    ensures
        p@ == signing_path(index),
{
    let mut p: Vec<u32> = Vec::new();
    p.push(SIGNING_PREFIX | HARDENED_BIT);
    p.push(LSW_IDENTIFIER | HARDENED_BIT);
    p.push(index | HARDENED_BIT);
    assert(p@ =~= signing_path(index));
    p
}

/// Builds the executable identity-root path.
fn user_id_root_path_vec() -> (p: Vec<u32>)
    ensures
        p@ == user_id_root_path(),
{
    let mut p: Vec<u32> = Vec::new();
    p.push(ID_PREFIX | HARDENED_BIT);
    p.push(LSW_IDENTIFIER | HARDENED_BIT);
    p.push(0u32 | HARDENED_BIT);
    assert(p@ =~= user_id_root_path());
    p
}

/// Builds the executable non-hardened identity path for an index.
fn user_id_child_path_vec(index: u32) -> (p: Vec<u32>)
    ensures
        p@ == user_id_child_path(index),
{
    let mut p: Vec<u32> = Vec::new();
    p.push(ID_PREFIX);
    p.push(LSW_IDENTIFIER);
    p.push(index);
    assert(p@ =~= user_id_child_path(index));
    p
}

/// Builds the tag bytes for preimage generation.
fn preimage_tag_bytes() -> (v: Vec<u8>)
    ensures
        v@ == preimage_tag(),
{
    let mut v: Vec<u8> = Vec::new();
    v.push(108);
    v.push(101);
    v.push(110);
    v.push(100);
    v.push(97);
    v.push(115);
    v.push(119);
    v.push(97);
    v.push(112);
    v.push(47);
    v.push(112);
    v.push(114);
    v.push(101);
    v.push(105);
    v.push(109);
    v.push(97);
    v.push(103);
    v.push(101);
    assert(v@ =~= preimage_tag());
    v
}

/// BIP340-style tagged hash for domain separation:
/// `sha256(sha256(tag) || sha256(tag) || data)`.
fn tagged_hash(tag: &Vec<u8>, data: &Vec<u8>) -> (r: Vec<u8>)
    ensures
        r@ == spec_tagged_hash(tag@, data@),
        r@.len() == 32,
{
    let tag_hash = sha256(tag);
    let mut buf: Vec<u8> = Vec::new();
    buf.extend_from_slice(tag_hash.as_slice());
    buf.extend_from_slice(tag_hash.as_slice());
    buf.extend_from_slice(data.as_slice());
    assert(buf@ =~= sha256_of(tag@) + sha256_of(tag@) + data@);
    sha256(&buf)
}

/// HD wallet: a validated seed phrase together with the network it serves.
#[derive(Debug)]
pub struct HdWallet {
    mnemonic: String,
    network: Network,
}

impl HdWallet {
    /// The wallet's seed phrase.
    pub closed spec fn spec_mnemonic(&self) -> Seq<char> {
        self.mnemonic@
    }

    /// The wallet's network.
    pub closed spec fn spec_network(&self) -> Network {
        self.network
    }

    /// A wallet is well-formed when its phrase is a valid mnemonic; both
    /// constructors establish this.
    pub open spec fn wf(&self) -> bool {
        mnemonic_ok(self.spec_mnemonic())
    }

    /// Generate a new HD wallet with a fresh random mnemonic of `word_count`
    /// words (12, 15, 18, 21 or 24).
    pub fn generate(network: Network, word_count: usize) -> (r: Result<HdWallet, Error>)
        ensures
            r matches Ok(w) ==> w.wf() && w.spec_network() == network && spec_word_count(
                w.spec_mnemonic(),
            ) == word_count,
            r is Ok <==> (word_count == 12 || word_count == 15 || word_count == 18 || word_count
                == 21 || word_count == 24),
    {
        let mnemonic = match generate_mnemonic(word_count) {
            Ok(m) => m,
            Err(e) => {
                return Err(e);
            },
        };
        Ok(HdWallet { mnemonic, network })
    }

    /// Create an HD wallet from an existing mnemonic phrase, holding its
    /// canonical rendering (words joined by single spaces), which yields the
    /// same seed. Fails with `InvalidMnemonic` exactly when the phrase does
    /// not validate.
    pub fn from_mnemonic(phrase: &str, network: Network) -> (r: Result<HdWallet, Error>)
        ensures
            r is Ok <==> mnemonic_ok(phrase@),
            r matches Ok(w) ==> w.wf() && w.spec_mnemonic() == canonical_of(phrase@) && seed_of(
                w.spec_mnemonic(),
            ) == seed_of(phrase@) && w.spec_network() == network,
            !mnemonic_ok(phrase@) ==> (r matches Err(e) && e is InvalidMnemonic),
    {
        match canonical_mnemonic(phrase) {
            Ok(canonical) => Ok(HdWallet { mnemonic: canonical, network }),
            Err(e) => Err(e),
        }
    }

    /// Get the mnemonic phrase as a string, in its canonical rendering.
    pub fn mnemonic_phrase(&self) -> (r: String)
        ensures
            r@ == self.spec_mnemonic(),
    {
        self.mnemonic.clone()
    }

    /// Derive the swap parameters at the given index along the fully hardened
    /// signing path, the tagged-hash preimage chain, and the identity branch.
    ///
    /// Succeeds exactly on the indices a hardened child number exists for
    /// (those without the hardened bit); every failure is reported as
    /// `KeyDerivation`.
    pub fn derive_swap_params(&self, index: u32) -> (r: Result<SwapParams, Error>)
        requires
            self.wf(),
        ensures
            r matches Ok(p) ==> spec_swap_params_match(
                self.spec_mnemonic(),
                self.spec_network().spec_is_mainnet(),
                index,
                p,
            ) && wf_swap_params(p),
            r is Ok <==> index < HARDENED_BIT,
            r matches Err(e) ==> e is KeyDerivation,
    {
        if index >= HARDENED_BIT {
            return Err(Error::KeyDerivation("derivation index out of range".to_owned()));
        }
        let seed = match mnemonic_to_seed(self.mnemonic.as_str()) {
            Ok(s) => s,
            Err(e) => {
                return Err(e);
            },
        };
        let path = signing_path_vec(index);
        let secret_key = match derive_secret_key(&seed, &path) {
            Ok(k) => k,
            Err(e) => {
                return Err(e);
            },
        };
        let public_key = match secp256k1_pubkey(&secret_key) {
            Ok(p) => p,
            Err(e) => {
                return Err(e);
            },
        };
        let tag = preimage_tag_bytes();
        let preimage = tagged_hash(&tag, &secret_key);
        let preimage_hash = sha256(&preimage);
        let user_id = match self.derive_user_id(index) {
            Ok(u) => u,
            Err(e) => {
                return Err(e);
            },
        };
        Ok(SwapParams { secret_key, public_key, preimage, preimage_hash, user_id, key_index: index })
    }

    /// Derive the identity public key at `index`: the non-hardened child of
    /// the identity xpub, exactly what the remote service computes on its
    /// side from the shared xpub.
    fn derive_user_id(&self, index: u32) -> (r: Result<Vec<u8>, Error>)
        requires
            self.wf(),
        ensures
            r matches Ok(pk) ==> pk@ == spec_user_id(
                self.spec_mnemonic(),
                self.spec_network().spec_is_mainnet(),
                index,
            ) && pk@.len() == 33,
            r is Ok <==> index < HARDENED_BIT,
            r matches Err(e) ==> e is KeyDerivation,
    {
        let xpub = match self.derive_user_id_xpub() {
            Ok(x) => x,
            Err(e) => {
                return Err(e);
            },
        };
        derive_user_id_from_xpub(xpub.as_str(), index)
    }

    /// Derive the extended public key of the identity branch.
    ///
    /// The branch root is hardened, so leaking a key derived below it never
    /// exposes the master key. The xpub itself is safe to share with the
    /// remote service for recovery.
    pub fn derive_user_id_xpub(&self) -> (r: Result<String, Error>)
        requires
            self.wf(),
        ensures
            r matches Ok(x) ==> x@ == spec_user_id_xpub(
                self.spec_mnemonic(),
                self.spec_network().spec_is_mainnet(),
            ) && xpub_wf(x@),
            r is Ok,
    {
        let seed = match mnemonic_to_seed(self.mnemonic.as_str()) {
            Ok(s) => s,
            Err(e) => {
                return Err(e);
            },
        };
        let path = user_id_root_path_vec();
        let mainnet = self.network.is_mainnet();
        derive_xpub_string(&seed, &path, mainnet)
    }
}

/// Derive the identity public key at `index` from an encoded identity xpub,
/// the route the remote service takes during recovery.
///
/// Returns `Err` for indices with the hardened bit set: public derivation
/// cannot cross a hardened step.
pub fn derive_user_id_from_xpub(xpub: &str, index: u32) -> (r: Result<Vec<u8>, Error>)
    ensures
        r matches Ok(pk) ==> pk@ == xpub_child_pk_of(xpub@, user_id_child_path(index)) && pk@.len()
            == 33,
        index >= HARDENED_BIT ==> r is Err,
        (xpub_wf(xpub@) && index < HARDENED_BIT) ==> r is Ok,
        r matches Err(e) ==> e is KeyDerivation,
{
    if index >= HARDENED_BIT {
        return Err(Error::KeyDerivation("identity index out of range".to_owned()));
    }
    let path = user_id_child_path_vec(index);
    xpub_child_pubkey(xpub, &path)
}

} // verus!
