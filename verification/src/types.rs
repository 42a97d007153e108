//! Shared data model of the swap engine.
//!
//! Keys and hashes are held as raw byte vectors: secret keys, preimages and
//! preimage hashes are 32 bytes, public keys are 33-byte compressed secp256k1
//! encodings. At serialization boundaries they travel hex-encoded; the
//! conversions live with the callers.

use vstd::prelude::*;

use crate::error::Error;

verus! {

/// Bitcoin network type.
#[derive(Debug, Clone, Copy, PartialEq, Eq, Structural)]
pub enum Network {
    /// Bitcoin mainnet.
    Bitcoin,
    /// Bitcoin testnet.
    Testnet,
    /// Bitcoin regtest (local development).
    Regtest,
    /// Mutinynet (signet).
    Mutinynet,
}

impl Network {
    /// Whether the network serializes extended keys with mainnet version
    /// bytes. Only mainnet does; testnet, regtest and signet share the
    /// testnet encoding.
    pub open spec fn spec_is_mainnet(self) -> bool {
        self is Bitcoin
    }

    /// Returns true exactly on mainnet.
    pub fn is_mainnet(&self) -> (r: bool)
        ensures
            r == self.spec_is_mainnet(),
    {
        match self {
            Network::Bitcoin => true,
            Network::Testnet => false,
            Network::Regtest => false,
            Network::Mutinynet => false,
        }
    }

    /// A small integer tag distinguishing the four networks, used where a
    /// contract must speak of the network as a plain value.
    pub open spec fn spec_tag(self) -> u32 {
        match self {
            Network::Bitcoin => 0u32,
            Network::Testnet => 1u32,
            Network::Regtest => 2u32,
            Network::Mutinynet => 3u32,
        }
    }

    /// See [`Network::spec_tag`].
    pub fn tag(&self) -> (r: u32)
        ensures
            r == self.spec_tag(),
    {
        match self {
            Network::Bitcoin => 0,
            Network::Testnet => 1,
            Network::Regtest => 2,
            Network::Mutinynet => 3,
        }
    }

    /// The canonical name of the network.
    pub open spec fn spec_name(self) -> Seq<char> {
        match self {
            Network::Bitcoin => "bitcoin"@,
            Network::Testnet => "testnet"@,
            Network::Regtest => "regtest"@,
            Network::Mutinynet => "mutinynet"@,
        }
    }

    /// See [`Network::spec_name`].
    pub fn name(&self) -> (r: &'static str)
        ensures
            r@ == self.spec_name(),
    {
        match self {
            Network::Bitcoin => "bitcoin",
            Network::Testnet => "testnet",
            Network::Regtest => "regtest",
            Network::Mutinynet => "mutinynet",
        }
    }

    /// The network a name denotes, if any; letter case is ignored.
    pub open spec fn spec_from_name(s: Seq<char>) -> Option<Network> {
        if spec_eq_lower(s, "bitcoin"@) || spec_eq_lower(s, "mainnet"@) {
            Some(Network::Bitcoin)
        } else if spec_eq_lower(s, "testnet"@) || spec_eq_lower(s, "testnet3"@) {
            Some(Network::Testnet)
        } else if spec_eq_lower(s, "regtest"@) {
            Some(Network::Regtest)
        } else if spec_eq_lower(s, "mutinynet"@) || spec_eq_lower(s, "signet"@) {
            Some(Network::Mutinynet)
        } else {
            None
        }
    }

    /// Parse a network from its name, ignoring ASCII letter case and
    /// accepting the common aliases ("mainnet", "testnet3", "signet").
    pub fn from_name(s: &str) -> (r: Result<Network, Error>)
        ensures
            r matches Ok(n) ==> Network::spec_from_name(s@) == Some(n),
            r is Err <==> Network::spec_from_name(s@) is None,
            r matches Err(e) ==> e is Parse,
    {
        if eq_lower(s, "bitcoin") || eq_lower(s, "mainnet") {
            Ok(Network::Bitcoin)
        } else if eq_lower(s, "testnet") || eq_lower(s, "testnet3") {
            Ok(Network::Testnet)
        } else if eq_lower(s, "regtest") {
            Ok(Network::Regtest)
        } else if eq_lower(s, "mutinynet") || eq_lower(s, "signet") {
            Ok(Network::Mutinynet)
        } else {
            Err(Error::Parse("Unknown network".to_owned()))
        }
    }
}

/// The ASCII-lowercased code point of a character: letters `A` to `Z` map
/// 32 code points up, everything else stays.
pub open spec fn spec_lower_u32(v: u32) -> u32 {
    if 65 <= v && v <= 90 {
        (v + 32) as u32
    } else {
        v
    }
}

/// Whether `s` equals the (already lowercase) `t` up to ASCII letter case.
pub open spec fn spec_eq_lower(s: Seq<char>, t: Seq<char>) -> bool {
    s.len() == t.len() && (forall|i: int|
        0 <= i < s.len() ==> spec_lower_u32(#[trigger] s[i] as u32) == t[i] as u32)
}

/// Compare a string against a lowercase reference, ignoring ASCII letter
/// case in the input.
fn eq_lower(s: &str, t: &str) -> (r: bool)
    ensures
        r == spec_eq_lower(s@, t@),
{
    let n = s.unicode_len();
    let m = t.unicode_len();
    if n != m {
        return false;
    }
    let mut i: usize = 0;
    while i < n
        invariant
            i <= n,
            n == s@.len(),
            n == t@.len(),
            forall|j: int| 0 <= j < i ==> spec_lower_u32(#[trigger] s@[j] as u32) == t@[j] as u32,
        decreases n - i,
    {
        let cs = s.get_char(i) as u32;
        let ct = t.get_char(i) as u32;
        let lowered = if 65 <= cs && cs <= 90 {
            cs + 32
        } else {
            cs
        };
        if lowered != ct {
            return false;
        }
        i = i + 1;
    }
    true
}

/// Parsing a network's canonical name gives the network back.
pub proof fn lemma_network_name_round_trip(n: Network)
    ensures
        Network::spec_from_name(n.spec_name()) == Some(n),
{
    reveal_strlit("bitcoin");
    reveal_strlit("mainnet");
    reveal_strlit("testnet");
    reveal_strlit("testnet3");
    reveal_strlit("regtest");
    reveal_strlit("mutinynet");
    reveal_strlit("signet");
    assert(spec_eq_lower("bitcoin"@, "bitcoin"@));
    assert(spec_eq_lower("testnet"@, "testnet"@));
    assert(spec_eq_lower("regtest"@, "regtest"@));
    assert(spec_eq_lower("mutinynet"@, "mutinynet"@));
    assert(!spec_eq_lower("testnet"@, "bitcoin"@)) by {
        assert(spec_lower_u32("testnet"@[0] as u32) != "bitcoin"@[0] as u32);
    }
    assert(!spec_eq_lower("testnet"@, "mainnet"@)) by {
        assert(spec_lower_u32("testnet"@[0] as u32) != "mainnet"@[0] as u32);
    }
    assert(!spec_eq_lower("regtest"@, "bitcoin"@)) by {
        assert(spec_lower_u32("regtest"@[0] as u32) != "bitcoin"@[0] as u32);
    }
    assert(!spec_eq_lower("regtest"@, "mainnet"@)) by {
        assert(spec_lower_u32("regtest"@[0] as u32) != "mainnet"@[0] as u32);
    }
    assert(!spec_eq_lower("regtest"@, "testnet"@)) by {
        assert(spec_lower_u32("regtest"@[0] as u32) != "testnet"@[0] as u32);
    }
}

impl core::str::FromStr for Network {
    type Err = Error;

    fn from_str(s: &str) -> (r: Result<Network, Error>) {
        Network::from_name(s)
    }
}

/// Parameters derived for a swap operation.
///
/// Invariants (see [`wf_swap_params`]): `preimage_hash` is the SHA-256 digest
/// of `preimage`, `public_key` is the compressed secp256k1 public key of
/// `secret_key`, and both `secret_key` and `preimage` are functions of the
/// seed phrase and `key_index` alone, so re-derivation at the same index is
/// byte-identical.
#[derive(Debug, PartialEq, Eq)]
pub struct SwapParams {
    /// 32-byte secp256k1 secret key for this swap.
    pub secret_key: Vec<u8>,
    /// 33-byte compressed secp256k1 public key matching `secret_key`.
    pub public_key: Vec<u8>,
    /// 32-byte HTLC preimage.
    pub preimage: Vec<u8>,
    /// SHA-256 digest of `preimage`.
    pub preimage_hash: Vec<u8>,
    /// 33-byte compressed public key identifying the user towards the
    /// remote service, derived on a separate branch.
    pub user_id: Vec<u8>,
    /// HD derivation index this parameter set was derived at.
    pub key_index: u32,
}

impl Clone for SwapParams {
    /// Cloning preserves every field's value.
    fn clone(&self) -> (res: Self)
        ensures
            swap_params_eq(res, *self),
    {
        let res = SwapParams {
            secret_key: self.secret_key.clone(),
            public_key: self.public_key.clone(),
            preimage: self.preimage.clone(),
            preimage_hash: self.preimage_hash.clone(),
            user_id: self.user_id.clone(),
            key_index: self.key_index,
        };
        proof {
            assert(res.secret_key@ =~= self.secret_key@);
            assert(res.public_key@ =~= self.public_key@);
            assert(res.preimage@ =~= self.preimage@);
            assert(res.preimage_hash@ =~= self.preimage_hash@);
            assert(res.user_id@ =~= self.user_id@);
        }
        res
    }
}

/// Two parameter sets agree on every field's value.
pub open spec fn swap_params_eq(a: SwapParams, b: SwapParams) -> bool {
    &&& a.secret_key@ == b.secret_key@
    &&& a.public_key@ == b.public_key@
    &&& a.preimage@ == b.preimage@
    &&& a.preimage_hash@ == b.preimage_hash@
    &&& a.user_id@ == b.user_id@
    &&& a.key_index == b.key_index
}

/// Basic shape of a parameter set: every field has its fixed length.
pub open spec fn wf_swap_params(p: SwapParams) -> bool {
    &&& p.secret_key@.len() == 32
    &&& p.public_key@.len() == 33
    &&& p.preimage@.len() == 32
    &&& p.preimage_hash@.len() == 32
    &&& p.user_id@.len() == 33
}

/// VHTLC amounts returned from the settlement network, all in satoshis.
#[derive(Debug, Clone, Copy, PartialEq, Eq, Structural)]
pub struct VhtlcAmounts {
    /// Amount that can be spent (in satoshis).
    pub spendable: u64,
    /// Amount already spent (in satoshis).
    pub spent: u64,
    /// Amount that can be recovered via refund (in satoshis).
    pub recoverable: u64,
}

/// Swap data stored locally for VHTLC operations: the server-reported subset
/// needed to reconstruct the locking condition.
///
/// Reconstructing the VHTLC from these fields together with the matching
/// [`SwapParams`] must reproduce `vhtlc_address` exactly; a mismatch is a
/// hard integrity failure.
#[derive(Debug, Clone, PartialEq, Eq)]
pub struct SwapData {
    /// HD derivation index for this swap.
    pub key_index: u32,
    /// Public key of the swap service (hex-encoded).
    pub lendaswap_pk: String,
    /// Settlement-network server public key (hex-encoded).
    pub arkade_server_pk: String,
    /// Absolute locktime for refunds (Unix timestamp).
    pub refund_locktime: u32,
    /// Relative delay for unilateral claim, in seconds.
    pub unilateral_claim_delay: i64,
    /// Relative delay for unilateral refund, in seconds.
    pub unilateral_refund_delay: i64,
    /// Relative delay for unilateral refund without receiver, in seconds.
    pub unilateral_refund_without_receiver_delay: i64,
    /// Bitcoin network.
    pub network: Network,
    /// VHTLC address on the settlement network (opaque encoding; compared
    /// for equality, never parsed here).
    pub vhtlc_address: String,
}

} // verus!
