//! VHTLC (virtual hashed-timelock contract) claim and refund planning.
//!
//! A spend of a VHTLC proceeds in phases: reconstruct the locking condition
//! from the stored parameters and check it against the stored address (the
//! integrity check — on mismatch nothing else may happen), select the coins
//! to spend and fix the leaf and locktime, and produce per-input witness
//! data. Everything here is synchronous and verified; the caller performs the
//! network round-trips between the phases and hands the results back as plain
//! values.

use vstd::prelude::*;

use bitcoin::Sequence;
use bitcoin::hashes::Hash as HashTrait;
use bitcoin::secp256k1::PublicKey;

use crate::crypto::compressed_of;
use crate::crypto::compressed_pubkey;
use crate::crypto::pubkey_bytes_valid;
use crate::crypto::pubkey_of;
use crate::crypto::ripemd160;
use crate::crypto::ripemd160_of;
use crate::crypto::schnorr_sig_of;
use crate::crypto::schnorr_sign;
use crate::crypto::seckey_valid;
use crate::crypto::secp256k1_pubkey;
use crate::crypto::sha256;
use crate::crypto::sha256_of;
use crate::encoding::hex_decode;
use crate::encoding::spec_hex_decode;
use crate::encoding::spec_hex_ok;
use crate::error::Error;
use crate::types::Network;
use crate::types::SwapData;
use crate::types::SwapParams;
use crate::types::VhtlcAmounts;
use crate::types::wf_swap_params;

verus! {

/// Absolute locktimes at or above this threshold are Unix timestamps; below
/// it they would be block heights, which the refund path does not use.
pub const LOCK_TIME_THRESHOLD: u32 = 500_000_000;

/// The largest relative-delay value (in seconds) whose sequence encoding is
/// computed without overflow.
pub const MAX_SEQUENCE_SECONDS: i64 = 0xFFFF_FE00;

/// The encoded locking address of the VHTLC with the given participants
/// (33-byte compressed keys), 20-byte preimage hash, absolute refund
/// locktime, three sequence-encoded relative delays, and network (as the tag
/// of [`Network::spec_tag`]).
pub uninterp spec fn vhtlc_address_of(
    sender: Seq<u8>,
    receiver: Seq<u8>,
    server: Seq<u8>,
    preimage_hash: Seq<u8>,
    refund_locktime: u32,
    claim_delay: u32,
    refund_delay: u32,
    refund_without_receiver_delay: u32,
    network_tag: u32,
) -> Seq<char>;

/// The parameters that determine a VHTLC locking script.
#[derive(Debug, Clone, PartialEq, Eq)]
pub struct VhtlcParams {
    /// 33-byte compressed public key of the funding party.
    pub sender_pk: Vec<u8>,
    /// 33-byte compressed public key of the claiming party.
    pub receiver_pk: Vec<u8>,
    /// 33-byte compressed public key of the settlement-network server.
    pub server_pk: Vec<u8>,
    /// 20-byte RIPEMD-160 of the SHA-256 of the preimage.
    pub preimage_hash: Vec<u8>,
    /// Absolute refund locktime (Unix timestamp).
    pub refund_locktime: u32,
    /// Sequence-encoded relative delay of the unilateral claim path.
    pub unilateral_claim_delay: u32,
    /// Sequence-encoded relative delay of the unilateral refund path.
    pub unilateral_refund_delay: u32,
    /// Sequence-encoded relative delay of the unilateral
    /// refund-without-receiver path.
    pub unilateral_refund_without_receiver_delay: u32,
}

/// The address [`vhtlc_address_of`] assigns to a parameter set on a network.
pub open spec fn spec_params_address(p: VhtlcParams, network: Network) -> Seq<char> {
    vhtlc_address_of(
        p.sender_pk@,
        p.receiver_pk@,
        p.server_pk@,
        p.preimage_hash@,
        p.refund_locktime,
        p.unilateral_claim_delay,
        p.unilateral_refund_delay,
        p.unilateral_refund_without_receiver_delay,
        network.spec_tag(),
    )
}

/// A sequence-encoded delay that the locking script accepts: non-zero, with
/// the relative-locktime disable bit (the top bit) clear — equivalently,
/// below the bit's value.
pub open spec fn spec_sequence_encoding_valid(s: u32) -> bool {
    s != 0 && s < 0x8000_0000
}

/// Relies on ark-core's `VhtlcScript::new` and `address().encode()`: the
/// taproot tree and hence the encoded address are deterministic in the
/// options and the network alone. Construction validates the options —
/// non-zero locktime, each delay a valid non-zero relative locktime — and
/// then always succeeds: the six-leaf taproot tree it assembles is fixed in
/// shape and finalizes under the standard unspendable internal key. The tag
/// selects the network as [`Network::spec_tag`] does; mainnet (tag 0) uses
/// its own address prefix while the three test networks share one, so the
/// body maps every non-mainnet tag to the signet. The caller supplies valid
/// key and hash encodings, so those conversions cannot fail.
#[verifier::external_body]
pub(crate) fn compute_vhtlc_address(params: &VhtlcParams, network_tag: u32) -> (r: Result<
    String,
    Error,
>)
    requires
        params.preimage_hash@.len() == 20,
        pubkey_bytes_valid(params.sender_pk@),
        pubkey_bytes_valid(params.receiver_pk@),
        pubkey_bytes_valid(params.server_pk@),
    ensures
        r matches Ok(a) ==> a@ == vhtlc_address_of(
            params.sender_pk@,
            params.receiver_pk@,
            params.server_pk@,
            params.preimage_hash@,
            params.refund_locktime,
            params.unilateral_claim_delay,
            params.unilateral_refund_delay,
            params.unilateral_refund_without_receiver_delay,
            network_tag,
        ),
        (params.refund_locktime != 0 && spec_sequence_encoding_valid(params.unilateral_claim_delay)
            && spec_sequence_encoding_valid(params.unilateral_refund_delay)
            && spec_sequence_encoding_valid(params.unilateral_refund_without_receiver_delay))
            ==> r is Ok,
        r matches Err(e) ==> e is Vhtlc,
{
    let k = |b: &Vec<u8>| PublicKey::from_slice(b).unwrap();
    let net = if network_tag == 0 { bitcoin::Network::Bitcoin } else { bitcoin::Network::Signet };
    let opts = ark_core::vhtlc::VhtlcOptions {
        sender: k(&params.sender_pk).into(),
        receiver: k(&params.receiver_pk).into(),
        server: k(&params.server_pk).into(),
        preimage_hash: HashTrait::from_slice(&params.preimage_hash).unwrap(),
        refund_locktime: params.refund_locktime,
        unilateral_claim_delay: Sequence(params.unilateral_claim_delay),
        unilateral_refund_delay: Sequence(params.unilateral_refund_delay),
        unilateral_refund_without_receiver_delay: Sequence(params.unilateral_refund_without_receiver_delay),
    };
    let vhtlc = ark_core::vhtlc::VhtlcScript::new(opts, net).map_err(|e| Error::Vhtlc(e.to_string()))?;
    Ok(vhtlc.address().encode())
}

/// Whether a relative delay in seconds has a sequence encoding: values below
/// 512 encode as block counts, larger ones as 512-second intervals that must
/// fit sixteen bits.
pub open spec fn spec_sequence_ok(value: i64) -> bool {
    0 <= value && (value < 512 || (value + 511) / 512 <= 65535)
}

/// The sequence encoding of a relative delay in seconds: the raw value as a
/// block count below 512, otherwise the 512-second interval count (rounded
/// up) with the seconds-type flag set.
pub open spec fn spec_sequence_of(value: i64) -> u32 {
    if value < 512 {
        value as u32
    } else {
        // The seconds-type flag is bit 22; the interval count fits sixteen
        // bits, so setting the flag is plain addition.
        (0x0040_0000 + (value + 511) / 512) as u32
    }
}

/// Relies on ark-core's `parse_sequence_number`: negative values are
/// rejected, values below 512 become block-count sequences, larger values
/// become 512-second-interval sequences via `Sequence::from_seconds_ceil`,
/// which rejects interval counts above sixteen bits. The bound on `value`
/// keeps the rounding addition inside `u32`.
#[verifier::external_body]
pub(crate) fn parse_sequence_number(value: i64) -> (r: Result<u32, Error>)
    requires
        value <= MAX_SEQUENCE_SECONDS,
    ensures
        r is Ok ==> spec_sequence_ok(value),
        spec_sequence_ok(value) ==> r is Ok,
        r matches Ok(s) ==> s == spec_sequence_of(value),
{
    let sequence = ark_core::server::parse_sequence_number(value)
        .map_err(|e| Error::Vhtlc(format!("Invalid delay: {}", e)))?;
    Ok(sequence.to_consensus_u32())
}

/// Validate and encode a relative delay, rejecting values whose encoding
/// would not exist.
fn checked_sequence(value: i64) -> (r: Result<u32, Error>)
    ensures
        r is Ok <==> spec_sequence_ok(value),
        r matches Ok(s) ==> s == spec_sequence_of(value),
        r matches Err(e) ==> e is Vhtlc,
{
    if value < 0 || value > MAX_SEQUENCE_SECONDS {
        return Err(Error::Vhtlc("Invalid relative delay".to_owned()));
    }
    match parse_sequence_number(value) {
        Ok(s) => Ok(s),
        Err(_) => Err(Error::Vhtlc("Invalid relative delay".to_owned())),
    }
}

/// Parse a hex-encoded public key into its compressed form.
fn parse_public_key(hex_str: &str) -> (r: Result<Vec<u8>, Error>)
    ensures
        r is Ok <==> spec_hex_ok(hex_str@) && pubkey_bytes_valid(spec_hex_decode(hex_str@)),
        r matches Ok(pk) ==> pk@ == compressed_of(spec_hex_decode(hex_str@)) && pk@.len() == 33
            && pubkey_bytes_valid(pk@),
        r matches Err(e) ==> e is Parse || e is Bitcoin,
{
    let bytes = match hex_decode(hex_str) {
        Ok(b) => b,
        Err(e) => {
            return Err(e);
        },
    };
    compressed_pubkey(&bytes)
}

/// Which side of the HTLC the caller takes. Claiming makes the caller the
/// receiver and the counterparty the sender; refunding swaps the two roles.
/// That role swap is the only difference between the two bindings.
#[derive(Debug, Clone, Copy, PartialEq, Eq, Structural)]
pub enum VhtlcRole {
    /// The caller receives: it reveals the preimage.
    Claim,
    /// The caller funds and takes its coins back after the locktime.
    Refund,
}

/// The script leaf a spend goes through.
#[derive(Debug, Clone, Copy, PartialEq, Eq, Structural)]
pub enum SpendLeaf {
    /// The collaborative claim leaf (preimage plus receiver and server
    /// signatures).
    Claim,
    /// The refund-without-receiver leaf, gated by the absolute locktime.
    RefundWithoutReceiver,
}

/// A reconstructed and integrity-checked locking condition, ready for coin
/// selection and signing.
#[derive(Debug, Clone, PartialEq, Eq)]
pub struct VhtlcSpendContext {
    /// The reconstructed locking parameters.
    pub params: VhtlcParams,
    /// The role the caller takes in the spend.
    pub role: VhtlcRole,
    /// The locking address, equal both to the reconstruction and to the
    /// stored `vhtlc_address`.
    pub address: String,
}

/// The key binding for a role: on claim the counterparty sends and the
/// caller receives, on refund the caller sends and the counterparty
/// receives.
pub open spec fn spec_role_sender(role: VhtlcRole, own: Seq<u8>, counterparty: Seq<u8>) -> Seq<
    u8,
> {
    if role is Claim {
        counterparty
    } else {
        own
    }
}

/// See [`spec_role_sender`].
pub open spec fn spec_role_receiver(role: VhtlcRole, own: Seq<u8>, counterparty: Seq<u8>) -> Seq<
    u8,
> {
    if role is Claim {
        own
    } else {
        counterparty
    }
}

/// The locking address the reconstruction for a role yields: role-bound
/// keys, the double hash of the preimage, and the stored locktime, delays
/// and network.
pub open spec fn spec_role_address(role: VhtlcRole, d: SwapData, p: SwapParams) -> Seq<char> {
    vhtlc_address_of(
        spec_role_sender(
            role,
            pubkey_of(p.secret_key@),
            compressed_of(spec_hex_decode(d.lendaswap_pk@)),
        ),
        spec_role_receiver(
            role,
            pubkey_of(p.secret_key@),
            compressed_of(spec_hex_decode(d.lendaswap_pk@)),
        ),
        compressed_of(spec_hex_decode(d.arkade_server_pk@)),
        ripemd160_of(sha256_of(p.preimage@)),
        d.refund_locktime,
        spec_sequence_of(d.unilateral_claim_delay),
        spec_sequence_of(d.unilateral_refund_delay),
        spec_sequence_of(d.unilateral_refund_without_receiver_delay),
        d.network.spec_tag(),
    )
}

/// The stored parameters reconstruct into a locking script: the secret key
/// and the hex-encoded counterparty and server keys are valid, each delay
/// has a positive in-range sequence encoding, and the locktime is non-zero.
pub open spec fn spec_spend_inputs_ok(d: SwapData, p: SwapParams) -> bool {
    &&& p.secret_key@.len() == 32 && seckey_valid(p.secret_key@)
    &&& spec_hex_ok(d.lendaswap_pk@) && pubkey_bytes_valid(spec_hex_decode(d.lendaswap_pk@))
    &&& spec_hex_ok(d.arkade_server_pk@) && pubkey_bytes_valid(
        spec_hex_decode(d.arkade_server_pk@),
    )
    &&& 0 < d.unilateral_claim_delay && spec_sequence_ok(d.unilateral_claim_delay)
    &&& 0 < d.unilateral_refund_delay && spec_sequence_ok(d.unilateral_refund_delay)
    &&& 0 < d.unilateral_refund_without_receiver_delay && spec_sequence_ok(
        d.unilateral_refund_without_receiver_delay,
    )
    &&& d.refund_locktime != 0
}

/// When [`prepare_spend`] is owed success for a role: the parameters
/// reconstruct and the reconstructed address equals the stored one.
pub open spec fn spec_prepare_ok(role: VhtlcRole, d: SwapData, p: SwapParams) -> bool {
    spec_spend_inputs_ok(d, p) && spec_role_address(role, d, p) == d.vhtlc_address@
}

/// A positive delay with a sequence encoding encodes to a valid non-zero
/// relative locktime.
proof fn lemma_sequence_encoding_valid(value: i64)
    requires
        0 < value,
        spec_sequence_ok(value),
    ensures
        spec_sequence_encoding_valid(spec_sequence_of(value)),
{
}

/// Everything [`prepare_spend`] promises of a context it returns: the keys
/// are the caller's own key (recomputed from the secret) and the parsed
/// counterparty and server keys, bound by role; the preimage hash is the
/// RIPEMD-160 of the SHA-256 of the preimage; locktime and delays come
/// encoded from the swap data; and the address both matches the
/// reconstruction and equals the stored address.
pub open spec fn spec_spend_context(
    role: VhtlcRole,
    d: SwapData,
    p: SwapParams,
    ctx: VhtlcSpendContext,
) -> bool {
    let own = pubkey_of(p.secret_key@);
    let counterparty = compressed_of(spec_hex_decode(d.lendaswap_pk@));
    &&& ctx.role == role
    &&& ctx.params.sender_pk@ == spec_role_sender(role, own, counterparty)
    &&& ctx.params.receiver_pk@ == spec_role_receiver(role, own, counterparty)
    &&& ctx.params.server_pk@ == compressed_of(spec_hex_decode(d.arkade_server_pk@))
    &&& ctx.params.preimage_hash@ == ripemd160_of(sha256_of(p.preimage@))
    &&& ctx.params.refund_locktime == d.refund_locktime
    &&& ctx.params.unilateral_claim_delay == spec_sequence_of(d.unilateral_claim_delay)
    &&& ctx.params.unilateral_refund_delay == spec_sequence_of(d.unilateral_refund_delay)
    &&& ctx.params.unilateral_refund_without_receiver_delay == spec_sequence_of(
        d.unilateral_refund_without_receiver_delay,
    )
    &&& ctx.address@ == spec_params_address(ctx.params, d.network)
    &&& ctx.address@ == d.vhtlc_address@
}

/// Reconstruct the locking condition from stored swap data and derived
/// parameters, and check it against the stored address.
///
/// This is the integrity check: a context is returned only when the
/// recomputed address equals `swap_data.vhtlc_address` exactly, so acting on
/// server-falsified parameters is impossible. It runs before anything
/// touches the network.
pub fn prepare_spend(role: VhtlcRole, swap_data: &SwapData, swap_params: &SwapParams) -> (r:
    Result<VhtlcSpendContext, Error>)
    ensures
        r matches Ok(ctx) ==> spec_spend_context(role, *swap_data, *swap_params, ctx),
        spec_prepare_ok(role, *swap_data, *swap_params) ==> r is Ok,
        (spec_spend_inputs_ok(*swap_data, *swap_params) && r is Err) ==> (r matches Err(e)
            && e is Vhtlc),
        r matches Err(e) ==> (e is Parse || e is Bitcoin || e is Vhtlc || e is KeyDerivation),
{
    proof {
        if spec_spend_inputs_ok(*swap_data, *swap_params) {
            lemma_sequence_encoding_valid(swap_data.unilateral_claim_delay);
            lemma_sequence_encoding_valid(swap_data.unilateral_refund_delay);
            lemma_sequence_encoding_valid(swap_data.unilateral_refund_without_receiver_delay);
        }
    }
    let own_pk = match secp256k1_pubkey(&swap_params.secret_key) {
        Ok(pk) => pk,
        Err(e) => {
            return Err(e);
        },
    };
    let preimage_sha = sha256(&swap_params.preimage);
    let preimage_hash = ripemd160(&preimage_sha);
    let counterparty_pk = match parse_public_key(swap_data.lendaswap_pk.as_str()) {
        Ok(pk) => pk,
        Err(e) => {
            return Err(e);
        },
    };
    let server_pk = match parse_public_key(swap_data.arkade_server_pk.as_str()) {
        Ok(pk) => pk,
        Err(e) => {
            return Err(e);
        },
    };
    let claim_delay = match checked_sequence(swap_data.unilateral_claim_delay) {
        Ok(s) => s,
        Err(e) => {
            return Err(e);
        },
    };
    let refund_delay = match checked_sequence(swap_data.unilateral_refund_delay) {
        Ok(s) => s,
        Err(e) => {
            return Err(e);
        },
    };
    let refund_wo_receiver_delay = match checked_sequence(
        swap_data.unilateral_refund_without_receiver_delay,
    ) {
        Ok(s) => s,
        Err(e) => {
            return Err(e);
        },
    };
    let (sender_pk, receiver_pk) = match role {
        VhtlcRole::Claim => (counterparty_pk, own_pk),
        VhtlcRole::Refund => (own_pk, counterparty_pk),
    };
    let params = VhtlcParams {
        sender_pk,
        receiver_pk,
        server_pk,
        preimage_hash,
        refund_locktime: swap_data.refund_locktime,
        unilateral_claim_delay: claim_delay,
        unilateral_refund_delay: refund_delay,
        unilateral_refund_without_receiver_delay: refund_wo_receiver_delay,
    };
    let address = match compute_vhtlc_address(&params, swap_data.network.tag()) {
        Ok(a) => a,
        Err(e) => {
            return Err(e);
        },
    };
    if address == swap_data.vhtlc_address {
        Ok(VhtlcSpendContext { params, role, address })
    } else {
        Err(Error::Vhtlc("VHTLC address does not match swap address".to_owned()))
    }
}

/// Reconstruct and integrity-check the locking condition for a claim: the
/// caller is the receiver.
pub fn prepare_claim(swap_data: &SwapData, swap_params: &SwapParams) -> (r: Result<
    VhtlcSpendContext,
    Error,
>)
    ensures
        r matches Ok(ctx) ==> spec_spend_context(VhtlcRole::Claim, *swap_data, *swap_params, ctx),
        spec_prepare_ok(VhtlcRole::Claim, *swap_data, *swap_params) ==> r is Ok,
        (spec_spend_inputs_ok(*swap_data, *swap_params) && r is Err) ==> (r matches Err(e)
            && e is Vhtlc),
        r matches Err(e) ==> (e is Parse || e is Bitcoin || e is Vhtlc || e is KeyDerivation),
{
    prepare_spend(VhtlcRole::Claim, swap_data, swap_params)
}

/// Reconstruct and integrity-check the locking condition for a refund: the
/// caller is the sender.
pub fn prepare_refund(swap_data: &SwapData, swap_params: &SwapParams) -> (r: Result<
    VhtlcSpendContext,
    Error,
>)
    ensures
        r matches Ok(ctx) ==> spec_spend_context(VhtlcRole::Refund, *swap_data, *swap_params, ctx),
        spec_prepare_ok(VhtlcRole::Refund, *swap_data, *swap_params) ==> r is Ok,
        (spec_spend_inputs_ok(*swap_data, *swap_params) && r is Err) ==> (r matches Err(e)
            && e is Vhtlc),
        r matches Err(e) ==> (e is Parse || e is Bitcoin || e is Vhtlc || e is KeyDerivation),
{
    prepare_spend(VhtlcRole::Refund, swap_data, swap_params)
}

/// A coin at the locking address, as reported by the settlement network.
#[derive(Debug, Clone, Copy, PartialEq, Eq, Structural)]
pub struct Coin {
    /// Amount in satoshis.
    pub amount: u64,
    /// The coin was already consumed.
    pub is_spent: bool,
    /// The coin can only be recovered (dust, swept, or expired), not spent
    /// offchain.
    pub is_recoverable: bool,
}

/// A coin counts as spendable when it is neither spent nor merely
/// recoverable.
pub open spec fn coin_spendable(c: Coin) -> bool {
    !c.is_spent && !c.is_recoverable
}

/// A coin counts as spent once consumed.
pub open spec fn coin_spent(c: Coin) -> bool {
    c.is_spent
}

/// A coin counts as recoverable when flagged so and not spent.
pub open spec fn coin_recoverable(c: Coin) -> bool {
    !c.is_spent && c.is_recoverable
}

/// Sum of all coin amounts.
pub open spec fn spec_total_sum(coins: Seq<Coin>) -> int
    decreases coins.len(),
{
    if coins.len() == 0 {
        0
    } else {
        spec_total_sum(coins.drop_last()) + coins.last().amount
    }
}

/// Sum of the spendable coins' amounts.
pub open spec fn spec_spendable_sum(coins: Seq<Coin>) -> int
    decreases coins.len(),
{
    if coins.len() == 0 {
        0
    } else {
        spec_spendable_sum(coins.drop_last()) + if coin_spendable(coins.last()) {
            coins.last().amount as int
        } else {
            0
        }
    }
}

/// Sum of the spent coins' amounts.
pub open spec fn spec_spent_sum(coins: Seq<Coin>) -> int
    decreases coins.len(),
{
    if coins.len() == 0 {
        0
    } else {
        spec_spent_sum(coins.drop_last()) + if coin_spent(coins.last()) {
            coins.last().amount as int
        } else {
            0
        }
    }
}

/// Sum of the recoverable coins' amounts.
pub open spec fn spec_recoverable_sum(coins: Seq<Coin>) -> int
    decreases coins.len(),
{
    if coins.len() == 0 {
        0
    } else {
        spec_recoverable_sum(coins.drop_last()) + if coin_recoverable(coins.last()) {
            coins.last().amount as int
        } else {
            0
        }
    }
}

/// All four sums are non-negative.
pub proof fn lemma_sums_nonneg(coins: Seq<Coin>)
    ensures
        spec_total_sum(coins) >= 0,
        spec_spendable_sum(coins) >= 0,
        spec_spent_sum(coins) >= 0,
        spec_recoverable_sum(coins) >= 0,
    decreases coins.len(),
{
    if coins.len() > 0 {
        lemma_sums_nonneg(coins.drop_last());
    }
}

/// Every coin falls in exactly one of the three buckets, so the bucket sums
/// add up to the total amount held at the address.
pub proof fn lemma_amounts_partition(coins: Seq<Coin>)
    ensures
        spec_spendable_sum(coins) + spec_spent_sum(coins) + spec_recoverable_sum(coins)
            == spec_total_sum(coins),
    decreases coins.len(),
{
    if coins.len() > 0 {
        lemma_amounts_partition(coins.drop_last());
    }
}

/// A prefix never sums to more than the whole sequence.
proof fn lemma_total_sum_prefix(coins: Seq<Coin>, j: int)
    requires
        0 <= j <= coins.len(),
    ensures
        spec_total_sum(coins.take(j)) <= spec_total_sum(coins),
    decreases coins.len() - j,
{
    if j == coins.len() {
        assert(coins.take(j) =~= coins);
    } else {
        assert(coins.take(j + 1).drop_last() =~= coins.take(j));
        lemma_total_sum_prefix(coins, j + 1);
    }
}

/// See [`lemma_total_sum_prefix`].
proof fn lemma_spendable_sum_prefix(coins: Seq<Coin>, j: int)
    requires
        0 <= j <= coins.len(),
    ensures
        spec_spendable_sum(coins.take(j)) <= spec_spendable_sum(coins),
    decreases coins.len() - j,
{
    if j == coins.len() {
        assert(coins.take(j) =~= coins);
    } else {
        assert(coins.take(j + 1).drop_last() =~= coins.take(j));
        lemma_spendable_sum_prefix(coins, j + 1);
    }
}

/// Classify every coin at an address into exactly one bucket and sum the
/// buckets, for read-only balance reporting.
///
/// The caller must know the amounts fit; on a settlement network the total
/// supply keeps any real sum far below the bound.
pub fn query_amounts(coins: &Vec<Coin>) -> (r: VhtlcAmounts)
    requires
        spec_total_sum(coins@) <= u64::MAX,
    ensures
        r.spendable == spec_spendable_sum(coins@),
        r.spent == spec_spent_sum(coins@),
        r.recoverable == spec_recoverable_sum(coins@),
        r.spendable + r.spent + r.recoverable == spec_total_sum(coins@),
{
    let n = coins.len();
    let mut spendable: u64 = 0;
    let mut spent: u64 = 0;
    let mut recoverable: u64 = 0;
    let mut i: usize = 0;
    while i < n
        invariant
            i <= n,
            n == coins@.len(),
            spec_total_sum(coins@) <= u64::MAX,
            spendable == spec_spendable_sum(coins@.take(i as int)),
            spent == spec_spent_sum(coins@.take(i as int)),
            recoverable == spec_recoverable_sum(coins@.take(i as int)),
            spendable + spent + recoverable == spec_total_sum(coins@.take(i as int)),
        decreases n - i,
    {
        proof {
            assert(coins@.take(i + 1).drop_last() =~= coins@.take(i as int));
            lemma_total_sum_prefix(coins@, i + 1);
            lemma_sums_nonneg(coins@.take(i + 1));
            lemma_amounts_partition(coins@.take(i + 1));
            lemma_sums_nonneg(coins@.take(i as int));
        }
        let c = coins[i];
        if c.is_spent {
            spent = spent + c.amount;
        } else if c.is_recoverable {
            recoverable = recoverable + c.amount;
        } else {
            spendable = spendable + c.amount;
        }
        i = i + 1;
    }
    proof {
        assert(coins@.take(n as int) =~= coins@);
    }
    VhtlcAmounts { spendable, spent, recoverable }
}

/// The indices of the spendable coins, in order.
pub open spec fn spec_spendable_indices(coins: Seq<Coin>) -> Seq<usize>
    decreases coins.len(),
{
    if coins.len() == 0 {
        Seq::<usize>::empty()
    } else {
        let rest = spec_spendable_indices(coins.drop_last());
        if coin_spendable(coins.last()) {
            rest + seq![(coins.len() - 1) as usize]
        } else {
            rest
        }
    }
}

/// A planned spend: which coins to use, the full value they move, and the
/// leaf and locktime the spend goes through.
#[derive(Debug, Clone, PartialEq, Eq)]
pub struct SpendPlan {
    /// Indices into the queried coin list of the inputs to spend: all
    /// spendable coins, in order.
    pub input_indices: Vec<usize>,
    /// Sum of the selected inputs' amounts. The single output moves this
    /// full value to the destination; there is no change.
    pub total_amount: u64,
    /// The leaf the spend goes through.
    pub leaf: SpendLeaf,
    /// The absolute locktime every input must carry; present exactly on the
    /// refund path.
    pub locktime: Option<u32>,
}

/// Whether a plan's locktime permits execution at Unix time `now`.
pub open spec fn spec_plan_executable_at(plan: SpendPlan, now: u32) -> bool {
    match plan.locktime {
        Option::None => true,
        Option::Some(l) => now >= l,
    }
}

/// Whether this plan's locktime permits execution at Unix time `now`.
pub fn plan_executable_at(plan: &SpendPlan, now: u32) -> (r: bool)
    ensures
        r == spec_plan_executable_at(*plan, now),
{
    match plan.locktime {
        Option::None => true,
        Option::Some(l) => now >= l,
    }
}

/// A refund plan is rejected by its own locktime at any time before the
/// refund locktime, even while coins are spendable: locktime construction
/// gates the refund path.
pub proof fn lemma_refund_locked_before_locktime(plan: SpendPlan, lock: u32, now: u32)
    requires
        plan.locktime == Some(lock),
        now < lock,
    ensures
        !spec_plan_executable_at(plan, now),
{
}

/// Select the coins to spend: all spendable coins at the address, moving
/// their full value.
///
/// Fails when nothing is spendable (a normal "nothing to do" outcome, not a
/// generic failure), when the amounts overflow, and on the refund path when
/// the locktime is below the Unix-timestamp threshold, since the
/// refund-without-receiver leaf requires a time-based absolute locktime.
pub fn select_inputs(coins: &Vec<Coin>, role: VhtlcRole, refund_locktime: u32) -> (r: Result<
    SpendPlan,
    Error,
>)
    ensures
        r matches Ok(p) ==> p.total_amount == spec_spendable_sum(coins@)
            && p.input_indices@ == spec_spendable_indices(coins@) && p.total_amount > 0 && (
        role is Claim ==> p.leaf is Claim && p.locktime is None) && (role is Refund
            ==> p.leaf is RefundWithoutReceiver && p.locktime == Some(refund_locktime)),
        r is Ok <==> spec_spendable_sum(coins@) > 0 && spec_spendable_sum(coins@) <= u64::MAX && (
        role is Refund ==> refund_locktime >= LOCK_TIME_THRESHOLD),
        r matches Err(e) ==> e is Vhtlc,
{
    if role == VhtlcRole::Refund && refund_locktime < LOCK_TIME_THRESHOLD {
        return Err(Error::Vhtlc("Invalid locktime".to_owned()));
    }
    let n = coins.len();
    let mut indices: Vec<usize> = Vec::new();
    let mut total: u64 = 0;
    let mut i: usize = 0;
    while i < n
        invariant
            i <= n,
            n == coins@.len(),
            total == spec_spendable_sum(coins@.take(i as int)),
            indices@ == spec_spendable_indices(coins@.take(i as int)),
        decreases n - i,
    {
        proof {
            assert(coins@.take(i + 1).drop_last() =~= coins@.take(i as int));
        }
        let c = coins[i];
        if !c.is_spent && !c.is_recoverable {
            let new_total = match total.checked_add(c.amount) {
                Some(t) => t,
                None => {
                    proof {
                        lemma_spendable_sum_prefix(coins@, i + 1);
                    }
                    return Err(Error::Vhtlc("Amount overflow".to_owned()));
                },
            };
            total = new_total;
            indices.push(i);
            proof {
                assert(indices@ =~= spec_spendable_indices(coins@.take(i + 1)));
            }
        }
        i = i + 1;
    }
    proof {
        assert(coins@.take(n as int) =~= coins@);
    }
    if total == 0 {
        return Err(Error::Vhtlc("No spendable VTXOs found".to_owned()));
    }
    let (leaf, locktime) = match role {
        VhtlcRole::Claim => (SpendLeaf::Claim, None),
        VhtlcRole::Refund => (SpendLeaf::RefundWithoutReceiver, Some(refund_locktime)),
    };
    Ok(SpendPlan { input_indices: indices, total_amount: total, leaf, locktime })
}

/// The auxiliary witness payload that reveals the preimage on the claim
/// path: a one-element witness stack — element count 1, the compact-size
/// length 32, then the preimage bytes.
pub open spec fn spec_condition_witness(preimage: Seq<u8>) -> Seq<u8> {
    seq![1u8, 32u8] + preimage
}

/// Build the condition witness payload for a 32-byte preimage.
pub fn condition_witness_bytes(preimage: &Vec<u8>) -> (r: Vec<u8>)
    requires
        preimage@.len() == 32,
    ensures
        r@ == spec_condition_witness(preimage@),
{
    let mut v: Vec<u8> = Vec::new();
    v.push(1);
    v.push(32);
    let mut j: usize = 0;
    while j < 32
        invariant
            j <= 32,
            preimage@.len() == 32,
            v@ == seq![1u8, 32u8] + preimage@.take(j as int),
        decreases 32 - j,
    {
        v.push(preimage[j]);
        proof {
            assert(v@ =~= seq![1u8, 32u8] + preimage@.take(j + 1));
        }
        j = j + 1;
    }
    proof {
        assert(preimage@.take(32) =~= preimage@);
    }
    v
}

/// The witness data for one transaction input: a Schnorr signature with the
/// signer's x-only key, and, on the claim path only, the preimage condition
/// payload.
#[derive(Debug, Clone, PartialEq, Eq)]
pub struct InputWitness {
    /// 64-byte BIP340 signature over the input's sighash.
    pub signature: Vec<u8>,
    /// 32-byte x-only public key of the signer.
    pub xonly_pubkey: Vec<u8>,
    /// The preimage condition payload, present exactly on the claim path of
    /// the primary transaction.
    pub condition: Option<Vec<u8>>,
}

/// Everything the signing functions promise of a witness: the signature is
/// the deterministic Schnorr signature over the sighash, the x-only key is
/// the signer's public key without its parity byte, and the condition
/// payload is attached exactly when `with_condition`.
pub open spec fn spec_input_witness(
    p: SwapParams,
    sighash: Seq<u8>,
    with_condition: bool,
    w: InputWitness,
) -> bool {
    &&& w.signature@ == schnorr_sig_of(p.secret_key@, sighash)
    &&& w.xonly_pubkey@ == pubkey_of(p.secret_key@).skip(1)
    &&& if with_condition {
        w.condition matches Some(c) && c@ == spec_condition_witness(p.preimage@)
    } else {
        w.condition is None
    }
}

/// Compute the signer's 32-byte x-only public key: the compressed public key
/// without its leading parity byte.
fn xonly_from_secret(secret: &Vec<u8>) -> (r: Result<Vec<u8>, Error>)
    ensures
        r is Ok <==> secret@.len() == 32 && seckey_valid(secret@),
        r matches Ok(x) ==> x@ == pubkey_of(secret@).skip(1) && x@.len() == 32,
{
    let pk = match secp256k1_pubkey(secret) {
        Ok(p) => p,
        Err(e) => {
            return Err(e);
        },
    };
    let mut x: Vec<u8> = Vec::new();
    let mut i: usize = 1;
    while i < 33
        invariant
            1 <= i <= 33,
            pk@.len() == 33,
            x@ == pk@.subrange(1, i as int),
        decreases 33 - i,
    {
        x.push(pk[i]);
        proof {
            assert(x@ =~= pk@.subrange(1, i + 1));
        }
        i = i + 1;
    }
    proof {
        assert(pk@.subrange(1, 33) =~= pk@.skip(1));
    }
    Ok(x)
}

/// Sign the primary transaction's input. On the claim path the preimage
/// condition payload is attached beside the signature; on the refund path
/// the script's timelock leaf needs no preimage and none is attached.
pub fn sign_primary_input(role: VhtlcRole, swap_params: &SwapParams, sighash: &Vec<u8>) -> (r:
    Result<InputWitness, Error>)
    requires
        wf_swap_params(*swap_params),
    ensures
        r is Ok <==> seckey_valid(swap_params.secret_key@) && sighash@.len() == 32,
        r matches Ok(w) ==> spec_input_witness(*swap_params, sighash@, role is Claim, w),
{
    let signature = match schnorr_sign(&swap_params.secret_key, sighash) {
        Ok(s) => s,
        Err(e) => {
            return Err(e);
        },
    };
    let xonly_pubkey = match xonly_from_secret(&swap_params.secret_key) {
        Ok(x) => x,
        Err(e) => {
            return Err(e);
        },
    };
    let condition = match role {
        VhtlcRole::Claim => Some(condition_witness_bytes(&swap_params.preimage)),
        VhtlcRole::Refund => None,
    };
    Ok(InputWitness { signature, xonly_pubkey, condition })
}

/// Co-sign a checkpoint transaction's input. Checkpoint co-signing never
/// attaches the preimage: it is already bound by the primary transaction.
pub fn sign_checkpoint_input(swap_params: &SwapParams, sighash: &Vec<u8>) -> (r: Result<
    InputWitness,
    Error,
>)
    requires
        wf_swap_params(*swap_params),
    ensures
        r is Ok <==> seckey_valid(swap_params.secret_key@) && sighash@.len() == 32,
        r matches Ok(w) ==> spec_input_witness(*swap_params, sighash@, false, w),
{
    let signature = match schnorr_sign(&swap_params.secret_key, sighash) {
        Ok(s) => s,
        Err(e) => {
            return Err(e);
        },
    };
    let xonly_pubkey = match xonly_from_secret(&swap_params.secret_key) {
        Ok(x) => x,
        Err(e) => {
            return Err(e);
        },
    };
    Ok(InputWitness { signature, xonly_pubkey, condition: None })
}

/// Claim-path signing embeds the preimage witness payload and refund-path
/// signing does not: for otherwise-equal inputs the two witnesses carry the
/// same signature and the same key, and differ exactly in the condition
/// payload.
pub proof fn lemma_witness_asymmetry(
    p: SwapParams,
    sighash: Seq<u8>,
    claim_w: InputWitness,
    refund_w: InputWitness,
)
    requires
        spec_input_witness(p, sighash, true, claim_w),
        spec_input_witness(p, sighash, false, refund_w),
    ensures
        claim_w.condition matches Some(c) && c@ == spec_condition_witness(p.preimage@),
        refund_w.condition is None,
        claim_w.signature@ == refund_w.signature@,
        claim_w.xonly_pubkey@ == refund_w.xonly_pubkey@,
{
}

} // verus!
