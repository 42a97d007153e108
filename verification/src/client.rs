//! Swap coordination: the unit of persistence and the decision logic that
//! maps high-level operations onto derivation, reconstruction and storage.
//!
//! Network transports stay with the caller; every function here takes the
//! remote service's answers as plain values and states exactly how local
//! state changes.

use vstd::prelude::*;

use crate::api::types::BtcToEvmSwapResponse;
use crate::api::types::EvmToBtcSwapResponse;
use crate::api::types::GetSwapResponse;
use crate::api::types::RecoverSwapsResponse;
use crate::api::types::RecoveredSwap;
use crate::error::Error;
use crate::hd_wallet::spec_swap_params_match;
use crate::storage::SwapStorage;
use crate::storage::WalletStorage;
use crate::types::Network;
use crate::types::SwapData;
use crate::types::SwapParams;
use crate::types::swap_params_eq;
use crate::wallet::Wallet;

verus! {

/// Extended swap data combining the server-reported swap response with the
/// client-side derived parameters: the unit of persistence, keyed by swap
/// identifier.
#[derive(Debug, Clone, PartialEq, Eq)]
pub struct ExtendedSwapStorageData {
    /// The swap response from the remote service.
    pub response: GetSwapResponse,
    /// Client-side swap parameters (keys, preimage). Not relevant for every
    /// direction, e.g. EVM-to-Lightning swaps never spend with them.
    pub swap_params: SwapParams,
}

/// The stored-parameter view of a BTC-to-EVM swap's VHTLC: the service's key
/// is the counterparty key and the Arkade HTLC address is the lock.
pub open spec fn spec_btc_to_evm_swap_data(
    d: BtcToEvmSwapResponse,
    key_index: u32,
    network: Network,
) -> SwapData {
    SwapData {
        key_index,
        lendaswap_pk: d.common.receiver_pk,
        arkade_server_pk: d.common.server_pk,
        refund_locktime: d.common.refund_locktime,
        unilateral_claim_delay: d.common.unilateral_claim_delay,
        unilateral_refund_delay: d.common.unilateral_refund_delay,
        unilateral_refund_without_receiver_delay:
            d.common.unilateral_refund_without_receiver_delay,
        network,
        vhtlc_address: d.htlc_address_arkade,
    }
}

/// The stored-parameter view of an EVM-to-BTC swap's VHTLC.
pub open spec fn spec_evm_to_btc_swap_data(
    d: EvmToBtcSwapResponse,
    key_index: u32,
    network: Network,
) -> SwapData {
    SwapData {
        key_index,
        lendaswap_pk: d.common.receiver_pk,
        arkade_server_pk: d.common.server_pk,
        refund_locktime: d.common.refund_locktime,
        unilateral_claim_delay: d.common.unilateral_claim_delay,
        unilateral_refund_delay: d.common.unilateral_refund_delay,
        unilateral_refund_without_receiver_delay:
            d.common.unilateral_refund_without_receiver_delay,
        network,
        vhtlc_address: d.htlc_address_arkade,
    }
}

/// Extract the VHTLC parameters of a stored BTC-to-EVM swap, for refunding
/// the client-funded VHTLC or for querying its balances. Fails on any other
/// swap direction.
pub fn swap_data_for_refund(record: &ExtendedSwapStorageData, network: Network) -> (r: Result<
    SwapData,
    Error,
>)
    ensures
        r matches Ok(d) ==> (record.response matches GetSwapResponse::BtcToEvm(b) && d
            == spec_btc_to_evm_swap_data(b, record.swap_params.key_index, network)),
        record.response is BtcToEvm ==> r is Ok,
        record.response is EvmToBtc ==> (r matches Err(e) && e is Vhtlc),
{
    match &record.response {
        GetSwapResponse::BtcToEvm(b) => Ok(
            SwapData {
                key_index: record.swap_params.key_index,
                lendaswap_pk: b.common.receiver_pk.clone(),
                arkade_server_pk: b.common.server_pk.clone(),
                refund_locktime: b.common.refund_locktime,
                unilateral_claim_delay: b.common.unilateral_claim_delay,
                unilateral_refund_delay: b.common.unilateral_refund_delay,
                unilateral_refund_without_receiver_delay:
                    b.common.unilateral_refund_without_receiver_delay,
                network,
                vhtlc_address: b.htlc_address_arkade.clone(),
            },
        ),
        GetSwapResponse::EvmToBtc(_) => Err(
            Error::Vhtlc("Swap was not a Btc to Evm swap".to_owned()),
        ),
    }
}

/// Extract the VHTLC parameters and the destination address of a stored
/// EVM-to-BTC swap, for claiming the service-funded VHTLC. Fails on any
/// other direction and when no Arkade destination address was provided.
pub fn swap_data_for_claim(record: &ExtendedSwapStorageData, network: Network) -> (r: Result<
    (SwapData, String),
    Error,
>)
    ensures
        r matches Ok(p) ==> (record.response matches GetSwapResponse::EvmToBtc(b)
            && b.user_address_arkade matches Some(dest) && p.0 == spec_evm_to_btc_swap_data(
            b,
            record.swap_params.key_index,
            network,
        ) && p.1@ == dest@),
        record.response is BtcToEvm ==> (r matches Err(e) && e is Vhtlc),
        (record.response matches GetSwapResponse::EvmToBtc(b) && b.user_address_arkade is None)
            ==> (r matches Err(e) && e is Vhtlc),
        (record.response matches GetSwapResponse::EvmToBtc(b) && b.user_address_arkade is Some)
            ==> r is Ok,
{
    match &record.response {
        GetSwapResponse::EvmToBtc(b) => {
            match &b.user_address_arkade {
                Option::Some(dest) => Ok(
                    (
                        SwapData {
                            key_index: record.swap_params.key_index,
                            lendaswap_pk: b.common.receiver_pk.clone(),
                            arkade_server_pk: b.common.server_pk.clone(),
                            refund_locktime: b.common.refund_locktime,
                            unilateral_claim_delay: b.common.unilateral_claim_delay,
                            unilateral_refund_delay: b.common.unilateral_refund_delay,
                            unilateral_refund_without_receiver_delay:
                                b.common.unilateral_refund_without_receiver_delay,
                            network,
                            vhtlc_address: b.htlc_address_arkade.clone(),
                        },
                        dest.clone(),
                    ),
                ),
                Option::None => Err(
                    Error::Vhtlc("Cannot claim if no arkade address was provided".to_owned()),
                ),
            }
        },
        GetSwapResponse::BtcToEvm(_) => Err(
            Error::Vhtlc("Swap was not a Evm to Btc swap".to_owned()),
        ),
    }
}

/// Load the stored record for a swap without consulting the remote service.
pub fn load_swap_data_from_storage<'a, SS: SwapStorage>(storage: &'a SS, swap_id: &String) -> (r:
    Result<&'a ExtendedSwapStorageData, Error>)
    requires
        storage.wf(),
    ensures
        r matches Ok(d) ==> storage.spec_swaps().contains_key(swap_id@) && *d
            == storage.spec_swaps()[swap_id@],
        storage.spec_swaps().contains_key(swap_id@) ==> (r is Ok || (r matches Err(e)
            && e is Storage)),
        !storage.spec_swaps().contains_key(swap_id@) ==> (r matches Err(e) && (e is SwapNotFound
            || e is Storage)),
        (r matches Err(e) && e is SwapNotFound) ==> !storage.spec_swaps().contains_key(swap_id@),
{
    match storage.get(swap_id) {
        Ok(Some(d)) => Ok(d),
        Ok(None) => Err(Error::SwapNotFound("Swap id not found".to_owned())),
        Err(e) => Err(e),
    }
}

/// Merge a freshly fetched swap response with the locally held parameters
/// and persist the result: the response is replaced, the derived parameters
/// are never overwritten. Fails with `SwapNotFound` for an unknown swap.
pub fn update_swap_status<SS: SwapStorage>(
    storage: &mut SS,
    swap_id: &String,
    response: GetSwapResponse,
) -> (r: Result<(), Error>)
    requires
        old(storage).wf(),
    ensures
        final(storage).wf(),
        r is Ok ==> ({
            let m = final(storage).spec_swaps();
            &&& old(storage).spec_swaps().contains_key(swap_id@)
            &&& m == old(storage).spec_swaps().insert(swap_id@, m[swap_id@])
            &&& m[swap_id@].response == response
            &&& swap_params_eq(
                m[swap_id@].swap_params,
                old(storage).spec_swaps()[swap_id@].swap_params,
            )
        }),
        r is Err ==> final(storage).spec_swaps() == old(storage).spec_swaps(),
        old(storage).spec_swaps().contains_key(swap_id@) ==> (r is Ok || (r matches Err(e)
            && e is Storage)),
        !old(storage).spec_swaps().contains_key(swap_id@) ==> (r matches Err(e) && (
        e is SwapNotFound || e is Storage)),
        (r matches Err(e) && e is SwapNotFound) ==> !old(storage).spec_swaps().contains_key(
            swap_id@,
        ),
{
    let swap_params = match storage.get(swap_id) {
        Ok(Some(d)) => d.swap_params.clone(),
        Ok(None) => {
            return Err(Error::SwapNotFound("Swap id not found".to_owned()));
        },
        Err(e) => {
            return Err(e);
        },
    };
    let merged = ExtendedSwapStorageData { response, swap_params };
    storage.store(swap_id, merged)
}

/// Delete every stored swap record.
pub fn clear_swaps<SS: SwapStorage>(storage: &mut SS) -> (r: Result<(), Error>)
    requires
        old(storage).wf(),
    ensures
        final(storage).wf(),
        r is Ok ==> final(storage).spec_swaps() == Map::<
            Seq<char>,
            ExtendedSwapStorageData,
        >::empty(),
        forall|k: Seq<char>| #[trigger]
            final(storage).spec_swaps().contains_key(k) ==> old(
                storage,
            ).spec_swaps().contains_key(k) && final(storage).spec_swaps()[k] == old(
                storage,
            ).spec_swaps()[k],
        r matches Err(e) ==> e is Storage,
{
    let ids = match storage.list() {
        Ok(ids) => ids,
        Err(e) => {
            return Err(e);
        },
    };
    let ghost kv = ids@.map_values(|s: String| s@);
    let n = ids.len();
    let mut i: usize = 0;
    while i < n
        invariant
            i <= n,
            n == ids@.len(),
            storage.wf(),
            kv == ids@.map_values(|s: String| s@),
            forall|k: Seq<char>| #[trigger]
                storage.spec_swaps().contains_key(k) ==> old(
                    storage,
                ).spec_swaps().contains_key(k) && storage.spec_swaps()[k] == old(
                    storage,
                ).spec_swaps()[k],
            forall|j: int| 0 <= j < i ==> !storage.spec_swaps().contains_key(#[trigger] kv[j]),
            forall|k: Seq<char>| #[trigger]
                storage.spec_swaps().contains_key(k) ==> kv.contains(k),
        decreases n - i,
    {
        match storage.delete(&ids[i]) {
            Ok(_) => {},
            Err(e) => {
                return Err(e);
            },
        }
        proof {
            assert(kv[i as int] == ids@[i as int]@);
        }
        i = i + 1;
    }
    proof {
        assert forall|k: Seq<char>| !storage.spec_swaps().contains_key(k) by {
            if storage.spec_swaps().contains_key(k) {
                let j = choose|j: int| 0 <= j < kv.len() && kv[j] == k;
                assert(!storage.spec_swaps().contains_key(kv[j]));
            }
        }
        assert(storage.spec_swaps() =~= Map::<Seq<char>, ExtendedSwapStorageData>::empty());
    }
    Ok(())
}

/// Whether `d`, stored under identifier `k`, is a correctly recovered entry
/// for some reported swap: the response is that swap and the parameters are
/// re-derived at its reported index from the stored mnemonic.
pub open spec fn spec_recovered_entry(
    swaps: Seq<RecoveredSwap>,
    mn: Option<Seq<char>>,
    mainnet: bool,
    k: Seq<char>,
    d: ExtendedSwapStorageData,
) -> bool {
    exists|i: int|
        0 <= i < swaps.len() && (#[trigger] swaps[i]).swap.spec_common().id@ == k && d.response
            == swaps[i].swap && (mn matches Some(ph) && spec_swap_params_match(
            ph,
            mainnet,
            swaps[i].index,
            d.swap_params,
        ))
}

/// A recovered entry of a prefix is a recovered entry of the whole answer.
proof fn lemma_recovered_entry_prefix(
    swaps: Seq<RecoveredSwap>,
    p: int,
    mn: Option<Seq<char>>,
    mainnet: bool,
    k: Seq<char>,
    d: ExtendedSwapStorageData,
)
    requires
        0 <= p <= swaps.len(),
        spec_recovered_entry(swaps.take(p), mn, mainnet, k, d),
    ensures
        spec_recovered_entry(swaps, mn, mainnet, k, d),
{
    let i0 = choose|i: int|
        0 <= i < swaps.take(p).len() && (#[trigger] swaps.take(p)[i]).swap.spec_common().id@ == k
            && d.response == swaps.take(p)[i].swap && (mn matches Some(ph)
            && spec_swap_params_match(ph, mainnet, swaps.take(p)[i].index, d.swap_params));
    assert(swaps.take(p)[i0] == swaps[i0]);
}

/// Rehydrate local swap state from the remote service's recovery answer:
/// purge local swap storage, re-derive the parameters of every reported swap
/// at its reported index and persist the merged records, then set the local
/// key-index counter past the highest index the service has seen.
///
/// On success the local store holds exactly the reported swaps, each merged
/// with parameters byte-identical to a fresh derivation at that index.
pub fn recover_swaps_apply<S: WalletStorage, SS: SwapStorage>(
    wallet: &mut Wallet<S>,
    storage: &mut SS,
    recovered: RecoverSwapsResponse,
) -> (r: Result<(), Error>)
    requires
        old(wallet).wf(),
        old(storage).wf(),
        recovered.highest_index < u32::MAX,
    ensures
        final(wallet).wf(),
        final(storage).wf(),
        final(wallet).spec_network() == old(wallet).spec_network(),
        r is Ok ==> ({
            let m = final(storage).spec_swaps();
            let mn = old(wallet).spec_storage().spec_mnemonic();
            let mainnet = old(wallet).spec_network().spec_is_mainnet();
            &&& forall|k: Seq<char>| #[trigger]
                m.contains_key(k) ==> spec_recovered_entry(recovered.swaps@, mn, mainnet, k, m[k])
            &&& forall|i: int|
                0 <= i < recovered.swaps@.len() ==> m.contains_key(
                    (#[trigger] recovered.swaps@[i]).swap.spec_common().id@,
                )
            &&& final(wallet).spec_storage().spec_key_index() == recovered.highest_index + 1
        }),
        final(wallet).spec_storage().spec_mnemonic() == old(wallet).spec_storage().spec_mnemonic(),
        final(wallet).spec_storage().spec_key_index() == old(
            wallet,
        ).spec_storage().spec_key_index() || final(wallet).spec_storage().spec_key_index()
            == recovered.highest_index + 1,
        r is Err ==> (forall|k: Seq<char>| #[trigger]
            final(storage).spec_swaps().contains_key(k) ==> (old(
                storage,
            ).spec_swaps().contains_key(k) && final(storage).spec_swaps()[k] == old(
                storage,
            ).spec_swaps()[k]) || spec_recovered_entry(
                recovered.swaps@,
                old(wallet).spec_storage().spec_mnemonic(),
                old(wallet).spec_network().spec_is_mainnet(),
                k,
                final(storage).spec_swaps()[k],
            )),
{
    match clear_swaps(storage) {
        Ok(_) => {},
        Err(e) => {
            return Err(e);
        },
    }
    let ghost swaps0 = recovered.swaps@;
    let ghost mn = old(wallet).spec_storage().spec_mnemonic();
    let ghost mainnet = old(wallet).spec_network().spec_is_mainnet();
    let mut swaps = recovered.swaps;
    let total = swaps.len();
    let mut processed: usize = 0;
    #[verifier::loop_isolation(false)]
    while swaps.len() > 0
        invariant
            total == swaps0.len(),
            processed <= total,
            wallet.wf(),
            wallet.spec_storage() == old(wallet).spec_storage(),
            wallet.spec_network() == old(wallet).spec_network(),
            storage.wf(),
            processed + swaps@.len() == swaps0.len(),
            swaps@ == swaps0.skip(processed as int),
            mn == old(wallet).spec_storage().spec_mnemonic(),
            mainnet == old(wallet).spec_network().spec_is_mainnet(),
            forall|k: Seq<char>| #[trigger]
                storage.spec_swaps().contains_key(k) ==> spec_recovered_entry(
                    swaps0.take(processed as int),
                    mn,
                    mainnet,
                    k,
                    storage.spec_swaps()[k],
                ),
            forall|j: int|
                0 <= j < processed ==> storage.spec_swaps().contains_key(
                    (#[trigger] swaps0[j]).swap.spec_common().id@,
                ),
        decreases swaps@.len(),
    {
        let ghost m_before = storage.spec_swaps();
        let rs = swaps.remove(0);
        proof {
            assert(rs == swaps0[processed as int]);
            assert(swaps@ =~= swaps0.skip(processed as int + 1));
        }
        let swap_params = match wallet.derive_swap_params_at_index(rs.index) {
            Ok(p) => p,
            Err(e) => {
                proof {
                    assert forall|k: Seq<char>| #[trigger]
                        storage.spec_swaps().contains_key(k) implies (old(
                        storage,
                    ).spec_swaps().contains_key(k) && storage.spec_swaps()[k] == old(
                        storage,
                    ).spec_swaps()[k]) || spec_recovered_entry(
                        recovered.swaps@,
                        old(wallet).spec_storage().spec_mnemonic(),
                        old(wallet).spec_network().spec_is_mainnet(),
                        k,
                        storage.spec_swaps()[k],
                    ) by {
                        lemma_recovered_entry_prefix(
                            swaps0,
                            processed as int,
                            mn,
                            mainnet,
                            k,
                            storage.spec_swaps()[k],
                        );
                    }
                }
                return Err(e);
            },
        };
        let swap_id = rs.swap.id();
        let data = ExtendedSwapStorageData { response: rs.swap, swap_params };
        let ghost gdata = data;
        match storage.store(&swap_id, data) {
            Ok(_) => {},
            Err(e) => {
                proof {
                    assert forall|k: Seq<char>| #[trigger]
                        storage.spec_swaps().contains_key(k) implies (old(
                        storage,
                    ).spec_swaps().contains_key(k) && storage.spec_swaps()[k] == old(
                        storage,
                    ).spec_swaps()[k]) || spec_recovered_entry(
                        recovered.swaps@,
                        old(wallet).spec_storage().spec_mnemonic(),
                        old(wallet).spec_network().spec_is_mainnet(),
                        k,
                        storage.spec_swaps()[k],
                    ) by {
                        lemma_recovered_entry_prefix(
                            swaps0,
                            processed as int,
                            mn,
                            mainnet,
                            k,
                            storage.spec_swaps()[k],
                        );
                    }
                }
                return Err(e);
            },
        }
        proof {
            let p = processed as int;
            assert(swaps0.take(p + 1).drop_last() =~= swaps0.take(p));
            assert forall|k: Seq<char>| #[trigger]
                storage.spec_swaps().contains_key(k) implies spec_recovered_entry(
                swaps0.take(p + 1),
                mn,
                mainnet,
                k,
                storage.spec_swaps()[k],
            ) by {
                if k == swap_id@ {
                    assert(storage.spec_swaps()[k] == gdata);
                    assert(swaps0.take(p + 1)[p] == swaps0[p]);
                    assert(gdata.response == swaps0[p].swap);
                } else {
                    assert(m_before.contains_key(k));
                    assert(spec_recovered_entry(swaps0.take(p), mn, mainnet, k, m_before[k]));
                    let i0 = choose|i: int|
                        0 <= i < swaps0.take(p).len() && (#[trigger] swaps0.take(
                            p,
                        )[i]).swap.spec_common().id@ == k && m_before[k].response == swaps0.take(
                            p,
                        )[i].swap && (mn matches Some(ph) && spec_swap_params_match(
                            ph,
                            mainnet,
                            swaps0.take(p)[i].index,
                            m_before[k].swap_params,
                        ));
                    assert(swaps0.take(p + 1)[i0] == swaps0.take(p)[i0]);
                    assert(storage.spec_swaps()[k] == m_before[k]);
                }
            }
        }
        processed = processed + 1;
    }
    proof {
        assert(swaps0.take(processed as int) =~= swaps0);
    }
    match wallet.set_key_index(recovered.highest_index + 1) {
        Ok(_) => Ok(()),
        Err(e) => Err(e),
    }
}

} // verus!
