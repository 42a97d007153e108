//! VTXO refresh-swap (BTC to BTC) claim and refund planning.
//!
//! A refresh swap runs two VHTLCs: the client funds one, the server funds the
//! other with the same preimage hash. Claiming the server's VHTLC makes the
//! client the receiver with the server as sender; refunding the client's own
//! VHTLC makes the client the sender with the server as receiver. Both reduce
//! to the shared parameterized reconstruction in [`crate::vhtlc`], each
//! against its own address, locktime and delays.

use vstd::prelude::*;

use crate::api::types::VtxoSwapResponse;
use crate::error::Error;
use crate::types::Network;
use crate::types::SwapData;
use crate::types::SwapParams;
use crate::vhtlc::VhtlcRole;
use crate::vhtlc::VhtlcSpendContext;
use crate::vhtlc::prepare_spend;
use crate::vhtlc::spec_prepare_ok;
use crate::vhtlc::spec_spend_context;
use crate::vhtlc::spec_spend_inputs_ok;

verus! {

/// The stored-parameter view of the server's VHTLC in a refresh swap: the
/// server is the counterparty, and the server-side address, locktime and
/// delays apply.
pub open spec fn spec_server_side_swap_data(
    swap: VtxoSwapResponse,
    key_index: u32,
    network: Network,
) -> SwapData {
    SwapData {
        key_index,
        lendaswap_pk: swap.server_pk,
        arkade_server_pk: swap.arkade_server_pk,
        refund_locktime: swap.server_locktime as u32,
        unilateral_claim_delay: swap.server_unilateral_claim_delay,
        unilateral_refund_delay: swap.server_unilateral_refund_delay,
        unilateral_refund_without_receiver_delay:
            swap.server_unilateral_refund_without_receiver_delay,
        network,
        vhtlc_address: swap.server_vhtlc_address,
    }
}

/// The stored-parameter view of the client's own VHTLC in a refresh swap:
/// the server is still the counterparty, and the client-side address,
/// locktime and delays apply.
pub open spec fn spec_client_side_swap_data(
    swap: VtxoSwapResponse,
    key_index: u32,
    network: Network,
) -> SwapData {
    SwapData {
        key_index,
        lendaswap_pk: swap.server_pk,
        arkade_server_pk: swap.arkade_server_pk,
        refund_locktime: swap.client_locktime as u32,
        unilateral_claim_delay: swap.client_unilateral_claim_delay,
        unilateral_refund_delay: swap.client_unilateral_refund_delay,
        unilateral_refund_without_receiver_delay:
            swap.client_unilateral_refund_without_receiver_delay,
        network,
        vhtlc_address: swap.client_vhtlc_address,
    }
}

/// Reconstruct and integrity-check the server's VHTLC of a refresh swap for
/// claiming: the server sent, the caller receives by revealing the preimage.
pub fn claim_server_vhtlc(
    swap: &VtxoSwapResponse,
    swap_params: &SwapParams,
    network: Network,
) -> (r: Result<VhtlcSpendContext, Error>)
    ensures
        r matches Ok(ctx) ==> swap.server_locktime <= u32::MAX && spec_spend_context(
            VhtlcRole::Claim,
            spec_server_side_swap_data(*swap, swap_params.key_index, network),
            *swap_params,
            ctx,
        ),
        swap.server_locktime > u32::MAX ==> (r matches Err(e) && e is Vhtlc),
        (swap.server_locktime <= u32::MAX && spec_prepare_ok(
            VhtlcRole::Claim,
            spec_server_side_swap_data(*swap, swap_params.key_index, network),
            *swap_params,
        )) ==> r is Ok,
        (swap.server_locktime <= u32::MAX && spec_spend_inputs_ok(
            spec_server_side_swap_data(*swap, swap_params.key_index, network),
            *swap_params,
        ) && r is Err) ==> (r matches Err(e) && e is Vhtlc),
{
    if swap.server_locktime > 0xFFFF_FFFFu64 {
        return Err(Error::Vhtlc("Server locktime out of range".to_owned()));
    }
    let swap_data = SwapData {
        key_index: swap_params.key_index,
        lendaswap_pk: swap.server_pk.clone(),
        arkade_server_pk: swap.arkade_server_pk.clone(),
        refund_locktime: swap.server_locktime as u32,
        unilateral_claim_delay: swap.server_unilateral_claim_delay,
        unilateral_refund_delay: swap.server_unilateral_refund_delay,
        unilateral_refund_without_receiver_delay:
            swap.server_unilateral_refund_without_receiver_delay,
        network,
        vhtlc_address: swap.server_vhtlc_address.clone(),
    };
    prepare_spend(VhtlcRole::Claim, &swap_data, swap_params)
}

/// Reconstruct and integrity-check the caller's own VHTLC of a refresh swap
/// for refunding after its locktime: the caller sent, the server is the
/// receiver, and the timelock leaf needs no preimage.
pub fn refund_client_vhtlc(
    swap: &VtxoSwapResponse,
    swap_params: &SwapParams,
    network: Network,
) -> (r: Result<VhtlcSpendContext, Error>)
    ensures
        r matches Ok(ctx) ==> swap.client_locktime <= u32::MAX && spec_spend_context(
            VhtlcRole::Refund,
            spec_client_side_swap_data(*swap, swap_params.key_index, network),
            *swap_params,
            ctx,
        ),
        swap.client_locktime > u32::MAX ==> (r matches Err(e) && e is Vhtlc),
        (swap.client_locktime <= u32::MAX && spec_prepare_ok(
            VhtlcRole::Refund,
            spec_client_side_swap_data(*swap, swap_params.key_index, network),
            *swap_params,
        )) ==> r is Ok,
        (swap.client_locktime <= u32::MAX && spec_spend_inputs_ok(
            spec_client_side_swap_data(*swap, swap_params.key_index, network),
            *swap_params,
        ) && r is Err) ==> (r matches Err(e) && e is Vhtlc),
{
    if swap.client_locktime > 0xFFFF_FFFFu64 {
        return Err(Error::Vhtlc("Client locktime out of range".to_owned()));
    }
    let swap_data = SwapData {
        key_index: swap_params.key_index,
        lendaswap_pk: swap.server_pk.clone(),
        arkade_server_pk: swap.arkade_server_pk.clone(),
        refund_locktime: swap.client_locktime as u32,
        unilateral_claim_delay: swap.client_unilateral_claim_delay,
        unilateral_refund_delay: swap.client_unilateral_refund_delay,
        unilateral_refund_without_receiver_delay:
            swap.client_unilateral_refund_without_receiver_delay,
        network,
        vhtlc_address: swap.client_vhtlc_address.clone(),
    };
    prepare_spend(VhtlcRole::Refund, &swap_data, swap_params)
}

} // verus!
