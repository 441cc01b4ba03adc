//! Completion of an inbound transfer that ends in a destination-side swap.
//!
//! Two paths lead out of the bridging asset. A token redemption (the fill's
//! output names a token and the redeemer supplies the venue call data)
//! checks the message's deadline and limit, then overrides the venue's
//! amounts with the fill's. A payload redemption populates a staged inbound
//! record at most once, swapping under the record's own authority with the
//! message's limit as the authoritative quote and zero slippage. Either
//! function returns the corrected venue arguments; the caller invokes the
//! venue with them.

use vstd::prelude::*;

use crate::addr::addr_eq;
use crate::error::SwapLayerError;
use crate::jupiter::{validate_route_spec, validate_shared_accounts_route, SharedAccountsRouteArgs, SharedAccountsRouteKeys};
use crate::messages::{JupiterV6SwapParameters, OutputToken, PreparedFill, RedeemMode, SwapMessageV1, SwapType};
use crate::state::{StagedTransfer, StagedTransferInfo, StagedTransferSeeds};

verus! {

/// The dex program a token redemption's route is pinned to, if any.
pub open spec fn pinned_dex_token(msg: SwapMessageV1) -> Option<[u8; 32]> {
    match msg.output_token {
        OutputToken::Token(swap) => match swap.swap_type {
            SwapType::JupiterV6(params) => params.dex_program_id,
            _ => None,
        },
        _ => None,
    }
}

/// The swap a payload redemption must execute: the authoritative limit, the
/// route parameters, and whether the output is the native gas asset. Only a
/// gas or other-asset output with an aggregator route qualifies.
pub open spec fn jupiter_output_swap(output_token: OutputToken) -> Option<
    (u128, JupiterV6SwapParameters, bool),
> {
    match output_token {
        OutputToken::Gas(swap) => match swap.swap_type {
            SwapType::JupiterV6(params) => Some((swap.limit_amount, params, true)),
            _ => None,
        },
        OutputToken::Other { address: _, swap } => match swap.swap_type {
            SwapType::JupiterV6(params) => Some((swap.limit_amount, params, false)),
            _ => None,
        },
        _ => None,
    }
}

/// The dex program a payload redemption's route is pinned to, if any.
pub open spec fn pinned_dex_payload(msg: SwapMessageV1) -> Option<[u8; 32]> {
    match jupiter_output_swap(msg.output_token) {
        Some((_, params, _)) => params.dex_program_id,
        None => None,
    }
}

/// What [`handle_complete_swap_jupiter_v6`] returns: the venue arguments
/// with the fill amount and the agreed quote in force, or the exact
/// refusal.
pub open spec fn handle_jupiter_v6_spec(
    dst_mint: [u8; 32],
    swap_args: SharedAccountsRouteArgs,
    first_cpi_account: Option<[u8; 32]>,
    in_amount: u64,
    quoted_out_amount: u64,
    swap_params: JupiterV6SwapParameters,
) -> Result<SharedAccountsRouteArgs, SwapLayerError> {
    if dst_mint@ != swap_params.mint@ {
        Err(SwapLayerError::InvalidDestinationMint)
    } else {
        let overridden = SharedAccountsRouteArgs {
            in_amount,
            quoted_out_amount,
            slippage_bps: swap_args.slippage_bps,
            route_plan_len: swap_args.route_plan_len,
        };
        match swap_params.dex_program_id {
            Some(id) => if first_cpi_account->Some_0@ == id@ {
                Ok(overridden)
            } else {
                Err(SwapLayerError::JupiterV6DexProgramMismatch)
            },
            None => Ok(overridden),
        }
    }
}

/// What [`complete_swap`] returns: the venue arguments with the fill amount
/// and the message's limit in force, or the exact refusal.
pub open spec fn complete_swap_spec(
    fill: PreparedFill,
    now: i64,
    dst_mint: [u8; 32],
    swap_args: SharedAccountsRouteArgs,
    first_cpi_account: Option<[u8; 32]>,
    in_amount: u64,
) -> Result<SharedAccountsRouteArgs, SwapLayerError> {
    match fill.message.output_token {
        OutputToken::Token(swap) => match swap.swap_type {
            SwapType::JupiterV6(params) => {
                if !(swap.deadline == 0 || now <= swap.deadline) {
                    Err(SwapLayerError::SwapPastDeadline)
                } else if swap.limit_amount > u64::MAX {
                    Err(SwapLayerError::InvalidLimitAmount)
                } else {
                    handle_jupiter_v6_spec(
                        dst_mint,
                        swap_args,
                        first_cpi_account,
                        in_amount,
                        swap.limit_amount as u64,
                        params,
                    )
                }
            },
            _ => Err(SwapLayerError::InvalidOutputToken),
        },
        _ => Err(SwapLayerError::InvalidOutputToken),
    }
}

/// Overrides a token redemption's venue arguments: the consumed fill amount
/// replaces the venue's input amount and the message's limit replaces the
/// quote, the destination mint must be the one the message names, and a
/// pinned dex program must head the venue call's account list.
pub fn handle_complete_swap_jupiter_v6(
    dst_mint: [u8; 32],
    swap_args: SharedAccountsRouteArgs,
    first_cpi_account: Option<[u8; 32]>,
    in_amount: u64,
    quoted_out_amount: u64,
    swap_params: &JupiterV6SwapParameters,
) -> (r: Result<SharedAccountsRouteArgs, SwapLayerError>)
    requires
        swap_params.dex_program_id is Some ==> first_cpi_account is Some,
    ensures
        r == handle_jupiter_v6_spec(
            dst_mint,
            swap_args,
            first_cpi_account,
            in_amount,
            quoted_out_amount,
            *swap_params,
        ),
{
    if !addr_eq(&dst_mint, &swap_params.mint) {
        return Err(SwapLayerError::InvalidDestinationMint);
    }
    let overridden = SharedAccountsRouteArgs {
        in_amount,
        quoted_out_amount,
        slippage_bps: swap_args.slippage_bps,
        route_plan_len: swap_args.route_plan_len,
    };
    match &swap_params.dex_program_id {
        Some(id) => {
            let first = first_cpi_account.unwrap();
            if addr_eq(&first, id) {
                Ok(overridden)
            } else {
                Err(SwapLayerError::JupiterV6DexProgramMismatch)
            }
        },
        None => Ok(overridden),
    }
}

/// Completes a token redemption: checks the message's deadline against the
/// trusted clock and its limit against the fee field's width, pins the
/// destination mint and the dex program, and overrides the venue's input
/// amount with the consumed fill amount and its quote with the message's
/// limit.
///
/// `first_cpi_account` is the head of the venue call's account list, which
/// must be present when the message pins a dex program.
pub fn complete_swap(
    fill: &PreparedFill,
    now: i64,
    dst_mint: [u8; 32],
    swap_args: SharedAccountsRouteArgs,
    first_cpi_account: Option<[u8; 32]>,
    in_amount: u64,
) -> (r: Result<SharedAccountsRouteArgs, SwapLayerError>)
    requires
        pinned_dex_token(fill.message) is Some ==> first_cpi_account is Some,
    ensures
        r == complete_swap_spec(*fill, now, dst_mint, swap_args, first_cpi_account, in_amount),
{
    match &fill.message.output_token {
        OutputToken::Token(swap) => match &swap.swap_type {
            SwapType::JupiterV6(params) => {
                if !(swap.deadline == 0 || now <= swap.deadline as i64) {
                    return Err(SwapLayerError::SwapPastDeadline);
                }
                if swap.limit_amount > u64::MAX as u128 {
                    return Err(SwapLayerError::InvalidLimitAmount);
                }
                handle_complete_swap_jupiter_v6(
                    dst_mint,
                    swap_args,
                    first_cpi_account,
                    in_amount,
                    swap.limit_amount as u64,
                    params,
                )
            },
            _ => Err(SwapLayerError::InvalidOutputToken),
        },
        _ => Err(SwapLayerError::InvalidOutputToken),
    }
}

/// What a payload redemption decides: nothing when the record already
/// exists, else the swap to execute and the record to persist.
#[derive(Debug, Clone)]
pub enum CompleteSwapPayloadAction {
    /// The record is already populated: the completion is a no-op success.
    AlreadyStaged,
    /// Execute the swap with these corrected arguments — enforcing
    /// `limit_amount`, when fixed, as the least acceptable output — and
    /// persist `staged`.
    ExecuteSwap {
        args: SharedAccountsRouteArgs,
        limit_amount: Option<u64>,
        staged: StagedTransfer,
    },
}

/// What [`handle_complete_swap_direct_jup_v6`] returns. With a fixed limit
/// the venue's amounts are overridden — the consumed fill amount in, the
/// limit as the quote, zero slippage, and a pinned dex program forces a
/// single-hop route headed by it; without one the redeemer's arguments
/// stand, provided they spend exactly the consumed fill amount.
pub open spec fn handle_direct_jup_v6_spec(
    route: SharedAccountsRouteKeys,
    expected: SharedAccountsRouteKeys,
    swap_args: SharedAccountsRouteArgs,
    first_cpi_account: Option<[u8; 32]>,
    in_amount: u64,
    limit_and_params: Option<(u64, JupiterV6SwapParameters)>,
    is_native: bool,
    recipient: [u8; 32],
    recipient_payload: Vec<u8>,
    source_chain: u16,
    prepared_fill_key: [u8; 32],
    bump: u8,
    custody_token_bump: u8,
    staged_by: [u8; 32],
) -> Result<CompleteSwapPayloadAction, SwapLayerError> {
    match validate_route_spec(route, expected) {
        Err(e) => Err(e),
        Ok(_) => {
            let staged = StagedTransfer {
                seeds: StagedTransferSeeds { prepared_fill: prepared_fill_key, bump },
                info: StagedTransferInfo {
                    staged_custody_token_bump: custody_token_bump,
                    staged_by,
                    source_chain,
                    recipient,
                    is_native,
                },
                recipient_payload,
            };
            match limit_and_params {
                Some((limit_amount, params)) => {
                    let dex_check: Result<(), SwapLayerError> = match params.dex_program_id {
                        Some(id) => if swap_args.route_plan_len != 1 {
                            Err(SwapLayerError::NotJupiterV6DirectRoute)
                        } else if first_cpi_account->Some_0@ != id@ {
                            Err(SwapLayerError::JupiterV6DexProgramMismatch)
                        } else {
                            Ok(())
                        },
                        None => Ok(()),
                    };
                    match dex_check {
                        Err(e) => Err(e),
                        Ok(_) => Ok(
                            CompleteSwapPayloadAction::ExecuteSwap {
                                args: SharedAccountsRouteArgs {
                                    in_amount,
                                    quoted_out_amount: limit_amount,
                                    slippage_bps: 0u16,
                                    route_plan_len: swap_args.route_plan_len,
                                },
                                limit_amount: Some(limit_amount),
                                staged,
                            },
                        ),
                    }
                },
                None => {
                    if swap_args.in_amount != in_amount {
                        Err(SwapLayerError::InvalidSwapInAmount)
                    } else {
                        Ok(
                            CompleteSwapPayloadAction::ExecuteSwap {
                                args: swap_args,
                                limit_amount: None,
                                staged,
                            },
                        )
                    }
                },
            }
        },
    }
}

/// What [`complete_swap_payload`] returns. A populated record short-circuits
/// to success before anything else is read, making the path idempotent.
pub open spec fn complete_swap_payload_spec(
    staged_inbound: Option<StagedTransfer>,
    fill: PreparedFill,
    route: SharedAccountsRouteKeys,
    expected: SharedAccountsRouteKeys,
    swap_args: SharedAccountsRouteArgs,
    first_cpi_account: Option<[u8; 32]>,
    in_amount: u64,
    prepared_fill_key: [u8; 32],
    bump: u8,
    custody_token_bump: u8,
    staged_by: [u8; 32],
) -> Result<CompleteSwapPayloadAction, SwapLayerError> {
    if staged_inbound is Some {
        Ok(CompleteSwapPayloadAction::AlreadyStaged)
    } else {
        match fill.message.redeem_mode {
            RedeemMode::Payload(payload) => match jupiter_output_swap(fill.message.output_token) {
                None => Err(SwapLayerError::InvalidOutputToken),
                Some((limit_amount, params, is_native)) => handle_direct_jup_v6_spec(
                    route,
                    expected,
                    swap_args,
                    first_cpi_account,
                    in_amount,
                    Some((limit_amount as u64, params)),
                    is_native,
                    fill.message.recipient,
                    payload,
                    fill.source_chain,
                    prepared_fill_key,
                    bump,
                    custody_token_bump,
                    staged_by,
                ),
            },
            _ => Err(SwapLayerError::InvalidRedeemMode),
        }
    }
}

/// Verifies the venue call's accounts, settles the venue arguments, and
/// builds the inbound record a payload redemption persists.
pub fn handle_complete_swap_direct_jup_v6(
    route: &SharedAccountsRouteKeys,
    expected: &SharedAccountsRouteKeys,
    swap_args: SharedAccountsRouteArgs,
    first_cpi_account: Option<[u8; 32]>,
    in_amount: u64,
    limit_and_params: Option<(u64, JupiterV6SwapParameters)>,
    is_native: bool,
    recipient: [u8; 32],
    recipient_payload: Vec<u8>,
    source_chain: u16,
    prepared_fill_key: [u8; 32],
    bump: u8,
    custody_token_bump: u8,
    staged_by: [u8; 32],
) -> (r: Result<CompleteSwapPayloadAction, SwapLayerError>)
    requires
        limit_and_params matches Some(t) ==> (t.1.dex_program_id is Some
            && swap_args.route_plan_len == 1 ==> first_cpi_account is Some),
    ensures
        r == handle_direct_jup_v6_spec(
            *route,
            *expected,
            swap_args,
            first_cpi_account,
            in_amount,
            limit_and_params,
            is_native,
            recipient,
            recipient_payload,
            source_chain,
            prepared_fill_key,
            bump,
            custody_token_bump,
            staged_by,
        ),
{
    match validate_shared_accounts_route(route, expected) {
        Ok(_) => (),
        Err(e) => {
            return Err(e);
        },
    }

    let staged = StagedTransfer {
        seeds: StagedTransferSeeds { prepared_fill: prepared_fill_key, bump },
        info: StagedTransferInfo {
            staged_custody_token_bump: custody_token_bump,
            staged_by,
            source_chain,
            recipient,
            is_native,
        },
        recipient_payload,
    };

    match limit_and_params {
        Some((limit_amount, params)) => {
            if let Some(id) = &params.dex_program_id {
                if swap_args.route_plan_len != 1 {
                    return Err(SwapLayerError::NotJupiterV6DirectRoute);
                }
                let first = first_cpi_account.unwrap();
                if !addr_eq(&first, id) {
                    return Err(SwapLayerError::JupiterV6DexProgramMismatch);
                }
            }
            Ok(
                CompleteSwapPayloadAction::ExecuteSwap {
                    args: SharedAccountsRouteArgs {
                        in_amount,
                        quoted_out_amount: limit_amount,
                        slippage_bps: 0,
                        route_plan_len: swap_args.route_plan_len,
                    },
                    limit_amount: Some(limit_amount),
                    staged,
                },
            )
        },
        None => {
            if swap_args.in_amount != in_amount {
                Err(SwapLayerError::InvalidSwapInAmount)
            } else {
                Ok(
                    CompleteSwapPayloadAction::ExecuteSwap {
                        args: swap_args,
                        limit_amount: None,
                        staged,
                    },
                )
            }
        },
    }
}

/// Populating the inbound record is idempotent: when a first completion of
/// a fill decided to execute the swap and persist `staged`, any later
/// completion of the same fill — whatever its other inputs — is a no-op
/// success: no second swap, no second custody record.
pub proof fn lemma_payload_completion_idempotent(
    fill: PreparedFill,
    route: SharedAccountsRouteKeys,
    expected: SharedAccountsRouteKeys,
    swap_args: SharedAccountsRouteArgs,
    first_cpi_account: Option<[u8; 32]>,
    in_amount: u64,
    prepared_fill_key: [u8; 32],
    bump: u8,
    custody_token_bump: u8,
    staged_by: [u8; 32],
    staged: StagedTransfer,
)
    requires
        complete_swap_payload_spec(
            None,
            fill,
            route,
            expected,
            swap_args,
            first_cpi_account,
            in_amount,
            prepared_fill_key,
            bump,
            custody_token_bump,
            staged_by,
        ) matches Ok(CompleteSwapPayloadAction::ExecuteSwap { args: _, limit_amount: _, staged: s })
            && s == staged,
    ensures
        complete_swap_payload_spec(
            Some(staged),
            fill,
            route,
            expected,
            swap_args,
            first_cpi_account,
            in_amount,
            prepared_fill_key,
            bump,
            custody_token_bump,
            staged_by,
        ) == Ok::<_, SwapLayerError>(CompleteSwapPayloadAction::AlreadyStaged),
{
}

/// Completes a payload redemption against the consumed fill.
///
/// `staged_inbound` is the record currently persisted for this fill, if it
/// was populated before; a populated record makes the call a no-op success.
/// On a fresh record the fill's message must carry a payload and an
/// aggregator-routed output; the venue call's accounts must match the
/// expected identities exactly; the venue's amounts are overridden with the
/// consumed `in_amount`, the message's limit and zero slippage, since the
/// limit is authoritative; and a pinned dex program forces a single-hop
/// route headed by that program.
pub fn complete_swap_payload(
    staged_inbound: &Option<StagedTransfer>,
    fill: PreparedFill,
    route: &SharedAccountsRouteKeys,
    expected: &SharedAccountsRouteKeys,
    swap_args: SharedAccountsRouteArgs,
    first_cpi_account: Option<[u8; 32]>,
    in_amount: u64,
    prepared_fill_key: [u8; 32],
    bump: u8,
    custody_token_bump: u8,
    staged_by: [u8; 32],
) -> (r: Result<CompleteSwapPayloadAction, SwapLayerError>)
    requires
        staged_inbound is None ==> (jupiter_output_swap(fill.message.output_token) matches Some(t)
            ==> t.0 <= u64::MAX),
        staged_inbound is None && pinned_dex_payload(fill.message) is Some
            && swap_args.route_plan_len == 1 ==> first_cpi_account is Some,
    ensures
        r == complete_swap_payload_spec(
            *staged_inbound,
            fill,
            *route,
            *expected,
            swap_args,
            first_cpi_account,
            in_amount,
            prepared_fill_key,
            bump,
            custody_token_bump,
            staged_by,
        ),
        // Idempotency: against an already-populated record the call changes
        // nothing and asks for no swap.
        staged_inbound is Some ==> r == Ok::<_, SwapLayerError>(
            CompleteSwapPayloadAction::AlreadyStaged,
        ),
{
    if staged_inbound.is_some() {
        return Ok(CompleteSwapPayloadAction::AlreadyStaged);
    }

    let payload = match fill.message.redeem_mode {
        RedeemMode::Payload(payload) => payload,
        _ => {
            return Err(SwapLayerError::InvalidRedeemMode);
        },
    };

    let (limit_amount, params, is_native): (u64, JupiterV6SwapParameters, bool) = match fill
        .message
        .output_token {
        OutputToken::Gas(swap) => match swap.swap_type {
            SwapType::JupiterV6(params) => ((swap.limit_amount as u64), params, true),
            _ => {
                return Err(SwapLayerError::InvalidOutputToken);
            },
        },
        OutputToken::Other { address: _, swap } => match swap.swap_type {
            SwapType::JupiterV6(params) => ((swap.limit_amount as u64), params, false),
            _ => {
                return Err(SwapLayerError::InvalidOutputToken);
            },
        },
        _ => {
            return Err(SwapLayerError::InvalidOutputToken);
        },
    };

    handle_complete_swap_direct_jup_v6(
        route,
        expected,
        swap_args,
        first_cpi_account,
        in_amount,
        Some((limit_amount, params)),
        is_native,
        fill.message.recipient,
        payload,
        fill.source_chain,
        prepared_fill_key,
        bump,
        custody_token_bump,
        staged_by,
    )
}

} // verus!
