//! Initiation of a staged outbound transfer that needs a source-side swap.
//!
//! Initiation re-derives the custody and peer, validates the venue call
//! against the staged record, and — after the swap has converted the
//! custody's contents into the bridging asset — assembles the order handed
//! to the bridge. The caller executes the swap between the two functions
//! and performs the custody authority hand-over and closures.

use vstd::prelude::*;

use crate::addr::addr_eq;
use crate::error::SwapLayerError;
use crate::jupiter::{validate_route_spec, validate_shared_accounts_route, SharedAccountsRouteKeys};
use crate::messages::{OutputToken, RedeemMode, SwapMessageV1};
use crate::state::{Peer, StagedOutbound, StagedRedeem};

verus! {

/// The order handed to the bridge's preparation entry point.
#[derive(Debug, Clone)]
pub struct PrepareMarketOrderArgs {
    /// Amount of the bridging asset the swap produced.
    pub amount_in: u64,
    /// No minimum is imposed on the bridge's side.
    pub min_amount_out: Option<u64>,
    /// Chain identifier of the destination network.
    pub target_chain: u16,
    /// The destination peer, which redeems the order.
    pub redeemer: [u8; 32],
    /// The swap message the destination side completes against.
    pub redeemer_message: SwapMessageV1,
}

/// What [`initiate_swap_exact_in`] checks before the swap runs: the staged
/// record must name the supplied peer's chain, the source asset must not
/// already be the bridging asset, and the venue call's accounts must match
/// the expected identities.
pub open spec fn initiate_validation_spec(
    staged: StagedOutbound,
    peer: Peer,
    src_mint: [u8; 32],
    usdc_mint: [u8; 32],
    route: SharedAccountsRouteKeys,
    expected: SharedAccountsRouteKeys,
) -> Result<(), SwapLayerError> {
    if staged.info.target_chain != peer.chain {
        Err(SwapLayerError::InvalidTargetChain)
    } else if src_mint@ == usdc_mint@ {
        Err(SwapLayerError::SameMint)
    } else {
        validate_route_spec(route, expected)
    }
}

/// The redemption mode the destination side will see for this staged
/// policy.
pub open spec fn redeem_mode_of(staged_redeem: StagedRedeem) -> RedeemMode {
    match staged_redeem {
        StagedRedeem::Direct => RedeemMode::Direct,
        StagedRedeem::Relay { gas_dropoff, relaying_fee } => RedeemMode::Relay {
            gas_dropoff,
            relaying_fee,
        },
        StagedRedeem::Payload(buf) => RedeemMode::Payload(buf),
    }
}

/// The swap message a staged record initiates with: its recipient, its
/// settled redemption policy, and its output descriptor (the bridging asset
/// when none was staged).
pub open spec fn swap_message_spec(
    staged: StagedOutbound,
    output_token: Option<OutputToken>,
) -> Result<SwapMessageV1, SwapLayerError> {
    if staged.encoded_output_token is Some && output_token is None {
        Err(SwapLayerError::InvalidOutputToken)
    } else {
        Ok(
            SwapMessageV1 {
                recipient: staged.info.recipient,
                redeem_mode: redeem_mode_of(staged.staged_redeem),
                output_token: match output_token {
                    Some(t) => t,
                    None => OutputToken::Usdc,
                },
            },
        )
    }
}

/// What [`build_prepared_order`] returns: the bridge order carrying the
/// swap's proceeds toward the destination peer.
pub open spec fn prepared_order_spec(
    staged: StagedOutbound,
    peer: Peer,
    output_token: Option<OutputToken>,
    usdc_amount_out: u64,
) -> Result<PrepareMarketOrderArgs, SwapLayerError> {
    match swap_message_spec(staged, output_token) {
        Err(e) => Err(e),
        Ok(message) => Ok(
            PrepareMarketOrderArgs {
                amount_in: usdc_amount_out,
                min_amount_out: None,
                target_chain: staged.info.target_chain,
                redeemer: peer.address,
                redeemer_message: message,
            },
        ),
    }
}

/// Validates an initiation with a source-side swap, before any asset moves:
/// the staged record's target chain must match the peer, the source mint
/// must differ from the bridging asset, and the venue call's accounts must
/// be exactly the expected ones.
pub fn initiate_swap_exact_in(
    staged: &StagedOutbound,
    peer: &Peer,
    src_mint: [u8; 32],
    usdc_mint: [u8; 32],
    route: &SharedAccountsRouteKeys,
    expected: &SharedAccountsRouteKeys,
) -> (r: Result<(), SwapLayerError>)
    ensures
        r == initiate_validation_spec(*staged, *peer, src_mint, usdc_mint, *route, *expected),
{
    if staged.info.target_chain != peer.chain {
        return Err(SwapLayerError::InvalidTargetChain);
    }
    if addr_eq(&src_mint, &usdc_mint) {
        return Err(SwapLayerError::SameMint);
    }
    validate_shared_accounts_route(route, expected)
}

/// Assembles the bridge order once the swap has produced `usdc_amount_out`
/// of the bridging asset, consuming the staged record.
///
/// `output_token` is the boundary's decoding of the record's descriptor
/// bytes: absent exactly when the bytes are absent or do not decode.
pub fn build_prepared_order(
    staged: StagedOutbound,
    peer: &Peer,
    output_token: Option<OutputToken>,
    usdc_amount_out: u64,
) -> (r: Result<PrepareMarketOrderArgs, SwapLayerError>)
    ensures
        r == prepared_order_spec(staged, *peer, output_token, usdc_amount_out),
{
    if staged.encoded_output_token.is_some() && output_token.is_none() {
        return Err(SwapLayerError::InvalidOutputToken);
    }
    let redeem_mode = match staged.staged_redeem {
        StagedRedeem::Direct => RedeemMode::Direct,
        StagedRedeem::Relay { gas_dropoff, relaying_fee } => RedeemMode::Relay {
            gas_dropoff,
            relaying_fee,
        },
        StagedRedeem::Payload(buf) => RedeemMode::Payload(buf),
    };
    Ok(
        PrepareMarketOrderArgs {
            amount_in: usdc_amount_out,
            min_amount_out: None,
            target_chain: staged.info.target_chain,
            redeemer: peer.address,
            redeemer_message: SwapMessageV1 {
                recipient: staged.info.recipient,
                redeem_mode,
                output_token: match output_token {
                    Some(t) => t,
                    None => OutputToken::Usdc,
                },
            },
        },
    )
}

} // verus!
