//! The swap execution adapter's value model.
//!
//! The route aggregator is driven by an opaque call-data blob plus an
//! ordered account list. The boundary decodes the blob's routed-swap
//! arguments into [`SharedAccountsRouteArgs`] (a selector check and a
//! structured decode) before any field is trusted; this crate validates the
//! account identities, overrides the amounts the venue may not choose, and
//! hands the corrected arguments back for the invocation.

use vstd::prelude::*;

use vstd::arithmetic::div_mod::lemma_div_nonincreasing;
use vstd::arithmetic::mul::lemma_mul_upper_bound;

use crate::error::SwapLayerError;

verus! {

/// The venue's slippage denominator: one hundred percent in basis points.
pub const MAX_SLIPPAGE_BPS: u16 = 10_000;

/// The decoded arguments of a routed-swap invocation: the fields the
/// protocol reads or overrides.
#[derive(Debug, Clone, Copy)]
pub struct SharedAccountsRouteArgs {
    /// Amount of the source asset handed to the venue.
    pub in_amount: u64,
    /// The venue's quoted output amount.
    pub quoted_out_amount: u64,
    /// Accepted slippage against the quote, in basis points.
    pub slippage_bps: u16,
    /// Number of steps in the venue's route plan.
    pub route_plan_len: usize,
}

/// The identities of the venue-call accounts the protocol must pin down
/// before invoking the venue.
#[derive(Debug, Clone, Copy)]
pub struct SharedAccountsRouteKeys {
    /// The authority signing the venue call.
    pub transfer_authority: [u8; 32],
    /// The custody holding the swap's input.
    pub src_custody_token: [u8; 32],
    /// The custody receiving the swap's output.
    pub dst_custody_token: [u8; 32],
    /// Mint of the swap's input.
    pub src_mint: [u8; 32],
    /// Mint of the swap's output.
    pub dst_mint: [u8; 32],
}

/// The least output the venue may settle for: the quote reduced by the
/// accepted slippage, rounded down. A slippage of one hundred percent or
/// more accepts anything.
pub open spec fn min_amount_out_spec(args: SharedAccountsRouteArgs) -> u64 {
    if args.slippage_bps >= MAX_SLIPPAGE_BPS {
        0u64
    } else {
        (args.quoted_out_amount * (MAX_SLIPPAGE_BPS - args.slippage_bps) / (
        MAX_SLIPPAGE_BPS as int)) as u64
    }
}

/// The least output the venue may settle for under these arguments.
pub fn compute_min_amount_out(args: &SharedAccountsRouteArgs) -> (r: u64)
    ensures
        r == min_amount_out_spec(*args),
{
    if args.slippage_bps >= MAX_SLIPPAGE_BPS {
        return 0;
    }
    let keep_bps: u128 = (MAX_SLIPPAGE_BPS - args.slippage_bps) as u128;
    proof {
        lemma_mul_upper_bound(
            args.quoted_out_amount as int,
            u64::MAX as int,
            keep_bps as int,
            MAX_SLIPPAGE_BPS as int,
        );
        lemma_div_nonincreasing(
            (args.quoted_out_amount * keep_bps) as int,
            MAX_SLIPPAGE_BPS as int,
        );
        lemma_mul_upper_bound(
            args.quoted_out_amount as int,
            u64::MAX as int,
            1int,
            1int,
        );
    }
    let scaled: u128 = (args.quoted_out_amount as u128) * keep_bps / (MAX_SLIPPAGE_BPS as u128);
    scaled as u64
}

/// What [`validate_shared_accounts_route`] returns: the first account whose
/// identity differs from the expected one names the error, in the fixed
/// order authority, source custody, destination custody, source mint,
/// destination mint.
pub open spec fn validate_route_spec(
    actual: SharedAccountsRouteKeys,
    expected: SharedAccountsRouteKeys,
) -> Result<(), SwapLayerError> {
    if actual.transfer_authority@ != expected.transfer_authority@ {
        Err(SwapLayerError::InvalidSwapAuthority)
    } else if actual.src_custody_token@ != expected.src_custody_token@ {
        Err(SwapLayerError::InvalidSourceSwapToken)
    } else if actual.dst_custody_token@ != expected.dst_custody_token@ {
        Err(SwapLayerError::InvalidDestinationSwapToken)
    } else if actual.src_mint@ != expected.src_mint@ {
        Err(SwapLayerError::InvalidSourceMint)
    } else if actual.dst_mint@ != expected.dst_mint@ {
        Err(SwapLayerError::InvalidDestinationMint)
    } else {
        Ok(())
    }
}

/// Refuses the venue call unless every account identity matches the
/// expected one; any mismatch is fatal, so no other actor can redirect the
/// swap's proceeds.
pub fn validate_shared_accounts_route(
    actual: &SharedAccountsRouteKeys,
    expected: &SharedAccountsRouteKeys,
) -> (r: Result<(), SwapLayerError>)
    ensures
        r == validate_route_spec(*actual, *expected),
{
    if !crate::addr::addr_eq(&actual.transfer_authority, &expected.transfer_authority) {
        return Err(SwapLayerError::InvalidSwapAuthority);
    }
    if !crate::addr::addr_eq(&actual.src_custody_token, &expected.src_custody_token) {
        return Err(SwapLayerError::InvalidSourceSwapToken);
    }
    if !crate::addr::addr_eq(&actual.dst_custody_token, &expected.dst_custody_token) {
        return Err(SwapLayerError::InvalidDestinationSwapToken);
    }
    if !crate::addr::addr_eq(&actual.src_mint, &expected.src_mint) {
        return Err(SwapLayerError::InvalidSourceMint);
    }
    if !crate::addr::addr_eq(&actual.dst_mint, &expected.dst_mint) {
        return Err(SwapLayerError::InvalidDestinationMint);
    }
    Ok(())
}

} // verus!
