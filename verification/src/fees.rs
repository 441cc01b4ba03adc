//! The relayer fee calculator.
//!
//! A relayer is compensated in the bridging asset for completing a transfer
//! on the destination network. The fee is the destination peer's flat base
//! fee, plus the cost of the requested gas drop-off, plus a model of the
//! destination-side execution cost, each converted into the bridging asset
//! with overflow-checked 128-bit intermediates and a configured markup. The
//! computation is pure: identical inputs always yield the identical result,
//! which lets both networks agree on the fee.

use vstd::prelude::*;

use vstd::arithmetic::div_mod::{lemma_div_by_multiple, lemma_div_is_ordered, lemma_div_nonincreasing};
use vstd::arithmetic::mul::{lemma_mul_inequality, lemma_mul_upper_bound};

use crate::arith::{sat_add_u64, sat_u64};
use crate::error::SwapLayerError;
use crate::messages::{OutputToken, SwapType};
use crate::state::{ExecutionParams, RelayParams};
use crate::MAX_BPS;

verus! {

/// Fixed destination gas of any relayed completion, in gas units.
pub const EVM_GAS_OVERHEAD: u64 = 280_000;

/// Extra destination gas when a gas drop-off is delivered.
pub const DROPOFF_GAS_OVERHEAD: u64 = 32_000;

/// Fixed gas of a Uniswap-style destination swap.
pub const UNISWAP_GAS_OVERHEAD: u64 = 10_000;

/// Gas per leg of a Uniswap-style destination swap.
pub const UNISWAP_GAS_PER_SWAP: u64 = 120_000;

/// Fixed gas of a Trader-Joe-style destination swap.
pub const TRADERJOE_GAS_OVERHEAD: u64 = 30_000;

/// Gas per leg of a Trader-Joe-style destination swap.
pub const TRADERJOE_GAS_PER_SWAP: u64 = 80_000;

/// Smallest units per whole source-chain native token.
pub const ONE_SOL: u64 = 1_000_000_000;

/// Wei per normalized gas-price unit.
pub const GAS_PRICE_SCALAR: u32 = 1_000_000;

/// Lamports per normalized gas-drop-off unit.
pub const GAS_DROPOFF_SCALAR: u32 = 1_000;

/// Wei per whole destination native token.
pub const ONE_ETHER: u64 = 1_000_000_000_000_000_000;

/// Largest value of the protocol's 48-bit fee field.
pub const MAX_UINT48: u64 = 281_474_976_710_655;

/// A normalized gas price, in wei.
pub open spec fn denormalized_gas_price(gas_price: u32) -> int {
    gas_price * GAS_PRICE_SCALAR
}

/// A normalized gas drop-off, in lamports.
pub open spec fn denormalized_gas_dropoff(gas_dropoff: u32) -> int {
    gas_dropoff * GAS_DROPOFF_SCALAR
}

/// `base` marked up by `percentage` (in hundredths of a basis point), or
/// nothing when the percentage exceeds one hundred percent or the result
/// leaves 64 bits.
pub open spec fn compound_spec(percentage: u32, base: u64) -> Option<u64> {
    if percentage == 0 {
        Some(base)
    } else if percentage > MAX_BPS {
        None
    } else {
        let total = base * percentage / (MAX_BPS as int) + base;
        if total > u64::MAX {
            None
        } else {
            Some(total as u64)
        }
    }
}

/// Destination gas of a swap route: a venue-fixed overhead plus a per-leg
/// cost, where a route with `n` path entries makes `n + 1` swaps. Nothing
/// when a 64-bit quantity overflows.
pub open spec fn swap_overhead_for(overhead: u64, cost_per_swap: u64, num_hops: int) -> Option<u64> {
    if cost_per_swap * num_hops > u64::MAX {
        None
    } else if overhead + cost_per_swap * num_hops > u64::MAX {
        None
    } else {
        Some((overhead + cost_per_swap * num_hops) as u64)
    }
}

/// Number of swaps of a route with `path_len` extra legs, clamped as the
/// hop count is computed in address-width arithmetic.
pub open spec fn num_hops_spec(path_len: nat) -> int {
    if path_len + 1 > usize::MAX {
        usize::MAX as int
    } else {
        path_len + 1int
    }
}

/// Destination gas of a requested swap shape; only the two known EVM-style
/// venues have a cost model.
pub open spec fn evm_swap_overhead_spec(swap_type: SwapType) -> Option<u64> {
    match swap_type {
        SwapType::TraderJoe(p) => swap_overhead_for(
            TRADERJOE_GAS_OVERHEAD,
            TRADERJOE_GAS_PER_SWAP,
            num_hops_spec(p.path@.len()),
        ),
        SwapType::UniswapV3(p) => swap_overhead_for(
            UNISWAP_GAS_OVERHEAD,
            UNISWAP_GAS_PER_SWAP,
            num_hops_spec(p.path@.len()),
        ),
        SwapType::JupiterV6(_) => None,
    }
}

/// Cost of `total_gas` units of destination gas, in the bridging asset's
/// smallest unit, marked up by the gas price margin. Nothing when the
/// 128-bit intermediate or the 64-bit result overflows.
pub open spec fn evm_gas_cost_spec(
    gas_price: u32,
    gas_price_margin: u32,
    total_gas: u64,
    native_token_price: u64,
) -> Option<u64> {
    let product = total_gas * denormalized_gas_price(gas_price) * native_token_price;
    if product > u128::MAX {
        None
    } else {
        let cost = product / (ONE_ETHER as int);
        if cost > u64::MAX {
            None
        } else {
            compound_spec(gas_price_margin, cost as u64)
        }
    }
}

/// Cost of delivering the requested gas drop-off, in the bridging asset's
/// smallest unit, marked up by the drop-off margin. Nothing when the 64-bit
/// result overflows.
pub open spec fn gas_dropoff_cost_spec(
    specified_gas_dropoff: u32,
    gas_dropoff_margin: u32,
    native_token_price: u64,
) -> Option<u64> {
    let cost = denormalized_gas_dropoff(specified_gas_dropoff) * native_token_price / (
    ONE_SOL as int);
    if cost > u64::MAX {
        None
    } else {
        compound_spec(gas_dropoff_margin, cost as u64)
    }
}

/// Destination gas contributed by the requested output token: only a swap
/// into gas or into another asset costs destination gas.
pub open spec fn swap_overhead_term(output_token: OutputToken) -> Option<u64> {
    match output_token {
        OutputToken::Gas(swap) => evm_swap_overhead_spec(swap.swap_type),
        OutputToken::Other { address: _, swap } => evm_swap_overhead_spec(swap.swap_type),
        _ => Some(0u64),
    }
}

/// Total destination gas of a relayed completion.
pub open spec fn total_gas_spec(specified_gas_dropoff: u32, swap_overhead: u64) -> u64 {
    sat_u64(
        sat_u64(
            EVM_GAS_OVERHEAD + if specified_gas_dropoff > 0 {
                DROPOFF_GAS_OVERHEAD as int
            } else {
                0int
            },
        ) + swap_overhead,
    )
}

/// The relayer fee owed for completing a transfer with the given relay
/// configuration, requested gas drop-off and output token, or the exact
/// refusal.
pub open spec fn relayer_fee_spec(
    params: RelayParams,
    specified_gas_dropoff: u32,
    output_token: OutputToken,
) -> Result<u64, SwapLayerError> {
    if params.base_fee == u32::MAX {
        Err(SwapLayerError::RelayingDisabled)
    } else if specified_gas_dropoff > params.max_gas_dropoff {
        Err(SwapLayerError::InvalidGasDropoff)
    } else {
        let base = params.base_fee as u64;
        let fee_after_dropoff: Option<u64> = if specified_gas_dropoff > 0 {
            match gas_dropoff_cost_spec(
                specified_gas_dropoff,
                params.gas_dropoff_margin,
                params.native_token_price,
            ) {
                Some(c) => Some(sat_u64(base + c)),
                None => None,
            }
        } else {
            Some(base)
        };
        match fee_after_dropoff {
            None => Err(SwapLayerError::GasDropoffCalculationFailed),
            Some(fee1) => match params.execution_params {
                ExecutionParams::Evm { gas_price, gas_price_margin } => {
                    match swap_overhead_term(output_token) {
                        None => Err(SwapLayerError::EvmGasCalculationFailed),
                        Some(sw) => {
                            let total_gas = total_gas_spec(specified_gas_dropoff, sw);
                            match evm_gas_cost_spec(
                                gas_price,
                                gas_price_margin,
                                total_gas,
                                params.native_token_price,
                            ) {
                                None => Err(SwapLayerError::EvmGasCalculationFailed),
                                Some(gc) => {
                                    let fee = sat_u64(fee1 + gc);
                                    if fee > MAX_UINT48 {
                                        Err(SwapLayerError::RelayerFeeOverflow)
                                    } else {
                                        Ok(fee)
                                    }
                                },
                            }
                        },
                    }
                },
                ExecutionParams::Unset => Err(SwapLayerError::InvalidExecutionParams),
            },
        }
    }
}

/// A normalized gas price, in wei.
pub fn denormalize_gas_price(gas_price: u32) -> (r: u64)
    ensures
        r == denormalized_gas_price(gas_price),
{
    proof {
        lemma_mul_upper_bound(
            gas_price as int,
            u32::MAX as int,
            GAS_PRICE_SCALAR as int,
            GAS_PRICE_SCALAR as int,
        );
    }
    (gas_price as u64) * (GAS_PRICE_SCALAR as u64)
}

/// A normalized gas drop-off, in lamports.
pub fn denormalize_gas_dropoff(gas_dropoff: u32) -> (r: u64)
    ensures
        r == denormalized_gas_dropoff(gas_dropoff),
{
    proof {
        lemma_mul_upper_bound(
            gas_dropoff as int,
            u32::MAX as int,
            GAS_DROPOFF_SCALAR as int,
            GAS_DROPOFF_SCALAR as int,
        );
    }
    (gas_dropoff as u64) * (GAS_DROPOFF_SCALAR as u64)
}

/// Applies a markup to `base`: the sole place where a margin is applied, so
/// the protocol has one rounding and overflow policy.
pub fn compound(percentage: u32, base: u64) -> (r: Option<u64>)
    ensures
        r == compound_spec(percentage, base),
{
    if percentage == 0 {
        Some(base)
    } else if percentage > MAX_BPS {
        None
    } else {
        let b: u128 = base as u128;
        let p: u128 = percentage as u128;
        proof {
            lemma_mul_upper_bound(b as int, u64::MAX as int, p as int, MAX_BPS as int);
            lemma_div_nonincreasing((b * p) as int, MAX_BPS as int);
        }
        let total: u128 = b * p / (MAX_BPS as u128) + b;
        if total > (u64::MAX as u128) {
            None
        } else {
            Some(total as u64)
        }
    }
}

/// Destination gas of a requested swap shape, for the two known EVM-style
/// venues.
pub fn calculate_evm_swap_overhead(swap_type: &SwapType) -> (r: Option<u64>)
    ensures
        r == evm_swap_overhead_spec(*swap_type),
{
    let (overhead, cost_per_swap, num_hops): (u64, u64, usize) = match swap_type {
        SwapType::TraderJoe(p) => (
            TRADERJOE_GAS_OVERHEAD,
            TRADERJOE_GAS_PER_SWAP,
            crate::arith::sat_add_usize(p.path.len(), 1),
        ),
        SwapType::UniswapV3(p) => (
            UNISWAP_GAS_OVERHEAD,
            UNISWAP_GAS_PER_SWAP,
            crate::arith::sat_add_usize(p.path.len(), 1),
        ),
        SwapType::JupiterV6(_) => {
            return None;
        },
    };
    match cost_per_swap.checked_mul(num_hops as u64) {
        Some(m) => overhead.checked_add(m),
        None => None,
    }
}

/// Cost of `total_gas` units of destination gas in the bridging asset, with
/// the configured markup.
pub fn calculate_evm_gas_cost(
    gas_price: u32,
    gas_price_margin: u32,
    total_gas: u64,
    native_token_price: u64,
) -> (r: Option<u64>)
    ensures
        r == evm_gas_cost_spec(gas_price, gas_price_margin, total_gas, native_token_price),
{
    let denorm: u64 = denormalize_gas_price(gas_price);
    proof {
        lemma_mul_upper_bound(
            total_gas as int,
            u64::MAX as int,
            denorm as int,
            4_294_967_295_000_000int,
        );
    }
    let gas_units: u128 = (total_gas as u128) * (denorm as u128);
    match gas_units.checked_mul(native_token_price as u128) {
        Some(product) => {
            let cost: u128 = product / (ONE_ETHER as u128);
            proof {
                lemma_div_nonincreasing(product as int, ONE_ETHER as int);
            }
            if cost > (u64::MAX as u128) {
                None
            } else {
                compound(gas_price_margin, cost as u64)
            }
        },
        None => None,
    }
}

/// Cost of the requested gas drop-off in the bridging asset, with the
/// configured markup.
pub fn calculate_gas_dropoff_cost(
    specified_gas_dropoff: u32,
    gas_dropoff_margin: u32,
    native_token_price: u64,
) -> (r: Option<u64>)
    ensures
        r == gas_dropoff_cost_spec(specified_gas_dropoff, gas_dropoff_margin, native_token_price),
{
    let denorm: u64 = denormalize_gas_dropoff(specified_gas_dropoff);
    proof {
        lemma_mul_upper_bound(
            denorm as int,
            4_294_967_295_000int,
            native_token_price as int,
            u64::MAX as int,
        );
    }
    let lamport_value: u128 = (denorm as u128) * (native_token_price as u128);
    let cost: u128 = lamport_value / (ONE_SOL as u128);
    proof {
        lemma_div_nonincreasing(lamport_value as int, ONE_SOL as int);
    }
    if cost > (u64::MAX as u128) {
        None
    } else {
        compound(gas_dropoff_margin, cost as u64)
    }
}

/// The relayer fee owed for completing a transfer, in the bridging asset's
/// smallest unit, or the exact refusal.
///
/// Relaying disabled by the peer's sentinel and a drop-off beyond the peer's
/// maximum are refused before any arithmetic runs.
pub fn calculate_relayer_fee(
    relay_params: &RelayParams,
    specified_gas_dropoff: u32,
    output_token: &OutputToken,
) -> (r: Result<u64, SwapLayerError>)
    ensures
        r == relayer_fee_spec(*relay_params, specified_gas_dropoff, *output_token),
        relay_params.base_fee == u32::MAX ==> r == Err::<u64, _>(SwapLayerError::RelayingDisabled),
        relay_params.base_fee != u32::MAX && specified_gas_dropoff > relay_params.max_gas_dropoff
            ==> r == Err::<u64, _>(SwapLayerError::InvalidGasDropoff),
{
    if relay_params.base_fee == u32::MAX {
        return Err(SwapLayerError::RelayingDisabled);
    }
    if specified_gas_dropoff > relay_params.max_gas_dropoff {
        return Err(SwapLayerError::InvalidGasDropoff);
    }

    let mut relayer_fee: u64 = relay_params.base_fee as u64;

    if specified_gas_dropoff > 0 {
        let gas_dropoff_cost = match calculate_gas_dropoff_cost(
            specified_gas_dropoff,
            relay_params.gas_dropoff_margin,
            relay_params.native_token_price,
        ) {
            Some(c) => c,
            None => {
                return Err(SwapLayerError::GasDropoffCalculationFailed);
            },
        };
        relayer_fee = sat_add_u64(relayer_fee, gas_dropoff_cost);
    }

    match relay_params.execution_params {
        ExecutionParams::Evm { gas_price, gas_price_margin } => {
            let swap_overhead = match output_token {
                OutputToken::Gas(swap) => match calculate_evm_swap_overhead(&swap.swap_type) {
                    Some(o) => o,
                    None => {
                        return Err(SwapLayerError::EvmGasCalculationFailed);
                    },
                },
                OutputToken::Other { address: _, swap } => match calculate_evm_swap_overhead(
                    &swap.swap_type,
                ) {
                    Some(o) => o,
                    None => {
                        return Err(SwapLayerError::EvmGasCalculationFailed);
                    },
                },
                _ => 0,
            };
            let dropoff_gas: u64 = if specified_gas_dropoff > 0 {
                DROPOFF_GAS_OVERHEAD
            } else {
                0
            };
            let total_gas = sat_add_u64(sat_add_u64(EVM_GAS_OVERHEAD, dropoff_gas), swap_overhead);

            let evm_gas_cost = match calculate_evm_gas_cost(
                gas_price,
                gas_price_margin,
                total_gas,
                relay_params.native_token_price,
            ) {
                Some(c) => c,
                None => {
                    return Err(SwapLayerError::EvmGasCalculationFailed);
                },
            };
            relayer_fee = sat_add_u64(relayer_fee, evm_gas_cost);

            // The fee travels in a 48-bit wire field.
            if relayer_fee > MAX_UINT48 {
                return Err(SwapLayerError::RelayerFeeOverflow);
            }
            Ok(relayer_fee)
        },
        ExecutionParams::Unset => Err(SwapLayerError::InvalidExecutionParams),
    }
}

/// Compounding by zero percent returns the base unchanged; compounding by
/// one hundred percent doubles it exactly when the double fits 64 bits, and
/// fails otherwise.
pub proof fn lemma_compound_identity(base: u64)
    ensures
        compound_spec(0, base) == Some(base),
        2 * base <= u64::MAX ==> compound_spec(MAX_BPS, base) == Some((2 * base) as u64),
        2 * base > u64::MAX ==> compound_spec(MAX_BPS, base) is None,
{
    lemma_div_by_multiple(base as int, MAX_BPS as int);
    assert(base * MAX_BPS / (MAX_BPS as int) == base);
}

/// Compounding with a fixed percentage is monotone in the base, and cannot
/// overflow on a smaller base when it succeeds on a larger one.
proof fn lemma_compound_mono(percentage: u32, b1: u64, b2: u64)
    requires
        b1 <= b2,
    ensures
        compound_spec(percentage, b2) matches Some(c2) ==> (compound_spec(percentage, b1)
            matches Some(c1) && c1 <= c2),
{
    if 0 < percentage <= MAX_BPS {
        lemma_mul_inequality(b1 as int, b2 as int, percentage as int);
        lemma_div_is_ordered(b1 * percentage, b2 * percentage, MAX_BPS as int);
    }
}

/// The gas-drop-off cost is monotone in the requested drop-off.
proof fn lemma_dropoff_cost_mono(d1: u32, d2: u32, margin: u32, price: u64)
    requires
        d1 <= d2,
    ensures
        gas_dropoff_cost_spec(d2, margin, price) matches Some(c2) ==> (gas_dropoff_cost_spec(
            d1,
            margin,
            price,
        ) matches Some(c1) && c1 <= c2),
{
    lemma_mul_inequality(d1 as int, d2 as int, GAS_DROPOFF_SCALAR as int);
    lemma_mul_inequality(
        denormalized_gas_dropoff(d1),
        denormalized_gas_dropoff(d2),
        price as int,
    );
    lemma_div_is_ordered(
        denormalized_gas_dropoff(d1) * price,
        denormalized_gas_dropoff(d2) * price,
        ONE_SOL as int,
    );
    let cost1 = denormalized_gas_dropoff(d1) * price / (ONE_SOL as int);
    let cost2 = denormalized_gas_dropoff(d2) * price / (ONE_SOL as int);
    if cost2 <= u64::MAX {
        lemma_compound_mono(margin, cost1 as u64, cost2 as u64);
    }
}

/// The execution gas cost is monotone in the total gas.
proof fn lemma_evm_cost_mono(gp: u32, gpm: u32, tg1: u64, tg2: u64, price: u64)
    requires
        tg1 <= tg2,
    ensures
        evm_gas_cost_spec(gp, gpm, tg2, price) matches Some(c2) ==> (evm_gas_cost_spec(
            gp,
            gpm,
            tg1,
            price,
        ) matches Some(c1) && c1 <= c2),
{
    let dp = denormalized_gas_price(gp);
    vstd::arithmetic::mul::lemma_mul_nonnegative(gp as int, GAS_PRICE_SCALAR as int);
    lemma_mul_inequality(tg1 as int, tg2 as int, dp);
    lemma_mul_inequality(tg1 * dp, tg2 * dp, price as int);
    lemma_div_is_ordered(tg1 * dp * price, tg2 * dp * price, ONE_ETHER as int);
    let cost1 = tg1 * dp * price / (ONE_ETHER as int);
    let cost2 = tg2 * dp * price / (ONE_ETHER as int);
    if tg2 * dp * price <= u128::MAX && cost2 <= u64::MAX {
        lemma_compound_mono(gpm, cost1 as u64, cost2 as u64);
    }
}

/// For a fixed relay configuration and output token, the relayer fee is
/// non-decreasing in the requested gas drop-off: whenever both requests
/// succeed, the smaller drop-off never costs more.
pub proof fn lemma_relayer_fee_monotonic(
    params: RelayParams,
    d1: u32,
    d2: u32,
    output_token: OutputToken,
)
    requires
        d1 <= d2,
        relayer_fee_spec(params, d1, output_token) is Ok,
        relayer_fee_spec(params, d2, output_token) is Ok,
    ensures
        relayer_fee_spec(params, d1, output_token)->Ok_0 <= relayer_fee_spec(
            params,
            d2,
            output_token,
        )->Ok_0,
{
    lemma_dropoff_cost_mono(d1, d2, params.gas_dropoff_margin, params.native_token_price);
    match params.execution_params {
        ExecutionParams::Evm { gas_price, gas_price_margin } => {
            let sw = swap_overhead_term(output_token)->Some_0;
            let tg1 = total_gas_spec(d1, sw);
            let tg2 = total_gas_spec(d2, sw);
            assert(tg1 <= tg2);
            lemma_evm_cost_mono(
                gas_price,
                gas_price_margin,
                tg1,
                tg2,
                params.native_token_price,
            );
        },
        ExecutionParams::Unset => {},
    }
}

} // verus!
