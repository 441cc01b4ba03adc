//! Completion of an inbound transfer redeemed as the bridging asset.
//!
//! A consumed prepared fill is settled either directly to the recipient, or
//! by a relayer who takes the agreed fee and may deliver a gas drop-off.
//! These functions decide the split; the caller performs the transfers the
//! returned settlement describes against the consumed fill amount.

use vstd::prelude::*;

use crate::addr::addr_eq;
use crate::arith::{sat_i64, sat_sub_i64};
use crate::error::SwapLayerError;
use crate::fees::{denormalize_gas_dropoff, denormalized_gas_dropoff};
use crate::messages::{FillType, OutputToken, PreparedFill, RedeemMode, SwapMessageV1};
use crate::state::SwapTimeLimit;

verus! {

/// How a relayed completion splits the consumed fill amount: what the
/// recipient receives, what the fee recipient receives, and the gas
/// drop-off the relayer pays the recipient out of pocket, in lamports.
#[derive(Debug, Clone, Copy, PartialEq, Eq, Structural)]
pub struct RelaySettlement {
    pub user_amount: u64,
    pub fee_amount: u64,
    pub gas_dropoff_lamports: u64,
}

/// The fill may only be completed toward the recipient its message names.
pub open spec fn recipient_matches(msg: SwapMessageV1, recipient: [u8; 32]) -> bool {
    msg.recipient@ == recipient@
}

/// The swap-time-limit guard: a relayer (anyone but the recipient) may
/// force-redeem a fill whose output is not the bridging asset only after
/// the window for its fill type has elapsed, giving the recipient a fair
/// chance to redeem through their preferred path first.
pub open spec fn time_limit_spec(
    output_token: OutputToken,
    redeemer: [u8; 32],
    recipient: [u8; 32],
    fill_type: FillType,
    fill_timestamp: i64,
    now: i64,
    limits: SwapTimeLimit,
) -> Result<(), SwapLayerError> {
    match output_token {
        OutputToken::Usdc => Ok(()),
        _ => {
            if redeemer@ == recipient@ {
                Ok(())
            } else {
                let time_diff = sat_i64(now - fill_timestamp);
                match fill_type {
                    FillType::FastFill => if time_diff >= limits.fast_limit {
                        Ok(())
                    } else {
                        Err(SwapLayerError::SwapTimeLimitNotExceeded)
                    },
                    FillType::WormholeCctpDeposit => if time_diff >= limits.finalized_limit {
                        Ok(())
                    } else {
                        Err(SwapLayerError::SwapTimeLimitNotExceeded)
                    },
                    FillType::Unset => Err(SwapLayerError::UnsupportedFillType),
                }
            }
        },
    }
}

/// What a relayed completion settles to: the full amount for the recipient
/// redeeming their own fill; otherwise the agreed fee is deducted for the
/// relayer and the drop-off is owed to the recipient.
pub open spec fn complete_transfer_relay_spec(
    fill: PreparedFill,
    now: i64,
    limits: SwapTimeLimit,
    redeemer: [u8; 32],
    recipient: [u8; 32],
    fill_amount: u64,
) -> Result<RelaySettlement, SwapLayerError> {
    if !recipient_matches(fill.message, recipient) {
        Err(SwapLayerError::InvalidRecipient)
    } else {
        match time_limit_spec(
            fill.message.output_token,
            redeemer,
            recipient,
            fill.fill_type,
            fill.timestamp,
            now,
            limits,
        ) {
            Err(e) => Err(e),
            Ok(_) => match fill.message.redeem_mode {
                RedeemMode::Relay { gas_dropoff, relaying_fee } => {
                    if redeemer@ == recipient@ {
                        Ok(
                            RelaySettlement {
                                user_amount: fill_amount,
                                fee_amount: 0u64,
                                gas_dropoff_lamports: 0u64,
                            },
                        )
                    } else if relaying_fee > fill_amount {
                        Err(SwapLayerError::InvalidRelayerFee)
                    } else {
                        Ok(
                            RelaySettlement {
                                user_amount: (fill_amount - relaying_fee) as u64,
                                fee_amount: relaying_fee,
                                gas_dropoff_lamports: denormalized_gas_dropoff(
                                    gas_dropoff,
                                ) as u64,
                            },
                        )
                    }
                },
                _ => Err(SwapLayerError::InvalidRedeemMode),
            },
        }
    }
}

/// What a direct completion releases: the full fill amount, to the named
/// recipient only, and — when the output is not the bridging asset — only
/// to the recipient themselves.
pub open spec fn complete_transfer_direct_spec(
    fill: PreparedFill,
    redeemer: [u8; 32],
    recipient: [u8; 32],
    fill_amount: u64,
) -> Result<u64, SwapLayerError> {
    if !recipient_matches(fill.message, recipient) {
        Err(SwapLayerError::InvalidRecipient)
    } else if !(fill.message.output_token matches OutputToken::Usdc) && redeemer@ != recipient@ {
        Err(SwapLayerError::InvalidRedeemer)
    } else {
        match fill.message.redeem_mode {
            RedeemMode::Direct => Ok(fill_amount),
            _ => Err(SwapLayerError::InvalidRedeemMode),
        }
    }
}

/// Settles a relayed completion of a consumed fill.
///
/// `fill_amount` is the amount the fill's consumption released; `now` is
/// the trusted clock read at execution time.
pub fn complete_transfer_relay(
    fill: &PreparedFill,
    now: i64,
    limits: &SwapTimeLimit,
    redeemer: &[u8; 32],
    recipient: &[u8; 32],
    fill_amount: u64,
) -> (r: Result<RelaySettlement, SwapLayerError>)
    ensures
        r == complete_transfer_relay_spec(*fill, now, *limits, *redeemer, *recipient, fill_amount),
        // A recipient redeeming their own fill gets everything: no fee, no
        // drop-off.
        r is Ok && redeemer@ == recipient@ ==> r->Ok_0 == (RelaySettlement {
            user_amount: fill_amount,
            fee_amount: 0u64,
            gas_dropoff_lamports: 0u64,
        }),
        // Conservation: the settlement splits the fill amount exactly.
        r matches Ok(s) ==> s.user_amount + s.fee_amount == fill_amount,
        // A relayer's fee is exactly the fee agreed at staging time.
        r matches Ok(s) ==> (redeemer@ != recipient@ ==> (fill.message.redeem_mode
            matches RedeemMode::Relay { gas_dropoff, relaying_fee } ==> s.fee_amount
            == relaying_fee)),
        // Before the applicable window has elapsed, a relayer's completion
        // of a non-bridging-asset fill always fails on the time limit.
        recipient_matches(fill.message, *recipient) && !(fill.message.output_token
            matches OutputToken::Usdc) && redeemer@ != recipient@ && fill.fill_type
            == FillType::FastFill && sat_i64(now - fill.timestamp) < limits.fast_limit ==> r
            == Err::<RelaySettlement, _>(SwapLayerError::SwapTimeLimitNotExceeded),
        recipient_matches(fill.message, *recipient) && !(fill.message.output_token
            matches OutputToken::Usdc) && redeemer@ != recipient@ && fill.fill_type
            == FillType::WormholeCctpDeposit && sat_i64(now - fill.timestamp)
            < limits.finalized_limit ==> r == Err::<RelaySettlement, _>(
            SwapLayerError::SwapTimeLimitNotExceeded,
        ),
        // At or after the window, the guard no longer applies: a
        // relayed completion with a sufficient fill amount succeeds.
        fill.message.redeem_mode matches RedeemMode::Relay { gas_dropoff, relaying_fee }
            && recipient_matches(fill.message, *recipient) && redeemer@ != recipient@
            && relaying_fee <= fill_amount && fill.fill_type == FillType::FastFill && sat_i64(
            now - fill.timestamp,
        ) >= limits.fast_limit ==> r is Ok,
        fill.message.redeem_mode matches RedeemMode::Relay { gas_dropoff, relaying_fee }
            && recipient_matches(fill.message, *recipient) && redeemer@ != recipient@
            && relaying_fee <= fill_amount && fill.fill_type == FillType::WormholeCctpDeposit
            && sat_i64(now - fill.timestamp) >= limits.finalized_limit ==> r is Ok,
{
    if !addr_eq(recipient, &fill.message.recipient) {
        return Err(SwapLayerError::InvalidRecipient);
    }
    let self_redemption = addr_eq(redeemer, recipient);

    // Enforce the swap time limit before reading the redeem mode, exactly
    // as the guard runs before the handler.
    match &fill.message.output_token {
        OutputToken::Usdc => (),
        _ => {
            if !self_redemption {
                let time_diff = sat_sub_i64(now, fill.timestamp);
                match fill.fill_type {
                    FillType::FastFill => {
                        if time_diff < limits.fast_limit as i64 {
                            return Err(SwapLayerError::SwapTimeLimitNotExceeded);
                        }
                    },
                    FillType::WormholeCctpDeposit => {
                        if time_diff < limits.finalized_limit as i64 {
                            return Err(SwapLayerError::SwapTimeLimitNotExceeded);
                        }
                    },
                    FillType::Unset => {
                        return Err(SwapLayerError::UnsupportedFillType);
                    },
                }
            }
        },
    }

    match &fill.message.redeem_mode {
        RedeemMode::Relay { gas_dropoff, relaying_fee } => {
            if self_redemption {
                Ok(RelaySettlement { user_amount: fill_amount, fee_amount: 0, gas_dropoff_lamports: 0 })
            } else if *relaying_fee > fill_amount {
                Err(SwapLayerError::InvalidRelayerFee)
            } else {
                Ok(
                    RelaySettlement {
                        user_amount: fill_amount - *relaying_fee,
                        fee_amount: *relaying_fee,
                        gas_dropoff_lamports: denormalize_gas_dropoff(*gas_dropoff),
                    },
                )
            }
        },
        _ => Err(SwapLayerError::InvalidRedeemMode),
    }
}

/// Settles a direct completion of a consumed fill: the full amount goes to
/// the recipient's token account.
pub fn complete_transfer_direct(
    fill: &PreparedFill,
    redeemer: &[u8; 32],
    recipient: &[u8; 32],
    fill_amount: u64,
) -> (r: Result<u64, SwapLayerError>)
    ensures
        r == complete_transfer_direct_spec(*fill, *redeemer, *recipient, fill_amount),
{
    if !addr_eq(recipient, &fill.message.recipient) {
        return Err(SwapLayerError::InvalidRecipient);
    }
    match &fill.message.output_token {
        OutputToken::Usdc => (),
        _ => {
            if !addr_eq(redeemer, recipient) {
                return Err(SwapLayerError::InvalidRedeemer);
            }
        },
    }
    match &fill.message.redeem_mode {
        RedeemMode::Direct => Ok(fill_amount),
        _ => Err(SwapLayerError::InvalidRedeemMode),
    }
}

} // verus!
