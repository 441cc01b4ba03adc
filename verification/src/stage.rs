//! The staging step of an outbound transfer.
//!
//! Staging validates the sender's request, fixes the relaying fee, computes
//! the exact amount to reserve, and produces the record to persist. The
//! caller then moves the reserved amount into the custody account named by
//! the record and persists it; nothing is moved when staging refuses.

use vstd::prelude::*;

use crate::addr::{addr_eq, addr_is_zero, is_zero_addr};
use crate::error::SwapLayerError;
use crate::fees::{calculate_relayer_fee, relayer_fee_spec};
use crate::jupiter::{compute_min_amount_out, min_amount_out_spec, SharedAccountsRouteArgs};
use crate::messages::OutputToken;
use crate::state::{Peer, RedeemOption, RelayParams, StagedInput, StagedOutbound, StagedOutboundInfo, StagedRedeem};

verus! {

/// The arguments a sender stages a transfer with.
#[derive(Debug, Clone)]
pub struct StageOutboundArgs {
    pub staged_input: StagedInput,
    /// Chain identifier of the destination network.
    pub target_chain: u16,
    /// Recipient on the destination network; the zero address is refused.
    pub recipient: [u8; 32],
    /// Requested redemption policy; absent means direct redemption.
    pub redeem_option: Option<RedeemOption>,
    /// Wire form of the requested output-token descriptor; absent means the
    /// bridging asset.
    pub encoded_output_token: Option<Vec<u8>>,
}

/// What a successful staging step hands back: the record to persist, the
/// amount to move into custody, and the resolved sender identity.
#[derive(Debug, Clone)]
pub struct StageOutboundOutcome {
    pub staged: StagedOutbound,
    /// Amount of the source asset to move from the sender into the custody
    /// account, in its smallest unit.
    pub transfer_amount: u64,
    /// The transfer's logical sender: the signing sender, or the owner of
    /// the source token account under a program transfer authority.
    pub sender: [u8; 32],
}

/// An optionally decoded output-token descriptor as a plain value.
pub open spec fn decoded_token(output_token: Option<&OutputToken>) -> Option<OutputToken> {
    match output_token {
        Some(t) => Some(*t),
        None => None,
    }
}

/// The redemption policy to persist: direct or payload redemption are
/// stored as requested; a relay request fixes the relaying fee now and
/// refuses a fee above the sender's cap. An absent descriptor prices the
/// bridging asset.
pub open spec fn staged_redeem_spec(
    params: RelayParams,
    redeem_option: Option<RedeemOption>,
    output_token: Option<OutputToken>,
) -> Result<StagedRedeem, SwapLayerError> {
    match redeem_option {
        None => Ok(StagedRedeem::Direct),
        Some(RedeemOption::Payload(buf)) => Ok(StagedRedeem::Payload(buf)),
        Some(RedeemOption::Relay { gas_dropoff, max_relayer_fee }) => {
            let token = match output_token {
                Some(t) => t,
                None => OutputToken::Usdc,
            };
            match relayer_fee_spec(params, gas_dropoff, token) {
                Err(e) => Err(e),
                Ok(fee) => if fee > max_relayer_fee {
                    Err(SwapLayerError::ExceedsMaxRelayingFee)
                } else {
                    Ok(StagedRedeem::Relay { gas_dropoff, relaying_fee: fee })
                },
            }
        },
    }
}

/// The amount to reserve: for a bridging-asset input, the specified amount
/// plus the relaying fee when relaying; for a swap input, the venue's
/// encoded input amount, provided the venue's minimum output covers the
/// relaying fee (when relaying) or is positive (otherwise).
pub open spec fn transfer_amount_spec(
    staged_input: StagedInput,
    swap_args: Option<SharedAccountsRouteArgs>,
    staged_redeem: StagedRedeem,
) -> Result<u64, SwapLayerError> {
    match staged_input {
        StagedInput::Usdc { amount } => match staged_redeem {
            StagedRedeem::Relay { gas_dropoff: _, relaying_fee } => if relaying_fee + amount
                > u64::MAX {
                Err(SwapLayerError::U64Overflow)
            } else {
                Ok((relaying_fee + amount) as u64)
            },
            _ => Ok(amount),
        },
        StagedInput::SwapExactIn { instruction_data: _ } => {
            let args = swap_args->Some_0;
            let min_amount_out = min_amount_out_spec(args);
            match staged_redeem {
                StagedRedeem::Relay { gas_dropoff: _, relaying_fee } => if min_amount_out
                    > relaying_fee {
                    Ok(args.in_amount)
                } else {
                    Err(SwapLayerError::RelayingFeeExceedsMinAmountOut)
                },
                _ => if min_amount_out > 0 {
                    Ok(args.in_amount)
                } else {
                    Err(SwapLayerError::ZeroMinAmountOut)
                },
            }
        },
    }
}

/// The transfer's logical sender: exactly one of a signing sender and a
/// program transfer authority must be present; under the latter, the owner
/// of the source token account is the sender.
pub open spec fn resolved_sender_spec(
    sender: Option<[u8; 32]>,
    program_transfer_authority: Option<[u8; 32]>,
    sender_token_owner: [u8; 32],
) -> Result<[u8; 32], SwapLayerError> {
    match (sender, program_transfer_authority) {
        (Some(s), None) => Ok(s),
        (None, Some(_)) => Ok(sender_token_owner),
        _ => Err(SwapLayerError::EitherSenderOrProgramTransferAuthority),
    }
}

/// What [`stage_outbound`] returns, checking in this order: the peer must
/// serve the target chain; present descriptor bytes must have decoded; the
/// recipient must not be the zero address; the source mint must be the
/// bridging asset exactly for a bridging-asset input; then the redemption
/// policy, the reserved amount and the sender are settled.
pub open spec fn stage_outbound_spec(
    peer: Peer,
    args: StageOutboundArgs,
    output_token: Option<OutputToken>,
    swap_args: Option<SharedAccountsRouteArgs>,
    src_mint: [u8; 32],
    usdc_mint: [u8; 32],
    sender: Option<[u8; 32]>,
    program_transfer_authority: Option<[u8; 32]>,
    sender_token_owner: [u8; 32],
    custody_token_bump: u8,
    prepared_by: [u8; 32],
) -> Result<StageOutboundOutcome, SwapLayerError> {
    if args.target_chain != peer.chain {
        Err(SwapLayerError::InvalidTargetChain)
    } else if args.encoded_output_token is Some && output_token is None {
        Err(SwapLayerError::InvalidOutputToken)
    } else if is_zero_addr(args.recipient) {
        Err(SwapLayerError::InvalidRecipient)
    } else if (args.staged_input matches StagedInput::Usdc { .. }) && src_mint@ != usdc_mint@ {
        Err(SwapLayerError::InvalidSourceMint)
    } else if (args.staged_input matches StagedInput::SwapExactIn { .. }) && src_mint@
        == usdc_mint@ {
        Err(SwapLayerError::InvalidSourceMint)
    } else {
        match staged_redeem_spec(peer.relay_params, args.redeem_option, output_token) {
            Err(e) => Err(e),
            Ok(staged_redeem) => match transfer_amount_spec(
                args.staged_input,
                swap_args,
                staged_redeem,
            ) {
                Err(e) => Err(e),
                Ok(transfer_amount) => match resolved_sender_spec(
                    sender,
                    program_transfer_authority,
                    sender_token_owner,
                ) {
                    Err(e) => Err(e),
                    Ok(resolved) => Ok(
                        StageOutboundOutcome {
                            staged: StagedOutbound {
                                info: StagedOutboundInfo {
                                    custody_token_bump,
                                    prepared_by,
                                    src_mint,
                                    target_chain: args.target_chain,
                                    recipient: args.recipient,
                                },
                                staged_input: args.staged_input,
                                staged_redeem,
                                encoded_output_token: args.encoded_output_token,
                            },
                            transfer_amount,
                            sender: resolved,
                        },
                    ),
                },
            },
        }
    }
}

/// Settles the redemption policy to persist with a staged transfer.
///
/// `output_token` is the boundary's decoding of the staged descriptor
/// bytes, consulted only for a relay request; absent means the bridging
/// asset.
pub fn build_staged_redeem(
    params: &RelayParams,
    redeem_option: Option<RedeemOption>,
    output_token: Option<&OutputToken>,
) -> (r: Result<StagedRedeem, SwapLayerError>)
    ensures
        r == staged_redeem_spec(*params, redeem_option, decoded_token(output_token)),
{
    match redeem_option {
        None => Ok(StagedRedeem::Direct),
        Some(RedeemOption::Payload(buf)) => Ok(StagedRedeem::Payload(buf)),
        Some(RedeemOption::Relay { gas_dropoff, max_relayer_fee }) => {
            let fee_result = match output_token {
                Some(token) => calculate_relayer_fee(params, gas_dropoff, token),
                None => calculate_relayer_fee(params, gas_dropoff, &OutputToken::Usdc),
            };
            match fee_result {
                Err(e) => Err(e),
                Ok(relaying_fee) => {
                    if relaying_fee > max_relayer_fee {
                        Err(SwapLayerError::ExceedsMaxRelayingFee)
                    } else {
                        Ok(StagedRedeem::Relay { gas_dropoff, relaying_fee })
                    }
                },
            }
        },
    }
}

/// Computes the amount to reserve for a staged transfer.
///
/// `swap_args` is the boundary's decoding of the venue call data and must
/// accompany a swap input.
pub fn compute_transfer_amount(
    staged_input: &StagedInput,
    swap_args: Option<SharedAccountsRouteArgs>,
    staged_redeem: &StagedRedeem,
) -> (r: Result<u64, SwapLayerError>)
    requires
        staged_input matches StagedInput::SwapExactIn { .. } ==> swap_args is Some,
    ensures
        r == transfer_amount_spec(*staged_input, swap_args, *staged_redeem),
{
    match staged_input {
        StagedInput::Usdc { amount } => match staged_redeem {
            StagedRedeem::Relay { gas_dropoff: _, relaying_fee } => match relaying_fee.checked_add(
                *amount,
            ) {
                Some(total) => Ok(total),
                None => Err(SwapLayerError::U64Overflow),
            },
            _ => Ok(*amount),
        },
        StagedInput::SwapExactIn { instruction_data: _ } => {
            let args = swap_args.unwrap();
            let min_amount_out = compute_min_amount_out(&args);
            match staged_redeem {
                StagedRedeem::Relay { gas_dropoff: _, relaying_fee } => {
                    if min_amount_out > *relaying_fee {
                        Ok(args.in_amount)
                    } else {
                        Err(SwapLayerError::RelayingFeeExceedsMinAmountOut)
                    }
                },
                _ => {
                    if min_amount_out > 0 {
                        Ok(args.in_amount)
                    } else {
                        Err(SwapLayerError::ZeroMinAmountOut)
                    }
                },
            }
        },
    }
}

/// Resolves the transfer's logical sender from the optional signers.
pub fn resolve_sender(
    sender: Option<[u8; 32]>,
    program_transfer_authority: Option<[u8; 32]>,
    sender_token_owner: [u8; 32],
) -> (r: Result<[u8; 32], SwapLayerError>)
    ensures
        r == resolved_sender_spec(sender, program_transfer_authority, sender_token_owner),
{
    match (sender, program_transfer_authority) {
        (Some(s), None) => Ok(s),
        (None, Some(_)) => Ok(sender_token_owner),
        _ => Err(SwapLayerError::EitherSenderOrProgramTransferAuthority),
    }
}

/// Stages an outbound transfer: validates the request against the
/// destination peer and the source mint, fixes the relaying fee, and
/// returns the record to persist together with the amount the caller must
/// move into custody.
///
/// `output_token` is the boundary's decoding of `args.encoded_output_token`
/// (absent exactly when the bytes are absent or do not decode) and
/// `swap_args` the boundary's decoding of a swap input's venue call data.
pub fn stage_outbound(
    peer: &Peer,
    args: StageOutboundArgs,
    output_token: Option<&OutputToken>,
    swap_args: Option<SharedAccountsRouteArgs>,
    src_mint: [u8; 32],
    usdc_mint: [u8; 32],
    sender: Option<[u8; 32]>,
    program_transfer_authority: Option<[u8; 32]>,
    sender_token_owner: [u8; 32],
    custody_token_bump: u8,
    prepared_by: [u8; 32],
) -> (r: Result<StageOutboundOutcome, SwapLayerError>)
    requires
        args.staged_input matches StagedInput::SwapExactIn { .. } ==> swap_args is Some,
    ensures
        r == stage_outbound_spec(
            *peer,
            args,
            decoded_token(output_token),
            swap_args,
            src_mint,
            usdc_mint,
            sender,
            program_transfer_authority,
            sender_token_owner,
            custody_token_bump,
            prepared_by,
        ),
{
    if args.target_chain != peer.chain {
        return Err(SwapLayerError::InvalidTargetChain);
    }
    if args.encoded_output_token.is_some() && output_token.is_none() {
        return Err(SwapLayerError::InvalidOutputToken);
    }
    if addr_is_zero(&args.recipient) {
        return Err(SwapLayerError::InvalidRecipient);
    }
    let mint_is_usdc = addr_eq(&src_mint, &usdc_mint);
    match &args.staged_input {
        StagedInput::Usdc { .. } => {
            if !mint_is_usdc {
                return Err(SwapLayerError::InvalidSourceMint);
            }
        },
        StagedInput::SwapExactIn { .. } => {
            if mint_is_usdc {
                return Err(SwapLayerError::InvalidSourceMint);
            }
        },
    }

    let StageOutboundArgs { staged_input, target_chain, recipient, redeem_option, encoded_output_token } =
        args;

    let staged_redeem = match build_staged_redeem(&peer.relay_params, redeem_option, output_token) {
        Ok(s) => s,
        Err(e) => {
            return Err(e);
        },
    };
    let transfer_amount = match compute_transfer_amount(&staged_input, swap_args, &staged_redeem) {
        Ok(a) => a,
        Err(e) => {
            return Err(e);
        },
    };
    let resolved = match resolve_sender(sender, program_transfer_authority, sender_token_owner) {
        Ok(s) => s,
        Err(e) => {
            return Err(e);
        },
    };

    Ok(
        StageOutboundOutcome {
            staged: StagedOutbound {
                info: StagedOutboundInfo {
                    custody_token_bump,
                    prepared_by,
                    src_mint,
                    target_chain,
                    recipient,
                },
                staged_input,
                staged_redeem,
                encoded_output_token,
            },
            transfer_amount,
            sender: resolved,
        },
    )
}

} // verus!
