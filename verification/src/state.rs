//! Persisted protocol state: peer registrations and staged transfer records.

use vstd::prelude::*;

use crate::arith::{sat_add_usize, sat_usize};
use crate::error::SwapLayerError;
use crate::messages::OutputToken;

verus! {

/// Redemption time windows, in seconds, after which a relayer may
/// force-redeem a non-bridging-asset fill.
#[derive(Debug, Clone, Copy)]
pub struct SwapTimeLimit {
    /// Window for fast-path fills.
    pub fast_limit: u32,
    /// Window for finalized fills.
    pub finalized_limit: u32,
}

/// Cost model of the destination execution environment.
#[derive(Debug, Clone, Copy)]
pub enum ExecutionParams {
    /// No supported environment configured; fee computation refuses it.
    Unset,
    /// An EVM-style environment: a normalized gas price and a markup on the
    /// gas cost, in hundredths of a basis point.
    Evm { gas_price: u32, gas_price_margin: u32 },
}

/// Per-destination relay configuration, replaced wholesale by an authorized
/// fee updater and validated only at fee-computation time.
///
/// `base_fee == u32::MAX` is a sentinel meaning relaying to this destination
/// is disabled.
#[derive(Debug, Clone, Copy)]
pub struct RelayParams {
    /// Flat fee, in the bridging asset's smallest unit.
    pub base_fee: u32,
    /// Price of one whole destination native token, in the bridging asset's
    /// smallest unit.
    pub native_token_price: u64,
    /// Largest accepted gas drop-off, in normalized units.
    pub max_gas_dropoff: u32,
    /// Markup on the drop-off cost, in hundredths of a basis point.
    pub gas_dropoff_margin: u32,
    pub execution_params: ExecutionParams,
    pub swap_time_limit: SwapTimeLimit,
}

/// Registration of a counterpart on a destination chain: an immutable
/// identity plus its mutable relay configuration.
#[derive(Debug, Clone, Copy)]
pub struct Peer {
    /// Chain identifier of the destination network.
    pub chain: u16,
    /// Address of the counterpart program on that network.
    pub address: [u8; 32],
    pub relay_params: RelayParams,
}

/// What the sender handed over when staging: the bridging asset itself, or
/// opaque venue call data for a swap into it.
#[derive(Debug, Clone)]
pub enum StagedInput {
    Usdc { amount: u64 },
    SwapExactIn { instruction_data: Vec<u8> },
}

impl Default for StagedInput {
    /// A zero-amount transfer of the bridging asset.
    fn default() -> (r: Self)
        ensures
            r == (StagedInput::Usdc { amount: 0u64 }),
    {
        StagedInput::Usdc { amount: 0 }
    }
}

/// The sender's requested redemption policy, before fee computation.
#[derive(Debug, Clone)]
pub enum RedeemOption {
    Relay {
        /// Normalized amount of destination gas to drop off.
        gas_dropoff: u32,
        /// Largest relaying fee the sender will pay.
        max_relayer_fee: u64,
    },
    Payload(Vec<u8>),
}

/// The redemption policy persisted with a staged outbound transfer, with the
/// relaying fee already fixed.
#[derive(Debug, Clone)]
pub enum StagedRedeem {
    Direct,
    Relay { gas_dropoff: u32, relaying_fee: u64 },
    Payload(Vec<u8>),
}

/// Identity of a staged outbound transfer.
#[derive(Debug, Clone, Copy)]
pub struct StagedOutboundInfo {
    /// Derivation bump of the custody account holding the reserved funds.
    pub custody_token_bump: u8,
    /// Who paid to create the record, and is refunded when it closes.
    pub prepared_by: [u8; 32],
    /// Mint of the asset the sender handed over.
    pub src_mint: [u8; 32],
    /// Chain identifier of the destination network.
    pub target_chain: u16,
    /// Intended recipient on the destination network.
    pub recipient: [u8; 32],
}

/// A sender's staged outbound transfer, created and funded in the staging
/// step and consumed when the transfer is initiated.
#[derive(Debug, Clone)]
pub struct StagedOutbound {
    pub info: StagedOutboundInfo,
    pub staged_input: StagedInput,
    pub staged_redeem: StagedRedeem,
    /// The wire form of the requested output-token descriptor, kept verbatim
    /// for the outbound message; decoded at the boundary when read.
    pub encoded_output_token: Option<Vec<u8>>,
}

/// Serialized size of [`StagedOutboundInfo`].
pub const STAGED_OUTBOUND_INFO_SIZE: usize = 1 + 32 + 32 + 2 + 32;

/// Fixed part of a serialized [`StagedOutbound`]: a record discriminator,
/// the identity, one tag byte each for the input and redeem variants, and
/// one byte for the absent-descriptor marker.
pub const STAGED_OUTBOUND_BASE_SIZE: usize = 8 + STAGED_OUTBOUND_INFO_SIZE + 1 + 1 + 1;

/// Size a [`StagedOutbound`] record will occupy, before clamping: the fixed
/// part plus the variable parts, each length-prefixed with four bytes.
pub open spec fn staged_outbound_size_spec(
    staged_input: StagedInput,
    redeem_option: Option<RedeemOption>,
    encoded_output_token: Option<Vec<u8>>,
) -> int {
    STAGED_OUTBOUND_BASE_SIZE + (match staged_input {
        StagedInput::Usdc { .. } => 8,
        StagedInput::SwapExactIn { instruction_data } => instruction_data@.len() + 4,
    }) + (match redeem_option {
        Some(RedeemOption::Relay { .. }) => 8int,
        Some(RedeemOption::Payload(payload)) => payload@.len() + 4int,
        None => 0int,
    }) + (match encoded_output_token {
        Some(encoded) => encoded@.len() + 4int,
        None => 0int,
    })
}

/// What [`StagedOutbound::try_compute_size`] returns: the clamped record
/// size, or a refusal when the descriptor bytes did not decode.
pub open spec fn try_compute_size_spec(
    staged_input: StagedInput,
    redeem_option: Option<RedeemOption>,
    encoded_output_token: Option<Vec<u8>>,
    output_token: Option<OutputToken>,
) -> Result<usize, SwapLayerError> {
    if encoded_output_token is Some && output_token is None {
        Err(SwapLayerError::InvalidOutputToken)
    } else {
        Ok(sat_usize(staged_outbound_size_spec(staged_input, redeem_option, encoded_output_token)))
    }
}

impl StagedOutbound {
    /// Storage to reserve for a record staged from these arguments.
    ///
    /// `output_token` is the boundary's decoding of `encoded_output_token`:
    /// absent exactly when the bytes are absent or do not decode, in which
    /// case a present descriptor is refused as invalid.
    pub fn try_compute_size(
        staged_input: &StagedInput,
        redeem_option: &Option<RedeemOption>,
        encoded_output_token: &Option<Vec<u8>>,
        output_token: Option<&OutputToken>,
    ) -> (r: Result<usize, SwapLayerError>)
        requires
            encoded_output_token is None ==> output_token is None,
        ensures
            r == try_compute_size_spec(
                *staged_input,
                *redeem_option,
                *encoded_output_token,
                match output_token {
                    Some(t) => Some(*t),
                    None => None,
                },
            ),
    {
        let input_size: usize = match staged_input {
            StagedInput::Usdc { .. } => 8,
            StagedInput::SwapExactIn { instruction_data } => sat_add_usize(
                instruction_data.len(),
                4,
            ),
        };
        let redeem_size: usize = match redeem_option {
            Some(RedeemOption::Relay { .. }) => 8,
            Some(RedeemOption::Payload(payload)) => sat_add_usize(payload.len(), 4),
            None => 0,
        };
        let token_size: usize = match encoded_output_token {
            Some(encoded) => {
                if output_token.is_none() {
                    return Err(SwapLayerError::InvalidOutputToken);
                }
                sat_add_usize(encoded.len(), 4)
            },
            None => 0,
        };
        Ok(
            sat_add_usize(
                sat_add_usize(sat_add_usize(STAGED_OUTBOUND_BASE_SIZE, input_size), redeem_size),
                token_size,
            ),
        )
    }
}

/// Derivation seeds of a staged inbound transfer: the prepared fill it was
/// created for, and the bump.
#[derive(Debug, Clone, Copy)]
pub struct StagedTransferSeeds {
    pub prepared_fill: [u8; 32],
    pub bump: u8,
}

/// Identity of a staged inbound transfer.
#[derive(Debug, Clone, Copy)]
pub struct StagedTransferInfo {
    /// Derivation bump of the custody account holding the swapped-out asset.
    pub staged_custody_token_bump: u8,
    /// Who paid to create the record.
    pub staged_by: [u8; 32],
    /// Chain the consumed fill came from.
    pub source_chain: u16,
    /// The encoded recipient, who alone may later claim the custody.
    pub recipient: [u8; 32],
    /// Whether the output asset is the destination's native gas asset.
    pub is_native: bool,
}

/// The record a payload-carrying redemption populates at most once per
/// prepared fill; its custody holds the swapped-out asset until the
/// recipient claims it.
#[derive(Debug, Clone)]
pub struct StagedTransfer {
    pub seeds: StagedTransferSeeds,
    pub info: StagedTransferInfo,
    pub recipient_payload: Vec<u8>,
}

/// Fixed part of a serialized [`StagedTransfer`]: a record discriminator,
/// the seeds, the identity fields, and a two-byte payload length prefix.
pub const STAGED_TRANSFER_FIXED_SIZE: usize = 8 + 32 + 1 + 1 + 32 + 2 + 32 + 1 + 2;

impl StagedTransfer {
    /// Storage for a record with a payload of `payload_len` bytes, if the
    /// total fits in `usize`.
    pub fn checked_compute_size(payload_len: usize) -> (r: Option<usize>)
        ensures
            r == (if payload_len + STAGED_TRANSFER_FIXED_SIZE > usize::MAX {
                None::<usize>
            } else {
                Some((payload_len + STAGED_TRANSFER_FIXED_SIZE) as usize)
            }),
    {
        payload_len.checked_add(STAGED_TRANSFER_FIXED_SIZE)
    }
}

} // verus!
