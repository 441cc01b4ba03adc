//! Error taxonomy of the swap layer.

use vstd::prelude::*;

verus! {

/// Every way an instruction of the swap layer can be refused.
///
/// Policy violations (caller-controlled inputs breaking a business rule) and
/// arithmetic failures (overflow in fee or amount computation) are distinct
/// variants so an operator can tell a bad request from bad relay parameters.
#[derive(Debug, Clone, Copy, PartialEq, Eq, Structural)]
pub enum SwapLayerError {
    /// The peer registration does not match the requested target chain.
    InvalidTargetChain,
    /// The transfer names the zero address as its recipient.
    InvalidRecipient,
    /// The source mint is inconsistent with the staged input kind.
    InvalidSourceMint,
    /// The computed relaying fee exceeds the sender's cap.
    ExceedsMaxRelayingFee,
    /// A sum of 64-bit amounts does not fit in 64 bits.
    U64Overflow,
    /// The venue's minimum amount out would not cover the relaying fee.
    RelayingFeeExceedsMinAmountOut,
    /// The venue's minimum amount out is zero for a non-relayed transfer.
    ZeroMinAmountOut,
    /// Exactly one of the sender and the program transfer authority must sign.
    EitherSenderOrProgramTransferAuthority,
    /// Relaying to this destination is disabled by its peer configuration.
    RelayingDisabled,
    /// The requested gas drop-off exceeds the peer's maximum.
    InvalidGasDropoff,
    /// The gas drop-off cost overflowed during fee computation.
    GasDropoffCalculationFailed,
    /// The destination gas cost overflowed, or the swap shape is unknown.
    EvmGasCalculationFailed,
    /// The peer's execution parameters name no supported environment.
    InvalidExecutionParams,
    /// The total relayer fee does not fit the protocol's 48-bit fee field.
    RelayerFeeOverflow,
    /// The fill's redeem mode does not admit the attempted completion path.
    InvalidRedeemMode,
    /// A relayer tried to force-redeem before the swap time limit elapsed.
    SwapTimeLimitNotExceeded,
    /// The prepared fill carries no recognized fill type.
    UnsupportedFillType,
    /// The agreed relaying fee exceeds the fill amount.
    InvalidRelayerFee,
    /// Only the encoded recipient may redeem this fill directly.
    InvalidRedeemer,
    /// The fill's output token descriptor does not fit the completion path.
    InvalidOutputToken,
    /// The swap deadline encoded in the fill has passed.
    SwapPastDeadline,
    /// The encoded limit amount does not fit in 64 bits.
    InvalidLimitAmount,
    /// The venue call's transfer authority is not the expected signer.
    InvalidSwapAuthority,
    /// The venue call's source custody account is not the expected one.
    InvalidSourceSwapToken,
    /// The venue call's destination custody account is not the expected one.
    InvalidDestinationSwapToken,
    /// The venue call's destination mint does not match the message.
    InvalidDestinationMint,
    /// The venue call's input amount does not match the fill amount.
    InvalidSwapInAmount,
    /// A pinned dex program requires a single-hop route.
    NotJupiterV6DirectRoute,
    /// The route's head account is not the pinned dex program.
    JupiterV6DexProgramMismatch,
    /// Source and destination mint of a swap may not coincide.
    SameMint,
}

} // verus!
