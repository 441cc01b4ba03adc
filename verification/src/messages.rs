//! The bridge message model.
//!
//! A prepared fill delivered by the bridge carries a swap message naming the
//! intended recipient, the redemption mode and a descriptor of the output
//! asset the recipient asked for. These types are the decoded, strongly-typed
//! form of that message; wire serialization is the boundary's business and
//! stays outside this crate.

use vstd::prelude::*;

verus! {

/// One leg of a Uniswap-style route: the pool's counterpart asset and the
/// pool fee (a 24-bit value on the wire).
#[derive(Debug, Clone, Copy)]
pub struct UniswapSwapPath {
    pub evm_address: [u8; 20],
    pub fee: u32,
}

/// A Uniswap-style route: the fee tier of the first leg and the remaining
/// legs. A route with an empty path is a single swap.
#[derive(Debug, Clone)]
pub struct UniswapSwapParameters {
    pub first_leg_fee: u32,
    pub path: Vec<UniswapSwapPath>,
}

/// Identity of a Trader-Joe-style liquidity pool.
#[derive(Debug, Clone, Copy)]
pub struct TraderJoePoolId {
    pub version: u8,
    pub bin_size: u16,
}

/// One leg of a Trader-Joe-style route.
#[derive(Debug, Clone, Copy)]
pub struct TraderJoeSwapPath {
    pub evm_address: [u8; 20],
    pub pool_id: TraderJoePoolId,
}

/// A Trader-Joe-style route: the first pool and the remaining legs.
#[derive(Debug, Clone)]
pub struct TraderJoeSwapParameters {
    pub first_pool_id: TraderJoePoolId,
    pub path: Vec<TraderJoeSwapPath>,
}

/// Route parameters for the destination-side route aggregator: an optional
/// pinned dex program a single-hop route must go through, and the destination
/// mint of the swap.
#[derive(Debug, Clone, Copy)]
pub struct JupiterV6SwapParameters {
    pub dex_program_id: Option<[u8; 32]>,
    pub mint: [u8; 32],
}

/// The venue-specific shape of a requested swap route.
#[derive(Debug, Clone)]
pub enum SwapType {
    UniswapV3(UniswapSwapParameters),
    TraderJoe(TraderJoeSwapParameters),
    JupiterV6(JupiterV6SwapParameters),
}

/// A requested swap out of the bridging asset: a deadline (zero means none),
/// the authoritative minimum output amount (a 128-bit wire field), and the
/// route shape.
#[derive(Debug, Clone)]
pub struct OutputSwap {
    pub deadline: u32,
    pub limit_amount: u128,
    pub swap_type: SwapType,
}

/// What the recipient asked to receive on the destination network.
#[derive(Debug, Clone)]
pub enum OutputToken {
    /// The bridging asset itself; no destination-side swap.
    Usdc,
    /// The destination network's native gas asset, through a swap.
    Gas(OutputSwap),
    /// A named token, through a swap whose call data the redeemer supplies.
    Token(OutputSwap),
    /// Any other asset, through a swap with an authoritative limit.
    Other { address: [u8; 32], swap: OutputSwap },
}

/// Which redemption path is legal for a fill; any mismatch is a hard error.
#[derive(Debug, Clone)]
pub enum RedeemMode {
    Direct,
    Relay { gas_dropoff: u32, relaying_fee: u64 },
    Payload(Vec<u8>),
}

/// The decoded swap message carried by a prepared fill.
#[derive(Debug, Clone)]
pub struct SwapMessageV1 {
    pub recipient: [u8; 32],
    pub redeem_mode: RedeemMode,
    pub output_token: OutputToken,
}

/// How a prepared fill was authenticated by the bridge.
#[derive(Debug, Clone, Copy, PartialEq, Eq, Structural)]
pub enum FillType {
    Unset,
    FastFill,
    WormholeCctpDeposit,
}

/// A bridge-delivered record proving an inbound transfer is ready for local
/// redemption. Read-only to this crate; the bridge enforces single
/// consumption.
#[derive(Debug, Clone)]
pub struct PreparedFill {
    pub fill_type: FillType,
    pub timestamp: i64,
    pub source_chain: u16,
    pub message: SwapMessageV1,
}

} // verus!
