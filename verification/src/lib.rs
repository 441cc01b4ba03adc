//! Settlement logic for a staged cross-chain token transfer protocol.
//!
//! A sender stages an outbound transfer (optionally routed through a swap into
//! the bridging asset, USDC) which is later initiated and handed to a bridge.
//! On the destination side a bridge-delivered "prepared fill" is consumed
//! through one of three redemption paths: direct, relayed (with a relayer fee
//! and optional gas drop-off), or payload-carrying (with a swap into the
//! requested output asset).
//!
//! This crate holds the protocol's decisions and arithmetic: fee computation,
//! amount reservation, authorization and time-window policy, account-identity
//! validation for the swap venue, and the persisted record types. Asset
//! custody, key derivation, signature checks and wire serialization are the
//! host runtime's business; callers hand this crate plain values (amounts,
//! timestamps, 32-byte account identities, decoded messages) and perform the
//! transfers and invocations that the returned values describe.

use vstd::prelude::*;

pub mod addr;
pub mod admin;
pub mod arith;
pub mod complete_swap;
pub mod complete_transfer;
pub mod error;
pub mod fees;
pub mod initiate;
pub mod jupiter;
pub mod messages;
pub mod stage;
pub mod state;

verus! {

/// Maximum percentage in the fee calculator's fixed-point unit: one hundred
/// percent, expressed in hundredths of a basis point.
pub const MAX_BPS: u32 = 1_000_000;

} // verus!
