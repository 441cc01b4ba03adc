//! Administration of a peer's relay configuration.

use vstd::prelude::*;

use crate::state::{Peer, RelayParams};

verus! {

/// A fee updater's request to replace a peer's relay configuration.
#[derive(Debug, Clone, Copy)]
pub struct UpdateRelayParametersArgs {
    /// Chain identifier of the peer to update.
    pub chain: u16,
    pub relay_params: RelayParams,
}

/// Replaces a peer's relay configuration wholesale.
///
/// Only the registered fee updater may reach this operation — the boundary
/// checks the signature — and the peer must be the one registered for the
/// requested chain. The new value is validated for internal consistency at
/// fee-computation time, not here.
pub fn update_relay_parameters(peer: &mut Peer, args: &UpdateRelayParametersArgs)
    requires
        args.chain == old(peer).chain,
    ensures
        final(peer).relay_params == args.relay_params,
        final(peer).chain == old(peer).chain,
        final(peer).address == old(peer).address,
{
    peer.relay_params = args.relay_params;
}

} // verus!
