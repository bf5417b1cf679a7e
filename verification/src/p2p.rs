//! Peer-network handle: the stable node identity the transport supplies.

use vstd::prelude::*;
use vstd::string::*;

verus! {

/// A handle to the peer network; the core depends only on the stable local
/// peer identity it carries.
#[derive(Debug)]
pub struct NetworkHandle {
    pub local_peer_id: String,
}

/// Join the peer network; this stub hands back a fixed placeholder identity in
/// place of a full swarm bootstrap.
pub fn start_p2p_node() -> (handle: NetworkHandle)
    ensures
        handle.local_peer_id@ == "12D3KooW..."@,
{
    NetworkHandle { local_peer_id: "12D3KooW...".to_owned() }
}

} // verus!
