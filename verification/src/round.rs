//! What goes into a discovery round and what comes out of it.

use crate::text::{decimal, push_count};
use vstd::prelude::*;

verus! {

/// The identifier of a peer in the overlay, held as its canonical bytes.
#[derive(Debug, PartialEq, Eq)]
pub struct NodeId {
    pub bytes: Vec<u8>,
}

impl View for NodeId {
    type V = Seq<u8>;

    open spec fn view(&self) -> Seq<u8> {
        self.bytes@
    }
}

impl Clone for NodeId {
    fn clone(&self) -> (copy: Self)
        ensures
            copy@ == self@,
    {
        NodeId { bytes: self.bytes.clone() }
    }
}

impl NodeId {
    /// The identifier with the given canonical bytes.
    pub fn from_bytes(bytes: Vec<u8>) -> (id: NodeId)
        ensures
            id@ == bytes@,
    {
        NodeId { bytes }
    }
}

/// The identifiers in `peers`, in order, each as its bytes.
pub open spec fn peer_ids(peers: Seq<NodeId>) -> Seq<Seq<u8>> {
    peers.map_values(|peer: NodeId| peer@)
}

/// A copy of `peers`: the same identifiers in the same order.
pub fn clone_peers(peers: &Vec<NodeId>) -> (copy: Vec<NodeId>)
    ensures
        peer_ids(copy@) == peer_ids(peers@),
{
    let mut copy: Vec<NodeId> = Vec::new();
    let mut i: usize = 0;
    while i < peers.len()
        invariant
            i <= peers.len(),
            copy.len() == i,
            forall|j: int| 0 <= j < i ==> copy@[j]@ == peers@[j]@,
        decreases peers.len() - i,
    {
        copy.push(peers[i].clone());
        i = i + 1;
    }
    assert(peer_ids(copy@) =~= peer_ids(peers@));
    copy
}

/// The mathematical content of a `DiscoveryParams`.
pub struct DiscoveryParamsView {
    pub peers: Seq<Seq<u8>>,
    pub num_peers_to_request: nat,
    pub max_accept_closer_peers: nat,
}

impl DiscoveryParamsView {
    /// How the parameters read in a log line.
    pub open spec fn text(self) -> Seq<char> {
        "DiscoveryParams("@ + decimal(self.peers.len()) + " peer(s) selected, num_peers_to_request = "@
            + decimal(self.num_peers_to_request) + ", max_accept_closer_peers = "@ + decimal(
            self.max_accept_closer_peers,
        ) + ")"@
    }
}

/// The input of one discovery round: the peers to query, in the order in
/// which to query them, how many peers to ask each of them for, and how many
/// closer peers to accept in the round.
#[derive(Debug, PartialEq, Eq)]
pub struct DiscoveryParams {
    pub peers: Vec<NodeId>,
    pub num_peers_to_request: usize,
    pub max_accept_closer_peers: usize,
}

impl View for DiscoveryParams {
    type V = DiscoveryParamsView;

    open spec fn view(&self) -> DiscoveryParamsView {
        DiscoveryParamsView {
            peers: peer_ids(self.peers@),
            num_peers_to_request: self.num_peers_to_request as nat,
            max_accept_closer_peers: self.max_accept_closer_peers as nat,
        }
    }
}

impl Clone for DiscoveryParams {
    fn clone(&self) -> (copy: Self)
        ensures
            copy@ == self@,
    {
        DiscoveryParams {
            peers: clone_peers(&self.peers),
            num_peers_to_request: self.num_peers_to_request,
            max_accept_closer_peers: self.max_accept_closer_peers,
        }
    }
}

impl DiscoveryParams {
    /// Renders the parameters for a log line.
    pub fn to_string(&self) -> (text: String)
        ensures
            text@ == self@.text(),
    {
        let mut text = String::from_str("DiscoveryParams(");
        push_count(&mut text, self.peers.len());
        text.append(" peer(s) selected, num_peers_to_request = ");
        push_count(&mut text, self.num_peers_to_request);
        text.append(", max_accept_closer_peers = ");
        push_count(&mut text, self.max_accept_closer_peers);
        text.append(")");
        text
    }
}

/// The mathematical content of a `DhtNetworkDiscoveryRoundInfo`.
pub struct RoundInfoView {
    pub num_new_neighbours: nat,
    pub num_new_peers: nat,
    pub num_duplicate_peers: nat,
    pub num_succeeded: nat,
    pub sync_peers: Seq<Seq<u8>>,
}

impl RoundInfoView {
    /// The round added at least one peer that was not known before.
    pub open spec fn has_new_peers(self) -> bool {
        self.num_new_peers > 0
    }

    /// The round added at least one new neighbour.
    pub open spec fn has_new_neighbours(self) -> bool {
        self.num_new_neighbours > 0
    }

    /// At least one of the contacted peers completed the protocol.
    pub open spec fn is_success(self) -> bool {
        self.num_succeeded > 0
    }

    /// How the statistics read in a log line.
    pub open spec fn text(self) -> Seq<char> {
        "Synced "@ + decimal(self.num_succeeded) + "/"@ + decimal(self.sync_peers.len())
            + ", num_new_neighbours = "@ + decimal(self.num_new_neighbours) + ", num_new_peers = "@
            + decimal(self.num_new_peers) + ", num_duplicate_peers = "@ + decimal(
            self.num_duplicate_peers,
        )
    }
}

/// The statistics of one completed discovery round, and the peers that were
/// contacted in it.
#[derive(Debug, PartialEq, Eq)]
pub struct DhtNetworkDiscoveryRoundInfo {
    pub num_new_neighbours: usize,
    pub num_new_peers: usize,
    pub num_duplicate_peers: usize,
    pub num_succeeded: usize,
    pub sync_peers: Vec<NodeId>,
}

impl View for DhtNetworkDiscoveryRoundInfo {
    type V = RoundInfoView;

    open spec fn view(&self) -> RoundInfoView {
        RoundInfoView {
            num_new_neighbours: self.num_new_neighbours as nat,
            num_new_peers: self.num_new_peers as nat,
            num_duplicate_peers: self.num_duplicate_peers as nat,
            num_succeeded: self.num_succeeded as nat,
            sync_peers: peer_ids(self.sync_peers@),
        }
    }
}

impl Clone for DhtNetworkDiscoveryRoundInfo {
    fn clone(&self) -> (copy: Self)
        ensures
            copy@ == self@,
    {
        DhtNetworkDiscoveryRoundInfo {
            num_new_neighbours: self.num_new_neighbours,
            num_new_peers: self.num_new_peers,
            num_duplicate_peers: self.num_duplicate_peers,
            num_succeeded: self.num_succeeded,
            sync_peers: clone_peers(&self.sync_peers),
        }
    }
}

impl Default for DhtNetworkDiscoveryRoundInfo {
    /// The statistics of a round in which nothing happened.
    fn default() -> (info: Self)
        ensures
            info@ == (RoundInfoView {
                num_new_neighbours: 0,
                num_new_peers: 0,
                num_duplicate_peers: 0,
                num_succeeded: 0,
                sync_peers: Seq::empty(),
            }),
    {
        let info = DhtNetworkDiscoveryRoundInfo {
            num_new_neighbours: 0,
            num_new_peers: 0,
            num_duplicate_peers: 0,
            num_succeeded: 0,
            sync_peers: Vec::new(),
        };
        assert(peer_ids(info.sync_peers@) =~= Seq::empty());
        info
    }
}

impl DhtNetworkDiscoveryRoundInfo {
    /// Whether the round added a peer that was not known before.
    pub fn has_new_peers(&self) -> (yes: bool)
        ensures
            yes == (self.num_new_peers > 0),
            yes == self@.has_new_peers(),
    {
        self.num_new_peers > 0
    }

    /// Whether the round added a new neighbour.
    pub fn has_new_neighbours(&self) -> (yes: bool)
        ensures
            yes == (self.num_new_neighbours > 0),
            yes == self@.has_new_neighbours(),
    {
        self.num_new_neighbours > 0
    }

    /// Whether the round succeeded: at least one of the contacted peers
    /// completed the protocol.
    pub fn is_success(&self) -> (yes: bool)
        ensures
            yes == (self.num_succeeded > 0),
            yes == self@.is_success(),
    {
        self.num_succeeded > 0
    }

    /// Renders the statistics for a log line.
    pub fn to_string(&self) -> (text: String)
        ensures
            text@ == self@.text(),
    {
        let mut text = String::from_str("Synced ");
        push_count(&mut text, self.num_succeeded);
        text.append("/");
        push_count(&mut text, self.sync_peers.len());
        text.append(", num_new_neighbours = ");
        push_count(&mut text, self.num_new_neighbours);
        text.append(", num_new_peers = ");
        push_count(&mut text, self.num_new_peers);
        text.append(", num_duplicate_peers = ");
        push_count(&mut text, self.num_duplicate_peers);
        text
    }
}

} // verus!
