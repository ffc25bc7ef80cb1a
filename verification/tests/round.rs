use network_discovery::round::{clone_peers, DhtNetworkDiscoveryRoundInfo, DiscoveryParams, NodeId};

fn peer(tag: u8) -> NodeId {
    NodeId::from_bytes(vec![tag, tag + 1, tag + 2])
}

fn info(
    num_new_neighbours: usize,
    num_new_peers: usize,
    num_duplicate_peers: usize,
    num_succeeded: usize,
    contacted: u8,
) -> DhtNetworkDiscoveryRoundInfo {
    DhtNetworkDiscoveryRoundInfo {
        num_new_neighbours,
        num_new_peers,
        num_duplicate_peers,
        num_succeeded,
        sync_peers: (0..contacted).map(peer).collect(),
    }
}

#[test]
fn default_round_has_nothing_new() {
    let round = DhtNetworkDiscoveryRoundInfo::default();
    assert_eq!(round, info(0, 0, 0, 0, 0));
    assert!(!round.has_new_peers());
    assert!(!round.has_new_neighbours());
    assert!(!round.is_success());
}

#[test]
fn predicates_follow_their_counters() {
    for n in [0usize, 1, 2, 17, usize::MAX] {
        assert_eq!(info(0, n, 0, 0, 0).has_new_peers(), n > 0);
        assert_eq!(info(n, 0, 0, 0, 0).has_new_neighbours(), n > 0);
        assert_eq!(info(0, 0, 0, n, 0).is_success(), n > 0);
    }
}

#[test]
fn predicates_read_no_other_counter() {
    let round = info(0, 0, 9, 0, 4);
    assert!(!round.has_new_peers());
    assert!(!round.has_new_neighbours());
    assert!(!round.is_success());
    let round = info(1, 0, 0, 0, 0);
    assert!(round.has_new_neighbours());
    assert!(!round.has_new_peers());
    assert!(!round.is_success());
    let round = info(0, 1, 0, 0, 0);
    assert!(round.has_new_peers());
    assert!(!round.has_new_neighbours());
    assert!(!round.is_success());
    let round = info(0, 0, 0, 1, 0);
    assert!(round.is_success());
    assert!(!round.has_new_peers());
    assert!(!round.has_new_neighbours());
}

#[test]
fn round_info_reads_as_a_log_line() {
    assert_eq!(
        info(1, 5, 2, 3, 4).to_string(),
        "Synced 3/4, num_new_neighbours = 1, num_new_peers = 5, num_duplicate_peers = 2"
    );
    assert_eq!(
        DhtNetworkDiscoveryRoundInfo::default().to_string(),
        "Synced 0/0, num_new_neighbours = 0, num_new_peers = 0, num_duplicate_peers = 0"
    );
    assert_eq!(
        info(10, 100, 1000, 12, 13).to_string(),
        "Synced 12/13, num_new_neighbours = 10, num_new_peers = 100, num_duplicate_peers = 1000"
    );
}

#[test]
fn round_info_line_matches_the_standard_format() {
    let round = info(usize::MAX, 40, 0, 7, 9);
    assert_eq!(
        round.to_string(),
        format!(
            "Synced {}/{}, num_new_neighbours = {}, num_new_peers = {}, num_duplicate_peers = {}",
            round.num_succeeded,
            round.sync_peers.len(),
            round.num_new_neighbours,
            round.num_new_peers,
            round.num_duplicate_peers
        )
    );
}

#[test]
fn discovery_params_read_as_a_log_line() {
    let params = DiscoveryParams {
        peers: vec![peer(1), peer(2), peer(3)],
        num_peers_to_request: 20,
        max_accept_closer_peers: 5,
    };
    assert_eq!(
        params.to_string(),
        "DiscoveryParams(3 peer(s) selected, num_peers_to_request = 20, max_accept_closer_peers = 5)"
    );
    let none = DiscoveryParams { peers: vec![], num_peers_to_request: 0, max_accept_closer_peers: 0 };
    assert_eq!(
        none.to_string(),
        "DiscoveryParams(0 peer(s) selected, num_peers_to_request = 0, max_accept_closer_peers = 0)"
    );
}

#[test]
fn clones_keep_every_field() {
    let round = info(1, 5, 2, 3, 4);
    assert_eq!(round.clone(), round);
    let params = DiscoveryParams {
        peers: vec![peer(9), peer(1)],
        num_peers_to_request: 20,
        max_accept_closer_peers: 5,
    };
    assert_eq!(params.clone(), params);
    assert_eq!(peer(7).clone(), peer(7));
    assert_eq!(peer(7).clone().bytes, vec![7, 8, 9]);
}

#[test]
fn cloned_peers_keep_their_order() {
    let peers = vec![peer(30), peer(10), peer(20), peer(10)];
    assert_eq!(clone_peers(&peers), peers);
    assert_eq!(clone_peers(&Vec::new()), Vec::<NodeId>::new());
}

#[test]
fn node_id_holds_its_bytes() {
    let id = NodeId::from_bytes(vec![1, 2, 3, 4, 5, 6, 7, 8, 9, 10, 11, 12, 13]);
    assert_eq!(id.bytes, vec![1, 2, 3, 4, 5, 6, 7, 8, 9, 10, 11, 12, 13]);
    assert_ne!(id, NodeId::from_bytes(vec![1, 2, 3]));
}
