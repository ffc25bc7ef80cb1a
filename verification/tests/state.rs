use network_discovery::round::{DhtNetworkDiscoveryRoundInfo, DiscoveryParams};
use network_discovery::state::{Discovering, DiscoveryReady, State, Waiting};
use std::time::Duration;

fn params() -> DiscoveryParams {
    DiscoveryParams { peers: vec![], num_peers_to_request: 1, max_accept_closer_peers: 1 }
}

#[test]
fn only_shutdown_is_shutdown() {
    assert!(State::Shutdown.is_shutdown());
    assert!(!State::Initializing.is_shutdown());
    assert!(!State::Ready(DiscoveryReady::initial()).is_shutdown());
    assert!(!State::Ready(DiscoveryReady::new(DhtNetworkDiscoveryRoundInfo::default())).is_shutdown());
    assert!(!State::Discovering(Discovering::new(params())).is_shutdown());
    assert!(!State::Waiting(Waiting::from(Duration::from_secs(0))).is_shutdown());
}

#[test]
fn handler_states_hold_what_they_are_made_from() {
    assert_eq!(DiscoveryReady::initial().last_discovery, None);
    let round = DhtNetworkDiscoveryRoundInfo { num_succeeded: 2, ..Default::default() };
    assert_eq!(
        DiscoveryReady::new(round.clone()).last_discovery,
        Some(DhtNetworkDiscoveryRoundInfo { num_succeeded: 2, ..Default::default() })
    );
    assert_eq!(Discovering::new(params()).params, params());
    assert_eq!(Waiting::from(Duration::from_millis(1500)).duration(), Duration::from_millis(1500));
    let waiting: Waiting = Duration::from_secs(10).into();
    assert_eq!(waiting.duration, Duration::from_secs(10));
}

#[test]
fn states_read_as_log_lines() {
    assert_eq!(State::Initializing.to_string(), "Initializing");
    assert_eq!(State::Ready(DiscoveryReady::initial()).to_string(), "Ready");
    assert_eq!(State::Discovering(Discovering::new(params())).to_string(), "Discovering");
    assert_eq!(State::Shutdown.to_string(), "Shutdown");
}

#[test]
fn waiting_reads_with_its_duration_in_whole_units() {
    assert_eq!(State::Waiting(Waiting::from(Duration::from_secs(30))).to_string(), "Waiting(30s)");
    assert_eq!(State::Waiting(Waiting::from(Duration::from_secs(0))).to_string(), "Waiting(0ns)");
    assert_eq!(State::Waiting(Waiting::from(Duration::from_millis(250))).to_string(), "Waiting(250ms)");
    assert_eq!(State::Waiting(Waiting::from(Duration::from_millis(1500))).to_string(), "Waiting(2s)");
    assert_eq!(State::Waiting(Waiting::from(Duration::from_micros(7))).to_string(), "Waiting(7µs)");
}

#[test]
fn waiting_text_is_the_debug_format_at_precision_zero() {
    for duration in [
        Duration::from_secs(3600),
        Duration::from_millis(999),
        Duration::from_nanos(1),
        Duration::new(59, 499_999_999),
    ] {
        assert_eq!(
            State::Waiting(Waiting::from(duration)).to_string(),
            format!("Waiting({:.0?})", duration)
        );
    }
}
