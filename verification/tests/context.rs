use network_discovery::config::{DhtConfig, NetworkDiscoveryConfig};
use network_discovery::context::NetworkDiscoveryContext;
use std::time::Duration;

fn config() -> DhtConfig {
    DhtConfig {
        network_discovery: NetworkDiscoveryConfig {
            enabled: true,
            idle_period: Duration::from_secs(30),
            on_failure_idle_period: Duration::from_secs(60),
        },
    }
}

#[test]
fn new_context_has_counted_nothing() {
    let context = NetworkDiscoveryContext::new(config());
    assert_eq!(context.num_rounds(), 0);
    assert_eq!(context.config, config());
}

#[test]
fn increment_returns_the_previous_count() {
    let mut context = NetworkDiscoveryContext::new(config());
    assert_eq!(context.increment_num_rounds(), 0);
    assert_eq!(context.num_rounds(), 1);
    assert_eq!(context.increment_num_rounds(), 1);
    assert_eq!(context.increment_num_rounds(), 2);
    assert_eq!(context.num_rounds(), 3);
    assert_eq!(context.config, config());
}

#[test]
fn reading_the_count_does_not_change_it() {
    let mut context = NetworkDiscoveryContext::new(config());
    context.increment_num_rounds();
    assert_eq!(context.num_rounds(), 1);
    assert_eq!(context.num_rounds(), 1);
}

#[test]
fn reset_sets_the_count_to_zero() {
    let mut context = NetworkDiscoveryContext::new(config());
    context.increment_num_rounds();
    context.increment_num_rounds();
    context.reset_num_rounds();
    assert_eq!(context.num_rounds(), 0);
    assert_eq!(context.increment_num_rounds(), 0);
    assert_eq!(context.config, config());
}

#[test]
fn count_wraps_at_the_largest_number() {
    let mut context = NetworkDiscoveryContext { config: config(), num_rounds: usize::MAX - 1 };
    assert_eq!(context.increment_num_rounds(), usize::MAX - 1);
    assert_eq!(context.num_rounds(), usize::MAX);
    assert_eq!(context.increment_num_rounds(), usize::MAX);
    assert_eq!(context.num_rounds(), 0);
}
