use tcp_tester::builder::{ClientSocketBuilder, Lifecycle, LifecycleAction};
use tcp_tester::builder::{MAX_PACKETS, MAX_PACKET_LEN, MIN_PACKETS, MIN_PACKET_LEN};
use tcp_tester::config_map::{FlowConfigMap, FlowPair};
use tcp_tester::errors::ClientSocketError;
use tcp_tester::flow_config::FlowConfig;
use tcp_tester::socket_key::from_socket_view;

fn pair(delay: u64) -> FlowPair {
    let c = FlowConfig::new(delay, 0, 0, 0).unwrap();
    FlowPair { outbound: c, inbound: c }
}

#[test]
fn written_entry_is_read_back() {
    let mut map = FlowConfigMap::new(8);
    let k = from_socket_view(1, 10, 2, 80);
    map.insert(k, pair(5)).unwrap();
    assert_eq!(map.get(&k), Some(pair(5)));
}

#[test]
fn write_under_one_key_is_invisible_under_another() {
    let mut map = FlowConfigMap::new(8);
    let k1 = from_socket_view(1, 10, 2, 80);
    let k2 = from_socket_view(1, 11, 2, 80);
    map.insert(k2, pair(1)).unwrap();
    map.insert(k1, pair(99)).unwrap();
    assert_eq!(map.get(&k2), Some(pair(1)));
    let k3 = from_socket_view(3, 10, 2, 80);
    assert_eq!(map.get(&k3), None);
}

#[test]
fn last_writer_wins_per_key() {
    let mut map = FlowConfigMap::new(2);
    let k = from_socket_view(1, 10, 2, 80);
    map.insert(k, pair(1)).unwrap();
    map.insert(k, pair(2)).unwrap();
    assert_eq!(map.get(&k), Some(pair(2)));
}

#[test]
fn full_map_rejects_a_new_key() {
    let mut map = FlowConfigMap::new(1);
    let k1 = from_socket_view(1, 10, 2, 80);
    let k2 = from_socket_view(1, 11, 2, 80);
    map.insert(k1, pair(1)).unwrap();
    assert_eq!(
        map.insert(k2, pair(2)),
        Err(ClientSocketError::ConfigWriteFailed)
    );
    // The present key can still be overwritten.
    assert!(map.insert(k1, pair(3)).is_ok());
    assert_eq!(map.get(&k1), Some(pair(3)));
}

#[test]
fn builder_registers_under_the_canonical_key() {
    let mut builder = ClientSocketBuilder::new(FlowConfigMap::new(8));
    let out = FlowConfig::new(10, 0, 0, 0).unwrap();
    let inb = FlowConfig::new(20, 0, 0, 0).unwrap();
    let key = builder.register_flow(9, 40000, 2, 80, out, inb).unwrap();
    assert_eq!(key, from_socket_view(2, 80, 9, 40000));
    assert_eq!(
        builder.lookup(&key),
        Some(FlowPair { outbound: out, inbound: inb })
    );
}

#[test]
fn builder_reports_a_full_map() {
    let mut builder = ClientSocketBuilder::new(FlowConfigMap::new(0));
    let c = FlowConfig::default();
    assert_eq!(
        builder.register_flow(1, 2, 3, 4, c, c),
        Err(ClientSocketError::ConfigWriteFailed)
    );
}

#[test]
fn shaping_lifecycle_registers_before_connecting() {
    let mut lc = Lifecycle::new(true, true);
    assert_eq!(lc.next_action(), LifecycleAction::RegisterConfig);
    lc.apply(LifecycleAction::RegisterConfig, true);
    assert_eq!(lc.next_action(), LifecycleAction::OpenConnection);
    lc.apply(LifecycleAction::OpenConnection, true);
    assert_eq!(lc.next_action(), LifecycleAction::ExchangeData);
    lc.apply(LifecycleAction::ExchangeData, true);
    assert_eq!(lc.next_action(), LifecycleAction::Shutdown);
    lc.apply(LifecycleAction::Shutdown, true);
    assert_eq!(lc.next_action(), LifecycleAction::Finish);
}

#[test]
fn baseline_lifecycle_skips_registration() {
    let mut lc = Lifecycle::new(false, false);
    assert_eq!(lc.next_action(), LifecycleAction::OpenConnection);
    lc.apply(LifecycleAction::OpenConnection, true);
    assert_eq!(lc.next_action(), LifecycleAction::Shutdown);
    lc.apply(LifecycleAction::Shutdown, true);
    assert_eq!(lc.next_action(), LifecycleAction::Finish);
}

#[test]
fn failed_step_abandons_the_lifecycle() {
    let mut lc = Lifecycle::new(true, true);
    lc.apply(LifecycleAction::RegisterConfig, true);
    lc.apply(LifecycleAction::OpenConnection, false);
    assert!(lc.failed);
    assert_eq!(lc.next_action(), LifecycleAction::Finish);
}

#[test]
fn exchange_plan_is_within_the_configured_ranges() {
    let plan = tcp_tester::builder::build_exchange_plan();
    assert!(plan.len() >= MIN_PACKETS);
    assert!(plan.len() < MAX_PACKETS);
    for len in plan {
        assert!(len >= MIN_PACKET_LEN);
        assert!(len < MAX_PACKET_LEN);
    }
}
