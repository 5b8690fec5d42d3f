use tcp_tester::errors::ConfigError;
use tcp_tester::flow_config::{FlowConfig, MAX_LOSS_PERCENT, WIRE_LEN};

fn sample() -> FlowConfig {
    FlowConfig::new(1500, 250, 5, 10_000).unwrap()
}

#[test]
fn round_trip_preserves_the_record() {
    let c = sample();
    let wire = c.to_wire_form();
    let back = FlowConfig::from_wire_form(&wire).unwrap();
    assert_eq!(c, back);
}

#[test]
fn round_trip_preserves_extreme_values() {
    let c = FlowConfig::new(u64::MAX, 0, MAX_LOSS_PERCENT, u64::MAX).unwrap();
    let wire = c.to_wire_form();
    let back = FlowConfig::from_wire_form(&wire).unwrap();
    assert_eq!(c, back);
}

#[test]
fn wire_form_is_fixed_size_little_endian() {
    let c = FlowConfig::new(1, 2, 3, 0x0102030405060708).unwrap();
    let wire = c.to_wire_form();
    assert_eq!(wire.len(), WIRE_LEN);
    let mut expected = vec![0u8; 32];
    expected[0] = 1;
    expected[8] = 2;
    expected[16] = 3;
    expected[24..32].copy_from_slice(&[0x08, 0x07, 0x06, 0x05, 0x04, 0x03, 0x02, 0x01]);
    assert_eq!(wire, expected);
}

#[test]
fn decoding_rebuilds_each_field() {
    let mut wire = vec![0u8; 32];
    wire[0] = 7; // delay = 7
    wire[9] = 1; // jitter = 256
    wire[16] = 100; // loss = 100
    wire[31] = 0x80; // bandwidth = 0x8000000000000000
    let c = FlowConfig::from_wire_form(&wire).unwrap();
    assert_eq!(c.delay_micros, 7);
    assert_eq!(c.jitter_micros, 256);
    assert_eq!(c.loss_percent, 100);
    assert_eq!(c.bandwidth_kbps, 0x8000000000000000);
}

#[test]
fn wrong_length_is_malformed() {
    assert_eq!(FlowConfig::from_wire_form(&[]), Err(ConfigError::Malformed));
    assert_eq!(
        FlowConfig::from_wire_form(&[0u8; 31]),
        Err(ConfigError::Malformed)
    );
    assert_eq!(
        FlowConfig::from_wire_form(&[0u8; 33]),
        Err(ConfigError::Malformed)
    );
}

#[test]
fn out_of_range_loss_is_malformed() {
    let mut wire = vec![0u8; 32];
    wire[16] = 101;
    assert_eq!(FlowConfig::from_wire_form(&wire), Err(ConfigError::Malformed));
}

#[test]
fn new_rejects_loss_above_one_hundred() {
    assert_eq!(FlowConfig::new(0, 0, 101, 0), Err(ConfigError::Malformed));
    assert!(FlowConfig::new(0, 0, 100, 0).is_ok());
}

#[test]
fn default_injects_no_fault() {
    let c = FlowConfig::default();
    assert_eq!(c, FlowConfig::new(0, 0, 0, 0).unwrap());
}
