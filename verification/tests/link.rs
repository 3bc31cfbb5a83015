use gmc_logger::link::{Command, FlowControl, Parity, SerialLinkConfig};

#[test]
fn terminate_is_two_closing_brackets() {
    assert_eq!(Command::Terminate.bytes(), b">>".to_vec());
    assert_eq!(Command::Terminate.bytes().len(), 2);
}

#[test]
fn query_is_the_nine_bytes_of_getcpm() {
    assert_eq!(Command::Query.bytes(), b"<GETCPM>>".to_vec());
    assert_eq!(Command::Query.bytes().len(), 9);
}

#[test]
fn fixed_configuration_has_the_device_parameters() {
    let config = SerialLinkConfig::fixed();
    assert_eq!(config.baud_rate, 115200);
    assert_eq!(config.data_bits, 8);
    assert_eq!(config.parity, Parity::Absent);
    assert_eq!(config.stop_bits, 1);
    assert_eq!(config.flow_control, FlowControl::Off);
    assert_eq!(config.timeout_millis, 50);
    assert!(config.is_fixed());
}

#[test]
fn any_deviation_is_not_the_fixed_configuration() {
    let fixed = SerialLinkConfig::fixed();
    assert!(!SerialLinkConfig { baud_rate: 9600, ..fixed }.is_fixed());
    assert!(!SerialLinkConfig { data_bits: 7, ..fixed }.is_fixed());
    assert!(!SerialLinkConfig { parity: Parity::Even, ..fixed }.is_fixed());
    assert!(!SerialLinkConfig { parity: Parity::Odd, ..fixed }.is_fixed());
    assert!(!SerialLinkConfig { stop_bits: 2, ..fixed }.is_fixed());
    assert!(!SerialLinkConfig { flow_control: FlowControl::Hardware, ..fixed }.is_fixed());
    assert!(!SerialLinkConfig { flow_control: FlowControl::Software, ..fixed }.is_fixed());
    assert!(!SerialLinkConfig { timeout_millis: 51, ..fixed }.is_fixed());
}
