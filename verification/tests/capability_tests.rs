use capsule_host::ble::{BdAddr, ScanStats};
use capsule_host::config::{RuntimeConfig, TargetTag};
use capsule_host::hosts::ArielOSHost;
use capsule_host::net_types::{Endpoint, IpAddr, Ipv4Addr, UdpMetadata};

fn endpoint() -> UdpMetadata {
    UdpMetadata {
        endpoint: Endpoint {
            addr: IpAddr::V4(Ipv4Addr::from_octets([10, 42, 0, 61])),
            port: 1234,
        },
        local_addr: None,
    }
}

#[test]
fn ipv4_from_octets_keeps_order() {
    let a = Ipv4Addr::from_octets([10, 42, 0, 61]);
    assert_eq!((a.a, a.b, a.c, a.d), (10, 42, 0, 61));
}

#[test]
fn gpio_calls_are_gated_on_bound_peripherals() {
    let mut host = ArielOSHost::new();
    assert_eq!(host.toggle_led(), Err(()));
    assert_eq!(host.wait_for_button_low(), Err(()));
    host.bind_peris();
    assert_eq!(host.toggle_led(), Ok(()));
    assert_eq!(host.wait_for_button_low(), Ok(()));
}

#[test]
fn udp_calls_are_gated_on_the_socket() {
    let mut host = ArielOSHost::new();
    // Without a socket the bind never reaches the transport.
    assert_eq!(host.bind(1234, Ok(())), Err(()));
    assert!(host.udp_host.send(vec![1, 2], endpoint()).is_err());

    host.initialize_socket(128);
    // The transport can still refuse the bind; nothing is recorded then.
    assert_eq!(host.bind(1234, Err(())), Err(()));
    assert_eq!(host.udp_host.bound_port, None);
    assert_eq!(host.bind(1234, Ok(())), Ok(()));
    assert_eq!(host.udp_host.bound_port, Some(1234));

    let req = host.udp_host.send(vec![1, 2], endpoint()).unwrap();
    assert_eq!(req.data, vec![1, 2]);
    assert_eq!(req.endpoint, endpoint());
}

#[test]
fn random_buffers_have_the_requested_length() {
    let host = ArielOSHost::new();
    let buf = host.random_bytes_buffer(16);
    assert_eq!(buf.len(), 16);
    assert!(buf.iter().all(|b| *b == 0));
    assert!(host.random_bytes_buffer(0).is_empty());
}

#[test]
fn try_recv_cuts_the_buffer_to_the_datagram() {
    let mut host = ArielOSHost::new();
    let buf = vec![7u8, 8, 9, 0, 0];

    // Without a socket: an error.
    assert!(host.udp_host.try_recv(Ok((3, endpoint())), buf.clone()).is_err());

    host.initialize_socket(5);
    // Nothing ready.
    assert_eq!(host.udp_host.try_recv(Ok((0, endpoint())), buf.clone()), Ok(None));
    // A datagram of three bytes.
    let got = host.udp_host.try_recv(Ok((3, endpoint())), buf.clone()).unwrap();
    assert_eq!(got, Some((vec![7, 8, 9], endpoint())));
    // The transport failed.
    assert!(host.udp_host.try_recv(Err(()), buf).is_err());
}

#[test]
fn config_compatibility_checks_the_preparation_fields() {
    let a = RuntimeConfig::device_defaults();
    let mut b = a;
    assert!(b.matches_prepared(&a));
    // A run-time-only field may differ.
    b.max_wasm_stack = 4096;
    assert!(b.matches_prepared(&a));
    // A preparation field may not.
    b.target = TargetTag::Word64;
    assert!(!b.matches_prepared(&a));
    assert_eq!(TargetTag::Word32.word_bytes(), 4);
    assert_eq!(TargetTag::Word64.word_bytes(), 8);
}

#[test]
fn bdaddr_round_trips_and_displays() {
    let addr = BdAddr::new([0x01, 0x02, 0x03, 0x04, 0x05, 0xAB]);
    assert_eq!(addr.into_inner(), [0x01, 0x02, 0x03, 0x04, 0x05, 0xAB]);
    assert_eq!(addr.display_string(), String::from("AB:05:04:03:02:01"));
    let zero = BdAddr::default();
    assert_eq!(zero.into_inner(), [0u8; 6]);
    assert_eq!(zero.display_string(), String::from("00:00:00:00:00:00"));
}

#[test]
fn scan_statistics_count_per_address() {
    let mut stats = ScanStats::new();
    let first = BdAddr::new([1, 0, 0, 0, 0, 0]);
    let second = BdAddr::new([2, 0, 0, 0, 0, 0]);

    assert!(stats.on_single_report(first));
    assert!(!stats.on_single_report(first));
    assert!(stats.on_single_report(second));
    assert!(!stats.on_single_report(first));

    let report = stats.return_stats();
    assert_eq!(report.len(), 2);
    assert_eq!(report[0], (first, 3));
    assert_eq!(report[1], (second, 1));
    let total: u64 = report.iter().map(|(_, c)| *c).sum();
    assert_eq!(total, 4);
}
