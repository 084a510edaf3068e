use lightshark::sniffer::FilterConfig;
use lightshark::state::{PacketMetadata, Protocol};

fn sample(src_port: u16, dst_port: u16, src_ip: &str, dst_ip: &str, proto: Protocol) -> PacketMetadata {
    PacketMetadata {
        timestamp: 1,
        src_ip: src_ip.to_string(),
        dst_ip: dst_ip.to_string(),
        src_port,
        dst_port,
        protocol: proto,
        length: 100,
    }
}

#[test]
fn empty_filter_admits_everything() {
    let f = FilterConfig { port: None, ip: None, protocol: None };
    let m = sample(1, 2, "1.1.1.1", "2.2.2.2", Protocol::Tcp);
    assert!(f.matches(&m));
}

#[test]
fn port_filter_checks_both_ports() {
    let f = FilterConfig { port: Some(80), ip: None, protocol: None };
    assert!(f.matches(&sample(80, 999, "a", "b", Protocol::Tcp)));
    assert!(f.matches(&sample(999, 80, "a", "b", Protocol::Tcp)));
    assert!(!f.matches(&sample(999, 998, "a", "b", Protocol::Tcp)));
}

#[test]
fn ip_filter_checks_both_addresses_exactly() {
    let f = FilterConfig { port: None, ip: Some("10.0.0.1".to_string()), protocol: None };
    assert!(f.matches(&sample(1, 2, "10.0.0.1", "8.8.8.8", Protocol::Udp)));
    assert!(f.matches(&sample(1, 2, "8.8.8.8", "10.0.0.1", Protocol::Udp)));
    assert!(!f.matches(&sample(1, 2, "10.0.0.2", "8.8.8.8", Protocol::Udp)));
    assert!(!f.matches(&sample(1, 2, "10.0.0.10", "8.8.8.8", Protocol::Udp)));
}

#[test]
fn protocol_filter_is_case_insensitive() {
    let f = FilterConfig { port: None, ip: None, protocol: Some("tcp".to_string()) };
    assert!(f.matches(&sample(1, 2, "a", "b", Protocol::Tcp)));
    assert!(!f.matches(&sample(1, 2, "a", "b", Protocol::Udp)));
    let g = FilterConfig { port: None, ip: None, protocol: Some("uDp".to_string()) };
    assert!(g.matches(&sample(1, 2, "a", "b", Protocol::Udp)));
    let h = FilterConfig { port: None, ip: None, protocol: Some("ipv4".to_string()) };
    assert!(h.matches(&sample(0, 0, "a", "b", Protocol::Ipv4)));
}

#[test]
fn unrecognized_protocol_filter_rejects_all() {
    let f = FilterConfig { port: None, ip: None, protocol: Some("icmp".to_string()) };
    assert!(!f.matches(&sample(1, 2, "a", "b", Protocol::Tcp)));
    assert!(!f.matches(&sample(1, 2, "a", "b", Protocol::Udp)));
}

#[test]
fn criteria_compose_with_and() {
    let f = FilterConfig {
        port: Some(443),
        ip: Some("1.2.3.4".to_string()),
        protocol: Some("TCP".to_string()),
    };
    assert!(f.matches(&sample(443, 5, "1.2.3.4", "9.9.9.9", Protocol::Tcp)));
    // each criterion failing alone rejects
    assert!(!f.matches(&sample(442, 5, "1.2.3.4", "9.9.9.9", Protocol::Tcp)));
    assert!(!f.matches(&sample(443, 5, "1.2.3.5", "9.9.9.9", Protocol::Tcp)));
    assert!(!f.matches(&sample(443, 5, "1.2.3.4", "9.9.9.9", Protocol::Udp)));
}

#[test]
fn default_filter_is_empty() {
    let f = FilterConfig::default();
    assert!(f.port.is_none());
    assert!(f.ip.is_none());
    assert!(f.protocol.is_none());
}
