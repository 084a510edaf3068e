use lightshark::parse::parse_packet;
use lightshark::sniffer::{handle_frame, FilterConfig};
use lightshark::state::{Protocol, TrafficState};

fn tcp_frame() -> Vec<u8> {
    let builder = etherparse::PacketBuilder::ethernet2([1, 2, 3, 4, 5, 6], [7, 8, 9, 10, 11, 12])
        .ipv4([10, 0, 0, 1], [10, 0, 0, 2], 64)
        .tcp(4321, 80, 0, 1024);
    let payload = [1u8, 2, 3];
    let mut out = Vec::with_capacity(builder.size(payload.len()));
    builder.write(&mut out, &payload).unwrap();
    out
}

fn udp_frame() -> Vec<u8> {
    let builder = etherparse::PacketBuilder::ethernet2([1, 2, 3, 4, 5, 6], [7, 8, 9, 10, 11, 12])
        .ipv4([192, 168, 1, 5], [8, 8, 8, 8], 64)
        .udp(5353, 53);
    let payload = [9u8];
    let mut out = Vec::with_capacity(builder.size(payload.len()));
    builder.write(&mut out, &payload).unwrap();
    out
}

fn ipv6_udp_frame() -> Vec<u8> {
    let builder = etherparse::PacketBuilder::ethernet2([1, 2, 3, 4, 5, 6], [7, 8, 9, 10, 11, 12])
        .ipv6(
            [0, 0, 0, 0, 0, 0, 0, 0, 0, 0, 0, 0, 0, 0, 0, 1],
            [0, 0, 0, 0, 0, 0, 0, 0, 0, 0, 0, 0, 0, 0, 0, 2],
            64,
        )
        .udp(1000, 2000);
    let payload: [u8; 0] = [];
    let mut out = Vec::with_capacity(builder.size(payload.len()));
    builder.write(&mut out, &payload).unwrap();
    out
}

#[test]
fn parses_tcp_ipv4_frame() {
    let frame = tcp_frame();
    let rec = parse_packet(&frame, 1234, frame.len() as u32);
    assert_eq!(rec.timestamp, 1234);
    assert_eq!(rec.src_ip, "10.0.0.1");
    assert_eq!(rec.dst_ip, "10.0.0.2");
    assert_eq!(rec.src_port, 4321);
    assert_eq!(rec.dst_port, 80);
    assert_eq!(rec.protocol, Protocol::Tcp);
    assert_eq!(rec.length, frame.len() as u32);
}

#[test]
fn parses_udp_ipv4_frame() {
    let frame = udp_frame();
    let rec = parse_packet(&frame, 77, frame.len() as u32);
    assert_eq!(rec.src_ip, "192.168.1.5");
    assert_eq!(rec.dst_ip, "8.8.8.8");
    assert_eq!(rec.src_port, 5353);
    assert_eq!(rec.dst_port, 53);
    assert_eq!(rec.protocol, Protocol::Udp);
}

#[test]
fn parses_udp_ipv6_frame() {
    let frame = ipv6_udp_frame();
    let rec = parse_packet(&frame, 0, frame.len() as u32);
    assert_eq!(rec.src_ip, "::1");
    assert_eq!(rec.dst_ip, "::2");
    assert_eq!(rec.protocol, Protocol::Udp);
    assert_eq!(rec.src_port, 1000);
    assert_eq!(rec.dst_port, 2000);
}

#[test]
fn short_garbage_degrades_to_unknown() {
    let frame = [0u8, 1, 2];
    let rec = parse_packet(&frame, 5, 3);
    assert_eq!(rec.protocol, Protocol::Unknown);
    assert_eq!(rec.src_ip, "?.?.?.?");
    assert_eq!(rec.dst_ip, "?.?.?.?");
    assert_eq!(rec.src_port, 0);
    assert_eq!(rec.dst_port, 0);
    assert_eq!(rec.timestamp, 5);
    assert_eq!(rec.length, 3);
}

#[test]
fn handle_frame_admits_a_tcp_frame_and_stamps_the_clock() {
    let frame = tcp_frame();
    let mut t = TrafficState::new();
    let f = FilterConfig::default();
    let before = chrono::Utc::now().timestamp_millis();
    let rec = handle_frame(&mut t, &f, &frame, frame.len() as u32).expect("admitted");
    let after = chrono::Utc::now().timestamp_millis();
    assert_eq!(rec.protocol, Protocol::Tcp);
    assert_eq!(rec.src_ip, "10.0.0.1");
    assert_eq!(rec.dst_ip, "10.0.0.2");
    assert_eq!(rec.length, frame.len() as u32);
    assert!(before <= rec.timestamp && rec.timestamp <= after);
    let snap = t.snapshot();
    assert_eq!(snap.total_packets, 1);
    assert_eq!(snap.total_bytes, frame.len() as u64);
}

#[test]
fn handle_frame_discards_undecodable_frames() {
    let mut t = TrafficState::new();
    let f = FilterConfig::default();
    assert!(handle_frame(&mut t, &f, &[0u8, 1, 2], 3).is_none());
    assert_eq!(t.snapshot().total_packets, 0);
}

#[test]
fn unknown_ethertype_degrades_to_unknown() {
    // A well-formed Ethernet II header with an unassigned ether type and no
    // parsable payload behind it.
    let mut frame = vec![0u8; 20];
    frame[12] = 0x00;
    frame[13] = 0x00;
    let rec = parse_packet(&frame, 9, 20);
    assert_eq!(rec.protocol, Protocol::Unknown);
    assert_eq!(rec.src_ip, "?.?.?.?");
    assert_eq!(rec.src_port, 0);
}
