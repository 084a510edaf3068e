use vstd::prelude::*;
use vstd::string::*;

use crate::state::{PacketMetadata, Protocol};

verus! {

/// The network layer found in a frame: IP version and the two addresses,
/// already rendered as text.
#[derive(Clone, Debug, PartialEq)]
pub enum NetInfo {
    V4 { src: String, dst: String },
    V6 { src: String, dst: String },
}

/// The transport layer found in a frame: TCP or UDP with its ports.
#[derive(Clone, Copy, PartialEq, Eq, Structural, Debug)]
pub enum TransportInfo {
    Tcp { src_port: u16, dst_port: u16 },
    Udp { src_port: u16, dst_port: u16 },
}

/// The network layer that decoding the given frame bytes yields, `None`
/// when the frame has no recognized IPv4/IPv6 layer or cannot be decoded
/// at all. A function of the bytes alone.
pub uninterp spec fn net_layer_of(data: Seq<u8>) -> Option<NetInfo>;

/// The transport layer that decoding the given frame bytes yields, `None`
/// when the frame has no recognized TCP/UDP layer or cannot be decoded at
/// all. A function of the bytes alone.
pub uninterp spec fn transport_of(data: Seq<u8>) -> Option<TransportInfo>;

/// Relies on etherparse::SlicedPacket::from_ethernet: which network layer a
/// frame carries, and its addresses, depend on the frame bytes alone.
#[verifier::external_body]
fn decode_net(data: &[u8]) -> (r: Option<NetInfo>)
    ensures
        r == net_layer_of(data@),
{
    match etherparse::SlicedPacket::from_ethernet(data) {
        Ok(s) => match s.net {
            Some(etherparse::NetSlice::Ipv4(v)) => Some(NetInfo::V4 {
                src: v.header().source_addr().to_string(),
                dst: v.header().destination_addr().to_string(),
            }),
            Some(etherparse::NetSlice::Ipv6(v)) => Some(NetInfo::V6 {
                src: v.header().source_addr().to_string(),
                dst: v.header().destination_addr().to_string(),
            }),
            _ => None,
        },
        Err(_) => None,
    }
}

/// Relies on etherparse::SlicedPacket::from_ethernet: which transport layer
/// a frame carries, and its ports, depend on the frame bytes alone.
#[verifier::external_body]
fn decode_transport(data: &[u8]) -> (r: Option<TransportInfo>)
    ensures
        r == transport_of(data@),
{
    match etherparse::SlicedPacket::from_ethernet(data) {
        Ok(s) => match s.transport {
            Some(etherparse::TransportSlice::Tcp(t)) => Some(TransportInfo::Tcp {
                src_port: t.source_port(),
                dst_port: t.destination_port(),
            }),
            Some(etherparse::TransportSlice::Udp(u)) => Some(TransportInfo::Udp {
                src_port: u.source_port(),
                dst_port: u.destination_port(),
            }),
            _ => None,
        },
        Err(_) => None,
    }
}

/// Relies on chrono's `DateTime<Utc>` conversion from the system clock:
/// milliseconds since the epoch at the moment of the call, negative for a
/// clock set before the epoch (which this conversion handles without
/// panicking). Nothing can be promised of a clock reading.
#[verifier::external_body]
pub(crate) fn now_millis() -> i64 {
    chrono::DateTime::<chrono::Utc>::from(std::time::SystemTime::now()).timestamp_millis()
}

/// The protocol a parsed frame is labelled with: the transport label wins
/// over the network-layer label; a frame with neither is `Unknown`.
pub open spec fn spec_protocol_of(net: Option<NetInfo>, tr: Option<TransportInfo>) -> Protocol {
    match tr {
        Some(TransportInfo::Tcp { .. }) => Protocol::Tcp,
        Some(TransportInfo::Udp { .. }) => Protocol::Udp,
        None => match net {
            Some(NetInfo::V4 { .. }) => Protocol::Ipv4,
            Some(NetInfo::V6 { .. }) => Protocol::Ipv6,
            None => Protocol::Unknown,
        },
    }
}

pub open spec fn spec_src_ip(net: Option<NetInfo>) -> Seq<char> {
    match net {
        Some(NetInfo::V4 { src, .. }) => src@,
        Some(NetInfo::V6 { src, .. }) => src@,
        None => "?.?.?.?"@,
    }
}

pub open spec fn spec_dst_ip(net: Option<NetInfo>) -> Seq<char> {
    match net {
        Some(NetInfo::V4 { dst, .. }) => dst@,
        Some(NetInfo::V6 { dst, .. }) => dst@,
        None => "?.?.?.?"@,
    }
}

pub open spec fn spec_src_port(tr: Option<TransportInfo>) -> u16 {
    match tr {
        Some(TransportInfo::Tcp { src_port, .. }) => src_port,
        Some(TransportInfo::Udp { src_port, .. }) => src_port,
        None => 0,
    }
}

pub open spec fn spec_dst_port(tr: Option<TransportInfo>) -> u16 {
    match tr {
        Some(TransportInfo::Tcp { dst_port, .. }) => dst_port,
        Some(TransportInfo::Udp { dst_port, .. }) => dst_port,
        None => 0,
    }
}

/// Decode one link-layer frame into a packet record. Parsing never fails:
/// a frame without a recognized layer degrades to sentinel fields and the
/// `Unknown` label instead.
pub fn parse_packet(data: &[u8], ts: i64, len: u32) -> (r: PacketMetadata)
    ensures
        r.timestamp == ts,
        r.length == len,
        r.protocol == spec_protocol_of(net_layer_of(data@), transport_of(data@)),
        r.src_ip@ == spec_src_ip(net_layer_of(data@)),
        r.dst_ip@ == spec_dst_ip(net_layer_of(data@)),
        r.src_port == spec_src_port(transport_of(data@)),
        r.dst_port == spec_dst_port(transport_of(data@)),
{
    let net = decode_net(data);
    let tr = decode_transport(data);
    let (src_ip, dst_ip, net_proto) = match net {
        Some(NetInfo::V4 { src, dst }) => (src, dst, Protocol::Ipv4),
        Some(NetInfo::V6 { src, dst }) => (src, dst, Protocol::Ipv6),
        None => (String::from_str("?.?.?.?"), String::from_str("?.?.?.?"), Protocol::Unknown),
    };
    let (src_port, dst_port, protocol) = match tr {
        Some(TransportInfo::Tcp { src_port, dst_port }) => (src_port, dst_port, Protocol::Tcp),
        Some(TransportInfo::Udp { src_port, dst_port }) => (src_port, dst_port, Protocol::Udp),
        None => (0u16, 0u16, net_proto),
    };
    PacketMetadata { timestamp: ts, src_ip, dst_ip, src_port, dst_port, protocol, length: len }
}

/// A frame in which no recognized layer was decoded parses to a record
/// labelled `Unknown`, whatever the timestamp and captured length.
pub proof fn lemma_undecoded_frame_is_unknown(data: Seq<u8>)
    requires
        net_layer_of(data) is None,
        transport_of(data) is None,
    ensures
        spec_protocol_of(net_layer_of(data), transport_of(data)) == Protocol::Unknown,
{
}

} // verus!
