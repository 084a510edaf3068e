use vstd::prelude::*;
use vstd::string::*;

use crate::parse::{
    net_layer_of, now_millis, parse_packet, spec_dst_ip, spec_dst_port, spec_protocol_of,
    spec_src_ip, spec_src_port, transport_of,
};
use crate::state::{
    label_bytes, spec_resolve_key, spec_upserted, PacketMetadata, Protocol, TrafficState,
};
use crate::strutil::{bytes_eq_ignore_case, eq_ignore_case};

verus! {

/// Capacity of the bounded queue between the capture loop and the
/// persistence writer; a full queue blocks the capture thread.
pub const DEFAULT_QUEUE_CAPACITY: usize = 10000;

/// How long one capture read waits for a frame before timing out, in
/// milliseconds.
pub const CAPTURE_READ_TIMEOUT_MS: i32 = 1000;

/// Snapshot length asked of the capture device, large enough for full
/// frames.
pub const CAPTURE_SNAPLEN: i32 = 65535;

/// What one capture-loop iteration observed.
#[derive(Clone, Copy, PartialEq, Eq, Structural, Debug)]
pub enum CaptureEvent {
    /// A frame arrived.
    Frame,
    /// The bounded per-read wait elapsed without a frame.
    Timeout,
    /// The device read failed in a non-fatal way.
    ReadError,
    /// The stop flag was observed set.
    StopRequested,
    /// The queue's receiving end is gone.
    QueueClosed,
}

/// What the loop does next.
#[derive(Clone, Copy, PartialEq, Eq, Structural, Debug)]
pub enum CaptureAction {
    /// Parse, filter, aggregate and enqueue the frame, then loop again.
    ProcessFrame,
    /// Loop again, re-checking the stop flag.
    Continue,
    /// Leave the loop.
    Stop,
}

/// The capture loop's transition function: timeouts and non-fatal read
/// errors keep it running, a stop request or a closed queue end it, and
/// only an arrived frame enters the pipeline.
pub open spec fn spec_capture_step(ev: CaptureEvent) -> CaptureAction {
    match ev {
        CaptureEvent::Frame => CaptureAction::ProcessFrame,
        CaptureEvent::Timeout => CaptureAction::Continue,
        CaptureEvent::ReadError => CaptureAction::Continue,
        CaptureEvent::StopRequested => CaptureAction::Stop,
        CaptureEvent::QueueClosed => CaptureAction::Stop,
    }
}

pub fn capture_step(ev: CaptureEvent) -> (a: CaptureAction)
    ensures
        a == spec_capture_step(ev),
{
    match ev {
        CaptureEvent::Frame => CaptureAction::ProcessFrame,
        CaptureEvent::Timeout => CaptureAction::Continue,
        CaptureEvent::ReadError => CaptureAction::Continue,
        CaptureEvent::StopRequested => CaptureAction::Stop,
        CaptureEvent::QueueClosed => CaptureAction::Stop,
    }
}

/// Optional admission criteria applied to every parsed packet.
#[derive(Clone, Debug)]
pub struct FilterConfig {
    pub port: Option<u16>,
    pub ip: Option<String>,
    pub protocol: Option<String>,
}

impl Default for FilterConfig {
    fn default() -> (r: FilterConfig)
        ensures
            r.port is None,
            r.ip is None,
            r.protocol is None,
    {
        FilterConfig { port: None, ip: None, protocol: None }
    }
}

impl FilterConfig {
    /// Build the capture filter from the loaded configuration.
    pub fn from_config(config: &crate::config::Config) -> (r: FilterConfig)
        ensures
            r.port == config.filter_port,
            r.ip == config.filter_ip,
            r.protocol == config.filter_protocol,
    {
        let ip = match &config.filter_ip {
            Some(s) => Some(s.clone()),
            None => None,
        };
        let protocol = match &config.filter_protocol {
            Some(s) => Some(s.clone()),
            None => None,
        };
        FilterConfig { port: config.filter_port, ip, protocol }
    }
}

/// A set port filter admits iff the port is one of the record's two ports.
pub open spec fn port_ok_parts(f: FilterConfig, src_port: u16, dst_port: u16) -> bool {
    match f.port {
        Some(p) => src_port == p || dst_port == p,
        None => true,
    }
}

/// A set ip filter admits iff the text matches one of the record's two
/// addresses exactly.
pub open spec fn ip_ok_parts(f: FilterConfig, src_ip: Seq<char>, dst_ip: Seq<char>) -> bool {
    match f.ip {
        Some(ip) => src_ip == ip@ || dst_ip == ip@,
        None => true,
    }
}

/// A set protocol filter admits iff it equals the record's label up to
/// ASCII case.
pub open spec fn proto_ok_parts(f: FilterConfig, proto: Protocol) -> bool {
    match f.protocol {
        Some(p) => bytes_eq_ignore_case(encode_utf8_of(p), label_bytes(proto)),
        None => true,
    }
}

/// The UTF-8 bytes of a filter string.
pub open spec fn encode_utf8_of(s: String) -> Seq<u8> {
    vstd::utf8::encode_utf8(s@)
}

/// Admission stated over the record's parts.
pub open spec fn spec_matches_parts(
    f: FilterConfig,
    src_ip: Seq<char>,
    dst_ip: Seq<char>,
    src_port: u16,
    dst_port: u16,
    proto: Protocol,
) -> bool {
    port_ok_parts(f, src_port, dst_port) && ip_ok_parts(f, src_ip, dst_ip) && proto_ok_parts(
        f,
        proto,
    )
}

pub open spec fn spec_port_ok(f: FilterConfig, m: PacketMetadata) -> bool {
    port_ok_parts(f, m.src_port, m.dst_port)
}

pub open spec fn spec_ip_ok(f: FilterConfig, m: PacketMetadata) -> bool {
    ip_ok_parts(f, m.src_ip@, m.dst_ip@)
}

pub open spec fn spec_proto_ok(f: FilterConfig, m: PacketMetadata) -> bool {
    proto_ok_parts(f, m.protocol)
}

/// All three criteria compose with AND; unset ones are vacuously satisfied.
pub open spec fn spec_matches(f: FilterConfig, m: PacketMetadata) -> bool {
    spec_matches_parts(f, m.src_ip@, m.dst_ip@, m.src_port, m.dst_port, m.protocol)
}

impl FilterConfig {
    /// Check if a packet matches the filter criteria.
    pub fn matches(&self, meta: &PacketMetadata) -> (r: bool)
        ensures
            r == spec_matches(*self, *meta),
    {
        match &self.port {
            Some(port) => {
                if meta.src_port != *port && meta.dst_port != *port {
                    return false;
                }
            },
            None => {},
        }
        match &self.ip {
            Some(ip) => {
                if !(meta.src_ip == *ip) && !(meta.dst_ip == *ip) {
                    return false;
                }
            },
            None => {},
        }
        match &self.protocol {
            Some(proto) => {
                let label = crate::state::protocol_label(meta.protocol);
                if !eq_ignore_case(proto.as_str(), label.as_str()) {
                    return false;
                }
            },
            None => {},
        }
        true
    }
}

/// The filter laws: with a set port filter `p` a record is admitted iff one
/// of its ports is `p`; the ip and protocol laws hold independently in the
/// same way; and the three criteria compose by conjunction.
pub proof fn lemma_filter_laws(f: FilterConfig, m: PacketMetadata)
    ensures
        spec_matches(f, m) <==> (spec_port_ok(f, m) && spec_ip_ok(f, m) && spec_proto_ok(f, m)),
        f.port matches Some(p) ==> (spec_port_ok(f, m) <==> (m.src_port == p || m.dst_port == p)),
        f.ip matches Some(ip) ==> (spec_ip_ok(f, m) <==> (m.src_ip@ == ip@ || m.dst_ip@ == ip@)),
        f.protocol matches Some(p) ==> (spec_proto_ok(f, m) <==> bytes_eq_ignore_case(
            encode_utf8_of(p),
            label_bytes(m.protocol),
        )),
        f.port is None ==> spec_port_ok(f, m),
        f.ip is None ==> spec_ip_ok(f, m),
        f.protocol is None ==> spec_proto_ok(f, m),
{
}

/// A record enters the pipeline iff it is not `Unknown` and the filter
/// admits it.
pub open spec fn spec_admit(f: FilterConfig, m: PacketMetadata) -> bool {
    m.protocol != Protocol::Unknown && spec_matches(f, m)
}

/// A record labelled `Unknown` is never admitted: it reaches neither the
/// aggregator nor the queue.
pub proof fn lemma_unknown_never_admitted(f: FilterConfig, m: PacketMetadata)
    requires
        m.protocol == Protocol::Unknown,
    ensures
        !spec_admit(f, m),
{
}

/// One pipeline decision: admit the record (update the aggregate state and
/// hand the record back for enqueueing) or discard it, leaving the state
/// untouched.
pub fn process_record(
    agg: &mut TrafficState,
    filter: &FilterConfig,
    rec: PacketMetadata,
) -> (r: Option<PacketMetadata>)
    requires
        old(agg).wf(),
        old(agg).total_packets < u64::MAX,
        old(agg).total_bytes + rec.length <= u64::MAX,
    ensures
        final(agg).wf(),
        spec_admit(*filter, rec) ==> r == Some(rec) && final(agg).total_packets == old(
            agg,
        ).total_packets + 1 && final(agg).total_bytes == old(agg).total_bytes + rec.length
            && spec_upserted(
            old(agg).entries@,
            final(agg).entries@,
            spec_resolve_key(rec),
            rec.length,
            rec.timestamp,
        ),
        !spec_admit(*filter, rec) ==> r is None && *final(agg) == *old(agg),
{
    if !matches!(rec.protocol, Protocol::Unknown) && filter.matches(&rec) {
        agg.update(&rec);
        Some(rec)
    } else {
        None
    }
}

/// One capture-loop iteration after a frame arrives: stamp the clock, parse
/// the frame, and run the admission decision against the aggregate state.
pub fn handle_frame(
    agg: &mut TrafficState,
    filter: &FilterConfig,
    data: &[u8],
    len: u32,
) -> (r: Option<PacketMetadata>)
    requires
        old(agg).wf(),
        old(agg).total_packets < u64::MAX,
        old(agg).total_bytes + len <= u64::MAX,
    ensures
        final(agg).wf(),
        r matches Some(rec) ==> rec.protocol != Protocol::Unknown && spec_matches(*filter, rec)
            && rec.length == len && rec.protocol == spec_protocol_of(
            net_layer_of(data@),
            transport_of(data@),
        ) && rec.src_ip@ == spec_src_ip(net_layer_of(data@)) && rec.dst_ip@ == spec_dst_ip(
            net_layer_of(data@),
        ) && rec.src_port == spec_src_port(transport_of(data@)) && rec.dst_port == spec_dst_port(
            transport_of(data@),
        ) && spec_upserted(
            old(agg).entries@,
            final(agg).entries@,
            spec_resolve_key(rec),
            rec.length,
            rec.timestamp,
        ) && final(agg).total_packets == old(agg).total_packets + 1 && final(agg).total_bytes
            == old(agg).total_bytes + len,
        r is None ==> *final(agg) == *old(agg) && ({
            let p = spec_protocol_of(net_layer_of(data@), transport_of(data@));
            p == Protocol::Unknown || !spec_matches_parts(
                *filter,
                spec_src_ip(net_layer_of(data@)),
                spec_dst_ip(net_layer_of(data@)),
                spec_src_port(transport_of(data@)),
                spec_dst_port(transport_of(data@)),
                p,
            )
        }),
{
    let ts = now_millis();
    let rec = parse_packet(data, ts, len);
    process_record(agg, filter, rec)
}

} // verus!
