use vstd::prelude::*;
use vstd::string::*;
use vstd::utf8::encode_utf8;

use crate::strutil::{
    bytes_le, lemma_bytes_le_antisym, lemma_bytes_le_total, str_bytes_eq, str_le,
};

verus! {

/// The protocol label attached to a captured packet. A frame in which
/// neither a recognized network layer nor a recognized transport layer
/// could be decoded is reduced to `Unknown`.
#[derive(Clone, Copy, PartialEq, Eq, Structural, Debug, Hash)]
pub enum Protocol {
    Tcp,
    Udp,
    Ipv4,
    Ipv6,
    Unknown,
}

/// The textual label of a protocol, as it is shown and persisted.
pub open spec fn label_of(p: Protocol) -> Seq<char> {
    match p {
        Protocol::Tcp => "TCP"@,
        Protocol::Udp => "UDP"@,
        Protocol::Ipv4 => "IPv4"@,
        Protocol::Ipv6 => "IPv6"@,
        Protocol::Unknown => "Unknown"@,
    }
}

/// The UTF-8 bytes of a protocol's label.
pub open spec fn label_bytes(p: Protocol) -> Seq<u8> {
    encode_utf8(label_of(p))
}

pub fn protocol_label(p: Protocol) -> (r: String)
    ensures
        r@ == label_of(p),
{
    match p {
        Protocol::Tcp => String::from_str("TCP"),
        Protocol::Udp => String::from_str("UDP"),
        Protocol::Ipv4 => String::from_str("IPv4"),
        Protocol::Ipv6 => String::from_str("IPv6"),
        Protocol::Unknown => String::from_str("Unknown"),
    }
}

/// Maps a persisted label back to its protocol; anything unrecognized
/// becomes `Unknown`.
pub open spec fn spec_protocol_from_label(b: Seq<u8>) -> Protocol {
    if b == label_bytes(Protocol::Tcp) {
        Protocol::Tcp
    } else if b == label_bytes(Protocol::Udp) {
        Protocol::Udp
    } else if b == label_bytes(Protocol::Ipv4) {
        Protocol::Ipv4
    } else if b == label_bytes(Protocol::Ipv6) {
        Protocol::Ipv6
    } else {
        Protocol::Unknown
    }
}

pub fn protocol_from_label(s: &str) -> (r: Protocol)
    ensures
        r == spec_protocol_from_label(s.spec_bytes()),
{
    if str_bytes_eq(s, "TCP") {
        Protocol::Tcp
    } else if str_bytes_eq(s, "UDP") {
        Protocol::Udp
    } else if str_bytes_eq(s, "IPv4") {
        Protocol::Ipv4
    } else if str_bytes_eq(s, "IPv6") {
        Protocol::Ipv6
    } else {
        Protocol::Unknown
    }
}

/// Normalized description of one observed packet. `"?.?.?.?"` stands in
/// for an address the network layer did not yield, and port `0` for a
/// frame without a TCP/UDP transport.
#[derive(Clone, Debug, PartialEq)]
pub struct PacketMetadata {
    pub timestamp: i64,
    pub src_ip: String,
    pub dst_ip: String,
    pub src_port: u16,
    pub dst_port: u16,
    pub protocol: Protocol,
    pub length: u32,
}

/// The UTF-8 bytes of a `String`.
pub open spec fn sbytes(s: String) -> Seq<u8> {
    encode_utf8(s@)
}

/// Running statistics for one connection.
#[derive(Clone, Copy, PartialEq, Eq, Structural, Debug)]
pub struct ConnStats {
    pub packets_count: u64,
    pub bytes_count: u64,
    pub last_seen: i64,
}

/// Canonical identifier of a flow: the two endpoints are stored sorted, so
/// both directions of the same flow share one key.
#[derive(Clone, Debug, PartialEq)]
pub struct ConnKey {
    pub ip_a: String,
    pub port_a: u16,
    pub ip_b: String,
    pub port_b: u16,
    pub protocol: Protocol,
}

/// The mathematical value of a key: endpoint byte strings, ports, protocol.
pub open spec fn key_view(k: ConnKey) -> (Seq<u8>, u16, Seq<u8>, u16, Protocol) {
    (sbytes(k.ip_a), k.port_a, sbytes(k.ip_b), k.port_b, k.protocol)
}

/// Ordering on endpoints: by address bytes lexicographically, then by port.
pub open spec fn spec_endpoint_le(ip1: Seq<u8>, p1: u16, ip2: Seq<u8>, p2: u16) -> bool {
    if bytes_le(ip1, ip2) && bytes_le(ip2, ip1) {
        p1 <= p2
    } else {
        bytes_le(ip1, ip2)
    }
}

/// The key a record resolves to: its endpoints in canonical order.
pub open spec fn spec_resolve_key(m: PacketMetadata) -> (Seq<u8>, u16, Seq<u8>, u16, Protocol) {
    if spec_endpoint_le(sbytes(m.src_ip), m.src_port, sbytes(m.dst_ip), m.dst_port) {
        (sbytes(m.src_ip), m.src_port, sbytes(m.dst_ip), m.dst_port, m.protocol)
    } else {
        (sbytes(m.dst_ip), m.dst_port, sbytes(m.src_ip), m.src_port, m.protocol)
    }
}

/// The same record with source and destination exchanged.
pub open spec fn spec_swapped(m: PacketMetadata) -> PacketMetadata {
    PacketMetadata {
        timestamp: m.timestamp,
        src_ip: m.dst_ip,
        dst_ip: m.src_ip,
        src_port: m.dst_port,
        dst_port: m.src_port,
        protocol: m.protocol,
        length: m.length,
    }
}

/// Key resolution is direction-insensitive: a record and its reversal
/// resolve to the same connection key.
pub proof fn lemma_key_direction_insensitive(m: PacketMetadata)
    ensures
        spec_resolve_key(spec_swapped(m)) == spec_resolve_key(m),
{
    let a = sbytes(m.src_ip);
    let b = sbytes(m.dst_ip);
    lemma_bytes_le_total(a, b);
    if bytes_le(a, b) && bytes_le(b, a) {
        lemma_bytes_le_antisym(a, b);
    }
}

pub fn resolve_key(m: &PacketMetadata) -> (k: ConnKey)
    ensures
        key_view(k) == spec_resolve_key(*m),
{
    let le1 = str_le(m.src_ip.as_str(), m.dst_ip.as_str());
    let le2 = str_le(m.dst_ip.as_str(), m.src_ip.as_str());
    let src_first = if le1 && le2 {
        m.src_port <= m.dst_port
    } else {
        le1
    };
    if src_first {
        ConnKey {
            ip_a: m.src_ip.clone(),
            port_a: m.src_port,
            ip_b: m.dst_ip.clone(),
            port_b: m.dst_port,
            protocol: m.protocol,
        }
    } else {
        ConnKey {
            ip_a: m.dst_ip.clone(),
            port_a: m.dst_port,
            ip_b: m.src_ip.clone(),
            port_b: m.src_port,
            protocol: m.protocol,
        }
    }
}

fn clone_key(k: &ConnKey) -> (r: ConnKey)
    ensures
        r == *k,
{
    ConnKey {
        ip_a: k.ip_a.clone(),
        port_a: k.port_a,
        ip_b: k.ip_b.clone(),
        port_b: k.port_b,
        protocol: k.protocol,
    }
}

fn key_eq(a: &ConnKey, b: &ConnKey) -> (r: bool)
    ensures
        r == (key_view(*a) == key_view(*b)),
{
    a.port_a == b.port_a && a.port_b == b.port_b && a.protocol == b.protocol
        && str_bytes_eq(a.ip_a.as_str(), b.ip_a.as_str()) && str_bytes_eq(
        a.ip_b.as_str(),
        b.ip_b.as_str(),
    )
}

/// Sum of the per-connection packet counters.
pub open spec fn sum_packets(s: Seq<(ConnKey, ConnStats)>) -> int
    decreases s.len(),
{
    if s.len() == 0 {
        0
    } else {
        sum_packets(s.drop_last()) + s.last().1.packets_count
    }
}

/// Sum of the per-connection byte counters.
pub open spec fn sum_bytes(s: Seq<(ConnKey, ConnStats)>) -> int
    decreases s.len(),
{
    if s.len() == 0 {
        0
    } else {
        sum_bytes(s.drop_last()) + s.last().1.bytes_count
    }
}

pub proof fn lemma_sums_nonneg(s: Seq<(ConnKey, ConnStats)>)
    ensures
        sum_packets(s) >= 0,
        sum_bytes(s) >= 0,
    decreases s.len(),
{
    if s.len() > 0 {
        lemma_sums_nonneg(s.drop_last());
    }
}

pub proof fn lemma_entry_le_sums(s: Seq<(ConnKey, ConnStats)>, i: int)
    requires
        0 <= i < s.len(),
    ensures
        s[i].1.packets_count <= sum_packets(s),
        s[i].1.bytes_count <= sum_bytes(s),
    decreases s.len(),
{
    lemma_sums_nonneg(s.drop_last());
    if i < s.len() - 1 {
        lemma_entry_le_sums(s.drop_last(), i);
        assert(s.drop_last()[i] == s[i]);
    }
}

proof fn lemma_sums_update(s: Seq<(ConnKey, ConnStats)>, i: int, e: (ConnKey, ConnStats))
    requires
        0 <= i < s.len(),
    ensures
        sum_packets(s.update(i, e)) == sum_packets(s) - s[i].1.packets_count
            + e.1.packets_count,
        sum_bytes(s.update(i, e)) == sum_bytes(s) - s[i].1.bytes_count + e.1.bytes_count,
    decreases s.len(),
{
    let t = s.update(i, e);
    if i == s.len() - 1 {
        assert(t.drop_last() =~= s.drop_last());
        assert(t.last() == e);
    } else {
        lemma_sums_update(s.drop_last(), i, e);
        assert(t.drop_last() =~= s.drop_last().update(i, e));
        assert(t.last() == s.last());
        assert(s.drop_last()[i] == s[i]);
    }
}

proof fn lemma_sums_push(s: Seq<(ConnKey, ConnStats)>, e: (ConnKey, ConnStats))
    ensures
        sum_packets(s.push(e)) == sum_packets(s) + e.1.packets_count,
        sum_bytes(s.push(e)) == sum_bytes(s) + e.1.bytes_count,
{
    assert(s.push(e).drop_last() =~= s);
    assert(s.push(e).last() == e);
}

/// In-memory aggregate view of all observed connections, plus the
/// process-wide counters. Written by the capture path, read by the query
/// path; the sharing wrapper around it lives outside the library.
pub struct TrafficState {
    pub entries: Vec<(ConnKey, ConnStats)>,
    pub total_packets: u64,
    pub total_bytes: u64,
}

/// What an update does to the entry sequence: the resolved key's stats are
/// bumped in place, or a fresh entry is appended; nothing else moves.
pub open spec fn spec_upserted(
    old_s: Seq<(ConnKey, ConnStats)>,
    new_s: Seq<(ConnKey, ConnStats)>,
    kv: (Seq<u8>, u16, Seq<u8>, u16, Protocol),
    len: u32,
    ts: i64,
) -> bool {
    if exists|i: int| 0 <= i < old_s.len() && key_view(old_s[i].0) == kv {
        exists|i: int|
            0 <= i < old_s.len() && key_view(old_s[i].0) == kv && new_s =~= old_s.update(
                i,
                (
                    old_s[i].0,
                    ConnStats {
                        packets_count: (old_s[i].1.packets_count + 1) as u64,
                        bytes_count: (old_s[i].1.bytes_count + len) as u64,
                        last_seen: ts,
                    },
                ),
            )
    } else {
        new_s.len() == old_s.len() + 1 && new_s.drop_last() =~= old_s && key_view(
            new_s.last().0,
        ) == kv && new_s.last().1 == (ConnStats {
            packets_count: 1u64,
            bytes_count: len as u64,
            last_seen: ts,
        })
    }
}

/// The transition one `update` call makes: both totals grow by exactly the
/// one packet and its length, and the entry sequence is upserted at the
/// record's key.
pub open spec fn spec_updated(pre: TrafficState, post: TrafficState, m: PacketMetadata) -> bool {
    &&& post.total_packets == pre.total_packets + 1
    &&& post.total_bytes == pre.total_bytes + m.length
    &&& spec_upserted(pre.entries@, post.entries@, spec_resolve_key(m), m.length, m.timestamp)
}

/// A run of the aggregator: `states[0]` is where it started, and each
/// `states[i + 1]` came from `states[i]` by one `update` with `recs[i]`.
pub open spec fn spec_run(states: Seq<TrafficState>, recs: Seq<PacketMetadata>) -> bool {
    &&& states.len() == recs.len() + 1
    &&& forall|i: int|
        0 <= i < recs.len() ==> spec_updated(states[i], states[i + 1], recs[i])
}

/// Over a whole run, `total_packets` and `total_bytes` never decrease: at
/// any later point of the aggregator's lifetime both counters are at least
/// what any earlier point showed.
pub proof fn lemma_totals_monotone_over_run(
    states: Seq<TrafficState>,
    recs: Seq<PacketMetadata>,
    i: int,
    j: int,
)
    requires
        spec_run(states, recs),
        0 <= i <= j < states.len(),
    ensures
        states[i].total_packets <= states[j].total_packets,
        states[i].total_bytes <= states[j].total_bytes,
    decreases j - i,
{
    if i < j {
        lemma_totals_monotone_over_run(states, recs, i, j - 1);
        assert(spec_updated(states[j - 1], states[j], recs[j - 1]));
    }
}

impl TrafficState {
    /// Well-formedness: keys are pairwise distinct, and the process-wide
    /// counters equal the sums of the per-connection counters.
    pub open spec fn wf(self) -> bool {
        &&& forall|i: int, j: int|
            0 <= i < j < self.entries@.len() ==> key_view(self.entries@[i].0) != key_view(
                self.entries@[j].0,
            )
        &&& self.total_packets == sum_packets(self.entries@)
        &&& self.total_bytes == sum_bytes(self.entries@)
    }

    pub fn new() -> (r: TrafficState)
        ensures
            r.wf(),
            r.entries@.len() == 0,
            r.total_packets == 0,
            r.total_bytes == 0,
    {
        TrafficState { entries: Vec::new(), total_packets: 0, total_bytes: 0 }
    }

    /// Create-or-update the stats entry for the record's connection key and
    /// bump the process-wide counters. Counts are exact: both totals grow by
    /// precisely one packet and `m.length` bytes.
    pub fn update(&mut self, m: &PacketMetadata)
        requires
            old(self).wf(),
            old(self).total_packets < u64::MAX,
            old(self).total_bytes + m.length <= u64::MAX,
        ensures
            final(self).wf(),
            final(self).total_packets == old(self).total_packets + 1,
            final(self).total_bytes == old(self).total_bytes + m.length,
            final(self).total_packets >= old(self).total_packets,
            final(self).total_bytes >= old(self).total_bytes,
            final(self).entries@.len() >= old(self).entries@.len(),
            spec_updated(*old(self), *final(self), *m),
            spec_upserted(
                old(self).entries@,
                final(self).entries@,
                spec_resolve_key(*m),
                m.length,
                m.timestamp,
            ),
    {
        let key = resolve_key(m);
        let n = self.entries.len();
        let mut i: usize = 0;
        while i < n
            invariant
                *self == *old(self),
                old(self).wf(),
                old(self).total_packets < u64::MAX,
                old(self).total_bytes + m.length <= u64::MAX,
                n == self.entries@.len(),
                0 <= i <= n,
                key_view(key) == spec_resolve_key(*m),
                forall|j: int| 0 <= j < i ==> key_view(self.entries@[j].0) != key_view(key),
            decreases n - i,
        {
            if key_eq(&self.entries[i].0, &key) {
                proof {
                    lemma_entry_le_sums(self.entries@, i as int);
                }
                let k2 = clone_key(&self.entries[i].0);
                let s0 = self.entries[i].1;
                let new_stats = ConnStats {
                    packets_count: s0.packets_count + 1,
                    bytes_count: s0.bytes_count + m.length as u64,
                    last_seen: m.timestamp,
                };
                proof {
                    lemma_sums_update(self.entries@, i as int, (k2, new_stats));
                }
                self.entries[i] = (k2, new_stats);
                self.total_packets = self.total_packets + 1;
                self.total_bytes = self.total_bytes + m.length as u64;
                proof {
                    assert forall|p: int, q: int|
                        0 <= p < q < self.entries@.len() implies key_view(self.entries@[p].0)
                        != key_view(self.entries@[q].0) by {
                        assert(self.entries@[p].0 == old(self).entries@[p].0);
                        assert(self.entries@[q].0 == old(self).entries@[q].0);
                    }
                }
                return ;
            }
            i = i + 1;
        }
        let stats = ConnStats {
            packets_count: 1,
            bytes_count: m.length as u64,
            last_seen: m.timestamp,
        };
        proof {
            lemma_sums_push(self.entries@, (key, stats));
        }
        self.entries.push((key, stats));
        self.total_packets = self.total_packets + 1;
        self.total_bytes = self.total_bytes + m.length as u64;
        proof {
            assert(self.entries@.drop_last() =~= old(self).entries@);
        }
    }

    /// Point-in-time copy of all (key, stats) pairs plus the counters.
    pub fn snapshot(&self) -> (r: Snapshot)
        ensures
            r.connections@ == self.entries@,
            r.total_packets == self.total_packets,
            r.total_bytes == self.total_bytes,
            r.active_connections == self.entries@.len(),
    {
        let mut v: Vec<(ConnKey, ConnStats)> = Vec::new();
        let n = self.entries.len();
        let mut i: usize = 0;
        while i < n
            invariant
                n == self.entries@.len(),
                0 <= i <= n,
                v@ =~= self.entries@.subrange(0, i as int),
            decreases n - i,
        {
            let k2 = clone_key(&self.entries[i].0);
            let s2 = self.entries[i].1;
            v.push((k2, s2));
            proof {
                assert(v@ =~= self.entries@.subrange(0, i + 1 as int));
            }
            i = i + 1;
        }
        proof {
            assert(v@ =~= self.entries@);
        }
        Snapshot {
            connections: v,
            total_packets: self.total_packets,
            total_bytes: self.total_bytes,
            active_connections: n,
        }
    }
}

/// Everything the live-stats reader gets in one read.
pub struct Snapshot {
    pub connections: Vec<(ConnKey, ConnStats)>,
    pub total_packets: u64,
    pub total_bytes: u64,
    pub active_connections: usize,
}

/// At any quiescent point the process-wide totals equal the sums of the
/// per-connection counters, and they only ever grow (each `update` adds
/// exactly one packet and a non-negative byte count).
pub proof fn lemma_totals_are_sums(t: TrafficState)
    requires
        t.wf(),
    ensures
        t.total_packets == sum_packets(t.entries@),
        t.total_bytes == sum_bytes(t.entries@),
{
}

} // verus!
