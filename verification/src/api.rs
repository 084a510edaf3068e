use vstd::prelude::*;
use vstd::string::*;

use crate::state::{ConnKey, ConnStats, Snapshot, TrafficState};
use crate::storage::HISTORY_HARD_CAP;

verus! {

broadcast use
    vstd::seq_lib::to_multiset_build,
    vstd::seq_lib::to_multiset_remove,
    vstd::multiset::group_multiset_axioms;

/// How many connections the live view shows at most.
pub const LIVE_TOP_LIMIT: usize = 50;

/// Entries ordered by descending packet count.
pub open spec fn sorted_by_packets_desc(s: Seq<(ConnKey, ConnStats)>) -> bool {
    forall|i: int, j: int|
        0 <= i < j < s.len() ==> s[i].1.packets_count >= s[j].1.packets_count
}

/// The `n` busiest connections of a snapshot, ordered by descending packet
/// count: the result is part of the snapshot, and every connection left out
/// has at most as many packets as any shown one.
pub fn top_connections(snap: Snapshot, n: usize) -> (r: Vec<(ConnKey, ConnStats)>)
    ensures
        r@.len() == (if n <= snap.connections@.len() {
            n as int
        } else {
            snap.connections@.len() as int
        }),
        sorted_by_packets_desc(r@),
        forall|x: (ConnKey, ConnStats)| #[trigger]
            r@.to_multiset().count(x) <= snap.connections@.to_multiset().count(x),
        forall|x: (ConnKey, ConnStats)|
            snap.connections@.to_multiset().count(x) > #[trigger] r@.to_multiset().count(x)
                ==> (forall|k: int|
                0 <= k < r@.len() ==> r@[k].1.packets_count >= x.1.packets_count),
{
    let mut src = snap.connections;
    let ghost cs = src@;
    let mut out: Vec<(ConnKey, ConnStats)> = Vec::new();
    proof {
        out@.to_multiset_ensures();
        vstd::multiset::lemma_multiset_empty_len(out@.to_multiset());
        assert(out@.to_multiset() =~= vstd::multiset::Multiset::empty());
        assert(out@.to_multiset().add(src@.to_multiset()) =~= cs.to_multiset());
    }
    while out.len() < n && src.len() > 0
        invariant
            out@.to_multiset().add(src@.to_multiset()) == cs.to_multiset(),
            sorted_by_packets_desc(out@),
            forall|k: int, e: int|
                0 <= k < out@.len() && 0 <= e < src@.len() ==> out@[k].1.packets_count
                    >= src@[e].1.packets_count,
            out@.len() <= n,
            out@.len() + src@.len() == cs.len(),
        decreases src@.len(),
    {
        let mut m: usize = 0;
        let mut e: usize = 1;
        while e < src.len()
            invariant
                src@.len() > 0,
                0 <= m < src@.len(),
                1 <= e <= src@.len(),
                forall|q: int|
                    0 <= q < e ==> src@[m as int].1.packets_count >= src@[q].1.packets_count,
            decreases src@.len() - e,
        {
            if src[e].1.packets_count > src[m].1.packets_count {
                m = e;
            }
            e = e + 1;
        }
        let ghost src_before = src@;
        let x = src.remove(m);
        proof {
            vstd::seq_lib::to_multiset_remove(src_before, m as int);
            vstd::seq_lib::to_multiset_build(out@, x);
            src_before.to_multiset_ensures();
            assert(src_before.contains(x));
            assert(src_before.to_multiset().count(x) > 0);
            assert(out@.push(x).to_multiset().add(src@.to_multiset()) =~= out@.to_multiset().add(
                src_before.to_multiset(),
            ));
            // where each leftover sat before the removal
            assert(forall|e2: int|
                0 <= e2 < src@.len() ==> src@[e2] == (if e2 < m {
                    src_before[e2]
                } else {
                    src_before[e2 + 1]
                }));
            // x came from the leftovers, so every already-chosen entry is at
            // least as big
            assert(forall|k: int|
                0 <= k < out@.len() ==> out@[k].1.packets_count >= x.1.packets_count);
            // x was the maximum of what was left
            assert(forall|e2: int|
                0 <= e2 < src@.len() ==> x.1.packets_count >= src@[e2].1.packets_count);
        }
        out.push(x);
    }
    proof {
        assert forall|x: (ConnKey, ConnStats)|
            cs.to_multiset().count(x) > out@.to_multiset().count(x) implies (forall|k: int|
            0 <= k < out@.len() ==> out@[k].1.packets_count >= x.1.packets_count) by {
            src@.to_multiset_ensures();
            assert(src@.to_multiset().count(x) > 0);
            assert(src@.contains(x));
            let e = choose|e: int| 0 <= e < src@.len() && src@[e] == x;
            assert forall|k: int|
                0 <= k < out@.len() implies out@[k].1.packets_count >= x.1.packets_count by {
                assert(out@[k].1.packets_count >= src@[e].1.packets_count);
            }
        }
    }
    out
}

/// Default number of history rows when the caller names no limit.
pub const HISTORY_DEFAULT_LIMIT: usize = 100;

/// Body of the health check: liveness plus the two headline counters.
pub struct HealthResponse {
    pub status: String,
    pub active_connections: usize,
    pub total_packets: u64,
}

/// Query parameters of the history endpoint.
pub struct HistoryParams {
    pub limit: Option<usize>,
}

/// Build the health view of the aggregate state.
pub fn health_response(t: &TrafficState) -> (r: HealthResponse)
    ensures
        r.status@ == "ok"@,
        r.active_connections == t.entries@.len(),
        r.total_packets == t.total_packets,
{
    HealthResponse {
        status: String::from_str("ok"),
        active_connections: t.entries.len(),
        total_packets: t.total_packets,
    }
}

/// The row limit a history request is served with: what the caller asked
/// for, defaulted when absent, and never above the hard cap.
pub fn effective_history_limit(p: &HistoryParams) -> (r: usize)
    ensures
        r == (match p.limit {
            Some(l) => if l < HISTORY_HARD_CAP {
                l
            } else {
                HISTORY_HARD_CAP
            },
            None => HISTORY_DEFAULT_LIMIT,
        }),
        r <= HISTORY_HARD_CAP,
{
    match p.limit {
        Some(l) => if l < HISTORY_HARD_CAP {
            l
        } else {
            HISTORY_HARD_CAP
        },
        None => HISTORY_DEFAULT_LIMIT,
    }
}

} // verus!
