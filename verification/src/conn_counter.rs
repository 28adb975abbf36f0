//! Live-connection accounting.
//!
//! The accept loop emits a `+1` delta before it spawns a session and a `-1`
//! delta once that session concludes. A single consumer folds the deltas into
//! a running total and publishes it as a gauge. Because every `-1` is sent
//! only after its matching `+1`, the total always equals
//! (accepted sessions − concluded sessions) and never goes negative.

use vstd::prelude::*;

verus! {

/// Net connection count after the first `n` deltas.
pub open spec fn prefix_total(deltas: Seq<i64>, n: int) -> int
    decreases n,
{
    if n <= 0 {
        0
    } else {
        prefix_total(deltas, n - 1) + deltas[n - 1]
    }
}

/// Number of `+1` deltas (accepted sessions) among the first `n` deltas.
pub open spec fn accepts(deltas: Seq<i64>, n: int) -> int
    decreases n,
{
    if n <= 0 {
        0
    } else {
        accepts(deltas, n - 1) + if deltas[n - 1] == 1i64 {
            1int
        } else {
            0int
        }
    }
}

/// Number of `-1` deltas (concluded sessions) among the first `n` deltas.
pub open spec fn completions(deltas: Seq<i64>, n: int) -> int
    decreases n,
{
    if n <= 0 {
        0
    } else {
        completions(deltas, n - 1) + if deltas[n - 1] == -1i64 {
            1int
        } else {
            0int
        }
    }
}

/// Every delta is `+1` or `-1`.
pub open spec fn all_unit_deltas(deltas: Seq<i64>) -> bool {
    forall|i: int| 0 <= i < deltas.len() ==> deltas[i] == 1i64 || deltas[i] == -1i64
}

/// No session concludes before it was accepted: in every prefix, the `-1`
/// deltas never outnumber the `+1` deltas.
pub open spec fn sessions_balanced(deltas: Seq<i64>) -> bool {
    forall|n: int| 0 <= n <= deltas.len() ==> completions(deltas, n) <= accepts(deltas, n)
}

proof fn lemma_total_split(deltas: Seq<i64>, n: int)
    requires
        0 <= n <= deltas.len(),
        all_unit_deltas(deltas),
    ensures
        prefix_total(deltas, n) == accepts(deltas, n) - completions(deltas, n),
    decreases n,
{
    if n > 0 {
        lemma_total_split(deltas, n - 1);
        assert(deltas[n - 1] == 1i64 || deltas[n - 1] == -1i64);
    }
}

proof fn lemma_counts_bounded(deltas: Seq<i64>, n: int)
    requires
        0 <= n <= deltas.len(),
    ensures
        0 <= accepts(deltas, n) <= n,
        0 <= completions(deltas, n) <= n,
    decreases n,
{
    if n > 0 {
        lemma_counts_bounded(deltas, n - 1);
    }
}

/// The connection gauge equals (accepted − concluded) at every observation
/// point, and never goes negative, for any stream of unit deltas in which no
/// session concludes before it was accepted.
pub proof fn lemma_gauge_matches_sessions(deltas: Seq<i64>)
    requires
        all_unit_deltas(deltas),
        sessions_balanced(deltas),
    ensures
        forall|n: int|
            0 <= n <= deltas.len() ==> prefix_total(deltas, n) == accepts(deltas, n)
                - completions(deltas, n),
        forall|n: int| 0 <= n <= deltas.len() ==> prefix_total(deltas, n) >= 0,
{
    assert forall|n: int| 0 <= n <= deltas.len() implies prefix_total(deltas, n) == accepts(
        deltas,
        n,
    ) - completions(deltas, n) && prefix_total(deltas, n) >= 0 by {
        lemma_total_split(deltas, n);
    }
}

/// The single-consumer aggregator that turns connection-count deltas into a
/// gauge value. All mutation of the count goes through `observe`.
pub struct ConnectionCounter {
    connections: i64,
}

impl ConnectionCounter {
    /// The current net connection count.
    pub closed spec fn count(self) -> int {
        self.connections as int
    }

    pub fn new() -> (c: ConnectionCounter)
        ensures
            c.count() == 0,
    {
        ConnectionCounter { connections: 0 }
    }

    /// Fold one delta into the running total and report the gauge value to
    /// publish.
    pub fn observe(&mut self, delta: i64) -> (gauge: i64)
        requires
            delta == 1i64 || delta == -1i64,
            -0x4000_0000_0000_0000 < old(self).count() < 0x4000_0000_0000_0000,
        ensures
            final(self).count() == old(self).count() + delta,
            gauge == final(self).count(),
    {
        self.connections = self.connections + delta;
        self.connections
    }
}

/// Fold an entire delta stream, reporting the gauge value after each delta:
/// the sequence of values the metrics backend would observe.
pub fn gauge_trace(deltas: &Vec<i64>) -> (gauges: Vec<i64>)
    requires
        all_unit_deltas(deltas@),
        sessions_balanced(deltas@),
        deltas@.len() < 0x4000_0000_0000_0000,
    ensures
        gauges@.len() == deltas@.len(),
        forall|i: int| 0 <= i < gauges@.len() ==> gauges@[i] == prefix_total(deltas@, i + 1),
        forall|i: int| 0 <= i < gauges@.len() ==> gauges@[i] >= 0,
{
    let mut counter = ConnectionCounter::new();
    let mut gauges: Vec<i64> = Vec::new();
    let mut i: usize = 0;
    proof {
        lemma_gauge_matches_sessions(deltas@);
    }
    while i < deltas.len()
        invariant
            i <= deltas@.len(),
            deltas@.len() < 0x4000_0000_0000_0000,
            all_unit_deltas(deltas@),
            sessions_balanced(deltas@),
            counter.count() == prefix_total(deltas@, i as int),
            gauges@.len() == i,
            forall|j: int| 0 <= j < i ==> gauges@[j] == prefix_total(deltas@, j + 1),
            forall|j: int| 0 <= j < i ==> gauges@[j] >= 0,
            forall|n: int|
                0 <= n <= deltas@.len() ==> prefix_total(deltas@, n) == accepts(deltas@, n)
                    - completions(deltas@, n) && prefix_total(deltas@, n) >= 0,
        decreases deltas@.len() - i,
    {
        proof {
            lemma_counts_bounded(deltas@, i as int);
            lemma_counts_bounded(deltas@, i + 1);
        }
        let g = counter.observe(deltas[i]);
        gauges.push(g);
        i = i + 1;
    }
    gauges
}

} // verus!
