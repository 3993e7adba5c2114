//! Request counts, latencies and error counts of the server, and the summary
//! that the `metrics://server` resource reports.
use vstd::prelude::*;
use vstd::relations::{sorted_by, total_ordering};
use vstd::seq_lib::lemma_sorted_unique;
use std::time::Instant;
use crate::clock::{instant_now, nanos_since};
use crate::keyed::{
    entry_map, keys_unique, lemma_map_at, lemma_map_contains, lemma_map_push, lemma_map_update,
};
use crate::text::str_eq;

verus! {

broadcast use vstd::seq_lib::group_to_multiset_ensures, vstd::multiset::group_multiset_axioms;

/// How many request latencies the window keeps.
pub const LATENCY_WINDOW: usize = 1000;

/// `a <= b` on latencies.
pub open spec fn le_u64() -> spec_fn(u64, u64) -> bool {
    |a: u64, b: u64| a <= b
}

/// The window after recording one more latency: the oldest one leaves once
/// there are more than `LATENCY_WINDOW`.
pub open spec fn slide_window(s: Seq<u64>) -> Seq<u64> {
    if s.len() > LATENCY_WINDOW {
        s.drop_first()
    } else {
        s
    }
}

/// Law: recording a latency keeps at most `LATENCY_WINDOW` of them, the
/// newest last, the others as they were, oldest first.
pub proof fn law_latency_window_keeps_newest(s: Seq<u64>, x: u64)
    requires
        s.len() <= LATENCY_WINDOW,
    ensures
        slide_window(s.push(x)).len() <= LATENCY_WINDOW,
        slide_window(s.push(x)).last() == x,
        slide_window(s.push(x)) == s.push(x).skip(s.push(x).len() - slide_window(s.push(x)).len()),
{
    assert(s.push(x).skip(0) =~= s.push(x));
    assert(s.push(x).skip(1) =~= s.push(x).drop_first());
}

/// The count under `key`, zero when there is none.
pub open spec fn count_of(m: Map<Seq<char>, u64>, key: Seq<char>) -> nat {
    if m.dom().contains(key) {
        m[key] as nat
    } else {
        0
    }
}

/// The sum of the counts in a list.
pub open spec fn sum_counts(s: Seq<(String, u64)>) -> nat
    decreases s.len(),
{
    if s.len() == 0 {
        0
    } else {
        sum_counts(s.drop_last()) + s.last().1 as nat
    }
}

/// The sum of a list of latencies.
pub open spec fn sum_u64(s: Seq<u64>) -> nat
    decreases s.len(),
{
    if s.len() == 0 {
        0
    } else {
        sum_u64(s.drop_last()) + s.last() as nat
    }
}

/// The index of the 99th percentile in a sorted list of `n` latencies:
/// `floor(n * 0.99)`, which is `n * 99 / 100` for every `n` up to the window.
pub open spec fn p99_index(n: nat) -> int {
    if (n * 99 / 100) as int <= n - 1 {
        (n * 99 / 100) as int
    } else {
        n - 1
    }
}

/// The 99th-percentile latency; zero when there is none.
pub open spec fn p99_of(s: Seq<u64>) -> u64 {
    if s.len() == 0 {
        0
    } else {
        s.sort_by(le_u64())[p99_index(s.len())]
    }
}

/// The mean latency, rounded down; zero when there is none.
pub open spec fn mean_of(s: Seq<u64>) -> u64 {
    if s.len() == 0 {
        0
    } else {
        (sum_u64(s) / s.len()) as u64
    }
}

/// A table of latency lists, each list by its view.
pub open spec fn times_view(m: Map<Seq<char>, Vec<u64>>) -> Map<Seq<char>, Seq<u64>> {
    m.map_values(|v: Vec<u64>| v@)
}

/// The recorded counters of the server.
pub struct Metrics {
    request_counts: Vec<(String, u64)>,
    request_latencies: Vec<u64>,
    lsp_response_times: Vec<(String, Vec<u64>)>,
    error_counts: Vec<(String, u64)>,
    started_at: Instant,
}

/// What `get_summary` reports. Durations are in nanoseconds.
pub struct MetricsSummary {
    pub uptime: u128,
    pub total_requests: u64,
    pub requests_by_tool: Vec<(String, u64)>,
    pub errors_by_type: Vec<(String, u64)>,
    pub avg_request_latency: u64,
    pub p99_request_latency: u64,
    pub lsp_stats: Vec<(String, Vec<u64>)>,
}

proof fn lemma_le_u64_total()
    ensures
        total_ordering(le_u64()),
{
    let r = le_u64();
    assert(vstd::relations::reflexive(r));
    assert(vstd::relations::antisymmetric(r));
    assert(vstd::relations::transitive(r));
    assert(vstd::relations::strongly_connected(r));
}

proof fn lemma_sum_u64_bound(s: Seq<u64>)
    ensures
        sum_u64(s) <= s.len() * (u64::MAX as nat),
    decreases s.len(),
{
    if s.len() > 0 {
        lemma_sum_u64_bound(s.drop_last());
        assert(sum_u64(s) <= (s.len() - 1) * (u64::MAX as nat) + u64::MAX as nat);
        assert((s.len() - 1) * (u64::MAX as nat) + u64::MAX as nat == s.len() * (u64::MAX as nat))
            by (nonlinear_arith);
    }
}

/// `v` in increasing order.
fn sorted_copy(v: &Vec<u64>) -> (r: Vec<u64>)
    ensures
        r@ == v@.sort_by(le_u64()),
{
    let mut rem: Vec<u64> = Vec::new();
    let mut i: usize = 0;
    while i < v.len()
        invariant
            i <= v@.len(),
            rem@ == v@.take(i as int),
        decreases v.len() - i,
    {
        rem.push(v[i]);
        i = i + 1;
        proof {
            assert(rem@ =~= v@.take(i as int));
        }
    }
    proof {
        assert(v@.take(v@.len() as int) =~= v@);
    }
    let mut out: Vec<u64> = Vec::new();
    while rem.len() > 0
        invariant
            sorted_by(out@, le_u64()),
            out@.to_multiset().add(rem@.to_multiset()) == v@.to_multiset(),
            forall|a: int, b: int| 0 <= a < out@.len() && 0 <= b < rem@.len() ==> out@[a] <= rem@[b],
        decreases rem.len(),
    {
        let mut m: usize = 0;
        let mut j: usize = 1;
        while j < rem.len()
            invariant
                0 < rem@.len(),
                m < j <= rem@.len(),
                forall|b: int| 0 <= b < j ==> rem@[m as int] <= rem@[b],
            decreases rem.len() - j,
        {
            if rem[j] < rem[m] {
                m = j;
            }
            j = j + 1;
        }
        let ghost before_out = out@;
        let ghost before_rem = rem@;
        let x = rem.remove(m);
        out.push(x);
        proof {
            assert(rem@ == before_rem.remove(m as int));
            assert(out@ == before_out.push(x));
            assert(out@.to_multiset().add(rem@.to_multiset()) =~= before_out.to_multiset().add(
                before_rem.to_multiset(),
            ));
            assert forall|a: int, b: int| 0 <= a < b < out@.len() implies #[trigger] (le_u64())(
                out@[a],
                out@[b],
            ) by {
                if b < before_out.len() {
                    assert((le_u64())(before_out[a], before_out[b]));
                } else {
                    assert(before_out[a] <= before_rem[m as int]);
                }
            }
            assert forall|a: int, b: int| 0 <= a < out@.len() && 0 <= b < rem@.len() implies out@[a]
                <= rem@[b] by {
                if b < m {
                    assert(rem@[b] == before_rem[b]);
                } else {
                    assert(rem@[b] == before_rem[b + 1]);
                }
                if a < before_out.len() {
                    if b < m {
                        assert(before_out[a] <= before_rem[b]);
                    } else {
                        assert(before_out[a] <= before_rem[b + 1]);
                    }
                }
            }
        }
    }
    proof {
        assert(rem@ =~= Seq::<u64>::empty());
        assert(out@.to_multiset() =~= v@.to_multiset());
        lemma_le_u64_total();
        v@.lemma_sort_by_ensures(le_u64());
        lemma_sorted_unique(out@, v@.sort_by(le_u64()), le_u64());
    }
    out
}

proof fn lemma_sum_counts_update(s: Seq<(String, u64)>, i: int, e: (String, u64))
    requires
        0 <= i < s.len(),
        e.1 == s[i].1 + 1,
    ensures
        sum_counts(s.update(i, e)) == sum_counts(s) + 1,
    decreases s.len(),
{
    let t = s.update(i, e);
    if i == s.len() - 1 {
        assert(t.drop_last() =~= s.drop_last());
    } else {
        lemma_sum_counts_update(s.drop_last(), i, e);
        assert(t.drop_last() =~= s.drop_last().update(i, e));
    }
}

proof fn lemma_sum_counts_copy(a: Seq<(String, u64)>, b: Seq<(String, u64)>)
    requires
        a.len() == b.len(),
        forall|i: int| 0 <= i < a.len() ==> #[trigger] a[i].1 == b[i].1,
    ensures
        sum_counts(a) == sum_counts(b),
    decreases a.len(),
{
    if a.len() > 0 {
        lemma_sum_counts_copy(a.drop_last(), b.drop_last());
    }
}

/// Adds one to the count under `key` in a table of counts.
fn bump_count(table: &mut Vec<(String, u64)>, key: &str)
    requires
        keys_unique(old(table)@),
        count_of(entry_map(old(table)@), key@) < u64::MAX,
    ensures
        keys_unique(final(table)@),
        entry_map(final(table)@) == entry_map(old(table)@).insert(
            key@,
            (count_of(entry_map(old(table)@), key@) + 1) as u64,
        ),
        sum_counts(final(table)@) == sum_counts(old(table)@) + 1,
{
    let mut i: usize = 0;
    while i < table.len()
        invariant
            i <= table@.len(),
            table@ == old(table)@,
            keys_unique(table@),
            count_of(entry_map(table@), key@) < u64::MAX,
            forall|j: int| 0 <= j < i ==> table@[j].0@ != key@,
        decreases table.len() - i,
    {
        if str_eq(table[i].0.as_str(), key) {
            proof {
                lemma_map_at(table@, i as int);
            }
            let n = table[i].1;
            let k = table[i].0.clone();
            proof {
                lemma_map_update(table@, i as int, (k, (n + 1) as u64));
                lemma_sum_counts_update(table@, i as int, (k, (n + 1) as u64));
            }
            table.set(i, (k, n + 1));
            return;
        }
        i = i + 1;
    }
    proof {
        lemma_map_contains(table@, key@);
    }
    let k = String::from_str(key);
    proof {
        lemma_map_push(table@, (k, 1u64));
        assert(table@.push((k, 1u64)).drop_last() =~= table@);
    }
    table.push((k, 1));
}

/// Appends `d` to the list under `key`.
fn append_time(table: &mut Vec<(String, Vec<u64>)>, key: &str, d: u64)
    requires
        keys_unique(old(table)@),
    ensures
        keys_unique(final(table)@),
        entry_map(final(table)@).dom() == entry_map(old(table)@).dom().insert(key@),
        entry_map(final(table)@)[key@]@ == if entry_map(old(table)@).dom().contains(key@) {
            entry_map(old(table)@)[key@]@.push(d)
        } else {
            seq![d]
        },
        forall|k: Seq<char>|
            k != key@ && #[trigger] entry_map(old(table)@).dom().contains(k)
                ==> entry_map(final(table)@)[k] == entry_map(old(table)@)[k],
{
    let mut i: usize = 0;
    while i < table.len()
        invariant
            i <= table@.len(),
            table@ == old(table)@,
            keys_unique(table@),
            forall|j: int| 0 <= j < i ==> table@[j].0@ != key@,
        decreases table.len() - i,
    {
        if str_eq(table[i].0.as_str(), key) {
            proof {
                lemma_map_at(table@, i as int);
            }
            let k = table[i].0.clone();
            let mut times = Vec::new();
            let mut j: usize = 0;
            while j < table[i].1.len()
                invariant
                    i < table@.len(),
                    j <= table@[i as int].1@.len(),
                    times@ == table@[i as int].1@.take(j as int),
                decreases table@[i as int].1@.len() - j,
            {
                times.push(table[i].1[j]);
                j = j + 1;
                proof {
                    assert(times@ =~= table@[i as int].1@.take(j as int));
                }
            }
            proof {
                assert(table@[i as int].1@.take(table@[i as int].1@.len() as int) =~= table@[
                    i as int
                ].1@);
            }
            times.push(d);
            let ghost e = (k, times);
            proof {
                lemma_map_update(table@, i as int, e);
            }
            table.set(i, (k, times));
            return;
        }
        i = i + 1;
    }
    proof {
        lemma_map_contains(table@, key@);
    }
    let k = String::from_str(key);
    let mut times = Vec::new();
    times.push(d);
    let ghost e = (k, times);
    proof {
        lemma_map_push(table@, e);
    }
    table.push((k, times));
}

proof fn lemma_sum_counts_prefix(s: Seq<(String, u64)>, i: int)
    requires
        0 <= i <= s.len(),
    ensures
        sum_counts(s.take(i)) <= sum_counts(s),
    decreases s.len() - i,
{
    if i < s.len() {
        lemma_sum_counts_prefix(s, i + 1);
        assert(s.take(i + 1).drop_last() =~= s.take(i));
    } else {
        assert(s.take(i) =~= s);
    }
}

/// A copy of a table of counts.
fn copy_counts(v: &Vec<(String, u64)>) -> (r: Vec<(String, u64)>)
    ensures
        r@ == v@,
{
    let mut r: Vec<(String, u64)> = Vec::new();
    let mut i: usize = 0;
    while i < v.len()
        invariant
            i <= v@.len(),
            r@ == v@.take(i as int),
        decreases v.len() - i,
    {
        r.push((v[i].0.clone(), v[i].1));
        i = i + 1;
        proof {
            assert(r@ =~= v@.take(i as int));
        }
    }
    proof {
        assert(v@.take(v@.len() as int) =~= v@);
    }
    r
}

/// A copy of a table of latency lists.
fn copy_times(v: &Vec<(String, Vec<u64>)>) -> (r: Vec<(String, Vec<u64>)>)
    requires
        keys_unique(v@),
    ensures
        keys_unique(r@),
        times_view(entry_map(r@)) == times_view(entry_map(v@)),
{
    let mut r: Vec<(String, Vec<u64>)> = Vec::new();
    let mut i: usize = 0;
    while i < v.len()
        invariant
            i <= v@.len(),
            r@.len() == i,
            forall|k: int| 0 <= k < i ==> #[trigger] r@[k].0 == v@[k].0 && r@[k].1@ == v@[k].1@,
        decreases v.len() - i,
    {
        let mut times: Vec<u64> = Vec::new();
        let mut j: usize = 0;
        while j < v[i].1.len()
            invariant
                i < v@.len(),
                j <= v@[i as int].1@.len(),
                times@ == v@[i as int].1@.take(j as int),
            decreases v@[i as int].1@.len() - j,
        {
            times.push(v[i].1[j]);
            j = j + 1;
            proof {
                assert(times@ =~= v@[i as int].1@.take(j as int));
            }
        }
        proof {
            assert(v@[i as int].1@.take(v@[i as int].1@.len() as int) =~= v@[i as int].1@);
        }
        r.push((v[i].0.clone(), times));
        i = i + 1;
    }
    proof {
        assert(keys_unique(r@)) by {
            assert forall|a: int, b: int| 0 <= a < b < r@.len() implies r@[a].0@ != r@[b].0@ by {
                assert(r@[a].0 == v@[a].0);
                assert(r@[b].0 == v@[b].0);
            }
        }
        let mr = entry_map(r@);
        let mv = entry_map(v@);
        assert forall|k: Seq<char>| mr.dom().contains(k) <==> mv.dom().contains(k) by {
            lemma_map_contains(r@, k);
            lemma_map_contains(v@, k);
            if exists|j: int| 0 <= j < r@.len() && r@[j].0@ == k {
                let j = choose|j: int| 0 <= j < r@.len() && r@[j].0@ == k;
                assert(v@[j].0@ == k);
            }
            if exists|j: int| 0 <= j < v@.len() && v@[j].0@ == k {
                let j = choose|j: int| 0 <= j < v@.len() && v@[j].0@ == k;
                assert(r@[j].0@ == k);
            }
        }
        assert forall|k: Seq<char>| #[trigger] mr.dom().contains(k) implies mr[k]@ == mv[k]@ by {
            lemma_map_contains(r@, k);
            let j = choose|j: int| 0 <= j < r@.len() && r@[j].0@ == k;
            lemma_map_at(r@, j);
            lemma_map_at(v@, j);
        }
        assert(times_view(mr) =~= times_view(mv));
    }
    r
}

impl Metrics {
    /// The invariant: no key twice in a table, and at most `LATENCY_WINDOW`
    /// latencies.
    pub closed spec fn wf(&self) -> bool {
        &&& keys_unique(self.request_counts@)
        &&& keys_unique(self.lsp_response_times@)
        &&& keys_unique(self.error_counts@)
        &&& self.request_latencies@.len() <= LATENCY_WINDOW
    }

    /// Requests by tool name.
    pub closed spec fn requests(&self) -> Map<Seq<char>, u64> {
        entry_map(self.request_counts@)
    }

    /// The sum of the request counts.
    pub closed spec fn total_requests_spec(&self) -> nat {
        sum_counts(self.request_counts@)
    }

    /// The latencies in the window, oldest first.
    pub closed spec fn latencies(&self) -> Seq<u64> {
        self.request_latencies@
    }

    /// LSP response times by method, oldest first.
    pub closed spec fn lsp_times(&self) -> Map<Seq<char>, Seq<u64>> {
        times_view(entry_map(self.lsp_response_times@))
    }

    /// Errors by type.
    pub closed spec fn errors(&self) -> Map<Seq<char>, u64> {
        entry_map(self.error_counts@)
    }

    /// No counter yet.
    pub fn new() -> (r: Metrics)
        ensures
            r.wf(),
            r.requests() == Map::<Seq<char>, u64>::empty(),
            r.total_requests_spec() == 0,
            r.latencies() == Seq::<u64>::empty(),
            r.lsp_times() == Map::<Seq<char>, Seq<u64>>::empty(),
            r.errors() == Map::<Seq<char>, u64>::empty(),
    {
        let r = Metrics {
            request_counts: Vec::new(),
            request_latencies: Vec::new(),
            lsp_response_times: Vec::new(),
            error_counts: Vec::new(),
            started_at: instant_now(),
        };
        proof {
            assert(entry_map(r.request_counts@) =~= Map::<Seq<char>, u64>::empty());
            assert(entry_map(r.lsp_response_times@) =~= Map::<Seq<char>, Vec<u64>>::empty());
            assert(times_view(entry_map(r.lsp_response_times@)) =~= Map::<Seq<char>, Seq<u64>>::empty());
            assert(entry_map(r.error_counts@) =~= Map::<Seq<char>, u64>::empty());
        }
        r
    }

    /// Counts one request of `tool_name` that took `latency` nanoseconds.
    pub fn record_request(&mut self, tool_name: &str, latency: u64)
        requires
            old(self).wf(),
            count_of(old(self).requests(), tool_name@) < u64::MAX,
        ensures
            final(self).wf(),
            final(self).requests() == old(self).requests().insert(
                tool_name@,
                (count_of(old(self).requests(), tool_name@) + 1) as u64,
            ),
            final(self).total_requests_spec() == old(self).total_requests_spec() + 1,
            final(self).latencies() == slide_window(old(self).latencies().push(latency)),
            final(self).lsp_times() == old(self).lsp_times(),
            final(self).errors() == old(self).errors(),
    {
        bump_count(&mut self.request_counts, tool_name);
        self.request_latencies.push(latency);
        if self.request_latencies.len() > LATENCY_WINDOW {
            self.request_latencies.remove(0);
            proof {
                assert(self.request_latencies@ =~= old(self).request_latencies@.push(
                    latency,
                ).drop_first());
            }
        }
    }

    /// Records one LSP call of `method` that took `latency` nanoseconds.
    pub fn record_lsp_call(&mut self, method: &str, latency: u64)
        requires
            old(self).wf(),
        ensures
            final(self).wf(),
            final(self).lsp_times() == old(self).lsp_times().insert(
                method@,
                if old(self).lsp_times().dom().contains(method@) {
                    old(self).lsp_times()[method@].push(latency)
                } else {
                    seq![latency]
                },
            ),
            final(self).requests() == old(self).requests(),
            final(self).total_requests_spec() == old(self).total_requests_spec(),
            final(self).latencies() == old(self).latencies(),
            final(self).errors() == old(self).errors(),
    {
        append_time(&mut self.lsp_response_times, method, latency);
        proof {
            let before = entry_map(old(self).lsp_response_times@);
            let after = entry_map(self.lsp_response_times@);
            let want = times_view(before).insert(
                method@,
                if before.dom().contains(method@) {
                    before[method@]@.push(latency)
                } else {
                    seq![latency]
                },
            );
            assert forall|k: Seq<char>| #[trigger] want.dom().contains(k) implies times_view(after)[k]
                == want[k] by {
                if k != method@ {
                    assert(before.dom().contains(k));
                }
            }
            assert(times_view(after) =~= want);
        }
    }

    /// Counts one error of `error_type`.
    pub fn record_error(&mut self, error_type: &str)
        requires
            old(self).wf(),
            count_of(old(self).errors(), error_type@) < u64::MAX,
        ensures
            final(self).wf(),
            final(self).errors() == old(self).errors().insert(
                error_type@,
                (count_of(old(self).errors(), error_type@) + 1) as u64,
            ),
            final(self).requests() == old(self).requests(),
            final(self).total_requests_spec() == old(self).total_requests_spec(),
            final(self).latencies() == old(self).latencies(),
            final(self).lsp_times() == old(self).lsp_times(),
    {
        bump_count(&mut self.error_counts, error_type);
    }

    /// The total of the request counts, when it fits in a `u64`.
    pub fn total_requests(&self) -> (r: Option<u64>)
        ensures
            r matches Some(n) ==> n == self.total_requests_spec(),
            r is None <==> self.total_requests_spec() > u64::MAX,
    {
        let mut total: u64 = 0;
        let mut i: usize = 0;
        while i < self.request_counts.len()
            invariant
                i <= self.request_counts@.len(),
                total == sum_counts(self.request_counts@.take(i as int)),
            decreases self.request_counts.len() - i,
        {
            proof {
                assert(self.request_counts@.take(i + 1).drop_last() =~= self.request_counts@.take(
                    i as int,
                ));
            }
            let n = self.request_counts[i].1;
            if total > u64::MAX - n {
                proof {
                    lemma_sum_counts_prefix(self.request_counts@, i + 1);
                }
                return None;
            }
            total = total + n;
            i = i + 1;
        }
        proof {
            assert(self.request_counts@.take(i as int) =~= self.request_counts@);
        }
        Some(total)
    }

    /// The summary that the metrics resource reports. The uptime is the
    /// clock's reading since the counters were created.
    pub fn get_summary(&self) -> (r: MetricsSummary)
        requires
            self.wf(),
            self.total_requests_spec() <= u64::MAX,
        ensures
            r.total_requests == self.total_requests_spec(),
            keys_unique(r.requests_by_tool@),
            entry_map(r.requests_by_tool@) == self.requests(),
            sum_counts(r.requests_by_tool@) == r.total_requests,
            keys_unique(r.errors_by_type@),
            entry_map(r.errors_by_type@) == self.errors(),
            r.avg_request_latency == mean_of(self.latencies()),
            r.p99_request_latency == p99_of(self.latencies()),
            keys_unique(r.lsp_stats@),
            times_view(entry_map(r.lsp_stats@)) == self.lsp_times(),
    {
        let requests_by_tool = copy_counts(&self.request_counts);
        let errors_by_type = copy_counts(&self.error_counts);
        let total_requests = match self.total_requests() {
            Some(n) => n,
            None => 0,
        };
        proof {
            lemma_sum_counts_copy(requests_by_tool@, self.request_counts@);
        }
        let lat = &self.request_latencies;
        let mut avg: u64 = 0;
        let mut p99: u64 = 0;
        if lat.len() > 0 {
            let mut sum: u128 = 0;
            let mut i: usize = 0;
            while i < lat.len()
                invariant
                    i <= lat@.len() <= LATENCY_WINDOW,
                    sum == sum_u64(lat@.take(i as int)),
                decreases lat.len() - i,
            {
                proof {
                    assert(lat@.take(i + 1).drop_last() =~= lat@.take(i as int));
                    lemma_sum_u64_bound(lat@.take(i as int));
                    assert(i * (u64::MAX as nat) <= 1000 * (u64::MAX as nat)) by (nonlinear_arith)
                        requires i <= 1000;
                }
                sum = sum + lat[i] as u128;
                i = i + 1;
            }
            proof {
                assert(lat@.take(i as int) =~= lat@);
                lemma_sum_u64_bound(lat@);
                assert(lat@.len() * (u64::MAX as nat) <= 1000 * (u64::MAX as nat)) by (nonlinear_arith)
                    requires lat@.len() <= 1000;
            }
            let n = lat.len() as u128;
            assert(sum / n <= u64::MAX) by (nonlinear_arith)
                requires sum <= n * (u64::MAX as nat), n > 0;
            avg = (sum / n) as u64;
            let sorted = sorted_copy(lat);
            proof {
                lemma_le_u64_total();
                lat@.lemma_sort_by_ensures(le_u64());
                assert(sorted@.to_multiset().len() == lat@.to_multiset().len());
            }
            let idx: usize = lat.len() * 99 / 100;
            let idx = if idx <= lat.len() - 1 { idx } else { lat.len() - 1 };
            p99 = sorted[idx];
        }
        let lsp_stats = copy_times(&self.lsp_response_times);
        MetricsSummary {
            uptime: nanos_since(&self.started_at),
            total_requests,
            requests_by_tool,
            errors_by_type,
            avg_request_latency: avg,
            p99_request_latency: p99,
            lsp_stats,
        }
    }
}

impl Default for Metrics {
    fn default() -> (r: Metrics)
        ensures
            r.wf(),
            r.requests() == Map::<Seq<char>, u64>::empty(),
            r.total_requests_spec() == 0,
            r.latencies() == Seq::<u64>::empty(),
            r.lsp_times() == Map::<Seq<char>, Seq<u64>>::empty(),
            r.errors() == Map::<Seq<char>, u64>::empty(),
    {
        Metrics::new()
    }
}

} // verus!
