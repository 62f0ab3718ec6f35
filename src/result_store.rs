use vstd::prelude::*;

use crate::error::ApiError;
use crate::monitors::{
    opt_text, result_error, valid_region, valid_status, CreateMonitorResult,
    ListMonitorResultsQuery, MonitorResult, ResultView,
};
use crate::keys::{
    lemma_non_decreasing_push, lemma_unique_push, non_decreasing, unique_keys,
};
use crate::text::same_text;
use vstd::string::StringExecFns;

verus! {

/// The observations of all monitors, in the order of their creation.
pub struct ResultStore {
    results: Vec<MonitorResult>,
    latest: u64,
}

impl View for ResultStore {
    type V = Seq<MonitorResult>;

    closed spec fn view(&self) -> Seq<MonitorResult> {
        self.results@
    }
}

pub open spec fn result_key() -> spec_fn(MonitorResult) -> Seq<char> {
    |r: MonitorResult| r.id@
}

pub open spec fn result_time() -> spec_fn(MonitorResult) -> u64 {
    |r: MonitorResult| r.created_at
}

pub open spec fn result_ids_unique(s: Seq<MonitorResult>) -> bool {
    unique_keys(s, result_key())
}

pub open spec fn has_result(s: Seq<MonitorResult>, id: Seq<char>) -> bool {
    exists|i: int| 0 <= i < s.len() && (#[trigger] s[i]).id@ == id
}

/// Creation times never decrease along the order of creation.
pub open spec fn chronological(s: Seq<MonitorResult>) -> bool {
    non_decreasing(s, result_time())
}

/// Creation times never increase along the sequence.
pub open spec fn newest_first(s: Seq<MonitorResult>) -> bool {
    forall|i: int, j: int| 0 <= i <= j < s.len() ==> (#[trigger] s[i]).created_at >= (#[trigger] s[j]).created_at
}

/// The observations of `monitor_id` that meet the optional region and status
/// filters.
pub open spec fn result_filter(
    monitor_id: Seq<char>,
    region: Option<Seq<char>>,
    status: Option<Seq<char>>,
) -> spec_fn(MonitorResult) -> bool {
    |r: MonitorResult|
        {
            &&& r.monitor_id@ == monitor_id
            &&& region matches Some(g) ==> r.region@ == g
            &&& status matches Some(t) ==> r.status@ == t
        }
}

/// The observations that do not belong to `monitor_id`.
pub open spec fn other_monitor(monitor_id: Seq<char>) -> spec_fn(MonitorResult) -> bool {
    |r: MonitorResult| r.monitor_id@ != monitor_id
}

/// The page size actually used: the one asked for, at most 100, else 50.
pub open spec fn effective_limit(limit: Option<u32>) -> int {
    match limit {
        Some(l) => if l <= 100 {
            l as int
        } else {
            100
        },
        None => 50,
    }
}

pub open spec fn effective_offset(offset: Option<u32>) -> int {
    match offset {
        Some(o) => o as int,
        None => 0,
    }
}

/// The part of `s` from `offset` that holds at most `limit` elements.
pub open spec fn page<A>(s: Seq<A>, offset: int, limit: int) -> Seq<A> {
    let start = if offset < s.len() {
        offset
    } else {
        s.len() as int
    };
    let end = if offset + limit < s.len() {
        offset + limit
    } else {
        s.len() as int
    };
    s.subrange(start, end)
}

/// What a listing returns: the matching observations, newest first, then
/// the page asked for.
pub open spec fn listing(
    s: Seq<MonitorResult>,
    monitor_id: Seq<char>,
    q: ListMonitorResultsQuery,
) -> Seq<MonitorResult> {
    page(
        s.filter(result_filter(monitor_id, opt_text(q.region), opt_text(q.status))).reverse(),
        effective_offset(q.offset),
        effective_limit(q.limit),
    )
}

/// The observation that the store makes of an offered one.
pub open spec fn stored_result(
    id: Seq<char>,
    monitor_id: Seq<char>,
    d: CreateMonitorResult,
    created_at: u64,
) -> ResultView {
    ResultView {
        id,
        monitor_id,
        region: d.region@,
        status: d.status@,
        response_time_ms: d.response_time_ms,
        http_status: d.http_status,
        ssl_valid: d.ssl_valid,
        ssl_expires_at: opt_text(d.ssl_expires_at),
        error_message: opt_text(d.error_message),
        created_at,
    }
}

/// Two sequences of observations that hold the same values in the same order.
pub open spec fn same_results(a: Seq<MonitorResult>, b: Seq<MonitorResult>) -> bool {
    &&& a.len() == b.len()
    &&& forall|i: int| 0 <= i < a.len() ==> (#[trigger] a[i])@ == b[i]@
}

impl ResultStore {
    /// The latest creation time handed out so far.
    pub closed spec fn clock(&self) -> u64 {
        self.latest
    }

    /// Identities are unique, every observation names a known region and
    /// status, creation times never decrease, and none is after the clock.
    pub open spec fn wf(&self) -> bool {
        &&& result_ids_unique(self@)
        &&& chronological(self@)
        &&& forall|i: int|
            0 <= i < self@.len() ==> {
                &&& valid_region((#[trigger] self@[i]).region@)
                &&& valid_status(self@[i].status@)
                &&& self@[i].created_at <= self.clock()
            }
    }

    pub fn new() -> (r: ResultStore)
        ensures
            r.wf(),
            r@ == Seq::<MonitorResult>::empty(),
            r.clock() == 0,
    {
        ResultStore { results: Vec::new(), latest: 0 }
    }

    /// Whether an observation with identity `id` is stored.
    pub fn contains_id(&self, id: &str) -> (r: bool)
        ensures
            r == has_result(self@, id@),
    {
        let mut i: usize = 0;
        while i < self.results.len()
            invariant
                i <= self@.len(),
                self@ == self.results@,
                forall|j: int| 0 <= j < i ==> (#[trigger] self@[j]).id@ != id@,
            decreases self@.len() - i,
        {
            if same_text(self.results[i].id.as_str(), id) {
                return true;
            }
            i = i + 1;
        }
        false
    }

    /// Appends a checked observation of `monitor_id` under a fresh identity.
    /// Its creation time is `now`, or the latest one handed out where the
    /// clock went back. `InternalServerError` where the identity is taken.
    pub fn insert(&mut self, id: String, monitor_id: &str, d: CreateMonitorResult, now: u64) -> (r:
        Result<MonitorResult, ApiError>)
        requires
            old(self).wf(),
            result_error(d) is None,
        ensures
            final(self).wf(),
            has_result(old(self)@, id@) ==> r == Err::<MonitorResult, ApiError>(
                ApiError::InternalServerError,
            ) && final(self)@ == old(self)@ && final(self).clock() == old(self).clock(),
            !has_result(old(self)@, id@) ==> {
                let at = if now < old(self).clock() {
                    old(self).clock()
                } else {
                    now
                };
                &&& r is Ok
                &&& r->Ok_0@ == stored_result(id@, monitor_id@, d, at)
                &&& final(self)@ == old(self)@.push(final(self)@.last())
                &&& final(self)@.last()@ == r->Ok_0@
                &&& final(self).clock() == at
            },
    {
        if self.contains_id(id.as_str()) {
            return Err(ApiError::InternalServerError);
        }
        let at: u64 = if now < self.latest {
            self.latest
        } else {
            now
        };
        let r = MonitorResult {
            id,
            monitor_id: String::from_str(monitor_id),
            region: d.region,
            status: d.status,
            response_time_ms: d.response_time_ms,
            http_status: d.http_status,
            ssl_valid: d.ssl_valid,
            ssl_expires_at: d.ssl_expires_at,
            error_message: d.error_message,
            created_at: at,
        };
        let copy = r.duplicate();
        self.results.push(r);
        self.latest = at;
        proof {
            assert(self@ == old(self)@.push(self@.last()));
            lemma_unique_push(old(self)@, self@.last(), result_key());
            lemma_non_decreasing_push(old(self)@, self@.last(), result_time());
        }
        Ok(copy)
    }

    /// The observations of `monitor_id` that meet the query's filters, newest
    /// first, from the query's offset (0 by default) and at most as many as
    /// its limit asks (50 by default, never more than 100).
    pub fn list(&self, monitor_id: &str, q: &ListMonitorResultsQuery) -> (r: Vec<MonitorResult>)
        ensures
            same_results(r@, listing(self@, monitor_id@, *q)),
    {
        let ghost pred = result_filter(monitor_id@, opt_text(q.region), opt_text(q.status));
        let mut matched: Vec<&MonitorResult> = Vec::new();
        let mut i: usize = 0;
        while i < self.results.len()
            invariant
                i <= self@.len(),
                self@ == self.results@,
                pred == result_filter(monitor_id@, opt_text(q.region), opt_text(q.status)),
                matched@.len() == self@.subrange(0, i as int).filter(pred).len(),
                forall|k: int| 0 <= k < matched@.len() ==> *(#[trigger] matched@[k]) == self@.subrange(0, i as int).filter(pred)[k],
            decreases self@.len() - i,
        {
            let ghost before = self@.subrange(0, i as int);
            assert(self@.subrange(0, i + 1).drop_last() =~= before);
            reveal(Seq::filter);
            let r = &self.results[i];
            let keep = same_text(r.monitor_id.as_str(), monitor_id) && match &q.region {
                Some(g) => same_text(r.region.as_str(), g.as_str()),
                None => true,
            } && match &q.status {
                Some(t) => same_text(r.status.as_str(), t.as_str()),
                None => true,
            };
            if keep {
                matched.push(r);
            }
            i = i + 1;
        }
        assert(self@.subrange(0, self@.len() as int) =~= self@);
        let ghost all = self@.filter(pred);
        let ghost rev = all.reverse();
        let n = matched.len();
        let limit: usize = match q.limit {
            Some(l) => if l <= 100 {
                l as usize
            } else {
                100
            },
            None => 50,
        };
        let offset: usize = match q.offset {
            Some(o) => o as usize,
            None => 0,
        };
        let start: usize = if offset < n {
            offset
        } else {
            n
        };
        let end: usize = if limit < n - start {
            start + limit
        } else {
            n
        };
        let ghost want = listing(self@, monitor_id@, *q);
        assert(want =~= rev.subrange(start as int, end as int));
        let mut out: Vec<MonitorResult> = Vec::new();
        let mut k: usize = start;
        while k < end
            invariant
                start <= k <= end <= n,
                n == matched@.len(),
                n == all.len(),
                rev == all.reverse(),
                forall|j: int| 0 <= j < n ==> *(#[trigger] matched@[j]) == all[j],
                out@.len() == k - start,
                forall|j: int| 0 <= j < out@.len() ==> (#[trigger] out@[j])@ == rev[start + j]@,
            decreases end - k,
        {
            let item: &MonitorResult = matched[n - 1 - k];
            out.push(item.duplicate());
            k = k + 1;
        }
        out
    }

    /// Drops every observation of `monitor_id`, keeping the others in order.
    pub fn remove_monitor(&mut self, monitor_id: &str)
        requires
            old(self).wf(),
        ensures
            final(self).wf(),
            final(self).clock() == old(self).clock(),
            same_results(final(self)@, old(self)@.filter(other_monitor(monitor_id@))),
    {
        let ghost pred = other_monitor(monitor_id@);
        let ghost s = self@;
        let mut kept: Vec<MonitorResult> = Vec::new();
        let ghost mut idx: Seq<int> = Seq::empty();
        let mut i: usize = 0;
        while i < self.results.len()
            invariant
                i <= s.len(),
                s == self.results@,
                self.wf(),
                pred == other_monitor(monitor_id@),
                same_results(kept@, s.subrange(0, i as int).filter(pred)),
                idx.len() == kept@.len(),
                forall|k: int| 0 <= k < idx.len() ==> 0 <= #[trigger] idx[k] < i,
                forall|k: int, l: int| 0 <= k < l < idx.len() ==> #[trigger] idx[k] < #[trigger] idx[l],
                forall|k: int| 0 <= k < idx.len() ==> (#[trigger] kept@[k])@ == s[idx[k]]@,
            decreases s.len() - i,
        {
            let ghost before = s.subrange(0, i as int);
            assert(s.subrange(0, i + 1).drop_last() =~= before);
            reveal(Seq::filter);
            if !same_text(self.results[i].monitor_id.as_str(), monitor_id) {
                kept.push(self.results[i].duplicate());
                proof {
                    idx = idx.push(i as int);
                }
            }
            i = i + 1;
        }
        assert(s.subrange(0, s.len() as int) =~= s);
        self.results = kept;
        proof {
            assert forall|a: int, b: int|
                0 <= a < self@.len() && 0 <= b < self@.len() && a != b implies (#[trigger] self@[a]).id@
                != (#[trigger] self@[b]).id@ by {
                assert(idx[a] != idx[b]);
            }
            assert forall|a: int, b: int| 0 <= a <= b < self@.len() implies (#[trigger] self@[a]).created_at
                <= (#[trigger] self@[b]).created_at by {
                if a < b {
                    assert(idx[a] < idx[b]);
                }
            }
            assert forall|a: int| 0 <= a < self@.len() implies valid_region((#[trigger] self@[a]).region@)
                && valid_status(self@[a].status@) && self@[a].created_at <= self.latest by {
                assert(self@[a]@ == s[idx[a]]@);
            }
        }
    }
}

proof fn lemma_filter_chronological(s: Seq<MonitorResult>, p: spec_fn(MonitorResult) -> bool)
    requires
        chronological(s),
    ensures
        chronological(s.filter(p)),
    decreases s.len(),
{
    reveal(Seq::filter);
    if s.len() > 0 {
        let d = s.drop_last();
        assert forall|i: int, j: int| 0 <= i <= j < d.len() implies (#[trigger] d[i]).created_at
            <= (#[trigger] d[j]).created_at by {
            assert(d[i] == s[i] && d[j] == s[j]);
        }
        lemma_filter_chronological(d, p);
        let f = d.filter(p);
        if p(s.last()) {
            let g = f.push(s.last());
            assert forall|i: int, j: int| 0 <= i <= j < g.len() implies (#[trigger] g[i]).created_at
                <= (#[trigger] g[j]).created_at by {
                if j == f.len() && i < f.len() {
                    assert(f.contains(f[i]));
                    d.lemma_filter_contains_rev(p, f[i]);
                    let a = choose|a: int| 0 <= a < d.len() && d[a] == f[i];
                    assert(s[a] == d[a]);
                    assert(g[i] == f[i]);
                } else if j < f.len() {
                    assert(g[i] == f[i] && g[j] == f[j]);
                }
            }
        }
    }
}

/// A listing page holds at most 100 observations, at most 50 where the query
/// asks no limit, and runs newest first.
pub proof fn lemma_listing_page(s: Seq<MonitorResult>, monitor_id: Seq<char>, q: ListMonitorResultsQuery)
    requires
        chronological(s),
    ensures
        listing(s, monitor_id, q).len() <= 100,
        q.limit is None ==> listing(s, monitor_id, q).len() <= 50,
        newest_first(listing(s, monitor_id, q)),
{
    let p = result_filter(monitor_id, opt_text(q.region), opt_text(q.status));
    let f = s.filter(p);
    lemma_filter_chronological(s, p);
    let r = f.reverse();
    let page_seq = listing(s, monitor_id, q);
    let off = effective_offset(q.offset);
    let start = if off < r.len() { off } else { r.len() as int };
    assert forall|i: int, j: int| 0 <= i <= j < page_seq.len() implies (#[trigger] page_seq[i]).created_at
        >= (#[trigger] page_seq[j]).created_at by {
        assert(page_seq[i] == r[start + i]);
        assert(page_seq[j] == r[start + j]);
        assert(r[start + i] == f[f.len() - 1 - (start + i)]);
        assert(r[start + j] == f[f.len() - 1 - (start + j)]);
    }
}

/// A store that meets its invariant lists pages as `lemma_listing_page` says.
pub proof fn lemma_store_listing_page(store: &ResultStore, monitor_id: Seq<char>, q: ListMonitorResultsQuery)
    requires
        store.wf(),
    ensures
        listing(store@, monitor_id, q).len() <= 100,
        q.limit is None ==> listing(store@, monitor_id, q).len() <= 50,
        newest_first(listing(store@, monitor_id, q)),
{
    lemma_listing_page(store@, monitor_id, q);
}

} // verus!
