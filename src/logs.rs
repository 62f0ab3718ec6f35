use vstd::prelude::*;
use vstd::string::StringExecFns;

use crate::error::{bad_request, bad_request_with, ApiError};
use crate::monitors::opt_text;
use crate::result_store::{effective_limit, effective_offset, page};
use crate::service::AppState;
use crate::keys::{lemma_non_decreasing_push, lemma_unique_push, non_decreasing, unique_keys};
use crate::text::{blank, is_blank, same_text};
use crate::utils::{uuid_text, uuid_v4};

verus! {

#[verifier::external_type_specification]
#[verifier::external_body]
pub struct ExJsonValue(serde_json::Value);

/// Relies on the derived `Clone` of `serde_json::Value`: a deep copy.
pub assume_specification[ <serde_json::Value as Clone>::clone ](v: &serde_json::Value) -> (r:
    serde_json::Value)
    ensures
        r == *v,
;

#[derive(Debug, Clone)]
pub struct Log {
    pub id: String,
    pub project_id: String,
    pub level: String,
    pub message: String,
    pub context: Option<serde_json::Value>,
    pub trace_id: Option<String>,
    pub source: Option<String>,
    pub environment: Option<String>,
    /// Milliseconds since the Unix epoch, assigned by the store.
    pub created_at: u64,
}

#[derive(Debug, Clone)]
pub struct CreateLog {
    pub level: String,
    pub message: String,
    pub context: Option<serde_json::Value>,
    pub trace_id: Option<String>,
    pub source: Option<String>,
    pub environment: Option<String>,
}

#[derive(Debug, Clone)]
pub struct ListLogsQuery {
    pub level: Option<String>,
    pub trace_id: Option<String>,
    pub source: Option<String>,
    pub environment: Option<String>,
    pub limit: Option<u32>,
    pub offset: Option<u32>,
}

pub open spec fn valid_level(l: Seq<char>) -> bool {
    l == "debug"@ || l == "info"@ || l == "warn"@ || l == "error"@ || l == "fatal"@
}

pub open spec fn level_message(l: Seq<char>) -> Seq<char> {
    "Invalid level: "@ + l + ". Must be one of: [\"debug\", \"info\", \"warn\", \"error\", \"fatal\"]"@
}

pub open spec fn log_message_message() -> Seq<char> {
    "Message cannot be empty"@
}

/// The first rule that a log entry breaks, if any, by its message.
pub open spec fn log_error(d: CreateLog) -> Option<Seq<char>> {
    if !valid_level(d.level@) {
        Some(level_message(d.level@))
    } else if blank(d.message@) {
        Some(log_message_message())
    } else {
        None
    }
}

pub fn is_valid_level(l: &str) -> (r: bool)
    ensures
        r == valid_level(l@),
{
    same_text(l, "debug") || same_text(l, "info") || same_text(l, "warn") || same_text(l, "error")
        || same_text(l, "fatal")
}

/// Checks that a log entry has a known level and a message that is not
/// blank, and reports the first rule broken.
pub fn validate_log(d: &CreateLog) -> (r: Result<(), ApiError>)
    ensures
        match log_error(*d) {
            None => r is Ok,
            Some(msg) => r is Err && bad_request_with(r->Err_0, msg),
        },
{
    if !is_valid_level(d.level.as_str()) {
        let m = String::from_str("Invalid level: ").concat(d.level.as_str()).concat(
            ". Must be one of: [\"debug\", \"info\", \"warn\", \"error\", \"fatal\"]",
        );
        return Err(ApiError::BadRequest(m));
    }
    if is_blank(d.message.as_str()) {
        return Err(bad_request("Message cannot be empty"));
    }
    Ok(())
}

impl Log {
    /// A copy of the entry, field for field.
    pub fn duplicate(&self) -> (r: Log)
        ensures
            r == *self,
    {
        Log {
            id: self.id.clone(),
            project_id: self.project_id.clone(),
            level: self.level.clone(),
            message: self.message.clone(),
            context: match &self.context {
                Some(c) => Some(c.clone()),
                None => None,
            },
            trace_id: dup_text(&self.trace_id),
            source: dup_text(&self.source),
            environment: dup_text(&self.environment),
            created_at: self.created_at,
        }
    }
}

fn dup_text(o: &Option<String>) -> (r: Option<String>)
    ensures
        r == *o,
{
    match o {
        Some(s) => Some(s.clone()),
        None => None,
    }
}

pub open spec fn log_key() -> spec_fn(Log) -> Seq<char> {
    |l: Log| l.id@
}

pub open spec fn log_time() -> spec_fn(Log) -> u64 {
    |l: Log| l.created_at
}

pub open spec fn log_ids_unique(s: Seq<Log>) -> bool {
    unique_keys(s, log_key())
}

pub open spec fn has_log(s: Seq<Log>, id: Seq<char>) -> bool {
    exists|i: int| 0 <= i < s.len() && (#[trigger] s[i]).id@ == id
}

/// Creation times never decrease along the order of creation.
pub open spec fn logs_chronological(s: Seq<Log>) -> bool {
    non_decreasing(s, log_time())
}

/// Creation times never increase along the sequence.
pub open spec fn logs_newest_first(s: Seq<Log>) -> bool {
    forall|i: int, j: int| 0 <= i <= j < s.len() ==> (#[trigger] s[i]).created_at >= (#[trigger] s[j]).created_at
}

/// `field` is absent from the filter, or equal to what the filter asks.
pub open spec fn opt_filter(filter: Option<String>, field: Option<String>) -> bool {
    filter matches Some(f) ==> opt_text(field) == Some(f@)
}

/// The entries of `project_id` that meet every filter of the query.
pub open spec fn log_filter(project_id: Seq<char>, q: ListLogsQuery) -> spec_fn(Log) -> bool {
    |l: Log|
        {
            &&& l.project_id@ == project_id
            &&& q.level matches Some(v) ==> l.level@ == v@
            &&& opt_filter(q.trace_id, l.trace_id)
            &&& opt_filter(q.source, l.source)
            &&& opt_filter(q.environment, l.environment)
        }
}

/// What a listing of logs returns: the matching entries, newest first, then
/// the page asked for.
pub open spec fn log_listing(s: Seq<Log>, project_id: Seq<char>, q: ListLogsQuery) -> Seq<Log> {
    page(
        s.filter(log_filter(project_id, q)).reverse(),
        effective_offset(q.offset),
        effective_limit(q.limit),
    )
}

/// The log entries of all projects, in the order of their creation.
pub struct LogStore {
    logs: Vec<Log>,
    latest: u64,
}

impl View for LogStore {
    type V = Seq<Log>;

    closed spec fn view(&self) -> Seq<Log> {
        self.logs@
    }
}

impl LogStore {
    /// The latest creation time handed out so far.
    pub closed spec fn clock(&self) -> u64 {
        self.latest
    }

    /// Identities are unique, every entry has a known level and a message,
    /// creation times never decrease, and none is after the clock.
    pub open spec fn wf(&self) -> bool {
        &&& log_ids_unique(self@)
        &&& logs_chronological(self@)
        &&& forall|i: int|
            0 <= i < self@.len() ==> {
                &&& valid_level((#[trigger] self@[i]).level@)
                &&& !blank(self@[i].message@)
                &&& self@[i].created_at <= self.clock()
            }
    }

    pub fn new() -> (r: LogStore)
        ensures
            r.wf(),
            r@ == Seq::<Log>::empty(),
            r.clock() == 0,
    {
        LogStore { logs: Vec::new(), latest: 0 }
    }

    fn contains_id(&self, id: &str) -> (r: bool)
        ensures
            r == has_log(self@, id@),
    {
        let mut i: usize = 0;
        while i < self.logs.len()
            invariant
                i <= self@.len(),
                self@ == self.logs@,
                forall|j: int| 0 <= j < i ==> (#[trigger] self@[j]).id@ != id@,
            decreases self@.len() - i,
        {
            if same_text(self.logs[i].id.as_str(), id) {
                return true;
            }
            i = i + 1;
        }
        false
    }

    /// Appends a checked entry of `project_id` under a fresh identity. Its
    /// creation time is `now`, or the latest one handed out where the clock
    /// went back. `InternalServerError` where the identity is taken.
    pub fn insert(&mut self, id: String, project_id: &str, d: CreateLog, now: u64) -> (r: Result<
        Log,
        ApiError,
    >)
        requires
            old(self).wf(),
            log_error(d) is None,
        ensures
            final(self).wf(),
            has_log(old(self)@, id@) ==> r == Err::<Log, ApiError>(ApiError::InternalServerError)
                && final(self)@ == old(self)@ && final(self).clock() == old(self).clock(),
            !has_log(old(self)@, id@) ==> {
                let at = if now < old(self).clock() {
                    old(self).clock()
                } else {
                    now
                };
                &&& r is Ok
                &&& r->Ok_0.id == id
                &&& r->Ok_0.project_id@ == project_id@
                &&& r->Ok_0.level == d.level
                &&& r->Ok_0.message == d.message
                &&& r->Ok_0.context == d.context
                &&& r->Ok_0.trace_id == d.trace_id
                &&& r->Ok_0.source == d.source
                &&& r->Ok_0.environment == d.environment
                &&& r->Ok_0.created_at == at
                &&& final(self)@ == old(self)@.push(r->Ok_0)
                &&& final(self).clock() == at
            },
    {
        if self.contains_id(id.as_str()) {
            return Err(ApiError::InternalServerError);
        }
        let at: u64 = if now < self.latest {
            self.latest
        } else {
            now
        };
        let l = Log {
            id,
            project_id: String::from_str(project_id),
            level: d.level,
            message: d.message,
            context: d.context,
            trace_id: d.trace_id,
            source: d.source,
            environment: d.environment,
            created_at: at,
        };
        let copy = l.duplicate();
        self.logs.push(l);
        self.latest = at;
        proof {
            lemma_unique_push(old(self)@, self@.last(), log_key());
            lemma_non_decreasing_push(old(self)@, self@.last(), log_time());
        }
        Ok(copy)
    }

    /// The entries of `project_id` that meet the query's filters, newest
    /// first, from the query's offset (0 by default) and at most as many as
    /// its limit asks (50 by default, never more than 100).
    pub fn list(&self, project_id: &str, q: &ListLogsQuery) -> (r: Vec<Log>)
        ensures
            r@ == log_listing(self@, project_id@, *q),
    {
        let ghost pred = log_filter(project_id@, *q);
        let mut matched: Vec<&Log> = Vec::new();
        let mut i: usize = 0;
        while i < self.logs.len()
            invariant
                i <= self@.len(),
                self@ == self.logs@,
                pred == log_filter(project_id@, *q),
                matched@.len() == self@.subrange(0, i as int).filter(pred).len(),
                forall|k: int| 0 <= k < matched@.len() ==> *(#[trigger] matched@[k]) == self@.subrange(0, i as int).filter(pred)[k],
            decreases self@.len() - i,
        {
            assert(self@.subrange(0, i + 1).drop_last() =~= self@.subrange(0, i as int));
            reveal(Seq::filter);
            let l = &self.logs[i];
            let keep = same_text(l.project_id.as_str(), project_id) && match &q.level {
                Some(v) => same_text(l.level.as_str(), v.as_str()),
                None => true,
            } && text_filter(&q.trace_id, &l.trace_id) && text_filter(&q.source, &l.source)
                && text_filter(&q.environment, &l.environment);
            if keep {
                matched.push(l);
            }
            i = i + 1;
        }
        assert(self@.subrange(0, self@.len() as int) =~= self@);
        let ghost all = self@.filter(pred);
        let ghost rev = all.reverse();
        let n = matched.len();
        let limit: usize = match q.limit {
            Some(l) => if l <= 100 {
                l as usize
            } else {
                100
            },
            None => 50,
        };
        let offset: usize = match q.offset {
            Some(o) => o as usize,
            None => 0,
        };
        let start: usize = if offset < n {
            offset
        } else {
            n
        };
        let end: usize = if limit < n - start {
            start + limit
        } else {
            n
        };
        let ghost want = log_listing(self@, project_id@, *q);
        assert(want =~= rev.subrange(start as int, end as int));
        let mut out: Vec<Log> = Vec::new();
        let mut k: usize = start;
        while k < end
            invariant
                start <= k <= end <= n,
                n == matched@.len(),
                n == all.len(),
                rev == all.reverse(),
                forall|j: int| 0 <= j < n ==> *(#[trigger] matched@[j]) == all[j],
                out@ == rev.subrange(start as int, k as int),
            decreases end - k,
        {
            let item: &Log = matched[n - 1 - k];
            out.push(item.duplicate());
            assert(rev.subrange(start as int, k + 1) =~= rev.subrange(start as int, k as int).push(
                rev[k as int],
            ));
            k = k + 1;
        }
        out
    }
}

fn text_filter(filter: &Option<String>, field: &Option<String>) -> (r: bool)
    ensures
        r == opt_filter(*filter, *field),
{
    match filter {
        None => true,
        Some(f) => match field {
            Some(v) => same_text(v.as_str(), f.as_str()),
            None => false,
        },
    }
}

/// Stores a log entry of project `project_id` at time `now` under a fresh
/// random identity, after checking its level and message. A `BadRequest`
/// names the first rule broken; `InternalServerError` comes where the
/// identity is taken.
pub fn ingest_log(state: &mut AppState, project_id: &str, data: CreateLog, now: u64) -> (r: Result<
    Log,
    ApiError,
>)
    requires
        old(state).wf(),
    ensures
        final(state).wf(),
        final(state).monitors == old(state).monitors,
        final(state).results == old(state).results,
        final(state).organizations == old(state).organizations,
        final(state).projects == old(state).projects,
        log_error(data) matches Some(msg) ==> r is Err && bad_request_with(r->Err_0, msg)
            && final(state).logs@ == old(state).logs@,
        log_error(data) is None ==> {
            ||| {
                &&& r is Ok
                &&& uuid_text(r->Ok_0.id@)
                &&& r->Ok_0.project_id@ == project_id@
                &&& r->Ok_0.level == data.level
                &&& r->Ok_0.message == data.message
                &&& r->Ok_0.context == data.context
                &&& r->Ok_0.trace_id == data.trace_id
                &&& r->Ok_0.source == data.source
                &&& r->Ok_0.environment == data.environment
                &&& r->Ok_0.created_at == (if now < old(state).logs.clock() {
                    old(state).logs.clock()
                } else {
                    now
                })
                &&& final(state).logs@ == old(state).logs@.push(r->Ok_0)
            }
            ||| {
                &&& r == Err::<Log, ApiError>(ApiError::InternalServerError)
                &&& final(state).logs@ == old(state).logs@
                &&& exists|u: Seq<char>| uuid_text(u) && has_log(old(state).logs@, u)
            }
        },
{
    match validate_log(&data) {
        Err(e) => return Err(e),
        Ok(()) => {},
    }
    let id = uuid_v4();
    let ghost drawn = id@;
    let r = state.logs.insert(id, project_id, data, now);
    proof {
        if r is Err {
            assert(uuid_text(drawn) && has_log(old(state).logs@, drawn));
        }
    }
    r
}

/// The entries of project `project_id` that meet the query's filters,
/// newest first, paged as the query asks (see `LogStore::list`).
pub fn list_logs(state: &AppState, project_id: &str, query: &ListLogsQuery) -> (r: Result<
    Vec<Log>,
    ApiError,
>)
    ensures
        r == Ok::<Vec<Log>, ApiError>(r->Ok_0),
        r->Ok_0@ == log_listing(state.logs@, project_id@, *query),
{
    Ok(state.logs.list(project_id, query))
}

} // verus!
