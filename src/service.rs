use vstd::prelude::*;
use vstd::string::StringExecFns;

use crate::client::Client;
use crate::error::{bad_request, bad_request_with, ApiError};
use crate::logs::{Log, LogStore};
use crate::monitor_store::{has_monitor, in_project, index_of, patched, replaced_at, MonitorStore};
use crate::monitors::{
    create_monitor_error, is_valid_region, keyword_message, keyword_present, opt_text, region_error,
    region_message, resolved_interval, result_error, update_monitor_error, valid_region,
    valid_status, validate_create_monitor, validate_result, validate_update_monitor, CreateMonitor,
    CreateMonitorResult, ListMonitorResultsQuery, Monitor, MonitorResult, MonitorView,
    UpdateMonitor,
};
use crate::organizations::{Organization, OrganizationStore};
use crate::projects::{Project, ProjectStore};
use crate::result_store::{has_result, listing, other_monitor, same_results, stored_result, ResultStore};
use crate::utils::{uuid_text, uuid_v4};

verus! {

/// What the prober is asked to check: the monitor and the region to check
/// it from.
#[derive(Debug, Clone)]
pub struct ProbeRequest {
    pub monitor_id: String,
    pub project_id: String,
    pub name: String,
    pub kind: String,
    pub url: String,
    pub keyword: Option<String>,
    pub region: String,
}

/// The state of the service: where the backing services are, the monitors
/// and their observations.
pub struct AppState {
    pub supabase: Client,
    pub monitors: MonitorStore,
    pub results: ResultStore,
    pub organizations: OrganizationStore,
    pub projects: ProjectStore,
    pub logs: LogStore,
}

/// Every observation belongs to a stored monitor.
pub open spec fn results_owned(ms: Seq<Monitor>, rs: Seq<MonitorResult>) -> bool {
    forall|i: int| 0 <= i < rs.len() ==> has_monitor(ms, (#[trigger] rs[i]).monitor_id@)
}

/// The monitor that creation makes of a valid input.
pub open spec fn new_monitor(
    id: Seq<char>,
    project_id: Seq<char>,
    d: CreateMonitor,
    now: u64,
) -> MonitorView {
    MonitorView {
        id,
        project_id,
        name: d.name@,
        kind: d.kind@,
        url: d.url@,
        keyword: opt_text(d.keyword),
        interval_seconds: resolved_interval(d),
        enabled: match d.enabled {
            Some(e) => e,
            None => true,
        },
        created_at: now,
        updated_at: now,
    }
}

/// The region that a check runs from: the one asked for, else EU.
pub open spec fn check_region(region: Option<&str>) -> Seq<char> {
    match region {
        Some(r) => r@,
        None => "EU"@,
    }
}

pub open spec fn disabled_message() -> Seq<char> {
    "Monitor is disabled"@
}

/// The request that the prober gets for monitor `m` and region `region`.
pub open spec fn probe_of(p: ProbeRequest, m: MonitorView, region: Seq<char>) -> bool {
    &&& p.monitor_id@ == m.id
    &&& p.project_id@ == m.project_id
    &&& p.name@ == m.name
    &&& p.kind@ == m.kind
    &&& p.url@ == m.url
    &&& opt_text(p.keyword) == m.keyword
    &&& p.region@ == region
}

/// The creation time that the result store gives an observation offered at
/// `now`.
pub open spec fn stamp(results: ResultStore, now: u64) -> u64 {
    if now < results.clock() {
        results.clock()
    } else {
        now
    }
}

impl AppState {
    pub open spec fn wf(&self) -> bool {
        &&& self.monitors.wf()
        &&& self.results.wf()
        &&& results_owned(self.monitors@, self.results@)
        &&& self.organizations.wf()
        &&& self.projects.wf()
        &&& self.logs.wf()
    }

    /// A service with no monitor and no observation.
    pub fn new(supabase: Client) -> (r: AppState)
        ensures
            r.wf(),
            r.monitors@ == Seq::<Monitor>::empty(),
            r.results@ == Seq::<MonitorResult>::empty(),
            r.organizations@ == Seq::<Organization>::empty(),
            r.projects@ == Seq::<Project>::empty(),
            r.logs@ == Seq::<Log>::empty(),
    {
        AppState {
            supabase,
            monitors: MonitorStore::new(),
            results: ResultStore::new(),
            organizations: OrganizationStore::new(),
            projects: ProjectStore::new(),
            logs: LogStore::new(),
        }
    }
}

/// The monitors of one project.
pub fn list_monitors(state: &AppState, project_id: &str) -> (r: Result<Vec<Monitor>, ApiError>)
    ensures
        r is Ok,
        r->Ok_0@.len() == state.monitors@.filter(in_project(project_id@)).len(),
        forall|i: int|
            0 <= i < r->Ok_0@.len() ==> (#[trigger] r->Ok_0@[i])@ == state.monitors@.filter(
                in_project(project_id@),
            )[i]@,
{
    Ok(state.monitors.list_by_project(project_id))
}

/// The monitor with identity `id`, or `NotFound`.
pub fn get_monitor(state: &AppState, id: &str) -> (r: Result<Monitor, ApiError>)
    requires
        state.wf(),
    ensures
        has_monitor(state.monitors@, id@) ==> r is Ok && r->Ok_0@ == state.monitors@[index_of(
            state.monitors@,
            id@,
        )]@,
        !has_monitor(state.monitors@, id@) ==> r == Err::<Monitor, ApiError>(ApiError::NotFound),
{
    state.monitors.get(id)
}

proof fn lemma_owned_after_push(ms: Seq<Monitor>, m: Monitor, rs: Seq<MonitorResult>)
    requires
        results_owned(ms, rs),
    ensures
        results_owned(ms.push(m), rs),
{
    assert forall|i: int| 0 <= i < rs.len() implies has_monitor(ms.push(m), (#[trigger] rs[i]).monitor_id@) by {
        let j = choose|j: int| 0 <= j < ms.len() && (#[trigger] ms[j]).id@ == rs[i].monitor_id@;
        assert(ms.push(m)[j] == ms[j]);
    }
}

/// Creates a monitor of project `project_id` under identity `id`, after
/// checking the input against the monitor rules. A `BadRequest` names the
/// first rule broken; `InternalServerError` comes where the identity is
/// taken. Absent fields take their defaults: an interval of 300 seconds,
/// enabled.
pub fn create_monitor_with_id(
    state: &mut AppState,
    id: String,
    project_id: &str,
    data: CreateMonitor,
    now: u64,
) -> (r: Result<Monitor, ApiError>)
    requires
        old(state).wf(),
    ensures
        final(state).wf(),
        final(state).results == old(state).results,
        create_monitor_error(data) matches Some(msg) ==> r is Err && bad_request_with(r->Err_0, msg)
            && final(state).monitors@ == old(state).monitors@,
        create_monitor_error(data) is None && has_monitor(old(state).monitors@, id@) ==> r == Err::<
            Monitor,
            ApiError,
        >(ApiError::InternalServerError) && final(state).monitors@ == old(state).monitors@,
        create_monitor_error(data) is None && !has_monitor(old(state).monitors@, id@) ==> {
            &&& r is Ok
            &&& r->Ok_0@ == new_monitor(id@, project_id@, data, now)
            &&& final(state).monitors@ == old(state).monitors@.push(final(state).monitors@.last())
            &&& final(state).monitors@.last()@ == r->Ok_0@
        },
{
    match validate_create_monitor(&data) {
        Err(e) => return Err(e),
        Ok(()) => {},
    }
    let interval_seconds: i32 = match data.interval_seconds {
        Some(i) => i,
        None => 300,
    };
    let enabled: bool = match data.enabled {
        Some(e) => e,
        None => true,
    };
    let m = Monitor {
        id,
        project_id: String::from_str(project_id),
        name: data.name,
        kind: data.kind,
        url: data.url,
        keyword: data.keyword,
        interval_seconds,
        enabled,
        created_at: now,
        updated_at: now,
    };
    let ghost before = state.monitors@;
    let r = state.monitors.insert(m);
    proof {
        if r is Ok {
            lemma_owned_after_push(before, m, state.results@);
        }
    }
    r
}

/// Creates a monitor of project `project_id` under a fresh random identity,
/// after checking the input against the monitor rules (see
/// `create_monitor_with_id`).
pub fn create_monitor(state: &mut AppState, project_id: &str, data: CreateMonitor, now: u64) -> (r:
    Result<Monitor, ApiError>)
    requires
        old(state).wf(),
    ensures
        final(state).wf(),
        final(state).results == old(state).results,
        create_monitor_error(data) matches Some(msg) ==> r is Err && bad_request_with(r->Err_0, msg)
            && final(state).monitors@ == old(state).monitors@,
        create_monitor_error(data) is None ==> {
            ||| {
                &&& r is Ok
                &&& uuid_text(r->Ok_0.id@)
                &&& r->Ok_0@ == new_monitor(r->Ok_0.id@, project_id@, data, now)
                &&& final(state).monitors@ == old(state).monitors@.push(final(state).monitors@.last())
                &&& final(state).monitors@.last()@ == r->Ok_0@
            }
            ||| {
                &&& r == Err::<Monitor, ApiError>(ApiError::InternalServerError)
                &&& final(state).monitors@ == old(state).monitors@
                &&& exists|u: Seq<char>| uuid_text(u) && has_monitor(old(state).monitors@, u)
            }
        },
{
    match validate_create_monitor(&data) {
        Err(e) => return Err(e),
        Ok(()) => {},
    }
    let id = uuid_v4();
    let ghost drawn = id@;
    let r = create_monitor_with_id(state, id, project_id, data, now);
    proof {
        if r is Err {
            assert(uuid_text(drawn) && has_monitor(old(state).monitors@, drawn));
        }
    }
    r
}

/// Applies a sparse update to the monitor with identity `id` at time `now`,
/// after checking the fields that it holds. A `BadRequest` names the first
/// rule broken, before the monitor is looked up; then `NotFound` where there
/// is no such monitor, and a `BadRequest` where the update would leave a
/// keyword monitor without its keyword.
pub fn update_monitor(state: &mut AppState, id: &str, data: UpdateMonitor, now: u64) -> (r: Result<
    Monitor,
    ApiError,
>)
    requires
        old(state).wf(),
    ensures
        final(state).wf(),
        final(state).results == old(state).results,
        update_monitor_error(data) matches Some(msg) ==> r is Err && bad_request_with(r->Err_0, msg)
            && final(state).monitors@ == old(state).monitors@,
        update_monitor_error(data) is None && !has_monitor(old(state).monitors@, id@) ==> r == Err::<
            Monitor,
            ApiError,
        >(ApiError::NotFound) && final(state).monitors@ == old(state).monitors@,
        update_monitor_error(data) is None && has_monitor(old(state).monitors@, id@) ==> {
            let i = index_of(old(state).monitors@, id@);
            let v = patched(old(state).monitors@[i]@, data, now);
            if keyword_present(v) {
                r is Ok && r->Ok_0@ == v && replaced_at(old(state).monitors@, final(state).monitors@, i, v)
            } else {
                r is Err && bad_request_with(r->Err_0, keyword_message()) && final(state).monitors@
                    == old(state).monitors@
            }
        },
{
    match validate_update_monitor(&data) {
        Err(e) => return Err(e),
        Ok(()) => {},
    }
    let ghost before = state.monitors@;
    let ghost rs = state.results@;
    let r = state.monitors.update(id, data, now);
    proof {
        if r is Ok {
            let k = index_of(before, id@);
            let after = state.monitors@;
            assert forall|i: int| 0 <= i < rs.len() implies has_monitor(after, (#[trigger] rs[i]).monitor_id@) by {
                let j = choose|j: int| 0 <= j < before.len() && (#[trigger] before[j]).id@ == rs[i].monitor_id@;
                if j != k {
                    assert(after[j] == before[j]);
                } else {
                    assert(after[k].id@ == before[k].id@);
                }
            }
        }
    }
    r
}

/// Removes the monitor with identity `id` and all its observations, or
/// reports `NotFound`.
pub fn delete_monitor(state: &mut AppState, id: &str) -> (r: Result<(), ApiError>)
    requires
        old(state).wf(),
    ensures
        final(state).wf(),
        !has_monitor(old(state).monitors@, id@) ==> r == Err::<(), ApiError>(ApiError::NotFound)
            && final(state).monitors@ == old(state).monitors@ && final(state).results
            == old(state).results,
        has_monitor(old(state).monitors@, id@) ==> {
            &&& r is Ok
            &&& final(state).monitors@ == old(state).monitors@.remove(
                index_of(old(state).monitors@, id@),
            )
            &&& same_results(final(state).results@, old(state).results@.filter(other_monitor(id@)))
        },
{
    let ghost ms = state.monitors@;
    let ghost rs = state.results@;
    match state.monitors.delete(id) {
        Err(e) => Err(e),
        Ok(()) => {
            state.results.remove_monitor(id);
            proof {
                let k = index_of(ms, id@);
                let ms2 = state.monitors@;
                let rs2 = state.results@;
                let kept = rs.filter(other_monitor(id@));
                assert forall|i: int| 0 <= i < rs2.len() implies has_monitor(ms2, (#[trigger] rs2[i]).monitor_id@) by {
                    let pred = other_monitor(id@);
                    assert(rs2[i]@ == kept[i]@);
                    rs.lemma_filter_pred(pred, i);
                    assert(kept.contains(kept[i]));
                    rs.lemma_filter_contains_rev(pred, kept[i]);
                    let a = choose|a: int| 0 <= a < rs.len() && rs[a] == kept[i];
                    assert(has_monitor(ms, rs[a].monitor_id@));
                    let j = choose|j: int| 0 <= j < ms.len() && (#[trigger] ms[j]).id@ == rs[a].monitor_id@;
                    assert(ms[k].id@ == id@);
                    assert(j != k);
                    if j < k {
                        assert(ms2[j] == ms[j]);
                    } else {
                        assert(ms2[j - 1] == ms[j]);
                    }
                }
            }
            Ok(())
        },
    }
}

/// Stores an observation of monitor `monitor_id` under identity `id` at time
/// `now`. In this order: a `BadRequest` where the region or the status is
/// unknown, `NotFound` where there is no such monitor, `InternalServerError`
/// where the identity is taken.
pub fn create_monitor_result_with_id(
    state: &mut AppState,
    id: String,
    monitor_id: &str,
    data: CreateMonitorResult,
    now: u64,
) -> (r: Result<MonitorResult, ApiError>)
    requires
        old(state).wf(),
    ensures
        final(state).wf(),
        final(state).monitors == old(state).monitors,
        r is Err ==> final(state).results@ == old(state).results@,
        result_error(data) matches Some(msg) ==> r is Err && bad_request_with(r->Err_0, msg),
        result_error(data) is None && !has_monitor(old(state).monitors@, monitor_id@) ==> r == Err::<
            MonitorResult,
            ApiError,
        >(ApiError::NotFound),
        result_error(data) is None && has_monitor(old(state).monitors@, monitor_id@) && has_result(
            old(state).results@,
            id@,
        ) ==> r == Err::<MonitorResult, ApiError>(ApiError::InternalServerError),
        result_error(data) is None && has_monitor(old(state).monitors@, monitor_id@) && !has_result(
            old(state).results@,
            id@,
        ) ==> {
            &&& r is Ok
            &&& r->Ok_0@ == stored_result(id@, monitor_id@, data, stamp(old(state).results, now))
            &&& final(state).results@ == old(state).results@.push(final(state).results@.last())
            &&& final(state).results@.last()@ == r->Ok_0@
        },
{
    match validate_result(&data) {
        Err(e) => return Err(e),
        Ok(()) => {},
    }
    if !state.monitors.contains_id(monitor_id) {
        return Err(ApiError::NotFound);
    }
    let ghost ms = state.monitors@;
    let ghost rs = state.results@;
    let r = state.results.insert(id, monitor_id, data, now);
    proof {
        let rs2 = state.results@;
        assert forall|i: int| 0 <= i < rs2.len() implies has_monitor(ms, (#[trigger] rs2[i]).monitor_id@) by {
            if i < rs.len() {
                assert(rs2[i] == rs[i]);
            }
        }
    }
    r
}

/// Stores an observation of monitor `monitor_id` under a fresh random
/// identity (see `create_monitor_result_with_id`).
pub fn create_monitor_result(
    state: &mut AppState,
    monitor_id: &str,
    data: CreateMonitorResult,
    now: u64,
) -> (r: Result<MonitorResult, ApiError>)
    requires
        old(state).wf(),
    ensures
        final(state).wf(),
        final(state).monitors == old(state).monitors,
        r is Err ==> final(state).results@ == old(state).results@,
        result_error(data) matches Some(msg) ==> r is Err && bad_request_with(r->Err_0, msg),
        result_error(data) is None && !has_monitor(old(state).monitors@, monitor_id@) ==> r == Err::<
            MonitorResult,
            ApiError,
        >(ApiError::NotFound),
        result_error(data) is None && has_monitor(old(state).monitors@, monitor_id@) ==> {
            ||| {
                &&& r is Ok
                &&& uuid_text(r->Ok_0.id@)
                &&& r->Ok_0@ == stored_result(
                    r->Ok_0.id@,
                    monitor_id@,
                    data,
                    stamp(old(state).results, now),
                )
                &&& final(state).results@ == old(state).results@.push(final(state).results@.last())
                &&& final(state).results@.last()@ == r->Ok_0@
            }
            ||| {
                &&& r == Err::<MonitorResult, ApiError>(ApiError::InternalServerError)
                &&& exists|u: Seq<char>| uuid_text(u) && has_result(old(state).results@, u)
            }
        },
{
    match validate_result(&data) {
        Err(e) => return Err(e),
        Ok(()) => {},
    }
    let id = uuid_v4();
    let ghost drawn = id@;
    let ghost valid = result_error(data) is None;
    let r = create_monitor_result_with_id(state, id, monitor_id, data, now);
    proof {
        if valid && has_monitor(old(state).monitors@, monitor_id@) && r is Err {
            assert(uuid_text(drawn) && has_result(old(state).results@, drawn));
        }
    }
    r
}

/// The observations of monitor `monitor_id` that meet the query's region and
/// status filters, newest first, paged as the query asks (see
/// `ResultStore::list`).
pub fn list_monitor_results(
    state: &AppState,
    monitor_id: &str,
    query: &ListMonitorResultsQuery,
) -> (r: Result<Vec<MonitorResult>, ApiError>)
    ensures
        r is Ok,
        same_results(r->Ok_0@, listing(state.results@, monitor_id@, *query)),
{
    Ok(state.results.list(monitor_id, query))
}

/// The first half of a check: looks the monitor up, refuses a disabled one,
/// resolves the region (EU by default) and checks it, and builds the request
/// that the prober gets. In this order: `NotFound`, then a `BadRequest` for a
/// disabled monitor whatever the region, then a `BadRequest` for an unknown
/// region.
pub fn start_monitor_check(state: &AppState, monitor_id: &str, region: Option<&str>) -> (r: Result<
    ProbeRequest,
    ApiError,
>)
    requires
        state.wf(),
    ensures
        !has_monitor(state.monitors@, monitor_id@) ==> r == Err::<ProbeRequest, ApiError>(
            ApiError::NotFound,
        ),
        has_monitor(state.monitors@, monitor_id@) ==> {
            let m = state.monitors@[index_of(state.monitors@, monitor_id@)]@;
            if !m.enabled {
                r is Err && bad_request_with(r->Err_0, disabled_message())
            } else if !valid_region(check_region(region)) {
                r is Err && bad_request_with(r->Err_0, region_message(check_region(region)))
            } else {
                r is Ok && probe_of(r->Ok_0, m, check_region(region))
            }
        },
{
    let monitor = match state.monitors.get(monitor_id) {
        Ok(m) => m,
        Err(e) => return Err(e),
    };
    if !monitor.enabled {
        return Err(bad_request("Monitor is disabled"));
    }
    let check_region: &str = match region {
        Some(r) => r,
        None => "EU",
    };
    if !is_valid_region(check_region) {
        return Err(region_error(check_region));
    }
    Ok(
        ProbeRequest {
            monitor_id: monitor.id,
            project_id: monitor.project_id,
            name: monitor.name,
            kind: monitor.kind,
            url: monitor.url,
            keyword: monitor.keyword,
            region: String::from_str(check_region),
        },
    )
}

/// The second half of a check: `outcome` is what the prober answered, or
/// `None` where it failed or its answer could not be read, which is an
/// `InternalServerError`. An answer is checked and stored as an offered
/// observation is (see `create_monitor_result`).
pub fn finish_monitor_check(
    state: &mut AppState,
    monitor_id: &str,
    outcome: Option<CreateMonitorResult>,
    now: u64,
) -> (r: Result<MonitorResult, ApiError>)
    requires
        old(state).wf(),
    ensures
        final(state).wf(),
        final(state).monitors == old(state).monitors,
        r is Err ==> final(state).results@ == old(state).results@,
        outcome is None ==> r == Err::<MonitorResult, ApiError>(ApiError::InternalServerError),
        outcome matches Some(data) ==> {
            &&& result_error(data) matches Some(msg) ==> r is Err && bad_request_with(r->Err_0, msg)
            &&& result_error(data) is None && !has_monitor(old(state).monitors@, monitor_id@) ==> r
                == Err::<MonitorResult, ApiError>(ApiError::NotFound)
            &&& result_error(data) is None && has_monitor(old(state).monitors@, monitor_id@) ==> {
                ||| {
                    &&& r is Ok
                    &&& uuid_text(r->Ok_0.id@)
                    &&& r->Ok_0@ == stored_result(
                        r->Ok_0.id@,
                        monitor_id@,
                        data,
                        stamp(old(state).results, now),
                    )
                    &&& final(state).results@ == old(state).results@.push(
                        final(state).results@.last(),
                    )
                    &&& final(state).results@.last()@ == r->Ok_0@
                }
                ||| {
                    &&& r == Err::<MonitorResult, ApiError>(ApiError::InternalServerError)
                    &&& exists|u: Seq<char>| uuid_text(u) && has_result(old(state).results@, u)
                }
            }
        },
{
    match outcome {
        None => Err(ApiError::InternalServerError),
        Some(data) => create_monitor_result(state, monitor_id, data, now),
    }
}

/// A check asked for no region runs from EU; where the prober echoes the
/// region of its request with a known status, the observation that the
/// check stores is from EU.
pub proof fn lemma_default_region(
    p: ProbeRequest,
    m: MonitorView,
    data: CreateMonitorResult,
    id: Seq<char>,
    monitor_id: Seq<char>,
    at: u64,
)
    requires
        probe_of(p, m, check_region(None::<&str>)),
        data.region@ == p.region@,
        valid_status(data.status@),
    ensures
        check_region(None::<&str>) == "EU"@,
        valid_region(check_region(None::<&str>)),
        result_error(data) is None,
        stored_result(id, monitor_id, data, at).region == "EU"@,
{
}

} // verus!
