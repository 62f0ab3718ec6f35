use vstd::prelude::*;
use vstd::string::StringExecFns;

use crate::error::{bad_request, bad_request_with, ApiError};
use crate::text::{blank, is_blank, same_text};

verus! {

/// A checkable target, as the store holds it.
#[derive(Debug, Clone)]
pub struct Monitor {
    pub id: String,
    pub project_id: String,
    pub name: String,
    pub kind: String,
    pub url: String,
    pub keyword: Option<String>,
    pub interval_seconds: i32,
    pub enabled: bool,
    /// Milliseconds since the Unix epoch.
    pub created_at: u64,
    /// Milliseconds since the Unix epoch.
    pub updated_at: u64,
}

/// One observation of a monitor, as the store holds it.
#[derive(Debug, Clone)]
pub struct MonitorResult {
    pub id: String,
    pub monitor_id: String,
    pub region: String,
    pub status: String,
    pub response_time_ms: Option<i32>,
    pub http_status: Option<i32>,
    pub ssl_valid: Option<bool>,
    pub ssl_expires_at: Option<String>,
    pub error_message: Option<String>,
    /// Milliseconds since the Unix epoch, assigned by the store.
    pub created_at: u64,
}

/// The input of monitor creation.
#[derive(Debug, Clone)]
pub struct CreateMonitor {
    pub name: String,
    pub kind: String,
    pub url: String,
    pub keyword: Option<String>,
    pub interval_seconds: Option<i32>,
    pub enabled: Option<bool>,
}

/// A sparse update of a monitor: `None` leaves a field as it is.
///
/// `keyword` has three states: `None` leaves it, `Some(None)` clears it and
/// `Some(Some(k))` sets it.
#[derive(Debug, Clone)]
pub struct UpdateMonitor {
    pub name: Option<String>,
    pub kind: Option<String>,
    pub url: Option<String>,
    pub keyword: Option<Option<String>>,
    pub interval_seconds: Option<i32>,
    pub enabled: Option<bool>,
}

/// An observation offered for storage, by a caller or by the prober.
#[derive(Debug, Clone)]
pub struct CreateMonitorResult {
    pub region: String,
    pub status: String,
    pub response_time_ms: Option<i32>,
    pub http_status: Option<i32>,
    pub ssl_valid: Option<bool>,
    pub ssl_expires_at: Option<String>,
    pub error_message: Option<String>,
}

/// Filters and page of a listing of results.
#[derive(Debug, Clone)]
pub struct ListMonitorResultsQuery {
    pub region: Option<String>,
    pub status: Option<String>,
    pub limit: Option<u32>,
    pub offset: Option<u32>,
}

/// The region asked for by a check.
#[derive(Debug, Clone)]
pub struct CheckMonitorRequest {
    pub region: Option<String>,
}

/// What a monitor holds, with texts as character sequences.
pub struct MonitorView {
    pub id: Seq<char>,
    pub project_id: Seq<char>,
    pub name: Seq<char>,
    pub kind: Seq<char>,
    pub url: Seq<char>,
    pub keyword: Option<Seq<char>>,
    pub interval_seconds: i32,
    pub enabled: bool,
    pub created_at: u64,
    pub updated_at: u64,
}

/// What an observation holds, with texts as character sequences.
pub struct ResultView {
    pub id: Seq<char>,
    pub monitor_id: Seq<char>,
    pub region: Seq<char>,
    pub status: Seq<char>,
    pub response_time_ms: Option<i32>,
    pub http_status: Option<i32>,
    pub ssl_valid: Option<bool>,
    pub ssl_expires_at: Option<Seq<char>>,
    pub error_message: Option<Seq<char>>,
    pub created_at: u64,
}

pub open spec fn opt_text(o: Option<String>) -> Option<Seq<char>> {
    match o {
        Some(s) => Some(s@),
        None => None,
    }
}

impl View for Monitor {
    type V = MonitorView;

    open spec fn view(&self) -> MonitorView {
        MonitorView {
            id: self.id@,
            project_id: self.project_id@,
            name: self.name@,
            kind: self.kind@,
            url: self.url@,
            keyword: opt_text(self.keyword),
            interval_seconds: self.interval_seconds,
            enabled: self.enabled,
            created_at: self.created_at,
            updated_at: self.updated_at,
        }
    }
}

impl View for MonitorResult {
    type V = ResultView;

    open spec fn view(&self) -> ResultView {
        ResultView {
            id: self.id@,
            monitor_id: self.monitor_id@,
            region: self.region@,
            status: self.status@,
            response_time_ms: self.response_time_ms,
            http_status: self.http_status,
            ssl_valid: self.ssl_valid,
            ssl_expires_at: opt_text(self.ssl_expires_at),
            error_message: opt_text(self.error_message),
            created_at: self.created_at,
        }
    }
}

pub fn copy_opt_text(o: &Option<String>) -> (r: Option<String>)
    ensures
        opt_text(r) == opt_text(*o),
{
    match o {
        Some(s) => Some(s.clone()),
        None => None,
    }
}

impl Monitor {
    /// A copy of the monitor, field for field.
    pub fn duplicate(&self) -> (r: Monitor)
        ensures
            r@ == self@,
    {
        Monitor {
            id: self.id.clone(),
            project_id: self.project_id.clone(),
            name: self.name.clone(),
            kind: self.kind.clone(),
            url: self.url.clone(),
            keyword: copy_opt_text(&self.keyword),
            interval_seconds: self.interval_seconds,
            enabled: self.enabled,
            created_at: self.created_at,
            updated_at: self.updated_at,
        }
    }
}

impl MonitorResult {
    /// A copy of the observation, field for field.
    pub fn duplicate(&self) -> (r: MonitorResult)
        ensures
            r@ == self@,
    {
        MonitorResult {
            id: self.id.clone(),
            monitor_id: self.monitor_id.clone(),
            region: self.region.clone(),
            status: self.status.clone(),
            response_time_ms: self.response_time_ms,
            http_status: self.http_status,
            ssl_valid: self.ssl_valid,
            ssl_expires_at: copy_opt_text(&self.ssl_expires_at),
            error_message: copy_opt_text(&self.error_message),
            created_at: self.created_at,
        }
    }
}

pub open spec fn valid_kind(k: Seq<char>) -> bool {
    k == "http"@ || k == "https"@ || k == "ssl"@ || k == "keyword"@
}

pub open spec fn valid_region(r: Seq<char>) -> bool {
    r == "EU"@ || r == "US"@ || r == "ASIA"@
}

pub open spec fn valid_status(s: Seq<char>) -> bool {
    s == "up"@ || s == "down"@ || s == "degraded"@
}

pub open spec fn kind_message(k: Seq<char>) -> Seq<char> {
    "Invalid kind: "@ + k + ". Must be one of: [\"http\", \"https\", \"ssl\", \"keyword\"]"@
}

pub open spec fn region_message(r: Seq<char>) -> Seq<char> {
    "Invalid region: "@ + r + ". Must be one of: [\"EU\", \"US\", \"ASIA\"]"@
}

pub open spec fn status_message(s: Seq<char>) -> Seq<char> {
    "Invalid status: "@ + s + ". Must be one of: [\"up\", \"down\", \"degraded\"]"@
}

pub open spec fn name_message() -> Seq<char> {
    "Monitor name cannot be empty"@
}

pub open spec fn url_message() -> Seq<char> {
    "Monitor URL cannot be empty"@
}

pub open spec fn keyword_message() -> Seq<char> {
    "Keyword is required for keyword monitoring"@
}

pub open spec fn interval_message() -> Seq<char> {
    "Interval must be at least 60 seconds"@
}

/// The interval of a new monitor: the one given, else 300 seconds.
pub open spec fn resolved_interval(d: CreateMonitor) -> i32 {
    match d.interval_seconds {
        Some(i) => i,
        None => 300,
    }
}

/// The first rule that a creation input breaks, if any, by its message.
pub open spec fn create_monitor_error(d: CreateMonitor) -> Option<Seq<char>> {
    if !valid_kind(d.kind@) {
        Some(kind_message(d.kind@))
    } else if blank(d.name@) {
        Some(name_message())
    } else if blank(d.url@) {
        Some(url_message())
    } else if d.kind@ == "keyword"@ && d.keyword is None {
        Some(keyword_message())
    } else if resolved_interval(d) < 60 {
        Some(interval_message())
    } else {
        None
    }
}

/// The first rule that a sparse update breaks, if any, by its message.
/// Only the fields that the update holds are checked.
pub open spec fn update_monitor_error(d: UpdateMonitor) -> Option<Seq<char>> {
    if d.name is Some && blank(d.name->Some_0@) {
        Some(name_message())
    } else if d.url is Some && blank(d.url->Some_0@) {
        Some(url_message())
    } else if d.kind is Some && !valid_kind(d.kind->Some_0@) {
        Some(kind_message(d.kind->Some_0@))
    } else if d.interval_seconds is Some && d.interval_seconds->Some_0 < 60 {
        Some(interval_message())
    } else {
        None
    }
}

/// The first rule that an offered observation breaks, if any, by its message.
pub open spec fn result_error(d: CreateMonitorResult) -> Option<Seq<char>> {
    if !valid_region(d.region@) {
        Some(region_message(d.region@))
    } else if !valid_status(d.status@) {
        Some(status_message(d.status@))
    } else {
        None
    }
}

/// The rules that every stored monitor meets.
pub open spec fn monitor_wf(m: MonitorView) -> bool {
    &&& valid_kind(m.kind)
    &&& !blank(m.name)
    &&& !blank(m.url)
    &&& keyword_present(m)
    &&& m.interval_seconds >= 60
}

/// A keyword monitor names its keyword.
pub open spec fn keyword_present(m: MonitorView) -> bool {
    m.kind == "keyword"@ ==> m.keyword is Some
}

/// How a validation outcome answers for the first broken rule `err`.
pub open spec fn answers(r: Result<(), ApiError>, err: Option<Seq<char>>) -> bool {
    match err {
        None => r is Ok,
        Some(msg) => r is Err && bad_request_with(r->Err_0, msg),
    }
}

pub fn is_valid_kind(k: &str) -> (r: bool)
    ensures
        r == valid_kind(k@),
{
    same_text(k, "http") || same_text(k, "https") || same_text(k, "ssl") || same_text(k, "keyword")
}

pub fn is_valid_region(r: &str) -> (b: bool)
    ensures
        b == valid_region(r@),
{
    same_text(r, "EU") || same_text(r, "US") || same_text(r, "ASIA")
}

pub fn is_valid_status(s: &str) -> (r: bool)
    ensures
        r == valid_status(s@),
{
    same_text(s, "up") || same_text(s, "down") || same_text(s, "degraded")
}

fn kind_error(k: &str) -> (r: ApiError)
    ensures
        bad_request_with(r, kind_message(k@)),
{
    let m = String::from_str("Invalid kind: ").concat(k).concat(
        ". Must be one of: [\"http\", \"https\", \"ssl\", \"keyword\"]",
    );
    ApiError::BadRequest(m)
}

pub fn region_error(r: &str) -> (e: ApiError)
    ensures
        bad_request_with(e, region_message(r@)),
{
    let m = String::from_str("Invalid region: ").concat(r).concat(
        ". Must be one of: [\"EU\", \"US\", \"ASIA\"]",
    );
    ApiError::BadRequest(m)
}

fn status_error(s: &str) -> (r: ApiError)
    ensures
        bad_request_with(r, status_message(s@)),
{
    let m = String::from_str("Invalid status: ").concat(s).concat(
        ". Must be one of: [\"up\", \"down\", \"degraded\"]",
    );
    ApiError::BadRequest(m)
}

/// Checks a creation input against the monitor rules, in the order kind,
/// name, url, keyword, interval, and reports the first one broken.
pub fn validate_create_monitor(d: &CreateMonitor) -> (r: Result<(), ApiError>)
    ensures
        answers(r, create_monitor_error(*d)),
{
    if !is_valid_kind(d.kind.as_str()) {
        return Err(kind_error(d.kind.as_str()));
    }
    if is_blank(d.name.as_str()) {
        return Err(bad_request("Monitor name cannot be empty"));
    }
    if is_blank(d.url.as_str()) {
        return Err(bad_request("Monitor URL cannot be empty"));
    }
    if same_text(d.kind.as_str(), "keyword") && d.keyword.is_none() {
        return Err(bad_request("Keyword is required for keyword monitoring"));
    }
    let interval: i32 = match d.interval_seconds {
        Some(i) => i,
        None => 300,
    };
    if interval < 60 {
        return Err(bad_request("Interval must be at least 60 seconds"));
    }
    Ok(())
}

/// Checks the fields that a sparse update holds, in the order name, url,
/// kind, interval, and reports the first rule broken.
pub fn validate_update_monitor(d: &UpdateMonitor) -> (r: Result<(), ApiError>)
    ensures
        answers(r, update_monitor_error(*d)),
{
    if let Some(name) = &d.name {
        if is_blank(name.as_str()) {
            return Err(bad_request("Monitor name cannot be empty"));
        }
    }
    if let Some(url) = &d.url {
        if is_blank(url.as_str()) {
            return Err(bad_request("Monitor URL cannot be empty"));
        }
    }
    if let Some(kind) = &d.kind {
        if !is_valid_kind(kind.as_str()) {
            return Err(kind_error(kind.as_str()));
        }
    }
    if let Some(interval) = d.interval_seconds {
        if interval < 60 {
            return Err(bad_request("Interval must be at least 60 seconds"));
        }
    }
    Ok(())
}

/// Checks that an observation names a known region and a known status.
pub fn validate_result(d: &CreateMonitorResult) -> (r: Result<(), ApiError>)
    ensures
        answers(r, result_error(*d)),
{
    if !is_valid_region(d.region.as_str()) {
        return Err(region_error(d.region.as_str()));
    }
    if !is_valid_status(d.status.as_str()) {
        return Err(status_error(d.status.as_str()));
    }
    Ok(())
}

/// A keyword monitor without a keyword is refused.
pub proof fn lemma_keyword_required(d: CreateMonitor)
    requires
        d.kind@ == "keyword"@,
        d.keyword is None,
    ensures
        create_monitor_error(d) is Some,
{
}

/// An interval under 60 seconds is refused, whatever the other fields hold.
pub proof fn lemma_interval_below_floor(d: CreateMonitor)
    requires
        d.interval_seconds matches Some(i) && i < 60,
    ensures
        create_monitor_error(d) is Some,
{
}

/// An interval of exactly 60 seconds is accepted where the other fields are.
pub proof fn lemma_interval_at_floor(d: CreateMonitor)
    requires
        d.interval_seconds == Some(60i32),
        valid_kind(d.kind@),
        !blank(d.name@),
        !blank(d.url@),
        d.kind@ == "keyword"@ ==> d.keyword is Some,
    ensures
        create_monitor_error(d) is None,
{
}

/// A name or a URL that is empty or only white space is refused.
pub proof fn lemma_blank_name_or_url(d: CreateMonitor)
    requires
        blank(d.name@) || blank(d.url@),
    ensures
        create_monitor_error(d) is Some,
{
}

/// An observation is accepted exactly when its region is one of EU, US, ASIA
/// and its status one of up, down, degraded.
pub proof fn lemma_result_accepted(d: CreateMonitorResult)
    ensures
        result_error(d) is None <==> valid_region(d.region@) && valid_status(d.status@),
{
}

} // verus!
