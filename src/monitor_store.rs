use vstd::prelude::*;

use crate::error::{bad_request, bad_request_with, ApiError};
use crate::monitors::{
    copy_opt_text, keyword_message, keyword_present, monitor_wf, opt_text, update_monitor_error,
    Monitor, MonitorView, UpdateMonitor,
};
use crate::keys::{lemma_unique_push, lemma_unique_remove, lemma_unique_update, unique_keys};
use crate::text::same_text;

verus! {

/// The monitors that the service knows, in the order of their creation.
pub struct MonitorStore {
    monitors: Vec<Monitor>,
}

impl View for MonitorStore {
    type V = Seq<Monitor>;

    closed spec fn view(&self) -> Seq<Monitor> {
        self.monitors@
    }
}

pub open spec fn monitor_key() -> spec_fn(Monitor) -> Seq<char> {
    |m: Monitor| m.id@
}

pub open spec fn ids_unique(s: Seq<Monitor>) -> bool {
    unique_keys(s, monitor_key())
}

pub open spec fn has_monitor(s: Seq<Monitor>, id: Seq<char>) -> bool {
    exists|i: int| 0 <= i < s.len() && (#[trigger] s[i]).id@ == id
}

/// The place of the monitor with identity `id`; meaningful where there is one.
pub open spec fn index_of(s: Seq<Monitor>, id: Seq<char>) -> int {
    choose|i: int| 0 <= i < s.len() && (#[trigger] s[i]).id@ == id
}

pub open spec fn in_project(project_id: Seq<char>) -> spec_fn(Monitor) -> bool {
    |m: Monitor| m.project_id@ == project_id
}

/// A monitor after a sparse update at time `now`: each field that the update
/// holds is replaced, the others are kept.
pub open spec fn patched(m: MonitorView, d: UpdateMonitor, now: u64) -> MonitorView {
    MonitorView {
        id: m.id,
        project_id: m.project_id,
        name: match d.name {
            Some(n) => n@,
            None => m.name,
        },
        kind: match d.kind {
            Some(k) => k@,
            None => m.kind,
        },
        url: match d.url {
            Some(u) => u@,
            None => m.url,
        },
        keyword: match d.keyword {
            Some(k) => opt_text(k),
            None => m.keyword,
        },
        interval_seconds: match d.interval_seconds {
            Some(i) => i,
            None => m.interval_seconds,
        },
        enabled: match d.enabled {
            Some(e) => e,
            None => m.enabled,
        },
        created_at: m.created_at,
        updated_at: now,
    }
}

/// `t` is `s` with the element at `i` replaced by one whose view is `v`.
pub open spec fn replaced_at(s: Seq<Monitor>, t: Seq<Monitor>, i: int, v: MonitorView) -> bool {
    &&& t.len() == s.len()
    &&& t[i]@ == v
    &&& forall|j: int| 0 <= j < s.len() && j != i ==> t[j] == s[j]
}

impl MonitorStore {
    /// Identities are unique and every monitor meets the monitor rules.
    pub open spec fn wf(&self) -> bool {
        &&& ids_unique(self@)
        &&& forall|i: int| 0 <= i < self@.len() ==> monitor_wf((#[trigger] self@[i])@)
    }

    pub fn new() -> (r: MonitorStore)
        ensures
            r.wf(),
            r@ == Seq::<Monitor>::empty(),
    {
        MonitorStore { monitors: Vec::new() }
    }

    fn position(&self, id: &str) -> (r: Option<usize>)
        ensures
            match r {
                Some(i) => i < self@.len() && self@[i as int].id@ == id@,
                None => !has_monitor(self@, id@),
            },
    {
        let mut i: usize = 0;
        while i < self.monitors.len()
            invariant
                i <= self@.len(),
                self@ == self.monitors@,
                forall|j: int| 0 <= j < i ==> (#[trigger] self@[j]).id@ != id@,
            decreases self@.len() - i,
        {
            if same_text(self.monitors[i].id.as_str(), id) {
                return Some(i);
            }
            i = i + 1;
        }
        None
    }

    /// Whether a monitor with identity `id` is stored.
    pub fn contains_id(&self, id: &str) -> (r: bool)
        ensures
            r == has_monitor(self@, id@),
    {
        self.position(id).is_some()
    }

    /// The monitor with identity `id`, or `NotFound`.
    pub fn get(&self, id: &str) -> (r: Result<Monitor, ApiError>)
        requires
            self.wf(),
        ensures
            has_monitor(self@, id@) ==> r is Ok && r->Ok_0@ == self@[index_of(self@, id@)]@,
            !has_monitor(self@, id@) ==> r == Err::<Monitor, ApiError>(ApiError::NotFound),
    {
        match self.position(id) {
            Some(i) => {
                proof {
                    let k = index_of(self@, id@);
                    assert(self@[k].id@ == id@);
                }
                Ok(self.monitors[i].duplicate())
            },
            None => Err(ApiError::NotFound),
        }
    }

    /// The monitors of one project, in the order of their creation.
    pub fn list_by_project(&self, project_id: &str) -> (r: Vec<Monitor>)
        ensures
            r@.len() == self@.filter(in_project(project_id@)).len(),
            forall|i: int| 0 <= i < r@.len() ==> (#[trigger] r@[i])@ == self@.filter(in_project(project_id@))[i]@,
    {
        let ghost pred = in_project(project_id@);
        let mut out: Vec<Monitor> = Vec::new();
        let mut i: usize = 0;
        while i < self.monitors.len()
            invariant
                i <= self@.len(),
                self@ == self.monitors@,
                pred == in_project(project_id@),
                out@.len() == self@.subrange(0, i as int).filter(pred).len(),
                forall|k: int| 0 <= k < out@.len() ==> (#[trigger] out@[k])@ == self@.subrange(0, i as int).filter(pred)[k]@,
            decreases self@.len() - i,
        {
            let ghost before = self@.subrange(0, i as int);
            assert(self@.subrange(0, i + 1).drop_last() =~= before);
            reveal(Seq::filter);
            if same_text(self.monitors[i].project_id.as_str(), project_id) {
                out.push(self.monitors[i].duplicate());
            }
            i = i + 1;
        }
        assert(self@.subrange(0, self@.len() as int) =~= self@);
        out
    }

    /// Adds a monitor under an identity that no stored monitor has;
    /// `InternalServerError` where the identity is taken.
    pub fn insert(&mut self, m: Monitor) -> (r: Result<Monitor, ApiError>)
        requires
            old(self).wf(),
            monitor_wf(m@),
        ensures
            final(self).wf(),
            has_monitor(old(self)@, m.id@) ==> r == Err::<Monitor, ApiError>(ApiError::InternalServerError)
                && final(self)@ == old(self)@,
            !has_monitor(old(self)@, m.id@) ==> r is Ok && r->Ok_0@ == m@ && final(self)@ == old(self)@.push(m),
    {
        if self.contains_id(m.id.as_str()) {
            return Err(ApiError::InternalServerError);
        }
        let copy = m.duplicate();
        self.monitors.push(m);
        proof {
            assert(self@ == old(self)@.push(m));
            lemma_unique_push(old(self)@, m, monitor_key());
        }
        Ok(copy)
    }

    /// Applies a sparse update to the monitor with identity `id`, stamping
    /// it with `now`. `NotFound` where there is none; a `BadRequest` where
    /// the updated monitor would be a keyword monitor without a keyword.
    pub fn update(&mut self, id: &str, d: UpdateMonitor, now: u64) -> (r: Result<Monitor, ApiError>)
        requires
            old(self).wf(),
            update_monitor_error(d) is None,
        ensures
            final(self).wf(),
            !has_monitor(old(self)@, id@) ==> r == Err::<Monitor, ApiError>(ApiError::NotFound)
                && final(self)@ == old(self)@,
            has_monitor(old(self)@, id@) ==> {
                let i = index_of(old(self)@, id@);
                let v = patched(old(self)@[i]@, d, now);
                if keyword_present(v) {
                    r is Ok && r->Ok_0@ == v && replaced_at(old(self)@, final(self)@, i, v)
                } else {
                    r is Err && bad_request_with(r->Err_0, keyword_message()) && final(self)@ == old(self)@
                }
            },
    {
        let i = match self.position(id) {
            Some(i) => i,
            None => return Err(ApiError::NotFound),
        };
        let ghost k = index_of(old(self)@, id@);
        assert(k == i as int);
        let ghost v = patched(old(self)@[k]@, d, now);
        let cur = &self.monitors[i];
        let name = match d.name {
            Some(n) => n,
            None => cur.name.clone(),
        };
        let kind = match d.kind {
            Some(k) => k,
            None => cur.kind.clone(),
        };
        let url = match d.url {
            Some(u) => u,
            None => cur.url.clone(),
        };
        let keyword = match d.keyword {
            Some(k) => k,
            None => copy_opt_text(&cur.keyword),
        };
        let interval_seconds = match d.interval_seconds {
            Some(s) => s,
            None => cur.interval_seconds,
        };
        let enabled = match d.enabled {
            Some(e) => e,
            None => cur.enabled,
        };
        let m = Monitor {
            id: cur.id.clone(),
            project_id: cur.project_id.clone(),
            name,
            kind,
            url,
            keyword,
            interval_seconds,
            enabled,
            created_at: cur.created_at,
            updated_at: now,
        };
        assert(m@ == v);
        if same_text(m.kind.as_str(), "keyword") && m.keyword.is_none() {
            return Err(bad_request("Keyword is required for keyword monitoring"));
        }
        let copy = m.duplicate();
        self.monitors.set(i, m);
        proof {
            assert(self@ == old(self)@.update(k, self@[k]));
            lemma_unique_update(old(self)@, k, self@[k], monitor_key());
            assert forall|a: int| 0 <= a < self@.len() implies monitor_wf((#[trigger] self@[a])@) by {
                if a != k {
                    assert(self@[a] == old(self)@[a]);
                }
            }
        }
        Ok(copy)
    }

    /// Removes the monitor with identity `id`, or reports `NotFound`.
    pub fn delete(&mut self, id: &str) -> (r: Result<(), ApiError>)
        requires
            old(self).wf(),
        ensures
            final(self).wf(),
            !has_monitor(old(self)@, id@) ==> r == Err::<(), ApiError>(ApiError::NotFound) && final(self)@
                == old(self)@,
            has_monitor(old(self)@, id@) ==> r is Ok && final(self)@ == old(self)@.remove(
                index_of(old(self)@, id@),
            ),
    {
        match self.position(id) {
            Some(i) => {
                let ghost k = index_of(old(self)@, id@);
                assert(k == i as int);
                self.monitors.remove(i);
                proof {
                    lemma_unique_remove(old(self)@, k, monitor_key());
                    assert forall|a: int| 0 <= a < self@.len() implies monitor_wf(
                        (#[trigger] self@[a])@,
                    ) by {
                        let oa = if a < k { a } else { a + 1 };
                        assert(self@[a] == old(self)@[oa]);
                    }
                }
                Ok(())
            },
            None => Err(ApiError::NotFound),
        }
    }
}

/// A sparse update that only disables a monitor keeps its name, kind, url,
/// interval and keyword, sets `enabled` to false, and passes the update
/// checks of a monitor that met them before.
pub proof fn lemma_disable_keeps_fields(m: MonitorView, d: UpdateMonitor, now: u64)
    requires
        d.name is None,
        d.kind is None,
        d.url is None,
        d.keyword is None,
        d.interval_seconds is None,
        d.enabled == Some(false),
    ensures
        update_monitor_error(d) is None,
        patched(m, d, now).name == m.name,
        patched(m, d, now).kind == m.kind,
        patched(m, d, now).url == m.url,
        patched(m, d, now).interval_seconds == m.interval_seconds,
        patched(m, d, now).keyword == m.keyword,
        !patched(m, d, now).enabled,
        keyword_present(m) ==> keyword_present(patched(m, d, now)),
{
}

} // verus!
