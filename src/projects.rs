use vstd::prelude::*;

use vstd::string::StringExecFns;

use crate::error::{bad_request, bad_request_with, ApiError};
use crate::monitors::{copy_opt_text, opt_text};
use crate::organizations::fresh_slug;
use crate::service::AppState;
use crate::slug::unique_slug;
use crate::keys::{lemma_unique_push, lemma_unique_remove, lemma_unique_update, unique_keys};
use crate::text::{blank, is_blank, same_text};
use crate::utils::{uuid_text, uuid_v4};

verus! {

#[derive(Debug, Clone)]
pub struct Project {
    pub id: String,
    pub organization_id: String,
    pub name: String,
    pub slug: String,
    pub description: Option<String>,
    pub created_by: String,
    /// Milliseconds since the Unix epoch.
    pub created_at: u64,
    /// Milliseconds since the Unix epoch.
    pub updated_at: u64,
}

#[derive(Debug, Clone)]
pub struct CreateProject {
    pub name: String,
    pub description: Option<String>,
}

#[derive(Debug, Clone)]
pub struct UpdateProject {
    pub name: Option<String>,
    pub description: Option<String>,
}

pub open spec fn project_name_message() -> Seq<char> {
    "Project name cannot be empty"@
}

/// Refuses a project whose name is empty or only white space.
pub fn validate_create_project(d: &CreateProject) -> (r: Result<(), ApiError>)
    ensures
        blank(d.name@) ==> r is Err && bad_request_with(r->Err_0, project_name_message()),
        !blank(d.name@) ==> r is Ok,
{
    if is_blank(d.name.as_str()) {
        return Err(bad_request("Project name cannot be empty"));
    }
    Ok(())
}

/// Refuses an update that sets a name that is empty or only white space.
pub fn validate_update_project(d: &UpdateProject) -> (r: Result<(), ApiError>)
    ensures
        (d.name matches Some(n) && blank(n@)) ==> r is Err && bad_request_with(
            r->Err_0,
            project_name_message(),
        ),
        !(d.name matches Some(n) && blank(n@)) ==> r is Ok,
{
    if let Some(name) = &d.name {
        if is_blank(name.as_str()) {
            return Err(bad_request("Project name cannot be empty"));
        }
    }
    Ok(())
}

impl Project {
    /// A copy of the project, field for field.
    pub fn duplicate(&self) -> (r: Project)
        ensures
            r == *self,
    {
        Project {
            id: self.id.clone(),
            organization_id: self.organization_id.clone(),
            name: self.name.clone(),
            slug: self.slug.clone(),
            description: match &self.description {
                Some(d) => Some(d.clone()),
                None => None,
            },
            created_by: self.created_by.clone(),
            created_at: self.created_at,
            updated_at: self.updated_at,
        }
    }
}

pub open spec fn project_key() -> spec_fn(Project) -> Seq<char> {
    |p: Project| p.id@
}

pub open spec fn project_ids_unique(s: Seq<Project>) -> bool {
    unique_keys(s, project_key())
}

pub open spec fn has_project(s: Seq<Project>, id: Seq<char>) -> bool {
    exists|i: int| 0 <= i < s.len() && (#[trigger] s[i]).id@ == id
}

/// The place of the project with identity `id`; meaningful where there is
/// one.
pub open spec fn project_index(s: Seq<Project>, id: Seq<char>) -> int {
    choose|i: int| 0 <= i < s.len() && (#[trigger] s[i]).id@ == id
}

pub open spec fn in_organization(organization_id: Seq<char>) -> spec_fn(Project) -> bool {
    |p: Project| p.organization_id@ == organization_id
}

/// The projects, in the order of their creation.
pub struct ProjectStore {
    projects: Vec<Project>,
}

impl View for ProjectStore {
    type V = Seq<Project>;

    closed spec fn view(&self) -> Seq<Project> {
        self.projects@
    }
}

impl ProjectStore {
    pub open spec fn wf(&self) -> bool {
        project_ids_unique(self@)
    }

    pub fn new() -> (r: ProjectStore)
        ensures
            r.wf(),
            r@ == Seq::<Project>::empty(),
    {
        ProjectStore { projects: Vec::new() }
    }

    fn position(&self, id: &str) -> (r: Option<usize>)
        ensures
            match r {
                Some(i) => i < self@.len() && self@[i as int].id@ == id@,
                None => !has_project(self@, id@),
            },
    {
        let mut i: usize = 0;
        while i < self.projects.len()
            invariant
                i <= self@.len(),
                self@ == self.projects@,
                forall|j: int| 0 <= j < i ==> (#[trigger] self@[j]).id@ != id@,
            decreases self@.len() - i,
        {
            if same_text(self.projects[i].id.as_str(), id) {
                return Some(i);
            }
            i = i + 1;
        }
        None
    }

    /// The projects of one organization, in the order of their creation.
    pub fn list_by_org(&self, organization_id: &str) -> (r: Vec<Project>)
        ensures
            r@ == self@.filter(in_organization(organization_id@)),
    {
        let ghost pred = in_organization(organization_id@);
        let mut out: Vec<Project> = Vec::new();
        let mut i: usize = 0;
        while i < self.projects.len()
            invariant
                i <= self@.len(),
                self@ == self.projects@,
                pred == in_organization(organization_id@),
                out@ == self@.subrange(0, i as int).filter(pred),
            decreases self@.len() - i,
        {
            assert(self@.subrange(0, i + 1).drop_last() =~= self@.subrange(0, i as int));
            reveal(Seq::filter);
            if same_text(self.projects[i].organization_id.as_str(), organization_id) {
                out.push(self.projects[i].duplicate());
            }
            i = i + 1;
        }
        assert(self@.subrange(0, self@.len() as int) =~= self@);
        out
    }

    /// The project with identity `id`, or `NotFound`.
    pub fn get(&self, id: &str) -> (r: Result<Project, ApiError>)
        requires
            self.wf(),
        ensures
            has_project(self@, id@) ==> r == Ok::<Project, ApiError>(self@[project_index(self@, id@)]),
            !has_project(self@, id@) ==> r == Err::<Project, ApiError>(ApiError::NotFound),
    {
        match self.position(id) {
            Some(i) => {
                proof {
                    let k = project_index(self@, id@);
                    assert(self@[k].id@ == id@);
                }
                Ok(self.projects[i].duplicate())
            },
            None => Err(ApiError::NotFound),
        }
    }

    /// Adds a project under an identity that no stored one has;
    /// `InternalServerError` where the identity is taken.
    pub fn insert(&mut self, p: Project) -> (r: Result<Project, ApiError>)
        requires
            old(self).wf(),
        ensures
            final(self).wf(),
            has_project(old(self)@, p.id@) ==> r == Err::<Project, ApiError>(
                ApiError::InternalServerError,
            ) && final(self)@ == old(self)@,
            !has_project(old(self)@, p.id@) ==> r == Ok::<Project, ApiError>(p) && final(self)@ == old(
                self,
            )@.push(p),
    {
        if self.position(p.id.as_str()).is_some() {
            return Err(ApiError::InternalServerError);
        }
        let copy = p.duplicate();
        self.projects.push(p);
        proof {
            lemma_unique_push(old(self)@, self@.last(), project_key());
        }
        Ok(copy)
    }

    /// Replaces the name and the description of the project with identity
    /// `id` where given, and stamps it with `now`; `NotFound` where there is
    /// none.
    pub fn update(
        &mut self,
        id: &str,
        name: Option<String>,
        description: Option<String>,
        now: u64,
    ) -> (r: Result<Project, ApiError>)
        requires
            old(self).wf(),
        ensures
            final(self).wf(),
            !has_project(old(self)@, id@) ==> r == Err::<Project, ApiError>(ApiError::NotFound)
                && final(self)@ == old(self)@,
            has_project(old(self)@, id@) ==> {
                let i = project_index(old(self)@, id@);
                let o = old(self)@[i];
                &&& r is Ok
                &&& r->Ok_0.id == o.id
                &&& r->Ok_0.organization_id == o.organization_id
                &&& r->Ok_0.slug == o.slug
                &&& r->Ok_0.created_by == o.created_by
                &&& r->Ok_0.created_at == o.created_at
                &&& r->Ok_0.name@ == (match name {
                    Some(n) => n@,
                    None => o.name@,
                })
                &&& opt_text(r->Ok_0.description) == (match description {
                    Some(d) => Some(d@),
                    None => opt_text(o.description),
                })
                &&& r->Ok_0.updated_at == now
                &&& final(self)@ == old(self)@.update(i, r->Ok_0)
            },
    {
        let i = match self.position(id) {
            Some(i) => i,
            None => return Err(ApiError::NotFound),
        };
        let ghost k = project_index(old(self)@, id@);
        assert(k == i as int);
        let cur = &self.projects[i];
        let new_name = match name {
            Some(n) => n,
            None => cur.name.clone(),
        };
        let new_description = match description {
            Some(d) => Some(d),
            None => copy_opt_text(&cur.description),
        };
        let p = Project {
            id: cur.id.clone(),
            organization_id: cur.organization_id.clone(),
            name: new_name,
            slug: cur.slug.clone(),
            description: new_description,
            created_by: cur.created_by.clone(),
            created_at: cur.created_at,
            updated_at: now,
        };
        let copy = p.duplicate();
        self.projects.set(i, p);
        proof {
            assert(self@ == old(self)@.update(k, self@[k]));
            lemma_unique_update(old(self)@, k, self@[k], project_key());
        }
        Ok(copy)
    }

    /// Removes the project with identity `id`, or reports `NotFound`.
    pub fn delete(&mut self, id: &str) -> (r: Result<(), ApiError>)
        requires
            old(self).wf(),
        ensures
            final(self).wf(),
            !has_project(old(self)@, id@) ==> r == Err::<(), ApiError>(ApiError::NotFound)
                && final(self)@ == old(self)@,
            has_project(old(self)@, id@) ==> r is Ok && final(self)@ == old(self)@.remove(
                project_index(old(self)@, id@),
            ),
    {
        match self.position(id) {
            Some(i) => {
                let ghost k = project_index(old(self)@, id@);
                assert(k == i as int);
                self.projects.remove(i);
                proof {
                    lemma_unique_remove(old(self)@, k, project_key());
                }
                Ok(())
            },
            None => Err(ApiError::NotFound),
        }
    }
}

/// The projects of one organization.
pub fn list_projects(state: &AppState, organization_id: &str) -> (r: Result<Vec<Project>, ApiError>)
    ensures
        r == Ok::<Vec<Project>, ApiError>(r->Ok_0),
        r->Ok_0@ == state.projects@.filter(in_organization(organization_id@)),
{
    Ok(state.projects.list_by_org(organization_id))
}

/// The project with identity `id`, or `NotFound`.
pub fn get_project(state: &AppState, id: &str) -> (r: Result<Project, ApiError>)
    requires
        state.wf(),
    ensures
        has_project(state.projects@, id@) ==> r == Ok::<Project, ApiError>(
            state.projects@[project_index(state.projects@, id@)],
        ),
        !has_project(state.projects@, id@) ==> r == Err::<Project, ApiError>(ApiError::NotFound),
{
    state.projects.get(id)
}

/// Creates a project of organization `organization_id` made by `user_id`,
/// after refusing a blank name. It gets a fresh random identity and a slug
/// made unique by a random suffix; `InternalServerError` where the identity
/// is taken.
pub fn create_project(
    state: &mut AppState,
    organization_id: &str,
    data: CreateProject,
    user_id: &str,
    now: u64,
) -> (r: Result<Project, ApiError>)
    requires
        old(state).wf(),
    ensures
        final(state).wf(),
        final(state).monitors == old(state).monitors,
        final(state).results == old(state).results,
        final(state).organizations == old(state).organizations,
        final(state).logs == old(state).logs,
        blank(data.name@) ==> r is Err && bad_request_with(r->Err_0, project_name_message())
            && final(state).projects@ == old(state).projects@,
        !blank(data.name@) ==> {
            ||| {
                &&& r is Ok
                &&& uuid_text(r->Ok_0.id@)
                &&& r->Ok_0.organization_id@ == organization_id@
                &&& r->Ok_0.name@ == data.name@
                &&& fresh_slug(r->Ok_0.slug@, data.name@)
                &&& opt_text(r->Ok_0.description) == opt_text(data.description)
                &&& r->Ok_0.created_by@ == user_id@
                &&& r->Ok_0.created_at == now
                &&& r->Ok_0.updated_at == now
                &&& final(state).projects@ == old(state).projects@.push(r->Ok_0)
            }
            ||| {
                &&& r == Err::<Project, ApiError>(ApiError::InternalServerError)
                &&& final(state).projects@ == old(state).projects@
                &&& exists|u: Seq<char>| uuid_text(u) && has_project(old(state).projects@, u)
            }
        },
{
    match validate_create_project(&data) {
        Err(e) => return Err(e),
        Ok(()) => {},
    }
    let id = uuid_v4();
    let ghost drawn = id@;
    let slug = unique_slug(data.name.as_str());
    let p = Project {
        id,
        organization_id: String::from_str(organization_id),
        name: data.name,
        slug,
        description: data.description,
        created_by: String::from_str(user_id),
        created_at: now,
        updated_at: now,
    };
    let r = state.projects.insert(p);
    proof {
        if r is Err {
            assert(uuid_text(drawn) && has_project(old(state).projects@, drawn));
        }
    }
    r
}

/// Replaces the name and the description of the project with identity `id`
/// where given, at time `now`, after refusing a blank name; `NotFound` where
/// there is none.
pub fn update_project(state: &mut AppState, id: &str, data: UpdateProject, now: u64) -> (r: Result<
    Project,
    ApiError,
>)
    requires
        old(state).wf(),
    ensures
        final(state).wf(),
        final(state).monitors == old(state).monitors,
        final(state).results == old(state).results,
        final(state).organizations == old(state).organizations,
        final(state).logs == old(state).logs,
        (data.name matches Some(n) && blank(n@)) ==> r is Err && bad_request_with(
            r->Err_0,
            project_name_message(),
        ) && final(state).projects@ == old(state).projects@,
        !(data.name matches Some(n) && blank(n@)) && !has_project(old(state).projects@, id@) ==> r
            == Err::<Project, ApiError>(ApiError::NotFound) && final(state).projects@ == old(
            state,
        ).projects@,
        !(data.name matches Some(n) && blank(n@)) && has_project(old(state).projects@, id@) ==> {
            let i = project_index(old(state).projects@, id@);
            let o = old(state).projects@[i];
            &&& r is Ok
            &&& r->Ok_0.id == o.id
            &&& r->Ok_0.organization_id == o.organization_id
            &&& r->Ok_0.slug == o.slug
            &&& r->Ok_0.created_by == o.created_by
            &&& r->Ok_0.created_at == o.created_at
            &&& r->Ok_0.name@ == (match data.name {
                Some(n) => n@,
                None => o.name@,
            })
            &&& opt_text(r->Ok_0.description) == (match data.description {
                Some(d) => Some(d@),
                None => opt_text(o.description),
            })
            &&& r->Ok_0.updated_at == now
            &&& final(state).projects@ == old(state).projects@.update(i, r->Ok_0)
        },
{
    match validate_update_project(&data) {
        Err(e) => return Err(e),
        Ok(()) => {},
    }
    state.projects.update(id, data.name, data.description, now)
}

/// Removes the project with identity `id`, or reports `NotFound`.
pub fn delete_project(state: &mut AppState, id: &str) -> (r: Result<(), ApiError>)
    requires
        old(state).wf(),
    ensures
        final(state).wf(),
        final(state).monitors == old(state).monitors,
        final(state).results == old(state).results,
        final(state).organizations == old(state).organizations,
        final(state).logs == old(state).logs,
        !has_project(old(state).projects@, id@) ==> r == Err::<(), ApiError>(ApiError::NotFound)
            && final(state).projects@ == old(state).projects@,
        has_project(old(state).projects@, id@) ==> r is Ok && final(state).projects@ == old(
            state,
        ).projects@.remove(project_index(old(state).projects@, id@)),
{
    state.projects.delete(id)
}

} // verus!
