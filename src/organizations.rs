use vstd::prelude::*;

use vstd::string::StringExecFns;

use crate::error::{bad_request, bad_request_with, ApiError};
use crate::slug::{lower_of, slug_of, unique_slug};
use crate::keys::{lemma_unique_push, lemma_unique_remove, lemma_unique_update, unique_keys};
use crate::text::{blank, is_blank, same_text};
use crate::service::AppState;
use crate::utils::{uuid_text, uuid_v4};

verus! {

#[derive(Debug, Clone)]
pub struct Organization {
    pub id: String,
    pub name: String,
    pub slug: String,
    pub created_by: String,
    /// Milliseconds since the Unix epoch.
    pub created_at: u64,
    /// Milliseconds since the Unix epoch.
    pub updated_at: u64,
}

/// A user's role in an organization.
#[derive(Debug, Clone)]
pub struct OrganizationMember {
    pub organization_id: String,
    pub user_id: String,
    pub role: String,
}

#[derive(Debug, Clone)]
pub struct CreateOrganization {
    pub name: String,
}

#[derive(Debug, Clone)]
pub struct UpdateOrganization {
    pub name: Option<String>,
}

pub open spec fn organization_name_message() -> Seq<char> {
    "Organization name cannot be empty"@
}

/// Refuses an organization whose name is empty or only white space.
pub fn validate_create_organization(d: &CreateOrganization) -> (r: Result<(), ApiError>)
    ensures
        blank(d.name@) ==> r is Err && bad_request_with(r->Err_0, organization_name_message()),
        !blank(d.name@) ==> r is Ok,
{
    if is_blank(d.name.as_str()) {
        return Err(bad_request("Organization name cannot be empty"));
    }
    Ok(())
}

/// Refuses an update that sets a name that is empty or only white space.
pub fn validate_update_organization(d: &UpdateOrganization) -> (r: Result<(), ApiError>)
    ensures
        (d.name matches Some(n) && blank(n@)) ==> r is Err && bad_request_with(
            r->Err_0,
            organization_name_message(),
        ),
        !(d.name matches Some(n) && blank(n@)) ==> r is Ok,
{
    if let Some(name) = &d.name {
        if is_blank(name.as_str()) {
            return Err(bad_request("Organization name cannot be empty"));
        }
    }
    Ok(())
}

impl Organization {
    /// A copy of the organization, field for field.
    pub fn duplicate(&self) -> (r: Organization)
        ensures
            r == *self,
    {
        Organization {
            id: self.id.clone(),
            name: self.name.clone(),
            slug: self.slug.clone(),
            created_by: self.created_by.clone(),
            created_at: self.created_at,
            updated_at: self.updated_at,
        }
    }
}

pub open spec fn org_key() -> spec_fn(Organization) -> Seq<char> {
    |o: Organization| o.id@
}

pub open spec fn org_ids_unique(s: Seq<Organization>) -> bool {
    unique_keys(s, org_key())
}

pub open spec fn has_org(s: Seq<Organization>, id: Seq<char>) -> bool {
    exists|i: int| 0 <= i < s.len() && (#[trigger] s[i]).id@ == id
}

/// The place of the organization with identity `id`; meaningful where there
/// is one.
pub open spec fn org_index(s: Seq<Organization>, id: Seq<char>) -> int {
    choose|i: int| 0 <= i < s.len() && (#[trigger] s[i]).id@ == id
}

/// The organizations, in the order of their creation, and their members.
pub struct OrganizationStore {
    organizations: Vec<Organization>,
    members: Vec<OrganizationMember>,
}

impl View for OrganizationStore {
    type V = Seq<Organization>;

    closed spec fn view(&self) -> Seq<Organization> {
        self.organizations@
    }
}

impl OrganizationStore {
    pub closed spec fn members(&self) -> Seq<OrganizationMember> {
        self.members@
    }

    pub open spec fn wf(&self) -> bool {
        org_ids_unique(self@)
    }

    pub fn new() -> (r: OrganizationStore)
        ensures
            r.wf(),
            r@ == Seq::<Organization>::empty(),
            r.members() == Seq::<OrganizationMember>::empty(),
    {
        OrganizationStore { organizations: Vec::new(), members: Vec::new() }
    }

    fn position(&self, id: &str) -> (r: Option<usize>)
        ensures
            match r {
                Some(i) => i < self@.len() && self@[i as int].id@ == id@,
                None => !has_org(self@, id@),
            },
    {
        let mut i: usize = 0;
        while i < self.organizations.len()
            invariant
                i <= self@.len(),
                self@ == self.organizations@,
                forall|j: int| 0 <= j < i ==> (#[trigger] self@[j]).id@ != id@,
            decreases self@.len() - i,
        {
            if same_text(self.organizations[i].id.as_str(), id) {
                return Some(i);
            }
            i = i + 1;
        }
        None
    }

    /// All organizations, in the order of their creation.
    pub fn list(&self) -> (r: Vec<Organization>)
        ensures
            r@ == self@,
    {
        let mut out: Vec<Organization> = Vec::new();
        let mut i: usize = 0;
        while i < self.organizations.len()
            invariant
                i <= self@.len(),
                self@ == self.organizations@,
                out@ == self@.subrange(0, i as int),
            decreases self@.len() - i,
        {
            out.push(self.organizations[i].duplicate());
            assert(self@.subrange(0, i + 1) =~= self@.subrange(0, i as int).push(self@[i as int]));
            i = i + 1;
        }
        assert(self@.subrange(0, self@.len() as int) =~= self@);
        out
    }

    /// The organization with identity `id`, or `NotFound`.
    pub fn get(&self, id: &str) -> (r: Result<Organization, ApiError>)
        requires
            self.wf(),
        ensures
            has_org(self@, id@) ==> r is Ok && r->Ok_0 == self@[org_index(self@, id@)],
            !has_org(self@, id@) ==> r == Err::<Organization, ApiError>(ApiError::NotFound),
    {
        match self.position(id) {
            Some(i) => {
                proof {
                    let k = org_index(self@, id@);
                    assert(self@[k].id@ == id@);
                }
                Ok(self.organizations[i].duplicate())
            },
            None => Err(ApiError::NotFound),
        }
    }

    /// Adds an organization under an identity that no stored one has, with
    /// `owner` as its owner; `InternalServerError` where the identity is
    /// taken.
    pub fn insert(&mut self, org: Organization, owner: OrganizationMember) -> (r: Result<
        Organization,
        ApiError,
    >)
        requires
            old(self).wf(),
        ensures
            final(self).wf(),
            has_org(old(self)@, org.id@) ==> r == Err::<Organization, ApiError>(
                ApiError::InternalServerError,
            ) && final(self)@ == old(self)@ && final(self).members() == old(self).members(),
            !has_org(old(self)@, org.id@) ==> r == Ok::<Organization, ApiError>(org) && final(self)@
                == old(self)@.push(org) && final(self).members() == old(self).members().push(owner),
    {
        if self.position(org.id.as_str()).is_some() {
            return Err(ApiError::InternalServerError);
        }
        let copy = org.duplicate();
        self.organizations.push(org);
        self.members.push(owner);
        proof {
            lemma_unique_push(old(self)@, self@.last(), org_key());
        }
        Ok(copy)
    }

    /// Renames the organization with identity `id` where a name is given,
    /// and stamps it with `now`; `NotFound` where there is none.
    pub fn update(&mut self, id: &str, name: Option<String>, now: u64) -> (r: Result<
        Organization,
        ApiError,
    >)
        requires
            old(self).wf(),
        ensures
            final(self).wf(),
            final(self).members() == old(self).members(),
            !has_org(old(self)@, id@) ==> r == Err::<Organization, ApiError>(ApiError::NotFound)
                && final(self)@ == old(self)@,
            has_org(old(self)@, id@) ==> {
                let i = org_index(old(self)@, id@);
                let o = old(self)@[i];
                &&& r is Ok
                &&& r->Ok_0.id == o.id
                &&& r->Ok_0.slug == o.slug
                &&& r->Ok_0.created_by == o.created_by
                &&& r->Ok_0.created_at == o.created_at
                &&& r->Ok_0.name@ == (match name {
                    Some(n) => n@,
                    None => o.name@,
                })
                &&& r->Ok_0.updated_at == now
                &&& final(self)@ == old(self)@.update(i, r->Ok_0)
            },
    {
        let i = match self.position(id) {
            Some(i) => i,
            None => return Err(ApiError::NotFound),
        };
        let ghost k = org_index(old(self)@, id@);
        assert(k == i as int);
        let cur = &self.organizations[i];
        let new_name = match name {
            Some(n) => n,
            None => cur.name.clone(),
        };
        let org = Organization {
            id: cur.id.clone(),
            name: new_name,
            slug: cur.slug.clone(),
            created_by: cur.created_by.clone(),
            created_at: cur.created_at,
            updated_at: now,
        };
        let copy = org.duplicate();
        self.organizations.set(i, org);
        proof {
            assert(self@ == old(self)@.update(k, self@[k]));
            lemma_unique_update(old(self)@, k, self@[k], org_key());
        }
        Ok(copy)
    }

    /// Removes the organization with identity `id`, or reports `NotFound`.
    pub fn delete(&mut self, id: &str) -> (r: Result<(), ApiError>)
        requires
            old(self).wf(),
        ensures
            final(self).wf(),
            final(self).members() == old(self).members(),
            !has_org(old(self)@, id@) ==> r == Err::<(), ApiError>(ApiError::NotFound) && final(self)@
                == old(self)@,
            has_org(old(self)@, id@) ==> r is Ok && final(self)@ == old(self)@.remove(
                org_index(old(self)@, id@),
            ),
    {
        match self.position(id) {
            Some(i) => {
                let ghost k = org_index(old(self)@, id@);
                assert(k == i as int);
                self.organizations.remove(i);
                proof {
                    lemma_unique_remove(old(self)@, k, org_key());
                }
                Ok(())
            },
            None => Err(ApiError::NotFound),
        }
    }
}

/// The slug that creation gives a record named `name`: its slug, a dash,
/// and the first eight characters of some uuid.
pub open spec fn fresh_slug(slug: Seq<char>, name: Seq<char>) -> bool {
    exists|u: Seq<char>| uuid_text(u) && slug == slug_of(lower_of(name)) + "-"@ + u.subrange(0, 8)
}

/// All organizations.
pub fn list_organizations(state: &AppState, user_id: &str) -> (r: Result<Vec<Organization>, ApiError>)
    ensures
        r == Ok::<Vec<Organization>, ApiError>(r->Ok_0),
        r->Ok_0@ == state.organizations@,
{
    Ok(state.organizations.list())
}

/// The organization with identity `id`, or `NotFound`.
pub fn get_organization(state: &AppState, id: &str) -> (r: Result<Organization, ApiError>)
    requires
        state.wf(),
    ensures
        has_org(state.organizations@, id@) ==> r == Ok::<Organization, ApiError>(
            state.organizations@[org_index(state.organizations@, id@)],
        ),
        !has_org(state.organizations@, id@) ==> r == Err::<Organization, ApiError>(ApiError::NotFound),
{
    state.organizations.get(id)
}

/// Creates an organization owned by `user_id`, after refusing a blank name.
/// It gets a fresh random identity and a slug made unique by a random
/// suffix; `InternalServerError` where the identity is taken.
pub fn create_organization(
    state: &mut AppState,
    data: CreateOrganization,
    user_id: &str,
    now: u64,
) -> (r: Result<Organization, ApiError>)
    requires
        old(state).wf(),
    ensures
        final(state).wf(),
        final(state).monitors == old(state).monitors,
        final(state).results == old(state).results,
        final(state).projects == old(state).projects,
        final(state).logs == old(state).logs,
        blank(data.name@) ==> r is Err && bad_request_with(r->Err_0, organization_name_message())
            && final(state).organizations == old(state).organizations,
        !blank(data.name@) ==> {
            ||| {
                &&& r is Ok
                &&& uuid_text(r->Ok_0.id@)
                &&& r->Ok_0.name@ == data.name@
                &&& fresh_slug(r->Ok_0.slug@, data.name@)
                &&& r->Ok_0.created_by@ == user_id@
                &&& r->Ok_0.created_at == now
                &&& r->Ok_0.updated_at == now
                &&& final(state).organizations@ == old(state).organizations@.push(r->Ok_0)
                &&& final(state).organizations.members().len() == old(
                    state,
                ).organizations.members().len() + 1
                &&& final(state).organizations.members().last().organization_id@ == r->Ok_0.id@
                &&& final(state).organizations.members().last().user_id@ == user_id@
                &&& final(state).organizations.members().last().role@ == "owner"@
            }
            ||| {
                &&& r == Err::<Organization, ApiError>(ApiError::InternalServerError)
                &&& final(state).organizations@ == old(state).organizations@
                &&& exists|u: Seq<char>| uuid_text(u) && has_org(old(state).organizations@, u)
            }
        },
{
    match validate_create_organization(&data) {
        Err(e) => return Err(e),
        Ok(()) => {},
    }
    let id = uuid_v4();
    let ghost drawn = id@;
    let slug = unique_slug(data.name.as_str());
    let owner = OrganizationMember {
        organization_id: id.clone(),
        user_id: String::from_str(user_id),
        role: String::from_str("owner"),
    };
    let org = Organization {
        id,
        name: data.name,
        slug,
        created_by: String::from_str(user_id),
        created_at: now,
        updated_at: now,
    };
    let r = state.organizations.insert(org, owner);
    proof {
        if r is Err {
            assert(uuid_text(drawn) && has_org(old(state).organizations@, drawn));
        }
    }
    r
}

/// Renames the organization with identity `id` at time `now`, after
/// refusing a blank name; `NotFound` where there is none.
pub fn update_organization(
    state: &mut AppState,
    id: &str,
    data: UpdateOrganization,
    now: u64,
) -> (r: Result<Organization, ApiError>)
    requires
        old(state).wf(),
    ensures
        final(state).wf(),
        final(state).monitors == old(state).monitors,
        final(state).results == old(state).results,
        final(state).projects == old(state).projects,
        final(state).logs == old(state).logs,
        (data.name matches Some(n) && blank(n@)) ==> r is Err && bad_request_with(
            r->Err_0,
            organization_name_message(),
        ) && final(state).organizations == old(state).organizations,
        !(data.name matches Some(n) && blank(n@)) && !has_org(old(state).organizations@, id@) ==> r
            == Err::<Organization, ApiError>(ApiError::NotFound) && final(state).organizations@ == old(
            state,
        ).organizations@,
        !(data.name matches Some(n) && blank(n@)) && has_org(old(state).organizations@, id@) ==> {
            let i = org_index(old(state).organizations@, id@);
            let o = old(state).organizations@[i];
            &&& r is Ok
            &&& r->Ok_0.id == o.id
            &&& r->Ok_0.slug == o.slug
            &&& r->Ok_0.created_by == o.created_by
            &&& r->Ok_0.created_at == o.created_at
            &&& r->Ok_0.name@ == (match data.name {
                Some(n) => n@,
                None => o.name@,
            })
            &&& r->Ok_0.updated_at == now
            &&& final(state).organizations@ == old(state).organizations@.update(i, r->Ok_0)
        },
{
    match validate_update_organization(&data) {
        Err(e) => return Err(e),
        Ok(()) => {},
    }
    state.organizations.update(id, data.name, now)
}

/// Removes the organization with identity `id`, or reports `NotFound`.
pub fn delete_organization(state: &mut AppState, id: &str) -> (r: Result<(), ApiError>)
    requires
        old(state).wf(),
    ensures
        final(state).wf(),
        final(state).monitors == old(state).monitors,
        final(state).results == old(state).results,
        final(state).projects == old(state).projects,
        final(state).logs == old(state).logs,
        !has_org(old(state).organizations@, id@) ==> r == Err::<(), ApiError>(ApiError::NotFound)
            && final(state).organizations@ == old(state).organizations@,
        has_org(old(state).organizations@, id@) ==> r is Ok && final(state).organizations@ == old(
            state,
        ).organizations@.remove(org_index(old(state).organizations@, id@)),
{
    state.organizations.delete(id)
}

} // verus!
