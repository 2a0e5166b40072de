//! The table of projects. Reading a project takes an assignment to it;
//! changing one takes the role of an administrator in its account.

use crate::auth::{assigned, assigned_id, granted, holds_id, ids_of, is_not_found, not_found, Identity, Role};
use crate::notification::option_text;
use crate::repository::error::{unique_violation_code, RepositoryError};
use vstd::prelude::*;

verus! {

/// A project, as one row of the projects table.
#[derive(Debug)]
pub struct Project {
    pub id: i64,
    pub uuid: u128,
    pub account_id: i64,
    pub name: String,
    pub created_at: i64,
    pub updated_at: Option<i64>,
    pub deleted: bool,
    pub deleted_at: Option<i64>,
}

/// Mathematical value of a [`Project`].
pub struct ProjectView {
    pub id: i64,
    pub uuid: u128,
    pub account_id: i64,
    pub name: Seq<char>,
    pub created_at: i64,
    pub updated_at: Option<i64>,
    pub deleted: bool,
    pub deleted_at: Option<i64>,
}

impl View for Project {
    type V = ProjectView;

    open spec fn view(&self) -> ProjectView {
        ProjectView {
            id: self.id,
            uuid: self.uuid,
            account_id: self.account_id,
            name: self.name@,
            created_at: self.created_at,
            updated_at: self.updated_at,
            deleted: self.deleted,
            deleted_at: self.deleted_at,
        }
    }
}

impl Clone for Project {
    fn clone(&self) -> (r: Self)
        ensures
            r@ == self@,
    {
        Project {
            id: self.id,
            uuid: self.uuid,
            account_id: self.account_id,
            name: self.name.clone(),
            created_at: self.created_at,
            updated_at: self.updated_at,
            deleted: self.deleted,
            deleted_at: self.deleted_at,
        }
    }
}

/// What a caller asks for when creating a project.
#[derive(Debug)]
pub struct CreateProject {
    pub account_uuid: u128,
    pub name: String,
}

/// What a caller may change of a project; `None` leaves a field as it is.
#[derive(Debug)]
pub struct UpdateProject {
    pub name: Option<String>,
}

/// The row is the live project `uuid` in one of the accounts `accounts`.
pub open spec fn is_project(p: ProjectView, uuid: u128, accounts: Seq<i64>) -> bool {
    p.uuid == uuid && accounts.contains(p.account_id) && !p.deleted
}

/// `i` is the first row that is the live project `uuid` in one of the
/// accounts.
pub open spec fn is_first_project(projects: Seq<ProjectView>, uuid: u128, accounts: Seq<i64>, i: int) -> bool {
    &&& 0 <= i < projects.len()
    &&& is_project(projects[i], uuid, accounts)
    &&& forall|j: int| 0 <= j < i ==> !is_project(#[trigger] projects[j], uuid, accounts)
}

/// Some row is the live project `uuid` in one of the accounts.
pub open spec fn has_project(projects: Seq<ProjectView>, uuid: u128, accounts: Seq<i64>) -> bool {
    exists|i: int| 0 <= i < projects.len() && is_project(#[trigger] projects[i], uuid, accounts)
}

/// The first row that is the live project `uuid` in one of the accounts.
pub open spec fn project_of(projects: Seq<ProjectView>, uuid: u128, accounts: Seq<i64>) -> ProjectView
    recommends
        has_project(projects, uuid, accounts),
{
    projects[choose|i: int| is_first_project(projects, uuid, accounts, i)]
}

/// The caller may read the project `uuid`: the caller is assigned to it,
/// and it is a live project in one of the caller's accounts.
pub open spec fn may_read(projects: Seq<ProjectView>, identity: Identity, uuid: u128) -> bool {
    assigned(identity.project_ids@, uuid) && has_project(projects, uuid, ids_of(identity.account_ids@))
}

/// The caller may change the project `uuid`: the caller may read it and is
/// an administrator in its account.
pub open spec fn may_change(projects: Seq<ProjectView>, identity: Identity, uuid: u128) -> bool {
    may_read(projects, identity, uuid) && granted(
        identity.roles@,
        project_of(projects, uuid, ids_of(identity.account_ids@)).account_id,
        Role::Administrator,
    )
}

/// The row is the project that a change of the project `uuid` by the
/// caller touches.
pub open spec fn is_target(p: ProjectView, projects: Seq<ProjectView>, identity: Identity, uuid: u128) -> bool {
    let found = project_of(projects, uuid, ids_of(identity.account_ids@));
    p.id == found.id && p.account_id == found.account_id && !p.deleted
}

/// The row after the update `name` at `now`.
pub open spec fn updated_project(p: ProjectView, name: Option<Seq<char>>, now: i64) -> ProjectView {
    ProjectView {
        name: match name {
            Some(n) => n,
            None => p.name,
        },
        updated_at: Some(now),
        ..p
    }
}

/// The caller may create projects in the account `account_uuid`: the
/// caller is assigned to the account and an administrator in it.
pub open spec fn may_create(identity: Identity, account_uuid: u128) -> bool {
    assigned(identity.account_ids@, account_uuid) && granted(
        identity.roles@,
        assigned_id(identity.account_ids@, account_uuid),
        Role::Administrator,
    )
}

/// Some row takes the identifier or the UUID of `p`.
pub open spec fn project_collides(projects: Seq<ProjectView>, p: ProjectView) -> bool {
    exists|i: int| 0 <= i < projects.len() && ((#[trigger] projects[i]).id == p.id || projects[i].uuid == p.uuid)
}

/// The row of a new project in the account `account_id`: the name that the
/// caller asks for, live, with everything else as in `defaults`.
pub open spec fn created_project(defaults: ProjectView, account_id: i64, name: Seq<char>) -> ProjectView {
    ProjectView { account_id, name, updated_at: None, deleted: false, deleted_at: None, ..defaults }
}

/// The rows that the caller may see: live projects that the caller is
/// assigned to, in accounts of the caller, in table order.
pub open spec fn readable_projects(projects: Seq<ProjectView>, ids: Seq<i64>, accounts: Seq<i64>) -> Seq<
    ProjectView,
>
    decreases projects.len(),
{
    if projects.len() == 0 {
        Seq::empty()
    } else if ids.contains(projects.last().id) && accounts.contains(projects.last().account_id)
        && !projects.last().deleted {
        readable_projects(projects.drop_last(), ids, accounts).push(projects.last())
    } else {
        readable_projects(projects.drop_last(), ids, accounts)
    }
}

/// Mathematical values of a list of projects.
pub open spec fn project_views(rows: Seq<Project>) -> Seq<ProjectView> {
    Seq::new(rows.len(), |i: int| rows[i]@)
}

/// The error of a caller who names a project that the caller may not
/// change: unknown where the caller may not even read it, else forbidden.
pub open spec fn is_change_refusal(e: RepositoryError, projects: Seq<ProjectView>, identity: Identity, uuid: u128) -> bool {
    if may_read(projects, identity, uuid) {
        e is Forbidden
    } else {
        is_not_found(e, "project"@, uuid)
    }
}

/// The table of projects.
pub struct ProjectRepository {
    projects: Vec<Project>,
}

impl ProjectRepository {
    /// The rows of the table, in insertion order.
    pub closed spec fn view(&self) -> Seq<ProjectView> {
        Seq::new(self.projects@.len(), |i: int| self.projects@[i]@)
    }

    /// An empty table.
    pub fn new() -> (r: Self)
        ensures
            r@ == Seq::<ProjectView>::empty(),
    {
        let r = ProjectRepository { projects: Vec::new() };
        assert(r@ =~= Seq::<ProjectView>::empty());
        r
    }

    /// Number of rows, deleted ones included.
    pub fn len(&self) -> (n: usize)
        ensures
            n == self@.len(),
    {
        self.projects.len()
    }

    /// The row at position `i`, or `None` past the end of the table.
    pub fn row(&self, i: usize) -> (p: Option<&Project>)
        ensures
            p is Some <==> i < self@.len(),
            p matches Some(r) ==> r@ == self@[i as int],
    {
        if i < self.projects.len() {
            Some(&self.projects[i])
        } else {
            None
        }
    }

    /// Appends `project`, unless its identifier or UUID is taken: then the
    /// table is left as it is and the error is the store's uniqueness
    /// violation.
    pub fn insert(&mut self, project: Project) -> (r: Result<(), RepositoryError>)
        ensures
            r is Ok <==> !project_collides(old(self)@, project@),
            r is Ok ==> final(self)@ == old(self)@.push(project@),
            r matches Err(e) ==> final(self)@ == old(self)@ && e.code() == Some(unique_violation_code()),
    {
        let n = self.projects.len();
        let mut i: usize = 0;
        while i < n
            invariant
                i <= n,
                n == self.projects.len(),
                *self == *old(self),
                forall|j: int|
                    0 <= j < i ==> (#[trigger] self@[j]).id != project@.id && self@[j].uuid != project@.uuid,
            decreases n - i,
        {
            let row = &self.projects[i];
            assert(self@[i as int] == row@);
            if row.id == project.id || row.uuid == project.uuid {
                return Err(RepositoryError::unique_constraint_violation());
            }
            i += 1;
        }
        self.projects.push(project);
        assert(self@ =~= old(self)@.push(project@));
        Ok(())
    }

    /// Creates a project for `identity` in the account that the request
    /// names. The caller must be assigned to the account and an
    /// administrator in it. What the store fills in on its own, such as
    /// the identifier and the UUID, is taken from `defaults`; a row whose
    /// identifier or UUID is taken is refused.
    pub fn create(&mut self, identity: &Identity, request: CreateProject, defaults: Project) -> (r: Result<
        Project,
        RepositoryError,
    >)
        ensures
            r is Ok <==> may_create(*identity, request.account_uuid) && !project_collides(old(self)@, defaults@),
            r matches Ok(p) ==> p@ == created_project(
                defaults@,
                assigned_id(identity.account_ids@, request.account_uuid),
                request.name@,
            ) && final(self)@ == old(self)@.push(p@),
            r matches Err(e) ==> final(self)@ == old(self)@ && if !assigned(
                identity.account_ids@,
                request.account_uuid,
            ) {
                is_not_found(e, "account"@, request.account_uuid)
            } else if !may_create(*identity, request.account_uuid) {
                e is Forbidden
            } else {
                e.code() == Some(unique_violation_code())
            },
    {
        let account_id = match identity.get_account_id(request.account_uuid) {
            Ok(id) => id,
            Err(e) => {
                return Err(e);
            },
        };
        if !identity.is_administrator_in_account(request.account_uuid) {
            return Err(RepositoryError::Forbidden);
        }
        let mut row = defaults;
        row.account_id = account_id;
        row.name = request.name;
        row.updated_at = None;
        row.deleted = false;
        row.deleted_at = None;
        let copy = row.clone();
        assert(project_collides(self@, row@) == project_collides(self@, defaults@));
        match self.insert(row) {
            Ok(()) => Ok(copy),
            Err(e) => Err(e),
        }
    }

    /// Position of the first row that is the live project `uuid` in one of
    /// the accounts `accounts`.
    pub fn find_project(&self, uuid: u128, accounts: &Vec<i64>) -> (r: Option<usize>)
        ensures
            r is Some <==> has_project(self@, uuid, accounts@),
            r matches Some(i) ==> is_first_project(self@, uuid, accounts@, i as int) && self@[i as int] == project_of(
                self@,
                uuid,
                accounts@,
            ),
    {
        let n = self.projects.len();
        let mut i: usize = 0;
        while i < n
            invariant
                i <= n,
                n == self.projects.len(),
                forall|j: int| 0 <= j < i ==> !is_project(#[trigger] self@[j], uuid, accounts@),
            decreases n - i,
        {
            let row = &self.projects[i];
            assert(self@[i as int] == row@);
            if row.uuid == uuid && !row.deleted && holds_id(accounts, row.account_id) {
                proof {
                    let w = choose|w: int| is_first_project(self@, uuid, accounts@, w);
                    assert(is_first_project(self@, uuid, accounts@, i as int));
                    assert(w == i);
                }
                return Some(i);
            }
            i += 1;
        }
        None
    }

    /// The store's identifiers of the project `project_uuid` and of its
    /// account, for a caller with the accounts `accounts`.
    pub fn get_project_account_id(&self, project_uuid: u128, accounts: &Vec<i64>) -> (r: Result<
        (i64, i64),
        RepositoryError,
    >)
        ensures
            r is Ok <==> has_project(self@, project_uuid, accounts@),
            r matches Ok(ids) ==> ids == (
                project_of(self@, project_uuid, accounts@).id,
                project_of(self@, project_uuid, accounts@).account_id,
            ),
            r matches Err(e) ==> is_not_found(e, "project"@, project_uuid),
    {
        match self.find_project(project_uuid, accounts) {
            Some(i) => {
                assert(self@[i as int] == self.projects@[i as int]@);
                Ok((self.projects[i].id, self.projects[i].account_id))
            },
            None => Err(not_found("project", project_uuid)),
        }
    }

    /// Reads the project `uuid` for `identity`. A project that the caller
    /// is not assigned to, or that is deleted or in an account of others,
    /// does not exist for the caller.
    pub fn read_one(&self, identity: &Identity, uuid: u128) -> (r: Result<Project, RepositoryError>)
        ensures
            r is Ok <==> may_read(self@, *identity, uuid),
            r matches Ok(p) ==> p@ == project_of(self@, uuid, ids_of(identity.account_ids@)),
            r matches Err(e) ==> is_not_found(e, "project"@, uuid),
    {
        if !identity.is_assigned_to_project(uuid) {
            return Err(not_found("project", uuid));
        }
        let accounts = identity.account_ids();
        match self.find_project(uuid, &accounts) {
            Some(i) => {
                let p = self.projects[i].clone();
                assert(p@ == self@[i as int]);
                Ok(p)
            },
            None => Err(not_found("project", uuid)),
        }
    }

    /// Reads every project that `identity` may see, in table order.
    pub fn read_all(&self, identity: &Identity) -> (rows: Vec<Project>)
        ensures
            project_views(rows@) == readable_projects(
                self@,
                ids_of(identity.project_ids@),
                ids_of(identity.account_ids@),
            ),
    {
        let ids = identity.project_ids();
        let accounts = identity.account_ids();
        let mut rows: Vec<Project> = Vec::new();
        let n = self.projects.len();
        let mut i: usize = 0;
        while i < n
            invariant
                i <= n,
                n == self.projects.len(),
                project_views(rows@) == readable_projects(self@.take(i as int), ids@, accounts@),
            decreases n - i,
        {
            let row = &self.projects[i];
            assert(self@[i as int] == row@);
            assert(self@.take(i as int + 1).drop_last() =~= self@.take(i as int));
            assert(self@.take(i as int + 1).last() == row@);
            if holds_id(&ids, row.id) && holds_id(&accounts, row.account_id) && !row.deleted {
                let ghost earlier = project_views(rows@);
                let copy = row.clone();
                rows.push(copy);
                assert(project_views(rows@) =~= earlier.push(row@));
            }
            i += 1;
        }
        assert(self@.take(n as int) =~= self@);
        rows
    }

    /// Applies `request`, at `now`, to the project `uuid` for `identity`,
    /// and returns the project as it is afterwards. The caller must be an
    /// administrator in the project's account; where the caller may not
    /// change the project, nothing changes.
    pub fn update(&mut self, identity: &Identity, uuid: u128, request: UpdateProject, now: i64) -> (r: Result<
        Project,
        RepositoryError,
    >)
        ensures
            r is Ok <==> may_change(old(self)@, *identity, uuid),
            r is Ok ==> final(self)@ == Seq::new(
                old(self)@.len(),
                |i: int|
                    if is_target(old(self)@[i], old(self)@, *identity, uuid) {
                        updated_project(old(self)@[i], option_text(request.name), now)
                    } else {
                        old(self)@[i]
                    },
            ),
            r matches Ok(p) ==> p@ == updated_project(
                project_of(old(self)@, uuid, ids_of(identity.account_ids@)),
                option_text(request.name),
                now,
            ),
            r matches Err(e) ==> final(self)@ == old(self)@ && is_change_refusal(e, old(self)@, *identity, uuid),
    {
        if !identity.is_assigned_to_project(uuid) {
            return Err(not_found("project", uuid));
        }
        let accounts = identity.account_ids();
        let first = match self.find_project(uuid, &accounts) {
            Some(i) => i,
            None => {
                return Err(not_found("project", uuid));
            },
        };
        assert(self@[first as int] == self.projects@[first as int]@);
        let project_id = self.projects[first].id;
        let account_id = self.projects[first].account_id;
        if !identity.is_administrator_in_account_with_id(account_id) {
            return Err(RepositoryError::Forbidden);
        }
        let ghost name = option_text(request.name);
        let ghost after = Seq::new(
            old(self)@.len(),
            |i: int|
                if is_target(old(self)@[i], old(self)@, *identity, uuid) {
                    updated_project(old(self)@[i], name, now)
                } else {
                    old(self)@[i]
                },
        );
        let n = self.projects.len();
        let mut i: usize = 0;
        while i < n
            invariant
                i <= n,
                n == self.projects.len(),
                first < n,
                name == option_text(request.name),
                self@.len() == old(self)@.len(),
                after.len() == old(self)@.len(),
                forall|j: int|
                    0 <= j < n ==> #[trigger] after[j] == if old(self)@[j].id == project_id && old(self)@[j].account_id
                        == account_id && !old(self)@[j].deleted {
                        updated_project(old(self)@[j], name, now)
                    } else {
                        old(self)@[j]
                    },
                forall|j: int| 0 <= j < i ==> #[trigger] self@[j] == after[j],
                forall|j: int| i <= j < n ==> #[trigger] self@[j] == old(self)@[j],
            decreases n - i,
        {
            let ghost table = self@;
            assert(table[i as int] == self.projects@[i as int]@);
            let hit = self.projects[i].id == project_id && self.projects[i].account_id == account_id
                && !self.projects[i].deleted;
            if hit {
                match &request.name {
                    Some(new_name) => {
                        self.projects[i].name = new_name.clone();
                    },
                    None => {},
                }
                self.projects[i].updated_at = Some(now);
                assert(self@ =~= table.update(i as int, updated_project(table[i as int], name, now)));
            }
            i += 1;
        }
        assert(self@ =~= after);
        let p = self.projects[first].clone();
        assert(p@ == self@[first as int]);
        Ok(p)
    }

    /// Deletes, at `now`, the project `uuid` for `identity`. The caller
    /// must be an administrator in the project's account. The row stays in
    /// the table, marked as deleted.
    pub fn delete(&mut self, identity: &Identity, uuid: u128, now: i64) -> (r: Result<bool, RepositoryError>)
        ensures
            r is Ok <==> may_change(old(self)@, *identity, uuid),
            r matches Ok(found) ==> found,
            r is Ok ==> final(self)@ == Seq::new(
                old(self)@.len(),
                |i: int|
                    if old(self)@[i].id == project_of(old(self)@, uuid, ids_of(identity.account_ids@)).id {
                        ProjectView { deleted: true, deleted_at: Some(now), ..old(self)@[i] }
                    } else {
                        old(self)@[i]
                    },
            ),
            r matches Err(e) ==> final(self)@ == old(self)@ && is_change_refusal(e, old(self)@, *identity, uuid),
    {
        if !identity.is_assigned_to_project(uuid) {
            return Err(not_found("project", uuid));
        }
        let accounts = identity.account_ids();
        let first = match self.find_project(uuid, &accounts) {
            Some(i) => i,
            None => {
                return Err(not_found("project", uuid));
            },
        };
        assert(self@[first as int] == self.projects@[first as int]@);
        let project_id = self.projects[first].id;
        let account_id = self.projects[first].account_id;
        if !identity.is_administrator_in_account_with_id(account_id) {
            return Err(RepositoryError::Forbidden);
        }
        let ghost after = Seq::new(
            old(self)@.len(),
            |i: int|
                if old(self)@[i].id == project_id {
                    ProjectView { deleted: true, deleted_at: Some(now), ..old(self)@[i] }
                } else {
                    old(self)@[i]
                },
        );
        let n = self.projects.len();
        let mut i: usize = 0;
        while i < n
            invariant
                i <= n,
                n == self.projects.len(),
                self@.len() == old(self)@.len(),
                after.len() == old(self)@.len(),
                forall|j: int|
                    0 <= j < n ==> #[trigger] after[j] == if old(self)@[j].id == project_id {
                        ProjectView { deleted: true, deleted_at: Some(now), ..old(self)@[j] }
                    } else {
                        old(self)@[j]
                    },
                forall|j: int| 0 <= j < i ==> #[trigger] self@[j] == after[j],
                forall|j: int| i <= j < n ==> #[trigger] self@[j] == old(self)@[j],
            decreases n - i,
        {
            let ghost table = self@;
            assert(table[i as int] == self.projects@[i as int]@);
            if self.projects[i].id == project_id {
                self.projects[i].deleted = true;
                self.projects[i].deleted_at = Some(now);
                assert(self@ =~= table.update(
                    i as int,
                    (ProjectView { deleted: true, deleted_at: Some(now), ..table[i as int] }),
                ));
            }
            i += 1;
        }
        assert(self@ =~= after);
        Ok(true)
    }
}

} // verus!
