//! Who calls: the accounts and projects that a user is assigned to, and the
//! roles that the user holds in each account.

use crate::repository::error::RepositoryError;
use crate::shortid::{short_text, ShortId};
use crate::text::{
    first_field, first_two_fields, has_second_field, i64_of_text, parse_i64, parse_uuid, same_text,
    second_field, uuid_of_text,
};
use vstd::prelude::*;
use vstd::string::*;

verus! {

/// What a user may do in an account.
#[derive(Clone, Copy, Debug, PartialEq, Eq, Structural)]
pub enum Role {
    Administrator,
    Member,
    Viewer,
}

/// A role as the store holds it.
#[derive(Clone, Copy, Debug, PartialEq, Eq, Structural)]
pub enum UserRole {
    Administrator,
    Member,
    Viewer,
}

impl UserRole {
    /// Name under which the role is persisted.
    pub open spec fn text(self) -> Seq<char> {
        match self {
            UserRole::Administrator => "ADMINISTRATOR"@,
            UserRole::Member => "MEMBER"@,
            UserRole::Viewer => "VIEWER"@,
        }
    }

    /// The role that is persisted under the name `s`. Any other text gives
    /// a message that names it.
    pub fn from_str(s: &str) -> (r: Result<UserRole, String>)
        ensures
            r matches Ok(role) ==> role.text() == s@,
            r matches Err(message) ==> message@ == s@ + " is not a supported role value"@ && forall|
                role: UserRole,
            | role.text() != s@,
    {
        if same_text(s, "ADMINISTRATOR") {
            Ok(UserRole::Administrator)
        } else if same_text(s, "MEMBER") {
            Ok(UserRole::Member)
        } else if same_text(s, "VIEWER") {
            Ok(UserRole::Viewer)
        } else {
            let mut message = String::from_str(s);
            message.append(" is not a supported role value");
            Err(message)
        }
    }
}

/// The role that a persisted role stands for.
pub open spec fn role_for(role: UserRole) -> Role {
    match role {
        UserRole::Administrator => Role::Administrator,
        UserRole::Member => Role::Member,
        UserRole::Viewer => Role::Viewer,
    }
}

impl From<UserRole> for Role {
    fn from(role: UserRole) -> (r: Role) {
        match role {
            UserRole::Administrator => Role::Administrator,
            UserRole::Member => Role::Member,
            UserRole::Viewer => Role::Viewer,
        }
    }
}

impl vstd::std_specs::convert::FromSpecImpl<UserRole> for Role {
    open spec fn obeys_from_spec() -> bool {
        true
    }

    open spec fn from_spec(role: UserRole) -> Role {
        role_for(role)
    }
}

/// One assignment of a user: an account or a project, by its UUID and by
/// its identifier in the store.
#[derive(Clone, Copy, Debug, PartialEq, Eq, Structural)]
pub struct Assignment {
    pub uuid: u128,
    pub id: i64,
}

/// The roles that a user holds in one account.
#[derive(Debug)]
pub struct RoleGrant {
    pub account_id: i64,
    pub roles: Vec<Role>,
}

/// Some assignment of `list` is to `uuid`.
pub open spec fn assigned(list: Seq<Assignment>, uuid: u128) -> bool {
    exists|i: int| 0 <= i < list.len() && (#[trigger] list[i]).uuid == uuid
}

/// `i` is the first assignment of `list` to `uuid`.
pub open spec fn is_first_assignment(list: Seq<Assignment>, uuid: u128, i: int) -> bool {
    &&& 0 <= i < list.len()
    &&& list[i].uuid == uuid
    &&& forall|j: int| 0 <= j < i ==> (#[trigger] list[j]).uuid != uuid
}

/// The store's identifier of what `uuid` is assigned to in `list`.
pub open spec fn assigned_id(list: Seq<Assignment>, uuid: u128) -> i64
    recommends
        assigned(list, uuid),
{
    list[choose|i: int| is_first_assignment(list, uuid, i)].id
}

/// The identifiers of all assignments of `list`, in order.
pub open spec fn ids_of(list: Seq<Assignment>) -> Seq<i64> {
    Seq::new(list.len(), |i: int| list[i].id)
}

/// Some grant of `grants` gives `role` in the account `account_id`.
pub open spec fn granted(grants: Seq<RoleGrant>, account_id: i64, role: Role) -> bool {
    exists|g: int|
        0 <= g < grants.len() && (#[trigger] grants[g]).account_id == account_id && grants[g].roles@.contains(role)
}

/// The error says that no row of `entity` is known under the short
/// identifier of `uuid`.
pub open spec fn is_not_found(e: RepositoryError, entity: Seq<char>, uuid: u128) -> bool {
    e matches RepositoryError::NotFound { entity_type, id } && entity_type@ == entity && id@ == short_text(uuid)
}

/// The error that no row of `entity` is known under `uuid`.
pub fn not_found(entity: &str, uuid: u128) -> (e: RepositoryError)
    ensures
        is_not_found(e, entity@, uuid),
{
    RepositoryError::NotFound { entity_type: entity.to_string(), id: ShortId::from_uuid(uuid).to_string() }
}

/// Position of the first assignment of `list` to `uuid`.
pub fn find_assignment(list: &Vec<Assignment>, uuid: u128) -> (r: Option<usize>)
    ensures
        r is Some <==> assigned(list@, uuid),
        r matches Some(i) ==> is_first_assignment(list@, uuid, i as int) && list@[i as int].id == assigned_id(
            list@,
            uuid,
        ),
{
    let n = list.len();
    let mut i: usize = 0;
    while i < n
        invariant
            i <= n,
            n == list.len(),
            forall|j: int| 0 <= j < i ==> (#[trigger] list@[j]).uuid != uuid,
        decreases n - i,
    {
        if list[i].uuid == uuid {
            proof {
                let w = choose|w: int| is_first_assignment(list@, uuid, w);
                assert(is_first_assignment(list@, uuid, i as int));
                assert(w == i);
            }
            return Some(i);
        }
        i += 1;
    }
    None
}

/// Whether `roles` holds `role`.
pub fn holds_role(roles: &Vec<Role>, role: Role) -> (r: bool)
    ensures
        r == roles@.contains(role),
{
    let n = roles.len();
    let mut i: usize = 0;
    while i < n
        invariant
            i <= n,
            n == roles.len(),
            forall|j: int| 0 <= j < i ==> roles@[j] != role,
        decreases n - i,
    {
        if roles[i] == role {
            return true;
        }
        i += 1;
    }
    false
}

/// Whether `ids` holds `id`.
pub fn holds_id(ids: &Vec<i64>, id: i64) -> (r: bool)
    ensures
        r == ids@.contains(id),
{
    let n = ids.len();
    let mut i: usize = 0;
    while i < n
        invariant
            i <= n,
            n == ids.len(),
            forall|j: int| 0 <= j < i ==> ids@[j] != id,
        decreases n - i,
    {
        if ids[i] == id {
            return true;
        }
        i += 1;
    }
    false
}

/// The caller of an operation.
#[derive(Debug)]
pub struct Identity {
    pub user_id: i64,
    pub user_uuid: u128,
    /// The accounts that the user is assigned to.
    pub account_ids: Vec<Assignment>,
    /// The projects that the user is assigned to.
    pub project_ids: Vec<Assignment>,
    pub email: String,
    /// The roles of the user, account by account.
    pub roles: Vec<RoleGrant>,
}

impl Identity {
    pub fn is_administrator_in_account(&self, uuid: u128) -> (r: bool)
        ensures
            r == (assigned(self.account_ids@, uuid) && granted(
                self.roles@,
                assigned_id(self.account_ids@, uuid),
                Role::Administrator,
            )),
    {
        self.has_role_in_account(uuid, Role::Administrator)
    }

    pub fn is_administrator_in_account_with_id(&self, id: i64) -> (r: bool)
        ensures
            r == granted(self.roles@, id, Role::Administrator),
    {
        self.has_role_in_account_with_id(id, Role::Administrator)
    }

    /// Whether the user is assigned to the account `uuid` and holds `role`
    /// in it.
    pub fn has_role_in_account(&self, uuid: u128, role: Role) -> (r: bool)
        ensures
            r == (assigned(self.account_ids@, uuid) && granted(
                self.roles@,
                assigned_id(self.account_ids@, uuid),
                role,
            )),
    {
        match find_assignment(&self.account_ids, uuid) {
            Some(i) => self.has_role_in_account_with_id(self.account_ids[i].id, role),
            None => false,
        }
    }

    /// Whether the user holds `role` in the account with the store's
    /// identifier `id`.
    pub fn has_role_in_account_with_id(&self, id: i64, role: Role) -> (r: bool)
        ensures
            r == granted(self.roles@, id, role),
    {
        let n = self.roles.len();
        let mut g: usize = 0;
        while g < n
            invariant
                g <= n,
                n == self.roles.len(),
                forall|j: int|
                    0 <= j < g ==> !((#[trigger] self.roles@[j]).account_id == id && self.roles@[j].roles@.contains(
                        role,
                    )),
            decreases n - g,
        {
            if self.roles[g].account_id == id && holds_role(&self.roles[g].roles, role) {
                return true;
            }
            g += 1;
        }
        false
    }

    pub fn is_assigned_to_account(&self, uuid: u128) -> (r: bool)
        ensures
            r == assigned(self.account_ids@, uuid),
    {
        find_assignment(&self.account_ids, uuid).is_some()
    }

    pub fn is_assigned_to_project(&self, uuid: u128) -> (r: bool)
        ensures
            r == assigned(self.project_ids@, uuid),
    {
        find_assignment(&self.project_ids, uuid).is_some()
    }

    /// The store's identifier of the account `account_uuid`, if the user
    /// is assigned to it.
    pub fn get_account_id(&self, account_uuid: u128) -> (r: Result<i64, RepositoryError>)
        ensures
            r is Ok <==> assigned(self.account_ids@, account_uuid),
            r matches Ok(id) ==> id == assigned_id(self.account_ids@, account_uuid),
            r matches Err(e) ==> is_not_found(e, "account"@, account_uuid),
    {
        match find_assignment(&self.account_ids, account_uuid) {
            Some(i) => Ok(self.account_ids[i].id),
            None => Err(not_found("account", account_uuid)),
        }
    }

    /// The store's identifier of the project `project_uuid`, if the user
    /// is assigned to it.
    pub fn get_project_id(&self, project_uuid: u128) -> (r: Result<i64, RepositoryError>)
        ensures
            r is Ok <==> assigned(self.project_ids@, project_uuid),
            r matches Ok(id) ==> id == assigned_id(self.project_ids@, project_uuid),
            r matches Err(e) ==> is_not_found(e, "project"@, project_uuid),
    {
        match find_assignment(&self.project_ids, project_uuid) {
            Some(i) => Ok(self.project_ids[i].id),
            None => Err(not_found("project", project_uuid)),
        }
    }

    /// The store's identifiers of the user's projects.
    pub fn project_ids(&self) -> (r: Vec<i64>)
        ensures
            r@ == ids_of(self.project_ids@),
    {
        list_ids(&self.project_ids)
    }

    /// The store's identifiers of the user's accounts.
    pub fn account_ids(&self) -> (r: Vec<i64>)
        ensures
            r@ == ids_of(self.account_ids@),
    {
        list_ids(&self.account_ids)
    }

    /// Passes if the user is assigned to the account `uuid`, and fails as
    /// if the account did not exist otherwise.
    pub fn ensure_assigned_to_account(&self, uuid: u128) -> (r: Result<(), RepositoryError>)
        ensures
            r is Ok <==> assigned(self.account_ids@, uuid),
            r matches Err(e) ==> is_not_found(e, "account"@, uuid),
    {
        if !self.is_assigned_to_account(uuid) {
            return Err(not_found("account", uuid));
        }
        Ok(())
    }

    /// Passes if the user is assigned to the project `uuid`, and fails as
    /// if the project did not exist otherwise.
    pub fn ensure_assigned_to_project(&self, uuid: u128) -> (r: Result<(), RepositoryError>)
        ensures
            r is Ok <==> assigned(self.project_ids@, uuid),
            r matches Err(e) ==> is_not_found(e, "project"@, uuid),
    {
        if !self.is_assigned_to_project(uuid) {
            return Err(not_found("project", uuid));
        }
        Ok(())
    }
}

/// The identifiers of all assignments of `list`, in order.
pub fn list_ids(list: &Vec<Assignment>) -> (r: Vec<i64>)
    ensures
        r@ == ids_of(list@),
{
    let mut r: Vec<i64> = Vec::new();
    let n = list.len();
    let mut i: usize = 0;
    while i < n
        invariant
            i <= n,
            n == list.len(),
            r@ == ids_of(list@.take(i as int)),
        decreases n - i,
    {
        r.push(list[i].id);
        assert(r@ =~= ids_of(list@.take(i as int + 1)));
        i += 1;
    }
    assert(list@.take(n as int) =~= list@);
    r
}

/// A user as the store holds it. Each assignment is a text of two fields
/// with `|` between them: a UUID and the store's identifier for accounts
/// and projects, the name of a role and the identifier of an account for
/// roles.
#[derive(Debug)]
pub struct User {
    pub id: i64,
    pub uuid: u128,
    pub email: String,
    pub account_ids: Vec<String>,
    pub project_ids: Vec<String>,
    pub roles: Vec<String>,
}

/// The assignment that `item` writes: a UUID, `|`, and an identifier.
pub open spec fn assignment_of(item: Seq<char>) -> Option<Assignment> {
    if has_second_field(item) && uuid_of_text(first_field(item)) is Some && i64_of_text(second_field(item)) is Some {
        Some(Assignment { uuid: uuid_of_text(first_field(item))->0, id: i64_of_text(second_field(item))->0 })
    } else {
        None
    }
}

/// The list with the assignment `a` taken in: a later assignment to a
/// UUID replaces the earlier one.
pub open spec fn with_assignment(list: Seq<Assignment>, a: Assignment) -> Seq<Assignment> {
    if assigned(list, a.uuid) {
        list.update(choose|i: int| is_first_assignment(list, a.uuid, i), a)
    } else {
        list.push(a)
    }
}

/// The assignments that `items` write, taken in one after the other;
/// `None` where an item writes none.
pub open spec fn assignments_of(items: Seq<String>) -> Option<Seq<Assignment>>
    decreases items.len(),
{
    if items.len() == 0 {
        Some(Seq::empty())
    } else {
        match (assignments_of(items.drop_last()), assignment_of(items.last()@)) {
            (Some(list), Some(a)) => Some(with_assignment(list, a)),
            _ => None,
        }
    }
}

/// Reads one assignment.
pub fn parse_assignment(item: &str) -> (r: Option<Assignment>)
    ensures
        r == assignment_of(item@),
{
    match first_two_fields(item) {
        Some((first, second)) => {
            match parse_uuid(first.as_str()) {
                Some(uuid) => match parse_i64(second.as_str()) {
                    Some(id) => Some(Assignment { uuid, id }),
                    None => None,
                },
                None => None,
            }
        },
        None => None,
    }
}

/// Reads the assignments of a user to accounts or to projects. Every item
/// must write an assignment: the result is `None` where one does not.
pub fn to_uuid_and_id_map(items: &Vec<String>) -> (r: Option<Vec<Assignment>>)
    ensures
        r is Some <==> assignments_of(items@) is Some,
        r matches Some(list) ==> Some(list@) == assignments_of(items@),
{
    let mut list: Vec<Assignment> = Vec::new();
    let n = items.len();
    let mut i: usize = 0;
    while i < n
        invariant
            i <= n,
            n == items.len(),
            assignments_of(items@.take(i as int)) == Some(list@),
        decreases n - i,
    {
        assert(items@.take(i as int + 1).drop_last() =~= items@.take(i as int));
        assert(items@.take(i as int + 1).last() == items@[i as int]);
        match parse_assignment(items[i].as_str()) {
            Some(a) => {
                match find_assignment(&list, a.uuid) {
                    Some(at) => {
                        proof {
                            let w = choose|w: int| is_first_assignment(list@, a.uuid, w);
                            assert(is_first_assignment(list@, a.uuid, at as int));
                            assert(w == at);
                        }
                        list[at] = a;
                    },
                    None => {
                        list.push(a);
                    },
                }
            },
            None => {
                proof {
                    lemma_bad_item_spoils_all(items@, i as int);
                }
                return None;
            },
        }
        i += 1;
    }
    assert(items@.take(n as int) =~= items@);
    Some(list)
}

/// One item that writes no assignment leaves the whole list unread.
pub proof fn lemma_bad_item_spoils_all(items: Seq<String>, i: int)
    requires
        0 <= i < items.len(),
        assignment_of(items[i]@) is None,
    ensures
        assignments_of(items) is None,
    decreases items.len(),
{
    if i < items.len() - 1 {
        assert(items.drop_last()[i] == items[i]);
        lemma_bad_item_spoils_all(items.drop_last(), i);
    }
}

/// Mathematical value of a [`RoleGrant`].
pub struct RoleGrantView {
    pub account_id: i64,
    pub roles: Seq<Role>,
}

impl View for RoleGrant {
    type V = RoleGrantView;

    open spec fn view(&self) -> RoleGrantView {
        RoleGrantView { account_id: self.account_id, roles: self.roles@ }
    }
}

/// Mathematical values of a list of grants.
pub open spec fn grant_views(grants: Seq<RoleGrant>) -> Seq<RoleGrantView> {
    Seq::new(grants.len(), |i: int| grants[i]@)
}

/// The role and the account that `item` writes: the name of a role, `|`,
/// and the identifier of an account.
pub open spec fn role_of(item: Seq<char>) -> Option<(i64, Role)> {
    if has_second_field(item) && i64_of_text(second_field(item)) is Some && exists|role: UserRole|
        role.text() == first_field(item) {
        let role = choose|role: UserRole| role.text() == first_field(item);
        Some((i64_of_text(second_field(item))->0, role_for(role)))
    } else {
        None
    }
}

/// `i` is the first grant for the account `account_id`.
pub open spec fn is_first_grant(grants: Seq<RoleGrantView>, account_id: i64, i: int) -> bool {
    &&& 0 <= i < grants.len()
    &&& grants[i].account_id == account_id
    &&& forall|j: int| 0 <= j < i ==> (#[trigger] grants[j]).account_id != account_id
}

/// The grants with `role` in the account `account_id` taken in: the role
/// joins the first grant of the account unless it is there already, and an
/// account without a grant gets one.
pub open spec fn with_role(grants: Seq<RoleGrantView>, account_id: i64, role: Role) -> Seq<RoleGrantView> {
    if exists|i: int| is_first_grant(grants, account_id, i) {
        let i = choose|i: int| is_first_grant(grants, account_id, i);
        if grants[i].roles.contains(role) {
            grants
        } else {
            grants.update(i, RoleGrantView { account_id, roles: grants[i].roles.push(role) })
        }
    } else {
        grants.push(RoleGrantView { account_id, roles: seq![role] })
    }
}

/// The grants that `items` write, taken in one after the other; `None`
/// where an item writes none.
pub open spec fn grants_of(items: Seq<String>) -> Option<Seq<RoleGrantView>>
    decreases items.len(),
{
    if items.len() == 0 {
        Some(Seq::empty())
    } else {
        match (grants_of(items.drop_last()), role_of(items.last()@)) {
            (Some(grants), Some((account_id, role))) => Some(with_role(grants, account_id, role)),
            _ => None,
        }
    }
}

/// Reads one role of a user in an account.
pub fn parse_role(item: &str) -> (r: Option<(i64, Role)>)
    ensures
        r == role_of(item@),
{
    match first_two_fields(item) {
        Some((first, second)) => {
            match parse_i64(second.as_str()) {
                Some(account_id) => match UserRole::from_str(first.as_str()) {
                    Ok(user_role) => {
                        proof {
                            let chosen = choose|role: UserRole| role.text() == first_field(item@);
                            lemma_role_names_differ(chosen, user_role);
                        }
                        Some((account_id, Role::from(user_role)))
                    },
                    Err(_) => None,
                },
                None => None,
            }
        },
        None => None,
    }
}

/// No two roles share a name.
pub proof fn lemma_role_names_differ(a: UserRole, b: UserRole)
    requires
        a.text() == b.text(),
    ensures
        a == b,
{
    reveal_strlit("ADMINISTRATOR");
    reveal_strlit("MEMBER");
    reveal_strlit("VIEWER");
    assert("ADMINISTRATOR"@[0] == 'A');
    assert("MEMBER"@[0] == 'M');
    assert("VIEWER"@[0] == 'V');
}

/// One item that writes no role leaves all roles unread.
pub proof fn lemma_bad_role_spoils_all(items: Seq<String>, i: int)
    requires
        0 <= i < items.len(),
        role_of(items[i]@) is None,
    ensures
        grants_of(items) is None,
    decreases items.len(),
{
    if i < items.len() - 1 {
        assert(items.drop_last()[i] == items[i]);
        lemma_bad_role_spoils_all(items.drop_last(), i);
    }
}

/// Reads the roles of a user. Every item must write a role in an account:
/// the result is `None` where one does not.
pub fn to_role_and_id_map(items: &Vec<String>) -> (r: Option<Vec<RoleGrant>>)
    ensures
        r is Some <==> grants_of(items@) is Some,
        r matches Some(grants) ==> Some(grant_views(grants@)) == grants_of(items@),
{
    let mut grants: Vec<RoleGrant> = Vec::new();
    let n = items.len();
    let mut i: usize = 0;
    while i < n
        invariant
            i <= n,
            n == items.len(),
            grants_of(items@.take(i as int)) == Some(grant_views(grants@)),
        decreases n - i,
    {
        assert(items@.take(i as int + 1).drop_last() =~= items@.take(i as int));
        assert(items@.take(i as int + 1).last() == items@[i as int]);
        match parse_role(items[i].as_str()) {
            Some((account_id, role)) => {
                let ghost before = grant_views(grants@);
                let m = grants.len();
                let mut at: usize = 0;
                while at < m && grants[at].account_id != account_id
                    invariant
                        at <= m,
                        m == grants.len(),
                        before == grant_views(grants@),
                        forall|j: int| 0 <= j < at ==> (#[trigger] before[j]).account_id != account_id,
                    decreases m - at,
                {
                    assert(before[at as int] == grants@[at as int]@);
                    at += 1;
                }
                if at < m {
                    assert(before[at as int] == grants@[at as int]@);
                    proof {
                        assert(is_first_grant(before, account_id, at as int));
                        let w = choose|w: int| is_first_grant(before, account_id, w);
                        assert(w == at);
                    }
                    if !holds_role(&grants[at].roles, role) {
                        grants[at].roles.push(role);
                        assert(grant_views(grants@) =~= before.update(
                            at as int,
                            RoleGrantView { account_id, roles: before[at as int].roles.push(role) },
                        ));
                    }
                } else {
                    assert(!exists|w: int| is_first_grant(before, account_id, w));
                    let mut roles: Vec<Role> = Vec::new();
                    roles.push(role);
                    assert(roles@ =~= seq![role]);
                    grants.push(RoleGrant { account_id, roles });
                    assert(grant_views(grants@) =~= before.push(RoleGrantView { account_id, roles: seq![role] }));
                }
            },
            None => {
                proof {
                    lemma_bad_role_spoils_all(items@, i as int);
                }
                return None;
            },
        }
        i += 1;
    }
    assert(items@.take(n as int) =~= items@);
    Some(grants)
}

impl Identity {
    /// The identity of a user of the store; `None` where one of the user's
    /// assignments or roles cannot be read.
    pub fn from_user(u: User) -> (r: Option<Identity>)
        ensures
            r is Some <==> assignments_of(u.account_ids@) is Some && assignments_of(u.project_ids@) is Some
                && grants_of(u.roles@) is Some,
            r matches Some(identity) ==> {
                &&& identity.user_id == u.id
                &&& identity.user_uuid == u.uuid
                &&& identity.email@ == u.email@
                &&& Some(identity.account_ids@) == assignments_of(u.account_ids@)
                &&& Some(identity.project_ids@) == assignments_of(u.project_ids@)
                &&& Some(grant_views(identity.roles@)) == grants_of(u.roles@)
            },
    {
        let account_ids = match to_uuid_and_id_map(&u.account_ids) {
            Some(list) => list,
            None => {
                return None;
            },
        };
        let project_ids = match to_uuid_and_id_map(&u.project_ids) {
            Some(list) => list,
            None => {
                return None;
            },
        };
        let roles = match to_role_and_id_map(&u.roles) {
            Some(grants) => grants,
            None => {
                return None;
            },
        };
        Some(Identity { user_id: u.id, user_uuid: u.uuid, account_ids, project_ids, email: u.email, roles })
    }
}

} // verus!
