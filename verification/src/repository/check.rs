//! The table of checks and the ping ingestor.

use crate::auth::{assigned, assigned_id, holds_id, ids_of, is_not_found, not_found, Identity};
use crate::check::{Check, CheckView};
use crate::notification::{AlertEntry, NotificationView};
use crate::repository::error::RepositoryError;
use crate::repository::notification::NotificationRepository;
use crate::repository::queue::raised_for_check;
use vstd::prelude::*;

verus! {

/// The check answers a ping that carries `key`: it is not deleted and the
/// key is its own, letter for letter.
pub open spec fn answers(c: CheckView, key: Seq<char>) -> bool {
    !c.deleted && c.ping_key == key
}

/// Every check of `checks` that answers `key` has been pinged at `now`;
/// the others are as they were.
pub open spec fn pinged_table(checks: Seq<CheckView>, key: Seq<char>, now: i64) -> Seq<CheckView> {
    Seq::new(
        checks.len(),
        |i: int|
            if answers(checks[i], key) {
                checks[i].pinged(now)
            } else {
                checks[i]
            },
    )
}

/// Some check of `checks` answers `key`.
pub open spec fn key_known(checks: Seq<CheckView>, key: Seq<char>) -> bool {
    exists|i: int| 0 <= i < checks.len() && answers(#[trigger] checks[i], key)
}

/// `i` is the first row of `checks` that answers `key`.
pub open spec fn first_answering(checks: Seq<CheckView>, key: Seq<char>, i: int) -> bool {
    &&& 0 <= i < checks.len()
    &&& answers(checks[i], key)
    &&& forall|j: int| 0 <= j < i ==> !answers(#[trigger] checks[j], key)
}

/// No two rows share an identifier, a UUID or a ping key.
pub open spec fn keys_unique(checks: Seq<CheckView>) -> bool {
    forall|i: int, j: int|
        0 <= i < checks.len() && 0 <= j < checks.len() && i != j ==> {
            &&& (#[trigger] checks[i]).id != (#[trigger] checks[j]).id
            &&& checks[i].uuid != checks[j].uuid
            &&& checks[i].ping_key != checks[j].ping_key
        }
}

/// The row `c` takes a key that is already in `checks`.
pub open spec fn collides(checks: Seq<CheckView>, c: CheckView) -> bool {
    exists|i: int|
        0 <= i < checks.len() && {
            ||| (#[trigger] checks[i]).id == c.id
            ||| checks[i].uuid == c.uuid
            ||| checks[i].ping_key == c.ping_key
        }
}

/// What a caller asks for when creating a check.
#[derive(Debug)]
pub struct CreateCheck {
    pub account_uuid: u128,
    pub project_uuid: u128,
    pub name: String,
}

/// What a caller may change of a check; `None` leaves a field as it is.
#[derive(Debug)]
pub struct UpdateCheck {
    pub name: Option<String>,
}

/// A caller with the project `project_id` and the accounts `accounts` may
/// see the row: it belongs to the project and to one of the accounts, and
/// it is not deleted.
pub open spec fn visible(c: CheckView, project_id: i64, accounts: Seq<i64>) -> bool {
    &&& c.project_id == project_id
    &&& accounts.contains(c.account_id)
    &&& !c.deleted
}

/// The row is the check `uuid`, in the project and one of the accounts of
/// the caller; it may be deleted.
pub open spec fn owned(c: CheckView, uuid: u128, project_id: i64, accounts: Seq<i64>) -> bool {
    &&& c.uuid == uuid
    &&& c.project_id == project_id
    &&& accounts.contains(c.account_id)
}

/// `i` is the first row that is the check `uuid` and visible to the caller.
pub open spec fn is_first_visible(
    checks: Seq<CheckView>,
    uuid: u128,
    project_id: i64,
    accounts: Seq<i64>,
    i: int,
) -> bool {
    &&& 0 <= i < checks.len()
    &&& checks[i].uuid == uuid
    &&& visible(checks[i], project_id, accounts)
    &&& forall|j: int|
        0 <= j < i ==> !((#[trigger] checks[j]).uuid == uuid && visible(checks[j], project_id, accounts))
}

/// Some row is the check `uuid` and visible to the caller.
pub open spec fn can_see(checks: Seq<CheckView>, uuid: u128, project_id: i64, accounts: Seq<i64>) -> bool {
    exists|i: int|
        0 <= i < checks.len() && (#[trigger] checks[i]).uuid == uuid && visible(checks[i], project_id, accounts)
}

/// The rows that the caller may see, in table order.
pub open spec fn visible_rows(checks: Seq<CheckView>, project_id: i64, accounts: Seq<i64>) -> Seq<CheckView>
    decreases checks.len(),
{
    if checks.len() == 0 {
        Seq::empty()
    } else if visible(checks.last(), project_id, accounts) {
        visible_rows(checks.drop_last(), project_id, accounts).push(checks.last())
    } else {
        visible_rows(checks.drop_last(), project_id, accounts)
    }
}

/// The row after the update `name`: a given name replaces the old one.
pub open spec fn renamed(c: CheckView, name: Option<Seq<char>>) -> CheckView {
    match name {
        Some(n) => CheckView { name: n, ..c },
        None => c,
    }
}

/// The table after the check `uuid` was renamed for a caller: every row
/// that is the check and visible to the caller has the new name.
pub open spec fn renamed_table(
    checks: Seq<CheckView>,
    uuid: u128,
    project_id: i64,
    accounts: Seq<i64>,
    name: Option<Seq<char>>,
) -> Seq<CheckView> {
    Seq::new(
        checks.len(),
        |i: int|
            if checks[i].uuid == uuid && visible(checks[i], project_id, accounts) {
                renamed(checks[i], name)
            } else {
                checks[i]
            },
    )
}

/// The row after its deletion at `now`.
pub open spec fn deleted_at(c: CheckView, now: i64) -> CheckView {
    CheckView { deleted: true, deleted_at: Some(now), ..c }
}

/// The table after the check `uuid` was deleted at `now` for a caller.
pub open spec fn deleted_table(
    checks: Seq<CheckView>,
    uuid: u128,
    project_id: i64,
    accounts: Seq<i64>,
    now: i64,
) -> Seq<CheckView> {
    Seq::new(
        checks.len(),
        |i: int|
            if owned(checks[i], uuid, project_id, accounts) {
                deleted_at(checks[i], now)
            } else {
                checks[i]
            },
    )
}

/// The row of a new check: what the caller asks for, in the account
/// `account_id` and the project `project_id`, in its initial state, with
/// everything else as in `defaults`.
pub open spec fn created_check(defaults: CheckView, account_id: i64, project_id: i64, name: Seq<char>) -> CheckView {
    CheckView {
        account_id,
        project_id,
        name,
        status: crate::check::CheckStatus::Created,
        last_ping_at: None,
        updated_at: None,
        deleted: false,
        deleted_at: None,
        ..defaults
    }
}

/// Mathematical values of a list of checks.
pub open spec fn check_views(rows: Seq<Check>) -> Seq<CheckView> {
    Seq::new(rows.len(), |i: int| rows[i]@)
}

/// Some row of `checks` has the identifier `id`.
pub open spec fn has_check(checks: Seq<CheckView>, id: i64) -> bool {
    exists|i: int| 0 <= i < checks.len() && (#[trigger] checks[i]).id == id
}

/// `i` is the first row of `checks` with the identifier `id`.
pub open spec fn is_first_check(checks: Seq<CheckView>, id: i64, i: int) -> bool {
    &&& 0 <= i < checks.len()
    &&& checks[i].id == id
    &&& forall|j: int| 0 <= j < i ==> (#[trigger] checks[j]).id != id
}

/// The first row of `checks` with the identifier `id`.
pub open spec fn check_of(checks: Seq<CheckView>, id: i64) -> CheckView
    recommends
        has_check(checks, id),
{
    checks[choose|i: int| is_first_check(checks, id, i)]
}

/// Every check of `checks` after an overdue evaluation at `now`.
pub open spec fn evaluated_table(checks: Seq<CheckView>, now: i64) -> Seq<CheckView> {
    Seq::new(checks.len(), |i: int| checks[i].evaluated(now))
}

/// The alert queue after one detector tick at `now` over `checks`: the
/// checks are taken in table order, and each one that has lapsed adds the
/// entries that its channels want at that point.
pub open spec fn alerts_after_scan(
    checks: Seq<CheckView>,
    channels: Seq<NotificationView>,
    alerts: Seq<AlertEntry>,
    now: i64,
) -> Seq<AlertEntry>
    decreases checks.len(),
{
    if checks.len() == 0 {
        alerts
    } else {
        let before = alerts_after_scan(checks.drop_last(), channels, alerts, now);
        if checks.last().overdue(now) {
            before + raised_for_check(channels, before, checks.last().id, now)
        } else {
            before
        }
    }
}

/// The table of checks.
pub struct CheckRepository {
    checks: Vec<Check>,
}

impl CheckRepository {
    /// The rows of the table, in insertion order.
    pub closed spec fn view(&self) -> Seq<CheckView> {
        Seq::new(self.checks@.len(), |i: int| self.checks@[i]@)
    }

    /// The table's invariant: identifiers, UUIDs and ping keys are unique.
    pub open spec fn wf(&self) -> bool {
        keys_unique(self@)
    }

    /// An empty table.
    pub fn new() -> (r: Self)
        ensures
            r@ == Seq::<CheckView>::empty(),
            r.wf(),
    {
        let r = CheckRepository { checks: Vec::new() };
        assert(r@ =~= Seq::<CheckView>::empty());
        r
    }

    /// Number of rows, deleted ones included.
    pub fn len(&self) -> (n: usize)
        ensures
            n == self@.len(),
    {
        self.checks.len()
    }

    /// The row at position `i`.
    pub fn get(&self, i: usize) -> (c: &Check)
        requires
            i < self@.len(),
        ensures
            c@ == self@[i as int],
    {
        &self.checks[i]
    }

    /// The row at position `i`, or `None` past the end of the table.
    pub fn row(&self, i: usize) -> (c: Option<&Check>)
        ensures
            c is Some <==> i < self@.len(),
            c matches Some(r) ==> r@ == self@[i as int],
    {
        if i < self.checks.len() {
            Some(&self.checks[i])
        } else {
            None
        }
    }

    /// Position of the first row with the identifier `id`.
    pub fn position_of(&self, id: i64) -> (r: Option<usize>)
        ensures
            r is Some <==> has_check(self@, id),
            r matches Some(i) ==> is_first_check(self@, id, i as int) && self@[i as int] == check_of(self@, id),
    {
        let n = self.checks.len();
        let mut i: usize = 0;
        while i < n
            invariant
                i <= n,
                n == self.checks.len(),
                forall|j: int| 0 <= j < i ==> (#[trigger] self@[j]).id != id,
            decreases n - i,
        {
            assert(self@[i as int] == self.checks@[i as int]@);
            if self.checks[i].id == id {
                proof {
                    let w = choose|w: int| is_first_check(self@, id, w);
                    assert(is_first_check(self@, id, i as int));
                    assert(w == i);
                }
                return Some(i);
            }
            i += 1;
        }
        None
    }

    /// Appends `check`, unless its identifier, UUID or ping key is taken:
    /// then the table is left as it is and the error is the store's
    /// uniqueness violation.
    pub fn insert(&mut self, check: Check) -> (r: Result<(), RepositoryError>)
        ensures
            r is Ok <==> !collides(old(self)@, check@),
            r is Ok ==> final(self)@ == old(self)@.push(check@),
            r matches Err(e) ==> final(self)@ == old(self)@ && e.code() == Some(
                crate::repository::error::unique_violation_code(),
            ),
            old(self).wf() ==> final(self).wf(),
    {
        let n = self.checks.len();
        let mut i: usize = 0;
        while i < n
            invariant
                i <= n,
                n == self.checks.len(),
                self@ == old(self)@,
                forall|j: int|
                    0 <= j < i ==> {
                        &&& (#[trigger] self@[j]).id != check@.id
                        &&& self@[j].uuid != check@.uuid
                        &&& self@[j].ping_key != check@.ping_key
                    },
            decreases n - i,
        {
            let row = &self.checks[i];
            if row.id == check.id || row.uuid == check.uuid || row.ping_key == check.ping_key {
                assert(self@[i as int] == row@);
                return Err(RepositoryError::unique_constraint_violation());
            }
            assert(self@[i as int] == row@);
            i += 1;
        }
        self.checks.push(check);
        assert(self@ =~= old(self)@.push(check@));
        Ok(())
    }

    /// Takes in a ping that carries `key`, received at `now`.
    ///
    /// Every check that answers the key is set up and remembers `now` as
    /// the time of its last ping; the result is the UUID of the first of
    /// them. Where no check answers, nothing changes and the result is
    /// `None`.
    pub fn ping(&mut self, key: &str, now: i64) -> (uuid: Option<u128>)
        ensures
            final(self)@ == pinged_table(old(self)@, key@, now),
            uuid is Some <==> key_known(old(self)@, key@),
            uuid matches Some(u) ==> exists|i: int|
                first_answering(old(self)@, key@, i) && (#[trigger] old(self)@[i]).uuid == u,
            old(self).wf() ==> final(self).wf(),
    {
        let wanted = key.to_string();
        let n = self.checks.len();
        let mut found: Option<u128> = None;
        let ghost mut first: int = 0;
        let mut i: usize = 0;
        while i < n
            invariant
                i <= n,
                n == self.checks.len(),
                wanted@ == key@,
                self@.len() == old(self)@.len(),
                forall|j: int| 0 <= j < i ==> #[trigger] self@[j] == pinged_table(old(self)@, key@, now)[j],
                forall|j: int| i <= j < n ==> #[trigger] self@[j] == old(self)@[j],
                found is None ==> forall|j: int| 0 <= j < i ==> !answers(#[trigger] old(self)@[j], key@),
                found matches Some(u) ==> first < i && first_answering(old(self)@, key@, first)
                    && old(self)@[first].uuid == u,
            decreases n - i,
        {
            let ghost before = self@;
            let hit = !self.checks[i].deleted && self.checks[i].ping_key == wanted;
            assert(before[i as int] == self.checks@[i as int]@);
            if hit {
                if found.is_none() {
                    found = Some(self.checks[i].uuid);
                    proof {
                        first = i as int;
                    }
                }
                self.checks[i].record_ping(now);
                assert(self@ =~= before.update(i as int, before[i as int].pinged(now)));
            }
            i += 1;
        }
        assert(self@ =~= pinged_table(old(self)@, key@, now));
        proof {
            if found is None {
                assert(!key_known(old(self)@, key@));
            } else {
                assert(answers(old(self)@[first], key@));
            }
        }
        found
    }

    /// Runs one tick of the overdue detector at `now`.
    ///
    /// Every check that has lapsed goes down, and for each of them the
    /// queue of `notifications` receives the alerts that its channels
    /// want. Checks that have not lapsed, the channels, and the entries
    /// already in the queue stay as they are. The result is the number of
    /// alerts raised.
    pub fn enqueue_alerts_for_overdue_pings(
        &mut self,
        notifications: &mut NotificationRepository,
        now: i64,
    ) -> (raised: usize)
        requires
            old(notifications).wf(),
        ensures
            final(self)@ == evaluated_table(old(self)@, now),
            final(notifications).wf(),
            final(notifications).channels() == old(notifications).channels(),
            final(notifications).alerts() == alerts_after_scan(
                old(self)@,
                old(notifications).channels(),
                old(notifications).alerts(),
                now,
            ),
            raised == final(notifications).alerts().len() - old(notifications).alerts().len(),
            old(self).wf() ==> final(self).wf(),
    {
        let start = notifications.alert_count();
        let n = self.checks.len();
        let mut i: usize = 0;
        while i < n
            invariant
                i <= n,
                n == self.checks.len(),
                self@.len() == old(self)@.len(),
                forall|j: int| 0 <= j < i ==> #[trigger] self@[j] == old(self)@[j].evaluated(now),
                forall|j: int| i <= j < n ==> #[trigger] self@[j] == old(self)@[j],
                notifications.wf(),
                notifications.channels() == old(notifications).channels(),
                start == old(notifications).alerts().len(),
                start <= notifications.alerts().len(),
                notifications.alerts() == alerts_after_scan(
                    old(self)@.take(i as int),
                    old(notifications).channels(),
                    old(notifications).alerts(),
                    now,
                ),
            decreases n - i,
        {
            let ghost table = self@;
            assert(old(self)@.take(i as int + 1).drop_last() =~= old(self)@.take(i as int));
            assert(old(self)@.take(i as int + 1).last() == old(self)@[i as int]);
            assert(table[i as int] == self.checks@[i as int]@);
            let lapsed = self.checks[i].evaluate_overdue(now);
            assert(self@ =~= table.update(i as int, table[i as int].evaluated(now)));
            if lapsed {
                notifications.enqueue_alerts_for_check(self.checks[i].id, now);
            }
            i += 1;
        }
        assert(old(self)@.take(n as int) =~= old(self)@);
        assert(self@ =~= evaluated_table(old(self)@, now));
        notifications.alert_count() - start
    }

    /// Position of the first row that is the check `uuid` and visible to a
    /// caller with the project `project_id` and the accounts `accounts`.
    pub fn find_visible(&self, uuid: u128, project_id: i64, accounts: &Vec<i64>) -> (r: Option<usize>)
        ensures
            r is Some <==> can_see(self@, uuid, project_id, accounts@),
            r matches Some(i) ==> is_first_visible(self@, uuid, project_id, accounts@, i as int),
    {
        let n = self.checks.len();
        let mut i: usize = 0;
        while i < n
            invariant
                i <= n,
                n == self.checks.len(),
                forall|j: int|
                    0 <= j < i ==> !((#[trigger] self@[j]).uuid == uuid && visible(self@[j], project_id, accounts@)),
            decreases n - i,
        {
            let row = &self.checks[i];
            assert(self@[i as int] == row@);
            if row.uuid == uuid && row.project_id == project_id && !row.deleted && holds_id(
                accounts,
                row.account_id,
            ) {
                return Some(i);
            }
            i += 1;
        }
        None
    }

    /// The store's identifiers of the check `check_uuid` and of its
    /// account, for a caller with the project `project_id` and the accounts
    /// `accounts`.
    pub fn get_check_account_id(&self, check_uuid: u128, project_id: i64, accounts: &Vec<i64>) -> (r: Result<
        (i64, i64),
        RepositoryError,
    >)
        ensures
            r is Ok <==> can_see(self@, check_uuid, project_id, accounts@),
            r matches Ok(ids) ==> exists|i: int|
                is_first_visible(self@, check_uuid, project_id, accounts@, i) && ids == ((
                    #[trigger] self@[i]).id, self@[i].account_id),
            r matches Err(e) ==> is_not_found(e, "check"@, check_uuid),
    {
        match self.find_visible(check_uuid, project_id, accounts) {
            Some(i) => {
                assert(self@[i as int] == self.checks@[i as int]@);
                Ok((self.checks[i].id, self.checks[i].account_id))
            },
            None => Err(not_found("check", check_uuid)),
        }
    }

    /// Reads the check `check_uuid` of the project `project_uuid` for
    /// `identity`.
    ///
    /// A caller who is not assigned to the project is told that the project
    /// does not exist. A check that does not exist, is deleted, or belongs
    /// to another project or to an account of others does not exist for
    /// the caller.
    pub fn read_one(&self, identity: &Identity, project_uuid: u128, check_uuid: u128) -> (r: Result<
        Check,
        RepositoryError,
    >)
        ensures
            r is Ok <==> assigned(identity.project_ids@, project_uuid) && can_see(
                self@,
                check_uuid,
                assigned_id(identity.project_ids@, project_uuid),
                ids_of(identity.account_ids@),
            ),
            r matches Ok(c) ==> exists|i: int|
                is_first_visible(
                    self@,
                    check_uuid,
                    assigned_id(identity.project_ids@, project_uuid),
                    ids_of(identity.account_ids@),
                    i,
                ) && c@ == #[trigger] self@[i],
            r matches Err(e) ==> if assigned(identity.project_ids@, project_uuid) {
                is_not_found(e, "check"@, check_uuid)
            } else {
                is_not_found(e, "project"@, project_uuid)
            },
    {
        let project_id = match identity.get_project_id(project_uuid) {
            Ok(id) => id,
            Err(e) => {
                return Err(e);
            },
        };
        let accounts = identity.account_ids();
        match self.find_visible(check_uuid, project_id, &accounts) {
            Some(i) => {
                let c = self.checks[i].clone();
                assert(c@ == self@[i as int]);
                Ok(c)
            },
            None => Err(not_found("check", check_uuid)),
        }
    }

    /// Creates a check in the project `project_uuid` for `identity`.
    ///
    /// The caller must be assigned to the project and to the account that
    /// the request names. The new row holds what the request asks for and
    /// is in its initial state: never pinged, not deleted. What the store
    /// fills in on its own, such as the identifier, the UUID, the ping key
    /// and the schedule, is taken from `defaults`. A row whose identifier,
    /// UUID or ping key is taken is refused.
    pub fn create(&mut self, identity: &Identity, project_uuid: u128, request: CreateCheck, defaults: Check) -> (r:
        Result<Check, RepositoryError>)
        ensures
            r is Ok <==> {
                &&& assigned(identity.project_ids@, project_uuid)
                &&& assigned(identity.account_ids@, request.account_uuid)
                &&& !collides(old(self)@, defaults@)
            },
            r matches Ok(c) ==> c@ == created_check(
                defaults@,
                assigned_id(identity.account_ids@, request.account_uuid),
                assigned_id(identity.project_ids@, project_uuid),
                request.name@,
            ) && final(self)@ == old(self)@.push(c@),
            r matches Err(e) ==> final(self)@ == old(self)@ && if !assigned(identity.project_ids@, project_uuid) {
                is_not_found(e, "project"@, project_uuid)
            } else if !assigned(identity.account_ids@, request.account_uuid) {
                is_not_found(e, "account"@, request.account_uuid)
            } else {
                e.code() == Some(crate::repository::error::unique_violation_code())
            },
            old(self).wf() ==> final(self).wf(),
    {
        let project_id = match identity.get_project_id(project_uuid) {
            Ok(id) => id,
            Err(e) => {
                return Err(e);
            },
        };
        let account_id = match identity.get_account_id(request.account_uuid) {
            Ok(id) => id,
            Err(e) => {
                return Err(e);
            },
        };
        let mut row = defaults;
        row.account_id = account_id;
        row.project_id = project_id;
        row.name = request.name;
        row.status = crate::check::CheckStatus::Created;
        row.last_ping_at = None;
        row.updated_at = None;
        row.deleted = false;
        row.deleted_at = None;
        let copy = row.clone();
        assert(collides(self@, row@) == collides(self@, defaults@));
        match self.insert(row) {
            Ok(()) => Ok(copy),
            Err(e) => Err(e),
        }
    }

    /// Reads every check of the project `project_uuid` that `identity` may
    /// see, in table order.
    pub fn read_all(&self, identity: &Identity, project_uuid: u128) -> (r: Result<Vec<Check>, RepositoryError>)
        ensures
            r is Ok <==> assigned(identity.project_ids@, project_uuid),
            r matches Ok(rows) ==> check_views(rows@) == visible_rows(
                self@,
                assigned_id(identity.project_ids@, project_uuid),
                ids_of(identity.account_ids@),
            ),
            r matches Err(e) ==> is_not_found(e, "project"@, project_uuid),
    {
        let project_id = match identity.get_project_id(project_uuid) {
            Ok(id) => id,
            Err(e) => {
                return Err(e);
            },
        };
        let accounts = identity.account_ids();
        let mut rows: Vec<Check> = Vec::new();
        let n = self.checks.len();
        let mut i: usize = 0;
        while i < n
            invariant
                i <= n,
                n == self.checks.len(),
                check_views(rows@) == visible_rows(self@.take(i as int), project_id, accounts@),
            decreases n - i,
        {
            let row = &self.checks[i];
            assert(self@[i as int] == row@);
            assert(self@.take(i as int + 1).drop_last() =~= self@.take(i as int));
            assert(self@.take(i as int + 1).last() == row@);
            if row.project_id == project_id && !row.deleted && holds_id(&accounts, row.account_id) {
                let ghost earlier = check_views(rows@);
                let copy = row.clone();
                rows.push(copy);
                assert(check_views(rows@) =~= earlier.push(row@));
            }
            i += 1;
        }
        assert(self@.take(n as int) =~= self@);
        Ok(rows)
    }

    /// Applies `request` to the check `uuid` of the project `project_uuid`
    /// for `identity` and returns the check as it is afterwards.
    ///
    /// The check must exist for the caller, as for [`Self::read_one`];
    /// where it does not, nothing changes.
    pub fn update(&mut self, identity: &Identity, project_uuid: u128, uuid: u128, request: UpdateCheck) -> (r:
        Result<Check, RepositoryError>)
        ensures
            r is Ok <==> assigned(identity.project_ids@, project_uuid) && can_see(
                old(self)@,
                uuid,
                assigned_id(identity.project_ids@, project_uuid),
                ids_of(identity.account_ids@),
            ),
            r is Ok ==> final(self)@ == renamed_table(
                old(self)@,
                uuid,
                assigned_id(identity.project_ids@, project_uuid),
                ids_of(identity.account_ids@),
                crate::notification::option_text(request.name),
            ),
            r matches Ok(c) ==> exists|i: int|
                is_first_visible(
                    old(self)@,
                    uuid,
                    assigned_id(identity.project_ids@, project_uuid),
                    ids_of(identity.account_ids@),
                    i,
                ) && c@ == #[trigger] final(self)@[i],
            r matches Err(e) ==> final(self)@ == old(self)@ && if assigned(identity.project_ids@, project_uuid) {
                is_not_found(e, "check"@, uuid)
            } else {
                is_not_found(e, "project"@, project_uuid)
            },
            old(self).wf() ==> final(self).wf(),
    {
        let project_id = match identity.get_project_id(project_uuid) {
            Ok(id) => id,
            Err(e) => {
                return Err(e);
            },
        };
        let accounts = identity.account_ids();
        let first = match self.find_visible(uuid, project_id, &accounts) {
            Some(i) => i,
            None => {
                return Err(not_found("check", uuid));
            },
        };
        let ghost name = crate::notification::option_text(request.name);
        let n = self.checks.len();
        let mut i: usize = 0;
        while i < n
            invariant
                i <= n,
                n == self.checks.len(),
                first < n,
                name == crate::notification::option_text(request.name),
                self@.len() == old(self)@.len(),
                forall|j: int|
                    0 <= j < i ==> #[trigger] self@[j] == renamed_table(old(self)@, uuid, project_id, accounts@, name)[j],
                forall|j: int| i <= j < n ==> #[trigger] self@[j] == old(self)@[j],
            decreases n - i,
        {
            let ghost table = self@;
            assert(table[i as int] == self.checks@[i as int]@);
            let hit = self.checks[i].uuid == uuid && self.checks[i].project_id == project_id
                && !self.checks[i].deleted && holds_id(&accounts, self.checks[i].account_id);
            if hit {
                match &request.name {
                    Some(new_name) => {
                        self.checks[i].name = new_name.clone();
                        assert(self@ =~= table.update(i as int, renamed(table[i as int], name)));
                    },
                    None => {},
                }
            }
            i += 1;
        }
        assert(self@ =~= renamed_table(old(self)@, uuid, project_id, accounts@, name));
        let c = self.checks[first].clone();
        assert(c@ == self@[first as int]);
        Ok(c)
    }

    /// Deletes, at `now`, the check `uuid` of the project `project_uuid`
    /// for `identity`, and says whether there was such a check. The row
    /// stays in the table, marked as deleted.
    pub fn delete(&mut self, identity: &Identity, project_uuid: u128, uuid: u128, now: i64) -> (r: Result<
        bool,
        RepositoryError,
    >)
        ensures
            r is Ok <==> assigned(identity.project_ids@, project_uuid),
            r is Ok ==> final(self)@ == deleted_table(
                old(self)@,
                uuid,
                assigned_id(identity.project_ids@, project_uuid),
                ids_of(identity.account_ids@),
                now,
            ),
            r matches Ok(found) ==> found == exists|i: int|
                0 <= i < old(self)@.len() && owned(
                    #[trigger] old(self)@[i],
                    uuid,
                    assigned_id(identity.project_ids@, project_uuid),
                    ids_of(identity.account_ids@),
                ),
            r matches Err(e) ==> final(self)@ == old(self)@ && is_not_found(e, "project"@, project_uuid),
            old(self).wf() ==> final(self).wf(),
    {
        let project_id = match identity.get_project_id(project_uuid) {
            Ok(id) => id,
            Err(e) => {
                return Err(e);
            },
        };
        let accounts = identity.account_ids();
        let mut found = false;
        let n = self.checks.len();
        let mut i: usize = 0;
        while i < n
            invariant
                i <= n,
                n == self.checks.len(),
                self@.len() == old(self)@.len(),
                forall|j: int|
                    0 <= j < i ==> #[trigger] self@[j] == deleted_table(old(self)@, uuid, project_id, accounts@, now)[j],
                forall|j: int| i <= j < n ==> #[trigger] self@[j] == old(self)@[j],
                found == exists|j: int|
                    0 <= j < i && owned(#[trigger] old(self)@[j], uuid, project_id, accounts@),
            decreases n - i,
        {
            let ghost table = self@;
            assert(table[i as int] == self.checks@[i as int]@);
            let hit = self.checks[i].uuid == uuid && self.checks[i].project_id == project_id && holds_id(
                &accounts,
                self.checks[i].account_id,
            );
            if hit {
                self.checks[i].deleted = true;
                self.checks[i].deleted_at = Some(now);
                assert(self@ =~= table.update(i as int, deleted_at(table[i as int], now)));
                found = true;
                assert(owned(old(self)@[i as int], uuid, project_id, accounts@));
            }
            i += 1;
        }
        assert(self@ =~= deleted_table(old(self)@, uuid, project_id, accounts@, now));
        Ok(found)
    }
}

} // verus!
