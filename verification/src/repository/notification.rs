//! The table of notification channels and the alert queue.

use crate::auth::{assigned, assigned_id, ids_of, is_not_found, not_found, Identity};
use crate::check::{clone_option_string, CheckView};
use crate::notification::{
    option_text, AlertEntry, DispatchOutcome, Notification, NotificationAlert, NotificationType,
    NotificationView,
};
use crate::repository::check::{check_of, CheckRepository};
use crate::repository::error::{unique_violation_code, RepositoryError};
use crate::repository::queue::{
    alert_views, batch_claimed, batch_positions, channel_of, channel_views, deliverable,
    delivered_of, dispatch_view, has_channel, has_outstanding, ids_are_positions, is_first_channel,
    lemma_raising_keeps_queue, lemma_recording_keeps_queue, outcome_recorded, outcome_views,
    outcomes_recorded, queue_wf, raised_for_check, released_by,
};
use vstd::prelude::*;

verus! {

/// The channel `c` takes an identifier or a UUID that is already in
/// `channels`.
pub open spec fn channel_collides(channels: Seq<NotificationView>, c: NotificationView) -> bool {
    exists|i: int|
        0 <= i < channels.len() && ((#[trigger] channels[i]).id == c.id || channels[i].uuid == c.uuid)
}

/// What a caller asks for when creating a channel.
#[derive(Debug)]
pub struct CreateNotification {
    pub notification_type: NotificationType,
    pub name: Option<String>,
    pub email: Option<String>,
    pub url: Option<String>,
    pub max_retries: Option<i32>,
}

/// What a caller may change of a channel; `None` leaves a field as it is.
/// The kind of a channel is never changed.
#[derive(Debug)]
pub struct UpdateNotification {
    pub name: Option<String>,
    pub notification_type: Option<NotificationType>,
    pub email: Option<String>,
    pub url: Option<String>,
    pub max_retries: Option<i32>,
}

/// Mathematical value of an [`UpdateNotification`].
pub struct UpdateNotificationView {
    pub name: Option<Seq<char>>,
    pub email: Option<Seq<char>>,
    pub url: Option<Seq<char>>,
    pub max_retries: Option<i32>,
}

impl View for UpdateNotification {
    type V = UpdateNotificationView;

    open spec fn view(&self) -> UpdateNotificationView {
        UpdateNotificationView {
            name: option_text(self.name),
            email: option_text(self.email),
            url: option_text(self.url),
            max_retries: self.max_retries,
        }
    }
}

/// Mathematical value of a [`CreateNotification`].
pub struct CreateNotificationView {
    pub notification_type: NotificationType,
    pub name: Option<Seq<char>>,
    pub email: Option<Seq<char>>,
    pub url: Option<Seq<char>>,
    pub max_retries: Option<i32>,
}

impl View for CreateNotification {
    type V = CreateNotificationView;

    open spec fn view(&self) -> CreateNotificationView {
        CreateNotificationView {
            notification_type: self.notification_type,
            name: option_text(self.name),
            email: option_text(self.email),
            url: option_text(self.url),
            max_retries: self.max_retries,
        }
    }
}

/// The row of a new channel of the check `check_id`: what the caller asks
/// for, live, with everything else as in `defaults`. A name and a retry
/// budget that the caller leaves open are those of `defaults`.
pub open spec fn created_channel(defaults: NotificationView, check_id: i64, request: CreateNotificationView) -> NotificationView {
    NotificationView {
        check_id,
        notification_type: request.notification_type,
        name: match request.name {
            Some(n) => n,
            None => defaults.name,
        },
        email: request.email,
        url: request.url,
        max_retries: match request.max_retries {
            Some(m) => m,
            None => defaults.max_retries,
        },
        updated_at: None,
        deleted: false,
        deleted_at: None,
        ..defaults
    }
}

/// The row is the live channel `uuid` of the check `check_id`.
pub open spec fn is_channel(c: NotificationView, uuid: u128, check_id: i64) -> bool {
    c.uuid == uuid && c.check_id == check_id && !c.deleted
}

/// `i` is the first row that is the live channel `uuid` of the check
/// `check_id`.
pub open spec fn is_first_live_channel(channels: Seq<NotificationView>, uuid: u128, check_id: i64, i: int) -> bool {
    &&& 0 <= i < channels.len()
    &&& is_channel(channels[i], uuid, check_id)
    &&& forall|j: int| 0 <= j < i ==> !is_channel(#[trigger] channels[j], uuid, check_id)
}

/// Some row is the live channel `uuid` of the check `check_id`.
pub open spec fn has_live_channel(channels: Seq<NotificationView>, uuid: u128, check_id: i64) -> bool {
    exists|i: int| 0 <= i < channels.len() && is_channel(#[trigger] channels[i], uuid, check_id)
}

/// The live channels of the check `check_id`, in table order.
pub open spec fn channels_of_check(channels: Seq<NotificationView>, check_id: i64) -> Seq<NotificationView>
    decreases channels.len(),
{
    if channels.len() == 0 {
        Seq::empty()
    } else if channels.last().check_id == check_id && !channels.last().deleted {
        channels_of_check(channels.drop_last(), check_id).push(channels.last())
    } else {
        channels_of_check(channels.drop_last(), check_id)
    }
}

/// The channel after the update `request` at `now`: every given field
/// replaces the old one, and the time of the update is recorded.
pub open spec fn updated_channel(c: NotificationView, request: UpdateNotificationView, now: i64) -> NotificationView {
    NotificationView {
        name: match request.name {
            Some(n) => n,
            None => c.name,
        },
        email: match request.email {
            Some(e) => Some(e),
            None => c.email,
        },
        url: match request.url {
            Some(u) => Some(u),
            None => c.url,
        },
        max_retries: match request.max_retries {
            Some(m) => m,
            None => c.max_retries,
        },
        updated_at: Some(now),
        ..c
    }
}

/// The table after the live channel `uuid` of the check `check_id` was
/// updated.
pub open spec fn updated_channels(
    channels: Seq<NotificationView>,
    uuid: u128,
    check_id: i64,
    request: UpdateNotificationView,
    now: i64,
) -> Seq<NotificationView> {
    Seq::new(
        channels.len(),
        |i: int|
            if is_channel(channels[i], uuid, check_id) {
                updated_channel(channels[i], request, now)
            } else {
                channels[i]
            },
    )
}

/// The table after the channel `uuid` of the check `check_id` was deleted
/// at `now`.
pub open spec fn deleted_channels(channels: Seq<NotificationView>, uuid: u128, check_id: i64, now: i64) -> Seq<
    NotificationView,
> {
    Seq::new(
        channels.len(),
        |i: int|
            if channels[i].uuid == uuid && channels[i].check_id == check_id {
                NotificationView { deleted: true, deleted_at: Some(now), ..channels[i] }
            } else {
                channels[i]
            },
    )
}

/// The check that a caller names, as the caller may see it: the store's
/// identifier of the first row of `checks` that is the check `check_uuid`
/// and visible to `identity` in the project `project_uuid`.
pub open spec fn named_check(checks: Seq<CheckView>, identity: Identity, project_uuid: u128, check_uuid: u128) -> Option<
    i64,
> {
    if assigned(identity.project_ids@, project_uuid) && crate::repository::check::can_see(
        checks,
        check_uuid,
        assigned_id(identity.project_ids@, project_uuid),
        ids_of(identity.account_ids@),
    ) {
        Some(
            checks[choose|i: int|
                crate::repository::check::is_first_visible(
                    checks,
                    check_uuid,
                    assigned_id(identity.project_ids@, project_uuid),
                    ids_of(identity.account_ids@),
                    i,
                )].id,
        )
    } else {
        None
    }
}

/// The error that a caller gets who names a check that does not exist for
/// the caller: the project, where the caller is not assigned to it, else
/// the check.
pub open spec fn is_check_refusal(e: RepositoryError, identity: Identity, project_uuid: u128, check_uuid: u128) -> bool {
    if assigned(identity.project_ids@, project_uuid) {
        is_not_found(e, "check"@, check_uuid)
    } else {
        is_not_found(e, "project"@, project_uuid)
    }
}

/// The table of notification channels together with the alert queue.
pub struct NotificationRepository {
    notifications: Vec<Notification>,
    alerts: Vec<AlertEntry>,
}

impl NotificationRepository {
    /// The channels, in insertion order.
    pub closed spec fn channels(&self) -> Seq<NotificationView> {
        Seq::new(self.notifications@.len(), |i: int| self.notifications@[i]@)
    }

    /// The alert queue, in the order in which the entries were raised.
    pub closed spec fn alerts(&self) -> Seq<AlertEntry> {
        self.alerts@
    }

    /// The repository's invariant.
    pub open spec fn wf(&self) -> bool {
        queue_wf(self.channels(), self.alerts())
    }

    /// No channels and an empty queue.
    pub fn new() -> (r: Self)
        ensures
            r.channels() == Seq::<NotificationView>::empty(),
            r.alerts() == Seq::<AlertEntry>::empty(),
            r.wf(),
    {
        let r = NotificationRepository { notifications: Vec::new(), alerts: Vec::new() };
        assert(r.channels() =~= Seq::<NotificationView>::empty());
        assert(r.alerts() =~= Seq::<AlertEntry>::empty());
        r
    }

    /// Number of channels, deleted ones included.
    pub fn channel_count(&self) -> (n: usize)
        ensures
            n == self.channels().len(),
    {
        self.notifications.len()
    }

    /// The channel at position `i`, or `None` past the end of the table.
    pub fn channel(&self, i: usize) -> (c: Option<&Notification>)
        ensures
            c is Some <==> i < self.channels().len(),
            c matches Some(r) ==> r@ == self.channels()[i as int],
    {
        if i < self.notifications.len() {
            Some(&self.notifications[i])
        } else {
            None
        }
    }

    /// Number of entries in the queue, terminal ones included.
    pub fn alert_count(&self) -> (n: usize)
        ensures
            n == self.alerts().len(),
    {
        self.alerts.len()
    }

    /// The queue entry with identifier `id`, or `None` where the queue
    /// holds none.
    pub fn alert(&self, id: u64) -> (a: Option<AlertEntry>)
        ensures
            a is Some <==> id < self.alerts().len(),
            a matches Some(e) ==> e == self.alerts()[id as int],
    {
        if id < self.alerts.len() as u64 {
            Some(self.alerts[id as usize])
        } else {
            None
        }
    }

    /// Appends `channel`, unless its identifier or UUID is taken: then the
    /// table is left as it is and the error is the store's uniqueness
    /// violation.
    pub fn insert(&mut self, channel: Notification) -> (r: Result<(), RepositoryError>)
        ensures
            r is Ok <==> !channel_collides(old(self).channels(), channel@),
            r is Ok ==> final(self).channels() == old(self).channels().push(channel@),
            r matches Err(e) ==> final(self).channels() == old(self).channels() && e.code() == Some(
                unique_violation_code(),
            ),
            final(self).alerts() == old(self).alerts(),
            old(self).wf() ==> final(self).wf(),
    {
        let n = self.notifications.len();
        let mut i: usize = 0;
        while i < n
            invariant
                i <= n,
                n == self.notifications.len(),
                *self == *old(self),
                forall|j: int|
                    0 <= j < i ==> (#[trigger] self.channels()[j]).id != channel@.id && self.channels()[j].uuid
                        != channel@.uuid,
            decreases n - i,
        {
            let row = &self.notifications[i];
            assert(self.channels()[i as int] == row@);
            if row.id == channel.id || row.uuid == channel.uuid {
                return Err(RepositoryError::unique_constraint_violation());
            }
            i += 1;
        }
        self.notifications.push(channel);
        assert(self.channels() =~= old(self).channels().push(channel@));
        Ok(())
    }

    /// Position of the first channel with the identifier `id`.
    pub fn position_of(&self, id: i64) -> (r: Option<usize>)
        ensures
            r is Some <==> has_channel(self.channels(), id),
            r matches Some(i) ==> is_first_channel(self.channels(), id, i as int) && self.channels()[i as int]
                == channel_of(self.channels(), id),
    {
        let n = self.notifications.len();
        let mut i: usize = 0;
        while i < n
            invariant
                i <= n,
                n == self.notifications.len(),
                forall|j: int| 0 <= j < i ==> (#[trigger] self.channels()[j]).id != id,
            decreases n - i,
        {
            assert(self.channels()[i as int] == self.notifications@[i as int]@);
            if self.notifications[i].id == id {
                proof {
                    let w = choose|w: int| is_first_channel(self.channels(), id, w);
                    assert(is_first_channel(self.channels(), id, i as int));
                    assert(w == i);
                }
                return Some(i);
            }
            i += 1;
        }
        None
    }

    /// The store's identifier of the check that a caller names, as the
    /// caller may see it.
    pub fn resolve_check(checks: &CheckRepository, identity: &Identity, project_uuid: u128, check_uuid: u128) -> (r:
        Result<i64, RepositoryError>)
        ensures
            r is Ok <==> named_check(checks@, *identity, project_uuid, check_uuid) is Some,
            r matches Ok(id) ==> named_check(checks@, *identity, project_uuid, check_uuid) == Some(id),
            r matches Err(e) ==> is_check_refusal(e, *identity, project_uuid, check_uuid),
    {
        let project_id = match identity.get_project_id(project_uuid) {
            Ok(id) => id,
            Err(e) => {
                return Err(e);
            },
        };
        let accounts = identity.account_ids();
        match checks.get_check_account_id(check_uuid, project_id, &accounts) {
            Ok(ids) => {
                proof {
                    let i = choose|i: int|
                        crate::repository::check::is_first_visible(checks@, check_uuid, project_id, accounts@, i)
                            && ids == ((#[trigger] checks@[i]).id, checks@[i].account_id);
                    let w = choose|w: int|
                        crate::repository::check::is_first_visible(checks@, check_uuid, project_id, accounts@, w);
                    assert(w == i);
                }
                Ok(ids.0)
            },
            Err(e) => Err(e),
        }
    }

    /// Position of the first row that is the live channel `uuid` of the
    /// check `check_id`.
    pub fn find_live_channel(&self, uuid: u128, check_id: i64) -> (r: Option<usize>)
        ensures
            r is Some <==> has_live_channel(self.channels(), uuid, check_id),
            r matches Some(i) ==> is_first_live_channel(self.channels(), uuid, check_id, i as int),
    {
        let n = self.notifications.len();
        let mut i: usize = 0;
        while i < n
            invariant
                i <= n,
                n == self.notifications.len(),
                forall|j: int| 0 <= j < i ==> !is_channel(#[trigger] self.channels()[j], uuid, check_id),
            decreases n - i,
        {
            let row = &self.notifications[i];
            assert(self.channels()[i as int] == row@);
            if row.uuid == uuid && row.check_id == check_id && !row.deleted {
                return Some(i);
            }
            i += 1;
        }
        None
    }

    /// Reads the channel `uuid` of the check `check_uuid` for `identity`.
    /// The check must exist for the caller, and the channel must be a live
    /// channel of it.
    pub fn read_one(
        &self,
        checks: &CheckRepository,
        identity: &Identity,
        project_uuid: u128,
        check_uuid: u128,
        uuid: u128,
    ) -> (r: Result<Notification, RepositoryError>)
        ensures
            r is Ok <==> (named_check(checks@, *identity, project_uuid, check_uuid) matches Some(id)
                && has_live_channel(self.channels(), uuid, id)),
            r matches Ok(c) ==> exists|i: int|
                is_first_live_channel(
                    self.channels(),
                    uuid,
                    named_check(checks@, *identity, project_uuid, check_uuid)->0,
                    i,
                ) && c@ == #[trigger] self.channels()[i],
            r matches Err(e) ==> if named_check(checks@, *identity, project_uuid, check_uuid) is Some {
                is_not_found(e, "notification"@, uuid)
            } else {
                is_check_refusal(e, *identity, project_uuid, check_uuid)
            },
    {
        let check_id = match Self::resolve_check(checks, identity, project_uuid, check_uuid) {
            Ok(id) => id,
            Err(e) => {
                return Err(e);
            },
        };
        match self.find_live_channel(uuid, check_id) {
            Some(i) => {
                let c = self.notifications[i].clone();
                assert(c@ == self.channels()[i as int]);
                Ok(c)
            },
            None => Err(not_found("notification", uuid)),
        }
    }

    /// Creates a channel of the check `check_uuid` for `identity`.
    ///
    /// The check must exist for the caller. The new row holds what the
    /// request asks for; what the store fills in on its own, such as the
    /// identifier and the UUID, is taken from `defaults`. A row whose
    /// identifier or UUID is taken is refused. The alert queue is not
    /// touched.
    pub fn create(
        &mut self,
        checks: &CheckRepository,
        identity: &Identity,
        project_uuid: u128,
        check_uuid: u128,
        request: CreateNotification,
        defaults: Notification,
    ) -> (r: Result<Notification, RepositoryError>)
        ensures
            final(self).alerts() == old(self).alerts(),
            r is Ok <==> named_check(checks@, *identity, project_uuid, check_uuid) is Some && !channel_collides(
                old(self).channels(),
                defaults@,
            ),
            r matches Ok(c) ==> c@ == created_channel(
                defaults@,
                named_check(checks@, *identity, project_uuid, check_uuid)->0,
                request@,
            ) && final(self).channels() == old(self).channels().push(c@),
            r matches Err(e) ==> final(self).channels() == old(self).channels() && if named_check(
                checks@,
                *identity,
                project_uuid,
                check_uuid,
            ) is Some {
                e.code() == Some(unique_violation_code())
            } else {
                is_check_refusal(e, *identity, project_uuid, check_uuid)
            },
            old(self).wf() ==> final(self).wf(),
    {
        let check_id = match Self::resolve_check(checks, identity, project_uuid, check_uuid) {
            Ok(id) => id,
            Err(e) => {
                return Err(e);
            },
        };
        let ghost wanted = request@;
        let mut row = defaults;
        row.check_id = check_id;
        row.notification_type = request.notification_type;
        match request.name {
            Some(name) => {
                row.name = name;
            },
            None => {},
        }
        row.email = request.email;
        row.url = request.url;
        match request.max_retries {
            Some(max_retries) => {
                row.max_retries = max_retries;
            },
            None => {},
        }
        row.updated_at = None;
        row.deleted = false;
        row.deleted_at = None;
        assert(row@ == created_channel(defaults@, check_id, wanted));
        let copy = row.clone();
        assert(channel_collides(self.channels(), row@) == channel_collides(self.channels(), defaults@));
        match self.insert(row) {
            Ok(()) => Ok(copy),
            Err(e) => Err(e),
        }
    }

    /// Reads the live channels of the check `check_uuid` for `identity`,
    /// in table order. A check that does not exist for the caller has no
    /// channels.
    pub fn read_all(&self, checks: &CheckRepository, identity: &Identity, project_uuid: u128, check_uuid: u128) -> (r:
        Result<Vec<Notification>, RepositoryError>)
        ensures
            r is Ok <==> assigned(identity.project_ids@, project_uuid),
            r matches Ok(rows) ==> channel_views(rows@) == match named_check(
                checks@,
                *identity,
                project_uuid,
                check_uuid,
            ) {
                Some(id) => channels_of_check(self.channels(), id),
                None => Seq::<NotificationView>::empty(),
            },
            r matches Err(e) ==> is_not_found(e, "project"@, project_uuid),
    {
        let mut rows: Vec<Notification> = Vec::new();
        let check_id = match Self::resolve_check(checks, identity, project_uuid, check_uuid) {
            Ok(id) => id,
            Err(e) => {
                if identity.is_assigned_to_project(project_uuid) {
                    assert(channel_views(rows@) =~= Seq::<NotificationView>::empty());
                    return Ok(rows);
                }
                return Err(e);
            },
        };
        let n = self.notifications.len();
        let mut i: usize = 0;
        while i < n
            invariant
                i <= n,
                n == self.notifications.len(),
                channel_views(rows@) == channels_of_check(self.channels().take(i as int), check_id),
            decreases n - i,
        {
            let row = &self.notifications[i];
            assert(self.channels()[i as int] == row@);
            assert(self.channels().take(i as int + 1).drop_last() =~= self.channels().take(i as int));
            assert(self.channels().take(i as int + 1).last() == row@);
            if row.check_id == check_id && !row.deleted {
                let ghost earlier = channel_views(rows@);
                let copy = row.clone();
                rows.push(copy);
                assert(channel_views(rows@) =~= earlier.push(row@));
            }
            i += 1;
        }
        assert(self.channels().take(n as int) =~= self.channels());
        Ok(rows)
    }

    /// Applies `request`, at `now`, to the channel `uuid` of the check
    /// `check_uuid` for `identity`, and returns the channel as it is
    /// afterwards. Where the channel does not exist for the caller, nothing
    /// changes. The alert queue is never touched.
    pub fn update(
        &mut self,
        checks: &CheckRepository,
        identity: &Identity,
        project_uuid: u128,
        check_uuid: u128,
        uuid: u128,
        request: UpdateNotification,
        now: i64,
    ) -> (r: Result<Notification, RepositoryError>)
        ensures
            final(self).alerts() == old(self).alerts(),
            r is Ok <==> (named_check(checks@, *identity, project_uuid, check_uuid) matches Some(id)
                && has_live_channel(old(self).channels(), uuid, id)),
            r is Ok ==> final(self).channels() == updated_channels(
                old(self).channels(),
                uuid,
                named_check(checks@, *identity, project_uuid, check_uuid)->0,
                request@,
                now,
            ),
            r matches Ok(c) ==> exists|i: int|
                is_first_live_channel(
                    old(self).channels(),
                    uuid,
                    named_check(checks@, *identity, project_uuid, check_uuid)->0,
                    i,
                ) && c@ == #[trigger] final(self).channels()[i],
            r matches Err(e) ==> final(self).channels() == old(self).channels() && if named_check(
                checks@,
                *identity,
                project_uuid,
                check_uuid,
            ) is Some {
                is_not_found(e, "notification"@, uuid)
            } else {
                is_check_refusal(e, *identity, project_uuid, check_uuid)
            },
            old(self).wf() ==> final(self).wf(),
    {
        let check_id = match Self::resolve_check(checks, identity, project_uuid, check_uuid) {
            Ok(id) => id,
            Err(e) => {
                return Err(e);
            },
        };
        let first = match self.find_live_channel(uuid, check_id) {
            Some(i) => i,
            None => {
                return Err(not_found("notification", uuid));
            },
        };
        let n = self.notifications.len();
        let mut i: usize = 0;
        while i < n
            invariant
                i <= n,
                n == self.notifications.len(),
                first < n,
                self.alerts() == old(self).alerts(),
                self.channels().len() == old(self).channels().len(),
                forall|j: int|
                    0 <= j < i ==> #[trigger] self.channels()[j] == updated_channels(
                        old(self).channels(),
                        uuid,
                        check_id,
                        request@,
                        now,
                    )[j],
                forall|j: int| i <= j < n ==> #[trigger] self.channels()[j] == old(self).channels()[j],
            decreases n - i,
        {
            let ghost table = self.channels();
            assert(table[i as int] == self.notifications@[i as int]@);
            let hit = self.notifications[i].uuid == uuid && self.notifications[i].check_id == check_id
                && !self.notifications[i].deleted;
            if hit {
                match &request.name {
                    Some(name) => {
                        self.notifications[i].name = name.clone();
                    },
                    None => {},
                }
                match &request.email {
                    Some(email) => {
                        self.notifications[i].email = Some(email.clone());
                    },
                    None => {},
                }
                match &request.url {
                    Some(url) => {
                        self.notifications[i].url = Some(url.clone());
                    },
                    None => {},
                }
                match request.max_retries {
                    Some(max_retries) => {
                        self.notifications[i].max_retries = max_retries;
                    },
                    None => {},
                }
                self.notifications[i].updated_at = Some(now);
                assert(self.channels() =~= table.update(i as int, updated_channel(table[i as int], request@, now)));
            }
            i += 1;
        }
        assert(self.channels() =~= updated_channels(old(self).channels(), uuid, check_id, request@, now));
        let c = self.notifications[first].clone();
        assert(c@ == self.channels()[first as int]);
        Ok(c)
    }

    /// Deletes, at `now`, the channel `uuid` of the check `check_uuid` for
    /// `identity`, and says whether there was such a channel. The row
    /// stays in the table, marked as deleted; alerts that are already in
    /// the queue are not retracted.
    pub fn delete(
        &mut self,
        checks: &CheckRepository,
        identity: &Identity,
        project_uuid: u128,
        check_uuid: u128,
        uuid: u128,
        now: i64,
    ) -> (r: Result<bool, RepositoryError>)
        ensures
            final(self).alerts() == old(self).alerts(),
            r is Ok <==> named_check(checks@, *identity, project_uuid, check_uuid) is Some,
            r is Ok ==> final(self).channels() == deleted_channels(
                old(self).channels(),
                uuid,
                named_check(checks@, *identity, project_uuid, check_uuid)->0,
                now,
            ),
            r matches Ok(found) ==> found == exists|i: int|
                0 <= i < old(self).channels().len() && (#[trigger] old(self).channels()[i]).uuid == uuid && old(
                    self,
                ).channels()[i].check_id == named_check(checks@, *identity, project_uuid, check_uuid)->0,
            r matches Err(e) ==> final(self).channels() == old(self).channels() && is_check_refusal(
                e,
                *identity,
                project_uuid,
                check_uuid,
            ),
            old(self).wf() ==> final(self).wf(),
    {
        let check_id = match Self::resolve_check(checks, identity, project_uuid, check_uuid) {
            Ok(id) => id,
            Err(e) => {
                return Err(e);
            },
        };
        let mut found = false;
        let n = self.notifications.len();
        let mut i: usize = 0;
        while i < n
            invariant
                i <= n,
                n == self.notifications.len(),
                self.alerts() == old(self).alerts(),
                self.channels().len() == old(self).channels().len(),
                forall|j: int|
                    0 <= j < i ==> #[trigger] self.channels()[j] == deleted_channels(
                        old(self).channels(),
                        uuid,
                        check_id,
                        now,
                    )[j],
                forall|j: int| i <= j < n ==> #[trigger] self.channels()[j] == old(self).channels()[j],
                found == exists|j: int|
                    0 <= j < i && (#[trigger] old(self).channels()[j]).uuid == uuid && old(self).channels()[j].check_id
                        == check_id,
            decreases n - i,
        {
            let ghost table = self.channels();
            assert(table[i as int] == self.notifications@[i as int]@);
            if self.notifications[i].uuid == uuid && self.notifications[i].check_id == check_id {
                self.notifications[i].deleted = true;
                self.notifications[i].deleted_at = Some(now);
                assert(self.channels() =~= table.update(
                    i as int,
                    (NotificationView { deleted: true, deleted_at: Some(now), ..table[i as int] }),
                ));
                found = true;
                assert(old(self).channels()[i as int].uuid == uuid);
            }
            i += 1;
        }
        assert(self.channels() =~= deleted_channels(old(self).channels(), uuid, check_id, now));
        Ok(found)
    }

    /// Position of the oldest entry that a worker may take now, with the
    /// positions of its channel and of its check.
    fn oldest_deliverable(&self, checks: &CheckRepository) -> (r: Option<(usize, usize, usize)>)
        ensures
            r is None ==> forall|k: int|
                0 <= k < self.alerts().len() ==> !deliverable(#[trigger] self.alerts()[k], self.channels(), checks@),
            r matches Some((k, c, h)) ==> {
                &&& k < self.alerts().len()
                &&& deliverable(self.alerts()[k as int], self.channels(), checks@)
                &&& c < self.channels().len()
                &&& self.channels()[c as int] == channel_of(self.channels(), self.alerts()[k as int].notification_id)
                &&& h < checks@.len()
                &&& checks@[h as int] == check_of(checks@, self.alerts()[k as int].check_id)
                &&& forall|j: int|
                    0 <= j < self.alerts().len() && deliverable(#[trigger] self.alerts()[j], self.channels(), checks@)
                        ==> self.alerts()[k as int].created_at <= self.alerts()[j].created_at
            },
    {
        let n = self.alerts.len();
        let mut best: Option<(usize, usize, usize)> = None;
        let mut k: usize = 0;
        while k < n
            invariant
                k <= n,
                n == self.alerts.len(),
                best is None ==> forall|j: int|
                    0 <= j < k ==> !deliverable(#[trigger] self.alerts()[j], self.channels(), checks@),
                best matches Some((b, c, h)) ==> {
                    &&& b < k
                    &&& deliverable(self.alerts()[b as int], self.channels(), checks@)
                    &&& c < self.channels().len()
                    &&& self.channels()[c as int] == channel_of(
                        self.channels(),
                        self.alerts()[b as int].notification_id,
                    )
                    &&& h < checks@.len()
                    &&& checks@[h as int] == check_of(checks@, self.alerts()[b as int].check_id)
                    &&& forall|j: int|
                        0 <= j < k && deliverable(#[trigger] self.alerts()[j], self.channels(), checks@)
                            ==> self.alerts()[b as int].created_at <= self.alerts()[j].created_at
                },
            decreases n - k,
        {
            let a = self.alerts[k];
            let older = match best {
                None => true,
                Some((b, _, _)) => a.created_at < self.alerts[b].created_at,
            };
            if older && a.is_claimable() {
                match self.position_of(a.notification_id) {
                    Some(c) => {
                        match checks.position_of(a.check_id) {
                            Some(h) => {
                                best = Some((k, c, h));
                            },
                            None => {},
                        }
                    },
                    None => {},
                }
            }
            k += 1;
        }
        best
    }

    /// Claims a batch of at most `limit` alerts for `worker`.
    ///
    /// The batch holds the oldest entries that are outstanding and that no
    /// worker holds, each joined with its channel and with its check in
    /// `checks`. Every entry of the batch is locked for `worker`, so that
    /// no later claim takes it before the lock is released.
    pub fn claim_alert_batch(&mut self, checks: &CheckRepository, worker: u64, limit: usize) -> (batch: Vec<
        NotificationAlert,
    >)
        requires
            old(self).wf(),
        ensures
            final(self).wf(),
            final(self).channels() == old(self).channels(),
            batch_claimed(
                old(self).alerts(),
                final(self).alerts(),
                batch_positions(batch@),
                worker,
                limit as int,
                old(self).channels(),
                checks@,
            ),
            forall|p: int|
                0 <= p < batch@.len() ==> (#[trigger] batch@[p])@ == dispatch_view(
                    old(self).alerts()[batch@[p].id as int],
                    old(self).channels(),
                    checks@,
                ),
    {
        let mut batch: Vec<NotificationAlert> = Vec::new();
        let mut done = false;
        let ghost before = self.alerts();
        let ghost channels = self.channels();
        let ghost mut picked: Seq<int> = Seq::empty();
        while !done && batch.len() < limit
            invariant
                self.channels() == channels,
                before == old(self).alerts(),
                channels == old(self).channels(),
                ids_are_positions(before),
                self.alerts().len() == before.len(),
                picked.len() == batch@.len(),
                batch@.len() <= limit,
                forall|p: int|
                    0 <= p < picked.len() ==> 0 <= #[trigger] picked[p] < before.len() && deliverable(
                        before[picked[p]],
                        channels,
                        checks@,
                    ),
                forall|p: int|
                    0 <= p < batch@.len() ==> (#[trigger] batch@[p]).id == picked[p] && batch@[p]@ == dispatch_view(
                        before[picked[p]],
                        channels,
                        checks@,
                    ),
                forall|p: int, q: int| 0 <= p < q < picked.len() ==> #[trigger] picked[p] != #[trigger] picked[q],
                forall|k: int|
                    0 <= k < before.len() ==> #[trigger] self.alerts()[k] == if picked.contains(k) {
                        before[k].claimed(worker)
                    } else {
                        before[k]
                    },
                forall|p: int, q: int|
                    0 <= p < q < picked.len() ==> before[#[trigger] picked[p]].created_at <= before[
                    #[trigger] picked[q]].created_at,
                forall|k: int, p: int|
                    0 <= k < before.len() && deliverable(#[trigger] before[k], channels, checks@)
                        && !picked.contains(k) && 0 <= p < picked.len() ==> before[
                    #[trigger] picked[p]].created_at <= before[k].created_at,
                done ==> forall|k: int|
                    0 <= k < before.len() && deliverable(#[trigger] before[k], channels, checks@)
                        ==> picked.contains(k),
            decreases (if done { 0int } else { 1int }), limit - batch@.len(),
        {
            match self.oldest_deliverable(checks) {
                None => {
                    done = true;
                    assert forall|k: int|
                        0 <= k < before.len() && deliverable(
                            #[trigger] before[k],
                            channels,
                            checks@,
                        ) implies picked.contains(k) by {
                        if !picked.contains(k) {
                            assert(self.alerts()[k] == before[k]);
                        }
                    }
                },
                Some((k, c, h)) => {
                    let ghost current = self.alerts();
                    assert(!picked.contains(k as int)) by {
                        if picked.contains(k as int) {
                            assert(current[k as int] == before[k as int].claimed(worker));
                        }
                    }
                    assert(current[k as int] == before[k as int]);
                    let entry = self.alerts[k];
                    let channel = &self.notifications[c];
                    let check = checks.get(h);
                    assert(channel@ == self.channels()[c as int]);
                    let alert = NotificationAlert {
                        id: entry.id,
                        check_uuid: check.uuid,
                        notification_type: channel.notification_type,
                        name: check.name.clone(),
                        email: crate::check::clone_option_string(&channel.email),
                        url: crate::check::clone_option_string(&channel.url),
                        retries_remaining: entry.retries_remaining,
                        max_retries: channel.max_retries,
                        last_ping_at: check.last_ping_at,
                    };
                    assert(alert@ == dispatch_view(before[k as int], channels, checks@));
                    self.alerts[k].claimed_by = Some(worker);
                    batch.push(alert);
                    proof {
                        let ghost earlier = picked;
                        picked = picked.push(k as int);
                        assert forall|j: int| 0 <= j < before.len() implies #[trigger] self.alerts()[j] == if picked.contains(
                            j,
                        ) {
                            before[j].claimed(worker)
                        } else {
                            before[j]
                        } by {
                            if j == k {
                                assert(picked[picked.len() - 1] == j);
                            } else if earlier.contains(j) {
                                let w = choose|w: int| 0 <= w < earlier.len() && earlier[w] == j;
                                assert(picked[w] == j);
                            } else {
                                if picked.contains(j) {
                                    let w = choose|w: int| 0 <= w < picked.len() && picked[w] == j;
                                    assert(w < earlier.len());
                                    assert(earlier[w] == j);
                                }
                            }
                        }
                        assert forall|p: int, q: int| 0 <= p < q < picked.len() implies #[trigger] picked[p]
                            != #[trigger] picked[q] by {
                            if q == earlier.len() {
                                assert(earlier[p] == picked[p]);
                                assert(earlier.contains(picked[p]));
                            } else {
                                assert(earlier[p] == picked[p] && earlier[q] == picked[q]);
                            }
                        }
                        assert forall|p: int, q: int| 0 <= p < q < picked.len() implies before[
                        #[trigger] picked[p]].created_at <= before[#[trigger] picked[q]].created_at by {
                            if q == earlier.len() {
                                assert(earlier[p] == picked[p]);
                            } else {
                                assert(earlier[p] == picked[p] && earlier[q] == picked[q]);
                            }
                        }
                        assert forall|j: int, p: int|
                            0 <= j < before.len() && deliverable(#[trigger] before[j], channels, checks@)
                                && !picked.contains(j) && 0 <= p < picked.len() implies before[
                        #[trigger] picked[p]].created_at <= before[j].created_at by {
                            assert(!earlier.contains(j)) by {
                                if earlier.contains(j) {
                                    let w = choose|w: int| 0 <= w < earlier.len() && earlier[w] == j;
                                    assert(picked[w] == j);
                                }
                            }
                            if p == earlier.len() {
                                assert(current[j] == before[j]);
                            } else {
                                assert(earlier[p] == picked[p]);
                            }
                        }
                        assert forall|p: int| 0 <= p < picked.len() implies 0 <= #[trigger] picked[p] < before.len()
                            && deliverable(before[picked[p]], channels, checks@) by {
                            if p < earlier.len() {
                                assert(earlier[p] == picked[p]);
                            }
                        }
                    }
                },
            }
        }
        proof {
            assert(batch_positions(batch@) =~= picked);
            let after = self.alerts();
            assert forall|k: int| 0 <= k < after.len() implies (#[trigger] after[k]).id == k by {
                assert(before[k].id == k);
            }
            assert forall|i: int, j: int|
                0 <= i < after.len() && 0 <= j < after.len() && i != j && (#[trigger] after[i]).outstanding() && (
                #[trigger] after[j]).outstanding() implies !(after[i].check_id == after[j].check_id
                && after[i].notification_id == after[j].notification_id) by {
                assert(before[i].outstanding() && before[j].outstanding());
            }
            assert forall|k: int|
                0 <= k < before.len() && deliverable(#[trigger] before[k], channels, checks@) && !picked.contains(
                    k,
                ) implies picked.len() == limit by {
                if done {
                    assert(picked.contains(k));
                }
            }
        }
        batch
    }

    /// Records at `now` the outcome of one dispatch of entry `id` and says
    /// whether the queue holds such an entry.
    ///
    /// A delivered entry is terminal. A failed entry loses one attempt of
    /// its budget and stays in the queue for a later claim while attempts
    /// are left. An entry that is already terminal is left as it is.
    pub fn record_outcome(&mut self, id: u64, success: bool, now: i64) -> (found: bool)
        requires
            old(self).wf(),
        ensures
            final(self).wf(),
            final(self).channels() == old(self).channels(),
            found == (id < old(self).alerts().len()),
            final(self).alerts() == outcome_recorded(old(self).alerts(), id, success, now),
    {
        if id >= self.alerts.len() as u64 {
            return false;
        }
        let k = id as usize;
        proof {
            lemma_recording_keeps_queue(self.channels(), self.alerts(), id, success, now);
        }
        self.alerts[k].settle(success, now);
        assert(self.alerts() =~= outcome_recorded(old(self).alerts(), id, success, now));
        true
    }

    /// Drops every row lock that `worker` holds, as the end of the
    /// worker's transaction does.
    pub fn release(&mut self, worker: u64)
        requires
            old(self).wf(),
        ensures
            final(self).wf(),
            final(self).channels() == old(self).channels(),
            final(self).alerts() == released_by(old(self).alerts(), worker),
    {
        let n = self.alerts.len();
        let mut k: usize = 0;
        while k < n
            invariant
                k <= n,
                n == self.alerts.len(),
                self.channels() == old(self).channels(),
                self.alerts().len() == old(self).alerts().len(),
                forall|j: int| 0 <= j < k ==> #[trigger] self.alerts()[j] == released_by(old(self).alerts(), worker)[j],
                forall|j: int| k <= j < n ==> #[trigger] self.alerts()[j] == old(self).alerts()[j],
            decreases n - k,
        {
            let held = match self.alerts[k].claimed_by {
                Some(w) => w == worker,
                None => false,
            };
            if held {
                self.alerts[k].claimed_by = None;
            }
            k += 1;
        }
        assert(self.alerts() =~= released_by(old(self).alerts(), worker));
        proof {
            let before = old(self).alerts();
            let after = self.alerts();
            assert forall|j: int| 0 <= j < after.len() implies (#[trigger] after[j]).id == j by {
                assert(before[j].id == j);
            }
            assert forall|i: int, j: int|
                0 <= i < after.len() && 0 <= j < after.len() && i != j && (#[trigger] after[i]).outstanding() && (
                #[trigger] after[j]).outstanding() implies !(after[i].check_id == after[j].check_id
                && after[i].notification_id == after[j].notification_id) by {
                assert(before[i].outstanding() && before[j].outstanding());
            }
        }
    }

    /// Finishes a batch: records at `now` what the notifier reported for
    /// each alert, in the order of `outcomes`, then drops the locks of
    /// `worker`. The result holds the alerts that were delivered.
    pub fn send_alert_batch(&mut self, worker: u64, outcomes: Vec<DispatchOutcome>, now: i64) -> (sent: Vec<
        NotificationAlert,
    >)
        requires
            old(self).wf(),
        ensures
            final(self).wf(),
            final(self).channels() == old(self).channels(),
            final(self).alerts() == released_by(
                outcomes_recorded(old(self).alerts(), outcome_views(outcomes@), now),
                worker,
            ),
            alert_views(sent@) == delivered_of(outcome_views(outcomes@)),
    {
        let mut sent: Vec<NotificationAlert> = Vec::new();
        let n = outcomes.len();
        let ghost all = outcome_views(outcomes@);
        let mut i: usize = 0;
        while i < n
            invariant
                i <= n,
                n == outcomes.len(),
                all == outcome_views(outcomes@),
                self.wf(),
                self.channels() == old(self).channels(),
                self.alerts() == outcomes_recorded(old(self).alerts(), all.take(i as int), now),
                alert_views(sent@) == delivered_of(all.take(i as int)),
            decreases n - i,
        {
            assert(all.take(i as int + 1).drop_last() =~= all.take(i as int));
            assert(all.take(i as int + 1).last() == outcomes@[i as int]@);
            let outcome = &outcomes[i];
            self.record_outcome(outcome.alert.id, outcome.delivered, now);
            if outcome.delivered {
                let ghost earlier = alert_views(sent@);
                let alert = outcome.alert.clone();
                sent.push(alert);
                assert(alert_views(sent@) =~= earlier.push(outcome.alert@));
            }
            i += 1;
        }
        assert(all.take(n as int) =~= all);
        self.release(worker);
        sent
    }

    /// Whether an entry among the first `upto` of the queue is outstanding
    /// for channel `notification_id` of check `check_id`.
    fn outstanding_among(&self, upto: usize, check_id: i64, notification_id: i64) -> (r: bool)
        requires
            upto <= self.alerts().len(),
        ensures
            r == has_outstanding(self.alerts().take(upto as int), check_id, notification_id),
    {
        let mut k: usize = 0;
        while k < upto
            invariant
                k <= upto <= self.alerts.len(),
                forall|j: int| 0 <= j < k ==> !(#[trigger] self.alerts@[j]).outstanding_for(check_id, notification_id),
            decreases upto - k,
        {
            let a = &self.alerts[k];
            if a.is_outstanding() && a.check_id == check_id && a.notification_id == notification_id {
                assert(self.alerts().take(upto as int)[k as int].outstanding_for(check_id, notification_id));
                return true;
            }
            k += 1;
        }
        assert forall|j: int| 0 <= j < self.alerts().take(upto as int).len() implies !(
        #[trigger] self.alerts().take(upto as int)[j]).outstanding_for(check_id, notification_id) by {
            assert(self.alerts().take(upto as int)[j] == self.alerts@[j]);
        }
        false
    }

    /// Whether an entry of the queue is outstanding for channel
    /// `notification_id` of check `check_id`.
    pub fn has_outstanding_alert(&self, check_id: i64, notification_id: i64) -> (r: bool)
        ensures
            r == has_outstanding(self.alerts(), check_id, notification_id),
    {
        assert(self.alerts().take(self.alerts().len() as int) =~= self.alerts());
        self.outstanding_among(self.alerts.len(), check_id, notification_id)
    }

    /// Raises, at `now`, the alerts that the outage of check `check_id`
    /// calls for, and returns how many were raised.
    ///
    /// Each live channel of the check gets one new queued entry with the
    /// channel's full retry budget, unless an entry is already outstanding
    /// for it. What was in the queue stays as it was.
    pub fn enqueue_alerts_for_check(&mut self, check_id: i64, now: i64) -> (raised: usize)
        requires
            old(self).wf(),
        ensures
            final(self).wf(),
            final(self).channels() == old(self).channels(),
            final(self).alerts() == old(self).alerts() + raised_for_check(
                old(self).channels(),
                old(self).alerts(),
                check_id,
                now,
            ),
            raised == final(self).alerts().len() - old(self).alerts().len(),
    {
        let before = self.alerts.len();
        let n = self.notifications.len();
        let mut raised: usize = 0;
        let mut j: usize = 0;
        while j < n
            invariant
                j <= n,
                n == self.notifications.len(),
                before == old(self).alerts().len(),
                self.channels() == old(self).channels(),
                raised == raised_for_check(old(self).channels().take(j as int), old(self).alerts(), check_id, now).len(),
                raised <= j,
                self.alerts().len() == before + raised,
                self.alerts() == old(self).alerts() + raised_for_check(
                    old(self).channels().take(j as int),
                    old(self).alerts(),
                    check_id,
                    now,
                ),
            decreases n - j,
        {
            let ghost prefix = old(self).channels().take(j as int);
            let ghost next = old(self).channels().take(j as int + 1);
            let ghost earlier = raised_for_check(prefix, old(self).alerts(), check_id, now);
            assert(next.drop_last() =~= prefix);
            assert(next.last() == self.channels()[j as int]);
            assert(self.channels()[j as int] == self.notifications@[j as int]@);
            assert(self.alerts().take(before as int) =~= old(self).alerts());
            let live = !self.notifications[j].deleted && self.notifications[j].check_id == check_id;
            if live && !self.outstanding_among(before, check_id, self.notifications[j].id) {
                let id = self.alerts.len() as u64;
                let entry = AlertEntry::raise(
                    id,
                    check_id,
                    self.notifications[j].id,
                    self.notifications[j].max_retries,
                    now,
                );
                self.alerts.push(entry);
                raised = raised + 1;
                assert(self.alerts() =~= old(self).alerts() + earlier.push(entry));
            }
            j += 1;
        }
        assert(old(self).channels().take(n as int) =~= old(self).channels());
        let total = self.alerts.len();
        proof {
            assert(total == before + raised);
            lemma_raising_keeps_queue(old(self).channels(), old(self).alerts(), check_id, now);
        }
        raised
    }
}

} // verus!
