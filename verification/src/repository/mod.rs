//! The store of the engine: the table of checks, the table of notification
//! channels and the alert queue, with the operations that the ping
//! ingestor, the overdue detector and the delivery workers run on them.

pub mod check;
pub mod error;
pub mod notification;
pub mod project;
pub mod queue;

use crate::check::{Check, CheckView};
use crate::notification::{
    AlertEntry, DispatchOutcome, DispatchOutcomeView, Notification, NotificationAlert, NotificationView,
};
use crate::repository::check::{
    alerts_after_scan, collides, evaluated_table, has_check, key_known, pinged_table, CheckRepository,
};
use crate::repository::error::{unique_violation_code, RepositoryError};
use crate::repository::project::ProjectRepository;
use crate::repository::notification::{channel_collides, NotificationRepository};
use crate::repository::queue::{
    alert_views, batch_claimed, batch_positions, deliverable, delivered_of, dispatch_view,
    has_channel, outcome_views, outcomes_recorded, released_by,
};
use vstd::prelude::*;

verus! {

/// Number of alerts that a delivery worker claims in one tick.
pub const ALERT_BATCH_SIZE: usize = 10;

/// Every alert of the queue refers to a channel and to a check that are on
/// record.
pub open spec fn references_hold(
    checks: Seq<CheckView>,
    channels: Seq<NotificationView>,
    alerts: Seq<AlertEntry>,
) -> bool {
    forall|k: int|
        0 <= k < alerts.len() ==> has_channel(channels, (#[trigger] alerts[k]).notification_id) && has_check(
            checks,
            alerts[k].check_id,
        )
}

/// Where the references hold, a worker may take every alert that is
/// outstanding and not locked: nothing else decides a claim.
pub proof fn lemma_claimable_is_deliverable(
    checks: Seq<CheckView>,
    channels: Seq<NotificationView>,
    alerts: Seq<AlertEntry>,
    k: int,
)
    requires
        references_hold(checks, channels, alerts),
        0 <= k < alerts.len(),
    ensures
        deliverable(alerts[k], channels, checks) == alerts[k].claimable(),
{
}

/// Two tables of checks with the same identifiers, row by row, have the
/// same checks on record.
pub proof fn lemma_same_ids_same_checks(before: Seq<CheckView>, after: Seq<CheckView>, id: i64)
    requires
        before.len() == after.len(),
        forall|i: int| 0 <= i < before.len() ==> (#[trigger] before[i]).id == after[i].id,
        has_check(before, id),
    ensures
        has_check(after, id),
{
    let i = choose|i: int| 0 <= i < before.len() && (#[trigger] before[i]).id == id;
    assert(after[i].id == id);
}

/// A detector tick keeps the references: what it raises refers to a lapsed
/// check and to one of its channels.
pub proof fn lemma_scan_keeps_references(
    checks: Seq<CheckView>,
    channels: Seq<NotificationView>,
    alerts: Seq<AlertEntry>,
    now: i64,
)
    requires
        references_hold(checks, channels, alerts),
        alerts_after_scan(checks, channels, alerts, now).len() <= u64::MAX,
    ensures
        references_hold(evaluated_table(checks, now), channels, alerts_after_scan(checks, channels, alerts, now)),
{
    let after = alerts_after_scan(checks, channels, alerts, now);
    let table = evaluated_table(checks, now);
    crate::laws::lemma_scan_prefix(checks, channels, alerts, now);
    assert forall|k: int| 0 <= k < after.len() implies has_channel(channels, (#[trigger] after[k]).notification_id)
        && has_check(table, after[k].check_id) by {
        if k < alerts.len() {
            assert(after[k] == after.take(alerts.len() as int)[k]);
            lemma_same_ids_same_checks(checks, table, alerts[k].check_id);
        } else {
            let (i, m) = crate::laws::lemma_scan_raises_fresh_alerts(checks, channels, alerts, now, k);
            assert(table[i].id == checks[i].id);
            assert(channels[m].id == after[k].notification_id);
        }
    }
}

/// Recording outcomes changes neither the length of the queue nor what an
/// entry refers to.
pub proof fn lemma_outcomes_keep_references(alerts: Seq<AlertEntry>, outcomes: Seq<DispatchOutcomeView>, now: i64)
    ensures
        outcomes_recorded(alerts, outcomes, now).len() == alerts.len(),
        forall|k: int|
            0 <= k < alerts.len() ==> (#[trigger] outcomes_recorded(alerts, outcomes, now)[k]).notification_id
                == alerts[k].notification_id && outcomes_recorded(alerts, outcomes, now)[k].check_id
                == alerts[k].check_id,
    decreases outcomes.len(),
{
    if outcomes.len() > 0 {
        lemma_outcomes_keep_references(alerts, outcomes.drop_last(), now);
    }
}

/// All tables of the engine.
pub struct Repository {
    pub check: CheckRepository,
    pub project: ProjectRepository,
    pub notification: NotificationRepository,
}

impl Repository {
    /// The invariant of all tables.
    pub open spec fn wf(&self) -> bool {
        self.check.wf() && self.notification.wf()
    }

    /// Every alert of the queue refers to a channel and to a check of
    /// these tables. The operations of the repository keep it so.
    pub open spec fn linked(&self) -> bool {
        references_hold(self.check@, self.notification.channels(), self.notification.alerts())
    }

    /// Empty tables.
    pub fn new() -> (r: Self)
        ensures
            r.wf(),
            r.linked(),
            r.check@.len() == 0,
            r.notification.channels().len() == 0,
            r.notification.alerts().len() == 0,
            r.project@.len() == 0,
    {
        Repository {
            check: CheckRepository::new(),
            project: ProjectRepository::new(),
            notification: NotificationRepository::new(),
        }
    }

    /// The table of checks.
    pub fn check(&self) -> (r: &CheckRepository)
        ensures
            *r == self.check,
    {
        &self.check
    }

    /// The table of projects.
    pub fn project(&self) -> (r: &ProjectRepository)
        ensures
            *r == self.project,
    {
        &self.project
    }

    /// The channels and the alert queue.
    pub fn notification(&self) -> (r: &NotificationRepository)
        ensures
            *r == self.notification,
    {
        &self.notification
    }

    /// Adds a check; see [`CheckRepository::insert`].
    pub fn insert_check(&mut self, check: Check) -> (r: Result<(), RepositoryError>)
        ensures
            r is Ok <==> !collides(old(self).check@, check@),
            r is Ok ==> final(self).check@ == old(self).check@.push(check@),
            r matches Err(e) ==> final(self).check@ == old(self).check@ && e.code() == Some(
                unique_violation_code(),
            ),
            final(self).notification == old(self).notification,
            final(self).project == old(self).project,
            old(self).wf() ==> final(self).wf(),
            old(self).linked() ==> final(self).linked(),
    {
        let r = self.check.insert(check);
        proof {
            if old(self).linked() {
                assert forall|k: int| 0 <= k < self.notification.alerts().len() implies has_check(
                    self.check@,
                    (#[trigger] self.notification.alerts()[k]).check_id,
                ) by {
                    let id = self.notification.alerts()[k].check_id;
                    let i = choose|i: int| 0 <= i < old(self).check@.len() && (#[trigger] old(self).check@[i]).id == id;
                    assert(self.check@[i].id == id);
                }
            }
        }
        r
    }

    /// Adds a channel; see [`NotificationRepository::insert`].
    pub fn insert_notification(&mut self, channel: Notification) -> (r: Result<(), RepositoryError>)
        ensures
            r is Ok <==> !channel_collides(old(self).notification.channels(), channel@),
            r is Ok ==> final(self).notification.channels() == old(self).notification.channels().push(channel@),
            r matches Err(e) ==> final(self).notification.channels() == old(self).notification.channels()
                && e.code() == Some(unique_violation_code()),
            final(self).notification.alerts() == old(self).notification.alerts(),
            final(self).check == old(self).check,
            final(self).project == old(self).project,
            old(self).wf() ==> final(self).wf(),
            old(self).linked() ==> final(self).linked(),
    {
        let r = self.notification.insert(channel);
        proof {
            if old(self).linked() {
                assert forall|k: int| 0 <= k < self.notification.alerts().len() implies has_channel(
                    self.notification.channels(),
                    (#[trigger] self.notification.alerts()[k]).notification_id,
                ) by {
                    let id = self.notification.alerts()[k].notification_id;
                    let i = choose|i: int|
                        0 <= i < old(self).notification.channels().len() && (#[trigger] old(
                            self,
                        ).notification.channels()[i]).id == id;
                    assert(self.notification.channels()[i].id == id);
                }
            }
        }
        r
    }

    /// Takes in a ping; see [`CheckRepository::ping`]. Channels and alert
    /// queue are not touched: a recovery retracts no alert.
    pub fn ping(&mut self, key: &str, now: i64) -> (uuid: Option<u128>)
        ensures
            final(self).check@ == pinged_table(old(self).check@, key@, now),
            final(self).notification == old(self).notification,
            final(self).project == old(self).project,
            uuid is Some <==> key_known(old(self).check@, key@),
            uuid matches Some(u) ==> exists|i: int|
                crate::repository::check::first_answering(old(self).check@, key@, i) && (
                #[trigger] old(self).check@[i]).uuid == u,
            old(self).wf() ==> final(self).wf(),
            old(self).linked() ==> final(self).linked(),
    {
        let uuid = self.check.ping(key, now);
        proof {
            if old(self).linked() {
                assert forall|k: int| 0 <= k < self.notification.alerts().len() implies has_check(
                    self.check@,
                    (#[trigger] self.notification.alerts()[k]).check_id,
                ) by {
                    lemma_same_ids_same_checks(old(self).check@, self.check@, self.notification.alerts()[k].check_id);
                }
            }
        }
        uuid
    }

    /// Runs one tick of the overdue detector at `now`; see
    /// [`CheckRepository::enqueue_alerts_for_overdue_pings`].
    pub fn enqueue_alerts_for_overdue_pings(&mut self, now: i64) -> (raised: usize)
        requires
            old(self).wf(),
        ensures
            final(self).wf(),
            final(self).project == old(self).project,
            final(self).check@ == evaluated_table(old(self).check@, now),
            final(self).notification.channels() == old(self).notification.channels(),
            final(self).notification.alerts() == alerts_after_scan(
                old(self).check@,
                old(self).notification.channels(),
                old(self).notification.alerts(),
                now,
            ),
            raised == final(self).notification.alerts().len() - old(self).notification.alerts().len(),
            old(self).linked() ==> final(self).linked(),
    {
        let raised = self.check.enqueue_alerts_for_overdue_pings(&mut self.notification, now);
        let total = self.notification.alert_count();
        proof {
            if old(self).linked() {
                lemma_scan_keeps_references(
                    old(self).check@,
                    old(self).notification.channels(),
                    old(self).notification.alerts(),
                    now,
                );
            }
        }
        raised
    }

    /// Claims a batch of at most `limit` alerts for `worker`; see
    /// [`NotificationRepository::claim_alert_batch`].
    pub fn claim_alert_batch(&mut self, worker: u64, limit: usize) -> (batch: Vec<NotificationAlert>)
        requires
            old(self).wf(),
        ensures
            final(self).wf(),
            final(self).check == old(self).check,
            final(self).project == old(self).project,
            final(self).notification.channels() == old(self).notification.channels(),
            batch_claimed(
                old(self).notification.alerts(),
                final(self).notification.alerts(),
                batch_positions(batch@),
                worker,
                limit as int,
                old(self).notification.channels(),
                old(self).check@,
            ),
            forall|p: int|
                0 <= p < batch@.len() ==> (#[trigger] batch@[p])@ == dispatch_view(
                    old(self).notification.alerts()[batch@[p].id as int],
                    old(self).notification.channels(),
                    old(self).check@,
                ),
            old(self).linked() ==> final(self).linked(),
    {
        let batch = self.notification.claim_alert_batch(&self.check, worker, limit);
        proof {
            if old(self).linked() {
                assert forall|k: int| 0 <= k < self.notification.alerts().len() implies has_channel(
                    self.notification.channels(),
                    (#[trigger] self.notification.alerts()[k]).notification_id,
                ) && has_check(self.check@, self.notification.alerts()[k].check_id) by {
                    let before = old(self).notification.alerts()[k];
                    assert(self.notification.alerts()[k].notification_id == before.notification_id);
                    assert(self.notification.alerts()[k].check_id == before.check_id);
                }
            }
        }
        batch
    }

    /// Finishes a batch; see [`NotificationRepository::send_alert_batch`].
    /// The checks are not touched.
    pub fn send_alert_batch(&mut self, worker: u64, outcomes: Vec<DispatchOutcome>, now: i64) -> (sent: Vec<
        NotificationAlert,
    >)
        requires
            old(self).wf(),
        ensures
            final(self).wf(),
            final(self).check == old(self).check,
            final(self).project == old(self).project,
            final(self).notification.channels() == old(self).notification.channels(),
            final(self).notification.alerts() == released_by(
                outcomes_recorded(old(self).notification.alerts(), outcome_views(outcomes@), now),
                worker,
            ),
            alert_views(sent@) == delivered_of(outcome_views(outcomes@)),
            final(self).notification.alerts().len() == old(self).notification.alerts().len(),
            old(self).linked() ==> final(self).linked(),
    {
        let ghost reported = outcome_views(outcomes@);
        let sent = self.notification.send_alert_batch(worker, outcomes, now);
        proof {
            lemma_outcomes_keep_references(old(self).notification.alerts(), reported, now);
            if old(self).linked() {
                let recorded = outcomes_recorded(old(self).notification.alerts(), reported, now);
                assert forall|k: int| 0 <= k < self.notification.alerts().len() implies has_channel(
                    self.notification.channels(),
                    (#[trigger] self.notification.alerts()[k]).notification_id,
                ) && has_check(self.check@, self.notification.alerts()[k].check_id) by {
                    let before = old(self).notification.alerts()[k];
                    assert(recorded[k].notification_id == before.notification_id);
                    assert(self.notification.alerts()[k].notification_id == recorded[k].notification_id);
                    assert(self.notification.alerts()[k].check_id == recorded[k].check_id);
                }
            }
        }
        sent
    }
}

} // verus!
