//! Notification channels, the alert queue entries raised against them, and
//! the delivery state machine of one entry.

use crate::check::{clone_option_string, unknown_name, CheckStatus, UnknownName};
use crate::text::same_text;
use vstd::prelude::*;

verus! {

/// Kind of delivery target.
#[derive(Clone, Copy, Debug, PartialEq, Eq, Structural)]
pub enum NotificationType {
    Email,
    Webhook,
}

impl NotificationType {
    /// Name under which the kind is persisted: `EMAIL` or `WEBHOOK`.
    pub open spec fn text(self) -> Seq<char> {
        match self {
            NotificationType::Email => "EMAIL"@,
            NotificationType::Webhook => "WEBHOOK"@,
        }
    }

    pub fn to_string(&self) -> (r: String)
        ensures
            r@ == self.text(),
    {
        match self {
            NotificationType::Email => "EMAIL".to_string(),
            NotificationType::Webhook => "WEBHOOK".to_string(),
        }
    }

    /// The kind that is persisted under `name`; any other name is a fault
    /// in the data.
    pub fn from_str(name: &str) -> (r: Result<NotificationType, UnknownName>)
        ensures
            r matches Ok(v) ==> v.text() == name@,
            r matches Err(e) ==> e.value@ == name@ && forall|v: NotificationType| v.text() != name@,
    {
        if same_text(name, "EMAIL") {
            Ok(NotificationType::Email)
        } else if same_text(name, "WEBHOOK") {
            Ok(NotificationType::Webhook)
        } else {
            Err(unknown_name("notification type", name))
        }
    }
}

/// Where an alert stands in its delivery.
#[derive(Clone, Copy, Debug, PartialEq, Eq, Structural)]
pub enum DeliveryStatus {
    Queued,
    Delivered,
    Failed,
}

impl DeliveryStatus {
    /// Name under which the status is persisted.
    pub open spec fn text(self) -> Seq<char> {
        match self {
            DeliveryStatus::Queued => "QUEUED"@,
            DeliveryStatus::Delivered => "DELIVERED"@,
            DeliveryStatus::Failed => "FAILED"@,
        }
    }

    pub fn to_string(&self) -> (r: String)
        ensures
            r@ == self.text(),
    {
        match self {
            DeliveryStatus::Queued => "QUEUED".to_string(),
            DeliveryStatus::Delivered => "DELIVERED".to_string(),
            DeliveryStatus::Failed => "FAILED".to_string(),
        }
    }

    /// The status that is persisted under `name`; any other name is a
    /// fault in the data.
    pub fn from_str(name: &str) -> (r: Result<DeliveryStatus, UnknownName>)
        ensures
            r matches Ok(v) ==> v.text() == name@,
            r matches Err(e) ==> e.value@ == name@ && forall|v: DeliveryStatus| v.text() != name@,
    {
        if same_text(name, "QUEUED") {
            Ok(DeliveryStatus::Queued)
        } else if same_text(name, "DELIVERED") {
            Ok(DeliveryStatus::Delivered)
        } else if same_text(name, "FAILED") {
            Ok(DeliveryStatus::Failed)
        } else {
            Err(unknown_name("delivery status", name))
        }
    }
}

/// A delivery target that belongs to one check.
#[derive(Debug)]
pub struct Notification {
    pub id: i64,
    pub uuid: u128,
    /// The check that owns this channel.
    pub check_id: i64,
    pub name: String,
    pub notification_type: NotificationType,
    pub email: Option<String>,
    pub url: Option<String>,
    /// Delivery-attempt budget of each alert raised against this channel.
    pub max_retries: i32,
    pub created_at: i64,
    pub updated_at: Option<i64>,
    /// Soft-delete flag: a deleted channel receives no new alerts.
    pub deleted: bool,
    pub deleted_at: Option<i64>,
}

/// Mathematical value of a [`Notification`].
pub struct NotificationView {
    pub id: i64,
    pub uuid: u128,
    pub check_id: i64,
    pub name: Seq<char>,
    pub notification_type: NotificationType,
    pub email: Option<Seq<char>>,
    pub url: Option<Seq<char>>,
    pub max_retries: i32,
    pub created_at: i64,
    pub updated_at: Option<i64>,
    pub deleted: bool,
    pub deleted_at: Option<i64>,
}

/// Mathematical value of an optional string.
pub open spec fn option_text(s: Option<String>) -> Option<Seq<char>> {
    match s {
        Some(t) => Some(t@),
        None => None,
    }
}

impl View for Notification {
    type V = NotificationView;

    open spec fn view(&self) -> NotificationView {
        NotificationView {
            id: self.id,
            uuid: self.uuid,
            check_id: self.check_id,
            name: self.name@,
            notification_type: self.notification_type,
            email: option_text(self.email),
            url: option_text(self.url),
            max_retries: self.max_retries,
            created_at: self.created_at,
            updated_at: self.updated_at,
            deleted: self.deleted,
            deleted_at: self.deleted_at,
        }
    }
}

impl Clone for Notification {
    fn clone(&self) -> (r: Self)
        ensures
            r@ == self@,
    {
        Notification {
            id: self.id,
            uuid: self.uuid,
            check_id: self.check_id,
            name: self.name.clone(),
            notification_type: self.notification_type,
            email: clone_option_string(&self.email),
            url: clone_option_string(&self.url),
            max_retries: self.max_retries,
            created_at: self.created_at,
            updated_at: self.updated_at,
            deleted: self.deleted,
            deleted_at: self.deleted_at,
        }
    }
}

/// One unit of queued outbound work: an alert raised against one channel
/// of one check.
#[derive(Clone, Copy, Debug, PartialEq, Eq, Structural)]
pub struct AlertEntry {
    pub id: u64,
    /// The channel to deliver through.
    pub notification_id: i64,
    /// The check whose outage raised the alert.
    pub check_id: i64,
    /// Status of the check when the alert was raised; never changed.
    pub check_status: CheckStatus,
    pub delivery_status: DeliveryStatus,
    /// Failed attempts that may still be followed by another attempt.
    pub retries_remaining: i32,
    pub created_at: i64,
    /// Time at which the entry became terminal: delivered, or failed with
    /// no attempt left.
    pub finished_at: Option<i64>,
    /// The worker that holds the entry's row lock, if any.
    pub claimed_by: Option<u64>,
}

impl AlertEntry {
    /// The entry is not terminal: it is queued, or it failed with attempts
    /// left. Such an entry waits for a delivery worker.
    pub open spec fn outstanding(self) -> bool {
        ||| self.delivery_status == DeliveryStatus::Queued
        ||| (self.delivery_status == DeliveryStatus::Failed && self.retries_remaining > 0)
    }

    /// The entry raised an alert for the pair of `check_id` and channel
    /// `notification_id` and is not terminal.
    pub open spec fn outstanding_for(self, check_id: i64, notification_id: i64) -> bool {
        &&& self.outstanding()
        &&& self.check_id == check_id
        &&& self.notification_id == notification_id
    }

    /// A worker may claim the entry: it is outstanding and no other worker
    /// holds its lock.
    pub open spec fn claimable(self) -> bool {
        self.outstanding() && self.claimed_by is None
    }

    /// The entry that the detector creates at `now` under `id` for channel
    /// `notification_id` of check `check_id`.
    pub open spec fn raised(id: u64, check_id: i64, notification_id: i64, max_retries: i32, now: i64) -> AlertEntry {
        AlertEntry {
            id,
            notification_id,
            check_id,
            check_status: CheckStatus::Down,
            delivery_status: DeliveryStatus::Queued,
            retries_remaining: max_retries,
            created_at: now,
            finished_at: None,
            claimed_by: None,
        }
    }

    /// The entry after a successful dispatch recorded at `now`.
    pub open spec fn delivered(self, now: i64) -> AlertEntry {
        AlertEntry { delivery_status: DeliveryStatus::Delivered, finished_at: Some(now), ..self }
    }

    /// The attempts that are left of a budget of `retries_remaining` after
    /// one more failure: one less, and never less than none.
    pub open spec fn budget_after_failure(retries_remaining: i32) -> i32 {
        if retries_remaining <= 0 {
            0
        } else {
            (retries_remaining - 1) as i32
        }
    }

    /// The entry after a failed dispatch recorded at `now`: one attempt is
    /// taken from the budget, and an empty budget stays empty. A failure
    /// that leaves no attempt is the entry's end, and `now` its time of
    /// completion; while attempts are left the entry is not complete.
    pub open spec fn failed(self, now: i64) -> AlertEntry {
        AlertEntry {
            delivery_status: DeliveryStatus::Failed,
            retries_remaining: Self::budget_after_failure(self.retries_remaining),
            finished_at: if Self::budget_after_failure(self.retries_remaining) == 0 {
                Some(now)
            } else {
                self.finished_at
            },
            ..self
        }
    }

    /// The entry after the dispatch outcome `success` recorded at `now`.
    pub open spec fn dispatched(self, success: bool, now: i64) -> AlertEntry {
        if success {
            self.delivered(now)
        } else {
            self.failed(now)
        }
    }

    /// The entry after the dispatch outcome `success` was reported at
    /// `now`. A terminal entry is immutable: the report changes only an
    /// entry that is still outstanding.
    pub open spec fn settled(self, success: bool, now: i64) -> AlertEntry {
        if self.outstanding() {
            self.dispatched(success, now)
        } else {
            self
        }
    }

    /// The entry with its row lock taken by `worker`.
    pub open spec fn claimed(self, worker: u64) -> AlertEntry {
        AlertEntry { claimed_by: Some(worker), ..self }
    }

    /// The entry with its row lock dropped.
    pub open spec fn released(self) -> AlertEntry {
        AlertEntry { claimed_by: None, ..self }
    }

    /// The entry after `n` failed dispatches in a row, each recorded at
    /// `now`.
    pub open spec fn failed_times(self, n: nat, now: i64) -> AlertEntry
        decreases n,
    {
        if n == 0 {
            self
        } else {
            self.failed_times((n - 1) as nat, now).failed(now)
        }
    }

    /// Builds the entry that the detector raises.
    pub fn raise(id: u64, check_id: i64, notification_id: i64, max_retries: i32, now: i64) -> (r: AlertEntry)
        ensures
            r == AlertEntry::raised(id, check_id, notification_id, max_retries, now),
    {
        AlertEntry {
            id,
            notification_id,
            check_id,
            check_status: CheckStatus::Down,
            delivery_status: DeliveryStatus::Queued,
            retries_remaining: max_retries,
            created_at: now,
            finished_at: None,
            claimed_by: None,
        }
    }

    pub fn is_outstanding(&self) -> (r: bool)
        ensures
            r == self.outstanding(),
    {
        match self.delivery_status {
            DeliveryStatus::Queued => true,
            DeliveryStatus::Failed => self.retries_remaining > 0,
            DeliveryStatus::Delivered => false,
        }
    }

    pub fn is_claimable(&self) -> (r: bool)
        ensures
            r == self.claimable(),
    {
        self.is_outstanding() && self.claimed_by.is_none()
    }

    /// Records a successful dispatch at `now`.
    pub fn record_delivered(&mut self, now: i64)
        ensures
            *final(self) == old(self).delivered(now),
    {
        self.delivery_status = DeliveryStatus::Delivered;
        self.finished_at = Some(now);
    }

    /// Records a failed dispatch at `now` and returns the attempts that are
    /// left.
    pub fn record_failed(&mut self, now: i64) -> (left: i32)
        ensures
            *final(self) == old(self).failed(now),
            left == final(self).retries_remaining,
    {
        self.delivery_status = DeliveryStatus::Failed;
        if self.retries_remaining <= 0 {
            self.retries_remaining = 0;
        } else {
            self.retries_remaining = self.retries_remaining - 1;
        }
        if self.retries_remaining == 0 {
            self.finished_at = Some(now);
        }
        self.retries_remaining
    }

    /// Takes in the dispatch outcome `success` reported at `now`, and says
    /// whether the entry is still outstanding afterwards.
    pub fn settle(&mut self, success: bool, now: i64) -> (again: bool)
        ensures
            *final(self) == old(self).settled(success, now),
            again == final(self).outstanding(),
    {
        if self.is_outstanding() {
            if success {
                self.record_delivered(now);
            } else {
                self.record_failed(now);
            }
        }
        self.is_outstanding()
    }
}

/// An alert as a delivery worker hands it to the notifier: the queue entry
/// joined with its channel and its check.
#[derive(Debug)]
pub struct NotificationAlert {
    pub id: u64,
    pub check_uuid: u128,
    pub notification_type: NotificationType,
    /// Name of the check.
    pub name: String,
    pub email: Option<String>,
    pub url: Option<String>,
    pub retries_remaining: i32,
    pub max_retries: i32,
    pub last_ping_at: Option<i64>,
}

/// Mathematical value of a [`NotificationAlert`].
pub struct NotificationAlertView {
    pub id: u64,
    pub check_uuid: u128,
    pub notification_type: NotificationType,
    pub name: Seq<char>,
    pub email: Option<Seq<char>>,
    pub url: Option<Seq<char>>,
    pub retries_remaining: i32,
    pub max_retries: i32,
    pub last_ping_at: Option<i64>,
}

impl View for NotificationAlert {
    type V = NotificationAlertView;

    open spec fn view(&self) -> NotificationAlertView {
        NotificationAlertView {
            id: self.id,
            check_uuid: self.check_uuid,
            notification_type: self.notification_type,
            name: self.name@,
            email: option_text(self.email),
            url: option_text(self.url),
            retries_remaining: self.retries_remaining,
            max_retries: self.max_retries,
            last_ping_at: self.last_ping_at,
        }
    }
}

impl Clone for NotificationAlert {
    fn clone(&self) -> (r: Self)
        ensures
            r@ == self@,
    {
        NotificationAlert {
            id: self.id,
            check_uuid: self.check_uuid,
            notification_type: self.notification_type,
            name: self.name.clone(),
            email: clone_option_string(&self.email),
            url: clone_option_string(&self.url),
            retries_remaining: self.retries_remaining,
            max_retries: self.max_retries,
            last_ping_at: self.last_ping_at,
        }
    }
}

/// What the notifier reported for one alert of a batch.
#[derive(Debug)]
pub struct DispatchOutcome {
    pub alert: NotificationAlert,
    /// `true` where the notifier accepted the alert, `false` where the
    /// dispatch failed, for whatever reason.
    pub delivered: bool,
}

/// Mathematical value of a [`DispatchOutcome`].
pub struct DispatchOutcomeView {
    pub alert: NotificationAlertView,
    pub delivered: bool,
}

impl View for DispatchOutcome {
    type V = DispatchOutcomeView;

    open spec fn view(&self) -> DispatchOutcomeView {
        DispatchOutcomeView { alert: self.alert@, delivered: self.delivered }
    }
}

} // verus!
