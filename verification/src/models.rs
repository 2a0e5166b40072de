//! The rows of the store as the management interface shows them: short
//! identifiers in place of UUIDs, and nothing of the store's own
//! identifiers, keys and deletion marks.

use crate::check::{CheckStatus, PeriodUnits, ScheduleType};
use crate::notification::{option_text, NotificationType};
use crate::repository::check::{CreateCheck as NewCheck, UpdateCheck};
use crate::repository::notification::{CreateNotification as NewNotification, UpdateNotification as ChannelUpdate};
use crate::repository::project::{CreateProject as NewProject, UpdateProject};
use crate::shortid::ShortId;
use vstd::prelude::*;

verus! {

/// A check as callers see it.
#[derive(Debug)]
pub struct Check {
    pub id: ShortId,
    pub name: String,
    pub description: String,
    pub status: CheckStatus,
    pub schedule_type: ScheduleType,
    pub ping_period: i32,
    pub ping_period_units: PeriodUnits,
    pub ping_cron_expression: Option<String>,
    pub grace_period: i32,
    pub grace_period_units: PeriodUnits,
    pub last_ping_at: Option<i64>,
    pub created_at: i64,
    pub updated_at: Option<i64>,
}

impl Check {
    /// Shows a row of the checks table.
    pub fn from(row: crate::check::Check) -> (r: Self)
        ensures
            r.id.value == row.uuid,
            r.name@ == row.name@,
            r.description@ == row.description@,
            r.status == row.status,
            r.schedule_type == row.schedule_type,
            r.ping_period == row.ping_period,
            r.ping_period_units == row.ping_period_units,
            option_text(r.ping_cron_expression) == option_text(row.ping_cron_expression),
            r.grace_period == row.grace_period,
            r.grace_period_units == row.grace_period_units,
            r.last_ping_at == row.last_ping_at,
            r.created_at == row.created_at,
            r.updated_at == row.updated_at,
    {
        Check {
            id: ShortId::from_uuid(row.uuid),
            name: row.name,
            description: row.description,
            status: row.status,
            schedule_type: row.schedule_type,
            ping_period: row.ping_period,
            ping_period_units: row.ping_period_units,
            ping_cron_expression: row.ping_cron_expression,
            grace_period: row.grace_period,
            grace_period_units: row.grace_period_units,
            last_ping_at: row.last_ping_at,
            created_at: row.created_at,
            updated_at: row.updated_at,
        }
    }
}

/// A notification channel as callers see it.
#[derive(Debug)]
pub struct Notification {
    pub id: ShortId,
    pub name: String,
    pub notification_type: NotificationType,
    pub email: Option<String>,
    pub url: Option<String>,
    pub max_retries: i32,
    pub created_at: i64,
    pub updated_at: Option<i64>,
}

impl Notification {
    /// Shows a row of the channels table.
    pub fn from(row: crate::notification::Notification) -> (r: Self)
        ensures
            r.id.value == row.uuid,
            r.name@ == row.name@,
            r.notification_type == row.notification_type,
            option_text(r.email) == option_text(row.email),
            option_text(r.url) == option_text(row.url),
            r.max_retries == row.max_retries,
            r.created_at == row.created_at,
            r.updated_at == row.updated_at,
    {
        Notification {
            id: ShortId::from_uuid(row.uuid),
            name: row.name,
            notification_type: row.notification_type,
            email: row.email,
            url: row.url,
            max_retries: row.max_retries,
            created_at: row.created_at,
            updated_at: row.updated_at,
        }
    }
}

/// A project as callers see it.
#[derive(Debug)]
pub struct Project {
    pub id: ShortId,
    pub name: String,
    pub created_at: i64,
    pub updated_at: Option<i64>,
}

impl Project {
    /// Shows a row of the projects table.
    pub fn from(row: crate::repository::project::Project) -> (r: Self)
        ensures
            r.id.value == row.uuid,
            r.name@ == row.name@,
            r.created_at == row.created_at,
            r.updated_at == row.updated_at,
    {
        Project { id: ShortId::from_uuid(row.uuid), name: row.name, created_at: row.created_at, updated_at: row.updated_at }
    }
}

/// Body of a call that creates a check.
#[derive(Debug)]
pub struct CreateCheck {
    pub account_id: ShortId,
    pub project_id: ShortId,
    pub name: String,
}

impl CreateCheck {
    /// The request to the store.
    pub fn into_request(self) -> (r: NewCheck)
        ensures
            r.account_uuid == self.account_id.value,
            r.project_uuid == self.project_id.value,
            r.name@ == self.name@,
    {
        NewCheck {
            account_uuid: self.account_id.into_uuid(),
            project_uuid: self.project_id.into_uuid(),
            name: self.name,
        }
    }
}

/// Body of a call that changes a check or a project.
#[derive(Debug)]
pub struct Update {
    pub name: Option<String>,
}

impl Update {
    /// The request to the table of checks.
    pub fn into_check_request(self) -> (r: UpdateCheck)
        ensures
            option_text(r.name) == option_text(self.name),
    {
        UpdateCheck { name: self.name }
    }

    /// The request to the table of projects.
    pub fn into_project_request(self) -> (r: UpdateProject)
        ensures
            option_text(r.name) == option_text(self.name),
    {
        UpdateProject { name: self.name }
    }
}

/// Body of a call that creates a project.
#[derive(Debug)]
pub struct CreateProject {
    pub account_id: ShortId,
    pub name: String,
}

impl CreateProject {
    /// The request to the store.
    pub fn into_request(self) -> (r: NewProject)
        ensures
            r.account_uuid == self.account_id.value,
            r.name@ == self.name@,
    {
        NewProject { account_uuid: self.account_id.into_uuid(), name: self.name }
    }
}

/// Body of a call that creates a notification channel.
#[derive(Debug)]
pub struct CreateNotification {
    pub name: Option<String>,
    pub notification_type: NotificationType,
    pub email: Option<String>,
    pub url: Option<String>,
    pub max_retries: Option<i32>,
}

impl CreateNotification {
    /// The request to the store.
    pub fn into_request(self) -> (r: NewNotification)
        ensures
            r.notification_type == self.notification_type,
            option_text(r.name) == option_text(self.name),
            option_text(r.email) == option_text(self.email),
            option_text(r.url) == option_text(self.url),
            r.max_retries == self.max_retries,
    {
        NewNotification {
            notification_type: self.notification_type,
            name: self.name,
            email: self.email,
            url: self.url,
            max_retries: self.max_retries,
        }
    }
}

/// Body of a call that changes a notification channel.
#[derive(Debug)]
pub struct UpdateNotification {
    pub name: Option<String>,
    pub notification_type: Option<NotificationType>,
    pub email: Option<String>,
    pub url: Option<String>,
    pub max_retries: Option<i32>,
}

impl UpdateNotification {
    /// The request to the store.
    pub fn into_request(self) -> (r: ChannelUpdate)
        ensures
            r.notification_type == self.notification_type,
            option_text(r.name) == option_text(self.name),
            option_text(r.email) == option_text(self.email),
            option_text(r.url) == option_text(self.url),
            r.max_retries == self.max_retries,
    {
        ChannelUpdate {
            name: self.name,
            notification_type: self.notification_type,
            email: self.email,
            url: self.url,
            max_retries: self.max_retries,
        }
    }
}

} // verus!
