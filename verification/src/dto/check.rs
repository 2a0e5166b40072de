//! Columns of the checks table.

use crate::dto::{ModelField, UnsupportedField};
use crate::text::same_text;
use vstd::prelude::*;

verus! {

/// A column of the checks table; `Table` stands for the table itself.
#[derive(Clone, Copy, Debug, PartialEq, Eq, Hash, Structural)]
pub enum Field {
    Table,
    Id,
    AccountId,
    ProjectId,
    Uuid,
    ShortId,
    PingKey,
    Name,
    Description,
    ScheduleType,
    PingPeriod,
    PingPeriodUnits,
    PingCronExpression,
    GracePeriod,
    GracePeriodUnits,
    Status,
    LastPingAt,
    CreatedAt,
    UpdatedAt,
    Deleted,
    DeletedAt,
}

/// Every column of the table, in the order of the table's definition.
pub open spec fn all_fields() -> Seq<Field> {
    seq![
        Field::Id,
        Field::AccountId,
        Field::ProjectId,
        Field::Uuid,
        Field::ShortId,
        Field::PingKey,
        Field::Name,
        Field::Description,
        Field::ScheduleType,
        Field::PingPeriod,
        Field::PingPeriodUnits,
        Field::PingCronExpression,
        Field::GracePeriod,
        Field::GracePeriodUnits,
        Field::Status,
        Field::LastPingAt,
        Field::CreatedAt,
        Field::UpdatedAt,
        Field::Deleted,
        Field::DeletedAt,
    ]
}

/// The columns that an update may set.
pub open spec fn updatable_fields() -> Seq<Field> {
    seq![Field::Name, Field::Description, Field::ScheduleType, Field::PingPeriod, Field::PingPeriodUnits, Field::PingCronExpression, Field::GracePeriod, Field::GracePeriodUnits, Field::Status]
}

impl Field {
    /// Every column of the table.
    pub fn all() -> (r: Vec<Field>)
        ensures
            r@ == all_fields(),
    {
        let mut r: Vec<Field> = Vec::new();
        r.push(Field::Id);
        r.push(Field::AccountId);
        r.push(Field::ProjectId);
        r.push(Field::Uuid);
        r.push(Field::ShortId);
        r.push(Field::PingKey);
        r.push(Field::Name);
        r.push(Field::Description);
        r.push(Field::ScheduleType);
        r.push(Field::PingPeriod);
        r.push(Field::PingPeriodUnits);
        r.push(Field::PingCronExpression);
        r.push(Field::GracePeriod);
        r.push(Field::GracePeriodUnits);
        r.push(Field::Status);
        r.push(Field::LastPingAt);
        r.push(Field::CreatedAt);
        r.push(Field::UpdatedAt);
        r.push(Field::Deleted);
        r.push(Field::DeletedAt);
        assert(r@ =~= all_fields());
        r
    }

    /// The columns that an update may set.
    pub fn updatable() -> (r: Vec<Field>)
        ensures
            r@ == updatable_fields(),
    {
        let mut r: Vec<Field> = Vec::new();
        r.push(Field::Name);
        r.push(Field::Description);
        r.push(Field::ScheduleType);
        r.push(Field::PingPeriod);
        r.push(Field::PingPeriodUnits);
        r.push(Field::PingCronExpression);
        r.push(Field::GracePeriod);
        r.push(Field::GracePeriodUnits);
        r.push(Field::Status);
        assert(r@ =~= updatable_fields());
        r
    }

    /// Whether an update may set the column.
    pub fn is_updatable(&self) -> (r: bool)
        ensures
            r == updatable_fields().contains(*self),
    {
        let r = match self {
            Field::Name => true,
            Field::Description => true,
            Field::ScheduleType => true,
            Field::PingPeriod => true,
            Field::PingPeriodUnits => true,
            Field::PingCronExpression => true,
            Field::GracePeriod => true,
            Field::GracePeriodUnits => true,
            Field::Status => true,
            _ => false,
        };
        proof {
            let u = updatable_fields();
            assert(u[0] == Field::Name);
            assert(u[1] == Field::Description);
            assert(u[2] == Field::ScheduleType);
            assert(u[3] == Field::PingPeriod);
            assert(u[4] == Field::PingPeriodUnits);
            assert(u[5] == Field::PingCronExpression);
            assert(u[6] == Field::GracePeriod);
            assert(u[7] == Field::GracePeriodUnits);
            assert(u[8] == Field::Status);
        }
        r
    }
}

impl ModelField for Field {
    open spec fn column(&self) -> Seq<char> {
        match self {
            Field::Table => "checks"@,
            Field::Id => "id"@,
            Field::AccountId => "account_id"@,
            Field::ProjectId => "project_id"@,
            Field::Uuid => "uuid"@,
            Field::ShortId => "shortid"@,
            Field::PingKey => "ping_key"@,
            Field::Name => "name"@,
            Field::Description => "description"@,
            Field::ScheduleType => "schedule_type"@,
            Field::PingPeriod => "ping_period"@,
            Field::PingPeriodUnits => "ping_period_units"@,
            Field::PingCronExpression => "ping_cron_expression"@,
            Field::GracePeriod => "grace_period"@,
            Field::GracePeriodUnits => "grace_period_units"@,
            Field::Status => "status"@,
            Field::LastPingAt => "last_ping_at"@,
            Field::CreatedAt => "created_at"@,
            Field::UpdatedAt => "updated_at"@,
            Field::Deleted => "deleted"@,
            Field::DeletedAt => "deleted_at"@,
        }
    }

    open spec fn is_table(&self) -> bool {
        *self == Field::Table
    }

    fn as_ref(&self) -> (r: &'static str) {
        match self {
            Field::Table => "checks",
            Field::Id => "id",
            Field::AccountId => "account_id",
            Field::ProjectId => "project_id",
            Field::Uuid => "uuid",
            Field::ShortId => "shortid",
            Field::PingKey => "ping_key",
            Field::Name => "name",
            Field::Description => "description",
            Field::ScheduleType => "schedule_type",
            Field::PingPeriod => "ping_period",
            Field::PingPeriodUnits => "ping_period_units",
            Field::PingCronExpression => "ping_cron_expression",
            Field::GracePeriod => "grace_period",
            Field::GracePeriodUnits => "grace_period_units",
            Field::Status => "status",
            Field::LastPingAt => "last_ping_at",
            Field::CreatedAt => "created_at",
            Field::UpdatedAt => "updated_at",
            Field::Deleted => "deleted",
            Field::DeletedAt => "deleted_at",
        }
    }

    fn from_str(value: &str) -> (r: Result<Field, UnsupportedField>) {
        if same_text(value, "id") {
            Ok(Field::Id)
        } else if same_text(value, "account_id") {
            Ok(Field::AccountId)
        } else if same_text(value, "project_id") {
            Ok(Field::ProjectId)
        } else if same_text(value, "uuid") {
            Ok(Field::Uuid)
        } else if same_text(value, "shortid") {
            Ok(Field::ShortId)
        } else if same_text(value, "ping_key") {
            Ok(Field::PingKey)
        } else if same_text(value, "name") {
            Ok(Field::Name)
        } else if same_text(value, "description") {
            Ok(Field::Description)
        } else if same_text(value, "schedule_type") {
            Ok(Field::ScheduleType)
        } else if same_text(value, "ping_period") {
            Ok(Field::PingPeriod)
        } else if same_text(value, "ping_period_units") {
            Ok(Field::PingPeriodUnits)
        } else if same_text(value, "ping_cron_expression") {
            Ok(Field::PingCronExpression)
        } else if same_text(value, "grace_period") {
            Ok(Field::GracePeriod)
        } else if same_text(value, "grace_period_units") {
            Ok(Field::GracePeriodUnits)
        } else if same_text(value, "status") {
            Ok(Field::Status)
        } else if same_text(value, "last_ping_at") {
            Ok(Field::LastPingAt)
        } else if same_text(value, "created_at") {
            Ok(Field::CreatedAt)
        } else if same_text(value, "updated_at") {
            Ok(Field::UpdatedAt)
        } else if same_text(value, "deleted") {
            Ok(Field::Deleted)
        } else if same_text(value, "deleted_at") {
            Ok(Field::DeletedAt)
        } else {
            Err(UnsupportedField { entity: "Check".to_string(), value: value.to_string() })
        }
    }
}

} // verus!
