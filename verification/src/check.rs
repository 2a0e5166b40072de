//! A check is a liveness contract: a schedule, a status and the time of the
//! last ping. This module holds the record, its mathematical view and the
//! state machine that pings and overdue evaluations drive.

use crate::text::same_text;
use vstd::prelude::*;
use vstd::string::*;

verus! {

/// A stored name that stands for no value of its column. Such a name is a
/// fault in the data and is never passed over in silence.
#[derive(Debug)]
pub struct UnknownName {
    /// What the column holds, in words.
    pub column: String,
    /// The name that was found.
    pub value: String,
}

impl UnknownName {
    /// The fault in words.
    pub fn to_string(&self) -> (r: String)
        ensures
            r@ == "unknown "@ + self.column@ + " '"@ + self.value@ + "'"@,
    {
        let mut r = "unknown ".to_string();
        r.append(self.column.as_str());
        r.append(" '");
        r.append(self.value.as_str());
        r.append("'");
        r
    }
}

/// The fault report for the name `value` found in a column that holds
/// `column`.
pub fn unknown_name(column: &str, value: &str) -> (e: UnknownName)
    ensures
        e.column@ == column@,
        e.value@ == value@,
{
    UnknownName { column: column.to_string(), value: value.to_string() }
}

/// Points in time and durations are counted in microseconds; a point in
/// time is an offset from the Unix epoch.
pub const MICROS_PER_MINUTE: i64 = 60_000_000;

pub const MICROS_PER_HOUR: i64 = 3_600_000_000;

pub const MICROS_PER_DAY: i64 = 86_400_000_000;

/// Health of a check.
#[derive(Clone, Copy, Debug, PartialEq, Eq, Structural)]
pub enum CheckStatus {
    /// Healthy: the last ping arrived in time.
    Up,
    /// Overdue: the detector found the schedule lapsed.
    Down,
    /// Never pinged.
    Created,
}

/// How the expected ping time is described.
#[derive(Clone, Copy, Debug, PartialEq, Eq, Structural)]
pub enum ScheduleType {
    Simple,
    Cron,
}

/// Unit in which a ping period or a grace period is counted.
#[derive(Clone, Copy, Debug, PartialEq, Eq, Structural)]
pub enum PeriodUnits {
    Hours,
    Minutes,
    Days,
}

/// Length of one unit in microseconds.
pub open spec fn unit_micros(units: PeriodUnits) -> int {
    match units {
        PeriodUnits::Minutes => MICROS_PER_MINUTE as int,
        PeriodUnits::Hours => MICROS_PER_HOUR as int,
        PeriodUnits::Days => MICROS_PER_DAY as int,
    }
}

/// Length of `amount` units in microseconds.
pub open spec fn period_micros(amount: i32, units: PeriodUnits) -> int {
    amount as int * unit_micros(units)
}

impl PeriodUnits {
    /// Length of one unit in microseconds.
    pub fn micros(&self) -> (r: i64)
        ensures
            r == unit_micros(*self),
    {
        match self {
            PeriodUnits::Minutes => MICROS_PER_MINUTE,
            PeriodUnits::Hours => MICROS_PER_HOUR,
            PeriodUnits::Days => MICROS_PER_DAY,
        }
    }

    /// Length of `amount` units in microseconds. The result is wide enough
    /// for every amount, negative ones included.
    pub fn span(&self, amount: i32) -> (r: i128)
        ensures
            r == period_micros(amount, *self),
            -0x8000_0000 * MICROS_PER_DAY <= r <= 0x7fff_ffff * MICROS_PER_DAY,
    {
        match self {
            PeriodUnits::Minutes => amount as i128 * 60_000_000i128,
            PeriodUnits::Hours => amount as i128 * 3_600_000_000i128,
            PeriodUnits::Days => amount as i128 * 86_400_000_000i128,
        }
    }
}

} // verus!

verus! {

impl ScheduleType {
    /// Name under which the schedule type is persisted.
    pub open spec fn text(self) -> Seq<char> {
        match self {
            ScheduleType::Simple => "SIMPLE"@,
            ScheduleType::Cron => "CRON"@,
        }
    }

    pub fn to_string(&self) -> (r: String)
        ensures
            r@ == self.text(),
    {
        match self {
            ScheduleType::Simple => "SIMPLE".to_string(),
            ScheduleType::Cron => "CRON".to_string(),
        }
    }

    /// The schedule type that is persisted under `name`; any other name
    /// is a fault in the data.
    pub fn from_str(name: &str) -> (r: Result<ScheduleType, UnknownName>)
        ensures
            r matches Ok(v) ==> v.text() == name@,
            r matches Err(e) ==> e.value@ == name@ && forall|v: ScheduleType| v.text() != name@,
    {
        if same_text(name, "SIMPLE") {
            Ok(ScheduleType::Simple)
        } else if same_text(name, "CRON") {
            Ok(ScheduleType::Cron)
        } else {
            Err(unknown_name("schedule type", name))
        }
    }
}

impl PeriodUnits {
    /// Name under which the unit is persisted.
    pub open spec fn text(self) -> Seq<char> {
        match self {
            PeriodUnits::Hours => "HOURS"@,
            PeriodUnits::Minutes => "MINUTES"@,
            PeriodUnits::Days => "DAYS"@,
        }
    }

    pub fn to_string(&self) -> (r: String)
        ensures
            r@ == self.text(),
    {
        match self {
            PeriodUnits::Hours => "HOURS".to_string(),
            PeriodUnits::Minutes => "MINUTES".to_string(),
            PeriodUnits::Days => "DAYS".to_string(),
        }
    }

    /// The unit that is persisted under `name`; any other name is a fault
    /// in the data.
    pub fn from_str(name: &str) -> (r: Result<PeriodUnits, UnknownName>)
        ensures
            r matches Ok(v) ==> v.text() == name@,
            r matches Err(e) ==> e.value@ == name@ && forall|v: PeriodUnits| v.text() != name@,
    {
        if same_text(name, "HOURS") {
            Ok(PeriodUnits::Hours)
        } else if same_text(name, "MINUTES") {
            Ok(PeriodUnits::Minutes)
        } else if same_text(name, "DAYS") {
            Ok(PeriodUnits::Days)
        } else {
            Err(unknown_name("period units", name))
        }
    }
}

impl CheckStatus {
    /// The status that is persisted under `name`; any other name is a
    /// fault in the data.
    pub fn from_str(name: &str) -> (r: Result<CheckStatus, UnknownName>)
        ensures
            r matches Ok(v) ==> v.text() == name@,
            r matches Err(e) ==> e.value@ == name@ && forall|v: CheckStatus| v.text() != name@,
    {
        if same_text(name, "UP") {
            Ok(CheckStatus::Up)
        } else if same_text(name, "DOWN") {
            Ok(CheckStatus::Down)
        } else if same_text(name, "CREATED") {
            Ok(CheckStatus::Created)
        } else {
            Err(unknown_name("check status", name))
        }
    }

    /// Name under which the status is persisted: `UP`, `DOWN` or `CREATED`.
    pub open spec fn text(self) -> Seq<char> {
        match self {
            CheckStatus::Up => "UP"@,
            CheckStatus::Down => "DOWN"@,
            CheckStatus::Created => "CREATED"@,
        }
    }

    pub fn to_string(&self) -> (r: String)
        ensures
            r@ == self.text(),
    {
        match self {
            CheckStatus::Up => "UP".to_string(),
            CheckStatus::Down => "DOWN".to_string(),
            CheckStatus::Created => "CREATED".to_string(),
        }
    }
}

/// A monitored liveness contract, as one row of the checks table.
#[derive(Debug)]
pub struct Check {
    pub id: i64,
    pub uuid: u128,
    pub account_id: i64,
    pub project_id: i64,
    /// Secret capability: whoever knows it may ping the check.
    pub ping_key: String,
    pub name: String,
    pub description: String,
    pub status: CheckStatus,
    pub schedule_type: ScheduleType,
    pub ping_period: i32,
    pub ping_period_units: PeriodUnits,
    pub ping_cron_expression: Option<String>,
    pub grace_period: i32,
    pub grace_period_units: PeriodUnits,
    /// Time of the last ping; `None` until the first one arrives.
    pub last_ping_at: Option<i64>,
    pub created_at: i64,
    pub updated_at: Option<i64>,
    /// Soft-delete flag: a deleted check is neither pinged nor scanned.
    pub deleted: bool,
    pub deleted_at: Option<i64>,
}

/// Mathematical value of a [`Check`].
pub struct CheckView {
    pub id: i64,
    pub uuid: u128,
    pub account_id: i64,
    pub project_id: i64,
    pub ping_key: Seq<char>,
    pub name: Seq<char>,
    pub description: Seq<char>,
    pub status: CheckStatus,
    pub schedule_type: ScheduleType,
    pub ping_period: i32,
    pub ping_period_units: PeriodUnits,
    pub ping_cron_expression: Option<Seq<char>>,
    pub grace_period: i32,
    pub grace_period_units: PeriodUnits,
    pub last_ping_at: Option<i64>,
    pub created_at: i64,
    pub updated_at: Option<i64>,
    pub deleted: bool,
    pub deleted_at: Option<i64>,
}

impl View for Check {
    type V = CheckView;

    open spec fn view(&self) -> CheckView {
        CheckView {
            id: self.id,
            uuid: self.uuid,
            account_id: self.account_id,
            project_id: self.project_id,
            ping_key: self.ping_key@,
            name: self.name@,
            description: self.description@,
            status: self.status,
            schedule_type: self.schedule_type,
            ping_period: self.ping_period,
            ping_period_units: self.ping_period_units,
            ping_cron_expression: match self.ping_cron_expression {
                Some(e) => Some(e@),
                None => None,
            },
            grace_period: self.grace_period,
            grace_period_units: self.grace_period_units,
            last_ping_at: self.last_ping_at,
            created_at: self.created_at,
            updated_at: self.updated_at,
            deleted: self.deleted,
            deleted_at: self.deleted_at,
        }
    }
}

impl CheckView {
    /// The check takes part in overdue scanning: not deleted, pinged at
    /// least once, and past its initial state.
    pub open spec fn eligible(self) -> bool {
        &&& !self.deleted
        &&& self.last_ping_at is Some
        &&& self.status != CheckStatus::Created
    }

    /// Latest moment at which the next ping is still in time.
    pub open spec fn ping_deadline(self) -> int
        recommends
            self.last_ping_at is Some,
    {
        self.last_ping_at->0 + period_micros(self.ping_period, self.ping_period_units)
    }

    /// The ping deadline extended by the grace period.
    pub open spec fn late_ping_deadline(self) -> int
        recommends
            self.last_ping_at is Some,
    {
        self.ping_deadline() + period_micros(self.grace_period, self.grace_period_units)
    }

    /// The ping period has run out at `now`.
    pub open spec fn ping_overdue(self, now: i64) -> bool {
        self.last_ping_at is Some && now > self.ping_deadline()
    }

    /// The ping period and the grace period have both run out at `now`.
    pub open spec fn late_ping_overdue(self, now: i64) -> bool {
        self.last_ping_at is Some && now > self.late_ping_deadline()
    }

    /// An overdue evaluation at `now` finds a lapse: the check is eligible
    /// and either deadline has passed.
    pub open spec fn overdue(self, now: i64) -> bool {
        self.eligible() && (self.ping_overdue(now) || self.late_ping_overdue(now))
    }

    /// The check after a valid ping at `now`.
    pub open spec fn pinged(self, now: i64) -> CheckView {
        CheckView { status: CheckStatus::Up, last_ping_at: Some(now), ..self }
    }

    /// The check after the detector declared it down.
    pub open spec fn downed(self) -> CheckView {
        CheckView { status: CheckStatus::Down, ..self }
    }

    /// The check after an overdue evaluation at `now`: down where a lapse
    /// is found, untouched otherwise.
    pub open spec fn evaluated(self, now: i64) -> CheckView {
        if self.overdue(now) {
            self.downed()
        } else {
            self
        }
    }
}

/// A copy of an optional string.
pub fn clone_option_string(s: &Option<String>) -> (r: Option<String>)
    ensures
        r is Some <==> s is Some,
        r matches Some(t) ==> t@ == s->0@,
{
    match s {
        Some(t) => Some(t.clone()),
        None => None,
    }
}

impl Clone for Check {
    fn clone(&self) -> (r: Self)
        ensures
            r@ == self@,
    {
        Check {
            id: self.id,
            uuid: self.uuid,
            account_id: self.account_id,
            project_id: self.project_id,
            ping_key: self.ping_key.clone(),
            name: self.name.clone(),
            description: self.description.clone(),
            status: self.status,
            schedule_type: self.schedule_type,
            ping_period: self.ping_period,
            ping_period_units: self.ping_period_units,
            ping_cron_expression: clone_option_string(&self.ping_cron_expression),
            grace_period: self.grace_period,
            grace_period_units: self.grace_period_units,
            last_ping_at: self.last_ping_at,
            created_at: self.created_at,
            updated_at: self.updated_at,
            deleted: self.deleted,
            deleted_at: self.deleted_at,
        }
    }
}

impl Check {
    /// Whether an overdue evaluation at `now` finds a lapse.
    pub fn is_overdue(&self, now: i64) -> (r: bool)
        ensures
            r == self@.overdue(now),
    {
        if self.deleted {
            return false;
        }
        match self.status {
            CheckStatus::Created => {
                return false;
            },
            _ => {},
        }
        match self.last_ping_at {
            None => false,
            Some(last) => {
                let period: i128 = self.ping_period_units.span(self.ping_period);
                let grace: i128 = self.grace_period_units.span(self.grace_period);
                let deadline: i128 = last as i128 + period;
                let late_deadline: i128 = deadline + grace;
                now as i128 > deadline || now as i128 > late_deadline
            },
        }
    }

    /// Applies a valid ping received at `now`: the check is up and
    /// remembers the time.
    pub fn record_ping(&mut self, now: i64)
        ensures
            final(self)@ == old(self)@.pinged(now),
    {
        self.status = CheckStatus::Up;
        self.last_ping_at = Some(now);
    }

    /// Runs one overdue evaluation at `now` and says whether it found a
    /// lapse. A lapsed check goes down; any other check is left as it is.
    pub fn evaluate_overdue(&mut self, now: i64) -> (lapsed: bool)
        ensures
            lapsed == old(self)@.overdue(now),
            final(self)@ == old(self)@.evaluated(now),
    {
        if self.is_overdue(now) {
            self.status = CheckStatus::Down;
            true
        } else {
            false
        }
    }
}

} // verus!
