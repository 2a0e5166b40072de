use up_engine::check::{
    Check, CheckStatus, PeriodUnits, ScheduleType, MICROS_PER_HOUR, MICROS_PER_MINUTE,
};
use up_engine::notification::{
    AlertEntry, DeliveryStatus, DispatchOutcome, Notification, NotificationType,
};
use up_engine::repository::queue::wanting_channels;
use up_engine::repository::{Repository, ALERT_BATCH_SIZE};

const T: i64 = 1_700_000_000_000_000;

fn check(id: i64, key: &str, period: i32, units: PeriodUnits) -> Check {
    Check {
        id,
        uuid: 0x1000 + id as u128,
        account_id: 1,
        project_id: 1,
        ping_key: key.to_string(),
        name: format!("check {}", id),
        description: String::new(),
        status: CheckStatus::Created,
        schedule_type: ScheduleType::Simple,
        ping_period: period,
        ping_period_units: units,
        ping_cron_expression: None,
        grace_period: 0,
        grace_period_units: PeriodUnits::Minutes,
        last_ping_at: None,
        created_at: T - MICROS_PER_HOUR,
        updated_at: None,
        deleted: false,
        deleted_at: None,
    }
}

fn email_channel(id: i64, check_id: i64, max_retries: i32) -> Notification {
    Notification {
        id,
        uuid: 0x2000 + id as u128,
        check_id,
        name: format!("channel {}", id),
        notification_type: NotificationType::Email,
        email: Some(format!("ops{}@example.com", id)),
        url: None,
        max_retries,
        created_at: T - MICROS_PER_HOUR,
        updated_at: None,
        deleted: false,
        deleted_at: None,
    }
}

fn webhook_channel(id: i64, check_id: i64, max_retries: i32) -> Notification {
    Notification {
        id,
        uuid: 0x2000 + id as u128,
        check_id,
        name: String::new(),
        notification_type: NotificationType::Webhook,
        email: None,
        url: Some(format!("https://hooks.example.com/{}", id)),
        max_retries,
        created_at: T - MICROS_PER_HOUR,
        updated_at: None,
        deleted: false,
        deleted_at: None,
    }
}

fn repository_with(checks: Vec<Check>, channels: Vec<Notification>) -> Repository {
    let mut repository = Repository::new();
    for c in checks {
        assert!(repository.insert_check(c).is_ok());
    }
    for n in channels {
        assert!(repository.insert_notification(n).is_ok());
    }
    repository
}

fn outstanding(repository: &Repository) -> Vec<AlertEntry> {
    let mut found = Vec::new();
    let mut id = 0u64;
    while let Some(a) = repository.notification().alert(id) {
        if a.is_outstanding() {
            found.push(a);
        }
        id += 1;
    }
    found
}

#[test]
fn ping_brings_created_check_up() {
    let mut repository = repository_with(vec![check(1, "key-one", 1, PeriodUnits::Hours)], vec![]);
    let uuid = repository.ping("key-one", T);
    assert_eq!(uuid, Some(0x1001));
    let c = repository.check().row(0).unwrap();
    assert_eq!(c.status, CheckStatus::Up);
    assert_eq!(c.last_ping_at, Some(T));
}

#[test]
fn ping_brings_down_check_up() {
    let mut down = check(1, "key-one", 1, PeriodUnits::Hours);
    down.status = CheckStatus::Down;
    down.last_ping_at = Some(T - 3 * MICROS_PER_HOUR);
    let mut repository = repository_with(vec![down], vec![]);
    assert_eq!(repository.ping("key-one", T), Some(0x1001));
    let c = repository.check().row(0).unwrap();
    assert_eq!(c.status, CheckStatus::Up);
    assert_eq!(c.last_ping_at, Some(T));
    assert_eq!(c.name, "check 1");
    assert_eq!(c.ping_period, 1);
}

#[test]
fn unknown_key_changes_nothing() {
    let mut repository = repository_with(
        vec![check(1, "key-one", 1, PeriodUnits::Hours), check(2, "key-two", 1, PeriodUnits::Hours)],
        vec![],
    );
    assert_eq!(repository.ping("key-three", T), None);
    assert_eq!(repository.ping("", T), None);
    assert_eq!(repository.ping("key-on", T), None);
    assert_eq!(repository.ping("KEY-ONE", T), None);
    for i in 0..2 {
        let c = repository.check().row(i).unwrap();
        assert_eq!(c.status, CheckStatus::Created);
        assert_eq!(c.last_ping_at, None);
    }
}

#[test]
fn deleted_check_ignores_its_key() {
    let mut gone = check(1, "key-one", 1, PeriodUnits::Hours);
    gone.deleted = true;
    gone.deleted_at = Some(T - 1);
    let mut repository = repository_with(vec![gone], vec![]);
    assert_eq!(repository.ping("key-one", T), None);
    let c = repository.check().row(0).unwrap();
    assert_eq!(c.status, CheckStatus::Created);
    assert_eq!(c.last_ping_at, None);
}

#[test]
fn ping_touches_only_the_matching_check() {
    let mut repository = repository_with(
        vec![check(1, "key-one", 1, PeriodUnits::Hours), check(2, "key-two", 1, PeriodUnits::Hours)],
        vec![],
    );
    assert_eq!(repository.ping("key-two", T), Some(0x1002));
    assert_eq!(repository.check().row(0).unwrap().status, CheckStatus::Created);
    assert_eq!(repository.check().row(1).unwrap().status, CheckStatus::Up);
}

#[test]
fn duplicate_ping_key_is_refused() {
    let mut repository = repository_with(vec![check(1, "key-one", 1, PeriodUnits::Hours)], vec![]);
    let e = repository.insert_check(check(2, "key-one", 1, PeriodUnits::Hours)).unwrap_err();
    assert!(e.is_unique_constraint_violation());
    assert_eq!(e.database_error_code(), Some("23505".to_string()));
    assert_eq!(repository.check().len(), 1);
}

#[test]
fn overdue_after_sixty_one_minutes() {
    let now = T;
    let mut c = check(1, "key-one", 1, PeriodUnits::Hours);
    c.status = CheckStatus::Up;
    c.last_ping_at = Some(now - 61 * MICROS_PER_MINUTE);
    let mut repository = repository_with(vec![c], vec![]);
    assert_eq!(repository.enqueue_alerts_for_overdue_pings(now), 0);
    assert_eq!(repository.check().row(0).unwrap().status, CheckStatus::Down);
}

#[test]
fn in_time_after_fifty_nine_minutes() {
    let now = T;
    let mut c = check(1, "key-one", 1, PeriodUnits::Hours);
    c.status = CheckStatus::Up;
    c.last_ping_at = Some(now - 59 * MICROS_PER_MINUTE);
    let mut repository = repository_with(vec![c], vec![email_channel(1, 1, 3)]);
    assert_eq!(repository.enqueue_alerts_for_overdue_pings(now), 0);
    assert_eq!(repository.check().row(0).unwrap().status, CheckStatus::Up);
    assert_eq!(repository.notification().alert_count(), 0);
}

#[test]
fn deadline_itself_is_in_time() {
    let mut c = check(1, "key-one", 1, PeriodUnits::Hours);
    c.status = CheckStatus::Up;
    c.last_ping_at = Some(T);
    assert!(!c.is_overdue(T + MICROS_PER_HOUR));
    assert!(c.is_overdue(T + MICROS_PER_HOUR + 1));
}

#[test]
fn units_scale_the_period() {
    let mut c = check(1, "key-one", 2, PeriodUnits::Minutes);
    c.status = CheckStatus::Up;
    c.last_ping_at = Some(T);
    assert!(!c.is_overdue(T + 120_000_000));
    assert!(c.is_overdue(T + 120_000_001));
    c.ping_period_units = PeriodUnits::Hours;
    assert!(!c.is_overdue(T + 7_200_000_000));
    assert!(c.is_overdue(T + 7_200_000_001));
    c.ping_period_units = PeriodUnits::Days;
    assert!(!c.is_overdue(T + 172_800_000_000));
    assert!(c.is_overdue(T + 172_800_000_001));
    assert_eq!(PeriodUnits::Days.span(i32::MAX), 2_147_483_647i128 * 86_400_000_000i128);
    assert_eq!(PeriodUnits::Minutes.span(-3), -180_000_000i128);
}

#[test]
fn grace_does_not_delay_the_transition() {
    let mut c = check(1, "key-one", 1, PeriodUnits::Hours);
    c.status = CheckStatus::Up;
    c.grace_period = 2;
    c.grace_period_units = PeriodUnits::Hours;
    c.last_ping_at = Some(T);
    assert!(c.is_overdue(T + MICROS_PER_HOUR + 1));
}

#[test]
fn huge_period_does_not_overflow() {
    let mut c = check(1, "key-one", i32::MAX, PeriodUnits::Days);
    c.status = CheckStatus::Up;
    c.grace_period = i32::MAX;
    c.grace_period_units = PeriodUnits::Days;
    c.last_ping_at = Some(i64::MAX);
    assert!(!c.is_overdue(i64::MAX));
    c.ping_period = i32::MIN;
    c.last_ping_at = Some(i64::MIN);
    assert!(c.is_overdue(i64::MIN));
}

#[test]
fn never_pinged_check_is_not_scanned() {
    let mut repository = repository_with(
        vec![check(1, "key-one", 1, PeriodUnits::Minutes)],
        vec![email_channel(1, 1, 3)],
    );
    assert_eq!(repository.enqueue_alerts_for_overdue_pings(T + 100 * MICROS_PER_HOUR), 0);
    assert_eq!(repository.check().row(0).unwrap().status, CheckStatus::Created);
    assert_eq!(repository.notification().alert_count(), 0);
}

#[test]
fn deleted_check_is_not_scanned() {
    let mut c = check(1, "key-one", 1, PeriodUnits::Minutes);
    c.status = CheckStatus::Up;
    c.last_ping_at = Some(T);
    c.deleted = true;
    let mut repository = repository_with(vec![c], vec![email_channel(1, 1, 3)]);
    assert_eq!(repository.enqueue_alerts_for_overdue_pings(T + MICROS_PER_HOUR), 0);
    assert_eq!(repository.check().row(0).unwrap().status, CheckStatus::Up);
}

#[test]
fn two_ticks_leave_one_outstanding_alert() {
    let mut c = check(1, "key-one", 5, PeriodUnits::Minutes);
    c.status = CheckStatus::Up;
    c.last_ping_at = Some(T);
    let mut repository = repository_with(vec![c], vec![email_channel(7, 1, 3)]);
    assert_eq!(repository.enqueue_alerts_for_overdue_pings(T + 6 * MICROS_PER_MINUTE), 1);
    assert_eq!(repository.enqueue_alerts_for_overdue_pings(T + 6 * MICROS_PER_MINUTE + 5_000_000), 0);
    assert_eq!(repository.notification().alert_count(), 1);
    let left = outstanding(&repository);
    assert_eq!(left.len(), 1);
    assert_eq!(left[0].notification_id, 7);
    assert_eq!(left[0].check_id, 1);
    assert_eq!(repository.check().row(0).unwrap().status, CheckStatus::Down);
}

#[test]
fn deleted_channel_gets_no_alert() {
    let mut c = check(1, "key-one", 5, PeriodUnits::Minutes);
    c.status = CheckStatus::Up;
    c.last_ping_at = Some(T);
    let mut gone = email_channel(7, 1, 3);
    gone.deleted = true;
    let mut repository = repository_with(vec![c], vec![gone, webhook_channel(8, 1, 1), email_channel(9, 2, 1)]);
    assert_eq!(repository.enqueue_alerts_for_overdue_pings(T + 6 * MICROS_PER_MINUTE), 1);
    let a = repository.notification().alert(0).unwrap();
    assert_eq!(a.notification_id, 8);
}

#[test]
fn new_outage_after_terminal_alert_raises_again() {
    let mut c = check(1, "key-one", 5, PeriodUnits::Minutes);
    c.status = CheckStatus::Up;
    c.last_ping_at = Some(T);
    let mut repository = repository_with(vec![c], vec![email_channel(7, 1, 3)]);
    assert_eq!(repository.enqueue_alerts_for_overdue_pings(T + 6 * MICROS_PER_MINUTE), 1);
    let batch = repository.claim_alert_batch(1, ALERT_BATCH_SIZE);
    let outcomes = batch.into_iter().map(|alert| DispatchOutcome { alert, delivered: true }).collect();
    repository.send_alert_batch(1, outcomes, T + 7 * MICROS_PER_MINUTE);
    assert_eq!(repository.ping("key-one", T + 8 * MICROS_PER_MINUTE), Some(0x1001));
    assert_eq!(repository.enqueue_alerts_for_overdue_pings(T + 9 * MICROS_PER_MINUTE), 0);
    assert_eq!(repository.enqueue_alerts_for_overdue_pings(T + 14 * MICROS_PER_MINUTE), 1);
    assert_eq!(repository.notification().alert_count(), 2);
    assert_eq!(outstanding(&repository).len(), 1);
}

#[test]
fn retries_run_out_after_three_failures() {
    let mut c = check(1, "key-one", 5, PeriodUnits::Minutes);
    c.status = CheckStatus::Up;
    c.last_ping_at = Some(T);
    let mut repository = repository_with(vec![c], vec![email_channel(7, 1, 2)]);
    let mut now = T + 6 * MICROS_PER_MINUTE;
    assert_eq!(repository.enqueue_alerts_for_overdue_pings(now), 1);
    let mut offered = Vec::new();
    for _ in 0..3 {
        now += 5_000_000;
        let batch = repository.claim_alert_batch(1, ALERT_BATCH_SIZE);
        offered.push(batch.len());
        let outcomes = batch.into_iter().map(|alert| DispatchOutcome { alert, delivered: false }).collect();
        let sent = repository.send_alert_batch(1, outcomes, now);
        assert!(sent.is_empty());
    }
    assert_eq!(offered, vec![1, 1, 0]);
    let a = repository.notification().alert(0).unwrap();
    assert_eq!(a.delivery_status, DeliveryStatus::Failed);
    assert_eq!(a.retries_remaining, 0);
    assert_eq!(a.finished_at, Some(T + 6 * MICROS_PER_MINUTE + 10_000_000));
    assert!(repository.claim_alert_batch(2, ALERT_BATCH_SIZE).is_empty());
}

#[test]
fn three_failures_on_one_entry() {
    let mut a = AlertEntry::raise(0, 1, 7, 2, T);
    assert_eq!(a.record_failed(T + 1), 1);
    assert!(a.is_outstanding());
    assert_eq!(a.delivery_status, DeliveryStatus::Failed);
    assert_eq!(a.finished_at, None);
    assert_eq!(a.record_failed(T + 2), 0);
    assert!(!a.is_outstanding());
    assert_eq!(a.finished_at, Some(T + 2));
    assert_eq!(a.record_failed(T + 3), 0);
    assert_eq!(a.delivery_status, DeliveryStatus::Failed);
    assert_eq!(a.retries_remaining, 0);
    assert_eq!(a.finished_at, Some(T + 3));
    assert!(!a.is_claimable());
}

#[test]
fn entry_without_budget_fails_for_good_at_once() {
    let mut a = AlertEntry::raise(0, 1, 7, 0, T);
    assert!(a.is_claimable());
    assert!(!a.settle(false, T + 1));
    assert_eq!(a.delivery_status, DeliveryStatus::Failed);
    assert_eq!(a.retries_remaining, 0);
    let mut b = AlertEntry::raise(0, 1, 7, -4, T);
    assert!(!b.settle(false, T + 1));
    assert_eq!(b.retries_remaining, 0);
}

#[test]
fn terminal_entry_is_immutable() {
    let mut a = AlertEntry::raise(0, 1, 7, 2, T);
    assert!(!a.settle(true, T + 1));
    let delivered = a;
    assert!(!a.settle(false, T + 2));
    assert_eq!(a, delivered);
    assert_eq!(a.delivery_status, DeliveryStatus::Delivered);
    assert_eq!(a.retries_remaining, 2);
    assert_eq!(a.finished_at, Some(T + 1));
}

#[test]
fn two_claims_share_no_alert() {
    let mut c = check(1, "key-one", 5, PeriodUnits::Minutes);
    c.status = CheckStatus::Up;
    c.last_ping_at = Some(T);
    let channels = (1..=5).map(|i| email_channel(i, 1, 3)).collect();
    let mut repository = repository_with(vec![c], channels);
    assert_eq!(repository.enqueue_alerts_for_overdue_pings(T + 6 * MICROS_PER_MINUTE), 5);
    let first = repository.claim_alert_batch(1, 10);
    let second = repository.claim_alert_batch(2, 10);
    let mut ids: Vec<u64> = first.iter().chain(second.iter()).map(|a| a.id).collect();
    assert_eq!(ids.len(), 5);
    ids.sort();
    ids.dedup();
    assert_eq!(ids, vec![0, 1, 2, 3, 4]);
    assert_eq!(first.len(), 5);
    assert!(second.is_empty());
}

#[test]
fn small_claims_split_the_queue() {
    let mut c = check(1, "key-one", 5, PeriodUnits::Minutes);
    c.status = CheckStatus::Up;
    c.last_ping_at = Some(T);
    let channels = (1..=5).map(|i| email_channel(i, 1, 3)).collect();
    let mut repository = repository_with(vec![c], channels);
    repository.enqueue_alerts_for_overdue_pings(T + 6 * MICROS_PER_MINUTE);
    let first = repository.claim_alert_batch(1, 2);
    let second = repository.claim_alert_batch(2, 2);
    let third = repository.claim_alert_batch(3, 2);
    let fourth = repository.claim_alert_batch(4, 2);
    assert_eq!(first.iter().map(|a| a.id).collect::<Vec<_>>(), vec![0, 1]);
    assert_eq!(second.iter().map(|a| a.id).collect::<Vec<_>>(), vec![2, 3]);
    assert_eq!(third.iter().map(|a| a.id).collect::<Vec<_>>(), vec![4]);
    assert!(fourth.is_empty());
    assert_eq!(repository.notification().alert(2).unwrap().claimed_by, Some(2));
    repository.send_alert_batch(2, Vec::new(), T + 7 * MICROS_PER_MINUTE);
    assert_eq!(repository.notification().alert(2).unwrap().claimed_by, None);
    assert_eq!(repository.notification().alert(0).unwrap().claimed_by, Some(1));
    let again = repository.claim_alert_batch(4, 10);
    assert_eq!(again.iter().map(|a| a.id).collect::<Vec<_>>(), vec![2, 3]);
}

#[test]
fn claim_takes_oldest_first() {
    let mut early = check(1, "key-one", 5, PeriodUnits::Minutes);
    early.status = CheckStatus::Up;
    early.last_ping_at = Some(T);
    let mut late = check(2, "key-two", 5, PeriodUnits::Minutes);
    late.status = CheckStatus::Up;
    late.last_ping_at = Some(T + 10 * MICROS_PER_MINUTE);
    let mut repository =
        repository_with(vec![late, early], vec![email_channel(1, 2, 3), webhook_channel(2, 1, 3)]);
    assert_eq!(repository.enqueue_alerts_for_overdue_pings(T + 6 * MICROS_PER_MINUTE), 1);
    assert_eq!(repository.enqueue_alerts_for_overdue_pings(T + 16 * MICROS_PER_MINUTE), 1);
    let batch = repository.claim_alert_batch(1, 1);
    assert_eq!(batch.len(), 1);
    assert_eq!(batch[0].id, 0);
    assert_eq!(batch[0].notification_type, NotificationType::Webhook);
    assert_eq!(batch[0].check_uuid, 0x1001);
    assert_eq!(batch[0].name, "check 1");
    assert_eq!(batch[0].url.as_deref(), Some("https://hooks.example.com/2"));
    assert_eq!(batch[0].email, None);
    assert_eq!(batch[0].retries_remaining, 3);
    assert_eq!(batch[0].max_retries, 3);
    assert_eq!(batch[0].last_ping_at, Some(T));
}

#[test]
fn zero_limit_claims_nothing() {
    let mut c = check(1, "key-one", 5, PeriodUnits::Minutes);
    c.status = CheckStatus::Up;
    c.last_ping_at = Some(T);
    let mut repository = repository_with(vec![c], vec![email_channel(1, 1, 3)]);
    repository.enqueue_alerts_for_overdue_pings(T + 6 * MICROS_PER_MINUTE);
    assert!(repository.claim_alert_batch(1, 0).is_empty());
    assert_eq!(repository.notification().alert(0).unwrap().claimed_by, None);
}

#[test]
fn round_trip_ends_delivered() {
    let mut c = check(1, "key-one", 5, PeriodUnits::Minutes);
    c.status = CheckStatus::Up;
    c.last_ping_at = Some(T);
    let mut repository = repository_with(vec![c], vec![email_channel(7, 1, 3)]);
    let raised_at = T + 6 * MICROS_PER_MINUTE;
    repository.enqueue_alerts_for_overdue_pings(raised_at);
    let batch = repository.claim_alert_batch(9, ALERT_BATCH_SIZE);
    assert_eq!(batch.len(), 1);
    let outcomes = batch.into_iter().map(|alert| DispatchOutcome { alert, delivered: true }).collect();
    let sent = repository.send_alert_batch(9, outcomes, raised_at + 1_000);
    assert_eq!(sent.len(), 1);
    assert_eq!(sent[0].id, 0);
    assert_eq!(sent[0].email.as_deref(), Some("ops7@example.com"));
    let a = repository.notification().alert(0).unwrap();
    assert_eq!(a.delivery_status, DeliveryStatus::Delivered);
    assert_eq!(a.finished_at, Some(raised_at + 1_000));
    assert!(a.finished_at.unwrap() >= a.created_at);
    assert_eq!(a.created_at, raised_at);
    assert_eq!(a.claimed_by, None);
    assert_eq!(a.retries_remaining, 3);
    assert_eq!(a.check_status, CheckStatus::Down);
    assert!(repository.claim_alert_batch(9, ALERT_BATCH_SIZE).is_empty());
}

#[test]
fn mixed_outcomes_are_recorded_in_order() {
    let mut c = check(1, "key-one", 5, PeriodUnits::Minutes);
    c.status = CheckStatus::Up;
    c.last_ping_at = Some(T);
    let mut repository =
        repository_with(vec![c], vec![email_channel(1, 1, 1), email_channel(2, 1, 1), email_channel(3, 1, 0)]);
    repository.enqueue_alerts_for_overdue_pings(T + 6 * MICROS_PER_MINUTE);
    let batch = repository.claim_alert_batch(1, ALERT_BATCH_SIZE);
    assert_eq!(batch.len(), 3);
    let outcomes: Vec<DispatchOutcome> =
        batch.into_iter().map(|alert| { let delivered = alert.id == 1; DispatchOutcome { alert, delivered } }).collect();
    let sent = repository.send_alert_batch(1, outcomes, T + 7 * MICROS_PER_MINUTE);
    assert_eq!(sent.iter().map(|a| a.id).collect::<Vec<_>>(), vec![1]);
    let a0 = repository.notification().alert(0).unwrap();
    let a1 = repository.notification().alert(1).unwrap();
    let a2 = repository.notification().alert(2).unwrap();
    assert_eq!((a0.delivery_status, a0.retries_remaining), (DeliveryStatus::Failed, 0));
    assert_eq!((a1.delivery_status, a1.retries_remaining), (DeliveryStatus::Delivered, 1));
    assert_eq!((a2.delivery_status, a2.retries_remaining), (DeliveryStatus::Failed, 0));
    assert!(!repository.notification.record_outcome(99, true, T));
    assert!(repository.notification.record_outcome(1, false, T));
    assert_eq!(repository.notification().alert(1).unwrap(), a1);
}

#[test]
fn outage_and_recovery() {
    let mut c = check(1, "key-c", 5, PeriodUnits::Minutes);
    c.status = CheckStatus::Up;
    c.last_ping_at = Some(T);
    let mut repository = repository_with(vec![c], vec![email_channel(1, 1, 3), webhook_channel(2, 1, 5)]);
    assert_eq!(repository.enqueue_alerts_for_overdue_pings(T + 6 * MICROS_PER_MINUTE), 2);
    assert_eq!(repository.check().row(0).unwrap().status, CheckStatus::Down);
    let first = repository.notification().alert(0).unwrap();
    let second = repository.notification().alert(1).unwrap();
    assert_eq!(first, AlertEntry {
        id: 0,
        notification_id: 1,
        check_id: 1,
        check_status: CheckStatus::Down,
        delivery_status: DeliveryStatus::Queued,
        retries_remaining: 3,
        created_at: T + 6 * MICROS_PER_MINUTE,
        finished_at: None,
        claimed_by: None,
    });
    assert_eq!(second.notification_id, 2);
    assert_eq!(second.retries_remaining, 5);
    assert_eq!(repository.ping("key-c", T + 7 * MICROS_PER_MINUTE), Some(0x1001));
    let c = repository.check().row(0).unwrap();
    assert_eq!(c.status, CheckStatus::Up);
    assert_eq!(c.last_ping_at, Some(T + 7 * MICROS_PER_MINUTE));
    assert_eq!(repository.notification().alert_count(), 2);
    assert_eq!(repository.notification().alert(0).unwrap(), first);
    assert_eq!(repository.notification().alert(1).unwrap(), second);
}

#[test]
fn stored_names_are_read_back() {
    for status in [CheckStatus::Up, CheckStatus::Down, CheckStatus::Created] {
        assert_eq!(CheckStatus::from_str(&status.to_string()).unwrap(), status);
    }
    for units in [PeriodUnits::Minutes, PeriodUnits::Hours, PeriodUnits::Days] {
        assert_eq!(PeriodUnits::from_str(&units.to_string()).unwrap(), units);
    }
    for kind in [ScheduleType::Simple, ScheduleType::Cron] {
        assert_eq!(ScheduleType::from_str(&kind.to_string()).unwrap(), kind);
    }
    for kind in [NotificationType::Email, NotificationType::Webhook] {
        assert_eq!(NotificationType::from_str(&kind.to_string()).unwrap(), kind);
    }
    for status in [DeliveryStatus::Queued, DeliveryStatus::Delivered, DeliveryStatus::Failed] {
        assert_eq!(DeliveryStatus::from_str(&status.to_string()).unwrap(), status);
    }
    assert_eq!(PeriodUnits::Minutes.to_string(), "MINUTES");
    assert_eq!(ScheduleType::Cron.to_string(), "CRON");
    assert_eq!(CheckStatus::from_str("PAUSED").unwrap_err().to_string(), "unknown check status 'PAUSED'");
    assert_eq!(CheckStatus::from_str("up").unwrap_err().to_string(), "unknown check status 'up'");
    assert_eq!(PeriodUnits::from_str("WEEKS").unwrap_err().to_string(), "unknown period units 'WEEKS'");
    assert_eq!(ScheduleType::from_str("").unwrap_err().to_string(), "unknown schedule type ''");
    assert_eq!(NotificationType::from_str("SMS").unwrap_err().to_string(), "unknown notification type 'SMS'");
    assert_eq!(DeliveryStatus::from_str("SENT").unwrap_err().to_string(), "unknown delivery status 'SENT'");
}

#[test]
fn status_names() {
    assert_eq!(CheckStatus::Up.to_string(), "UP");
    assert_eq!(CheckStatus::Down.to_string(), "DOWN");
    assert_eq!(CheckStatus::Created.to_string(), "CREATED");
    assert_eq!(NotificationType::Email.to_string(), "EMAIL");
    assert_eq!(NotificationType::Webhook.to_string(), "WEBHOOK");
    assert_eq!(DeliveryStatus::Queued.to_string(), "QUEUED");
    assert_eq!(DeliveryStatus::Delivered.to_string(), "DELIVERED");
    assert_eq!(DeliveryStatus::Failed.to_string(), "FAILED");
}

#[test]
fn channels_that_want_an_alert() {
    let mut gone = email_channel(3, 1, 1);
    gone.deleted = true;
    let channels = vec![email_channel(1, 1, 1), email_channel(2, 2, 1), gone, webhook_channel(4, 1, 1), email_channel(5, 1, 1)];
    let mut delivered = AlertEntry::raise(0, 1, 1, 1, T);
    delivered.settle(true, T + 1);
    let queued = AlertEntry::raise(1, 1, 4, 1, T);
    let mut exhausted = AlertEntry::raise(2, 1, 5, 0, T);
    exhausted.settle(false, T + 1);
    let other_check = AlertEntry::raise(3, 2, 1, 1, T);
    let alerts = vec![delivered, queued, exhausted, other_check];
    assert_eq!(wanting_channels(&channels, &alerts, 1), vec![0, 4]);
    assert_eq!(wanting_channels(&channels, &alerts, 2), vec![1]);
    assert_eq!(wanting_channels(&channels, &alerts, 3), Vec::<usize>::new());
    assert_eq!(wanting_channels(&channels, &Vec::new(), 1), vec![0, 3, 4]);
    assert_eq!(wanting_channels(&Vec::new(), &alerts, 1), Vec::<usize>::new());
}

#[test]
fn failed_alert_with_budget_is_claimed_again() {
    let mut c = check(1, "key-one", 5, PeriodUnits::Minutes);
    c.status = CheckStatus::Up;
    c.last_ping_at = Some(T);
    let mut repository = repository_with(vec![c], vec![email_channel(7, 1, 1)]);
    repository.enqueue_alerts_for_overdue_pings(T + 6 * MICROS_PER_MINUTE);
    let batch = repository.claim_alert_batch(1, ALERT_BATCH_SIZE);
    let outcomes = batch.into_iter().map(|alert| DispatchOutcome { alert, delivered: false }).collect();
    repository.send_alert_batch(1, outcomes, T + 7 * MICROS_PER_MINUTE);
    let a = repository.notification().alert(0).unwrap();
    assert_eq!((a.delivery_status, a.retries_remaining), (DeliveryStatus::Failed, 0));
    assert!(repository.claim_alert_batch(1, ALERT_BATCH_SIZE).is_empty());

    let mut c = check(1, "key-one", 5, PeriodUnits::Minutes);
    c.status = CheckStatus::Up;
    c.last_ping_at = Some(T);
    let mut repository = repository_with(vec![c], vec![email_channel(7, 1, 2)]);
    repository.enqueue_alerts_for_overdue_pings(T + 6 * MICROS_PER_MINUTE);
    let batch = repository.claim_alert_batch(1, ALERT_BATCH_SIZE);
    let outcomes = batch.into_iter().map(|alert| DispatchOutcome { alert, delivered: false }).collect();
    repository.send_alert_batch(1, outcomes, T + 7 * MICROS_PER_MINUTE);
    assert_eq!(repository.enqueue_alerts_for_overdue_pings(T + 8 * MICROS_PER_MINUTE), 0);
    let again = repository.claim_alert_batch(2, ALERT_BATCH_SIZE);
    assert_eq!(again.len(), 1);
    assert_eq!(again[0].retries_remaining, 1);
    let outcomes = again.into_iter().map(|alert| DispatchOutcome { alert, delivered: true }).collect();
    assert_eq!(repository.send_alert_batch(2, outcomes, T + 9 * MICROS_PER_MINUTE).len(), 1);
    let a = repository.notification().alert(0).unwrap();
    assert_eq!((a.delivery_status, a.retries_remaining), (DeliveryStatus::Delivered, 1));
    assert_eq!(a.finished_at, Some(T + 9 * MICROS_PER_MINUTE));
}

#[test]
fn lock_of_another_worker_is_skipped() {
    let mut c = check(1, "key-one", 5, PeriodUnits::Minutes);
    c.status = CheckStatus::Up;
    c.last_ping_at = Some(T);
    let mut repository = repository_with(vec![c], vec![email_channel(1, 1, 3), email_channel(2, 1, 3)]);
    repository.enqueue_alerts_for_overdue_pings(T + 6 * MICROS_PER_MINUTE);
    let first = repository.claim_alert_batch(1, 1);
    assert_eq!(first[0].id, 0);
    let second = repository.claim_alert_batch(2, 1);
    assert_eq!(second[0].id, 1);
    repository.notification.release(1);
    assert_eq!(repository.notification().alert(0).unwrap().claimed_by, None);
    assert_eq!(repository.notification().alert(1).unwrap().claimed_by, Some(2));
    let third = repository.claim_alert_batch(3, 5);
    assert_eq!(third.iter().map(|a| a.id).collect::<Vec<_>>(), vec![0]);
}
