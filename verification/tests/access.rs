use up_engine::auth::{
    parse_assignment, parse_role, to_role_and_id_map, to_uuid_and_id_map, Assignment, Identity, Role,
    RoleGrant, User, UserRole,
};
use up_engine::check::{Check, CheckStatus, PeriodUnits, ScheduleType};
use up_engine::notification::{Notification, NotificationType};
use up_engine::repository::check::{CheckRepository, CreateCheck, UpdateCheck};
use up_engine::repository::error::RepositoryError;
use up_engine::repository::notification::{CreateNotification, NotificationRepository, UpdateNotification};
use up_engine::repository::project::{CreateProject, Project, ProjectRepository, UpdateProject};
use up_engine::shortid::ShortId;

const ACCOUNT: u128 = 0xa1;
const OTHER_ACCOUNT: u128 = 0xa2;
const PROJECT: u128 = 0xb1;
const OTHER_PROJECT: u128 = 0xb2;

fn identity(roles: Vec<Role>) -> Identity {
    Identity {
        user_id: 7,
        user_uuid: 0x77,
        account_ids: vec![Assignment { uuid: ACCOUNT, id: 1 }],
        project_ids: vec![Assignment { uuid: PROJECT, id: 10 }],
        email: "user@example.com".to_string(),
        roles: vec![RoleGrant { account_id: 1, roles }],
    }
}

fn check(id: i64, uuid: u128, account_id: i64, project_id: i64) -> Check {
    Check {
        id,
        uuid,
        account_id,
        project_id,
        ping_key: format!("key-{}", id),
        name: format!("check {}", id),
        description: String::new(),
        status: CheckStatus::Created,
        schedule_type: ScheduleType::Simple,
        ping_period: 1,
        ping_period_units: PeriodUnits::Days,
        ping_cron_expression: None,
        grace_period: 1,
        grace_period_units: PeriodUnits::Hours,
        last_ping_at: None,
        created_at: 1,
        updated_at: None,
        deleted: false,
        deleted_at: None,
    }
}

fn channel(id: i64, uuid: u128, check_id: i64) -> Notification {
    Notification {
        id,
        uuid,
        check_id,
        name: format!("channel {}", id),
        notification_type: NotificationType::Email,
        email: Some("a@example.com".to_string()),
        url: None,
        max_retries: 3,
        created_at: 1,
        updated_at: None,
        deleted: false,
        deleted_at: None,
    }
}

fn checks() -> CheckRepository {
    let mut table = CheckRepository::new();
    table.insert(check(1, 0xc1, 1, 10)).unwrap();
    table.insert(check(2, 0xc2, 2, 10)).unwrap();
    table.insert(check(3, 0xc3, 1, 11)).unwrap();
    table.insert(check(4, 0xc4, 1, 10)).unwrap();
    table
}

fn not_found(e: RepositoryError) -> (String, String) {
    match e {
        RepositoryError::NotFound { entity_type, id } => (entity_type, id),
        other => panic!("unexpected error {:?}", other),
    }
}

#[test]
fn assignments_and_roles() {
    let me = identity(vec![Role::Member]);
    assert!(me.is_assigned_to_account(ACCOUNT));
    assert!(!me.is_assigned_to_account(OTHER_ACCOUNT));
    assert!(me.is_assigned_to_project(PROJECT));
    assert!(!me.is_assigned_to_project(OTHER_PROJECT));
    assert_eq!(me.get_account_id(ACCOUNT).unwrap(), 1);
    assert_eq!(me.get_project_id(PROJECT).unwrap(), 10);
    assert_eq!(
        not_found(me.get_account_id(OTHER_ACCOUNT).unwrap_err()),
        ("account".to_string(), ShortId::from_uuid(OTHER_ACCOUNT).to_string())
    );
    assert_eq!(
        not_found(me.get_project_id(OTHER_PROJECT).unwrap_err()),
        ("project".to_string(), ShortId::from_uuid(OTHER_PROJECT).to_string())
    );
    assert!(me.ensure_assigned_to_account(ACCOUNT).is_ok());
    assert!(me.ensure_assigned_to_project(PROJECT).is_ok());
    assert_eq!(not_found(me.ensure_assigned_to_account(OTHER_ACCOUNT).unwrap_err()).0, "account");
    assert_eq!(not_found(me.ensure_assigned_to_project(OTHER_PROJECT).unwrap_err()).0, "project");
    assert!(me.has_role_in_account(ACCOUNT, Role::Member));
    assert!(!me.has_role_in_account(ACCOUNT, Role::Administrator));
    assert!(!me.has_role_in_account(OTHER_ACCOUNT, Role::Member));
    assert!(me.has_role_in_account_with_id(1, Role::Member));
    assert!(!me.has_role_in_account_with_id(2, Role::Member));
    assert!(!me.is_administrator_in_account(ACCOUNT));
    assert!(!me.is_administrator_in_account_with_id(1));
    let admin = identity(vec![Role::Viewer, Role::Administrator]);
    assert!(admin.is_administrator_in_account(ACCOUNT));
    assert!(admin.is_administrator_in_account_with_id(1));
    assert_eq!(admin.account_ids(), vec![1]);
    assert_eq!(admin.project_ids(), vec![10]);
}

#[test]
fn role_names() {
    assert_eq!(UserRole::from_str("ADMINISTRATOR"), Ok(UserRole::Administrator));
    assert_eq!(UserRole::from_str("MEMBER"), Ok(UserRole::Member));
    assert_eq!(UserRole::from_str("VIEWER"), Ok(UserRole::Viewer));
    assert_eq!(UserRole::from_str("viewer"), Err("viewer is not a supported role value".to_string()));
    assert_eq!(UserRole::from_str(""), Err(" is not a supported role value".to_string()));
    assert_eq!(Role::from(UserRole::Administrator), Role::Administrator);
    assert_eq!(Role::from(UserRole::Member), Role::Member);
    assert_eq!(Role::from(UserRole::Viewer), Role::Viewer);
}

#[test]
fn assignments_are_read_from_text() {
    assert_eq!(
        parse_assignment("5a3b3743-4f32-4fb6-8d0c-03bc793ff79d|42"),
        Some(Assignment { uuid: 0x5a3b37434f324fb68d0c03bc793ff79d, id: 42 })
    );
    assert_eq!(
        parse_assignment("5a3b37434f324fb68d0c03bc793ff79d|-3|ignored"),
        Some(Assignment { uuid: 0x5a3b37434f324fb68d0c03bc793ff79d, id: -3 })
    );
    assert_eq!(parse_assignment("5a3b3743-4f32-4fb6-8d0c-03bc793ff79d"), None);
    assert_eq!(parse_assignment("5a3b3743-4f32-4fb6-8d0c-03bc793ff79d|"), None);
    assert_eq!(parse_assignment("5a3b3743-4f32-4fb6-8d0c-03bc793ff79d|4x"), None);
    assert_eq!(parse_assignment("not-a-uuid|4"), None);
    assert_eq!(parse_assignment("|4"), None);
    assert_eq!(parse_assignment(""), None);

    let items = vec![
        "00000000-0000-0000-0000-000000000001|1".to_string(),
        "00000000-0000-0000-0000-000000000002|2".to_string(),
        "00000000-0000-0000-0000-000000000001|3".to_string(),
    ];
    assert_eq!(
        to_uuid_and_id_map(&items),
        Some(vec![Assignment { uuid: 1, id: 3 }, Assignment { uuid: 2, id: 2 }])
    );
    assert_eq!(to_uuid_and_id_map(&Vec::new()), Some(Vec::new()));
    assert_eq!(to_uuid_and_id_map(&vec!["00000000-0000-0000-0000-000000000001|1".to_string(), "x".to_string()]), None);
}

#[test]
fn roles_are_read_from_text() {
    assert_eq!(parse_role("ADMINISTRATOR|5"), Some((5, Role::Administrator)));
    assert_eq!(parse_role("VIEWER|9223372036854775807"), Some((i64::MAX, Role::Viewer)));
    assert_eq!(parse_role("VIEWER|9223372036854775808"), None);
    assert_eq!(parse_role("OWNER|5"), None);
    assert_eq!(parse_role("MEMBER"), None);
    assert_eq!(parse_role("MEMBER|five"), None);

    let items = vec![
        "MEMBER|1".to_string(),
        "VIEWER|2".to_string(),
        "ADMINISTRATOR|1".to_string(),
        "MEMBER|1".to_string(),
    ];
    let grants = to_role_and_id_map(&items).unwrap();
    assert_eq!(grants.len(), 2);
    assert_eq!(grants[0].account_id, 1);
    assert_eq!(grants[0].roles, vec![Role::Member, Role::Administrator]);
    assert_eq!(grants[1].account_id, 2);
    assert_eq!(grants[1].roles, vec![Role::Viewer]);
    assert!(to_role_and_id_map(&vec!["MEMBER|1".to_string(), "MEMBER".to_string()]).is_none());
}

#[test]
fn identity_of_a_user() {
    let user = User {
        id: 7,
        uuid: 0x77,
        email: "user@example.com".to_string(),
        account_ids: vec!["00000000-0000-0000-0000-0000000000a1|1".to_string()],
        project_ids: vec!["00000000-0000-0000-0000-0000000000b1|10".to_string()],
        roles: vec!["ADMINISTRATOR|1".to_string()],
    };
    let me = Identity::from_user(user).unwrap();
    assert_eq!(me.user_id, 7);
    assert_eq!(me.user_uuid, 0x77);
    assert_eq!(me.email, "user@example.com");
    assert!(me.is_administrator_in_account(ACCOUNT));
    assert_eq!(me.get_project_id(PROJECT).unwrap(), 10);
    let broken = User {
        id: 7,
        uuid: 0x77,
        email: String::new(),
        account_ids: vec![],
        project_ids: vec![],
        roles: vec!["ROOT|1".to_string()],
    };
    assert!(Identity::from_user(broken).is_none());
}

#[test]
fn checks_are_read_by_those_who_may() {
    let table = checks();
    let me = identity(vec![Role::Member]);
    assert_eq!(table.read_one(&me, PROJECT, 0xc1).unwrap().id, 1);
    assert_eq!(table.read_one(&me, PROJECT, 0xc4).unwrap().name, "check 4");
    assert_eq!(
        not_found(table.read_one(&me, PROJECT, 0xc2).unwrap_err()),
        ("check".to_string(), ShortId::from_uuid(0xc2).to_string())
    );
    assert_eq!(not_found(table.read_one(&me, PROJECT, 0xc3).unwrap_err()).0, "check");
    assert_eq!(not_found(table.read_one(&me, PROJECT, 0xff).unwrap_err()).0, "check");
    assert_eq!(
        not_found(table.read_one(&me, OTHER_PROJECT, 0xc1).unwrap_err()),
        ("project".to_string(), ShortId::from_uuid(OTHER_PROJECT).to_string())
    );
    let all = table.read_all(&me, PROJECT).unwrap();
    assert_eq!(all.iter().map(|c| c.id).collect::<Vec<_>>(), vec![1, 4]);
    assert_eq!(not_found(table.read_all(&me, OTHER_PROJECT).unwrap_err()).0, "project");
    assert_eq!(table.get_check_account_id(0xc1, 10, &vec![1]).unwrap(), (1, 1));
    assert!(table.get_check_account_id(0xc1, 10, &vec![2]).is_err());
    assert_eq!(table.find_visible(0xc4, 10, &vec![5, 1]), Some(3));
    assert_eq!(table.position_of(3), Some(2));
    assert_eq!(table.position_of(9), None);
}

#[test]
fn checks_are_renamed_and_deleted() {
    let mut table = checks();
    let me = identity(vec![Role::Member]);
    let renamed = table.update(&me, PROJECT, 0xc1, UpdateCheck { name: Some("renamed".to_string()) }).unwrap();
    assert_eq!(renamed.name, "renamed");
    assert_eq!(table.row(0).unwrap().name, "renamed");
    assert_eq!(table.row(3).unwrap().name, "check 4");
    let same = table.update(&me, PROJECT, 0xc4, UpdateCheck { name: None }).unwrap();
    assert_eq!(same.name, "check 4");
    assert_eq!(
        not_found(table.update(&me, PROJECT, 0xc2, UpdateCheck { name: Some("x".to_string()) }).unwrap_err()).0,
        "check"
    );
    assert_eq!(table.row(1).unwrap().name, "check 2");
    assert_eq!(
        not_found(table.update(&me, OTHER_PROJECT, 0xc1, UpdateCheck { name: None }).unwrap_err()).0,
        "project"
    );

    assert_eq!(table.delete(&me, PROJECT, 0xc1, 50).unwrap(), true);
    assert!(table.row(0).unwrap().deleted);
    assert_eq!(table.row(0).unwrap().deleted_at, Some(50));
    assert_eq!(table.delete(&me, PROJECT, 0xc1, 60).unwrap(), true);
    assert_eq!(table.row(0).unwrap().deleted_at, Some(60));
    assert_eq!(table.delete(&me, PROJECT, 0xc2, 50).unwrap(), false);
    assert!(!table.row(1).unwrap().deleted);
    assert_eq!(not_found(table.delete(&me, OTHER_PROJECT, 0xc1, 50).unwrap_err()).0, "project");
    assert_eq!(not_found(table.read_one(&me, PROJECT, 0xc1).unwrap_err()).0, "check");
    assert_eq!(table.ping("key-1", 70), None);
    assert_eq!(table.len(), 4);
}

#[test]
fn channels_are_read_changed_and_deleted() {
    let table = checks();
    let me = identity(vec![Role::Member]);
    let mut channels = NotificationRepository::new();
    channels.insert(channel(1, 0xd1, 1)).unwrap();
    channels.insert(channel(2, 0xd2, 1)).unwrap();
    channels.insert(channel(3, 0xd3, 2)).unwrap();
    assert!(channels.insert(channel(3, 0xd9, 1)).unwrap_err().is_unique_constraint_violation());
    assert!(channels.insert(channel(9, 0xd3, 1)).unwrap_err().is_unique_constraint_violation());
    assert_eq!(channels.channel_count(), 3);

    assert_eq!(NotificationRepository::resolve_check(&table, &me, PROJECT, 0xc1).unwrap(), 1);
    assert_eq!(channels.read_one(&table, &me, PROJECT, 0xc1, 0xd2).unwrap().id, 2);
    assert_eq!(
        not_found(channels.read_one(&table, &me, PROJECT, 0xc1, 0xd3).unwrap_err()),
        ("notification".to_string(), ShortId::from_uuid(0xd3).to_string())
    );
    assert_eq!(not_found(channels.read_one(&table, &me, PROJECT, 0xc2, 0xd3).unwrap_err()).0, "check");
    assert_eq!(not_found(channels.read_one(&table, &me, OTHER_PROJECT, 0xc1, 0xd1).unwrap_err()).0, "project");
    let all = channels.read_all(&table, &me, PROJECT, 0xc1).unwrap();
    assert_eq!(all.iter().map(|c| c.id).collect::<Vec<_>>(), vec![1, 2]);
    assert!(channels.read_all(&table, &me, PROJECT, 0xc2).unwrap().is_empty());
    assert_eq!(not_found(channels.read_all(&table, &me, OTHER_PROJECT, 0xc1).unwrap_err()).0, "project");

    let request = UpdateNotification {
        name: None,
        notification_type: Some(NotificationType::Webhook),
        email: Some("b@example.com".to_string()),
        url: None,
        max_retries: Some(9),
    };
    let changed = channels.update(&table, &me, PROJECT, 0xc1, 0xd1, request, 99).unwrap();
    assert_eq!(changed.name, "channel 1");
    assert_eq!(changed.email.as_deref(), Some("b@example.com"));
    assert_eq!(changed.url, None);
    assert_eq!(changed.max_retries, 9);
    assert_eq!(changed.updated_at, Some(99));
    assert_eq!(changed.notification_type, NotificationType::Email);
    assert_eq!(channels.channel(0).unwrap().max_retries, 9);
    assert_eq!(channels.channel(1).unwrap().max_retries, 3);
    assert_eq!(channels.channel(1).unwrap().updated_at, None);
    assert_eq!(channels.position_of(2), Some(1));
    assert_eq!(channels.find_live_channel(0xd2, 1), Some(1));

    assert_eq!(channels.delete(&table, &me, PROJECT, 0xc1, 0xd2, 100).unwrap(), true);
    assert!(channels.channel(1).unwrap().deleted);
    assert_eq!(channels.channel(1).unwrap().deleted_at, Some(100));
    assert_eq!(channels.delete(&table, &me, PROJECT, 0xc1, 0xd3, 100).unwrap(), false);
    assert!(!channels.channel(2).unwrap().deleted);
    assert_eq!(not_found(channels.delete(&table, &me, PROJECT, 0xc2, 0xd3, 100).unwrap_err()).0, "check");
    assert_eq!(not_found(channels.read_one(&table, &me, PROJECT, 0xc1, 0xd2).unwrap_err()).0, "notification");
    assert!(!channels.has_outstanding_alert(1, 1));
    assert_eq!(channels.enqueue_alerts_for_check(1, 200), 1);
    assert!(channels.has_outstanding_alert(1, 1));
    assert!(!channels.has_outstanding_alert(1, 2));
    assert_eq!(channels.enqueue_alerts_for_check(1, 201), 0);
}

fn project(id: i64, uuid: u128, account_id: i64) -> Project {
    Project {
        id,
        uuid,
        account_id,
        name: format!("project {}", id),
        created_at: 1,
        updated_at: None,
        deleted: false,
        deleted_at: None,
    }
}

#[test]
fn projects_take_an_administrator_to_change() {
    let mut projects = ProjectRepository::new();
    projects.insert(project(10, PROJECT, 1)).unwrap();
    projects.insert(project(11, OTHER_PROJECT, 1)).unwrap();
    projects.insert(project(12, 0xb3, 2)).unwrap();
    assert!(projects.insert(project(10, 0xb9, 1)).unwrap_err().is_unique_constraint_violation());
    let member = identity(vec![Role::Member]);
    let admin = identity(vec![Role::Administrator]);

    assert_eq!(projects.read_one(&member, PROJECT).unwrap().id, 10);
    assert_eq!(not_found(projects.read_one(&member, OTHER_PROJECT).unwrap_err()).0, "project");
    assert_eq!(projects.read_all(&member).iter().map(|p| p.id).collect::<Vec<_>>(), vec![10]);
    assert_eq!(projects.get_project_account_id(OTHER_PROJECT, &vec![1]).unwrap(), (11, 1));
    assert!(projects.get_project_account_id(0xb3, &vec![1]).is_err());

    let e = projects.update(&member, PROJECT, UpdateProject { name: Some("x".to_string()) }, 5).unwrap_err();
    assert!(matches!(e, RepositoryError::Forbidden));
    assert_eq!(projects.row(0).unwrap().name, "project 10");
    let e = projects.update(&admin, OTHER_PROJECT, UpdateProject { name: None }, 5).unwrap_err();
    assert_eq!(not_found(e).0, "project");
    let changed = projects.update(&admin, PROJECT, UpdateProject { name: Some("x".to_string()) }, 5).unwrap();
    assert_eq!(changed.name, "x");
    assert_eq!(changed.updated_at, Some(5));
    assert_eq!(projects.row(1).unwrap().updated_at, None);

    assert!(matches!(projects.delete(&member, PROJECT, 6).unwrap_err(), RepositoryError::Forbidden));
    assert_eq!(projects.delete(&admin, PROJECT, 6).unwrap(), true);
    assert!(projects.row(0).unwrap().deleted);
    assert_eq!(projects.row(0).unwrap().deleted_at, Some(6));
    assert_eq!(not_found(projects.delete(&admin, PROJECT, 7).unwrap_err()).0, "project");
    assert_eq!(not_found(projects.read_one(&admin, PROJECT).unwrap_err()).0, "project");
    assert_eq!(projects.len(), 3);
}

#[test]
fn rows_are_created_for_those_who_may() {
    let me = identity(vec![Role::Member]);
    let mut table = checks();
    let mut defaults = check(9, 0xc9, 77, 78);
    defaults.status = CheckStatus::Up;
    defaults.last_ping_at = Some(5);
    defaults.deleted = true;
    defaults.deleted_at = Some(6);
    defaults.updated_at = Some(7);
    let request = CreateCheck { account_uuid: ACCOUNT, project_uuid: PROJECT, name: "fresh".to_string() };
    let made = table.create(&me, PROJECT, request, defaults).unwrap();
    assert_eq!((made.id, made.uuid, made.account_id, made.project_id), (9, 0xc9, 1, 10));
    assert_eq!(made.name, "fresh");
    assert_eq!(made.ping_key, "key-9");
    assert_eq!(made.status, CheckStatus::Created);
    assert_eq!((made.last_ping_at, made.updated_at, made.deleted, made.deleted_at), (None, None, false, None));
    assert_eq!((made.ping_period, made.ping_period_units), (1, PeriodUnits::Days));
    assert_eq!(table.len(), 5);
    assert_eq!(table.read_one(&me, PROJECT, 0xc9).unwrap().name, "fresh");

    let request = CreateCheck { account_uuid: ACCOUNT, project_uuid: PROJECT, name: "again".to_string() };
    assert!(table.create(&me, PROJECT, request, check(9, 0xca, 1, 1)).unwrap_err().is_unique_constraint_violation());
    let request = CreateCheck { account_uuid: ACCOUNT, project_uuid: PROJECT, name: "x".to_string() };
    assert_eq!(not_found(table.create(&me, OTHER_PROJECT, request, check(20, 0xe0, 1, 1)).unwrap_err()).0, "project");
    let request = CreateCheck { account_uuid: OTHER_ACCOUNT, project_uuid: PROJECT, name: "x".to_string() };
    assert_eq!(
        not_found(table.create(&me, PROJECT, request, check(20, 0xe0, 1, 1)).unwrap_err()),
        ("account".to_string(), ShortId::from_uuid(OTHER_ACCOUNT).to_string())
    );
    assert_eq!(table.len(), 5);

    let mut channels = NotificationRepository::new();
    let request = CreateNotification {
        notification_type: NotificationType::Webhook,
        name: None,
        email: None,
        url: Some("https://hook.example.com".to_string()),
        max_retries: Some(8),
    };
    let made = channels.create(&table, &me, PROJECT, 0xc1, request, channel(5, 0xd5, 99)).unwrap();
    assert_eq!((made.id, made.uuid, made.check_id), (5, 0xd5, 1));
    assert_eq!(made.notification_type, NotificationType::Webhook);
    assert_eq!(made.name, "channel 5");
    assert_eq!(made.email, None);
    assert_eq!(made.url.as_deref(), Some("https://hook.example.com"));
    assert_eq!(made.max_retries, 8);
    let request = CreateNotification {
        notification_type: NotificationType::Email,
        name: Some("mail".to_string()),
        email: Some("x@example.com".to_string()),
        url: None,
        max_retries: None,
    };
    let made = channels.create(&table, &me, PROJECT, 0xc1, request, channel(6, 0xd6, 99)).unwrap();
    assert_eq!((made.name.as_str(), made.max_retries), ("mail", 3));
    let request = CreateNotification {
        notification_type: NotificationType::Email,
        name: None,
        email: None,
        url: None,
        max_retries: None,
    };
    assert_eq!(
        not_found(channels.create(&table, &me, PROJECT, 0xc2, request, channel(7, 0xd7, 99)).unwrap_err()).0,
        "check"
    );
    let request = CreateNotification {
        notification_type: NotificationType::Email,
        name: None,
        email: None,
        url: None,
        max_retries: None,
    };
    assert!(channels
        .create(&table, &me, PROJECT, 0xc1, request, channel(6, 0xd8, 99))
        .unwrap_err()
        .is_unique_constraint_violation());
    assert_eq!(channels.channel_count(), 2);

    let admin = identity(vec![Role::Administrator]);
    let mut projects = ProjectRepository::new();
    let request = CreateProject { account_uuid: ACCOUNT, name: "made".to_string() };
    let made = projects.create(&admin, request, project(30, 0xb7, 99)).unwrap();
    assert_eq!((made.id, made.uuid, made.account_id, made.name.as_str()), (30, 0xb7, 1, "made"));
    let request = CreateProject { account_uuid: ACCOUNT, name: "made".to_string() };
    assert!(matches!(projects.create(&me, request, project(31, 0xb8, 99)).unwrap_err(), RepositoryError::Forbidden));
    let request = CreateProject { account_uuid: OTHER_ACCOUNT, name: "made".to_string() };
    assert_eq!(not_found(projects.create(&admin, request, project(31, 0xb8, 99)).unwrap_err()).0, "account");
    let request = CreateProject { account_uuid: ACCOUNT, name: "made".to_string() };
    assert!(projects.create(&admin, request, project(30, 0xb8, 99)).unwrap_err().is_unique_constraint_violation());
    assert_eq!(projects.len(), 1);
}
