use up_engine::api::{
    bearer_token, health_handler, ping, skips_authorization, wraps_error_body, ApiError, GenericResponse,
    NotFoundResponse, ResponseStatus, HEALTH_URI, PING_URI,
};
use up_engine::auth::Role;
use up_engine::check::{Check, CheckStatus, PeriodUnits, ScheduleType};
use up_engine::cli::{env_line, has_escapes, shell_quote};
use up_engine::dto::account::Field as AccountField;
use up_engine::dto::check::Field as CheckField;
use up_engine::dto::project::Field as ProjectField;
use up_engine::dto::{ModelField, UnsupportedField};
use up_engine::jobs::{
    enqueue_overdue_ping_alerts, send_alerts, EnqueueAlerts, JobAction, JobControl, JobEvent,
    JobState, SendAlerts, StopAction, POLL_INTERVAL,
};
use up_engine::jwks::{Jwk, Jwks, KeyAlgorithm, KeyType};
use up_engine::jwt::{signing_input, token, Claims, Header, Validation, Verifier, DEFAULT_AUDIENCE, DEFAULT_ISSUER};
use up_engine::models;
use up_engine::notification::{DispatchOutcome, Notification, NotificationAlert, NotificationType};
use up_engine::notifier::{Body, Dispatch, Notifier, NotifierError};
use up_engine::postmark::{check_response, check_status, is_test_token, PostmarkError, SendEmailResponse};
use up_engine::repository::error::RepositoryError;
use up_engine::repository::Repository;
use up_engine::settings::{
    default_database_max_connections, default_database_url, default_listen_port, env_or_error,
    AppError, Args,
};
use up_engine::shortid::ShortId;
use up_engine::text::{find_from, first_two_fields, same_text, skip_chars, starts_with};

const T: i64 = 1_700_000_000_000_000;

fn up_check(id: i64, key: &str) -> Check {
    Check {
        id,
        uuid: 0x1000 + id as u128,
        account_id: 1,
        project_id: 1,
        ping_key: key.to_string(),
        name: format!("check {}", id),
        description: "about".to_string(),
        status: CheckStatus::Up,
        schedule_type: ScheduleType::Simple,
        ping_period: 5,
        ping_period_units: PeriodUnits::Minutes,
        ping_cron_expression: Some("* * * * *".to_string()),
        grace_period: 0,
        grace_period_units: PeriodUnits::Minutes,
        last_ping_at: Some(T),
        created_at: T - 1,
        updated_at: None,
        deleted: false,
        deleted_at: None,
    }
}

fn channel(id: i64, check_id: i64) -> Notification {
    Notification {
        id,
        uuid: 0x2000 + id as u128,
        check_id,
        name: "ops".to_string(),
        notification_type: NotificationType::Email,
        email: Some("ops@example.com".to_string()),
        url: None,
        max_retries: 1,
        created_at: T - 1,
        updated_at: Some(T),
        deleted: false,
        deleted_at: None,
    }
}

fn alert(kind: NotificationType, email: Option<&str>, url: Option<&str>) -> NotificationAlert {
    NotificationAlert {
        id: 3,
        check_uuid: 0x1001,
        notification_type: kind,
        name: "nightly backup".to_string(),
        email: email.map(|e| e.to_string()),
        url: url.map(|u| u.to_string()),
        retries_remaining: 2,
        max_retries: 3,
        last_ping_at: Some(T),
    }
}

#[test]
fn ping_answers_the_same_for_every_key() {
    let mut repository = Repository::new();
    repository.insert_check(up_check(1, "secret")).unwrap();
    let known = ping(&mut repository, "secret", T + 5);
    let unknown = ping(&mut repository, "guess", T + 6);
    assert_eq!(known, "OK");
    assert_eq!(unknown, known);
    assert_eq!(repository.check().row(0).unwrap().last_ping_at, Some(T + 5));
    assert_eq!(health_handler(), "UP");
    assert_eq!(PING_URI, "/api/v1/ping");
    assert_eq!(HEALTH_URI, "/health");
}

#[test]
fn open_paths_and_bearer_tokens() {
    assert!(skips_authorization("/api/v1/ping/abc"));
    assert!(skips_authorization("/health"));
    assert!(skips_authorization("/healthz"));
    assert!(!skips_authorization("/api/v1/checks"));
    assert!(!skips_authorization("/api/v1/pin"));
    assert!(!skips_authorization(""));
    assert_eq!(bearer_token("Bearer abc.def"), Some("abc.def".to_string()));
    assert_eq!(bearer_token("Bearer "), Some(String::new()));
    assert_eq!(bearer_token("bearer abc"), None);
    assert_eq!(bearer_token("Basic abc"), None);
    assert_eq!(bearer_token("Bearer"), None);
}

#[test]
fn error_bodies_that_need_wrapping() {
    assert!(wraps_error_body(404, Some("text/plain")));
    assert!(wraps_error_body(500, Some("")));
    assert!(!wraps_error_body(404, Some("application/json")));
    assert!(!wraps_error_body(404, None));
    assert!(!wraps_error_body(200, Some("text/plain")));
    assert!(!wraps_error_body(299, Some("text/plain")));
    assert!(wraps_error_body(300, Some("text/plain")));
    assert!(wraps_error_body(199, Some("text/plain")));
}

#[test]
fn simple_responses() {
    let ok = GenericResponse::success("done");
    assert_eq!(ok.status, ResponseStatus::Success);
    assert_eq!(ok.message.as_deref(), Some("done"));
    assert!(ok.details.is_empty());
    let failed = GenericResponse::failure("broken");
    assert_eq!(failed.status, ResponseStatus::Failure);
    assert_eq!(failed.message.as_deref(), Some("broken"));
    let detailed = GenericResponse::failure_with_details("broken", vec!["a".to_string(), "b".to_string()]);
    assert_eq!(detailed.status, ResponseStatus::Failure);
    assert_eq!(detailed.details, vec!["a".to_string(), "b".to_string()]);
    let missing = NotFoundResponse::new("/nowhere");
    assert_eq!(missing.path, "/nowhere");
    assert_eq!(missing.inner.status, ResponseStatus::Failure);
    assert_eq!(missing.inner.message.as_deref(), Some("not found"));
    assert_eq!(ResponseStatus::Success.to_string(), "SUCCESS");
    assert_eq!(ResponseStatus::Failure.to_string(), "FAILURE");
}

#[test]
fn errors_become_answers() {
    let r = ApiError::Repository(RepositoryError::unique_constraint_violation()).into_response();
    assert_eq!((r.status, r.message.as_str()), (409, "already exists with name/key"));
    let r = ApiError::Repository(RepositoryError::NotFound {
        entity_type: "check".to_string(),
        id: "2T7CVM6KSJ9YV8T303QHWKZXWX".to_string(),
    })
    .into_response();
    assert_eq!((r.status, r.message.as_str()), (404, "check with ID 2T7CVM6KSJ9YV8T303QHWKZXWX does not exist"));
    let r = ApiError::Repository(RepositoryError::Forbidden).into_response();
    assert_eq!((r.status, r.message.as_str()), (403, "permission denied"));
    let r = ApiError::Repository(RepositoryError::SqlQueryFailed { code: Some("42601".to_string()) }).into_response();
    assert_eq!((r.status, r.message.as_str()), (500, "SQL query failed"));
    let r = ApiError::Repository(RepositoryError::SqlQueryFailed { code: None }).into_response();
    assert_eq!(r.status, 500);
    let r = ApiError::Repository(RepositoryError::BackgroundTaskFailed).into_response();
    assert_eq!((r.status, r.message.as_str()), (500, "failed to execute background task"));
    assert!(r.details.is_empty());
    let e = RepositoryError::NotFound { entity_type: "project".to_string(), id: "x".to_string() };
    assert_eq!(e.to_string(), "project does not exist");
    assert_eq!(e.database_error_code(), None);
    assert!(!e.is_unique_constraint_violation());
    assert!(!RepositoryError::SqlQueryFailed { code: Some("23503".to_string()) }.is_unique_constraint_violation());
}

#[test]
fn env_lines() {
    assert_eq!(shell_quote("plain"), "'plain'");
    assert_eq!(shell_quote(""), "''");
    assert_eq!(shell_quote("a\nb"), "\"a\\nb\"");
    assert_eq!(shell_quote("a\tb\rc\n"), "\"a\\tb\\rc\\n\"");
    assert_eq!(shell_quote("it's"), "'it's'");
    assert_eq!(shell_quote("say \"hi\"\n"), "\"say \"hi\"\\n\"");
    assert_eq!(shell_quote("\u{e9}\n\u{e9}"), "\"\u{e9}\\n\u{e9}\"");
    assert_eq!(env_line("JWKS", "{\"keys\":[]}"), "JWKS='{\"keys\":[]}'\n");
    assert_eq!(env_line("CA", "-----BEGIN-----\nabc\n"), "CA=\"-----BEGIN-----\\nabc\\n\"\n");
    assert!(has_escapes("a\rb"));
    assert!(!has_escapes("a b"));
}

#[test]
fn columns_by_name() {
    assert_eq!(CheckField::Table.as_ref(), "checks");
    assert_eq!(CheckField::PingCronExpression.as_ref(), "ping_cron_expression");
    assert_eq!(CheckField::from_str("last_ping_at").unwrap(), CheckField::LastPingAt);
    assert_eq!(CheckField::from_str("shortid").unwrap(), CheckField::ShortId);
    let e: UnsupportedField = CheckField::from_str("checks").unwrap_err();
    assert_eq!(e.to_string(), "unsupported Check variant 'checks'");
    assert_eq!(CheckField::from_str("Name").unwrap_err().to_string(), "unsupported Check variant 'Name'");
    assert_eq!(CheckField::all().len(), 20);
    assert!(!CheckField::all().contains(&CheckField::Table));
    for f in CheckField::all() {
        assert_eq!(CheckField::from_str(f.as_ref()).unwrap(), f);
    }
    assert_eq!(
        CheckField::updatable(),
        vec![
            CheckField::Name,
            CheckField::Description,
            CheckField::ScheduleType,
            CheckField::PingPeriod,
            CheckField::PingPeriodUnits,
            CheckField::PingCronExpression,
            CheckField::GracePeriod,
            CheckField::GracePeriodUnits,
            CheckField::Status,
        ]
    );
    assert!(CheckField::Status.is_updatable());
    assert!(!CheckField::PingKey.is_updatable());

    assert_eq!(ProjectField::Table.as_ref(), "projects");
    assert_eq!(ProjectField::all().len(), 9);
    assert_eq!(ProjectField::updatable(), vec![ProjectField::Name, ProjectField::AccountId]);
    assert_eq!(ProjectField::from_str("account_id").unwrap(), ProjectField::AccountId);
    assert_eq!(
        ProjectField::from_str("ping_key").unwrap_err().to_string(),
        "unsupported Project variant 'ping_key'"
    );
    assert!(ProjectField::AccountId.is_updatable());
    assert!(!ProjectField::Id.is_updatable());

    assert_eq!(AccountField::Table.as_ref(), "accounts");
    assert_eq!(AccountField::all().len(), 6);
    assert!(AccountField::updatable().is_empty());
    assert_eq!(AccountField::from_str("key").unwrap(), AccountField::Key);
    assert_eq!(
        AccountField::from_str("name").unwrap_err().to_string(),
        "unsupported Accounts variant 'name'"
    );
    assert!(!AccountField::Key.is_updatable());
}

#[test]
fn job_loop() {
    let mut control = JobControl::new();
    assert_eq!(control.state, JobState::Idle);
    assert_eq!(control.next(JobEvent::Tick), JobAction::Exit);
    assert_eq!(control.stop(), StopAction::Nothing);
    assert_eq!(control.spawn(), 5);
    assert_eq!(POLL_INTERVAL, 5);
    assert_eq!(control.next(JobEvent::Tick), JobAction::RunTick);
    assert_eq!(control.next(JobEvent::Tick), JobAction::RunTick);
    assert_eq!(control.next(JobEvent::Shutdown), JobAction::Exit);
    assert_eq!(control.state, JobState::Idle);
    assert_eq!(control.next(JobEvent::Tick), JobAction::Exit);
    control.spawn();
    assert_eq!(control.stop(), StopAction::SignalAndJoin);
    assert_eq!(control.stop(), StopAction::Nothing);
}

#[test]
fn jobs_drive_the_repository() {
    let mut repository = Repository::new();
    repository.insert_check(up_check(1, "secret")).unwrap();
    repository.insert_notification(channel(1, 1)).unwrap();
    let now = T + 6 * 60_000_000;

    let mut detector = EnqueueAlerts::with_repository();
    assert_eq!(detector.on_event(JobEvent::Tick, &mut repository, now), JobAction::Exit);
    assert_eq!(repository.notification().alert_count(), 0);
    assert_eq!(detector.spawn(), POLL_INTERVAL);
    assert_eq!(detector.on_event(JobEvent::Tick, &mut repository, now), JobAction::RunTick);
    assert_eq!(repository.notification().alert_count(), 1);
    assert_eq!(repository.check().row(0).unwrap().status, CheckStatus::Down);
    assert_eq!(detector.stop(), StopAction::SignalAndJoin);
    assert_eq!(detector.on_event(JobEvent::Tick, &mut repository, now + 1), JobAction::Exit);
    assert_eq!(enqueue_overdue_ping_alerts(&mut repository, now + 2), 0);

    let mut worker = SendAlerts::with_repository(4);
    let (action, batch) = worker.on_event(JobEvent::Tick, &mut repository);
    assert_eq!(action, JobAction::Exit);
    assert!(batch.is_empty());
    worker.spawn();
    let (action, batch) = worker.on_event(JobEvent::Tick, &mut repository);
    assert_eq!(action, JobAction::RunTick);
    assert_eq!(batch.len(), 1);
    assert_eq!(repository.notification().alert(0).unwrap().claimed_by, Some(4));
    let outcomes = batch.into_iter().map(|alert| DispatchOutcome { alert, delivered: false }).collect();
    assert!(worker.finish_tick(&mut repository, outcomes, now + 3).is_empty());
    assert_eq!(repository.notification().alert(0).unwrap().retries_remaining, 0);
    let (action, batch) = worker.on_event(JobEvent::Shutdown, &mut repository);
    assert_eq!(action, JobAction::Exit);
    assert!(batch.is_empty());
    assert_eq!(worker.stop(), StopAction::Nothing);
    assert!(send_alerts(&mut repository, 4, Vec::new(), now + 4).is_empty());
}

#[test]
fn notifier_builds_dispatches() {
    let notifier = Notifier::new();
    match notifier.send_alert(&alert(NotificationType::Email, Some("ops@example.com"), None)).unwrap() {
        Dispatch::Email(m) => {
            assert_eq!(m.from, "up.io <no-reply@sector42.io>");
            assert_eq!(m.to, "ops@example.com");
            assert_eq!(m.subject.as_deref(), Some("[DOWN] nightly backup"));
            assert!(matches!(m.body, Body::Text(ref t) if t == "Sent by up.io"));
            assert_eq!(m.cc, None);
            assert_eq!(m.tag, None);
        }
        other => panic!("unexpected dispatch {:?}", other),
    }
    match notifier
        .send_alert(&alert(NotificationType::Webhook, Some("ops@example.com"), Some("https://hook.example.com")))
        .unwrap()
    {
        Dispatch::Webhook(c) => {
            assert_eq!(c.url, "https://hook.example.com");
            assert_eq!(c.check_uuid, 0x1001);
            assert_eq!(c.check_name, "nightly backup");
            assert_eq!(c.last_ping_at, Some(T));
        }
        other => panic!("unexpected dispatch {:?}", other),
    }
    assert!(matches!(
        notifier.send_alert(&alert(NotificationType::Email, None, Some("https://hook.example.com"))),
        Err(NotifierError::MissingDestination)
    ));
    assert!(matches!(
        notifier.send_alert(&alert(NotificationType::Webhook, Some("ops@example.com"), None)),
        Err(NotifierError::MissingDestination)
    ));
    assert!(matches!(Body::default(), Body::Text(ref t) if t.is_empty()));
}

#[test]
fn answers_of_the_mail_service() {
    assert!(check_status(200, "").is_ok());
    assert!(check_status(299, "").is_ok());
    assert!(matches!(check_status(199, "early"), Err(PostmarkError::ApiHttpError(199, ref b)) if b == "early"));
    assert!(matches!(check_status(300, "moved"), Err(PostmarkError::ApiHttpError(300, ref b)) if b == "moved"));
    assert!(matches!(check_status(422, "bad"), Err(PostmarkError::ApiHttpError(422, ref b)) if b == "bad"));
    let accepted = SendEmailResponse {
        error_code: 0,
        message: "OK".to_string(),
        message_id: Some("id".to_string()),
        submitted_at: Some(T),
        to: Some("ops@example.com".to_string()),
    };
    assert!(check_response(&accepted).is_ok());
    let refused = SendEmailResponse { error_code: 406, message: "inactive".to_string(), message_id: None, submitted_at: None, to: None };
    assert!(matches!(check_response(&refused), Err(PostmarkError::ApiError(406, ref m)) if m == "inactive"));
    let negative = SendEmailResponse { error_code: -1, message: String::new(), message_id: None, submitted_at: None, to: None };
    assert!(matches!(check_response(&negative), Err(PostmarkError::ApiError(-1, _))));
    assert!(is_test_token("POSTMARK_API_TEST"));
    assert!(!is_test_token("postmark_api_test"));
}

#[test]
fn key_sets() {
    let key = |kid: Option<&str>| Jwk {
        kty: KeyType::Rsa,
        alg: Some(KeyAlgorithm::Rs256),
        kid: kid.map(|k| k.to_string()),
        n: "n".to_string(),
        e: "AQAB".to_string(),
    };
    let set = Jwks { keys: vec![key(Some("first")), key(Some("second"))] };
    assert_eq!(set.key_ids(), vec!["first", "second"]);
    assert_eq!(set.known_key_ids(), vec!["first", "second"]);
    let partly = Jwks { keys: vec![key(None), key(Some("second"))] };
    assert_eq!(partly.known_key_ids(), vec!["second"]);
    assert!(Jwks { keys: vec![] }.key_ids().is_empty());
}

#[test]
fn claims_and_tokens() {
    let c = Claims::new("iss", "aud", "sub", vec![Role::Viewer], 2, 1_000);
    assert_eq!(c.issuer.as_deref(), Some("iss"));
    assert_eq!(c.audience.as_deref(), Some("aud"));
    assert_eq!(c.subject.as_deref(), Some("sub"));
    assert_eq!(c.roles, vec![Role::Viewer]);
    assert_eq!(c.issued_at, 1_000);
    assert_eq!(c.expires_at, 8_200);
    assert!(!c.is_expired(8_200));
    assert!(c.is_expired(8_201));
    let past = Claims::new("iss", "aud", "sub", vec![], -1, 10_000);
    assert_eq!(past.expires_at, 6_400);
    assert_eq!(past.issued_at, 6_400);
    let now = Claims::new("iss", "aud", "sub", vec![], 0, 10_000);
    assert_eq!((now.issued_at, now.expires_at), (10_000, 10_000));
    assert!(Claims::checked_new("i", "a", "s", vec![], i64::MAX, 0).is_none());
    assert!(Claims::checked_new("i", "a", "s", vec![], i64::MIN, 0).is_none());
    assert!(Claims::checked_new("i", "a", "s", vec![], 1, i64::MAX).is_none());
    assert_eq!(Claims::checked_new("i", "a", "s", vec![], -1, i64::MIN + 3600).unwrap().expires_at, i64::MIN);
    let h = Header::new("kid-1");
    assert_eq!((h.key_id.as_str(), h.algorithm.as_str()), ("kid-1", "RS256"));
    assert_eq!(signing_input("aGVhZGVy", "Y2xhaW1z"), "aGVhZGVy.Y2xhaW1z");
    assert_eq!(token("aGVhZGVy.Y2xhaW1z", "c2ln"), "aGVhZGVy.Y2xhaW1z.c2ln");
    assert_eq!(DEFAULT_ISSUER, "up.sector42.io/auth");
    assert_eq!(DEFAULT_AUDIENCE, "up.sector42.io/server");
    let v = Verifier { issuer: Some("iss".to_string()), audience: None }.validations();
    assert_eq!(v.len(), 3);
    assert!(matches!(v[0], Validation::SubjectPresent));
    assert!(matches!(v[1], Validation::NotExpired));
    assert!(matches!(v[2], Validation::Issuer(ref i) if i == "iss"));
    let v = Verifier { issuer: Some("iss".to_string()), audience: Some("aud".to_string()) }.validations();
    assert!(matches!(v[3], Validation::Audience(ref a) if a == "aud"));
    assert_eq!(Verifier { issuer: None, audience: None }.validations().len(), 2);
}

#[test]
fn settings_and_their_defaults() {
    assert_eq!(default_listen_port(None), 8080);
    assert_eq!(default_listen_port(Some("9090")), 9090);
    assert_eq!(default_listen_port(Some("65535")), 65535);
    assert_eq!(default_listen_port(Some("65536")), 8080);
    assert_eq!(default_listen_port(Some("-1")), 8080);
    assert_eq!(default_listen_port(Some(" 80")), 8080);
    assert_eq!(default_listen_port(Some("")), 8080);
    assert_eq!(default_database_url(None), "postgres://127.0.0.1:5432/up");
    assert_eq!(default_database_url(Some("postgres://db/up".to_string())), "postgres://db/up");
    assert_eq!(default_database_max_connections(None), 4);
    assert_eq!(default_database_max_connections(Some("20")), 20);
    assert_eq!(default_database_max_connections(Some("many")), 4);
    assert_eq!(env_or_error("JWKS", "JWT verification", Some("{}".to_string())).unwrap(), "{}");
    let e = env_or_error("JWKS", "JWT verification", None).unwrap_err();
    assert_eq!(e.to_string(), "required environment variable JWKS is not set, required for JWT verification");
    assert_eq!(AppError::ConfigurationError("no keys".to_string()).to_string(), "configuration error: no keys");
    let args = Args::from_environment(Some("81"), None, Some("7"));
    assert_eq!(args.listen_ip, (127, 0, 0, 1));
    assert_eq!(args.listen_port, 81);
    assert_eq!(args.database_url, "postgres://127.0.0.1:5432/up");
    assert_eq!(args.database_max_connections, 7);
    assert!(!args.json);
    assert!(!args.disable_background_jobs);
}

#[test]
fn rows_as_callers_see_them() {
    let shown = models::Check::from(up_check(1, "secret"));
    assert_eq!(shown.id, ShortId::from_uuid(0x1001));
    assert_eq!(shown.name, "check 1");
    assert_eq!(shown.description, "about");
    assert_eq!(shown.status, CheckStatus::Up);
    assert_eq!(shown.ping_period, 5);
    assert_eq!(shown.ping_cron_expression.as_deref(), Some("* * * * *"));
    assert_eq!(shown.last_ping_at, Some(T));
    let shown = models::Notification::from(channel(1, 1));
    assert_eq!(shown.id, ShortId::from_uuid(0x2001));
    assert_eq!(shown.email.as_deref(), Some("ops@example.com"));
    assert_eq!(shown.max_retries, 1);
    assert_eq!(shown.updated_at, Some(T));
    let request = models::CreateCheck {
        account_id: ShortId::from_uuid(5),
        project_id: ShortId::from_uuid(6),
        name: "new".to_string(),
    }
    .into_request();
    assert_eq!((request.account_uuid, request.project_uuid, request.name.as_str()), (5, 6, "new"));
    assert_eq!(models::Update { name: Some("n".to_string()) }.into_check_request().name.as_deref(), Some("n"));
    assert_eq!(models::Update { name: None }.into_project_request().name, None);
    let request = models::CreateProject { account_id: ShortId::from_uuid(5), name: "p".to_string() }.into_request();
    assert_eq!((request.account_uuid, request.name.as_str()), (5, "p"));
    let request = models::CreateNotification {
        name: None,
        notification_type: NotificationType::Webhook,
        email: None,
        url: Some("https://hook".to_string()),
        max_retries: Some(2),
    }
    .into_request();
    assert_eq!(request.notification_type, NotificationType::Webhook);
    assert_eq!(request.url.as_deref(), Some("https://hook"));
    assert_eq!(request.max_retries, Some(2));
    let request = models::UpdateNotification {
        name: Some("n".to_string()),
        notification_type: None,
        email: None,
        url: None,
        max_retries: None,
    }
    .into_request();
    assert_eq!(request.name.as_deref(), Some("n"));
    assert_eq!(request.max_retries, None);
}

#[test]
fn text_helpers() {
    assert!(same_text("a", "a"));
    assert!(!same_text("a", "A"));
    assert!(starts_with("abc", ""));
    assert!(starts_with("abc", "ab"));
    assert!(!starts_with("ab", "abc"));
    assert!(!starts_with("\u{e9}b", "e"));
    assert_eq!(skip_chars("\u{e9}bc", 1), "bc");
    assert_eq!(skip_chars("abc", 3), "");
    assert_eq!(find_from("a|b|c", '|', 0), 1);
    assert_eq!(find_from("a|b|c", '|', 2), 3);
    assert_eq!(find_from("a|b|c", '|', 4), 5);
    assert_eq!(first_two_fields("a|b|c"), Some(("a".to_string(), "b".to_string())));
    assert_eq!(first_two_fields("|"), Some((String::new(), String::new())));
    assert_eq!(first_two_fields("\u{e9}|\u{e8}"), Some(("\u{e9}".to_string(), "\u{e8}".to_string())));
    assert_eq!(first_two_fields("ab"), None);
}
