use animus_subject_sentry::backend::{SentryBackend, UpdatePhase, UpdateProgress, UpdateStep};
use animus_subject_sentry::config::SentryConfig;
use animus_subject_sentry::http::{json_or_error, json_response, status_fault, Exchange, Method};
use animus_subject_sentry::json::Json;
use animus_subject_sentry::native_id::NativeId;
use animus_subject_sentry::protocol::{
    BackendError, CustomFieldKind, HealthStatus, SubjectId, SubjectPatch, SubjectStatus,
};

const ISSUE: &str = r#"{"id":"12","status":"resolved","firstSeen":"2026-05-28T00:00:00Z","lastSeen":"2026-05-28T01:00:00Z"}"#;

fn config() -> SentryConfig {
    SentryConfig::for_testing("https://sentry.example/api/0")
}

fn backend() -> SentryBackend {
    SentryBackend::new(config())
}

fn without_token() -> SentryBackend {
    let mut config = config();
    config.auth_token = None;
    SentryBackend::new(config)
}

fn without_org() -> SentryBackend {
    let mut config = config();
    config.org_slug = None;
    SentryBackend::new(config)
}

fn answer(status: u16, text: &str) -> Exchange {
    Exchange::Answered { status, text: text.to_string() }
}

fn nothing() -> SubjectPatch {
    SubjectPatch {
        status: None,
        assignee: None,
        labels_add: vec![],
        labels_remove: vec![],
        comment: None,
    }
}

fn invalid(s: &str) -> BackendError {
    BackendError::InvalidRequest(s.to_string())
}

#[test]
fn requests_carry_method_path_and_token() {
    let request = backend().request(Method::Put, "/x").unwrap();
    assert_eq!(request.method, Method::Put);
    assert_eq!(request.path, "/x");
    assert_eq!(request.url, "https://sentry.example/api/0/x");
    assert_eq!(request.bearer_token, "test-token");
    assert_eq!(request.headers, vec![("Accept".to_string(), "application/json".to_string())]);
    assert_eq!(request.body, None);
    let request = backend().json_request(Method::Get, "/y", Some(Json::Bool(true))).unwrap();
    assert_eq!(request.method, Method::Get);
    assert_eq!(request.url, "https://sentry.example/api/0/y");
    assert_eq!(request.body, Some(Json::Bool(true)));
    assert_eq!(
        without_token().json_request(Method::Get, "/y", None),
        Err(BackendError::PermissionDenied("SENTRY_AUTH_TOKEN must be set".to_string()))
    );
}

#[test]
fn issues_are_fetched_by_encoded_path() {
    let id = NativeId { issue_id: "a/b?c".to_string() };
    let request = backend().fetch_issue(&id).unwrap();
    assert_eq!(request.method, Method::Get);
    assert_eq!(request.path, "/organizations/example/issues/a%2Fb%3Fc/");
    assert_eq!(without_org().fetch_issue(&id), Err(invalid("SENTRY_ORG_SLUG must be set")));
}

#[test]
fn different_issues_have_different_paths() {
    let path = |slug: &str, id: &str| {
        let mut config = config();
        config.org_slug = Some(slug.to_string());
        let id = NativeId { issue_id: id.to_string() };
        SentryBackend::new(config).fetch_issue(&id).unwrap().path
    };
    assert_ne!(path("a", "b/issues/c"), path("a/issues/b", "c"));
    assert_ne!(path("a%2F", "b"), path("a/", "b"));
    assert_eq!(path("a%2F", "b"), "/organizations/a%252F/issues/b/");
}

#[test]
fn got_subjects_come_from_their_issue() {
    let backend = backend();
    let id = SubjectId::new("sentry:12");
    let request = backend.get_request(&id).unwrap();
    assert_eq!(request.path, "/organizations/example/issues/12/");
    let subject = backend.get_result(&request, &answer(200, ISSUE)).unwrap();
    assert_eq!(subject.id, id);
    assert_eq!(subject.status, SubjectStatus::Done);
    // The id of the subject leads to the same request again.
    assert_eq!(backend.get_request(&subject.id).unwrap(), request);
    assert_eq!(
        backend.get_result(&request, &answer(404, "gone")),
        Err(BackendError::NotFound("/organizations/example/issues/12/".to_string()))
    );
    assert_eq!(
        backend.get_result(&request, &answer(200, "")),
        Err(BackendError::Other("Sentry issue missing id".to_string()))
    );
}

#[test]
fn getting_checks_the_id_first() {
    assert_eq!(
        without_org().get_request(&SubjectId::new("sentry:")),
        Err(invalid("empty Sentry issue id in sentry:"))
    );
    assert_eq!(
        without_org().get_request(&SubjectId::new("sentry:1")),
        Err(invalid("SENTRY_ORG_SLUG must be set"))
    );
    assert_eq!(
        without_token().get_request(&SubjectId::new("sentry:1")),
        Err(BackendError::PermissionDenied("SENTRY_AUTH_TOKEN must be set".to_string()))
    );
}

#[test]
fn statuses_become_errors() {
    let response = |status: u16, text: &str| json_response("/p", &answer(status, text));
    assert_eq!(response(404, "t"), Err(BackendError::NotFound("/p".to_string())));
    assert_eq!(
        response(401, "t"),
        Err(BackendError::PermissionDenied("Sentry API returned 401 Unauthorized: t".to_string()))
    );
    assert_eq!(
        response(403, ""),
        Err(BackendError::PermissionDenied("Sentry API returned 403 Forbidden: ".to_string()))
    );
    assert_eq!(
        response(429, "slow down"),
        Err(BackendError::Unavailable("Sentry API rate limited request: slow down".to_string()))
    );
    assert_eq!(
        response(500, "oops"),
        Err(BackendError::Unavailable(
            "Sentry API returned 500 Internal Server Error: oops".to_string()
        ))
    );
    assert_eq!(
        response(302, "t"),
        Err(BackendError::Unavailable("Sentry API returned 302 Found: t".to_string()))
    );
    assert_eq!(
        response(199, "t"),
        Err(BackendError::Unavailable(
            "Sentry API returned 199 <unknown status code>: t".to_string()
        ))
    );
    assert_eq!(
        response(999, "t"),
        Err(BackendError::Unavailable(
            "Sentry API returned 999 <unknown status code>: t".to_string()
        ))
    );
    assert_eq!(
        json_response("/p", &Exchange::Failed("why".to_string())),
        Err(BackendError::Unavailable("why".to_string()))
    );
}

#[test]
fn answers_become_values() {
    let response = |status: u16, text: &str| json_response("/p", &answer(status, text));
    assert_eq!(response(200, "{\"a\":1}").unwrap().get("a"), Some(&Json::Uint(1)));
    assert_eq!(response(299, "true"), Ok(Json::Bool(true)));
    assert_eq!(response(204, ""), Ok(Json::Null));
    assert_eq!(response(200, " \r\n\t\u{2028}"), Ok(Json::Null));
    assert_eq!(
        response(200, "nope"),
        Err(BackendError::Other("expected ident at line 1 column 2".to_string()))
    );
}

#[test]
fn shown_status_goes_into_the_message() {
    assert_eq!(
        status_fault("/p", 401, "shown", "text"),
        Some(BackendError::PermissionDenied("Sentry API returned shown: text".to_string()))
    );
    assert_eq!(
        status_fault("/p", 503, "shown", "text"),
        Some(BackendError::Unavailable("Sentry API returned shown: text".to_string()))
    );
    assert_eq!(
        status_fault("/p", 404, "shown", "text"),
        Some(BackendError::NotFound("/p".to_string()))
    );
    assert_eq!(
        status_fault("/p", 429, "shown", "text"),
        Some(BackendError::Unavailable("Sentry API rate limited request: text".to_string()))
    );
    assert_eq!(status_fault("/p", 200, "shown", "text"), None);
    assert_eq!(status_fault("/p", 299, "shown", "text"), None);
    assert!(status_fault("/p", 300, "shown", "text").is_some());
    assert!(status_fault("/p", 199, "shown", "text").is_some());
}

#[test]
fn parse_outcomes_are_carried_over() {
    assert_eq!(json_or_error(None), Ok(Json::Null));
    assert_eq!(json_or_error(Some(Ok(Json::Uint(3)))), Ok(Json::Uint(3)));
    assert_eq!(
        json_or_error(Some(Err("m".to_string()))),
        Err(BackendError::Other("m".to_string()))
    );
}

#[test]
fn labels_and_comments_are_refused_before_anything_else() {
    let bad_id = SubjectId::new("jira:1");
    for backend in [backend(), without_org(), without_token()] {
        assert_eq!(
            backend.update_start(&bad_id, &SubjectPatch { labels_add: vec!["l".to_string()], ..nothing() }),
            Err(invalid("Sentry issue labels are derived from issue metadata and cannot be mutated"))
        );
        assert_eq!(
            backend.update_start(
                &bad_id,
                &SubjectPatch {
                    labels_remove: vec!["l".to_string()],
                    comment: Some("c".to_string()),
                    ..nothing()
                }
            ),
            Err(invalid("Sentry issue labels are derived from issue metadata and cannot be mutated"))
        );
        assert_eq!(
            backend.update_start(&bad_id, &SubjectPatch { comment: Some("c".to_string()), ..nothing() }),
            Err(invalid("Sentry issue comments are not implemented by this plugin"))
        );
    }
    // An empty comment is none.
    let step = backend()
        .update_start(
            &SubjectId::new("sentry:1"),
            &SubjectPatch { comment: Some(String::new()), ..nothing() },
        )
        .unwrap();
    assert_eq!(step.phase, UpdatePhase::Read);
}

#[test]
fn updates_check_id_organization_and_token_in_turn() {
    let patch = || SubjectPatch { status: Some(SubjectStatus::Done), ..nothing() };
    assert_eq!(
        without_org().update_start(&SubjectId::new("x"), &patch()),
        Err(invalid("expected Sentry subject id shaped sentry:<issue-id>, got x"))
    );
    assert_eq!(
        without_org().update_start(&SubjectId::new("sentry:1"), &patch()),
        Err(invalid("SENTRY_ORG_SLUG must be set"))
    );
    assert_eq!(
        without_token().update_start(&SubjectId::new("sentry:1"), &patch()),
        Err(BackendError::PermissionDenied("SENTRY_AUTH_TOKEN must be set".to_string()))
    );
}

#[test]
fn update_writes_then_reads_back() {
    let backend = backend();
    let id = SubjectId::new("sentry:12");
    let patch = SubjectPatch {
        status: Some(SubjectStatus::Done),
        assignee: Some(Some("sam".to_string())),
        ..nothing()
    };
    let step = backend.update_start(&id, &patch).unwrap();
    assert_eq!(step.phase, UpdatePhase::Write);
    assert_eq!(step.request.method, Method::Put);
    assert_eq!(step.request.path, "/organizations/example/issues/12/");
    assert_eq!(
        step.request.body,
        Some(Json::Object(vec![
            ("assignedTo".to_string(), Json::Str("sam".to_string())),
            ("status".to_string(), Json::Str("resolved".to_string())),
        ]))
    );
    let next = match backend.update_next(&id, &step, &answer(200, "")).unwrap() {
        UpdateProgress::Send(next) => next,
        UpdateProgress::Done(_) => panic!("nothing was read back"),
    };
    assert_eq!(
        next,
        UpdateStep { phase: UpdatePhase::Read, request: backend.get_request(&id).unwrap() }
    );
    match backend.update_next(&id, &next, &answer(200, ISSUE)).unwrap() {
        UpdateProgress::Done(subject) => {
            assert_eq!(subject, backend.get_result(&next.request, &answer(200, ISSUE)).unwrap());
            assert_eq!(subject.status, SubjectStatus::Done);
        }
        UpdateProgress::Send(_) => panic!("nothing more is to be sent"),
    }
}

#[test]
fn written_change_shows_when_read_back() {
    let backend = backend();
    let id = SubjectId::new("sentry:12");
    for (status, shown) in [
        (SubjectStatus::Cancelled, SubjectStatus::Cancelled),
        (SubjectStatus::Blocked, SubjectStatus::Ready),
    ] {
        for assignee in [Some("sam".to_string()), None] {
            let patch = SubjectPatch {
                status: Some(status),
                assignee: Some(assignee.clone()),
                ..nothing()
            };
            let mut entries = match backend.update_start(&id, &patch).unwrap().request.body {
                Some(Json::Object(entries)) => entries,
                _ => panic!("no change is written"),
            };
            for (key, value) in [
                ("id", "12"),
                ("firstSeen", "2026-05-28T00:00:00Z"),
                ("lastSeen", "2026-05-28T01:00:00Z"),
            ] {
                entries.push((key.to_string(), Json::Str(value.to_string())));
            }
            let subject = backend.issue_to_subject(&Json::Object(entries)).unwrap();
            assert_eq!(subject.status, shown);
            assert_eq!(subject.assignee, assignee);
        }
    }
}

#[test]
fn update_body_holds_what_the_patch_gives() {
    let body = |patch: SubjectPatch| {
        backend().update_start(&SubjectId::new("sentry:1"), &patch).unwrap().request.body
    };
    let native = |status: SubjectStatus| {
        body(SubjectPatch { status: Some(status), ..nothing() })
            .unwrap()
            .get("status")
            .unwrap()
            .clone()
    };
    assert_eq!(native(SubjectStatus::Cancelled), Json::Str("ignored".to_string()));
    assert_eq!(native(SubjectStatus::InProgress), Json::Str("unresolved".to_string()));
    assert_eq!(
        body(SubjectPatch { assignee: Some(None), ..nothing() }),
        Some(Json::Object(vec![("assignedTo".to_string(), Json::Null)]))
    );
    assert_eq!(body(nothing()), None);
}

#[test]
fn update_without_changes_only_reads() {
    let backend = backend();
    let id = SubjectId::new("sentry:12");
    let step = backend.update_start(&id, &nothing()).unwrap();
    assert_eq!(step.phase, UpdatePhase::Read);
    assert_eq!(step.request, backend.get_request(&id).unwrap());
}

#[test]
fn refused_change_ends_the_update() {
    let backend = backend();
    let id = SubjectId::new("sentry:12");
    let patch = SubjectPatch { status: Some(SubjectStatus::Ready), ..nothing() };
    let step = backend.update_start(&id, &patch).unwrap();
    assert_eq!(
        backend.update_next(&id, &step, &answer(403, "no")),
        Err(BackendError::PermissionDenied("Sentry API returned 403 Forbidden: no".to_string()))
    );
    assert_eq!(
        backend.update_next(&id, &step, &answer(200, "nope")),
        Err(BackendError::Other("expected ident at line 1 column 2".to_string()))
    );
    let read = backend.update_start(&id, &nothing()).unwrap();
    assert_eq!(
        backend.update_next(&id, &read, &answer(404, "")),
        Err(BackendError::NotFound("/organizations/example/issues/12/".to_string()))
    );
}

#[test]
fn schema_is_that_of_incidents() {
    let schema = backend().schema();
    assert_eq!(schema.kinds, vec!["incident"]);
    assert_eq!(
        schema.status_values,
        vec![
            SubjectStatus::Ready,
            SubjectStatus::InProgress,
            SubjectStatus::Blocked,
            SubjectStatus::Done,
            SubjectStatus::Cancelled,
        ]
    );
    assert!(!schema.supports_watch);
    assert!(!schema.supports_create);
    assert!(!schema.supports_delete);
    assert!(!schema.supports_pagination);
    assert_eq!(schema.native_status_values, vec!["unresolved", "resolved", "ignored"]);
    assert!(schema.status_dispatch_hints.is_empty());
    let fields: Vec<(&str, CustomFieldKind, bool)> = schema
        .custom_fields
        .iter()
        .map(|f| (f.key.as_str(), f.kind, f.values.is_some()))
        .collect();
    assert_eq!(
        fields,
        vec![
            ("level", CustomFieldKind::String, true),
            ("project", CustomFieldKind::String, false),
            ("short_id", CustomFieldKind::String, false),
            ("count", CustomFieldKind::Number, false),
            ("user_count", CustomFieldKind::Number, false),
        ]
    );
    assert_eq!(
        schema.custom_fields[0].values.as_ref().unwrap(),
        &vec!["fatal", "error", "warning", "info", "debug"]
    );
}

#[test]
fn health_names_what_is_missing() {
    let health = backend().health();
    assert_eq!(health.status, HealthStatus::Healthy);
    assert_eq!(health.last_error, None);
    assert_eq!(health.uptime_ms, None);
    assert_eq!(health.memory_usage_bytes, None);
    let health = without_token().health();
    assert_eq!(health.status, HealthStatus::Unhealthy);
    assert_eq!(health.last_error.as_deref(), Some("SENTRY_AUTH_TOKEN unset"));
    let health = without_org().health();
    assert_eq!(health.status, HealthStatus::Unhealthy);
    assert_eq!(health.last_error.as_deref(), Some("SENTRY_ORG_SLUG unset"));
    let mut neither = config();
    neither.auth_token = None;
    neither.org_slug = None;
    let health = SentryBackend::new(neither).health();
    assert_eq!(health.status, HealthStatus::Unhealthy);
    assert_eq!(
        health.last_error.as_deref(),
        Some("SENTRY_AUTH_TOKEN and SENTRY_ORG_SLUG unset")
    );
}
