use animus_subject_sentry::backend::{listing_of_subjects, SentryBackend};
use animus_subject_sentry::config::SentryConfig;
use animus_subject_sentry::filter::{matching_subjects, query_for_status_filter};
use animus_subject_sentry::http::{Exchange, Method};
use animus_subject_sentry::json::Json;
use animus_subject_sentry::protocol::{
    BackendError, Subject, SubjectFilter, SubjectId, SubjectStatus, Timestamp,
};

const NOW: Timestamp = Timestamp { secs: 1_800_000_000, nanos: 7 };

fn all() -> SubjectFilter {
    SubjectFilter {
        kind: vec![],
        status: vec![],
        assignee: vec![],
        labels_any: vec![],
        labels_all: vec![],
        updated_since: None,
        limit: None,
    }
}

fn texts(items: &[&str]) -> Vec<String> {
    items.iter().map(|s| s.to_string()).collect()
}

fn subject(id: &str, status: SubjectStatus, assignee: Option<&str>, labels: &[&str], secs: i64) -> Subject {
    Subject {
        id: SubjectId::new(id),
        kind: "incident".to_string(),
        title: String::new(),
        description: None,
        status,
        priority: None,
        assignee: assignee.map(|s| s.to_string()),
        labels: texts(labels),
        parent: None,
        children: vec![],
        url: None,
        created_at: Timestamp { secs: 0, nanos: 0 },
        updated_at: Timestamp { secs, nanos: 0 },
        custom: vec![],
        native_status: None,
        status_metadata: Json::Null,
        attachments: vec![],
    }
}

fn config() -> SentryConfig {
    SentryConfig::for_testing("https://sentry.example/api/0")
}

fn backend() -> SentryBackend {
    SentryBackend::new(config())
}

fn answer(status: u16, text: &str) -> Exchange {
    Exchange::Answered { status, text: text.to_string() }
}

#[test]
fn maps_status_filters_to_queries() {
    assert_eq!(
        query_for_status_filter(&[SubjectStatus::Done]).as_deref(),
        Some("is:resolved")
    );
    assert_eq!(
        query_for_status_filter(&[SubjectStatus::Cancelled]).as_deref(),
        Some("is:ignored")
    );
    assert_eq!(
        query_for_status_filter(&[SubjectStatus::Ready, SubjectStatus::Blocked]).as_deref(),
        Some("is:unresolved")
    );
    assert!(query_for_status_filter(&[SubjectStatus::Ready, SubjectStatus::Done]).is_none());
}

#[test]
fn more_status_filters_map_to_queries() {
    assert_eq!(query_for_status_filter(&[]), None);
    assert_eq!(
        query_for_status_filter(&[SubjectStatus::Done, SubjectStatus::Done]).as_deref(),
        Some("is:resolved")
    );
    assert_eq!(query_for_status_filter(&[SubjectStatus::Done, SubjectStatus::Cancelled]), None);
    assert_eq!(
        query_for_status_filter(&[SubjectStatus::InProgress]).as_deref(),
        Some("is:unresolved")
    );
    assert_eq!(query_for_status_filter(&[SubjectStatus::Cancelled, SubjectStatus::Blocked]), None);
}

#[test]
fn each_criterion_of_a_filter_counts() {
    let s = subject("sentry:1", SubjectStatus::Ready, Some("u1"), &["a", "b"], 100);
    let meets = SentryBackend::subject_matches_filter;
    assert!(meets(&s, &all()));
    assert!(meets(&s, &SubjectFilter { kind: texts(&["task", "incident"]), ..all() }));
    assert!(!meets(&s, &SubjectFilter { kind: texts(&["task"]), ..all() }));
    assert!(meets(&s, &SubjectFilter { status: vec![SubjectStatus::Done, SubjectStatus::Ready], ..all() }));
    assert!(!meets(&s, &SubjectFilter { status: vec![SubjectStatus::Done], ..all() }));
    assert!(meets(&s, &SubjectFilter { assignee: texts(&["u2", "u1"]), ..all() }));
    assert!(!meets(&s, &SubjectFilter { assignee: texts(&["u2"]), ..all() }));
    let unassigned = subject("sentry:1", SubjectStatus::Ready, None, &[], 100);
    assert!(!meets(&unassigned, &SubjectFilter { assignee: texts(&["u1"]), ..all() }));
    assert!(meets(&s, &SubjectFilter { labels_any: texts(&["x", "b"]), ..all() }));
    assert!(!meets(&s, &SubjectFilter { labels_any: texts(&["x"]), ..all() }));
    assert!(meets(&s, &SubjectFilter { labels_all: texts(&["b", "a"]), ..all() }));
    assert!(!meets(&s, &SubjectFilter { labels_all: texts(&["a", "x"]), ..all() }));
    let since = |secs, nanos| SubjectFilter { updated_since: Some(Timestamp { secs, nanos }), ..all() };
    assert!(meets(&s, &since(100, 0)));
    assert!(meets(&s, &since(99, 999_999_999)));
    assert!(!meets(&s, &since(100, 1)));
}

#[test]
fn kept_subjects_stay_in_order() {
    let subjects = vec![
        subject("sentry:3", SubjectStatus::Done, None, &[], 1),
        subject("sentry:1", SubjectStatus::Ready, None, &[], 1),
        subject("sentry:2", SubjectStatus::Done, None, &[], 1),
    ];
    let kept = matching_subjects(subjects, &SubjectFilter { status: vec![SubjectStatus::Done], ..all() });
    let ids: Vec<&str> = kept.iter().map(|s| s.id.as_str()).collect();
    assert_eq!(ids, vec!["sentry:3", "sentry:2"]);
}

#[test]
fn first_error_ends_a_listing() {
    let good = || subject("sentry:1", SubjectStatus::Done, None, &[], 1);
    let bad = |s: &str| BackendError::Other(s.to_string());
    assert_eq!(
        listing_of_subjects(vec![Ok(good()), Err(bad("a")), Err(bad("b"))], &all(), NOW),
        Err(bad("a"))
    );
    // An error counts even where the filter would drop everything.
    assert_eq!(
        listing_of_subjects(
            vec![Ok(good()), Err(bad("a"))],
            &SubjectFilter { kind: texts(&["task"]), ..all() },
            NOW
        ),
        Err(bad("a"))
    );
    let list = listing_of_subjects(vec![Ok(good()), Ok(good())], &all(), NOW).unwrap();
    assert_eq!(list.subjects, vec![good(), good()]);
    assert_eq!(list.next_cursor, None);
    assert_eq!(list.fetched_at, NOW);
    assert!(listing_of_subjects(vec![], &all(), NOW).unwrap().subjects.is_empty());
}

#[test]
fn plain_listing_asks_for_fifty() {
    let request = backend().list_request(&all()).unwrap();
    assert_eq!(request.method, Method::Get);
    assert_eq!(request.path, "/organizations/example/issues/?limit=50");
    assert_eq!(
        request.url,
        "https://sentry.example/api/0/organizations/example/issues/?limit=50"
    );
    assert_eq!(request.headers, vec![("Accept".to_string(), "application/json".to_string())]);
    assert_eq!(request.bearer_token, "test-token");
    assert_eq!(request.body, None);
}

#[test]
fn limits_are_clamped() {
    let path = |limit: u32| {
        backend().list_request(&SubjectFilter { limit: Some(limit), ..all() }).unwrap().path
    };
    assert_eq!(path(0), "/organizations/example/issues/?limit=1");
    assert_eq!(path(1), "/organizations/example/issues/?limit=1");
    assert_eq!(path(37), "/organizations/example/issues/?limit=37");
    assert_eq!(path(100), "/organizations/example/issues/?limit=100");
    assert_eq!(path(101), "/organizations/example/issues/?limit=100");
    assert_eq!(path(u32::MAX), "/organizations/example/issues/?limit=100");
}

#[test]
fn listing_carries_query_and_projects() {
    let mut config = config();
    config.org_slug = Some("my org/\u{e9}".to_string());
    config.project_ids = texts(&["1", "a&b=c"]);
    let backend = SentryBackend::new(config.clone());
    let filter = SubjectFilter { status: vec![SubjectStatus::Done], ..all() };
    assert_eq!(
        backend.list_request(&filter).unwrap().path,
        "/organizations/my%20org%2F%C3%A9/issues/?limit=50&query=is%3Aresolved&project=1&project=a%26b%3Dc"
    );
    config.query = Some("is:unresolved level:error".to_string());
    let backend = SentryBackend::new(config);
    assert_eq!(
        backend.list_request(&filter).unwrap().path,
        "/organizations/my%20org%2F%C3%A9/issues/?limit=50&query=is%3Aunresolved%20level%3Aerror&project=1&project=a%26b%3Dc"
    );
}

#[test]
fn unreserved_characters_are_not_encoded() {
    let mut config = config();
    config.query = Some("AZaz09-._~ +%*'()!\"<>\u{1F980}\u{0}".to_string());
    let backend = SentryBackend::new(config);
    assert_eq!(
        backend.list_request(&all()).unwrap().path,
        "/organizations/example/issues/?limit=50&query=AZaz09-._~%20%2B%25%2A%27%28%29%21%22%3C%3E%F0%9F%A6%80%00"
    );
}

#[test]
fn parameters_can_be_told_apart() {
    let mut config = config();
    config.query = Some("a&project=9".to_string());
    config.project_ids = texts(&["x&limit=3", "y"]);
    let path = SentryBackend::new(config).list_request(&all()).unwrap().path;
    let query = path.split('?').nth(1).unwrap();
    assert_eq!(
        query.split('&').collect::<Vec<_>>(),
        vec!["limit=50", "query=a%26project%3D9", "project=x%26limit%3D3", "project=y"]
    );
}

#[test]
fn listing_needs_an_organization_and_then_a_token() {
    let mut config = config();
    config.auth_token = None;
    assert_eq!(
        SentryBackend::new(config.clone()).list_request(&all()),
        Err(BackendError::PermissionDenied("SENTRY_AUTH_TOKEN must be set".to_string()))
    );
    config.org_slug = None;
    let backend = SentryBackend::new(config);
    assert_eq!(
        backend.list_request(&all()),
        Err(BackendError::InvalidRequest("SENTRY_ORG_SLUG must be set".to_string()))
    );
    assert_eq!(
        backend.org_slug(),
        Err(BackendError::InvalidRequest("SENTRY_ORG_SLUG must be set".to_string()))
    );
}

#[test]
fn answered_listing_is_filtered() {
    let backend = backend();
    let filter = SubjectFilter { labels_any: texts(&["level:fatal"]), ..all() };
    let request = backend.list_request(&filter).unwrap();
    let text = r#"[
        {"id":"1","level":"fatal","firstSeen":"2026-05-28T00:00:00Z","lastSeen":"2026-05-28T00:00:00Z"},
        {"id":"2","level":"info","firstSeen":"2026-05-28T00:00:00Z","lastSeen":"2026-05-28T00:00:00Z"},
        {"id":"3","level":"fatal","firstSeen":"2026-05-28T00:00:00Z","lastSeen":"2026-05-28T00:00:00+01:00"}
    ]"#;
    let list = backend.list_result(&request, &filter, &answer(200, text), NOW).unwrap();
    let ids: Vec<&str> = list.subjects.iter().map(|s| s.id.as_str()).collect();
    assert_eq!(ids, vec!["sentry:1", "sentry:3"]);
    assert_eq!(list.subjects[1].updated_at, Timestamp { secs: 1779922800, nanos: 0 });
    assert_eq!(list.next_cursor, None);
    assert_eq!(list.fetched_at, NOW);
    let everything = backend.list_result(&request, &all(), &answer(200, text), NOW).unwrap();
    assert_eq!(everything.subjects.len(), 3);
    let tasks = SubjectFilter { kind: texts(&["task"]), ..all() };
    assert!(backend.list_result(&request, &tasks, &answer(200, text), NOW).unwrap().subjects.is_empty());
}

#[test]
fn faulty_listings_are_refused() {
    let backend = backend();
    let request = backend.list_request(&all()).unwrap();
    let other = |s: &str| Err(BackendError::Other(s.to_string()));
    let result = |exchange: Exchange| backend.list_result(&request, &all(), &exchange, NOW);
    assert_eq!(result(answer(200, "{}")), other("Sentry issue list was not an array"));
    assert_eq!(result(answer(204, " \n")), other("Sentry issue list was not an array"));
    assert_eq!(result(answer(200, "[{}]")), other("Sentry issue missing id"));
    assert_eq!(
        result(answer(200, "[{\"id\":\"1\"},{}]")),
        other("Sentry issue missing timestamp")
    );
    assert_eq!(
        result(answer(404, "")),
        Err(BackendError::NotFound("/organizations/example/issues/?limit=50".to_string()))
    );
    assert_eq!(
        result(Exchange::Failed("connection refused".to_string())),
        Err(BackendError::Unavailable("connection refused".to_string()))
    );
    assert!(result(answer(200, "[]")).unwrap().subjects.is_empty());
}
