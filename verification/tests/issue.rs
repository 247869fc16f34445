use animus_subject_sentry::backend::SentryBackend;
use animus_subject_sentry::config::SentryConfig;
use animus_subject_sentry::issue::{
    as_u64ish, assigned_to, map_status, parse_ts, priority_from_level, status_to_native,
    subject_from_issue, timestamp_or_error, KIND_INCIDENT,
};
use animus_subject_sentry::json::{parse_json, Json};
use animus_subject_sentry::native_id::NativeId;
use animus_subject_sentry::protocol::{BackendError, SubjectId, SubjectStatus, Timestamp};
use animus_subject_sentry::time::parse_timestamp;

fn text(s: &str) -> Json {
    Json::Str(s.to_string())
}

fn object(entries: Vec<(&str, Json)>) -> Json {
    Json::Object(entries.into_iter().map(|(k, v)| (k.to_string(), v)).collect())
}

fn sample_issue() -> Json {
    object(vec![
        ("id", text("123")),
        ("shortId", text("APP-1")),
        ("title", text("TypeError: cannot read property")),
        ("culprit", text("checkout.submit")),
        ("status", text("unresolved")),
        ("level", text("error")),
        ("permalink", text("https://sentry.example/issues/123")),
        ("firstSeen", text("2026-05-28T00:00:00Z")),
        ("lastSeen", text("2026-05-28T01:00:00Z")),
        ("count", text("42")),
        ("userCount", Json::Uint(9)),
        ("project", object(vec![("slug", text("frontend"))])),
        ("assignedTo", object(vec![("id", text("u1")), ("name", text("Sam"))])),
        ("type", text("error")),
    ])
}

/// The smallest issue that is a subject, with more members.
fn issue_with(more: Vec<(&str, Json)>) -> Json {
    let mut entries = vec![
        ("id", text("7")),
        ("firstSeen", text("2026-05-28T00:00:00Z")),
        ("lastSeen", text("2026-05-28T00:00:00Z")),
    ];
    entries.extend(more);
    object(entries)
}

fn backend() -> SentryBackend {
    SentryBackend::new(SentryConfig::for_testing("https://sentry.example/api/0"))
}

fn other(message: &str) -> BackendError {
    BackendError::Other(message.to_string())
}

#[test]
fn native_id_parses() {
    let parsed = NativeId::parse(&SubjectId::new("sentry:123")).unwrap();
    assert_eq!(parsed.issue_id, "123");
}

#[test]
fn native_id_refuses_other_shapes() {
    assert_eq!(
        NativeId::parse(&SubjectId::new("jira:123")),
        Err(BackendError::InvalidRequest(
            "expected Sentry subject id shaped sentry:<issue-id>, got jira:123".to_string()
        ))
    );
    assert_eq!(
        NativeId::parse(&SubjectId::new("sentry")),
        Err(BackendError::InvalidRequest(
            "expected Sentry subject id shaped sentry:<issue-id>, got sentry".to_string()
        ))
    );
    assert_eq!(
        NativeId::parse(&SubjectId::new("sentry:")),
        Err(BackendError::InvalidRequest("empty Sentry issue id in sentry:".to_string()))
    );
    assert!(NativeId::parse(&SubjectId::new("")).is_err());
    assert!(NativeId::parse(&SubjectId::new("Sentry:1")).is_err());
}

#[test]
fn subject_id_round_trips() {
    for raw in ["1234567890", "a/b c", "sentry:5", "\u{e9}"] {
        let id = NativeId::subject_id(raw);
        assert_eq!(id.as_str(), format!("sentry:{raw}"));
        assert_eq!(NativeId::parse(&id).unwrap().issue_id, raw);
    }
}

#[test]
fn issue_maps_to_subject() {
    let backend =
        SentryBackend::new(SentryConfig::for_testing("https://sentry.example/api/0"));
    let subject = backend.issue_to_subject(&sample_issue()).unwrap();
    assert_eq!(subject.id.as_str(), "sentry:123");
    assert_eq!(subject.kind, KIND_INCIDENT);
    assert_eq!(subject.status, SubjectStatus::Ready);
    assert_eq!(subject.priority, Some(3));
    assert_eq!(subject.assignee.as_deref(), Some("u1"));
    assert!(subject.labels.contains(&"project:frontend".to_string()));
}

#[test]
fn every_field_of_the_sample_is_mapped() {
    let subject = backend().issue_to_subject(&sample_issue()).unwrap();
    assert_eq!(subject.kind, "incident");
    assert_eq!(subject.title, "TypeError: cannot read property");
    assert_eq!(subject.description.as_deref(), Some("checkout.submit"));
    assert_eq!(subject.labels, vec!["level:error", "project:frontend", "type:error"]);
    assert_eq!(subject.parent, None);
    assert!(subject.children.is_empty());
    assert_eq!(subject.url.as_deref(), Some("https://sentry.example/issues/123"));
    assert_eq!(subject.created_at, Timestamp { secs: 1779926400, nanos: 0 });
    assert_eq!(subject.updated_at, Timestamp { secs: 1779930000, nanos: 0 });
    assert_eq!(
        subject.custom,
        vec![
            ("count".to_string(), Json::Uint(42)),
            ("level".to_string(), text("error")),
            ("project".to_string(), text("frontend")),
            ("short_id".to_string(), text("APP-1")),
            ("user_count".to_string(), Json::Uint(9)),
        ]
    );
    assert_eq!(subject.native_status.as_deref(), Some("unresolved"));
    assert_eq!(subject.status_metadata, Json::Null);
    assert!(subject.attachments.is_empty());
}

#[test]
fn custom_keys_ascend_and_are_those_of_the_schema() {
    let subject = backend().issue_to_subject(&sample_issue()).unwrap();
    let keys: Vec<&str> = subject.custom.iter().map(|(k, _)| k.as_str()).collect();
    let mut sorted = keys.clone();
    sorted.sort();
    sorted.dedup();
    assert_eq!(keys, sorted);
    let schema = backend().schema();
    for key in keys {
        assert!(schema.custom_fields.iter().any(|field| field.key == key));
    }
}

#[test]
fn bare_issue_takes_defaults() {
    let subject = backend().issue_to_subject(&issue_with(vec![])).unwrap();
    assert_eq!(subject.id.as_str(), "sentry:7");
    assert_eq!(subject.title, "");
    assert_eq!(subject.description, None);
    assert_eq!(subject.status, SubjectStatus::Ready);
    assert_eq!(subject.native_status.as_deref(), Some("unresolved"));
    assert_eq!(subject.priority, Some(3));
    assert_eq!(subject.assignee, None);
    assert_eq!(subject.labels, vec!["level:error"]);
    assert_eq!(subject.url, None);
    assert_eq!(subject.custom, vec![("level".to_string(), text("error"))]);
}

#[test]
fn members_of_the_wrong_type_count_as_missing() {
    let subject = backend()
        .issue_to_subject(&issue_with(vec![
            ("title", Json::Uint(1)),
            ("metadata", object(vec![("title", text("from metadata"))])),
            ("culprit", text("")),
            ("status", Json::Null),
            ("level", Json::Bool(true)),
            ("project", object(vec![("slug", Json::Null), ("name", text("n"))])),
            ("shortId", Json::Uint(4)),
            ("short_id", text("APP-2")),
            ("count", text("many")),
            ("userCount", Json::Bool(true)),
            ("permalink", Json::Array(vec![])),
            ("type", Json::Null),
        ]))
        .unwrap();
    // A title of its own is taken even where it is no text.
    assert_eq!(subject.title, "");
    assert_eq!(subject.description, None);
    assert_eq!(subject.native_status.as_deref(), Some("unresolved"));
    assert_eq!(subject.labels, vec!["level:error"]);
    assert_eq!(subject.custom, vec![("level".to_string(), text("error"))]);
    assert_eq!(subject.url, None);
}

#[test]
fn second_choices_are_taken_where_the_first_is_missing() {
    let details = object(vec![("inRelease", text("1.2"))]);
    let subject = backend()
        .issue_to_subject(&issue_with(vec![
            ("metadata", object(vec![("title", text("from metadata"))])),
            ("project", object(vec![("name", text("Front"))])),
            ("short_id", text("APP-2")),
            ("status", text("resolved")),
            ("level", text("sample")),
            ("statusDetails", details.clone()),
        ]))
        .unwrap();
    assert_eq!(subject.title, "from metadata");
    assert_eq!(subject.labels, vec!["level:sample", "project:Front"]);
    assert_eq!(
        subject.custom,
        vec![
            ("level".to_string(), text("sample")),
            ("project".to_string(), text("Front")),
            ("short_id".to_string(), text("APP-2")),
        ]
    );
    assert_eq!(subject.status, SubjectStatus::Done);
    assert_eq!(subject.priority, None);
    assert_eq!(subject.status_metadata, details);
}

#[test]
fn faulty_issues_are_reported_in_order() {
    let nothing = object(vec![]);
    assert_eq!(backend().issue_to_subject(&nothing), Err(other("Sentry issue missing id")));
    assert_eq!(
        backend().issue_to_subject(&Json::Array(vec![])),
        Err(other("Sentry issue missing id"))
    );
    assert_eq!(
        backend().issue_to_subject(&object(vec![("id", Json::Uint(1))])),
        Err(other("Sentry issue missing id"))
    );
    assert_eq!(
        backend().issue_to_subject(&object(vec![("id", text("1"))])),
        Err(other("Sentry issue missing timestamp"))
    );
    let bad = parse_timestamp("yesterday").unwrap_err();
    assert_eq!(
        backend().issue_to_subject(&object(vec![
            ("id", text("1")),
            ("firstSeen", text("yesterday")),
        ])),
        Err(BackendError::Other(bad.clone()))
    );
    assert_eq!(
        backend().issue_to_subject(&object(vec![
            ("id", text("1")),
            ("firstSeen", text("2026-05-28T00:00:00Z")),
            ("lastSeen", text("yesterday")),
        ])),
        Err(BackendError::Other(bad))
    );
}

#[test]
fn subject_carries_the_times_that_it_is_given() {
    let early = Timestamp { secs: 1, nanos: 2 };
    let late = Timestamp { secs: 3, nanos: 4 };
    let subject = subject_from_issue(&sample_issue(), Ok(early), Ok(late)).unwrap();
    assert_eq!(subject.created_at, early);
    assert_eq!(subject.updated_at, late);
    assert_eq!(
        subject_from_issue(&sample_issue(), Err(other("a")), Err(other("b"))),
        Err(other("a"))
    );
    assert_eq!(
        subject_from_issue(&sample_issue(), Ok(early), Err(other("b"))),
        Err(other("b"))
    );
    assert_eq!(
        subject_from_issue(&object(vec![]), Err(other("a")), Err(other("b"))),
        Err(other("Sentry issue missing id"))
    );
}

#[test]
fn statuses_map_both_ways() {
    assert_eq!(map_status("resolved"), SubjectStatus::Done);
    assert_eq!(map_status("ignored"), SubjectStatus::Cancelled);
    assert_eq!(map_status("unresolved"), SubjectStatus::Ready);
    assert_eq!(map_status("Resolved"), SubjectStatus::Ready);
    assert_eq!(map_status(""), SubjectStatus::Ready);
    assert_eq!(status_to_native(SubjectStatus::Done), "resolved");
    assert_eq!(status_to_native(SubjectStatus::Cancelled), "ignored");
    assert_eq!(status_to_native(SubjectStatus::Ready), "unresolved");
    assert_eq!(status_to_native(SubjectStatus::InProgress), "unresolved");
    assert_eq!(status_to_native(SubjectStatus::Blocked), "unresolved");
    for status in [SubjectStatus::Done, SubjectStatus::Cancelled, SubjectStatus::Ready] {
        assert_eq!(map_status(status_to_native(status)), status);
    }
    assert_eq!(map_status(status_to_native(SubjectStatus::Blocked)), SubjectStatus::Ready);
}

#[test]
fn levels_have_priorities() {
    assert_eq!(priority_from_level("fatal"), Some(4));
    assert_eq!(priority_from_level("error"), Some(3));
    assert_eq!(priority_from_level("warning"), Some(2));
    assert_eq!(priority_from_level("info"), Some(1));
    assert_eq!(priority_from_level("debug"), Some(1));
    assert_eq!(priority_from_level("sample"), None);
    assert_eq!(priority_from_level(""), None);
}

#[test]
fn listed_levels_have_a_priority() {
    let schema = backend().schema();
    let levels = schema.custom_fields[0].values.as_ref().unwrap();
    assert_eq!(levels.len(), 5);
    for level in levels {
        assert!(priority_from_level(level).is_some());
    }
}

#[test]
fn assignees_are_found() {
    assert_eq!(assigned_to(None), None);
    assert_eq!(assigned_to(Some(&Json::Null)), None);
    assert_eq!(assigned_to(Some(&text("sam"))).as_deref(), Some("sam"));
    assert_eq!(assigned_to(Some(&text(""))).as_deref(), Some(""));
    let full = object(vec![("email", text("e")), ("name", text("n")), ("id", text("i"))]);
    assert_eq!(assigned_to(Some(&full)).as_deref(), Some("i"));
    let named = object(vec![("email", text("e")), ("name", text("n"))]);
    assert_eq!(assigned_to(Some(&named)).as_deref(), Some("n"));
    let mail = object(vec![("email", text("e"))]);
    assert_eq!(assigned_to(Some(&mail)).as_deref(), Some("e"));
    // A member that is there is taken even where it is no text.
    let numbered = object(vec![("id", Json::Uint(1)), ("name", text("n"))]);
    assert_eq!(assigned_to(Some(&numbered)), None);
    let nameless = object(vec![("name", Json::Null), ("email", text("e"))]);
    assert_eq!(assigned_to(Some(&nameless)), None);
}

#[test]
fn counts_are_read_from_numbers_and_texts() {
    assert_eq!(as_u64ish(&Json::Uint(9)), Some(9));
    assert_eq!(as_u64ish(&text("9")), Some(9));
    assert_eq!(as_u64ish(&text("+9")), Some(9));
    assert_eq!(as_u64ish(&text("007")), Some(7));
    assert_eq!(as_u64ish(&text("18446744073709551615")), Some(u64::MAX));
    assert_eq!(as_u64ish(&text("18446744073709551616")), None);
    assert_eq!(as_u64ish(&text("99999999999999999999")), None);
    assert_eq!(as_u64ish(&text("000000000000000000000000000001")), Some(1));
    for refused in ["", "+", "++1", "-1", "-0", " 1", "1 ", "1.0", "1e3", "\u{663}", "x"] {
        assert_eq!(as_u64ish(&text(refused)), None, "{refused:?}");
    }
    assert_eq!(as_u64ish(&Json::Null), None);
    assert_eq!(as_u64ish(&Json::Bool(true)), None);
}

#[test]
fn other_numbers_are_no_counts() {
    let negative = parse_json("-1").unwrap();
    let fraction = parse_json("1.5").unwrap();
    let exponent = parse_json("1e2").unwrap();
    let large = parse_json("18446744073709551616").unwrap();
    for number in [negative, fraction, exponent, large] {
        assert!(matches!(number, Json::Number(_)));
        assert_eq!(as_u64ish(&number), None);
    }
    assert_eq!(parse_json("18446744073709551615"), Ok(Json::Uint(u64::MAX)));
    assert_eq!(as_u64ish(&Json::Number(serde_json::Number::from(9u64))), Some(9));
}

#[test]
fn timestamps_are_instants() {
    assert_eq!(
        parse_ts(Some(&text("1970-01-01T00:00:01Z"))),
        Ok(Timestamp { secs: 1, nanos: 0 })
    );
    assert_eq!(
        parse_ts(Some(&text("1970-01-01T02:00:01.25+02:00"))),
        Ok(Timestamp { secs: 1, nanos: 250_000_000 })
    );
    assert_eq!(
        parse_ts(Some(&text("1969-12-31T23:59:59.5Z"))),
        Ok(Timestamp { secs: -1, nanos: 500_000_000 })
    );
    assert_eq!(parse_ts(None), Err(other("Sentry issue missing timestamp")));
    assert_eq!(parse_ts(Some(&Json::Uint(5))), Err(other("Sentry issue missing timestamp")));
    assert_eq!(
        parse_ts(Some(&text("2026-13-01T00:00:00Z"))),
        Err(other("input is out of range"))
    );
    assert_eq!(parse_ts(Some(&text(""))), Err(other("premature end of input")));
}

#[test]
fn timestamp_outcomes_are_carried_over() {
    let t = Timestamp { secs: 5, nanos: 6 };
    assert_eq!(timestamp_or_error(Some(Ok(t))), Ok(t));
    assert_eq!(timestamp_or_error(Some(Err("m".to_string()))), Err(other("m")));
    assert_eq!(timestamp_or_error(None), Err(other("Sentry issue missing timestamp")));
}

#[test]
fn timestamps_are_ordered() {
    let a = Timestamp { secs: 1, nanos: 5 };
    let b = Timestamp { secs: 1, nanos: 6 };
    let c = Timestamp { secs: 2, nanos: 0 };
    assert!(a.is_before(&b) && b.is_before(&c) && a.is_before(&c));
    assert!(!a.is_before(&a) && !b.is_before(&a) && !c.is_before(&b));
}

#[test]
fn parsed_json_is_plain_data() {
    let parsed = parse_json(r#"{"b":[true,null,"x",-2],"a":{"n":3},"b2":1.5,"a":{"n":4}}"#).unwrap();
    // Keys come in order, and the last of two equal ones counts.
    match &parsed {
        Json::Object(entries) => {
            let keys: Vec<&str> = entries.iter().map(|(k, _)| k.as_str()).collect();
            assert_eq!(keys, vec!["a", "b", "b2"]);
        }
        _ => panic!("no object"),
    }
    assert_eq!(parsed.get("a").unwrap().get("n"), Some(&Json::Uint(4)));
    assert_eq!(parsed.get("missing"), None);
    match parsed.get("b") {
        Some(Json::Array(items)) => {
            assert_eq!(items.len(), 4);
            assert_eq!(items[0], Json::Bool(true));
            assert_eq!(items[1], Json::Null);
            assert_eq!(items[2].as_str(), Some("x"));
            assert_eq!(items[3], Json::Number(serde_json::Number::from(-2)));
        }
        _ => panic!("no array"),
    }
    assert_eq!(parsed.get("b").unwrap().get("a"), None);
    assert_eq!(parsed.as_str(), None);
    assert_eq!(parsed.clone(), parsed);
}

#[test]
fn malformed_json_is_refused_with_a_message() {
    assert_eq!(
        parse_json("[1,"),
        Err("EOF while parsing a value at line 1 column 3".to_string())
    );
    assert_eq!(parse_json("1 2"), Err("trailing characters at line 1 column 3".to_string()));
}
