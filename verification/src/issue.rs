//! Sentry issues as subjects.

use vstd::prelude::*;

use crate::json::{number_as_u64, number_u64, Json, JsonView};
use crate::native_id::{subject_id_of, NativeId};
use crate::protocol::{
    result_view, BackendError, BackendErrorView, Subject, SubjectStatus, SubjectView, Timestamp,
};
use crate::text::{concat2, grow, number_in, parse_number, same};
use crate::time::{parse_timestamp, timestamp_in};

verus! {

pub const KIND_INCIDENT: &'static str = "incident";

/// The subject status that a native status stands for; an unknown one counts as open.
pub open spec fn status_of_native(native: Seq<char>) -> SubjectStatus {
    if native == "resolved"@ {
        SubjectStatus::Done
    } else if native == "ignored"@ {
        SubjectStatus::Cancelled
    } else {
        SubjectStatus::Ready
    }
}

/// The native status that a subject status is written as.
pub open spec fn native_of_status(status: SubjectStatus) -> Seq<char> {
    match status {
        SubjectStatus::Done => "resolved"@,
        SubjectStatus::Cancelled => "ignored"@,
        SubjectStatus::Ready | SubjectStatus::InProgress | SubjectStatus::Blocked => "unresolved"@,
    }
}

/// The priority of a level, from one for the lowest to four for the highest; an unknown level has
/// none.
pub open spec fn priority_of_level(level: Seq<char>) -> Option<u8> {
    if level == "fatal"@ {
        Some(4u8)
    } else if level == "error"@ {
        Some(3u8)
    } else if level == "warning"@ {
        Some(2u8)
    } else if level == "info"@ || level == "debug"@ {
        Some(1u8)
    } else {
        None
    }
}

/// The member under the first of two keys that is there.
pub open spec fn member_of_either(v: JsonView, first: Seq<char>, second: Seq<char>) -> Option<
    JsonView,
> {
    match v.get(first) {
        Some(member) => Some(member),
        None => v.get(second),
    }
}

/// The text of a member that is there and is a string.
pub open spec fn str_of(member: Option<JsonView>) -> Option<Seq<char>> {
    match member {
        Some(v) => v.as_str(),
        None => None,
    }
}

/// The assignee that an `assignedTo` member names: itself where it is a string; else its `id`, or
/// its `name` where it has no `id`, or its `email` where it has neither.
pub open spec fn assignee_in(value: Option<JsonView>) -> Option<Seq<char>> {
    match value {
        None => None,
        Some(v) => match v.as_str() {
            Some(s) => Some(s),
            None => match v.get("id"@) {
                Some(id) => id.as_str(),
                None => str_of(member_of_either(v, "name"@, "email"@)),
            },
        },
    }
}

/// The count that a member gives, as a number or as the text of one.
pub open spec fn count_in(v: JsonView) -> Option<u64> {
    match v {
        JsonView::Uint(n) => Some(n),
        JsonView::Number(n) => number_as_u64(n),
        JsonView::Str(s) => number_in(s),
        _ => None,
    }
}

pub open spec fn count_at(issue: JsonView, key: Seq<char>) -> Option<u64> {
    match issue.get(key) {
        Some(v) => count_in(v),
        None => None,
    }
}

/// The project of an issue: its slug, or its name where it has no slug.
pub open spec fn project_in(issue: JsonView) -> Option<Seq<char>> {
    match issue.get("project"@) {
        Some(p) => str_of(member_of_either(p, "slug"@, "name"@)),
        None => None,
    }
}

pub open spec fn short_id_in(issue: JsonView) -> Option<Seq<char>> {
    str_of(member_of_either(issue, "shortId"@, "short_id"@))
}

/// The title of an issue, from its metadata where it has none of its own; empty where neither is
/// a string.
pub open spec fn title_in(issue: JsonView) -> Seq<char> {
    let member = match issue.get("title"@) {
        Some(title) => Some(title),
        None => match issue.get("metadata"@) {
            Some(metadata) => metadata.get("title"@),
            None => None,
        },
    };
    match str_of(member) {
        Some(s) => s,
        None => Seq::empty(),
    }
}

/// The culprit of an issue, where it names one.
pub open spec fn description_in(issue: JsonView) -> Option<Seq<char>> {
    match issue.str_at("culprit"@) {
        Some(s) => if s.len() > 0 {
            Some(s)
        } else {
            None
        },
        None => None,
    }
}

/// The native status of an issue; one that gives none is unresolved.
pub open spec fn native_status_in(issue: JsonView) -> Seq<char> {
    match issue.str_at("status"@) {
        Some(s) => s,
        None => "unresolved"@,
    }
}

/// The level of an issue; one that gives none is an error.
pub open spec fn level_in(issue: JsonView) -> Seq<char> {
    match issue.str_at("level"@) {
        Some(s) => s,
        None => "error"@,
    }
}

pub open spec fn status_metadata_in(issue: JsonView) -> JsonView {
    match issue.get("statusDetails"@) {
        Some(details) => details,
        None => JsonView::Null,
    }
}

/// A sequence of one item, or of none.
pub open spec fn at_most_one<A>(item: Option<A>) -> Seq<A> {
    match item {
        Some(a) => seq![a],
        None => Seq::empty(),
    }
}

/// `prefix` in front of a text that is there.
pub open spec fn prefixed(prefix: Seq<char>, s: Option<Seq<char>>) -> Option<Seq<char>> {
    match s {
        Some(s) => Some(prefix + s),
        None => None,
    }
}

/// The labels of an issue: its level, then its project and its type where it has them.
pub open spec fn labels_in(issue: JsonView) -> Seq<Seq<char>> {
    seq!["level:"@ + level_in(issue)] + at_most_one(prefixed("project:"@, project_in(issue)))
        + at_most_one(prefixed("type:"@, issue.str_at("type"@)))
}

/// A custom field that holds a text.
pub open spec fn text_field(key: Seq<char>, s: Option<Seq<char>>) -> Option<
    (Seq<char>, JsonView),
> {
    match s {
        Some(s) => Some((key, JsonView::Str(s))),
        None => None,
    }
}

/// A custom field that holds a count.
pub open spec fn count_field(key: Seq<char>, n: Option<u64>) -> Option<(Seq<char>, JsonView)> {
    match n {
        Some(n) => Some((key, JsonView::Uint(n))),
        None => None,
    }
}

/// The custom fields of an issue, in the order of their keys: its level, and what it gives of its
/// event count, project, short id and user count.
pub open spec fn custom_in(issue: JsonView) -> Seq<(Seq<char>, JsonView)> {
    at_most_one(count_field("count"@, count_at(issue, "count"@))) + seq![
        ("level"@, JsonView::Str(level_in(issue))),
    ] + at_most_one(text_field("project"@, project_in(issue))) + at_most_one(
        text_field("short_id"@, short_id_in(issue)),
    ) + at_most_one(count_field("user_count"@, count_at(issue, "userCount"@)))
}

/// The subject of an issue with a given id that was first and last seen at given times.
pub open spec fn subject_at(
    issue: JsonView,
    issue_id: Seq<char>,
    created_at: Timestamp,
    updated_at: Timestamp,
) -> SubjectView {
    SubjectView {
        id: subject_id_of(issue_id),
        kind: KIND_INCIDENT@,
        title: title_in(issue),
        description: description_in(issue),
        status: status_of_native(native_status_in(issue)),
        priority: priority_of_level(level_in(issue)),
        assignee: assignee_in(issue.get("assignedTo"@)),
        labels: labels_in(issue),
        parent: None,
        children: Seq::empty(),
        url: issue.str_at("permalink"@),
        created_at,
        updated_at,
        custom: custom_in(issue),
        native_status: Some(native_status_in(issue)),
        status_metadata: status_metadata_in(issue),
        attachments: Seq::empty(),
    }
}

/// The subject of an issue, given what became of the two timestamps. A missing id is reported
/// first, then a fault in the first timestamp, then one in the second.
pub open spec fn subject_or_error(
    issue: JsonView,
    first_seen: Result<Timestamp, BackendErrorView>,
    last_seen: Result<Timestamp, BackendErrorView>,
) -> Result<SubjectView, BackendErrorView> {
    match issue.str_at("id"@) {
        None => Err(BackendErrorView::Other("Sentry issue missing id"@)),
        Some(issue_id) => match first_seen {
            Err(e) => Err(e),
            Ok(created_at) => match last_seen {
                Err(e) => Err(e),
                Ok(updated_at) => Ok(subject_at(issue, issue_id, created_at, updated_at)),
            },
        },
    }
}

/// What a timestamp member comes to, given how its text was parsed; nothing was parsed where it is
/// missing or no string.
pub open spec fn seen_or_error(parsed: Option<Result<Timestamp, Seq<char>>>) -> Result<
    Timestamp,
    BackendErrorView,
> {
    match parsed {
        None => Err(BackendErrorView::Other("Sentry issue missing timestamp"@)),
        Some(Ok(t)) => Ok(t),
        Some(Err(message)) => Err(BackendErrorView::Other(message)),
    }
}

/// The time that a timestamp member gives.
pub open spec fn seen_in(value: Option<JsonView>) -> Result<Timestamp, BackendErrorView> {
    seen_or_error(
        match str_of(value) {
            Some(raw) => Some(timestamp_in(raw)),
            None => None,
        },
    )
}

/// The subject of an issue, with the times at which it was first and last seen.
pub open spec fn subject_in(issue: JsonView) -> Result<SubjectView, BackendErrorView> {
    subject_or_error(issue, seen_in(issue.get("firstSeen"@)), seen_in(issue.get("lastSeen"@)))
}

pub fn map_status(status: &str) -> (r: SubjectStatus)
    ensures
        r == status_of_native(status@),
{
    if same(status, "resolved") {
        SubjectStatus::Done
    } else if same(status, "ignored") {
        SubjectStatus::Cancelled
    } else {
        SubjectStatus::Ready
    }
}

pub fn status_to_native(status: SubjectStatus) -> (r: &'static str)
    ensures
        r@ == native_of_status(status),
{
    match status {
        SubjectStatus::Done => "resolved",
        SubjectStatus::Cancelled => "ignored",
        SubjectStatus::Ready | SubjectStatus::InProgress | SubjectStatus::Blocked => "unresolved",
    }
}

pub fn priority_from_level(level: &str) -> (r: Option<u8>)
    ensures
        r == priority_of_level(level@),
{
    if same(level, "fatal") {
        Some(4)
    } else if same(level, "error") {
        Some(3)
    } else if same(level, "warning") {
        Some(2)
    } else if same(level, "info") || same(level, "debug") {
        Some(1)
    } else {
        None
    }
}

/// The member under the first of two keys that is there.
fn either<'a>(v: &'a Json, first: &str, second: &str) -> (r: Option<&'a Json>)
    ensures
        r.deep_view() == member_of_either(v.deep_view(), first@, second@),
{
    match v.get(first) {
        Some(member) => Some(member),
        None => v.get(second),
    }
}

/// The text of a member that is there and is a string.
fn text_of(member: Option<&Json>) -> (r: Option<String>)
    ensures
        r.deep_view() == str_of(member.deep_view()),
{
    match member {
        Some(v) => match v.as_str() {
            Some(s) => Some(s.to_owned()),
            None => None,
        },
        None => None,
    }
}

pub fn assigned_to(value: Option<&Json>) -> (r: Option<String>)
    ensures
        r.deep_view() == assignee_in(value.deep_view()),
{
    match value {
        None => None,
        Some(v) => match v.as_str() {
            Some(s) => Some(s.to_owned()),
            None => match v.get("id") {
                Some(id) => text_of(Some(id)),
                None => text_of(either(v, "name", "email")),
            },
        },
    }
}

pub fn as_u64ish(value: &Json) -> (r: Option<u64>)
    ensures
        r == count_in(value.deep_view()),
{
    match value {
        Json::Uint(n) => Some(*n),
        Json::Number(n) => number_u64(n),
        Json::Str(s) => parse_number(s.as_str()),
        _ => None,
    }
}

fn count_member(issue: &Json, key: &str) -> (r: Option<u64>)
    ensures
        r == count_at(issue.deep_view(), key@),
{
    match issue.get(key) {
        Some(v) => as_u64ish(v),
        None => None,
    }
}

/// The timestamp of a member, given how its text was parsed; see [`seen_or_error`].
pub fn timestamp_or_error(parsed: Option<Result<Timestamp, String>>) -> (r: Result<
    Timestamp,
    BackendError,
>)
    ensures
        result_view(r) == seen_or_error(
            match parsed {
                Some(Ok(t)) => Some(Ok(t)),
                Some(Err(message)) => Some(Err(message@)),
                None => None,
            },
        ),
{
    match parsed {
        None => Err(BackendError::Other("Sentry issue missing timestamp".to_owned())),
        Some(Ok(t)) => Ok(t),
        Some(Err(message)) => Err(BackendError::Other(message)),
    }
}

pub fn parse_ts(value: Option<&Json>) -> (r: Result<Timestamp, BackendError>)
    ensures
        result_view(r) == seen_in(value.deep_view()),
{
    match text_of(value) {
        Some(raw) => timestamp_or_error(Some(parse_timestamp(raw.as_str()))),
        None => timestamp_or_error(None),
    }
}

fn project_of(issue: &Json) -> (r: Option<String>)
    ensures
        r.deep_view() == project_in(issue.deep_view()),
{
    match issue.get("project") {
        Some(p) => text_of(either(p, "slug", "name")),
        None => None,
    }
}

fn title_of(issue: &Json) -> (r: String)
    ensures
        r@ == title_in(issue.deep_view()),
{
    let member = match issue.get("title") {
        Some(title) => Some(title),
        None => match issue.get("metadata") {
            Some(metadata) => metadata.get("title"),
            None => None,
        },
    };
    match text_of(member) {
        Some(s) => s,
        None => String::new(),
    }
}

fn description_of(issue: &Json) -> (r: Option<String>)
    ensures
        r.deep_view() == description_in(issue.deep_view()),
{
    match issue.str_at("culprit") {
        Some(s) => if s.as_str().is_empty() {
            None
        } else {
            Some(s)
        },
        None => None,
    }
}

fn labels_of(issue: &Json, level: &str, project: &Option<String>) -> (r: Vec<String>)
    requires
        level@ == level_in(issue.deep_view()),
        project.deep_view() == project_in(issue.deep_view()),
    ensures
        r.deep_view() == labels_in(issue.deep_view()),
{
    let mut labels: Vec<String> = Vec::new();
    grow(&mut labels, concat2("level:", level));
    if let Some(project) = project {
        grow(&mut labels, concat2("project:", project.as_str()));
    }
    if let Some(issue_type) = issue.str_at("type") {
        grow(&mut labels, concat2("type:", issue_type.as_str()));
    }
    assert(labels.deep_view() == labels_in(issue.deep_view()));
    labels
}

fn custom_of(issue: &Json, level: &str, project: &Option<String>) -> (r: Vec<(String, Json)>)
    requires
        level@ == level_in(issue.deep_view()),
        project.deep_view() == project_in(issue.deep_view()),
    ensures
        r.deep_view() == custom_in(issue.deep_view()),
{
    let mut custom: Vec<(String, Json)> = Vec::new();
    if let Some(count) = count_member(issue, "count") {
        grow(&mut custom, ("count".to_owned(), Json::Uint(count)));
    }
    grow(&mut custom, ("level".to_owned(), Json::Str(level.to_owned())));
    if let Some(project) = project {
        grow(&mut custom, ("project".to_owned(), Json::Str(project.clone())));
    }
    if let Some(short_id) = text_of(either(issue, "shortId", "short_id")) {
        grow(&mut custom, ("short_id".to_owned(), Json::Str(short_id)));
    }
    if let Some(user_count) = count_member(issue, "userCount") {
        grow(&mut custom, ("user_count".to_owned(), Json::Uint(user_count)));
    }
    assert(custom.deep_view() == custom_in(issue.deep_view()));
    custom
}

/// The subject of an issue, given what became of its two timestamps; see [`subject_or_error`].
pub fn subject_from_issue(
    issue: &Json,
    first_seen: Result<Timestamp, BackendError>,
    last_seen: Result<Timestamp, BackendError>,
) -> (r: Result<Subject, BackendError>)
    ensures
        result_view(r) == subject_or_error(
            issue.deep_view(),
            result_view(first_seen),
            result_view(last_seen),
        ),
{
    let issue_id = match issue.str_at("id") {
        Some(issue_id) => issue_id,
        None => return Err(BackendError::Other("Sentry issue missing id".to_owned())),
    };
    let created_at = match first_seen {
        Ok(t) => t,
        Err(e) => return Err(e),
    };
    let updated_at = match last_seen {
        Ok(t) => t,
        Err(e) => return Err(e),
    };
    let status = match issue.str_at("status") {
        Some(s) => s,
        None => "unresolved".to_owned(),
    };
    let level = match issue.str_at("level") {
        Some(s) => s,
        None => "error".to_owned(),
    };
    let project = project_of(issue);
    let subject = Subject {
        id: NativeId::subject_id(issue_id.as_str()),
        kind: KIND_INCIDENT.to_owned(),
        title: title_of(issue),
        description: description_of(issue),
        status: map_status(status.as_str()),
        priority: priority_from_level(level.as_str()),
        assignee: assigned_to(issue.get("assignedTo")),
        labels: labels_of(issue, level.as_str(), &project),
        parent: None,
        children: Vec::new(),
        url: issue.str_at("permalink"),
        created_at,
        updated_at,
        custom: custom_of(issue, level.as_str(), &project),
        native_status: Some(status),
        status_metadata: match issue.get("statusDetails") {
            Some(details) => details.clone(),
            None => Json::Null,
        },
        attachments: Vec::new(),
    };
    assert(subject.deep_view() =~= subject_at(
        issue.deep_view(),
        issue_id@,
        created_at,
        updated_at,
    ));
    Ok(subject)
}

}
