//! What a caller gets: each operation takes any input, and gives what is said of it elsewhere.

use vstd::prelude::*;

use crate::backend::{
    agent_name, fetch_for, first_step, get_for, health_of, list_for, listing_from, listing_of,
    listing_of_subjects, next_step, request_for, slug_of, subject_from, user_agent,
    SentryBackend, UpdateProgress, UpdateStep,
};
use crate::config::{config_of, testing_config, EnvVars, SentryConfig};
use crate::filter::{matching, matching_subjects, meets, query_for_status_filter, query_of_statuses};
use crate::http::{
    fault_of_status, json_or_error, json_response, status_fault, value_of_exchange,
    value_or_error, Exchange, HttpRequest, Method,
};
use crate::issue::{
    as_u64ish, assigned_to, assignee_in, count_in, map_status, native_of_status, parse_ts,
    priority_from_level, priority_of_level, seen_in, seen_or_error, status_of_native,
    status_to_native, subject_from_issue, subject_in, subject_or_error, timestamp_or_error,
};
use crate::json::{parse_json, parsed_json, Json, JsonView};
use crate::native_id::{parsed_id, subject_id_of, NativeId};
use crate::protocol::{
    result_view, BackendError, HealthCheckResult, Subject, SubjectFilter, SubjectId,
    SubjectList, SubjectPatch, SubjectSchema, SubjectStatus, Timestamp,
};
use crate::schema::{schema, sentry_schema};
use crate::time::{parse_timestamp, timestamp_in};

verus! {

/// A backend is its configuration.
pub proof fn law_call_of_new(config: SentryConfig, r: SentryBackend)
    ensures
        call_requires(SentryBackend::new, (config,)),
        call_ensures(SentryBackend::new, (config,), r) ==> (r.deep_view() == config.deep_view()),
{
}

/// The slug of a backend.
pub proof fn law_call_of_org_slug<'a>(b: &'a SentryBackend, r: Result<&'a str, BackendError>)
    ensures
        call_requires(SentryBackend::org_slug, (b,)),
        call_ensures(SentryBackend::org_slug, (b,), r) ==> (
            result_view(r) == slug_of(b.deep_view())
        ),
{
}

/// A request without a body.
pub proof fn law_call_of_request(
    b: SentryBackend,
    method: Method,
    path: &str,
    r: Result<HttpRequest, BackendError>,
)
    ensures
        call_requires(SentryBackend::request, (&b, method, path)),
        call_ensures(SentryBackend::request, (&b, method, path), r) ==> (
            result_view(r) == request_for(b.deep_view(), method, path@, None)
        ),
{
}

/// A request with a body where one is given.
pub proof fn law_call_of_json_request(
    b: SentryBackend,
    method: Method,
    path: &str,
    body: Option<Json>,
    r: Result<HttpRequest, BackendError>,
)
    ensures
        call_requires(SentryBackend::json_request, (&b, method, path, body)),
        call_ensures(SentryBackend::json_request, (&b, method, path, body), r) ==> (
            result_view(r) == request_for(b.deep_view(), method, path@, body.deep_view())
        ),
{
}

/// The request that fetches an issue.
pub proof fn law_call_of_fetch_issue(
    b: SentryBackend,
    id: NativeId,
    r: Result<HttpRequest, BackendError>,
)
    ensures
        call_requires(SentryBackend::fetch_issue, (&b, &id)),
        call_ensures(SentryBackend::fetch_issue, (&b, &id), r) ==> (
            result_view(r) == fetch_for(b.deep_view(), id.issue_id@)
        ),
{
}

/// The subject of an issue.
pub proof fn law_call_of_issue_to_subject(
    b: SentryBackend,
    issue: Json,
    r: Result<Subject, BackendError>,
)
    ensures
        call_requires(SentryBackend::issue_to_subject, (&b, &issue)),
        call_ensures(SentryBackend::issue_to_subject, (&b, &issue), r) ==> (
            result_view(r) == subject_in(issue.deep_view())
        ),
{
}

/// The request that lists issues.
pub proof fn law_call_of_list_request(
    b: SentryBackend,
    filter: SubjectFilter,
    r: Result<HttpRequest, BackendError>,
)
    ensures
        call_requires(SentryBackend::list_request, (&b, &filter)),
        call_ensures(SentryBackend::list_request, (&b, &filter), r) ==> (
            result_view(r) == list_for(b.deep_view(), filter.deep_view())
        ),
{
}

/// The listing that an answer brings.
pub proof fn law_call_of_list_result(
    b: SentryBackend,
    request: HttpRequest,
    filter: SubjectFilter,
    exchange: Exchange,
    t: Timestamp,
    r: Result<SubjectList, BackendError>,
)
    ensures
        exchange.deep_view().well_formed() ==> call_requires(
            SentryBackend::list_result,
            (&b, &request, &filter, &exchange, t),
        ),
        call_ensures(SentryBackend::list_result, (&b, &request, &filter, &exchange, t), r) ==> (
            result_view(r) == listing_from(request.path@, filter.deep_view(),
                exchange.deep_view(), t)
        ),
{
}

/// The request that gets a subject.
pub proof fn law_call_of_get_request(
    b: SentryBackend,
    id: SubjectId,
    r: Result<HttpRequest, BackendError>,
)
    ensures
        call_requires(SentryBackend::get_request, (&b, &id)),
        call_ensures(SentryBackend::get_request, (&b, &id), r) ==> (
            result_view(r) == get_for(b.deep_view(), id.deep_view())
        ),
{
}

/// The subject that an answer brings.
pub proof fn law_call_of_get_result(
    b: SentryBackend,
    request: HttpRequest,
    exchange: Exchange,
    r: Result<Subject, BackendError>,
)
    ensures
        exchange.deep_view().well_formed() ==> call_requires(
            SentryBackend::get_result,
            (&b, &request, &exchange),
        ),
        call_ensures(SentryBackend::get_result, (&b, &request, &exchange), r) ==> (
            result_view(r) == subject_from(request.path@, exchange.deep_view())
        ),
{
}

/// The first step of an update.
pub proof fn law_call_of_update_start(
    b: SentryBackend,
    id: SubjectId,
    patch: SubjectPatch,
    r: Result<UpdateStep, BackendError>,
)
    ensures
        call_requires(SentryBackend::update_start, (&b, &id, &patch)),
        call_ensures(SentryBackend::update_start, (&b, &id, &patch), r) ==> (
            result_view(r) == first_step(b.deep_view(), id.deep_view(), patch.deep_view())
        ),
{
}

/// What follows an answer to a step of an update.
pub proof fn law_call_of_update_next(
    b: SentryBackend,
    id: SubjectId,
    step: UpdateStep,
    exchange: Exchange,
    r: Result<UpdateProgress, BackendError>,
)
    ensures
        exchange.deep_view().well_formed() ==> call_requires(
            SentryBackend::update_next,
            (&b, &id, &step, &exchange),
        ),
        call_ensures(SentryBackend::update_next, (&b, &id, &step, &exchange), r) ==> (
            result_view(r) == next_step(b.deep_view(), id.deep_view(), step.deep_view(),
                exchange.deep_view())
        ),
{
}

/// The schema of a backend, and that of every one.
pub proof fn law_call_of_schema(b: SentryBackend, r: SubjectSchema)
    ensures
        call_requires(SentryBackend::schema, (&b,)),
        call_ensures(SentryBackend::schema, (&b,), r) ==> (r.deep_view() == sentry_schema()),
{
}

/// The health of a backend.
pub proof fn law_call_of_health(b: SentryBackend, r: HealthCheckResult)
    ensures
        call_requires(SentryBackend::health, (&b,)),
        call_ensures(SentryBackend::health, (&b,), r) ==> (
            r.deep_view() == health_of(b.deep_view())
        ),
{
}

/// Whether a subject is kept.
pub proof fn law_call_of_subject_matches_filter(subject: Subject, filter: SubjectFilter, r: bool)
    ensures
        call_requires(SentryBackend::subject_matches_filter, (&subject, &filter)),
        call_ensures(SentryBackend::subject_matches_filter, (&subject, &filter), r) ==> (
            r == meets(subject.deep_view(), filter.deep_view())
        ),
{
}

/// The name of the agent.
pub proof fn law_call_of_user_agent(version: &str, r: String)
    ensures
        call_requires(user_agent, (version,)),
        call_ensures(user_agent, (version,), r) ==> (r@ == agent_name(version@)),
{
}

/// The listing of given subjects.
pub proof fn law_call_of_listing_of_subjects(
    results: Vec<Result<Subject, BackendError>>,
    filter: SubjectFilter,
    t: Timestamp,
    r: Result<SubjectList, BackendError>,
)
    ensures
        call_requires(listing_of_subjects, (results, &filter, t)),
        call_ensures(listing_of_subjects, (results, &filter, t), r) ==> (
            result_view(r) == listing_of(results@.map_values(|s: Result<Subject, BackendError>|
                result_view(s)), filter.deep_view(), t)
        ),
{
}

/// The subjects that a filter keeps.
pub proof fn law_call_of_matching_subjects(
    subjects: Vec<Subject>,
    filter: SubjectFilter,
    r: Vec<Subject>,
)
    ensures
        call_requires(matching_subjects, (subjects, &filter)),
        call_ensures(matching_subjects, (subjects, &filter), r) ==> (
            r.deep_view() == matching(subjects.deep_view(), filter.deep_view())
        ),
{
}

/// The search query of the statuses asked for.
pub proof fn law_call_of_query_for_status_filter(statuses: &[SubjectStatus], r: Option<String>)
    ensures
        call_requires(query_for_status_filter, (statuses,)),
        call_ensures(query_for_status_filter, (statuses,), r) ==> (
            r.deep_view() == query_of_statuses(statuses@)
        ),
{
}

/// The configuration of the environment.
pub proof fn law_call_of_from_env(vars: EnvVars, r: SentryConfig)
    ensures
        call_requires(SentryConfig::from_env, (vars,)),
        call_ensures(SentryConfig::from_env, (vars,), r) ==> (
            r.deep_view() == config_of(vars.deep_view())
        ),
{
}

/// The configuration for testing.
pub proof fn law_call_of_for_testing(base: &str, r: SentryConfig)
    ensures
        call_requires(SentryConfig::for_testing, (base,)),
        call_ensures(SentryConfig::for_testing, (base,), r) ==> (
            r.deep_view() == testing_config(base@)
        ),
{
}

/// A copy of a configuration.
pub proof fn law_call_of_config_clone(config: SentryConfig, r: SentryConfig)
    ensures
        call_requires(SentryConfig::clone, (&config,)),
        call_ensures(SentryConfig::clone, (&config,), r) ==> (r.deep_view() == config.deep_view()),
{
}

/// The error of a status.
pub proof fn law_call_of_status_fault(
    path: &str,
    status: u16,
    shown: &str,
    text: &str,
    r: Option<BackendError>,
)
    ensures
        call_requires(status_fault, (path, status, shown, text)),
        call_ensures(status_fault, (path, status, shown, text), r) ==> (
            r.deep_view() == fault_of_status(path@, status, shown@, text@)
        ),
{
}

/// The value of an answer, given how its text was parsed.
pub proof fn law_call_of_json_or_error(
    parsed: Option<Result<Json, String>>,
    r: Result<Json, BackendError>,
)
    ensures
        call_requires(json_or_error, (parsed,)),
        call_ensures(json_or_error, (parsed,), r) ==> (
            result_view(r) == value_or_error(match parsed { None => None, Some(Ok(v)) =>
                Some(Ok(v.deep_view())), Some(Err(m)) => Some(Err(m@)) })
        ),
{
}

/// The value that an exchange brings.
pub proof fn law_call_of_json_response(
    path: &str,
    exchange: Exchange,
    r: Result<Json, BackendError>,
)
    ensures
        exchange.deep_view().well_formed() ==> call_requires(json_response, (path, &exchange)),
        call_ensures(json_response, (path, &exchange), r) ==> (
            result_view(r) == value_of_exchange(path@, exchange.deep_view())
        ),
{
}

/// The status of a native status.
pub proof fn law_call_of_map_status(native: &str, r: SubjectStatus)
    ensures
        call_requires(map_status, (native,)),
        call_ensures(map_status, (native,), r) ==> (r == status_of_native(native@)),
{
}

/// The native status of a status.
pub proof fn law_call_of_status_to_native(status: SubjectStatus, r: &'static str)
    ensures
        call_requires(status_to_native, (status,)),
        call_ensures(status_to_native, (status,), r) ==> (r@ == native_of_status(status)),
{
}

/// The priority of a level.
pub proof fn law_call_of_priority_from_level(level: &str, r: Option<u8>)
    ensures
        call_requires(priority_from_level, (level,)),
        call_ensures(priority_from_level, (level,), r) ==> (r == priority_of_level(level@)),
{
}

/// The assignee that a member names.
pub proof fn law_call_of_assigned_to(value: Option<&Json>, r: Option<String>)
    ensures
        call_requires(assigned_to, (value,)),
        call_ensures(assigned_to, (value,), r) ==> (
            r.deep_view() == assignee_in(value.deep_view())
        ),
{
}

/// The count that a member gives.
pub proof fn law_call_of_as_u64ish(value: Json, r: Option<u64>)
    ensures
        call_requires(as_u64ish, (&value,)),
        call_ensures(as_u64ish, (&value,), r) ==> (r == count_in(value.deep_view())),
{
}

/// The time of a member, given how its text was parsed.
pub proof fn law_call_of_timestamp_or_error(
    parsed: Option<Result<Timestamp, String>>,
    r: Result<Timestamp, BackendError>,
)
    ensures
        call_requires(timestamp_or_error, (parsed,)),
        call_ensures(timestamp_or_error, (parsed,), r) ==> (
            result_view(r) == seen_or_error(match parsed { None => None, Some(Ok(t)) =>
                Some(Ok(t)), Some(Err(m)) => Some(Err(m@)) })
        ),
{
}

/// The time of a member.
pub proof fn law_call_of_parse_ts(value: Option<&Json>, r: Result<Timestamp, BackendError>)
    ensures
        call_requires(parse_ts, (value,)),
        call_ensures(parse_ts, (value,), r) ==> (result_view(r) == seen_in(value.deep_view())),
{
}

/// The subject of an issue, given its times.
pub proof fn law_call_of_subject_from_issue(
    issue: Json,
    first: Result<Timestamp, BackendError>,
    last: Result<Timestamp, BackendError>,
    r: Result<Subject, BackendError>,
)
    ensures
        call_requires(subject_from_issue, (&issue, first, last)),
        call_ensures(subject_from_issue, (&issue, first, last), r) ==> (
            result_view(r) == subject_or_error(issue.deep_view(), result_view(first),
                result_view(last))
        ),
{
}

/// The timestamp that a text writes.
pub proof fn law_call_of_parse_timestamp(raw: &str, r: Result<Timestamp, String>)
    ensures
        call_requires(parse_timestamp, (raw,)),
        call_ensures(parse_timestamp, (raw,), r) ==> (
            match r { Ok(t) => timestamp_in(raw@) == Ok::<Timestamp, Seq<char>>(t), Err(m) =>
                timestamp_in(raw@) == Err::<Timestamp, Seq<char>>(m@) }
        ),
{
}

/// The value that a text writes.
pub proof fn law_call_of_parse_json(text: &str, r: Result<Json, String>)
    ensures
        call_requires(parse_json, (text,)),
        call_ensures(parse_json, (text,), r) ==> (
            match r { Ok(v) => parsed_json(text@) == Ok::<JsonView, Seq<char>>(v.deep_view()) &&
                v.deep_view().well_formed(), Err(m) => parsed_json(text@) == Err::<JsonView,
                Seq<char>>(m@) }
        ),
{
}

/// The member of a value.
pub proof fn law_call_of_json_get<'a>(value: &'a Json, key: &str, r: Option<&'a Json>)
    ensures
        call_requires(Json::get, (value, key)),
        call_ensures(Json::get, (value, key), r) ==> (r.deep_view() == value.deep_view().get(key@)),
{
}

/// The text of a value.
pub proof fn law_call_of_json_as_str<'a>(value: &'a Json, r: Option<&'a str>)
    ensures
        call_requires(Json::as_str, (value,)),
        call_ensures(Json::as_str, (value,), r) ==> (r.deep_view() == value.deep_view().as_str()),
{
}

/// A copy of a value.
pub proof fn law_call_of_json_clone(value: Json, r: Json)
    ensures
        call_requires(Json::clone, (&value,)),
        call_ensures(Json::clone, (&value,), r) ==> (r.deep_view() == value.deep_view()),
{
}

/// The issue id in a subject id.
pub proof fn law_call_of_native_id_parse(id: SubjectId, r: Result<NativeId, BackendError>)
    ensures
        call_requires(NativeId::parse, (&id,)),
        call_ensures(NativeId::parse, (&id,), r) ==> (result_view(r) == parsed_id(id.deep_view())),
{
}

/// The subject id of an issue.
pub proof fn law_call_of_native_id_subject_id(issue_id: &str, r: SubjectId)
    ensures
        call_requires(NativeId::subject_id, (issue_id,)),
        call_ensures(NativeId::subject_id, (issue_id,), r) ==> (
            r.deep_view() == subject_id_of(issue_id@)
        ),
{
}

/// A subject id is its text.
pub proof fn law_call_of_subject_id_new(raw: &str, r: SubjectId)
    ensures
        call_requires(SubjectId::new, (raw,)),
        call_ensures(SubjectId::new, (raw,), r) ==> (r.deep_view() == raw@),
{
}

/// The text of a subject id.
pub proof fn law_call_of_subject_id_as_str<'a>(id: &'a SubjectId, r: &'a str)
    ensures
        call_requires(SubjectId::as_str, (id,)),
        call_ensures(SubjectId::as_str, (id,), r) ==> (r@ == id.deep_view()),
{
}

/// Whether an instant comes before another.
pub proof fn law_call_of_is_before(a: Timestamp, b: Timestamp, r: bool)
    ensures
        call_requires(Timestamp::is_before, (&a, &b)),
        call_ensures(Timestamp::is_before, (&a, &b), r) ==> (r == a.earlier(b)),
{
}

/// The schema.
pub proof fn law_call_of_free_schema(r: SubjectSchema)
    ensures
        call_requires(schema, ()),
        call_ensures(schema, (), r) ==> (r.deep_view() == sentry_schema()),
{
}

}
