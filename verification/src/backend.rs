//! The backend: Sentry issues as incident subjects.
//!
//! Each operation comes as the request that starts it and as what follows from the answer; the
//! sending lies between the two.

use vstd::prelude::*;

use crate::config::{SentryConfig, SentryConfigView};
use crate::filter::{matching, matching_subjects, query_for_status_filter, query_of_statuses};
use crate::http::{
    json_response, value_of_exchange, Exchange, ExchangeView, HttpRequest, HttpRequestView, Method,
};
use crate::issue::{
    at_most_one, native_of_status, parse_ts, prefixed, status_to_native, subject_from_issue,
    subject_in,
};
use crate::json::{Json, JsonView};
use crate::native_id::{parsed_id, NativeId};
use crate::percent::{encode, percent_encoded};
use crate::protocol::{
    result_view, BackendError, BackendErrorView, HealthCheckResult, HealthCheckResultView,
    HealthStatus, Subject, SubjectFilter, SubjectFilterView, SubjectId, SubjectList,
    SubjectListView, SubjectPatch, SubjectPatchView, SubjectSchema, SubjectView, Timestamp,
};
use crate::schema::{schema, sentry_schema};
use crate::text::{concat2, concat3, decimal, grow, join, joined, number_text};

verus! {

pub struct SentryBackend {
    config: SentryConfig,
}

impl DeepView for SentryBackend {
    type V = SentryConfigView;

    /// A backend is its configuration.
    closed spec fn deep_view(&self) -> SentryConfigView {
        self.config.deep_view()
    }
}

/// The slug of the organization, which must be configured.
pub open spec fn slug_of(config: SentryConfigView) -> Result<Seq<char>, BackendErrorView> {
    match config.org_slug {
        Some(slug) => Ok(slug),
        None => Err(BackendErrorView::InvalidRequest("SENTRY_ORG_SLUG must be set"@)),
    }
}

/// A request for `path`; it takes a configured token.
pub open spec fn request_for(
    config: SentryConfigView,
    method: Method,
    path: Seq<char>,
    body: Option<JsonView>,
) -> Result<HttpRequestView, BackendErrorView> {
    match config.auth_token {
        None => Err(BackendErrorView::PermissionDenied("SENTRY_AUTH_TOKEN must be set"@)),
        Some(token) => Ok(
            HttpRequestView {
                method,
                path,
                url: config.api_base + path,
                headers: seq![("Accept"@, "application/json"@)],
                bearer_token: token,
                body,
            },
        ),
    }
}

/// The path of an issue.
pub open spec fn issue_path(slug: Seq<char>, issue_id: Seq<char>) -> Seq<char> {
    "/organizations/"@ + percent_encoded(slug) + "/issues/"@ + percent_encoded(issue_id) + "/"@
}

/// The request that fetches an issue.
pub open spec fn fetch_for(config: SentryConfigView, issue_id: Seq<char>) -> Result<
    HttpRequestView,
    BackendErrorView,
> {
    match slug_of(config) {
        Err(e) => Err(e),
        Ok(slug) => request_for(config, Method::Get, issue_path(slug, issue_id), None),
    }
}

/// The request that gets a subject.
pub open spec fn get_for(config: SentryConfigView, id: Seq<char>) -> Result<
    HttpRequestView,
    BackendErrorView,
> {
    match parsed_id(id) {
        Err(e) => Err(e),
        Ok(issue_id) => fetch_for(config, issue_id),
    }
}

/// The number of issues to ask for: what the filter says, or 50, but at least 1 and at most 100.
pub open spec fn limit_of(limit: Option<u32>) -> nat {
    let n = match limit {
        Some(n) => n,
        None => 50u32,
    };
    if n < 1 {
        1
    } else if n > 100 {
        100
    } else {
        n as nat
    }
}

/// The search query of a listing: the configured one, or else the one that the statuses asked for
/// give.
pub open spec fn query_of(config: SentryConfigView, filter: SubjectFilterView) -> Option<
    Seq<char>,
> {
    match config.query {
        Some(query) => Some(query),
        None => query_of_statuses(filter.status),
    }
}

pub open spec fn encoded_query(query: Option<Seq<char>>) -> Option<Seq<char>> {
    match query {
        Some(query) => Some(percent_encoded(query)),
        None => None,
    }
}

/// The parameters of a listing: the limit, the search query where there is one, and each
/// configured project.
pub open spec fn list_params(config: SentryConfigView, filter: SubjectFilterView) -> Seq<
    Seq<char>,
> {
    seq!["limit="@ + decimal(limit_of(filter.limit))] + at_most_one(
        prefixed("query="@, encoded_query(query_of(config, filter))),
    ) + config.project_ids.map_values(|id: Seq<char>| "project="@ + percent_encoded(id))
}

pub open spec fn list_path(
    config: SentryConfigView,
    slug: Seq<char>,
    filter: SubjectFilterView,
) -> Seq<char> {
    "/organizations/"@ + percent_encoded(slug) + "/issues/?"@ + joined(
        list_params(config, filter),
        "&"@,
    )
}

/// The request that lists issues.
pub open spec fn list_for(config: SentryConfigView, filter: SubjectFilterView) -> Result<
    HttpRequestView,
    BackendErrorView,
> {
    match slug_of(config) {
        Err(e) => Err(e),
        Ok(slug) => request_for(config, Method::Get, list_path(config, slug, filter), None),
    }
}

/// The values of a sequence of results, or the first error among them.
pub open spec fn collected(results: Seq<Result<SubjectView, BackendErrorView>>) -> Result<
    Seq<SubjectView>,
    BackendErrorView,
>
    decreases results.len(),
{
    if results.len() == 0 {
        Ok(Seq::empty())
    } else {
        match collected(results.drop_last()) {
            Err(e) => Err(e),
            Ok(subjects) => match results.last() {
                Err(e) => Err(e),
                Ok(subject) => Ok(subjects.push(subject)),
            },
        }
    }
}

/// The listing of the issues that a sequence of results stands for.
pub open spec fn listing_of(
    results: Seq<Result<SubjectView, BackendErrorView>>,
    filter: SubjectFilterView,
    fetched_at: Timestamp,
) -> Result<SubjectListView, BackendErrorView> {
    match collected(results) {
        Err(e) => Err(e),
        Ok(subjects) => Ok(
            SubjectListView {
                subjects: matching(subjects, filter),
                next_cursor: None,
                fetched_at,
            },
        ),
    }
}

/// The listing that a value from the API gives.
pub open spec fn listing_in(
    value: JsonView,
    filter: SubjectFilterView,
    fetched_at: Timestamp,
) -> Result<SubjectListView, BackendErrorView> {
    match value {
        JsonView::Array(issues) => listing_of(
            issues.map_values(|issue: JsonView| subject_in(issue)),
            filter,
            fetched_at,
        ),
        _ => Err(BackendErrorView::Other("Sentry issue list was not an array"@)),
    }
}

/// The listing that an exchange over `path` brings.
pub open spec fn listing_from(
    path: Seq<char>,
    filter: SubjectFilterView,
    exchange: ExchangeView,
    fetched_at: Timestamp,
) -> Result<SubjectListView, BackendErrorView> {
    match value_of_exchange(path, exchange) {
        Err(e) => Err(e),
        Ok(value) => listing_in(value, filter, fetched_at),
    }
}

/// The subject that an exchange over `path` brings.
pub open spec fn subject_from(path: Seq<char>, exchange: ExchangeView) -> Result<
    SubjectView,
    BackendErrorView,
> {
    match value_of_exchange(path, exchange) {
        Err(e) => Err(e),
        Ok(issue) => subject_in(issue),
    }
}

/// Why a patch is refused outright: it touches labels, or comments.
pub open spec fn fault_of_patch(patch: SubjectPatchView) -> Option<BackendErrorView> {
    if patch.labels_add.len() > 0 || patch.labels_remove.len() > 0 {
        Some(
            BackendErrorView::InvalidRequest(
                "Sentry issue labels are derived from issue metadata and cannot be mutated"@,
            ),
        )
    } else if patch.comment is Some && patch.comment->0.len() > 0 {
        Some(
            BackendErrorView::InvalidRequest(
                "Sentry issue comments are not implemented by this plugin"@,
            ),
        )
    } else {
        None
    }
}

/// The members that a patch writes, in the order of their keys.
pub open spec fn patch_members(patch: SubjectPatchView) -> Seq<(Seq<char>, JsonView)> {
    at_most_one(
        match patch.assignee {
            Some(Some(assignee)) => Some(("assignedTo"@, JsonView::Str(assignee))),
            Some(None) => Some(("assignedTo"@, JsonView::Null)),
            None => None,
        },
    ) + at_most_one(
        match patch.status {
            Some(status) => Some(("status"@, JsonView::Str(native_of_status(status)))),
            None => None,
        },
    )
}

/// What an update waits for.
#[derive(Debug, Clone, Copy, PartialEq, Eq, Structural)]
pub enum UpdatePhase {
    /// The answer to the change.
    Write,
    /// The issue as it is after the change.
    Read,
}

/// A request that an update makes, and what the answer to it is for.
#[derive(Debug, PartialEq)]
pub struct UpdateStep {
    pub phase: UpdatePhase,
    pub request: HttpRequest,
}

/// What an [`UpdateStep`] holds.
#[verifier::ext_equal]
pub struct UpdateStepView {
    pub phase: UpdatePhase,
    pub request: HttpRequestView,
}

impl DeepView for UpdateStep {
    type V = UpdateStepView;

    open spec fn deep_view(&self) -> UpdateStepView {
        UpdateStepView { phase: self.phase, request: self.request.deep_view() }
    }
}

/// Where an update stands after an answer.
#[derive(Debug, PartialEq)]
pub enum UpdateProgress {
    Send(UpdateStep),
    Done(Subject),
}

/// What an [`UpdateProgress`] holds.
pub enum UpdateProgressView {
    Send(UpdateStepView),
    Done(SubjectView),
}

impl DeepView for UpdateProgress {
    type V = UpdateProgressView;

    open spec fn deep_view(&self) -> UpdateProgressView {
        match self {
            UpdateProgress::Send(step) => UpdateProgressView::Send(step.deep_view()),
            UpdateProgress::Done(subject) => UpdateProgressView::Done(subject.deep_view()),
        }
    }
}

/// The step that reads a subject back.
pub open spec fn read_step(config: SentryConfigView, id: Seq<char>) -> Result<
    UpdateStepView,
    BackendErrorView,
> {
    match get_for(config, id) {
        Err(e) => Err(e),
        Ok(request) => Ok(UpdateStepView { phase: UpdatePhase::Read, request }),
    }
}

/// The first step of an update: the change itself, or the reading where nothing changes.
pub open spec fn first_step(
    config: SentryConfigView,
    id: Seq<char>,
    patch: SubjectPatchView,
) -> Result<UpdateStepView, BackendErrorView> {
    match fault_of_patch(patch) {
        Some(e) => Err(e),
        None => match parsed_id(id) {
            Err(e) => Err(e),
            Ok(issue_id) => match slug_of(config) {
                Err(e) => Err(e),
                Ok(slug) => if patch_members(patch).len() == 0 {
                    read_step(config, id)
                } else {
                    match request_for(
                        config,
                        Method::Put,
                        issue_path(slug, issue_id),
                        Some(JsonView::Object(patch_members(patch))),
                    ) {
                        Err(e) => Err(e),
                        Ok(request) => Ok(
                            UpdateStepView { phase: UpdatePhase::Write, request },
                        ),
                    }
                },
            },
        },
    }
}

/// What follows the answer to a step of an update: after the change, the reading; after the
/// reading, the subject.
pub open spec fn next_step(
    config: SentryConfigView,
    id: Seq<char>,
    step: UpdateStepView,
    exchange: ExchangeView,
) -> Result<UpdateProgressView, BackendErrorView> {
    match step.phase {
        UpdatePhase::Write => match value_of_exchange(step.request.path, exchange) {
            Err(e) => Err(e),
            Ok(_) => match read_step(config, id) {
                Err(e) => Err(e),
                Ok(next) => Ok(UpdateProgressView::Send(next)),
            },
        },
        UpdatePhase::Read => match subject_from(step.request.path, exchange) {
            Err(e) => Err(e),
            Ok(subject) => Ok(UpdateProgressView::Done(subject)),
        },
    }
}

/// The health of a backend: it needs a token and an organization, and names what it misses.
pub open spec fn health_of(config: SentryConfigView) -> HealthCheckResultView {
    HealthCheckResultView {
        status: if config.auth_token is Some && config.org_slug is Some {
            HealthStatus::Healthy
        } else {
            HealthStatus::Unhealthy
        },
        uptime_ms: None,
        memory_usage_bytes: None,
        last_error: if config.auth_token is None && config.org_slug is None {
            Some("SENTRY_AUTH_TOKEN and SENTRY_ORG_SLUG unset"@)
        } else if config.auth_token is None {
            Some("SENTRY_AUTH_TOKEN unset"@)
        } else if config.org_slug is None {
            Some("SENTRY_ORG_SLUG unset"@)
        } else {
            None
        },
    }
}

/// The name under which a version of the backend introduces itself to the API.
pub open spec fn agent_name(version: Seq<char>) -> Seq<char> {
    "animus-subject-sentry/"@ + version
}

/// The name under which the backend introduces itself to the API.
pub fn user_agent(version: &str) -> (r: String)
    ensures
        r@ == agent_name(version@),
        r@ == "animus-subject-sentry/"@ + version@,
{
    concat2("animus-subject-sentry/", version)
}

/// The listing of the issues whose subjects are given, or the first error among them.
pub fn listing_of_subjects(
    results: Vec<Result<Subject, BackendError>>,
    filter: &SubjectFilter,
    fetched_at: Timestamp,
) -> (r: Result<SubjectList, BackendError>)
    ensures
        result_view(r) == listing_of(
            results@.map_values(|s: Result<Subject, BackendError>| result_view(s)),
            filter.deep_view(),
            fetched_at,
        ),
{
    let ghost all = results@.map_values(|s: Result<Subject, BackendError>| result_view(s));
    let ghost given = results@;
    let mut subjects: Vec<Subject> = Vec::new();
    assert(collected(all.take(0)) == Ok::<Seq<SubjectView>, BackendErrorView>(
        subjects.deep_view(),
    )) by {
        assert(subjects.deep_view() == Seq::<SubjectView>::empty());
    }
    for result in it: results
        invariant
            it.seq() == given,
            given == results@,
            all == results@.map_values(|s: Result<Subject, BackendError>| result_view(s)),
            collected(all.take(it.index() as int)) == Ok::<Seq<SubjectView>, BackendErrorView>(
                subjects.deep_view(),
            ),
    {
        let ghost upto = all.take(it.index() + 1);
        assert(upto.drop_last() == all.take(it.index() as int));
        assert(upto.last() == result_view(result));
        match result {
            Ok(subject) => grow(&mut subjects, subject),
            Err(e) => {
                proof {
                    lemma_first_error_stays(all, it.index() + 1);
                }
                return Err(e);
            },
        }
    }
    assert(all.take(all.len() as int) == all);
    Ok(SubjectList { subjects: matching_subjects(subjects, filter), next_cursor: None, fetched_at })
}

/// An error in front of others is the one that is collected.
proof fn lemma_first_error_stays(results: Seq<Result<SubjectView, BackendErrorView>>, i: int)
    requires
        0 <= i <= results.len(),
        collected(results.take(i)) is Err,
    ensures
        collected(results) == collected(results.take(i)),
    decreases results.len() - i,
{
    if i == results.len() {
        assert(results.take(i) == results);
    } else {
        assert(results.take(i + 1).drop_last() == results.take(i));
        lemma_first_error_stays(results, i + 1);
    }
}

impl SentryBackend {
    pub fn new(config: SentryConfig) -> (r: Self)
        ensures
            r.deep_view() == config.deep_view(),
    {
        SentryBackend { config }
    }

    pub fn org_slug(&self) -> (r: Result<&str, BackendError>)
        ensures
            result_view(r) == slug_of(self.deep_view()),
    {
        match &self.config.org_slug {
            Some(slug) => Ok(slug.as_str()),
            None => Err(BackendError::InvalidRequest("SENTRY_ORG_SLUG must be set".to_owned())),
        }
    }

    /// A request for `path` without a body.
    pub fn request(&self, method: Method, path: &str) -> (r: Result<HttpRequest, BackendError>)
        ensures
            result_view(r) == request_for(self.deep_view(), method, path@, None),
    {
        match &self.config.auth_token {
            None => Err(
                BackendError::PermissionDenied("SENTRY_AUTH_TOKEN must be set".to_owned()),
            ),
            Some(token) => {
                let request = HttpRequest {
                    method,
                    path: path.to_owned(),
                    url: concat2(self.config.api_base.as_str(), path),
                    headers: vec![("Accept".to_owned(), "application/json".to_owned())],
                    bearer_token: token.clone(),
                    body: None,
                };
                assert(request.headers.deep_view() =~= seq![("Accept"@, "application/json"@)]);
                Ok(request)
            },
        }
    }

    /// A request for `path`, with a body where one is given.
    pub fn json_request(&self, method: Method, path: &str, body: Option<Json>) -> (r: Result<
        HttpRequest,
        BackendError,
    >)
        ensures
            result_view(r) == request_for(self.deep_view(), method, path@, body.deep_view()),
    {
        match self.request(method, path) {
            Ok(request) => Ok(HttpRequest { body, ..request }),
            Err(e) => Err(e),
        }
    }

    /// The request that fetches an issue.
    pub fn fetch_issue(&self, id: &NativeId) -> (r: Result<HttpRequest, BackendError>)
        ensures
            result_view(r) == fetch_for(self.deep_view(), id.deep_view()),
    {
        let slug = match self.org_slug() {
            Ok(slug) => slug,
            Err(e) => return Err(e),
        };
        self.json_request(Method::Get, path_of_issue(slug, id.issue_id.as_str()).as_str(), None)
    }

    /// The subject of an issue.
    pub fn issue_to_subject(&self, issue: &Json) -> (r: Result<Subject, BackendError>)
        ensures
            result_view(r) == subject_in(issue.deep_view()),
    {
        subject_from_issue(issue, parse_ts(issue.get("firstSeen")), parse_ts(issue.get("lastSeen")))
    }

    fn list_params(&self, filter: &SubjectFilter) -> (r: Vec<String>)
        ensures
            r.deep_view() == list_params(self.deep_view(), filter.deep_view()),
    {
        let asked: u32 = match filter.limit {
            Some(n) => n,
            None => 50,
        };
        let limit: u32 = if asked < 1 {
            1
        } else if asked > 100 {
            100
        } else {
            asked
        };
        let query = match &self.config.query {
            Some(query) => Some(query.clone()),
            None => query_for_status_filter(filter.status.as_slice()),
        };
        let mut params: Vec<String> = Vec::new();
        grow(&mut params, concat2("limit=", number_text(limit).as_str()));
        if let Some(query) = query {
            grow(&mut params, concat2("query=", encode(query.as_str()).as_str()));
        }
        let ghost config = self.deep_view();
        let ghost front = params.deep_view();
        let ghost projects = config.project_ids.map_values(
            |id: Seq<char>| "project="@ + percent_encoded(id),
        );
        assert(front + projects == list_params(config, filter.deep_view()));
        assert(front + projects.take(0) == front);
        for i in 0..self.config.project_ids.len()
            invariant
                config == self.deep_view(),
                projects == config.project_ids.map_values(
                    |id: Seq<char>| "project="@ + percent_encoded(id),
                ),
                params.deep_view() == front + projects.take(i as int),
        {
            let id = &self.config.project_ids[i];
            assert(config.project_ids[i as int] == id@);
            grow(&mut params, concat2("project=", encode(id.as_str()).as_str()));
            assert(projects.take(i + 1) == projects.take(i as int).push(projects[i as int]));
            assert(params.deep_view() == front + projects.take(i + 1));
        }
        assert(projects.take(projects.len() as int) == projects);
        params
    }

    /// The request that lists issues.
    pub fn list_request(&self, filter: &SubjectFilter) -> (r: Result<HttpRequest, BackendError>)
        ensures
            result_view(r) == list_for(self.deep_view(), filter.deep_view()),
    {
        let slug = match self.org_slug() {
            Ok(slug) => slug,
            Err(e) => return Err(e),
        };
        let params = self.list_params(filter);
        let front = concat3("/organizations/", encode(slug).as_str(), "/issues/?");
        let path = concat2(front.as_str(), join(&params, "&").as_str());
        self.json_request(Method::Get, path.as_str(), None)
    }

    /// The listing that the answer to a list request brings.
    pub fn list_result(
        &self,
        request: &HttpRequest,
        filter: &SubjectFilter,
        exchange: &Exchange,
        fetched_at: Timestamp,
    ) -> (r: Result<SubjectList, BackendError>)
        requires
            exchange.deep_view().well_formed(),
        ensures
            result_view(r) == listing_from(
                request.path@,
                filter.deep_view(),
                exchange.deep_view(),
                fetched_at,
            ),
    {
        let value = match json_response(request.path.as_str(), exchange) {
            Ok(value) => value,
            Err(e) => return Err(e),
        };
        match &value {
            Json::Array(issues) => {
                let ghost mapped = value.deep_view()->Array_0.map_values(
                    |issue: JsonView| subject_in(issue),
                );
                let mut results: Vec<Result<Subject, BackendError>> = Vec::new();
                for i in 0..issues.len()
                    invariant
                        value == Json::Array(*issues),
                        mapped == value.deep_view()->Array_0.map_values(
                            |issue: JsonView| subject_in(issue),
                        ),
                        results@.len() == i,
                        forall|k: int|
                            0 <= k < i ==> result_view(#[trigger] results@[k]) == mapped[k],
                {
                    assert(mapped[i as int] == subject_in(issues@[i as int].deep_view()));
                    results.push(self.issue_to_subject(&issues[i]));
                }
                assert(results@.map_values(|s: Result<Subject, BackendError>| result_view(s))
                    =~= mapped);
                listing_of_subjects(results, filter, fetched_at)
            },
            _ => Err(BackendError::Other("Sentry issue list was not an array".to_owned())),
        }
    }

    /// The request that gets a subject.
    pub fn get_request(&self, id: &SubjectId) -> (r: Result<HttpRequest, BackendError>)
        ensures
            result_view(r) == get_for(self.deep_view(), id.deep_view()),
    {
        match NativeId::parse(id) {
            Ok(native) => self.fetch_issue(&native),
            Err(e) => Err(e),
        }
    }

    /// The subject that the answer to a get request brings.
    pub fn get_result(&self, request: &HttpRequest, exchange: &Exchange) -> (r: Result<
        Subject,
        BackendError,
    >)
        requires
            exchange.deep_view().well_formed(),
        ensures
            result_view(r) == subject_from(request.path@, exchange.deep_view()),
    {
        match json_response(request.path.as_str(), exchange) {
            Ok(issue) => self.issue_to_subject(&issue),
            Err(e) => Err(e),
        }
    }

    fn read_back(&self, id: &SubjectId) -> (r: Result<UpdateStep, BackendError>)
        ensures
            result_view(r) == read_step(self.deep_view(), id.deep_view()),
    {
        match self.get_request(id) {
            Ok(request) => Ok(UpdateStep { phase: UpdatePhase::Read, request }),
            Err(e) => Err(e),
        }
    }

    /// The first step of an update.
    pub fn update_start(&self, id: &SubjectId, patch: &SubjectPatch) -> (r: Result<
        UpdateStep,
        BackendError,
    >)
        ensures
            result_view(r) == first_step(self.deep_view(), id.deep_view(), patch.deep_view()),
    {
        if let Some(e) = patch_fault(patch) {
            return Err(e);
        }
        let native = match NativeId::parse(id) {
            Ok(native) => native,
            Err(e) => return Err(e),
        };
        let slug = match self.org_slug() {
            Ok(slug) => slug,
            Err(e) => return Err(e),
        };
        let members = members_of(patch);
        if members.is_empty() {
            return self.read_back(id);
        }
        let path = path_of_issue(slug, native.issue_id.as_str());
        let body = Json::Object(members);
        assert(body.deep_view()->Object_0 =~= patch_members(patch.deep_view()));
        match self.json_request(Method::Put, path.as_str(), Some(body)) {
            Ok(request) => Ok(UpdateStep { phase: UpdatePhase::Write, request }),
            Err(e) => Err(e),
        }
    }

    /// What follows the answer to a step of an update.
    pub fn update_next(&self, id: &SubjectId, step: &UpdateStep, exchange: &Exchange) -> (r: Result<
        UpdateProgress,
        BackendError,
    >)
        requires
            exchange.deep_view().well_formed(),
        ensures
            result_view(r) == next_step(
                self.deep_view(),
                id.deep_view(),
                step.deep_view(),
                exchange.deep_view(),
            ),
    {
        match step.phase {
            UpdatePhase::Write => match json_response(step.request.path.as_str(), exchange) {
                Ok(_) => match self.read_back(id) {
                    Ok(next) => Ok(UpdateProgress::Send(next)),
                    Err(e) => Err(e),
                },
                Err(e) => Err(e),
            },
            UpdatePhase::Read => match self.get_result(&step.request, exchange) {
                Ok(subject) => Ok(UpdateProgress::Done(subject)),
                Err(e) => Err(e),
            },
        }
    }

    pub fn schema(&self) -> (r: SubjectSchema)
        ensures
            r.deep_view() == sentry_schema(),
    {
        schema()
    }

    pub fn health(&self) -> (r: HealthCheckResult)
        ensures
            r.deep_view() == health_of(self.deep_view()),
    {
        let missing_token = self.config.auth_token.is_none();
        let missing_org = self.config.org_slug.is_none();
        let status = if missing_token || missing_org {
            HealthStatus::Unhealthy
        } else {
            HealthStatus::Healthy
        };
        let last_error = match (missing_token, missing_org) {
            (true, true) => Some("SENTRY_AUTH_TOKEN and SENTRY_ORG_SLUG unset".to_owned()),
            (true, false) => Some("SENTRY_AUTH_TOKEN unset".to_owned()),
            (false, true) => Some("SENTRY_ORG_SLUG unset".to_owned()),
            (false, false) => None,
        };
        HealthCheckResult { status, uptime_ms: None, memory_usage_bytes: None, last_error }
    }
}

fn path_of_issue(slug: &str, issue_id: &str) -> (r: String)
    ensures
        r@ == issue_path(slug@, issue_id@),
{
    let front = concat3("/organizations/", encode(slug).as_str(), "/issues/");
    concat3(front.as_str(), encode(issue_id).as_str(), "/")
}

fn patch_fault(patch: &SubjectPatch) -> (r: Option<BackendError>)
    ensures
        r.deep_view() == fault_of_patch(patch.deep_view()),
{
    if !patch.labels_add.is_empty() || !patch.labels_remove.is_empty() {
        return Some(
            BackendError::InvalidRequest(
                "Sentry issue labels are derived from issue metadata and cannot be mutated"
                    .to_owned(),
            ),
        );
    }
    if let Some(comment) = &patch.comment {
        if !comment.as_str().is_empty() {
            return Some(
                BackendError::InvalidRequest(
                    "Sentry issue comments are not implemented by this plugin".to_owned(),
                ),
            );
        }
    }
    None
}

fn members_of(patch: &SubjectPatch) -> (r: Vec<(String, Json)>)
    ensures
        r.deep_view() == patch_members(patch.deep_view()),
{
    let mut members: Vec<(String, Json)> = Vec::new();
    match &patch.assignee {
        Some(Some(assignee)) => grow(
            &mut members,
            ("assignedTo".to_owned(), Json::Str(assignee.clone())),
        ),
        Some(None) => grow(&mut members, ("assignedTo".to_owned(), Json::Null)),
        None => {},
    }
    if let Some(status) = patch.status {
        grow(
            &mut members,
            ("status".to_owned(), Json::Str(status_to_native(status).to_owned())),
        );
    }
    assert(members.deep_view() == patch_members(patch.deep_view()));
    members
}

}
