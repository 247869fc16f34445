//! What is sent for an operation, and what follows from an answer.

use vstd::prelude::*;

use crate::backend::{
    agent_name, fault_of_patch, fetch_for, first_step, get_for, health_of, issue_path, limit_of,
    list_for, list_params, list_path, listing_from, listing_in, next_step, patch_members,
    request_for, slug_of, subject_from, UpdatePhase, UpdateProgressView, UpdateStepView,
};
use crate::config::SentryConfigView;
use crate::filter::query_of_statuses;
use crate::http::{
    fault_of_status, is_status, status_reason, value_of_exchange, value_or_error, ExchangeView,
    HttpRequestView, Method,
};
use crate::issue::subject_in;
use crate::json::{parsed_json, JsonView};
use crate::native_id::{parsed_id, subject_id_of};
use crate::percent::percent_encoded;
use crate::protocol::{
    BackendErrorView, HealthStatus, SubjectFilterView, SubjectListView, SubjectPatchView,
    SubjectStatus, SubjectView, Timestamp,
};
use crate::text::{decimal, is_white_space, joined};
use crate::text_laws::law_joining_goes_piece_by_piece;

verus! {

/// The subject id of an issue is the issue's id behind the name of the service.
pub proof fn law_subject_id_has_the_prefix(issue_id: Seq<char>)
    ensures
        subject_id_of(issue_id) == "sentry:"@ + issue_id,
{
}

/// A subject id names an issue if and only if it is the prefix with something behind it, and what
/// stands behind is the issue's id. The prefix alone, and anything without it, is refused with a
/// message that quotes it.
pub proof fn law_id_is_what_stands_behind_the_prefix(raw: Seq<char>, issue_id: Seq<char>)
    ensures
        parsed_id(raw) == Ok::<Seq<char>, BackendErrorView>(issue_id) <==> raw == "sentry:"@
            + issue_id && issue_id.len() > 0,
        raw == "sentry:"@ ==> parsed_id(raw) == Err::<Seq<char>, BackendErrorView>(
            BackendErrorView::InvalidRequest("empty Sentry issue id in "@ + raw),
        ),
        !"sentry:"@.is_prefix_of(raw) ==> parsed_id(raw) == Err::<Seq<char>, BackendErrorView>(
            BackendErrorView::InvalidRequest(
                "expected Sentry subject id shaped sentry:<issue-id>, got "@ + raw,
            ),
        ),
{
    let prefix = "sentry:"@;
    if issue_id.len() > 0 && raw == prefix + issue_id {
        assert(prefix.is_prefix_of(raw));
        assert(raw.len() > prefix.len());
        assert(raw.skip(prefix.len() as int) =~= issue_id);
    }
    if parsed_id(raw) == Ok::<Seq<char>, BackendErrorView>(issue_id) {
        assert forall|i: int| 0 <= i < prefix.len() implies prefix[i] == raw[i] by {}
        assert(raw =~= prefix + issue_id);
        if issue_id.len() == 0 {
            assert(raw =~= prefix);
        }
    }
}

/// A request is made if and only if a token is configured, and carries it. It goes to its path
/// below the configured base, asks for JSON, and is otherwise what it was made of.
pub proof fn law_request_is_what_it_is_made_of(
    config: SentryConfigView,
    method: Method,
    path: Seq<char>,
    body: Option<JsonView>,
)
    ensures
        config.auth_token is None ==> request_for(config, method, path, body) == Err::<
            HttpRequestView,
            BackendErrorView,
        >(BackendErrorView::PermissionDenied("SENTRY_AUTH_TOKEN must be set"@)),
        config.auth_token matches Some(token) ==> {
            &&& request_for(config, method, path, body) is Ok
            &&& request_for(config, method, path, body)->Ok_0.bearer_token == token
            &&& request_for(config, method, path, body)->Ok_0.url == config.api_base + path
            &&& request_for(config, method, path, body)->Ok_0.path == path
            &&& request_for(config, method, path, body)->Ok_0.method == method
            &&& request_for(config, method, path, body)->Ok_0.body == body
            &&& request_for(config, method, path, body)->Ok_0.headers.len() == 1
            &&& request_for(config, method, path, body)->Ok_0.headers[0] == (
                "Accept"@,
                "application/json"@,
            )
        },
{
}

/// The slug of the organization is the configured one, which must be there.
pub proof fn law_slug_is_the_configured_one(config: SentryConfigView)
    ensures
        config.org_slug matches Some(slug) ==> slug_of(config) == Ok::<Seq<char>, BackendErrorView>(
            slug,
        ),
        config.org_slug is None ==> slug_of(config) == Err::<Seq<char>, BackendErrorView>(
            BackendErrorView::InvalidRequest("SENTRY_ORG_SLUG must be set"@),
        ),
{
}

/// An issue is fetched by a bodiless GET of the path of its organization and its id, with the
/// configured token; the configured query and projects have no part in it. A missing organization
/// is reported before a missing token.
pub proof fn law_issue_is_fetched_from_its_organization(
    config: SentryConfigView,
    issue_id: Seq<char>,
)
    ensures
        config.org_slug is None ==> fetch_for(config, issue_id) == Err::<
            HttpRequestView,
            BackendErrorView,
        >(BackendErrorView::InvalidRequest("SENTRY_ORG_SLUG must be set"@)),
        config.org_slug is Some && config.auth_token is None ==> fetch_for(config, issue_id)
            == Err::<HttpRequestView, BackendErrorView>(
            BackendErrorView::PermissionDenied("SENTRY_AUTH_TOKEN must be set"@),
        ),
        config.org_slug is Some && config.auth_token is Some ==> {
            let path = "/organizations/"@ + percent_encoded(config.org_slug->0) + "/issues/"@
                + percent_encoded(issue_id) + "/"@;
            let request = fetch_for(config, issue_id)->Ok_0;
            &&& fetch_for(config, issue_id) is Ok
            &&& request.method == Method::Get
            &&& request.body is None
            &&& request.path == path
            &&& request.url == config.api_base + path
            &&& request.bearer_token == config.auth_token->0
            &&& request.headers == seq![("Accept"@, "application/json"@)]
        },
{
}

/// The path of an issue is made of the slug and the id, each encoded.
pub proof fn law_path_of_an_issue(slug: Seq<char>, issue_id: Seq<char>)
    ensures
        issue_path(slug, issue_id) == "/organizations/"@ + percent_encoded(slug) + "/issues/"@
            + percent_encoded(issue_id) + "/"@,
{
}

/// Configurations that differ in nothing but the query and the projects fetch an issue alike.
pub proof fn law_query_and_projects_are_for_listings(
    a: SentryConfigView,
    b: SentryConfigView,
    issue_id: Seq<char>,
    id: Seq<char>,
    patch: SubjectPatchView,
)
    requires
        a.auth_token == b.auth_token,
        a.org_slug == b.org_slug,
        a.api_base == b.api_base,
    ensures
        fetch_for(a, issue_id) == fetch_for(b, issue_id),
        get_for(a, id) == get_for(b, id),
        first_step(a, id, patch) == first_step(b, id, patch),
        health_of(a) == health_of(b),
{
}

/// To get a subject is to fetch the issue that its id names; an id that names none is refused
/// before anything else is looked at.
pub proof fn law_get_fetches_the_named_issue(config: SentryConfigView, id: Seq<char>)
    ensures
        forall|issue_id: Seq<char>|
            #![trigger "sentry:"@ + issue_id]
            id == "sentry:"@ + issue_id && issue_id.len() > 0 ==> get_for(config, id) == fetch_for(
                config,
                issue_id,
            ),
        id == "sentry:"@ ==> get_for(config, id) == Err::<HttpRequestView, BackendErrorView>(
            BackendErrorView::InvalidRequest("empty Sentry issue id in "@ + id),
        ),
        !"sentry:"@.is_prefix_of(id) ==> get_for(config, id) == Err::<
            HttpRequestView,
            BackendErrorView,
        >(
            BackendErrorView::InvalidRequest(
                "expected Sentry subject id shaped sentry:<issue-id>, got "@ + id,
            ),
        ),
{
    assert forall|issue_id: Seq<char>|
        #![trigger "sentry:"@ + issue_id]
        id == "sentry:"@ + issue_id && issue_id.len() > 0 implies get_for(config, id) == fetch_for(
        config,
        issue_id,
    ) by {
        law_id_is_what_stands_behind_the_prefix(id, issue_id);
    }
}

/// As many issues are asked for as the filter says, or fifty where it says nothing; one where it
/// says none, and a hundred where it says more.
pub proof fn law_limit_is_the_nearest_that_is_allowed(limit: Option<u32>)
    ensures
        limit is None ==> limit_of(limit) == 50,
        limit matches Some(n) ==> 1 <= limit_of(limit) <= 100 && (n == 0 ==> limit_of(limit) == 1)
            && (1 <= n <= 100 ==> limit_of(limit) == n) && (n > 100 ==> limit_of(limit) == 100),
{
}

/// A listing without projects asks for the limit and, where there is one, for the search query:
/// the configured one, and only without one that of the statuses asked for.
pub proof fn law_listing_without_projects(
    config: SentryConfigView,
    slug: Seq<char>,
    filter: SubjectFilterView,
    limit: nat,
)
    requires
        config.project_ids.len() == 0,
        filter.limit is None ==> limit == 50,
        filter.limit == Some(0u32) ==> limit == 1,
        filter.limit matches Some(n) ==> (1 <= n <= 100 ==> limit == n) && (n > 100 ==> limit
            == 100),
    ensures
        ({
            let front = "/organizations/"@ + percent_encoded(slug) + "/issues/?"@ + "limit="@
                + decimal(limit);
            &&& config.query matches Some(query) ==> list_path(config, slug, filter) == front
                + "&query="@ + percent_encoded(query)
            &&& config.query is None ==> (query_of_statuses(filter.status) matches Some(query)
                ==> list_path(config, slug, filter) == front + "&query="@ + percent_encoded(query))
            &&& config.query is None && query_of_statuses(filter.status) is None ==> list_path(
                config,
                slug,
                filter,
            ) == front
        }),
{
    law_limit_is_the_nearest_that_is_allowed(filter.limit);
    assert(limit_of(filter.limit) == limit);
    let params = list_params(config, filter);
    let first = "limit="@ + decimal(limit);
    let front = "/organizations/"@ + percent_encoded(slug) + "/issues/?"@;
    reveal_strlit("&");
    reveal_strlit("query=");
    reveal_strlit("&query=");
    assert("&query="@ =~= "&"@ + "query="@);
    if config.query is None && query_of_statuses(filter.status) is None {
        assert(params =~= seq![first]);
        assert(front + first =~= front + "limit="@ + decimal(limit));
    } else {
        let query = if config.query is Some {
            config.query->0
        } else {
            query_of_statuses(filter.status)->0
        };
        let second = "query="@ + percent_encoded(query);
        assert(params =~= seq![first] + seq![second]);
        law_joining_goes_piece_by_piece(seq![first], seq![second], first, "&"@);
        law_joining_goes_piece_by_piece(seq![first], seq![second], second, "&"@);
        assert(front + (first + "&"@ + second) =~= front + "limit="@ + decimal(limit) + "&query="@
            + percent_encoded(query));
    }
}

/// Each further project adds one parameter to a listing, behind the others.
pub proof fn law_project_adds_a_parameter(
    before: SentryConfigView,
    after: SentryConfigView,
    slug: Seq<char>,
    filter: SubjectFilterView,
    project: Seq<char>,
)
    requires
        after == (SentryConfigView { project_ids: before.project_ids.push(project), ..before }),
    ensures
        list_path(after, slug, filter) == list_path(before, slug, filter) + "&project="@
            + percent_encoded(project),
{
    let a = list_params(before, filter);
    let b = list_params(after, filter);
    let last = "project="@ + percent_encoded(project);
    let encode = |id: Seq<char>| "project="@ + percent_encoded(id);
    assert(after.project_ids.map_values(encode) =~= before.project_ids.map_values(encode).push(
        last,
    ));
    assert(b =~= a + seq![last]);
    law_joining_goes_piece_by_piece(a, seq![last], last, "&"@);
    reveal_strlit("&");
    reveal_strlit("project=");
    reveal_strlit("&project=");
    assert("&project="@ =~= "&"@ + "project="@);
    let front = "/organizations/"@ + percent_encoded(slug) + "/issues/?"@;
    assert(front + (joined(a, "&"@) + "&"@ + last) =~= front + joined(a, "&"@) + "&project="@
        + percent_encoded(project));
}

/// Issues are listed by a bodiless GET of the list path of the configured organization, with the
/// configured token. A missing organization is reported before a missing token.
pub proof fn law_issues_are_listed_from_the_organization(
    config: SentryConfigView,
    filter: SubjectFilterView,
)
    ensures
        config.org_slug is None ==> list_for(config, filter) == Err::<
            HttpRequestView,
            BackendErrorView,
        >(BackendErrorView::InvalidRequest("SENTRY_ORG_SLUG must be set"@)),
        config.org_slug is Some && config.auth_token is None ==> list_for(config, filter) == Err::<
            HttpRequestView,
            BackendErrorView,
        >(BackendErrorView::PermissionDenied("SENTRY_AUTH_TOKEN must be set"@)),
        config.org_slug is Some && config.auth_token is Some ==> {
            let path = list_path(config, config.org_slug->0, filter);
            let request = list_for(config, filter)->Ok_0;
            &&& list_for(config, filter) is Ok
            &&& request.method == Method::Get
            &&& request.body is None
            &&& request.path == path
            &&& request.url == config.api_base + path
            &&& request.bearer_token == config.auth_token->0
            &&& request.headers == seq![("Accept"@, "application/json"@)]
        },
{
}

/// Of a filter, a listing asks the API for the limit and the statuses only.
pub proof fn law_listing_asks_for_limit_and_statuses(
    config: SentryConfigView,
    a: SubjectFilterView,
    b: SubjectFilterView,
)
    requires
        a.limit == b.limit,
        a.status == b.status,
    ensures
        list_for(config, a) == list_for(config, b),
{
}

/// An exchange without an answer brings its reason as the error.
pub proof fn law_failed_exchange_is_unavailable(path: Seq<char>, reason: Seq<char>)
    ensures
        value_of_exchange(path, ExchangeView::Failed(reason)) == Err::<JsonView, BackendErrorView>(
            BackendErrorView::Unavailable(reason),
        ),
        ExchangeView::Failed(reason).well_formed(),
{
}

/// What an answer without success is: not found, under the path; no permission, with the status
/// and the text; too many requests, with the text; and for every other status unavailable, with
/// the status and the text.
pub proof fn law_answer_without_success_is_an_error(
    path: Seq<char>,
    status: u16,
    text: Seq<char>,
    shown: Seq<char>,
)
    ensures
        ({
            let exchange = ExchangeView::Answered { status, text };
            let value = value_of_exchange(path, exchange);
            let message = "Sentry API returned "@ + (decimal(status as nat) + " "@ + status_reason(
                status,
            )) + ": "@ + text;
            &&& status == 404 ==> value == Err::<JsonView, BackendErrorView>(
                BackendErrorView::NotFound(path),
            )
            &&& status == 401 || status == 403 ==> value == Err::<JsonView, BackendErrorView>(
                BackendErrorView::PermissionDenied(message),
            )
            &&& status == 429 ==> value == Err::<JsonView, BackendErrorView>(
                BackendErrorView::Unavailable("Sentry API rate limited request: "@ + text),
            )
            &&& (status < 200 || status >= 300) && status != 404 && status != 401 && status != 403
                && status != 429 ==> value == Err::<JsonView, BackendErrorView>(
                BackendErrorView::Unavailable(message),
            )
            &&& exchange.well_formed() <==> 100 <= status <= 999
        }),
        status == 404 ==> fault_of_status(path, status, shown, text) == Some(
            BackendErrorView::NotFound(path),
        ),
        status == 401 || status == 403 ==> fault_of_status(path, status, shown, text) == Some(
            BackendErrorView::PermissionDenied("Sentry API returned "@ + shown + ": "@ + text),
        ),
        status == 429 ==> fault_of_status(path, status, shown, text) == Some(
            BackendErrorView::Unavailable("Sentry API rate limited request: "@ + text),
        ),
        (status < 200 || status >= 300) && status != 404 && status != 401 && status != 403 && status
            != 429 ==> fault_of_status(path, status, shown, text) == Some(
            BackendErrorView::Unavailable("Sentry API returned "@ + shown + ": "@ + text),
        ),
        200 <= status < 300 ==> fault_of_status(path, status, shown, text) is None,
        is_status(status) <==> 100 <= status <= 999,
{
}

/// An answer of success brings the value that its text writes, null where the text is blank, and
/// the parser's message as the error where it writes none.
pub proof fn law_answer_of_success_is_its_value(path: Seq<char>, status: u16, text: Seq<char>)
    requires
        200 <= status < 300,
    ensures
        ({
            let value = value_of_exchange(path, ExchangeView::Answered { status, text });
            let blank = forall|i: int| 0 <= i < text.len() ==> is_white_space(#[trigger] text[i]);
            &&& blank ==> value == Ok::<JsonView, BackendErrorView>(JsonView::Null)
            &&& !blank ==> (parsed_json(text) matches Ok(v) ==> value == Ok::<
                JsonView,
                BackendErrorView,
            >(v))
            &&& !blank ==> (parsed_json(text) matches Err(message) ==> value == Err::<
                JsonView,
                BackendErrorView,
            >(BackendErrorView::Other(message)))
        }),
{
}

/// What became of the parsing of an answer is carried over; nothing parsed is null.
pub proof fn law_outcome_of_an_answer_is_carried_over(v: JsonView, message: Seq<char>)
    ensures
        value_or_error(None) == Ok::<JsonView, BackendErrorView>(JsonView::Null),
        value_or_error(Some(Ok(v))) == Ok::<JsonView, BackendErrorView>(v),
        value_or_error(Some(Err(message))) == Err::<JsonView, BackendErrorView>(
            BackendErrorView::Other(message),
        ),
{
}

/// A subject and a listing are made of the value that an exchange brings, and where it brings
/// none, its error is theirs.
pub proof fn law_results_are_made_of_the_value(
    path: Seq<char>,
    filter: SubjectFilterView,
    exchange: ExchangeView,
    t: Timestamp,
)
    ensures
        value_of_exchange(path, exchange) matches Ok(v) ==> subject_from(path, exchange)
            == subject_in(v) && listing_from(path, filter, exchange, t) == listing_in(v, filter, t),
        value_of_exchange(path, exchange) matches Err(e) ==> subject_from(path, exchange) == Err::<
            SubjectView,
            BackendErrorView,
        >(e) && listing_from(path, filter, exchange, t) == Err::<SubjectListView, BackendErrorView>(
            e,
        ),
{
}

/// A patch is refused if and only if it touches labels or carries a comment that is not empty; the
/// message says which, labels first.
pub proof fn law_refused_patches(patch: SubjectPatchView)
    ensures
        fault_of_patch(patch) is Some <==> patch.labels_add.len() > 0 || patch.labels_remove.len()
            > 0 || (patch.comment is Some && patch.comment->0.len() > 0),
        patch.labels_add.len() > 0 || patch.labels_remove.len() > 0 ==> fault_of_patch(patch)
            == Some(
            BackendErrorView::InvalidRequest(
                "Sentry issue labels are derived from issue metadata and cannot be mutated"@,
            ),
        ),
        patch.labels_add.len() == 0 && patch.labels_remove.len() == 0 && patch.comment is Some
            && patch.comment->0.len() > 0 ==> fault_of_patch(patch) == Some(
            BackendErrorView::InvalidRequest(
                "Sentry issue comments are not implemented by this plugin"@,
            ),
        ),
{
}

/// What stops an update before it starts: a refused patch first, then an id that names no issue,
/// a missing organization and a missing token, as for a get.
pub proof fn law_update_starts_unless_refused(
    config: SentryConfigView,
    id: Seq<char>,
    patch: SubjectPatchView,
)
    ensures
        first_step(config, id, patch) is Ok <==> patch.labels_add.len() == 0
            && patch.labels_remove.len() == 0 && (patch.comment is None || patch.comment->0.len()
            == 0) && get_for(config, id) is Ok,
        patch.labels_add.len() > 0 || patch.labels_remove.len() > 0 ==> first_step(config, id, patch)
            == Err::<UpdateStepView, BackendErrorView>(
            BackendErrorView::InvalidRequest(
                "Sentry issue labels are derived from issue metadata and cannot be mutated"@,
            ),
        ),
        patch.labels_add.len() == 0 && patch.labels_remove.len() == 0 && patch.comment is Some
            && patch.comment->0.len() > 0 ==> first_step(config, id, patch) == Err::<
            UpdateStepView,
            BackendErrorView,
        >(
            BackendErrorView::InvalidRequest(
                "Sentry issue comments are not implemented by this plugin"@,
            ),
        ),
        patch.labels_add.len() == 0 && patch.labels_remove.len() == 0 && (patch.comment is None
            || patch.comment->0.len() == 0) ==> (get_for(config, id) matches Err(e) ==> first_step(
            config,
            id,
            patch,
        ) == Err::<UpdateStepView, BackendErrorView>(e)),
{
}

/// Where the change of an update goes is where a get of the subject goes, with the same token: the
/// write is the request of the get, but for its method and its body. The body is an object with
/// the native status under one key and the assignee under another, as far as the patch gives them,
/// and nothing else. A patch that gives neither is a get.
pub proof fn law_update_writes_where_a_get_reads(
    config: SentryConfigView,
    id: Seq<char>,
    patch: SubjectPatchView,
    key: Seq<char>,
)
    requires
        first_step(config, id, patch) is Ok,
    ensures
        ({
            let step = first_step(config, id, patch)->Ok_0;
            let read = get_for(config, id)->Ok_0;
            &&& patch.status is None && patch.assignee is None ==> step.phase == UpdatePhase::Read
                && step.request == read
            &&& patch.status is Some || patch.assignee is Some ==> {
                &&& step.phase == UpdatePhase::Write
                &&& step.request == (HttpRequestView {
                    method: Method::Put,
                    body: step.request.body,
                    ..read
                })
                &&& step.request.body is Some
                &&& step.request.body->0 is Object
            }
            &&& patch.status matches Some(status) ==> step.request.body->0.get("status"@) == Some(
                JsonView::Str(
                    match status {
                        SubjectStatus::Done => "resolved"@,
                        SubjectStatus::Cancelled => "ignored"@,
                        _ => "unresolved"@,
                    },
                ),
            )
            &&& patch.status is None && patch.assignee is Some ==> step.request.body->0.get(
                "status"@,
            ) is None
            &&& patch.assignee matches Some(Some(assignee)) ==> step.request.body->0.get(
                "assignedTo"@,
            ) == Some(JsonView::Str(assignee))
            &&& patch.assignee == Some(None::<Seq<char>>) ==> step.request.body->0.get(
                "assignedTo"@,
            ) == Some(JsonView::Null)
            &&& patch.assignee is None && patch.status is Some ==> step.request.body->0.get(
                "assignedTo"@,
            ) is None
            &&& (patch.status is Some || patch.assignee is Some) && key != "status"@ && key
                != "assignedTo"@ ==> step.request.body->0.get(key) is None
            &&& patch.status is Some && patch.assignee is Some
                ==> step.request.body->0->Object_0.len() == 2
            &&& (patch.status is Some) != (patch.assignee is Some)
                ==> step.request.body->0->Object_0.len() == 1
        }),
{
    reveal_strlit("status");
    reveal_strlit("assignedTo");
    assert("status"@.len() == 6);
    assert("assignedTo"@.len() == 10);
    reveal_with_fuel(crate::json::lookup, 3);
    let members = patch_members(patch);
    if members.len() == 2 {
        assert(members.drop_first()[0] == members[1]);
    }
}

/// After a change that the API took, whatever value it answers with, the subject is read back by
/// the request of a get; where the change was refused, that error ends the update.
pub proof fn law_accepted_change_is_read_back(
    config: SentryConfigView,
    id: Seq<char>,
    step: UpdateStepView,
    exchange: ExchangeView,
)
    requires
        step.phase == UpdatePhase::Write,
    ensures
        value_of_exchange(step.request.path, exchange) is Ok ==> (get_for(config, id) matches Ok(
            request,
        ) ==> next_step(config, id, step, exchange) == Ok::<UpdateProgressView, BackendErrorView>(
            UpdateProgressView::Send(UpdateStepView { phase: UpdatePhase::Read, request }),
        )),
        value_of_exchange(step.request.path, exchange) is Ok ==> (get_for(config, id) matches Err(e)
            ==> next_step(config, id, step, exchange) == Err::<
            UpdateProgressView,
            BackendErrorView,
        >(e)),
        value_of_exchange(step.request.path, exchange) matches Err(e) ==> next_step(
            config,
            id,
            step,
            exchange,
        ) == Err::<UpdateProgressView, BackendErrorView>(e),
{
}

/// The answer to the reading ends an update, with the subject or the error that a get would bring.
pub proof fn law_reading_ends_the_update(
    config: SentryConfigView,
    id: Seq<char>,
    step: UpdateStepView,
    exchange: ExchangeView,
)
    requires
        step.phase == UpdatePhase::Read,
    ensures
        subject_from(step.request.path, exchange) matches Ok(subject) ==> next_step(
            config,
            id,
            step,
            exchange,
        ) == Ok::<UpdateProgressView, BackendErrorView>(UpdateProgressView::Done(subject)),
        subject_from(step.request.path, exchange) matches Err(e) ==> next_step(
            config,
            id,
            step,
            exchange,
        ) == Err::<UpdateProgressView, BackendErrorView>(e),
{
}

/// Every update that starts, and whose requests all bring what they ask for, ends with the
/// subject: at once where nothing changes, else after the change and the reading.
pub proof fn law_answered_update_brings_the_subject(
    config: SentryConfigView,
    id: Seq<char>,
    patch: SubjectPatchView,
    written: ExchangeView,
    read: ExchangeView,
    subject: SubjectView,
)
    requires
        first_step(config, id, patch) is Ok,
        value_of_exchange(get_for(config, id)->Ok_0.path, written) is Ok,
        subject_from(get_for(config, id)->Ok_0.path, read) == Ok::<SubjectView, BackendErrorView>(
            subject,
        ),
    ensures
        ({
            let start = first_step(config, id, patch)->Ok_0;
            let done = Ok::<UpdateProgressView, BackendErrorView>(
                UpdateProgressView::Done(subject),
            );
            &&& start.phase == UpdatePhase::Read ==> next_step(config, id, start, read) == done
            &&& start.phase == UpdatePhase::Write ==> (next_step(config, id, start, written) matches
                Ok(UpdateProgressView::Send(next)) && next_step(config, id, next, read) == done)
        }),
{
    law_update_writes_where_a_get_reads(config, id, patch, Seq::empty());
}

/// A backend is healthy if and only if a token and an organization are configured; else it says
/// which of them is missing. It reports no uptime and no memory.
pub proof fn law_health_names_what_is_missing(config: SentryConfigView)
    ensures
        health_of(config).status == HealthStatus::Healthy <==> config.auth_token is Some
            && config.org_slug is Some,
        config.auth_token is Some && config.org_slug is Some ==> health_of(
            config,
        ).last_error is None,
        config.auth_token is None && config.org_slug is Some ==> health_of(config).last_error
            == Some("SENTRY_AUTH_TOKEN unset"@),
        config.auth_token is Some && config.org_slug is None ==> health_of(config).last_error
            == Some("SENTRY_ORG_SLUG unset"@),
        config.auth_token is None && config.org_slug is None ==> health_of(config).last_error
            == Some("SENTRY_AUTH_TOKEN and SENTRY_ORG_SLUG unset"@),
        health_of(config).uptime_ms is None,
        health_of(config).memory_usage_bytes is None,
{
}

/// The name under which the backend introduces itself is its own, a slash and the version.
pub proof fn law_agent_is_named_with_its_version(version: Seq<char>)
    ensures
        agent_name(version) == "animus-subject-sentry/"@ + version,
{
}

}
