//! What the views hold: each field of a value, as it is.

use vstd::prelude::*;

use crate::backend::{UpdateProgress, UpdateProgressView, UpdateStep};
use crate::config::{EnvVars, SentryConfig};
use crate::http::{Exchange, ExchangeView, HttpRequest};
use crate::json::{Json, JsonView};
use crate::native_id::NativeId;
use crate::protocol::{
    result_view, BackendError, BackendErrorView, CustomFieldSpec, HealthCheckResult, Subject,
    SubjectFilter, SubjectList, SubjectPatch, SubjectSchema, Timestamp,
};

verus! {

/// The view of the environment variables holds each of them.
pub proof fn law_view_of_env_vars(x: EnvVars)
    ensures
        x.deep_view().auth_token == x.auth_token.deep_view(),
        x.deep_view().org_slug == x.org_slug.deep_view(),
        x.deep_view().project_ids == x.project_ids.deep_view(),
        x.deep_view().query == x.query.deep_view(),
        x.deep_view().api_base == x.api_base.deep_view(),
{
}

/// The view of a configuration holds each of its settings.
pub proof fn law_view_of_config(x: SentryConfig)
    ensures
        x.deep_view().auth_token == x.auth_token.deep_view(),
        x.deep_view().org_slug == x.org_slug.deep_view(),
        x.deep_view().project_ids == x.project_ids.deep_view(),
        x.deep_view().query == x.query.deep_view(),
        x.deep_view().api_base == x.api_base@,
{
}

/// The view of a request holds all that is sent.
pub proof fn law_view_of_request(x: HttpRequest)
    ensures
        x.deep_view().method == x.method,
        x.deep_view().path == x.path@,
        x.deep_view().url == x.url@,
        x.deep_view().headers == x.headers.deep_view(),
        x.deep_view().bearer_token == x.bearer_token@,
        x.deep_view().body == x.body.deep_view(),
{
}

/// The view of a subject holds each of its fields.
pub proof fn law_view_of_subject(x: Subject)
    ensures
        x.deep_view().id == x.id.deep_view(),
        x.deep_view().kind == x.kind@,
        x.deep_view().title == x.title@,
        x.deep_view().description == x.description.deep_view(),
        x.deep_view().status == x.status,
        x.deep_view().priority == x.priority,
        x.deep_view().assignee == x.assignee.deep_view(),
        x.deep_view().labels == x.labels.deep_view(),
        x.deep_view().parent == x.parent.deep_view(),
        x.deep_view().children == x.children.deep_view(),
        x.deep_view().url == x.url.deep_view(),
        x.deep_view().created_at == x.created_at,
        x.deep_view().updated_at == x.updated_at,
        x.deep_view().custom == x.custom.deep_view(),
        x.deep_view().native_status == x.native_status.deep_view(),
        x.deep_view().status_metadata == x.status_metadata.deep_view(),
        x.deep_view().attachments == x.attachments.deep_view(),
{
}

/// The view of a filter holds each of its criteria.
pub proof fn law_view_of_filter(x: SubjectFilter)
    ensures
        x.deep_view().kind == x.kind.deep_view(),
        x.deep_view().status == x.status@,
        x.deep_view().assignee == x.assignee.deep_view(),
        x.deep_view().labels_any == x.labels_any.deep_view(),
        x.deep_view().labels_all == x.labels_all.deep_view(),
        x.deep_view().updated_since == x.updated_since,
        x.deep_view().limit == x.limit,
{
}

/// The view of a patch holds each of its changes.
pub proof fn law_view_of_patch(x: SubjectPatch)
    ensures
        x.deep_view().status == x.status,
        x.deep_view().assignee == x.assignee.deep_view(),
        x.deep_view().labels_add == x.labels_add.deep_view(),
        x.deep_view().labels_remove == x.labels_remove.deep_view(),
        x.deep_view().comment == x.comment.deep_view(),
{
}

/// The view of a listing holds its subjects and what goes with them.
pub proof fn law_view_of_list(x: SubjectList)
    ensures
        x.deep_view().subjects == x.subjects.deep_view(),
        x.deep_view().next_cursor == x.next_cursor.deep_view(),
        x.deep_view().fetched_at == x.fetched_at,
{
}

/// The view of a custom field holds its key, its kind and its values.
pub proof fn law_view_of_custom_field(x: CustomFieldSpec)
    ensures
        x.deep_view().key == x.key@,
        x.deep_view().kind == x.kind,
        x.deep_view().values == x.values.deep_view(),
{
}

/// The view of a schema holds each of its fields.
pub proof fn law_view_of_schema(x: SubjectSchema)
    ensures
        x.deep_view().kinds == x.kinds.deep_view(),
        x.deep_view().status_values == x.status_values@,
        x.deep_view().supports_watch == x.supports_watch,
        x.deep_view().supports_create == x.supports_create,
        x.deep_view().supports_delete == x.supports_delete,
        x.deep_view().supports_pagination == x.supports_pagination,
        x.deep_view().native_status_values == x.native_status_values.deep_view(),
        x.deep_view().status_dispatch_hints == x.status_dispatch_hints.deep_view(),
        x.deep_view().custom_fields == x.custom_fields.deep_view(),
{
}

/// The view of a health check holds each of its fields.
pub proof fn law_view_of_health(x: HealthCheckResult)
    ensures
        x.deep_view().status == x.status,
        x.deep_view().uptime_ms == x.uptime_ms,
        x.deep_view().memory_usage_bytes == x.memory_usage_bytes,
        x.deep_view().last_error == x.last_error.deep_view(),
{
}

/// The view of a step holds its phase and its request.
pub proof fn law_view_of_step(x: UpdateStep)
    ensures
        x.deep_view().phase == x.phase,
        x.deep_view().request == x.request.deep_view(),
{
}

/// The view of an issue id is its text, and that of an instant the instant.
pub proof fn law_view_of_id_and_instant(id: NativeId, t: Timestamp)
    ensures
        id.deep_view() == id.issue_id@,
        t.deep_view() == t,
{
}

/// The view of an exchange tells a failure from an answer, and holds what came.
pub proof fn law_view_of_exchange(x: Exchange)
    ensures
        x matches Exchange::Failed(reason) ==> x.deep_view() == ExchangeView::Failed(reason@),
        x matches Exchange::Answered { status, text } ==> x.deep_view() == (
        ExchangeView::Answered { status, text: text@ }),
{
}

/// The view of an error tells its kind and holds its message.
pub proof fn law_view_of_error(x: BackendError)
    ensures
        x matches BackendError::InvalidRequest(s) ==> x.deep_view()
            == BackendErrorView::InvalidRequest(s@),
        x matches BackendError::NotFound(s) ==> x.deep_view() == BackendErrorView::NotFound(s@),
        x matches BackendError::PermissionDenied(s) ==> x.deep_view()
            == BackendErrorView::PermissionDenied(s@),
        x matches BackendError::Unavailable(s) ==> x.deep_view() == BackendErrorView::Unavailable(
            s@,
        ),
        x matches BackendError::Other(s) ==> x.deep_view() == BackendErrorView::Other(s@),
{
}

/// The view of a result tells success from failure.
pub proof fn law_view_of_result(x: Result<Subject, BackendError>)
    ensures
        x matches Ok(s) ==> result_view(x) == Ok::<_, BackendErrorView>(s.deep_view()),
        x matches Err(e) ==> result_view(x) == Err::<crate::protocol::SubjectView, _>(
            e.deep_view(),
        ),
{
}

/// The view of an update's progress tells what is still to be sent from what came of it.
pub proof fn law_view_of_progress(x: UpdateProgress)
    ensures
        x matches UpdateProgress::Send(step) ==> x.deep_view() == UpdateProgressView::Send(
            step.deep_view(),
        ),
        x matches UpdateProgress::Done(subject) ==> x.deep_view() == UpdateProgressView::Done(
            subject.deep_view(),
        ),
{
}

/// The view of a JSON value is the same tree: of the same shape, with the same keys in the same
/// order and the same leaves.
pub proof fn law_view_of_json(x: Json, i: int)
    ensures
        x is Null ==> x.deep_view() is Null,
        x matches Json::Bool(b) ==> x.deep_view() == JsonView::Bool(b),
        x matches Json::Uint(n) ==> x.deep_view() == JsonView::Uint(n),
        x matches Json::Number(n) ==> x.deep_view() == JsonView::Number(n),
        x matches Json::Str(s) ==> x.deep_view() == JsonView::Str(s@),
        x matches Json::Array(items) ==> (x.deep_view() matches JsonView::Array(held) && held.len()
            == items@.len() && (0 <= i < items@.len() ==> held[i] == items@[i].deep_view())),
        x matches Json::Object(entries) ==> (x.deep_view() matches JsonView::Object(held)
            && held.len() == entries@.len() && (0 <= i < entries@.len() ==> held[i] == (
            entries@[i].0@,
            entries@[i].1.deep_view(),
        ))),
{
}

}
