//! The subject protocol: the values that callers hand to a backend and get back from it.

use vstd::prelude::*;

use crate::json::{Json, JsonView};

verus! {

/// A result over the mathematical values of its two sides.
pub open spec fn result_view<T: DeepView, E: DeepView>(r: Result<T, E>) -> Result<T::V, E::V> {
    match r {
        Ok(t) => Ok(t.deep_view()),
        Err(e) => Err(e.deep_view()),
    }
}

/// Names a subject across backends.
#[derive(Debug, PartialEq, Eq)]
pub struct SubjectId {
    raw: String,
}

impl DeepView for SubjectId {
    type V = Seq<char>;

    closed spec fn deep_view(&self) -> Seq<char> {
        self.raw@
    }
}

impl SubjectId {
    pub fn new(raw: &str) -> (r: Self)
        ensures
            r.deep_view() == raw@,
    {
        SubjectId { raw: raw.to_owned() }
    }

    pub fn as_str(&self) -> (r: &str)
        ensures
            r@ == self.deep_view(),
    {
        self.raw.as_str()
    }
}

/// How far the work on a subject has come.
#[derive(Debug, Clone, Copy, PartialEq, Eq, Structural)]
pub enum SubjectStatus {
    Ready,
    InProgress,
    Blocked,
    Done,
    Cancelled,
}

/// The type of a custom field.
#[derive(Debug, Clone, Copy, PartialEq, Eq, Structural)]
pub enum CustomFieldKind {
    String,
    Number,
}

#[derive(Debug, Clone, Copy, PartialEq, Eq, Structural)]
pub enum HealthStatus {
    Healthy,
    Unhealthy,
}

/// An instant: whole seconds since the start of 1970 UTC, and the nanoseconds that follow them.
/// A leap second counts on in the nanoseconds.
#[derive(Debug, Clone, Copy, PartialEq, Eq, Structural)]
pub struct Timestamp {
    pub secs: i64,
    pub nanos: u32,
}

impl DeepView for Timestamp {
    type V = Timestamp;

    open spec fn deep_view(&self) -> Timestamp {
        *self
    }
}

impl Timestamp {
    /// `self` comes before `other`.
    pub open spec fn earlier(self, other: Timestamp) -> bool {
        self.secs < other.secs || (self.secs == other.secs && self.nanos < other.nanos)
    }

    pub fn is_before(&self, other: &Timestamp) -> (r: bool)
        ensures
            r == self.earlier(*other),
    {
        self.secs < other.secs || (self.secs == other.secs && self.nanos < other.nanos)
    }
}

/// Why a request to a backend failed, with a message.
#[derive(Debug, PartialEq, Eq)]
pub enum BackendError {
    InvalidRequest(String),
    NotFound(String),
    PermissionDenied(String),
    Unavailable(String),
    Other(String),
}

/// What a [`BackendError`] says.
pub enum BackendErrorView {
    InvalidRequest(Seq<char>),
    NotFound(Seq<char>),
    PermissionDenied(Seq<char>),
    Unavailable(Seq<char>),
    Other(Seq<char>),
}

impl DeepView for BackendError {
    type V = BackendErrorView;

    open spec fn deep_view(&self) -> BackendErrorView {
        match self {
            BackendError::InvalidRequest(s) => BackendErrorView::InvalidRequest(s@),
            BackendError::NotFound(s) => BackendErrorView::NotFound(s@),
            BackendError::PermissionDenied(s) => BackendErrorView::PermissionDenied(s@),
            BackendError::Unavailable(s) => BackendErrorView::Unavailable(s@),
            BackendError::Other(s) => BackendErrorView::Other(s@),
        }
    }
}

/// One unit of work that a backend exposes.
#[derive(Debug, PartialEq)]
pub struct Subject {
    pub id: SubjectId,
    pub kind: String,
    pub title: String,
    pub description: Option<String>,
    pub status: SubjectStatus,
    pub priority: Option<u8>,
    pub assignee: Option<String>,
    pub labels: Vec<String>,
    pub parent: Option<SubjectId>,
    pub children: Vec<SubjectId>,
    pub url: Option<String>,
    pub created_at: Timestamp,
    pub updated_at: Timestamp,
    /// The backend's own fields, by key, in the order of their keys.
    pub custom: Vec<(String, Json)>,
    /// The status in the backend's own words.
    pub native_status: Option<String>,
    pub status_metadata: Json,
    pub attachments: Vec<Json>,
}

/// What a [`Subject`] holds.
#[verifier::ext_equal]
pub struct SubjectView {
    pub id: Seq<char>,
    pub kind: Seq<char>,
    pub title: Seq<char>,
    pub description: Option<Seq<char>>,
    pub status: SubjectStatus,
    pub priority: Option<u8>,
    pub assignee: Option<Seq<char>>,
    pub labels: Seq<Seq<char>>,
    pub parent: Option<Seq<char>>,
    pub children: Seq<Seq<char>>,
    pub url: Option<Seq<char>>,
    pub created_at: Timestamp,
    pub updated_at: Timestamp,
    pub custom: Seq<(Seq<char>, JsonView)>,
    pub native_status: Option<Seq<char>>,
    pub status_metadata: JsonView,
    pub attachments: Seq<JsonView>,
}

impl DeepView for Subject {
    type V = SubjectView;

    open spec fn deep_view(&self) -> SubjectView {
        SubjectView {
            id: self.id.deep_view(),
            kind: self.kind@,
            title: self.title@,
            description: self.description.deep_view(),
            status: self.status,
            priority: self.priority,
            assignee: self.assignee.deep_view(),
            labels: self.labels.deep_view(),
            parent: self.parent.deep_view(),
            children: self.children.deep_view(),
            url: self.url.deep_view(),
            created_at: self.created_at,
            updated_at: self.updated_at,
            custom: self.custom.deep_view(),
            native_status: self.native_status.deep_view(),
            status_metadata: self.status_metadata.deep_view(),
            attachments: self.attachments.deep_view(),
        }
    }
}

/// What a caller wants listed. An empty list asks for nothing in particular.
#[derive(Debug, PartialEq, Eq)]
pub struct SubjectFilter {
    pub kind: Vec<String>,
    pub status: Vec<SubjectStatus>,
    pub assignee: Vec<String>,
    /// At least one of these labels.
    pub labels_any: Vec<String>,
    /// Every one of these labels.
    pub labels_all: Vec<String>,
    pub updated_since: Option<Timestamp>,
    pub limit: Option<u32>,
}

/// What a [`SubjectFilter`] holds.
#[verifier::ext_equal]
pub struct SubjectFilterView {
    pub kind: Seq<Seq<char>>,
    pub status: Seq<SubjectStatus>,
    pub assignee: Seq<Seq<char>>,
    pub labels_any: Seq<Seq<char>>,
    pub labels_all: Seq<Seq<char>>,
    pub updated_since: Option<Timestamp>,
    pub limit: Option<u32>,
}

impl DeepView for SubjectFilter {
    type V = SubjectFilterView;

    open spec fn deep_view(&self) -> SubjectFilterView {
        SubjectFilterView {
            kind: self.kind.deep_view(),
            status: self.status@,
            assignee: self.assignee.deep_view(),
            labels_any: self.labels_any.deep_view(),
            labels_all: self.labels_all.deep_view(),
            updated_since: self.updated_since,
            limit: self.limit,
        }
    }
}

/// The changes that a caller asks for.
#[derive(Debug, PartialEq, Eq)]
pub struct SubjectPatch {
    pub status: Option<SubjectStatus>,
    /// `Some(None)` takes the assignee away.
    pub assignee: Option<Option<String>>,
    pub labels_add: Vec<String>,
    pub labels_remove: Vec<String>,
    pub comment: Option<String>,
}

/// What a [`SubjectPatch`] holds.
#[verifier::ext_equal]
pub struct SubjectPatchView {
    pub status: Option<SubjectStatus>,
    pub assignee: Option<Option<Seq<char>>>,
    pub labels_add: Seq<Seq<char>>,
    pub labels_remove: Seq<Seq<char>>,
    pub comment: Option<Seq<char>>,
}

impl DeepView for SubjectPatch {
    type V = SubjectPatchView;

    open spec fn deep_view(&self) -> SubjectPatchView {
        SubjectPatchView {
            status: self.status,
            assignee: self.assignee.deep_view(),
            labels_add: self.labels_add.deep_view(),
            labels_remove: self.labels_remove.deep_view(),
            comment: self.comment.deep_view(),
        }
    }
}

/// The answer to a listing.
#[derive(Debug, PartialEq)]
pub struct SubjectList {
    pub subjects: Vec<Subject>,
    pub next_cursor: Option<String>,
    pub fetched_at: Timestamp,
}

/// What a [`SubjectList`] holds.
#[verifier::ext_equal]
pub struct SubjectListView {
    pub subjects: Seq<SubjectView>,
    pub next_cursor: Option<Seq<char>>,
    pub fetched_at: Timestamp,
}

impl DeepView for SubjectList {
    type V = SubjectListView;

    open spec fn deep_view(&self) -> SubjectListView {
        SubjectListView {
            subjects: self.subjects.deep_view(),
            next_cursor: self.next_cursor.deep_view(),
            fetched_at: self.fetched_at,
        }
    }
}

/// A field that a backend adds to its subjects.
#[derive(Debug, PartialEq, Eq)]
pub struct CustomFieldSpec {
    pub key: String,
    pub kind: CustomFieldKind,
    /// The values that the field usually takes, where they can be listed.
    pub values: Option<Vec<String>>,
}

/// What a [`CustomFieldSpec`] holds.
#[verifier::ext_equal]
pub struct CustomFieldSpecView {
    pub key: Seq<char>,
    pub kind: CustomFieldKind,
    pub values: Option<Seq<Seq<char>>>,
}

impl DeepView for CustomFieldSpec {
    type V = CustomFieldSpecView;

    open spec fn deep_view(&self) -> CustomFieldSpecView {
        CustomFieldSpecView {
            key: self.key@,
            kind: self.kind,
            values: self.values.deep_view(),
        }
    }
}

/// What a backend supports.
#[derive(Debug, PartialEq, Eq)]
pub struct SubjectSchema {
    pub kinds: Vec<String>,
    pub status_values: Vec<SubjectStatus>,
    pub supports_watch: bool,
    pub supports_create: bool,
    pub supports_delete: bool,
    pub supports_pagination: bool,
    pub native_status_values: Vec<String>,
    pub status_dispatch_hints: Vec<String>,
    pub custom_fields: Vec<CustomFieldSpec>,
}

/// What a [`SubjectSchema`] holds.
#[verifier::ext_equal]
pub struct SubjectSchemaView {
    pub kinds: Seq<Seq<char>>,
    pub status_values: Seq<SubjectStatus>,
    pub supports_watch: bool,
    pub supports_create: bool,
    pub supports_delete: bool,
    pub supports_pagination: bool,
    pub native_status_values: Seq<Seq<char>>,
    pub status_dispatch_hints: Seq<Seq<char>>,
    pub custom_fields: Seq<CustomFieldSpecView>,
}

impl DeepView for SubjectSchema {
    type V = SubjectSchemaView;

    open spec fn deep_view(&self) -> SubjectSchemaView {
        SubjectSchemaView {
            kinds: self.kinds.deep_view(),
            status_values: self.status_values@,
            supports_watch: self.supports_watch,
            supports_create: self.supports_create,
            supports_delete: self.supports_delete,
            supports_pagination: self.supports_pagination,
            native_status_values: self.native_status_values.deep_view(),
            status_dispatch_hints: self.status_dispatch_hints.deep_view(),
            custom_fields: self.custom_fields.deep_view(),
        }
    }
}

/// The answer to a health check.
#[derive(Debug, PartialEq, Eq)]
pub struct HealthCheckResult {
    pub status: HealthStatus,
    pub uptime_ms: Option<u64>,
    pub memory_usage_bytes: Option<u64>,
    pub last_error: Option<String>,
}

/// What a [`HealthCheckResult`] holds.
#[verifier::ext_equal]
pub struct HealthCheckResultView {
    pub status: HealthStatus,
    pub uptime_ms: Option<u64>,
    pub memory_usage_bytes: Option<u64>,
    pub last_error: Option<Seq<char>>,
}

impl DeepView for HealthCheckResult {
    type V = HealthCheckResultView;

    open spec fn deep_view(&self) -> HealthCheckResultView {
        HealthCheckResultView {
            status: self.status,
            uptime_ms: self.uptime_ms,
            memory_usage_bytes: self.memory_usage_bytes,
            last_error: self.last_error.deep_view(),
        }
    }
}

}
