//! What the backend supports.

use vstd::prelude::*;

use crate::issue::KIND_INCIDENT;
use crate::protocol::{
    CustomFieldKind, CustomFieldSpec, CustomFieldSpecView, SubjectSchema, SubjectSchemaView,
    SubjectStatus,
};

verus! {

/// A custom field of any value.
pub open spec fn free_field(key: Seq<char>, kind: CustomFieldKind) -> CustomFieldSpecView {
    CustomFieldSpecView { key, kind, values: None }
}

/// The schema of the backend: incidents in five statuses, which can neither be created nor
/// deleted, nor watched, nor listed by page.
pub open spec fn sentry_schema() -> SubjectSchemaView {
    SubjectSchemaView {
        kinds: seq![KIND_INCIDENT@],
        status_values: seq![
            SubjectStatus::Ready,
            SubjectStatus::InProgress,
            SubjectStatus::Blocked,
            SubjectStatus::Done,
            SubjectStatus::Cancelled,
        ],
        supports_watch: false,
        supports_create: false,
        supports_delete: false,
        supports_pagination: false,
        native_status_values: seq!["unresolved"@, "resolved"@, "ignored"@],
        status_dispatch_hints: Seq::empty(),
        custom_fields: seq![
            CustomFieldSpecView {
                key: "level"@,
                kind: CustomFieldKind::String,
                values: Some(seq!["fatal"@, "error"@, "warning"@, "info"@, "debug"@]),
            },
            free_field("project"@, CustomFieldKind::String),
            free_field("short_id"@, CustomFieldKind::String),
            free_field("count"@, CustomFieldKind::Number),
            free_field("user_count"@, CustomFieldKind::Number),
        ],
    }
}

fn free(key: &str, kind: CustomFieldKind) -> (r: CustomFieldSpec)
    ensures
        r.deep_view() == free_field(key@, kind),
{
    CustomFieldSpec { key: key.to_owned(), kind, values: None }
}

/// The `level` field, with the levels that Sentry knows.
fn level_field() -> (r: CustomFieldSpec)
    ensures
        r.deep_view() == sentry_schema().custom_fields[0],
{
    let levels: Vec<String> = vec![
        "fatal".to_owned(),
        "error".to_owned(),
        "warning".to_owned(),
        "info".to_owned(),
        "debug".to_owned(),
    ];
    assert(levels.deep_view() =~= seq!["fatal"@, "error"@, "warning"@, "info"@, "debug"@]);
    CustomFieldSpec {
        key: "level".to_owned(),
        kind: CustomFieldKind::String,
        values: Some(levels),
    }
}

/// The schema of the backend.
pub fn schema() -> (r: SubjectSchema)
    ensures
        r.deep_view() == sentry_schema(),
{
    let r = SubjectSchema {
        kinds: vec![KIND_INCIDENT.to_owned()],
        status_values: vec![
            SubjectStatus::Ready,
            SubjectStatus::InProgress,
            SubjectStatus::Blocked,
            SubjectStatus::Done,
            SubjectStatus::Cancelled,
        ],
        supports_watch: false,
        supports_create: false,
        supports_delete: false,
        supports_pagination: false,
        native_status_values: vec![
            "unresolved".to_owned(),
            "resolved".to_owned(),
            "ignored".to_owned(),
        ],
        status_dispatch_hints: Vec::new(),
        custom_fields: vec![
            level_field(),
            free("project", CustomFieldKind::String),
            free("short_id", CustomFieldKind::String),
            free("count", CustomFieldKind::Number),
            free("user_count", CustomFieldKind::Number),
        ],
    };
    assert(r.deep_view() =~= sentry_schema());
    r
}

}
