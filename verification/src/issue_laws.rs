//! What the subject of an issue holds, field by field.

use vstd::prelude::*;

use crate::backend::listing_in;
use crate::issue::{
    assignee_in, at_most_one, count_at, count_field, count_in, custom_in, labels_in, level_in,
    native_of_status, priority_of_level, project_in, seen_in, seen_or_error, short_id_in,
    status_of_native, subject_in, subject_or_error, text_field,
};
use crate::json::{lookup, number_as_u64, JsonView};
use crate::laws::{law_custom_fields_are_those_of_the_schema, text_before};
use crate::protocol::{
    BackendErrorView, SubjectFilterView, SubjectStatus, SubjectView, Timestamp,
};
use crate::schema::sentry_schema;
use crate::text::number_in;
use crate::time::{rfc3339_instant, timestamp_in};

verus! {

/// The member of an object under a key is the value of the entry that has the key and behind no
/// other that has it; where no entry has the key, and in what is no object, there is none.
pub proof fn law_member_is_that_of_the_first_entry(
    value: JsonView,
    entries: Seq<(Seq<char>, JsonView)>,
    key: Seq<char>,
    i: int,
)
    ensures
        !(value is Object) ==> value.get(key) == None::<JsonView>,
        (forall|j: int| 0 <= j < entries.len() ==> (#[trigger] entries[j]).0 != key)
            ==> JsonView::Object(entries).get(key) == None::<JsonView>,
        (0 <= i < entries.len() && entries[i].0 == key && forall|j: int|
            0 <= j < i ==> (#[trigger] entries[j]).0 != key) ==> JsonView::Object(entries).get(key)
            == Some(entries[i].1),
{
    if forall|j: int| 0 <= j < entries.len() ==> (#[trigger] entries[j]).0 != key {
        lemma_lookup_without(entries, key);
    }
    if 0 <= i < entries.len() && entries[i].0 == key && forall|j: int|
        0 <= j < i ==> (#[trigger] entries[j]).0 != key {
        lemma_lookup_at(entries, key, i);
    }
}

proof fn lemma_lookup_without(entries: Seq<(Seq<char>, JsonView)>, key: Seq<char>)
    requires
        forall|j: int| 0 <= j < entries.len() ==> (#[trigger] entries[j]).0 != key,
    ensures
        lookup(entries, key) == None::<JsonView>,
    decreases entries.len(),
{
    if entries.len() > 0 {
        let rest = entries.drop_first();
        assert forall|j: int| 0 <= j < rest.len() implies (#[trigger] rest[j]).0 != key by {
            assert(rest[j] == entries[j + 1]);
        }
        lemma_lookup_without(rest, key);
    }
}

proof fn lemma_lookup_at(entries: Seq<(Seq<char>, JsonView)>, key: Seq<char>, i: int)
    requires
        0 <= i < entries.len(),
        entries[i].0 == key,
        forall|j: int| 0 <= j < i ==> (#[trigger] entries[j]).0 != key,
    ensures
        lookup(entries, key) == Some(entries[i].1),
    decreases entries.len(),
{
    if i > 0 {
        let rest = entries.drop_first();
        assert(entries[0].0 != key);
        assert forall|j: int| 0 <= j < i - 1 implies (#[trigger] rest[j]).0 != key by {
            assert(rest[j] == entries[j + 1]);
        }
        assert(rest[i - 1] == entries[i]);
        lemma_lookup_at(rest, key, i - 1);
    }
}

/// A string has its text, and nothing else has one; the text under a key is that of the member.
pub proof fn law_only_a_string_has_a_text(value: JsonView, key: Seq<char>, s: Seq<char>)
    ensures
        value.as_str() == Some(s) <==> value == JsonView::Str(s),
        value.str_at(key) == Some(s) <==> value.get(key) == Some(JsonView::Str(s)),
{
}

/// A native status is done if and only if it is the word for resolved, cancelled if and only if it
/// is the word for ignored, and otherwise ready.
pub proof fn law_status_of_a_native_status(native: Seq<char>)
    ensures
        status_of_native(native) == SubjectStatus::Done <==> native == "resolved"@,
        status_of_native(native) == SubjectStatus::Cancelled <==> native == "ignored"@,
        status_of_native(native) == SubjectStatus::Ready <==> native != "resolved"@ && native
            != "ignored"@,
{
    lemma_words();
}

/// A status is written as resolved if and only if it is done, as ignored if and only if it is
/// cancelled, and as unresolved if and only if it is one of the others.
pub proof fn law_native_status_of_a_status(status: SubjectStatus)
    ensures
        native_of_status(status) == "resolved"@ <==> status == SubjectStatus::Done,
        native_of_status(status) == "ignored"@ <==> status == SubjectStatus::Cancelled,
        native_of_status(status) == "unresolved"@ <==> status == SubjectStatus::Ready || status
            == SubjectStatus::InProgress || status == SubjectStatus::Blocked,
{
    lemma_words();
}

proof fn lemma_words()
    ensures
        "resolved"@ != "ignored"@,
        "resolved"@ != "unresolved"@,
        "ignored"@ != "unresolved"@,
        "fatal"@ != "error"@,
        "fatal"@ != "warning"@,
        "fatal"@ != "info"@,
        "fatal"@ != "debug"@,
        "error"@ != "warning"@,
        "error"@ != "info"@,
        "error"@ != "debug"@,
        "warning"@ != "info"@,
        "warning"@ != "debug"@,
        "info"@ != "debug"@,
{
    reveal_strlit("resolved");
    reveal_strlit("ignored");
    reveal_strlit("unresolved");
    reveal_strlit("fatal");
    reveal_strlit("error");
    reveal_strlit("warning");
    reveal_strlit("info");
    reveal_strlit("debug");
    assert("resolved"@.len() == 8);
    assert("ignored"@.len() == 7);
    assert("unresolved"@.len() == 10);
    assert("fatal"@[0] == 'f');
    assert("error"@[0] == 'e');
    assert("warning"@[0] == 'w');
    assert("info"@[0] == 'i');
    assert("debug"@[0] == 'd');
}

/// The priority of a level is four if and only if it is fatal, three if and only if it is an
/// error, two if and only if it is a warning, and one if and only if it is for information or
/// debugging; no other level has one.
pub proof fn law_priority_of_a_level(level: Seq<char>)
    ensures
        priority_of_level(level) == Some(4u8) <==> level == "fatal"@,
        priority_of_level(level) == Some(3u8) <==> level == "error"@,
        priority_of_level(level) == Some(2u8) <==> level == "warning"@,
        priority_of_level(level) == Some(1u8) <==> level == "info"@ || level == "debug"@,
        priority_of_level(level) is None <==> level != "fatal"@ && level != "error"@ && level
            != "warning"@ && level != "info"@ && level != "debug"@,
{
    lemma_words();
}

/// There is a subject of an issue if and only if the issue has an id and both times are known; a
/// missing id is reported first, then a fault in the first time, then one in the second.
pub proof fn law_subject_needs_an_id_and_two_times(
    issue: JsonView,
    first: Result<Timestamp, BackendErrorView>,
    last: Result<Timestamp, BackendErrorView>,
)
    ensures
        subject_or_error(issue, first, last) is Ok <==> (issue.get("id"@) is Some && issue.get(
            "id"@,
        )->0 is Str && first is Ok && last is Ok),
        !(issue.get("id"@) is Some && issue.get("id"@)->0 is Str) ==> subject_or_error(
            issue,
            first,
            last,
        ) == Err::<SubjectView, BackendErrorView>(
            BackendErrorView::Other("Sentry issue missing id"@),
        ),
        issue.get("id"@) is Some && issue.get("id"@)->0 is Str ==> (first matches Err(e)
            ==> subject_or_error(issue, first, last) == Err::<SubjectView, BackendErrorView>(e)),
        issue.get("id"@) is Some && issue.get("id"@)->0 is Str && first is Ok ==> (last matches Err(
            e,
        ) ==> subject_or_error(issue, first, last) == Err::<SubjectView, BackendErrorView>(e)),
{
}

/// The subject of an issue is an incident under the issue's id, first and last seen when the issue
/// was, at the issue's link; it stands for itself, with no parent, children or attachments.
pub proof fn law_subject_is_the_issue(
    issue: JsonView,
    first: Result<Timestamp, BackendErrorView>,
    last: Result<Timestamp, BackendErrorView>,
)
    requires
        subject_or_error(issue, first, last) is Ok,
    ensures
        ({
            let s = subject_or_error(issue, first, last)->Ok_0;
            &&& issue.get("id"@) matches Some(JsonView::Str(id)) && s.id == "sentry:"@ + id
            &&& s.kind == "incident"@
            &&& first == Ok::<Timestamp, BackendErrorView>(s.created_at)
            &&& last == Ok::<Timestamp, BackendErrorView>(s.updated_at)
            &&& issue.get("permalink"@) matches Some(JsonView::Str(url)) ==> s.url == Some(url)
            &&& !(issue.get("permalink"@) is Some && issue.get("permalink"@)->0 is Str)
                ==> s.url is None
            &&& s.parent is None
            &&& s.children.len() == 0
            &&& s.attachments.len() == 0
        }),
{
}

/// The title of a subject is the issue's own, also where that is no text and so empty; only where
/// the issue has none, it is that of the metadata.
pub proof fn law_title_of_a_subject(
    issue: JsonView,
    first: Result<Timestamp, BackendErrorView>,
    last: Result<Timestamp, BackendErrorView>,
)
    requires
        subject_or_error(issue, first, last) is Ok,
    ensures
        ({
            let s = subject_or_error(issue, first, last)->Ok_0;
            let own = issue.get("title"@);
            let metadata = issue.get("metadata"@);
            &&& own matches Some(JsonView::Str(title)) ==> s.title == title
            &&& own is Some && !(own->0 is Str) ==> s.title.len() == 0
            &&& own is None && metadata is Some ==> (metadata->0.get("title"@) matches Some(
                JsonView::Str(title),
            ) ==> s.title == title)
            &&& own is None && metadata is Some && !(metadata->0.get("title"@) is Some
                && metadata->0.get("title"@)->0 is Str) ==> s.title.len() == 0
            &&& own is None && metadata is None ==> s.title.len() == 0
        }),
{
}

/// The description of a subject is the issue's culprit, where that is a text and not empty.
pub proof fn law_description_of_a_subject(
    issue: JsonView,
    first: Result<Timestamp, BackendErrorView>,
    last: Result<Timestamp, BackendErrorView>,
    culprit: Seq<char>,
)
    requires
        subject_or_error(issue, first, last) is Ok,
    ensures
        subject_or_error(issue, first, last)->Ok_0.description == Some(culprit)
            <==> culprit.len() > 0 && issue.get("culprit"@) == Some(JsonView::Str(culprit)),
{
}

/// The status of a subject is done for a resolved issue, cancelled for an ignored one, and ready
/// for any other, also for one that gives no status; its native status is the issue's, unresolved
/// where it gives none; its status metadata are the issue's details of the status.
pub proof fn law_status_of_a_subject(
    issue: JsonView,
    first: Result<Timestamp, BackendErrorView>,
    last: Result<Timestamp, BackendErrorView>,
)
    requires
        subject_or_error(issue, first, last) is Ok,
    ensures
        ({
            let s = subject_or_error(issue, first, last)->Ok_0;
            let given = issue.get("status"@);
            &&& s.status == SubjectStatus::Done <==> given == Some(JsonView::Str("resolved"@))
            &&& s.status == SubjectStatus::Cancelled <==> given == Some(JsonView::Str("ignored"@))
            &&& s.status == SubjectStatus::Ready <==> given != Some(JsonView::Str("resolved"@))
                && given != Some(JsonView::Str("ignored"@))
            &&& given matches Some(JsonView::Str(native)) ==> s.native_status == Some(native)
            &&& !(given is Some && given->0 is Str) ==> s.native_status == Some("unresolved"@)
            &&& issue.get("statusDetails"@) matches Some(details) ==> s.status_metadata == details
            &&& issue.get("statusDetails"@) is None ==> s.status_metadata == JsonView::Null
        }),
{
    lemma_words();
}

/// The priority of a subject is four for a fatal issue, three for an error and for an issue that
/// gives no level, two for a warning, one for information and debugging, and none for any other
/// level.
pub proof fn law_priority_of_a_subject(
    issue: JsonView,
    first: Result<Timestamp, BackendErrorView>,
    last: Result<Timestamp, BackendErrorView>,
)
    requires
        subject_or_error(issue, first, last) is Ok,
    ensures
        ({
            let s = subject_or_error(issue, first, last)->Ok_0;
            let given = issue.get("level"@);
            &&& s.priority == Some(4u8) <==> given == Some(JsonView::Str("fatal"@))
            &&& s.priority == Some(3u8) <==> given == Some(JsonView::Str("error"@)) || !(
            given is Some && given->0 is Str)
            &&& s.priority == Some(2u8) <==> given == Some(JsonView::Str("warning"@))
            &&& s.priority == Some(1u8) <==> given == Some(JsonView::Str("info"@)) || given == Some(
                JsonView::Str("debug"@),
            )
            &&& s.priority matches Some(p) ==> 1 <= p <= 4
        }),
{
    lemma_words();
}

/// The levels from the most severe to the least.
pub open spec fn levels_by_severity() -> Seq<Seq<char>> {
    seq!["fatal"@, "error"@, "warning"@, "info"@, "debug"@]
}

/// Of two issues, the one of the more severe level has no lower a priority, and a higher one
/// unless the two levels are those for information and debugging.
pub proof fn law_priority_follows_severity(
    a: JsonView,
    b: JsonView,
    first: Result<Timestamp, BackendErrorView>,
    last: Result<Timestamp, BackendErrorView>,
    i: int,
    j: int,
)
    requires
        subject_or_error(a, first, last) is Ok,
        subject_or_error(b, first, last) is Ok,
        0 <= i < j < 5,
        a.get("level"@) == Some(JsonView::Str(levels_by_severity()[i])),
        b.get("level"@) == Some(JsonView::Str(levels_by_severity()[j])),
    ensures
        ({
            let p = subject_or_error(a, first, last)->Ok_0.priority;
            let q = subject_or_error(b, first, last)->Ok_0.priority;
            &&& p is Some
            &&& q is Some
            &&& p->0 >= q->0
            &&& i < 3 ==> p->0 > q->0
        }),
{
    lemma_words();
    let levels = levels_by_severity();
    assert(levels[0] == "fatal"@);
    assert(levels[1] == "error"@);
    assert(levels[2] == "warning"@);
    assert(levels[3] == "info"@);
    assert(levels[4] == "debug"@);
}

/// The assignee that a member names is the member where it is a text; else it is the id that the
/// member has, or where it has none the name, or where it has neither the email. One of these that
/// is there and no text gives no assignee.
pub proof fn law_assignee_of_a_member(v: JsonView)
    ensures
        assignee_in(None) == None::<Seq<char>>,
        v matches JsonView::Str(s) ==> assignee_in(Some(v)) == Some(s),
        !(v is Str) && v.get("id"@) is Some ==> assignee_in(Some(v)) == v.get("id"@)->0.as_str(),
        !(v is Str) && v.get("id"@) is None && v.get("name"@) is Some ==> assignee_in(Some(v))
            == v.get("name"@)->0.as_str(),
        !(v is Str) && v.get("id"@) is None && v.get("name"@) is None && v.get("email"@) is Some
            ==> assignee_in(Some(v)) == v.get("email"@)->0.as_str(),
        !(v is Str) && v.get("id"@) is None && v.get("name"@) is None && v.get("email"@) is None
            ==> assignee_in(Some(v)) == None::<Seq<char>>,
{
}

/// The assignee of a subject is the one that the issue's assignment names.
pub proof fn law_assignee_of_a_subject(
    issue: JsonView,
    first: Result<Timestamp, BackendErrorView>,
    last: Result<Timestamp, BackendErrorView>,
)
    requires
        subject_or_error(issue, first, last) is Ok,
    ensures
        ({
            let s = subject_or_error(issue, first, last)->Ok_0;
            let given = issue.get("assignedTo"@);
            &&& given is None ==> s.assignee is None
            &&& given matches Some(JsonView::Str(name)) ==> s.assignee == Some(name)
            &&& given is Some && !(given->0 is Str) && given->0.get("id"@) is Some ==> s.assignee
                == given->0.get("id"@)->0.as_str()
            &&& given is Some && given->0.get("id"@) is None && !(given->0 is Str)
                && given->0.get("name"@) is Some ==> s.assignee == given->0.get(
                "name"@,
            )->0.as_str()
            &&& given is Some && given->0.get("id"@) is None && !(given->0 is Str)
                && given->0.get("name"@) is None && given->0.get("email"@) is Some ==> s.assignee
                == given->0.get("email"@)->0.as_str()
            &&& given is Some && !(given->0 is Str) && given->0.get("id"@) is None
                && given->0.get("name"@) is None && given->0.get("email"@) is None
                ==> s.assignee is None
        }),
{
}

/// A count is a number as it is, or the number that a text writes; nothing else is one.
pub proof fn law_count_of_a_member(v: JsonView)
    ensures
        v matches JsonView::Uint(n) ==> count_in(v) == Some(n),
        v matches JsonView::Number(n) ==> count_in(v) == number_as_u64(n),
        v matches JsonView::Str(s) ==> count_in(v) == number_in(s),
        v is Null || v is Bool || v is Array || v is Object ==> count_in(v) is None,
{
}

/// The text that an issue's level comes to.
proof fn lemma_level(issue: JsonView) -> (level: Seq<char>)
    ensures
        issue.get("level"@) matches Some(JsonView::Str(given)) ==> level == given,
        !(issue.get("level"@) is Some && issue.get("level"@)->0 is Str) ==> level == "error"@,
        level == level_in(issue),
{
    level_in(issue)
}

/// The labels of a subject are one for the level, then one for the project where the issue names
/// one, then one for the type where the issue gives one, and no others.
pub proof fn law_labels_of_a_subject(
    issue: JsonView,
    first: Result<Timestamp, BackendErrorView>,
    last: Result<Timestamp, BackendErrorView>,
    project: Option<Seq<char>>,
)
    requires
        subject_or_error(issue, first, last) is Ok,
        names_project(issue, project),
    ensures
        ({
            let s = subject_or_error(issue, first, last)->Ok_0;
            let level = issue.get("level"@);
            let kind = issue.get("type"@);
            &&& s.labels.len() >= 1
            &&& level matches Some(JsonView::Str(given)) ==> s.labels[0] == "level:"@ + given
            &&& !(level is Some && level->0 is Str) ==> s.labels[0] == "level:"@ + "error"@
            &&& project matches Some(name) ==> s.labels.len() >= 2 && s.labels[1] == "project:"@
                + name
            &&& kind matches Some(JsonView::Str(given)) ==> s.labels[s.labels.len() - 1]
                == "type:"@ + given
            &&& project is Some && kind is Some && kind->0 is Str ==> s.labels.len() == 3
            &&& project is Some && !(kind is Some && kind->0 is Str) ==> s.labels.len() == 2
            &&& project is None && kind is Some && kind->0 is Str ==> s.labels.len() == 2
            &&& project is None && !(kind is Some && kind->0 is Str) ==> s.labels.len() == 1
        }),
{
    lemma_project(issue, project);
    let level = lemma_level(issue);
}

/// The project of an issue is called by its slug, or by its name where it has no slug; what is
/// there and no text calls it nothing.
pub open spec fn names_project(issue: JsonView, project: Option<Seq<char>>) -> bool {
    let given = issue.get("project"@);
    &&& project matches Some(name) ==> given is Some && (given->0.get("slug"@) == Some(
        JsonView::Str(name),
    ) || (given->0.get("slug"@) is None && given->0.get("name"@) == Some(JsonView::Str(name))))
    &&& project is None ==> given is None || (given->0.get("slug"@) is Some && !(given->0.get(
        "slug"@,
    )->0 is Str)) || (given->0.get("slug"@) is None && !(given->0.get("name"@) is Some
        && given->0.get("name"@)->0 is Str))
}

proof fn lemma_project(issue: JsonView, project: Option<Seq<char>>)
    requires
        names_project(issue, project),
    ensures
        project_in(issue) == project,
{
}

/// Whatever an issue holds, it names a project or none, and no two.
pub proof fn law_issue_names_at_most_one_project(
    issue: JsonView,
    a: Option<Seq<char>>,
    b: Option<Seq<char>>,
)
    ensures
        exists|project: Option<Seq<char>>| names_project(issue, project),
        names_project(issue, a) && names_project(issue, b) ==> a == b,
{
    assert(names_project(issue, project_in(issue)));
}

/// The custom fields of a subject hold the level, and the project, the short id, the number of
/// events and the number of users as far as the issue gives them, each under its own key.
pub proof fn law_custom_fields_of_a_subject(
    issue: JsonView,
    first: Result<Timestamp, BackendErrorView>,
    last: Result<Timestamp, BackendErrorView>,
    project: Option<Seq<char>>,
    key: Seq<char>,
)
    requires
        subject_or_error(issue, first, last) is Ok,
        names_project(issue, project),
    ensures
        ({
            let s = subject_or_error(issue, first, last)->Ok_0;
            let custom = JsonView::Object(s.custom);
            let level = issue.get("level"@);
            let count = issue.get("count"@);
            let users = issue.get("userCount"@);
            let short = issue.get("shortId"@);
            let other = issue.get("short_id"@);
            &&& level matches Some(JsonView::Str(given)) ==> custom.get("level"@) == Some(
                JsonView::Str(given),
            )
            &&& !(level is Some && level->0 is Str) ==> custom.get("level"@) == Some(
                JsonView::Str("error"@),
            )
            &&& project matches Some(name) ==> custom.get("project"@) == Some(JsonView::Str(name))
            &&& project is None ==> custom.get("project"@) is None
            &&& short matches Some(JsonView::Str(id)) ==> custom.get("short_id"@) == Some(
                JsonView::Str(id),
            )
            &&& short is Some && !(short->0 is Str) ==> custom.get("short_id"@) is None
            &&& short is None ==> (other matches Some(JsonView::Str(id)) ==> custom.get(
                "short_id"@,
            ) == Some(JsonView::Str(id)))
            &&& short is None && !(other is Some && other->0 is Str) ==> custom.get(
                "short_id"@,
            ) is None
            &&& count is Some && count_in(count->0) is Some ==> custom.get("count"@) == Some(
                JsonView::Uint(count_in(count->0)->0),
            )
            &&& !(count is Some && count_in(count->0) is Some) ==> custom.get("count"@) is None
            &&& users is Some && count_in(users->0) is Some ==> custom.get("user_count"@) == Some(
                JsonView::Uint(count_in(users->0)->0),
            )
            &&& !(users is Some && count_in(users->0) is Some) ==> custom.get("user_count"@) is None
            &&& key != "level"@ && key != "project"@ && key != "short_id"@ && key != "count"@ && key
                != "user_count"@ ==> custom.get(key) is None
        }),
{
    lemma_project(issue, project);
    let _ = lemma_level(issue);
    let s = subject_or_error(issue, first, last)->Ok_0;
    let c = s.custom;
    lemma_custom_keys_differ();
    let x = count_field("count"@, count_at(issue, "count"@));
    let l = Some(("level"@, JsonView::Str(level_in(issue))));
    let p = text_field("project"@, project);
    let h = text_field("short_id"@, short_id_in(issue));
    let u = count_field("user_count"@, count_at(issue, "userCount"@));
    let fields = seq![x, l, p, h, u];
    assert(c =~= optional_entries(fields)) by {
        lemma_five(x, l, p, h, u);
    }
    lemma_lookup_of_optional(fields, "count"@);
    lemma_lookup_of_optional(fields, "level"@);
    lemma_lookup_of_optional(fields, "project"@);
    lemma_lookup_of_optional(fields, "short_id"@);
    lemma_lookup_of_optional(fields, "user_count"@);
    lemma_lookup_of_optional(fields, key);
    reveal_with_fuel(first_of, 6);
    let f1 = fields.drop_first();
    let f2 = f1.drop_first();
    let f3 = f2.drop_first();
    let f4 = f3.drop_first();
    assert(fields[0] == x && f1[0] == l && f2[0] == p && f3[0] == h && f4[0] == u);
    assert(f4.drop_first().len() == 0);
}

/// The custom fields of a subject come under distinct keys, in the order of the keys.
pub proof fn law_custom_fields_of_a_subject_are_in_order(
    issue: JsonView,
    first: Result<Timestamp, BackendErrorView>,
    last: Result<Timestamp, BackendErrorView>,
    i: int,
    j: int,
)
    requires
        subject_or_error(issue, first, last) is Ok,
        0 <= i < j < subject_or_error(issue, first, last)->Ok_0.custom.len(),
    ensures
        ({
            let custom = subject_or_error(issue, first, last)->Ok_0.custom;
            &&& custom[i].0 != custom[j].0
            &&& text_before(custom[i].0, custom[j].0)
        }),
{
    law_custom_fields_are_those_of_the_schema(issue);
}

proof fn lemma_custom_keys_differ()
    ensures
        "count"@ != "level"@,
        "count"@ != "project"@,
        "count"@ != "short_id"@,
        "count"@ != "user_count"@,
        "level"@ != "project"@,
        "level"@ != "short_id"@,
        "level"@ != "user_count"@,
        "project"@ != "short_id"@,
        "project"@ != "user_count"@,
        "short_id"@ != "user_count"@,
{
    reveal_strlit("count");
    reveal_strlit("level");
    reveal_strlit("project");
    reveal_strlit("short_id");
    reveal_strlit("user_count");
    assert("count"@[0] == 'c');
    assert("level"@[0] == 'l');
    assert("project"@[0] == 'p');
    assert("short_id"@[0] == 's');
    assert("user_count"@[0] == 'u');
}

/// The entries that are there, in order.
spec fn optional_entries(fields: Seq<Option<(Seq<char>, JsonView)>>) -> Seq<(Seq<char>, JsonView)>
    decreases fields.len(),
{
    if fields.len() == 0 {
        Seq::empty()
    } else {
        at_most_one(fields[0]) + optional_entries(fields.drop_first())
    }
}

/// The value of the first entry that is there and has a key.
spec fn first_of(fields: Seq<Option<(Seq<char>, JsonView)>>, key: Seq<char>) -> Option<JsonView>
    decreases fields.len(),
{
    if fields.len() == 0 {
        None
    } else {
        match fields[0] {
            Some((k, v)) => if k == key {
                Some(v)
            } else {
                first_of(fields.drop_first(), key)
            },
            None => first_of(fields.drop_first(), key),
        }
    }
}

proof fn lemma_lookup_of_optional(fields: Seq<Option<(Seq<char>, JsonView)>>, key: Seq<char>)
    ensures
        lookup(optional_entries(fields), key) == first_of(fields, key),
    decreases fields.len(),
{
    if fields.len() > 0 {
        let rest = fields.drop_first();
        lemma_lookup_of_optional(rest, key);
        let all = optional_entries(fields);
        if let Some(entry) = fields[0] {
            assert(all[0] == entry);
            assert(all.drop_first() =~= optional_entries(rest));
        } else {
            assert(all =~= optional_entries(rest));
        }
    }
}

proof fn lemma_five(
    a: Option<(Seq<char>, JsonView)>,
    b: Option<(Seq<char>, JsonView)>,
    c: Option<(Seq<char>, JsonView)>,
    d: Option<(Seq<char>, JsonView)>,
    e: Option<(Seq<char>, JsonView)>,
)
    ensures
        optional_entries(seq![a, b, c, d, e]) == at_most_one(a)
            + at_most_one(b) + at_most_one(c)
            + at_most_one(d) + at_most_one(e),
{
    reveal_with_fuel(optional_entries, 6);
    let all = seq![a, b, c, d, e];
    let f1 = all.drop_first();
    let f2 = f1.drop_first();
    let f3 = f2.drop_first();
    let f4 = f3.drop_first();
    assert(f1[0] == b && f2[0] == c && f3[0] == d && f4[0] == e);
    assert(f4.drop_first().len() == 0);
    assert(optional_entries(all) =~= at_most_one(a) + at_most_one(b)
        + at_most_one(c) + at_most_one(d) + at_most_one(
        e,
    ));
}

/// The time of a member is the instant that its text writes; a member that is missing or no text,
/// and a text that writes none, are reported.
pub proof fn law_time_of_a_member(value: Option<JsonView>, raw: Seq<char>)
    ensures
        !(value is Some && value->0 is Str) ==> seen_in(value) == Err::<
            Timestamp,
            BackendErrorView,
        >(BackendErrorView::Other("Sentry issue missing timestamp"@)),
        value == Some(JsonView::Str(raw)) ==> (rfc3339_instant(raw) matches Ok(t) ==> seen_in(value)
            == Ok::<Timestamp, BackendErrorView>(Timestamp { secs: t.0, nanos: t.1 })),
        value == Some(JsonView::Str(raw)) ==> (rfc3339_instant(raw) matches Err(message)
            ==> seen_in(value) == Err::<Timestamp, BackendErrorView>(
            BackendErrorView::Other(message),
        )),
        rfc3339_instant(raw) matches Ok(t) ==> timestamp_in(raw) == Ok::<Timestamp, Seq<char>>(
            Timestamp { secs: t.0, nanos: t.1 },
        ),
        rfc3339_instant(raw) matches Err(message) ==> timestamp_in(raw) == Err::<
            Timestamp,
            Seq<char>,
        >(message),
{
}

/// What became of the parsing of a time is carried over; nothing parsed is a missing timestamp.
pub proof fn law_outcome_of_a_time_is_carried_over(t: Timestamp, message: Seq<char>)
    ensures
        seen_or_error(Some(Ok(t))) == Ok::<Timestamp, BackendErrorView>(t),
        seen_or_error(Some(Err(message))) == Err::<Timestamp, BackendErrorView>(
            BackendErrorView::Other(message),
        ),
        seen_or_error(None) == Err::<Timestamp, BackendErrorView>(
            BackendErrorView::Other("Sentry issue missing timestamp"@),
        ),
{
}

/// The subject of an issue is the one of the times that its two members give: the first sighting
/// is when it was created, the last one when it was updated.
pub proof fn law_times_of_a_subject(issue: JsonView)
    ensures
        subject_in(issue) == subject_or_error(
            issue,
            seen_in(issue.get("firstSeen"@)),
            seen_in(issue.get("lastSeen"@)),
        ),
        subject_in(issue) matches Ok(s) ==> {
            &&& issue.get("firstSeen"@) matches Some(JsonView::Str(raw)) && rfc3339_instant(raw)
                == Ok::<(i64, u32), Seq<char>>((s.created_at.secs, s.created_at.nanos))
            &&& issue.get("lastSeen"@) matches Some(JsonView::Str(raw)) && rfc3339_instant(raw)
                == Ok::<(i64, u32), Seq<char>>((s.updated_at.secs, s.updated_at.nanos))
        },
{
}

/// The members of an issue that its subject is made of.
pub open spec fn read_members() -> Set<Seq<char>> {
    set![
        "id"@, "status"@, "level"@, "project"@, "shortId"@, "short_id"@, "type"@, "count"@,
        "userCount"@, "title"@, "metadata"@, "culprit"@, "assignedTo"@, "permalink"@,
        "firstSeen"@, "lastSeen"@, "statusDetails"@
    ]
}

/// Issues that agree on these members have the same subject, whatever else they hold.
pub proof fn law_other_members_do_not_matter(a: JsonView, b: JsonView)
    requires
        forall|key: Seq<char>| #[trigger]
            read_members().contains(key) ==> a.get(key) == b.get(key),
    ensures
        subject_in(a) == subject_in(b),
{
    let keys = read_members();
    assert(keys.contains("id"@));
    assert(keys.contains("status"@));
    assert(keys.contains("level"@));
    assert(keys.contains("project"@));
    assert(keys.contains("shortId"@));
    assert(keys.contains("short_id"@));
    assert(keys.contains("type"@));
    assert(keys.contains("count"@));
    assert(keys.contains("userCount"@));
    assert(keys.contains("title"@));
    assert(keys.contains("metadata"@));
    assert(keys.contains("culprit"@));
    assert(keys.contains("assignedTo"@));
    assert(keys.contains("permalink"@));
    assert(keys.contains("firstSeen"@));
    assert(keys.contains("lastSeen"@));
    assert(keys.contains("statusDetails"@));
    assert(seen_in(a.get("firstSeen"@)) == seen_in(b.get("firstSeen"@)));
    assert(seen_in(a.get("lastSeen"@)) == seen_in(b.get("lastSeen"@)));
    assert(labels_in(a) == labels_in(b));
    assert(custom_in(a) == custom_in(b));
}

/// The schema lists every status, one kind, and the keys of the custom fields and no others; it
/// offers no pages, and no listing has a next one.
pub proof fn law_schema_lists_what_there_is(
    status: SubjectStatus,
    key: Seq<char>,
    value: JsonView,
    filter: SubjectFilterView,
    t: Timestamp,
)
    ensures
        sentry_schema().status_values.contains(status),
        sentry_schema().kinds == seq!["incident"@],
        (exists|k: int|
            0 <= k < sentry_schema().custom_fields.len() && (
            #[trigger] sentry_schema().custom_fields[k]).key == key) <==> key == "level"@ || key
            == "project"@ || key == "short_id"@ || key == "count"@ || key == "user_count"@,
        !sentry_schema().supports_pagination,
        listing_in(value, filter, t) matches Ok(list) ==> list.next_cursor is None,
        !sentry_schema().supports_watch,
        !sentry_schema().supports_create,
        !sentry_schema().supports_delete,
{
    let values = sentry_schema().status_values;
    assert(values[0] == SubjectStatus::Ready);
    assert(values[1] == SubjectStatus::InProgress);
    assert(values[2] == SubjectStatus::Blocked);
    assert(values[3] == SubjectStatus::Done);
    assert(values[4] == SubjectStatus::Cancelled);
    let fields = sentry_schema().custom_fields;
    assert(fields[0].key == "level"@);
    assert(fields[1].key == "project"@);
    assert(fields[2].key == "short_id"@);
    assert(fields[3].key == "count"@);
    assert(fields[4].key == "user_count"@);
}

}
