//! What holds of the backend across its operations.

use vstd::prelude::*;

use crate::backend::{
    collected, encoded_query, fault_of_patch, fetch_for, first_step, get_for, health_of, issue_path,
    limit_of, list_for, list_params, list_path, listing_in, next_step, patch_members, query_of,
    read_step, request_for, slug_of, subject_from, UpdatePhase, UpdateProgressView, UpdateStepView,
};
use crate::config::{config_of, or_default, EnvVarsView, SentryConfigView};
use crate::filter::{is_open, matching, meets, query_of_statuses};
use crate::http::{fault_of_status, value_of_exchange, ExchangeView, HttpRequestView, Method};
use crate::issue::{
    at_most_one, count_in, custom_in, labels_in, level_in, native_of_status, native_status_in,
    prefixed, priority_of_level, status_of_native, subject_in,
};
use crate::json::{distinct_keys, JsonView};
use crate::native_id::{law_subject_id_round_trip, parsed_id};
use crate::percent::{law_encoded_text_is_inert, law_encoding_is_injective, percent_encoded};
use crate::protocol::{
    BackendErrorView, CustomFieldKind, HealthStatus, SubjectFilterView, SubjectPatchView,
    SubjectStatus, SubjectView, Timestamp,
};
use crate::schema::sentry_schema;
use crate::text::{
    decimal, digit_char, digits_value, is_digit, is_white_space, joined,
    law_split_is_undone_by_joining, law_trailing_run_is_gone, law_trimmed_text_has_no_outer_space,
    split_on, trimmed, without_leading_space, without_plus, without_trailing_space,
};

verus! {

/// The three native statuses are different words.
proof fn lemma_native_statuses_differ()
    ensures
        "resolved"@ != "ignored"@,
        "resolved"@ != "unresolved"@,
        "ignored"@ != "unresolved"@,
{
    reveal_strlit("resolved");
    reveal_strlit("ignored");
    reveal_strlit("unresolved");
    assert("resolved"@.len() == 8);
    assert("ignored"@.len() == 7);
    assert("unresolved"@.len() == 10);
}

/// A status that is written to an issue reads back as itself where it is done or cancelled, and as
/// ready where it is one of the three open ones, for Sentry has one word for those.
pub proof fn law_written_status_reads_back(status: SubjectStatus)
    ensures
        status_of_native(native_of_status(status)) == (if is_open(status) {
            SubjectStatus::Ready
        } else {
            status
        }),
{
    lemma_native_statuses_differ();
}

/// An issue that holds the native status of a written status is a subject of the status that
/// this status reads back as.
pub proof fn law_updated_issue_has_the_status(issue: JsonView, status: SubjectStatus)
    requires
        subject_in(issue) is Ok,
        issue.str_at("status"@) == Some(native_of_status(status)),
    ensures
        subject_in(issue)->Ok_0.status == (if is_open(status) {
            SubjectStatus::Ready
        } else {
            status
        }),
        subject_in(issue)->Ok_0.native_status == Some(native_of_status(status)),
{
    law_written_status_reads_back(status);
}

/// What an update writes shows when the subject is read back: of an issue that holds every member
/// of the change as it was written, the subject has the assignee that the patch gives, or none
/// where the patch takes it away, and the status that the patch gives, an open one as ready.
pub proof fn law_change_shows_when_read_back(patch: SubjectPatchView, issue: JsonView)
    requires
        subject_in(issue) is Ok,
        forall|i: int|
            0 <= i < patch_members(patch).len() ==> issue.get(
                (#[trigger] patch_members(patch)[i]).0,
            ) == Some(patch_members(patch)[i].1),
    ensures
        patch.assignee matches Some(assignee) ==> subject_in(issue)->Ok_0.assignee == assignee,
        patch.status matches Some(status) ==> subject_in(issue)->Ok_0.status == (if is_open(
            status,
        ) {
            SubjectStatus::Ready
        } else {
            status
        }),
{
    let members = patch_members(patch);
    if patch.assignee is Some {
        assert(issue.get(members[0].0) == Some(members[0].1));
    }
    if let Some(status) = patch.status {
        assert(issue.get(members[members.len() - 1].0) == Some(members[members.len() - 1].1));
        law_updated_issue_has_the_status(issue, status);
    }
}

/// Every status is written as a native status that the schema lists, and each native status that
/// the schema lists is written back as itself.
pub proof fn law_native_statuses_are_those_of_the_schema(status: SubjectStatus, i: int)
    requires
        0 <= i < sentry_schema().native_status_values.len(),
    ensures
        sentry_schema().native_status_values.contains(native_of_status(status)),
        native_of_status(status_of_native(sentry_schema().native_status_values[i]))
            == sentry_schema().native_status_values[i],
{
    lemma_native_statuses_differ();
    let values = sentry_schema().native_status_values;
    assert(values[0] == "unresolved"@);
    assert(values[1] == "resolved"@);
    assert(values[2] == "ignored"@);
}

proof fn lemma_queries()
    ensures
        "is:resolved"@ == "is:"@ + "resolved"@,
        "is:ignored"@ == "is:"@ + "ignored"@,
        "is:unresolved"@ == "is:"@ + "unresolved"@,
{
    reveal_strlit("is:");
    reveal_strlit("resolved");
    reveal_strlit("ignored");
    reveal_strlit("unresolved");
    reveal_strlit("is:resolved");
    reveal_strlit("is:ignored");
    reveal_strlit("is:unresolved");
}

/// The statuses that are asked for give a search query if and only if there are some and all of
/// them have one native status; the query then asks for that one.
pub proof fn law_query_asks_for_the_one_native_status(statuses: Seq<SubjectStatus>)
    ensures
        query_of_statuses(statuses) is Some <==> statuses.len() > 0 && forall|i: int|
            0 <= i < statuses.len() ==> native_of_status(#[trigger] statuses[i])
                == native_of_status(statuses[0]),
        query_of_statuses(statuses) is Some ==> query_of_statuses(statuses)->0 == "is:"@
            + native_of_status(statuses[0]),
{
    lemma_native_statuses_differ();
    lemma_queries();
    if statuses.len() > 0 {
        if forall|i: int|
            0 <= i < statuses.len() ==> native_of_status(#[trigger] statuses[i])
                == native_of_status(statuses[0]) {
            match statuses[0] {
                SubjectStatus::Done => {
                    assert(forall|i: int|
                        0 <= i < statuses.len() ==> #[trigger] statuses[i] == SubjectStatus::Done);
                },
                SubjectStatus::Cancelled => {
                    assert(forall|i: int|
                        0 <= i < statuses.len() ==> #[trigger] statuses[i]
                            == SubjectStatus::Cancelled);
                },
                _ => {
                    assert(forall|i: int|
                        0 <= i < statuses.len() ==> is_open(#[trigger] statuses[i]));
                },
            }
        }
    }
}

/// The search query that the statuses asked for give leaves out no issue that they ask for: an
/// issue of a listed native status whose subject has one of the statuses has the native status
/// that the query asks for.
pub proof fn law_query_leaves_no_wanted_issue_out(
    statuses: Seq<SubjectStatus>,
    issue: JsonView,
)
    requires
        query_of_statuses(statuses) is Some,
        sentry_schema().native_status_values.contains(native_status_in(issue)),
        statuses.contains(status_of_native(native_status_in(issue))),
    ensures
        query_of_statuses(statuses)->0 == "is:"@ + native_status_in(issue),
{
    let native = native_status_in(issue);
    let i = choose|i: int|
        0 <= i < sentry_schema().native_status_values.len()
            && sentry_schema().native_status_values[i] == native;
    law_native_statuses_are_those_of_the_schema(SubjectStatus::Ready, i);
    law_query_asks_for_the_one_native_status(statuses);
    let k = choose|k: int|
        0 <= k < statuses.len() && statuses[k] == status_of_native(native);
    assert(native_of_status(statuses[k]) == native_of_status(statuses[0]));
}

/// A text comes before another in the order of their characters.
pub open spec fn text_before(a: Seq<char>, b: Seq<char>) -> bool {
    exists|k: int|
        #![trigger a.take(k)]
        0 <= k <= a.len() && k < b.len() && a.take(k) == b.take(k) && (k == a.len() || (a[k] as u32)
            < (b[k] as u32))
}

proof fn lemma_text_before_by_first(a: Seq<char>, b: Seq<char>)
    requires
        a.len() > 0,
        b.len() > 0,
        (a[0] as u32) < (b[0] as u32),
    ensures
        text_before(a, b),
        a != b,
{
    assert(a.take(0) == b.take(0));
}

/// The keys that custom fields can have, in their order.
pub open spec fn custom_keys() -> Seq<Seq<char>> {
    seq!["count"@, "level"@, "project"@, "short_id"@, "user_count"@]
}

proof fn lemma_custom_keys_ascend()
    ensures
        forall|i: int, j: int|
            0 <= i < j < 5 ==> text_before(#[trigger] custom_keys()[i], #[trigger] custom_keys()[j])
                && custom_keys()[i] != custom_keys()[j],
{
    reveal_strlit("count");
    reveal_strlit("level");
    reveal_strlit("project");
    reveal_strlit("short_id");
    reveal_strlit("user_count");
    let keys = custom_keys();
    assert forall|i: int, j: int| 0 <= i < j < 5 implies text_before(
        #[trigger] keys[i],
        #[trigger] keys[j],
    ) && keys[i] != keys[j] by {
        lemma_text_before_by_first(keys[i], keys[j]);
    }
}

/// The custom fields of an issue come under distinct keys, in the order of the keys, and each is
/// a field of the schema with a value of the kind that the schema gives it.
pub proof fn law_custom_fields_are_those_of_the_schema(issue: JsonView)
    ensures
        distinct_keys(custom_in(issue)),
        forall|i: int, j: int|
            0 <= i < j < custom_in(issue).len() ==> text_before(
                (#[trigger] custom_in(issue)[i]).0,
                (#[trigger] custom_in(issue)[j]).0,
            ),
        forall|i: int|
            0 <= i < custom_in(issue).len() ==> exists|k: int|
                0 <= k < sentry_schema().custom_fields.len() && (
                #[trigger] sentry_schema().custom_fields[k]).key == (
                #[trigger] custom_in(issue)[i]).0 && match sentry_schema().custom_fields[k].kind {
                    CustomFieldKind::String => custom_in(issue)[i].1 is Str,
                    CustomFieldKind::Number => custom_in(issue)[i].1 is Uint,
                },
{
    lemma_custom_keys_ascend();
    let keys = custom_keys();
    let custom = custom_in(issue);
    let fields = sentry_schema().custom_fields;
    assert(fields[0].key == keys[1]);
    assert(fields[1].key == keys[2]);
    assert(fields[2].key == keys[3]);
    assert(fields[3].key == keys[0]);
    assert(fields[4].key == keys[4]);
    let c = at_most_one(
        crate::issue::count_field("count"@, crate::issue::count_at(issue, "count"@)),
    );
    let p = at_most_one(
        crate::issue::text_field("project"@, crate::issue::project_in(issue)),
    );
    let s = at_most_one(
        crate::issue::text_field("short_id"@, crate::issue::short_id_in(issue)),
    );
    let u = at_most_one(
        crate::issue::count_field("user_count"@, crate::issue::count_at(issue, "userCount"@)),
    );
    let l = seq![("level"@, JsonView::Str(level_in(issue)))];
    assert(custom == c + l + p + s + u);
    let rank = |i: int|
        if i < c.len() {
            0int
        } else if i < c.len() + 1 {
            1int
        } else if i < c.len() + 1 + p.len() {
            2int
        } else if i < c.len() + 1 + p.len() + s.len() {
            3int
        } else {
            4int
        };
    assert forall|i: int| 0 <= i < custom.len() implies (#[trigger] custom[i]).0 == keys[rank(i)]
        && (if rank(i) == 0 || rank(i) == 4 {
        custom[i].1 is Uint
    } else {
        custom[i].1 is Str
    }) by {
        if i < c.len() {
            assert(custom[i] == c[i]);
        } else if i < c.len() + 1 {
            assert(custom[i] == l[0]);
        } else if i < c.len() + 1 + p.len() {
            assert(custom[i] == p[i - c.len() - 1]);
        } else if i < c.len() + 1 + p.len() + s.len() {
            assert(custom[i] == s[i - c.len() - 1 - p.len()]);
        } else {
            assert(custom[i] == u[i - c.len() - 1 - p.len() - s.len()]);
        }
    }
    assert forall|i: int, j: int| 0 <= i < j < custom.len() implies text_before(
        (#[trigger] custom[i]).0,
        (#[trigger] custom[j]).0,
    ) && custom[i].0 != custom[j].0 by {
        assert(rank(i) < rank(j));
        assert(custom[i].0 == keys[rank(i)]);
        assert(custom[j].0 == keys[rank(j)]);
    }
    assert forall|i: int| 0 <= i < custom.len() implies exists|k: int|
        0 <= k < fields.len() && (#[trigger] fields[k]).key == (#[trigger] custom[i]).0
            && match fields[k].kind {
            CustomFieldKind::String => custom[i].1 is Str,
            CustomFieldKind::Number => custom[i].1 is Uint,
        } by {
        let k: int = if rank(i) == 0 {
            3
        } else if rank(i) == 4 {
            4
        } else {
            rank(i) - 1
        };
        assert(custom[i].0 == keys[rank(i)]);
        assert(fields[k].key == custom[i].0);
    }
}

/// A subject of an issue is of the kind, and in one of the statuses, that the schema lists; its
/// priority lies between one and four; and its first label gives its level.
pub proof fn law_subject_conforms_to_schema(issue: JsonView)
    requires
        subject_in(issue) is Ok,
    ensures
        sentry_schema().kinds.contains(subject_in(issue)->Ok_0.kind),
        sentry_schema().status_values.contains(subject_in(issue)->Ok_0.status),
        subject_in(issue)->Ok_0.priority is Some ==> 1 <= subject_in(issue)->Ok_0.priority->0 <= 4,
        subject_in(issue)->Ok_0.labels.len() > 0,
        subject_in(issue)->Ok_0.labels[0] == "level:"@ + level_in(issue),
{
    let s = subject_in(issue)->Ok_0;
    assert(sentry_schema().kinds[0] == s.kind);
    let values = sentry_schema().status_values;
    assert(values[0] == SubjectStatus::Ready);
    assert(values[3] == SubjectStatus::Done);
    assert(values[4] == SubjectStatus::Cancelled);
    assert(labels_in(issue)[0] == "level:"@ + level_in(issue));
}

/// The priority of a level is given if and only if the schema lists the level.
pub proof fn law_priority_is_given_to_listed_levels(level: Seq<char>)
    ensures
        priority_of_level(level) is Some
            <==> sentry_schema().custom_fields[0].values->0.contains(level),
{
    let levels = sentry_schema().custom_fields[0].values->0;
    assert(levels[0] == "fatal"@);
    assert(levels[1] == "error"@);
    assert(levels[2] == "warning"@);
    assert(levels[3] == "info"@);
    assert(levels[4] == "debug"@);
}

pub(crate) proof fn lemma_decimal_is_digits(n: nat)
    ensures
        decimal(n).len() > 0,
        forall|i: int| 0 <= i < decimal(n).len() ==> is_digit(#[trigger] decimal(n)[i]),
        digits_value(decimal(n)) == n,
    decreases n,
{
    if n < 10 {
        assert(decimal(n).drop_last() == Seq::<char>::empty());
        assert(digits_value(Seq::<char>::empty()) == 0);
        assert(decimal(n).last() == digit_char(n));
        assert(digit_char(n) as u32 == 0x30 + n);
    } else {
        lemma_decimal_is_digits(n / 10);
        assert(decimal(n).drop_last() == decimal(n / 10));
        assert(digit_char(n % 10) as u32 == 0x30 + n % 10);
    }
}

/// A count reads the same whether an issue gives it as a number or as the decimal text of it.
pub proof fn law_count_reads_the_same_as_text(n: u64)
    ensures
        count_in(JsonView::Str(decimal(n as nat))) == Some(n),
        count_in(JsonView::Uint(n)) == Some(n),
{
    lemma_decimal_is_digits(n as nat);
    let s = decimal(n as nat);
    assert(is_digit(s[0]));
    assert('+' as u32 == 0x2B);
    assert(without_plus(s) == s);
}

/// Collecting succeeds if and only if every result is a success, and keeps their number and order.
pub(crate) proof fn lemma_collected(results: Seq<Result<SubjectView, BackendErrorView>>)
    ensures
        collected(results) is Ok <==> forall|i: int|
            0 <= i < results.len() ==> (#[trigger] results[i]) is Ok,
        collected(results) is Ok ==> collected(results)->Ok_0.len() == results.len() && forall|
            i: int,
        |
            0 <= i < results.len() ==> results[i] == Ok::<SubjectView, BackendErrorView>(
                #[trigger] collected(results)->Ok_0[i],
            ),
        collected(results) is Err ==> exists|i: int|
            0 <= i < results.len() && #[trigger] results[i] == Err::<SubjectView, BackendErrorView>(
                collected(results)->Err_0,
            ) && forall|j: int| 0 <= j < i ==> (#[trigger] results[j]) is Ok,
    decreases results.len(),
{
    if results.len() > 0 {
        let front = results.drop_last();
        let n = results.len() - 1;
        lemma_collected(front);
        assert(forall|i: int| 0 <= i < n ==> #[trigger] results[i] == front[i]);
        assert(results[n] == results.last());
        if collected(front) is Err {
            let i = choose|i: int|
                0 <= i < front.len() && #[trigger] front[i] == Err::<SubjectView, BackendErrorView>(
                    collected(front)->Err_0,
                ) && forall|j: int| 0 <= j < i ==> (#[trigger] front[j]) is Ok;
            assert(results[i] == front[i]);
            assert(forall|j: int| 0 <= j < i ==> #[trigger] results[j] == front[j]);
        } else if results.last() is Err {
            assert(forall|j: int| 0 <= j < n ==> (#[trigger] front[j]) is Ok);
            assert(forall|j: int| 0 <= j < n ==> (#[trigger] results[j]) is Ok);
            assert(results[n] is Err);
        } else {
            let subjects = collected(results)->Ok_0;
            assert forall|i: int| 0 <= i < results.len() implies results[i] == Ok::<
                SubjectView,
                BackendErrorView,
            >(#[trigger] subjects[i]) by {
                if i < n {
                    assert(subjects[i] == collected(front)->Ok_0[i]);
                }
            }
        }
    }
}

/// What a filter keeps of a sequence: members of it that pass, and all of them.
pub(crate) proof fn lemma_matching(subjects: Seq<SubjectView>, filter: SubjectFilterView)
    ensures
        forall|i: int|
            0 <= i < matching(subjects, filter).len() ==> meets(
                #[trigger] matching(subjects, filter)[i],
                filter,
            ) && subjects.contains(matching(subjects, filter)[i]),
        forall|i: int|
            0 <= i < subjects.len() && meets(#[trigger] subjects[i], filter) ==> matching(
                subjects,
                filter,
            ).contains(subjects[i]),
    decreases subjects.len(),
{
    broadcast use vstd::seq_lib::group_seq_properties;

    reveal(Seq::filter);
    let kept = matching(subjects, filter);
    if subjects.len() > 0 {
        let front = subjects.drop_last();
        let before = matching(front, filter);
        lemma_matching(front, filter);
        assert forall|i: int| 0 <= i < kept.len() implies meets(#[trigger] kept[i], filter)
            && subjects.contains(kept[i]) by {
            if i < before.len() {
                assert(kept[i] == before[i]);
                let k = choose|k: int| 0 <= k < front.len() && front[k] == before[i];
                assert(subjects[k] == kept[i]);
            } else {
                assert(kept[i] == subjects[subjects.len() - 1]);
            }
        }
        assert forall|i: int| 0 <= i < subjects.len() && meets(
            #[trigger] subjects[i],
            filter,
        ) implies kept.contains(subjects[i]) by {
            if i < front.len() {
                assert(front[i] == subjects[i]);
                let k = choose|k: int| 0 <= k < before.len() && before[k] == front[i];
                assert(kept[k] == subjects[i]);
            } else {
                assert(kept[kept.len() - 1] == subjects[i]);
            }
        }
    }
}

/// A listing succeeds if and only if every issue of the array is a subject. It then holds nothing
/// but subjects of issues that meet the filter, and every one of these; where an issue is none,
/// the listing fails with the error of the first such issue.
pub proof fn law_listing_holds_what_was_asked_for(
    issues: Seq<JsonView>,
    filter: SubjectFilterView,
    fetched_at: Timestamp,
)
    ensures
        listing_in(JsonView::Array(issues), filter, fetched_at) is Ok <==> forall|i: int|
            0 <= i < issues.len() ==> subject_in(#[trigger] issues[i]) is Ok,
        listing_in(JsonView::Array(issues), filter, fetched_at) matches Ok(list) ==> {
            &&& forall|k: int|
                0 <= k < list.subjects.len() ==> meets(#[trigger] list.subjects[k], filter)
                    && exists|i: int|
                    0 <= i < issues.len() && subject_in(#[trigger] issues[i]) == Ok::<
                        SubjectView,
                        BackendErrorView,
                    >(list.subjects[k])
            &&& forall|i: int|
                0 <= i < issues.len() && meets(
                    subject_in(#[trigger] issues[i])->Ok_0,
                    filter,
                ) ==> list.subjects.contains(subject_in(issues[i])->Ok_0)
        },
        listing_in(JsonView::Array(issues), filter, fetched_at) matches Err(e) ==> exists|i: int|
            0 <= i < issues.len() && subject_in(#[trigger] issues[i]) == Err::<
                SubjectView,
                BackendErrorView,
            >(e) && forall|j: int| 0 <= j < i ==> subject_in(#[trigger] issues[j]) is Ok,
{
    let results = issues.map_values(|issue: JsonView| subject_in(issue));
    let outcome = listing_in(JsonView::Array(issues), filter, fetched_at);
    lemma_collected(results);
    assert(forall|i: int| 0 <= i < issues.len() ==> #[trigger] results[i] == subject_in(issues[i]));
    if forall|i: int| 0 <= i < issues.len() ==> subject_in(#[trigger] issues[i]) is Ok {
        assert(forall|i: int| 0 <= i < results.len() ==> (#[trigger] results[i]) is Ok);
    }
    if outcome is Ok {
        let all = collected(results)->Ok_0;
        let list = outcome->Ok_0;
        lemma_matching(all, filter);
        assert forall|i: int| 0 <= i < issues.len() implies subject_in(
            #[trigger] issues[i],
        ) is Ok by {
            assert(results[i] is Ok);
        }
        assert forall|k: int| 0 <= k < list.subjects.len() implies meets(
            #[trigger] list.subjects[k],
            filter,
        ) && exists|i: int|
            0 <= i < issues.len() && subject_in(#[trigger] issues[i]) == Ok::<
                SubjectView,
                BackendErrorView,
            >(list.subjects[k]) by {
            let i = choose|i: int| 0 <= i < all.len() && all[i] == list.subjects[k];
            assert(results[i] == Ok::<SubjectView, BackendErrorView>(all[i]));
            assert(subject_in(issues[i]) == results[i]);
        }
        assert forall|i: int| 0 <= i < issues.len() && meets(
            subject_in(#[trigger] issues[i])->Ok_0,
            filter,
        ) implies list.subjects.contains(subject_in(issues[i])->Ok_0) by {
            assert(results[i] == Ok::<SubjectView, BackendErrorView>(all[i]));
        }
    } else {
        let i = choose|i: int|
            0 <= i < results.len() && #[trigger] results[i] == Err::<SubjectView, BackendErrorView>(
                collected(results)->Err_0,
            ) && forall|j: int| 0 <= j < i ==> (#[trigger] results[j]) is Ok;
        assert(subject_in(issues[i]) == results[i]);
        assert forall|j: int| 0 <= j < i implies subject_in(#[trigger] issues[j]) is Ok by {
            assert(results[j] is Ok);
        }
    }
}

/// A filter without criteria lists the subject of every issue, in the order of the issues.
pub proof fn law_filter_without_criteria_keeps_all(
    subjects: Seq<SubjectView>,
    filter: SubjectFilterView,
)
    requires
        filter.kind.len() == 0,
        filter.status.len() == 0,
        filter.assignee.len() == 0,
        filter.labels_any.len() == 0,
        filter.labels_all.len() == 0,
        filter.updated_since is None,
    ensures
        matching(subjects, filter) == subjects,
    decreases subjects.len(),
{
    reveal(Seq::filter);
    if subjects.len() > 0 {
        law_filter_without_criteria_keeps_all(subjects.drop_last(), filter);
        assert(subjects == subjects.drop_last().push(subjects.last()));
    }
}

/// A filter that asks for kinds and not for incidents lists nothing.
pub proof fn law_only_incidents_are_listed(
    value: JsonView,
    filter: SubjectFilterView,
    fetched_at: Timestamp,
)
    requires
        filter.kind.len() > 0,
        !filter.kind.contains("incident"@),
    ensures
        listing_in(value, filter, fetched_at) matches Ok(list) ==> list.subjects.len() == 0,
{
    if let JsonView::Array(issues) = value {
        law_listing_holds_what_was_asked_for(issues, filter, fetched_at);
        if let Ok(list) = listing_in(value, filter, fetched_at) {
            if list.subjects.len() > 0 {
                assert(meets(list.subjects[0], filter));
            }
        }
    }
}

/// The id of a subject leads back to its issue: to get the subject is to fetch the issue of the
/// id that the issue gave. The empty issue id is left out; a subject id that ends there is
/// refused.
pub proof fn law_subject_id_leads_to_its_issue(config: SentryConfigView, issue: JsonView)
    requires
        subject_in(issue) is Ok,
        issue.str_at("id"@)->0.len() > 0,
    ensures
        get_for(config, subject_in(issue)->Ok_0.id) == fetch_for(config, issue.str_at("id"@)->0),
{
    law_subject_id_round_trip(issue.str_at("id"@)->0);
}

/// Two texts that go on differently behind one front are different.
proof fn lemma_same_front(front: Seq<char>, a: Seq<char>, b: Seq<char>)
    requires
        front + a == front + b,
    ensures
        a == b,
{
    assert(a =~= (front + a).skip(front.len() as int));
    assert(b =~= (front + b).skip(front.len() as int));
}

/// Texts without a separator, each followed by that separator, are told apart by where it stands.
proof fn lemma_cut_at_separator(
    a: Seq<char>,
    x: Seq<char>,
    b: Seq<char>,
    y: Seq<char>,
    sep: char,
)
    requires
        !a.contains(sep),
        !b.contains(sep),
        a + (seq![sep] + x) == b + (seq![sep] + y),
    ensures
        a == b,
        x == y,
{
    let left = a + (seq![sep] + x);
    let right = b + (seq![sep] + y);
    if a.len() < b.len() {
        assert(left[a.len() as int] == sep);
        assert(right[a.len() as int] == b[a.len() as int]);
        assert(b.contains(sep));
    }
    if b.len() < a.len() {
        assert(right[b.len() as int] == sep);
        assert(left[b.len() as int] == a[b.len() as int]);
        assert(a.contains(sep));
    }
    assert(a =~= left.take(a.len() as int));
    assert(b =~= right.take(b.len() as int));
    lemma_same_front(a, seq![sep] + x, seq![sep] + y);
    lemma_same_front(seq![sep], x, y);
}

/// Every issue of every organization has a path of its own.
pub proof fn law_issue_paths_are_distinct(
    slug1: Seq<char>,
    id1: Seq<char>,
    slug2: Seq<char>,
    id2: Seq<char>,
)
    requires
        issue_path(slug1, id1) == issue_path(slug2, id2),
    ensures
        slug1 == slug2,
        id1 == id2,
{
    let front = "/organizations/"@;
    let a = percent_encoded(slug1);
    let b = percent_encoded(slug2);
    let x = percent_encoded(id1);
    let y = percent_encoded(id2);
    reveal_strlit("/issues/");
    reveal_strlit("/");
    let rest = "/issues/"@.skip(1);
    assert("/issues/"@ == seq!['/'] + rest);
    assert("/"@ == seq!['/'] + Seq::<char>::empty());
    let left = a + (seq!['/'] + (rest + (x + (seq!['/'] + Seq::<char>::empty()))));
    let right = b + (seq!['/'] + (rest + (y + (seq!['/'] + Seq::<char>::empty()))));
    assert(issue_path(slug1, id1) =~= front + left);
    assert(issue_path(slug2, id2) =~= front + right);
    lemma_same_front(front, left, right);
    law_encoded_text_is_inert(slug1);
    law_encoded_text_is_inert(slug2);
    law_encoded_text_is_inert(id1);
    law_encoded_text_is_inert(id2);
    lemma_cut_at_separator(
        a,
        rest + (x + (seq!['/'] + Seq::<char>::empty())),
        b,
        rest + (y + (seq!['/'] + Seq::<char>::empty())),
        '/',
    );
    lemma_same_front(
        rest,
        x + (seq!['/'] + Seq::<char>::empty()),
        y + (seq!['/'] + Seq::<char>::empty()),
    );
    lemma_cut_at_separator(x, Seq::empty(), y, Seq::empty(), '/');
    law_encoding_is_injective(slug1, slug2);
    law_encoding_is_injective(id1, id2);
}

/// A listing asks for at least one issue and at most a hundred, and for as many as the filter
/// says where that lies between.
pub proof fn law_limit_is_in_bounds(limit: Option<u32>)
    ensures
        1 <= limit_of(limit) <= 100,
        limit matches Some(n) ==> (1 <= n <= 100 ==> limit_of(limit) == n),
        limit is None ==> limit_of(limit) == 50,
{
}

/// A backend is healthy if and only if it can make its requests: a listing with any filter, the
/// getting of any subject whose id is well shaped, and the updating of such a subject with any
/// patch that is not refused. It names something missing if and only if
/// it is not healthy.
pub proof fn law_health_says_whether_requests_can_be_made(
    config: SentryConfigView,
    filter: SubjectFilterView,
    id: Seq<char>,
    patch: SubjectPatchView,
)
    ensures
        health_of(config).status == HealthStatus::Healthy <==> list_for(config, filter) is Ok,
        parsed_id(id) is Ok ==> (health_of(config).status == HealthStatus::Healthy <==> get_for(
            config,
            id,
        ) is Ok),
        parsed_id(id) is Ok && fault_of_patch(patch) is None ==> (health_of(config).status
            == HealthStatus::Healthy <==> first_step(config, id, patch) is Ok),
        health_of(config).status == HealthStatus::Healthy <==> health_of(config).last_error is None,
{
}

/// A request goes to its path below the base of the API, with the configured token.
pub proof fn law_requests_are_authorized(
    config: SentryConfigView,
    method: Method,
    path: Seq<char>,
    body: Option<JsonView>,
)
    ensures
        request_for(config, method, path, body) matches Ok(request) ==> {
            &&& config.auth_token == Some(request.bearer_token)
            &&& request.url == config.api_base + path
            &&& request.path == path
            &&& request.method == method
            &&& request.body == body
        },
        request_for(config, method, path, body) is Ok <==> config.auth_token is Some,
{
}

/// A patch that touches labels or carries a comment is refused before anything is sent, whatever
/// the configuration and the subject.
pub proof fn law_refused_patch_sends_nothing(
    config: SentryConfigView,
    id: Seq<char>,
    patch: SubjectPatchView,
)
    requires
        patch.labels_add.len() > 0 || patch.labels_remove.len() > 0 || (patch.comment is Some
            && patch.comment->0.len() > 0),
    ensures
        first_step(config, id, patch) matches Err(e) && e is InvalidRequest,
{
}

/// An update that changes nothing starts, and with its answer ends, as a get does.
pub proof fn law_update_without_changes_is_a_get(
    config: SentryConfigView,
    id: Seq<char>,
    patch: SubjectPatchView,
)
    requires
        fault_of_patch(patch) is None,
        patch.status is None,
        patch.assignee is None,
    ensures
        first_step(config, id, patch) == read_step(config, id),
        first_step(config, id, patch) matches Ok(step) ==> get_for(config, id) == Ok::<
            HttpRequestView,
            BackendErrorView,
        >(step.request) && step.phase == UpdatePhase::Read,
{
}

/// An update that changes something first writes to the path of the subject's issue: an object
/// under distinct keys, with the native status and the assignee that the patch gives.
pub proof fn law_update_writes_the_patch(
    config: SentryConfigView,
    id: Seq<char>,
    patch: SubjectPatchView,
)
    requires
        patch.status is Some || patch.assignee is Some,
    ensures
        first_step(config, id, patch) matches Ok(step) ==> {
            &&& step.phase == UpdatePhase::Write
            &&& step.request.method == Method::Put
            &&& step.request.path == issue_path(slug_of(config)->Ok_0, parsed_id(id)->Ok_0)
            &&& step.request.body matches Some(body) && body.well_formed() && body.get("status"@)
                == (match patch.status {
                Some(status) => Some(JsonView::Str(native_of_status(status))),
                None => None,
            }) && body.get("assignedTo"@) == (match patch.assignee {
                Some(Some(assignee)) => Some(JsonView::Str(assignee)),
                Some(None) => Some(JsonView::Null),
                None => None,
            })
        },
{
    reveal_strlit("status");
    reveal_strlit("assignedTo");
    assert("status"@.len() == 6);
    assert("assignedTo"@.len() == 10);
    reveal_with_fuel(crate::json::lookup, 3);
    reveal_with_fuel(JsonView::well_formed, 2);
    let members = patch_members(patch);
    assert(members.len() > 0);
    if members.len() == 2 {
        assert(members.drop_first()[0] == members[1]);
    }
}

/// An update sends at most two requests: after the answer to the change it reads the subject back
/// with the request that a get makes, and after that it ends, with what a get would bring.
pub proof fn law_update_ends_with_the_subject_read_back(
    config: SentryConfigView,
    id: Seq<char>,
    step: UpdateStepView,
    exchange: ExchangeView,
)
    ensures
        next_step(config, id, step, exchange) matches Ok(UpdateProgressView::Send(next)) ==> {
            &&& step.phase == UpdatePhase::Write
            &&& next.phase == UpdatePhase::Read
            &&& get_for(config, id) == Ok::<HttpRequestView, BackendErrorView>(next.request)
        },
        next_step(config, id, step, exchange) matches Ok(UpdateProgressView::Done(subject)) ==> {
            &&& step.phase == UpdatePhase::Read
            &&& subject_from(step.request.path, exchange) == Ok::<SubjectView, BackendErrorView>(
                subject,
            )
        },
        step.phase == UpdatePhase::Read && subject_from(step.request.path, exchange) is Err
            ==> next_step(config, id, step, exchange) is Err,
{
}

/// A change that the API refuses ends the update with that error, and nothing is read.
pub proof fn law_refused_change_ends_the_update(
    config: SentryConfigView,
    id: Seq<char>,
    step: UpdateStepView,
    exchange: ExchangeView,
)
    requires
        step.phase == UpdatePhase::Write,
        value_of_exchange(step.request.path, exchange) is Err,
    ensures
        next_step(config, id, step, exchange) == Err::<UpdateProgressView, BackendErrorView>(
            value_of_exchange(step.request.path, exchange)->Err_0,
        ),
{
}

/// A status of success is the only one that stands for no error, and no exchange without one
/// brings a value.
pub proof fn law_only_success_brings_a_value(
    path: Seq<char>,
    status: u16,
    shown: Seq<char>,
    text: Seq<char>,
    exchange: ExchangeView,
)
    ensures
        fault_of_status(path, status, shown, text) is None <==> 200 <= status < 300,
        value_of_exchange(path, exchange) is Ok ==> (exchange matches ExchangeView::Answered {
            status: s,
            ..
        } && 200 <= s < 300),
{
}

/// What a configuration from the environment is like: a token and a slug are not empty where they
/// are there; the base does not end with a slash; and no project id is empty, has white space
/// around it or holds a comma.
pub proof fn law_configuration_is_clean(vars: EnvVarsView)
    ensures
        config_of(vars).auth_token matches Some(s) ==> s.len() > 0,
        config_of(vars).org_slug matches Some(s) ==> s.len() > 0,
        config_of(vars).api_base.len() > 0 ==> config_of(vars).api_base.last() != '/',
        forall|i: int|
            0 <= i < config_of(vars).project_ids.len() ==> {
                let id = #[trigger] config_of(vars).project_ids[i];
                &&& id.len() > 0
                &&& !is_white_space(id[0])
                &&& !is_white_space(id.last())
                &&& !id.contains(',')
            },
{
    law_trailing_run_is_gone(
        or_default(vars.api_base, crate::config::DEFAULT_SENTRY_API_BASE@),
        '/',
    );
    let text = or_default(vars.project_ids, Seq::empty());
    let pieces = split_on(text, ',');
    let trims = pieces.map_values(|piece: Seq<char>| trimmed(piece));
    let kept = |piece: Seq<char>| piece.len() > 0;
    law_split_is_undone_by_joining(text, ',');
    let ids = config_of(vars).project_ids;
    assert forall|i: int| 0 <= i < ids.len() implies {
        let id = #[trigger] ids[i];
        &&& id.len() > 0
        &&& !is_white_space(id[0])
        &&& !is_white_space(id.last())
        &&& !id.contains(',')
    } by {
        lemma_filter_keeps_members(trims, kept, i);
        let id = ids[i];
        let k = choose|k: int| 0 <= k < trims.len() && trims[k] == id;
        assert(trims[k] == trimmed(pieces[k]));
        law_trimmed_text_has_no_outer_space(pieces[k]);
        lemma_trimmed_is_part(pieces[k], ',');
    }
}

proof fn lemma_filter_keeps_members(s: Seq<Seq<char>>, kept: spec_fn(Seq<char>) -> bool, i: int)
    requires
        0 <= i < s.filter(kept).len(),
    ensures
        kept(s.filter(kept)[i]),
        s.contains(s.filter(kept)[i]),
    decreases s.len(),
{
    reveal(Seq::filter);
    if s.len() > 0 {
        let before = s.drop_last().filter(kept);
        if i < before.len() {
            lemma_filter_keeps_members(s.drop_last(), kept, i);
            let k = choose|k: int| 0 <= k < s.drop_last().len() && s.drop_last()[k] == before[i];
            assert(s[k] == before[i]);
        } else {
            assert(s[s.len() - 1] == s.filter(kept)[i]);
        }
    }
}

/// Trimming brings no character in.
proof fn lemma_trimmed_is_part(s: Seq<char>, c: char)
    requires
        !s.contains(c),
    ensures
        !trimmed(s).contains(c),
{
    lemma_led_is_part(s, c);
    lemma_tailed_is_part(without_leading_space(s), c);
}

proof fn lemma_led_is_part(s: Seq<char>, c: char)
    requires
        !s.contains(c),
    ensures
        !without_leading_space(s).contains(c),
    decreases s.len(),
{
    if s.len() > 0 && is_white_space(s[0]) {
        assert(!s.drop_first().contains(c)) by {
            assert(forall|i: int| 0 <= i < s.drop_first().len() ==> s.drop_first()[i] == s[i + 1]);
        }
        lemma_led_is_part(s.drop_first(), c);
    }
}

proof fn lemma_tailed_is_part(s: Seq<char>, c: char)
    requires
        !s.contains(c),
    ensures
        !without_trailing_space(s).contains(c),
    decreases s.len(),
{
    if s.len() > 0 && is_white_space(s.last()) {
        assert(!s.drop_last().contains(c)) by {
            assert(forall|i: int| 0 <= i < s.drop_last().len() ==> s.drop_last()[i] == s[i]);
        }
        lemma_tailed_is_part(s.drop_last(), c);
    }
}

/// The path of every request starts with a slash, so that behind a base that ends with none the
/// two meet in exactly one.
pub proof fn law_paths_start_with_a_slash(
    config: SentryConfigView,
    slug: Seq<char>,
    issue_id: Seq<char>,
    filter: SubjectFilterView,
)
    ensures
        issue_path(slug, issue_id).len() > 0,
        issue_path(slug, issue_id)[0] == '/',
        list_path(config, slug, filter).len() > 0,
        list_path(config, slug, filter)[0] == '/',
{
    reveal_strlit("/organizations/");
    assert("/organizations/"@[0] == '/');
}

/// Pieces without a separator, joined by it, are split into the same pieces again.
proof fn lemma_split_of_joined(pieces: Seq<Seq<char>>, sep: char)
    requires
        pieces.len() > 0,
        forall|i: int| 0 <= i < pieces.len() ==> !(#[trigger] pieces[i]).contains(sep),
    ensures
        split_on(joined(pieces, seq![sep]), sep) == pieces,
    decreases pieces.len(),
{
    let last = pieces.last();
    assert(!pieces[pieces.len() - 1].contains(sep));
    if pieces.len() == 1 {
        lemma_split_goes_on(Seq::empty(), last, sep);
        assert(Seq::<char>::empty() + last == last);
        assert(split_on(Seq::<char>::empty(), sep) == seq![Seq::<char>::empty()]);
        assert(split_on(last, sep) =~= pieces);
    } else {
        let front = pieces.drop_last();
        assert forall|i: int| 0 <= i < front.len() implies !(#[trigger] front[i]).contains(sep) by {
            assert(front[i] == pieces[i]);
        }
        lemma_split_of_joined(front, sep);
        let head = joined(front, seq![sep]) + seq![sep];
        assert(head.drop_last() == joined(front, seq![sep]));
        assert(split_on(head, sep) == front.push(Seq::empty()));
        lemma_split_goes_on(head, last, sep);
        assert(front.push(Seq::empty()).drop_last() == front);
        assert(Seq::<char>::empty() + last == last);
        assert(pieces == front.push(last));
    }
}

/// A tail without the separator goes to the last piece.
pub(crate) proof fn lemma_split_goes_on(head: Seq<char>, tail: Seq<char>, sep: char)
    requires
        !tail.contains(sep),
    ensures
        split_on(head, sep).len() > 0,
        split_on(head + tail, sep) == split_on(head, sep).drop_last().push(
            split_on(head, sep).last() + tail,
        ),
    decreases tail.len(),
{
    law_split_is_undone_by_joining(head, sep);
    let before = split_on(head, sep);
    if tail.len() == 0 {
        assert(head + tail == head);
        assert(before.last() + tail == before.last());
        assert(before.drop_last().push(before.last()) == before);
    } else {
        let front = tail.drop_last();
        let c = tail[tail.len() - 1];
        assert(tail.contains(c));
        assert forall|i: int| 0 <= i < front.len() implies front[i] != sep by {
            assert(tail[i] == front[i]);
        }
        lemma_split_goes_on(head, front, sep);
        assert((head + tail).drop_last() == head + front);
        assert((head + tail).last() == c);
        let mid = split_on(head + front, sep);
        assert(mid.drop_last() == before.drop_last());
        assert((before.last() + front).push(c) == before.last() + tail);
    }
}

proof fn lemma_decimal_lacks(n: nat, c: char)
    requires
        !is_digit(c),
    ensures
        !decimal(n).contains(c),
{
    lemma_decimal_is_digits(n);
}

/// The parameters of a listing can be told apart: the query string, split at `&`, is the list of
/// them again, whatever the configured query and project ids hold. Each configured project is one
/// of them.
pub proof fn law_list_parameters_can_be_told_apart(
    config: SentryConfigView,
    filter: SubjectFilterView,
)
    ensures
        split_on(joined(list_params(config, filter), "&"@), '&') == list_params(config, filter),
        forall|i: int|
            0 <= i < config.project_ids.len() ==> list_params(config, filter).contains(
                "project="@ + percent_encoded(#[trigger] config.project_ids[i]),
            ),
{
    reveal_strlit("&");
    reveal_strlit("limit=");
    reveal_strlit("query=");
    reveal_strlit("project=");
    let params = list_params(config, filter);
    let limit = decimal(limit_of(filter.limit));
    let projects = config.project_ids.map_values(
        |id: Seq<char>| "project="@ + percent_encoded(id),
    );
    let front = seq!["limit="@ + limit] + at_most_one(
        prefixed("query="@, encoded_query(query_of(config, filter))),
    );
    assert(params == front + projects);
    assert("&"@ == seq!['&']);
    assert('&' as u32 == 0x26);
    lemma_decimal_lacks(limit_of(filter.limit), '&');
    assert forall|i: int| 0 <= i < params.len() implies !(#[trigger] params[i]).contains('&') by {
        if i == 0 {
            assert(params[0] == "limit="@ + limit);
            lemma_neither_holds("limit="@, limit, '&');
        } else if i < front.len() {
            let query = query_of(config, filter)->0;
            assert(params[i] == "query="@ + percent_encoded(query));
            law_encoded_text_is_inert(query);
            lemma_neither_holds("query="@, percent_encoded(query), '&');
        } else {
            let id = config.project_ids[i - front.len()];
            assert(params[i] == projects[i - front.len()]);
            law_encoded_text_is_inert(id);
            lemma_neither_holds("project="@, percent_encoded(id), '&');
        }
    }
    lemma_split_of_joined(params, '&');
    assert forall|i: int| 0 <= i < config.project_ids.len() implies params.contains(
        "project="@ + percent_encoded(#[trigger] config.project_ids[i]),
    ) by {
        assert(params[front.len() + i] == projects[i]);
    }
}

proof fn lemma_neither_holds(a: Seq<char>, b: Seq<char>, c: char)
    requires
        !a.contains(c),
        !b.contains(c),
    ensures
        !(a + b).contains(c),
{
    assert forall|i: int| 0 <= i < (a + b).len() implies (a + b)[i] != c by {
        if i < a.len() {
            assert((a + b)[i] == a[i]);
        } else {
            assert((a + b)[i] == b[i - a.len()]);
        }
    }
}

/// A configured search query is the one that a listing carries, whatever statuses are asked for;
/// without one, the statuses decide.
pub proof fn law_configured_query_comes_first(config: SentryConfigView, filter: SubjectFilterView)
    ensures
        config.query matches Some(query) ==> list_params(config, filter)[1] == "query="@
            + percent_encoded(query),
        config.query is None && query_of_statuses(filter.status) is Some ==> list_params(
            config,
            filter,
        )[1] == "query="@ + percent_encoded(query_of_statuses(filter.status)->0),
        config.query is None && query_of_statuses(filter.status) is None ==> list_params(
            config,
            filter,
        ).len() == 1 + config.project_ids.len(),
{
}

}
