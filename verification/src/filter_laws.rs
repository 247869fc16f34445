//! What a filter keeps.

use vstd::prelude::*;

use crate::backend::{collected, listing_in, listing_of};
use crate::filter::{matching, meets, query_of_statuses};
use crate::issue::subject_in;
use crate::json::JsonView;
use crate::protocol::{
    BackendErrorView, SubjectFilterView, SubjectListView, SubjectStatus, SubjectView, Timestamp,
};

verus! {

/// A filter that asks for nothing.
pub open spec fn no_criteria() -> SubjectFilterView {
    SubjectFilterView {
        kind: Seq::empty(),
        status: Seq::empty(),
        assignee: Seq::empty(),
        labels_any: Seq::empty(),
        labels_all: Seq::empty(),
        updated_since: None,
        limit: None,
    }
}

/// An instant comes before another as its seconds and, for equal seconds, its nanoseconds say.
pub proof fn law_instants_are_ordered(a: Timestamp, b: Timestamp)
    ensures
        a.earlier(b) <==> a.secs * 0x1_0000_0000 + a.nanos < b.secs * 0x1_0000_0000 + b.nanos,
        a == b || a.earlier(b) || b.earlier(a),
        !(a.earlier(b) && b.earlier(a)),
{
}

/// A criterion that a subject does not meet leaves it out, whatever the other criteria are.
pub proof fn law_unmet_criterion_leaves_out(s: SubjectView, f: SubjectFilterView)
    ensures
        f.kind.len() > 0 && !f.kind.contains(s.kind) ==> !meets(s, f),
        f.status.len() > 0 && !f.status.contains(s.status) ==> !meets(s, f),
        f.assignee.len() > 0 && s.assignee is None ==> !meets(s, f),
        f.assignee.len() > 0 && s.assignee is Some && !f.assignee.contains(s.assignee->0)
            ==> !meets(s, f),
        f.labels_any.len() > 0 && (forall|i: int|
            0 <= i < s.labels.len() ==> !f.labels_any.contains(#[trigger] s.labels[i])) ==> !meets(
            s,
            f,
        ),
        forall|label: Seq<char>|
            #![trigger f.labels_all.contains(label)]
            f.labels_all.contains(label) && !s.labels.contains(label) ==> !meets(s, f),
        f.updated_since matches Some(t) ==> s.updated_at.secs * 0x1_0000_0000 + s.updated_at.nanos
            < t.secs * 0x1_0000_0000 + t.nanos ==> !meets(s, f),
{
    if f.labels_any.len() > 0 && (forall|i: int|
        0 <= i < s.labels.len() ==> !f.labels_any.contains(#[trigger] s.labels[i])) && meets(s, f) {
        let i = choose|i: int|
            0 <= i < f.labels_any.len() && s.labels.contains(#[trigger] f.labels_any[i]);
        let k = choose|k: int| 0 <= k < s.labels.len() && s.labels[k] == f.labels_any[i];
        assert(!f.labels_any.contains(s.labels[k]));
        assert(false);
    }
    assert forall|label: Seq<char>|
        #![trigger f.labels_all.contains(label)]
        f.labels_all.contains(label) && !s.labels.contains(label) implies !meets(s, f) by {
        let i = choose|i: int| 0 <= i < f.labels_all.len() && f.labels_all[i] == label;
        assert(!s.labels.contains(f.labels_all[i]));
    }
    if let Some(t) = f.updated_since {
        law_instants_are_ordered(s.updated_at, t);
    }
}

/// A subject that meets each criterion that a filter has is kept.
pub proof fn law_subject_that_meets_each_criterion_is_kept(s: SubjectView, f: SubjectFilterView)
    requires
        f.kind.len() == 0 || f.kind.contains(s.kind),
        f.status.len() == 0 || f.status.contains(s.status),
        f.assignee.len() == 0 || (s.assignee is Some && f.assignee.contains(s.assignee->0)),
        f.labels_any.len() == 0 || exists|i: int|
            0 <= i < s.labels.len() && f.labels_any.contains(#[trigger] s.labels[i]),
        forall|label: Seq<char>| #[trigger]
            f.labels_all.contains(label) ==> s.labels.contains(label),
        f.updated_since is None || s.updated_at.secs * 0x1_0000_0000 + s.updated_at.nanos
            >= f.updated_since->0.secs * 0x1_0000_0000 + f.updated_since->0.nanos,
    ensures
        meets(s, f),
{
    if f.labels_any.len() > 0 {
        let i = choose|i: int|
            0 <= i < s.labels.len() && f.labels_any.contains(#[trigger] s.labels[i]);
        let k = choose|k: int| 0 <= k < f.labels_any.len() && f.labels_any[k] == s.labels[i];
        assert(s.labels.contains(f.labels_any[k]));
    }
    assert forall|i: int| 0 <= i < f.labels_all.len() implies s.labels.contains(
        #[trigger] f.labels_all[i],
    ) by {
        assert(f.labels_all.contains(f.labels_all[i]));
    }
    if let Some(t) = f.updated_since {
        law_instants_are_ordered(s.updated_at, t);
    }
}

/// A filter keeps exactly what each of its criteria, as a filter of its own, keeps; the limit is
/// none.
pub proof fn law_filter_is_the_intersection_of_its_criteria(s: SubjectView, f: SubjectFilterView)
    ensures
        meets(s, f) <==> {
            &&& meets(s, SubjectFilterView { kind: f.kind, ..no_criteria() })
            &&& meets(s, SubjectFilterView { status: f.status, ..no_criteria() })
            &&& meets(s, SubjectFilterView { assignee: f.assignee, ..no_criteria() })
            &&& meets(s, SubjectFilterView { labels_any: f.labels_any, ..no_criteria() })
            &&& meets(s, SubjectFilterView { labels_all: f.labels_all, ..no_criteria() })
            &&& meets(s, SubjectFilterView { updated_since: f.updated_since, ..no_criteria() })
        },
{
    let all = SubjectFilterView { labels_all: f.labels_all, ..no_criteria() };
    if meets(s, f) {
        assert forall|i: int| 0 <= i < all.labels_all.len() implies s.labels.contains(
            #[trigger] all.labels_all[i],
        ) by {
            assert(s.labels.contains(f.labels_all[i]));
        }
        assert(meets(s, all));
    }
    if meets(s, all) {
        assert forall|i: int| 0 <= i < f.labels_all.len() implies s.labels.contains(
            #[trigger] f.labels_all[i],
        ) by {
            assert(s.labels.contains(all.labels_all[i]));
        }
    }
}

/// Filtering goes subject by subject: it keeps the order and the number of those that it keeps.
pub proof fn law_filtering_goes_subject_by_subject(
    a: Seq<SubjectView>,
    b: Seq<SubjectView>,
    s: SubjectView,
    f: SubjectFilterView,
)
    ensures
        matching(Seq::empty(), f) == Seq::<SubjectView>::empty(),
        meets(s, f) ==> matching(seq![s], f) == seq![s],
        !meets(s, f) ==> matching(seq![s], f) == Seq::<SubjectView>::empty(),
        matching(a + b, f) == matching(a, f) + matching(b, f),
    decreases b.len(),
{
    reveal(Seq::filter);
    let wanted = |s: SubjectView| meets(s, f);
    assert(seq![s].drop_last() =~= Seq::<SubjectView>::empty());
    assert(Seq::<SubjectView>::empty().filter(wanted) =~= Seq::<SubjectView>::empty());
    assert(seq![s].last() == s);
    if meets(s, f) {
        assert(matching(seq![s], f) =~= seq![s]);
    }
    if b.len() == 0 {
        assert(a + b =~= a);
        assert(matching(b, f) =~= Seq::<SubjectView>::empty());
        assert(matching(a, f) + matching(b, f) =~= matching(a, f));
    } else {
        let front = b.drop_last();
        law_filtering_goes_subject_by_subject(a, front, s, f);
        assert((a + b).drop_last() =~= a + front);
        assert((a + b).last() == b.last());
        assert(matching(a + b, f) =~= matching(a, f) + matching(b, f));
    }
}

proof fn lemma_collected_of_both(
    a: Seq<Result<SubjectView, BackendErrorView>>,
    b: Seq<Result<SubjectView, BackendErrorView>>,
)
    ensures
        collected(a) is Err ==> collected(a + b) == collected(a),
        collected(a) is Ok && collected(b) is Err ==> collected(a + b) == collected(b),
        collected(a) is Ok && collected(b) is Ok ==> collected(a + b) == Ok::<
            Seq<SubjectView>,
            BackendErrorView,
        >(collected(a)->Ok_0 + collected(b)->Ok_0),
    decreases b.len(),
{
    if b.len() == 0 {
        assert(a + b =~= a);
        if collected(a) is Ok {
            assert(collected(a)->Ok_0 + collected(b)->Ok_0 =~= collected(a)->Ok_0);
        }
    } else {
        let front = b.drop_last();
        lemma_collected_of_both(a, front);
        assert((a + b).drop_last() =~= a + front);
        assert((a + b).last() == b.last());
        if collected(a) is Ok && collected(b) is Ok {
            assert(collected(a + b)->Ok_0 =~= collected(a)->Ok_0 + collected(b)->Ok_0);
        }
    }
}

/// A listing goes result by result. No result lists nothing; one lists its subject where the
/// filter keeps it, and fails where it is an error; of two lists of results, an error of the first
/// comes before one of the second, and otherwise the subjects of the second come behind those of
/// the first. No listing has a next page, and each carries the time at which it was fetched.
pub proof fn law_listing_goes_result_by_result(
    a: Seq<Result<SubjectView, BackendErrorView>>,
    b: Seq<Result<SubjectView, BackendErrorView>>,
    s: SubjectView,
    e: BackendErrorView,
    f: SubjectFilterView,
    t: Timestamp,
)
    ensures
        listing_of(Seq::empty(), f, t) == Ok::<SubjectListView, BackendErrorView>(
            SubjectListView { subjects: Seq::empty(), next_cursor: None, fetched_at: t },
        ),
        meets(s, f) ==> listing_of(seq![Ok::<SubjectView, BackendErrorView>(s)], f, t) == Ok::<
            SubjectListView,
            BackendErrorView,
        >(SubjectListView { subjects: seq![s], next_cursor: None, fetched_at: t }),
        !meets(s, f) ==> listing_of(seq![Ok::<SubjectView, BackendErrorView>(s)], f, t) == Ok::<
            SubjectListView,
            BackendErrorView,
        >(SubjectListView { subjects: Seq::empty(), next_cursor: None, fetched_at: t }),
        listing_of(seq![Err::<SubjectView, BackendErrorView>(e)], f, t) == Err::<
            SubjectListView,
            BackendErrorView,
        >(e),
        listing_of(a, f, t) is Err ==> listing_of(a + b, f, t) == listing_of(a, f, t),
        listing_of(a, f, t) is Ok && listing_of(b, f, t) is Err ==> listing_of(a + b, f, t)
            == listing_of(b, f, t),
        listing_of(a, f, t) is Ok && listing_of(b, f, t) is Ok ==> listing_of(a + b, f, t) == Ok::<
            SubjectListView,
            BackendErrorView,
        >(
            SubjectListView {
                subjects: listing_of(a, f, t)->Ok_0.subjects + listing_of(b, f, t)->Ok_0.subjects,
                next_cursor: None,
                fetched_at: t,
            },
        ),
{
    let nothing = Seq::<Result<SubjectView, BackendErrorView>>::empty();
    lemma_collected_of_both(a, b);
    law_filtering_goes_subject_by_subject(Seq::empty(), Seq::empty(), s, f);
    if collected(a) is Ok && collected(b) is Ok {
        law_filtering_goes_subject_by_subject(collected(a)->Ok_0, collected(b)->Ok_0, s, f);
    }
    let one = seq![Ok::<SubjectView, BackendErrorView>(s)];
    assert(one.drop_last() =~= nothing);
    assert(collected(nothing) == Ok::<Seq<SubjectView>, BackendErrorView>(Seq::empty()));
    assert(collected(one)->Ok_0 =~= seq![s]);
    let bad = seq![Err::<SubjectView, BackendErrorView>(e)];
    assert(bad.drop_last() =~= nothing);
}

/// The listing of an array goes issue by issue, and of nothing but an array there is one.
pub proof fn law_listing_goes_issue_by_issue(
    a: Seq<JsonView>,
    b: Seq<JsonView>,
    value: JsonView,
    f: SubjectFilterView,
    t: Timestamp,
)
    ensures
        !(value is Array) ==> listing_in(value, f, t) == Err::<SubjectListView, BackendErrorView>(
            BackendErrorView::Other("Sentry issue list was not an array"@),
        ),
        listing_in(JsonView::Array(Seq::empty()), f, t) == Ok::<SubjectListView, BackendErrorView>(
            SubjectListView { subjects: Seq::empty(), next_cursor: None, fetched_at: t },
        ),
        subject_in(value) matches Err(e) ==> listing_in(JsonView::Array(seq![value]), f, t)
            == Err::<SubjectListView, BackendErrorView>(e),
        subject_in(value) matches Ok(s) ==> listing_in(JsonView::Array(seq![value]), f, t) == Ok::<
            SubjectListView,
            BackendErrorView,
        >(
            SubjectListView {
                subjects: if meets(s, f) {
                    seq![s]
                } else {
                    Seq::empty()
                },
                next_cursor: None,
                fetched_at: t,
            },
        ),
        listing_in(JsonView::Array(a), f, t) is Err ==> listing_in(JsonView::Array(a + b), f, t)
            == listing_in(JsonView::Array(a), f, t),
        listing_in(JsonView::Array(a), f, t) is Ok && listing_in(JsonView::Array(b), f, t) is Err
            ==> listing_in(JsonView::Array(a + b), f, t) == listing_in(JsonView::Array(b), f, t),
        listing_in(JsonView::Array(a), f, t) is Ok && listing_in(JsonView::Array(b), f, t) is Ok
            ==> listing_in(JsonView::Array(a + b), f, t) == Ok::<SubjectListView, BackendErrorView>(
            SubjectListView {
                subjects: listing_in(JsonView::Array(a), f, t)->Ok_0.subjects + listing_in(
                    JsonView::Array(b),
                    f,
                    t,
                )->Ok_0.subjects,
                next_cursor: None,
                fetched_at: t,
            },
        ),
{
    let results = |issues: Seq<JsonView>| issues.map_values(|issue: JsonView| subject_in(issue));
    let nothing = Seq::<Result<SubjectView, BackendErrorView>>::empty();
    assert(results(Seq::empty()) =~= nothing);
    assert(results(seq![value]) =~= seq![subject_in(value)]);
    assert(results(a + b) =~= results(a) + results(b));
    let s: SubjectView = match subject_in(value) {
        Ok(s) => s,
        Err(_) => arbitrary(),
    };
    let e: BackendErrorView = match subject_in(value) {
        Ok(_) => arbitrary(),
        Err(e) => e,
    };
    law_listing_goes_result_by_result(results(a), results(b), s, e, f, t);
}

/// Every subject that is listed meets every criterion of the filter.
pub proof fn law_listed_subject_meets_each_criterion(
    value: JsonView,
    f: SubjectFilterView,
    t: Timestamp,
    k: int,
)
    requires
        listing_in(value, f, t) is Ok,
        0 <= k < listing_in(value, f, t)->Ok_0.subjects.len(),
    ensures
        ({
            let s = listing_in(value, f, t)->Ok_0.subjects[k];
            &&& f.kind.len() > 0 ==> f.kind.contains(s.kind)
            &&& f.status.len() > 0 ==> f.status.contains(s.status)
            &&& f.assignee.len() > 0 ==> s.assignee is Some && f.assignee.contains(s.assignee->0)
            &&& f.labels_any.len() > 0 ==> exists|i: int|
                0 <= i < s.labels.len() && f.labels_any.contains(#[trigger] s.labels[i])
            &&& forall|label: Seq<char>| #[trigger]
                f.labels_all.contains(label) ==> s.labels.contains(label)
            &&& f.updated_since is Some ==> s.updated_at.secs * 0x1_0000_0000 + s.updated_at.nanos
                >= f.updated_since->0.secs * 0x1_0000_0000 + f.updated_since->0.nanos
        }),
{
    let issues = value->Array_0;
    crate::laws::law_listing_holds_what_was_asked_for(issues, f, t);
    let s = listing_in(value, f, t)->Ok_0.subjects[k];
    assert(meets(s, f));
    law_unmet_criterion_leaves_out(s, f);
    if f.updated_since is Some {
        law_instants_are_ordered(s.updated_at, f.updated_since->0);
    }
}

/// Asking for done subjects alone searches for resolved issues, asking for cancelled ones alone
/// for ignored ones, and asking for others alone for unresolved ones; a mixture, and nothing,
/// searches for no status.
pub proof fn law_query_of_the_statuses_asked_for(statuses: Seq<SubjectStatus>)
    ensures
        query_of_statuses(statuses) == Some("is:resolved"@) <==> statuses.len() > 0
            && !statuses.contains(SubjectStatus::Ready) && !statuses.contains(
            SubjectStatus::InProgress,
        ) && !statuses.contains(SubjectStatus::Blocked) && !statuses.contains(
            SubjectStatus::Cancelled,
        ),
        query_of_statuses(statuses) == Some("is:ignored"@) <==> statuses.len() > 0
            && !statuses.contains(SubjectStatus::Ready) && !statuses.contains(
            SubjectStatus::InProgress,
        ) && !statuses.contains(SubjectStatus::Blocked) && !statuses.contains(SubjectStatus::Done),
        query_of_statuses(statuses) == Some("is:unresolved"@) <==> statuses.len() > 0
            && !statuses.contains(SubjectStatus::Done) && !statuses.contains(
            SubjectStatus::Cancelled,
        ),
        query_of_statuses(statuses) matches Some(query) ==> query == "is:resolved"@ || query
            == "is:ignored"@ || query == "is:unresolved"@,
{
    reveal_strlit("is:resolved");
    reveal_strlit("is:ignored");
    reveal_strlit("is:unresolved");
    assert("is:resolved"@.len() == 11);
    assert("is:ignored"@.len() == 10);
    assert("is:unresolved"@.len() == 13);
    if statuses.len() > 0 {
        let first = statuses[0];
        assert(statuses.contains(first));
        assert forall|i: int| 0 <= i < statuses.len() implies statuses.contains(
            #[trigger] statuses[i],
        ) by {}
    }
}

}
