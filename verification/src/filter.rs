//! Which subjects a caller asked for.

use vstd::prelude::*;

use crate::backend::SentryBackend;
use crate::protocol::{Subject, SubjectFilter, SubjectFilterView, SubjectStatus, SubjectView};
use crate::text::{contains, grow};

verus! {

/// A subject meets every criterion of a filter.
pub open spec fn meets(s: SubjectView, f: SubjectFilterView) -> bool {
    &&& f.kind.len() > 0 ==> f.kind.contains(s.kind)
    &&& f.status.len() > 0 ==> f.status.contains(s.status)
    &&& f.assignee.len() > 0 ==> s.assignee is Some && f.assignee.contains(s.assignee->0)
    &&& f.labels_any.len() > 0 ==> exists|i: int|
        0 <= i < f.labels_any.len() && s.labels.contains(#[trigger] f.labels_any[i])
    &&& forall|i: int|
        0 <= i < f.labels_all.len() ==> s.labels.contains(#[trigger] f.labels_all[i])
    &&& f.updated_since is Some ==> !s.updated_at.earlier(f.updated_since->0)
}

/// The subjects that meet a filter, in their order.
pub open spec fn matching(subjects: Seq<SubjectView>, f: SubjectFilterView) -> Seq<SubjectView> {
    subjects.filter(|s: SubjectView| meets(s, f))
}

pub open spec fn is_open(status: SubjectStatus) -> bool {
    status != SubjectStatus::Done && status != SubjectStatus::Cancelled
}

/// The search query that fetches the issues of every status in a list, where one native status
/// covers them all.
pub open spec fn query_of_statuses(statuses: Seq<SubjectStatus>) -> Option<Seq<char>> {
    if statuses.len() == 0 {
        None
    } else if forall|i: int|
        0 <= i < statuses.len() ==> #[trigger] statuses[i] == SubjectStatus::Done {
        Some("is:resolved"@)
    } else if forall|i: int|
        0 <= i < statuses.len() ==> #[trigger] statuses[i] == SubjectStatus::Cancelled {
        Some("is:ignored"@)
    } else if forall|i: int| 0 <= i < statuses.len() ==> is_open(#[trigger] statuses[i]) {
        Some("is:unresolved"@)
    } else {
        None
    }
}

pub fn query_for_status_filter(statuses: &[SubjectStatus]) -> (r: Option<String>)
    ensures
        r.deep_view() == query_of_statuses(statuses@),
{
    if statuses.len() == 0 {
        return None;
    }
    let mut all_done = true;
    let mut all_cancelled = true;
    let mut all_open = true;
    for i in 0..statuses.len()
        invariant
            all_done == (forall|j: int|
                0 <= j < i ==> #[trigger] statuses@[j] == SubjectStatus::Done),
            all_cancelled == (forall|j: int|
                0 <= j < i ==> #[trigger] statuses@[j] == SubjectStatus::Cancelled),
            all_open == (forall|j: int| 0 <= j < i ==> is_open(#[trigger] statuses@[j])),
    {
        let done = statuses[i] == SubjectStatus::Done;
        let cancelled = statuses[i] == SubjectStatus::Cancelled;
        all_done = all_done && done;
        all_cancelled = all_cancelled && cancelled;
        all_open = all_open && !done && !cancelled;
    }
    if all_done {
        Some("is:resolved".to_owned())
    } else if all_cancelled {
        Some("is:ignored".to_owned())
    } else if all_open {
        Some("is:unresolved".to_owned())
    } else {
        None
    }
}

fn has_status(statuses: &Vec<SubjectStatus>, status: SubjectStatus) -> (r: bool)
    ensures
        r == statuses@.contains(status),
{
    for i in 0..statuses.len()
        invariant
            forall|j: int| 0 <= j < i ==> statuses@[j] != status,
    {
        if statuses[i] == status {
            return true;
        }
    }
    false
}

fn has_any(labels: &Vec<String>, wanted: &Vec<String>) -> (r: bool)
    ensures
        r == exists|i: int|
            0 <= i < wanted.deep_view().len() && labels.deep_view().contains(
                #[trigger] wanted.deep_view()[i],
            ),
{
    for i in 0..wanted.len()
        invariant
            forall|j: int|
                0 <= j < i ==> !labels.deep_view().contains(#[trigger] wanted.deep_view()[j]),
    {
        if contains(labels, &wanted[i]) {
            assert(wanted.deep_view()[i as int] == wanted[i as int]@);
            return true;
        }
    }
    false
}

fn has_all(labels: &Vec<String>, wanted: &Vec<String>) -> (r: bool)
    ensures
        r == forall|i: int|
            0 <= i < wanted.deep_view().len() ==> labels.deep_view().contains(
                #[trigger] wanted.deep_view()[i],
            ),
{
    for i in 0..wanted.len()
        invariant
            forall|j: int|
                0 <= j < i ==> labels.deep_view().contains(#[trigger] wanted.deep_view()[j]),
    {
        if !contains(labels, &wanted[i]) {
            assert(wanted.deep_view()[i as int] == wanted[i as int]@);
            return false;
        }
    }
    true
}

impl SentryBackend {
    /// Whether a subject meets every criterion of a filter.
    pub fn subject_matches_filter(subject: &Subject, filter: &SubjectFilter) -> (r: bool)
        ensures
            r == meets(subject.deep_view(), filter.deep_view()),
    {
        if !filter.kind.is_empty() && !contains(&filter.kind, &subject.kind) {
            return false;
        }
        if !filter.status.is_empty() && !has_status(&filter.status, subject.status) {
            return false;
        }
        if !filter.assignee.is_empty() {
            match &subject.assignee {
                Some(assignee) => {
                    if !contains(&filter.assignee, assignee) {
                        return false;
                    }
                },
                None => return false,
            }
        }
        if !filter.labels_any.is_empty() && !has_any(&subject.labels, &filter.labels_any) {
            return false;
        }
        if !has_all(&subject.labels, &filter.labels_all) {
            proof {
                let i = choose|i: int|
                    0 <= i < filter.labels_all.deep_view().len()
                        && !subject.labels.deep_view().contains(
                        #[trigger] filter.labels_all.deep_view()[i],
                    );
                assert(!subject.deep_view().labels.contains(filter.deep_view().labels_all[i]));
            }
            return false;
        }
        if let Some(updated_since) = filter.updated_since {
            if subject.updated_at.is_before(&updated_since) {
                return false;
            }
        }
        true
    }
}

/// Keeps the subjects that meet a filter, in their order.
pub fn matching_subjects(subjects: Vec<Subject>, filter: &SubjectFilter) -> (r: Vec<Subject>)
    ensures
        r.deep_view() == matching(subjects.deep_view(), filter.deep_view()),
{
    let ghost all = subjects.deep_view();
    let ghost wanted = |s: SubjectView| meets(s, filter.deep_view());
    let ghost given = subjects@;
    let mut kept: Vec<Subject> = Vec::new();
    assert(all.take(0).filter(wanted) == Seq::<SubjectView>::empty()) by {
        reveal(Seq::filter);
    }
    for subject in it: subjects
        invariant
            it.seq() == given,
            all == subjects.deep_view(),
            given == subjects@,
            wanted == (|s: SubjectView| meets(s, filter.deep_view())),
            kept.deep_view() == all.take(it.index() as int).filter(wanted),
    {
        let ghost upto = all.take(it.index() + 1);
        assert(upto.drop_last() == all.take(it.index() as int));
        assert(upto.last() == subject.deep_view());
        assert(upto.filter(wanted) == if wanted(upto.last()) {
            upto.drop_last().filter(wanted).push(upto.last())
        } else {
            upto.drop_last().filter(wanted)
        }) by {
            reveal(Seq::filter);
        }
        if SentryBackend::subject_matches_filter(&subject, filter) {
            grow(&mut kept, subject);
        }
    }
    assert(all.take(all.len() as int) == all);
    kept
}

}
