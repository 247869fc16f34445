//! Subject ids of the shape `sentry:<issue-id>`.

use vstd::prelude::*;
use vstd::string::StrSliceExecFns;

use crate::protocol::{result_view, BackendError, BackendErrorView, SubjectId};
use crate::text::{concat2, same};

verus! {

pub const ID_PREFIX: &'static str = "sentry:";

/// The id of an issue in Sentry's own numbering.
#[derive(Debug, PartialEq, Eq)]
pub struct NativeId {
    pub issue_id: String,
}

impl DeepView for NativeId {
    type V = Seq<char>;

    open spec fn deep_view(&self) -> Seq<char> {
        self.issue_id@
    }
}

/// The subject id of an issue.
pub open spec fn subject_id_of(issue_id: Seq<char>) -> Seq<char> {
    ID_PREFIX@ + issue_id
}

/// The issue id in a subject id: what follows the prefix, which must be there and be followed by
/// something.
pub open spec fn parsed_id(raw: Seq<char>) -> Result<Seq<char>, BackendErrorView> {
    if !ID_PREFIX@.is_prefix_of(raw) {
        Err(
            BackendErrorView::InvalidRequest(
                "expected Sentry subject id shaped sentry:<issue-id>, got "@ + raw,
            ),
        )
    } else if raw == ID_PREFIX@ {
        Err(BackendErrorView::InvalidRequest("empty Sentry issue id in "@ + raw))
    } else {
        Ok(raw.skip(ID_PREFIX@.len() as int))
    }
}

impl NativeId {
    pub fn parse(id: &SubjectId) -> (r: Result<Self, BackendError>)
        ensures
            result_view(r) == parsed_id(id.deep_view()),
    {
        let raw = id.as_str();
        let len: usize = raw.unicode_len();
        let cut: usize = ID_PREFIX.unicode_len();
        if len < cut || !same(raw.substring_char(0, cut), ID_PREFIX) {
            proof {
                if ID_PREFIX@.is_prefix_of(raw@) {
                    assert(raw@.subrange(0, cut as int) == ID_PREFIX@);
                }
            }
            return Err(
                BackendError::InvalidRequest(
                    concat2("expected Sentry subject id shaped sentry:<issue-id>, got ", raw),
                ),
            );
        }
        assert(ID_PREFIX@.is_prefix_of(raw@)) by {
            assert forall|i: int| 0 <= i < ID_PREFIX@.len() implies ID_PREFIX@[i] == raw@[i] by {
                assert(raw@.subrange(0, cut as int)[i] == raw@[i]);
            }
        }
        if len == cut {
            assert(raw@ == ID_PREFIX@);
            return Err(BackendError::InvalidRequest(concat2("empty Sentry issue id in ", raw)));
        }
        assert(raw@.subrange(cut as int, len as int) == raw@.skip(cut as int));
        Ok(NativeId { issue_id: raw.substring_char(cut, len).to_owned() })
    }

    pub fn subject_id(issue_id: &str) -> (r: SubjectId)
        ensures
            r.deep_view() == subject_id_of(issue_id@),
    {
        SubjectId::new(concat2(ID_PREFIX, issue_id).as_str())
    }
}

/// The subject id of an issue parses back to the issue's id. The empty issue id alone does not: its
/// subject id is refused.
pub proof fn law_subject_id_round_trip(issue_id: Seq<char>)
    requires
        issue_id.len() > 0,
    ensures
        parsed_id(subject_id_of(issue_id)) == Ok::<Seq<char>, BackendErrorView>(issue_id),
{
    let raw = subject_id_of(issue_id);
    assert(ID_PREFIX@.is_prefix_of(raw));
    assert(raw.len() > ID_PREFIX@.len());
    assert(raw.skip(ID_PREFIX@.len() as int) == issue_id);
}

/// A subject id that parses is the subject id of the issue that it parses to, so that no two
/// subject ids name one issue.
pub proof fn law_parsed_id_is_the_only_one(raw: Seq<char>)
    requires
        parsed_id(raw) is Ok,
    ensures
        subject_id_of(parsed_id(raw)->Ok_0) == raw,
        parsed_id(raw)->Ok_0.len() > 0,
{
    let n = ID_PREFIX@.len() as int;
    assert forall|i: int| 0 <= i < n implies ID_PREFIX@[i] == raw[i] by {}
    if raw.len() == n {
        assert(raw == ID_PREFIX@);
    }
    assert(subject_id_of(raw.skip(n)) == raw);
}

}
