//! Configuration of the backend.

use vstd::prelude::*;

use crate::text::{
    blank, grow, is_blank, split, split_on, trim, trim_end_of, trimmed, without_trailing,
};

verus! {

pub const DEFAULT_SENTRY_API_BASE: &'static str = "https://sentry.io/api/0";

pub const ENV_AUTH_TOKEN: &'static str = "SENTRY_AUTH_TOKEN";

pub const ENV_ORG_SLUG: &'static str = "SENTRY_ORG_SLUG";

pub const ENV_PROJECT_IDS: &'static str = "SENTRY_PROJECT_IDS";

pub const ENV_QUERY: &'static str = "SENTRY_QUERY";

pub const ENV_API_BASE: &'static str = "SENTRY_API_BASE";

/// The environment variables that configure the backend, as far as they are set.
#[derive(Debug)]
pub struct EnvVars {
    /// The variable named by [`ENV_AUTH_TOKEN`].
    pub auth_token: Option<String>,
    /// The variable named by [`ENV_ORG_SLUG`].
    pub org_slug: Option<String>,
    /// The variable named by [`ENV_PROJECT_IDS`].
    pub project_ids: Option<String>,
    /// The variable named by [`ENV_QUERY`].
    pub query: Option<String>,
    /// The variable named by [`ENV_API_BASE`].
    pub api_base: Option<String>,
}

/// What [`EnvVars`] hold.
#[verifier::ext_equal]
pub struct EnvVarsView {
    pub auth_token: Option<Seq<char>>,
    pub org_slug: Option<Seq<char>>,
    pub project_ids: Option<Seq<char>>,
    pub query: Option<Seq<char>>,
    pub api_base: Option<Seq<char>>,
}

impl DeepView for EnvVars {
    type V = EnvVarsView;

    open spec fn deep_view(&self) -> EnvVarsView {
        EnvVarsView {
            auth_token: self.auth_token.deep_view(),
            org_slug: self.org_slug.deep_view(),
            project_ids: self.project_ids.deep_view(),
            query: self.query.deep_view(),
            api_base: self.api_base.deep_view(),
        }
    }
}

#[derive(Debug)]
pub struct SentryConfig {
    pub auth_token: Option<String>,
    pub org_slug: Option<String>,
    pub project_ids: Vec<String>,
    pub query: Option<String>,
    pub api_base: String,
}

/// What a [`SentryConfig`] holds.
#[verifier::ext_equal]
pub struct SentryConfigView {
    pub auth_token: Option<Seq<char>>,
    pub org_slug: Option<Seq<char>>,
    pub project_ids: Seq<Seq<char>>,
    pub query: Option<Seq<char>>,
    pub api_base: Seq<char>,
}

impl DeepView for SentryConfig {
    type V = SentryConfigView;

    open spec fn deep_view(&self) -> SentryConfigView {
        SentryConfigView {
            auth_token: self.auth_token.deep_view(),
            org_slug: self.org_slug.deep_view(),
            project_ids: self.project_ids.deep_view(),
            query: self.query.deep_view(),
            api_base: self.api_base@,
        }
    }
}

impl Clone for SentryConfig {
    fn clone(&self) -> (r: Self)
        ensures
            r.deep_view() == self.deep_view(),
    {
        let r = SentryConfig {
            auth_token: self.auth_token.clone(),
            org_slug: self.org_slug.clone(),
            project_ids: self.project_ids.clone(),
            query: self.query.clone(),
            api_base: self.api_base.clone(),
        };
        assert(r.project_ids.deep_view() =~= self.project_ids.deep_view());
        r
    }
}

/// A text that is there and not empty.
pub open spec fn non_empty(s: Option<Seq<char>>) -> Option<Seq<char>> {
    match s {
        Some(s) => if s.len() > 0 {
            Some(s)
        } else {
            None
        },
        None => None,
    }
}

/// A text that is there and holds more than white space.
pub open spec fn non_blank(s: Option<Seq<char>>) -> Option<Seq<char>> {
    match s {
        Some(s) => if is_blank(s) {
            None
        } else {
            Some(s)
        },
        None => None,
    }
}

/// A text, or another where there is none.
pub open spec fn or_default(s: Option<Seq<char>>, default: Seq<char>) -> Seq<char> {
    match s {
        Some(s) => s,
        None => default,
    }
}

/// The entries of a comma-separated list without the white space around them; empty entries are
/// left out.
pub open spec fn list_entries(s: Seq<char>) -> Seq<Seq<char>> {
    split_on(s, ',').map_values(|piece: Seq<char>| trimmed(piece)).filter(
        |piece: Seq<char>| piece.len() > 0,
    )
}

/// The configuration that a set of environment variables gives.
pub open spec fn config_of(vars: EnvVarsView) -> SentryConfigView {
    SentryConfigView {
        auth_token: non_empty(vars.auth_token),
        org_slug: non_empty(vars.org_slug),
        project_ids: list_entries(or_default(vars.project_ids, Seq::empty())),
        query: non_blank(vars.query),
        api_base: without_trailing(or_default(vars.api_base, DEFAULT_SENTRY_API_BASE@), '/'),
    }
}

/// A configuration for testing against a base.
pub open spec fn testing_config(api_base: Seq<char>) -> SentryConfigView {
    SentryConfigView {
        auth_token: Some("test-token"@),
        org_slug: Some("example"@),
        project_ids: Seq::empty(),
        query: None,
        api_base,
    }
}

fn keep_non_empty(s: Option<String>) -> (r: Option<String>)
    ensures
        r.deep_view() == non_empty(s.deep_view()),
{
    match s {
        Some(s) => if s.as_str().is_empty() {
            None
        } else {
            Some(s)
        },
        None => None,
    }
}

fn keep_non_blank(s: Option<String>) -> (r: Option<String>)
    ensures
        r.deep_view() == non_blank(s.deep_view()),
{
    match s {
        Some(s) => if blank(s.as_str()) {
            None
        } else {
            Some(s)
        },
        None => None,
    }
}

fn entries_of(s: &str) -> (r: Vec<String>)
    ensures
        r.deep_view() == list_entries(s@),
{
    let pieces = split(s, ',');
    let ghost trims = split_on(s@, ',').map_values(|piece: Seq<char>| trimmed(piece));
    let ghost kept = |piece: Seq<char>| piece.len() > 0;
    let mut entries: Vec<String> = Vec::new();
    assert(trims.take(0).filter(kept) == Seq::<Seq<char>>::empty()) by {
        reveal(Seq::filter);
    }
    for i in 0..pieces.len()
        invariant
            pieces.deep_view() == split_on(s@, ','),
            trims == split_on(s@, ',').map_values(|piece: Seq<char>| trimmed(piece)),
            kept == (|piece: Seq<char>| piece.len() > 0),
            entries.deep_view() == trims.take(i as int).filter(kept),
    {
        let entry = trim(pieces[i].as_str());
        let ghost upto = trims.take(i + 1);
        assert(pieces.deep_view()[i as int] == pieces[i as int]@);
        assert(upto.drop_last() == trims.take(i as int));
        assert(upto.last() == entry@);
        assert(upto.filter(kept) == if kept(upto.last()) {
            upto.drop_last().filter(kept).push(upto.last())
        } else {
            upto.drop_last().filter(kept)
        }) by {
            reveal(Seq::filter);
        }
        if !entry.as_str().is_empty() {
            grow(&mut entries, entry);
        }
    }
    assert(trims.take(trims.len() as int) == trims);
    entries
}

impl SentryConfig {
    pub fn from_env(vars: EnvVars) -> (r: Self)
        ensures
            r.deep_view() == config_of(vars.deep_view()),
    {
        let project_ids = match &vars.project_ids {
            Some(s) => entries_of(s.as_str()),
            None => entries_of(String::new().as_str()),
        };
        let api_base = match &vars.api_base {
            Some(s) => trim_end_of(s.as_str(), '/'),
            None => trim_end_of(DEFAULT_SENTRY_API_BASE, '/'),
        };
        SentryConfig {
            auth_token: keep_non_empty(vars.auth_token),
            org_slug: keep_non_empty(vars.org_slug),
            project_ids,
            query: keep_non_blank(vars.query),
            api_base,
        }
    }

    pub fn for_testing(api_base: &str) -> (r: Self)
        ensures
            r.deep_view() == testing_config(api_base@),
            r.auth_token is Some,
            r.auth_token->0@ == "test-token"@,
            r.org_slug is Some,
            r.org_slug->0@ == "example"@,
            r.project_ids@.len() == 0,
            r.query is None,
            r.api_base@ == api_base@,
    {
        let project_ids: Vec<String> = Vec::new();
        assert(project_ids.deep_view() == Seq::<Seq<char>>::empty());
        SentryConfig {
            auth_token: Some("test-token".to_owned()),
            org_slug: Some("example".to_owned()),
            project_ids,
            query: None,
            api_base: api_base.to_owned(),
        }
    }
}

}
