//! What the environment variables become.

use vstd::prelude::*;

use crate::backend::{health_of, list_for};
use crate::config::{config_of, testing_config, EnvVarsView};
use crate::filter_laws::no_criteria;
use crate::protocol::HealthStatus;
use crate::text::{is_white_space, law_blank_text_is_trimmed_away, split_on, trimmed};
use crate::text_laws::{
    law_splitting_goes_separator_by_separator, law_trailing_run_is_all_that_goes,
    law_trimming_cuts_white_space_at_the_ends,
};

verus! {

/// A token or a slug that is set and not empty arrives unchanged in its own field, whatever the
/// other variables are; one that is unset or empty leaves the field without a value.
pub proof fn law_token_and_slug_arrive_in_their_fields(vars: EnvVarsView)
    ensures
        vars.auth_token matches Some(s) ==> (s.len() > 0 ==> config_of(vars).auth_token == Some(s)),
        vars.auth_token matches Some(s) ==> (s.len() == 0 ==> config_of(vars).auth_token is None),
        vars.auth_token is None ==> config_of(vars).auth_token is None,
        vars.org_slug matches Some(s) ==> (s.len() > 0 ==> config_of(vars).org_slug == Some(s)),
        vars.org_slug matches Some(s) ==> (s.len() == 0 ==> config_of(vars).org_slug is None),
        vars.org_slug is None ==> config_of(vars).org_slug is None,
{
}

/// A search query with anything but white space in it arrives unchanged, white space around it
/// included; a blank one, and none, leave the configuration without one.
pub proof fn law_query_arrives_unless_blank(vars: EnvVarsView)
    ensures
        config_of(vars).query is Some <==> vars.query is Some && exists|i: int|
            0 <= i < vars.query->0.len() && !is_white_space(#[trigger] vars.query->0[i]),
        config_of(vars).query is Some ==> config_of(vars).query == vars.query,
{
}

/// The base of the API is the one that is set, or else that of Sentry, without the slashes at its
/// end: what is left is a front of it that ends with no slash, and only slashes stand behind.
pub proof fn law_base_loses_its_trailing_slashes(vars: EnvVarsView, s: Seq<char>)
    requires
        vars.api_base == Some(s) || (vars.api_base is None && s == "https://sentry.io/api/0"@),
    ensures
        config_of(vars).api_base.is_prefix_of(s),
        forall|i: int| config_of(vars).api_base.len() <= i < s.len() ==> #[trigger] s[i] == '/',
        config_of(vars).api_base.len() > 0 ==> config_of(vars).api_base[config_of(
            vars,
        ).api_base.len() - 1] != '/',
        vars.api_base is None ==> config_of(vars).api_base == s,
{
    law_trailing_run_is_all_that_goes(s, '/');
    if vars.api_base is None {
        reveal_strlit("https://sentry.io/api/0");
        assert(s.last() == '0');
    }
}

/// A list of projects without a comma is one project, without the white space around it, or none
/// where it is blank.
pub proof fn law_text_without_comma_is_one_project(vars: EnvVarsView, s: Seq<char>)
    requires
        vars.project_ids == Some(s),
        !s.contains(','),
    ensures
        (forall|i: int| 0 <= i < s.len() ==> is_white_space(#[trigger] s[i])) ==> config_of(
            vars,
        ).project_ids.len() == 0,
        (exists|i: int| 0 <= i < s.len() && !is_white_space(#[trigger] s[i])) ==> {
            let ids = config_of(vars).project_ids;
            &&& ids.len() == 1
            &&& ids[0].len() > 0
            &&& !is_white_space(ids[0][0])
            &&& !is_white_space(ids[0][ids[0].len() - 1])
            &&& exists|lead: Seq<char>, trail: Seq<char>|
                #![trigger lead + ids[0] + trail]
                s == lead + ids[0] + trail && (forall|i: int|
                    0 <= i < lead.len() ==> is_white_space(#[trigger] lead[i])) && (forall|i: int|
                    0 <= i < trail.len() ==> is_white_space(#[trigger] trail[i]))
        },
{
    let kept = |piece: Seq<char>| piece.len() > 0;
    let trims = split_on(s, ',').map_values(|piece: Seq<char>| trimmed(piece));
    law_splitting_goes_separator_by_separator(s, Seq::empty(), ',');
    law_blank_text_is_trimmed_away(s);
    law_trimming_cuts_white_space_at_the_ends(s);
    assert(trims =~= seq![trimmed(s)]);
    assert(config_of(vars).project_ids == trims.filter(kept));
    lemma_filter_of_one(trimmed(s), kept);
}

proof fn lemma_filter_of_one(piece: Seq<char>, kept: spec_fn(Seq<char>) -> bool)
    ensures
        kept(piece) ==> seq![piece].filter(kept) == seq![piece],
        !kept(piece) ==> seq![piece].filter(kept) == Seq::<Seq<char>>::empty(),
{
    reveal(Seq::filter);
    assert(seq![piece].drop_last() =~= Seq::<Seq<char>>::empty());
    assert(Seq::<Seq<char>>::empty().filter(kept) =~= Seq::<Seq<char>>::empty());
    if kept(piece) {
        assert(seq![piece].filter(kept) =~= seq![piece]);
    }
}

/// Where no list of projects is set there are none.
pub proof fn law_no_list_no_projects(vars: EnvVarsView)
    requires
        vars.project_ids is None,
    ensures
        config_of(vars).project_ids.len() == 0,
{
    let some = EnvVarsView { project_ids: Some(Seq::empty()), ..vars };
    law_text_without_comma_is_one_project(some, Seq::empty());
}

/// The projects of two lists with a comma between are those of the first and then those of the
/// second, whatever the other variables are.
pub proof fn law_projects_go_comma_by_comma(
    whole: EnvVarsView,
    left: EnvVarsView,
    right: EnvVarsView,
    a: Seq<char>,
    b: Seq<char>,
)
    requires
        whole.project_ids == Some(a + seq![','] + b),
        left.project_ids == Some(a),
        right.project_ids == Some(b),
    ensures
        config_of(whole).project_ids == config_of(left).project_ids + config_of(right).project_ids,
{
    let kept = |piece: Seq<char>| piece.len() > 0;
    let trim = |piece: Seq<char>| trimmed(piece);
    law_splitting_goes_separator_by_separator(a, b, ',');
    let x = split_on(a, ',').map_values(trim);
    let y = split_on(b, ',').map_values(trim);
    assert(split_on(a + seq![','] + b, ',').map_values(trim) =~= x + y);
    Seq::filter_distributes_over_add(x, y, kept);
    assert(config_of(whole).project_ids == (x + y).filter(kept));
}

/// The configuration for testing can make requests below any base: with the test token, for the
/// example organization, and without a query or projects of its own.
pub proof fn law_testing_configuration_can_make_requests(base: Seq<char>)
    ensures
        testing_config(base).api_base == base,
        testing_config(base).auth_token == Some("test-token"@),
        testing_config(base).org_slug == Some("example"@),
        testing_config(base).query is None,
        testing_config(base).project_ids.len() == 0,
        health_of(testing_config(base)).status == HealthStatus::Healthy,
        list_for(testing_config(base), no_criteria()) is Ok,
{
}

}
