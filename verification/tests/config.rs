use animus_subject_sentry::backend::user_agent;
use animus_subject_sentry::config::{EnvVars, SentryConfig, DEFAULT_SENTRY_API_BASE};

fn unset() -> EnvVars {
    EnvVars { auth_token: None, org_slug: None, project_ids: None, query: None, api_base: None }
}

fn text(s: &str) -> Option<String> {
    Some(s.to_string())
}

#[test]
fn testing_config_uses_api_base() {
    let config = SentryConfig::for_testing("https://sentry.example/api/0");
    assert_eq!(config.api_base, "https://sentry.example/api/0");
    assert_eq!(config.org_slug.as_deref(), Some("example"));
}

#[test]
fn testing_config_has_a_token_and_nothing_else() {
    let config = SentryConfig::for_testing("https://sentry.example/api/0/");
    assert_eq!(config.auth_token.as_deref(), Some("test-token"));
    assert!(config.project_ids.is_empty());
    assert_eq!(config.query, None);
    assert_eq!(config.api_base, "https://sentry.example/api/0/");
}

#[test]
fn unset_environment_gives_defaults() {
    let config = SentryConfig::from_env(unset());
    assert_eq!(config.auth_token, None);
    assert_eq!(config.org_slug, None);
    assert!(config.project_ids.is_empty());
    assert_eq!(config.query, None);
    assert_eq!(config.api_base, "https://sentry.io/api/0");
    assert_eq!(DEFAULT_SENTRY_API_BASE, "https://sentry.io/api/0");
}

#[test]
fn empty_variables_count_as_unset() {
    let config = SentryConfig::from_env(EnvVars {
        auth_token: text(""),
        org_slug: text(""),
        project_ids: text(""),
        query: text(""),
        api_base: text(""),
    });
    assert_eq!(config.auth_token, None);
    assert_eq!(config.org_slug, None);
    assert!(config.project_ids.is_empty());
    assert_eq!(config.query, None);
    // An empty base is a base.
    assert_eq!(config.api_base, "");
}

#[test]
fn blank_query_is_dropped_and_others_stay_as_they_are() {
    let mut vars = unset();
    vars.query = text(" \t\u{3000}\n");
    assert_eq!(SentryConfig::from_env(vars).query, None);
    let mut vars = unset();
    vars.query = text("  is:unresolved ");
    assert_eq!(SentryConfig::from_env(vars).query.as_deref(), Some("  is:unresolved "));
    // A blank token is not empty.
    let mut vars = unset();
    vars.auth_token = text(" ");
    vars.org_slug = text(" ");
    let config = SentryConfig::from_env(vars);
    assert_eq!(config.auth_token.as_deref(), Some(" "));
    assert_eq!(config.org_slug.as_deref(), Some(" "));
}

#[test]
fn project_ids_are_split_and_trimmed() {
    let mut vars = unset();
    vars.project_ids = text(" 1,2 , ,\u{a0}three four\u{2003},,5,");
    assert_eq!(SentryConfig::from_env(vars).project_ids, vec!["1", "2", "three four", "5"]);
    let mut vars = unset();
    vars.project_ids = text(",, ,");
    assert!(SentryConfig::from_env(vars).project_ids.is_empty());
    let mut vars = unset();
    vars.project_ids = text("42");
    assert_eq!(SentryConfig::from_env(vars).project_ids, vec!["42"]);
}

#[test]
fn trailing_slashes_leave_the_base() {
    let mut vars = unset();
    vars.api_base = text("https://sentry.example/api/0///");
    assert_eq!(SentryConfig::from_env(vars).api_base, "https://sentry.example/api/0");
    let mut vars = unset();
    vars.api_base = text("///");
    assert_eq!(SentryConfig::from_env(vars).api_base, "");
    let mut vars = unset();
    vars.api_base = text("/a/b");
    assert_eq!(SentryConfig::from_env(vars).api_base, "/a/b");
}

#[test]
fn clone_keeps_every_field() {
    let config = SentryConfig {
        auth_token: text("t"),
        org_slug: None,
        project_ids: vec!["1".to_string(), "2".to_string()],
        query: text("q"),
        api_base: "base".to_string(),
    };
    let copy = config.clone();
    assert_eq!(copy.auth_token, config.auth_token);
    assert_eq!(copy.org_slug, config.org_slug);
    assert_eq!(copy.project_ids, config.project_ids);
    assert_eq!(copy.query, config.query);
    assert_eq!(copy.api_base, config.api_base);
}

#[test]
fn user_agent_names_the_version() {
    assert_eq!(user_agent("0.1.0"), "animus-subject-sentry/0.1.0");
}
