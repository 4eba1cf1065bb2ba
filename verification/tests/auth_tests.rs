use clip_downloader::auth::{
    apply_auth_outcome, bearer_value, ensure_valid_token_decision, split_duration, AuthDecision,
    AuthError, AuthOutcome,
};
use clip_downloader::state::{Pagination, State};

const NOW: i64 = 1_600_000_000;

fn credential(token: Option<&str>, timeout: Option<i64>) -> State {
    State {
        auth_token: token.map(String::from),
        auth_timeout: timeout,
        pagination: None,
    }
}

#[test]
fn token_expiring_in_an_hour_is_reused_unchanged() {
    let state = credential(Some("tok"), Some(NOW + 3600));
    let before = state.clone();
    let d = ensure_valid_token_decision(&state, NOW);
    assert_eq!(d, AuthDecision::Reuse);
    assert_eq!(state, before);
}

#[test]
fn token_expired_an_hour_ago_is_refreshed_with_a_future_expiry() {
    let mut state = credential(Some("tok"), Some(NOW - 3600));
    let d = ensure_valid_token_decision(&state, NOW);
    assert_eq!(d, AuthDecision::Refresh);
    let outcome = AuthOutcome::Granted {
        access_token: String::from("fresh"),
        expires_in: 5000,
    };
    let r = apply_auth_outcome(&mut state, NOW, outcome);
    assert_eq!(r, Ok(()));
    assert_eq!(state.auth_token.as_deref(), Some("fresh"));
    assert_eq!(state.auth_timeout, Some(NOW + 5000));
    assert!(state.auth_timeout.unwrap() > NOW);
    assert_eq!(ensure_valid_token_decision(&state, NOW), AuthDecision::Reuse);
}

#[test]
fn expiry_exactly_now_counts_as_expired() {
    let state = credential(Some("tok"), Some(NOW));
    assert_eq!(ensure_valid_token_decision(&state, NOW), AuthDecision::Refresh);
}

#[test]
fn absent_token_is_refreshed_whatever_the_recorded_expiry() {
    assert_eq!(
        ensure_valid_token_decision(&credential(None, None), NOW),
        AuthDecision::Refresh
    );
    assert_eq!(
        ensure_valid_token_decision(&credential(None, Some(NOW + 3600)), NOW),
        AuthDecision::Refresh
    );
}

#[test]
fn rejected_exchange_is_fatal_and_leaves_the_state_alone() {
    let mut state = credential(Some("tok"), Some(NOW - 1));
    let before = state.clone();
    let r = apply_auth_outcome(&mut state, NOW, AuthOutcome::Rejected);
    assert_eq!(r, Err(AuthError::Rejected));
    assert_eq!(state, before);
}

#[test]
fn unanswered_exchange_is_fatal_and_leaves_the_state_alone() {
    let mut state = credential(None, None);
    let before = state.clone();
    let r = apply_auth_outcome(&mut state, NOW, AuthOutcome::NoResponse);
    assert_eq!(r, Err(AuthError::NoResponse));
    assert_eq!(state, before);
}

#[test]
fn refresh_preserves_the_reserved_pagination_field() {
    let mut state = State {
        auth_token: None,
        auth_timeout: None,
        pagination: Some(Pagination::Forwards(String::from("cur"))),
    };
    let outcome = AuthOutcome::Granted {
        access_token: String::from("fresh"),
        expires_in: 60,
    };
    assert_eq!(apply_auth_outcome(&mut state, NOW, outcome), Ok(()));
    assert_eq!(state.pagination, Some(Pagination::Forwards(String::from("cur"))));
}

#[test]
fn default_state_is_the_empty_credential() {
    let state = State::default();
    assert_eq!(state.auth_token, None);
    assert_eq!(state.auth_timeout, None);
    assert_eq!(state.pagination, None);
}

#[test]
fn bearer_header_value_prefixes_the_scheme() {
    assert_eq!(bearer_value("abc123"), "Bearer abc123");
    assert_eq!(bearer_value(""), "Bearer ");
}

#[test]
fn durations_split_into_calendar_parts() {
    assert_eq!(split_duration(0), (0, 0, 0, 0));
    assert_eq!(split_duration(90061), (1, 1, 1, 1));
    assert_eq!(split_duration(86399), (0, 23, 59, 59));
    assert_eq!(split_duration(86400), (1, 0, 0, 0));
}
