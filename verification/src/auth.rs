//! Credential lifecycle decisions: whether a stored bearer token is still
//! usable at a given instant, and how the outcome of a client-credentials
//! token exchange updates the stored credential.
//!
//! Instants are absolute timestamps in whole seconds. The exchange itself is
//! a network call made by the surrounding program; this module only decides
//! when it is needed and applies its outcome. The state machine is
//! `Absent -> (refresh) -> Valid -> (time passes) -> Expired -> (refresh) ->
//! Valid`, with no other transitions.

use vstd::prelude::*;
use crate::state::State;

verus! {

/// A stored credential is live at `now` when a token is present and its
/// expiry lies strictly in the future. An absent token makes any recorded
/// expiry meaningless: the credential counts as expired.
pub open spec fn token_live(s: State, now: i64) -> bool {
    s.auth_token is Some && s.auth_timeout is Some && s.auth_timeout->0 > now
}

/// What the auth manager does next: reuse the stored token without any
/// network call, or perform one client-credentials exchange.
#[derive(Debug, Clone, Copy, PartialEq, Eq, Structural)]
pub enum AuthDecision {
    Reuse,
    Refresh,
}

/// The three possible outcomes of one token exchange: a grant carrying the
/// access token and its lifetime in seconds, a well-formed rejection, or no
/// response at all.
#[derive(Debug, Clone, PartialEq)]
pub enum AuthOutcome {
    Granted { access_token: String, expires_in: u32 },
    Rejected,
    NoResponse,
}

/// Why the credential could not be renewed. Both conditions are fatal: the
/// run must stop with a non-zero status after reporting them.
#[derive(Debug, Clone, Copy, PartialEq, Eq, Structural)]
pub enum AuthError {
    Rejected,
    NoResponse,
}

/// Decides whether the stored token can be reused at `now`. Reuse is chosen
/// exactly when the credential is live; nothing is mutated either way.
pub fn ensure_valid_token_decision(state: &State, now: i64) -> (d: AuthDecision)
    ensures
        d == (if token_live(*state, now) {
            AuthDecision::Reuse
        } else {
            AuthDecision::Refresh
        }),
{
    match (&state.auth_token, &state.auth_timeout) {
        (Some(_), Some(timeout)) => {
            if *timeout > now {
                AuthDecision::Reuse
            } else {
                AuthDecision::Refresh
            }
        },
        _ => AuthDecision::Refresh,
    }
}

/// Applies the outcome of one token exchange at `now`. A grant replaces the
/// token and sets the expiry to `now` plus the granted lifetime, leaving the
/// reserved pagination field alone; a rejection or a missing response leaves
/// the state untouched and reports the fatal condition.
pub fn apply_auth_outcome(state: &mut State, now: i64, outcome: AuthOutcome) -> (r: Result<
    (),
    AuthError,
>)
    requires
        now + (match outcome {
            AuthOutcome::Granted { expires_in, .. } => expires_in as int,
            _ => 0,
        }) <= i64::MAX,
    ensures
        match outcome {
            AuthOutcome::Granted { access_token, expires_in } => {
                &&& r is Ok
                &&& final(state).auth_token == Some(access_token)
                &&& final(state).auth_timeout == Some((now + expires_in) as i64)
                &&& final(state).pagination == old(state).pagination
                &&& token_live(*final(state), now) || expires_in == 0
            },
            AuthOutcome::Rejected => {
                &&& r == Err::<(), AuthError>(AuthError::Rejected)
                &&& *final(state) == *old(state)
            },
            AuthOutcome::NoResponse => {
                &&& r == Err::<(), AuthError>(AuthError::NoResponse)
                &&& *final(state) == *old(state)
            },
        },
{
    match outcome {
        AuthOutcome::Granted { access_token, expires_in } => {
            state.auth_token = Some(access_token);
            state.auth_timeout = Some(now + expires_in as i64);
            Ok(())
        },
        AuthOutcome::Rejected => Err(AuthError::Rejected),
        AuthOutcome::NoResponse => Err(AuthError::NoResponse),
    }
}

/// A freshly granted credential with a positive lifetime is live at the
/// instant of the grant, so a refresh after expiry always yields a
/// credential whose expiry lies in the future.
pub proof fn lemma_refresh_yields_live(post: State, now: i64, tok: String, life: u32)
    requires
        life >= 1,
        now + life <= i64::MAX,
        post.auth_token == Some(tok),
        post.auth_timeout == Some((now + life) as i64),
    ensures
        token_live(post, now),
{
}

/// The value of the authorization header sent on every authenticated
/// request: the bearer scheme followed by the token.
pub fn bearer_value(token: &str) -> (r: String)
    ensures
        r@ == "Bearer "@ + token@,
{
    let mut out = String::new();
    out.append("Bearer ");
    out.append(token);
    out
}

/// Breaks a non-negative number of seconds into days, hours, minutes and
/// seconds, for reporting how long a token remains valid.
pub fn split_duration(total: i64) -> (r: (i64, i64, i64, i64))
    requires
        total >= 0,
    ensures
        r.0 * 86400 + r.1 * 3600 + r.2 * 60 + r.3 == total,
        0 <= r.1 < 24,
        0 <= r.2 < 60,
        0 <= r.3 < 60,
        r.0 >= 0,
{
    let days = total / 86400;
    let rem_day = total % 86400;
    let hours = rem_day / 3600;
    let rem_hour = rem_day % 3600;
    let minutes = rem_hour / 60;
    let seconds = rem_hour % 60;
    (days, hours, minutes, seconds)
}

} // verus!
