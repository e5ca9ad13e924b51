use dsp_rs::auth::{next_token_action, ExpBackoff, TokenAction, TokenState};
use dsp_rs::claims::AuthClaims;

const SECOND: u128 = 1_000_000_000;

#[test]
fn first_attempt_is_granted_at_once() {
    let mut b = ExpBackoff::new(SECOND, 60 * SECOND);
    assert!(b.should_retry_at(0));
    let mut b = ExpBackoff::new(SECOND, 60 * SECOND);
    assert!(b.should_retry());
}

#[test]
fn attempts_are_paced_exponentially_up_to_the_maximum() {
    let mut b = ExpBackoff::new(SECOND, 5 * SECOND);
    assert!(b.should_retry_at(0)); // window reopens at 1s
    assert!(!b.should_retry_at(SECOND - 1));
    assert!(b.should_retry_at(SECOND)); // pause 2s: reopens at 3s
    assert!(!b.should_retry_at(3 * SECOND - 1));
    assert!(b.should_retry_at(3 * SECOND)); // pause 4s: reopens at 7s
    assert!(!b.should_retry_at(7 * SECOND - 1));
    assert!(b.should_retry_at(7 * SECOND)); // pause 8s capped at 5s: reopens at 12s
    assert!(!b.should_retry_at(12 * SECOND - 1));
    assert!(b.should_retry_at(12 * SECOND)); // still capped: reopens at 17s
    assert!(!b.should_retry_at(17 * SECOND - 1));
    assert!(b.should_retry_at(17 * SECOND));
}

#[test]
fn a_refused_attempt_changes_nothing() {
    let mut b = ExpBackoff::new(SECOND, 60 * SECOND);
    assert!(b.should_retry_at(10 * SECOND)); // reopens at 11s
    for t in [10 * SECOND, 10 * SECOND + 1, 11 * SECOND - 1] {
        assert!(!b.should_retry_at(t));
    }
    assert!(b.should_retry_at(11 * SECOND)); // the refusals did not move the window
}

#[test]
fn immediate_second_attempt_is_refused() {
    let mut b = ExpBackoff::new(SECOND, 60 * SECOND);
    assert!(b.should_retry());
    assert!(!b.should_retry());
}

#[test]
fn token_actions() {
    let mut state = TokenState::Fetched(("tok".to_string(), AuthClaims::default()));
    assert_eq!(next_token_action(&mut state, false), TokenAction::UseCached("tok".into()));
    assert!(matches!(state, TokenState::Fetched(_)));
    assert_eq!(next_token_action(&mut state, true), TokenAction::Fetch);
    assert!(matches!(state, TokenState::Fetching(_)));

    let mut state = TokenState::default();
    assert_eq!(next_token_action(&mut state, false), TokenAction::Fetch);
    assert_eq!(next_token_action(&mut state, false), TokenAction::TooManyRequests);
}
