use veronymous_keys::authority::IssuingKey;
use veronymous_keys::error::TokenIssuerError;
use veronymous_keys::issuance::{issuing_key, token_result};
use veronymous_keys::issuer::{FetchOutcome, FetchStep, KeyManager, RetryPolicy};

fn key(tag: u8) -> IssuingKey {
    IssuingKey { signing_key: vec![tag, 2], public_key: vec![tag, 3], params: vec![tag, 1] }
}

/// Runs the policy against a stub that answers `NotFound` for the first
/// `not_found` requests and then the material; returns the result and the
/// number of requests made.
fn fetch_with_stub(policy: &RetryPolicy, not_found: u32) -> (Result<IssuingKey, TokenIssuerError>, u32) {
    let mut calls: u32 = 0;
    let mut attempt: u8 = 1;
    loop {
        calls += 1;
        let outcome = if calls <= not_found { FetchOutcome::NotFound } else { FetchOutcome::Found(key(7)) };
        match policy.step(attempt, outcome) {
            FetchStep::Retry => attempt += 1,
            FetchStep::Finished(result) => return (result, calls),
        }
    }
}

#[test]
fn standard_policy() {
    let policy = RetryPolicy::standard();
    assert_eq!(policy.max_attempts, 10);
    assert_eq!(policy.interval_secs, 2);
}

#[test]
fn fetch_succeeds_on_the_last_allowed_attempt() {
    let policy = RetryPolicy::standard();
    let (result, calls) = fetch_with_stub(&policy, 9);
    assert_eq!(result.unwrap().signing_key, vec![7, 2]);
    assert_eq!(calls, 10);
}

#[test]
fn fetch_succeeds_at_once() {
    let (result, calls) = fetch_with_stub(&RetryPolicy::standard(), 0);
    assert!(result.is_ok());
    assert_eq!(calls, 1);
}

#[test]
fn fetch_gives_up_after_the_budget() {
    let policy = RetryPolicy { max_attempts: 3, interval_secs: 0 };
    let (result, calls) = fetch_with_stub(&policy, 100);
    assert!(matches!(result, Err(TokenIssuerError::KeyManagerError(_))));
    assert_eq!(calls, 3);
}

#[test]
fn other_failures_are_not_retried() {
    let policy = RetryPolicy::standard();
    match policy.step(1, FetchOutcome::Failed("unauthenticated".to_string())) {
        FetchStep::Finished(Err(TokenIssuerError::KeyManagerError(m))) => assert_eq!(m, "unauthenticated"),
        _ => panic!("expected a key manager error"),
    }
}

#[test]
fn cache_starts_empty() {
    let km = KeyManager::create(10).unwrap();
    assert_eq!(km.key_lifetime(), 600);
    assert!(km.get_current_key().is_none());
    assert!(km.get_next_key().is_none());
    assert_eq!(km.epochs_to_fetch(1000), (Some(600), Some(1200)));
    assert!(matches!(KeyManager::create(0), Err(TokenIssuerError::ConfigError(_))));
}

#[test]
fn update_fills_both_slots_one_lifetime_apart() {
    let mut km = KeyManager::create(10).unwrap();
    km.update_keys(1000, Some(key(1)), Some(key(2))).unwrap();
    let current = km.get_current_key().as_ref().unwrap();
    let next = km.get_next_key().as_ref().unwrap();
    assert_eq!(current.epoch, 600);
    assert_eq!(next.epoch, current.epoch + km.key_lifetime());
    assert_eq!(current.public_key, vec![1, 3]);
    assert_eq!(next.public_key, vec![2, 3]);
    assert_eq!(km.epochs_to_fetch(1100), (None, None));
}

#[test]
fn update_without_needed_material_changes_nothing() {
    let mut km = KeyManager::create(10).unwrap();
    let r = km.update_keys(1000, Some(key(1)), None);
    assert!(matches!(r, Err(TokenIssuerError::IllegalStateError(_))));
    assert!(km.get_current_key().is_none());
    assert!(km.get_next_key().is_none());
}

#[test]
fn rotation_keeps_up_to_date_slots() {
    let mut km = KeyManager::create(10).unwrap();
    km.update_keys(1000, Some(key(1)), Some(key(2))).unwrap();
    // At 1300 the old next epoch is current: only the next slot is stale.
    assert_eq!(km.epochs_to_fetch(1300), (Some(1200), Some(1800)));
    km.update_keys(1300, Some(key(2)), Some(key(3))).unwrap();
    assert_eq!(km.get_current_key().as_ref().unwrap().epoch, 1200);
    assert_eq!(km.get_next_key().as_ref().unwrap().epoch, 1800);
    assert_eq!(km.get_next_key().as_ref().unwrap().signing_key, vec![3, 2]);
    // Material offered for a slot that is up to date is ignored.
    km.update_keys(1400, Some(key(8)), Some(key(9))).unwrap();
    assert_eq!(km.get_current_key().as_ref().unwrap().signing_key, vec![2, 2]);
    assert_eq!(km.get_next_key().as_ref().unwrap().signing_key, vec![3, 2]);
}

#[test]
fn issuing_needs_a_cached_key() {
    let mut km = KeyManager::create(10).unwrap();
    assert!(matches!(issuing_key(km.get_current_key()), Err(TokenIssuerError::IllegalStateError(_))));
    km.update_keys(1000, Some(key(1)), Some(key(2))).unwrap();
    assert_eq!(issuing_key(km.get_next_key()).unwrap().epoch, 1200);
}

#[test]
fn signing_failures_become_token_errors() {
    assert_eq!(token_result(Ok(vec![5, 6])).unwrap(), vec![5, 6]);
    assert!(matches!(token_result(Err("bad".to_string())), Err(TokenIssuerError::TokenError(_))));
}
