use veronymous_keys::authority::{KeyManager as Authority, KeyMaterial};
use veronymous_keys::error::{KeyManagerError, TokenIssuerError};
use veronymous_keys::issuance::{issuing_key, token_result};
use veronymous_keys::issuer::{FetchOutcome, FetchStep, KeyManager as Cache, RetryPolicy};
use veronymous_keys::key_id::KeyRole;
use veronymous_keys::service::{
    get_issuing_key, invalid_token_request, key_manager_status, token_info, token_response, StatusCode,
};
use veronymous_keys::store::KeyStore;

fn material(tag: u8) -> KeyMaterial {
    KeyMaterial { params: vec![tag, 1], signing_key: vec![tag, 2], public_key: vec![tag, 3] }
}

#[test]
fn authority_statuses() {
    assert_eq!(key_manager_status(KeyManagerError::NotFoundError("x".to_string())).code, StatusCode::NotFound);
    assert_eq!(key_manager_status(KeyManagerError::DBError("x".to_string())).code, StatusCode::Aborted);
    assert_eq!(key_manager_status(KeyManagerError::SerializationError("x".to_string())).code, StatusCode::Aborted);
}

#[test]
fn partial_epoch_is_not_served() {
    let mut store = KeyStore::new();
    store.put(3000, KeyRole::Params, vec![1]);
    store.put(3000, KeyRole::SigningKey, vec![2]);
    let authority = Authority::create(10, store, 1000, material(1), material(2)).unwrap();
    assert_eq!(get_issuing_key(&authority, 3000).err().unwrap().code, StatusCode::NotFound);
}

#[test]
fn scenario_at_one_thousand_seconds() {
    // The authority provisions the epochs 600 and 1200.
    let authority = Authority::create(10, KeyStore::new(), 1000, material(1), material(2)).unwrap();
    assert_eq!(authority.get_key_epochs(1000), (600, 1200));

    // The issuer fetches both through the retry policy.
    let mut cache = Cache::create(10).unwrap();
    let (current, next) = cache.epochs_to_fetch(1000);
    let policy = RetryPolicy::standard();
    let mut fetched = Vec::new();
    for epoch in [current.unwrap(), next.unwrap()] {
        let outcome = match get_issuing_key(&authority, epoch) {
            Ok(k) => FetchOutcome::Found(k),
            Err(s) if s.code == StatusCode::NotFound => FetchOutcome::NotFound,
            Err(s) => FetchOutcome::Failed(s.message),
        };
        match policy.step(1, outcome) {
            FetchStep::Finished(Ok(k)) => fetched.push(k),
            _ => panic!("fetch failed"),
        }
    }
    let next_key = fetched.pop();
    let current_key = fetched.pop();
    cache.update_keys(1000, current_key, next_key).unwrap();

    // Token info of the current and the next epoch.
    let info = token_info(cache.get_current_key()).ok().unwrap();
    assert_eq!(info.public_key, vec![1, 3]);
    assert_eq!(info.params, vec![1, 1]);
    assert_eq!(info.key_lifetime, 600);
    let next_info = token_info(cache.get_next_key()).ok().unwrap();
    assert_eq!(next_info.public_key, vec![2, 3]);

    // Issuance with a key present succeeds; an undecodable request is an invalid argument.
    let key = issuing_key(cache.get_current_key()).unwrap();
    assert_eq!(key.signing_key, vec![1, 2]);
    let response = token_response(token_result(Ok(vec![42]))).unwrap();
    assert_eq!(response, vec![42]);
    assert_eq!(invalid_token_request().code, StatusCode::InvalidArgument);
}

#[test]
fn token_info_before_the_first_fetch() {
    let cache = Cache::create(10).unwrap();
    assert_eq!(token_info(cache.get_current_key()).err().unwrap().code, StatusCode::NotFound);
    assert_eq!(token_info(cache.get_next_key()).err().unwrap().code, StatusCode::NotFound);
}

#[test]
fn failed_issuance_is_aborted() {
    let r = token_response(Err(TokenIssuerError::TokenError("x".to_string())));
    assert_eq!(r.err().unwrap().code, StatusCode::Aborted);
}

#[test]
fn remaining_authority_errors_are_aborted() {
    assert_eq!(key_manager_status(KeyManagerError::DeserializationError("x".to_string())).code, StatusCode::Aborted);
    assert_eq!(key_manager_status(KeyManagerError::ConfigError("x".to_string())).code, StatusCode::Aborted);
}
