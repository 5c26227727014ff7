use veronymous_keys::epoch::{compute_epoch, key_epochs, seconds_until_next_epoch};
use veronymous_keys::key_id::{decimal_bytes, key_id, KeyRole};

#[test]
fn epoch_is_constant_within_a_window() {
    for t in 600..1200u64 {
        assert_eq!(compute_epoch(t, 600), 600);
    }
    assert_eq!(compute_epoch(1200, 600), 1200);
    assert_eq!(compute_epoch(599, 600), 0);
}

#[test]
fn epochs_at_one_thousand_seconds() {
    assert_eq!(key_epochs(1000, 600), (600, 1200));
}

#[test]
fn epoch_of_zero_and_of_a_boundary() {
    assert_eq!(compute_epoch(0, 60), 0);
    assert_eq!(key_epochs(3600, 3600), (3600, 7200));
}

#[test]
fn epoch_with_the_largest_time() {
    assert_eq!(compute_epoch(u64::MAX, 10), u64::MAX - 5);
}

#[test]
fn seconds_until_the_next_boundary() {
    assert_eq!(seconds_until_next_epoch(1000, 600), 200);
    assert_eq!(seconds_until_next_epoch(1200, 600), 600);
    assert_eq!(seconds_until_next_epoch(1199, 600), 1);
}

#[test]
fn decimal_rendering() {
    assert_eq!(decimal_bytes(0), b"0".to_vec());
    assert_eq!(decimal_bytes(7), b"7".to_vec());
    assert_eq!(decimal_bytes(600), b"600".to_vec());
    assert_eq!(decimal_bytes(u64::MAX), b"18446744073709551615".to_vec());
}

#[test]
fn key_ids_per_role() {
    assert_eq!(key_id(600, KeyRole::Params), b"600-key_params".to_vec());
    assert_eq!(key_id(600, KeyRole::SigningKey), b"600-signing_key".to_vec());
    assert_eq!(key_id(1200, KeyRole::PublicKey), b"1200-public_key".to_vec());
}
