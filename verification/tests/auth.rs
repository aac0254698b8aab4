//! Credential codec and session token service behaviour.

use rush::account::AccountId;
use rush::credentials::{hash_password, verify_password};
use rush::errors::Error;
use rush::token::{issue_token, issue_token_at, verify_token, verify_token_at};

const KEY: [u8; 32] = [7u8; 32];
const OTHER_KEY: [u8; 32] = [8u8; 32];

#[test]
fn hash_then_verify_accepts_the_password() {
    let hash = hash_password(b"correct horse").expect("hashing failed");
    assert_eq!(verify_password(&hash, b"correct horse"), Ok(true));
}

#[test]
fn hash_then_verify_rejects_other_passwords() {
    let hash = hash_password(b"correct horse").expect("hashing failed");
    assert_eq!(verify_password(&hash, b"battery staple"), Ok(false));
    assert_eq!(verify_password(&hash, b""), Ok(false));
}

#[test]
fn two_hashes_of_one_password_differ_but_both_verify() {
    let h1 = hash_password(b"same password").expect("hashing failed");
    let h2 = hash_password(b"same password").expect("hashing failed");
    assert_ne!(h1, h2);
    assert_eq!(verify_password(&h1, b"same password"), Ok(true));
    assert_eq!(verify_password(&h2, b"same password"), Ok(true));
}

#[test]
fn verify_rejects_a_malformed_hash_string() {
    assert_eq!(verify_password("not a phc string", b"pw"), Err(Error::HashingError));
}

#[test]
fn issued_token_validates_inside_its_window() {
    let token = issue_token_at(&KEY, AccountId(42), 1_000).expect("issue failed");
    let session = verify_token_at(&KEY, &token, 1_000).expect("validate failed");
    assert_eq!(session.account_id, AccountId(42));
    assert_eq!(session.nbf, 1_000);
    assert_eq!(session.exp, 1_000 + 86_400);
    // still valid one second before expiry
    let late = verify_token_at(&KEY, &token, 1_000 + 86_399).expect("validate failed");
    assert_eq!(late.account_id, AccountId(42));
}

#[test]
fn expired_token_fails_validation() {
    let token = issue_token_at(&KEY, AccountId(42), 1_000).expect("issue failed");
    assert_eq!(verify_token_at(&KEY, &token, 1_000 + 86_400), Err(Error::CannotDecryptToken));
    assert_eq!(verify_token_at(&KEY, &token, 5_000_000), Err(Error::CannotDecryptToken));
}

#[test]
fn token_before_its_not_before_fails_validation() {
    let token = issue_token_at(&KEY, AccountId(42), 1_000).expect("issue failed");
    assert_eq!(verify_token_at(&KEY, &token, 999), Err(Error::CannotDecryptToken));
}

#[test]
fn token_under_a_different_key_fails_validation() {
    let token = issue_token_at(&KEY, AccountId(42), 1_000).expect("issue failed");
    assert_eq!(verify_token_at(&OTHER_KEY, &token, 1_000), Err(Error::CannotDecryptToken));
}

#[test]
fn damaged_or_foreign_strings_fail_validation() {
    assert_eq!(verify_token_at(&KEY, "", 1_000), Err(Error::CannotDecryptToken));
    assert_eq!(verify_token_at(&KEY, "not a token", 1_000), Err(Error::CannotDecryptToken));
    assert_eq!(verify_token_at(&KEY, "v2.local.AAAA", 1_000), Err(Error::CannotDecryptToken));
    let token = issue_token_at(&KEY, AccountId(42), 1_000).expect("issue failed");
    let mut damaged = token.clone();
    damaged.pop();
    assert_eq!(verify_token_at(&KEY, &damaged, 1_000), Err(Error::CannotDecryptToken));
}

#[test]
fn issue_with_a_wrongly_sized_key_fails() {
    assert_eq!(issue_token_at(&[1u8; 5], AccountId(1), 0), Err(Error::HashingError));
}

#[test]
fn clock_based_issue_and_validate_round_trip() {
    let token = issue_token(&KEY, AccountId(7)).expect("issue failed");
    let session = verify_token(&KEY, &token).expect("validate failed");
    assert_eq!(session.account_id, AccountId(7));
}
