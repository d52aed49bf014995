use zero2prod::idempotency::key::IdempotencyKey;

#[test]
fn an_empty_key_is_rejected() {
    let err = IdempotencyKey::try_from("".to_string()).unwrap_err();
    assert_eq!(err, "Idempotency Key cannot be empty");
}

#[test]
fn a_key_of_50_bytes_or_more_is_rejected() {
    let err = IdempotencyKey::try_from("k".repeat(50)).unwrap_err();
    assert_eq!(err, "Idempotency Key must be shorter than 50");
}

#[test]
fn a_short_key_is_kept_unchanged() {
    let key = IdempotencyKey::try_from("retry-attempt-7".to_string()).unwrap();
    assert_eq!(key.as_ref(), "retry-attempt-7");
    assert_eq!(key.into_string(), "retry-attempt-7");
}

#[test]
fn a_49_byte_key_is_accepted() {
    assert!(IdempotencyKey::try_from("k".repeat(49)).is_ok());
}
