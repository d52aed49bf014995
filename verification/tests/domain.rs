use zero2prod::domain::FormData;
use zero2prod::domain::NewSubscriber;
use zero2prod::domain::SubscriberName;
use zero2prod::domain::subscriber_email::SubscriberEmail;

#[test]
fn empty_string_is_rejected() {
    let email = "".to_string();
    assert!(SubscriberEmail::parse(email).is_err());
}

#[test]
fn missing_at_symbol_is_rejected() {
    let email = "bobgmail.com".to_string();
    assert!(SubscriberEmail::parse(email).is_err());
}

#[test]
fn missing_address_subject_is_rejected() {
    let email = "@gmail.com".to_string();
    assert!(SubscriberEmail::parse(email).is_err());
}

#[test]
fn valid_email_is_accepted_unchanged() {
    let email = SubscriberEmail::parse("bob@test.com".to_string()).unwrap();
    assert_eq!(email.as_ref(), "bob@test.com");
}

#[test]
fn invalid_email_error_names_the_address() {
    let err = SubscriberEmail::parse("not-an-email".to_string()).unwrap_err();
    assert_eq!(err, "not-an-email is not a valid email");
}

#[test]
fn a_valid_name_is_accepted_unchanged() {
    let name = SubscriberName::parse("bob bobbington".to_string()).unwrap();
    assert_eq!(name.inner_ref(), "bob bobbington");
    assert_eq!(name.inner(), "bob bobbington");
}

#[test]
fn an_empty_name_is_rejected() {
    assert!(SubscriberName::parse("".to_string()).is_err());
}

#[test]
fn a_whitespace_only_name_is_rejected() {
    assert!(SubscriberName::parse("   \t\n".to_string()).is_err());
    assert!(SubscriberName::parse("\u{a0}\u{2003}".to_string()).is_err());
}

#[test]
fn a_256_grapheme_name_is_accepted() {
    let name = "ё".repeat(256);
    assert!(SubscriberName::parse(name).is_ok());
}

#[test]
fn multi_codepoint_graphemes_count_once() {
    // 256 clusters of letter-plus-combining-mark: 512 code points, accepted
    let name = "a\u{310}".repeat(256);
    assert_eq!(name.chars().count(), 512);
    assert!(SubscriberName::parse(name).is_ok());
}

#[test]
fn a_name_longer_than_256_graphemes_is_rejected() {
    let name = "ё".repeat(257);
    assert!(SubscriberName::parse(name).is_err());
}

#[test]
fn names_containing_a_forbidden_character_are_rejected() {
    for c in ['/', '(', ')', '[', ']', '{', '}', '"', '<', '>', '\\'] {
        let name = format!("bob{c}bobbington");
        assert!(SubscriberName::parse(name).is_err());
    }
}

#[test]
fn invalid_name_error_names_the_input() {
    let err = SubscriberName::parse("b<b".to_string()).unwrap_err();
    assert_eq!(err, "b<b is not a valid name");
}

#[test]
fn a_form_with_valid_fields_becomes_a_new_subscriber() {
    let form = FormData { email: "bob@test.com".to_string(), name: "bob bobbington".to_string() };
    let subscriber = NewSubscriber::try_from(form).unwrap();
    assert_eq!(subscriber.name.inner_ref(), "bob bobbington");
    assert_eq!(subscriber.email.as_ref(), "bob@test.com");
}

#[test]
fn a_form_with_an_invalid_name_reports_the_name() {
    let form = FormData { email: "bob@test.com".to_string(), name: "".to_string() };
    let err = NewSubscriber::try_from(form).unwrap_err();
    assert_eq!(err, " is not a valid name");
}

#[test]
fn a_form_with_an_invalid_email_reports_the_email() {
    let form = FormData { email: "nope".to_string(), name: "bob".to_string() };
    let err = NewSubscriber::try_from(form).unwrap_err();
    assert_eq!(err, "nope is not a valid email");
}
