use zero2prod::domain::FormData;
use zero2prod::domain::subscriber_email::SubscriberEmail;
use zero2prod::email_client::EmailClient;
use zero2prod::startup::ApplicationBaseUrl;
use zero2prod::store::SubscriberStatus;
use zero2prod::store::SubscriptionStore;
use zero2prod::subscriptions::SubscribeError;
use zero2prod::subscriptions::generate_subscribe_token;
use zero2prod::subscriptions::subscribe;

fn test_form() -> FormData {
    FormData { email: "bob@test.com".to_string(), name: "bob bobbington".to_string() }
}

fn test_sender() -> EmailClient {
    let sender = SubscriberEmail::parse("newsletter@test.com".to_string()).unwrap();
    EmailClient::new(sender)
}

fn test_base_url() -> ApplicationBaseUrl {
    ApplicationBaseUrl("http://127.0.0.1".to_string())
}

#[test]
fn subsribe_returns_200_for_valid_req() {
    let mut store = SubscriptionStore::new();
    let mut email_client = test_sender();
    let outcome = subscribe(test_form(), &mut store, &mut email_client, &test_base_url());
    assert!(outcome.is_ok());
}

#[test]
fn subscribe_persists_the_new_subscriber() {
    let mut store = SubscriptionStore::new();
    let mut email_client = test_sender();
    subscribe(test_form(), &mut store, &mut email_client, &test_base_url()).unwrap();
    assert_eq!(store.subscribers.len(), 1);
    let saved = &store.subscribers[0];
    assert_eq!(saved.email, "bob@test.com");
    assert_eq!(saved.name, "bob bobbington");
    assert_eq!(saved.status, SubscriberStatus::PendingConfirmation);
    assert_eq!(store.tokens.len(), 1);
    assert_eq!(store.tokens[0].subscriber_id, saved.id);
}

#[test]
fn subscribe_returns_a_400_when_fields_are_present_but_empty() {
    let cases = vec![
        ("", "ursula_le_guin@gmail.com", "empty name"),
        ("Ursula", "", "empty email"),
        ("Ursula", "not-an-email", "invalid email"),
    ];
    for (name, email, description) in cases {
        let mut store = SubscriptionStore::new();
        let mut email_client = test_sender();
        let form = FormData { email: email.to_string(), name: name.to_string() };
        let err = subscribe(form, &mut store, &mut email_client, &test_base_url()).unwrap_err();
        assert_eq!(
            err.status_code(),
            400,
            "The API did not reject the payload with a {description}"
        );
        assert_eq!(store.subscribers.len(), 0);
        assert_eq!(store.tokens.len(), 0);
        assert_eq!(email_client.sent.len(), 0);
    }
}

#[test]
fn subscribe_sends_a_confirmation_email_for_valid_data() {
    let mut store = SubscriptionStore::new();
    let mut email_client = test_sender();
    subscribe(test_form(), &mut store, &mut email_client, &test_base_url()).unwrap();
    assert_eq!(email_client.sent.len(), 1);
    assert_eq!(email_client.sent[0].recipient, "bob@test.com");
    assert_eq!(email_client.sent[0].subject, "Welcome!");
}

#[test]
fn subscribe_sends_a_confirmation_email_with_a_link() {
    let mut store = SubscriptionStore::new();
    let mut email_client = test_sender();
    subscribe(test_form(), &mut store, &mut email_client, &test_base_url()).unwrap();
    let message = &email_client.sent[0];
    let marker = "http://127.0.0.1/subscriptions/confirm?subscription_token=";
    // exactly one link in each body, both carrying the issued token
    assert_eq!(message.html_body.matches(marker).count(), 1);
    assert_eq!(message.text_body.matches(marker).count(), 1);
    let start = message.html_body.find(marker).unwrap() + marker.len();
    let token = &message.html_body[start..start + 25];
    assert_eq!(store.tokens[0].token, token);
    assert!(message.text_body.contains(&format!("{marker}{token}")));
}

#[test]
fn subscribe_fails_if_there_is_a_fatal_db_error() {
    let mut store = SubscriptionStore::new();
    store.fail_store_token = true;
    let mut email_client = test_sender();
    let err = subscribe(test_form(), &mut store, &mut email_client, &test_base_url()).unwrap_err();
    assert_eq!(err.status_code(), 500);
    assert!(matches!(err, SubscribeError::StoreTokenError(_)));
    // the transaction was rolled back: no subscriber row points at a missing token
    assert_eq!(store.subscribers.len(), 0);
    assert_eq!(store.tokens.len(), 0);
    assert_eq!(email_client.sent.len(), 0);
}

#[test]
fn subscribe_fails_when_the_pool_is_exhausted() {
    let mut store = SubscriptionStore::new();
    store.fail_begin = true;
    let mut email_client = test_sender();
    let err = subscribe(test_form(), &mut store, &mut email_client, &test_base_url()).unwrap_err();
    assert!(matches!(err, SubscribeError::PoolError));
    assert_eq!(err.status_code(), 500);
    assert_eq!(err.message(), "Failed to acquire connection from pool");
    assert_eq!(store.subscribers.len(), 0);
}

#[test]
fn subscribe_fails_when_the_insert_is_refused() {
    let mut store = SubscriptionStore::new();
    store.fail_insert_subscriber = true;
    let mut email_client = test_sender();
    let err = subscribe(test_form(), &mut store, &mut email_client, &test_base_url()).unwrap_err();
    assert!(matches!(err, SubscribeError::InsertSubscriberError));
    assert_eq!(store.subscribers.len(), 0);
    assert_eq!(email_client.sent.len(), 0);
}

#[test]
fn subscribe_fails_when_the_commit_is_refused() {
    let mut store = SubscriptionStore::new();
    store.fail_commit = true;
    let mut email_client = test_sender();
    let err = subscribe(test_form(), &mut store, &mut email_client, &test_base_url()).unwrap_err();
    assert!(matches!(err, SubscribeError::TransactionCommitError));
    assert_eq!(store.subscribers.len(), 0);
    assert_eq!(store.tokens.len(), 0);
    assert_eq!(email_client.sent.len(), 0);
}

#[test]
fn a_failed_email_dispatch_keeps_the_committed_subscription() {
    let mut store = SubscriptionStore::new();
    let sender = SubscriberEmail::parse("newsletter@test.com".to_string()).unwrap();
    let mut email_client = EmailClient::new(sender);
    email_client.fail_sending = true;
    let err = subscribe(test_form(), &mut store, &mut email_client, &test_base_url()).unwrap_err();
    assert!(matches!(err, SubscribeError::SendEmailError));
    assert_eq!(err.status_code(), 500);
    // commit comes before send: the pending subscription survives the outage
    assert_eq!(store.subscribers.len(), 1);
    assert_eq!(store.tokens.len(), 1);
    assert_eq!(email_client.sent.len(), 0);
}

#[test]
fn generated_tokens_are_25_alphanumeric_characters() {
    let token = generate_subscribe_token();
    assert_eq!(token.chars().count(), 25);
    assert!(token.chars().all(|c| c.is_ascii_alphanumeric()));
}

#[test]
fn two_generated_tokens_differ() {
    assert_ne!(generate_subscribe_token(), generate_subscribe_token());
}

#[test]
fn validation_errors_map_to_400_and_keep_their_message() {
    let err = SubscribeError::ValidationError("nope is not a valid email".to_string());
    assert_eq!(err.status_code(), 400);
    assert_eq!(err.message(), "nope is not a valid email");
}
