use zero2prod::domain::FormData;
use zero2prod::domain::subscriber_email::SubscriberEmail;
use zero2prod::email_client::EmailClient;
use zero2prod::startup::ApplicationBaseUrl;
use zero2prod::store::SubscriberStatus;
use zero2prod::store::SubscriptionStore;
use zero2prod::subscriptions::subscribe;
use zero2prod::subscriptions_confirm::ConfirmOutcome;
use zero2prod::subscriptions_confirm::Parameters;
use zero2prod::subscriptions_confirm::confirm;

fn subscribed_store() -> (SubscriptionStore, String) {
    let mut store = SubscriptionStore::new();
    let sender = SubscriberEmail::parse("newsletter@test.com".to_string()).unwrap();
    let mut email_client = EmailClient::new(sender);
    let form = FormData { email: "bob@test.com".to_string(), name: "bob bobbington".to_string() };
    let base_url = ApplicationBaseUrl("http://127.0.0.1".to_string());
    subscribe(form, &mut store, &mut email_client, &base_url).unwrap();
    // redeem the link exactly as the email carries it
    let marker = "http://127.0.0.1/subscriptions/confirm?subscription_token=";
    let html = &email_client.sent[0].html_body;
    let start = html.find(marker).unwrap() + marker.len();
    let token = html[start..start + 25].to_string();
    (store, token)
}

#[test]
fn confirmations_without_a_token_are_rejected() {
    let mut store = SubscriptionStore::new();
    let outcome = confirm(None, &mut store);
    assert_eq!(outcome, ConfirmOutcome::MissingToken);
    assert_eq!(outcome.status_code(), 400);
}

#[test]
fn confirmations_with_an_empty_token_are_rejected() {
    let mut store = SubscriptionStore::new();
    let parameters = Parameters { subscription_token: "".to_string() };
    let outcome = confirm(Some(parameters), &mut store);
    assert_eq!(outcome, ConfirmOutcome::MissingToken);
    assert_eq!(outcome.status_code(), 400);
}

#[test]
fn the_link_returned_by_subscribe_returns_a_200_if_called() {
    let (mut store, token) = subscribed_store();
    let parameters = Parameters { subscription_token: token };
    let outcome = confirm(Some(parameters), &mut store);
    assert_eq!(outcome, ConfirmOutcome::Success);
    assert_eq!(outcome.status_code(), 200);
}

#[test]
fn clicking_on_a_confirm_link_confirms_a_subscriber_in_db() {
    let (mut store, token) = subscribed_store();
    let parameters = Parameters { subscription_token: token };
    let outcome = confirm(Some(parameters), &mut store);
    assert_eq!(outcome, ConfirmOutcome::Success);
    assert_eq!(store.subscribers.len(), 1);
    let saved = &store.subscribers[0];
    assert_eq!(saved.email, "bob@test.com");
    assert_eq!(saved.name, "bob bobbington");
    assert_eq!(saved.status, SubscriberStatus::Confirmed);
}

#[test]
fn an_unissued_token_is_unauthorized_and_changes_nothing() {
    let (mut store, token) = subscribed_store();
    let other = if token.starts_with('A') { "B".repeat(25) } else { "A".repeat(25) };
    let parameters = Parameters { subscription_token: other };
    let outcome = confirm(Some(parameters), &mut store);
    assert_eq!(outcome, ConfirmOutcome::UnrecognizedToken);
    assert_eq!(outcome.status_code(), 401);
    assert_eq!(store.subscribers[0].status, SubscriberStatus::PendingConfirmation);
}

#[test]
fn confirming_twice_with_the_same_token_is_idempotent() {
    let (mut store, token) = subscribed_store();
    let first = confirm(Some(Parameters { subscription_token: token.clone() }), &mut store);
    assert_eq!(first, ConfirmOutcome::Success);
    assert_eq!(store.subscribers[0].status, SubscriberStatus::Confirmed);
    let second = confirm(Some(Parameters { subscription_token: token }), &mut store);
    assert_eq!(second, ConfirmOutcome::Success);
    assert_eq!(second.status_code(), 200);
    assert_eq!(store.subscribers.len(), 1);
    assert_eq!(store.subscribers[0].status, SubscriberStatus::Confirmed);
}

#[test]
fn a_lookup_fault_surfaces_as_an_internal_error() {
    let (mut store, token) = subscribed_store();
    store.fail_lookup = true;
    let outcome = confirm(Some(Parameters { subscription_token: token }), &mut store);
    assert_eq!(outcome, ConfirmOutcome::LookupFailed);
    assert_eq!(outcome.status_code(), 500);
    assert_eq!(store.subscribers[0].status, SubscriberStatus::PendingConfirmation);
}

#[test]
fn an_update_fault_surfaces_as_an_internal_error() {
    let (mut store, token) = subscribed_store();
    store.fail_update = true;
    let outcome = confirm(Some(Parameters { subscription_token: token }), &mut store);
    assert_eq!(outcome, ConfirmOutcome::UpdateFailed);
    assert_eq!(outcome.status_code(), 500);
    assert_eq!(store.subscribers[0].status, SubscriberStatus::PendingConfirmation);
}
