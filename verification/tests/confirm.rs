use newsletter::config::ApplicationBaseUrl;
use newsletter::store::{Store, SubscriberStatus};
use newsletter::subscriptions::{newsletter_subscribe, NewsletterSubscriptionFormData};
use newsletter::subscriptions_confirm::{
    get_subscriber_id_from_token, newsletter_subscription_confirm, ConfirmOutcome, Parameters,
};

fn subscribed_store() -> Store {
    let mut store = Store::new();
    let form = NewsletterSubscriptionFormData {
        name: "JohnDoe".to_string(),
        email: "test@test.com".to_string(),
    };
    let base = ApplicationBaseUrl("https://example.test".to_string());
    newsletter_subscribe(&mut store, form, &base).unwrap();
    store
}

#[test]
fn the_issued_token_confirms_its_subscriber() {
    let mut store = subscribed_store();
    let token = store.tokens[0].token.clone();

    let outcome = newsletter_subscription_confirm(
        &mut store,
        &Parameters { subscription_token: token.clone() },
    );

    assert_eq!(outcome, ConfirmOutcome::Confirmed);
    assert_eq!(outcome.status_code(), 200);
    assert!(matches!(store.subscribers[0].status, SubscriberStatus::Confirmed));
    assert_eq!(get_subscriber_id_from_token(&store, &token), Some(store.subscribers[0].id));
}

#[test]
fn confirming_the_same_token_twice_is_idempotent() {
    let mut store = subscribed_store();
    let token = store.tokens[0].token.clone();
    let params = Parameters { subscription_token: token };

    assert_eq!(newsletter_subscription_confirm(&mut store, &params), ConfirmOutcome::Confirmed);
    assert_eq!(newsletter_subscription_confirm(&mut store, &params), ConfirmOutcome::Confirmed);

    assert_eq!(store.subscribers.len(), 1);
    assert!(matches!(store.subscribers[0].status, SubscriberStatus::Confirmed));
}

#[test]
fn an_unknown_token_is_unauthorized_not_unexpected() {
    let mut store = subscribed_store();

    let outcome = newsletter_subscription_confirm(
        &mut store,
        &Parameters { subscription_token: "0123456789".to_string() },
    );

    assert_eq!(outcome, ConfirmOutcome::UnknownToken);
    assert_eq!(outcome.status_code(), 401);
    assert!(matches!(store.subscribers[0].status, SubscriberStatus::PendingConfirmation));
}

#[test]
fn confirmation_touches_only_the_owning_subscriber() {
    let mut store = subscribed_store();
    let base = ApplicationBaseUrl("https://example.test".to_string());
    let form = NewsletterSubscriptionFormData {
        name: "JaneDoe".to_string(),
        email: "jane@test.com".to_string(),
    };
    newsletter_subscribe(&mut store, form, &base).unwrap();

    let second_token = store.tokens[1].token.clone();
    newsletter_subscription_confirm(
        &mut store,
        &Parameters { subscription_token: second_token },
    );

    assert!(matches!(store.subscribers[0].status, SubscriberStatus::PendingConfirmation));
    assert!(matches!(store.subscribers[1].status, SubscriberStatus::Confirmed));
}
