use newsletter::config::ApplicationBaseUrl;
use newsletter::domain::NewSubscriber;
use newsletter::store::{Store, StoreError, Subscriber, SubscriberStatus};
use newsletter::subscriptions::{
    complete_subscription, insert_subscription_token, newsletter_subscribe,
    NewsletterSubscriptionFormData, SubscribeError,
};

fn base_url() -> ApplicationBaseUrl {
    ApplicationBaseUrl("https://example.test".to_string())
}

#[test]
fn subscribe_to_newsletter_returns_200_with_valid_form_data() {
    let mut store = Store::new();
    let form = NewsletterSubscriptionFormData {
        name: "JohnDoe".to_string(),
        email: "test@test.com".to_string(),
    };

    assert!(newsletter_subscribe(&mut store, form, &base_url()).is_ok());
}

#[test]
fn subscriber_to_newsletter_persists_the_new_subscriber() {
    let mut store = Store::new();
    let form = NewsletterSubscriptionFormData {
        name: "JohnDoe".to_string(),
        email: "test@test.com".to_string(),
    };

    let request = newsletter_subscribe(&mut store, form, &base_url()).unwrap();

    assert_eq!(store.subscribers.len(), 1);
    let saved = &store.subscribers[0];
    assert_eq!(saved.email, "test@test.com");
    assert_eq!(saved.name, "JohnDoe");
    assert!(matches!(saved.status, SubscriberStatus::PendingConfirmation));

    assert_eq!(store.tokens.len(), 1);
    let token = &store.tokens[0];
    assert_eq!(token.subscriber_id, saved.id);
    assert_eq!(token.token.chars().count(), 25);

    let link = format!(
        "https://example.test/newsletters/subscriptions/confirm?subscription_token={}",
        token.token
    );
    assert_eq!(request.to, "test@test.com");
    assert_eq!(request.subject, "Welcome");
    assert!(request.html_part.contains(&link));
    assert!(request.text_part.contains(&link));
}

#[test]
fn subscribe_to_newsletter_returns_400_when_fields_are_present_but_invalid() {
    let cases = [
        ("", "test2@test.com", "empty name"),
        ("JohnDoe", "", "empty email"),
        ("JohnDoe", "invalidemailcom", "invalid email"),
    ];

    for (name, email, reason) in cases {
        let mut store = Store::new();
        let form = NewsletterSubscriptionFormData {
            name: name.to_string(),
            email: email.to_string(),
        };

        let error = newsletter_subscribe(&mut store, form, &base_url()).unwrap_err();
        assert!(
            matches!(error, SubscribeError::ValidationError(_)),
            "expected a validation failure for {}",
            reason
        );
        assert_eq!(error.status_code(), 400);
        assert_eq!(store.subscribers.len(), 0, "no row may be inserted for {}", reason);
        assert_eq!(store.tokens.len(), 0);
    }
}

#[test]
fn validation_reports_the_name_before_the_email() {
    let form = NewsletterSubscriptionFormData {
        name: "".to_string(),
        email: "invalidemailcom".to_string(),
    };

    let message = NewSubscriber::try_from(form).unwrap_err();
    assert_eq!(message, " is not a valid subscriber name.");
}

#[test]
fn duplicate_token_insert_is_a_conflict() {
    let mut store = Store::new();
    store.subscribers.push(Subscriber {
        id: 7,
        email: "a@a.com".to_string(),
        name: "A".to_string(),
        status: SubscriberStatus::PendingConfirmation,
        subscribed_at: 0,
    });

    let token = "ABCDEFGHIJKLMNOPQRSTUVWXY".to_string();
    assert!(insert_subscription_token(&mut store, 7, &token).is_ok());
    assert_eq!(
        insert_subscription_token(&mut store, 7, &token).unwrap_err(),
        StoreError::TokenTaken
    );
    assert_eq!(store.tokens.len(), 1);
}

#[test]
fn token_for_unknown_subscriber_is_a_constraint_fault() {
    let mut store = Store::new();

    let token = "ABCDEFGHIJKLMNOPQRSTUVWXY".to_string();
    assert_eq!(
        insert_subscription_token(&mut store, 7, &token).unwrap_err(),
        StoreError::NoSuchSubscriber
    );
    assert_eq!(store.tokens.len(), 0);
}

#[test]
fn two_subscriptions_for_the_same_email_both_succeed() {
    let mut store = Store::new();
    for _ in 0..2 {
        let form = NewsletterSubscriptionFormData {
            name: "JohnDoe".to_string(),
            email: "test@test.com".to_string(),
        };
        assert!(newsletter_subscribe(&mut store, form, &base_url()).is_ok());
    }

    assert_eq!(store.subscribers.len(), 2);
    assert_eq!(store.tokens.len(), 2);
}

#[test]
fn failed_confirmation_send_is_an_unexpected_error() {
    let outcome = complete_subscription(Err("the provider refused".to_string()));

    let error = outcome.unwrap_err();
    assert!(matches!(error, SubscribeError::UnexpectedError(_)));
    assert_eq!(error.status_code(), 500);

    assert!(complete_subscription(Ok(())).is_ok());
}
