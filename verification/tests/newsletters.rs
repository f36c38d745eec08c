use argon2::PasswordHasher;
use base64::Engine;

use newsletter::newsletters::{
    basic_authentication, complete_publish, get_confirmed_subscribers, publish_newsletter,
    ConfirmedSubscriber, Content, PublishNewsletterBodyData, PublishNewsletterError,
};
use newsletter::store::{Credential, Store, Subscriber, SubscriberStatus};

fn phc_hash(password: &str) -> String {
    argon2::Argon2::default()
        .hash_password_with_salt(password.as_bytes(), b"fixed-test-salt!")
        .unwrap()
        .to_string()
}

fn basic_header(username: &str, password: &str) -> String {
    let payload =
        base64::engine::general_purpose::STANDARD.encode(format!("{}:{}", username, password));
    format!("Basic {}", payload)
}

fn subscriber(id: u128, email: &str, status: SubscriberStatus) -> Subscriber {
    Subscriber {
        id,
        email: email.to_string(),
        name: "Somebody".to_string(),
        status,
        subscribed_at: 0,
    }
}

fn populated_store() -> Store {
    let mut store = Store::new();
    store.subscribers.push(subscriber(1, "first@test.com", SubscriberStatus::Confirmed));
    store.subscribers.push(subscriber(2, "pending@test.com", SubscriberStatus::PendingConfirmation));
    store.subscribers.push(subscriber(3, "corrupt-email", SubscriberStatus::Confirmed));
    store.subscribers.push(subscriber(4, "second@test.com", SubscriberStatus::Confirmed));
    store.credentials.push(Credential {
        user_id: 42,
        username: "publisher".to_string(),
        password_hash: phc_hash("open sesame"),
    });
    store
}

fn body() -> PublishNewsletterBodyData {
    PublishNewsletterBodyData {
        title: "Issue one".to_string(),
        content: Content {
            html: "<p>news</p>".to_string(),
            text: "news".to_string(),
        },
    }
}

#[test]
fn publish_sends_one_email_per_confirmed_valid_subscriber() {
    let store = populated_store();
    let header = basic_header("publisher", "open sesame");

    let requests = publish_newsletter(&store, Some(&header), &body()).unwrap();

    assert_eq!(requests.len(), 2);
    assert_eq!(requests[0].to, "first@test.com");
    assert_eq!(requests[1].to, "second@test.com");
    for request in &requests {
        assert_eq!(request.subject, "Issue one");
        assert_eq!(request.html_part, "<p>news</p>");
        assert_eq!(request.text_part, "news");
    }
}

#[test]
fn publish_without_basic_prefix_is_an_authentication_error() {
    let store = populated_store();
    let header = "Bearer something".to_string();

    let error = publish_newsletter(&store, Some(&header), &body()).unwrap_err();

    assert!(matches!(error, PublishNewsletterError::AuthenticationError(_)));
    let (status, challenge) = error.error_response();
    assert_eq!(status, 401);
    assert_eq!(challenge.unwrap(), "Basic realm=\"publish\"");
}

#[test]
fn publish_without_header_is_an_authentication_error() {
    let store = populated_store();

    let error = publish_newsletter(&store, None, &body()).unwrap_err();

    assert!(matches!(error, PublishNewsletterError::AuthenticationError(_)));
}

#[test]
fn publish_with_wrong_password_is_an_authentication_error() {
    let store = populated_store();
    let header = basic_header("publisher", "wrong password");

    let error = publish_newsletter(&store, Some(&header), &body()).unwrap_err();

    assert!(matches!(error, PublishNewsletterError::AuthenticationError(_)));
}

#[test]
fn publish_with_unknown_username_is_an_authentication_error() {
    let store = populated_store();
    let header = basic_header("nobody", "open sesame");

    let error = publish_newsletter(&store, Some(&header), &body()).unwrap_err();

    assert!(matches!(error, PublishNewsletterError::AuthenticationError(_)));
}

#[test]
fn publish_with_unusable_stored_hash_is_an_unexpected_error() {
    let mut store = populated_store();
    store.credentials[0].password_hash = "not a phc string".to_string();
    let header = basic_header("publisher", "open sesame");

    let error = publish_newsletter(&store, Some(&header), &body()).unwrap_err();

    assert!(matches!(error, PublishNewsletterError::UnexpectedError(_)));
    let (status, challenge) = error.error_response();
    assert_eq!(status, 500);
    assert!(challenge.is_none());
}

#[test]
fn basic_authentication_yields_the_carried_credentials() {
    let header = basic_header("user name", "pa:ss:word");

    let credentials = basic_authentication(Some(&header)).unwrap();

    assert_eq!(credentials.username, "user name");
    assert_eq!(credentials.password, "pa:ss:word");
}

#[test]
fn basic_authentication_reports_each_failure() {
    assert_eq!(
        basic_authentication(None).unwrap_err(),
        "The 'Authorization' header was missing"
    );
    assert_eq!(
        basic_authentication(Some(&"Bearer abc".to_string())).unwrap_err(),
        "The authorization scheme was not 'Basic'."
    );
    assert_eq!(
        basic_authentication(Some(&"Basic !!!".to_string())).unwrap_err(),
        "Failed to base64-decode 'Basic' credentials."
    );
    let invalid_utf8 = format!(
        "Basic {}",
        base64::engine::general_purpose::STANDARD.encode([0xff, 0xfe, 0xfd])
    );
    assert_eq!(
        basic_authentication(Some(&invalid_utf8)).unwrap_err(),
        "The decoded credential string is not valid UTF8."
    );
    let no_colon = format!(
        "Basic {}",
        base64::engine::general_purpose::STANDARD.encode("just-a-user")
    );
    assert_eq!(
        basic_authentication(Some(&no_colon)).unwrap_err(),
        "A password must be provided in 'Basic' auth."
    );
}

#[test]
fn confirmed_subscribers_skip_unparseable_stored_emails() {
    let store = populated_store();

    let confirmed = get_confirmed_subscribers(&store);

    assert_eq!(confirmed.len(), 3);
    let ok: Vec<&ConfirmedSubscriber> = confirmed.iter().filter_map(|r| r.as_ref().ok()).collect();
    assert_eq!(ok.len(), 2);
    assert_eq!(ok[0].email.as_ref(), "first@test.com");
    assert_eq!(ok[1].email.as_ref(), "second@test.com");
    assert!(confirmed[1].is_err());
}

#[test]
fn failed_newsletter_send_is_an_unexpected_error() {
    let error = complete_publish(Err("provider down".to_string())).unwrap_err();

    assert!(matches!(error, PublishNewsletterError::UnexpectedError(_)));
    assert!(complete_publish(Ok(())).is_ok());
}
