use argon2::PasswordHasher;

use newsletter::config::HmacSecret;
use newsletter::errors::error_chain_fmt;
use newsletter::login::{login, login_form, FormData, LoginError, QueryParams};
use newsletter::signing::{sign_error_message, verify_error_message};
use newsletter::store::{Credential, Store};

fn store_with_user() -> Store {
    let mut store = Store::new();
    let hash = argon2::Argon2::default()
        .hash_password_with_salt(b"open sesame", b"fixed-test-salt!")
        .unwrap()
        .to_string();
    store.credentials.push(Credential {
        user_id: 42,
        username: "admin".to_string(),
        password_hash: hash,
    });
    store
}

fn secret() -> HmacSecret {
    HmacSecret("super-secret".to_string())
}

#[test]
fn login_with_correct_password_redirects_home() {
    let store = store_with_user();
    let form = FormData { username: "admin".to_string(), password: "open sesame".to_string() };

    let success = login(form, &store, &secret()).unwrap();

    assert_eq!(success.user_id, 42);
    assert_eq!(success.location, "/");
}

#[test]
fn login_with_wrong_password_redirects_with_a_signed_reason() {
    let store = store_with_user();
    let form = FormData { username: "admin".to_string(), password: "wrong".to_string() };

    let failure = login(form, &store, &secret()).unwrap_err();

    assert!(matches!(failure.error, LoginError::AuthenticationError(_)));
    let prefix = "/login?error=Authentication%20failed.&tag=";
    assert!(failure.location.starts_with(prefix));
    let tag = failure.location[prefix.len()..].to_string();
    assert!(verify_error_message("Authentication failed.", &tag, &secret()));
}

#[test]
fn login_with_unknown_username_redirects_with_a_signed_reason() {
    let store = store_with_user();
    let form = FormData { username: "nobody".to_string(), password: "open sesame".to_string() };

    let failure = login(form, &store, &secret()).unwrap_err();

    assert!(matches!(failure.error, LoginError::AuthenticationError(_)));
    assert!(failure.location.starts_with("/login?error=Authentication%20failed.&tag="));
}

#[test]
fn login_with_unusable_stored_hash_redirects_with_an_opaque_reason() {
    let mut store = store_with_user();
    store.credentials[0].password_hash = "not a phc string".to_string();
    let form = FormData { username: "admin".to_string(), password: "open sesame".to_string() };

    let failure = login(form, &store, &secret()).unwrap_err();

    assert!(matches!(failure.error, LoginError::UnexpectedError(_)));
    let prefix = "/login?error=transparent&tag=";
    assert!(failure.location.starts_with(prefix));
    let tag = failure.location[prefix.len()..].to_string();
    assert!(verify_error_message("transparent", &tag, &secret()));
}

#[test]
fn login_form_shows_a_verified_message_escaped() {
    let (_, tag) = sign_error_message("watch <this>", &secret());
    let query = QueryParams { error: "watch <this>".to_string(), tag };

    let page = login_form(Some(query), &secret());

    assert!(page.contains("<p><i>watch &lt;this&gt;</i></p>"));
}

#[test]
fn login_form_hides_an_unverified_message() {
    let query = QueryParams { error: "watch <this>".to_string(), tag: "00".repeat(32) };

    let page = login_form(Some(query), &secret());

    assert!(!page.contains("watch"));
    assert!(page.contains("<title>Login</title>"));
}

#[test]
fn login_form_without_query_is_the_plain_page() {
    let page = login_form(None, &secret());

    assert!(page.contains("<form action=\"/login\" method=\"post\">"));
    assert!(!page.contains("<p><i>"));
}

#[test]
fn error_chain_fmt_renders_the_cause_chain() {
    let rendered = error_chain_fmt(
        &"top level failure".to_string(),
        &vec!["middle cause".to_string(), "root cause".to_string()],
    );

    assert_eq!(
        rendered,
        "top level failure\n\nCaused by : \n\tmiddle cause\nCaused by : \n\troot cause\n"
    );
}

#[test]
fn error_chain_fmt_without_causes_is_the_message_alone() {
    let rendered = error_chain_fmt(&"just this".to_string(), &vec![]);

    assert_eq!(rendered, "just this\n\n");
}
