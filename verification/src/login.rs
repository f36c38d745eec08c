//! The login flow: verify the form's credentials; on failure redirect
//! back to the login page carrying a signed, tamper-evident reason; and
//! render the login page, showing a carried reason only when its tag
//! verifies.

use vstd::prelude::*;

use crate::authentication::{phc_verify_of, validate_credentials, AuthError, Credentials};
use crate::config::HmacSecret;
use crate::signing::{
    error_query, message_tag, sign_error_message, tag_accepted, verify_error_message,
};
use crate::store::{spec_credential_for, Store};

verus! {

/// The query parameters a failed login redirects with: the carried
/// message and its hex tag.
#[derive(Debug)]
pub struct QueryParams {
    pub error: String,
    pub tag: String,
}

/// A carried message whose tag did not verify: the message must be
/// treated as absent, not as a fault of the request.
#[derive(Debug)]
pub struct VerificationError;

impl QueryParams {
    /// The carried message, exactly when the tag is the one issued for
    /// it under the secret; any other tag rejects the message.
    pub fn verify(self, secret: &HmacSecret) -> (r: Result<String, VerificationError>)
        ensures
            r is Ok <==> tag_accepted(secret.0@, self.error@, self.tag@),
            r matches Ok(m) ==> m@ == self.error@,
    {
        if verify_error_message(self.error.as_str(), &self.tag, secret) {
            Ok(self.error)
        } else {
            Err(VerificationError)
        }
    }
}

/// The form fields of a login request.
#[derive(Debug)]
pub struct FormData {
    pub username: String,
    pub password: String,
}

/// Why a login attempt failed: the credentials were wrong, or the
/// stored material was unusable.
#[derive(Debug)]
pub enum LoginError {
    AuthenticationError(String),
    UnexpectedError(String),
}

impl LoginError {
    /// The user-facing line of the failure, as the redirect carries it:
    /// generic for wrong credentials, opaque for everything else.
    pub fn message(&self) -> (r: String)
        ensures
            self matches LoginError::AuthenticationError(_) ==> r@ == "Authentication failed."@,
            self matches LoginError::UnexpectedError(_) ==> r@ == "transparent"@,
    {
        match self {
            LoginError::AuthenticationError(_) => "Authentication failed.".to_owned(),
            LoginError::UnexpectedError(_) => "transparent".to_owned(),
        }
    }
}

/// A successful login: the user and the redirect to the home page.
#[derive(Debug)]
pub struct LoginSuccess {
    pub user_id: u128,
    pub location: String,
}

/// A failed login: the failure and the redirect back to the login page,
/// carrying the signed reason.
#[derive(Debug)]
pub struct LoginFailure {
    pub error: LoginError,
    pub location: String,
}

/// Where a failed login redirects: back to the login page, with the
/// reason and the tag issued for it.
pub open spec fn login_redirect_location(secret: Seq<char>, msg: Seq<char>) -> Seq<char> {
    "/login?"@ + error_query(msg) + "&tag="@ + message_tag(secret, msg)
}

/// The login workflow: verify the credentials against the store; on
/// success redirect home, on failure redirect back to the login page
/// with a signed reason - generic for wrong credentials, opaque for a
/// fault - so the page can show it without trusting the query string.
pub fn login(form: FormData, store: &Store, secret: &HmacSecret) -> (r: Result<
    LoginSuccess,
    LoginFailure,
>)
    ensures
        ({
            let cred = spec_credential_for(store.credentials@, form.username@);
            match r {
                Ok(s) => cred matches Some(c) && c.user_id == s.user_id && phc_verify_of(
                    c.password_hash@,
                    form.password@,
                ) == Some(true) && s.location@ == "/"@,
                Err(f) => match f.error {
                    LoginError::AuthenticationError(_) => (cred is None || (cred matches Some(c)
                        && phc_verify_of(c.password_hash@, form.password@) == Some(false)))
                        && f.location@ == login_redirect_location(
                        secret.0@,
                        "Authentication failed."@,
                    ),
                    LoginError::UnexpectedError(_) => cred matches Some(c) && phc_verify_of(
                        c.password_hash@,
                        form.password@,
                    ) is None && f.location@ == login_redirect_location(
                        secret.0@,
                        "transparent"@,
                    ),
                },
            }
        }),
{
    let credentials = Credentials { username: form.username, password: form.password };
    match validate_credentials(&credentials, store) {
        Ok(user_id) => Ok(LoginSuccess { user_id, location: "/".to_owned() }),
        Err(e) => {
            let error = match e {
                AuthError::InvalidCredentials(m) => LoginError::AuthenticationError(m),
                AuthError::UnexpectedError(m) => LoginError::UnexpectedError(m),
            };
            let msg = error.message();
            let signed = sign_error_message(msg.as_str(), secret);
            let mut location = "/login?".to_owned();
            location.append(signed.0.as_str());
            location.append("&tag=");
            location.append(signed.1.as_str());
            proof {
                assert(location@ =~= login_redirect_location(secret.0@, msg@));
            }
            Err(LoginFailure { error, location })
        },
    }
}

/// The entity for one character in minimally escaped HTML: the five
/// HTML-significant characters become entities, the rest stay.
pub open spec fn html_escape_char(c: char) -> Seq<char> {
    if c == '"' {
        "&quot;"@
    } else if c == '&' {
        "&amp;"@
    } else if c == '\'' {
        "&#x27;"@
    } else if c == '<' {
        "&lt;"@
    } else if c == '>' {
        "&gt;"@
    } else {
        seq![c]
    }
}

/// A string in minimally escaped HTML, character by character.
pub open spec fn html_escape_minimal(s: Seq<char>) -> Seq<char>
    decreases s.len(),
{
    if s.len() == 0 {
        Seq::empty()
    } else {
        html_escape_char(s[0]) + html_escape_minimal(s.drop_first())
    }
}

/// Relies on htmlescape's `encode_minimal`: replaces `"` `&` `'` `<`
/// `>` by their entities and leaves every other character.
#[verifier::external_body]
fn html_escape(s: &str) -> (r: String)
    ensures
        r@ == html_escape_minimal(s@),
{
    htmlescape::encode_minimal(s)
}

/// The error fragment of the login page for a carried message.
pub open spec fn spec_error_html(msg: Seq<char>) -> Seq<char> {
    "<p><i>"@ + html_escape_minimal(msg) + "</i></p>"@
}

/// The error fragment of the login page: the carried message - shown
/// only when its tag verifies, and HTML-escaped - or nothing.
pub fn login_error_html(query: Option<QueryParams>, secret: &HmacSecret) -> (r: String)
    ensures
        query is None ==> r@ == Seq::<char>::empty(),
        query matches Some(q) ==> r@ == (if tag_accepted(secret.0@, q.error@, q.tag@) {
            spec_error_html(q.error@)
        } else {
            Seq::<char>::empty()
        }),
{
    match query {
        None => String::new(),
        Some(q) => {
            match q.verify(secret) {
                Ok(error) => {
                    let mut html = "<p><i>".to_owned();
                    html.append(html_escape(error.as_str()).as_str());
                    html.append("</i></p>");
                    proof {
                        assert(html@ =~= spec_error_html(error@));
                    }
                    html
                },
                Err(_) => String::new(),
            }
        },
    }
}

/// Everything of the login page above the error fragment.
pub open spec fn login_page_head() -> Seq<char> {
    "<!DOCTYPE html>\n<html lang=\"en\">\n<head>\n    <meta charset=\"UTF-8\">\n    <meta http-equiv=\"content-type\" content=\"text/html; charset=utf-8\">\n    <title>Login</title>\n</head>\n<body>\n"@
}

/// Everything of the login page below the error fragment.
pub open spec fn login_page_tail() -> Seq<char> {
    "\n<form action=\"/login\" method=\"post\">\n    <label>Username&nbsp;<input type=\"text\" placeholder=\"Enter Username\" name=\"username\"> </label>\n    <label>Password&nbsp;<input type=\"password\" placeholder=\"Enter Password\" name=\"password\"> </label>\n\n    <button type=\"submit\">Login</button>\n</form>\n</body>\n</html>"@
}

/// The login page around an error fragment.
pub open spec fn spec_login_page(error_html: Seq<char>) -> Seq<char> {
    login_page_head() + error_html + login_page_tail()
}

/// The login page for a request: its error fragment shows a carried
/// message only when the message's tag verifies under the secret.
pub fn login_form(query: Option<QueryParams>, secret: &HmacSecret) -> (r: String)
    ensures
        query is None ==> r@ == spec_login_page(Seq::<char>::empty()),
        query matches Some(q) ==> r@ == spec_login_page(
            if tag_accepted(secret.0@, q.error@, q.tag@) {
                spec_error_html(q.error@)
            } else {
                Seq::<char>::empty()
            },
        ),
{
    let error_html = login_error_html(query, secret);
    let mut page = "<!DOCTYPE html>\n<html lang=\"en\">\n<head>\n    <meta charset=\"UTF-8\">\n    <meta http-equiv=\"content-type\" content=\"text/html; charset=utf-8\">\n    <title>Login</title>\n</head>\n<body>\n".to_owned();
    page.append(error_html.as_str());
    page.append(
        "\n<form action=\"/login\" method=\"post\">\n    <label>Username&nbsp;<input type=\"text\" placeholder=\"Enter Username\" name=\"username\"> </label>\n    <label>Password&nbsp;<input type=\"password\" placeholder=\"Enter Password\" name=\"password\"> </label>\n\n    <button type=\"submit\">Login</button>\n</form>\n</body>\n</html>",
    );
    proof {
        assert(page@ =~= spec_login_page(error_html@));
    }
    page
}

} // verus!
