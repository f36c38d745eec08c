//! The newsletter dispatch: authenticate the publish request from its
//! Basic-Auth header, enumerate the confirmed subscribers, and decide
//! the fan-out - one email per confirmed subscriber whose stored address
//! still parses, skipping the rest.

use vstd::prelude::*;
use vstd::utf8::{decode_utf8, encode_utf8, valid_utf8};

use crate::authentication::{phc_verify_of, validate_credentials, AuthError, Credentials};
use crate::domain::{email_valid, SubscriberEmail};
use crate::email::EmailRequest;
use crate::store::{spec_credential_for, Store, Subscriber, SubscriberStatus};

verus! {

/// The body of a publish request.
#[derive(Debug)]
pub struct PublishNewsletterBodyData {
    pub title: String,
    pub content: Content,
}

/// The two bodies every outgoing issue carries.
#[derive(Debug)]
pub struct Content {
    pub html: String,
    pub text: String,
}

/// Why a publish request failed: the caller could not be authenticated,
/// or a storage or transport step faulted.
#[derive(Debug)]
pub enum PublishNewsletterError {
    AuthenticationError(String),
    UnexpectedError(String),
}

impl PublishNewsletterError {
    /// The transport response of a failure: the status, and for an
    /// authentication failure the challenge header value the response
    /// must carry.
    pub fn error_response(&self) -> (r: (u16, Option<String>))
        ensures
            self matches PublishNewsletterError::AuthenticationError(_) ==> (r.0 == 401 && (
            r.1 matches Some(h) && h@ == "Basic realm=\"publish\""@)),
            self matches PublishNewsletterError::UnexpectedError(_) ==> r.0 == 500 && r.1 is None,
    {
        match self {
            PublishNewsletterError::AuthenticationError(_) => {
                (401, Some("Basic realm=\"publish\"".to_owned()))
            },
            PublishNewsletterError::UnexpectedError(_) => (500, None),
        }
    }
}

/// The scheme prefix a Basic-Auth header must open with.
pub open spec fn basic_prefix() -> Seq<char> {
    seq!['B', 'a', 's', 'i', 'c', ' ']
}

/// Whether a header value carries the Basic scheme.
pub open spec fn has_basic_prefix(s: Seq<char>) -> bool {
    s.len() >= 6 && s.subrange(0, 6) == basic_prefix()
}

/// What decoding a string as standard base64 yields, or nothing when it
/// is not valid base64.
pub uninterp spec fn b64_decode_of(s: Seq<char>) -> Option<Seq<u8>>;

/// Relies on base64's `STANDARD` engine `decode`: the standard alphabet
/// with padding, a pure function of the input.
#[verifier::external_body]
fn b64_decode(s: &str) -> (r: Option<Vec<u8>>)
    ensures
        r is Some <==> b64_decode_of(s@) is Some,
        r matches Some(v) ==> Some(v@) == b64_decode_of(s@),
{
    match base64::Engine::decode(&base64::engine::general_purpose::STANDARD, s.as_bytes()) {
        Ok(v) => Some(v),
        Err(_) => None,
    }
}

/// Relies on std's `String::from_utf8`: succeeds exactly on valid
/// UTF-8, returning the characters those bytes encode.
#[verifier::external_body]
fn string_from_utf8(bytes: Vec<u8>) -> (r: Option<String>)
    ensures
        r is Some <==> valid_utf8(bytes@),
        r matches Some(s) ==> s@ == decode_utf8(bytes@) && encode_utf8(s@) == bytes@,
{
    match String::from_utf8(bytes) {
        Ok(s) => Some(s),
        Err(_) => None,
    }
}

/// The position of the first colon, or the length when there is none.
pub open spec fn first_colon_index(s: Seq<char>) -> int
    decreases s.len(),
{
    if s.len() == 0 {
        0
    } else if s[0] == ':' {
        0
    } else {
        1 + first_colon_index(s.drop_first())
    }
}

proof fn lemma_first_colon_at(s: Seq<char>, i: int)
    requires
        0 <= i < s.len(),
        s[i] == ':',
        forall|j: int| 0 <= j < i ==> s[j] != ':',
    ensures
        first_colon_index(s) == i,
    decreases i,
{
    if i > 0 {
        assert(forall|j: int|
            0 <= j < i - 1 ==> s.drop_first()[j] == s[j + 1] && s[j + 1] != ':');
        assert(s.drop_first()[i - 1] == s[i]);
        lemma_first_colon_at(s.drop_first(), i - 1);
    }
}

proof fn lemma_no_colon(s: Seq<char>)
    requires
        forall|j: int| 0 <= j < s.len() ==> s[j] != ':',
    ensures
        first_colon_index(s) >= s.len(),
    decreases s.len(),
{
    if s.len() > 0 {
        assert(forall|j: int|
            0 <= j < s.drop_first().len() ==> s.drop_first()[j] == s[j + 1] && s[j + 1] != ':');
        lemma_no_colon(s.drop_first());
    }
}

/// The username/password pair a Basic-Auth header value parses to:
/// strip the scheme prefix, decode the base64 payload, require valid
/// UTF-8, and split at the first colon.  Nothing, when any step fails.
pub open spec fn spec_basic_credentials(h: Seq<char>) -> Option<(Seq<char>, Seq<char>)> {
    if !has_basic_prefix(h) {
        None
    } else {
        match b64_decode_of(h.skip(6)) {
            None => None,
            Some(bytes) => {
                if !valid_utf8(bytes) {
                    None
                } else {
                    let d = decode_utf8(bytes);
                    let k = first_colon_index(d);
                    if k < d.len() {
                        Some((d.subrange(0, k), d.subrange(k + 1, d.len() as int)))
                    } else {
                        None
                    }
                }
            },
        }
    }
}

/// Parse an Authorization header value as HTTP Basic credentials.
///
/// Each step owes its failure: a missing header, a scheme other than
/// Basic, a payload that is not base64 or not UTF-8, and a payload
/// without a colon are each rejected with their own reason; everything
/// else yields the username and password exactly as carried.
#[verifier::loop_isolation(false)]
pub fn basic_authentication(authorization_header: Option<&String>) -> (r: Result<
    Credentials,
    String,
>)
    ensures
        r is Ok <==> (authorization_header matches Some(h) && spec_basic_credentials(h@)
            is Some),
        r matches Ok(c) ==> (authorization_header matches Some(h) && (spec_basic_credentials(h@)
            matches Some(up) && c.username@ == up.0 && c.password@ == up.1)),
        authorization_header is None ==> (r matches Err(m) && m@
            == "The 'Authorization' header was missing"@),
        authorization_header matches Some(h) && !has_basic_prefix(h@) ==> (r matches Err(m) && m@
            == "The authorization scheme was not 'Basic'."@),
        authorization_header matches Some(h) && has_basic_prefix(h@) && b64_decode_of(h@.skip(6))
            is None ==> (r matches Err(m) && m@ == "Failed to base64-decode 'Basic' credentials."@),
        authorization_header matches Some(h) && has_basic_prefix(h@) && (b64_decode_of(h@.skip(6))
            matches Some(bytes) && !valid_utf8(bytes)) ==> (r matches Err(m) && m@
            == "The decoded credential string is not valid UTF8."@),
        authorization_header matches Some(h) && has_basic_prefix(h@) && (b64_decode_of(h@.skip(6))
            matches Some(bytes) && valid_utf8(bytes) && first_colon_index(decode_utf8(bytes))
            >= decode_utf8(bytes).len()) ==> (r matches Err(m) && m@
            == "A password must be provided in 'Basic' auth."@),
{
    let header = match authorization_header {
        Some(h) => h,
        None => {
            return Err("The 'Authorization' header was missing".to_owned());
        },
    };
    let len = header.as_str().unicode_len();
    let prefix_ok = len >= 6 && header.as_str().get_char(0) == 'B' && header.as_str().get_char(1)
        == 'a' && header.as_str().get_char(2) == 's' && header.as_str().get_char(3) == 'i'
        && header.as_str().get_char(4) == 'c' && header.as_str().get_char(5) == ' ';
    proof {
        if header@.len() >= 6 {
            assert(forall|k: int| 0 <= k < 6 ==> header@.subrange(0, 6)[k] == header@[k]);
        }
        if prefix_ok {
            assert(header@.subrange(0, 6) =~= basic_prefix());
        } else if header@.len() >= 6 && header@.subrange(0, 6) == basic_prefix() {
            assert(header@[0] == 'B' && header@[1] == 'a' && header@[2] == 's' && header@[3]
                == 'i' && header@[4] == 'c' && header@[5] == ' ');
            assert(false);
        }
    }
    if !prefix_ok {
        return Err("The authorization scheme was not 'Basic'.".to_owned());
    }
    let encoded = header.as_str().substring_char(6, len);
    proof {
        assert(encoded@ =~= header@.skip(6));
    }
    let decoded_bytes = match b64_decode(encoded) {
        Some(v) => v,
        None => {
            return Err("Failed to base64-decode 'Basic' credentials.".to_owned());
        },
    };
    let decoded = match string_from_utf8(decoded_bytes) {
        Some(s) => s,
        None => {
            return Err("The decoded credential string is not valid UTF8.".to_owned());
        },
    };
    let dlen = decoded.as_str().unicode_len();
    let mut i: usize = 0;
    while i < dlen
        invariant
            dlen == decoded@.len(),
            i <= dlen,
            forall|j: int| 0 <= j < i ==> decoded@[j] != ':',
        decreases dlen - i,
    {
        if decoded.as_str().get_char(i) == ':' {
            proof {
                lemma_first_colon_at(decoded@, i as int);
            }
            let username = decoded.as_str().substring_char(0, i).to_owned();
            let password = decoded.as_str().substring_char(i + 1, dlen).to_owned();
            return Ok(Credentials { username, password });
        }
        i = i + 1;
    }
    proof {
        lemma_no_colon(decoded@);
    }
    Err("A password must be provided in 'Basic' auth.".to_owned())
}

/// A confirmed subscriber whose stored email still parses.
#[derive(Debug)]
pub struct ConfirmedSubscriber {
    pub email: SubscriberEmail,
}

/// The stored emails of the confirmed subscribers, in store order.
pub open spec fn spec_confirmed_emails(subs: Seq<Subscriber>) -> Seq<Seq<char>>
    decreases subs.len(),
{
    if subs.len() == 0 {
        Seq::empty()
    } else {
        let rest = spec_confirmed_emails(subs.drop_first());
        if subs[0].status == SubscriberStatus::Confirmed {
            seq![subs[0].email@] + rest
        } else {
            rest
        }
    }
}

proof fn lemma_confirmed_emails_push(subs: Seq<Subscriber>, x: Subscriber)
    ensures
        spec_confirmed_emails(subs.push(x)) == spec_confirmed_emails(subs) + (if x.status
            == SubscriberStatus::Confirmed {
            seq![x.email@]
        } else {
            Seq::<Seq<char>>::empty()
        }),
    decreases subs.len(),
{
    let tail = if x.status == SubscriberStatus::Confirmed {
        seq![x.email@]
    } else {
        Seq::<Seq<char>>::empty()
    };
    if subs.len() == 0 {
        assert(subs.push(x)[0] == x);
        assert(subs.push(x).drop_first() =~= Seq::<Subscriber>::empty());
        assert(spec_confirmed_emails(Seq::<Subscriber>::empty()) == Seq::<Seq<char>>::empty());
        assert(spec_confirmed_emails(subs.push(x)) =~= spec_confirmed_emails(subs) + tail);
    } else {
        assert(subs.push(x)[0] == subs[0]);
        assert(subs.push(x).drop_first() =~= subs.drop_first().push(x));
        lemma_confirmed_emails_push(subs.drop_first(), x);
        assert(spec_confirmed_emails(subs.push(x)) =~= spec_confirmed_emails(subs) + tail);
    }
}

/// All confirmed subscribers, each with its stored email parsed; a row
/// whose stored email no longer parses is carried as the failure reason
/// instead, for the caller to skip.
pub fn get_confirmed_subscribers(store: &Store) -> (r: Vec<Result<ConfirmedSubscriber, String>>)
    ensures
        r@.len() == spec_confirmed_emails(store.subscribers@).len(),
        forall|i: int|
            0 <= i < r@.len() ==> ({
                let e = spec_confirmed_emails(store.subscribers@)[i];
                match #[trigger] r@[i] {
                    Ok(cs) => email_valid(e) && cs.email@ == e,
                    Err(_) => !email_valid(e),
                }
            }),
{
    let n = store.subscribers.len();
    let mut out: Vec<Result<ConfirmedSubscriber, String>> = Vec::new();
    let mut i: usize = 0;
    proof {
        assert(store.subscribers@.take(0) =~= Seq::<Subscriber>::empty());
        assert(spec_confirmed_emails(Seq::<Subscriber>::empty()) == Seq::<Seq<char>>::empty());
    }
    while i < n
        invariant
            n == store.subscribers@.len(),
            i <= n,
            out@.len() == spec_confirmed_emails(store.subscribers@.take(i as int)).len(),
            forall|j: int|
                0 <= j < out@.len() ==> ({
                    let e = spec_confirmed_emails(store.subscribers@.take(i as int))[j];
                    match #[trigger] out@[j] {
                        Ok(cs) => email_valid(e) && cs.email@ == e,
                        Err(_) => !email_valid(e),
                    }
                }),
        decreases n - i,
    {
        proof {
            assert(store.subscribers@.take(i + 1) =~= store.subscribers@.take(i as int).push(
                store.subscribers@[i as int],
            ));
            lemma_confirmed_emails_push(
                store.subscribers@.take(i as int),
                store.subscribers@[i as int],
            );
        }
        let row = &store.subscribers[i];
        if row.status == SubscriberStatus::Confirmed {
            match SubscriberEmail::parse(row.email.clone()) {
                Ok(email) => out.push(Ok(ConfirmedSubscriber { email })),
                Err(m) => out.push(Err(m)),
            }
        }
        i = i + 1;
    }
    proof {
        assert(store.subscribers@.take(n as int) =~= store.subscribers@);
    }
    out
}

/// The addresses a publish run must deliver to: the confirmed emails
/// that still parse, in store order.
pub open spec fn spec_deliverable(emails: Seq<Seq<char>>) -> Seq<Seq<char>>
    decreases emails.len(),
{
    if emails.len() == 0 {
        Seq::empty()
    } else {
        let rest = spec_deliverable(emails.drop_first());
        if email_valid(emails[0]) {
            seq![emails[0]] + rest
        } else {
            rest
        }
    }
}

proof fn lemma_deliverable_push(emails: Seq<Seq<char>>, e: Seq<char>)
    ensures
        spec_deliverable(emails.push(e)) == spec_deliverable(emails) + (if email_valid(e) {
            seq![e]
        } else {
            Seq::<Seq<char>>::empty()
        }),
    decreases emails.len(),
{
    let tail = if email_valid(e) {
        seq![e]
    } else {
        Seq::<Seq<char>>::empty()
    };
    if emails.len() == 0 {
        assert(emails.push(e)[0] == e);
        assert(emails.push(e).drop_first() =~= Seq::<Seq<char>>::empty());
        assert(spec_deliverable(Seq::<Seq<char>>::empty()) == Seq::<Seq<char>>::empty());
        assert(spec_deliverable(emails.push(e)) =~= spec_deliverable(emails) + tail);
    } else {
        assert(emails.push(e)[0] == emails[0]);
        assert(emails.push(e).drop_first() =~= emails.drop_first().push(e));
        lemma_deliverable_push(emails.drop_first(), e);
        assert(spec_deliverable(emails.push(e)) =~= spec_deliverable(emails) + tail);
    }
}

/// The newsletter dispatch decision.
///
/// Authentication comes first: a header that does not parse as Basic
/// credentials, an unknown username and a wrong password each fail as
/// an authentication error before any subscriber is considered; an
/// unusable stored hash is an unexpected failure.  An authenticated
/// request yields one email per confirmed subscriber whose stored
/// address still parses - in store order, all with the request's title
/// and bodies - skipping every subscriber whose stored address does
/// not.
pub fn publish_newsletter(
    store: &Store,
    authorization_header: Option<&String>,
    body: &PublishNewsletterBodyData,
) -> (r: Result<Vec<EmailRequest>, PublishNewsletterError>)
    ensures
        ({
            let parsed = match authorization_header {
                Some(h) => spec_basic_credentials(h@),
                None => None,
            };
            match r {
                Ok(_) => parsed matches Some(up) && (spec_credential_for(
                    store.credentials@,
                    up.0,
                ) matches Some(c) && phc_verify_of(c.password_hash@, up.1) == Some(true)),
                Err(PublishNewsletterError::AuthenticationError(_)) => parsed is None || (parsed
                    matches Some(up) && (spec_credential_for(store.credentials@, up.0) is None || (
                spec_credential_for(store.credentials@, up.0) matches Some(c) && phc_verify_of(
                    c.password_hash@,
                    up.1,
                ) == Some(false)))),
                Err(PublishNewsletterError::UnexpectedError(_)) => parsed matches Some(up) && (
                spec_credential_for(store.credentials@, up.0) matches Some(c) && phc_verify_of(
                    c.password_hash@,
                    up.1,
                ) is None),
            }
        }),
        r matches Ok(reqs) ==> ({
            let deliver = spec_deliverable(spec_confirmed_emails(store.subscribers@));
            &&& reqs@.len() == deliver.len()
            &&& (forall|i: int|
                0 <= i < reqs@.len() ==> {
                    &&& (#[trigger] reqs@[i]).to@ == deliver[i]
                    &&& reqs@[i].subject@ == body.title@
                    &&& reqs@[i].html_part@ == body.content.html@
                    &&& reqs@[i].text_part@ == body.content.text@
                })
        }),
{
    let credentials = match basic_authentication(authorization_header) {
        Ok(c) => c,
        Err(m) => {
            return Err(PublishNewsletterError::AuthenticationError(m));
        },
    };
    match validate_credentials(&credentials, store) {
        Ok(_user_id) => {},
        Err(AuthError::InvalidCredentials(m)) => {
            return Err(PublishNewsletterError::AuthenticationError(m));
        },
        Err(AuthError::UnexpectedError(m)) => {
            return Err(PublishNewsletterError::UnexpectedError(m));
        },
    }
    let subscribers = get_confirmed_subscribers(store);
    let ghost emails = spec_confirmed_emails(store.subscribers@);
    let n = subscribers.len();
    let mut reqs: Vec<EmailRequest> = Vec::new();
    let mut i: usize = 0;
    proof {
        assert(emails.take(0) =~= Seq::<Seq<char>>::empty());
        assert(spec_deliverable(Seq::<Seq<char>>::empty()) == Seq::<Seq<char>>::empty());
    }
    while i < n
        invariant
            n == subscribers@.len(),
            n == emails.len(),
            i <= n,
            forall|j: int|
                0 <= j < n ==> ({
                    match #[trigger] subscribers@[j] {
                        Ok(cs) => email_valid(emails[j]) && cs.email@ == emails[j],
                        Err(_) => !email_valid(emails[j]),
                    }
                }),
            reqs@.len() == spec_deliverable(emails.take(i as int)).len(),
            forall|j: int|
                0 <= j < reqs@.len() ==> {
                    &&& (#[trigger] reqs@[j]).to@ == spec_deliverable(emails.take(i as int))[j]
                    &&& reqs@[j].subject@ == body.title@
                    &&& reqs@[j].html_part@ == body.content.html@
                    &&& reqs@[j].text_part@ == body.content.text@
                },
        decreases n - i,
    {
        proof {
            assert(emails.take(i + 1) =~= emails.take(i as int).push(emails[i as int]));
            lemma_deliverable_push(emails.take(i as int), emails[i as int]);
        }
        match &subscribers[i] {
            Ok(subscriber) => {
                reqs.push(
                    EmailRequest {
                        to: subscriber.email.as_ref().clone(),
                        subject: body.title.clone(),
                        html_part: body.content.html.clone(),
                        text_part: body.content.text.clone(),
                    },
                );
            },
            Err(_) => {},
        }
        i = i + 1;
    }
    proof {
        assert(emails.take(n as int) =~= emails);
    }
    Ok(reqs)
}

/// The end of a publish request once the transport has reported on the
/// sends: the first failed send aborts the fan-out and surfaces as the
/// workflow's unexpected failure; emails already sent stay sent.
pub fn complete_publish(send_result: Result<(), String>) -> (r: Result<
    (),
    PublishNewsletterError,
>)
    ensures
        r is Ok <==> send_result is Ok,
        r matches Err(e) ==> e matches PublishNewsletterError::UnexpectedError(_),
{
    match send_result {
        Ok(()) => Ok(()),
        Err(_) => {
            Err(
                PublishNewsletterError::UnexpectedError(
                    "Failed to send a newsletter issue.".to_owned(),
                ),
            )
        },
    }
}

} // verus!
