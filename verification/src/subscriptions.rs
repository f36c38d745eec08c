//! The subscription workflow: validate the form, insert the subscriber
//! row and its confirmation token as one atomic step, and hand back the
//! confirmation email for the transport to send once the step is
//! committed.

use vstd::prelude::*;

use crate::config::ApplicationBaseUrl;
use crate::domain::{email_valid, name_valid, NewSubscriber, SubscriberEmail, SubscriberName};
use crate::email::EmailRequest;
use crate::store::{
    lemma_token_owner_push_fresh, lemma_token_owner_push_other, same_state,
    spec_has_subscriber_id, spec_has_token, spec_token_owner, Store, StoreError, Subscriber,
    SubscriberStatus, TokenRow,
};
use crate::token::{generate_subscription_token, token_well_formed};

verus! {

/// The form fields of a subscribe request, as decoded at the edge.
#[derive(Debug)]
pub struct NewsletterSubscriptionFormData {
    pub name: String,
    pub email: String,
}

impl NewSubscriber {
    /// Validation of the form: the name first, then the email; the first
    /// failure is reported and nothing else happens.
    pub fn try_from(form: NewsletterSubscriptionFormData) -> (r: Result<NewSubscriber, String>)
        ensures
            r is Ok <==> name_valid(form.name@) && email_valid(form.email@),
            r matches Ok(ns) ==> ns.name@ == form.name@ && ns.email@ == form.email@,
            !name_valid(form.name@) ==> (r matches Err(m) && m@ == form.name@
                + " is not a valid subscriber name."@),
            name_valid(form.name@) && !email_valid(form.email@) ==> (r matches Err(m) && m@
                == form.email@ + ", is not a valid subscriber email."@),
    {
        let name = match SubscriberName::parse(form.name) {
            Ok(n) => n,
            Err(m) => {
                return Err(m);
            },
        };
        let email = match SubscriberEmail::parse(form.email) {
            Ok(e) => e,
            Err(m) => {
                return Err(m);
            },
        };
        Ok(NewSubscriber { email, name })
    }
}

/// Why a subscribe request failed: the caller's data was invalid, or a
/// storage or transport step faulted.
#[derive(Debug)]
pub enum SubscribeError {
    ValidationError(String),
    UnexpectedError(String),
}

impl SubscribeError {
    /// The transport status a failure maps to: a validation failure is
    /// the caller's fault, everything else is the server's.
    pub fn status_code(&self) -> (r: u16)
        ensures
            r == 400 <==> self matches SubscribeError::ValidationError(_),
            r == 500 <==> self matches SubscribeError::UnexpectedError(_),
    {
        match self {
            SubscribeError::ValidationError(_) => 400,
            SubscribeError::UnexpectedError(_) => 500,
        }
    }

    /// The user-facing message: the validation reason, or an opaque line
    /// for everything else.
    pub fn message(&self) -> (r: &String)
        ensures
            self matches SubscribeError::ValidationError(m) ==> r@ == m@,
            self matches SubscribeError::UnexpectedError(m) ==> r@ == m@,
    {
        match self {
            SubscribeError::ValidationError(m) => m,
            SubscribeError::UnexpectedError(m) => m,
        }
    }
}

/// Relies on uuid's `Uuid::new_v4`: a fresh random version-4 id.
/// Nothing can be promised of a random value.
#[verifier::external_body]
fn new_subscriber_id() -> (r: u128) {
    uuid::Uuid::new_v4().as_u128()
}

/// Relies on chrono's `Utc::now`: the current Unix timestamp in seconds.
/// The clock promises nothing Verus could check.
#[verifier::external_body]
fn now_timestamp() -> (r: i64) {
    chrono::Utc::now().timestamp()
}

/// Saving the new subscriber: a fresh random id is drawn and the row is
/// inserted with status pending; a clash with an existing id surfaces as
/// the store's uniqueness fault and changes nothing.  Only such a clash
/// can fail, so on a store without subscribers success is owed.
pub fn insert_subscriber(store: &mut Store, form: &NewSubscriber) -> (r: Result<u128, StoreError>)
    requires
        old(store).wf(),
    ensures
        final(store).wf(),
        r is Err ==> old(store).subscribers@.len() > 0,
        r matches Ok(id) ==> ({
            &&& !spec_has_subscriber_id(old(store).subscribers@, id)
            &&& final(store).subscribers@.len() == old(store).subscribers@.len() + 1
            &&& final(store).subscribers@.drop_last() == old(store).subscribers@
            &&& final(store).subscribers@.last().id == id
            &&& final(store).subscribers@.last().email@ == form.email@
            &&& final(store).subscribers@.last().name@ == form.name@
            &&& final(store).subscribers@.last().status == SubscriberStatus::PendingConfirmation
            &&& final(store).tokens@ == old(store).tokens@
            &&& final(store).credentials@ == old(store).credentials@
        }),
        r is Err ==> same_state(final(store), old(store)),
{
    let id = new_subscriber_id();
    if store.has_subscriber_id(id) {
        return Err(StoreError::IdTaken);
    }
    let row = Subscriber {
        id,
        email: form.email.as_ref().clone(),
        name: form.name.as_ref().clone(),
        status: SubscriberStatus::PendingConfirmation,
        subscribed_at: now_timestamp(),
    };
    store.subscribers.push(row);
    proof {
        let prev = old(store).subscribers@;
        let cur = store.subscribers@;
        assert(cur.drop_last() =~= prev);
        assert forall|i: int|
            0 <= i < store.tokens@.len() implies spec_has_subscriber_id(
            cur,
            store.tokens@[i].subscriber_id,
        ) by {
            let sid = store.tokens@[i].subscriber_id;
            assert(spec_has_subscriber_id(prev, sid));
            let j = choose|j: int| 0 <= j < prev.len() && prev[j].id == sid;
            assert(cur[j].id == sid);
        }
    }
    Ok(id)
}

/// Storing the confirmation token, linked to its subscriber, inside the
/// same atomic step as the subscriber row itself.  A clash with an
/// existing token, or an unknown subscriber, is the store's constraint
/// fault and changes nothing.
pub fn insert_subscription_token(
    store: &mut Store,
    subscriber_id: u128,
    subscription_token: &String,
) -> (r: Result<(), StoreError>)
    requires
        old(store).wf(),
    ensures
        final(store).wf(),
        r is Ok <==> !spec_has_token(old(store).tokens@, subscription_token@)
            && spec_has_subscriber_id(old(store).subscribers@, subscriber_id),
        r is Ok ==> ({
            &&& final(store).tokens@.len() == old(store).tokens@.len() + 1
            &&& final(store).tokens@.drop_last() == old(store).tokens@
            &&& final(store).tokens@.last().token@ == subscription_token@
            &&& final(store).tokens@.last().subscriber_id == subscriber_id
            &&& spec_token_owner(final(store).tokens@, subscription_token@) == Some(subscriber_id)
            &&& (forall|t: Seq<char>|
                t != subscription_token@ ==> #[trigger] spec_token_owner(final(store).tokens@, t)
                    == spec_token_owner(old(store).tokens@, t))
            &&& final(store).subscribers@ == old(store).subscribers@
            &&& final(store).credentials@ == old(store).credentials@
        }),
        r is Err ==> same_state(final(store), old(store)),
{
    if store.has_token(subscription_token) {
        return Err(StoreError::TokenTaken);
    }
    if !store.has_subscriber_id(subscriber_id) {
        return Err(StoreError::NoSuchSubscriber);
    }
    let row = TokenRow { token: subscription_token.clone(), subscriber_id };
    proof {
        lemma_token_owner_push_fresh(store.tokens@, row);
    }
    store.tokens.push(row);
    proof {
        let prev = old(store).tokens@;
        let cur = store.tokens@;
        assert(cur.drop_last() =~= prev);
        assert forall|t: Seq<char>| t != subscription_token@ implies #[trigger] spec_token_owner(
            cur,
            t,
        ) == spec_token_owner(prev, t) by {
            lemma_token_owner_push_other(prev, row, t);
        }
    }
    Ok(())
}

/// The path a confirmation link lives under, with its token as the query
/// parameter.
pub open spec fn confirmation_link(base: Seq<char>, token: Seq<char>) -> Seq<char> {
    base + "/newsletters/subscriptions/confirm?subscription_token="@ + token
}

/// The HTML body of a confirmation email, carrying the link.
pub open spec fn confirmation_html(link: Seq<char>) -> Seq<char> {
    "Welcome to our newsletter ! <br/> Click <a href=\""@ + link
        + "\">here</a> to confirm your subscription"@
}

/// The plain-text body of a confirmation email, carrying the same link.
pub open spec fn confirmation_text(link: Seq<char>) -> Seq<char> {
    "Welcome to our newsletter ! Visit "@ + link + " to confirm your subscription."@
}

/// The confirmation email for a new subscriber: the HTML and plain-text
/// bodies carry the identical confirmation link, formed from the base
/// URL and the token.
pub fn confirmation_email(
    new_subscriber: &NewSubscriber,
    base_url: &str,
    confirmation_token: &String,
) -> (r: EmailRequest)
    ensures
        r.to@ == new_subscriber.email@,
        r.subject@ == "Welcome"@,
        r.html_part@ == confirmation_html(confirmation_link(base_url@, confirmation_token@)),
        r.text_part@ == confirmation_text(confirmation_link(base_url@, confirmation_token@)),
{
    let mut link = base_url.to_owned();
    link.append("/newsletters/subscriptions/confirm?subscription_token=");
    link.append(confirmation_token.as_str());
    proof {
        assert(link@ =~= confirmation_link(base_url@, confirmation_token@));
    }

    let mut html = "Welcome to our newsletter ! <br/> Click <a href=\"".to_owned();
    html.append(link.as_str());
    html.append("\">here</a> to confirm your subscription");
    proof {
        assert(html@ =~= confirmation_html(link@));
    }

    let mut text = "Welcome to our newsletter ! Visit ".to_owned();
    text.append(link.as_str());
    text.append(" to confirm your subscription.");
    proof {
        assert(text@ =~= confirmation_text(link@));
    }

    EmailRequest {
        to: new_subscriber.email.as_ref().clone(),
        subject: "Welcome".to_owned(),
        html_part: html,
        text_part: text,
    }
}

/// The two bodies of a confirmation email carry the identical
/// confirmation link: each contains it as one contiguous run of
/// characters.
pub proof fn lemma_confirmation_bodies_carry_link(link: Seq<char>)
    ensures
        exists|i: int|
            0 <= i && i + link.len() <= confirmation_html(link).len()
                && #[trigger] confirmation_html(link).subrange(i, i + link.len()) == link,
        exists|i: int|
            0 <= i && i + link.len() <= confirmation_text(link).len()
                && #[trigger] confirmation_text(link).subrange(i, i + link.len()) == link,
{
    let hp = "Welcome to our newsletter ! <br/> Click <a href=\""@;
    let hi = hp.len() as int;
    assert(confirmation_html(link).subrange(hi, hi + link.len()) =~= link);
    assert(0 <= hi && hi + link.len() <= confirmation_html(link).len() && confirmation_html(
        link,
    ).subrange(hi, hi + link.len()) == link);

    let tp = "Welcome to our newsletter ! Visit "@;
    let ti = tp.len() as int;
    assert(confirmation_text(link).subrange(ti, ti + link.len()) =~= link);
    assert(0 <= ti && ti + link.len() <= confirmation_text(link).len() && confirmation_text(
        link,
    ).subrange(ti, ti + link.len()) == link);
}

/// The subscription workflow after the transport edge decoded the form.
///
/// Validation comes first and a failure there touches no storage; then
/// the subscriber row and its token are inserted as one atomic step - a
/// storage conflict rolls the step back and surfaces as an unexpected
/// failure.  On success the returned confirmation email is the one the
/// transport must send - necessarily after this function returns, that
/// is after the step is committed; a send failure then leaves the
/// committed rows in place (see `complete_subscription`).  Its two
/// bodies carry the identical link.  Both conflicts need a row to clash
/// with, so on an empty store a valid form is owed success.
pub fn newsletter_subscribe(
    store: &mut Store,
    form: NewsletterSubscriptionFormData,
    base_url: &ApplicationBaseUrl,
) -> (r: Result<EmailRequest, SubscribeError>)
    requires
        old(store).wf(),
    ensures
        final(store).wf(),
        r matches Err(SubscribeError::UnexpectedError(_)) ==> old(store).subscribers@.len() + old(
            store,
        ).tokens@.len() > 0,
        r matches Err(SubscribeError::ValidationError(_)) <==> !(name_valid(form.name@)
            && email_valid(form.email@)),
        !(name_valid(form.name@) && email_valid(form.email@)) ==> same_state(
            final(store),
            old(store),
        ),
        r matches Err(SubscribeError::UnexpectedError(_)) ==> same_state(final(store), old(store)),
        r matches Ok(req) ==> ({
            let subs = final(store).subscribers@;
            let toks = final(store).tokens@;
            let row = subs.last();
            let trow = toks.last();
            &&& name_valid(form.name@) && email_valid(form.email@)
            &&& subs.len() == old(store).subscribers@.len() + 1
            &&& subs.drop_last() == old(store).subscribers@
            &&& row.email@ == form.email@
            &&& row.name@ == form.name@
            &&& row.status == SubscriberStatus::PendingConfirmation
            &&& toks.len() == old(store).tokens@.len() + 1
            &&& toks.drop_last() == old(store).tokens@
            &&& trow.subscriber_id == row.id
            &&& token_well_formed(trow.token@)
            &&& spec_token_owner(toks, trow.token@) == Some(row.id)
            &&& (forall|t: Seq<char>|
                t != trow.token@ ==> #[trigger] spec_token_owner(toks, t) == spec_token_owner(
                    old(store).tokens@,
                    t,
                ))
            &&& final(store).credentials@ == old(store).credentials@
            &&& req.to@ == form.email@
            &&& req.subject@ == "Welcome"@
            &&& req.html_part@ == confirmation_html(
                confirmation_link(base_url.0@, trow.token@),
            )
            &&& req.text_part@ == confirmation_text(
                confirmation_link(base_url.0@, trow.token@),
            )
        }),
{
    let new_subscriber = match NewSubscriber::try_from(form) {
        Ok(ns) => ns,
        Err(m) => {
            return Err(SubscribeError::ValidationError(m));
        },
    };
    let subscriber_id = match insert_subscriber(store, &new_subscriber) {
        Ok(id) => id,
        Err(_) => {
            return Err(
                SubscribeError::UnexpectedError(
                    "Failed to insert new subscriber in the database.".to_owned(),
                ),
            );
        },
    };
    let subscription_token = generate_subscription_token();
    match insert_subscription_token(store, subscriber_id, &subscription_token) {
        Ok(()) => {},
        Err(_) => {
            proof {
                let mid_subs = store.subscribers@;
                assert(mid_subs[mid_subs.len() - 1].id == subscriber_id);
                assert(spec_has_subscriber_id(mid_subs, subscriber_id));
                assert(spec_has_token(old(store).tokens@, subscription_token@));
                assert(old(store).tokens@.len() > 0);
            }
            store.subscribers.pop();
            proof {
                assert(store.subscribers@ =~= old(store).subscribers@);
            }
            return Err(
                SubscribeError::UnexpectedError(
                    "Failed to store the confirmation token for a new subscriber.".to_owned(),
                ),
            );
        },
    }
    Ok(confirmation_email(&new_subscriber, base_url.0.as_str(), &subscription_token))
}

/// The end of a subscribe request, once the transport has reported on
/// the confirmation email: a failed send surfaces as the workflow's
/// unexpected failure, while the committed rows remain in the store.
pub fn complete_subscription(send_result: Result<(), String>) -> (r: Result<(), SubscribeError>)
    ensures
        r is Ok <==> send_result is Ok,
        r matches Err(e) ==> e matches SubscribeError::UnexpectedError(_),
{
    match send_result {
        Ok(()) => Ok(()),
        Err(_) => {
            Err(SubscribeError::UnexpectedError("Failed to send a confirmation email.".to_owned()))
        },
    }
}

} // verus!
