//! The confirmation workflow: resolve a token from an untrusted query
//! parameter to its subscriber, and advance that subscriber to
//! confirmed.  Confirming an already-confirmed subscriber succeeds
//! silently; an unknown token is the caller's fault, never an unexpected
//! one.

use vstd::prelude::*;

use crate::store::{
    same_state, spec_confirm, spec_has_subscriber_id, spec_token_owner, Store, Subscriber,
    SubscriberStatus,
};

verus! {

/// The query parameters of a confirmation request.
#[derive(Debug)]
pub struct Parameters {
    pub subscription_token: String,
}

/// How a confirmation request ends.  The store being in memory, no
/// storage-fault path remains: a request either confirms a subscriber
/// or presented a token that resolves to nothing.
#[derive(Clone, Copy, Debug, PartialEq, Eq, Structural)]
pub enum ConfirmOutcome {
    Confirmed,
    UnknownToken,
}

impl ConfirmOutcome {
    /// The transport status of the outcome: an unknown token is an
    /// authorization failure.
    pub fn status_code(&self) -> (r: u16)
        ensures
            *self == ConfirmOutcome::Confirmed ==> r == 200,
            *self == ConfirmOutcome::UnknownToken ==> r == 401,
    {
        match self {
            ConfirmOutcome::Confirmed => 200,
            ConfirmOutcome::UnknownToken => 401,
        }
    }
}

/// The subscriber id a token resolves to, if any: the stored link from
/// token to owner, exactly as issued.
pub fn get_subscriber_id_from_token(store: &Store, subscription_token: &String) -> (r: Option<
    u128,
>)
    ensures
        r == spec_token_owner(store.tokens@, subscription_token@),
{
    let n = store.tokens.len();
    let mut i: usize = 0;
    proof {
        assert(store.tokens@.skip(0) =~= store.tokens@);
    }
    while i < n
        invariant
            n == store.tokens@.len(),
            i <= n,
            spec_token_owner(store.tokens@, subscription_token@) == spec_token_owner(
                store.tokens@.skip(i as int),
                subscription_token@,
            ),
        decreases n - i,
    {
        let row = &store.tokens[i];
        proof {
            assert(store.tokens@.skip(i as int)[0] == store.tokens@[i as int]);
        }
        if row.token == *subscription_token {
            return Some(row.subscriber_id);
        }
        proof {
            assert(store.tokens@.skip(i as int).drop_first() =~= store.tokens@.skip(i + 1));
        }
        i = i + 1;
    }
    None
}

/// Mark the subscriber with this id confirmed, leaving every other row
/// and the other relations untouched.
pub fn confirm_subscriber(store: &mut Store, subscriber_id: u128)
    requires
        old(store).wf(),
    ensures
        final(store).wf(),
        final(store).subscribers@ == spec_confirm(old(store).subscribers@, subscriber_id),
        final(store).tokens@ == old(store).tokens@,
        final(store).credentials@ == old(store).credentials@,
{
    let n = store.subscribers.len();
    let mut i: usize = 0;
    while i < n
        invariant
            n == store.subscribers@.len(),
            n == old(store).subscribers@.len(),
            i <= n,
            store.tokens@ == old(store).tokens@,
            store.credentials@ == old(store).credentials@,
            forall|j: int|
                0 <= j < i ==> store.subscribers@[j] == #[trigger] spec_confirm(
                    old(store).subscribers@,
                    subscriber_id,
                )[j],
            forall|j: int| i <= j < n ==> store.subscribers@[j] == old(store).subscribers@[j],
        decreases n - i,
    {
        if store.subscribers[i].id == subscriber_id {
            store.subscribers[i].status = SubscriberStatus::Confirmed;
        }
        proof {
            let prev = old(store).subscribers@;
            assert(spec_confirm(prev, subscriber_id)[i as int] == (if prev[i as int].id
                == subscriber_id {
                Subscriber { status: SubscriberStatus::Confirmed, ..prev[i as int] }
            } else {
                prev[i as int]
            }));
            assert(store.subscribers@[i as int] == spec_confirm(prev, subscriber_id)[i as int]);
        }
        i = i + 1;
    }
    proof {
        let prev = old(store).subscribers@;
        let cur = store.subscribers@;
        assert(cur =~= spec_confirm(prev, subscriber_id));
        assert forall|i2: int|
            0 <= i2 < store.tokens@.len() implies spec_has_subscriber_id(
            cur,
            store.tokens@[i2].subscriber_id,
        ) by {
            let sid = store.tokens@[i2].subscriber_id;
            assert(spec_has_subscriber_id(prev, sid));
            let j = choose|j: int| 0 <= j < prev.len() && prev[j].id == sid;
            assert(cur[j].id == sid);
        }
    }
}

/// The confirmation workflow for a token from an untrusted query
/// parameter.
///
/// A token that resolves to a subscriber confirms it, idempotently and
/// never moving a status backward; a token that resolves to nothing is
/// an authorization failure that changes no state.
pub fn newsletter_subscription_confirm(store: &mut Store, parameters: &Parameters) -> (r:
    ConfirmOutcome)
    requires
        old(store).wf(),
    ensures
        final(store).wf(),
        final(store).tokens@ == old(store).tokens@,
        final(store).credentials@ == old(store).credentials@,
        spec_token_owner(old(store).tokens@, parameters.subscription_token@) is None ==> (r
            == ConfirmOutcome::UnknownToken && same_state(final(store), old(store))),
        spec_token_owner(old(store).tokens@, parameters.subscription_token@) matches Some(id) ==> (
        r == ConfirmOutcome::Confirmed && final(store).subscribers@ == spec_confirm(
            old(store).subscribers@,
            id,
        )),
        final(store).subscribers@.len() == old(store).subscribers@.len(),
        forall|i: int|
            0 <= i < old(store).subscribers@.len() ==> #[trigger] final(store).subscribers@[i].id
                == old(store).subscribers@[i].id,
        forall|i: int|
            0 <= i < old(store).subscribers@.len() && old(store).subscribers@[i].status
                == SubscriberStatus::Confirmed ==> #[trigger] final(store).subscribers@[i].status
                == SubscriberStatus::Confirmed,
{
    let subscriber_id = match get_subscriber_id_from_token(store, &parameters.subscription_token) {
        Some(id) => id,
        None => {
            return ConfirmOutcome::UnknownToken;
        },
    };
    confirm_subscriber(store, subscriber_id);
    ConfirmOutcome::Confirmed
}

} // verus!
