//! The relational state the workflows run against: subscribers,
//! confirmation tokens and publishing credentials, with the constraints
//! the schema enforces - unique subscriber ids, unique tokens that refer
//! to an existing subscriber, unique usernames.

use vstd::prelude::*;

verus! {

/// A subscriber is created pending and can only ever move to confirmed.
#[derive(Clone, Copy, Debug, PartialEq, Eq, Structural)]
pub enum SubscriberStatus {
    PendingConfirmation,
    Confirmed,
}

/// One row of the subscribers relation.
#[derive(Debug)]
pub struct Subscriber {
    pub id: u128,
    pub email: String,
    pub name: String,
    pub status: SubscriberStatus,
    pub subscribed_at: i64,
}

/// One row of the confirmation-tokens relation, owned by one subscriber.
#[derive(Debug)]
pub struct TokenRow {
    pub token: String,
    pub subscriber_id: u128,
}

/// One row of the credentials relation; the hash is a PHC-format string,
/// never the raw password.
#[derive(Debug)]
pub struct Credential {
    pub user_id: u128,
    pub username: String,
    pub password_hash: String,
}

/// The three relations the workflows read and write.
#[derive(Debug)]
pub struct Store {
    pub subscribers: Vec<Subscriber>,
    pub tokens: Vec<TokenRow>,
    pub credentials: Vec<Credential>,
}

/// The in-memory counterpart of a storage fault: a row would violate a
/// uniqueness or reference constraint of the schema.
#[derive(Clone, Copy, Debug, PartialEq, Eq, Structural)]
pub enum StoreError {
    IdTaken,
    TokenTaken,
    NoSuchSubscriber,
}

/// Whether two store values hold the same rows.
pub open spec fn same_state(a: &Store, b: &Store) -> bool {
    &&& a.subscribers@ == b.subscribers@
    &&& a.tokens@ == b.tokens@
    &&& a.credentials@ == b.credentials@
}

/// Whether some subscriber row carries this id.
pub open spec fn spec_has_subscriber_id(subs: Seq<Subscriber>, id: u128) -> bool {
    exists|i: int| 0 <= i < subs.len() && subs[i].id == id
}

/// Whether some token row carries these characters.
pub open spec fn spec_has_token(tokens: Seq<TokenRow>, token: Seq<char>) -> bool {
    exists|i: int| 0 <= i < tokens.len() && tokens[i].token@ == token
}

/// The subscriber a token resolves to: the first row with these
/// characters.
pub open spec fn spec_token_owner(tokens: Seq<TokenRow>, token: Seq<char>) -> Option<u128>
    decreases tokens.len(),
{
    if tokens.len() == 0 {
        None
    } else if tokens[0].token@ == token {
        Some(tokens[0].subscriber_id)
    } else {
        spec_token_owner(tokens.drop_first(), token)
    }
}

/// The subscribers relation after confirming one id: the matching rows -
/// and only they - move to confirmed; everything else is untouched.
pub open spec fn spec_confirm(subs: Seq<Subscriber>, id: u128) -> Seq<Subscriber> {
    subs.map_values(
        |s: Subscriber|
            if s.id == id {
                Subscriber { status: SubscriberStatus::Confirmed, ..s }
            } else {
                s
            },
    )
}

/// The credential stored for a username: the first row that matches.
pub open spec fn spec_credential_for(creds: Seq<Credential>, username: Seq<char>) -> Option<
    Credential,
>
    decreases creds.len(),
{
    if creds.len() == 0 {
        None
    } else if creds[0].username@ == username {
        Some(creds[0])
    } else {
        spec_credential_for(creds.drop_first(), username)
    }
}

impl Store {
    /// The schema's constraints: subscriber ids are unique, tokens are
    /// unique and refer to an existing subscriber, usernames are unique.
    pub open spec fn wf(&self) -> bool {
        &&& (forall|i: int, j: int|
            0 <= i < j < self.subscribers@.len() ==> self.subscribers@[i].id
                != self.subscribers@[j].id)
        &&& (forall|i: int, j: int|
            0 <= i < j < self.tokens@.len() ==> self.tokens@[i].token@ != self.tokens@[j].token@)
        &&& (forall|i: int|
            0 <= i < self.tokens@.len() ==> spec_has_subscriber_id(
                self.subscribers@,
                self.tokens@[i].subscriber_id,
            ))
        &&& (forall|i: int, j: int|
            0 <= i < j < self.credentials@.len() ==> self.credentials@[i].username@
                != self.credentials@[j].username@)
    }

    /// An empty store, trivially well formed.
    pub fn new() -> (r: Store)
        ensures
            r.wf(),
            r.subscribers@ =~= Seq::<Subscriber>::empty(),
            r.tokens@ =~= Seq::<TokenRow>::empty(),
            r.credentials@ =~= Seq::<Credential>::empty(),
    {
        Store { subscribers: Vec::new(), tokens: Vec::new(), credentials: Vec::new() }
    }

    /// Whether a subscriber row with this id exists.
    pub fn has_subscriber_id(&self, id: u128) -> (r: bool)
        ensures
            r == spec_has_subscriber_id(self.subscribers@, id),
    {
        let n = self.subscribers.len();
        let mut i: usize = 0;
        while i < n
            invariant
                n == self.subscribers@.len(),
                i <= n,
                forall|j: int| 0 <= j < i ==> self.subscribers@[j].id != id,
            decreases n - i,
        {
            if self.subscribers[i].id == id {
                return true;
            }
            i = i + 1;
        }
        false
    }

    /// Whether a token row with these characters exists.
    pub fn has_token(&self, token: &String) -> (r: bool)
        ensures
            r == spec_has_token(self.tokens@, token@),
    {
        let n = self.tokens.len();
        let mut i: usize = 0;
        while i < n
            invariant
                n == self.tokens@.len(),
                i <= n,
                forall|j: int| 0 <= j < i ==> self.tokens@[j].token@ != token@,
            decreases n - i,
        {
            if self.tokens[i].token == *token {
                return true;
            }
            i = i + 1;
        }
        false
    }
}

/// Appending a row with different characters leaves every other token's
/// owner as it was.
pub proof fn lemma_token_owner_push_other(tokens: Seq<TokenRow>, row: TokenRow, token: Seq<char>)
    requires
        token != row.token@,
    ensures
        spec_token_owner(tokens.push(row), token) == spec_token_owner(tokens, token),
    decreases tokens.len(),
{
    if tokens.len() == 0 {
        assert(tokens.push(row)[0] == row);
        assert(tokens.push(row).drop_first() =~= Seq::<TokenRow>::empty());
        assert(spec_token_owner(Seq::<TokenRow>::empty(), token) is None);
    } else {
        assert(tokens.push(row)[0] == tokens[0]);
        assert(tokens.push(row).drop_first() =~= tokens.drop_first().push(row));
        lemma_token_owner_push_other(tokens.drop_first(), row, token);
    }
}

/// A freshly appended token resolves to the subscriber it was created
/// for.
pub proof fn lemma_token_owner_push_fresh(tokens: Seq<TokenRow>, row: TokenRow)
    requires
        !spec_has_token(tokens, row.token@),
    ensures
        spec_token_owner(tokens.push(row), row.token@) == Some(row.subscriber_id),
    decreases tokens.len(),
{
    if tokens.len() == 0 {
        assert(tokens.push(row)[0] == row);
    } else {
        assert(tokens[0].token@ != row.token@);
        assert(tokens.push(row).drop_first() =~= tokens.drop_first().push(row));
        assert(!spec_has_token(tokens.drop_first(), row.token@)) by {
            assert(forall|i: int|
                0 <= i < tokens.drop_first().len() ==> tokens.drop_first()[i] == tokens[i + 1]);
        }
        lemma_token_owner_push_fresh(tokens.drop_first(), row);
    }
}

/// Confirming changes no subscriber's identity and never moves a status
/// backward: a confirmed subscriber stays confirmed, and rows with other
/// ids are untouched.
pub proof fn lemma_confirm_forward_only(subs: Seq<Subscriber>, id: u128)
    ensures
        spec_confirm(subs, id).len() == subs.len(),
        forall|i: int| 0 <= i < subs.len() ==> #[trigger] spec_confirm(subs, id)[i].id == subs[i].id,
        forall|i: int|
            0 <= i < subs.len() && subs[i].status == SubscriberStatus::Confirmed
                ==> #[trigger] spec_confirm(subs, id)[i].status == SubscriberStatus::Confirmed,
        forall|i: int|
            0 <= i < subs.len() && subs[i].id != id ==> #[trigger] spec_confirm(subs, id)[i]
                == subs[i],
{
}

/// Confirming the same subscriber twice is the same as confirming it
/// once.
pub proof fn lemma_confirm_idempotent(subs: Seq<Subscriber>, id: u128)
    ensures
        spec_confirm(spec_confirm(subs, id), id) == spec_confirm(subs, id),
{
    assert(spec_confirm(spec_confirm(subs, id), id) =~= spec_confirm(subs, id));
}

} // verus!

