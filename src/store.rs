use vstd::prelude::*;

use crate::domain::{str_eq, NewSubscriber, SubscriberStatus};

verus! {

/// A stored subscriber, as the logic sees it.
pub struct SubscriberRow {
    pub id: u128,
    pub email: Seq<char>,
    pub name: Seq<char>,
    pub subscribed_at: i64,
    pub status: SubscriberStatus,
}

/// A stored confirmation token and the subscriber that owns it.
pub struct TokenRow {
    pub token: Seq<char>,
    pub subscriber_id: u128,
}

/// The two tables of the store: subscribers and confirmation tokens.
pub struct Tables {
    pub subscribers: Seq<SubscriberRow>,
    pub tokens: Seq<TokenRow>,
}

impl Tables {
    pub open spec fn empty() -> Tables {
        Tables { subscribers: Seq::empty(), tokens: Seq::empty() }
    }

    /// The table constraints: subscriber ids and emails are unique, token values are unique,
    /// a subscriber owns at most one token, and every token belongs to a stored subscriber.
    pub open spec fn wf(self) -> bool {
        &&& forall|i: int, j: int|
            0 <= i < self.subscribers.len() && 0 <= j < self.subscribers.len() && i != j
                ==> #[trigger] self.subscribers[i].id != #[trigger] self.subscribers[j].id
        &&& forall|i: int, j: int|
            0 <= i < self.subscribers.len() && 0 <= j < self.subscribers.len() && i != j
                ==> #[trigger] self.subscribers[i].email != #[trigger] self.subscribers[j].email
        &&& forall|i: int, j: int|
            0 <= i < self.tokens.len() && 0 <= j < self.tokens.len() && i != j
                ==> #[trigger] self.tokens[i].token != #[trigger] self.tokens[j].token
        &&& forall|i: int, j: int|
            0 <= i < self.tokens.len() && 0 <= j < self.tokens.len() && i != j
                ==> #[trigger] self.tokens[i].subscriber_id
                != #[trigger] self.tokens[j].subscriber_id
        &&& forall|i: int|
            0 <= i < self.tokens.len() ==> self.has_id(#[trigger] self.tokens[i].subscriber_id)
    }

    pub open spec fn has_email(self, email: Seq<char>) -> bool {
        exists|i: int| 0 <= i < self.subscribers.len() && #[trigger] self.subscribers[i].email == email
    }

    pub open spec fn has_id(self, id: u128) -> bool {
        exists|i: int| 0 <= i < self.subscribers.len() && #[trigger] self.subscribers[i].id == id
    }

    pub open spec fn has_token(self, token: Seq<char>) -> bool {
        exists|i: int| 0 <= i < self.tokens.len() && #[trigger] self.tokens[i].token == token
    }

    pub open spec fn has_token_for(self, id: u128) -> bool {
        exists|i: int| 0 <= i < self.tokens.len() && #[trigger] self.tokens[i].subscriber_id == id
    }

    /// Row `i` is the first subscriber named `name`.
    pub open spec fn is_first_named(self, name: Seq<char>, i: int) -> bool {
        &&& 0 <= i < self.subscribers.len()
        &&& self.subscribers[i].name == name
        &&& forall|j: int| 0 <= j < i ==> #[trigger] self.subscribers[j].name != name
    }

    /// The id of the first subscriber named `name`, if any.
    pub open spec fn id_by_name(self, name: Seq<char>) -> Option<u128> {
        if exists|i: int| self.is_first_named(name, i) {
            Some(self.subscribers[choose|i: int| self.is_first_named(name, i)].id)
        } else {
            None
        }
    }

    /// Row `i` is the first token row holding `token`.
    pub open spec fn is_first_token(self, token: Seq<char>, i: int) -> bool {
        &&& 0 <= i < self.tokens.len()
        &&& self.tokens[i].token == token
        &&& forall|j: int| 0 <= j < i ==> #[trigger] self.tokens[j].token != token
    }

    /// Row `i` is the first subscriber with id `id`.
    pub open spec fn is_first_id(self, id: u128, i: int) -> bool {
        &&& 0 <= i < self.subscribers.len()
        &&& self.subscribers[i].id == id
        &&& forall|j: int| 0 <= j < i ==> #[trigger] self.subscribers[j].id != id
    }

    /// The owner of `token` and that owner's status, if the token is stored.
    pub open spec fn lookup_token(self, token: Seq<char>) -> Option<(u128, SubscriberStatus)> {
        if exists|i: int| self.is_first_token(token, i) {
            let id = self.tokens[choose|i: int| self.is_first_token(token, i)].subscriber_id;
            if exists|k: int| self.is_first_id(id, k) {
                Some((id, self.subscribers[choose|k: int| self.is_first_id(id, k)].status))
            } else {
                None
            }
        } else {
            None
        }
    }

    /// A new subscriber row, pending confirmation, appended.
    pub open spec fn add_subscriber(
        self,
        id: u128,
        email: Seq<char>,
        name: Seq<char>,
        subscribed_at: i64,
    ) -> Tables {
        Tables {
            subscribers: self.subscribers.push(
                SubscriberRow {
                    id,
                    email,
                    name,
                    subscribed_at,
                    status: SubscriberStatus::PendingConfirmation,
                },
            ),
            ..self
        }
    }

    /// A new token row appended.
    pub open spec fn add_token(self, token: Seq<char>, id: u128) -> Tables {
        Tables { tokens: self.tokens.push(TokenRow { token, subscriber_id: id }), ..self }
    }

    /// Every token row of subscriber `id` now holds `token`.
    pub open spec fn replace_token(self, id: u128, token: Seq<char>) -> Tables {
        Tables {
            tokens: self.tokens.map_values(
                |r: TokenRow|
                    if r.subscriber_id == id {
                        TokenRow { token, subscriber_id: id }
                    } else {
                        r
                    },
            ),
            ..self
        }
    }

    /// Every subscriber row with id `id` is now confirmed.
    pub open spec fn mark_confirmed(self, id: u128) -> Tables {
        Tables {
            subscribers: self.subscribers.map_values(
                |r: SubscriberRow|
                    if r.id == id {
                        SubscriberRow { status: SubscriberStatus::Confirmed, ..r }
                    } else {
                        r
                    },
            ),
            ..self
        }
    }

    /// Replacing the token of `id` with `token` would break the uniqueness of token values:
    /// `id` owns a token row and another subscriber's token already holds `token`.
    pub open spec fn replace_conflicts(self, id: u128, token: Seq<char>) -> bool {
        self.has_token_for(id) && self.token_taken_by_other(id, token)
    }

    /// Some token row of a subscriber other than `id` holds `token`.
    pub open spec fn token_taken_by_other(self, id: u128, token: Seq<char>) -> bool {
        exists|i: int|
            0 <= i < self.tokens.len() && #[trigger] self.tokens[i].token == token
                && self.tokens[i].subscriber_id != id
    }
}

/// Appending a subscriber with an unused id and email keeps the table constraints.
pub proof fn lemma_add_subscriber_wf(s: Tables, id: u128, email: Seq<char>, name: Seq<char>, ts: i64)
    requires
        s.wf(),
        !s.has_email(email),
        !s.has_id(id),
    ensures
        s.add_subscriber(id, email, name, ts).wf(),
        s.add_subscriber(id, email, name, ts).has_id(id),
        s.add_subscriber(id, email, name, ts).has_email(email),
        !s.add_subscriber(id, email, name, ts).has_token_for(id),
{
    let t = s.add_subscriber(id, email, name, ts);
    let n = s.subscribers.len();
    assert(t.subscribers[n as int].id == id);
    assert(t.subscribers[n as int].email == email);
    assert forall|i: int| 0 <= i < n implies #[trigger] t.subscribers[i] == s.subscribers[i] by {}
    assert forall|i: int| 0 <= i < t.tokens.len() implies t.has_id(#[trigger] t.tokens[i].subscriber_id) by {
        let k = choose|k: int| 0 <= k < n && #[trigger] s.subscribers[k].id == s.tokens[i].subscriber_id;
        assert(t.subscribers[k].id == t.tokens[i].subscriber_id);
    }
    assert forall|i: int| 0 <= i < t.tokens.len() implies #[trigger] t.tokens[i].subscriber_id != id by {
        let k = choose|k: int| 0 <= k < n && #[trigger] s.subscribers[k].id == s.tokens[i].subscriber_id;
    }
}

/// Appending a token with an unused value, for a stored subscriber that owns none, keeps the
/// table constraints, and the token then resolves to that subscriber.
pub proof fn lemma_add_token_wf(s: Tables, token: Seq<char>, id: u128)
    requires
        s.wf(),
        !s.has_token(token),
        !s.has_token_for(id),
        s.has_id(id),
    ensures
        s.add_token(token, id).wf(),
        s.add_token(token, id).is_first_token(token, s.tokens.len() as int),
{
    let t = s.add_token(token, id);
    let n = s.tokens.len();
    assert forall|i: int| 0 <= i < n implies #[trigger] t.tokens[i] == s.tokens[i] by {}
    assert(t.tokens[n as int].token == token);
    assert forall|i: int| 0 <= i < t.tokens.len() implies t.has_id(#[trigger] t.tokens[i].subscriber_id) by {
        if i < n {
            assert(s.has_id(s.tokens[i].subscriber_id));
        }
    }
}

/// Replacing the token of a subscriber that owns none changes nothing.
pub proof fn lemma_replace_without_token(s: Tables, id: u128, token: Seq<char>)
    requires
        !s.has_token_for(id),
    ensures
        s.replace_token(id, token) == s,
{
    let t = s.replace_token(id, token);
    assert forall|k: int| 0 <= k < s.tokens.len() implies #[trigger] t.tokens[k] == s.tokens[k] by {
        assert(s.tokens[k].subscriber_id != id);
    }
    assert(t.tokens =~= s.tokens);
}

/// Replacing a subscriber's token without a conflict keeps the table constraints; for a
/// subscriber that owns no token it changes nothing.
pub proof fn lemma_replace_token_wf(s: Tables, id: u128, token: Seq<char>)
    requires
        s.wf(),
        !s.replace_conflicts(id, token),
    ensures
        s.replace_token(id, token).wf(),
        !s.has_token_for(id) ==> s.replace_token(id, token) == s,
{
    let t = s.replace_token(id, token);
    if !s.has_token_for(id) {
        lemma_replace_without_token(s, id, token);
        return;
    }
    assert forall|k: int| 0 <= k < t.tokens.len() implies #[trigger] t.tokens[k].subscriber_id
        == s.tokens[k].subscriber_id by {}
    assert forall|a: int, b: int|
        0 <= a < t.tokens.len() && 0 <= b < t.tokens.len() && a != b
            implies #[trigger] t.tokens[a].token != #[trigger] t.tokens[b].token by {
        if t.tokens[a].token == t.tokens[b].token {
            if s.tokens[a].subscriber_id == id {
                assert(s.tokens[b].subscriber_id != id);
                assert(s.tokens[b].token == token);
            } else if s.tokens[b].subscriber_id == id {
                assert(s.tokens[a].token == token);
            }
        }
    }
}

/// Confirming a subscriber keeps the table constraints, and keeps every id, email, name and
/// token.
pub proof fn lemma_mark_confirmed_wf(s: Tables, id: u128)
    requires
        s.wf(),
    ensures
        s.mark_confirmed(id).wf(),
        s.mark_confirmed(id).tokens == s.tokens,
        s.mark_confirmed(id).subscribers.len() == s.subscribers.len(),
        forall|k: int|
            0 <= k < s.subscribers.len() ==> (#[trigger] s.mark_confirmed(id).subscribers[k]).id
                == s.subscribers[k].id && s.mark_confirmed(id).subscribers[k].email
                == s.subscribers[k].email && s.mark_confirmed(id).subscribers[k].name
                == s.subscribers[k].name,
{
    let t = s.mark_confirmed(id);
    assert forall|k: int| 0 <= k < t.subscribers.len() implies #[trigger] t.subscribers[k].id
        == s.subscribers[k].id && t.subscribers[k].email == s.subscribers[k].email by {}
    assert forall|i: int| 0 <= i < t.tokens.len() implies t.has_id(#[trigger] t.tokens[i].subscriber_id) by {
        let k = choose|k: int|
            0 <= k < s.subscribers.len() && #[trigger] s.subscribers[k].id == s.tokens[i].subscriber_id;
        assert(t.subscribers[k].id == t.tokens[i].subscriber_id);
    }
}

/// Under the table constraints, a stored token resolves to its owner's id and status.
pub proof fn lemma_lookup_token(s: Tables, token: Seq<char>, i: int, k: int)
    requires
        s.wf(),
        0 <= i < s.tokens.len(),
        s.tokens[i].token == token,
        0 <= k < s.subscribers.len(),
        s.subscribers[k].id == s.tokens[i].subscriber_id,
    ensures
        s.lookup_token(token) == Some((s.subscribers[k].id, s.subscribers[k].status)),
{
    assert(s.is_first_token(token, i));
    let i2 = choose|j: int| s.is_first_token(token, j);
    assert(i2 == i);
    assert(s.is_first_id(s.subscribers[k].id, k));
    let k2 = choose|j: int| s.is_first_id(s.subscribers[k].id, j);
    assert(k2 == k);
}

/// A token that no row holds resolves to nothing.
pub proof fn lemma_lookup_missing_token(s: Tables, token: Seq<char>)
    requires
        !s.has_token(token),
    ensures
        s.lookup_token(token) is None,
{
}

/// What a store operation can fail with.
#[derive(Debug, Clone, Copy, PartialEq, Eq, Structural)]
pub enum StoreError {
    /// The unique constraint on the subscriber email was violated.
    DuplicateEmail,
    /// The row looked for does not exist.
    NotFound,
    /// Any other failure of the storage layer.
    Failure,
}

/// A stored subscriber.
pub struct SubscriberRecord {
    pub id: u128,
    pub email: String,
    pub name: String,
    pub subscribed_at: i64,
    pub status: SubscriberStatus,
}

impl View for SubscriberRecord {
    type V = SubscriberRow;

    open spec fn view(&self) -> SubscriberRow {
        SubscriberRow {
            id: self.id,
            email: self.email@,
            name: self.name@,
            subscribed_at: self.subscribed_at,
            status: self.status,
        }
    }
}

impl SubscriberRecord {
    pub fn duplicate(&self) -> (r: SubscriberRecord)
        ensures
            r@ == self@,
    {
        SubscriberRecord {
            id: self.id,
            email: self.email.clone(),
            name: self.name.clone(),
            subscribed_at: self.subscribed_at,
            status: self.status,
        }
    }
}

/// A stored confirmation token.
pub struct TokenRecord {
    pub subscription_token: String,
    pub subscriber_id: u128,
}

impl View for TokenRecord {
    type V = TokenRow;

    open spec fn view(&self) -> TokenRow {
        TokenRow { token: self.subscription_token@, subscriber_id: self.subscriber_id }
    }
}

impl TokenRecord {
    pub fn duplicate(&self) -> (r: TokenRecord)
        ensures
            r@ == self@,
    {
        TokenRecord {
            subscription_token: self.subscription_token.clone(),
            subscriber_id: self.subscriber_id,
        }
    }
}

/// The rows of both tables.
pub struct StoreTables {
    subscribers: Vec<SubscriberRecord>,
    tokens: Vec<TokenRecord>,
}

impl View for StoreTables {
    type V = Tables;

    closed spec fn view(&self) -> Tables {
        Tables {
            subscribers: self.subscribers@.map_values(|r: SubscriberRecord| r@),
            tokens: self.tokens@.map_values(|r: TokenRecord| r@),
        }
    }
}

impl StoreTables {
    fn duplicate(&self) -> (r: StoreTables)
        ensures
            r@ == self@,
    {
        let mut subscribers: Vec<SubscriberRecord> = Vec::new();
        let mut i: usize = 0;
        while i < self.subscribers.len()
            invariant
                i <= self.subscribers@.len(),
                subscribers@.len() == i,
                forall|j: int| 0 <= j < i ==> (#[trigger] subscribers@[j])@ == self.subscribers@[j]@,
            decreases self.subscribers@.len() - i,
        {
            subscribers.push(self.subscribers[i].duplicate());
            i = i + 1;
        }
        let mut tokens: Vec<TokenRecord> = Vec::new();
        let mut k: usize = 0;
        while k < self.tokens.len()
            invariant
                k <= self.tokens@.len(),
                tokens@.len() == k,
                forall|j: int| 0 <= j < k ==> (#[trigger] tokens@[j])@ == self.tokens@[j]@,
            decreases self.tokens@.len() - k,
        {
            tokens.push(self.tokens[k].duplicate());
            k = k + 1;
        }
        let r = StoreTables { subscribers, tokens };
        assert(r@.subscribers =~= self@.subscribers);
        assert(r@.tokens =~= self@.tokens);
        r
    }
}

impl StoreTables {
    fn has_email(&self, email: &String) -> (r: bool)
        ensures
            r == self@.has_email(email@),
    {
        let mut i: usize = 0;
        while i < self.subscribers.len()
            invariant
                i <= self.subscribers@.len(),
                forall|j: int| 0 <= j < i ==> (#[trigger] self.subscribers@[j]).email@ != email@,
            decreases self.subscribers@.len() - i,
        {
            if self.subscribers[i].email == *email {
                assert(self@.subscribers[i as int].email == email@);
                return true;
            }
            i = i + 1;
        }
        assert(!self@.has_email(email@)) by {
            assert forall|j: int| 0 <= j < self@.subscribers.len() implies #[trigger] self@.subscribers[j].email != email@ by {
                assert(self@.subscribers[j] == self.subscribers@[j]@);
            }
        }
        false
    }

    fn has_id(&self, id: u128) -> (r: bool)
        ensures
            r == self@.has_id(id),
    {
        match self.first_with_id(id) {
            Some(_) => true,
            None => false,
        }
    }

    fn first_with_id(&self, id: u128) -> (r: Option<usize>)
        ensures
            r matches Some(i) ==> self@.is_first_id(id, i as int),
            r is None ==> !self@.has_id(id),
    {
        let mut i: usize = 0;
        while i < self.subscribers.len()
            invariant
                i <= self.subscribers@.len(),
                forall|j: int| 0 <= j < i ==> (#[trigger] self.subscribers@[j]).id != id,
            decreases self.subscribers@.len() - i,
        {
            if self.subscribers[i].id == id {
                assert forall|j: int| 0 <= j < i implies #[trigger] self@.subscribers[j].id != id by {
                    assert(self@.subscribers[j] == self.subscribers@[j]@);
                }
                return Some(i);
            }
            i = i + 1;
        }
        assert forall|j: int| 0 <= j < self@.subscribers.len() implies #[trigger] self@.subscribers[j].id != id by {
            assert(self@.subscribers[j] == self.subscribers@[j]@);
        }
        None
    }

    fn first_named(&self, name: &str) -> (r: Option<usize>)
        ensures
            r matches Some(i) ==> self@.is_first_named(name@, i as int),
            r is None ==> forall|j: int|
                0 <= j < self@.subscribers.len() ==> #[trigger] self@.subscribers[j].name != name@,
    {
        let mut i: usize = 0;
        while i < self.subscribers.len()
            invariant
                i <= self.subscribers@.len(),
                forall|j: int| 0 <= j < i ==> (#[trigger] self.subscribers@[j]).name@ != name@,
            decreases self.subscribers@.len() - i,
        {
            if str_eq(self.subscribers[i].name.as_str(), name) {
                assert forall|j: int| 0 <= j < i implies #[trigger] self@.subscribers[j].name != name@ by {
                    assert(self@.subscribers[j] == self.subscribers@[j]@);
                }
                return Some(i);
            }
            i = i + 1;
        }
        assert forall|j: int| 0 <= j < self@.subscribers.len() implies #[trigger] self@.subscribers[j].name != name@ by {
            assert(self@.subscribers[j] == self.subscribers@[j]@);
        }
        None
    }

    fn first_token(&self, token: &str) -> (r: Option<usize>)
        ensures
            r matches Some(i) ==> self@.is_first_token(token@, i as int),
            r is None ==> !self@.has_token(token@),
    {
        let mut i: usize = 0;
        while i < self.tokens.len()
            invariant
                i <= self.tokens@.len(),
                forall|j: int| 0 <= j < i ==> (#[trigger] self.tokens@[j]).subscription_token@ != token@,
            decreases self.tokens@.len() - i,
        {
            if str_eq(self.tokens[i].subscription_token.as_str(), token) {
                assert forall|j: int| 0 <= j < i implies #[trigger] self@.tokens[j].token != token@ by {
                    assert(self@.tokens[j] == self.tokens@[j]@);
                }
                return Some(i);
            }
            i = i + 1;
        }
        assert forall|j: int| 0 <= j < self@.tokens.len() implies #[trigger] self@.tokens[j].token != token@ by {
            assert(self@.tokens[j] == self.tokens@[j]@);
        }
        None
    }

    fn has_token_for(&self, id: u128) -> (r: bool)
        ensures
            r == self@.has_token_for(id),
    {
        let mut i: usize = 0;
        while i < self.tokens.len()
            invariant
                i <= self.tokens@.len(),
                forall|j: int| 0 <= j < i ==> (#[trigger] self.tokens@[j]).subscriber_id != id,
            decreases self.tokens@.len() - i,
        {
            if self.tokens[i].subscriber_id == id {
                assert(self@.tokens[i as int].subscriber_id == id);
                return true;
            }
            i = i + 1;
        }
        assert forall|j: int| 0 <= j < self@.tokens.len() implies #[trigger] self@.tokens[j].subscriber_id != id by {
            assert(self@.tokens[j] == self.tokens@[j]@);
        }
        false
    }

    fn token_taken_by_other(&self, id: u128, token: &str) -> (r: bool)
        ensures
            r == self@.token_taken_by_other(id, token@),
    {
        let mut i: usize = 0;
        while i < self.tokens.len()
            invariant
                i <= self.tokens@.len(),
                forall|j: int|
                    0 <= j < i ==> (#[trigger] self.tokens@[j]).subscription_token@ != token@
                        || self.tokens@[j].subscriber_id == id,
            decreases self.tokens@.len() - i,
        {
            if self.tokens[i].subscriber_id != id && str_eq(
                self.tokens[i].subscription_token.as_str(),
                token,
            ) {
                assert(self@.tokens[i as int].token == token@);
                return true;
            }
            i = i + 1;
        }
        assert forall|j: int|
            0 <= j < self@.tokens.len() && #[trigger] self@.tokens[j].token == token@ implies self@.tokens[j].subscriber_id
            == id by {
            assert(self@.tokens[j] == self.tokens@[j]@);
        }
        false
    }
}

/// Relies on uuid's `Uuid::new_v4` read back with `Uuid::as_u128`: a random id.
#[verifier::external_body]
pub(crate) fn new_subscriber_id() -> (r: u128) {
    uuid::Uuid::new_v4().as_u128()
}

/// Relies on chrono's `Utc::now` read back with `timestamp`: the current time in seconds since
/// the Unix epoch.
#[verifier::external_body]
pub(crate) fn now_timestamp() -> (r: i64) {
    chrono::Utc::now().timestamp()
}

/// An in-memory subscriber store. Writes go through a `Transaction`, which holds a working copy
/// of the tables and takes effect only when committed.
pub struct MemoryStore {
    tables: StoreTables,
}

/// An open transaction: a working copy of the tables that the store replaces its own with on
/// commit. Dropping it without a commit rolls it back.
pub struct Transaction {
    tables: StoreTables,
}

impl View for MemoryStore {
    type V = Tables;

    closed spec fn view(&self) -> Tables {
        self.tables@
    }
}

impl View for Transaction {
    type V = Tables;

    closed spec fn view(&self) -> Tables {
        self.tables@
    }
}

/// The owner of a confirmation token and that owner's status.
#[derive(Debug, Clone, Copy, PartialEq, Eq, Structural)]
pub struct UserData {
    pub subscriber_id: u128,
    pub status: SubscriberStatus,
}

impl MemoryStore {
    /// An empty store.
    pub fn new() -> (r: MemoryStore)
        ensures
            r@ == Tables::empty(),
            r@.wf(),
    {
        let r = MemoryStore { tables: StoreTables { subscribers: Vec::new(), tokens: Vec::new() } };
        assert(r@.subscribers =~= Seq::<SubscriberRow>::empty());
        assert(r@.tokens =~= Seq::<TokenRow>::empty());
        r
    }

    /// Opens a transaction on the current tables.
    pub fn begin(&self) -> (tx: Transaction)
        ensures
            tx@ == self@,
    {
        Transaction { tables: self.tables.duplicate() }
    }

    /// Commits a transaction: its tables become the store's.
    pub fn commit(&mut self, transaction: Transaction)
        ensures
            final(self)@ == transaction@,
    {
        self.tables = transaction.tables;
    }

    /// The stored subscribers, in insertion order.
    pub fn subscribers(&self) -> (r: &Vec<SubscriberRecord>)
        ensures
            r@.len() == self@.subscribers.len(),
            forall|i: int| 0 <= i < r@.len() ==> (#[trigger] r@[i])@ == self@.subscribers[i],
    {
        &self.tables.subscribers
    }

    /// The stored confirmation tokens, in insertion order.
    pub fn tokens(&self) -> (r: &Vec<TokenRecord>)
        ensures
            r@.len() == self@.tokens.len(),
            forall|i: int| 0 <= i < r@.len() ==> (#[trigger] r@[i])@ == self@.tokens[i],
    {
        &self.tables.tokens
    }
}

/// Inserts a subscriber, pending confirmation, under the id `id`, stamped `subscribed_at`.
/// Fails with `DuplicateEmail` when the email is already stored, and otherwise with `Failure`
/// when the id is already taken.
pub fn insert_subscriber_as(
    new_subscriber: &NewSubscriber,
    transaction: &mut Transaction,
    id: u128,
    subscribed_at: i64,
) -> (r: Result<u128, StoreError>)
    ensures
        old(transaction)@.wf() ==> final(transaction)@.wf(),
        if old(transaction)@.has_email(new_subscriber.email@) {
            r == Err::<u128, _>(StoreError::DuplicateEmail) && final(transaction)@ == old(
                transaction,
            )@
        } else if old(transaction)@.has_id(id) {
            r == Err::<u128, _>(StoreError::Failure) && final(transaction)@ == old(transaction)@
        } else {
            r == Ok::<u128, StoreError>(id) && final(transaction)@ == old(
                transaction,
            )@.add_subscriber(id, new_subscriber.email@, new_subscriber.name@, subscribed_at)
        },
{
    if transaction.tables.has_email(&new_subscriber.email) {
        return Err(StoreError::DuplicateEmail);
    }
    if transaction.tables.has_id(id) {
        return Err(StoreError::Failure);
    }
    let ghost before = transaction@;
    transaction.tables.subscribers.push(
        SubscriberRecord {
            id,
            email: new_subscriber.email.clone(),
            name: new_subscriber.name.clone(),
            subscribed_at,
            status: SubscriberStatus::PendingConfirmation,
        },
    );
    let ghost after = before.add_subscriber(
        id,
        new_subscriber.email@,
        new_subscriber.name@,
        subscribed_at,
    );
    assert(transaction@.subscribers =~= after.subscribers);
    assert(transaction@ == after);
    proof {
        if before.wf() {
            lemma_add_subscriber_wf(before, id, new_subscriber.email@, new_subscriber.name@, subscribed_at);
        }
    }
    Ok(id)
}

/// Inserts a subscriber under a fresh random id, stamped with the current time: the outcome
/// is that of `insert_subscriber_as` for whichever id and time were drawn.
pub fn insert_subscriber(new_subscriber: &NewSubscriber, transaction: &mut Transaction) -> (r:
    Result<u128, StoreError>)
    ensures
        old(transaction)@.wf() ==> final(transaction)@.wf(),
        exists|id: u128, subscribed_at: i64|
            if old(transaction)@.has_email(new_subscriber.email@) {
                r == Err::<u128, _>(StoreError::DuplicateEmail) && final(transaction)@ == old(
                    transaction,
                )@
            } else if old(transaction)@.has_id(id) {
                r == Err::<u128, _>(StoreError::Failure) && final(transaction)@ == old(
                    transaction,
                )@
            } else {
                r == Ok::<u128, StoreError>(id) && final(transaction)@ == old(
                    transaction,
                )@.add_subscriber(id, new_subscriber.email@, new_subscriber.name@, subscribed_at)
            },
{
    let id = new_subscriber_id();
    let subscribed_at = now_timestamp();
    insert_subscriber_as(new_subscriber, transaction, id, subscribed_at)
}

/// Stores the first token of a subscriber. Fails with `Failure` when the token value is
/// already stored, when the subscriber already owns a token, or when no such subscriber exists.
pub fn store_token(transaction: &mut Transaction, subscriber_id: u128, subscription_token: &str)
    -> (r: Result<(), StoreError>)
    ensures
        old(transaction)@.wf() ==> final(transaction)@.wf(),
        if old(transaction)@.has_token(subscription_token@) || old(transaction)@.has_token_for(
            subscriber_id,
        ) || !old(transaction)@.has_id(subscriber_id) {
            r == Err::<(), _>(StoreError::Failure) && final(transaction)@ == old(transaction)@
        } else {
            r == Ok::<(), StoreError>(()) && final(transaction)@ == old(transaction)@.add_token(
                subscription_token@,
                subscriber_id,
            )
        },
{
    if transaction.tables.first_token(subscription_token).is_some() || transaction.tables.has_token_for(
        subscriber_id,
    ) || !transaction.tables.has_id(subscriber_id) {
        return Err(StoreError::Failure);
    }
    let ghost before = transaction@;
    transaction.tables.tokens.push(
        TokenRecord { subscription_token: subscription_token.to_owned(), subscriber_id },
    );
    let ghost after = before.add_token(subscription_token@, subscriber_id);
    assert(transaction@.tokens =~= after.tokens);
    assert(transaction@ == after);
    proof {
        if before.wf() {
            lemma_add_token_wf(before, subscription_token@, subscriber_id);
        }
    }
    Ok(())
}

/// Replaces the token of a subscriber with a new value; a subscriber without a token is left
/// as it is, and the call succeeds. Fails with `Failure` when the subscriber owns a token and
/// another subscriber's token already holds the new value.
pub fn update_token(transaction: &mut Transaction, subscriber_id: u128, subscription_token: &str)
    -> (r: Result<(), StoreError>)
    ensures
        old(transaction)@.wf() ==> final(transaction)@.wf(),
        !old(transaction)@.has_token_for(subscriber_id) ==> final(transaction)@ == old(
            transaction,
        )@,
        if old(transaction)@.replace_conflicts(subscriber_id, subscription_token@) {
            r == Err::<(), _>(StoreError::Failure) && final(transaction)@ == old(transaction)@
        } else {
            r == Ok::<(), StoreError>(()) && final(transaction)@ == old(transaction)@.replace_token(
                subscriber_id,
                subscription_token@,
            )
        },
{
    if transaction.tables.has_token_for(subscriber_id) && transaction.tables.token_taken_by_other(
        subscriber_id,
        subscription_token,
    ) {
        return Err(StoreError::Failure);
    }
    let ghost before = transaction@;
    let ghost after = before.replace_token(subscriber_id, subscription_token@);
    let n = transaction.tables.tokens.len();
    let mut i: usize = 0;
    while i < n
        invariant
            n == before.tokens.len(),
            after == before.replace_token(subscriber_id, subscription_token@),
            n == after.tokens.len(),
            i <= n,
            transaction@.subscribers == before.subscribers,
            transaction.tables.tokens@.len() == n,
            forall|j: int| 0 <= j < i ==> (#[trigger] transaction.tables.tokens@[j])@ == after.tokens[j],
            forall|j: int| i <= j < n ==> (#[trigger] transaction.tables.tokens@[j])@ == before.tokens[j],
        decreases n - i,
    {
        if transaction.tables.tokens[i].subscriber_id == subscriber_id {
            transaction.tables.tokens.set(
                i,
                TokenRecord { subscription_token: subscription_token.to_owned(), subscriber_id },
            );
        }
        assert(transaction.tables.tokens@[i as int]@ == after.tokens[i as int]);
        i = i + 1;
    }
    assert(transaction@.tokens =~= after.tokens);
    assert(transaction@ == after);
    proof {
        if before.wf() {
            lemma_replace_token_wf(before, subscriber_id, subscription_token@);
        }
        if !before.has_token_for(subscriber_id) {
            lemma_replace_without_token(before, subscriber_id, subscription_token@);
        }
    }
    Ok(())
}

/// The id of the first stored subscriber with the given name; `NotFound` when there is none.
pub fn get_subscriber_id(name: &str, pool: &MemoryStore) -> (r: Result<u128, StoreError>)
    ensures
        match pool@.id_by_name(name@) {
            Some(id) => r == Ok::<u128, StoreError>(id),
            None => r == Err::<u128, _>(StoreError::NotFound),
        },
{
    match pool.tables.first_named(name) {
        Some(i) => {
            proof {
                let k = choose|k: int| pool@.is_first_named(name@, k);
                if k < i {
                } else if i < k {
                }
                assert(k == i);
            }
            assert(pool@.subscribers[i as int] == pool.tables.subscribers@[i as int]@);
            Ok(pool.tables.subscribers[i].id)
        },
        None => Err(StoreError::NotFound),
    }
}

/// The owner of a confirmation token and its status; `None` when the token is not stored.
pub fn get_subscriber_from_token(pool: &MemoryStore, subscription_token: &str) -> (r: Result<
    Option<UserData>,
    StoreError,
>)
    ensures
        r matches Ok(found) && match pool@.lookup_token(subscription_token@) {
            Some((id, status)) => found == Some(UserData { subscriber_id: id, status }),
            None => found is None,
        },
{
    match pool.tables.first_token(subscription_token) {
        Some(i) => {
            proof {
                let k = choose|k: int| pool@.is_first_token(subscription_token@, k);
                if k < i {
                } else if i < k {
                }
                assert(k == i);
            }
            let id = pool.tables.tokens[i].subscriber_id;
            assert(pool@.tokens[i as int] == pool.tables.tokens@[i as int]@);
            match pool.tables.first_with_id(id) {
                Some(s) => {
                    proof {
                        let k = choose|k: int| pool@.is_first_id(id, k);
                        if k < s {
                        } else if s < k {
                        }
                        assert(k == s);
                    }
                    assert(pool@.subscribers[s as int] == pool.tables.subscribers@[s as int]@);
                    Ok(Some(UserData { subscriber_id: id, status: pool.tables.subscribers[s].status }))
                },
                None => {
                    assert(!exists|k: int| pool@.is_first_id(id, k));
                    Ok(None)
                },
            }
        },
        None => {
            assert(!exists|k: int| pool@.is_first_token(subscription_token@, k));
            Ok(None)
        },
    }
}

/// Marks a subscriber as confirmed. Marking one that is already confirmed changes nothing.
pub fn confirm_subscriber(pool: &mut MemoryStore, subscriber_id: u128) -> (r: Result<(), StoreError>)
    ensures
        r is Ok,
        final(pool)@ == old(pool)@.mark_confirmed(subscriber_id),
        old(pool)@.wf() ==> final(pool)@.wf(),
{
    let ghost before = pool@;
    let ghost after = before.mark_confirmed(subscriber_id);
    let n = pool.tables.subscribers.len();
    let mut i: usize = 0;
    while i < n
        invariant
            n == before.subscribers.len(),
            after == before.mark_confirmed(subscriber_id),
            n == after.subscribers.len(),
            i <= n,
            pool@.tokens == before.tokens,
            pool.tables.subscribers@.len() == n,
            forall|j: int| 0 <= j < i ==> (#[trigger] pool.tables.subscribers@[j])@ == after.subscribers[j],
            forall|j: int| i <= j < n ==> (#[trigger] pool.tables.subscribers@[j])@ == before.subscribers[j],
        decreases n - i,
    {
        if pool.tables.subscribers[i].id == subscriber_id {
            let rec = SubscriberRecord {
                status: SubscriberStatus::Confirmed,
                ..pool.tables.subscribers[i].duplicate()
            };
            pool.tables.subscribers.set(i, rec);
        }
        assert(pool.tables.subscribers@[i as int]@ == after.subscribers[i as int]);
        i = i + 1;
    }
    assert(pool@.subscribers =~= after.subscribers);
    assert(pool@ == after);
    proof {
        if before.wf() {
            lemma_mark_confirmed_wf(before, subscriber_id);
        }
    }
    Ok(())
}

} // verus!
