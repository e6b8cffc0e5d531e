//! An in-memory subscriber store: subscriber records and confirmation tokens,
//! with an atomic "create pending subscriber and token" operation and an
//! idempotent confirmation.
use crate::domain::ListSubscriber;
use crate::token::{generate_token, is_token_shaped};
use vstd::prelude::*;
use vstd::string::StringExecFns;

verus! {

/// The lifecycle status of a subscriber.
#[derive(Clone, Copy, Debug, PartialEq, Eq, Structural)]
pub enum SubscriptionStatus {
    Pending,
    Confirmed,
}

/// Why the store refused an operation.
#[derive(Clone, Copy, Debug, PartialEq, Eq, Structural)]
pub enum StoreError {
    /// An infrastructure failure; the caller may retry.
    Transient,
    /// The write collides with existing data (a taken e-mail address, id or
    /// token); retrying with the same input is pointless.
    Conflict,
}

/// A subscriber row, as a mathematical value.
pub struct SubscriberRow {
    pub id: u128,
    pub email: Seq<char>,
    pub name: Seq<char>,
    /// Microseconds since the Unix epoch.
    pub subscribed_at: i64,
    pub status: SubscriptionStatus,
}

/// A token row, as a mathematical value.
pub struct TokenRow {
    pub token: Seq<char>,
    pub subscriber_id: u128,
}

/// The contents of a store: its subscriber rows and token rows, in insertion
/// order.
pub struct StoreModel {
    pub subscribers: Seq<SubscriberRow>,
    pub tokens: Seq<TokenRow>,
}

impl StoreModel {
    pub open spec fn has_id(self, id: u128) -> bool {
        exists|i: int| 0 <= i < self.subscribers.len() && (#[trigger] self.subscribers[i]).id == id
    }

    pub open spec fn has_email(self, email: Seq<char>) -> bool {
        exists|i: int|
            0 <= i < self.subscribers.len() && (#[trigger] self.subscribers[i]).email == email
    }

    pub open spec fn has_token(self, token: Seq<char>) -> bool {
        exists|i: int| 0 <= i < self.tokens.len() && (#[trigger] self.tokens[i]).token == token
    }

    /// Ids, e-mail addresses and tokens are unique, and every token refers to
    /// a stored subscriber.
    pub open spec fn wf(self) -> bool {
        &&& forall|i: int, j: int|
            0 <= i < j < self.subscribers.len() ==> (#[trigger] self.subscribers[i]).id
                != (#[trigger] self.subscribers[j]).id && self.subscribers[i].email
                != self.subscribers[j].email
        &&& forall|i: int, j: int|
            0 <= i < j < self.tokens.len() ==> (#[trigger] self.tokens[i]).token
                != (#[trigger] self.tokens[j]).token
        &&& forall|i: int, j: int|
            0 <= i < j < self.tokens.len() ==> (#[trigger] self.tokens[i]).subscriber_id
                != (#[trigger] self.tokens[j]).subscriber_id
        &&& forall|k: int|
            0 <= k < self.tokens.len() ==> self.has_id(#[trigger] self.tokens[k].subscriber_id)
    }

    /// The subscriber that `token` was issued to, if any.
    pub open spec fn subscriber_for_token(self, token: Seq<char>) -> Option<u128> {
        if self.has_token(token) {
            let k = choose|k: int| 0 <= k < self.tokens.len() && (#[trigger] self.tokens[k]).token == token;
            Some(self.tokens[k].subscriber_id)
        } else {
            None
        }
    }

    /// The token issued to subscriber `id`, if any.
    pub open spec fn token_for_subscriber(self, id: u128) -> Option<Seq<char>> {
        if exists|k: int| 0 <= k < self.tokens.len() && (#[trigger] self.tokens[k]).subscriber_id == id {
            let k = choose|k: int| 0 <= k < self.tokens.len() && (#[trigger] self.tokens[k]).subscriber_id == id;
            Some(self.tokens[k].token)
        } else {
            None
        }
    }

    /// The row of subscriber `id`, if any.
    pub open spec fn subscriber(self, id: u128) -> Option<SubscriberRow> {
        if self.has_id(id) {
            let i = choose|i: int| 0 <= i < self.subscribers.len() && (#[trigger] self.subscribers[i]).id == id;
            Some(self.subscribers[i])
        } else {
            None
        }
    }

    /// A pending subscriber with this id, address and token can be added.
    pub open spec fn can_add(self, id: u128, email: Seq<char>, token: Seq<char>) -> bool {
        !self.has_id(id) && !self.has_email(email) && !self.has_token(token)
    }

    /// The store after adding a pending subscriber together with its token.
    pub open spec fn with_pending(
        self,
        id: u128,
        name: Seq<char>,
        email: Seq<char>,
        subscribed_at: i64,
        token: Seq<char>,
    ) -> StoreModel {
        StoreModel {
            subscribers: self.subscribers.push(
                SubscriberRow { id, email, name, subscribed_at, status: SubscriptionStatus::Pending },
            ),
            tokens: self.tokens.push(TokenRow { token, subscriber_id: id }),
        }
    }

    /// The store after marking subscriber `id` confirmed; nothing else changes.
    pub open spec fn with_confirmed(self, id: u128) -> StoreModel {
        StoreModel {
            subscribers: self.subscribers.map_values(
                |r: SubscriberRow|
                    if r.id == id {
                        SubscriberRow { status: SubscriptionStatus::Confirmed, ..r }
                    } else {
                        r
                    },
            ),
            tokens: self.tokens,
        }
    }
}

/// A stored subscriber.
pub struct SubscriberRecord {
    pub id: u128,
    pub email: String,
    pub name: String,
    /// Microseconds since the Unix epoch.
    pub subscribed_at: i64,
    pub status: SubscriptionStatus,
}

impl View for SubscriberRecord {
    type V = SubscriberRow;

    open spec fn view(&self) -> SubscriberRow {
        SubscriberRow {
            id: self.id,
            email: self.email@,
            name: self.name@,
            subscribed_at: self.subscribed_at,
            status: self.status,
        }
    }
}

/// A stored confirmation token and the subscriber it was issued to.
pub struct TokenRecord {
    pub token: String,
    pub subscriber_id: u128,
}

impl View for TokenRecord {
    type V = TokenRow;

    open spec fn view(&self) -> TokenRow {
        TokenRow { token: self.token@, subscriber_id: self.subscriber_id }
    }
}

/// Relies on `uuid::Uuid::new_v4`, read as its 128-bit value: a random
/// identifier, of which nothing is promised.
#[verifier::external_body]
pub(crate) fn new_subscriber_id() -> (r: u128) {
    uuid::Uuid::new_v4().as_u128()
}

/// Relies on `chrono::Utc::now`, read as microseconds since the Unix epoch:
/// the current time, of which nothing is promised.
#[verifier::external_body]
pub(crate) fn current_timestamp() -> (r: i64) {
    chrono::Utc::now().timestamp_micros()
}

/// Adding a pending subscriber whose id, address and token are all free keeps
/// the store well formed.
pub proof fn lemma_with_pending_wf(
    s: StoreModel,
    id: u128,
    name: Seq<char>,
    email: Seq<char>,
    subscribed_at: i64,
    token: Seq<char>,
)
    requires
        s.wf(),
        s.can_add(id, email, token),
    ensures
        s.with_pending(id, name, email, subscribed_at, token).wf(),
{
    let s1 = s.with_pending(id, name, email, subscribed_at, token);
    let n = s.subscribers.len() as int;
    assert(s1.subscribers[n].id == id);
    assert forall|k: int| 0 <= k < s1.tokens.len() implies s1.has_id(
        #[trigger] s1.tokens[k].subscriber_id,
    ) by {
        if k < s.tokens.len() {
            let i = choose|i: int|
                0 <= i < s.subscribers.len() && (#[trigger] s.subscribers[i]).id
                    == s.tokens[k].subscriber_id;
            assert(s1.subscribers[i] == s.subscribers[i]);
        }
    }
    assert forall|i: int, j: int| 0 <= i < j < s1.tokens.len() implies (#[trigger] s1.tokens[i]).subscriber_id
        != (#[trigger] s1.tokens[j]).subscriber_id by {
        if j == s.tokens.len() {
            assert(s.has_id(s.tokens[i].subscriber_id));
        }
    }
}

/// A well-formed store without subscribers holds no tokens either: every
/// id, address and token is free in it.
pub proof fn lemma_no_subscribers_no_tokens(s: StoreModel)
    requires
        s.wf(),
        s.subscribers.len() == 0,
    ensures
        s.tokens.len() == 0,
        forall|id: u128, email: Seq<char>, token: Seq<char>| s.can_add(id, email, token),
{
    if s.tokens.len() > 0 {
        assert(s.has_id(s.tokens[0].subscriber_id));
    }
}

/// In a well-formed store, the token at position `k` resolves to the
/// subscriber it names.
proof fn lemma_token_resolves(s: StoreModel, k: int)
    requires
        s.wf(),
        0 <= k < s.tokens.len(),
    ensures
        s.subscriber_for_token(s.tokens[k].token) == Some(s.tokens[k].subscriber_id),
{
    let t = s.tokens[k].token;
    assert(s.has_token(t));
    let c = choose|c: int| 0 <= c < s.tokens.len() && (#[trigger] s.tokens[c]).token == t;
    assert(c == k);
}

/// In a well-formed store, the subscriber at position `i` is the one its id
/// finds.
proof fn lemma_subscriber_found(s: StoreModel, i: int)
    requires
        s.wf(),
        0 <= i < s.subscribers.len(),
    ensures
        s.subscriber(s.subscribers[i].id) == Some(s.subscribers[i]),
{
    let id = s.subscribers[i].id;
    assert(s.has_id(id));
    let c = choose|c: int| 0 <= c < s.subscribers.len() && (#[trigger] s.subscribers[c]).id == id;
    assert(c == i);
}

/// Registering a subscriber leaves it pending with its token resolving to it;
/// confirming it then marks it confirmed and changes nothing else of its row.
pub proof fn lemma_register_then_confirm(
    s: StoreModel,
    id: u128,
    name: Seq<char>,
    email: Seq<char>,
    subscribed_at: i64,
    token: Seq<char>,
)
    requires
        s.wf(),
        s.can_add(id, email, token),
    ensures
        ({
            let s1 = s.with_pending(id, name, email, subscribed_at, token);
            let row = SubscriberRow { id, email, name, subscribed_at, status: SubscriptionStatus::Pending };
            &&& s1.wf()
            &&& s1.subscriber_for_token(token) == Some(id)
            &&& s1.subscriber(id) == Some(row)
            &&& s1.with_confirmed(id).wf()
            &&& s1.with_confirmed(id).subscriber_for_token(token) == Some(id)
            &&& s1.with_confirmed(id).subscriber(id) == Some(
                SubscriberRow { status: SubscriptionStatus::Confirmed, ..row },
            )
        }),
{
    let s1 = s.with_pending(id, name, email, subscribed_at, token);
    lemma_with_pending_wf(s, id, name, email, subscribed_at, token);
    lemma_token_resolves(s1, s.tokens.len() as int);
    lemma_subscriber_found(s1, s.subscribers.len() as int);
    lemma_confirmed_view(s1, id);
    lemma_token_resolves(s1.with_confirmed(id), s.tokens.len() as int);
    lemma_subscriber_found(s1.with_confirmed(id), s.subscribers.len() as int);
}

/// Confirming keeps the store well formed, keeps every row's id, address,
/// name and subscription time, and keeps every token.
pub proof fn lemma_confirmed_view(s: StoreModel, id: u128)
    requires
        s.wf(),
    ensures
        s.with_confirmed(id).wf(),
        s.with_confirmed(id).subscribers.len() == s.subscribers.len(),
        s.with_confirmed(id).tokens == s.tokens,
        forall|i: int|
            0 <= i < s.subscribers.len() ==> {
                let r = #[trigger] s.with_confirmed(id).subscribers[i];
                &&& r.id == s.subscribers[i].id
                &&& r.email == s.subscribers[i].email
                &&& r.name == s.subscribers[i].name
                &&& r.subscribed_at == s.subscribers[i].subscribed_at
            },
{
    let s1 = s.with_confirmed(id);
    assert forall|k: int| 0 <= k < s1.tokens.len() implies s1.has_id(
        #[trigger] s1.tokens[k].subscriber_id,
    ) by {
        let i = choose|i: int|
            0 <= i < s.subscribers.len() && (#[trigger] s.subscribers[i]).id
                == s.tokens[k].subscriber_id;
        assert(s1.subscribers[i].id == s.subscribers[i].id);
    }
}

/// Confirming a subscriber a second time changes nothing: the store equals
/// the store after one confirmation, the subscriber stays confirmed with its
/// subscription time unchanged, and its token still resolves to it, so a
/// second redemption of the token succeeds as the first did.
pub proof fn lemma_confirm_idempotent(s: StoreModel, token: Seq<char>, id: u128)
    requires
        s.wf(),
        s.subscriber_for_token(token) == Some(id),
    ensures
        s.with_confirmed(id).with_confirmed(id) == s.with_confirmed(id),
        s.with_confirmed(id).subscriber_for_token(token) == Some(id),
        s.with_confirmed(id).with_confirmed(id).subscriber_for_token(token) == Some(id),
        s.with_confirmed(id).subscriber(id) matches Some(row) && row.status
            == SubscriptionStatus::Confirmed && row.subscribed_at == s.subscriber(id)->0.subscribed_at,
{
    let s1 = s.with_confirmed(id);
    lemma_confirmed_view(s, id);
    assert(s1.with_confirmed(id).subscribers =~= s1.subscribers);
    let k = choose|k: int| 0 <= k < s.tokens.len() && (#[trigger] s.tokens[k]).token == token;
    lemma_token_resolves(s, k);
    lemma_token_resolves(s1, k);
    let i = choose|i: int| 0 <= i < s.subscribers.len() && (#[trigger] s.subscribers[i]).id == id;
    lemma_subscriber_found(s, i);
    lemma_subscriber_found(s1, i);
}

/// Two registrations are independent: after a first one succeeds, a second
/// one succeeds exactly when it would have on its own and its id, address and
/// token differ from the first's; then both tokens resolve, each to its own
/// subscriber.
pub proof fn lemma_independent_registrations(
    s: StoreModel,
    id1: u128,
    name1: Seq<char>,
    email1: Seq<char>,
    at1: i64,
    token1: Seq<char>,
    id2: u128,
    name2: Seq<char>,
    email2: Seq<char>,
    at2: i64,
    token2: Seq<char>,
)
    requires
        s.wf(),
        s.can_add(id1, email1, token1),
    ensures
        ({
            let s1 = s.with_pending(id1, name1, email1, at1, token1);
            &&& s1.can_add(id2, email2, token2) <==> (s.can_add(id2, email2, token2) && id2 != id1
                && email2 != email1 && token2 != token1)
            &&& s1.can_add(id2, email2, token2) ==> {
                let s2 = s1.with_pending(id2, name2, email2, at2, token2);
                &&& s2.wf()
                &&& s2.subscriber_for_token(token1) == Some(id1)
                &&& s2.subscriber_for_token(token2) == Some(id2)
            }
        }),
{
    let s1 = s.with_pending(id1, name1, email1, at1, token1);
    lemma_with_pending_wf(s, id1, name1, email1, at1, token1);
    let n = s.subscribers.len() as int;
    let m = s.tokens.len() as int;
    assert(s1.subscribers[n].id == id1 && s1.subscribers[n].email == email1);
    assert(s1.tokens[m].token == token1);
    if s.has_id(id2) {
        let i = choose|i: int| 0 <= i < s.subscribers.len() && (#[trigger] s.subscribers[i]).id == id2;
        assert(s1.subscribers[i] == s.subscribers[i]);
    }
    if s.has_email(email2) {
        let i = choose|i: int| 0 <= i < s.subscribers.len() && (#[trigger] s.subscribers[i]).email == email2;
        assert(s1.subscribers[i] == s.subscribers[i]);
    }
    if s.has_token(token2) {
        let k = choose|k: int| 0 <= k < s.tokens.len() && (#[trigger] s.tokens[k]).token == token2;
        assert(s1.tokens[k] == s.tokens[k]);
    }
    if s1.can_add(id2, email2, token2) {
        let s2 = s1.with_pending(id2, name2, email2, at2, token2);
        lemma_with_pending_wf(s1, id2, name2, email2, at2, token2);
        assert(s2.tokens[m] == s1.tokens[m]);
        lemma_token_resolves(s2, m);
        lemma_token_resolves(s2, m + 1);
    }
}

/// Subscriber and token rows kept in memory.
pub struct SubscriberStore {
    subscribers: Vec<SubscriberRecord>,
    tokens: Vec<TokenRecord>,
}

impl View for SubscriberStore {
    type V = StoreModel;

    closed spec fn view(&self) -> StoreModel {
        StoreModel {
            subscribers: self.subscribers@.map_values(|r: SubscriberRecord| r@),
            tokens: self.tokens@.map_values(|t: TokenRecord| t@),
        }
    }
}

impl SubscriberStore {
    /// An empty store.
    pub fn new() -> (r: SubscriberStore)
        ensures
            r@.subscribers.len() == 0,
            r@.tokens.len() == 0,
            r@.wf(),
    {
        let r = SubscriberStore { subscribers: Vec::new(), tokens: Vec::new() };
        assert(r@.subscribers =~= Seq::<SubscriberRow>::empty());
        assert(r@.tokens =~= Seq::<TokenRow>::empty());
        r
    }

    /// The number of subscriber rows.
    pub fn subscriber_count(&self) -> (r: usize)
        ensures
            r == self@.subscribers.len(),
    {
        self.subscribers.len()
    }

    fn contains_id(&self, id: u128) -> (r: bool)
        ensures
            r == self@.has_id(id),
    {
        let mut i: usize = 0;
        while i < self.subscribers.len()
            invariant
                i <= self.subscribers@.len(),
                forall|j: int| 0 <= j < i ==> (#[trigger] self@.subscribers[j]).id != id,
            decreases self.subscribers@.len() - i,
        {
            if self.subscribers[i].id == id {
                assert(self@.subscribers[i as int].id == id);
                return true;
            }
            i = i + 1;
        }
        false
    }

    fn contains_email(&self, email: &String) -> (r: bool)
        ensures
            r == self@.has_email(email@),
    {
        let mut i: usize = 0;
        while i < self.subscribers.len()
            invariant
                i <= self.subscribers@.len(),
                forall|j: int| 0 <= j < i ==> (#[trigger] self@.subscribers[j]).email != email@,
            decreases self.subscribers@.len() - i,
        {
            if self.subscribers[i].email == *email {
                assert(self@.subscribers[i as int].email == email@);
                return true;
            }
            i = i + 1;
        }
        false
    }

    /// The position of `token` among the token rows, if present.
    fn token_index(&self, token: &String) -> (r: Option<usize>)
        ensures
            r matches Some(k) ==> k < self@.tokens.len() && self@.tokens[k as int].token == token@,
            r is None ==> !self@.has_token(token@),
    {
        let mut i: usize = 0;
        while i < self.tokens.len()
            invariant
                i <= self.tokens@.len(),
                forall|j: int| 0 <= j < i ==> (#[trigger] self@.tokens[j]).token != token@,
            decreases self.tokens@.len() - i,
        {
            if self.tokens[i].token == *token {
                return Some(i);
            }
            i = i + 1;
        }
        None
    }

    /// Adds a pending subscriber and its token as one write: both rows are
    /// added, or, where the id, the address or the token is taken, neither.
    pub fn add_pending(
        &mut self,
        subscriber: &ListSubscriber,
        id: u128,
        token: &str,
        subscribed_at: i64,
    ) -> (r: Result<(), StoreError>)
        requires
            old(self)@.wf(),
        ensures
            final(self)@.wf(),
            r is Ok <==> old(self)@.can_add(id, subscriber.email@, token@),
            r is Ok ==> final(self)@ == old(self)@.with_pending(
                id,
                subscriber.name@,
                subscriber.email@,
                subscribed_at,
                token@,
            ),
            r is Err ==> r == Err::<(), StoreError>(StoreError::Conflict) && final(self)@ == old(self)@,
    {
        let email = String::from_str(subscriber.email.as_ref());
        let name = String::from_str(subscriber.name.as_ref());
        let token = String::from_str(token);
        if self.contains_id(id) || self.contains_email(&email) {
            return Err(StoreError::Conflict);
        }
        if self.token_index(&token).is_some() {
            return Err(StoreError::Conflict);
        }
        let ghost old_view = self@;
        self.subscribers.push(
            SubscriberRecord { id, email, name, subscribed_at, status: SubscriptionStatus::Pending },
        );
        self.tokens.push(TokenRecord { token, subscriber_id: id });
        let ghost new_view = old_view.with_pending(
            id,
            subscriber.name@,
            subscriber.email@,
            subscribed_at,
            token@,
        );
        assert(self@.subscribers =~= new_view.subscribers);
        assert(self@.tokens =~= new_view.tokens);
        proof {
            lemma_with_pending_wf(old_view, id, subscriber.name@, subscriber.email@, subscribed_at, token@);
        }
        Ok(())
    }

    /// Creates a pending subscriber with a fresh id, the current time and a
    /// freshly generated token, as one write. Fails with `Conflict`, leaving
    /// the store unchanged, where the address (or, by chance, the id or the
    /// token) is taken.
    pub fn create_pending(&mut self, subscriber: &ListSubscriber) -> (r: Result<(u128, String), StoreError>)
        requires
            old(self)@.wf(),
        ensures
            final(self)@.wf(),
            old(self)@.has_email(subscriber.email@) ==> r is Err,
            r is Err ==> old(self)@.has_email(subscriber.email@) || old(self)@.subscribers.len() > 0,
            r matches Ok((id, token)) ==> {
                &&& is_token_shaped(token@)
                &&& old(self)@.can_add(id, subscriber.email@, token@)
                &&& exists|at: i64|
                    final(self)@ == old(self)@.with_pending(
                        id,
                        subscriber.name@,
                        subscriber.email@,
                        at,
                        token@,
                    )
            },
            r matches Err(e) ==> e == StoreError::Conflict && final(self)@ == old(self)@,
    {
        let id = new_subscriber_id();
        let subscribed_at = current_timestamp();
        let token = generate_token();
        proof {
            if self@.subscribers.len() == 0 {
                lemma_no_subscribers_no_tokens(self@);
            }
        }
        let ghost pre = self@;
        match self.add_pending(subscriber, id, token.as_str(), subscribed_at) {
            Ok(()) => {
                assert(self@ == pre.with_pending(
                    id,
                    subscriber.name@,
                    subscriber.email@,
                    subscribed_at,
                    token@,
                ));
                assert(pre.can_add(id, subscriber.email@, token@));
                assert(is_token_shaped(token@));
                assert(exists|at: i64|
                    self@ == pre.with_pending(id, subscriber.name@, subscriber.email@, at, token@));
                Ok((id, token))
            },
            Err(e) => Err(e),
        }
    }

    /// The subscriber that `token` was issued to, or `None` where no such
    /// token exists.
    pub fn find_subscriber_by_token(&self, token: &str) -> (r: Option<u128>)
        requires
            self@.wf(),
        ensures
            r == self@.subscriber_for_token(token@),
    {
        let token = String::from_str(token);
        match self.token_index(&token) {
            Some(k) => {
                let ghost v = self@;
                proof {
                    let c = choose|c: int| 0 <= c < v.tokens.len() && (#[trigger] v.tokens[c]).token == token@;
                    assert(c == k as int);
                }
                Some(self.tokens[k].subscriber_id)
            },
            None => None,
        }
    }

    /// The token issued to subscriber `id`, if any.
    pub fn token_for_subscriber(&self, id: u128) -> (r: Option<String>)
        requires
            self@.wf(),
        ensures
            r matches Some(t) ==> self@.token_for_subscriber(id) == Some(t@),
            r is None ==> self@.token_for_subscriber(id) is None,
    {
        let mut i: usize = 0;
        while i < self.tokens.len()
            invariant
                i <= self.tokens@.len(),
                self@.wf(),
                forall|j: int| 0 <= j < i ==> (#[trigger] self@.tokens[j]).subscriber_id != id,
            decreases self.tokens@.len() - i,
        {
            if self.tokens[i].subscriber_id == id {
                let ghost v = self@;
                proof {
                    assert(v.tokens[i as int].subscriber_id == id);
                    let c = choose|c: int| 0 <= c < v.tokens.len() && (#[trigger] v.tokens[c]).subscriber_id == id;
                    assert(c == i as int);
                }
                return Some(String::from_str(self.tokens[i].token.as_str()));
            }
            i = i + 1;
        }
        None
    }

    /// The status of subscriber `id`, if it is stored.
    pub fn status(&self, id: u128) -> (r: Option<SubscriptionStatus>)
        requires
            self@.wf(),
        ensures
            r == (match self@.subscriber(id) {
                Some(row) => Some(row.status),
                None => None,
            }),
    {
        let mut i: usize = 0;
        while i < self.subscribers.len()
            invariant
                i <= self.subscribers@.len(),
                self@.wf(),
                forall|j: int| 0 <= j < i ==> (#[trigger] self@.subscribers[j]).id != id,
            decreases self.subscribers@.len() - i,
        {
            if self.subscribers[i].id == id {
                let ghost v = self@;
                proof {
                    assert(v.subscribers[i as int].id == id);
                    let c = choose|c: int| 0 <= c < v.subscribers.len() && (#[trigger] v.subscribers[c]).id == id;
                    assert(c == i as int);
                }
                return Some(self.subscribers[i].status);
            }
            i = i + 1;
        }
        None
    }

    /// Marks subscriber `id` confirmed. Confirming an already confirmed
    /// subscriber, or an unknown id, changes nothing.
    pub fn confirm(&mut self, id: u128)
        requires
            old(self)@.wf(),
        ensures
            final(self)@ == old(self)@.with_confirmed(id),
            final(self)@.wf(),
    {
        let ghost old_view = self@;
        let ghost target = old_view.with_confirmed(id);
        let mut i: usize = 0;
        while i < self.subscribers.len()
            invariant
                old_view == old(self)@,
                target == old_view.with_confirmed(id),
                i <= self.subscribers@.len(),
                self.subscribers@.len() == old_view.subscribers.len(),
                self.tokens@ == old(self).tokens@,
                forall|j: int| 0 <= j < i ==> (#[trigger] self.subscribers@[j])@ == target.subscribers[j],
                forall|j: int|
                    i <= j < self.subscribers@.len() ==> (#[trigger] self.subscribers@[j])@
                        == old_view.subscribers[j],
            decreases self.subscribers@.len() - i,
        {
            let ghost before = self.subscribers@;
            assert(before[i as int]@ == old_view.subscribers[i as int]);
            if self.subscribers[i].id == id {
                self.subscribers[i].status = SubscriptionStatus::Confirmed;
            }
            assert(self.subscribers@[i as int]@ == target.subscribers[i as int]);
            assert(forall|j: int| 0 <= j < before.len() && j != i ==> self.subscribers@[j] == before[j]);
            i = i + 1;
        }
        assert(self@.subscribers =~= target.subscribers);
        assert(self@.tokens =~= target.tokens);
        assert forall|k: int| 0 <= k < self@.tokens.len() implies self@.has_id(
            #[trigger] self@.tokens[k].subscriber_id,
        ) by {
            let i = choose|i: int|
                0 <= i < old_view.subscribers.len() && (#[trigger] old_view.subscribers[i]).id
                    == old_view.tokens[k].subscriber_id;
            assert(self@.subscribers[i].id == old_view.subscribers[i].id);
        }
    }
}

} // verus!
