//! The subscription store: subscriptions, the tokens that confirm them, and
//! transactions over both.
//!
//! The store kept here lives in memory. Its contracts are the ones that any
//! other store behind the workflows has to honour.

use crate::domain::new_subscriber::NewSubscriber;
use crate::error::{internal_error, internal_error_message, ErrorChain, ErrorChainView};
use chrono::Utc;
use uuid::Uuid;
use vstd::prelude::*;
use vstd::string::*;

verus! {

/// Identifies one subscription: a UUID, held as its 128 bits.
#[derive(Clone, Copy, Debug, PartialEq, Eq, Structural)]
pub struct SubscriptionId(pub u128);

/// A moment in UTC: whole seconds since 1970-01-01T00:00:00Z, and the
/// nanoseconds past that second.
#[derive(Clone, Copy, Debug, PartialEq, Eq, Structural)]
pub struct Timestamp {
    pub seconds: i64,
    pub nanoseconds: u32,
}

/// Where a subscription stands. It starts as `PendingConfirmation` and can
/// only ever move to `Confirmed`.
#[derive(Clone, Copy, Debug, PartialEq, Eq, Structural)]
pub enum SubscriptionStatus {
    PendingConfirmation,
    Confirmed,
}

/// One row of the table `subscriptions`.
#[derive(Debug)]
pub struct Subscription {
    pub id: SubscriptionId,
    pub email: String,
    pub name: String,
    pub subscribed_at: Timestamp,
    pub status: SubscriptionStatus,
}

/// One row of the table `subscription_tokens`.
#[derive(Debug)]
pub struct SubscriptionToken {
    pub subscription_token: String,
    pub subscriber_id: SubscriptionId,
}

/// A subscription as a mathematical value.
pub struct SubscriptionView {
    pub id: SubscriptionId,
    pub email: Seq<char>,
    pub name: Seq<char>,
    pub subscribed_at: Timestamp,
    pub status: SubscriptionStatus,
}

/// A token row as a mathematical value.
pub struct SubscriptionTokenView {
    pub subscription_token: Seq<char>,
    pub subscriber_id: SubscriptionId,
}

impl View for Subscription {
    type V = SubscriptionView;

    open spec fn view(&self) -> SubscriptionView {
        SubscriptionView {
            id: self.id,
            email: self.email@,
            name: self.name@,
            subscribed_at: self.subscribed_at,
            status: self.status,
        }
    }
}

impl View for SubscriptionToken {
    type V = SubscriptionTokenView;

    open spec fn view(&self) -> SubscriptionTokenView {
        SubscriptionTokenView {
            subscription_token: self.subscription_token@,
            subscriber_id: self.subscriber_id,
        }
    }
}

/// The rows of `subscriptions` as mathematical values, in table order.
pub open spec fn subscription_rows(rows: Seq<Subscription>) -> Seq<SubscriptionView> {
    Seq::new(rows.len(), |i: int| rows[i]@)
}

/// The rows of `subscription_tokens` as mathematical values, in table order.
pub open spec fn token_rows(rows: Seq<SubscriptionToken>) -> Seq<SubscriptionTokenView> {
    Seq::new(rows.len(), |i: int| rows[i]@)
}

/// The row that onboarding writes for `subscriber`: pending, under `id`,
/// dated `now`.
pub open spec fn pending_subscription(
    id: SubscriptionId,
    email: Seq<char>,
    name: Seq<char>,
    now: Timestamp,
) -> SubscriptionView {
    SubscriptionView {
        id,
        email,
        name,
        subscribed_at: now,
        status: SubscriptionStatus::PendingConfirmation,
    }
}

/// What the store holds: both tables, each in the order of insertion.
pub struct StoreView {
    pub subscriptions: Seq<SubscriptionView>,
    pub tokens: Seq<SubscriptionTokenView>,
}

impl StoreView {
    /// Whether a subscription with this id exists.
    pub open spec fn has_subscriber(self, id: SubscriptionId) -> bool {
        exists|i: int| 0 <= i < self.subscriptions.len() && (#[trigger] self.subscriptions[i]).id == id
    }

    /// Whether this token has been issued.
    pub open spec fn has_token(self, token: Seq<char>) -> bool {
        exists|i: int|
            0 <= i < self.tokens.len() && (#[trigger] self.tokens[i]).subscription_token == token
    }

    /// The subscriber to whom `token` was issued. Meaningful where
    /// `has_token(token)`; in a well-formed store there is exactly one.
    pub open spec fn owner_of(self, token: Seq<char>) -> SubscriptionId {
        let i = choose|i: int|
            0 <= i < self.tokens.len() && (#[trigger] self.tokens[i]).subscription_token == token;
        self.tokens[i].subscriber_id
    }

    /// The constraints of the schema: ids are unique, tokens are unique, and
    /// every token belongs to a subscription that exists.
    pub open spec fn well_formed(self) -> bool {
        &&& forall|i: int, j: int|
            0 <= i < j < self.subscriptions.len() ==> (#[trigger] self.subscriptions[i]).id != (
            #[trigger] self.subscriptions[j]).id
        &&& forall|i: int, j: int|
            0 <= i < j < self.tokens.len() ==> (#[trigger] self.tokens[i]).subscription_token != (
            #[trigger] self.tokens[j]).subscription_token
        &&& forall|i: int|
            0 <= i < self.tokens.len() ==> self.has_subscriber((#[trigger] self.tokens[i]).subscriber_id)
    }

    /// The store with one more subscription.
    pub open spec fn with_subscription(self, row: SubscriptionView) -> StoreView {
        StoreView { subscriptions: self.subscriptions.push(row), tokens: self.tokens }
    }

    /// The store with one more token.
    pub open spec fn with_token(self, row: SubscriptionTokenView) -> StoreView {
        StoreView { subscriptions: self.subscriptions, tokens: self.tokens.push(row) }
    }

    /// The store after the subscription `id` has been confirmed: that row's
    /// status is `Confirmed`, and nothing else has changed.
    pub open spec fn confirmed(self, id: SubscriptionId) -> StoreView {
        StoreView {
            subscriptions: Seq::new(
                self.subscriptions.len(),
                |i: int|
                    if self.subscriptions[i].id == id {
                        SubscriptionView {
                            status: SubscriptionStatus::Confirmed,
                            ..self.subscriptions[i]
                        }
                    } else {
                        self.subscriptions[i]
                    },
            ),
            tokens: self.tokens,
        }
    }

    /// The addresses of all confirmed subscriptions, in table order.
    pub open spec fn confirmed_emails(self) -> Seq<Seq<char>> {
        confirmed_emails_of(self.subscriptions)
    }

    /// The status of the subscription `id`. Meaningful where
    /// `has_subscriber(id)`.
    pub open spec fn status_of(self, id: SubscriptionId) -> SubscriptionStatus {
        let i = choose|i: int|
            0 <= i < self.subscriptions.len() && (#[trigger] self.subscriptions[i]).id == id;
        self.subscriptions[i].status
    }
}

/// Confirming a subscription keeps the constraints of the schema: no id and
/// no token changes.
pub proof fn lemma_confirmed_keeps_well_formed(store: StoreView, id: SubscriptionId)
    requires
        store.well_formed(),
    ensures
        store.confirmed(id).well_formed(),
{
    let after = store.confirmed(id);
    assert forall|i: int| 0 <= i < after.tokens.len() implies after.has_subscriber(
        (#[trigger] after.tokens[i]).subscriber_id,
    ) by {
        let owner = store.tokens[i].subscriber_id;
        assert(store.has_subscriber(owner));
        let k = choose|k: int|
            0 <= k < store.subscriptions.len() && (#[trigger] store.subscriptions[k]).id == owner;
        assert(after.subscriptions[k].id == owner);
    }
}

/// Confirming a subscription touches that subscription alone: its status
/// becomes `Confirmed`, whatever it was, and nothing else of it changes; no
/// other subscription and no token changes.
pub proof fn lemma_confirmed_touches_one(store: StoreView, id: SubscriptionId)
    ensures
        store.confirmed(id).tokens == store.tokens,
        store.confirmed(id).subscriptions.len() == store.subscriptions.len(),
        forall|i: int|
            0 <= i < store.subscriptions.len() ==> #[trigger] store.confirmed(id).subscriptions[i]
                == if store.subscriptions[i].id == id {
                SubscriptionView { status: SubscriptionStatus::Confirmed, ..store.subscriptions[i] }
            } else {
                store.subscriptions[i]
            },
{
}

/// A confirmed subscription is found confirmed: after the subscription `id`
/// has been confirmed, its status is `Confirmed`.
pub proof fn lemma_confirmed_is_confirmed(store: StoreView, id: SubscriptionId)
    requires
        store.has_subscriber(id),
    ensures
        store.confirmed(id).has_subscriber(id),
        store.confirmed(id).status_of(id) == SubscriptionStatus::Confirmed,
{
    let after = store.confirmed(id);
    let k = choose|k: int|
        0 <= k < store.subscriptions.len() && (#[trigger] store.subscriptions[k]).id == id;
    assert(after.subscriptions[k].id == id);
    let j = choose|j: int|
        0 <= j < after.subscriptions.len() && (#[trigger] after.subscriptions[j]).id == id;
    assert(store.subscriptions[j].id == id);
}

/// There is no way back: whichever subscription is confirmed, those that
/// were confirmed before stay confirmed, and no row is lost.
pub proof fn lemma_confirmed_stays_confirmed(store: StoreView, id: SubscriptionId)
    ensures
        store.confirmed(id).subscriptions.len() == store.subscriptions.len(),
        forall|i: int|
            0 <= i < store.subscriptions.len() && store.subscriptions[i].status
                == SubscriptionStatus::Confirmed ==> (#[trigger] store.confirmed(
                id,
            ).subscriptions[i]).status == SubscriptionStatus::Confirmed,
{
}

/// Confirmation is idempotent: a token keeps its owner when the owner is
/// confirmed, and confirming the owner a second time changes nothing.
pub proof fn lemma_confirmation_is_idempotent(store: StoreView, token: Seq<char>)
    requires
        store.has_token(token),
    ensures
        ({
            let once = store.confirmed(store.owner_of(token));
            &&& once.has_token(token)
            &&& once.owner_of(token) == store.owner_of(token)
            &&& once.confirmed(once.owner_of(token)) == once
        }),
{
    let id = store.owner_of(token);
    let once = store.confirmed(id);
    assert(once.tokens == store.tokens);
    assert(once.confirmed(id).subscriptions =~= once.subscriptions);
}

/// The addresses of the confirmed rows among `rows`, in order.
pub open spec fn confirmed_emails_of(rows: Seq<SubscriptionView>) -> Seq<Seq<char>>
    decreases rows.len(),
{
    if rows.len() == 0 {
        Seq::empty()
    } else if rows.last().status == SubscriptionStatus::Confirmed {
        confirmed_emails_of(rows.drop_last()).push(rows.last().email)
    } else {
        confirmed_emails_of(rows.drop_last())
    }
}

/// Why a confirmation did not go through.
#[derive(Debug)]
pub enum ConfirmationError {
    /// No such token was ever issued. The same answer is given to a token
    /// that is malformed, mistyped or made up.
    TokenNotFound,
    /// The store failed.
    UnexpectedError(ErrorChain),
}

/// A [`ConfirmationError`] as a mathematical value.
pub enum ConfirmationErrorView {
    TokenNotFound,
    UnexpectedError(ErrorChainView),
}

impl View for ConfirmationError {
    type V = ConfirmationErrorView;

    open spec fn view(&self) -> ConfirmationErrorView {
        match *self {
            ConfirmationError::TokenNotFound => ConfirmationErrorView::TokenNotFound,
            ConfirmationError::UnexpectedError(chain) => ConfirmationErrorView::UnexpectedError(
                chain@,
            ),
        }
    }
}

/// What a confirmation that finds no token says of itself.
pub open spec fn token_not_found_message() -> Seq<char> {
    "There is no subscription for this token."@
}

impl ConfirmationErrorView {
    /// The failure with its causes.
    pub open spec fn chain(self) -> ErrorChainView {
        match self {
            ConfirmationErrorView::TokenNotFound => ErrorChainView::root(token_not_found_message()),
            ConfirmationErrorView::UnexpectedError(chain) => chain,
        }
    }
}

impl ConfirmationError {
    /// The HTTP status that answers a request failing with this error: 400
    /// for a token that was not found, 500 where the server was at fault.
    pub fn status_code(&self) -> (code: u16)
        ensures
            code == match *self {
                ConfirmationError::TokenNotFound => 400u16,
                ConfirmationError::UnexpectedError(_) => 500u16,
            },
    {
        match self {
            ConfirmationError::TokenNotFound => 400,
            ConfirmationError::UnexpectedError(_) => 500,
        }
    }

    /// What may be told to whoever followed the link: that the token was
    /// not found, and for every other failure no more than that something
    /// went wrong.
    pub fn public_message(&self) -> (message: String)
        ensures
            message@ == match self@ {
                ConfirmationErrorView::TokenNotFound => token_not_found_message(),
                ConfirmationErrorView::UnexpectedError(_) => internal_error_message(),
            },
    {
        match self {
            ConfirmationError::TokenNotFound => String::from_str(
                "There is no subscription for this token.",
            ),
            ConfirmationError::UnexpectedError(_) => internal_error(),
        }
    }

    /// The failure with its causes.
    pub fn chain(&self) -> (chain: ErrorChain)
        ensures
            chain@ == self@.chain(),
    {
        match self {
            ConfirmationError::TokenNotFound => ErrorChain::new(
                "There is no subscription for this token.",
            ),
            ConfirmationError::UnexpectedError(chain) => chain.clone(),
        }
    }

    /// A copy of this error.
    pub fn clone(&self) -> (copy: ConfirmationError)
        ensures
            copy@ == self@,
    {
        match self {
            ConfirmationError::TokenNotFound => ConfirmationError::TokenNotFound,
            ConfirmationError::UnexpectedError(chain) => ConfirmationError::UnexpectedError(
                chain.clone(),
            ),
        }
    }
}

/// The texts of `rows`, in order.
pub open spec fn texts(rows: Seq<String>) -> Seq<Seq<char>> {
    Seq::new(rows.len(), |i: int| rows[i]@)
}

/// Why the store turned a write down.
#[derive(Clone, Copy, Debug, PartialEq, Eq, Structural)]
pub enum StoreError {
    /// A subscription with this id exists already.
    DuplicateSubscriber,
    /// The token was issued before.
    DuplicateToken,
    /// The token names a subscription that does not exist.
    UnknownSubscriber,
}

/// What a [`StoreError`] says of itself.
pub open spec fn store_error_message(e: StoreError) -> Seq<char> {
    match e {
        StoreError::DuplicateSubscriber => "A subscription with this id exists already."@,
        StoreError::DuplicateToken => "The subscription token was issued before."@,
        StoreError::UnknownSubscriber => "The subscription token names no subscription."@,
    }
}

impl StoreError {
    /// The error in words.
    pub fn as_str(&self) -> (message: &'static str)
        ensures
            message@ == store_error_message(*self),
    {
        match self {
            StoreError::DuplicateSubscriber => "A subscription with this id exists already.",
            StoreError::DuplicateToken => "The subscription token was issued before.",
            StoreError::UnknownSubscriber => "The subscription token names no subscription.",
        }
    }
}

/// `Uuid::new_v4`, handed on as the number that `Uuid::as_u128` gives for it.
/// The id is drawn at random, so nothing is claimed of it. (`new_v4` panics
/// where the operating system has no random bytes to give.)
#[verifier::external_body]
pub(crate) fn random_subscription_id() -> SubscriptionId {
    SubscriptionId(Uuid::new_v4().as_u128())
}

/// `Utc::now`, handed on as what `DateTime::timestamp` and
/// `DateTime::timestamp_subsec_nanos` give for it. The moment is read from
/// the system clock, so nothing is claimed of it. (`now` panics where the
/// clock stands before 1970.)
#[verifier::external_body]
pub(crate) fn current_time() -> Timestamp {
    let now = Utc::now();
    Timestamp { seconds: now.timestamp(), nanoseconds: now.timestamp_subsec_nanos() }
}

impl SubscriptionStatus {
    /// The status as the column `status` spells it.
    pub fn as_str(&self) -> (text: &'static str)
        ensures
            text@ == match *self {
                SubscriptionStatus::PendingConfirmation => "pending_confirmation"@,
                SubscriptionStatus::Confirmed => "confirmed"@,
            },
    {
        match self {
            SubscriptionStatus::PendingConfirmation => "pending_confirmation",
            SubscriptionStatus::Confirmed => "confirmed",
        }
    }
}

impl Subscription {
    /// The row for `subscriber` under the given id and date, pending
    /// confirmation.
    pub fn pending(id: SubscriptionId, subscriber: &NewSubscriber, now: Timestamp) -> (row:
        Subscription)
        ensures
            row@ == pending_subscription(id, subscriber@.email, subscriber@.name, now),
    {
        Subscription {
            id,
            email: String::from_str(subscriber.email.as_ref()),
            name: String::from_str(subscriber.name.as_ref()),
            subscribed_at: now,
            status: SubscriptionStatus::PendingConfirmation,
        }
    }

    /// A row for `subscriber` under a fresh random id, dated now, pending
    /// confirmation.
    pub fn new(subscriber: &NewSubscriber) -> (row: Subscription)
        ensures
            row@ == pending_subscription(
                row.id,
                subscriber@.email,
                subscriber@.name,
                row.subscribed_at,
            ),
    {
        Subscription::pending(random_subscription_id(), subscriber, current_time())
    }

    /// A copy of this row.
    pub fn clone(&self) -> (copy: Subscription)
        ensures
            copy@ == self@,
    {
        Subscription {
            id: self.id,
            email: self.email.clone(),
            name: self.name.clone(),
            subscribed_at: self.subscribed_at,
            status: self.status,
        }
    }
}

impl SubscriptionToken {
    /// A copy of this row.
    pub fn clone(&self) -> (copy: SubscriptionToken)
        ensures
            copy@ == self@,
    {
        SubscriptionToken {
            subscription_token: self.subscription_token.clone(),
            subscriber_id: self.subscriber_id,
        }
    }
}

/// The subscription store, in memory.
///
/// Every value of this type meets the constraints of the schema
/// ([`StoreView::well_formed`]).
#[derive(Debug)]
pub struct SubscriptionStore {
    subscriptions: Vec<Subscription>,
    tokens: Vec<SubscriptionToken>,
}

impl View for SubscriptionStore {
    type V = StoreView;

    closed spec fn view(&self) -> StoreView {
        StoreView {
            subscriptions: subscription_rows(self.subscriptions@),
            tokens: token_rows(self.tokens@),
        }
    }
}

/// What a transaction sees and what it started from.
pub struct TransactionView {
    /// The store as it was when the transaction began, and as it will be
    /// again if the transaction is rolled back.
    pub base: StoreView,
    /// The store as the transaction sees it, its own writes included, and as
    /// it will be once the transaction is committed.
    pub visible: StoreView,
}

/// An open transaction. It holds the store for as long as it is open, so
/// nothing outside it can see a write before `commit`.
#[derive(Debug)]
pub struct Transaction {
    subscriptions: Vec<Subscription>,
    tokens: Vec<SubscriptionToken>,
    base_subscriptions: usize,
    base_tokens: usize,
}

impl View for Transaction {
    type V = TransactionView;

    closed spec fn view(&self) -> TransactionView {
        TransactionView {
            base: StoreView {
                subscriptions: subscription_rows(
                    self.subscriptions@.take(self.base_subscriptions as int),
                ),
                tokens: token_rows(self.tokens@.take(self.base_tokens as int)),
            },
            visible: StoreView {
                subscriptions: subscription_rows(self.subscriptions@),
                tokens: token_rows(self.tokens@),
            },
        }
    }
}

/// The position of the subscription `id` among `rows`, if it is there.
fn find_subscriber(rows: &Vec<Subscription>, id: SubscriptionId) -> (found: Option<usize>)
    ensures
        match found {
            Some(i) => i < rows.len() && rows[i as int].id == id,
            None => forall|i: int| 0 <= i < rows.len() ==> (#[trigger] rows[i]).id != id,
        },
{
    let mut i: usize = 0;
    while i < rows.len()
        invariant
            i <= rows.len(),
            forall|j: int| 0 <= j < i ==> (#[trigger] rows[j]).id != id,
        decreases rows.len() - i,
    {
        if rows[i].id.0 == id.0 {
            return Some(i);
        }
        i = i + 1;
    }
    None
}

/// The position of `token` among `rows`, if it is there.
fn find_token(rows: &Vec<SubscriptionToken>, token: &String) -> (found: Option<usize>)
    ensures
        match found {
            Some(i) => i < rows.len() && rows[i as int].subscription_token@ == token@,
            None => forall|i: int|
                0 <= i < rows.len() ==> (#[trigger] rows[i]).subscription_token@ != token@,
        },
{
    let mut i: usize = 0;
    while i < rows.len()
        invariant
            i <= rows.len(),
            forall|j: int| 0 <= j < i ==> (#[trigger] rows[j]).subscription_token@ != token@,
        decreases rows.len() - i,
    {
        if rows[i].subscription_token == *token {
            return Some(i);
        }
        i = i + 1;
    }
    None
}

impl SubscriptionStore {
    /// A store with no rows.
    pub fn new() -> (store: SubscriptionStore)
        ensures
            store@.subscriptions.len() == 0,
            store@.tokens.len() == 0,
            store@.well_formed(),
    {
        SubscriptionStore { subscriptions: Vec::new(), tokens: Vec::new() }
    }

    /// Opens a transaction on the store. The transaction sees the store as
    /// it is.
    pub fn begin(self) -> (transaction: Transaction)
        requires
            self@.well_formed(),
        ensures
            transaction.well_formed(),
            transaction@.base == self@,
            transaction@.visible == self@,
    {
        let base_subscriptions = self.subscriptions.len();
        let base_tokens = self.tokens.len();
        assert(self.subscriptions@.take(base_subscriptions as int) =~= self.subscriptions@);
        assert(self.tokens@.take(base_tokens as int) =~= self.tokens@);
        Transaction {
            subscriptions: self.subscriptions,
            tokens: self.tokens,
            base_subscriptions,
            base_tokens,
        }
    }

    /// The subscriber to whom `token` was issued, if it was issued at all.
    pub fn subscriber_id_for(&self, token: &str) -> (owner: Option<SubscriptionId>)
        requires
            self@.well_formed(),
        ensures
            owner == if self@.has_token(token@) {
                Some(self@.owner_of(token@))
            } else {
                None
            },
    {
        let wanted = String::from_str(token);
        match find_token(&self.tokens, &wanted) {
            Some(i) => {
                proof {
                    let v = self@;
                    assert(v.tokens[i as int].subscription_token == token@);
                    let k = choose|k: int|
                        0 <= k < v.tokens.len() && (#[trigger] v.tokens[k]).subscription_token
                            == token@;
                    assert(k == i);
                }
                Some(self.tokens[i].subscriber_id)
            },
            None => {
                proof {
                    let v = self@;
                    if v.has_token(token@) {
                        let k = choose|k: int|
                            0 <= k < v.tokens.len() && (#[trigger] v.tokens[k]).subscription_token
                                == token@;
                        assert(self.tokens[k].subscription_token@ == token@);
                    }
                }
                None
            },
        }
    }

    /// Sets the status of the subscription `id` to `Confirmed`. A
    /// subscription that is confirmed already stays so; an id that names no
    /// subscription changes nothing.
    pub fn mark_confirmed(&mut self, id: SubscriptionId)
        requires
            old(self)@.well_formed(),
        ensures
            final(self)@ == old(self)@.confirmed(id),
            final(self)@.well_formed(),
    {
        let ghost before = self@;
        let mut i: usize = 0;
        while i < self.subscriptions.len()
            invariant
                i <= self.subscriptions.len(),
                self.subscriptions.len() == before.subscriptions.len(),
                self@.tokens == before.tokens,
                forall|j: int|
                    0 <= j < i ==> (#[trigger] self@.subscriptions[j]) == before.confirmed(
                        id,
                    ).subscriptions[j],
                forall|j: int|
                    i <= j < self.subscriptions.len() ==> (#[trigger] self@.subscriptions[j])
                        == before.subscriptions[j],
            decreases self.subscriptions.len() - i,
        {
            let ghost rows = self@.subscriptions;
            let ghost raw = self.subscriptions@;
            assert(rows[i as int] == raw[i as int]@);
            if self.subscriptions[i].id.0 == id.0 {
                self.subscriptions[i].status = SubscriptionStatus::Confirmed;
            }
            proof {
                let row = before.confirmed(id).subscriptions[i as int];
                assert(self.subscriptions@[i as int]@ == row);
                assert forall|j: int| 0 <= j < rows.len() implies #[trigger] self@.subscriptions[j]
                    == rows.update(i as int, row)[j] by {
                    if j != i {
                        assert(self.subscriptions@[j] == raw[j]);
                        assert(rows[j] == raw[j]@);
                    }
                }
                assert(self@.subscriptions =~= rows.update(i as int, row));
            }
            i = i + 1;
        }
        proof {
            let after = self@;
            let goal = before.confirmed(id);
            assert(after.subscriptions =~= goal.subscriptions);
            lemma_confirmed_keeps_well_formed(before, id);
        }
    }

    /// Confirms the subscription to which `token` was issued. An unknown
    /// token is turned down and nothing changes.
    pub fn confirm_subscriber(&mut self, token: &str) -> (r: Result<(), ConfirmationError>)
        requires
            old(self)@.well_formed(),
        ensures
            final(self)@.well_formed(),
            old(self)@.has_token(token@) ==> r is Ok && final(self)@ == old(self)@.confirmed(
                old(self)@.owner_of(token@),
            ),
            !old(self)@.has_token(token@) ==> r is Err && r->Err_0@
                == ConfirmationErrorView::TokenNotFound && final(self)@ == old(self)@,
    {
        match self.subscriber_id_for(token) {
            Some(id) => {
                self.mark_confirmed(id);
                Ok(())
            },
            None => Err(ConfirmationError::TokenNotFound),
        }
    }

    /// The addresses of all confirmed subscriptions, in table order, as they
    /// are stored.
    pub fn list_confirmed_subscribers(&self) -> (emails: Vec<String>)
        ensures
            texts(emails@) == self@.confirmed_emails(),
    {
        let mut emails: Vec<String> = Vec::new();
        let ghost rows = self@.subscriptions;
        let mut i: usize = 0;
        assert(rows.take(0) =~= Seq::<SubscriptionView>::empty());
        while i < self.subscriptions.len()
            invariant
                i <= self.subscriptions.len(),
                rows == self@.subscriptions,
                rows.len() == self.subscriptions.len(),
                texts(emails@) == confirmed_emails_of(rows.take(i as int)),
            decreases self.subscriptions.len() - i,
        {
            let ghost sofar = texts(emails@);
            proof {
                assert(rows.take(i + 1).drop_last() =~= rows.take(i as int));
                assert(rows.take(i + 1).last() == self.subscriptions[i as int]@);
            }
            match self.subscriptions[i].status {
                SubscriptionStatus::Confirmed => {
                    emails.push(self.subscriptions[i].email.clone());
                    assert(texts(emails@) =~= sofar.push(self.subscriptions[i as int].email@));
                },
                SubscriptionStatus::PendingConfirmation => {},
            }
            i = i + 1;
        }
        assert(rows.take(i as int) =~= rows);
        emails
    }

    /// The rows of `subscriptions`, in table order.
    pub fn subscriptions(&self) -> (rows: &Vec<Subscription>)
        ensures
            subscription_rows(rows@) == self@.subscriptions,
    {
        &self.subscriptions
    }

    /// The rows of `subscription_tokens`, in table order.
    pub fn tokens(&self) -> (rows: &Vec<SubscriptionToken>)
        ensures
            token_rows(rows@) == self@.tokens,
    {
        &self.tokens
    }
}

impl Transaction {
    /// What holds of every transaction that `begin` opened, whatever was
    /// written in it since: the store it began from and the store it sees
    /// both meet the constraints of the schema, and the store it sees is the
    /// store it began from with rows added at the end of each table.
    pub open spec fn well_formed(&self) -> bool {
        &&& self.in_bounds()
        &&& self@.base.well_formed()
        &&& self@.visible.well_formed()
        &&& self@.base.subscriptions.is_prefix_of(self@.visible.subscriptions)
        &&& self@.base.tokens.is_prefix_of(self@.visible.tokens)
    }

    /// The rows that the transaction began from are marked off within the
    /// rows that it holds.
    pub closed spec fn in_bounds(&self) -> bool {
        &&& self.base_subscriptions <= self.subscriptions.len()
        &&& self.base_tokens <= self.tokens.len()
    }

    /// Adds `row` to `subscriptions`, unless its id is taken.
    pub fn insert_subscription(&mut self, row: Subscription) -> (r: Result<(), StoreError>)
        requires
            old(self).well_formed(),
        ensures
            final(self).well_formed(),
            final(self)@.base == old(self)@.base,
            match r {
                Ok(()) => {
                    &&& !old(self)@.visible.has_subscriber(row.id)
                    &&& final(self)@.visible == old(self)@.visible.with_subscription(row@)
                },
                Err(e) => {
                    &&& e == StoreError::DuplicateSubscriber
                    &&& old(self)@.visible.has_subscriber(row.id)
                    &&& final(self)@ == old(self)@
                },
            },
    {
        match find_subscriber(&self.subscriptions, row.id) {
            Some(i) => {
                assert(old(self)@.visible.subscriptions[i as int].id == row.id);
                Err(StoreError::DuplicateSubscriber)
            },
            None => {
                let ghost before = self@;
                let ghost added = row@;
                self.subscriptions.push(row);
                proof {
                    assert(self.subscriptions@.take(self.base_subscriptions as int)
                        =~= old(self).subscriptions@.take(self.base_subscriptions as int));
                    assert(self@.visible.subscriptions =~= before.visible.subscriptions.push(added));
                    assert(self@.base.subscriptions =~= before.base.subscriptions);
                    assert forall|i: int| 0 <= i < self@.visible.tokens.len() implies self@.visible.has_subscriber(
                        (#[trigger] self@.visible.tokens[i]).subscriber_id,
                    ) by {
                        let id = before.visible.tokens[i].subscriber_id;
                        assert(before.visible.has_subscriber(id));
                        let k = choose|k: int|
                            0 <= k < before.visible.subscriptions.len() && (
                            #[trigger] before.visible.subscriptions[k]).id == id;
                        assert(self@.visible.subscriptions[k].id == id);
                    }
                }
                Ok(())
            },
        }
    }

    /// Adds `row` to `subscription_tokens`, unless it names a subscription
    /// that the transaction does not see, or its token was issued before.
    pub fn insert_token(&mut self, row: SubscriptionToken) -> (r: Result<(), StoreError>)
        requires
            old(self).well_formed(),
        ensures
            final(self).well_formed(),
            final(self)@.base == old(self)@.base,
            match r {
                Ok(()) => {
                    &&& old(self)@.visible.has_subscriber(row.subscriber_id)
                    &&& !old(self)@.visible.has_token(row.subscription_token@)
                    &&& final(self)@.visible == old(self)@.visible.with_token(row@)
                },
                Err(e) => {
                    &&& final(self)@ == old(self)@
                    &&& e == if !old(self)@.visible.has_subscriber(row.subscriber_id) {
                        StoreError::UnknownSubscriber
                    } else {
                        StoreError::DuplicateToken
                    }
                    &&& e == StoreError::DuplicateToken ==> old(self)@.visible.has_token(
                        row.subscription_token@,
                    )
                },
            },
    {
        let ghost before = self@;
        match find_subscriber(&self.subscriptions, row.subscriber_id) {
            None => {
                return Err(StoreError::UnknownSubscriber);
            },
            Some(i) => {
                assert(before.visible.subscriptions[i as int].id == row.subscriber_id);
            },
        }
        match find_token(&self.tokens, &row.subscription_token) {
            Some(i) => {
                assert(before.visible.tokens[i as int].subscription_token
                    == row.subscription_token@);
                Err(StoreError::DuplicateToken)
            },
            None => {
                let ghost added = row@;
                self.tokens.push(row);
                proof {
                    assert(self.tokens@.take(self.base_tokens as int) =~= old(self).tokens@.take(
                        self.base_tokens as int,
                    ));
                    assert(self@.visible.tokens =~= before.visible.tokens.push(added));
                    assert(self@.base.tokens =~= before.base.tokens);
                }
                Ok(())
            },
        }
    }

    /// Makes the writes of the transaction the state of the store.
    pub fn commit(self) -> (store: SubscriptionStore)
        requires
            self.well_formed(),
        ensures
            store@ == self@.visible,
            store@.well_formed(),
    {
        SubscriptionStore { subscriptions: self.subscriptions, tokens: self.tokens }
    }

    /// Gives the writes of the transaction up: the store is what it was when
    /// the transaction began.
    pub fn rollback(self) -> (store: SubscriptionStore)
        requires
            self.well_formed(),
        ensures
            store@ == self@.base,
            store@.well_formed(),
    {
        let mut subscriptions = self.subscriptions;
        let mut tokens = self.tokens;
        subscriptions.truncate(self.base_subscriptions);
        tokens.truncate(self.base_tokens);
        assert(subscriptions@ =~= self.subscriptions@.take(self.base_subscriptions as int));
        assert(tokens@ =~= self.tokens@.take(self.base_tokens as int));
        SubscriptionStore { subscriptions, tokens }
    }
}

} // verus!
