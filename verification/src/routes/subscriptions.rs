//! Onboarding: from a submitted form to a pending subscription, its
//! confirmation token, and the email that carries the token.

use crate::domain::characters::is_alphanumeric;
use crate::domain::new_subscriber::NewSubscriber;
use crate::domain::subscriber_email::{invalid_email_message, valid_email, SubscriberEmail};
use crate::domain::subscriber_name::{invalid_name_message, valid_name, SubscriberName};
use crate::email_client::{undeliverable_message, Email, EmailView, Outbox, OutboxView};
use crate::error::{
    internal_error, internal_error_message, ErrorChain, ErrorChainView, Outcome, OutcomeView,
};
use crate::startup::ApplicationUrl;
use crate::store::{
    current_time, pending_subscription, random_subscription_id, store_error_message, StoreError,
    StoreView, Subscription, SubscriptionId, SubscriptionStatus, SubscriptionStore,
    SubscriptionToken, SubscriptionTokenView, SubscriptionView, Timestamp, Transaction,
};
use rand::distributions::Alphanumeric;
use rand::rngs::ThreadRng;
use rand::Rng;
use vstd::prelude::*;
use vstd::string::*;

verus! {

/// The number of characters in a confirmation token.
pub const TOKEN_LENGTH: usize = 25;

/// What makes a text a confirmation token: twenty-five characters, each an
/// ASCII letter or digit.
pub open spec fn is_subscription_token(token: Seq<char>) -> bool {
    &&& token.len() == TOKEN_LENGTH
    &&& forall|i: int| 0 <= i < token.len() ==> is_alphanumeric(#[trigger] token[i])
}

/// Why onboarding failed.
#[derive(Debug)]
pub enum SubscribeError {
    /// The name or the address in the form is not valid. The message says
    /// which, and may be shown to whoever sent the form.
    ValidationError(String),
    /// The store or the mail transport failed.
    UnexpectedError(ErrorChain),
}

/// A [`SubscribeError`] as a mathematical value.
pub enum SubscribeErrorView {
    ValidationError(Seq<char>),
    UnexpectedError(ErrorChainView),
}

impl View for SubscribeError {
    type V = SubscribeErrorView;

    open spec fn view(&self) -> SubscribeErrorView {
        match *self {
            SubscribeError::ValidationError(message) => SubscribeErrorView::ValidationError(
                message@,
            ),
            SubscribeError::UnexpectedError(chain) => SubscribeErrorView::UnexpectedError(chain@),
        }
    }
}

impl SubscribeErrorView {
    /// The failure with its causes: a validation error has none.
    pub open spec fn chain(self) -> ErrorChainView {
        match self {
            SubscribeErrorView::ValidationError(message) => ErrorChainView::root(message),
            SubscribeErrorView::UnexpectedError(chain) => chain,
        }
    }
}

impl SubscribeError {
    /// The HTTP status that answers a request failing with this error: 400
    /// where the form was at fault, 500 where the server was.
    pub fn status_code(&self) -> (code: u16)
        ensures
            code == match *self {
                SubscribeError::ValidationError(_) => 400u16,
                SubscribeError::UnexpectedError(_) => 500u16,
            },
    {
        match self {
            SubscribeError::ValidationError(_) => 400,
            SubscribeError::UnexpectedError(_) => 500,
        }
    }

    /// What may be told to whoever sent the form: the message of a
    /// validation error, and for every other failure no more than that
    /// something went wrong.
    pub fn public_message(&self) -> (message: String)
        ensures
            message@ == match self@ {
                SubscribeErrorView::ValidationError(message) => message,
                SubscribeErrorView::UnexpectedError(_) => internal_error_message(),
            },
    {
        match self {
            SubscribeError::ValidationError(message) => message.clone(),
            SubscribeError::UnexpectedError(_) => internal_error(),
        }
    }

    /// The failure with its causes, ready for [`crate::error::error_chain_fmt`].
    pub fn chain(&self) -> (chain: ErrorChain)
        ensures
            chain@ == self@.chain(),
    {
        match self {
            SubscribeError::ValidationError(message) => ErrorChain::new(message.as_str()),
            SubscribeError::UnexpectedError(chain) => chain.clone(),
        }
    }

    /// The message of the failure itself, without its causes.
    pub fn to_string(&self) -> (message: String)
        ensures
            message@ == self@.chain().message,
    {
        match self {
            SubscribeError::ValidationError(message) => message.clone(),
            SubscribeError::UnexpectedError(chain) => chain.message.clone(),
        }
    }

    /// A validation error with the given message.
    pub fn from(e: String) -> (error: SubscribeError)
        ensures
            error@ == SubscribeErrorView::ValidationError(e@),
    {
        SubscribeError::ValidationError(e)
    }

    /// A copy of this error.
    pub fn clone(&self) -> (copy: SubscribeError)
        ensures
            copy@ == self@,
    {
        match self {
            SubscribeError::ValidationError(message) => SubscribeError::ValidationError(
                message.clone(),
            ),
            SubscribeError::UnexpectedError(chain) => SubscribeError::UnexpectedError(
                chain.clone(),
            ),
        }
    }
}

/// The form that asks for a subscription, as it was submitted.
#[derive(Debug)]
pub struct SubscribeData {
    pub email: String,
    pub name: String,
}

/// Whether a form with this address and this name is accepted.
pub open spec fn valid_form(email: Seq<char>, name: Seq<char>) -> bool {
    valid_name(name) && valid_email(email)
}

/// The message with which a form is turned down: that for the name where
/// the name is at fault, else that for the address.
pub open spec fn invalid_form_message(email: Seq<char>, name: Seq<char>) -> Seq<char> {
    if !valid_name(name) {
        invalid_name_message(name)
    } else {
        invalid_email_message(email)
    }
}

impl NewSubscriber {
    /// Validates a form. It is accepted exactly when both its name and its
    /// address are valid; the name is looked at first.
    pub fn try_from(value: SubscribeData) -> (r: Result<NewSubscriber, String>)
        ensures
            valid_form(value.email@, value.name@) ==> r is Ok && r->Ok_0@.email == value.email@
                && r->Ok_0@.name == value.name@,
            !valid_form(value.email@, value.name@) ==> r is Err && r->Err_0@
                == invalid_form_message(value.email@, value.name@),
    {
        let name = match SubscriberName::parse(value.name) {
            Ok(name) => name,
            Err(message) => {
                return Err(message);
            },
        };
        let email = match SubscriberEmail::parse(value.email) {
            Ok(email) => email,
            Err(message) => {
                return Err(message);
            },
        };
        Ok(NewSubscriber { email, name })
    }
}

/// Why a token could not be stored.
#[derive(Debug)]
pub struct StoreTokenError(pub StoreError);

/// What a [`StoreTokenError`] says of itself.
pub open spec fn store_token_error_message() -> Seq<char> {
    "A database error was encountered while trying to store a subscription token."@
}

impl StoreTokenError {
    /// The message of the failure itself, without its cause.
    pub fn to_string(&self) -> (message: String)
        ensures
            message@ == store_token_error_message(),
    {
        String::from_str(
            "A database error was encountered while trying to store a subscription token.",
        )
    }

    /// What caused the failure.
    pub fn source(&self) -> (cause: StoreError)
        ensures
            cause == self.0,
    {
        self.0
    }

    /// The failure with its cause.
    pub fn chain(&self) -> (chain: ErrorChain)
        ensures
            chain@ == ErrorChainView::root(store_error_message(self.0)).context(
                store_token_error_message(),
            ),
    {
        ErrorChain::new(self.0.as_str()).context(
            "A database error was encountered while trying to store a subscription token.",
        )
    }
}

/// Declares `rand::rngs::ThreadRng`, the handle to the random number
/// generator of the running thread.
#[verifier::external_type_specification]
#[verifier::external_body]
pub struct ExThreadRng(ThreadRng);

/// `rand::thread_rng`. Nothing is claimed of the generator it hands out.
/// (It panics where the operating system has no random bytes to seed it.)
pub assume_specification[ rand::thread_rng ]() -> ThreadRng;

/// `String::push`: the character is appended to the text.
pub assume_specification[ String::push ](text: &mut String, c: char)
    ensures
        final(text)@ == old(text)@.push(c),
;

/// `Rng::sample` with the distribution `Alphanumeric`. Believed of it: the
/// byte that comes back is the ASCII code of a letter or of a digit. Which
/// one is left to chance.
#[verifier::external_body]
fn sample_alphanumeric(rng: &mut ThreadRng) -> (byte: u8)
    ensures
        is_alphanumeric(byte as char),
{
    rng.sample(Alphanumeric)
}

/// A fresh confirmation token: twenty-five letters and digits, each drawn
/// independently from the random number generator of the running thread.
pub fn generate_subscription_token() -> (token: String)
    ensures
        is_subscription_token(token@),
{
    let mut rng = rand::thread_rng();
    let mut token = String::new();
    let mut drawn: usize = 0;
    while drawn < TOKEN_LENGTH
        invariant
            drawn <= TOKEN_LENGTH,
            token@.len() == drawn,
            forall|i: int| 0 <= i < token@.len() ==> is_alphanumeric(#[trigger] token@[i]),
        decreases TOKEN_LENGTH - drawn,
    {
        let byte = sample_alphanumeric(&mut rng);
        token.push(byte as char);
        drawn = drawn + 1;
    }
    token
}

/// The address that confirms the subscription to which `token` was issued.
pub open spec fn confirmation_link(base_url: Seq<char>, token: Seq<char>) -> Seq<char> {
    base_url + "/subscriptions/confirm?subscription_token="@ + token
}

/// The plain-text body of the message that carries `link`.
pub open spec fn welcome_text(link: Seq<char>) -> Seq<char> {
    "Welcome to our newsletter!\nVisit "@ + link + " to confirm your subscription."@
}

/// The HTML body of the message that carries `link`.
pub open spec fn welcome_html(link: Seq<char>) -> Seq<char> {
    "Welcome to our newsletter!<br />lick <a href=\""@ + link
        + "\">here</a> to confirm your subscription."@
}

/// The message that asks `recipient` to confirm, with the link for `token`
/// in both bodies.
pub open spec fn confirmation_email(
    recipient: Seq<char>,
    base_url: Seq<char>,
    token: Seq<char>,
) -> EmailView {
    EmailView {
        recipient,
        subject: "Welcome!"@,
        html_body: welcome_html(confirmation_link(base_url, token)),
        text_body: welcome_text(confirmation_link(base_url, token)),
    }
}

/// Writes the message that asks `subscriber` to confirm.
pub fn build_confirmation_email(
    subscriber: &NewSubscriber,
    base_url: &str,
    subscription_token: &str,
) -> (email: Email)
    ensures
        email@ == confirmation_email(subscriber@.email, base_url@, subscription_token@),
{
    let mut link = String::from_str(base_url);
    link.append("/subscriptions/confirm?subscription_token=");
    link.append(subscription_token);
    let mut text_body = String::from_str("Welcome to our newsletter!\nVisit ");
    text_body.append(link.as_str());
    text_body.append(" to confirm your subscription.");
    let mut html_body = String::from_str("Welcome to our newsletter!<br />lick <a href=\"");
    html_body.append(link.as_str());
    html_body.append("\">here</a> to confirm your subscription.");
    Email {
        recipient: subscriber.email.clone(),
        subject: String::from_str("Welcome!"),
        html_body,
        text_body,
    }
}

/// Writes the row for `new_subscriber` into `transaction`, under a fresh
/// random id and dated now, and answers with the id. The one thing that can
/// go wrong is that the id is taken; then nothing is written. Where the
/// transaction sees no subscription at all, no id is taken, and the write
/// goes through.
pub fn insert_subscriber(new_subscriber: &NewSubscriber, transaction: &mut Transaction) -> (r:
    Result<SubscriptionId, StoreError>)
    requires
        old(transaction).well_formed(),
    ensures
        final(transaction).well_formed(),
        final(transaction)@.base == old(transaction)@.base,
        match r {
            Ok(id) => {
                let row = final(transaction)@.visible.subscriptions.last();
                &&& !old(transaction)@.visible.has_subscriber(id)
                &&& final(transaction)@.visible == old(transaction)@.visible.with_subscription(row)
                &&& row == pending_subscription(
                    id,
                    new_subscriber@.email,
                    new_subscriber@.name,
                    row.subscribed_at,
                )
            },
            Err(e) => e == StoreError::DuplicateSubscriber && final(transaction)@ == old(
                transaction,
            )@,
        },
        old(transaction)@.visible.subscriptions.len() == 0 ==> r is Ok,
{
    let row = Subscription::new(new_subscriber);
    let id = row.id;
    match transaction.insert_subscription(row) {
        Ok(()) => Ok(id),
        Err(e) => Err(e),
    }
}

/// Writes `subscription_token` into `transaction` as a token of the
/// subscription `subscriber_id`. It is turned down, and nothing is written,
/// where the transaction sees no such subscription or the token was issued
/// before.
pub fn store_token(
    transaction: &mut Transaction,
    subscriber_id: SubscriptionId,
    subscription_token: &str,
) -> (r: Result<(), StoreTokenError>)
    requires
        old(transaction).well_formed(),
    ensures
        final(transaction).well_formed(),
        final(transaction)@.base == old(transaction)@.base,
        r is Ok <==> old(transaction)@.visible.has_subscriber(subscriber_id) && !old(
            transaction,
        )@.visible.has_token(subscription_token@),
        r is Ok ==> final(transaction)@.visible == old(transaction)@.visible.with_token(
            SubscriptionTokenView { subscription_token: subscription_token@, subscriber_id },
        ),
        r matches Err(e) ==> {
            &&& final(transaction)@ == old(transaction)@
            &&& e.0 == if !old(transaction)@.visible.has_subscriber(subscriber_id) {
                StoreError::UnknownSubscriber
            } else {
                StoreError::DuplicateToken
            }
        },
{
    let row = SubscriptionToken {
        subscription_token: String::from_str(subscription_token),
        subscriber_id,
    };
    match transaction.insert_token(row) {
        Ok(()) => Ok(()),
        Err(e) => Err(StoreTokenError(e)),
    }
}

/// Where onboarding stands: which piece of outside work it waits for.
#[derive(Clone, Copy, Debug, PartialEq, Eq, Structural)]
pub enum SubscribeStage {
    OpeningTransaction,
    InsertingSubscriber,
    StoringToken,
    Committing,
    RollingBack,
    SendingEmail,
    Done,
}

/// The outside work that onboarding asks for.
#[derive(Debug)]
pub enum SubscribeAction {
    /// Open a transaction on the store.
    BeginTransaction,
    /// Insert this row into `subscriptions`, inside the transaction.
    InsertSubscriber(Subscription),
    /// Insert this row into `subscription_tokens`, inside the transaction.
    StoreToken(SubscriptionToken),
    /// Commit the transaction.
    Commit,
    /// Give the transaction up.
    Rollback,
    /// Send this message.
    SendEmail(Email),
    /// Nothing more: onboarding has ended, with this result.
    Done(Result<(), SubscribeError>),
}

/// A [`SubscribeAction`] as a mathematical value.
pub enum SubscribeActionView {
    BeginTransaction,
    InsertSubscriber(SubscriptionView),
    StoreToken(SubscriptionTokenView),
    Commit,
    Rollback,
    SendEmail(EmailView),
    Done(Option<SubscribeErrorView>),
}

impl View for SubscribeAction {
    type V = SubscribeActionView;

    open spec fn view(&self) -> SubscribeActionView {
        match *self {
            SubscribeAction::BeginTransaction => SubscribeActionView::BeginTransaction,
            SubscribeAction::InsertSubscriber(row) => SubscribeActionView::InsertSubscriber(row@),
            SubscribeAction::StoreToken(row) => SubscribeActionView::StoreToken(row@),
            SubscribeAction::Commit => SubscribeActionView::Commit,
            SubscribeAction::Rollback => SubscribeActionView::Rollback,
            SubscribeAction::SendEmail(email) => SubscribeActionView::SendEmail(email@),
            SubscribeAction::Done(result) => SubscribeActionView::Done(result_view(result)),
        }
    }
}

/// The failure in `result`, if it holds one.
pub open spec fn result_view(result: Result<(), SubscribeError>) -> Option<SubscribeErrorView> {
    match result {
        Ok(()) => None,
        Err(e) => Some(e@),
    }
}

/// Said when no transaction could be opened.
pub open spec fn begin_failed() -> Seq<char> {
    "Failed to acquire a Postgre connection from the pool."@
}

/// Said when the subscription could not be inserted.
pub open spec fn insert_failed() -> Seq<char> {
    "Failed to insert new subscriber in the database"@
}

/// Said when the token could not be stored.
pub open spec fn store_token_failed() -> Seq<char> {
    "Failed to store the confirmation token for a new subscriber"@
}

/// Said when the transaction could not be committed.
pub open spec fn commit_failed() -> Seq<char> {
    "Failed to commit transaction to store a subscriber."@
}

/// Said when the confirmation email could not be sent.
pub open spec fn send_failed() -> Seq<char> {
    "Failed to send a confirmation email"@
}

/// Onboarding under way, as a mathematical value.
pub struct OnboardingView {
    pub stage: SubscribeStage,
    /// The row to insert into `subscriptions`.
    pub subscription: SubscriptionView,
    /// The row to insert into `subscription_tokens`.
    pub token: SubscriptionTokenView,
    /// The message to send once both rows are committed.
    pub email: EmailView,
    /// Why onboarding failed, once it has.
    pub error: Option<SubscribeErrorView>,
}

impl OnboardingView {
    /// Onboarding of `subscriber` at its start, with the id, the date and
    /// the token that were drawn for it.
    pub open spec fn planned(
        email: Seq<char>,
        name: Seq<char>,
        base_url: Seq<char>,
        id: SubscriptionId,
        now: Timestamp,
        token: Seq<char>,
    ) -> OnboardingView {
        OnboardingView {
            stage: SubscribeStage::OpeningTransaction,
            subscription: pending_subscription(id, email, name, now),
            token: SubscriptionTokenView { subscription_token: token, subscriber_id: id },
            email: confirmation_email(email, base_url, token),
            error: None,
        }
    }

    /// The outside work that is asked for at this stage.
    pub open spec fn action(self) -> SubscribeActionView {
        match self.stage {
            SubscribeStage::OpeningTransaction => SubscribeActionView::BeginTransaction,
            SubscribeStage::InsertingSubscriber => SubscribeActionView::InsertSubscriber(
                self.subscription,
            ),
            SubscribeStage::StoringToken => SubscribeActionView::StoreToken(self.token),
            SubscribeStage::Committing => SubscribeActionView::Commit,
            SubscribeStage::RollingBack => SubscribeActionView::Rollback,
            SubscribeStage::SendingEmail => SubscribeActionView::SendEmail(self.email),
            SubscribeStage::Done => SubscribeActionView::Done(self.error),
        }
    }

    /// Onboarding at `stage`, nothing else changed.
    pub open spec fn at(self, stage: SubscribeStage) -> OnboardingView {
        OnboardingView { stage, ..self }
    }

    /// Onboarding at `stage`, failed because of `cause`, which is reported
    /// as the cause of `context`.
    pub open spec fn failed(
        self,
        stage: SubscribeStage,
        cause: ErrorChainView,
        context: Seq<char>,
    ) -> OnboardingView {
        OnboardingView {
            stage,
            error: Some(SubscribeErrorView::UnexpectedError(cause.context(context))),
            ..self
        }
    }

    /// Where onboarding stands once the work it asked for has ended with
    /// `outcome`.
    ///
    /// Each write must succeed before the next is asked for, and the commit
    /// before the email. A failure inside the transaction leads to a
    /// rollback and then to the end; a failure of the email ends onboarding
    /// with what was committed left in place.
    pub open spec fn step(self, outcome: OutcomeView) -> OnboardingView {
        match (self.stage, outcome) {
            (SubscribeStage::OpeningTransaction, OutcomeView::Succeeded) => self.at(
                SubscribeStage::InsertingSubscriber,
            ),
            (SubscribeStage::OpeningTransaction, OutcomeView::Failed(cause)) => self.failed(
                SubscribeStage::Done,
                cause,
                begin_failed(),
            ),
            (SubscribeStage::InsertingSubscriber, OutcomeView::Succeeded) => self.at(
                SubscribeStage::StoringToken,
            ),
            (SubscribeStage::InsertingSubscriber, OutcomeView::Failed(cause)) => self.failed(
                SubscribeStage::RollingBack,
                cause,
                insert_failed(),
            ),
            (SubscribeStage::StoringToken, OutcomeView::Succeeded) => self.at(
                SubscribeStage::Committing,
            ),
            (SubscribeStage::StoringToken, OutcomeView::Failed(cause)) => self.failed(
                SubscribeStage::RollingBack,
                cause.context(store_token_error_message()),
                store_token_failed(),
            ),
            (SubscribeStage::Committing, OutcomeView::Succeeded) => self.at(
                SubscribeStage::SendingEmail,
            ),
            (SubscribeStage::Committing, OutcomeView::Failed(cause)) => self.failed(
                SubscribeStage::Done,
                cause,
                commit_failed(),
            ),
            (SubscribeStage::RollingBack, _) => self.at(SubscribeStage::Done),
            (SubscribeStage::SendingEmail, OutcomeView::Succeeded) => self.at(
                SubscribeStage::Done,
            ),
            (SubscribeStage::SendingEmail, OutcomeView::Failed(cause)) => self.failed(
                SubscribeStage::Done,
                cause,
                send_failed(),
            ),
            (SubscribeStage::Done, _) => self,
        }
    }

    /// An upper bound on the pieces of outside work still to come.
    pub open spec fn steps_left(self) -> nat {
        match self.stage {
            SubscribeStage::OpeningTransaction => 6,
            SubscribeStage::InsertingSubscriber => 5,
            SubscribeStage::StoringToken => 4,
            SubscribeStage::Committing => 3,
            SubscribeStage::SendingEmail => 2,
            SubscribeStage::RollingBack => 1,
            SubscribeStage::Done => 0,
        }
    }
}

/// Onboarding of one subscriber, under way.
///
/// [`Onboarding::action`] names the outside work to do next;
/// [`Onboarding::step`] takes how it went. Whoever drives the machine does
/// the work and nothing else: every decision is taken here.
#[derive(Debug)]
pub struct Onboarding {
    stage: SubscribeStage,
    subscription: Subscription,
    token: SubscriptionToken,
    email: Email,
    error: Option<SubscribeError>,
}

impl View for Onboarding {
    type V = OnboardingView;

    closed spec fn view(&self) -> OnboardingView {
        OnboardingView {
            stage: self.stage,
            subscription: self.subscription@,
            token: self.token@,
            email: self.email@,
            error: match self.error {
                Some(e) => Some(e@),
                None => None,
            },
        }
    }
}

impl Onboarding {
    /// Onboarding of `subscriber` with the given id, date and token.
    pub fn plan(
        subscriber: &NewSubscriber,
        base_url: &ApplicationUrl,
        id: SubscriptionId,
        now: Timestamp,
        token: String,
    ) -> (flow: Onboarding)
        ensures
            flow@ == OnboardingView::planned(
                subscriber@.email,
                subscriber@.name,
                base_url@,
                id,
                now,
                token@,
            ),
    {
        let email = build_confirmation_email(subscriber, base_url.0.as_str(), token.as_str());
        Onboarding {
            stage: SubscribeStage::OpeningTransaction,
            subscription: Subscription::pending(id, subscriber, now),
            token: SubscriptionToken { subscription_token: token, subscriber_id: id },
            email,
            error: None,
        }
    }

    /// Validates `form` and, where it is valid, begins onboarding under a
    /// fresh random id, dated now, with a fresh random token. An invalid
    /// form is answered with a validation error, and no work is asked for.
    pub fn start(form: SubscribeData, base_url: &ApplicationUrl) -> (r: Result<
        Onboarding,
        SubscribeError,
    >)
        ensures
            valid_form(form.email@, form.name@) ==> r is Ok && is_subscription_token(
                r->Ok_0@.token.subscription_token,
            ) && r->Ok_0@ == OnboardingView::planned(
                form.email@,
                form.name@,
                base_url@,
                r->Ok_0@.subscription.id,
                r->Ok_0@.subscription.subscribed_at,
                r->Ok_0@.token.subscription_token,
            ),
            !valid_form(form.email@, form.name@) ==> r is Err && r->Err_0@
                == SubscribeErrorView::ValidationError(
                invalid_form_message(form.email@, form.name@),
            ),
    {
        match NewSubscriber::try_from(form) {
            Err(message) => Err(SubscribeError::ValidationError(message)),
            Ok(subscriber) => Ok(
                Onboarding::plan(
                    &subscriber,
                    base_url,
                    random_subscription_id(),
                    current_time(),
                    generate_subscription_token(),
                ),
            ),
        }
    }

    /// The outside work to do next.
    pub fn action(&self) -> (action: SubscribeAction)
        ensures
            action@ == self@.action(),
    {
        match self.stage {
            SubscribeStage::OpeningTransaction => SubscribeAction::BeginTransaction,
            SubscribeStage::InsertingSubscriber => SubscribeAction::InsertSubscriber(
                self.subscription.clone(),
            ),
            SubscribeStage::StoringToken => SubscribeAction::StoreToken(self.token.clone()),
            SubscribeStage::Committing => SubscribeAction::Commit,
            SubscribeStage::RollingBack => SubscribeAction::Rollback,
            SubscribeStage::SendingEmail => SubscribeAction::SendEmail(self.email.clone()),
            SubscribeStage::Done => SubscribeAction::Done(
                match &self.error {
                    Some(e) => Err(e.clone()),
                    None => Ok(()),
                },
            ),
        }
    }

    /// Takes how the work named by [`Onboarding::action`] went, and moves
    /// on.
    pub fn step(self, outcome: Outcome) -> (next: Onboarding)
        ensures
            next@ == self@.step(outcome@),
            self@.stage != SubscribeStage::Done ==> next@.steps_left() < self@.steps_left(),
    {
        let mut next = self;
        match next.stage {
            SubscribeStage::OpeningTransaction => match outcome {
                Outcome::Succeeded => {
                    next.stage = SubscribeStage::InsertingSubscriber;
                },
                Outcome::Failed(cause) => {
                    next.stage = SubscribeStage::Done;
                    next.error = Some(
                        SubscribeError::UnexpectedError(
                            cause.context("Failed to acquire a Postgre connection from the pool."),
                        ),
                    );
                },
            },
            SubscribeStage::InsertingSubscriber => match outcome {
                Outcome::Succeeded => {
                    next.stage = SubscribeStage::StoringToken;
                },
                Outcome::Failed(cause) => {
                    next.stage = SubscribeStage::RollingBack;
                    next.error = Some(
                        SubscribeError::UnexpectedError(
                            cause.context("Failed to insert new subscriber in the database"),
                        ),
                    );
                },
            },
            SubscribeStage::StoringToken => match outcome {
                Outcome::Succeeded => {
                    next.stage = SubscribeStage::Committing;
                },
                Outcome::Failed(cause) => {
                    next.stage = SubscribeStage::RollingBack;
                    next.error = Some(
                        SubscribeError::UnexpectedError(
                            cause.context(
                                "A database error was encountered while trying to store a subscription token.",
                            ).context("Failed to store the confirmation token for a new subscriber"),
                        ),
                    );
                },
            },
            SubscribeStage::Committing => match outcome {
                Outcome::Succeeded => {
                    next.stage = SubscribeStage::SendingEmail;
                },
                Outcome::Failed(cause) => {
                    next.stage = SubscribeStage::Done;
                    next.error = Some(
                        SubscribeError::UnexpectedError(
                            cause.context("Failed to commit transaction to store a subscriber."),
                        ),
                    );
                },
            },
            SubscribeStage::RollingBack => {
                next.stage = SubscribeStage::Done;
            },
            SubscribeStage::SendingEmail => match outcome {
                Outcome::Succeeded => {
                    next.stage = SubscribeStage::Done;
                },
                Outcome::Failed(cause) => {
                    next.stage = SubscribeStage::Done;
                    next.error = Some(
                        SubscribeError::UnexpectedError(
                            cause.context("Failed to send a confirmation email"),
                        ),
                    );
                },
            },
            SubscribeStage::Done => {},
        }
        next
    }
}

/// What onboarding leaves behind: the store, the outbox, and the failure if
/// there was one.
pub struct OnboardingResult {
    pub store: StoreView,
    pub outbox: OutboxView,
    pub error: Option<SubscribeErrorView>,
}

/// What onboarding by `plan` makes of `store` and `outbox`.
///
/// Where the id or the token of the plan is taken, the store turns the write
/// down and nothing at all is left behind: no row, no token, no message.
/// Otherwise both rows are committed and the message is handed over exactly
/// once; that the message cannot be delivered is reported, and undoes
/// nothing.
pub open spec fn onboarding_result(
    store: StoreView,
    outbox: OutboxView,
    plan: OnboardingView,
) -> OnboardingResult {
    if store.has_subscriber(plan.subscription.id) {
        OnboardingResult {
            store,
            outbox,
            error: Some(
                SubscribeErrorView::UnexpectedError(
                    ErrorChainView::root(
                        store_error_message(StoreError::DuplicateSubscriber),
                    ).context(insert_failed()),
                ),
            ),
        }
    } else if store.has_token(plan.token.subscription_token) {
        OnboardingResult {
            store,
            outbox,
            error: Some(
                SubscribeErrorView::UnexpectedError(
                    ErrorChainView::root(store_error_message(StoreError::DuplicateToken)).context(
                        store_token_error_message(),
                    ).context(store_token_failed()),
                ),
            ),
        }
    } else {
        OnboardingResult {
            store: store.with_subscription(plan.subscription).with_token(plan.token),
            outbox: outbox.with_attempt(plan.email),
            error: if outbox.refuses(plan.email.recipient) {
                Some(
                    SubscribeErrorView::UnexpectedError(
                        ErrorChainView::root(undeliverable_message()).context(send_failed()),
                    ),
                )
            } else {
                None
            },
        }
    }
}

/// The store while onboarding runs against it: at rest, or held by the one
/// open transaction.
enum Session {
    Idle(SubscriptionStore),
    Open(Transaction),
}

/// What holds between the stage of onboarding and the state of store and
/// outbox, when onboarding began on `store` and `outbox`.
spec fn on_course(
    flow: OnboardingView,
    session: Session,
    now: OutboxView,
    store: StoreView,
    outbox: OutboxView,
) -> bool {
    let end = onboarding_result(store, outbox, flow);
    let id = flow.subscription.id;
    let token = flow.token.subscription_token;
    &&& flow.token.subscriber_id == id
    &&& store.well_formed()
    &&& match flow.stage {
        SubscribeStage::OpeningTransaction => {
            &&& session matches Session::Idle(s)
            &&& s@ == store
            &&& now == outbox
            &&& flow.error is None
        },
        SubscribeStage::InsertingSubscriber => {
            &&& session matches Session::Open(t)
            &&& t.well_formed()
            &&& t@.base == store
            &&& t@.visible == store
            &&& now == outbox
            &&& flow.error is None
        },
        SubscribeStage::StoringToken => {
            &&& session matches Session::Open(t)
            &&& t.well_formed()
            &&& t@.base == store
            &&& t@.visible == store.with_subscription(flow.subscription)
            &&& !store.has_subscriber(id)
            &&& now == outbox
            &&& flow.error is None
        },
        SubscribeStage::Committing => {
            &&& session matches Session::Open(t)
            &&& t.well_formed()
            &&& t@.base == store
            &&& t@.visible == store.with_subscription(flow.subscription).with_token(flow.token)
            &&& !store.has_subscriber(id)
            &&& !store.has_token(token)
            &&& now == outbox
            &&& flow.error is None
        },
        SubscribeStage::RollingBack => {
            &&& session matches Session::Open(t)
            &&& t.well_formed()
            &&& t@.base == store
            &&& now == outbox
            &&& end.store == store
            &&& end.outbox == outbox
            &&& flow.error == end.error
        },
        SubscribeStage::SendingEmail => {
            &&& session matches Session::Idle(s)
            &&& s@.well_formed()
            &&& s@ == store.with_subscription(flow.subscription).with_token(flow.token)
            &&& !store.has_subscriber(id)
            &&& !store.has_token(token)
            &&& now == outbox
            &&& flow.error is None
        },
        SubscribeStage::Done => {
            &&& session matches Session::Idle(s)
            &&& s@.well_formed()
            &&& s@ == end.store
            &&& now == end.outbox
            &&& flow.error == end.error
        },
    }
}

/// Whether `token` is in `store` does not depend on its subscriptions.
proof fn lemma_tokens_apart(store: StoreView, row: SubscriptionView, token: Seq<char>)
    ensures
        store.with_subscription(row).has_token(token) == store.has_token(token),
{
    let more = store.with_subscription(row);
    if store.has_token(token) {
        let i = choose|i: int|
            0 <= i < store.tokens.len() && (#[trigger] store.tokens[i]).subscription_token == token;
        assert(more.tokens[i].subscription_token == token);
    }
    if more.has_token(token) {
        let i = choose|i: int|
            0 <= i < more.tokens.len() && (#[trigger] more.tokens[i]).subscription_token == token;
        assert(store.tokens[i].subscription_token == token);
    }
}

/// A subscription that was just added is there.
proof fn lemma_added_is_there(store: StoreView, row: SubscriptionView)
    ensures
        store.with_subscription(row).has_subscriber(row.id),
{
    let more = store.with_subscription(row);
    assert(more.subscriptions[store.subscriptions.len() as int].id == row.id);
}

/// A write that the store turned down, as an outcome.
fn failed(e: StoreError) -> (outcome: Outcome)
    ensures
        outcome@ == OutcomeView::Failed(ErrorChainView::root(store_error_message(e))),
{
    Outcome::Failed(ErrorChain::new(e.as_str()))
}

/// Said to a driver that asks for work out of turn.
fn out_of_turn() -> (outcome: Outcome)
    ensures
        outcome@ == OutcomeView::Failed(ErrorChainView::root(out_of_turn_message())),
{
    Outcome::Failed(ErrorChain::new("The store is not in the state that this work needs."))
}

/// The reason given when work is asked for that the state of the store does
/// not allow: a write or a commit with no transaction open, or a second
/// transaction while one is open.
pub open spec fn out_of_turn_message() -> Seq<char> {
    "The store is not in the state that this work needs."@
}

impl Onboarding {
    /// Runs onboarding from its start to its end against `store` and
    /// `outbox`.
    fn run(self, store: &mut SubscriptionStore, outbox: &mut Outbox) -> (r: Result<
        (),
        SubscribeError,
    >)
        requires
            old(store)@.well_formed(),
            self@.stage == SubscribeStage::OpeningTransaction,
            self@.error is None,
            self@.token.subscriber_id == self@.subscription.id,
        ensures
            final(store)@.well_formed(),
            final(store)@ == onboarding_result(old(store)@, old(outbox)@, self@).store,
            final(outbox)@ == onboarding_result(old(store)@, old(outbox)@, self@).outbox,
            result_view(r) == onboarding_result(old(store)@, old(outbox)@, self@).error,
    {
        let ghost store0 = store@;
        let ghost outbox0 = outbox@;
        let ghost plan = self@;
        let mut at_rest = SubscriptionStore::new();
        core::mem::swap(store, &mut at_rest);
        let mut session = Session::Idle(at_rest);
        let mut flow = self;
        loop
            invariant
                store0 == old(store)@,
                outbox0 == old(outbox)@,
                plan == self@,
                on_course(flow@, session, outbox@, store0, outbox0),
                onboarding_result(store0, outbox0, flow@) == onboarding_result(
                    store0,
                    outbox0,
                    plan,
                ),
                flow@.subscription == plan.subscription,
                flow@.token == plan.token,
                flow@.email == plan.email,
            decreases flow@.steps_left(),
        {
            let ghost before = flow@;
            proof {
                lemma_tokens_apart(store0, before.subscription, before.token.subscription_token);
                lemma_added_is_there(store0, before.subscription);
            }
            let (after, outcome) = match flow.action() {
                SubscribeAction::Done(result) => {
                    *store = match session {
                        Session::Idle(s) => s,
                        Session::Open(t) => t.rollback(),
                    };
                    return result;
                },
                SubscribeAction::BeginTransaction => match session {
                    Session::Idle(s) => (Session::Open(s.begin()), Outcome::Succeeded),
                    Session::Open(t) => (Session::Open(t), out_of_turn()),
                },
                SubscribeAction::InsertSubscriber(row) => match session {
                    Session::Open(t) => {
                        let mut t = t;
                        let outcome = match t.insert_subscription(row) {
                            Ok(()) => Outcome::Succeeded,
                            Err(e) => failed(e),
                        };
                        (Session::Open(t), outcome)
                    },
                    Session::Idle(s) => (Session::Idle(s), out_of_turn()),
                },
                SubscribeAction::StoreToken(row) => match session {
                    Session::Open(t) => {
                        let mut t = t;
                        let stored = store_token(
                            &mut t,
                            row.subscriber_id,
                            row.subscription_token.as_str(),
                        );
                        let outcome = match stored {
                            Ok(()) => Outcome::Succeeded,
                            Err(e) => failed(e.source()),
                        };
                        (Session::Open(t), outcome)
                    },
                    Session::Idle(s) => (Session::Idle(s), out_of_turn()),
                },
                SubscribeAction::Commit => match session {
                    Session::Open(t) => (Session::Idle(t.commit()), Outcome::Succeeded),
                    Session::Idle(s) => (Session::Idle(s), out_of_turn()),
                },
                SubscribeAction::Rollback => match session {
                    Session::Open(t) => (Session::Idle(t.rollback()), Outcome::Succeeded),
                    Session::Idle(s) => (Session::Idle(s), out_of_turn()),
                },
                SubscribeAction::SendEmail(email) => {
                    let outcome = match outbox.send_email(email) {
                        Ok(()) => Outcome::Succeeded,
                        Err(e) => Outcome::Failed(e),
                    };
                    (session, outcome)
                },
            };
            session = after;
            flow = flow.step(outcome);
        }
    }
}

/// Onboarding of `subscriber` under the given id, date and token, run
/// against the store and the outbox from its start to its end.
pub fn onboard(
    subscriber: &NewSubscriber,
    id: SubscriptionId,
    now: Timestamp,
    token: String,
    store: &mut SubscriptionStore,
    outbox: &mut Outbox,
    base_url: &ApplicationUrl,
) -> (r: Result<(), SubscribeError>)
    requires
        old(store)@.well_formed(),
    ensures
        final(store)@.well_formed(),
        ({
            let plan = OnboardingView::planned(
                subscriber@.email,
                subscriber@.name,
                base_url@,
                id,
                now,
                token@,
            );
            let end = onboarding_result(old(store)@, old(outbox)@, plan);
            &&& final(store)@ == end.store
            &&& final(outbox)@ == end.outbox
            &&& result_view(r) == end.error
        }),
{
    Onboarding::plan(subscriber, base_url, id, now, token).run(store, outbox)
}

/// Onboarding of whoever sent `form`: the form is validated, a pending
/// subscription and a fresh token are committed together, and the
/// confirmation email is handed to the outbox.
///
/// An invalid form is turned down before anything is written or sent. For a
/// valid form an id, a date and a token are drawn, and what happens from
/// there is what [`onboarding_result`] says for them.
pub fn subscribe(
    form: SubscribeData,
    store: &mut SubscriptionStore,
    outbox: &mut Outbox,
    base_url: &ApplicationUrl,
) -> (r: Result<(), SubscribeError>)
    requires
        old(store)@.well_formed(),
    ensures
        final(store)@.well_formed(),
        !valid_form(form.email@, form.name@) ==> {
            &&& final(store)@ == old(store)@
            &&& final(outbox)@ == old(outbox)@
            &&& result_view(r) == Some(
                SubscribeErrorView::ValidationError(invalid_form_message(form.email@, form.name@)),
            )
        },
        valid_form(form.email@, form.name@) ==> exists|
            id: SubscriptionId,
            now: Timestamp,
            token: Seq<char>,
        |
            is_subscription_token(token) && #[trigger] onboarding_result(
                old(store)@,
                old(outbox)@,
                OnboardingView::planned(form.email@, form.name@, base_url@, id, now, token),
            ) == (OnboardingResult {
                store: final(store)@,
                outbox: final(outbox)@,
                error: result_view(r),
            }),
{
    match Onboarding::start(form, base_url) {
        Err(e) => Err(e),
        Ok(flow) => {
            let ghost plan = flow@;
            let r = flow.run(store, outbox);
            proof {
                let end = onboarding_result(old(store)@, old(outbox)@, plan);
                assert(end == (OnboardingResult {
                    store: store@,
                    outbox: outbox@,
                    error: result_view(r),
                }));
            }
            r
        },
    }
}

/// Whether `text` holds `part` somewhere, as one stretch.
pub open spec fn contains(text: Seq<char>, part: Seq<char>) -> bool {
    exists|i: int|
        0 <= i <= text.len() - part.len() && #[trigger] text.subrange(i, i + part.len()) == part
}

/// Both bodies of a confirmation email hold the same link, and the link ends
/// with the token.
pub proof fn lemma_email_carries_link(recipient: Seq<char>, base_url: Seq<char>, token: Seq<char>)
    ensures
        ({
            let link = confirmation_link(base_url, token);
            let email = confirmation_email(recipient, base_url, token);
            &&& contains(email.html_body, link)
            &&& contains(email.text_body, link)
            &&& contains(link, token)
            &&& link.subrange(link.len() - token.len(), link.len() as int) == token
        }),
{
    let link = confirmation_link(base_url, token);
    let email = confirmation_email(recipient, base_url, token);
    let html = "Welcome to our newsletter!<br />lick <a href=\""@.len() as int;
    let text = "Welcome to our newsletter!\nVisit "@.len() as int;
    let stem = link.len() - token.len();
    assert(email.html_body.subrange(html, html + link.len()) =~= link);
    assert(email.text_body.subrange(text, text + link.len()) =~= link);
    assert(link.subrange(stem, stem + token.len()) =~= token);
}

/// A valid form is onboarded. Where the store holds neither the id nor the
/// token that were drawn, onboarding leaves behind exactly one more
/// subscription, pending and with the name and the address of the form;
/// exactly one more token, issued to that subscription; and exactly one more
/// message handed to the outbox, addressed to the subscriber and carrying
/// the link for that token in both bodies. It succeeds unless the outbox
/// cannot reach the subscriber, and even then what was written stays.
pub proof fn lemma_valid_form_is_onboarded(
    store: StoreView,
    outbox: OutboxView,
    email: Seq<char>,
    name: Seq<char>,
    base_url: Seq<char>,
    id: SubscriptionId,
    now: Timestamp,
    token: Seq<char>,
)
    requires
        store.well_formed(),
        valid_form(email, name),
        !store.has_subscriber(id),
        !store.has_token(token),
    ensures
        ({
            let end = onboarding_result(
                store,
                outbox,
                OnboardingView::planned(email, name, base_url, id, now, token),
            );
            let row = pending_subscription(id, email, name, now);
            let issued = SubscriptionTokenView { subscription_token: token, subscriber_id: id };
            let message = confirmation_email(email, base_url, token);
            &&& end.store.subscriptions == store.subscriptions.push(row)
            &&& row.status == SubscriptionStatus::PendingConfirmation
            &&& end.store.tokens == store.tokens.push(issued)
            &&& end.store.well_formed()
            &&& end.outbox.attempts == outbox.attempts.push(message)
            &&& contains(message.html_body, confirmation_link(base_url, token))
            &&& contains(message.text_body, confirmation_link(base_url, token))
            &&& contains(confirmation_link(base_url, token), token)
            &&& end.error is None <==> !outbox.refuses(email)
        }),
{
    lemma_email_carries_link(email, base_url, token);
    let row = pending_subscription(id, email, name, now);
    let issued = SubscriptionTokenView { subscription_token: token, subscriber_id: id };
    let grown = store.with_subscription(row);
    let end = grown.with_token(issued);
    lemma_added_is_there(store, row);
    assert forall|i: int| 0 <= i < end.tokens.len() implies end.has_subscriber(
        (#[trigger] end.tokens[i]).subscriber_id,
    ) by {
        let owner = end.tokens[i].subscriber_id;
        if i < store.tokens.len() {
            assert(store.has_subscriber(store.tokens[i].subscriber_id));
            let k = choose|k: int|
                0 <= k < store.subscriptions.len() && (#[trigger] store.subscriptions[k]).id
                    == owner;
            assert(end.subscriptions[k].id == owner);
        } else {
            assert(end.subscriptions[store.subscriptions.len() as int].id == owner);
        }
    }
    assert forall|i: int, j: int| 0 <= i < j < end.subscriptions.len() implies (
    #[trigger] end.subscriptions[i]).id != (#[trigger] end.subscriptions[j]).id by {
        if j == store.subscriptions.len() {
            assert(store.subscriptions[i].id != id);
        }
    }
    assert forall|i: int, j: int| 0 <= i < j < end.tokens.len() implies (
    #[trigger] end.tokens[i]).subscription_token != (
    #[trigger] end.tokens[j]).subscription_token by {
        if j == store.tokens.len() {
            assert(store.tokens[i].subscription_token != token);
        }
    }
}

/// A failure between the two writes leaves nothing behind. Where the
/// subscription could be inserted and the token could not be stored,
/// because it was issued before, the store and the outbox are what they
/// were: no subscription, no token, no message.
pub proof fn lemma_failed_token_leaves_nothing(
    store: StoreView,
    outbox: OutboxView,
    plan: OnboardingView,
)
    requires
        !store.has_subscriber(plan.subscription.id),
        store.has_token(plan.token.subscription_token),
    ensures
        onboarding_result(store, outbox, plan).store == store,
        onboarding_result(store, outbox, plan).outbox == outbox,
        onboarding_result(store, outbox, plan).error is Some,
{
}

/// No write is committed unless both have succeeded, whatever store the
/// machine is driven against: when either write fails, the next work asked
/// for is a rollback, and after the rollback onboarding has ended in
/// failure, with no commit and no email in between.
pub proof fn lemma_failed_write_is_rolled_back(
    flow: OnboardingView,
    cause: ErrorChainView,
    rollback: OutcomeView,
)
    requires
        flow.stage == SubscribeStage::InsertingSubscriber || flow.stage
            == SubscribeStage::StoringToken,
    ensures
        flow.step(OutcomeView::Failed(cause)).action() == SubscribeActionView::Rollback,
        flow.step(OutcomeView::Failed(cause)).step(rollback).stage == SubscribeStage::Done,
        flow.step(OutcomeView::Failed(cause)).step(rollback).error is Some,
{
}

} // verus!
