//! Broadcast: one issue of the newsletter to every confirmed subscriber.

use crate::domain::subscriber_email::{invalid_email_message, valid_email, SubscriberEmail};
use crate::email_client::{undeliverable_message, Email, EmailView, Outbox, OutboxView};
use crate::error::{internal_error, internal_error_message, ErrorChain, ErrorChainView};
use crate::store::{
    confirmed_emails_of, texts, StoreView, SubscriptionStatus, SubscriptionStore, SubscriptionView,
};
use vstd::prelude::*;
use vstd::string::*;

verus! {

/// One issue of the newsletter, as it is submitted for publication.
#[derive(Debug)]
pub struct BodyData {
    pub title: String,
    pub content: Content,
}

/// The content of an issue, as HTML and as plain text.
#[derive(Debug)]
pub struct Content {
    pub html: String,
    pub text: String,
}

/// An issue as a mathematical value.
pub struct IssueView {
    pub title: Seq<char>,
    pub html: Seq<char>,
    pub text: Seq<char>,
}

impl View for BodyData {
    type V = IssueView;

    open spec fn view(&self) -> IssueView {
        IssueView { title: self.title@, html: self.content.html@, text: self.content.text@ }
    }
}

/// Why a broadcast failed.
#[derive(Debug)]
pub enum PublishError {
    /// The store or the mail transport failed.
    UnexpectedError(ErrorChain),
}

impl View for PublishError {
    type V = ErrorChainView;

    open spec fn view(&self) -> ErrorChainView {
        match *self {
            PublishError::UnexpectedError(chain) => chain@,
        }
    }
}

impl PublishError {
    /// The HTTP status that answers a request failing with this error.
    pub fn status_code(&self) -> (code: u16)
        ensures
            code == 500,
    {
        match self {
            PublishError::UnexpectedError(_) => 500,
        }
    }

    /// What may be told to whoever asked for the broadcast: no more than
    /// that something went wrong.
    pub fn public_message(&self) -> (message: String)
        ensures
            message@ == internal_error_message(),
    {
        internal_error()
    }

    /// The failure with its causes.
    pub fn chain(&self) -> (chain: ErrorChain)
        ensures
            chain@ == self@,
    {
        match self {
            PublishError::UnexpectedError(chain) => chain.clone(),
        }
    }

    /// The message of the failure itself, without its causes.
    pub fn to_string(&self) -> (message: String)
        ensures
            message@ == self@.message,
    {
        match self {
            PublishError::UnexpectedError(chain) => chain.message.clone(),
        }
    }

    /// A copy of this error.
    pub fn clone(&self) -> (copy: PublishError)
        ensures
            copy@ == self@,
    {
        match self {
            PublishError::UnexpectedError(chain) => PublishError::UnexpectedError(chain.clone()),
        }
    }
}

/// A subscriber who has confirmed, and whose stored address is valid.
#[derive(Debug)]
pub struct ConfirmedSubscriber {
    pub email: SubscriberEmail,
}

/// The addresses of `subscribers`, in order.
pub open spec fn addresses(subscribers: Seq<ConfirmedSubscriber>) -> Seq<Seq<char>> {
    Seq::new(subscribers.len(), |i: int| subscribers[i].email@)
}

/// The valid addresses among `rows`, in order.
pub open spec fn valid_addresses(rows: Seq<Seq<char>>) -> Seq<Seq<char>>
    decreases rows.len(),
{
    if rows.len() == 0 {
        Seq::empty()
    } else if valid_email(rows.last()) {
        valid_addresses(rows.drop_last()).push(rows.last())
    } else {
        valid_addresses(rows.drop_last())
    }
}

/// The addresses among `rows` that are not valid, in order.
pub open spec fn invalid_addresses(rows: Seq<Seq<char>>) -> Seq<Seq<char>>
    decreases rows.len(),
{
    if rows.len() == 0 {
        Seq::empty()
    } else if valid_email(rows.last()) {
        invalid_addresses(rows.drop_last())
    } else {
        invalid_addresses(rows.drop_last()).push(rows.last())
    }
}

/// Parts the stored addresses into the recipients of a broadcast and the
/// addresses that are skipped because they are not valid. Both keep the
/// order of `rows`, and every row is in exactly one of them.
pub fn sort_addresses(rows: Vec<String>) -> (sorted: (Vec<ConfirmedSubscriber>, Vec<String>))
    ensures
        addresses(sorted.0@) == valid_addresses(texts(rows@)),
        texts(sorted.1@) == invalid_addresses(texts(rows@)),
{
    let mut subscribers: Vec<ConfirmedSubscriber> = Vec::new();
    let mut skipped: Vec<String> = Vec::new();
    let ghost all = texts(rows@);
    let mut i: usize = 0;
    assert(all.take(0) =~= Seq::<Seq<char>>::empty());
    while i < rows.len()
        invariant
            i <= rows.len(),
            all == texts(rows@),
            addresses(subscribers@) == valid_addresses(all.take(i as int)),
            texts(skipped@) == invalid_addresses(all.take(i as int)),
        decreases rows.len() - i,
    {
        proof {
            assert(all.take(i + 1).drop_last() =~= all.take(i as int));
            assert(all.take(i + 1).last() == rows[i as int]@);
        }
        let ghost accepted = addresses(subscribers@);
        let ghost refused = texts(skipped@);
        match SubscriberEmail::parse(rows[i].clone()) {
            Ok(email) => {
                subscribers.push(ConfirmedSubscriber { email });
                assert(addresses(subscribers@) =~= accepted.push(rows[i as int]@));
            },
            Err(_) => {
                skipped.push(rows[i].clone());
                assert(texts(skipped@) =~= refused.push(rows[i as int]@));
            },
        }
        i = i + 1;
    }
    assert(all.take(i as int) =~= all);
    (subscribers, skipped)
}

/// The recipients of a broadcast, from the addresses that the store holds
/// for its confirmed subscribers. A stored address that is not valid is left
/// out; it never stops the broadcast.
pub fn get_confirmed_subscribers(rows: Vec<String>) -> (subscribers: Vec<ConfirmedSubscriber>)
    ensures
        addresses(subscribers@) == valid_addresses(texts(rows@)),
{
    sort_addresses(rows).0
}

/// The warning that goes into the log for a stored address that is skipped.
pub open spec fn skipped_address_warning(address: Seq<char>) -> Seq<char> {
    "A confirmed subscriber is using an invalid email address.\n"@ + invalid_email_message(address)
        + "."@
}

/// Writes the warning for a stored address that is skipped.
pub fn invalid_address_warning(address: &str) -> (warning: String)
    ensures
        warning@ == skipped_address_warning(address@),
{
    let mut warning = String::from_str(
        "A confirmed subscriber is using an invalid email address.\n",
    );
    warning.append(address);
    warning.append(" is not a valid subscriber email.");
    warning.append(".");
    warning
}

/// The issue as a message to `recipient`.
pub open spec fn newsletter_email(recipient: Seq<char>, issue: IssueView) -> EmailView {
    EmailView { recipient, subject: issue.title, html_body: issue.html, text_body: issue.text }
}

/// Said when the issue could not be delivered to `recipient`.
pub open spec fn delivery_failed(recipient: Seq<char>) -> Seq<char> {
    "Failed to send newsletter to "@ + recipient
}

/// What a broadcast leaves behind: the outbox, and the failure if there was
/// one.
pub struct BroadcastResult {
    pub outbox: OutboxView,
    pub error: Option<ErrorChainView>,
}

/// What the broadcast of `issue` to `recipients`, in this order, makes of
/// `outbox`.
///
/// The issue is handed over for one recipient after the other. The first
/// recipient who cannot be reached ends the broadcast: the failure names
/// that recipient, and nothing is handed over for those who come after.
pub open spec fn broadcast_result(
    outbox: OutboxView,
    recipients: Seq<Seq<char>>,
    issue: IssueView,
) -> BroadcastResult
    decreases recipients.len(),
{
    if recipients.len() == 0 {
        BroadcastResult { outbox, error: None }
    } else {
        let first = recipients.first();
        let attempted = outbox.with_attempt(newsletter_email(first, issue));
        if outbox.refuses(first) {
            BroadcastResult {
                outbox: attempted,
                error: Some(
                    ErrorChainView::root(undeliverable_message()).context(delivery_failed(first)),
                ),
            }
        } else {
            broadcast_result(attempted, recipients.drop_first(), issue)
        }
    }
}

/// Where a broadcast stands: which piece of outside work it waits for.
#[derive(Clone, Copy, Debug, PartialEq, Eq, Structural)]
pub enum PublishStage {
    Loading,
    Sending,
    Done,
}

/// The outside work that a broadcast asks for.
#[derive(Debug)]
pub enum PublishAction {
    /// Read the addresses of all confirmed subscriptions from the store.
    ListConfirmedSubscribers,
    /// Send this message.
    SendEmail(Email),
    /// Nothing more: the broadcast has ended, with this result.
    Done(Result<(), PublishError>),
}

/// A [`PublishAction`] as a mathematical value.
pub enum PublishActionView {
    ListConfirmedSubscribers,
    SendEmail(EmailView),
    Done(Option<ErrorChainView>),
}

/// The failure in `result`, if it holds one.
pub open spec fn publish_result_view(result: Result<(), PublishError>) -> Option<ErrorChainView> {
    match result {
        Ok(()) => None,
        Err(e) => Some(e@),
    }
}

impl View for PublishAction {
    type V = PublishActionView;

    open spec fn view(&self) -> PublishActionView {
        match *self {
            PublishAction::ListConfirmedSubscribers => PublishActionView::ListConfirmedSubscribers,
            PublishAction::SendEmail(email) => PublishActionView::SendEmail(email@),
            PublishAction::Done(result) => PublishActionView::Done(publish_result_view(result)),
        }
    }
}

/// What came back from the work that a broadcast asked for.
#[derive(Debug)]
pub enum PublishReply {
    /// The answer to `ListConfirmedSubscribers`: the stored addresses.
    Subscribers(Vec<String>),
    /// The answer to `SendEmail`: the message was accepted.
    Sent,
    /// The work failed, for the reason given.
    Failed(ErrorChain),
}

/// A [`PublishReply`] as a mathematical value.
pub enum PublishReplyView {
    Subscribers(Seq<Seq<char>>),
    Sent,
    Failed(ErrorChainView),
}

impl View for PublishReply {
    type V = PublishReplyView;

    open spec fn view(&self) -> PublishReplyView {
        match *self {
            PublishReply::Subscribers(rows) => PublishReplyView::Subscribers(texts(rows@)),
            PublishReply::Sent => PublishReplyView::Sent,
            PublishReply::Failed(cause) => PublishReplyView::Failed(cause@),
        }
    }
}

/// Said when an answer does not fit the work that was asked for.
pub open spec fn out_of_turn() -> Seq<char> {
    "The answer does not fit the work that was asked for."@
}

/// A broadcast under way, as a mathematical value.
pub struct BroadcastView {
    pub stage: PublishStage,
    pub issue: IssueView,
    /// The recipients, once they are known.
    pub recipients: Seq<Seq<char>>,
    /// The stored addresses that were skipped because they are not valid,
    /// once they are known.
    pub skipped: Seq<Seq<char>>,
    /// How many recipients have had the issue handed over and accepted.
    pub sent: nat,
    /// Why the broadcast failed, once it has.
    pub error: Option<ErrorChainView>,
}

impl BroadcastView {
    /// The broadcast of `issue` at its start.
    pub open spec fn begun(issue: IssueView) -> BroadcastView {
        BroadcastView {
            stage: PublishStage::Loading,
            issue,
            recipients: Seq::empty(),
            skipped: Seq::empty(),
            sent: 0,
            error: None,
        }
    }

    /// While sending, there is a recipient whose turn it is.
    pub open spec fn well_formed(self) -> bool {
        self.stage == PublishStage::Sending ==> self.sent < self.recipients.len()
    }

    /// The outside work that is asked for at this stage.
    pub open spec fn action(self) -> PublishActionView {
        match self.stage {
            PublishStage::Loading => PublishActionView::ListConfirmedSubscribers,
            PublishStage::Sending => PublishActionView::SendEmail(
                newsletter_email(self.recipients[self.sent as int], self.issue),
            ),
            PublishStage::Done => PublishActionView::Done(self.error),
        }
    }

    /// The broadcast ended, with `error` if it failed.
    pub open spec fn ended(self, error: Option<ErrorChainView>) -> BroadcastView {
        BroadcastView { stage: PublishStage::Done, error, ..self }
    }

    /// The broadcast with `sent` recipients served: at its end if that is
    /// all of them, else waiting to send to the next.
    pub open spec fn served(self, sent: nat) -> BroadcastView {
        BroadcastView {
            stage: if sent < self.recipients.len() {
                PublishStage::Sending
            } else {
                PublishStage::Done
            },
            sent,
            ..self
        }
    }

    /// Where the broadcast stands once `reply` has come back.
    ///
    /// The stored addresses become the recipients, without those that are
    /// not valid; those are kept aside as skipped. Each accepted message moves on to the next recipient; the
    /// first failure ends the broadcast and names the recipient it was for.
    pub open spec fn step(self, reply: PublishReplyView) -> BroadcastView {
        match (self.stage, reply) {
            (PublishStage::Loading, PublishReplyView::Subscribers(rows)) => BroadcastView {
                recipients: valid_addresses(rows),
                skipped: invalid_addresses(rows),
                ..self
            }.served(0),
            (PublishStage::Loading, PublishReplyView::Failed(cause)) => self.ended(Some(cause)),
            (PublishStage::Sending, PublishReplyView::Sent) => self.served(self.sent + 1),
            (PublishStage::Sending, PublishReplyView::Failed(cause)) => self.ended(
                Some(cause.context(delivery_failed(self.recipients[self.sent as int]))),
            ),
            (PublishStage::Done, _) => self,
            _ => self.ended(Some(ErrorChainView::root(out_of_turn()))),
        }
    }

    /// An upper bound on the pieces of outside work still to come.
    pub open spec fn steps_left(self) -> nat {
        match self.stage {
            PublishStage::Loading => self.recipients.len() + 2,
            PublishStage::Sending => (self.recipients.len() - self.sent) as nat,
            PublishStage::Done => 0,
        }
    }
}

/// The broadcast of one issue, under way.
///
/// [`Broadcast::action`] names the outside work to do next;
/// [`Broadcast::step`] takes what came back.
#[derive(Debug)]
pub struct Broadcast {
    stage: PublishStage,
    title: String,
    html: String,
    text: String,
    recipients: Vec<ConfirmedSubscriber>,
    skipped: Vec<String>,
    sent: usize,
    error: Option<PublishError>,
}

impl View for Broadcast {
    type V = BroadcastView;

    closed spec fn view(&self) -> BroadcastView {
        BroadcastView {
            stage: self.stage,
            issue: IssueView { title: self.title@, html: self.html@, text: self.text@ },
            recipients: addresses(self.recipients@),
            skipped: texts(self.skipped@),
            sent: self.sent as nat,
            error: match self.error {
                Some(e) => Some(e@),
                None => None,
            },
        }
    }
}

impl Broadcast {
    #[verifier::type_invariant]
    spec fn in_turn(self) -> bool {
        self@.well_formed()
    }

    /// Begins the broadcast of `body`.
    pub fn start(body: &BodyData) -> (flow: Broadcast)
        ensures
            flow@ == BroadcastView::begun(body@),
    {
        let flow = Broadcast {
            stage: PublishStage::Loading,
            title: body.title.clone(),
            html: body.content.html.clone(),
            text: body.content.text.clone(),
            recipients: Vec::new(),
            skipped: Vec::new(),
            sent: 0,
            error: None,
        };
        assert(flow@.recipients =~= Seq::empty());
        assert(flow@.skipped =~= Seq::empty());
        flow
    }

    /// The stored addresses that were skipped because they are not valid, in
    /// table order: none before the addresses have been read. They are
    /// handed out to be logged; the broadcast goes on without them.
    pub fn skipped(&self) -> (rows: &Vec<String>)
        ensures
            texts(rows@) == self@.skipped,
    {
        &self.skipped
    }

    /// The outside work to do next.
    pub fn action(&self) -> (action: PublishAction)
        ensures
            action@ == self@.action(),
            self@.well_formed(),
    {
        proof {
            use_type_invariant(self);
        }
        match self.stage {
            PublishStage::Loading => PublishAction::ListConfirmedSubscribers,
            PublishStage::Sending => PublishAction::SendEmail(
                Email {
                    recipient: self.recipients[self.sent].email.clone(),
                    subject: self.title.clone(),
                    html_body: self.html.clone(),
                    text_body: self.text.clone(),
                },
            ),
            PublishStage::Done => PublishAction::Done(
                match &self.error {
                    Some(e) => Err(e.clone()),
                    None => Ok(()),
                },
            ),
        }
    }

    /// Takes what came back from the work named by [`Broadcast::action`],
    /// and moves on.
    pub fn step(self, reply: PublishReply) -> (next: Broadcast)
        ensures
            next@ == self@.step(reply@),
            next@.well_formed(),
            self@.stage == PublishStage::Sending ==> next@.steps_left() < self@.steps_left(),
    {
        proof {
            use_type_invariant(&self);
        }
        match (self.stage, reply) {
            (PublishStage::Loading, PublishReply::Subscribers(rows)) => {
                let (recipients, skipped) = sort_addresses(rows);
                let stage = if recipients.len() > 0 {
                    PublishStage::Sending
                } else {
                    PublishStage::Done
                };
                Broadcast {
                    stage,
                    title: self.title,
                    html: self.html,
                    text: self.text,
                    recipients,
                    skipped,
                    sent: 0,
                    error: self.error,
                }
            },
            (PublishStage::Loading, PublishReply::Failed(cause)) => Broadcast {
                stage: PublishStage::Done,
                title: self.title,
                html: self.html,
                text: self.text,
                recipients: self.recipients,
                skipped: self.skipped,
                sent: self.sent,
                error: Some(PublishError::UnexpectedError(cause)),
            },
            (PublishStage::Sending, PublishReply::Sent) => {
                assert(self.sent < self.recipients.len());
                let sent = self.sent + 1;
                let stage = if sent < self.recipients.len() {
                    PublishStage::Sending
                } else {
                    PublishStage::Done
                };
                Broadcast {
                    stage,
                    title: self.title,
                    html: self.html,
                    text: self.text,
                    recipients: self.recipients,
                    skipped: self.skipped,
                    sent,
                    error: self.error,
                }
            },
            (PublishStage::Sending, PublishReply::Failed(cause)) => {
                let mut context = String::from_str("Failed to send newsletter to ");
                context.append(self.recipients[self.sent].email.as_ref());
                Broadcast {
                    stage: PublishStage::Done,
                    title: self.title,
                    html: self.html,
                    text: self.text,
                    recipients: self.recipients,
                    skipped: self.skipped,
                    sent: self.sent,
                    error: Some(PublishError::UnexpectedError(cause.context(context.as_str()))),
                }
            },
            (PublishStage::Done, _) => self,
            _ => Broadcast {
                stage: PublishStage::Done,
                title: self.title,
                html: self.html,
                text: self.text,
                recipients: self.recipients,
                skipped: self.skipped,
                sent: self.sent,
                error: Some(
                    PublishError::UnexpectedError(
                        ErrorChain::new("The answer does not fit the work that was asked for."),
                    ),
                ),
            },
        }
    }
}

/// What holds between the stage of a broadcast and the state of the outbox,
/// when the broadcast is to reach `recipients` and began on `outbox`.
spec fn on_course(
    flow: BroadcastView,
    now: OutboxView,
    recipients: Seq<Seq<char>>,
    outbox: OutboxView,
) -> bool {
    let end = broadcast_result(outbox, recipients, flow.issue);
    match flow.stage {
        PublishStage::Loading => now == outbox && flow.error is None,
        PublishStage::Sending => {
            &&& flow.recipients == recipients
            &&& flow.sent < recipients.len()
            &&& flow.error is None
            &&& broadcast_result(now, recipients.skip(flow.sent as int), flow.issue) == end
        },
        PublishStage::Done => now == end.outbox && flow.error == end.error,
    }
}

/// Sends the issue `body` to every confirmed subscriber in `store` whose
/// stored address is valid, one after the other in table order.
///
/// The first recipient whom the outbox cannot reach ends the broadcast with
/// a failure that names that recipient; those before have had the issue
/// handed over, those after have not. With no confirmed subscriber nothing
/// is sent, and the broadcast succeeds.
pub fn publish_newsletter(body: &BodyData, store: &SubscriptionStore, outbox: &mut Outbox) -> (r:
    Result<(), PublishError>)
    ensures
        ({
            let recipients = valid_addresses(store@.confirmed_emails());
            let end = broadcast_result(old(outbox)@, recipients, body@);
            &&& final(outbox)@ == end.outbox
            &&& publish_result_view(r) == end.error
        }),
{
    let ghost outbox0 = outbox@;
    let ghost recipients = valid_addresses(store@.confirmed_emails());
    let mut flow = Broadcast::start(body);
    loop
        invariant
            outbox0 == old(outbox)@,
            recipients == valid_addresses(store@.confirmed_emails()),
            flow@.issue == body@,
            flow@.well_formed(),
            on_course(flow@, outbox@, recipients, outbox0),
        decreases
                (if flow@.stage == PublishStage::Loading {
                    1nat
                } else {
                    0nat
                }),
                flow@.steps_left(),
    {
        let ghost before = flow@;
        let ghost had = outbox@;
        let reply = match flow.action() {
            PublishAction::Done(result) => {
                return result;
            },
            PublishAction::ListConfirmedSubscribers => PublishReply::Subscribers(
                store.list_confirmed_subscribers(),
            ),
            PublishAction::SendEmail(email) => match outbox.send_email(email) {
                Ok(()) => PublishReply::Sent,
                Err(e) => {
                    assert(e@ == ErrorChainView::root(undeliverable_message())) by {
                        assert(e@.causes =~= Seq::empty());
                    }
                    PublishReply::Failed(e)
                },
            },
        };
        proof {
            if before.stage == PublishStage::Sending {
                let rest = recipients.skip(before.sent as int);
                assert(rest.first() == recipients[before.sent as int]);
                assert(rest.drop_first() =~= recipients.skip(before.sent as int + 1));
            } else if before.stage == PublishStage::Loading {
                assert(recipients.skip(0) =~= recipients);
            }
        }
        flow = flow.step(reply);
    }
}

/// The issue as a message to each of `recipients`, in order.
pub open spec fn issue_emails(recipients: Seq<Seq<char>>, issue: IssueView) -> Seq<EmailView> {
    Seq::new(recipients.len(), |i: int| newsletter_email(recipients[i], issue))
}

/// A broadcast from a store in which nobody is confirmed has no recipient:
/// it hands nothing to the outbox, and succeeds.
pub proof fn lemma_nobody_confirmed_nothing_sent(
    store: StoreView,
    outbox: OutboxView,
    issue: IssueView,
)
    requires
        forall|i: int|
            0 <= i < store.subscriptions.len() ==> (#[trigger] store.subscriptions[i]).status
                != SubscriptionStatus::Confirmed,
    ensures
        broadcast_result(outbox, valid_addresses(store.confirmed_emails()), issue) == (
        BroadcastResult { outbox, error: None }),
{
    lemma_nobody_confirmed(store.subscriptions);
}

/// Rows of which none is confirmed yield no address.
proof fn lemma_nobody_confirmed(rows: Seq<SubscriptionView>)
    requires
        forall|i: int|
            0 <= i < rows.len() ==> (#[trigger] rows[i]).status != SubscriptionStatus::Confirmed,
    ensures
        confirmed_emails_of(rows).len() == 0,
    decreases rows.len(),
{
    if rows.len() > 0 {
        assert(rows.last().status != SubscriptionStatus::Confirmed);
        assert forall|i: int| 0 <= i < rows.drop_last().len() implies (
        #[trigger] rows.drop_last()[i]).status != SubscriptionStatus::Confirmed by {
            assert(rows.drop_last()[i] == rows[i]);
        }
        lemma_nobody_confirmed(rows.drop_last());
    }
}

/// Where every recipient can be reached, the issue is handed over once for
/// each of them, in order, and the broadcast succeeds.
pub proof fn lemma_broadcast_reaches_everyone(
    outbox: OutboxView,
    recipients: Seq<Seq<char>>,
    issue: IssueView,
)
    requires
        forall|i: int| 0 <= i < recipients.len() ==> !outbox.refuses(#[trigger] recipients[i]),
    ensures
        broadcast_result(outbox, recipients, issue) == (BroadcastResult {
            outbox: OutboxView {
                attempts: outbox.attempts + issue_emails(recipients, issue),
                unreachable: outbox.unreachable,
            },
            error: None,
        }),
    decreases recipients.len(),
{
    if recipients.len() == 0 {
        assert(outbox.attempts + issue_emails(recipients, issue) =~= outbox.attempts);
    } else {
        let first = recipients.first();
        let rest = recipients.drop_first();
        let attempted = outbox.with_attempt(newsletter_email(first, issue));
        assert forall|i: int| 0 <= i < rest.len() implies !attempted.refuses(
            #[trigger] rest[i],
        ) by {
            assert(rest[i] == recipients[i + 1]);
        }
        lemma_broadcast_reaches_everyone(attempted, rest, issue);
        assert(attempted.attempts + issue_emails(rest, issue) =~= outbox.attempts + issue_emails(
            recipients,
            issue,
        ));
    }
}

/// Where the recipient at position `k` is the first who cannot be reached,
/// the issue is handed over for the recipients up to and including `k`, in
/// order, and for nobody after; the broadcast fails, and the failure names
/// the recipient at `k`.
pub proof fn lemma_broadcast_stops_at_first_failure(
    outbox: OutboxView,
    recipients: Seq<Seq<char>>,
    issue: IssueView,
    k: int,
)
    requires
        0 <= k < recipients.len(),
        forall|i: int| 0 <= i < k ==> !outbox.refuses(#[trigger] recipients[i]),
        outbox.refuses(recipients[k]),
    ensures
        broadcast_result(outbox, recipients, issue) == (BroadcastResult {
            outbox: OutboxView {
                attempts: outbox.attempts + issue_emails(recipients.take(k + 1), issue),
                unreachable: outbox.unreachable,
            },
            error: Some(
                ErrorChainView::root(undeliverable_message()).context(
                    delivery_failed(recipients[k]),
                ),
            ),
        }),
    decreases k,
{
    let first = recipients.first();
    let rest = recipients.drop_first();
    let attempted = outbox.with_attempt(newsletter_email(first, issue));
    if k == 0 {
        assert(outbox.attempts + issue_emails(recipients.take(1), issue) =~= attempted.attempts);
    } else {
        assert(!outbox.refuses(recipients[0]));
        assert forall|i: int| 0 <= i < k - 1 implies !attempted.refuses(#[trigger] rest[i]) by {
            assert(rest[i] == recipients[i + 1]);
        }
        assert(rest[k - 1] == recipients[k]);
        lemma_broadcast_stops_at_first_failure(attempted, rest, issue, k - 1);
        assert(attempted.attempts + issue_emails(rest.take(k), issue) =~= outbox.attempts
            + issue_emails(recipients.take(k + 1), issue));
    }
}

} // verus!
