//! Confirmation: from the token in a confirmation link to a confirmed
//! subscription.

use crate::error::{ErrorChain, ErrorChainView};
use crate::store::{
    ConfirmationError, ConfirmationErrorView, StoreView, SubscriptionId, SubscriptionStore,
};
use vstd::prelude::*;
use vstd::string::*;

verus! {

/// The query of a confirmation link.
#[derive(Debug)]
pub struct Parameters {
    pub subscription_token: String,
}

/// Where a confirmation stands: which piece of outside work it waits for.
#[derive(Clone, Copy, Debug, PartialEq, Eq, Structural)]
pub enum ConfirmStage {
    LookingUp,
    Marking,
    Done,
}

/// The outside work that a confirmation asks for.
#[derive(Debug)]
pub enum ConfirmAction {
    /// Look up the subscriber to whom this token was issued.
    FindSubscriber(String),
    /// Set the status of this subscription to `confirmed`.
    MarkConfirmed(SubscriptionId),
    /// Nothing more: the confirmation has ended, with this result.
    Done(Result<(), ConfirmationError>),
}

/// A [`ConfirmAction`] as a mathematical value.
pub enum ConfirmActionView {
    FindSubscriber(Seq<char>),
    MarkConfirmed(SubscriptionId),
    Done(Option<ConfirmationErrorView>),
}

/// The failure in `result`, if it holds one.
pub open spec fn confirm_result_view(result: Result<(), ConfirmationError>) -> Option<
    ConfirmationErrorView,
> {
    match result {
        Ok(()) => None,
        Err(e) => Some(e@),
    }
}

impl View for ConfirmAction {
    type V = ConfirmActionView;

    open spec fn view(&self) -> ConfirmActionView {
        match *self {
            ConfirmAction::FindSubscriber(token) => ConfirmActionView::FindSubscriber(token@),
            ConfirmAction::MarkConfirmed(id) => ConfirmActionView::MarkConfirmed(id),
            ConfirmAction::Done(result) => ConfirmActionView::Done(confirm_result_view(result)),
        }
    }
}

/// What the store answered to the work that a confirmation asked for.
#[derive(Debug)]
pub enum ConfirmReply {
    /// The answer to `FindSubscriber`: the owner of the token, if it has one.
    Subscriber(Option<SubscriptionId>),
    /// The answer to `MarkConfirmed`: the status is set.
    Updated,
    /// The store failed, for the reason given.
    Failed(ErrorChain),
}

/// A [`ConfirmReply`] as a mathematical value.
pub enum ConfirmReplyView {
    Subscriber(Option<SubscriptionId>),
    Updated,
    Failed(ErrorChainView),
}

impl View for ConfirmReply {
    type V = ConfirmReplyView;

    open spec fn view(&self) -> ConfirmReplyView {
        match *self {
            ConfirmReply::Subscriber(owner) => ConfirmReplyView::Subscriber(owner),
            ConfirmReply::Updated => ConfirmReplyView::Updated,
            ConfirmReply::Failed(cause) => ConfirmReplyView::Failed(cause@),
        }
    }
}

/// Said when the token could not be looked up.
pub open spec fn lookup_failed() -> Seq<char> {
    "Failed to look up the subscriber of a subscription token."@
}

/// Said when the status could not be set.
pub open spec fn update_failed() -> Seq<char> {
    "Failed to mark the subscriber as confirmed."@
}

/// Said when an answer does not fit the work that was asked for.
pub open spec fn out_of_turn() -> Seq<char> {
    "The answer does not fit the work that was asked for."@
}

/// A confirmation under way, as a mathematical value.
pub struct ConfirmationView {
    pub stage: ConfirmStage,
    /// The token that came with the link.
    pub token: Seq<char>,
    /// The owner of the token, once it is known.
    pub subscriber: Option<SubscriptionId>,
    /// Why the confirmation failed, once it has.
    pub error: Option<ConfirmationErrorView>,
}

impl ConfirmationView {
    /// The confirmation of `token` at its start.
    pub open spec fn begun(token: Seq<char>) -> ConfirmationView {
        ConfirmationView { stage: ConfirmStage::LookingUp, token, subscriber: None, error: None }
    }

    /// The outside work that is asked for at this stage.
    pub open spec fn action(self) -> ConfirmActionView {
        match (self.stage, self.subscriber) {
            (ConfirmStage::LookingUp, _) => ConfirmActionView::FindSubscriber(self.token),
            (ConfirmStage::Marking, Some(id)) => ConfirmActionView::MarkConfirmed(id),
            _ => ConfirmActionView::Done(self.error),
        }
    }

    /// The confirmation ended, with `error` if it failed.
    pub open spec fn ended(self, error: Option<ConfirmationErrorView>) -> ConfirmationView {
        ConfirmationView { stage: ConfirmStage::Done, error, ..self }
    }

    /// Where the confirmation stands once the store has answered `reply`.
    ///
    /// A token without an owner ends it with `TokenNotFound`, whatever was
    /// wrong with the token. A token with an owner has that subscription
    /// marked, and only that one.
    pub open spec fn step(self, reply: ConfirmReplyView) -> ConfirmationView {
        match (self.stage, reply) {
            (ConfirmStage::LookingUp, ConfirmReplyView::Subscriber(Some(id))) => ConfirmationView {
                stage: ConfirmStage::Marking,
                subscriber: Some(id),
                ..self
            },
            (ConfirmStage::LookingUp, ConfirmReplyView::Subscriber(None)) => self.ended(
                Some(ConfirmationErrorView::TokenNotFound),
            ),
            (ConfirmStage::LookingUp, ConfirmReplyView::Failed(cause)) => self.ended(
                Some(ConfirmationErrorView::UnexpectedError(cause.context(lookup_failed()))),
            ),
            (ConfirmStage::Marking, ConfirmReplyView::Updated) => self.ended(None),
            (ConfirmStage::Marking, ConfirmReplyView::Failed(cause)) => self.ended(
                Some(ConfirmationErrorView::UnexpectedError(cause.context(update_failed()))),
            ),
            (ConfirmStage::Done, _) => self,
            _ => self.ended(
                Some(ConfirmationErrorView::UnexpectedError(ErrorChainView::root(out_of_turn()))),
            ),
        }
    }

    /// An upper bound on the pieces of outside work still to come.
    pub open spec fn steps_left(self) -> nat {
        match self.stage {
            ConfirmStage::LookingUp => 2,
            ConfirmStage::Marking => 1,
            ConfirmStage::Done => 0,
        }
    }
}

/// The confirmation of one token, under way.
///
/// [`Confirmation::action`] names the outside work to do next;
/// [`Confirmation::step`] takes what the store answered.
#[derive(Debug)]
pub struct Confirmation {
    stage: ConfirmStage,
    token: String,
    subscriber: Option<SubscriptionId>,
    error: Option<ConfirmationError>,
}

impl View for Confirmation {
    type V = ConfirmationView;

    closed spec fn view(&self) -> ConfirmationView {
        ConfirmationView {
            stage: self.stage,
            token: self.token@,
            subscriber: self.subscriber,
            error: match self.error {
                Some(e) => Some(e@),
                None => None,
            },
        }
    }
}

impl Confirmation {
    /// Begins the confirmation of `token`.
    pub fn start(token: &str) -> (flow: Confirmation)
        ensures
            flow@ == ConfirmationView::begun(token@),
    {
        Confirmation {
            stage: ConfirmStage::LookingUp,
            token: String::from_str(token),
            subscriber: None,
            error: None,
        }
    }

    /// The outside work to do next.
    pub fn action(&self) -> (action: ConfirmAction)
        ensures
            action@ == self@.action(),
    {
        match (self.stage, self.subscriber) {
            (ConfirmStage::LookingUp, _) => ConfirmAction::FindSubscriber(self.token.clone()),
            (ConfirmStage::Marking, Some(id)) => ConfirmAction::MarkConfirmed(id),
            _ => ConfirmAction::Done(
                match &self.error {
                    Some(e) => Err(e.clone()),
                    None => Ok(()),
                },
            ),
        }
    }

    /// Takes what the store answered to the work named by
    /// [`Confirmation::action`], and moves on.
    pub fn step(self, reply: ConfirmReply) -> (next: Confirmation)
        ensures
            next@ == self@.step(reply@),
            self@.stage != ConfirmStage::Done ==> next@.steps_left() < self@.steps_left(),
    {
        let mut next = self;
        match next.stage {
            ConfirmStage::LookingUp => match reply {
                ConfirmReply::Subscriber(Some(id)) => {
                    next.stage = ConfirmStage::Marking;
                    next.subscriber = Some(id);
                },
                ConfirmReply::Subscriber(None) => {
                    next.stage = ConfirmStage::Done;
                    next.error = Some(ConfirmationError::TokenNotFound);
                },
                ConfirmReply::Failed(cause) => {
                    next.stage = ConfirmStage::Done;
                    next.error = Some(
                        ConfirmationError::UnexpectedError(
                            cause.context(
                                "Failed to look up the subscriber of a subscription token.",
                            ),
                        ),
                    );
                },
                ConfirmReply::Updated => {
                    next.stage = ConfirmStage::Done;
                    next.error = Some(
                        ConfirmationError::UnexpectedError(
                            ErrorChain::new("The answer does not fit the work that was asked for."),
                        ),
                    );
                },
            },
            ConfirmStage::Marking => match reply {
                ConfirmReply::Updated => {
                    next.stage = ConfirmStage::Done;
                    next.error = None;
                },
                ConfirmReply::Failed(cause) => {
                    next.stage = ConfirmStage::Done;
                    next.error = Some(
                        ConfirmationError::UnexpectedError(
                            cause.context("Failed to mark the subscriber as confirmed."),
                        ),
                    );
                },
                ConfirmReply::Subscriber(_) => {
                    next.stage = ConfirmStage::Done;
                    next.error = Some(
                        ConfirmationError::UnexpectedError(
                            ErrorChain::new("The answer does not fit the work that was asked for."),
                        ),
                    );
                },
            },
            ConfirmStage::Done => {},
        }
        next
    }
}

/// What holds between the stage of a confirmation and the state of the
/// store, when the confirmation of `token` began on `store`.
spec fn on_course(flow: ConfirmationView, now: StoreView, store: StoreView) -> bool {
    &&& now.well_formed()
    &&& match flow.stage {
        ConfirmStage::LookingUp => now == store && flow.error is None,
        ConfirmStage::Marking => {
            &&& now == store
            &&& store.has_token(flow.token)
            &&& flow.subscriber == Some(store.owner_of(flow.token))
            &&& flow.error is None
        },
        ConfirmStage::Done => if store.has_token(flow.token) {
            now == store.confirmed(store.owner_of(flow.token)) && flow.error is None
        } else {
            now == store && flow.error == Some(ConfirmationErrorView::TokenNotFound)
        },
    }
}

/// Confirms the subscription to which `token` was issued.
///
/// A token that was issued confirms its owner, and only its owner; the owner
/// stays confirmed however often the token is used after that. Any other
/// token changes nothing and is answered with `TokenNotFound`.
pub fn confirm(parameters: &Parameters, store: &mut SubscriptionStore) -> (r: Result<
    (),
    ConfirmationError,
>)
    requires
        old(store)@.well_formed(),
    ensures
        final(store)@.well_formed(),
        old(store)@.has_token(parameters.subscription_token@) ==> r is Ok && final(store)@ == old(
            store,
        )@.confirmed(old(store)@.owner_of(parameters.subscription_token@)),
        !old(store)@.has_token(parameters.subscription_token@) ==> final(store)@ == old(store)@
            && confirm_result_view(r) == Some(ConfirmationErrorView::TokenNotFound),
{
    let ghost store0 = store@;
    let ghost token = parameters.subscription_token@;
    let mut flow = Confirmation::start(parameters.subscription_token.as_str());
    loop
        invariant
            store0 == old(store)@,
            token == parameters.subscription_token@,
            flow@.token == token,
            on_course(flow@, store@, store0),
        decreases flow@.steps_left(),
    {
        let reply = match flow.action() {
            ConfirmAction::Done(result) => {
                return result;
            },
            ConfirmAction::FindSubscriber(wanted) => ConfirmReply::Subscriber(
                store.subscriber_id_for(wanted.as_str()),
            ),
            ConfirmAction::MarkConfirmed(id) => {
                store.mark_confirmed(id);
                ConfirmReply::Updated
            },
        };
        flow = flow.step(reply);
    }
}

} // verus!
