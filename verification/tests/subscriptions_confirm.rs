use zero2prod::email_client::Outbox;
use zero2prod::error::{error_chain_fmt, ErrorChain};
use zero2prod::routes::subscriptions::subscribe;
use zero2prod::routes::subscriptions_confirm::{
    confirm, ConfirmAction, ConfirmReply, Confirmation, Parameters,
};
use zero2prod::routes::SubscribeData;
use zero2prod::startup::ApplicationUrl;
use zero2prod::store::{ConfirmationError, SubscriptionId, SubscriptionStatus, SubscriptionStore};

fn subscribed(names: &[&str]) -> SubscriptionStore {
    let mut store = SubscriptionStore::new();
    let mut outbox = Outbox::new();
    for name in names {
        let form = SubscribeData { email: format!("{}@example.com", name), name: name.to_string() };
        subscribe(form, &mut store, &mut outbox, &ApplicationUrl("http://127.0.0.1".to_string()))
            .unwrap();
    }
    store
}

fn parameters(token: &str) -> Parameters {
    Parameters { subscription_token: token.to_string() }
}

#[test]
fn the_link_returned_by_subscribe_confirms_the_subscriber() {
    let mut store = subscribed(&["ursula", "octavia"]);
    let token = store.tokens()[1].subscription_token.clone();
    assert!(confirm(&parameters(&token), &mut store).is_ok());
    assert_eq!(store.subscriptions()[0].status, SubscriptionStatus::PendingConfirmation);
    assert_eq!(store.subscriptions()[1].status, SubscriptionStatus::Confirmed);
    assert_eq!(store.subscriptions()[1].email, "octavia@example.com");
    assert_eq!(store.subscriptions()[1].name, "octavia");
}

#[test]
fn confirming_a_second_time_succeeds_and_changes_nothing() {
    let mut store = subscribed(&["ursula"]);
    let token = store.tokens()[0].subscription_token.clone();
    assert!(confirm(&parameters(&token), &mut store).is_ok());
    assert!(confirm(&parameters(&token), &mut store).is_ok());
    assert_eq!(store.subscriptions().len(), 1);
    assert_eq!(store.subscriptions()[0].status, SubscriptionStatus::Confirmed);
    assert_eq!(store.tokens().len(), 1);
}

#[test]
fn confirmations_with_an_unknown_token_are_rejected_with_a_400() {
    let mut store = subscribed(&["ursula"]);
    for token in ["", "unknown", "ABCDEFGHIJKLMNOPQRSTUVWXY", "not a token at all !"] {
        let error = confirm(&parameters(token), &mut store).unwrap_err();
        assert!(matches!(error, ConfirmationError::TokenNotFound));
        assert_eq!(error.status_code(), 400);
        assert_eq!(error.public_message(), "There is no subscription for this token.");
        assert_eq!(
            error_chain_fmt(&error.chain()),
            "There is no subscription for this token.\n\n"
        );
    }
    assert_eq!(store.subscriptions()[0].status, SubscriptionStatus::PendingConfirmation);
    assert_eq!(store.tokens().len(), 1);
}

#[test]
fn the_confirmation_machine_looks_up_and_then_marks() {
    let flow = Confirmation::start("token");
    match flow.action() {
        ConfirmAction::FindSubscriber(token) => assert_eq!(token, "token"),
        other => panic!("{:?}", other),
    }
    let flow = flow.step(ConfirmReply::Subscriber(Some(SubscriptionId(3))));
    match flow.action() {
        ConfirmAction::MarkConfirmed(id) => assert_eq!(id, SubscriptionId(3)),
        other => panic!("{:?}", other),
    }
    let flow = flow.step(ConfirmReply::Updated);
    assert!(matches!(flow.action(), ConfirmAction::Done(Ok(()))));
    let flow = flow.step(ConfirmReply::Updated);
    assert!(matches!(flow.action(), ConfirmAction::Done(Ok(()))));
}

#[test]
fn the_confirmation_machine_ends_on_a_token_without_owner() {
    let flow = Confirmation::start("token").step(ConfirmReply::Subscriber(None));
    assert!(matches!(flow.action(), ConfirmAction::Done(Err(ConfirmationError::TokenNotFound))));
}

#[test]
fn the_confirmation_machine_reports_what_the_store_could_not_do() {
    let down = || ConfirmReply::Failed(ErrorChain::new("connection reset"));
    let flow = Confirmation::start("token").step(down());
    match flow.action() {
        ConfirmAction::Done(Err(error)) => {
            assert_eq!(error.status_code(), 500);
            assert_eq!(error.public_message(), "Something went wrong on our side.");
            assert_eq!(
                error_chain_fmt(&error.chain()),
                "Failed to look up the subscriber of a subscription token.\n\n\
                 Caused by:\n\tconnection reset\n"
            );
        }
        other => panic!("{:?}", other),
    }
    let flow = Confirmation::start("token")
        .step(ConfirmReply::Subscriber(Some(SubscriptionId(3))))
        .step(down());
    match flow.action() {
        ConfirmAction::Done(Err(error)) => {
            assert_eq!(error.status_code(), 500);
            assert_eq!(
                error_chain_fmt(&error.chain()),
                "Failed to mark the subscriber as confirmed.\n\nCaused by:\n\tconnection reset\n"
            );
        }
        other => panic!("{:?}", other),
    }
}

#[test]
fn the_confirmation_machine_refuses_an_answer_out_of_turn() {
    let flow = Confirmation::start("token").step(ConfirmReply::Updated);
    match flow.action() {
        ConfirmAction::Done(Err(error)) => assert_eq!(
            error_chain_fmt(&error.chain()),
            "The answer does not fit the work that was asked for.\n\n"
        ),
        other => panic!("{:?}", other),
    }
    let flow = Confirmation::start("token")
        .step(ConfirmReply::Subscriber(Some(SubscriptionId(3))))
        .step(ConfirmReply::Subscriber(None));
    assert!(matches!(
        flow.action(),
        ConfirmAction::Done(Err(ConfirmationError::UnexpectedError(_)))
    ));
}
