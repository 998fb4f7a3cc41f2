use zero2prod::email_client::Outbox;
use zero2prod::error::{error_chain_fmt, ErrorChain};
use zero2prod::routes::newsletters::{
    get_confirmed_subscribers, invalid_address_warning, publish_newsletter, sort_addresses,
    BodyData, Broadcast, Content, PublishAction, PublishReply,
};
use zero2prod::store::{
    Subscription, SubscriptionId, SubscriptionStatus, SubscriptionStore, Timestamp,
};

fn issue() -> BodyData {
    BodyData {
        title: "Newsletter title".to_string(),
        content: Content {
            html: "<p>Newsletter body as HTML</p>".to_string(),
            text: "Newsletter body as plain text".to_string(),
        },
    }
}

fn store_with(rows: &[(&str, SubscriptionStatus)]) -> SubscriptionStore {
    let mut transaction = SubscriptionStore::new().begin();
    for (i, (email, status)) in rows.iter().enumerate() {
        transaction
            .insert_subscription(Subscription {
                id: SubscriptionId(i as u128),
                email: email.to_string(),
                name: "somebody".to_string(),
                subscribed_at: Timestamp { seconds: 1_700_000_000, nanoseconds: 0 },
                status: *status,
            })
            .unwrap();
    }
    transaction.commit()
}

fn recipients(outbox: &Outbox) -> Vec<String> {
    outbox.attempts().iter().map(|e| e.recipient.as_ref().to_string()).collect()
}

const CONFIRMED: SubscriptionStatus = SubscriptionStatus::Confirmed;
const PENDING: SubscriptionStatus = SubscriptionStatus::PendingConfirmation;

#[test]
fn a_broadcast_to_an_empty_store_sends_nothing_and_succeeds() {
    let store = SubscriptionStore::new();
    let mut outbox = Outbox::new();
    assert!(publish_newsletter(&issue(), &store, &mut outbox).is_ok());
    assert!(outbox.attempts().is_empty());
}

#[test]
fn newsletters_are_not_delivered_to_unconfirmed_subscribers() {
    let store = store_with(&[("a@b.c", PENDING), ("d@e.f", PENDING)]);
    let mut outbox = Outbox::new();
    assert!(publish_newsletter(&issue(), &store, &mut outbox).is_ok());
    assert!(outbox.attempts().is_empty());
}

#[test]
fn newsletters_are_delivered_to_confirmed_subscribers() {
    let store = store_with(&[("a@b.c", CONFIRMED), ("d@e.f", PENDING), ("g@h.i", CONFIRMED)]);
    let mut outbox = Outbox::new();
    assert!(publish_newsletter(&issue(), &store, &mut outbox).is_ok());
    assert_eq!(recipients(&outbox), vec!["a@b.c", "g@h.i"]);
    for email in outbox.attempts() {
        assert_eq!(email.subject, "Newsletter title");
        assert_eq!(email.html_body, "<p>Newsletter body as HTML</p>");
        assert_eq!(email.text_body, "Newsletter body as plain text");
    }
}

#[test]
fn a_stored_address_that_is_not_valid_is_skipped() {
    let store = store_with(&[("a@b.c", CONFIRMED), ("not an address", CONFIRMED), ("g@h.i", CONFIRMED)]);
    let mut outbox = Outbox::new();
    assert!(publish_newsletter(&issue(), &store, &mut outbox).is_ok());
    assert_eq!(recipients(&outbox), vec!["a@b.c", "g@h.i"]);
}

#[test]
fn the_first_failed_delivery_ends_the_broadcast_and_is_named() {
    let store = store_with(&[
        ("a@b.c", CONFIRMED),
        ("d@e.f", CONFIRMED),
        ("g@h.i", CONFIRMED),
        ("j@k.l", CONFIRMED),
    ]);
    let mut outbox = Outbox::new();
    outbox.refuse("g@h.i");
    outbox.refuse("j@k.l");
    let error = publish_newsletter(&issue(), &store, &mut outbox).unwrap_err();
    assert_eq!(error.status_code(), 500);
    assert_eq!(error.public_message(), "Something went wrong on our side.");
    assert_eq!(error.to_string(), "Failed to send newsletter to g@h.i");
    assert_eq!(
        error_chain_fmt(&error.chain()),
        "Failed to send newsletter to g@h.i\n\nCaused by:\n\tThe recipient cannot be reached.\n"
    );
    assert_eq!(recipients(&outbox), vec!["a@b.c", "d@e.f", "g@h.i"]);
}

#[test]
fn a_failure_for_the_first_recipient_leaves_one_attempt() {
    let store = store_with(&[("a@b.c", CONFIRMED), ("d@e.f", CONFIRMED)]);
    let mut outbox = Outbox::new();
    outbox.refuse("a@b.c");
    let error = publish_newsletter(&issue(), &store, &mut outbox).unwrap_err();
    assert_eq!(error.to_string(), "Failed to send newsletter to a@b.c");
    assert_eq!(recipients(&outbox), vec!["a@b.c"]);
}

#[test]
fn an_unreachable_address_that_is_not_subscribed_does_no_harm() {
    let store = store_with(&[("a@b.c", CONFIRMED), ("d@e.f", PENDING)]);
    let mut outbox = Outbox::new();
    outbox.refuse("d@e.f");
    outbox.refuse("x@y.z");
    assert!(publish_newsletter(&issue(), &store, &mut outbox).is_ok());
    assert_eq!(recipients(&outbox), vec!["a@b.c"]);
}

#[test]
fn the_recipients_are_the_valid_addresses_in_order() {
    let rows = vec![
        "a@b.c".to_string(),
        "".to_string(),
        "two@@signs.com".to_string(),
        "d@e.f".to_string(),
        "no-dot@domain".to_string(),
        "a@b.c".to_string(),
    ];
    let subscribers = get_confirmed_subscribers(rows);
    let addresses: Vec<&str> = subscribers.iter().map(|s| s.email.as_ref()).collect();
    assert_eq!(addresses, vec!["a@b.c", "d@e.f", "a@b.c"]);
    assert!(get_confirmed_subscribers(vec![]).is_empty());
}

#[test]
fn the_broadcast_machine_loads_and_then_sends_to_each() {
    let flow = Broadcast::start(&issue());
    assert!(matches!(flow.action(), PublishAction::ListConfirmedSubscribers));
    let flow = flow.step(PublishReply::Subscribers(vec![
        "a@b.c".to_string(),
        "broken".to_string(),
        "d@e.f".to_string(),
    ]));
    match flow.action() {
        PublishAction::SendEmail(email) => {
            assert_eq!(email.recipient.as_ref(), "a@b.c");
            assert_eq!(email.subject, "Newsletter title");
        }
        other => panic!("{:?}", other),
    }
    let flow = flow.step(PublishReply::Sent);
    match flow.action() {
        PublishAction::SendEmail(email) => assert_eq!(email.recipient.as_ref(), "d@e.f"),
        other => panic!("{:?}", other),
    }
    let flow = flow.step(PublishReply::Sent);
    assert!(matches!(flow.action(), PublishAction::Done(Ok(()))));
    let flow = flow.step(PublishReply::Sent);
    assert!(matches!(flow.action(), PublishAction::Done(Ok(()))));
}

#[test]
fn the_broadcast_machine_ends_at_once_without_recipients() {
    let flow = Broadcast::start(&issue()).step(PublishReply::Subscribers(vec![]));
    assert!(matches!(flow.action(), PublishAction::Done(Ok(()))));
    let flow = Broadcast::start(&issue()).step(PublishReply::Subscribers(vec!["x".to_string()]));
    assert!(matches!(flow.action(), PublishAction::Done(Ok(()))));
}

#[test]
fn the_broadcast_machine_passes_on_a_failure_to_load() {
    let flow = Broadcast::start(&issue())
        .step(PublishReply::Failed(ErrorChain::new("connection reset").context("query failed")));
    match flow.action() {
        PublishAction::Done(Err(error)) => assert_eq!(
            error_chain_fmt(&error.chain()),
            "query failed\n\nCaused by:\n\tconnection reset\n"
        ),
        other => panic!("{:?}", other),
    }
}

#[test]
fn the_broadcast_machine_names_the_recipient_of_a_failed_delivery() {
    let flow = Broadcast::start(&issue())
        .step(PublishReply::Subscribers(vec!["a@b.c".to_string(), "d@e.f".to_string()]))
        .step(PublishReply::Sent)
        .step(PublishReply::Failed(ErrorChain::new("503 Service Unavailable")));
    match flow.action() {
        PublishAction::Done(Err(error)) => assert_eq!(
            error_chain_fmt(&error.chain()),
            "Failed to send newsletter to d@e.f\n\nCaused by:\n\t503 Service Unavailable\n"
        ),
        other => panic!("{:?}", other),
    }
}

#[test]
fn the_broadcast_machine_refuses_an_answer_out_of_turn() {
    let flow = Broadcast::start(&issue()).step(PublishReply::Sent);
    match flow.action() {
        PublishAction::Done(Err(error)) => assert_eq!(
            error.to_string(),
            "The answer does not fit the work that was asked for."
        ),
        other => panic!("{:?}", other),
    }
    let flow = Broadcast::start(&issue())
        .step(PublishReply::Subscribers(vec!["a@b.c".to_string()]))
        .step(PublishReply::Subscribers(vec![]));
    assert!(matches!(flow.action(), PublishAction::Done(Err(_))));
}

#[test]
fn stored_addresses_are_parted_into_recipients_and_skipped() {
    let rows = vec![
        "a@b.c".to_string(),
        "".to_string(),
        "two@@signs.com".to_string(),
        "d@e.f".to_string(),
        "no-dot@domain".to_string(),
    ];
    let (subscribers, skipped) = sort_addresses(rows);
    let addresses: Vec<&str> = subscribers.iter().map(|s| s.email.as_ref()).collect();
    assert_eq!(addresses, vec!["a@b.c", "d@e.f"]);
    assert_eq!(skipped, vec!["", "two@@signs.com", "no-dot@domain"]);
    let (subscribers, skipped) = sort_addresses(vec![]);
    assert!(subscribers.is_empty());
    assert!(skipped.is_empty());
}

#[test]
fn the_broadcast_machine_hands_out_the_addresses_it_skipped() {
    let flow = Broadcast::start(&issue());
    assert!(flow.skipped().is_empty());
    let flow = flow.step(PublishReply::Subscribers(vec![
        "broken".to_string(),
        "a@b.c".to_string(),
        "also broken".to_string(),
    ]));
    assert_eq!(flow.skipped(), &vec!["broken".to_string(), "also broken".to_string()]);
    match flow.action() {
        PublishAction::SendEmail(email) => assert_eq!(email.recipient.as_ref(), "a@b.c"),
        other => panic!("{:?}", other),
    }
    let flow = flow.step(PublishReply::Sent);
    assert!(matches!(flow.action(), PublishAction::Done(Ok(()))));
    assert_eq!(flow.skipped().len(), 2);
}

#[test]
fn a_failure_to_load_skips_nothing() {
    let flow = Broadcast::start(&issue()).step(PublishReply::Failed(ErrorChain::new("down")));
    assert!(flow.skipped().is_empty());
}

#[test]
fn the_warning_names_the_skipped_address() {
    assert_eq!(
        invalid_address_warning("broken"),
        "A confirmed subscriber is using an invalid email address.\n\
         broken is not a valid subscriber email.."
    );
}
