use zero2prod::domain::NewSubscriber;
use zero2prod::email_client::Outbox;
use zero2prod::error::{error_chain_fmt, ErrorChain, Outcome};
use zero2prod::routes::subscriptions::{
    build_confirmation_email, onboard, subscribe, Onboarding, SubscribeAction,
};
use zero2prod::routes::{generate_subscription_token, SubscribeData, SubscribeError};
use zero2prod::startup::ApplicationUrl;
use zero2prod::store::{
    Subscription, SubscriptionId, SubscriptionStatus, SubscriptionStore, SubscriptionToken,
    Timestamp,
};

fn form(name: &str, email: &str) -> SubscribeData {
    SubscribeData { email: email.to_string(), name: name.to_string() }
}

fn base_url() -> ApplicationUrl {
    ApplicationUrl("http://127.0.0.1".to_string())
}

fn ursula() -> NewSubscriber {
    NewSubscriber::try_from(form("le guin", "ursula_le_guin@gmail.com")).unwrap()
}

fn noon() -> Timestamp {
    Timestamp { seconds: 1_700_000_000, nanoseconds: 500 }
}

/// The one link in `body`: what starts at `http` and runs to the next
/// quote or blank.
fn link_in(body: &str) -> String {
    let links: Vec<&str> = body.match_indices("http").map(|(at, _)| &body[at..]).collect();
    assert_eq!(links.len(), 1);
    links[0].split(|c: char| c == '"' || c.is_whitespace()).next().unwrap().to_string()
}

fn store_with_token(token: &str) -> SubscriptionStore {
    let mut transaction = SubscriptionStore::new().begin();
    transaction
        .insert_subscription(Subscription {
            id: SubscriptionId(1),
            email: "a@b.c".to_string(),
            name: "a".to_string(),
            subscribed_at: noon(),
            status: SubscriptionStatus::PendingConfirmation,
        })
        .unwrap();
    transaction
        .insert_token(SubscriptionToken {
            subscription_token: token.to_string(),
            subscriber_id: SubscriptionId(1),
        })
        .unwrap();
    transaction.commit()
}

#[test]
fn subscriptions_subscribe_return_a_200_for_valid_form_data() {
    let mut store = SubscriptionStore::new();
    let mut outbox = Outbox::new();
    let result =
        subscribe(form("le guin", "ursula_le_guin@gmail.com"), &mut store, &mut outbox, &base_url());
    assert!(result.is_ok());
}

#[test]
fn subscribe_persists_the_new_subscriber() {
    let mut store = SubscriptionStore::new();
    let mut outbox = Outbox::new();
    subscribe(form("le guin", "ursula_le_guin@gmail.com"), &mut store, &mut outbox, &base_url())
        .unwrap();

    assert_eq!(store.subscriptions().len(), 1);
    let saved = &store.subscriptions()[0];
    assert_eq!(saved.email, "ursula_le_guin@gmail.com");
    assert_eq!(saved.name, "le guin");
    assert_eq!(saved.status.as_str(), "pending_confirmation");
}

#[test]
fn subscribe_stores_one_token_for_the_new_subscriber() {
    let mut store = SubscriptionStore::new();
    let mut outbox = Outbox::new();
    subscribe(form("le guin", "ursula_le_guin@gmail.com"), &mut store, &mut outbox, &base_url())
        .unwrap();

    assert_eq!(store.tokens().len(), 1);
    let token = &store.tokens()[0];
    assert_eq!(token.subscriber_id, store.subscriptions()[0].id);
    assert_eq!(token.subscription_token.len(), 25);
    assert!(token.subscription_token.chars().all(|c| c.is_ascii_alphanumeric()));
}

#[test]
fn subscribe_return_a_400_when_fields_are_present_but_invalid() {
    let tests = vec![
        (form("", "ursula_le_guin@gmail.com"), "missing name"),
        (form("   ", "ursula_le_guin@gmail.com"), "blank name"),
        (form("le {guin}", "ursula_le_guin@gmail.com"), "forbidden character in name"),
        (form("le guin", ""), "missing email"),
        (form("le guin", "definitely-not-an-email"), "invalid email"),
    ];
    for (invalid, error_message) in tests {
        let mut store = SubscriptionStore::new();
        let mut outbox = Outbox::new();
        let error = subscribe(invalid, &mut store, &mut outbox, &base_url()).unwrap_err();
        assert_eq!(
            400,
            error.status_code(),
            "The api did not fail with 400 Bad Request when the payload was {}",
            error_message
        );
        assert!(matches!(error, SubscribeError::ValidationError(_)));
        assert!(store.subscriptions().is_empty());
        assert!(store.tokens().is_empty());
        assert!(outbox.attempts().is_empty());
    }
}

#[test]
fn a_validation_error_carries_the_message_of_the_field_at_fault() {
    let mut store = SubscriptionStore::new();
    let mut outbox = Outbox::new();
    let error = subscribe(form("le guin", "nobody"), &mut store, &mut outbox, &base_url())
        .unwrap_err();
    assert_eq!(error.to_string(), "nobody is not a valid subscriber email.");
    assert_eq!(error.public_message(), "nobody is not a valid subscriber email.");
    assert_eq!(error_chain_fmt(&error.chain()), "nobody is not a valid subscriber email.\n\n");
    let error = SubscribeError::from("no".to_string());
    assert_eq!(error.status_code(), 400);
    assert_eq!(error.to_string(), "no");
}

#[test]
fn subscribe_send_confirm_email_for_valid_data() {
    let mut store = SubscriptionStore::new();
    let mut outbox = Outbox::new();
    subscribe(form("le guin", "ursula_le_guin@gmail.com"), &mut store, &mut outbox, &base_url())
        .unwrap();
    assert_eq!(outbox.attempts().len(), 1);
    assert_eq!(outbox.attempts()[0].recipient.as_ref(), "ursula_le_guin@gmail.com");
    assert_eq!(outbox.attempts()[0].subject, "Welcome!");
}

#[test]
fn subscribe_sends_a_conformation_email_with_a_link() {
    let mut store = SubscriptionStore::new();
    let mut outbox = Outbox::new();
    subscribe(form("le guin", "ursula_le_guin@gmail.com"), &mut store, &mut outbox, &base_url())
        .unwrap();

    let email = &outbox.attempts()[0];
    let html = link_in(&email.html_body);
    let plain_text = link_in(&email.text_body);
    assert_eq!(html, plain_text);
    let token = &store.tokens()[0].subscription_token;
    assert_eq!(
        html,
        format!("http://127.0.0.1/subscriptions/confirm?subscription_token={}", token)
    );
}

#[test]
fn subscribe_fails_if_there_is_a_fatal_database_error() {
    // The store holds the token already, so the second write is turned down.
    let mut store = store_with_token("abcdefghijklmnopqrstuvwxy");
    let mut outbox = Outbox::new();
    let error = onboard(
        &ursula(),
        SubscriptionId(2),
        noon(),
        "abcdefghijklmnopqrstuvwxy".to_string(),
        &mut store,
        &mut outbox,
        &base_url(),
    )
    .unwrap_err();
    assert_eq!(error.status_code(), 500);
    // The subscription that was inserted is gone again.
    assert_eq!(store.subscriptions().len(), 1);
    assert_eq!(store.subscriptions()[0].id, SubscriptionId(1));
    assert_eq!(store.tokens().len(), 1);
    assert!(outbox.attempts().is_empty());
    assert_eq!(
        error_chain_fmt(&error.chain()),
        "Failed to store the confirmation token for a new subscriber\n\n\
         Caused by:\n\tA database error was encountered while trying to store a subscription token.\n\
         Caused by:\n\tThe subscription token was issued before.\n"
    );
}

#[test]
fn subscribe_fails_if_the_id_is_taken() {
    let mut store = store_with_token("abcdefghijklmnopqrstuvwxy");
    let mut outbox = Outbox::new();
    let error = onboard(
        &ursula(),
        SubscriptionId(1),
        noon(),
        "ABCDEFGHIJKLMNOPQRSTUVWXY".to_string(),
        &mut store,
        &mut outbox,
        &base_url(),
    )
    .unwrap_err();
    assert_eq!(error.status_code(), 500);
    assert_eq!(store.subscriptions().len(), 1);
    assert_eq!(store.subscriptions()[0].email, "a@b.c");
    assert_eq!(store.tokens().len(), 1);
    assert!(outbox.attempts().is_empty());
    assert_eq!(
        error_chain_fmt(&error.chain()),
        "Failed to insert new subscriber in the database\n\n\
         Caused by:\n\tA subscription with this id exists already.\n"
    );
}

#[test]
fn onboarding_writes_what_was_drawn_for_it() {
    let mut store = store_with_token("abcdefghijklmnopqrstuvwxy");
    let mut outbox = Outbox::new();
    onboard(
        &ursula(),
        SubscriptionId(2),
        noon(),
        "ABCDEFGHIJKLMNOPQRSTUVWXY".to_string(),
        &mut store,
        &mut outbox,
        &base_url(),
    )
    .unwrap();
    assert_eq!(store.subscriptions().len(), 2);
    let saved = &store.subscriptions()[1];
    assert_eq!(saved.id, SubscriptionId(2));
    assert_eq!(saved.subscribed_at, noon());
    assert_eq!(saved.status, SubscriptionStatus::PendingConfirmation);
    assert_eq!(store.tokens().len(), 2);
    assert_eq!(store.tokens()[1].subscription_token, "ABCDEFGHIJKLMNOPQRSTUVWXY");
    assert_eq!(store.tokens()[1].subscriber_id, SubscriptionId(2));
    assert_eq!(outbox.attempts().len(), 1);
    assert_eq!(
        outbox.attempts()[0].text_body,
        "Welcome to our newsletter!\nVisit \
         http://127.0.0.1/subscriptions/confirm?subscription_token=ABCDEFGHIJKLMNOPQRSTUVWXY \
         to confirm your subscription."
    );
    assert_eq!(
        outbox.attempts()[0].html_body,
        "Welcome to our newsletter!<br />lick <a href=\"\
         http://127.0.0.1/subscriptions/confirm?subscription_token=ABCDEFGHIJKLMNOPQRSTUVWXY\
         \">here</a> to confirm your subscription."
    );
}

#[test]
fn a_failed_email_does_not_undo_the_subscription() {
    let mut store = SubscriptionStore::new();
    let mut outbox = Outbox::new();
    outbox.refuse("ursula_le_guin@gmail.com");
    let error =
        subscribe(form("le guin", "ursula_le_guin@gmail.com"), &mut store, &mut outbox, &base_url())
            .unwrap_err();
    assert_eq!(error.status_code(), 500);
    assert_eq!(error.to_string(), "Failed to send a confirmation email");
    assert_eq!(error.public_message(), "Something went wrong on our side.");
    assert_eq!(
        error_chain_fmt(&error.chain()),
        "Failed to send a confirmation email\n\nCaused by:\n\tThe recipient cannot be reached.\n"
    );
    assert_eq!(store.subscriptions().len(), 1);
    assert_eq!(store.subscriptions()[0].status, SubscriptionStatus::PendingConfirmation);
    assert_eq!(store.tokens().len(), 1);
    assert_eq!(outbox.attempts().len(), 1);
}

#[test]
fn subscribing_twice_with_the_same_email_creates_two_subscriptions() {
    let mut store = SubscriptionStore::new();
    let mut outbox = Outbox::new();
    for _ in 0..2 {
        subscribe(form("le guin", "ursula_le_guin@gmail.com"), &mut store, &mut outbox, &base_url())
            .unwrap();
    }
    assert_eq!(store.subscriptions().len(), 2);
    assert_ne!(store.subscriptions()[0].id, store.subscriptions()[1].id);
    assert_eq!(store.tokens().len(), 2);
    assert_ne!(store.tokens()[0].subscription_token, store.tokens()[1].subscription_token);
    assert_eq!(outbox.attempts().len(), 2);
}

#[test]
fn a_token_has_25_letters_and_digits() {
    for _ in 0..100 {
        let token = generate_subscription_token();
        assert_eq!(token.chars().count(), 25);
        assert!(token.chars().all(|c| c.is_ascii_alphanumeric()), "{}", token);
    }
}

#[test]
fn tokens_are_not_repeated() {
    let first = generate_subscription_token();
    let second = generate_subscription_token();
    assert_ne!(first, second);
    // Not one character repeated twenty-five times either.
    let head = first.chars().next().unwrap();
    let mut varied = false;
    for _ in 0..20 {
        varied = varied || generate_subscription_token().chars().any(|c| c != head);
    }
    assert!(varied);
}

#[test]
fn the_confirmation_email_embeds_base_url_and_token() {
    let email = build_confirmation_email(&ursula(), "https://news.example.com", "tok");
    assert_eq!(email.recipient.as_ref(), "ursula_le_guin@gmail.com");
    assert_eq!(email.subject, "Welcome!");
    assert_eq!(
        link_in(&email.html_body),
        "https://news.example.com/subscriptions/confirm?subscription_token=tok"
    );
    assert_eq!(link_in(&email.html_body), link_in(&email.text_body));
}

#[test]
fn the_error_chain_is_rendered_cause_by_cause() {
    let chain = ErrorChain::new("root").context("middle").context("top");
    assert_eq!(chain.message, "top");
    assert_eq!(chain.causes, vec!["middle", "root"]);
    assert_eq!(
        error_chain_fmt(&chain),
        "top\n\nCaused by:\n\tmiddle\nCaused by:\n\troot\n"
    );
    assert_eq!(error_chain_fmt(&ErrorChain::new("alone")), "alone\n\n");
}

fn actions_until_done(mut flow: Onboarding, outcomes: Vec<Outcome>) -> (Vec<String>, Result<(), SubscribeError>) {
    let mut seen = Vec::new();
    let mut outcomes = outcomes.into_iter();
    loop {
        let name = match flow.action() {
            SubscribeAction::BeginTransaction => "begin",
            SubscribeAction::InsertSubscriber(_) => "insert",
            SubscribeAction::StoreToken(_) => "token",
            SubscribeAction::Commit => "commit",
            SubscribeAction::Rollback => "rollback",
            SubscribeAction::SendEmail(_) => "send",
            SubscribeAction::Done(result) => return (seen, result),
        };
        seen.push(name.to_string());
        flow = flow.step(outcomes.next().unwrap_or(Outcome::Succeeded));
    }
}

fn planned() -> Onboarding {
    Onboarding::plan(
        &ursula(),
        &base_url(),
        SubscriptionId(5),
        noon(),
        "ABCDEFGHIJKLMNOPQRSTUVWXY".to_string(),
    )
}

fn down() -> Outcome {
    Outcome::Failed(ErrorChain::new("connection reset").context("pool timed out"))
}

#[test]
fn the_machine_asks_for_each_piece_of_work_once_and_in_order() {
    let (seen, result) = actions_until_done(planned(), vec![]);
    assert_eq!(seen, vec!["begin", "insert", "token", "commit", "send"]);
    assert!(result.is_ok());
}

#[test]
fn the_machine_names_the_rows_and_the_message() {
    let flow = planned();
    let flow = flow.step(Outcome::Succeeded);
    match flow.action() {
        SubscribeAction::InsertSubscriber(row) => {
            assert_eq!(row.id, SubscriptionId(5));
            assert_eq!(row.email, "ursula_le_guin@gmail.com");
            assert_eq!(row.name, "le guin");
            assert_eq!(row.subscribed_at, noon());
            assert_eq!(row.status, SubscriptionStatus::PendingConfirmation);
        }
        other => panic!("{:?}", other),
    }
    let flow = flow.step(Outcome::Succeeded);
    match flow.action() {
        SubscribeAction::StoreToken(row) => {
            assert_eq!(row.subscription_token, "ABCDEFGHIJKLMNOPQRSTUVWXY");
            assert_eq!(row.subscriber_id, SubscriptionId(5));
        }
        other => panic!("{:?}", other),
    }
    let flow = flow.step(Outcome::Succeeded).step(Outcome::Succeeded);
    match flow.action() {
        SubscribeAction::SendEmail(email) => {
            assert_eq!(email.recipient.as_ref(), "ursula_le_guin@gmail.com");
            assert!(email.text_body.contains("subscription_token=ABCDEFGHIJKLMNOPQRSTUVWXY "));
        }
        other => panic!("{:?}", other),
    }
}

#[test]
fn the_machine_gives_up_when_no_transaction_can_be_opened() {
    let (seen, result) = actions_until_done(planned(), vec![down()]);
    assert_eq!(seen, vec!["begin"]);
    let error = result.unwrap_err();
    assert_eq!(error.status_code(), 500);
    assert_eq!(
        error_chain_fmt(&error.chain()),
        "Failed to acquire a Postgre connection from the pool.\n\n\
         Caused by:\n\tpool timed out\nCaused by:\n\tconnection reset\n"
    );
}

#[test]
fn the_machine_rolls_back_when_the_insert_fails() {
    let (seen, result) = actions_until_done(planned(), vec![Outcome::Succeeded, down()]);
    assert_eq!(seen, vec!["begin", "insert", "rollback"]);
    assert_eq!(result.unwrap_err().to_string(), "Failed to insert new subscriber in the database");
}

#[test]
fn the_machine_rolls_back_when_the_token_cannot_be_stored() {
    let (seen, result) =
        actions_until_done(planned(), vec![Outcome::Succeeded, Outcome::Succeeded, down()]);
    assert_eq!(seen, vec!["begin", "insert", "token", "rollback"]);
    assert_eq!(
        error_chain_fmt(&result.unwrap_err().chain()),
        "Failed to store the confirmation token for a new subscriber\n\n\
         Caused by:\n\tA database error was encountered while trying to store a subscription token.\n\
         Caused by:\n\tpool timed out\nCaused by:\n\tconnection reset\n"
    );
}

#[test]
fn the_machine_reports_a_failed_rollback_as_the_failure_that_led_to_it() {
    let (seen, result) = actions_until_done(planned(), vec![Outcome::Succeeded, down(), down()]);
    assert_eq!(seen, vec!["begin", "insert", "rollback"]);
    assert_eq!(result.unwrap_err().to_string(), "Failed to insert new subscriber in the database");
}

#[test]
fn the_machine_sends_nothing_when_the_commit_fails() {
    let (seen, result) = actions_until_done(
        planned(),
        vec![Outcome::Succeeded, Outcome::Succeeded, Outcome::Succeeded, down()],
    );
    assert_eq!(seen, vec!["begin", "insert", "token", "commit"]);
    assert_eq!(
        result.unwrap_err().to_string(),
        "Failed to commit transaction to store a subscriber."
    );
}

#[test]
fn the_machine_reports_a_failed_email_after_the_commit() {
    let (seen, result) = actions_until_done(
        planned(),
        vec![Outcome::Succeeded, Outcome::Succeeded, Outcome::Succeeded, Outcome::Succeeded, down()],
    );
    assert_eq!(seen, vec!["begin", "insert", "token", "commit", "send"]);
    assert_eq!(result.unwrap_err().to_string(), "Failed to send a confirmation email");
}

#[test]
fn the_machine_stays_done() {
    let mut flow = planned();
    for _ in 0..5 {
        flow = flow.step(Outcome::Succeeded);
    }
    assert!(matches!(flow.action(), SubscribeAction::Done(Ok(()))));
    let flow = flow.step(down());
    assert!(matches!(flow.action(), SubscribeAction::Done(Ok(()))));
}

#[test]
fn an_invalid_form_starts_no_onboarding() {
    let error = Onboarding::start(form("", "ursula_le_guin@gmail.com"), &base_url()).unwrap_err();
    assert_eq!(error.status_code(), 400);
    assert_eq!(error.to_string(), " is not a valid subscriber name.");
}

#[test]
fn a_valid_form_starts_onboarding_with_a_fresh_token() {
    let flow = Onboarding::start(form("le guin", "ursula_le_guin@gmail.com"), &base_url()).unwrap();
    assert!(matches!(flow.action(), SubscribeAction::BeginTransaction));
    let flow = flow.step(Outcome::Succeeded);
    let id = match flow.action() {
        SubscribeAction::InsertSubscriber(row) => row.id,
        other => panic!("{:?}", other),
    };
    let flow = flow.step(Outcome::Succeeded);
    match flow.action() {
        SubscribeAction::StoreToken(row) => {
            assert_eq!(row.subscriber_id, id);
            assert_eq!(row.subscription_token.len(), 25);
            assert!(row.subscription_token.chars().all(|c| c.is_ascii_alphanumeric()));
        }
        other => panic!("{:?}", other),
    }
}
