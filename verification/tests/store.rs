use zero2prod::domain::NewSubscriber;
use zero2prod::routes::{insert_subscriber, store_token, SubscribeData};
use zero2prod::store::{
    ConfirmationError, StoreError, Subscription, SubscriptionId, SubscriptionStatus,
    SubscriptionStore, SubscriptionToken, Timestamp,
};

fn ursula() -> NewSubscriber {
    NewSubscriber::try_from(SubscribeData {
        email: "ursula_le_guin@gmail.com".to_string(),
        name: "le guin".to_string(),
    })
    .unwrap()
}

fn row(id: u128, email: &str, status: SubscriptionStatus) -> Subscription {
    Subscription {
        id: SubscriptionId(id),
        email: email.to_string(),
        name: "somebody".to_string(),
        subscribed_at: Timestamp { seconds: 1_700_000_000, nanoseconds: 0 },
        status,
    }
}

fn token(text: &str, owner: u128) -> SubscriptionToken {
    SubscriptionToken { subscription_token: text.to_string(), subscriber_id: SubscriptionId(owner) }
}

fn store_with(rows: Vec<Subscription>, tokens: Vec<SubscriptionToken>) -> SubscriptionStore {
    let mut transaction = SubscriptionStore::new().begin();
    for row in rows {
        transaction.insert_subscription(row).unwrap();
    }
    for token in tokens {
        transaction.insert_token(token).unwrap();
    }
    transaction.commit()
}

#[test]
fn a_new_store_is_empty() {
    let store = SubscriptionStore::new();
    assert!(store.subscriptions().is_empty());
    assert!(store.tokens().is_empty());
    assert!(store.list_confirmed_subscribers().is_empty());
}

#[test]
fn an_inserted_subscriber_is_pending_and_dated() {
    let mut transaction = SubscriptionStore::new().begin();
    let id = insert_subscriber(&ursula(), &mut transaction).unwrap();
    let store = transaction.commit();
    let rows = store.subscriptions();
    assert_eq!(rows.len(), 1);
    assert_eq!(rows[0].id, id);
    assert_eq!(rows[0].email, "ursula_le_guin@gmail.com");
    assert_eq!(rows[0].name, "le guin");
    assert_eq!(rows[0].status, SubscriptionStatus::PendingConfirmation);
    assert_eq!(rows[0].status.as_str(), "pending_confirmation");
    // The date is read from the clock: some time after 2020-09-13.
    assert!(rows[0].subscribed_at.seconds > 1_600_000_000);
    assert!(rows[0].subscribed_at.nanoseconds < 2_000_000_000);
}

#[test]
fn inserted_subscribers_get_ids_of_their_own() {
    let mut transaction = SubscriptionStore::new().begin();
    let first = insert_subscriber(&ursula(), &mut transaction).unwrap();
    let second = insert_subscriber(&ursula(), &mut transaction).unwrap();
    assert_ne!(first, second);
    // Version 4, variant 1, as for every random UUID.
    assert_eq!((first.0 >> 76) & 0xf, 4);
    assert_eq!((first.0 >> 62) & 0x3, 2);
    let store = transaction.commit();
    assert_eq!(store.subscriptions().len(), 2);
}

#[test]
fn a_rolled_back_transaction_leaves_the_store_as_it_was() {
    let store = store_with(
        vec![row(1, "a@b.c", SubscriptionStatus::PendingConfirmation)],
        vec![token("first", 1)],
    );
    let mut transaction = store.begin();
    let id = insert_subscriber(&ursula(), &mut transaction).unwrap();
    store_token(&mut transaction, id, "second").unwrap();
    let store = transaction.rollback();
    assert_eq!(store.subscriptions().len(), 1);
    assert_eq!(store.subscriptions()[0].id, SubscriptionId(1));
    assert_eq!(store.tokens().len(), 1);
    assert_eq!(store.tokens()[0].subscription_token, "first");
}

#[test]
fn a_committed_transaction_appends_its_rows_in_order() {
    let store = store_with(
        vec![row(1, "a@b.c", SubscriptionStatus::PendingConfirmation)],
        vec![token("first", 1)],
    );
    let mut transaction = store.begin();
    let id = insert_subscriber(&ursula(), &mut transaction).unwrap();
    store_token(&mut transaction, id, "second").unwrap();
    store_token(&mut transaction, SubscriptionId(1), "third").unwrap();
    let store = transaction.commit();
    let ids: Vec<SubscriptionId> = store.subscriptions().iter().map(|r| r.id).collect();
    assert_eq!(ids, vec![SubscriptionId(1), id]);
    let tokens: Vec<(&str, SubscriptionId)> = store
        .tokens()
        .iter()
        .map(|t| (t.subscription_token.as_str(), t.subscriber_id))
        .collect();
    assert_eq!(tokens, vec![("first", SubscriptionId(1)), ("second", id), ("third", SubscriptionId(1))]);
}

#[test]
fn a_subscription_id_cannot_be_taken_twice() {
    let mut transaction = SubscriptionStore::new().begin();
    transaction.insert_subscription(row(7, "a@b.c", SubscriptionStatus::PendingConfirmation)).unwrap();
    assert_eq!(
        transaction.insert_subscription(row(7, "d@e.f", SubscriptionStatus::PendingConfirmation)),
        Err(StoreError::DuplicateSubscriber)
    );
    let store = transaction.commit();
    assert_eq!(store.subscriptions().len(), 1);
    assert_eq!(store.subscriptions()[0].email, "a@b.c");
    // Nor can an id that was committed before.
    let mut transaction = store.begin();
    assert_eq!(
        transaction.insert_subscription(row(7, "d@e.f", SubscriptionStatus::PendingConfirmation)),
        Err(StoreError::DuplicateSubscriber)
    );
}

#[test]
fn a_token_needs_a_subscriber_that_exists() {
    let mut transaction = SubscriptionStore::new().begin();
    let error = store_token(&mut transaction, SubscriptionId(9), "token").unwrap_err();
    assert_eq!(error.source(), StoreError::UnknownSubscriber);
    assert_eq!(
        error.to_string(),
        "A database error was encountered while trying to store a subscription token."
    );
    assert!(transaction.commit().tokens().is_empty());
}

#[test]
fn a_token_cannot_be_issued_twice() {
    let store = store_with(
        vec![
            row(1, "a@b.c", SubscriptionStatus::PendingConfirmation),
            row(2, "d@e.f", SubscriptionStatus::PendingConfirmation),
        ],
        vec![token("token", 1)],
    );
    let mut transaction = store.begin();
    let error = store_token(&mut transaction, SubscriptionId(2), "token").unwrap_err();
    assert_eq!(error.source(), StoreError::DuplicateToken);
    // An unknown subscriber is reported before a token that is taken.
    let error = store_token(&mut transaction, SubscriptionId(3), "token").unwrap_err();
    assert_eq!(error.source(), StoreError::UnknownSubscriber);
    let store = transaction.commit();
    assert_eq!(store.tokens().len(), 1);
    assert_eq!(store.tokens()[0].subscriber_id, SubscriptionId(1));
}

#[test]
fn a_subscriber_may_hold_several_tokens() {
    let store = store_with(
        vec![row(1, "a@b.c", SubscriptionStatus::PendingConfirmation)],
        vec![token("one", 1), token("two", 1)],
    );
    assert_eq!(store.subscriber_id_for("one"), Some(SubscriptionId(1)));
    assert_eq!(store.subscriber_id_for("two"), Some(SubscriptionId(1)));
    assert_eq!(store.subscriber_id_for("three"), None);
    assert_eq!(store.subscriber_id_for(""), None);
}

#[test]
fn confirming_flips_the_owner_of_the_token_and_nobody_else() {
    let mut store = store_with(
        vec![
            row(1, "a@b.c", SubscriptionStatus::PendingConfirmation),
            row(2, "d@e.f", SubscriptionStatus::PendingConfirmation),
            row(3, "g@h.i", SubscriptionStatus::PendingConfirmation),
        ],
        vec![token("one", 1), token("two", 2), token("three", 3)],
    );
    assert!(store.confirm_subscriber("two").is_ok());
    let statuses: Vec<SubscriptionStatus> = store.subscriptions().iter().map(|r| r.status).collect();
    assert_eq!(
        statuses,
        vec![
            SubscriptionStatus::PendingConfirmation,
            SubscriptionStatus::Confirmed,
            SubscriptionStatus::PendingConfirmation
        ]
    );
    assert_eq!(store.subscriptions()[1].status.as_str(), "confirmed");
    assert_eq!(store.subscriptions()[1].email, "d@e.f");
    assert_eq!(store.tokens().len(), 3);
}

#[test]
fn confirming_twice_is_not_an_error() {
    let mut store = store_with(
        vec![row(1, "a@b.c", SubscriptionStatus::PendingConfirmation)],
        vec![token("one", 1)],
    );
    assert!(store.confirm_subscriber("one").is_ok());
    assert!(store.confirm_subscriber("one").is_ok());
    assert_eq!(store.subscriptions()[0].status, SubscriptionStatus::Confirmed);
}

#[test]
fn confirming_an_unknown_token_changes_nothing() {
    let mut store = store_with(
        vec![row(1, "a@b.c", SubscriptionStatus::PendingConfirmation)],
        vec![token("one", 1)],
    );
    let error = store.confirm_subscriber("On").unwrap_err();
    assert!(matches!(error, ConfirmationError::TokenNotFound));
    assert_eq!(error.status_code(), 400);
    assert_eq!(store.subscriptions()[0].status, SubscriptionStatus::PendingConfirmation);
    assert_eq!(store.tokens().len(), 1);
}

#[test]
fn only_confirmed_subscribers_are_listed_in_table_order() {
    let store = store_with(
        vec![
            row(1, "a@b.c", SubscriptionStatus::Confirmed),
            row(2, "d@e.f", SubscriptionStatus::PendingConfirmation),
            row(3, "not an address", SubscriptionStatus::Confirmed),
            row(4, "g@h.i", SubscriptionStatus::Confirmed),
        ],
        vec![],
    );
    assert_eq!(store.list_confirmed_subscribers(), vec!["a@b.c", "not an address", "g@h.i"]);
}

#[test]
fn the_first_subscriber_of_an_empty_store_is_always_inserted() {
    for _ in 0..50 {
        let mut transaction = SubscriptionStore::new().begin();
        assert!(insert_subscriber(&ursula(), &mut transaction).is_ok());
        assert_eq!(transaction.commit().subscriptions().len(), 1);
    }
}
