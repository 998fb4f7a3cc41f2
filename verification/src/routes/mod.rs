//! The workflows: onboarding, confirmation and broadcast.

pub mod newsletters;
pub mod subscriptions;
pub mod subscriptions_confirm;

pub use crate::error::error_chain_fmt;
pub use newsletters::{publish_newsletter, BodyData, ConfirmedSubscriber, Content, PublishError};
pub use subscriptions::{
    generate_subscription_token, insert_subscriber, store_token, subscribe, StoreTokenError,
    SubscribeData, SubscribeError,
};
pub use subscriptions_confirm::confirm;
