//! Subscriber onboarding for a newsletter with double opt-in: validated
//! subscriber identity, a transactional subscription store, confirmation
//! tokens, and delivery of a newsletter issue to every confirmed subscriber.
//!
//! Nothing in this crate performs I/O. Each workflow is a state machine that
//! names the next piece of outside work and is told how it went; the same
//! machines are run here against the in-memory store, where their properties
//! are proved.

pub mod domain;
pub mod email_client;
pub mod error;
pub mod routes;
pub mod startup;
pub mod store;
