//! Login and session-linkage core of a small blog backend.
//!
//! A browser logs in through a third-party OAuth2 provider. The login is bound
//! to the browser by a one-time anti-forgery state whose bcrypt digest lives in
//! a short-lived, cookie-addressed session record. A completed login appends a
//! session handle to the durable account and writes the handle, the account's
//! identifier and the provider's identifier into that record. Every protected
//! operation resolves the record back to an account by matching all three.
//!
//! The two stores and the provider are outside services. The decisions taken
//! between their replies are functions from state and event to next state and
//! action; the embedding program performs each action and reports what came back.
//! An in-memory document collection and session record give those actions a
//! reference meaning, against which whole login flows are stated and proved.

/// Durable accounts, what is done to them, and the session resolver.
pub mod user;
/// The state verifier: hashing a state and checking one against a digest.
pub mod state_hash;
/// Freshly drawn states, session handles and account identifiers.
pub mod fresh;
/// Filling placeholders in a template.
pub mod template;
/// The client's configuration and what is exchanged with the provider.
pub mod oauth;
/// The session record behind a browser's cookie.
pub mod session;
/// The account store's interface and an in-memory collection behind it.
pub mod store;
/// Kinds of failure and what the client is told.
pub mod outcome;
/// The callback handler, one transition at a time.
pub mod callback;
/// The login initiator.
pub mod login;
/// A whole callback against the in-memory record and store, and what holds
/// of every such run.
pub mod flow;
/// The rules of the blog's handlers.
pub mod blog;
/// The rule of file delivery.
pub mod cdn;
