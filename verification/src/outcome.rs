//! How a request ends: the kinds of failure and what the client is told.

use vstd::prelude::*;

verus! {

/// The kinds of failure that the login core tells apart.
#[derive(Debug, Clone, Copy, PartialEq, Eq, Structural)]
pub enum ErrorKind {
    /// The anti-forgery state did not verify, or no login was pending.
    VerificationFailure,
    /// The provider or a store could not be reached.
    TransportFailure,
    /// The provider's reply was not of the expected shape.
    DeserializationFailure,
    /// A change to a session record or an account did not take effect.
    StoreWriteFailure,
    /// The session record lacks a field of a completed login.
    SessionAbsent,
    /// No account carries the session record's three fields.
    AccountNotFound,
}

/// A store did not do what it was asked.
#[derive(Debug, Clone, Copy, PartialEq, Eq, Structural)]
pub enum StoreFailure {
    /// The store did not answer.
    Unavailable,
    /// The store answered that the update changed no document.
    NothingModified,
}

/// Why the token endpoint gave no token.
#[derive(Debug, Clone, Copy, PartialEq, Eq, Structural)]
pub enum TokenError {
    /// The request did not go through.
    RequestFailed,
    /// The reply's body could not be read.
    BodyUnreadable,
    /// The body was not a token reply.
    Malformed,
}

/// Why a login did not complete.
#[derive(Debug, Clone, Copy, PartialEq, Eq, Structural)]
pub enum CallbackFailure {
    /// The session record could not be read.
    SessionUnreadable,
    /// The session record holds no pending login.
    AuthMissing,
    /// The state received does not verify against the stored digest.
    VerificationFailed,
    /// The token request did not go through.
    TokenRequestFailed,
    /// The token reply's body could not be read.
    TokenBodyUnreadable,
    /// The token reply was malformed.
    TokenMalformed,
    /// The profile could not be fetched or read.
    ProfileFailed,
    /// The account store did not say whether the identity is known.
    AccountCheckFailed,
    /// The account was not there when read back.
    AccountMissing,
    /// The account could not be read back.
    AccountReadFailed,
    /// No session handle was appended.
    SessionNotCreated,
    /// The session record did not take the login's fields.
    SessionNotBound,
    /// An event arrived that the handler was not waiting for.
    OutOfTurn,
}

/// How a callback ended.
#[derive(Debug, Clone, Copy, PartialEq, Eq, Structural)]
pub enum CallbackOutcome {
    Authenticated,
    Failed(CallbackFailure),
}

/// The kind that a callback failure belongs to.
pub open spec fn failure_kind(failure: CallbackFailure) -> ErrorKind {
    match failure {
        CallbackFailure::SessionUnreadable => ErrorKind::TransportFailure,
        CallbackFailure::AuthMissing => ErrorKind::VerificationFailure,
        CallbackFailure::VerificationFailed => ErrorKind::VerificationFailure,
        CallbackFailure::TokenRequestFailed => ErrorKind::TransportFailure,
        CallbackFailure::TokenBodyUnreadable => ErrorKind::TransportFailure,
        CallbackFailure::TokenMalformed => ErrorKind::DeserializationFailure,
        CallbackFailure::ProfileFailed => ErrorKind::TransportFailure,
        CallbackFailure::AccountCheckFailed => ErrorKind::TransportFailure,
        CallbackFailure::AccountMissing => ErrorKind::StoreWriteFailure,
        CallbackFailure::AccountReadFailed => ErrorKind::TransportFailure,
        CallbackFailure::SessionNotCreated => ErrorKind::StoreWriteFailure,
        CallbackFailure::SessionNotBound => ErrorKind::StoreWriteFailure,
        CallbackFailure::OutOfTurn => ErrorKind::TransportFailure,
    }
}

/// The HTTP status that an outcome is answered with.
pub open spec fn outcome_status(outcome: CallbackOutcome) -> u16 {
    match outcome {
        CallbackOutcome::Authenticated => 200,
        CallbackOutcome::Failed(_) => 500,
    }
}

impl CallbackFailure {
    /// The kind of the failure.
    pub fn kind(&self) -> (res: ErrorKind)
        ensures
            res == failure_kind(*self),
    {
        match self {
            CallbackFailure::SessionUnreadable => ErrorKind::TransportFailure,
            CallbackFailure::AuthMissing => ErrorKind::VerificationFailure,
            CallbackFailure::VerificationFailed => ErrorKind::VerificationFailure,
            CallbackFailure::TokenRequestFailed => ErrorKind::TransportFailure,
            CallbackFailure::TokenBodyUnreadable => ErrorKind::TransportFailure,
            CallbackFailure::TokenMalformed => ErrorKind::DeserializationFailure,
            CallbackFailure::ProfileFailed => ErrorKind::TransportFailure,
            CallbackFailure::AccountCheckFailed => ErrorKind::TransportFailure,
            CallbackFailure::AccountMissing => ErrorKind::StoreWriteFailure,
            CallbackFailure::AccountReadFailed => ErrorKind::TransportFailure,
            CallbackFailure::SessionNotCreated => ErrorKind::StoreWriteFailure,
            CallbackFailure::SessionNotBound => ErrorKind::StoreWriteFailure,
            CallbackFailure::OutOfTurn => ErrorKind::TransportFailure,
        }
    }

    /// The body that the client is sent. It names the step that failed and
    /// carries nothing of the request or of the stores.
    pub fn body(&self) -> (res: &'static str)
        ensures
            res@ == failure_body(*self),
    {
        match self {
            CallbackFailure::SessionUnreadable => "",
            CallbackFailure::AuthMissing => "Hash failed",
            CallbackFailure::VerificationFailed => "Verification failed",
            CallbackFailure::TokenRequestFailed => "",
            CallbackFailure::TokenBodyUnreadable => "Failed to serialize github response",
            CallbackFailure::TokenMalformed => "Failed to serialize github token to token response",
            CallbackFailure::ProfileFailed => "Failed to get user json response",
            CallbackFailure::AccountCheckFailed => "Could not get account exists from database",
            CallbackFailure::AccountMissing => "Could not find account from database",
            CallbackFailure::AccountReadFailed => "Could not GET account",
            CallbackFailure::SessionNotCreated => "Could not generate a session",
            CallbackFailure::SessionNotBound => "Could not set account session",
            CallbackFailure::OutOfTurn => "",
        }
    }
}

/// The body that a failure is answered with.
pub open spec fn failure_body(failure: CallbackFailure) -> Seq<char> {
    match failure {
        CallbackFailure::SessionUnreadable => ""@,
        CallbackFailure::AuthMissing => "Hash failed"@,
        CallbackFailure::VerificationFailed => "Verification failed"@,
        CallbackFailure::TokenRequestFailed => ""@,
        CallbackFailure::TokenBodyUnreadable => "Failed to serialize github response"@,
        CallbackFailure::TokenMalformed => "Failed to serialize github token to token response"@,
        CallbackFailure::ProfileFailed => "Failed to get user json response"@,
        CallbackFailure::AccountCheckFailed => "Could not get account exists from database"@,
        CallbackFailure::AccountMissing => "Could not find account from database"@,
        CallbackFailure::AccountReadFailed => "Could not GET account"@,
        CallbackFailure::SessionNotCreated => "Could not generate a session"@,
        CallbackFailure::SessionNotBound => "Could not set account session"@,
        CallbackFailure::OutOfTurn => ""@,
    }
}

impl CallbackOutcome {
    /// The HTTP status of the answer.
    pub fn status(&self) -> (res: u16)
        ensures
            res == outcome_status(*self),
    {
        match self {
            CallbackOutcome::Authenticated => 200,
            CallbackOutcome::Failed(_) => 500,
        }
    }

    /// The body of the answer: a plain confirmation, or the failure's body.
    pub fn body(&self) -> (res: &'static str)
        ensures
            res@ == match *self {
                CallbackOutcome::Authenticated => "Successfully authenticated."@,
                CallbackOutcome::Failed(failure) => failure_body(failure),
            },
    {
        match self {
            CallbackOutcome::Authenticated => "Successfully authenticated.",
            CallbackOutcome::Failed(failure) => failure.body(),
        }
    }
}

/// What a client is answered with: an HTTP status and a body.
#[derive(Debug, Clone, Copy, PartialEq, Eq)]
pub struct Answer {
    pub status: u16,
    pub body: &'static str,
}

impl View for Answer {
    type V = (u16, Seq<char>);

    open spec fn view(&self) -> (u16, Seq<char>) {
        (self.status, self.body@)
    }
}

} // verus!
