//! The short-lived session record that a browser's cookie addresses.
//!
//! While a login is pending the record holds the digest of its anti-forgery
//! state under `auth`. A completed login leaves `session`, `uuid` and
//! `provider_id` in it. Nothing here expires: eviction is the store's business.

use crate::user::text_view;
use vstd::prelude::*;

verus! {

/// The four fields of a session record, each present or absent.
#[derive(Debug)]
pub struct EphemeralSession {
    pub auth: Option<String>,
    pub session: Option<String>,
    pub uuid: Option<String>,
    pub provider_id: Option<u64>,
}

/// What an [`EphemeralSession`] is, as mathematics.
pub ghost struct EphemeralSessionView {
    pub auth: Option<Seq<char>>,
    pub session: Option<Seq<char>>,
    pub uuid: Option<Seq<char>>,
    pub provider_id: Option<u64>,
}

impl View for EphemeralSession {
    type V = EphemeralSessionView;

    open spec fn view(&self) -> EphemeralSessionView {
        EphemeralSessionView {
            auth: text_view(self.auth),
            session: text_view(self.session),
            uuid: text_view(self.uuid),
            provider_id: self.provider_id,
        }
    }
}

/// The three fields that a completed login leaves behind.
#[derive(Debug)]
pub struct SessionTriple {
    pub session_id: String,
    pub uuid: String,
    pub provider_id: u64,
}

/// What a [`SessionTriple`] is, as mathematics.
pub ghost struct SessionTripleView {
    pub session_id: Seq<char>,
    pub uuid: Seq<char>,
    pub provider_id: u64,
}

impl View for SessionTriple {
    type V = SessionTripleView;

    open spec fn view(&self) -> SessionTripleView {
        SessionTripleView {
            session_id: self.session_id@,
            uuid: self.uuid@,
            provider_id: self.provider_id,
        }
    }
}

/// A field of the record that a reader asked for.
#[derive(Debug, Clone, Copy, PartialEq, Eq, Structural)]
pub enum SessionField {
    Session,
    Uuid,
    ProviderId,
}

/// The first of `session`, `uuid`, `provider_id` that a record lacks.
pub open spec fn first_missing(s: EphemeralSessionView) -> Option<SessionField> {
    if s.session is None {
        Some(SessionField::Session)
    } else if s.uuid is None {
        Some(SessionField::Uuid)
    } else if s.provider_id is None {
        Some(SessionField::ProviderId)
    } else {
        None
    }
}

/// The record after a completed login has been bound into it: the three login
/// fields are set and `auth` is as it was.
pub open spec fn bound_session(
    s: EphemeralSessionView,
    session_id: Seq<char>,
    uuid: Seq<char>,
    provider_id: u64,
) -> EphemeralSessionView {
    EphemeralSessionView {
        auth: s.auth,
        session: Some(session_id),
        uuid: Some(uuid),
        provider_id: Some(provider_id),
    }
}

impl EphemeralSession {
    /// The record of a browser that has not been seen before.
    pub fn new() -> (res: Self)
        ensures
            res@ == (EphemeralSessionView {
                auth: None,
                session: None,
                uuid: None,
                provider_id: None,
            }),
    {
        EphemeralSession { auth: None, session: None, uuid: None, provider_id: None }
    }

    /// Stores the digest of a pending login's state, replacing any other.
    pub fn insert_auth(&mut self, digest: String)
        ensures
            final(self)@ == (EphemeralSessionView { auth: Some(digest@), ..old(self)@ }),
    {
        self.auth = Some(digest);
    }

    /// Takes the digest of the pending login out of the record.
    ///
    /// The digest is for one use: whatever becomes of the check it is taken
    /// for, the record no longer holds it.
    pub fn remove_auth(&mut self) -> (res: Option<String>)
        ensures
            text_view(res) == old(self)@.auth,
            final(self)@ == (EphemeralSessionView { auth: None, ..old(self)@ }),
    {
        self.auth.take()
    }

    /// Reads the three login fields, or names the first that is absent.
    pub fn triple(&self) -> (res: Result<SessionTriple, SessionField>)
        ensures
            match res {
                Ok(t) => {
                    &&& first_missing(self@) is None
                    &&& self@.session == Some(t.session_id@)
                    &&& self@.uuid == Some(t.uuid@)
                    &&& self@.provider_id == Some(t.provider_id)
                },
                Err(field) => first_missing(self@) == Some(field),
            },
    {
        let session_id = match &self.session {
            Some(s) => s.clone(),
            None => {
                return Err(SessionField::Session);
            },
        };
        let uuid = match &self.uuid {
            Some(u) => u.clone(),
            None => {
                return Err(SessionField::Uuid);
            },
        };
        let provider_id = match self.provider_id {
            Some(id) => id,
            None => {
                return Err(SessionField::ProviderId);
            },
        };
        Ok(SessionTriple { session_id, uuid, provider_id })
    }

    /// Writes the three login fields.
    pub fn bind(&mut self, session_id: String, uuid: String, provider_id: u64)
        ensures
            final(self)@ == bound_session(old(self)@, session_id@, uuid@, provider_id),
    {
        self.session = Some(session_id);
        self.provider_id = Some(provider_id);
        self.uuid = Some(uuid);
    }
}

} // verus!
