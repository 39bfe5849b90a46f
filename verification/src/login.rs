//! The login initiator: issues the anti-forgery state and names the
//! provider's page that the browser is sent to.

use crate::fresh::{generate_state, is_alphanumeric_token, STATE_LEN};
use crate::oauth::{
    authorize_url_of, lemma_authorize_url_carries_state, lemma_authorize_url_hides_digest,
    OAuthConfig,
};
use crate::outcome::StoreFailure;
use crate::session::{EphemeralSession, EphemeralSessionView};
use crate::state_hash::{digest_accepts, hash, is_bcrypt_digest, HashError};
use crate::template::{contains_text, free_of};
use vstd::prelude::*;

verus! {

/// The session record of a browser that has been sent off to log in: `auth`
/// holds the digest, the other fields are as they were.
pub open spec fn pending_login(
    before: EphemeralSessionView,
    digest: Seq<char>,
) -> EphemeralSessionView {
    EphemeralSessionView { auth: Some(digest), ..before }
}

/// Records a pending login and names the page to send the browser to.
///
/// The record takes `digest`. The URL is the configured template filled in
/// with the client id, `state` as it is, and the redirect URI.
pub fn begin_login(
    session: &mut EphemeralSession,
    config: &OAuthConfig,
    state: &str,
    digest: String,
) -> (url: String)
    ensures
        final(session)@ == pending_login(old(session)@, digest@),
        url@ == authorize_url_of(
            config.authorise@,
            config.client_id@,
            state@,
            config.redirect_uri@,
        ),
{
    session.insert_auth(digest);
    config.authorize_url(state)
}

/// A configuration whose texts hold no dollar sign, so that no URL made from
/// it holds one.
pub open spec fn dollar_free(config: OAuthConfig) -> bool {
    &&& free_of(config.authorise@, '$')
    &&& free_of(config.client_id@, '$')
    &&& free_of(config.redirect_uri@, '$')
}

/// A login has been started with this state and this digest: the state is
/// thirty letters and digits and the digest vouches for it; the record holds
/// the digest, which is not the state; and the URL is the template filled in
/// with the state as it is. The URL carries the state wherever the template
/// has a place for it, and carries no digest where the configuration holds
/// no dollar sign.
pub open spec fn login_started(
    before: EphemeralSessionView,
    after: EphemeralSessionView,
    config: OAuthConfig,
    url: Seq<char>,
    state: Seq<char>,
    digest: Seq<char>,
) -> bool {
    &&& is_alphanumeric_token(state, STATE_LEN as nat)
    &&& is_bcrypt_digest(digest)
    &&& digest_accepts(digest, state)
    &&& digest != state
    &&& after == pending_login(before, digest)
    &&& url == authorize_url_of(
        config.authorise@,
        config.client_id@,
        state,
        config.redirect_uri@,
    )
    &&& contains_text(config.authorise@, "{state}"@) ==> contains_text(url, state)
    &&& dollar_free(config) ==> !contains_text(url, digest)
}

/// A login has been started with some state and some digest.
pub open spec fn login_was_started(
    before: EphemeralSessionView,
    after: EphemeralSessionView,
    config: OAuthConfig,
    url: Seq<char>,
) -> bool {
    exists|state: Seq<char>, digest: Seq<char>|
        login_started(before, after, config, url, state, digest)
}

/// Starts a login: draws a state, stores its digest in the session record
/// and returns the provider's URL that carries the state in plaintext.
///
/// The record takes the digest and never the state itself. Where the digest
/// cannot be made, nothing is written.
pub fn request(session: &mut EphemeralSession, config: &OAuthConfig) -> (res: Result<
    String,
    HashError,
>)
    ensures
        match res {
            Ok(url) => login_was_started(old(session)@, final(session)@, *config, url@),
            Err(_) => final(session)@ == old(session)@,
        },
{
    let state = generate_state();
    match hash(state.as_str()) {
        Ok(digest) => {
            let ghost digest_view = digest@;
            let url = begin_login(session, config, state.as_str(), digest);
            proof {
                if contains_text(config.authorise@, "{state}"@) {
                    lemma_authorize_url_carries_state(
                        config.authorise@,
                        config.client_id@,
                        state@,
                        config.redirect_uri@,
                    );
                }
                if dollar_free(*config) {
                    lemma_authorize_url_hides_digest(
                        config.authorise@,
                        config.client_id@,
                        state@,
                        config.redirect_uri@,
                        digest_view,
                    );
                }
                assert(login_started(
                    old(session)@,
                    session@,
                    *config,
                    url@,
                    state@,
                    digest_view,
                ));
            }
            Ok(url)
        },
        Err(error) => Err(error),
    }
}

/// How a request to start a login is answered.
#[derive(Debug)]
pub enum LoginAnswer {
    /// The browser is sent to this URL of the provider.
    Redirect(String),
    /// The login could not be started.
    ServerError,
}

/// What a [`LoginAnswer`] is, as mathematics.
pub ghost enum LoginAnswerView {
    Redirect(Seq<char>),
    ServerError,
}

impl View for LoginAnswer {
    type V = LoginAnswerView;

    open spec fn view(&self) -> LoginAnswerView {
        match *self {
            LoginAnswer::Redirect(url) => LoginAnswerView::Redirect(url@),
            LoginAnswer::ServerError => LoginAnswerView::ServerError,
        }
    }
}

/// The view of a URL or an error.
pub open spec fn started_view(started: Result<String, HashError>) -> Result<Seq<char>, HashError> {
    match started {
        Ok(url) => Ok(url@),
        Err(error) => Err(error),
    }
}

/// The answer to a request to start a login: the redirect where the login was
/// started and its digest was written into the session; a server error where
/// either failed. A login whose digest is not stored cannot be completed, so
/// its URL, which carries the state, is not handed out.
pub open spec fn login_answer(
    started: Result<Seq<char>, HashError>,
    written: Result<(), StoreFailure>,
) -> LoginAnswerView {
    match started {
        Ok(url) => if written is Ok {
            LoginAnswerView::Redirect(url)
        } else {
            LoginAnswerView::ServerError
        },
        Err(_) => LoginAnswerView::ServerError,
    }
}

/// The HTTP status of an answer: a temporary redirect, or a server error.
pub open spec fn login_status(answer: LoginAnswerView) -> u16 {
    match answer {
        LoginAnswerView::Redirect(_) => 307,
        LoginAnswerView::ServerError => 500,
    }
}

/// Decides on the answer once the session has been asked to take the digest.
///
/// `started` is what `request` returned and `written` what came of writing
/// the record's `auth` into the session; where no login was started there
/// was nothing to write and `written` is not looked at.
pub fn answer(started: Result<String, HashError>, written: Result<(), StoreFailure>) -> (res:
    LoginAnswer)
    ensures
        res@ == login_answer(started_view(started), written),
{
    match started {
        Ok(url) => match written {
            Ok(_) => LoginAnswer::Redirect(url),
            Err(_) => LoginAnswer::ServerError,
        },
        Err(_) => LoginAnswer::ServerError,
    }
}

impl LoginAnswer {
    /// The HTTP status of the answer.
    pub fn status(&self) -> (res: u16)
        ensures
            res == login_status(self@),
    {
        match self {
            LoginAnswer::Redirect(_) => 307,
            LoginAnswer::ServerError => 500,
        }
    }
}

} // verus!
