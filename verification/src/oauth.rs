//! What is exchanged with the OAuth2 provider: the client's configuration, the
//! requests built from it and the replies read back.

use crate::outcome::TokenError;
use crate::fresh::{is_alphanumeric, is_alphanumeric_token, STATE_LEN};
use crate::state_hash::is_bcrypt_digest;
use crate::template::{
    contains_text, free_of, lemma_substitute_free_of, lemma_substitute_keeps,
    lemma_substitute_replaces, occurs_at, replace_all, substitute,
};
use crate::user::{clone_text, text_view};
use vstd::prelude::*;
use vstd::string::*;

verus! {

/// The authorize endpoint with its three placeholders.
pub const AUTHORISE_TEMPLATE: &'static str =
    "https://github.com/login/oauth/authorize?client_id={client_id}&state={state}&redirect_uri={redirect_uri}";

/// The token endpoint, up to the client id.
pub const TOKEN_ENDPOINT: &'static str = "https://github.com/login/oauth/access_token?client_id=";

/// The profile endpoint.
pub const PROFILE_ENDPOINT: &'static str = "https://api.github.com/user";

/// The user agent sent to the profile endpoint.
pub const PROFILE_USER_AGENT: &'static str = "Danielle's Blog API";

/// The client's registration with the provider.
#[derive(Debug)]
pub struct OAuthConfig {
    pub client_id: String,
    pub client_secret: String,
    pub redirect_uri: String,
    pub authorise: String,
}

/// What the provider's redirect carries back.
#[derive(Debug)]
pub struct AuthRequest {
    pub state: String,
    pub code: String,
}

/// What the token endpoint is asked with.
#[derive(Debug)]
pub struct TokenRequest {
    pub client_id: String,
    pub client_secret: String,
    pub code: String,
}

/// The token endpoint's reply.
#[derive(Debug)]
pub struct TokenResponse {
    pub access_token: String,
    pub scope: String,
    pub token_type: String,
}

/// The profile endpoint's reply; what the provider left null is `None`.
#[derive(Debug)]
pub struct UserResponse {
    pub login: Option<String>,
    pub id: u64,
    pub name: Option<String>,
    pub email: Option<String>,
}

/// Why the provider gave no usable reply.
#[derive(Debug, Clone, Copy, PartialEq, Eq, Structural)]
pub enum UserError {
    /// The request did not go through, or its body could not be read.
    RequestError,
    /// The body was not of the expected shape.
    DeserializationError,
}

impl Clone for OAuthConfig {
    fn clone(&self) -> (res: Self)
        ensures
            res.client_id@ == self.client_id@,
            res.client_secret@ == self.client_secret@,
            res.redirect_uri@ == self.redirect_uri@,
            res.authorise@ == self.authorise@,
    {
        OAuthConfig {
            client_id: self.client_id.clone(),
            client_secret: self.client_secret.clone(),
            redirect_uri: self.redirect_uri.clone(),
            authorise: self.authorise.clone(),
        }
    }
}

/// The authorize URL for a template, a client and a state: the template with
/// the client id filled in first, then the state, then the redirect URI.
pub open spec fn authorize_url_of(
    template: Seq<char>,
    client_id: Seq<char>,
    state: Seq<char>,
    redirect_uri: Seq<char>,
) -> Seq<char> {
    substitute(
        substitute(substitute(template, "{client_id}"@, client_id), "{state}"@, state),
        "{redirect_uri}"@,
        redirect_uri,
    )
}

/// The token endpoint's URL for a client and a code.
pub open spec fn exchange_url_of(
    client_id: Seq<char>,
    client_secret: Seq<char>,
    code: Seq<char>,
) -> Seq<char> {
    TOKEN_ENDPOINT@ + client_id + "&client_secret="@ + client_secret + "&code="@ + code
}

impl OAuthConfig {
    /// A configuration for the provider's standard authorize endpoint.
    pub fn new(client_id: String, client_secret: String, redirect_uri: String) -> (res: Self)
        ensures
            res.client_id == client_id,
            res.client_secret == client_secret,
            res.redirect_uri == redirect_uri,
            res.authorise@ == AUTHORISE_TEMPLATE@,
    {
        OAuthConfig {
            client_id,
            client_secret,
            redirect_uri,
            authorise: String::from_str(AUTHORISE_TEMPLATE),
        }
    }

    /// Where the browser is sent to log in, carrying `state` in plaintext.
    pub fn authorize_url(&self, state: &str) -> (res: String)
        ensures
            res@ == authorize_url_of(
                self.authorise@,
                self.client_id@,
                state@,
                self.redirect_uri@,
            ),
    {
        let with_client = replace_all(self.authorise.as_str(), "{client_id}", self.client_id.as_str());
        let with_state = replace_all(with_client.as_str(), "{state}", state);
        replace_all(with_state.as_str(), "{redirect_uri}", self.redirect_uri.as_str())
    }
}

impl TokenRequest {
    /// The request that redeems the code of a provider redirect.
    pub fn new(config: &OAuthConfig, info: &AuthRequest) -> (res: Self)
        ensures
            res.client_id@ == config.client_id@,
            res.client_secret@ == config.client_secret@,
            res.code@ == info.code@,
    {
        TokenRequest {
            client_id: config.client_id.clone(),
            client_secret: config.client_secret.clone(),
            code: info.code.clone(),
        }
    }

    /// The URL that the request is posted to.
    pub fn exchange_url(&self) -> (res: String)
        ensures
            res@ == exchange_url_of(self.client_id@, self.client_secret@, self.code@),
    {
        let mut url = String::from_str(TOKEN_ENDPOINT);
        url.append(self.client_id.as_str());
        url.append("&client_secret=");
        url.append(self.client_secret.as_str());
        url.append("&code=");
        url.append(self.code.as_str());
        url
    }
}

/// What a callback reads of a token reply: the access token, or the error.
pub open spec fn token_reply_view(reply: Result<TokenResponse, TokenError>) -> Result<
    Seq<char>,
    TokenError,
> {
    match reply {
        Ok(token) => Ok(token.access_token@),
        Err(error) => Err(error),
    }
}

/// What a callback reads of a profile.
pub ghost struct ProfileView {
    pub id: u64,
    pub name: Option<Seq<char>>,
    pub email: Option<Seq<char>>,
}

/// What a callback reads of a profile reply: the identity, or the error.
pub open spec fn profile_reply_view(reply: Result<UserResponse, UserError>) -> Result<
    ProfileView,
    UserError,
> {
    match reply {
        Ok(user) => Ok(
            ProfileView { id: user.id, name: text_view(user.name), email: text_view(user.email) },
        ),
        Err(error) => Err(error),
    }
}

/// Copies a token reply.
pub fn clone_token_reply(reply: &Result<TokenResponse, TokenError>) -> (res: Result<
    TokenResponse,
    TokenError,
>)
    ensures
        token_reply_view(res) == token_reply_view(*reply),
{
    match reply {
        Ok(token) => Ok(
            TokenResponse {
                access_token: token.access_token.clone(),
                scope: token.scope.clone(),
                token_type: token.token_type.clone(),
            },
        ),
        Err(error) => Err(*error),
    }
}

/// Copies a profile reply.
pub fn clone_profile_reply(reply: &Result<UserResponse, UserError>) -> (res: Result<
    UserResponse,
    UserError,
>)
    ensures
        profile_reply_view(res) == profile_reply_view(*reply),
{
    match reply {
        Ok(user) => Ok(
            UserResponse {
                login: clone_text(&user.login),
                id: user.id,
                name: clone_text(&user.name),
                email: clone_text(&user.email),
            },
        ),
        Err(error) => Err(*error),
    }
}

/// The redirect carries the state: where the template holds the placeholder
/// `{state}`, the URL made from it holds the state as it is, whatever the
/// client id and the redirect URI are. The other two placeholders cannot eat
/// into it: `{client_id}` cannot overlap `{state}`, and `{redirect_uri}`
/// begins and ends with a brace, which a state of letters and digits lacks.
pub proof fn lemma_authorize_url_carries_state(
    template: Seq<char>,
    client_id: Seq<char>,
    state: Seq<char>,
    redirect_uri: Seq<char>,
)
    requires
        contains_text(template, "{state}"@),
        is_alphanumeric_token(state, STATE_LEN as nat),
    ensures
        contains_text(authorize_url_of(template, client_id, state, redirect_uri), state),
{
    reveal_strlit("{client_id}");
    reveal_strlit("{state}");
    reveal_strlit("{redirect_uri}");
    let p1 = "{client_id}"@;
    let p2 = "{state}"@;
    let p3 = "{redirect_uri}"@;
    assert(p1 =~= seq!['{', 'c', 'l', 'i', 'e', 'n', 't', '_', 'i', 'd', '}']);
    assert(p2 =~= seq!['{', 's', 't', 'a', 't', 'e', '}']);
    assert(p3 =~= seq!['{', 'r', 'e', 'd', 'i', 'r', 'e', 'c', 't', '_', 'u', 'r', 'i', '}']);
    let p = choose|p: int| occurs_at(template, p, p2);
    assert(occurs_at(template, p, p2));
    assert forall|j: int| #[trigger] occurs_at(template, j, p1) implies j + p1.len() <= p || j >= p
        + p2.len() by {
        if !(j + 11 <= p || j >= p + 7) {
            if j < p {
                assert(template.subrange(j, j + 11)[p - j] == template[p]);
                assert(template.subrange(p, p + 7)[0] == template[p]);
                assert(p1[p - j] == '{');
            } else {
                assert(template.subrange(p, p + 7)[j - p] == template[j]);
                assert(template.subrange(j, j + 11)[0] == template[j]);
                assert(p2[j - p] == '{');
                assert(j == p);
                assert(template.subrange(p, p + 7)[1] == template[p + 1]);
                assert(template.subrange(j, j + 11)[1] == template[j + 1]);
            }
        }
    }
    lemma_substitute_keeps(template, p1, client_id, p, p2);
    let t1 = substitute(template, p1, client_id);
    let q1 = choose|q: int| occurs_at(t1, q, p2);
    lemma_substitute_replaces(t1, p2, state, q1);
    let t2 = substitute(t1, p2, state);
    let q2 = choose|q: int| occurs_at(t2, q, state);
    assert(occurs_at(t2, q2, state));
    assert forall|j: int| #[trigger] occurs_at(t2, j, p3) implies j + p3.len() <= q2 || j >= q2
        + state.len() by {
        if !(j + 14 <= q2 || j >= q2 + 30) {
            if j < q2 {
                assert(t2.subrange(j, j + 14)[13] == t2[j + 13]);
                assert(t2.subrange(q2, q2 + 30)[j + 13 - q2] == t2[j + 13]);
                assert(is_alphanumeric(state[j + 13 - q2]));
                assert(state[j + 13 - q2] == '}');
            } else {
                assert(t2.subrange(j, j + 14)[0] == t2[j]);
                assert(t2.subrange(q2, q2 + 30)[j - q2] == t2[j]);
                assert(is_alphanumeric(state[j - q2]));
                assert(state[j - q2] == '{');
            }
        }
    }
    lemma_substitute_keeps(t2, p3, redirect_uri, q2, state);
}

/// The redirect does not carry the digest: where neither the template nor
/// the client id nor the redirect URI holds a dollar sign, the URL holds
/// none, and so holds no digest, which begins with one.
pub proof fn lemma_authorize_url_hides_digest(
    template: Seq<char>,
    client_id: Seq<char>,
    state: Seq<char>,
    redirect_uri: Seq<char>,
    digest: Seq<char>,
)
    requires
        free_of(template, '$'),
        free_of(client_id, '$'),
        free_of(redirect_uri, '$'),
        is_alphanumeric_token(state, STATE_LEN as nat),
        is_bcrypt_digest(digest),
    ensures
        free_of(authorize_url_of(template, client_id, state, redirect_uri), '$'),
        !contains_text(authorize_url_of(template, client_id, state, redirect_uri), digest),
{
    assert forall|i: int| 0 <= i < state.len() implies #[trigger] state[i] != '$' by {
        assert(is_alphanumeric(state[i]));
    }
    let t1 = substitute(template, "{client_id}"@, client_id);
    lemma_substitute_free_of(template, "{client_id}"@, client_id, '$');
    let t2 = substitute(t1, "{state}"@, state);
    lemma_substitute_free_of(t1, "{state}"@, state, '$');
    let url = substitute(t2, "{redirect_uri}"@, redirect_uri);
    lemma_substitute_free_of(t2, "{redirect_uri}"@, redirect_uri, '$');
    assert forall|i: int| !occurs_at(url, i, digest) by {
        if occurs_at(url, i, digest) {
            assert(url.subrange(i, i + 60)[0] == url[i]);
        }
    }
}

} // verus!
