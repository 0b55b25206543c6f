//! The OAuth tokens of the bot and the decisions about keeping them valid.
use vstd::prelude::*;
use crate::url::{percent_encoded, url_encode};

verus! {

/// The bot's credentials: the token pair and the application's id and secret.
pub struct Auth {
    refresh_token: String,
    access_token: String,
    client_id: String,
    client_secret: String,
}

/// The abstract form of [`Auth`].
pub struct AuthView {
    pub refresh_token: Seq<char>,
    pub access_token: Seq<char>,
    pub client_id: Seq<char>,
    pub client_secret: Seq<char>,
}

impl View for Auth {
    type V = AuthView;

    closed spec fn view(&self) -> AuthView {
        AuthView {
            refresh_token: self.refresh_token@,
            access_token: self.access_token@,
            client_id: self.client_id@,
            client_secret: self.client_secret@,
        }
    }
}

/// The body of a successful token refresh.
#[derive(Clone, Debug)]
pub struct RefreshResponse {
    pub access_token: String,
    pub refresh_token: String,
}

/// What the answer to a token validation request means.
#[derive(Clone, Copy, Debug, PartialEq, Eq, Structural)]
pub enum TokenCheck {
    /// The access token is valid.
    Valid,
    /// The access token was refused: refresh the tokens.
    Refresh,
    /// The request failed otherwise: report the error.
    Failed,
}

/// A status that `reqwest::Response::error_for_status` turns into an error:
/// a client error (4xx) or a server error (5xx).
pub open spec fn is_error_status(status: u16) -> bool {
    400 <= status <= 599
}

/// The outcome of validation for an answer with status `status`.
pub open spec fn spec_token_check(status: u16) -> TokenCheck {
    if !is_error_status(status) {
        TokenCheck::Valid
    } else if status == 401 {
        TokenCheck::Refresh
    } else {
        TokenCheck::Failed
    }
}

/// The query of the refresh request: the grant type, then the refresh token,
/// client id and client secret, each percent-encoded.
pub open spec fn refresh_query_holds(auth: AuthView, query: Seq<(String, String)>) -> bool {
    &&& query.len() == 4
    &&& query[0].0@ == "grant_type"@ && query[0].1@ == "refresh_token"@
    &&& query[1].0@ == "refresh_token"@ && query[1].1@ == percent_encoded(auth.refresh_token)
    &&& query[2].0@ == "client_id"@ && query[2].1@ == percent_encoded(auth.client_id)
    &&& query[3].0@ == "client_secret"@ && query[3].1@ == percent_encoded(auth.client_secret)
}

impl Auth {
    /// Credentials made of the given tokens, id and secret.
    pub fn new(
        refresh_token: String,
        access_token: String,
        client_id: String,
        client_secret: String,
    ) -> (r: Auth)
        ensures
            r@ == (AuthView {
                refresh_token: refresh_token@,
                access_token: access_token@,
                client_id: client_id@,
                client_secret: client_secret@,
            }),
    {
        Auth { refresh_token, access_token, client_id, client_secret }
    }

    /// The application's client id.
    pub fn get_client_id(&self) -> (r: &String)
        ensures
            r@ == self@.client_id,
    {
        &self.client_id
    }

    /// The current access token, as it stands, without validating it.
    pub fn access_token(&self) -> (r: &String)
        ensures
            r@ == self@.access_token,
    {
        &self.access_token
    }

    /// The `Authorization` header of the validation request: `OAuth <access token>`.
    pub fn validation_header(&self) -> (r: String)
        ensures
            r@ == "OAuth "@ + self@.access_token,
    {
        let mut header = String::from_str("OAuth ");
        header.append(self.access_token.as_str());
        header
    }

    /// What a validation answer with this status means: the token is valid
    /// unless the status is an error; a 401 asks for a refresh, any other
    /// error fails.
    pub fn token_check(status: u16) -> (r: TokenCheck)
        ensures
            r == spec_token_check(status),
    {
        if !(400 <= status && status <= 599) {
            TokenCheck::Valid
        } else if status == 401 {
            TokenCheck::Refresh
        } else {
            TokenCheck::Failed
        }
    }

    /// The query of the refresh request.
    pub fn refresh_query(&self) -> (r: Vec<(String, String)>)
        ensures
            refresh_query_holds(self@, r@),
    {
        let mut query: Vec<(String, String)> = Vec::new();
        query.push((String::from_str("grant_type"), String::from_str("refresh_token")));
        query.push(
            (String::from_str("refresh_token"), url_encode(self.refresh_token.as_str())),
        );
        query.push((String::from_str("client_id"), url_encode(self.client_id.as_str())));
        query.push(
            (String::from_str("client_secret"), url_encode(self.client_secret.as_str())),
        );
        query
    }

    /// Takes the tokens of a successful refresh; the client id and secret stay.
    pub fn apply_refresh(&mut self, response: RefreshResponse)
        ensures
            final(self)@ == (AuthView {
                access_token: response.access_token@,
                refresh_token: response.refresh_token@,
                ..old(self)@
            }),
    {
        self.access_token = response.access_token;
        self.refresh_token = response.refresh_token;
    }
}

} // verus!
