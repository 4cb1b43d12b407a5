//! The Instagram login: its OAuth settings, the Graph API token requests,
//! the profile check of a token, and the token and error replies.
use vstd::prelude::*;
use vstd::string::StringExecFns;
use crate::{graph_url, query_pair, ApiRequest, INSTAGRAM_GRAPH_ENDPOINT};

verus! {

/// Where the user is sent to authorize the app.
pub const INSTAGRAM_AUTH_URL: &'static str = "https://www.instagram.com/oauth/authorize";

/// Where an authorization code is exchanged for a short-lived token.
pub const INSTAGRAM_TOKEN_URL: &'static str = "https://api.instagram.com/oauth/access_token";

/// The scope the login asks for.
pub const LOGIN_SCOPE: &'static str = "instagram_business_basic";

/// Where a short-lived token is exchanged for a long-lived one.
pub const LONG_LIVED_TOKEN_URL: &'static str = "https://graph.instagram.com/access_token";

/// Where a long-lived token is refreshed.
pub const REFRESH_TOKEN_URL: &'static str = "https://graph.instagram.com/refresh_access_token";

/// `url::Url::parse` succeeds on the text.
pub uninterp spec fn url_parses(text: Seq<char>) -> bool;

/// `url::Url::parse` (as re-exported by `oauth2`), which the OAuth URL types
/// are built with. Trusted to answer `url_parses(text)`.
#[verifier::external_body]
fn parses_as_url(text: &str) -> (ok: bool)
    ensures
        ok == url_parses(text@),
{
    oauth2::url::Url::parse(text).is_ok()
}

/// The OAuth client of the Instagram login: its credentials and endpoints;
/// the credentials travel in the request body.
#[derive(Debug)]
pub struct OAuthSettings {
    pub client_id: String,
    pub client_secret: String,
    pub auth_url: String,
    pub token_url: String,
    pub redirect_url: String,
}

/// Which address of the OAuth settings is not a URL.
#[derive(Debug, Clone, Copy, PartialEq, Eq, Structural)]
pub enum OAuthConfigError {
    InvalidAuthUrl,
    InvalidTokenUrl,
    InvalidRedirectUrl,
}

/// The outcome of configuring the login: the first address, in the order
/// authorization, token, redirect, that is not a URL, or success.
pub open spec fn oauth_settings_check(redirect_url: Seq<char>) -> Result<(), OAuthConfigError> {
    if !url_parses(INSTAGRAM_AUTH_URL@) {
        Err(OAuthConfigError::InvalidAuthUrl)
    } else if !url_parses(INSTAGRAM_TOKEN_URL@) {
        Err(OAuthConfigError::InvalidTokenUrl)
    } else if !url_parses(redirect_url) {
        Err(OAuthConfigError::InvalidRedirectUrl)
    } else {
        Ok(())
    }
}

/// The outcome of configuring the login given whether the authorization,
/// token and redirect addresses parse as URLs: the first that does not, in
/// that order, or success.
pub fn settings_url_check(auth_url_ok: bool, token_url_ok: bool, redirect_url_ok: bool) -> (res:
    Result<(), OAuthConfigError>)
    ensures
        res == if !auth_url_ok {
            Err(OAuthConfigError::InvalidAuthUrl)
        } else if !token_url_ok {
            Err(OAuthConfigError::InvalidTokenUrl)
        } else if !redirect_url_ok {
            Err(OAuthConfigError::InvalidRedirectUrl)
        } else {
            Ok::<(), OAuthConfigError>(())
        },
{
    if !auth_url_ok {
        Err(OAuthConfigError::InvalidAuthUrl)
    } else if !token_url_ok {
        Err(OAuthConfigError::InvalidTokenUrl)
    } else if !redirect_url_ok {
        Err(OAuthConfigError::InvalidRedirectUrl)
    } else {
        Ok(())
    }
}

/// The OAuth settings of the Instagram login for the app's credentials and
/// redirect address.
pub fn instagram_oauth_settings(client_id: String, client_secret: String, redirect_url: String) -> (res:
    Result<OAuthSettings, OAuthConfigError>)
    ensures
        match res {
            Ok(settings) => {
                &&& oauth_settings_check(redirect_url@) is Ok
                &&& settings.client_id@ == client_id@
                &&& settings.client_secret@ == client_secret@
                &&& settings.auth_url@ == INSTAGRAM_AUTH_URL@
                &&& settings.token_url@ == INSTAGRAM_TOKEN_URL@
                &&& settings.redirect_url@ == redirect_url@
            },
            Err(e) => oauth_settings_check(redirect_url@) == Err::<(), OAuthConfigError>(e),
        },
{
    let auth_url_ok = parses_as_url(INSTAGRAM_AUTH_URL);
    let token_url_ok = parses_as_url(INSTAGRAM_TOKEN_URL);
    let redirect_url_ok = parses_as_url(redirect_url.as_str());
    if let Err(e) = settings_url_check(auth_url_ok, token_url_ok, redirect_url_ok) {
        return Err(e);
    }
    Ok(
        OAuthSettings {
            client_id,
            client_secret,
            auth_url: String::from_str(INSTAGRAM_AUTH_URL),
            token_url: String::from_str(INSTAGRAM_TOKEN_URL),
            redirect_url,
        },
    )
}

/// A token request: `url` with `grant_type`, `client_secret` and
/// `access_token`, in that order.
fn token_grant_request(url: &str, grant_type: &str, client_secret: &str, token: &str) -> (req:
    ApiRequest)
    ensures
        req.url@ == url@,
        req.query_view() == seq![
            ("grant_type"@, grant_type@),
            ("client_secret"@, client_secret@),
            ("access_token"@, token@),
        ],
{
    let mut query: Vec<(String, String)> = Vec::new();
    query.push(query_pair("grant_type", grant_type));
    query.push(query_pair("client_secret", client_secret));
    query.push(query_pair("access_token", token));
    let req = ApiRequest { url: url.to_owned(), query };
    assert(req.query_view() =~= seq![
        ("grant_type"@, grant_type@),
        ("client_secret"@, client_secret@),
        ("access_token"@, token@),
    ]);
    req
}

/// The request that exchanges a short-lived token for a long-lived one.
pub fn long_lived_token_request(client_secret: &str, token: &str) -> (req: ApiRequest)
    ensures
        req.url@ == LONG_LIVED_TOKEN_URL@,
        req.query_view() == seq![
            ("grant_type"@, "ig_exchange_token"@),
            ("client_secret"@, client_secret@),
            ("access_token"@, token@),
        ],
{
    token_grant_request(LONG_LIVED_TOKEN_URL, "ig_exchange_token", client_secret, token)
}

/// The request that refreshes a long-lived token.
pub fn refresh_token_request(client_secret: &str, token: &str) -> (req: ApiRequest)
    ensures
        req.url@ == REFRESH_TOKEN_URL@,
        req.query_view() == seq![
            ("grant_type"@, "ig_refresh_token"@),
            ("client_secret"@, client_secret@),
            ("access_token"@, token@),
        ],
{
    token_grant_request(REFRESH_TOKEN_URL, "ig_refresh_token", client_secret, token)
}

/// The request that checks a token by reading the account's profile.
pub fn profile_request(token: &str) -> (req: ApiRequest)
    ensures
        req.url@ == INSTAGRAM_GRAPH_ENDPOINT@ + "/me"@,
        req.query_view() == seq![("fields"@, "user_id,username"@), ("access_token"@, token@)],
{
    let url = graph_url("/me");
    let mut query: Vec<(String, String)> = Vec::new();
    query.push(query_pair("fields", "user_id,username"));
    query.push(query_pair("access_token", token));
    let req = ApiRequest { url, query };
    assert(req.query_view() =~= seq![("fields"@, "user_id,username"@), ("access_token"@, token@)]);
    req
}

/// Whether the JSON text `body` has a member `field` at its top level
/// (`None` when `body` is not JSON), as `serde_json` reads it.
pub uninterp spec fn json_member_present(body: Seq<u8>, field: Seq<char>) -> Option<bool>;

/// `serde_json::from_slice` into a `serde_json::Value`, then
/// `Value::get(field)`. Trusted to answer `json_member_present(body, field)`.
#[verifier::external_body]
fn json_has_member(body: &[u8], field: &str) -> (present: Option<bool>)
    ensures
        present == json_member_present(body@, field@),
{
    serde_json::from_slice::<serde_json::Value>(body).ok().map(|v| v.get(field).is_some())
}

/// The profile reply was not JSON.
#[derive(Debug, Clone, Copy, PartialEq, Eq, Structural)]
pub enum ProfileReplyError {
    NotJson,
}

/// Whether the profile reply shows a valid token, given whether its JSON has
/// a `user_id` member: yes when it has, no when it has not, an error when
/// the reply is not JSON.
pub fn token_validity(user_id_present: Option<bool>) -> (res: Result<bool, ProfileReplyError>)
    ensures
        res == match user_id_present {
            Some(b) => Ok::<bool, ProfileReplyError>(b),
            None => Err(ProfileReplyError::NotJson),
        },
{
    match user_id_present {
        Some(b) => Ok(b),
        None => Err(ProfileReplyError::NotJson),
    }
}

/// Whether the profile reply `body` shows a valid token: the reply is JSON
/// with a `user_id` member.
pub fn token_is_valid_reply(body: &[u8]) -> (res: Result<bool, ProfileReplyError>)
    ensures
        res == match json_member_present(body@, "user_id"@) {
            Some(b) => Ok::<bool, ProfileReplyError>(b),
            None => Err(ProfileReplyError::NotJson),
        },
{
    token_validity(json_has_member(body, "user_id"))
}

/// The `error` of an OAuth error reply, with the registered codes of
/// RFC 6749 and any other code kept as text.
#[derive(Debug, Clone, PartialEq, Eq)]
pub enum InstagramErrorType {
    InvalidClient,
    InvalidGrant,
    InvalidRequest,
    InvalidScope,
    UnauthorizedClient,
    UnsupportedGrantType,
    Extension(String),
}

/// The code of an error type as it appears in the reply.
pub open spec fn error_code(kind: InstagramErrorType) -> Seq<char> {
    match kind {
        InstagramErrorType::InvalidClient => "invalid_client"@,
        InstagramErrorType::InvalidGrant => "invalid_grant"@,
        InstagramErrorType::InvalidRequest => "invalid_request"@,
        InstagramErrorType::InvalidScope => "invalid_scope"@,
        InstagramErrorType::UnauthorizedClient => "unauthorized_client"@,
        InstagramErrorType::UnsupportedGrantType => "unsupported_grant_type"@,
        InstagramErrorType::Extension(code) => code@,
    }
}

impl InstagramErrorType {
    /// The code of this error type.
    pub fn as_str(&self) -> (code: &str)
        ensures
            code@ == error_code(*self),
    {
        match self {
            InstagramErrorType::InvalidClient => "invalid_client",
            InstagramErrorType::InvalidGrant => "invalid_grant",
            InstagramErrorType::InvalidRequest => "invalid_request",
            InstagramErrorType::InvalidScope => "invalid_scope",
            InstagramErrorType::UnauthorizedClient => "unauthorized_client",
            InstagramErrorType::UnsupportedGrantType => "unsupported_grant_type",
            InstagramErrorType::Extension(code) => code.as_str(),
        }
    }
}

/// An error reply of Instagram's token endpoint.
#[derive(Debug, Clone)]
pub struct InstagramErrorCustomResponse {
    pub error_type: InstagramErrorType,
    pub code: Option<u32>,
    pub error_message: Option<String>,
    pub error_uri: Option<String>,
}

/// How an error reply reads: the code, then `: ` and the description if
/// there is one, then ` (see ` the URI `)` if there is one.
pub open spec fn error_reply_text(reply: InstagramErrorCustomResponse) -> Seq<char> {
    error_code(reply.error_type) + match reply.error_message {
        Some(d) => ": "@ + d@,
        None => Seq::empty(),
    } + match reply.error_uri {
        Some(u) => " (see "@ + u@ + ")"@,
        None => Seq::empty(),
    }
}

impl InstagramErrorCustomResponse {
    /// The reply's error type.
    pub fn error(&self) -> (kind: &InstagramErrorType)
        ensures
            *kind == self.error_type,
    {
        &self.error_type
    }

    /// The reply's description, if it has one.
    pub fn error_description(&self) -> (description: Option<&String>)
        ensures
            description == match self.error_message {
                Some(d) => Some(&d),
                None => None::<&String>,
            },
    {
        match &self.error_message {
            Some(d) => Some(d),
            None => None,
        }
    }

    /// The reply's URI, if it has one.
    pub fn error_uri(&self) -> (uri: Option<&String>)
        ensures
            uri == match self.error_uri {
                Some(u) => Some(&u),
                None => None::<&String>,
            },
    {
        match &self.error_uri {
            Some(u) => Some(u),
            None => None,
        }
    }

    /// The reply as text (see `error_reply_text`).
    pub fn to_display_string(&self) -> (text: String)
        ensures
            text@ == error_reply_text(*self),
    {
        let mut text = String::from_str(self.error_type.as_str());
        if let Some(d) = &self.error_message {
            text.append(": ");
            text.append(d.as_str());
        }
        if let Some(u) = &self.error_uri {
            text.append(" (see ");
            text.append(u.as_str());
            text.append(")");
        }
        assert(text@ =~= error_reply_text(*self));
        text
    }
}

/// The type of an Instagram token; the token endpoint always issues the
/// default type.
#[derive(Debug, Clone, Copy, PartialEq, Eq, Structural)]
pub enum InstagramTokenType {
    Default,
}

/// A token reply of Instagram's token endpoint.
#[derive(Debug, Clone)]
pub struct InstagramTokenCustomResponse {
    pub access_token: String,
    pub token_type: Option<InstagramTokenType>,
    pub expires_in: Option<u64>,
    pub refresh_token: Option<String>,
    pub scopes: Option<Vec<String>>,
}

impl InstagramTokenCustomResponse {
    /// The access token.
    pub fn access_token(&self) -> (token: &String)
        ensures
            *token == self.access_token,
    {
        &self.access_token
    }

    /// The token type: always the default, whatever the reply said.
    pub fn token_type(&self) -> (kind: InstagramTokenType)
        ensures
            kind == InstagramTokenType::Default,
    {
        InstagramTokenType::Default
    }

    /// The token's lifetime in seconds, if the reply gave one.
    pub fn expires_in(&self) -> (secs: Option<u64>)
        ensures
            secs == self.expires_in,
    {
        self.expires_in
    }

    /// The refresh token, if the reply gave one.
    pub fn refresh_token(&self) -> (token: Option<&String>)
        ensures
            token == match self.refresh_token {
                Some(t) => Some(&t),
                None => None::<&String>,
            },
    {
        match &self.refresh_token {
            Some(t) => Some(t),
            None => None,
        }
    }

    /// The granted scopes, if the reply listed them.
    pub fn scopes(&self) -> (scopes: Option<&Vec<String>>)
        ensures
            scopes == match self.scopes {
                Some(s) => Some(&s),
                None => None::<&Vec<String>>,
            },
    {
        match &self.scopes {
            Some(s) => Some(s),
            None => None,
        }
    }
}

} // verus!
