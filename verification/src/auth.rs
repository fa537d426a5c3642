//! The session authenticator: what is asked of the login endpoint, and what
//! its answer grants.

use crate::json::{json_content, parsed_json, Json};
use crate::json::{parse_value, value_as_str, value_element, value_member};
use crate::outcome::StreamError;
use vstd::prelude::*;

verus! {

/// What is needed to log in. The library takes it as it comes.
pub struct Credentials {
    /// The address of the service, without a trailing slash.
    pub endpoint: String,
    pub username: String,
    pub password: String,
    /// The name of the authentication method.
    pub eauth: String,
}

/// How the login request ended.
pub enum LoginReply {
    /// The request could not be sent, or no response came back.
    Unsent,
    /// A response came back.
    Answer { status: u16, body: String },
}

/// The login request: where it goes, and the fields of its JSON body.
pub struct LoginRequest {
    pub url: reqwest::Url,
    /// The members of the body, each a name and a string value.
    pub fields: Vec<(String, String)>,
}

#[verifier::external_type_specification]
#[verifier::external_body]
pub struct ExUrl(reqwest::Url);

/// The text of a URL: what `Url::as_str` returns for it.
pub uninterp spec fn url_text(url: reqwest::Url) -> Seq<char>;

/// What `Url::parse` makes of a text: the text of the URL it returns, or
/// `None` where it reports an error.
pub uninterp spec fn parsed_url(text: Seq<char>) -> Option<Seq<char>>;

/// `reqwest::Url::parse`. Trusted: whether the call succeeds, and the URL it
/// returns, depend on the text alone.
#[verifier::external_body]
fn parse_url(text: &str) -> (parsed: Option<reqwest::Url>)
    ensures
        match parsed {
            Some(url) => parsed_url(text@) == Some(url_text(url)),
            None => parsed_url(text@) is None,
        },
{
    reqwest::Url::parse(text).ok()
}

/// The address of the login endpoint of a service.
pub open spec fn login_address(endpoint: Seq<char>) -> Seq<char> {
    endpoint + "/login"@
}

/// The address of the event stream of a service, for a session token.
pub open spec fn events_address(endpoint: Seq<char>, token: Seq<char>) -> Seq<char> {
    endpoint + "/events?token="@ + token
}

/// Whether `field` is the member `name` with the value `value`.
pub open spec fn is_field(field: (String, String), name: Seq<char>, value: Seq<char>) -> bool {
    field.0@ == name && field.1@ == value
}

/// Whether `fields` are the members of the login body for `credentials`.
pub open spec fn is_login_body(fields: Seq<(String, String)>, credentials: Credentials) -> bool {
    &&& fields.len() == 3
    &&& is_field(fields[0], "username"@, credentials.username@)
    &&& is_field(fields[1], "password"@, credentials.password@)
    &&& is_field(fields[2], "eauth"@, credentials.eauth@)
}

/// The session token in a login response: the string at `return[0].token`.
pub open spec fn token_in(response: Json) -> Option<Seq<char>> {
    match response.member("return"@) {
        Some(sessions) => match sessions.element(0) {
            Some(session) => match session.member("token"@) {
                Some(token) => token.text(),
                None => None,
            },
            None => None,
        },
        None => None,
    }
}

/// The session token that a reply grants: the reply is a response with
/// status 200 whose body is JSON with a string at `return[0].token`.
pub open spec fn granted(reply: LoginReply) -> Option<Seq<char>> {
    match reply {
        LoginReply::Unsent => None,
        LoginReply::Answer { status, body } => if status == 200 {
            match parsed_json(body@) {
                Some(response) => token_in(response),
                None => None,
            }
        } else {
            None
        },
    }
}

/// The text of the login address.
pub fn login_url_text(endpoint: &str) -> (text: String)
    ensures
        text@ == login_address(endpoint@),
{
    let mut text = String::from_str(endpoint);
    text.append("/login");
    text
}

/// The text of the address of the event stream.
pub fn events_url_text(endpoint: &str, token: &str) -> (text: String)
    ensures
        text@ == events_address(endpoint@, token@),
{
    let mut text = String::from_str(endpoint);
    text.append("/events?token=");
    text.append(token);
    text
}

/// Builds the login request for the given credentials.
///
/// Fails with `Auth` exactly when the login address is no URL.
pub fn login_request(credentials: &Credentials) -> (request: Result<LoginRequest, StreamError>)
    ensures
        match request {
            Ok(r) => {
                &&& parsed_url(login_address(credentials.endpoint@)) == Some(url_text(r.url))
                &&& is_login_body(r.fields@, *credentials)
            },
            Err(error) => {
                &&& parsed_url(login_address(credentials.endpoint@)) is None
                &&& error == StreamError::Auth
            },
        },
{
    let text = login_url_text(credentials.endpoint.as_str());
    match parse_url(text.as_str()) {
        Some(url) => {
            let mut fields: Vec<(String, String)> = Vec::new();
            fields.push((String::from_str("username"), credentials.username.clone()));
            fields.push((String::from_str("password"), credentials.password.clone()));
            fields.push((String::from_str("eauth"), credentials.eauth.clone()));
            Ok(LoginRequest { url, fields })
        },
        None => Err(StreamError::Auth),
    }
}

/// Reads the session token out of a login response.
///
/// Returns the token exactly when the response holds a string at
/// `return[0].token`.
pub fn session_token(response: &serde_json::Value) -> (token: Option<String>)
    ensures
        match token {
            Some(t) => token_in(json_content(*response)) == Some(t@),
            None => token_in(json_content(*response)) is None,
        },
{
    let sessions = match value_member(response, "return") {
        Some(sessions) => sessions,
        None => { return None; },
    };
    let session = match value_element(sessions, 0) {
        Some(session) => session,
        None => { return None; },
    };
    let token = match value_member(session, "token") {
        Some(token) => token,
        None => { return None; },
    };
    match value_as_str(token) {
        Some(text) => Some(String::from_str(text)),
        None => None,
    }
}

/// Decides what a login reply grants.
///
/// Returns the session token exactly when the reply grants one, and fails
/// with `Auth` in every other case: the request was not sent, the status is
/// not 200, the body is not JSON, or it holds no string at `return[0].token`.
pub fn authenticate(reply: &LoginReply) -> (token: Result<String, StreamError>)
    ensures
        match token {
            Ok(t) => granted(*reply) == Some(t@),
            Err(error) => granted(*reply) is None && error == StreamError::Auth,
        },
{
    match reply {
        LoginReply::Unsent => Err(StreamError::Auth),
        LoginReply::Answer { status, body } => {
            if *status != 200 {
                return Err(StreamError::Auth);
            }
            match parse_value(body.as_str()) {
                Ok(response) => match session_token(&response) {
                    Some(token) => Ok(token),
                    None => Err(StreamError::Auth),
                },
                Err(_) => Err(StreamError::Auth),
            }
        },
    }
}

/// Builds the address of the event stream for a session token.
///
/// Returns `None` exactly when the address is no URL.
pub fn events_url(endpoint: &str, token: &str) -> (url: Option<reqwest::Url>)
    ensures
        match url {
            Some(u) => parsed_url(events_address(endpoint@, token@)) == Some(url_text(u)),
            None => parsed_url(events_address(endpoint@, token@)) is None,
        },
{
    let text = events_url_text(endpoint, token);
    parse_url(text.as_str())
}

} // verus!
