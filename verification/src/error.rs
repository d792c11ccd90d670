//! What can go wrong, and what a client is told about it.

use crate::text::{decimal, decimal_text};
use vstd::prelude::*;

verus! {

/// Why an operation on a file failed.
#[derive(Debug)]
pub enum FileFault {
    NotFound,
    Other(String),
}

/// What came of reading a file: why it could not be read, why its contents mean nothing, or
/// what they mean.
#[derive(Debug)]
pub enum FileRead<T> {
    Failed(FileFault),
    Malformed(String),
    Parsed(T),
}

/// What came of writing a file: why there was nothing to write, why it could not be written, or
/// that it was.
#[derive(Debug)]
pub enum FileWrite {
    Unwritable(String),
    Failed(String),
    Written,
}

/// An error of the proxy. A `String` holds the description of the error that caused it.
#[derive(Debug)]
pub enum ProxyError {
    MissingAuth,
    MissingRefreshToken,
    InvalidProxyApiKey,
    ReadAuth(String),
    WriteAuth(String),
    ParseAuth(String),
    ReadSettings(String),
    WriteSettings(String),
    ParseSettings(String),
    ReadSystemPrompt { path: String, source: String },
    ParseToken(String),
    OAuthRequest(String),
    OAuthStatus { status: u16, body: String },
    UpstreamRequest(String),
    UpstreamStatus { status: u16, body: String },
    InvalidRequest(String),
    Login(String),
}

/// The status codes that HTTP has room for.
pub open spec fn is_status_code(status: u16) -> bool {
    100 <= status <= 999
}

/// Calls `axum::http::StatusCode::from_u16`; claims that it takes the three-digit numbers and
/// no others, and keeps the number.
#[verifier::external_body]
fn checked_status(status: u16) -> (result: Option<u16>)
    ensures
        result == (if is_status_code(status) {
            Some(status)
        } else {
            None
        }),
{
    axum::http::StatusCode::from_u16(status).ok().map(|code| code.as_u16())
}

impl ProxyError {
    /// The status code of the answer to a request that ended in this error.
    pub open spec fn status(self) -> u16 {
        match self {
            ProxyError::MissingAuth
            | ProxyError::MissingRefreshToken
            | ProxyError::InvalidProxyApiKey => 401,
            ProxyError::InvalidRequest(_)
            | ProxyError::ParseAuth(_)
            | ProxyError::ParseSettings(_) => 400,
            ProxyError::OAuthStatus { status, .. } | ProxyError::UpstreamStatus { status, .. } => {
                if is_status_code(status) {
                    status
                } else {
                    502
                }
            },
            _ => 502,
        }
    }

    pub fn status_code(&self) -> (result: u16)
        ensures
            result == self.status(),
            is_status_code(result),
    {
        match self {
            ProxyError::MissingAuth
            | ProxyError::MissingRefreshToken
            | ProxyError::InvalidProxyApiKey => 401,
            ProxyError::InvalidRequest(_)
            | ProxyError::ParseAuth(_)
            | ProxyError::ParseSettings(_) => 400,
            ProxyError::OAuthStatus { status, .. } | ProxyError::UpstreamStatus { status, .. } => {
                checked_status(*status).unwrap_or(502)
            },
            ProxyError::ReadAuth(_)
            | ProxyError::WriteAuth(_)
            | ProxyError::ReadSettings(_)
            | ProxyError::WriteSettings(_)
            | ProxyError::ReadSystemPrompt { .. }
            | ProxyError::ParseToken(_)
            | ProxyError::OAuthRequest(_)
            | ProxyError::UpstreamRequest(_)
            | ProxyError::Login(_) => 502,
        }
    }

    /// The description of this error.
    pub open spec fn description(self) -> Seq<char> {
        match self {
            ProxyError::MissingAuth =>
                "auth file was not found; run `codex-proxy login browser` or `codex-proxy login device`"@,
            ProxyError::MissingRefreshToken =>
                "codex auth is expired and cannot be refreshed because no refresh token is saved"@,
            ProxyError::InvalidProxyApiKey => "missing or invalid proxy API key"@,
            ProxyError::ReadAuth(source) => "failed to read auth file: "@ + source@,
            ProxyError::WriteAuth(source) => "failed to write auth file: "@ + source@,
            ProxyError::ParseAuth(source) => "failed to parse auth file: "@ + source@,
            ProxyError::ReadSettings(source) => "failed to read settings file: "@ + source@,
            ProxyError::WriteSettings(source) => "failed to write settings file: "@ + source@,
            ProxyError::ParseSettings(source) => "failed to parse settings file: "@ + source@,
            ProxyError::ReadSystemPrompt { path, source } =>
                "failed to read system prompt file "@ + path@ + ": "@ + source@,
            ProxyError::ParseToken(source) => "failed to parse token response: "@ + source@,
            ProxyError::OAuthRequest(source) => "oauth request failed: "@ + source@,
            ProxyError::OAuthStatus { status, body } =>
                "oauth request failed with status "@ + decimal(status as nat) + ": "@ + body@,
            ProxyError::UpstreamRequest(source) => "upstream request failed: "@ + source@,
            ProxyError::UpstreamStatus { status, body } =>
                "upstream request failed with status "@ + decimal(status as nat) + ": "@ + body@,
            ProxyError::InvalidRequest(reason) => "invalid request: "@ + reason@,
            ProxyError::Login(reason) => "login failed: "@ + reason@,
        }
    }

    /// The description of this error.
    pub fn message(&self) -> (result: String)
        ensures
            result@ == self.description(),
    {
        match self {
            ProxyError::MissingAuth => {
                "auth file was not found; run `codex-proxy login browser` or `codex-proxy login device`".to_owned()
            },
            ProxyError::MissingRefreshToken => {
                "codex auth is expired and cannot be refreshed because no refresh token is saved".to_owned()
            },
            ProxyError::InvalidProxyApiKey => "missing or invalid proxy API key".to_owned(),
            ProxyError::ReadAuth(source) => described("failed to read auth file: ", source),
            ProxyError::WriteAuth(source) => described("failed to write auth file: ", source),
            ProxyError::ParseAuth(source) => described("failed to parse auth file: ", source),
            ProxyError::ReadSettings(source) => described("failed to read settings file: ", source),
            ProxyError::WriteSettings(source) => described(
                "failed to write settings file: ",
                source,
            ),
            ProxyError::ParseSettings(source) => described(
                "failed to parse settings file: ",
                source,
            ),
            ProxyError::ReadSystemPrompt { path, source } => {
                let mut text = described("failed to read system prompt file ", path);
                text.append(": ");
                text.append(source.as_str());
                text
            },
            ProxyError::ParseToken(source) => described("failed to parse token response: ", source),
            ProxyError::OAuthRequest(source) => described("oauth request failed: ", source),
            ProxyError::OAuthStatus { status, body } => described_status(
                "oauth request failed with status ",
                *status,
                body,
            ),
            ProxyError::UpstreamRequest(source) => described("upstream request failed: ", source),
            ProxyError::UpstreamStatus { status, body } => described_status(
                "upstream request failed with status ",
                *status,
                body,
            ),
            ProxyError::InvalidRequest(reason) => described("invalid request: ", reason),
            ProxyError::Login(reason) => described("login failed: ", reason),
        }
    }

    /// The body of the answer to a request that ended in this error.
    pub fn error_response(&self) -> (result: OpenAiErrorResponse)
        ensures
            result.error.message@ == self.description(),
            result.error.error_type@ == "proxy_error"@,
            result.error.code is None,
    {
        OpenAiErrorResponse {
            error: OpenAiErrorBody {
                message: self.message(),
                error_type: "proxy_error",
                code: None,
            },
        }
    }
}

fn described(what: &str, source: &String) -> (result: String)
    ensures
        result@ == what@ + source@,
{
    let mut text = what.to_owned();
    text.append(source.as_str());
    text
}

fn described_status(what: &str, status: u16, body: &String) -> (result: String)
    ensures
        result@ == what@ + decimal(status as nat) + ": "@ + body@,
{
    let mut text = what.to_owned();
    text.append(decimal_text(status as u64).as_str());
    text.append(": ");
    text.append(body.as_str());
    text
}

/// The body of an answer that reports an error.
#[derive(Debug)]
pub struct OpenAiErrorResponse {
    pub error: OpenAiErrorBody,
}

#[derive(Debug)]
pub struct OpenAiErrorBody {
    pub message: String,
    pub error_type: &'static str,
    pub code: Option<String>,
}

} // verus!
