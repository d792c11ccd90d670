//! Requests to the Codex backend.

use crate::auth::SavedAuth;
use crate::encoding::{decode_lossy, lossy_text};
use crate::error::ProxyError;
use crate::headers::{
    header_contents, insert_header, is_header_text, mark_sensitive, new_header_value, new_headers,
    no_headers,
};
use crate::json::JsonValue;
use crate::text::optional_text;
use axum::http::HeaderMap;
use vstd::prelude::*;
use vstd::utf8::{decode_utf8, encode_utf8, pop_first_scalar, valid_utf8, valid_utf8_concat};

verus! {

/// A request to the Codex backend.
#[derive(Debug)]
pub struct CodexRequest {
    pub model: String,
    pub instructions: String,
    pub input: Vec<JsonValue>,
    pub reasoning: CodexReasoning,
    pub stream: bool,
    pub store: bool,
    pub service_tier: Option<String>,
    pub prompt_cache_key: Option<String>,
}

#[derive(Debug)]
pub struct CodexReasoning {
    pub effort: String,
}

/// The address of the Codex backend.
pub const CODEX_RESPONSES_URL: &'static str = "https://chatgpt.com/backend-api/codex/responses";

/// The text of the authorization header.
pub open spec fn bearer_text(token: Seq<char>) -> Seq<char> {
    "Bearer "@ + token
}

/// One value of a header.
pub open spec fn single_value(text: Seq<char>, sensitive: bool) -> Seq<(Seq<u8>, bool)> {
    seq![(encode_utf8(text), sensitive)]
}

/// The headers of a request to the Codex backend.
pub open spec fn backend_headers(
    access_token: Seq<char>,
    account_id: Option<Seq<char>>,
    conversation_id: Seq<char>,
) -> Map<Seq<char>, Seq<(Seq<u8>, bool)>> {
    let headers = no_headers()
        .insert("authorization"@, single_value(bearer_text(access_token), true))
        .insert("x-client-request-id"@, single_value(conversation_id, false))
        .insert("session_id"@, single_value(conversation_id, false));
    match account_id {
        Some(id) => headers.insert("chatgpt-account-id"@, single_value(id, false)),
        None => headers,
    }
}

/// What is wrong with the texts that the headers of a request to the Codex backend are made
/// from: the first of them that may not be the value of a header, where there is one.
pub open spec fn header_fault(
    access_token: Seq<char>,
    account_id: Option<Seq<char>>,
    conversation_id: Seq<char>,
) -> Option<Seq<char>> {
    if !is_header_text(bearer_text(access_token)) {
        Some("invalid access token header: failed to parse header value"@)
    } else if !is_header_text(conversation_id) {
        Some("invalid conversation id header: failed to parse header value"@)
    } else {
        match account_id {
            Some(id) if !is_header_text(id) => Some(
                "invalid account id header: failed to parse header value"@,
            ),
            _ => None,
        }
    }
}

fn header_error(what: &str, reason: String) -> (result: ProxyError)
    ensures
        match result {
            ProxyError::InvalidRequest(text) => text@ == what@ + reason@,
            _ => false,
        },
{
    let mut text = what.to_owned();
    text.append(reason.as_str());
    ProxyError::InvalidRequest(text)
}

/// Makes the headers of a request to the Codex backend.
pub fn codex_backend_headers(saved_auth: &SavedAuth, conversation_id: &str) -> (result: Result<
    HeaderMap,
    ProxyError,
>)
    ensures
        match (
            result,
            header_fault(
                saved_auth.access_token@,
                optional_text(saved_auth.account_id),
                conversation_id@,
            ),
        ) {
            (Ok(headers), None) => header_contents(headers) == backend_headers(
                saved_auth.access_token@,
                optional_text(saved_auth.account_id),
                conversation_id@,
            ),
            (Err(ProxyError::InvalidRequest(text)), Some(fault)) => text@ == fault,
            _ => false,
        },
{
    proof {
        reveal_strlit("authorization");
        reveal_strlit("x-client-request-id");
        reveal_strlit("session_id");
        reveal_strlit("chatgpt-account-id");
        reveal_strlit("failed to parse header value");
        reveal_strlit("invalid access token header: ");
        reveal_strlit("invalid access token header: failed to parse header value");
        reveal_strlit("invalid conversation id header: ");
        reveal_strlit("invalid conversation id header: failed to parse header value");
        reveal_strlit("invalid account id header: ");
        reveal_strlit("invalid account id header: failed to parse header value");
        assert("invalid access token header: "@ + "failed to parse header value"@
            =~= "invalid access token header: failed to parse header value"@);
        assert("invalid conversation id header: "@ + "failed to parse header value"@
            =~= "invalid conversation id header: failed to parse header value"@);
        assert("invalid account id header: "@ + "failed to parse header value"@
            =~= "invalid account id header: failed to parse header value"@);
    }
    let mut headers = new_headers();
    let mut authorization = "Bearer ".to_owned();
    authorization.append(saved_auth.access_token.as_str());
    let mut authorization_header = match new_header_value(authorization.as_str()) {
        Ok(value) => value,
        Err(reason) => {
            return Err(header_error("invalid access token header: ", reason));
        },
    };
    mark_sensitive(&mut authorization_header, true);
    insert_header(&mut headers, "authorization", authorization_header);
    let request_id = match new_header_value(conversation_id) {
        Ok(value) => value,
        Err(reason) => {
            return Err(header_error("invalid conversation id header: ", reason));
        },
    };
    insert_header(&mut headers, "x-client-request-id", request_id);
    let session_id = match new_header_value(conversation_id) {
        Ok(value) => value,
        Err(reason) => {
            return Err(header_error("invalid session id header: ", reason));
        },
    };
    insert_header(&mut headers, "session_id", session_id);
    if let Some(account_id) = &saved_auth.account_id {
        let account = match new_header_value(account_id.as_str()) {
            Ok(value) => value,
            Err(reason) => {
                return Err(header_error("invalid account id header: ", reason));
            },
        };
        insert_header(&mut headers, "chatgpt-account-id", account);
    }
    Ok(headers)
}

/// Tells whether a status code reports success.
pub open spec fn reports_success(status: u16) -> bool {
    200 <= status < 300
}

/// Tells whether a status code reports success.
pub fn is_success(status: u16) -> (result: bool)
    ensures
        result == reports_success(status),
{
    200 <= status && status < 300
}

/// The error that an answer of the Codex backend which reports no success ends in.
pub fn upstream_status_error(status: u16, body: String) -> (result: ProxyError)
    ensures
        result == (ProxyError::UpstreamStatus { status, body }),
{
    ProxyError::UpstreamStatus { status, body }
}

/// Reads the text of a piece of the event stream. What is no UTF-8 in it is replaced.
pub fn chunk_text(chunk: &[u8]) -> (result: String)
    ensures
        result@ == lossy_text(chunk@),
        valid_utf8(chunk@) ==> result@ == decode_utf8(chunk@),
{
    decode_lossy(chunk)
}

/// Where the event stream is cut between two characters, the texts of the pieces make up the
/// text of the whole.
pub proof fn law_cuts_between_characters_lose_nothing(a: Seq<u8>, b: Seq<u8>)
    requires
        valid_utf8(a),
        valid_utf8(b),
    ensures
        valid_utf8(a + b),
        decode_utf8(a + b) == decode_utf8(a) + decode_utf8(b),
    decreases a.len(),
{
    valid_utf8_concat(a, b);
    if a.len() == 0 {
        assert(a + b =~= b);
        assert(decode_utf8(a) + decode_utf8(b) =~= decode_utf8(b));
    } else {
        let rest = pop_first_scalar(a);
        law_cuts_between_characters_lose_nothing(rest, b);
        assert(pop_first_scalar(a + b) =~= rest + b);
        assert(decode_utf8(a + b) =~= decode_utf8(a) + decode_utf8(b));
    }
}

} // verus!
