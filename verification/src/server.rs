//! The requests that the proxy serves.

use crate::auth::is_url_safe_text;
use crate::codex::CodexRequest;
use crate::config::ProxySettings;
use crate::encoding::{
    base64_length, base64url, base64url_decoded, draw_bytes, encode_base64url, is_drawn,
    is_url_safe,
};
use crate::error::ProxyError;
use crate::headers::{
    get_header, header_contents, header_text, is_header_name, is_header_text, is_visible_byte,
    visible_text,
};
use crate::openai::{is_empty_image_url_error, is_refused_input, ChatCompletionRequest};
use crate::text::{after_prefix, optional_text, same_text, strip_prefix, texts};
use axum::http::HeaderMap;
use vstd::prelude::*;

verus! {

/// The text of the first value of a header, where there is one that is made of visible ASCII
/// characters, spaces and tabs.
pub open spec fn first_text(
    headers: Map<Seq<char>, Seq<(Seq<u8>, bool)>>,
    name: Seq<char>,
) -> Option<Seq<char>> {
    if headers.dom().contains(name) {
        visible_text(headers[name][0].0)
    } else {
        None
    }
}

/// The key that a client names in its authorization header.
pub open spec fn bearer_key(headers: Map<Seq<char>, Seq<(Seq<u8>, bool)>>) -> Option<Seq<char>> {
    match first_text(headers, "authorization"@) {
        Some(text) => match after_prefix(text, "Bearer "@) {
            Some(key) => if key.len() > 0 {
                Some(key)
            } else {
                None
            },
            None => None,
        },
        None => None,
    }
}

/// Finds the key that a client names in its authorization header.
pub fn bearer_token(request_headers: &HeaderMap) -> (result: Option<String>)
    ensures
        optional_text(result) == bearer_key(header_contents(*request_headers)),
{
    proof {
        reveal_strlit("authorization");
    }
    let value = match get_header(request_headers, "authorization") {
        Some(value) => value,
        None => {
            return None;
        },
    };
    let text = match header_text(value) {
        Some(text) => text,
        None => {
            return None;
        },
    };
    match strip_prefix(text, "Bearer ") {
        Some(key) => if key.as_str().is_empty() {
            None
        } else {
            Some(key)
        },
        None => None,
    }
}

/// Tells whether a request with these headers may use the proxy: it names one of the keys.
pub open spec fn is_admitted(
    headers: Map<Seq<char>, Seq<(Seq<u8>, bool)>>,
    api_keys: Seq<Seq<char>>,
) -> bool {
    match bearer_key(headers) {
        Some(key) => api_keys.contains(key),
        None => false,
    }
}

/// Lets a request through only where it names one of the keys.
pub fn require_proxy_api_key(request_headers: &HeaderMap, settings: &ProxySettings) -> (result:
    Result<(), ProxyError>)
    ensures
        match result {
            Ok(_) => is_admitted(header_contents(*request_headers), texts(settings.api_keys@)),
            Err(error) => {
                &&& !is_admitted(header_contents(*request_headers), texts(settings.api_keys@))
                &&& error is InvalidProxyApiKey
            },
        },
{
    let api_key = match bearer_token(request_headers) {
        Some(api_key) => api_key,
        None => {
            return Err(ProxyError::InvalidProxyApiKey);
        },
    };
    let ghost keys = texts(settings.api_keys@);
    let mut i: usize = 0;
    while i < settings.api_keys.len()
        invariant
            i <= settings.api_keys@.len(),
            keys == texts(settings.api_keys@),
            forall|j: int| 0 <= j < i ==> #[trigger] keys[j] != api_key@,
            bearer_key(header_contents(*request_headers)) == Some(api_key@),
        decreases settings.api_keys@.len() - i,
    {
        assert(keys[i as int] == settings.api_keys@[i as int]@);
        if same_text(settings.api_keys[i].as_str(), api_key.as_str()) {
            return Ok(());
        }
        i += 1;
    }
    Err(ProxyError::InvalidProxyApiKey)
}

/// A client that sends `Bearer` and a key in its authorization header is taken to name that key.
pub proof fn law_bearer_key_is_read(
    headers: Map<Seq<char>, Seq<(Seq<u8>, bool)>>,
    key: Seq<char>,
    bytes: Seq<u8>,
)
    requires
        key.len() > 0,
        headers.dom().contains("authorization"@),
        headers["authorization"@][0].0 == bytes,
        bytes.len() == ("Bearer "@ + key).len(),
        forall|i: int|
            0 <= i < bytes.len() ==> is_visible_byte(#[trigger] bytes[i]) && bytes[i] as char == (
            "Bearer "@ + key)[i],
    ensures
        bearer_key(headers) == Some(key),
{
    let text = "Bearer "@ + key;
    assert(Seq::new(bytes.len(), |i: int| bytes[i] as char) =~= text);
    assert("Bearer "@.is_prefix_of(text)) by {
        assert(text.subrange(0, "Bearer "@.len() as int) =~= "Bearer "@);
    }
    assert(text.skip("Bearer "@.len() as int) =~= key);
}

/// A proxy without keys serves nobody.
pub proof fn law_no_keys_admit_nobody(headers: Map<Seq<char>, Seq<(Seq<u8>, bool)>>)
    ensures
        !is_admitted(headers, Seq::empty()),
{
}

/// Another key shuts nobody out.
pub proof fn law_more_keys_admit_more(
    headers: Map<Seq<char>, Seq<(Seq<u8>, bool)>>,
    api_keys: Seq<Seq<char>>,
    added: Seq<char>,
)
    ensures
        is_admitted(headers, api_keys) ==> is_admitted(headers, api_keys.push(added)),
        bearer_key(headers) == Some(added) ==> is_admitted(headers, api_keys.push(added)),
{
    let more = api_keys.push(added);
    if is_admitted(headers, api_keys) {
        let key = bearer_key(headers)->0;
        let i = choose|i: int| 0 <= i < api_keys.len() && api_keys[i] == key;
        assert(more[i] == key);
    }
    assert(more[api_keys.len() as int] == added);
}

/// The text of the first value of a header, or `unknown`.
fn header_or_unknown(headers: &HeaderMap, name: &str) -> (result: String)
    requires
        is_header_name(name@),
    ensures
        result@ == match first_text(header_contents(*headers), name@) {
            Some(text) => text,
            None => "unknown"@,
        },
{
    match get_header(headers, name) {
        Some(value) => match header_text(value) {
            Some(text) => text.to_owned(),
            None => "unknown".to_owned(),
        },
        None => "unknown".to_owned(),
    }
}

/// How long the body of a request is, as its headers say.
pub fn content_length(headers: &HeaderMap) -> (result: String)
    ensures
        result@ == match first_text(header_contents(*headers), "content-length"@) {
            Some(text) => text,
            None => "unknown"@,
        },
{
    proof {
        reveal_strlit("content-length");
    }
    header_or_unknown(headers, "content-length")
}

/// Which program sends a request, as its headers say.
pub fn user_agent(headers: &HeaderMap) -> (result: String)
    ensures
        result@ == match first_text(header_contents(*headers), "user-agent"@) {
            Some(text) => text,
            None => "unknown"@,
        },
{
    proof {
        reveal_strlit("user-agent");
    }
    header_or_unknown(headers, "user-agent")
}

/// Tells whether a text is a prefix followed by the encoding of so many random bytes, which can
/// be decoded again.
pub open spec fn is_random_name(text: Seq<char>, prefix: Seq<char>, byte_count: nat) -> bool {
    exists|bytes: Seq<u8>| #[trigger]
        names_bytes(text, prefix, bytes) && bytes.len() == byte_count && is_drawn(
            byte_count as usize,
            bytes,
        )
}

/// Tells whether a text is a prefix followed by the encoding of these bytes.
pub open spec fn names_bytes(text: Seq<char>, prefix: Seq<char>, bytes: Seq<u8>) -> bool {
    &&& text == prefix + base64url(bytes)
    &&& base64url_decoded(base64url(bytes)) == Some(bytes)
}

/// Different bytes give different names.
pub proof fn law_names_tell_bytes_apart(
    prefix: Seq<char>,
    a: Seq<char>,
    a_bytes: Seq<u8>,
    b: Seq<char>,
    b_bytes: Seq<u8>,
)
    requires
        names_bytes(a, prefix, a_bytes),
        names_bytes(b, prefix, b_bytes),
        a_bytes != b_bytes,
    ensures
        a != b,
{
    assert(a.skip(prefix.len() as int) =~= base64url(a_bytes));
    assert(b.skip(prefix.len() as int) =~= base64url(b_bytes));
}

/// A text of letters, digits, hyphens and underscores behind a text that may be the value of a
/// header may be the value of a header too.
pub proof fn law_url_safe_text_fits_a_header(prefix: Seq<char>, text: Seq<char>)
    requires
        is_header_text(prefix),
        is_url_safe_text(text),
    ensures
        is_header_text(prefix + text),
{
    assert forall|i: int| 0 <= i < (prefix + text).len() implies {
        ||| (' ' <= #[trigger] (prefix + text)[i] && (prefix + text)[i] != '\u{7f}')
        ||| (prefix + text)[i] == '\t'
    } by {
        if i < prefix.len() {
            assert((prefix + text)[i] == prefix[i]);
        } else {
            assert(is_url_safe(text[i - prefix.len()]));
        }
    }
}

/// Makes a name: a prefix followed by the encoding of bytes.
pub fn name_from_bytes(prefix: &str, bytes: &Vec<u8>) -> (result: String)
    requires
        bytes@.len() <= usize::MAX / 4,
    ensures
        result@ == prefix@ + base64url(bytes@),
        names_bytes(result@, prefix@, bytes@),
        result@.len() == prefix@.len() + base64_length(bytes@.len()),
        is_url_safe_text(result@.skip(prefix@.len() as int)),
        is_header_text(prefix@) ==> is_header_text(result@),
{
    let suffix = encode_base64url(bytes);
    let mut name = prefix.to_owned();
    name.append(suffix.as_str());
    proof {
        assert(name@.skip(prefix@.len() as int) =~= suffix@);
        if is_header_text(prefix@) {
            law_url_safe_text_fits_a_header(prefix@, suffix@);
        }
    }
    name
}

/// Makes a name: a prefix followed by the encoding of random bytes.
pub(crate) fn random_name(prefix: &str, byte_count: usize) -> (result: String)
    requires
        byte_count <= 64,
    ensures
        is_random_name(result@, prefix@, byte_count as nat),
        result@.len() == prefix@.len() + base64_length(byte_count as nat),
        is_url_safe_text(result@.skip(prefix@.len() as int)),
        is_header_text(prefix@) ==> is_header_text(result@),
{
    let bytes = draw_bytes(byte_count);
    name_from_bytes(prefix, &bytes)
}

/// Makes the name under which upstream keeps what it has read of the requests of this proxy.
pub fn new_conversation_id() -> (result: String)
    ensures
        is_random_name(result@, "codex-proxy-"@, 18),
        result@.len() == 36,
        is_url_safe_text(result@.skip(12)),
        is_header_text(result@),
{
    proof {
        reveal_strlit("codex-proxy-");
    }
    random_name("codex-proxy-", 18)
}

/// What is to be done for a chat completion.
#[derive(Debug)]
pub struct ChatPlan {
    /// The model that the client asked for.
    pub client_model: String,
    /// Whether the client asked for a stream.
    pub stream: bool,
    /// The request to send upstream.
    pub upstream_request: CodexRequest,
}

/// Tells whether an error is an invalid request for the given reason.
pub open spec fn is_invalid_request(error: ProxyError, reason: Seq<char>) -> bool {
    match error {
        ProxyError::InvalidRequest(text) => text@ == reason,
        _ => false,
    }
}

/// Tells whether a result is the plan of a chat completion, given what came of reading the body
/// of the request.
pub open spec fn is_plan(
    result: Result<ChatPlan, ProxyError>,
    request_read: Result<ChatCompletionRequest, String>,
    settings: ProxySettings,
    conversation_id: Seq<char>,
) -> bool {
    match request_read {
        Err(reason) => result is Err && is_invalid_request(
            result->Err_0,
            "invalid JSON chat completion request: "@ + reason@,
        ),
        Ok(request) => match result {
            Ok(plan) => {
                &&& !is_refused_input(request.messages@)
                &&& plan.client_model@ == request.model@
                &&& plan.stream == request.stream
                &&& request.is_codex_request(settings, plan.upstream_request)
                &&& optional_text(plan.upstream_request.prompt_cache_key) == Some(conversation_id)
            },
            Err(error) => is_refused_input(request.messages@) && is_empty_image_url_error(error),
        },
    }
}

/// Plans a chat completion, given what came of reading the body of the request.
pub fn plan_chat_completion(
    request_read: Result<ChatCompletionRequest, String>,
    settings: &ProxySettings,
    conversation_id: &str,
) -> (result: Result<ChatPlan, ProxyError>)
    ensures
        is_plan(result, request_read, *settings, conversation_id@),
{
    let request = match request_read {
        Ok(request) => request,
        Err(reason) => {
            let mut text = "invalid JSON chat completion request: ".to_owned();
            text.append(reason.as_str());
            return Err(ProxyError::InvalidRequest(text));
        },
    };
    let mut upstream_request = match request.to_codex_request(settings) {
        Ok(upstream_request) => upstream_request,
        Err(error) => {
            return Err(error);
        },
    };
    upstream_request.prompt_cache_key = Some(conversation_id.to_owned());
    Ok(ChatPlan { client_model: request.model, stream: request.stream, upstream_request })
}

/// Plans a chat completion for a client that may use the proxy. A client that may not is told so,
/// whatever came of reading the body of its request.
pub fn admit_chat_completion(
    request_headers: &HeaderMap,
    request_read: Result<ChatCompletionRequest, String>,
    settings: &ProxySettings,
    conversation_id: &str,
) -> (result: Result<ChatPlan, ProxyError>)
    ensures
        is_admitted(header_contents(*request_headers), texts(settings.api_keys@)) ==> is_plan(
            result,
            request_read,
            *settings,
            conversation_id@,
        ),
        !is_admitted(header_contents(*request_headers), texts(settings.api_keys@)) ==> result is Err
            && result->Err_0 is InvalidProxyApiKey,
{
    match require_proxy_api_key(request_headers, settings) {
        Ok(_) => plan_chat_completion(request_read, settings, conversation_id),
        Err(error) => Err(error),
    }
}

/// A request without a valid key is answered as unauthorized, and one that makes no sense as a
/// bad request.
pub proof fn law_refusals_blame_the_client(error: ProxyError, reason: Seq<char>)
    ensures
        error is InvalidProxyApiKey ==> error.status() == 401,
        is_invalid_request(error, reason) ==> error.status() == 400,
        is_empty_image_url_error(error) ==> error.status() == 400,
{
}

} // verus!
