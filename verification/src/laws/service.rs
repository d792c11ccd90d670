//! Who is served, what goes to the backend with a request, and what a failure is answered.

use crate::auth::{oauth_status_error, SavedAuth};
use crate::codex::{
    chunk_text, codex_backend_headers, is_success, upstream_status_error, CodexRequest,
    CODEX_RESPONSES_URL,
};
use crate::config::ProxySettings;
use crate::encoding::{base64url, is_drawn, lossy_text};
use crate::error::{OpenAiErrorResponse, ProxyError};
use crate::headers::{header_contents, is_header_text, is_visible_byte, visible_text};
use crate::json::{items_model, lemma_items_model};
use crate::laws::conversation::{
    has_image_without_address, law_only_images_without_address_are_refused,
};
use crate::openai::ChatCompletionRequest;
use crate::server::{
    admit_chat_completion, bearer_key, bearer_token, content_length, law_bearer_key_is_read,
    name_from_bytes, new_conversation_id, plan_chat_completion, require_proxy_api_key, user_agent,
    ChatPlan,
};
use crate::text::{decimal, optional_text, texts};
use axum::http::HeaderMap;
use vstd::prelude::*;
use vstd::utf8::encode_utf8;

verus! {

/// Tells whether bytes are the ASCII characters of a text, without control characters other than
/// the tab.
pub open spec fn spells(bytes: Seq<u8>, text: Seq<char>) -> bool {
    &&& bytes.len() == text.len()
    &&& forall|i: int|
        0 <= i < bytes.len() ==> {
            &&& 32 <= (#[trigger] bytes[i]) < 127 || bytes[i] == 9
            &&& bytes[i] as char == text[i]
        }
}

/// Tells whether the first value of a header spells a text.
pub open spec fn header_spells(headers: HeaderMap, name: Seq<char>, text: Seq<char>) -> bool {
    &&& header_contents(headers).dom().contains(name)
    &&& spells(header_contents(headers)[name][0].0, text)
}

/// Tells whether a client sends a key: its authorization header is `Bearer`, a space and the key.
pub open spec fn sends_key(headers: HeaderMap, key: Seq<char>) -> bool {
    key.len() > 0 && header_spells(headers, "authorization"@, "Bearer "@ + key)
}

proof fn lemma_spells(bytes: Seq<u8>, text: Seq<char>)
    ensures
        visible_text(bytes) == Some(text) <==> spells(bytes, text),
{
    if spells(bytes, text) {
        assert forall|i: int| 0 <= i < bytes.len() implies is_visible_byte(#[trigger] bytes[i]) by {
        }
        assert(Seq::new(bytes.len(), |i: int| bytes[i] as char) =~= text);
    }
    if visible_text(bytes) == Some(text) {
        assert forall|i: int| 0 <= i < bytes.len() implies {
            &&& 32 <= (#[trigger] bytes[i]) < 127 || bytes[i] == 9
            &&& bytes[i] as char == text[i]
        } by {
            assert(is_visible_byte(bytes[i]));
        }
    }
}

proof fn lemma_sends_key(headers: HeaderMap, key: Seq<char>)
    ensures
        sends_key(headers, key) <==> bearer_key(header_contents(headers)) == Some(key),
{
    let contents = header_contents(headers);
    let bytes = contents["authorization"@][0].0;
    let start = "Bearer "@;
    if sends_key(headers, key) {
        assert forall|i: int| 0 <= i < bytes.len() implies is_visible_byte(#[trigger] bytes[i])
            && bytes[i] as char == (start + key)[i] by {}
        law_bearer_key_is_read(contents, key, bytes);
    }
    if bearer_key(contents) == Some(key) {
        let text = visible_text(bytes)->0;
        assert(text.subrange(0, start.len() as int) == start);
        assert(text =~= start + key) by {
            assert(text =~= text.subrange(0, start.len() as int) + text.skip(start.len() as int));
        }
        lemma_spells(bytes, text);
    }
}

/// A key is found exactly where a client sends one, and it is the one that the client sends.
pub proof fn law_key_is_found(headers: HeaderMap, result: Option<String>, key: Seq<char>)
    requires
        call_ensures(bearer_token, (&headers,), result),
    ensures
        sends_key(headers, key) <==> result is Some && result->0@ == key,
{
    lemma_sends_key(headers, key);
}

/// A client is let in exactly where it sends one of the keys of the settings. Any other one is
/// told that its key is missing or invalid.
pub proof fn law_only_holders_of_a_key_are_let_in(
    headers: HeaderMap,
    settings: ProxySettings,
    result: Result<(), ProxyError>,
)
    requires
        call_ensures(require_proxy_api_key, (&headers, &settings), result),
    ensures
        result is Ok <==> exists|i: int|
            0 <= i < settings.api_keys@.len() && sends_key(
                headers,
                (#[trigger] settings.api_keys@[i])@,
            ),
        result is Err ==> result->Err_0 is InvalidProxyApiKey,
{
    let keys = texts(settings.api_keys@);
    if result is Ok {
        let key = bearer_key(header_contents(headers))->0;
        let i = choose|i: int| 0 <= i < keys.len() && keys[i] == key;
        lemma_sends_key(headers, key);
        assert(sends_key(headers, settings.api_keys@[i]@));
    }
    if exists|i: int|
        0 <= i < settings.api_keys@.len() && sends_key(
            headers,
            (#[trigger] settings.api_keys@[i])@,
        ) {
        let i = choose|i: int|
            0 <= i < settings.api_keys@.len() && sends_key(
                headers,
                (#[trigger] settings.api_keys@[i])@,
            );
        lemma_sends_key(headers, settings.api_keys@[i]@);
        assert(keys[i] == settings.api_keys@[i]@);
        assert(keys.contains(settings.api_keys@[i]@));
    }
}

/// What the log says of the headers of a request is what they spell, or that it is unknown.
pub proof fn law_headers_are_logged(
    headers: HeaderMap,
    length: String,
    agent: String,
    text: Seq<char>,
)
    requires
        call_ensures(content_length, (&headers,), length),
        call_ensures(user_agent, (&headers,), agent),
    ensures
        header_spells(headers, "content-length"@, text) ==> length@ == text,
        !header_spells(headers, "content-length"@, length@) ==> length@ == "unknown"@,
        header_spells(headers, "user-agent"@, text) ==> agent@ == text,
        !header_spells(headers, "user-agent"@, agent@) ==> agent@ == "unknown"@,
{
    let contents = header_contents(headers);
    lemma_spells(contents["content-length"@][0].0, text);
    lemma_spells(contents["content-length"@][0].0, length@);
    lemma_spells(contents["user-agent"@][0].0, text);
    lemma_spells(contents["user-agent"@][0].0, agent@);
}

/// A client without a key learns nothing else, and one with a key gets the plan that is made
/// without regard to its key.
pub proof fn law_key_comes_first(
    headers: HeaderMap,
    request_read: Result<ChatCompletionRequest, String>,
    settings: ProxySettings,
    conversation_id: &str,
    let_in: Result<(), ProxyError>,
    planned: Result<ChatPlan, ProxyError>,
    result: Result<ChatPlan, ProxyError>,
)
    requires
        call_ensures(require_proxy_api_key, (&headers, &settings), let_in),
        call_ensures(plan_chat_completion, (request_read, &settings, conversation_id), planned),
        call_ensures(
            admit_chat_completion,
            (&headers, request_read, &settings, conversation_id),
            result,
        ),
    ensures
        let_in is Err ==> result is Err && result->Err_0 is InvalidProxyApiKey,
        let_in is Ok ==> (result is Ok <==> planned is Ok),
        let_in is Ok && planned is Err ==> result->Err_0 is InvalidRequest && planned->Err_0
            is InvalidRequest && result->Err_0->InvalidRequest_0@
            == planned->Err_0->InvalidRequest_0@,
        let_in is Ok && planned is Ok ==> {
            &&& result->Ok_0.client_model@ == planned->Ok_0.client_model@
            &&& result->Ok_0.stream == planned->Ok_0.stream
            &&& same_request(
                result->Ok_0.upstream_request,
                planned->Ok_0.upstream_request,
            )
            &&& result->Ok_0.upstream_request.prompt_cache_key is Some
            &&& result->Ok_0.upstream_request.prompt_cache_key->0@ == conversation_id@
        },
{
    if let_in is Ok && planned is Ok && result is Ok {
        lemma_items_model(result->Ok_0.upstream_request.input@);
        lemma_items_model(planned->Ok_0.upstream_request.input@);
        lemma_same_request(
            request_read->Ok_0,
            settings,
            result->Ok_0.upstream_request,
            planned->Ok_0.upstream_request,
        );
    }
}

/// Tells whether two requests say the same to upstream, whatever they are kept under.
pub open spec fn same_request(a: CodexRequest, b: CodexRequest) -> bool {
    &&& a.model@ == b.model@
    &&& a.instructions@ == b.instructions@
    &&& a.input@.len() == b.input@.len()
    &&& forall|i: int| 0 <= i < a.input@.len() ==> (#[trigger] a.input@[i])@ == b.input@[i]@
    &&& a.reasoning.effort@ == b.reasoning.effort@
    &&& a.stream == b.stream
    &&& a.store == b.store
    &&& a.service_tier is Some <==> b.service_tier is Some
    &&& a.service_tier is Some ==> a.service_tier->0@ == b.service_tier->0@
}

proof fn lemma_same_request(
    request: ChatCompletionRequest,
    settings: ProxySettings,
    a: CodexRequest,
    b: CodexRequest,
)
    requires
        request.is_codex_request(settings, a),
        request.is_codex_request(settings, b),
    ensures
        same_request(a, b),
{
    lemma_items_model(a.input@);
    lemma_items_model(b.input@);
    assert forall|i: int| 0 <= i < a.input@.len() implies (#[trigger] a.input@[i])@
        == b.input@[i]@ by {
        assert(items_model(a.input@)[i] == a.input@[i]@);
        assert(items_model(b.input@)[i] == b.input@[i]@);
    }
    assert(optional_text(a.service_tier) == optional_text(b.service_tier));
}

/// The plan of a request that was read: the answer is for the model and in the form that the
/// client asked for, and upstream gets what the request asks for, kept under the name of the
/// conversation.
pub proof fn law_plan_is_what_the_request_asks_for(
    request: ChatCompletionRequest,
    settings: ProxySettings,
    conversation_id: &str,
    upstream: Result<CodexRequest, ProxyError>,
    result: Result<ChatPlan, ProxyError>,
)
    requires
        call_ensures(ChatCompletionRequest::to_codex_request, (&request, &settings), upstream),
        call_ensures(plan_chat_completion, (Ok(request), &settings, conversation_id), result),
    ensures
        result is Err <==> has_image_without_address(request.messages@),
        result is Err ==> result->Err_0 is InvalidRequest && result->Err_0->InvalidRequest_0@
            == "image_url.url must not be empty"@,
        result is Ok ==> {
            &&& upstream is Ok
            &&& result->Ok_0.client_model@ == request.model@
            &&& result->Ok_0.stream == request.stream
            &&& same_request(result->Ok_0.upstream_request, upstream->Ok_0)
            &&& result->Ok_0.upstream_request.prompt_cache_key is Some
            &&& result->Ok_0.upstream_request.prompt_cache_key->0@ == conversation_id@
        },
{
    law_only_images_without_address_are_refused(request, settings, upstream);
    if result is Ok {
        lemma_same_request(request, settings, result->Ok_0.upstream_request, upstream->Ok_0);
    }
}

/// A request that could not be read is refused with the reason.
pub proof fn law_unreadable_request_is_refused(
    reason: String,
    settings: ProxySettings,
    conversation_id: &str,
    result: Result<ChatPlan, ProxyError>,
)
    requires
        call_ensures(plan_chat_completion, (Err(reason), &settings, conversation_id), result),
    ensures
        result is Err,
        result->Err_0 is InvalidRequest,
        result->Err_0->InvalidRequest_0@ == "invalid JSON chat completion request: "@ + reason@,
{
}

/// A name is its prefix and the encoding of its bytes, and a conversation has a random one.
pub proof fn law_names_are_random(
    prefix: &str,
    bytes: Vec<u8>,
    name: String,
    conversation_id: String,
)
    requires
        call_ensures(name_from_bytes, (prefix, &bytes), name),
        call_ensures(new_conversation_id, (), conversation_id),
    ensures
        name@ == prefix@ + base64url(bytes@),
        exists|drawn: Seq<u8>|
            drawn.len() == 18 && is_drawn(18, drawn) && conversation_id@ == "codex-proxy-"@
                + #[trigger] base64url(drawn),
{
}

/// Requests to the backend carry the token, marked as sensitive, the name of the conversation
/// twice, the account where it is known, and nothing else.
pub proof fn law_backend_is_told_who_asks(
    saved_auth: SavedAuth,
    conversation_id: &str,
    headers: HeaderMap,
)
    requires
        call_ensures(codex_backend_headers, (&saved_auth, conversation_id), Ok(headers)),
    ensures
        header_contents(headers)["authorization"@] == seq![
            (encode_utf8("Bearer "@ + saved_auth.access_token@), true),
        ],
        header_contents(headers)["x-client-request-id"@] == seq![
            (encode_utf8(conversation_id@), false),
        ],
        header_contents(headers)["session_id"@] == seq![(encode_utf8(conversation_id@), false)],
        saved_auth.account_id is Some ==> header_contents(headers)["chatgpt-account-id"@] == seq![
            (encode_utf8(saved_auth.account_id->0@), false),
        ],
        forall|name: Seq<char>| #[trigger]
            header_contents(headers).dom().contains(name) <==> name == "authorization"@ || name
                == "x-client-request-id"@ || name == "session_id"@ || (name
                == "chatgpt-account-id"@ && saved_auth.account_id is Some),
{
    reveal_strlit("authorization");
    reveal_strlit("x-client-request-id");
    reveal_strlit("session_id");
    reveal_strlit("chatgpt-account-id");
    assert("authorization"@.len() == 13 && "x-client-request-id"@.len() == 19);
    assert("session_id"@.len() == 10 && "chatgpt-account-id"@.len() == 18);
}

/// Headers are refused exactly where one of their texts may not stand in a header, and then as
/// invalid.
pub proof fn law_bad_header_texts_are_refused(
    saved_auth: SavedAuth,
    conversation_id: &str,
    result: Result<HeaderMap, ProxyError>,
)
    requires
        call_ensures(codex_backend_headers, (&saved_auth, conversation_id), result),
    ensures
        result is Ok <==> is_header_text("Bearer "@ + saved_auth.access_token@) && is_header_text(
            conversation_id@,
        ) && (saved_auth.account_id is Some ==> is_header_text(saved_auth.account_id->0@)),
        result is Err ==> result->Err_0 is InvalidRequest,
        !is_header_text("Bearer "@ + saved_auth.access_token@)
            ==> result->Err_0->InvalidRequest_0@
            == "invalid access token header: failed to parse header value"@,
        is_header_text("Bearer "@ + saved_auth.access_token@) && !is_header_text(conversation_id@)
            ==> result->Err_0->InvalidRequest_0@
            == "invalid conversation id header: failed to parse header value"@,
        result is Err && is_header_text("Bearer "@ + saved_auth.access_token@) && is_header_text(
            conversation_id@,
        ) ==> result->Err_0->InvalidRequest_0@
            == "invalid account id header: failed to parse header value"@,
{
}

/// Success has the statuses from 200 to 299; any other answer of the backend ends in an error
/// that holds its status and its body.
pub proof fn law_failures_are_kept(
    status: u16,
    success: bool,
    body: String,
    upstream: ProxyError,
    oauth: ProxyError,
)
    requires
        call_ensures(is_success, (status,), success),
        call_ensures(upstream_status_error, (status, body), upstream),
        call_ensures(oauth_status_error, (status, body), oauth),
    ensures
        CODEX_RESPONSES_URL@ == "https://chatgpt.com/backend-api/codex/responses"@,
        success <==> 200 <= status <= 299,
        upstream is UpstreamStatus && upstream->UpstreamStatus_status == status
            && upstream->UpstreamStatus_body == body,
        oauth is OAuthStatus && oauth->OAuthStatus_status == status && oauth->OAuthStatus_body
            == body,
{
}

/// The text of a piece of the event stream is the text that it encodes, with what is no UTF-8
/// replaced.
pub proof fn law_piece_is_decoded(chunk: &[u8], text: Seq<char>, result: String)
    requires
        call_ensures(chunk_text, (chunk,), result),
    ensures
        chunk@ == encode_utf8(text) ==> result@ == text,
        result@ == lossy_text(chunk@),
{
    vstd::utf8::encode_utf8_valid_utf8(text);
    vstd::utf8::encode_utf8_decode_utf8(text);
}

/// The status of an answer blames the client for a missing or wrong key, for what it asks for
/// and for broken files, hands on the status of a failed request, and blames upstream else.
pub proof fn law_status_tells_who_is_to_blame(error: ProxyError, status: u16)
    requires
        call_ensures(ProxyError::status_code, (&error,), status),
    ensures
        error is MissingAuth || error is MissingRefreshToken || error is InvalidProxyApiKey
            ==> status == 401,
        error is InvalidRequest || error is ParseAuth || error is ParseSettings ==> status == 400,
        error is OAuthStatus && 100 <= error->OAuthStatus_status <= 999 ==> status
            == error->OAuthStatus_status,
        error is UpstreamStatus && 100 <= error->UpstreamStatus_status <= 999 ==> status
            == error->UpstreamStatus_status,
        error is OAuthStatus && !(100 <= error->OAuthStatus_status <= 999) ==> status == 502,
        error is UpstreamStatus && !(100 <= error->UpstreamStatus_status <= 999) ==> status == 502,
        error is ReadAuth || error is WriteAuth || error is ReadSettings || error is WriteSettings
            || error is ReadSystemPrompt || error is ParseToken || error is OAuthRequest || error
            is UpstreamRequest || error is Login ==> status == 502,
{
}

/// The message of an error says what failed and why, and the answer to a client holds it.
pub proof fn law_message_says_what_failed(
    error: ProxyError,
    message: String,
    response: OpenAiErrorResponse,
)
    requires
        call_ensures(ProxyError::message, (&error,), message),
        call_ensures(ProxyError::error_response, (&error,), response),
    ensures
        response.error.message@ == message@,
        response.error.error_type@ == "proxy_error"@,
        response.error.code is None,
        error is MissingAuth ==> message@
            == "auth file was not found; run `codex-proxy login browser` or `codex-proxy login device`"@,
        error is MissingRefreshToken ==> message@
            == "codex auth is expired and cannot be refreshed because no refresh token is saved"@,
        error is InvalidProxyApiKey ==> message@ == "missing or invalid proxy API key"@,
        error is ReadAuth ==> message@ == "failed to read auth file: "@ + error->ReadAuth_0@,
        error is WriteAuth ==> message@ == "failed to write auth file: "@ + error->WriteAuth_0@,
        error is ParseAuth ==> message@ == "failed to parse auth file: "@ + error->ParseAuth_0@,
        error is ReadSettings ==> message@ == "failed to read settings file: "@
            + error->ReadSettings_0@,
        error is WriteSettings ==> message@ == "failed to write settings file: "@
            + error->WriteSettings_0@,
        error is ParseSettings ==> message@ == "failed to parse settings file: "@
            + error->ParseSettings_0@,
        error is ReadSystemPrompt ==> message@ == "failed to read system prompt file "@
            + error->path@ + ": "@ + error->source@,
        error is ParseToken ==> message@ == "failed to parse token response: "@
            + error->ParseToken_0@,
        error is OAuthRequest ==> message@ == "oauth request failed: "@ + error->OAuthRequest_0@,
        error is OAuthStatus ==> message@ == "oauth request failed with status "@ + decimal(
            error->OAuthStatus_status as nat,
        ) + ": "@ + error->OAuthStatus_body@,
        error is UpstreamRequest ==> message@ == "upstream request failed: "@
            + error->UpstreamRequest_0@,
        error is UpstreamStatus ==> message@ == "upstream request failed with status "@ + decimal(
            error->UpstreamStatus_status as nat,
        ) + ": "@ + error->UpstreamStatus_body@,
        error is InvalidRequest ==> message@ == "invalid request: "@ + error->InvalidRequest_0@,
        error is Login ==> message@ == "login failed: "@ + error->Login_0@,
{
}

} // verus!
