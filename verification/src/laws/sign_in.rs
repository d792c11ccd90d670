//! How the proxy signs in, and how it keeps the access token fresh.

use crate::auth::{
    account_id_from_claims, build_authorize_url, callback_code, callback_query,
    callback_query_from_text, callback_reply, device_code_request_body, exchange_request_body,
    extract_account_id, generate_pkce_codes, generate_random_url_safe_string, jwt_payload,
    last_value, pkce_codes_for, poll_verdict, refresh_request_body, AccessTokenStep, AuthManager,
    DeviceCodeResponse, DeviceLogin, DeviceLoginEvent, DeviceLoginStep, PkceCodes, PollVerdict,
    SavedAuth, TokenClaims, TokenResponse, BROWSER_LOGIN_PORT, BROWSER_REDIRECT_URI, CALLBACK_PAGE,
    DEVICE_CODE_URL, DEVICE_REDIRECT_URI, DEVICE_TOKEN_URL, OAUTH_AUTHORIZE_URL, OAUTH_TOKEN_URL,
};
use crate::clock::is_clock_reading;
use crate::encoding::{
    base64url, base64url_decoded, form_encoded, is_drawn, lossy_text, pair_texts, sha256,
    url_query,
};
use crate::error::{FileFault, FileRead, FileWrite, ProxyError};
use crate::json::{law_member_is_found, Json, JsonValue};
use crate::laws::conversation::has_members;
use crate::laws::text::{is_word, lemma_second_word};
use crate::text::{
    decimal, is_white_space, lemma_position_unique, lines, optional_text, parse_unsigned,
    second_word, split_lines, split_second, texts,
};
use std::path::PathBuf;
use vstd::prelude::*;
use vstd::utf8::encode_utf8;

verus! {

/// At a time, an access token is used as it is where it is good for more than half a minute
/// longer, and renewed with the refresh token otherwise.
pub proof fn law_token_is_used_while_it_is_good(
    manager: AuthManager,
    saved_auth: SavedAuth,
    now_millis: u64,
    step: AccessTokenStep,
    refresh_token: &str,
    body: String,
)
    requires
        call_ensures(AuthManager::access_token_at, (&manager, saved_auth, now_millis), step),
        refresh_token@ == saved_auth.refresh_token@,
        call_ensures(refresh_request_body, (refresh_token,), body),
    ensures
        step is Use <==> saved_auth.expires_at_millis > now_millis + 30_000,
        step is Use ==> step->Use_0 == saved_auth,
        step is Refresh ==> step->request_body@ == body@ && step->Refresh_account_id
            == saved_auth.account_id,
{
}

/// The same holds now: the step is the one for a time, in milliseconds, that the clock has read.
/// So a token that has expired when the clock is read is renewed.
pub proof fn law_expired_token_is_renewed(
    manager: AuthManager,
    saved_auth: SavedAuth,
    step: AccessTokenStep,
    refresh_token: &str,
    body: String,
)
    requires
        call_ensures(AuthManager::access_token, (&manager, saved_auth), step),
        refresh_token@ == saved_auth.refresh_token@,
        call_ensures(refresh_request_body, (refresh_token,), body),
    ensures
        step is Use ==> step->Use_0 == saved_auth,
        step is Refresh ==> step->request_body@ == body@ && step->Refresh_account_id
            == saved_auth.account_id,
        exists|reading: Option<(u64, u32)>| #[trigger]
            is_clock_reading(reading) && match reading {
                Some((seconds, nanos)) => {
                    &&& seconds * 1000 + nanos as int / 1_000_000 <= u64::MAX ==> (step is Use
                        <==> saved_auth.expires_at_millis > seconds * 1000 + nanos as int
                        / 1_000_000 + 30_000)
                    &&& seconds * 1000 + nanos as int / 1_000_000 <= u64::MAX
                        && saved_auth.expires_at_millis <= seconds * 1000 ==> step is Refresh
                },
                None => step is Use <==> saved_auth.expires_at_millis > 30_000,
            },
{
}

/// Tells whether a result is what comes of saving an answer with tokens at a time in milliseconds:
/// the tokens of the answer, the time at which the access token expires, and the account that
/// the tokens name, or else the known one. An answer without a refresh token keeps the saved one,
/// and fails where there is none.
pub open spec fn saves_answer(
    result: Option<Result<SavedAuth, ProxyError>>,
    token_response: TokenResponse,
    named: Option<String>,
    saved_refresh_token: Option<String>,
    existing_account_id: Option<String>,
    now_millis: int,
) -> bool {
    let expires = now_millis + match token_response.expires_in {
        Some(seconds) => seconds * 1000,
        None => 3_600_000int,
    };
    if token_response.refresh_token is None && saved_refresh_token is None {
        result is Some && result->0 is Err && result->0->Err_0 is MissingRefreshToken
    } else if expires > u64::MAX {
        result is None
    } else {
        &&& result is Some
        &&& result->0 is Ok
        &&& result->0->Ok_0.access_token@ == token_response.access_token@
        &&& token_response.refresh_token is Some ==> result->0->Ok_0.refresh_token@
            == token_response.refresh_token->0@
        &&& token_response.refresh_token is None ==> result->0->Ok_0.refresh_token@
            == saved_refresh_token->0@
        &&& result->0->Ok_0.expires_at_millis == expires
        &&& named is Some ==> result->0->Ok_0.account_id is Some
            && result->0->Ok_0.account_id->0@ == named->0@
        &&& named is None ==> optional_text(result->0->Ok_0.account_id) == optional_text(
            existing_account_id,
        )
    }
}

/// An answer that comes at a time is saved with that time.
pub proof fn law_answer_is_saved(
    manager: AuthManager,
    token_response: TokenResponse,
    id_claims: Option<TokenClaims>,
    access_claims: Option<TokenClaims>,
    named: Option<String>,
    saved_refresh_token: Option<String>,
    existing_account_id: Option<String>,
    now_millis: u64,
    result: Option<Result<SavedAuth, ProxyError>>,
)
    requires
        call_ensures(
            AuthManager::saved_auth_at,
            (
                &manager,
                token_response,
                id_claims,
                access_claims,
                saved_refresh_token,
                existing_account_id,
                now_millis,
            ),
            result,
        ),
        call_ensures(extract_account_id, (id_claims, access_claims), named),
    ensures
        saves_answer(
            result,
            token_response,
            named,
            saved_refresh_token,
            existing_account_id,
            now_millis as int,
        ),
{
}

/// An answer that comes now is saved with the time that the clock reads.
pub proof fn law_answer_is_saved_with_the_time(
    manager: AuthManager,
    token_response: TokenResponse,
    id_claims: Option<TokenClaims>,
    access_claims: Option<TokenClaims>,
    named: Option<String>,
    saved_refresh_token: Option<String>,
    existing_account_id: Option<String>,
    result: Option<Result<SavedAuth, ProxyError>>,
)
    requires
        call_ensures(
            AuthManager::saved_auth_from_tokens,
            (
                &manager,
                token_response,
                id_claims,
                access_claims,
                saved_refresh_token,
                existing_account_id,
            ),
            result,
        ),
        call_ensures(extract_account_id, (id_claims, access_claims), named),
    ensures
        exists|reading: Option<(u64, u32)>| #[trigger]
            is_clock_reading(reading) && match reading {
                Some((seconds, nanos)) => seconds * 1000 + nanos as int / 1_000_000 <= u64::MAX
                    ==> saves_answer(
                    result,
                    token_response,
                    named,
                    saved_refresh_token,
                    existing_account_id,
                    seconds * 1000 + nanos as int / 1_000_000,
                ),
                None => saves_answer(
                    result,
                    token_response,
                    named,
                    saved_refresh_token,
                    existing_account_id,
                    0,
                ),
            },
{
}

/// The account is the one that the token names directly, else the one in the claims of OpenAI,
/// else the first organization, whatever else the token holds.
pub proof fn law_account_is_found(claims: TokenClaims, account: Option<String>)
    requires
        call_ensures(account_id_from_claims, (claims,), account),
    ensures
        claims.chatgpt_account_id is Some ==> account is Some && account->0@
            == claims.chatgpt_account_id->0@,
        claims.chatgpt_account_id is None && claims.openai_auth is Some
            && claims.openai_auth->0.chatgpt_account_id is Some ==> account is Some && account->0@
            == claims.openai_auth->0.chatgpt_account_id->0@,
        claims.chatgpt_account_id is None && (claims.openai_auth is None
            || claims.openai_auth->0.chatgpt_account_id is None) && claims.organizations is Some
            && claims.organizations->0@.len() > 0 ==> account is Some && account->0@
            == claims.organizations->0@[0].id@,
        account is None <==> claims.chatgpt_account_id is None && (claims.openai_auth is None
            || claims.openai_auth->0.chatgpt_account_id is None) && (claims.organizations is None
            || claims.organizations->0@.len() == 0),
{
}

/// The account of an answer is the one of its identity token, else the one of its access token.
pub proof fn law_identity_token_goes_first(
    id_claims: TokenClaims,
    id_account: Option<String>,
    access_claims: TokenClaims,
    access_account: Option<String>,
    both: Option<String>,
    only_access: Option<String>,
    only_id: Option<String>,
    neither: Option<String>,
)
    requires
        call_ensures(account_id_from_claims, (id_claims,), id_account),
        call_ensures(account_id_from_claims, (access_claims,), access_account),
        call_ensures(extract_account_id, (Some(id_claims), Some(access_claims)), both),
        call_ensures(extract_account_id, (None, Some(access_claims)), only_access),
        call_ensures(extract_account_id, (Some(id_claims), None), only_id),
        call_ensures(extract_account_id, (None, None), neither),
    ensures
        neither is None,
        id_account is Some ==> both is Some && both->0@ == id_account->0@,
        id_account is None ==> optional_text(both) == optional_text(access_account),
        optional_text(only_access) == optional_text(access_account),
        optional_text(only_id) == optional_text(id_account),
{
}

/// The claims of a token are what its second part encodes; a token of one part has none.
pub proof fn law_claims_are_decoded(token: &str, part: Option<String>, payload: Option<Vec<u8>>)
    requires
        call_ensures(jwt_payload, (token,), payload),
        call_ensures(split_second, (token, '.'), part),
    ensures
        part is None ==> payload is None,
        part is Some ==> (payload is Some <==> base64url_decoded(part->0@) is Some),
        payload is Some ==> Some(payload->0@) == base64url_decoded(part->0@),
{
}

/// The claims of an answer are those of its own two tokens.
pub proof fn law_claims_are_those_of_the_tokens(
    response: TokenResponse,
    payloads: (Option<Vec<u8>>, Option<Vec<u8>>),
    access_token: &str,
    access_payload: Option<Vec<u8>>,
    id_token: &str,
    id_payload: Option<Vec<u8>>,
)
    requires
        call_ensures(TokenResponse::claim_payloads, (&response,), payloads),
        access_token@ == response.access_token@,
        call_ensures(jwt_payload, (access_token,), access_payload),
        response.id_token is Some ==> id_token@ == response.id_token->0@,
        call_ensures(jwt_payload, (id_token,), id_payload),
    ensures
        payloads.1 is Some <==> access_payload is Some,
        payloads.1 is Some ==> payloads.1->0@ == access_payload->0@,
        response.id_token is None ==> payloads.0 is None,
        response.id_token is Some ==> (payloads.0 is Some <==> id_payload is Some),
        response.id_token is Some && payloads.0 is Some ==> payloads.0->0@ == id_payload->0@,
{
}

/// A request for a new access token sends the refresh token.
pub proof fn law_refresh_token_is_sent(refresh_token: &str, body: String)
    requires
        call_ensures(refresh_request_body, (refresh_token,), body),
    ensures
        body@ == form_encoded(
            seq![
                ("grant_type"@, "refresh_token"@),
                ("refresh_token"@, refresh_token@),
                ("client_id"@, "app_EMoamEEZ73f0CkXaXp7hrann"@),
            ],
        ),
{
}

/// A request for tokens sends the authorization code, the secret, and where the code was sent.
pub proof fn law_code_is_exchanged(
    authorization_code: &str,
    redirect_uri: &str,
    code_verifier: &str,
    body: String,
)
    requires
        call_ensures(
            exchange_request_body,
            (authorization_code, redirect_uri, code_verifier),
            body,
        ),
    ensures
        body@ == form_encoded(
            seq![
                ("grant_type"@, "authorization_code"@),
                ("code"@, authorization_code@),
                ("redirect_uri"@, redirect_uri@),
                ("client_id"@, "app_EMoamEEZ73f0CkXaXp7hrann"@),
                ("code_verifier"@, code_verifier@),
            ],
        ),
{
}

/// The page on which the user signs in is told what was told in advance of the secret, and the
/// state.
pub proof fn law_page_is_told_challenge_and_state(
    redirect_uri: &str,
    codes: PkceCodes,
    state: &str,
    url: String,
)
    requires
        call_ensures(build_authorize_url, (redirect_uri, &codes, state), url),
    ensures
        url@ == "https://auth.openai.com/oauth/authorize"@ + "?"@ + form_encoded(
            seq![
                ("response_type"@, "code"@),
                ("client_id"@, "app_EMoamEEZ73f0CkXaXp7hrann"@),
                ("redirect_uri"@, redirect_uri@),
                ("scope"@, "openid profile email offline_access"@),
                ("code_challenge"@, codes.code_challenge@),
                ("code_challenge_method"@, "S256"@),
                ("id_token_add_organizations"@, "true"@),
                ("codex_cli_simplified_flow"@, "true"@),
                ("state"@, state@),
                ("originator"@, "opencode"@),
            ],
        ),
{
}

/// What is told in advance of a secret is the encoded digest of it, and the secret is random.
pub proof fn law_challenge_is_the_digest(verifier: String, given: PkceCodes, drawn: PkceCodes)
    requires
        call_ensures(pkce_codes_for, (verifier,), given),
        call_ensures(generate_pkce_codes, (), drawn),
    ensures
        given.code_verifier@ == verifier@,
        given.code_challenge@ == base64url(sha256(encode_utf8(verifier@))),
        drawn.code_challenge@ == base64url(sha256(encode_utf8(drawn.code_verifier@))),
        exists|bytes: Seq<u8>|
            drawn.code_verifier@ == #[trigger] base64url(bytes) && is_drawn(32, bytes),
{
}

/// Tells whether the last pair with a name has this value.
pub open spec fn is_last(pairs: Seq<(String, String)>, name: Seq<char>, value: Seq<char>) -> bool {
    exists|i: int|
        {
            &&& 0 <= i < pairs.len()
            &&& (#[trigger] pairs[i]).0@ == name
            &&& pairs[i].1@ == value
            &&& forall|j: int| i < j < pairs.len() ==> (#[trigger] pairs[j]).0@ != name
        }
}

/// Tells whether some pair has a name.
pub open spec fn has_name(pairs: Seq<(String, String)>, name: Seq<char>) -> bool {
    exists|i: int| 0 <= i < pairs.len() && (#[trigger] pairs[i]).0@ == name
}

proof fn lemma_last_value(pairs: Seq<(String, String)>, name: Seq<char>)
    ensures
        has_name(pairs, name) <==> last_value(pair_texts(pairs), name) is Some,
        last_value(pair_texts(pairs), name) is Some ==> is_last(
            pairs,
            name,
            last_value(pair_texts(pairs), name)->0,
        ),
        forall|value: Seq<char>| #[trigger]
            is_last(pairs, name, value) ==> last_value(pair_texts(pairs), name) == Some(value),
    decreases pairs.len(),
{
    let all = pair_texts(pairs);
    if pairs.len() > 0 {
        let before = pairs.drop_last();
        lemma_last_value(before, name);
        assert(all.drop_last() =~= pair_texts(before));
        assert(all.last() == (pairs.last().0@, pairs.last().1@));
        assert(forall|j: int| 0 <= j < before.len() ==> #[trigger] before[j] == pairs[j]);
        if pairs.last().0@ == name {
            assert(pairs[pairs.len() - 1].0@ == name);
            assert(is_last(pairs, name, pairs.last().1@));
            assert forall|value: Seq<char>| #[trigger] is_last(pairs, name, value) implies value
                == pairs.last().1@ by {
                let i = choose|i: int|
                    {
                        &&& 0 <= i < pairs.len()
                        &&& (#[trigger] pairs[i]).0@ == name
                        &&& pairs[i].1@ == value
                        &&& forall|j: int| i < j < pairs.len() ==> (#[trigger] pairs[j]).0@ != name
                    };
                if i < pairs.len() - 1 {
                    assert(pairs[pairs.len() - 1].0@ != name);
                }
            }
        } else {
            if has_name(pairs, name) {
                let i = choose|i: int| 0 <= i < pairs.len() && (#[trigger] pairs[i]).0@ == name;
                assert(before[i].0@ == name);
            }
            if last_value(all, name) is Some {
                let value = last_value(all, name)->0;
                let i = choose|i: int|
                    {
                        &&& 0 <= i < before.len()
                        &&& (#[trigger] before[i]).0@ == name
                        &&& before[i].1@ == value
                        &&& forall|j: int|
                            i < j < before.len() ==> (#[trigger] before[j]).0@ != name
                    };
                assert(pairs[i].0@ == name && pairs[i].1@ == value);
                assert forall|j: int| i < j < pairs.len() implies (#[trigger] pairs[j]).0@
                    != name by {
                    if j < before.len() {
                        assert(before[j].0@ != name);
                    }
                }
            }
            assert forall|value: Seq<char>| #[trigger] is_last(pairs, name, value) implies is_last(
                before,
                name,
                value,
            ) by {
                let i = choose|i: int|
                    {
                        &&& 0 <= i < pairs.len()
                        &&& (#[trigger] pairs[i]).0@ == name
                        &&& pairs[i].1@ == value
                        &&& forall|j: int| i < j < pairs.len() ==> (#[trigger] pairs[j]).0@ != name
                    };
                assert(before[i].0@ == name && before[i].1@ == value);
                assert forall|j: int| i < j < before.len() implies (#[trigger] before[j]).0@
                    != name by {
                    assert(pairs[j].0@ != name);
                }
            }
        }
    }
}

/// A callback counts only with the state that the sign-in began with, and gives the code that it
/// holds; of values under one name the last counts.
pub proof fn law_callback_needs_the_state(
    pairs: Vec<(String, String)>,
    expected_state: &str,
    result: Result<String, ProxyError>,
)
    requires
        call_ensures(callback_code, (&pairs, expected_state), result),
    ensures
        result is Ok <==> is_last(pairs@, "state"@, expected_state@) && has_name(pairs@, "code"@),
        result is Ok ==> is_last(pairs@, "code"@, result->Ok_0@),
        result is Err ==> result->Err_0 is Login,
        !is_last(pairs@, "state"@, expected_state@) ==> result->Err_0->Login_0@
            == "browser callback state did not match"@,
        is_last(pairs@, "state"@, expected_state@) && !has_name(pairs@, "code"@)
            ==> result->Err_0->Login_0@ == "browser callback did not include a code"@,
{
    lemma_last_value(pairs@, "state"@);
    lemma_last_value(pairs@, "code"@);
}

/// The browser calls back with the query of the path that its request names.
pub proof fn law_callback_is_read_from_the_path(
    method: Seq<char>,
    path: Seq<char>,
    version: Seq<char>,
    rest: Seq<char>,
    request: &str,
    result: Result<Vec<(String, String)>, ProxyError>,
)
    requires
        is_word(method),
        is_word(path),
        is_word(version),
        request@ == method + seq![' '] + path + seq![' '] + version + seq!['\r', '\n'] + rest,
        call_ensures(callback_query_from_text, (request,), result),
    ensures
        match url_query("http://localhost"@ + path) {
            Ok(pairs) => result is Ok && pair_texts(result->Ok_0@) == pairs,
            Err(reason) => result is Err && result->Err_0 is Login && result->Err_0->Login_0@
                == "browser callback URL was invalid: "@ + reason,
        },
{
    let line = method + seq![' '] + path + seq![' '] + version;
    let n = line.len() as int;
    assert forall|i: int| 0 <= i < n + 1 implies request@[i] != '\n' by {
        if i < n {
            assert(request@[i] == line[i]);
            if i < method.len() {
                assert(!is_white_space(method[i]));
            } else if i > method.len() && i < method.len() + 1 + path.len() {
                assert(!is_white_space(path[i - method.len() - 1]));
            } else if i > method.len() + 1 + path.len() {
                assert(!is_white_space(version[i - method.len() - path.len() - 2]));
            }
        }
    }
    assert(request@[n + 1] == '\n');
    lemma_position_unique(request@, '\n', n + 1);
    assert(request@.take(n + 1) =~= line.push('\r'));
    assert(line.push('\r').drop_last() =~= line);
    assert(lines(request@)[0] == line);
    let none = Seq::<char>::empty();
    lemma_second_word(none, method, seq![' '], path, seq![' '] + version);
    assert(line =~= none + method + seq![' '] + path + (seq![' '] + version));
}

/// A device waits for three seconds more than it is told to, for four at least, and for eight
/// where it is told no number.
pub proof fn law_device_waits_longer_than_told(
    response: DeviceCodeResponse,
    interval: &str,
    told: Option<u64>,
    result: Option<u64>,
    login: Option<DeviceLogin>,
)
    requires
        interval@ == response.interval@,
        call_ensures(parse_unsigned, (interval, u64::MAX), told),
        call_ensures(DeviceCodeResponse::polling_interval, (&response,), result),
        call_ensures(DeviceLogin::new, (&response,), login),
    ensures
        told is None ==> result == Some(8u64),
        told is Some && told->0 == 0 ==> result == Some(4u64),
        told is Some && 1 <= told->0 <= u64::MAX - 3 ==> result == Some((told->0 + 3) as u64),
        told is Some && told->0 > u64::MAX - 3 ==> result is None,
        login is Some <==> result is Some,
{
}

/// A device asks for a quarter of an hour at most, waits as long as it is told between two
/// questions, and exchanges the code once it is granted.
pub proof fn law_device_login_goes_on(
    response: DeviceCodeResponse,
    interval: Option<u64>,
    login: DeviceLogin,
    event: DeviceLoginEvent,
    step: DeviceLoginStep,
)
    requires
        call_ensures(DeviceCodeResponse::polling_interval, (&response,), interval),
        call_ensures(DeviceLogin::new, (&response,), Some(login)),
        call_ensures(DeviceLogin::login_step, (&login, event), step),
    ensures
        match event {
            DeviceLoginEvent::Awake { elapsed_millis } => {
                &&& elapsed_millis < 900_000 ==> step is Poll
                &&& elapsed_millis >= 900_000 ==> step is Fail && step->Fail_0 is Login
                    && step->Fail_0->Login_0@ == "device login timed out after 15 minutes"@
            },
            DeviceLoginEvent::Polled(None) => step is Pause && interval == Some(step->Pause_0),
            DeviceLoginEvent::Polled(Some(granted)) => step is Exchange && step->Exchange_0@
                == form_encoded(
                seq![
                    ("grant_type"@, "authorization_code"@),
                    ("code"@, granted.authorization_code@),
                    ("redirect_uri"@, "https://auth.openai.com/deviceauth/callback"@),
                    ("client_id"@, "app_EMoamEEZ73f0CkXaXp7hrann"@),
                    ("code_verifier"@, granted.code_verifier@),
                ],
            ),
        },
{
}

/// A device goes on waiting while it is refused with two statuses, and takes no other failure
/// for an answer.
pub proof fn law_poll_is_judged_by_its_status(status: u16, verdict: PollVerdict)
    requires
        call_ensures(poll_verdict, (status,), verdict),
    ensures
        verdict is Pending <==> status == 403 || status == 404,
        verdict is Granted <==> 200 <= status <= 299,
        verdict is Refused <==> status != 403 && status != 404 && !(200 <= status <= 299),
{
}

/// A callback is the second word of the first line of its request; without one, the request is
/// refused.
pub proof fn law_callback_is_the_second_word(
    request: &str,
    request_lines: Vec<String>,
    first_line: &str,
    path: Option<String>,
    result: Result<Vec<(String, String)>, ProxyError>,
)
    requires
        call_ensures(callback_query_from_text, (request,), result),
        call_ensures(split_lines, (request,), request_lines),
        request_lines@.len() > 0 ==> first_line@ == request_lines@[0]@,
        call_ensures(second_word, (first_line,), path),
    ensures
        request_lines@.len() == 0 || path is None ==> result is Err && result->Err_0 is Login
            && result->Err_0->Login_0@ == "browser callback was not a valid HTTP request"@,
        request_lines@.len() > 0 && path is Some ==> match url_query(
            "http://localhost"@ + path->0@,
        ) {
            Ok(pairs) => result is Ok && pair_texts(result->Ok_0@) == pairs,
            Err(reason) => result is Err && result->Err_0 is Login && result->Err_0->Login_0@
                == "browser callback URL was invalid: "@ + reason,
        },
{
    assert(texts(request_lines@).len() == request_lines@.len());
    if request_lines@.len() > 0 {
        assert(texts(request_lines@)[0] == request_lines@[0]@);
    }
}

/// A callback that comes in bytes is read as the text that they encode.
pub proof fn law_callback_is_read_from_bytes(
    bytes: &[u8],
    text: &str,
    from_bytes: Result<Vec<(String, String)>, ProxyError>,
    from_text: Result<Vec<(String, String)>, ProxyError>,
)
    requires
        bytes@ == encode_utf8(text@) || text@ == lossy_text(bytes@),
        call_ensures(callback_query, (bytes,), from_bytes),
        call_ensures(callback_query_from_text, (text,), from_text),
    ensures
        from_bytes is Ok <==> from_text is Ok,
        from_bytes is Ok ==> pair_texts(from_bytes->Ok_0@) == pair_texts(from_text->Ok_0@),
        from_bytes is Err ==> from_bytes->Err_0 is Login && from_text->Err_0 is Login
            && from_bytes->Err_0->Login_0@ == from_text->Err_0->Login_0@,
{
    vstd::utf8::encode_utf8_valid_utf8(text@);
    vstd::utf8::encode_utf8_decode_utf8(text@);
}

/// A random text encodes as many drawn bytes as are asked for.
pub proof fn law_random_text_is_drawn(byte_count: usize, text: String)
    requires
        call_ensures(generate_random_url_safe_string, (byte_count,), text),
    ensures
        exists|bytes: Seq<u8>|
            bytes.len() == byte_count && is_drawn(byte_count, bytes) && text@
                == #[trigger] base64url(bytes),
{
}

/// A device asks about its own code, as this client.
pub proof fn law_device_asks_about_its_code(
    response: DeviceCodeResponse,
    question: JsonValue,
    request: JsonValue,
    instruction: String,
)
    requires
        call_ensures(DeviceCodeResponse::poll_request_body, (&response,), question),
        call_ensures(device_code_request_body, (), request),
        call_ensures(DeviceCodeResponse::instruction, (&response,), instruction),
    ensures
        has_members(question@, 2),
        question@.text_member("device_auth_id"@) == Some(response.device_auth_id@),
        question@.text_member("user_code"@) == Some(response.user_code@),
        has_members(request@, 1),
        request@.text_member("client_id"@) == Some("app_EMoamEEZ73f0CkXaXp7hrann"@),
        instruction@ == "Open https://auth.openai.com/codex/device and enter code: "@
            + response.user_code@,
{
    reveal_strlit("device_auth_id");
    reveal_strlit("user_code");
    assert("device_auth_id"@.len() != "user_code"@.len());
    let fields = seq![
        ("device_auth_id"@, Json::Text(response.device_auth_id@)),
        ("user_code"@, Json::Text(response.user_code@)),
    ];
    law_member_is_found(fields, "device_auth_id"@, 0);
    law_member_is_found(fields, "user_code"@, 1);
    let one = seq![("client_id"@, Json::Text("app_EMoamEEZ73f0CkXaXp7hrann"@))];
    law_member_is_found(one, "client_id"@, 0);
}

/// What is loaded is what was saved, and each failure says what failed.
pub proof fn law_saved_auth_is_loaded(
    manager: AuthManager,
    read: FileRead<SavedAuth>,
    loaded: Result<SavedAuth, ProxyError>,
    write: FileWrite,
    saved: Result<(), ProxyError>,
    removed: Result<(), FileFault>,
    deleted: Result<bool, ProxyError>,
)
    requires
        call_ensures(AuthManager::load_saved_auth, (&manager, read), loaded),
        call_ensures(AuthManager::save_auth, (&manager, write), saved),
        call_ensures(AuthManager::delete_auth, (&manager, removed), deleted),
    ensures
        read is Parsed <==> loaded is Ok,
        read is Parsed ==> loaded->Ok_0 == read->Parsed_0,
        read is Failed && read->Failed_0 is NotFound <==> loaded is Err && loaded->Err_0
            is MissingAuth,
        read is Malformed <==> loaded is Err && loaded->Err_0 is ParseAuth,
        read is Malformed ==> loaded->Err_0->ParseAuth_0@ == read->Malformed_0@,
        read is Failed && read->Failed_0 is Other ==> loaded->Err_0 is ReadAuth
            && loaded->Err_0->ReadAuth_0@ == read->Failed_0->Other_0@,
        write is Written <==> saved is Ok,
        write is Unwritable ==> saved->Err_0 is ParseToken && saved->Err_0->ParseToken_0@
            == write->Unwritable_0@,
        write is Failed ==> saved->Err_0 is WriteAuth && saved->Err_0->WriteAuth_0@
            == write->Failed_0@,
        deleted is Ok <==> removed is Ok || removed->Err_0 is NotFound,
        deleted is Ok ==> (deleted->Ok_0 <==> removed is Ok),
        deleted is Err ==> deleted->Err_0 is WriteAuth && deleted->Err_0->WriteAuth_0@
            == removed->Err_0->Other_0@,
{
}

/// The sign-in is kept in the file that is named for it.
pub proof fn law_auth_file_is_kept(auth_file: PathBuf, manager: AuthManager, kept: &PathBuf)
    requires
        call_ensures(AuthManager::new, (auth_file,), manager),
        call_ensures(AuthManager::auth_file, (&manager,), kept),
    ensures
        *kept == auth_file,
{
}

/// The browser is sent a page with its true length in front.
pub proof fn law_browser_gets_a_whole_page(reply: String)
    requires
        call_ensures(callback_reply, (), reply),
    ensures
        reply@
            == "HTTP/1.1 200 OK\r\ncontent-type: text/html; charset=utf-8\r\ncontent-length: "@
            + decimal(encode_utf8(CALLBACK_PAGE@).len())
            + "\r\nconnection: close\r\n\r\n"@ + CALLBACK_PAGE@,
        CALLBACK_PAGE@
            == "<!doctype html><title>Codex Proxy Login</title><h1>Login complete</h1><p>You can close this window.</p>"@,
{
}

/// The browser is sent back to the port that the proxy listens on while the user signs in.
pub proof fn law_browser_is_sent_to_the_port()
    ensures
        BROWSER_REDIRECT_URI@ == "http://localhost:"@ + decimal(BROWSER_LOGIN_PORT as nat)
            + "/auth/callback"@,
{
    reveal_strlit("http://localhost:");
    reveal_strlit("/auth/callback");
    reveal_strlit("http://localhost:1455/auth/callback");
    reveal_with_fuel(decimal, 5);
    assert(decimal(BROWSER_LOGIN_PORT as nat) =~= seq!['1', '4', '5', '5']);
    assert(BROWSER_REDIRECT_URI@ =~= "http://localhost:"@ + decimal(BROWSER_LOGIN_PORT as nat)
        + "/auth/callback"@);
}

/// Where the requests of a sign-in go.
pub proof fn law_sign_in_addresses()
    ensures
        OAUTH_AUTHORIZE_URL@ == "https://auth.openai.com/oauth/authorize"@,
        OAUTH_TOKEN_URL@ == "https://auth.openai.com/oauth/token"@,
        DEVICE_CODE_URL@ == "https://auth.openai.com/api/accounts/deviceauth/usercode"@,
        DEVICE_TOKEN_URL@ == "https://auth.openai.com/api/accounts/deviceauth/token"@,
        DEVICE_REDIRECT_URI@ == "https://auth.openai.com/deviceauth/callback"@,
{
}

} // verus!
