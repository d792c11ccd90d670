//! Signing in, and keeping the access token fresh.

use crate::clock::{epoch_millis, is_clock_reading, now_millis};
use crate::codex::{is_success, reports_success};
use crate::encoding::{
    base64_length, base64url, base64url_decoded, decode_base64url, decode_lossy, digest_sha256,
    draw_bytes, encode_base64url, encode_form, form_encoded, is_drawn, is_url_safe, lossy_text,
    page_address, pair_texts, parse_url_query, sha256, url_query, with_query,
};
use crate::error::{FileFault, FileRead, FileWrite, ProxyError};
use crate::json::{fields_model, lemma_fields_model, text_field, Json, JsonField, JsonValue};
use crate::text::{
    decimal, decimal_text, lemma_position_unique, lines, optional_text, parse_unsigned, same_text,
    second_segment, second_word, split_lines, split_second, texts, unsigned_number, words,
};
use std::path::PathBuf;
use vstd::prelude::*;
use vstd::utf8::{decode_utf8, encode_utf8, valid_utf8};

verus! {

/// The client that the proxy signs in as.
pub const CHATGPT_OAUTH_CLIENT_ID: &'static str = "app_EMoamEEZ73f0CkXaXp7hrann";

/// The port on which the browser calls back.
pub const BROWSER_LOGIN_PORT: u16 = 1455;

/// How long a device may take to sign in, in milliseconds.
pub const DEVICE_LOGIN_TIMEOUT: u64 = 900_000;

/// How long before it expires an access token is renewed, in milliseconds.
pub const TOKEN_REFRESH_MARGIN: u64 = 30_000;

/// What is saved of a sign-in.
#[derive(Clone, Debug)]
pub struct SavedAuth {
    pub refresh_token: String,
    pub access_token: String,
    pub expires_at_millis: u64,
    pub account_id: Option<String>,
}

/// The answer to a request for tokens.
#[derive(Debug)]
pub struct TokenResponse {
    pub refresh_token: Option<String>,
    pub access_token: String,
    pub id_token: Option<String>,
    /// How long the access token is valid, in seconds.
    pub expires_in: Option<u64>,
}

/// What a token says about the account.
#[derive(Debug)]
pub struct TokenClaims {
    pub chatgpt_account_id: Option<String>,
    pub organizations: Option<Vec<TokenOrganization>>,
    pub openai_auth: Option<OpenAiAuthClaims>,
}

#[derive(Debug)]
pub struct TokenOrganization {
    pub id: String,
}

#[derive(Debug)]
pub struct OpenAiAuthClaims {
    pub chatgpt_account_id: Option<String>,
}

/// The account that a token names: directly, else among the claims of OpenAI, else as its first
/// organization.
pub open spec fn claimed_account(claims: TokenClaims) -> Option<Seq<char>> {
    if claims.chatgpt_account_id is Some {
        optional_text(claims.chatgpt_account_id)
    } else if claims.openai_auth is Some && claims.openai_auth->0.chatgpt_account_id is Some {
        optional_text(claims.openai_auth->0.chatgpt_account_id)
    } else if claims.organizations is Some && claims.organizations->0@.len() > 0 {
        Some(claims.organizations->0@[0].id@)
    } else {
        None
    }
}

/// Finds the account that a token names.
pub fn account_id_from_claims(token_claims: TokenClaims) -> (result: Option<String>)
    ensures
        optional_text(result) == claimed_account(token_claims),
{
    if let Some(account_id) = token_claims.chatgpt_account_id {
        return Some(account_id);
    }
    if let Some(openai_auth) = token_claims.openai_auth {
        if let Some(account_id) = openai_auth.chatgpt_account_id {
            return Some(account_id);
        }
    }
    match token_claims.organizations {
        Some(organizations) => if organizations.len() > 0 {
            Some(organizations[0].id.clone())
        } else {
            None
        },
        None => None,
    }
}

/// The account that the claims of a token name, where the token has claims.
pub open spec fn optional_claimed_account(claims: Option<TokenClaims>) -> Option<Seq<char>> {
    match claims {
        Some(found) => claimed_account(found),
        None => None,
    }
}

/// The account that the tokens of an answer name: the one that the identity token names, else
/// the one that the access token names.
pub open spec fn token_account(
    id_claims: Option<TokenClaims>,
    access_claims: Option<TokenClaims>,
) -> Option<Seq<char>> {
    if optional_claimed_account(id_claims) is Some {
        optional_claimed_account(id_claims)
    } else {
        optional_claimed_account(access_claims)
    }
}

/// Finds the account that the tokens of an answer name, given their claims.
pub fn extract_account_id(
    id_claims: Option<TokenClaims>,
    access_claims: Option<TokenClaims>,
) -> (result: Option<String>)
    ensures
        optional_text(result) == token_account(id_claims, access_claims),
{
    if let Some(claims) = id_claims {
        if let Some(account_id) = account_id_from_claims(claims) {
            return Some(account_id);
        }
    }
    match access_claims {
        Some(claims) => account_id_from_claims(claims),
        None => None,
    }
}

/// The bytes of the claims of a token: its second part, decoded.
pub open spec fn token_payload(token: Seq<char>) -> Option<Seq<u8>> {
    match second_segment(token, '.') {
        Some(segment) => base64url_decoded(segment),
        None => None,
    }
}

/// The bytes of an optional list.
pub open spec fn optional_bytes(bytes: Option<Vec<u8>>) -> Option<Seq<u8>> {
    match bytes {
        Some(list) => Some(list@),
        None => None,
    }
}

/// Finds the bytes of the claims of a token.
pub fn jwt_payload(token: &str) -> (result: Option<Vec<u8>>)
    ensures
        optional_bytes(result) == token_payload(token@),
{
    match split_second(token, '.') {
        Some(segment) => decode_base64url(segment.as_str()),
        None => None,
    }
}

impl TokenResponse {
    /// The bytes of the claims of the identity token and of those of the access token.
    pub fn claim_payloads(&self) -> (result: (Option<Vec<u8>>, Option<Vec<u8>>))
        ensures
            optional_bytes(result.0) == match self.id_token {
                Some(id_token) => token_payload(id_token@),
                None => None,
            },
            optional_bytes(result.1) == token_payload(self.access_token@),
    {
        let id_payload = match &self.id_token {
            Some(id_token) => jwt_payload(id_token.as_str()),
            None => None,
        };
        (id_payload, jwt_payload(self.access_token.as_str()))
    }
}

/// What to do for an access token.
#[derive(Debug)]
pub enum AccessTokenStep {
    /// The saved access token is still good.
    Use(SavedAuth),
    /// Ask for a new one, with this request body, for the account that is known.
    Refresh { request_body: String, account_id: Option<String> },
}

impl SavedAuth {
    /// Tells whether the access token is good for longer than the margin.
    pub open spec fn is_fresh(self, now_millis: u64) -> bool {
        self.expires_at_millis > now_millis + TOKEN_REFRESH_MARGIN
    }
}

/// When an access token expires, in milliseconds. Where the answer does not say how long the
/// token is valid, it is taken to be an hour.
pub open spec fn expiry_millis(now_millis: u64, expires_in: Option<u64>) -> int {
    let seconds = match expires_in {
        Some(seconds) => seconds,
        None => 3600u64,
    };
    now_millis + seconds * 1000
}

/// The names and the values of a request for a new access token.
pub open spec fn refresh_form(refresh_token: Seq<char>) -> Seq<(Seq<char>, Seq<char>)> {
    seq![
        ("grant_type"@, "refresh_token"@),
        ("refresh_token"@, refresh_token),
        ("client_id"@, CHATGPT_OAUTH_CLIENT_ID@),
    ]
}

/// The names and the values of a request for tokens in exchange for an authorization code.
pub open spec fn exchange_form(
    authorization_code: Seq<char>,
    redirect_uri: Seq<char>,
    code_verifier: Seq<char>,
) -> Seq<(Seq<char>, Seq<char>)> {
    seq![
        ("grant_type"@, "authorization_code"@),
        ("code"@, authorization_code),
        ("redirect_uri"@, redirect_uri),
        ("client_id"@, CHATGPT_OAUTH_CLIENT_ID@),
        ("code_verifier"@, code_verifier),
    ]
}

fn pair(name: &str, value: &str) -> (result: (String, String))
    ensures
        result.0@ == name@,
        result.1@ == value@,
{
    (name.to_owned(), value.to_owned())
}

/// Writes the body of a request for a new access token.
pub fn refresh_request_body(refresh_token: &str) -> (result: String)
    ensures
        result@ == form_encoded(refresh_form(refresh_token@)),
{
    let mut pairs: Vec<(String, String)> = Vec::new();
    pairs.push(pair("grant_type", "refresh_token"));
    pairs.push(pair("refresh_token", refresh_token));
    pairs.push(pair("client_id", CHATGPT_OAUTH_CLIENT_ID));
    assert(pair_texts(pairs@) =~= refresh_form(refresh_token@));
    encode_form(&pairs)
}

/// Writes the body of a request for tokens in exchange for an authorization code.
pub fn exchange_request_body(
    authorization_code: &str,
    redirect_uri: &str,
    code_verifier: &str,
) -> (result: String)
    ensures
        result@ == form_encoded(
            exchange_form(authorization_code@, redirect_uri@, code_verifier@),
        ),
{
    let mut pairs: Vec<(String, String)> = Vec::new();
    pairs.push(pair("grant_type", "authorization_code"));
    pairs.push(pair("code", authorization_code));
    pairs.push(pair("redirect_uri", redirect_uri));
    pairs.push(pair("client_id", CHATGPT_OAUTH_CLIENT_ID));
    pairs.push(pair("code_verifier", code_verifier));
    assert(pair_texts(pairs@) =~= exchange_form(
        authorization_code@,
        redirect_uri@,
        code_verifier@,
    ));
    encode_form(&pairs)
}

/// Keeps a sign-in in a file.
pub struct AuthManager {
    pub(crate) auth_file: PathBuf,
}

impl Clone for AuthManager {
    fn clone(&self) -> (result: Self)
        ensures
            result == *self,
    {
        AuthManager { auth_file: self.auth_file.clone() }
    }
}

impl AuthManager {
    /// The file that the sign-in is kept in.
    pub closed spec fn file(self) -> PathBuf {
        self.auth_file
    }

    pub fn new(auth_file: PathBuf) -> (result: Self)
        ensures
            result.file() == auth_file,
    {
        AuthManager { auth_file }
    }

    pub fn auth_file(&self) -> (result: &PathBuf)
        ensures
            *result == self.file(),
    {
        &self.auth_file
    }

    /// The saved sign-in, given what came of reading its file.
    pub fn load_saved_auth(&self, auth_read: FileRead<SavedAuth>) -> (result: Result<
        SavedAuth,
        ProxyError,
    >)
        ensures
            match (auth_read, result) {
                (FileRead::Parsed(saved_auth), Ok(loaded)) => loaded == saved_auth,
                (FileRead::Failed(FileFault::NotFound), Err(error)) => error is MissingAuth,
                (FileRead::Failed(FileFault::Other(reason)), Err(ProxyError::ReadAuth(source))) => {
                    source == reason
                },
                (FileRead::Malformed(reason), Err(ProxyError::ParseAuth(source))) => source
                    == reason,
                _ => false,
            },
    {
        match auth_read {
            FileRead::Parsed(saved_auth) => Ok(saved_auth),
            FileRead::Failed(FileFault::NotFound) => Err(ProxyError::MissingAuth),
            FileRead::Failed(FileFault::Other(source)) => Err(ProxyError::ReadAuth(source)),
            FileRead::Malformed(source) => Err(ProxyError::ParseAuth(source)),
        }
    }

    /// What came of saving a sign-in, given what came of writing its file.
    pub fn save_auth(&self, auth_write: FileWrite) -> (result: Result<(), ProxyError>)
        ensures
            match (auth_write, result) {
                (FileWrite::Written, Ok(_)) => true,
                (FileWrite::Unwritable(reason), Err(ProxyError::ParseToken(source))) => source
                    == reason,
                (FileWrite::Failed(reason), Err(ProxyError::WriteAuth(source))) => source == reason,
                _ => false,
            },
    {
        match auth_write {
            FileWrite::Written => Ok(()),
            FileWrite::Unwritable(source) => Err(ProxyError::ParseToken(source)),
            FileWrite::Failed(source) => Err(ProxyError::WriteAuth(source)),
        }
    }

    /// Whether there was a sign-in to remove, given what came of removing its file.
    pub fn delete_auth(&self, removed: Result<(), FileFault>) -> (result: Result<bool, ProxyError>)
        ensures
            match (removed, result) {
                (Ok(_), Ok(deleted)) => deleted,
                (Err(FileFault::NotFound), Ok(deleted)) => !deleted,
                (Err(FileFault::Other(reason)), Err(ProxyError::WriteAuth(source))) => source
                    == reason,
                _ => false,
            },
    {
        match removed {
            Ok(_) => Ok(true),
            Err(FileFault::NotFound) => Ok(false),
            Err(FileFault::Other(source)) => Err(ProxyError::WriteAuth(source)),
        }
    }

    /// What to do for an access token at a time, given the saved sign-in.
    pub fn access_token_at(&self, saved_auth: SavedAuth, now_millis: u64) -> (result:
        AccessTokenStep)
        ensures
            is_access_step(result, saved_auth, now_millis),
    {
        if saved_auth.expires_at_millis > now_millis && saved_auth.expires_at_millis - now_millis
            > TOKEN_REFRESH_MARGIN {
            return AccessTokenStep::Use(saved_auth);
        }
        AccessTokenStep::Refresh {
            request_body: refresh_request_body(saved_auth.refresh_token.as_str()),
            account_id: saved_auth.account_id,
        }
    }

    /// What to do for an access token now, given the saved sign-in.
    pub fn access_token(&self, saved_auth: SavedAuth) -> (result: AccessTokenStep)
        ensures
            exists|reading: Option<(u64, u32)>| #[trigger]
                is_clock_reading(reading) && is_access_step(
                    result,
                    saved_auth,
                    epoch_millis(reading),
                ),
    {
        self.access_token_at(saved_auth, now_millis())
    }

    /// What to save of an answer with tokens that came at a time, given the claims of its
    /// tokens. `None` where the time at which its access token expires is too late to be written
    /// down.
    pub fn saved_auth_at(
        &self,
        token_response: TokenResponse,
        id_claims: Option<TokenClaims>,
        access_claims: Option<TokenClaims>,
        saved_refresh_token: Option<String>,
        existing_account_id: Option<String>,
        now_millis: u64,
    ) -> (result: Option<Result<SavedAuth, ProxyError>>)
        ensures
            is_saved_auth(
                result,
                token_response,
                token_account(id_claims, access_claims),
                saved_refresh_token,
                existing_account_id,
                now_millis,
            ),
    {
        let refresh_token = match token_response.refresh_token {
            Some(refresh_token) => refresh_token,
            None => match saved_refresh_token {
                Some(refresh_token) => refresh_token,
                None => {
                    return Some(Err(ProxyError::MissingRefreshToken));
                },
            },
        };
        let account_id = match extract_account_id(id_claims, access_claims) {
            Some(account_id) => Some(account_id),
            None => existing_account_id,
        };
        let seconds: u64 = match token_response.expires_in {
            Some(seconds) => seconds,
            None => 3600,
        };
        if seconds > (u64::MAX - now_millis) / 1000 {
            return None;
        }
        Some(
            Ok(
                SavedAuth {
                    refresh_token,
                    access_token: token_response.access_token,
                    expires_at_millis: now_millis + seconds * 1000,
                    account_id,
                },
            ),
        )
    }

    /// What to save of an answer with tokens that came now, given the claims of its tokens.
    /// `None` where the time at which its access token expires is too late to be written down.
    pub fn saved_auth_from_tokens(
        &self,
        token_response: TokenResponse,
        id_claims: Option<TokenClaims>,
        access_claims: Option<TokenClaims>,
        saved_refresh_token: Option<String>,
        existing_account_id: Option<String>,
    ) -> (result: Option<Result<SavedAuth, ProxyError>>)
        ensures
            exists|reading: Option<(u64, u32)>| #[trigger]
                is_clock_reading(reading) && is_saved_auth(
                    result,
                    token_response,
                    token_account(id_claims, access_claims),
                    saved_refresh_token,
                    existing_account_id,
                    epoch_millis(reading),
                ),
    {
        self.saved_auth_at(
            token_response,
            id_claims,
            access_claims,
            saved_refresh_token,
            existing_account_id,
            now_millis(),
        )
    }
}

/// Tells whether a step is what is to be done for an access token at a time.
pub open spec fn is_access_step(
    step: AccessTokenStep,
    saved_auth: SavedAuth,
    now_millis: u64,
) -> bool {
    match step {
        AccessTokenStep::Use(used) => saved_auth.is_fresh(now_millis) && used == saved_auth,
        AccessTokenStep::Refresh { request_body, account_id } => {
            &&& !saved_auth.is_fresh(now_millis)
            &&& request_body@ == form_encoded(refresh_form(saved_auth.refresh_token@))
            &&& account_id == saved_auth.account_id
        },
    }
}

/// Tells whether a result is what is to be saved of an answer with tokens that came at a time.
/// Where the answer lacks a refresh token, the saved one stays, and it is an error that there is
/// none; where its tokens name no account, the known one stays. `None` stands for an answer with
/// which all is well, but that its access token expires too late.
pub open spec fn is_saved_auth(
    result: Option<Result<SavedAuth, ProxyError>>,
    token_response: TokenResponse,
    named_account: Option<Seq<char>>,
    saved_refresh_token: Option<String>,
    existing_account_id: Option<String>,
    now_millis: u64,
) -> bool {
    let refresh_token = if token_response.refresh_token is Some {
        token_response.refresh_token
    } else {
        saved_refresh_token
    };
    let expiry = expiry_millis(now_millis, token_response.expires_in);
    match result {
        Some(Ok(saved_auth)) => {
            &&& Some(saved_auth.refresh_token) == refresh_token
            &&& saved_auth.access_token == token_response.access_token
            &&& saved_auth.expires_at_millis == expiry
            &&& optional_text(saved_auth.account_id) == (if named_account is Some {
                named_account
            } else {
                optional_text(existing_account_id)
            })
        },
        Some(Err(error)) => error is MissingRefreshToken && refresh_token is None,
        None => refresh_token is Some && expiry > u64::MAX,
    }
}

/// An access token is good for use as soon as it comes, where the answer gives it more time than
/// the margin; else it is renewed before its first use.
pub proof fn law_new_token_is_fresh(saved_auth: SavedAuth, now_millis: u64, expires_in: Option<u64>)
    requires
        saved_auth.expires_at_millis == expiry_millis(now_millis, expires_in),
    ensures
        saved_auth.is_fresh(now_millis) <==> match expires_in {
            Some(seconds) => seconds > 30,
            None => true,
        },
{
}

/// A token that has gone stale stays stale.
pub proof fn law_stale_stays_stale(saved_auth: SavedAuth, now_millis: u64, later_millis: u64)
    requires
        now_millis <= later_millis,
        !saved_auth.is_fresh(now_millis),
    ensures
        !saved_auth.is_fresh(later_millis),
{
}

/// An answer that holds no refresh token and names no account leaves the sign-in what it was,
/// but for the access token.
pub proof fn law_refresh_keeps_the_sign_in(
    result: Option<Result<SavedAuth, ProxyError>>,
    token_response: TokenResponse,
    saved_auth: SavedAuth,
    now_millis: u64,
)
    requires
        token_response.refresh_token is None,
        expiry_millis(now_millis, token_response.expires_in) <= u64::MAX,
        is_saved_auth(
            result,
            token_response,
            None,
            Some(saved_auth.refresh_token),
            saved_auth.account_id,
            now_millis,
        ),
    ensures
        result is Some,
        result->0 is Ok,
        result->0->Ok_0.refresh_token == saved_auth.refresh_token,
        optional_text(result->0->Ok_0.account_id) == optional_text(saved_auth.account_id),
        result->0->Ok_0.access_token == token_response.access_token,
{
}

/// The claims of a token are its second part, whatever stands around it.
pub proof fn law_claims_are_the_second_part(
    header: Seq<char>,
    claims: Seq<char>,
    signature: Seq<char>,
)
    requires
        !header.contains('.'),
        !claims.contains('.'),
    ensures
        token_payload(header + seq!['.'] + claims + seq!['.'] + signature) == base64url_decoded(
            claims,
        ),
{
    let token = header + seq!['.'] + claims + seq!['.'] + signature;
    let at = header.len() as int;
    assert forall|i: int| 0 <= i < at implies token[i] != '.' by {
        assert(token[i] == header[i]);
        assert(header.contains(header[i]));
    }
    lemma_position_unique(token, '.', at);
    let rest = token.skip(at + 1);
    assert(rest =~= claims + seq!['.'] + signature);
    assert forall|i: int| 0 <= i < claims.len() implies rest[i] != '.' by {
        assert(rest[i] == claims[i]);
        assert(claims.contains(claims[i]));
    }
    lemma_position_unique(rest, '.', claims.len() as int);
    assert(rest.take(claims.len() as int) =~= claims);
}

/// A secret for one sign-in, and what is told of it in advance.
#[derive(Debug)]
pub struct PkceCodes {
    pub code_verifier: String,
    pub code_challenge: String,
}

/// What is told in advance of a secret: the encoded digest of its bytes.
pub open spec fn challenge_of(code_verifier: Seq<char>) -> Seq<char> {
    base64url(sha256(encode_utf8(code_verifier)))
}

/// Makes the codes for a secret.
pub fn pkce_codes_for(code_verifier: String) -> (result: PkceCodes)
    ensures
        result.code_verifier == code_verifier,
        result.code_challenge@ == challenge_of(code_verifier@),
        result.code_challenge@.len() == 43,
{
    let digest = digest_sha256(code_verifier.as_str().as_bytes());
    let code_challenge = encode_base64url(&digest);
    PkceCodes { code_verifier, code_challenge }
}

/// Makes the codes for a new secret.
pub fn generate_pkce_codes() -> (result: PkceCodes)
    ensures
        result.code_challenge@ == challenge_of(result.code_verifier@),
        exists|bytes: Seq<u8>|
            result.code_verifier@ == #[trigger] base64url(bytes) && is_drawn(32, bytes),
        result.code_verifier@.len() == 43,
        result.code_challenge@.len() == 43,
        is_url_safe_text(result.code_verifier@),
{
    pkce_codes_for(generate_random_url_safe_string(32))
}

/// Tells whether a text needs no quoting in a URL.
pub open spec fn is_url_safe_text(text: Seq<char>) -> bool {
    forall|i: int| 0 <= i < text.len() ==> is_url_safe(#[trigger] text[i])
}

/// Makes a text of random bytes.
pub fn generate_random_url_safe_string(byte_count: usize) -> (result: String)
    requires
        byte_count <= usize::MAX / 4,
    ensures
        result@.len() == base64_length(byte_count as nat),
        is_url_safe_text(result@),
        exists|bytes: Seq<u8>|
            bytes.len() == byte_count && result@ == #[trigger] base64url(bytes)
                && base64url_decoded(result@) == Some(bytes) && is_drawn(byte_count, bytes),
{
    let bytes = draw_bytes(byte_count);
    encode_base64url(&bytes)
}

/// The address of the page on which the user signs in.
pub const OAUTH_AUTHORIZE_URL: &'static str = "https://auth.openai.com/oauth/authorize";

/// The names and the values of the query of the page on which the user signs in.
pub open spec fn authorize_query(
    redirect_uri: Seq<char>,
    code_challenge: Seq<char>,
    state: Seq<char>,
) -> Seq<(Seq<char>, Seq<char>)> {
    seq![
        ("response_type"@, "code"@),
        ("client_id"@, CHATGPT_OAUTH_CLIENT_ID@),
        ("redirect_uri"@, redirect_uri),
        ("scope"@, "openid profile email offline_access"@),
        ("code_challenge"@, code_challenge),
        ("code_challenge_method"@, "S256"@),
        ("id_token_add_organizations"@, "true"@),
        ("codex_cli_simplified_flow"@, "true"@),
        ("state"@, state),
        ("originator"@, "opencode"@),
    ]
}

/// Writes the address of the page on which the user signs in.
pub fn build_authorize_url(redirect_uri: &str, pkce_codes: &PkceCodes, state: &str) -> (result:
    String)
    ensures
        result@ == OAUTH_AUTHORIZE_URL@ + "?"@ + form_encoded(
            authorize_query(redirect_uri@, pkce_codes.code_challenge@, state@),
        ),
{
    let mut pairs: Vec<(String, String)> = Vec::new();
    pairs.push(pair("response_type", "code"));
    pairs.push(pair("client_id", CHATGPT_OAUTH_CLIENT_ID));
    pairs.push(pair("redirect_uri", redirect_uri));
    pairs.push(pair("scope", "openid profile email offline_access"));
    pairs.push(pair("code_challenge", pkce_codes.code_challenge.as_str()));
    pairs.push(pair("code_challenge_method", "S256"));
    pairs.push(pair("id_token_add_organizations", "true"));
    pairs.push(pair("codex_cli_simplified_flow", "true"));
    pairs.push(pair("state", state));
    pairs.push(pair("originator", "opencode"));
    proof {
        assert(pair_texts(pairs@) =~= authorize_query(
            redirect_uri@,
            pkce_codes.code_challenge@,
            state@,
        ));
        reveal_strlit("https://");
        reveal_strlit("auth.openai.com");
        reveal_strlit("/");
        reveal_strlit("oauth/authorize");
        reveal_strlit("https://auth.openai.com/oauth/authorize");
        assert(page_address("auth.openai.com"@, "oauth/authorize"@)
            =~= "https://auth.openai.com/oauth/authorize"@);
    }
    with_query(OAUTH_AUTHORIZE_URL, &pairs)
}

/// The address of the service that gives out tokens.
pub const OAUTH_TOKEN_URL: &'static str = "https://auth.openai.com/oauth/token";

/// The address of the service that gives out device codes.
pub const DEVICE_CODE_URL: &'static str =
    "https://auth.openai.com/api/accounts/deviceauth/usercode";

/// The address of the service that says whether the user has entered a device code.
pub const DEVICE_TOKEN_URL: &'static str = "https://auth.openai.com/api/accounts/deviceauth/token";

/// Where the browser is sent once the user has signed in.
pub const BROWSER_REDIRECT_URI: &'static str = "http://localhost:1455/auth/callback";

/// What stands for that address where a device signs in.
pub const DEVICE_REDIRECT_URI: &'static str = "https://auth.openai.com/deviceauth/callback";

/// The answer to a request for a device code.
#[derive(Debug)]
pub struct DeviceCodeResponse {
    pub device_auth_id: String,
    pub user_code: String,
    /// How long to wait between two questions, in seconds.
    pub interval: String,
}

/// The answer to the question whether the user has entered a device code.
#[derive(Debug)]
pub struct DeviceTokenPollResponse {
    pub authorization_code: String,
    pub code_verifier: String,
}

/// The body of a request for a device code.
pub fn device_code_request_body() -> (result: JsonValue)
    ensures
        result@ == Json::Object(seq![("client_id"@, Json::Text(CHATGPT_OAUTH_CLIENT_ID@))]),
{
    let mut fields: Vec<JsonField> = Vec::new();
    fields.push(text_field("client_id", CHATGPT_OAUTH_CLIENT_ID));
    proof {
        lemma_fields_model(fields@);
        assert(fields_model(fields@) =~= seq![
            ("client_id"@, Json::Text(CHATGPT_OAUTH_CLIENT_ID@)),
        ]);
    }
    JsonValue::Object(fields)
}

/// What a status says about a failed request for tokens.
pub fn oauth_status_error(status: u16, body: String) -> (result: ProxyError)
    ensures
        result == (ProxyError::OAuthStatus { status, body }),
{
    ProxyError::OAuthStatus { status, body }
}

/// What the status of an answer says of the question whether the user has entered a device
/// code.
#[derive(Debug)]
pub enum PollVerdict {
    /// The user has not entered the code yet.
    Pending,
    /// The answer holds the authorization code.
    Granted,
    /// The question failed.
    Refused,
}

impl DeviceCodeResponse {
    /// How long to wait between two questions, in seconds: what the answer says, or 5 where
    /// that is no number, but at least 1, and 3 more.
    pub open spec fn pause(self) -> nat {
        let seconds = match unsigned_number(self.interval@, u64::MAX as nat) {
            Some(seconds) => seconds,
            None => 5,
        };
        if seconds < 1 {
            4
        } else {
            seconds + 3
        }
    }

    /// How long to wait between two questions, in seconds, where that can be written down.
    pub fn polling_interval(&self) -> (result: Option<u64>)
        ensures
            match result {
                Some(seconds) => seconds == self.pause(),
                None => self.pause() > u64::MAX,
            },
    {
        let seconds: u64 = match parse_unsigned(self.interval.as_str(), u64::MAX) {
            Some(seconds) => seconds,
            None => 5,
        };
        if seconds < 1 {
            Some(4)
        } else {
            seconds.checked_add(3)
        }
    }

    /// What the user is asked to do.
    pub fn instruction(&self) -> (result: String)
        ensures
            result@ == "Open https://auth.openai.com/codex/device and enter code: "@
                + self.user_code@,
    {
        let mut text = "Open https://auth.openai.com/codex/device and enter code: ".to_owned();
        text.append(self.user_code.as_str());
        text
    }

    /// The body of the question whether the user has entered the code.
    pub fn poll_request_body(&self) -> (result: JsonValue)
        ensures
            result@ == Json::Object(
                seq![
                    ("device_auth_id"@, Json::Text(self.device_auth_id@)),
                    ("user_code"@, Json::Text(self.user_code@)),
                ],
            ),
    {
        let mut fields: Vec<JsonField> = Vec::new();
        fields.push(text_field("device_auth_id", self.device_auth_id.as_str()));
        fields.push(text_field("user_code", self.user_code.as_str()));
        proof {
            lemma_fields_model(fields@);
            assert(fields_model(fields@) =~= seq![
                ("device_auth_id"@, Json::Text(self.device_auth_id@)),
                ("user_code"@, Json::Text(self.user_code@)),
            ]);
        }
        JsonValue::Object(fields)
    }
}

/// A device waits at least four seconds between two questions.
pub proof fn law_device_is_patient(response: DeviceCodeResponse)
    ensures
        response.pause() >= 4,
{
}

/// Reads the status of an answer to the question whether the user has entered a device code.
pub fn poll_verdict(status: u16) -> (result: PollVerdict)
    ensures
        result == (if status == 403 || status == 404 {
            PollVerdict::Pending
        } else if reports_success(status) {
            PollVerdict::Granted
        } else {
            PollVerdict::Refused
        }),
{
    if status == 403 || status == 404 {
        PollVerdict::Pending
    } else if is_success(status) {
        PollVerdict::Granted
    } else {
        PollVerdict::Refused
    }
}

/// What happens while a device signs in.
#[derive(Debug)]
pub enum DeviceLoginEvent {
    /// The sign-in began, or a pause ended, so many milliseconds after it began.
    Awake { elapsed_millis: u64 },
    /// The question whether the user has entered the code was answered: with the authorization
    /// code, or with `None` where the user has not entered it yet.
    Polled(Option<DeviceTokenPollResponse>),
}

/// What to do next while a device signs in.
#[derive(Debug)]
pub enum DeviceLoginStep {
    /// Ask whether the user has entered the code.
    Poll,
    /// Wait for so many seconds.
    Pause(u64),
    /// Ask for tokens with this request body; that ends the sign-in.
    Exchange(String),
    /// The sign-in has failed.
    Fail(ProxyError),
}

/// Tells whether an error says that the user took too long to sign a device in.
pub open spec fn is_device_timeout(error: ProxyError) -> bool {
    match error {
        ProxyError::Login(reason) => reason@ == "device login timed out after 15 minutes"@,
        _ => false,
    }
}

/// The sign-in of a device.
#[derive(Debug)]
pub struct DeviceLogin {
    /// How long to wait between two questions, in seconds.
    pub pause_seconds: u64,
}

impl DeviceLogin {
    /// Begins the sign-in of a device. `None` where the time to wait between two questions is
    /// too long to be written down.
    pub fn new(device_code: &DeviceCodeResponse) -> (result: Option<Self>)
        ensures
            match result {
                Some(login) => login.pause_seconds == device_code.pause(),
                None => device_code.pause() > u64::MAX,
            },
    {
        match device_code.polling_interval() {
            Some(pause_seconds) => Some(DeviceLogin { pause_seconds }),
            None => None,
        }
    }

    /// What to do when something happens while the device signs in.
    pub fn login_step(&self, event: DeviceLoginEvent) -> (result: DeviceLoginStep)
        ensures
            match (event, result) {
                (DeviceLoginEvent::Awake { elapsed_millis }, DeviceLoginStep::Poll) => {
                    elapsed_millis < DEVICE_LOGIN_TIMEOUT
                },
                (DeviceLoginEvent::Awake { elapsed_millis }, DeviceLoginStep::Fail(error)) => {
                    elapsed_millis >= DEVICE_LOGIN_TIMEOUT && is_device_timeout(error)
                },
                (DeviceLoginEvent::Polled(None), DeviceLoginStep::Pause(seconds)) => seconds
                    == self.pause_seconds,
                (DeviceLoginEvent::Polled(Some(granted)), DeviceLoginStep::Exchange(body)) => body@
                    == form_encoded(
                    exchange_form(
                        granted.authorization_code@,
                        DEVICE_REDIRECT_URI@,
                        granted.code_verifier@,
                    ),
                ),
                _ => false,
            },
    {
        match event {
            DeviceLoginEvent::Awake { elapsed_millis } => if elapsed_millis
                < DEVICE_LOGIN_TIMEOUT {
                DeviceLoginStep::Poll
            } else {
                DeviceLoginStep::Fail(
                    ProxyError::Login("device login timed out after 15 minutes".to_owned()),
                )
            },
            DeviceLoginEvent::Polled(None) => DeviceLoginStep::Pause(self.pause_seconds),
            DeviceLoginEvent::Polled(Some(granted)) => DeviceLoginStep::Exchange(
                exchange_request_body(
                    granted.authorization_code.as_str(),
                    DEVICE_REDIRECT_URI,
                    granted.code_verifier.as_str(),
                ),
            ),
        }
    }
}

/// The path that a request asks for: the second word of its first line.
pub open spec fn request_path(http_request: Seq<char>) -> Option<Seq<char>> {
    if lines(http_request).len() > 0 && words(lines(http_request)[0]).len() > 1 {
        Some(words(lines(http_request)[0])[1])
    } else {
        None
    }
}

/// Tells whether an error is a failed sign-in for the given reason.
pub open spec fn is_login_error(error: ProxyError, reason: Seq<char>) -> bool {
    match error {
        ProxyError::Login(text) => text@ == reason,
        _ => false,
    }
}

fn login_error(reason: &str) -> (result: ProxyError)
    ensures
        is_login_error(result, reason@),
{
    ProxyError::Login(reason.to_owned())
}

/// Tells whether a result is what the browser calls back with in its request: the names and the
/// values, or what is wrong with the request.
pub open spec fn is_callback(
    result: Result<Vec<(String, String)>, ProxyError>,
    http_request: Seq<char>,
) -> bool {
    match request_path(http_request) {
        None => result is Err && is_login_error(
            result->Err_0,
            "browser callback was not a valid HTTP request"@,
        ),
        Some(path) => match url_query("http://localhost"@ + path) {
            Ok(pairs) => result is Ok && pair_texts(result->Ok_0@) == pairs,
            Err(reason) => result is Err && is_login_error(
                result->Err_0,
                "browser callback URL was invalid: "@ + reason,
            ),
        },
    }
}

/// Finds the names and the values that the browser calls back with in the bytes of its request.
pub fn callback_query(request_bytes: &[u8]) -> (result: Result<
    Vec<(String, String)>,
    ProxyError,
>)
    ensures
        is_callback(result, lossy_text(request_bytes@)),
        valid_utf8(request_bytes@) ==> is_callback(result, decode_utf8(request_bytes@)),
{
    callback_query_from_text(decode_lossy(request_bytes).as_str())
}

/// Finds the names and the values that the browser calls back with in the text of its request.
pub fn callback_query_from_text(http_request: &str) -> (result: Result<
    Vec<(String, String)>,
    ProxyError,
>)
    ensures
        is_callback(result, http_request@),
{
    let request_lines = split_lines(http_request);
    if request_lines.len() == 0 {
        return Err(login_error("browser callback was not a valid HTTP request"));
    }
    assert(texts(request_lines@)[0] == request_lines@[0]@);
    let path = match second_word(request_lines[0].as_str()) {
        Some(path) => path,
        None => {
            return Err(login_error("browser callback was not a valid HTTP request"));
        },
    };
    let mut callback_url = "http://localhost".to_owned();
    callback_url.append(path.as_str());
    match parse_url_query(callback_url.as_str()) {
        Ok(pairs) => Ok(pairs),
        Err(reason) => {
            let mut text = "browser callback URL was invalid: ".to_owned();
            text.append(reason.as_str());
            Err(ProxyError::Login(text))
        },
    }
}

/// The value of a name: the last one, where the name stands more than once.
pub open spec fn last_value(pairs: Seq<(Seq<char>, Seq<char>)>, name: Seq<char>) -> Option<Seq<char>>
    decreases pairs.len(),
{
    if pairs.len() == 0 {
        None
    } else if pairs.last().0 == name {
        Some(pairs.last().1)
    } else {
        last_value(pairs.drop_last(), name)
    }
}

fn find_last_value(pairs: &Vec<(String, String)>, name: &str) -> (result: Option<String>)
    ensures
        optional_text(result) == last_value(pair_texts(pairs@), name@),
{
    let ghost all = pair_texts(pairs@);
    let mut i: usize = pairs.len();
    assert(all.take(all.len() as int) =~= all);
    while i > 0
        invariant
            i <= pairs@.len(),
            all == pair_texts(pairs@),
            last_value(all, name@) == last_value(all.take(i as int), name@),
        decreases i,
    {
        assert(all.take(i as int).drop_last() =~= all.take(i - 1));
        assert(all.take(i as int).last() == (pairs@[i - 1].0@, pairs@[i - 1].1@));
        i -= 1;
        if same_text(pairs[i].0.as_str(), name) {
            return Some(pairs[i].1.clone());
        }
    }
    None
}

/// Finds the authorization code that the browser calls back with, where the state is the one
/// that the sign-in began with.
pub fn callback_code(query_pairs: &Vec<(String, String)>, expected_state: &str) -> (result: Result<
    String,
    ProxyError,
>)
    ensures
        match (
            last_value(pair_texts(query_pairs@), "state"@) == Some(expected_state@),
            last_value(pair_texts(query_pairs@), "code"@),
        ) {
            (true, Some(code)) => result is Ok && result->Ok_0@ == code,
            (true, None) => result is Err && is_login_error(
                result->Err_0,
                "browser callback did not include a code"@,
            ),
            (false, _) => result is Err && is_login_error(
                result->Err_0,
                "browser callback state did not match"@,
            ),
        },
{
    let matches = match find_last_value(query_pairs, "state") {
        Some(state) => same_text(state.as_str(), expected_state),
        None => false,
    };
    if !matches {
        return Err(login_error("browser callback state did not match"));
    }
    match find_last_value(query_pairs, "code") {
        Some(code) => Ok(code),
        None => Err(login_error("browser callback did not include a code")),
    }
}

/// The page that the browser shows once the user has signed in.
pub const CALLBACK_PAGE: &'static str =
    "<!doctype html><title>Codex Proxy Login</title><h1>Login complete</h1><p>You can close this window.</p>";

/// The answer to the browser: the page, behind a head that says how many bytes it has.
pub fn callback_reply() -> (result: String)
    ensures
        result@
            == "HTTP/1.1 200 OK\r\ncontent-type: text/html; charset=utf-8\r\ncontent-length: "@
            + decimal(encode_utf8(CALLBACK_PAGE@).len()) + "\r\nconnection: close\r\n\r\n"@
            + CALLBACK_PAGE@,
{
    let mut reply =
        "HTTP/1.1 200 OK\r\ncontent-type: text/html; charset=utf-8\r\ncontent-length: ".to_owned();
    reply.append(decimal_text(CALLBACK_PAGE.as_bytes().len() as u64).as_str());
    reply.append("\r\nconnection: close\r\n\r\n");
    reply.append(CALLBACK_PAGE);
    reply
}

} // verus!
