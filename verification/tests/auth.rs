use codex_proxy::auth::{
    account_id_from_claims, build_authorize_url, callback_code, callback_query, callback_query_from_text,
    callback_reply,
    device_code_request_body, exchange_request_body, extract_account_id, generate_pkce_codes,
    generate_random_url_safe_string, jwt_payload, oauth_status_error, pkce_codes_for, poll_verdict,
    refresh_request_body, AccessTokenStep, AuthManager, DeviceCodeResponse, DeviceLogin, DeviceLoginEvent,
    DeviceLoginStep, DeviceTokenPollResponse, OpenAiAuthClaims, PkceCodes, PollVerdict, SavedAuth,
    TokenClaims, TokenOrganization, TokenResponse, BROWSER_LOGIN_PORT, BROWSER_REDIRECT_URI,
    CALLBACK_PAGE,
};
use codex_proxy::error::{FileFault, FileRead, FileWrite, ProxyError};
use codex_proxy::json::JsonValue;
use std::path::PathBuf;

fn now_millis() -> u64 {
    std::time::SystemTime::now()
        .duration_since(std::time::UNIX_EPOCH)
        .unwrap_or_default()
        .as_millis() as u64
}

fn manager() -> AuthManager {
    AuthManager::new(PathBuf::from("/tmp/auth.json"))
}

fn saved(expires_at_millis: u64) -> SavedAuth {
    SavedAuth {
        refresh_token: "old refresh".to_string(),
        access_token: "old access".to_string(),
        expires_at_millis,
        account_id: Some("account".to_string()),
    }
}

fn tokens(refresh_token: Option<&str>, expires_in: Option<u64>) -> TokenResponse {
    TokenResponse {
        refresh_token: refresh_token.map(str::to_string),
        access_token: "access".to_string(),
        id_token: None,
        expires_in,
    }
}

fn claims(direct: Option<&str>, nested: Option<&str>, organization: Option<&str>) -> TokenClaims {
    TokenClaims {
        chatgpt_account_id: direct.map(str::to_string),
        openai_auth: Some(OpenAiAuthClaims {
            chatgpt_account_id: nested.map(str::to_string),
        }),
        organizations: Some(
            organization
                .iter()
                .map(|id| TokenOrganization { id: id.to_string() })
                .collect(),
        ),
    }
}

#[test]
fn account_id_uses_direct_claim_first() {
    let account_id = account_id_from_claims(TokenClaims {
        chatgpt_account_id: Some("account-direct".to_string()),
        openai_auth: Some(OpenAiAuthClaims {
            chatgpt_account_id: Some("account-nested".to_string()),
        }),
        organizations: Some(vec![TokenOrganization {
            id: "org-first".to_string(),
        }]),
    });

    assert_eq!(account_id.as_deref(), Some("account-direct"));
}

#[test]
fn saved_auth_defaults_expiration() {
    let auth_manager = AuthManager::new(PathBuf::from("/tmp/auth.json"));
    let saved_auth = auth_manager
        .saved_auth_from_tokens(
            TokenResponse {
                refresh_token: Some("refresh".to_string()),
                access_token: "access".to_string(),
                id_token: None,
                expires_in: None,
            },
            None,
            None,
            None,
            None,
        )
        .expect("the expiration should fit")
        .expect("token response should create saved auth");

    assert_eq!(saved_auth.refresh_token, "refresh");
    assert_eq!(saved_auth.access_token, "access");
    assert!(saved_auth.expires_at_millis > now_millis());
}

#[test]
fn account_id_falls_back_to_other_claims() {
    let found = |token_claims| account_id_from_claims(token_claims);
    assert_eq!(found(claims(None, Some("n"), Some("o"))).as_deref(), Some("n"));
    assert_eq!(found(claims(None, None, Some("o"))).as_deref(), Some("o"));
    assert_eq!(found(claims(None, None, None)), None);
    assert_eq!(
        extract_account_id(Some(claims(None, None, None)), Some(claims(Some("a"), None, None)))
            .as_deref(),
        Some("a")
    );
    assert_eq!(
        extract_account_id(Some(claims(Some("i"), None, None)), Some(claims(Some("a"), None, None)))
            .as_deref(),
        Some("i")
    );
    assert_eq!(extract_account_id(None, None), None);
}

#[test]
fn claims_are_the_second_part_of_a_token() {
    // The second part is `{"a":1}`.
    assert_eq!(
        jwt_payload("h.eyJhIjoxfQ.s").as_deref(),
        Some("{\"a\":1}".as_bytes())
    );
    assert_eq!(jwt_payload("h.eyJhIjoxfQ").as_deref(), Some("{\"a\":1}".as_bytes()));
    assert_eq!(jwt_payload("h..s").as_deref(), Some("".as_bytes()));
    assert_eq!(jwt_payload("h.eyJhIjoxfQ==.s"), None);
    assert_eq!(jwt_payload("h.a+b.s"), None);
    assert_eq!(jwt_payload("no parts"), None);
    let mut response = tokens(None, None);
    assert_eq!(response.claim_payloads(), (None, None));
    response.id_token = Some("h.eyJhIjoxfQ.s".to_string());
    response.access_token = "h.e30.s".to_string();
    assert_eq!(
        response.claim_payloads(),
        (Some(b"{\"a\":1}".to_vec()), Some(b"{}".to_vec()))
    );
}

#[test]
fn random_strings_are_url_safe_and_decode() {
    let text = generate_random_url_safe_string(32);
    assert_eq!(text.len(), 43);
    assert!(text.chars().all(|c| c.is_ascii_alphanumeric() || c == '-' || c == '_'));
    let decoded = jwt_payload(&format!("x.{text}.y")).expect("the text decodes");
    assert_eq!(decoded.len(), 32);
    assert_ne!(text, generate_random_url_safe_string(32));
    assert_eq!(generate_random_url_safe_string(0), "");
}

#[test]
fn challenges_are_encoded_digests() {
    let codes = pkce_codes_for("dBjftJeZ4CVP-mB92K27uhbUJU1p1r_wW1gFWFOEjXk".to_string());
    assert_eq!(codes.code_challenge, "E9Melhoa2OwvFrEMTJguCHaoeK1t8URWbuGJSstw-cM");
    let fresh = generate_pkce_codes();
    assert_eq!(
        pkce_codes_for(fresh.code_verifier.clone()).code_challenge,
        fresh.code_challenge
    );
}

#[test]
fn authorize_url_holds_the_challenge_and_the_state() {
    let codes = PkceCodes {
        code_verifier: "secret".to_string(),
        code_challenge: "told".to_string(),
    };
    assert_eq!(
        build_authorize_url(BROWSER_REDIRECT_URI, &codes, "st ate"),
        "https://auth.openai.com/oauth/authorize?response_type=code\
         &client_id=app_EMoamEEZ73f0CkXaXp7hrann\
         &redirect_uri=http%3A%2F%2Flocalhost%3A1455%2Fauth%2Fcallback\
         &scope=openid+profile+email+offline_access\
         &code_challenge=told&code_challenge_method=S256\
         &id_token_add_organizations=true&codex_cli_simplified_flow=true\
         &state=st+ate&originator=opencode"
    );
    assert!(BROWSER_REDIRECT_URI.contains(&format!(":{BROWSER_LOGIN_PORT}/")));
}

#[test]
fn token_requests_are_forms() {
    assert_eq!(
        refresh_request_body("a&b=\u{e9}"),
        "grant_type=refresh_token&refresh_token=a%26b%3D%C3%A9&client_id=app_EMoamEEZ73f0CkXaXp7hrann"
    );
    assert_eq!(
        exchange_request_body("c*-._~", "http://localhost:1455/auth/callback", "v"),
        "grant_type=authorization_code&code=c*-._%7E\
         &redirect_uri=http%3A%2F%2Flocalhost%3A1455%2Fauth%2Fcallback\
         &client_id=app_EMoamEEZ73f0CkXaXp7hrann&code_verifier=v"
    );
}

#[test]
fn saved_auth_is_read_from_its_file() {
    let auth_manager = manager();
    assert_eq!(auth_manager.auth_file(), &PathBuf::from("/tmp/auth.json"));
    assert!(matches!(
        auth_manager.load_saved_auth(FileRead::Parsed(saved(5))),
        Ok(SavedAuth { expires_at_millis: 5, .. })
    ));
    assert!(matches!(
        auth_manager.load_saved_auth(FileRead::Failed(FileFault::NotFound)),
        Err(ProxyError::MissingAuth)
    ));
    match auth_manager.load_saved_auth(FileRead::Failed(FileFault::Other("denied".to_string()))) {
        Err(ProxyError::ReadAuth(source)) => assert_eq!(source, "denied"),
        _ => panic!("reading should fail"),
    }
    match auth_manager.load_saved_auth(FileRead::Malformed("line 1".to_string())) {
        Err(ProxyError::ParseAuth(source)) => assert_eq!(source, "line 1"),
        _ => panic!("parsing should fail"),
    }
}

#[test]
fn saved_auth_is_written_and_removed() {
    let auth_manager = manager();
    assert!(auth_manager.save_auth(FileWrite::Written).is_ok());
    assert!(matches!(
        auth_manager.save_auth(FileWrite::Failed("full".to_string())),
        Err(ProxyError::WriteAuth(source)) if source == "full"
    ));
    assert!(matches!(
        auth_manager.save_auth(FileWrite::Unwritable("odd".to_string())),
        Err(ProxyError::ParseToken(source)) if source == "odd"
    ));
    assert!(matches!(auth_manager.delete_auth(Ok(())), Ok(true)));
    assert!(matches!(
        auth_manager.delete_auth(Err(FileFault::NotFound)),
        Ok(false)
    ));
    assert!(matches!(
        auth_manager.delete_auth(Err(FileFault::Other("denied".to_string()))),
        Err(ProxyError::WriteAuth(source)) if source == "denied"
    ));
}

#[test]
fn a_token_is_used_until_the_margin() {
    let auth_manager = manager();
    assert!(matches!(
        auth_manager.access_token_at(saved(130_001), 100_000),
        AccessTokenStep::Use(_)
    ));
    match auth_manager.access_token_at(saved(130_000), 100_000) {
        AccessTokenStep::Refresh {
            request_body,
            account_id,
        } => {
            assert_eq!(request_body, refresh_request_body("old refresh"));
            assert_eq!(account_id.as_deref(), Some("account"));
        }
        _ => panic!("the token should be renewed"),
    }
    assert!(matches!(
        auth_manager.access_token_at(saved(u64::MAX), u64::MAX),
        AccessTokenStep::Refresh { .. }
    ));
    assert!(matches!(
        auth_manager.access_token(saved(u64::MAX)),
        AccessTokenStep::Use(_)
    ));
    assert!(matches!(
        auth_manager.access_token(saved(0)),
        AccessTokenStep::Refresh { .. }
    ));
}

#[test]
fn a_refresh_keeps_what_the_answer_lacks() {
    let auth_manager = manager();
    let refreshed = auth_manager
        .saved_auth_at(
            tokens(None, Some(60)),
            None,
            None,
            Some("old refresh".to_string()),
            Some("account".to_string()),
            1_000,
        )
        .expect("the expiration fits")
        .expect("there is a refresh token");
    assert_eq!(refreshed.refresh_token, "old refresh");
    assert_eq!(refreshed.access_token, "access");
    assert_eq!(refreshed.expires_at_millis, 61_000);
    assert_eq!(refreshed.account_id.as_deref(), Some("account"));

    let replaced = auth_manager
        .saved_auth_at(
            tokens(Some("new refresh"), None),
            Some(claims(Some("other"), None, None)),
            None,
            Some("old refresh".to_string()),
            Some("account".to_string()),
            1_000,
        )
        .expect("the expiration fits")
        .expect("there is a refresh token");
    assert_eq!(replaced.refresh_token, "new refresh");
    assert_eq!(replaced.expires_at_millis, 3_601_000);
    assert_eq!(replaced.account_id.as_deref(), Some("other"));

    assert!(matches!(
        auth_manager.saved_auth_at(tokens(None, None), None, None, None, None, 0),
        Some(Err(ProxyError::MissingRefreshToken))
    ));
}

#[test]
fn a_new_token_is_fresh_if_it_outlives_the_margin() {
    let auth_manager = manager();
    for (seconds, fresh) in [(30u64, false), (31, true)] {
        let saved_auth = auth_manager
            .saved_auth_at(tokens(Some("r"), Some(seconds)), None, None, None, None, 500)
            .expect("the expiration fits")
            .expect("there is a refresh token");
        let step = auth_manager.access_token_at(saved_auth, 500);
        assert_eq!(matches!(step, AccessTokenStep::Use(_)), fresh);
    }
}

#[test]
fn an_expiration_beyond_the_range_is_not_saved() {
    assert!(manager()
        .saved_auth_from_tokens(tokens(Some("r"), Some(u64::MAX)), None, None, None, None)
        .is_none());
    let at = |token_response, now_millis| {
        manager().saved_auth_at(token_response, None, None, None, None, now_millis)
    };
    match at(tokens(Some("r"), Some(1)), u64::MAX - 1_000) {
        Some(Ok(saved_auth)) => assert_eq!(saved_auth.expires_at_millis, u64::MAX),
        _ => panic!("the expiration fits"),
    }
    assert!(at(tokens(Some("r"), Some(1)), u64::MAX - 999).is_none());
    assert!(matches!(
        at(tokens(None, Some(u64::MAX)), 0),
        Some(Err(ProxyError::MissingRefreshToken))
    ));
}

#[test]
fn a_manager_is_cloned_with_its_file() {
    assert_eq!(manager().clone().auth_file(), manager().auth_file());
}

fn device(interval: &str) -> DeviceCodeResponse {
    DeviceCodeResponse {
        device_auth_id: "device".to_string(),
        user_code: "ABCD-EFGH".to_string(),
        interval: interval.to_string(),
    }
}

#[test]
fn a_device_pauses_longer_than_it_is_told() {
    for (interval, seconds) in [("5", 8u64), ("0", 4), ("1", 4), ("+2", 5), ("soon", 8), ("", 8), ("-1", 8)] {
        assert_eq!(device(interval).polling_interval(), Some(seconds));
    }
    assert_eq!(device("18446744073709551616").polling_interval(), Some(8));
    assert_eq!(device("18446744073709551612").polling_interval(), Some(u64::MAX));
    assert_eq!(device("18446744073709551613").polling_interval(), None);
    assert!(DeviceLogin::new(&device("18446744073709551613")).is_none());
}

#[test]
fn a_device_is_signed_in_step_by_step() {
    let response = device("5");
    let login = DeviceLogin::new(&response).expect("the pause fits");
    assert_eq!(
        response.instruction(),
        "Open https://auth.openai.com/codex/device and enter code: ABCD-EFGH"
    );
    assert!(matches!(
        login.login_step(DeviceLoginEvent::Awake { elapsed_millis: 899_999 }),
        DeviceLoginStep::Poll
    ));
    match login.login_step(DeviceLoginEvent::Awake { elapsed_millis: 900_000 }) {
        DeviceLoginStep::Fail(error) => assert_eq!(
            error.message(),
            "login failed: device login timed out after 15 minutes"
        ),
        _ => panic!("the sign-in should time out"),
    }
    assert!(matches!(
        login.login_step(DeviceLoginEvent::Polled(None)),
        DeviceLoginStep::Pause(8)
    ));
    match login.login_step(DeviceLoginEvent::Polled(Some(DeviceTokenPollResponse {
        authorization_code: "code".to_string(),
        code_verifier: "verifier".to_string(),
    }))) {
        DeviceLoginStep::Exchange(body) => assert_eq!(
            body,
            exchange_request_body("code", "https://auth.openai.com/deviceauth/callback", "verifier")
        ),
        _ => panic!("the code should be exchanged"),
    }
}

#[test]
fn device_requests_name_the_client_and_the_code() {
    assert_eq!(
        device_code_request_body().get("client_id").and_then(JsonValue::as_str),
        Some("app_EMoamEEZ73f0CkXaXp7hrann")
    );
    let body = device("5").poll_request_body();
    assert_eq!(body.get("device_auth_id").and_then(JsonValue::as_str), Some("device"));
    assert_eq!(body.get("user_code").and_then(JsonValue::as_str), Some("ABCD-EFGH"));
}

#[test]
fn polling_reads_the_status() {
    for (status, pending, granted) in [
        (403u16, true, false),
        (404, true, false),
        (200, false, true),
        (299, false, true),
        (199, false, false),
        (300, false, false),
        (500, false, false),
    ] {
        let verdict = poll_verdict(status);
        assert_eq!(matches!(verdict, PollVerdict::Pending), pending);
        assert_eq!(matches!(verdict, PollVerdict::Granted), granted);
        assert_eq!(matches!(verdict, PollVerdict::Refused), !pending && !granted);
    }
    assert!(matches!(
        oauth_status_error(418, "tea".to_string()),
        ProxyError::OAuthStatus { status: 418, body } if body == "tea"
    ));
}

fn login_reason<T>(result: Result<T, ProxyError>) -> String {
    match result {
        Err(ProxyError::Login(reason)) => reason,
        _ => panic!("the sign-in should fail"),
    }
}

#[test]
fn the_callback_is_read_from_the_request_line() {
    let request =
        "GET /auth/callback?code=a%20b&state=x+y HTTP/1.1\r\nHost: localhost:1455\r\n\r\n";
    let pairs = callback_query(request.as_bytes())
    .expect("the request is well formed");
    assert_eq!(
        pairs,
        vec![
            ("code".to_string(), "a b".to_string()),
            ("state".to_string(), "x y".to_string())
        ]
    );
    assert_eq!(callback_code(&pairs, "x y").expect("the state matches"), "a b");
    let from_text = callback_query_from_text(request).expect("the request is well formed");
    assert_eq!(from_text, pairs);
    let mut broken = request.as_bytes().to_vec();
    broken.extend_from_slice(b"\xff\xfe");
    assert_eq!(callback_query(&broken).expect("only the first line counts"), pairs);
    assert_eq!(
        callback_query(b"GET /?code=\xff HTTP/1.1").expect("a replaced byte"),
        vec![("code".to_string(), "\u{fffd}".to_string())]
    );
}

#[test]
fn a_broken_callback_is_reported() {
    for request in ["", "\r\nGET /x HTTP/1.1", "GET", "   GET\t"] {
        assert_eq!(
            login_reason(callback_query(request.as_bytes())),
            "browser callback was not a valid HTTP request"
        );
    }
    assert_eq!(
        login_reason(callback_query(b"GET :port HTTP/1.1")),
        "browser callback URL was invalid: invalid port number"
    );
}

#[test]
fn a_callback_needs_the_state_and_a_code() {
    let pair = |name: &str, value: &str| (name.to_string(), value.to_string());
    assert_eq!(
        login_reason(callback_code(&vec![pair("code", "c")], "s")),
        "browser callback state did not match"
    );
    assert_eq!(
        login_reason(callback_code(&vec![pair("code", "c"), pair("state", "t")], "s")),
        "browser callback state did not match"
    );
    assert_eq!(
        login_reason(callback_code(&vec![pair("state", "s")], "s")),
        "browser callback did not include a code"
    );
    let repeated = vec![
        pair("state", "t"),
        pair("code", "first"),
        pair("state", "s"),
        pair("code", "last"),
    ];
    assert_eq!(callback_code(&repeated, "s").expect("the last state counts"), "last");
}

#[test]
fn the_browser_gets_a_page() {
    let reply = callback_reply();
    assert_eq!(
        reply,
        format!(
            "HTTP/1.1 200 OK\r\ncontent-type: text/html; charset=utf-8\r\ncontent-length: {}\r\nconnection: close\r\n\r\n{}",
            CALLBACK_PAGE.len(),
            CALLBACK_PAGE
        )
    );
}
