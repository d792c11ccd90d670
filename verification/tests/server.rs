use axum::http::header::{AUTHORIZATION, CONTENT_LENGTH};
use axum::http::{HeaderMap, HeaderValue};
use codex_proxy::auth::{jwt_payload, SavedAuth};
use codex_proxy::codex::{chunk_text, codex_backend_headers, is_success, upstream_status_error};
use codex_proxy::config::ProxySettings;
use codex_proxy::error::ProxyError;
use codex_proxy::openai::{
    ChatCompletionRequest, ChatMessage, ChatMessageContent, ChatMessageContentPart, ImageUrlPart,
};
use codex_proxy::server::{
    admit_chat_completion, bearer_token, content_length, name_from_bytes, new_conversation_id,
    plan_chat_completion,
    require_proxy_api_key, user_agent,
};

#[test]
fn conversation_id_is_codex_proxy_cache_key() {
    let conversation_id = new_conversation_id();

    assert!(conversation_id.starts_with("codex-proxy-"));
    assert!(conversation_id.len() > "codex-proxy-".len());
}

#[test]
fn conversation_ids_hold_random_bytes() {
    let id = new_conversation_id();
    assert_eq!(id.len(), 36);
    let bytes = jwt_payload(&format!("x.{}.y", &id["codex-proxy-".len()..])).expect("it decodes");
    assert_eq!(bytes.len(), 18);
    assert!(id[12..].chars().all(|c| c.is_ascii_alphanumeric() || c == '-' || c == '_'));
    assert!(HeaderValue::from_str(&id).is_ok());
    assert_ne!(id, new_conversation_id());
}

#[test]
fn chat_requests_require_allowed_proxy_api_key() {
    let mut headers = HeaderMap::new();
    let mut settings = ProxySettings::default();
    settings.api_keys = vec!["cp_allowed".to_string()];

    assert!(matches!(
        require_proxy_api_key(&headers, &settings),
        Err(ProxyError::InvalidProxyApiKey)
    ));

    headers.insert(AUTHORIZATION, HeaderValue::from_static("Bearer cp_allowed"));

    assert!(require_proxy_api_key(&headers, &settings).is_ok());
}

fn with_authorization(value: &[u8]) -> HeaderMap {
    let mut headers = HeaderMap::new();
    headers.insert(
        AUTHORIZATION,
        HeaderValue::from_bytes(value).expect("the value is a header value"),
    );
    headers
}

#[test]
fn only_the_exact_key_is_admitted() {
    let mut settings = ProxySettings::default();
    assert!(require_proxy_api_key(&with_authorization(b"Bearer cp_a"), &settings).is_err());
    settings.api_keys = vec!["cp_a".to_string(), "cp_b".to_string(), String::new()];
    assert!(require_proxy_api_key(&with_authorization(b"Bearer cp_b"), &settings).is_ok());
    for value in [
        &b"Bearer cp_c"[..],
        b"Bearer cp_ab",
        b"bearer cp_a",
        b"Bearer  cp_a",
        b"cp_a",
        b"Bearer ",
        b"Basic cp_a",
    ] {
        assert!(matches!(
            require_proxy_api_key(&with_authorization(value), &settings),
            Err(ProxyError::InvalidProxyApiKey)
        ));
    }
}

#[test]
fn the_key_is_read_from_the_first_visible_value() {
    assert_eq!(bearer_token(&HeaderMap::new()), None);
    assert_eq!(
        bearer_token(&with_authorization(b"Bearer k 1")).as_deref(),
        Some("k 1")
    );
    assert_eq!(bearer_token(&with_authorization(b"Bearer k\xff")), None);
    let mut headers = with_authorization(b"Bearer one");
    headers.append(AUTHORIZATION, HeaderValue::from_static("Bearer two"));
    assert_eq!(bearer_token(&headers).as_deref(), Some("one"));
}

#[test]
fn missing_headers_are_unknown() {
    let mut headers = HeaderMap::new();
    assert_eq!(content_length(&headers), "unknown");
    assert_eq!(user_agent(&headers), "unknown");
    headers.insert("user-agent", HeaderValue::from_static("curl/8"));
    assert_eq!(user_agent(&headers), "curl/8");
    headers.insert(CONTENT_LENGTH, HeaderValue::from_static("12"));
    assert_eq!(content_length(&headers), "12");
    headers.insert(
        CONTENT_LENGTH,
        HeaderValue::from_bytes(b"\xff").expect("the value is a header value"),
    );
    assert_eq!(content_length(&headers), "unknown");
}

fn request(content: ChatMessageContent) -> ChatCompletionRequest {
    ChatCompletionRequest {
        model: "gpt-5.5-fast".to_string(),
        messages: vec![ChatMessage {
            role: "user".to_string(),
            content,
        }],
        stream: true,
        service_tier: None,
        reasoning_effort: None,
    }
}

#[test]
fn a_plan_keeps_what_the_client_asked_for() {
    let plan = plan_chat_completion(
        Ok(request(ChatMessageContent::Text("hello".to_string()))),
        &ProxySettings::default(),
        "codex-proxy-test",
    )
    .expect("the request is valid");
    assert_eq!(plan.client_model, "gpt-5.5-fast");
    assert!(plan.stream);
    assert_eq!(plan.upstream_request.model, "gpt-5.5");
    assert_eq!(
        plan.upstream_request.prompt_cache_key.as_deref(),
        Some("codex-proxy-test")
    );
}

#[test]
fn invalid_requests_are_not_planned() {
    let settings = ProxySettings::default();
    match plan_chat_completion(Err("expected value".to_string()), &settings, "c") {
        Err(error) => {
            assert_eq!(
                error.message(),
                "invalid request: invalid JSON chat completion request: expected value"
            );
            assert_eq!(error.status_code(), 400);
        }
        Ok(_) => panic!("the request should be refused"),
    }
    let empty_image = ChatMessageContentPart::ImageUrl {
        image_url: ImageUrlPart { url: String::new() },
    };
    match plan_chat_completion(
        Ok(request(ChatMessageContent::Parts(vec![empty_image]))),
        &settings,
        "c",
    ) {
        Err(error) => assert_eq!(
            error.message(),
            "invalid request: image_url.url must not be empty"
        ),
        Ok(_) => panic!("the request should be refused"),
    }
}

fn saved(access_token: &str, account_id: Option<&str>) -> SavedAuth {
    SavedAuth {
        refresh_token: "refresh".to_string(),
        access_token: access_token.to_string(),
        expires_at_millis: 0,
        account_id: account_id.map(str::to_string),
    }
}

#[test]
fn the_backend_gets_four_headers() {
    let headers = codex_backend_headers(&saved("token", Some("account")), "conversation")
        .expect("the values are valid");
    assert_eq!(headers.len(), 4);
    assert_eq!(headers["authorization"], "Bearer token");
    assert!(headers["authorization"].is_sensitive());
    assert_eq!(headers["x-client-request-id"], "conversation");
    assert_eq!(headers["session_id"], "conversation");
    assert_eq!(headers["ChatGPT-Account-Id"], "account");
    assert!(!headers["session_id"].is_sensitive());

    let headers = codex_backend_headers(&saved("t\u{e9}\t", None), "c").expect("valid too");
    assert_eq!(headers.len(), 3);
    assert_eq!(
        headers["authorization"].as_bytes(),
        "Bearer t\u{e9}\t".as_bytes()
    );
}

#[test]
fn texts_that_are_no_header_values_are_refused() {
    let reason = |access_token: &str, account_id: Option<&str>, conversation_id: &str| {
        match codex_backend_headers(&saved(access_token, account_id), conversation_id) {
            Err(ProxyError::InvalidRequest(reason)) => reason,
            _ => panic!("the headers should be refused"),
        }
    };
    assert_eq!(
        reason("a\nb", Some("\n"), "\n"),
        "invalid access token header: failed to parse header value"
    );
    assert_eq!(
        reason("a", Some("\n"), "\r"),
        "invalid conversation id header: failed to parse header value"
    );
    assert_eq!(
        reason("a", Some("\u{7f}"), "c"),
        "invalid account id header: failed to parse header value"
    );
}

#[test]
fn statuses_of_the_backend_are_read() {
    assert!(is_success(200) && is_success(299));
    assert!(!is_success(199) && !is_success(300));
    let error = upstream_status_error(429, "slow down".to_string());
    assert_eq!(
        error.message(),
        "upstream request failed with status 429: slow down"
    );
    assert_eq!(error.status_code(), 429);
}

#[test]
fn the_key_is_judged_before_the_body() {
    let settings = ProxySettings {
        api_keys: vec!["cp_a".to_string()],
        ..ProxySettings::default()
    };
    let text = || request(ChatMessageContent::Text("hello".to_string()));
    for request_read in [Ok(text()), Err("expected value".to_string())] {
        assert!(matches!(
            admit_chat_completion(&HeaderMap::new(), request_read, &settings, "c"),
            Err(ProxyError::InvalidProxyApiKey)
        ));
    }
    let headers = with_authorization(b"Bearer cp_a");
    assert!(matches!(
        admit_chat_completion(&headers, Err("expected value".to_string()), &settings, "c"),
        Err(ProxyError::InvalidRequest(_))
    ));
    let plan = admit_chat_completion(&headers, Ok(text()), &settings, "c").expect("it is valid");
    assert_eq!(plan.upstream_request.prompt_cache_key.as_deref(), Some("c"));
}

#[test]
fn names_encode_their_bytes() {
    assert_eq!(name_from_bytes("cp_", &vec![0, 255, 16]), "cp_AP8Q");
    assert_eq!(name_from_bytes("x", &Vec::new()), "x");
    assert_ne!(
        name_from_bytes("x", &vec![1]),
        name_from_bytes("x", &vec![2])
    );
}

#[test]
fn pieces_of_the_stream_are_decoded() {
    assert_eq!(chunk_text("h\u{e9}llo \u{1f600}".as_bytes()), "h\u{e9}llo \u{1f600}");
    assert_eq!(chunk_text(b"a\xffb"), "a\u{fffd}b");
    let bytes = "h\u{e9}".as_bytes();
    assert_eq!(chunk_text(&bytes[..1]) + &chunk_text(&bytes[1..]), "h\u{e9}");
    assert_ne!(chunk_text(&bytes[..2]) + &chunk_text(&bytes[2..]), "h\u{e9}");
}
