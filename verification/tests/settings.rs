use codex_proxy::config::{
    ProxySettings, ReasoningEffort, SettingsManager, Speed, SystemMessages,
};
use codex_proxy::error::{FileFault, FileRead, FileWrite, ProxyError};
use std::path::PathBuf;

#[test]
fn default_settings_are_complete() {
    let settings = ProxySettings::default();
    assert_eq!(settings.reasoning_effort, ReasoningEffort::Medium);
    assert_eq!(settings.speed, Speed::Normal);
    assert_eq!(settings.system_messages, SystemMessages::PassThrough);
    assert_eq!(settings.system_prompt_file, "system.md");
    assert_eq!(settings.host, "0.0.0.0");
    assert_eq!(settings.port, 8080);
    assert!(settings.priority_service);
    assert!(settings.api_keys.is_empty());
    assert_eq!(ReasoningEffort::default(), ReasoningEffort::Medium);
    assert_eq!(Speed::default(), Speed::Normal);
    assert_eq!(SystemMessages::default(), SystemMessages::PassThrough);
}

#[test]
fn efforts_have_words() {
    let words: Vec<&str> = [
        ReasoningEffort::Off,
        ReasoningEffort::Minimal,
        ReasoningEffort::Low,
        ReasoningEffort::Medium,
        ReasoningEffort::High,
        ReasoningEffort::XHigh,
    ]
    .iter()
    .map(|effort| effort.as_upstream_value())
    .collect();
    assert_eq!(words, vec!["none", "minimal", "low", "medium", "high", "xhigh"]);
    for word in &words {
        let read = ReasoningEffort::from_upstream_value(word).expect("the word is known");
        assert_eq!(read.as_upstream_value(), *word);
    }
    for word in ["", "None", "off", "highest", "x high"] {
        assert_eq!(ReasoningEffort::from_upstream_value(word), None);
    }
    for (i, word) in words.iter().enumerate() {
        assert!(!words[..i].contains(word));
    }
    assert_eq!(ReasoningEffort::XHigh.label(), "xhigh");
    assert_eq!(Speed::Normal.label(), "normal");
    assert_eq!(Speed::Fast.label(), "fast");
    assert_eq!(SystemMessages::PassThrough.label(), "pass through");
    assert_eq!(SystemMessages::Ignore.label(), "ignore");
}

#[test]
fn settings_are_read_from_their_file() {
    let manager = SettingsManager::new(PathBuf::from("/tmp/settings.json"));
    assert_eq!(manager.settings_file(), &PathBuf::from("/tmp/settings.json"));
    let settings = ProxySettings {
        port: 9,
        ..ProxySettings::default()
    };
    assert!(matches!(
        manager.load(FileRead::Parsed(settings)),
        Ok(ProxySettings { port: 9, .. })
    ));
    assert!(matches!(
        manager.load(FileRead::Failed(FileFault::NotFound)),
        Ok(ProxySettings { port: 8080, .. })
    ));
    assert!(matches!(
        manager.load(FileRead::Failed(FileFault::Other("denied".to_string()))),
        Err(ProxyError::ReadSettings(source)) if source == "denied"
    ));
    assert!(matches!(
        manager.load(FileRead::Malformed("line 1".to_string())),
        Err(ProxyError::ParseSettings(source)) if source == "line 1"
    ));
}

#[test]
fn settings_are_written() {
    let manager = SettingsManager::new(PathBuf::from("/tmp/settings.json"));
    assert!(manager.save(FileWrite::Written).is_ok());
    assert!(matches!(
        manager.save(FileWrite::Failed("full".to_string())),
        Err(ProxyError::WriteSettings(source)) if source == "full"
    ));
    assert!(matches!(
        manager.save(FileWrite::Unwritable("odd".to_string())),
        Err(ProxyError::ParseSettings(source)) if source == "odd"
    ));
}

#[test]
fn a_prompt_is_injected_only_in_place_of_system_messages() {
    let mut settings = ProxySettings::default();
    assert_eq!(settings.injected_prompt_file(), None);
    assert!(matches!(
        settings.injected_system_prompt(Ok("prompt".to_string())),
        Ok(None)
    ));
    settings.system_messages = SystemMessages::Ignore;
    assert_eq!(settings.injected_prompt_file(), Some("system.md"));
    assert!(matches!(
        settings.injected_system_prompt(Ok("prompt".to_string())),
        Ok(Some(prompt)) if prompt == "prompt"
    ));
    match settings.injected_system_prompt(Err("denied".to_string())) {
        Err(error) => assert_eq!(
            error.message(),
            "failed to read system prompt file system.md: denied"
        ),
        Ok(_) => panic!("reading the prompt should fail"),
    }
}

#[test]
fn errors_have_statuses_and_messages() {
    let cause = || "cause".to_string();
    let cases = vec![
        (ProxyError::MissingAuth, 401u16, "auth file was not found; run `codex-proxy login browser` or `codex-proxy login device`"),
        (ProxyError::MissingRefreshToken, 401, "codex auth is expired and cannot be refreshed because no refresh token is saved"),
        (ProxyError::InvalidProxyApiKey, 401, "missing or invalid proxy API key"),
        (ProxyError::ReadAuth(cause()), 502, "failed to read auth file: cause"),
        (ProxyError::WriteAuth(cause()), 502, "failed to write auth file: cause"),
        (ProxyError::ParseAuth(cause()), 400, "failed to parse auth file: cause"),
        (ProxyError::ReadSettings(cause()), 502, "failed to read settings file: cause"),
        (ProxyError::WriteSettings(cause()), 502, "failed to write settings file: cause"),
        (ProxyError::ParseSettings(cause()), 400, "failed to parse settings file: cause"),
        (
            ProxyError::ReadSystemPrompt { path: "p".to_string(), source: cause() },
            502,
            "failed to read system prompt file p: cause",
        ),
        (ProxyError::ParseToken(cause()), 502, "failed to parse token response: cause"),
        (ProxyError::OAuthRequest(cause()), 502, "oauth request failed: cause"),
        (
            ProxyError::OAuthStatus { status: 400, body: cause() },
            400,
            "oauth request failed with status 400: cause",
        ),
        (ProxyError::UpstreamRequest(cause()), 502, "upstream request failed: cause"),
        (
            ProxyError::UpstreamStatus { status: 503, body: cause() },
            503,
            "upstream request failed with status 503: cause",
        ),
        (ProxyError::InvalidRequest(cause()), 400, "invalid request: cause"),
        (ProxyError::Login(cause()), 502, "login failed: cause"),
    ];
    for (error, status, message) in cases {
        assert_eq!(error.status_code(), status);
        assert_eq!(error.message(), message);
        let response = error.error_response();
        assert_eq!(response.error.message, message);
        assert_eq!(response.error.error_type, "proxy_error");
        assert_eq!(response.error.code, None);
    }
}

#[test]
fn statuses_without_room_in_http_become_bad_gateway() {
    for (status, shown) in [(0u16, 502u16), (99, 502), (100, 100), (999, 999), (1000, 502), (65535, 502)] {
        let error = ProxyError::UpstreamStatus {
            status,
            body: String::new(),
        };
        assert_eq!(error.status_code(), shown);
    }
}
