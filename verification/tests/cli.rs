use codex_proxy::auth::SavedAuth;
use codex_proxy::cli::{
    api_key_delete_actions, api_keys_actions, api_keys_step, auth_report, enabled_label, endpoint,
    field_line, login_actions, login_report, logout_message, menu_actions, menu_header, menu_step,
    new_proxy_api_key, paint, parse_port, reasoning_effort_index, reasoning_effort_options,
    section_header, settings_menu_items, sign_out_step, speed_index, speed_options,
    starting_header, system_messages_index, system_messages_options, ApiKeyDeleteAction,
    ApiKeysAction, ApiKeysEvent, ApiKeysStep, Field, FleetyTerminalColor, LoginAction, MenuAction,
    MenuStep, SettingsAction, SettingsChange, SettingsMenu, SettingsPrompt, SignOutStep,
};
use codex_proxy::config::{ProxySettings, ReasoningEffort, Speed, SystemMessages};
use codex_proxy::error::ProxyError;
use codex_proxy::server::require_proxy_api_key;

fn shown(fields: Vec<Field>) -> Vec<(String, String)> {
    fields
        .into_iter()
        .map(|field| (field.label.to_string(), field.value))
        .collect()
}

fn pairs(list: &[(&str, &str)]) -> Vec<(String, String)> {
    list.iter()
        .map(|(label, value)| (label.to_string(), value.to_string()))
        .collect()
}

#[test]
fn menu_entries_have_labels() {
    assert_eq!(
        MenuAction::StartProxy.label(),
        "Start proxy      Run the OpenAI-compatible endpoint"
    );
    assert_eq!(MenuAction::Login.label(), "Login            Browser or headless sign-in");
    assert_eq!(
        MenuAction::Settings.label(),
        "Settings         Endpoint, speed, and reasoning"
    );
    assert_eq!(MenuAction::Logout.label(), "Logout           Remove saved Codex auth");
    assert_eq!(LoginAction::Browser.label(), "Browser          Open the sign-in page locally");
    assert_eq!(LoginAction::Headless.label(), "Headless         Device code for remote servers");
    assert_eq!(ApiKeysAction::List.label(), "List");
    assert_eq!(ApiKeysAction::Create.label(), "Create");
    assert_eq!(ApiKeyDeleteAction::Delete.label(), "Delete");
    assert_eq!(ApiKeyDeleteAction::Cancel.label(), "Cancel");
}

#[test]
fn settings_menu_shows_the_settings() {
    let settings = ProxySettings {
        detailed_logs: true,
        api_keys: vec!["a".to_string(), "b".to_string()],
        ..ProxySettings::default()
    };
    let items = settings_menu_items(&settings);
    let labels: Vec<&str> = items.iter().map(|item| item.label.as_str()).collect();
    assert_eq!(
        labels,
        vec![
            "Reasoning       medium",
            "Speed           normal",
            "System messages pass through",
            "IP / host       0.0.0.0",
            "Port            8080",
            "Detailed logs   enabled",
            "API keys        2",
        ]
    );
    assert_eq!(items[0].action, SettingsAction::ReasoningEffort);
    assert_eq!(items[6].action, SettingsAction::ApiKeys);
}

#[test]
fn the_cursor_stands_on_the_current_choice() {
    for (i, effort) in reasoning_effort_options().iter().enumerate() {
        assert_eq!(reasoning_effort_index(*effort), i);
    }
    for (i, speed) in speed_options().iter().enumerate() {
        assert_eq!(speed_index(*speed), i);
    }
    for (i, treatment) in system_messages_options().iter().enumerate() {
        assert_eq!(system_messages_index(*treatment), i);
    }
    assert_eq!(reasoning_effort_index(ReasoningEffort::XHigh), 5);
}

#[test]
fn prompts_start_from_the_settings() {
    let menu = SettingsMenu::new(ProxySettings::default());
    assert!(matches!(
        menu.prompt(SettingsAction::ReasoningEffort),
        SettingsPrompt::ReasoningEffort { cursor: 3, efforts } if efforts.len() == 6
    ));
    assert!(matches!(
        menu.prompt(SettingsAction::Speed),
        SettingsPrompt::Speed { cursor: 0, speeds } if speeds.len() == 2
    ));
    assert!(matches!(
        menu.prompt(SettingsAction::SystemMessages),
        SettingsPrompt::SystemMessages { cursor: 0, treatments } if treatments.len() == 2
    ));
    assert!(matches!(
        menu.prompt(SettingsAction::Host),
        SettingsPrompt::Host { initial } if initial == "0.0.0.0"
    ));
    assert!(matches!(
        menu.prompt(SettingsAction::Port),
        SettingsPrompt::Port { initial } if initial == "8080"
    ));
    assert!(matches!(
        menu.prompt(SettingsAction::DetailedLogs),
        SettingsPrompt::DetailedLogs { default: false }
    ));
    assert!(matches!(menu.prompt(SettingsAction::ApiKeys), SettingsPrompt::ApiKeys));
}

#[test]
fn changes_are_taken_in_one_at_a_time() {
    let mut menu = SettingsMenu::new(ProxySettings::default());
    assert!(!menu.apply(None));
    assert_eq!(menu.status_message, None);
    assert!(menu.apply(Some(SettingsChange::ReasoningEffort(ReasoningEffort::High))));
    assert_eq!(menu.status_message, Some("Settings saved"));
    assert!(menu.apply(Some(SettingsChange::Speed(Speed::Fast))));
    assert!(menu.apply(Some(SettingsChange::SystemMessages(SystemMessages::Ignore))));
    assert!(menu.apply(Some(SettingsChange::Host("127.0.0.1".to_string()))));
    assert!(menu.apply(Some(SettingsChange::Port(1))));
    assert!(menu.apply(Some(SettingsChange::DetailedLogs(true))));
    assert!(!menu.apply(None));
    assert_eq!(menu.status_message, Some("Settings saved"));
    assert_eq!(menu.settings.reasoning_effort, ReasoningEffort::High);
    assert_eq!(menu.settings.speed, Speed::Fast);
    assert_eq!(menu.settings.system_messages, SystemMessages::Ignore);
    assert_eq!(menu.settings.host, "127.0.0.1");
    assert_eq!(menu.settings.port, 1);
    assert!(menu.settings.detailed_logs);
    assert!(menu.settings.priority_service);
}

#[test]
fn keys_are_created_and_deleted() {
    let admitted = |menu: &SettingsMenu, key: &str| {
        let mut headers = axum::http::HeaderMap::new();
        headers.insert(
            "authorization",
            axum::http::HeaderValue::from_str(&format!("Bearer {key}")).expect("a header value"),
        );
        require_proxy_api_key(&headers, &menu.settings).is_ok()
    };
    let mut menu = SettingsMenu::new(ProxySettings::default());
    assert!(!admitted(&menu, "cp_1"));
    for key in ["cp_1", "cp_2", "cp_1"] {
        assert!(menu.apply(Some(SettingsChange::ApiKeyCreated(key.to_string()))));
        assert_eq!(menu.status_message, Some("API key created"));
        assert!(admitted(&menu, key));
    }
    assert!(menu.apply(Some(SettingsChange::ApiKeyDeleted("cp_1".to_string()))));
    assert_eq!(menu.status_message, Some("API key deleted"));
    assert_eq!(menu.settings.api_keys, vec!["cp_2".to_string()]);
    assert!(!admitted(&menu, "cp_1"));
    assert!(admitted(&menu, "cp_2"));
}

#[test]
fn new_keys_are_random() {
    let key = new_proxy_api_key();
    assert!(key.starts_with("cp_"));
    assert_eq!(key.len(), 46);
    assert!(key[3..].chars().all(|c| c.is_ascii_alphanumeric() || c == '-' || c == '_'));
    assert_ne!(key, new_proxy_api_key());
}

#[test]
fn ports_are_read() {
    assert_eq!(parse_port("0"), Ok(0));
    assert_eq!(parse_port("+65535"), Ok(65535));
    assert_eq!(parse_port("0080"), Ok(80));
    assert_eq!(
        parse_port("65536"),
        Err("invalid port `65536`: number too large to fit in target type".to_string())
    );
    assert_eq!(
        parse_port("80 "),
        Err("invalid port `80 `: invalid digit found in string".to_string())
    );
    assert_eq!(
        parse_port(""),
        Err("invalid port ``: cannot parse integer from empty string".to_string())
    );
    for text in ["-1", "+", "1.0", "\u{661}"] {
        assert!(parse_port(text).is_err());
        assert!(text.parse::<u16>().is_err());
    }
}

#[test]
fn headers_report_the_settings() {
    let settings = ProxySettings::default();
    assert_eq!(endpoint("::1", 80), "http://::1:80/v1");
    assert_eq!(
        shown(menu_header(&settings, false)),
        pairs(&[
            ("Endpoint", "http://0.0.0.0:8080/v1"),
            ("Auth", "not signed in"),
            ("Reasoning", "medium"),
            ("Speed", "normal"),
            ("System messages", "pass through"),
            ("Logs", "disabled"),
        ])
    );
    assert_eq!(
        shown(starting_header(&settings, "127.0.0.1", 9)),
        pairs(&[
            ("Endpoint", "http://127.0.0.1:9/v1"),
            ("Reasoning", "medium"),
            ("Speed", "normal"),
            ("System messages", "pass through"),
            ("Logs", "disabled"),
        ])
    );
    let mut menu = SettingsMenu::new(settings);
    let before = menu.header("s.json", true);
    assert_eq!(
        shown(before),
        pairs(&[
            ("Endpoint", "http://0.0.0.0:8080/v1"),
            ("Auth", "signed in"),
            ("File", "s.json"),
            ("Logs", "disabled"),
        ])
    );
    menu.apply(Some(SettingsChange::Port(1)));
    assert_eq!(
        shown(menu.header("s.json", true)).last(),
        pairs(&[("Status", "Settings saved")]).last()
    );
    assert_eq!(enabled_label(true), "enabled");
}

#[test]
fn reports_say_who_is_signed_in() {
    let saved = |account_id: Option<&str>| SavedAuth {
        refresh_token: "secret r".to_string(),
        access_token: "secret a".to_string(),
        expires_at_millis: 1234567890123,
        account_id: account_id.map(str::to_string),
    };
    assert_eq!(
        shown(auth_report("a.json", &Ok(saved(None)))),
        pairs(&[
            ("File", "a.json"),
            ("Status", "signed in"),
            ("Access token", "saved"),
            ("Refresh token", "saved"),
            ("Expires", "1234567890123"),
            ("Account", "unknown"),
        ])
    );
    assert_eq!(
        shown(auth_report("a.json", &Ok(saved(Some("acc"))))).last(),
        pairs(&[("Account", "acc")]).last()
    );
    assert_eq!(
        shown(auth_report("a.json", &Err(ProxyError::Login("no".to_string())))),
        pairs(&[("File", "a.json"), ("Status", "login failed: no")])
    );
    assert_eq!(shown(login_report("a.json", None)), pairs(&[("File", "a.json")]));
    assert_eq!(
        shown(login_report("a.json", Some("acc"))),
        pairs(&[("File", "a.json"), ("Account", "acc")])
    );
    assert_eq!(logout_message(true), "Removed auth file");
    assert_eq!(logout_message(false), "No saved auth found");
}

#[test]
fn the_terminal_is_painted() {
    assert_eq!(
        paint("x", FleetyTerminalColor::Primary),
        "\u{1b}[38;2;244;244;244mx\u{1b}[0m"
    );
    assert_eq!(
        field_line("Auth", "ok"),
        format!(
            "{} {}",
            paint("Auth      ", FleetyTerminalColor::Muted),
            paint("ok", FleetyTerminalColor::Secondary)
        )
    );
    assert_eq!(
        field_line("System messages", "ok"),
        format!(
            "{} {}",
            paint("System messages", FleetyTerminalColor::Muted),
            paint("ok", FleetyTerminalColor::Secondary)
        )
    );
    assert_eq!(
        section_header("L\u{e9}"),
        format!(
            "\n{}\n{}",
            paint("L\u{e9}", FleetyTerminalColor::Primary),
            paint("---", FleetyTerminalColor::Muted)
        )
    );
}

#[test]
fn the_main_menu_goes_step_by_step() {
    let steps: Vec<MenuStep> = menu_actions().into_iter().map(menu_step).collect();
    assert_eq!(
        steps,
        vec![
            MenuStep::Serve,
            MenuStep::SignInAndServe,
            MenuStep::EditSettings,
            MenuStep::AskToSignOut,
        ]
    );
    assert_eq!(login_actions(), vec![LoginAction::Browser, LoginAction::Headless]);
    assert_eq!(sign_out_step(true), SignOutStep::Remove);
    assert_eq!(sign_out_step(false), SignOutStep::Keep);
}

#[test]
fn the_menu_of_keys_goes_step_by_step() {
    let mut settings = ProxySettings::default();
    let key = || "cp_1".to_string();
    assert_eq!(api_keys_actions(), vec![ApiKeysAction::List, ApiKeysAction::Create]);
    assert_eq!(
        api_key_delete_actions(),
        vec![ApiKeyDeleteAction::Delete, ApiKeyDeleteAction::Cancel]
    );
    assert!(matches!(
        api_keys_step(&settings, ApiKeysEvent::Chosen(None)),
        ApiKeysStep::Leave(None)
    ));
    assert!(matches!(
        api_keys_step(&settings, ApiKeysEvent::Chosen(Some(ApiKeysAction::List))),
        ApiKeysStep::TellOfNone
    ));
    assert!(matches!(
        api_keys_step(&settings, ApiKeysEvent::ToldOfNone),
        ApiKeysStep::ShowMenu
    ));
    settings.api_keys = vec![key(), "cp_2".to_string()];
    match api_keys_step(&settings, ApiKeysEvent::Chosen(Some(ApiKeysAction::List))) {
        ApiKeysStep::Pick(keys) => assert_eq!(keys, settings.api_keys),
        _ => panic!("the keys should be listed"),
    }
    assert!(matches!(
        api_keys_step(&settings, ApiKeysEvent::Picked(None)),
        ApiKeysStep::ShowMenu
    ));
    assert!(matches!(
        api_keys_step(&settings, ApiKeysEvent::Picked(Some(key()))),
        ApiKeysStep::Ask { key } if key == "cp_1"
    ));
    for answer in [None, Some(ApiKeyDeleteAction::Cancel)] {
        assert!(matches!(
            api_keys_step(&settings, ApiKeysEvent::Answered { key: key(), answer }),
            ApiKeysStep::ShowMenu
        ));
    }
    let answer = Some(ApiKeyDeleteAction::Delete);
    assert!(matches!(
        api_keys_step(&settings, ApiKeysEvent::Answered { key: key(), answer }),
        ApiKeysStep::Leave(Some(SettingsChange::ApiKeyDeleted(deleted))) if deleted == "cp_1"
    ));
    match api_keys_step(&settings, ApiKeysEvent::Chosen(Some(ApiKeysAction::Create))) {
        ApiKeysStep::Show { key } => assert!(key.starts_with("cp_") && key.len() == 46),
        _ => panic!("a key should be made"),
    }
    assert!(matches!(
        api_keys_step(&settings, ApiKeysEvent::Shown { key: key() }),
        ApiKeysStep::Leave(Some(SettingsChange::ApiKeyCreated(created))) if created == "cp_1"
    ));
}
