//! How the user changes the settings, and what the terminal shows.

use crate::auth::SavedAuth;
use crate::cli::{
    api_key_delete_actions, api_keys_actions, api_keys_step, auth_report, auth_status,
    enabled_label, endpoint, field_line, field_texts, login_actions, login_report, logout_message,
    menu_actions, menu_header, menu_step, new_proxy_api_key, paint, parse_port,
    reasoning_effort_index, reasoning_effort_options, section_header, settings_menu_items,
    sign_out_step, speed_index, speed_options, starting_header, system_messages_index,
    system_messages_options, without, ApiKeyDeleteAction, ApiKeysAction, ApiKeysEvent,
    ApiKeysStep, Field, FleetyTerminalColor, LoginAction, MenuAction, MenuStep, SettingsAction,
    SettingsChange, SettingsMenu, SettingsMenuItem, SettingsPrompt, SignOutStep,
};
use crate::codex::CodexRequest;
use crate::config::{ProxySettings, ReasoningEffort, SettingsManager, Speed, SystemMessages};
use crate::encoding::{base64url, is_drawn};
use crate::error::{FileFault, FileRead, FileWrite, ProxyError};
use crate::laws::conversation::{law_model_and_effort_go_upstream, law_tier_goes_upstream};
use crate::openai::ChatCompletionRequest;
use crate::text::{
    decimal, decimal_text, law_written_number_is_read_back, parse_unsigned, texts,
};
use std::path::PathBuf;
use vstd::prelude::*;
use vstd::utf8::encode_utf8;

verus! {

/// A choice of effort sets the effort to the chosen one and keeps all else.
pub proof fn law_chosen_effort_is_set(menu: &mut SettingsMenu, effort: ReasoningEffort, save: bool)
    requires
        call_ensures(
            SettingsMenu::apply,
            (menu, Some(SettingsChange::ReasoningEffort(effort))),
            save,
        ),
    ensures
        final(menu).settings.reasoning_effort == effort,
        final(menu).settings == (ProxySettings { reasoning_effort: effort, ..old(menu).settings }),
        final(menu).status_message is Some,
        final(menu).status_message->0@ == "Settings saved"@,
        save,
{
}

/// The effort that the user has chosen goes upstream for a client that names none.
pub proof fn law_chosen_effort_goes_upstream(
    menu: &mut SettingsMenu,
    effort: ReasoningEffort,
    save: bool,
    request: ChatCompletionRequest,
    upstream: CodexRequest,
)
    requires
        call_ensures(
            SettingsMenu::apply,
            (menu, Some(SettingsChange::ReasoningEffort(effort))),
            save,
        ),
        request.reasoning_effort is None,
        call_ensures(
            ChatCompletionRequest::to_codex_request,
            (&request, &final(menu).settings),
            Ok(upstream),
        ),
    ensures
        effort is Off ==> upstream.reasoning.effort@ == "none"@,
        effort is Minimal ==> upstream.reasoning.effort@ == "minimal"@,
        effort is Low ==> upstream.reasoning.effort@ == "low"@,
        effort is Medium ==> upstream.reasoning.effort@ == "medium"@,
        effort is High ==> upstream.reasoning.effort@ == "high"@,
        effort is XHigh ==> upstream.reasoning.effort@ == "xhigh"@,
{
    law_model_and_effort_go_upstream(request, final(menu).settings, upstream);
    assert(effort.upstream_value() == upstream.reasoning.effort@);
}

/// A choice of speed sets the speed to the chosen one and keeps all else.
pub proof fn law_chosen_speed_is_set(menu: &mut SettingsMenu, speed: Speed, save: bool)
    requires
        call_ensures(SettingsMenu::apply, (menu, Some(SettingsChange::Speed(speed))), save),
    ensures
        final(menu).settings == (ProxySettings { speed, ..old(menu).settings }),
        final(menu).status_message is Some,
        final(menu).status_message->0@ == "Settings saved"@,
        save,
{
}

/// The speed that the user has chosen decides for a client that names neither a tier nor the
/// fast model.
pub proof fn law_chosen_speed_goes_upstream(
    menu: &mut SettingsMenu,
    speed: Speed,
    save: bool,
    request: ChatCompletionRequest,
    upstream: CodexRequest,
)
    requires
        call_ensures(SettingsMenu::apply, (menu, Some(SettingsChange::Speed(speed))), save),
        request.service_tier is None,
        request.model@ != "gpt-5.5-fast"@,
        call_ensures(
            ChatCompletionRequest::to_codex_request,
            (&request, &final(menu).settings),
            Ok(upstream),
        ),
    ensures
        upstream.service_tier is Some <==> speed == Speed::Fast
            && old(menu).settings.priority_service,
        upstream.service_tier is Some ==> upstream.service_tier->0@ == "priority"@,
{
    law_tier_goes_upstream(request, final(menu).settings, upstream);
}

/// Every other choice sets what is chosen and keeps all else.
pub proof fn law_choice_is_set(menu: &mut SettingsMenu, change: SettingsChange, save: bool)
    requires
        call_ensures(SettingsMenu::apply, (menu, Some(change)), save),
        !(change is ApiKeyCreated),
        !(change is ApiKeyDeleted),
    ensures
        match change {
            SettingsChange::ReasoningEffort(chosen) => final(menu).settings == (ProxySettings {
                reasoning_effort: chosen,
                ..old(menu).settings
            }),
            SettingsChange::Speed(chosen) => final(menu).settings == (ProxySettings {
                speed: chosen,
                ..old(menu).settings
            }),
            SettingsChange::SystemMessages(chosen) => final(menu).settings == (ProxySettings {
                system_messages: chosen,
                ..old(menu).settings
            }),
            SettingsChange::Host(chosen) => final(menu).settings == (ProxySettings {
                host: chosen,
                ..old(menu).settings
            }),
            SettingsChange::Port(chosen) => final(menu).settings == (ProxySettings {
                port: chosen,
                ..old(menu).settings
            }),
            SettingsChange::DetailedLogs(chosen) => final(menu).settings == (ProxySettings {
                detailed_logs: chosen,
                ..old(menu).settings
            }),
            _ => false,
        },
        final(menu).status_message is Some,
        final(menu).status_message->0@ == "Settings saved"@,
        save,
{
}

/// A user who turns back changes nothing, and nothing is saved.
pub proof fn law_turning_back_keeps_the_settings(menu: &mut SettingsMenu, save: bool)
    requires
        call_ensures(SettingsMenu::apply, (menu, None), save),
    ensures
        *final(menu) == *old(menu),
        !save,
{
}

/// The menu starts with the settings that it is given, and has nothing to say yet.
pub proof fn law_menu_starts_with_the_settings(settings: ProxySettings, menu: SettingsMenu)
    requires
        call_ensures(SettingsMenu::new, (settings,), menu),
    ensures
        menu.settings == settings,
        menu.status_message is None,
{
}

/// The texts of a list of keys.
pub open spec fn key_texts(keys: Seq<String>) -> Seq<Seq<char>> {
    keys.map_values(|key: String| key@)
}

/// A created key is put behind the others, and all else is kept.
pub proof fn law_created_key_is_kept(menu: &mut SettingsMenu, key: String, save: bool)
    requires
        call_ensures(SettingsMenu::apply, (menu, Some(SettingsChange::ApiKeyCreated(key))), save),
    ensures
        final(menu).settings == (ProxySettings {
            api_keys: final(menu).settings.api_keys,
            ..old(menu).settings
        }),
        final(menu).settings.api_keys@ == old(menu).settings.api_keys@.push(key),
        final(menu).status_message is Some,
        final(menu).status_message->0@ == "API key created"@,
        save,
{
}

proof fn lemma_without_is_filter(
    list: Seq<Seq<char>>,
    text: Seq<char>,
    keeps: spec_fn(Seq<char>) -> bool,
)
    requires
        forall|other: Seq<char>| #[trigger] keeps(other) <==> other != text,
    ensures
        without(list, text) == list.filter(keeps),
    decreases list.len(),
{
    reveal(Seq::filter);
    if list.len() > 0 {
        lemma_without_is_filter(list.drop_last(), text, keeps);
    }
}

/// A deleted key is gone, and all else is kept: the other keys too, in order.
pub proof fn law_deleted_key_is_gone(menu: &mut SettingsMenu, key: String, save: bool)
    requires
        call_ensures(SettingsMenu::apply, (menu, Some(SettingsChange::ApiKeyDeleted(key))), save),
    ensures
        final(menu).settings == (ProxySettings {
            api_keys: final(menu).settings.api_keys,
            ..old(menu).settings
        }),
        key_texts(final(menu).settings.api_keys@) == key_texts(
            old(menu).settings.api_keys@,
        ).filter(|other: Seq<char>| other != key@),
        final(menu).status_message is Some,
        final(menu).status_message->0@ == "API key deleted"@,
        save,
{
    let before = old(menu).settings.api_keys@;
    let after = final(menu).settings.api_keys@;
    assert(texts(before) =~= key_texts(before));
    assert(texts(after) =~= key_texts(after));
    let keeps = |other: Seq<char>| other != key@;
    lemma_without_is_filter(key_texts(before), key@, keeps);
}

/// A new key is random.
pub proof fn law_new_key_is_random(key: String)
    requires
        call_ensures(new_proxy_api_key, (), key),
    ensures
        exists|bytes: Seq<u8>|
            bytes.len() == 32 && is_drawn(32, bytes) && key@ == "cp_"@ + #[trigger] base64url(
                bytes,
            ),
{
}

/// The menu asks for what was chosen, and starts from what the settings hold.
pub proof fn law_prompt_shows_what_is_set(
    menu: SettingsMenu,
    action: SettingsAction,
    prompt: SettingsPrompt,
)
    requires
        call_ensures(SettingsMenu::prompt, (&menu, action), prompt),
    ensures
        match action {
            SettingsAction::ReasoningEffort => {
                &&& prompt is ReasoningEffort
                &&& prompt->efforts@ == seq![
                    ReasoningEffort::Off,
                    ReasoningEffort::Minimal,
                    ReasoningEffort::Low,
                    ReasoningEffort::Medium,
                    ReasoningEffort::High,
                    ReasoningEffort::XHigh,
                ]
                &&& prompt->ReasoningEffort_cursor < 6
                &&& prompt->efforts@[prompt->ReasoningEffort_cursor as int]
                    == menu.settings.reasoning_effort
            },
            SettingsAction::Speed => {
                &&& prompt is Speed
                &&& prompt->speeds@ == seq![Speed::Normal, Speed::Fast]
                &&& prompt->Speed_cursor < 2
                &&& prompt->speeds@[prompt->Speed_cursor as int] == menu.settings.speed
            },
            SettingsAction::SystemMessages => {
                &&& prompt is SystemMessages
                &&& prompt->treatments@ == seq![SystemMessages::PassThrough, SystemMessages::Ignore]
                &&& prompt->SystemMessages_cursor < 2
                &&& prompt->treatments@[prompt->SystemMessages_cursor as int]
                    == menu.settings.system_messages
            },
            SettingsAction::Host => prompt is Host && prompt->Host_initial@ == menu.settings.host@,
            SettingsAction::Port => prompt is Port && prompt->Port_initial@ == decimal(
                menu.settings.port as nat,
            ),
            SettingsAction::DetailedLogs => prompt is DetailedLogs && prompt->default
                == menu.settings.detailed_logs,
            SettingsAction::ApiKeys => prompt is ApiKeys,
        },
{
}

/// The place of an option is where the list of options has it.
pub proof fn law_options_stand_at_their_places(
    effort: ReasoningEffort,
    efforts: Vec<ReasoningEffort>,
    effort_place: usize,
    speed: Speed,
    speeds: Vec<Speed>,
    speed_place: usize,
    treatment: SystemMessages,
    treatments: Vec<SystemMessages>,
    treatment_place: usize,
)
    requires
        call_ensures(reasoning_effort_options, (), efforts),
        call_ensures(reasoning_effort_index, (effort,), effort_place),
        call_ensures(speed_options, (), speeds),
        call_ensures(speed_index, (speed,), speed_place),
        call_ensures(system_messages_options, (), treatments),
        call_ensures(system_messages_index, (treatment,), treatment_place),
    ensures
        efforts@ == seq![
            ReasoningEffort::Off,
            ReasoningEffort::Minimal,
            ReasoningEffort::Low,
            ReasoningEffort::Medium,
            ReasoningEffort::High,
            ReasoningEffort::XHigh,
        ],
        effort_place < efforts@.len() && efforts@[effort_place as int] == effort,
        speeds@ == seq![Speed::Normal, Speed::Fast],
        speed_place < speeds@.len() && speeds@[speed_place as int] == speed,
        treatments@ == seq![SystemMessages::PassThrough, SystemMessages::Ignore],
        treatment_place < treatments@.len() && treatments@[treatment_place as int] == treatment,
{
}

/// The words that a user sees for the settings.
pub proof fn law_labels(
    effort: ReasoningEffort,
    effort_label: &'static str,
    effort_word: &'static str,
    speed: Speed,
    speed_label: &'static str,
    treatment: SystemMessages,
    treatment_label: &'static str,
    switch: bool,
    switch_label: &'static str,
    signed_in: bool,
    auth_label: &'static str,
    deleted: bool,
    deleted_label: &'static str,
)
    requires
        call_ensures(ReasoningEffort::label, (effort,), effort_label),
        call_ensures(ReasoningEffort::as_upstream_value, (effort,), effort_word),
        call_ensures(Speed::label, (speed,), speed_label),
        call_ensures(SystemMessages::label, (treatment,), treatment_label),
        call_ensures(enabled_label, (switch,), switch_label),
        call_ensures(auth_status, (signed_in,), auth_label),
        call_ensures(logout_message, (deleted,), deleted_label),
    ensures
        effort_label@ == effort_word@,
        speed is Normal ==> speed_label@ == "normal"@,
        speed is Fast ==> speed_label@ == "fast"@,
        treatment is PassThrough ==> treatment_label@ == "pass through"@,
        treatment is Ignore ==> treatment_label@ == "ignore"@,
        switch ==> switch_label@ == "enabled"@,
        !switch ==> switch_label@ == "disabled"@,
        signed_in ==> auth_label@ == "signed in"@,
        !signed_in ==> auth_label@ == "not signed in"@,
        deleted ==> deleted_label@ == "Removed auth file"@,
        !deleted ==> deleted_label@ == "No saved auth found"@,
{
}

/// The lines of the settings menu show what is set.
pub proof fn law_settings_menu_shows_what_is_set(
    settings: ProxySettings,
    items: Vec<SettingsMenuItem>,
    effort_label: &'static str,
    speed_label: &'static str,
    treatment_label: &'static str,
    logs_label: &'static str,
)
    requires
        call_ensures(settings_menu_items, (&settings,), items),
        call_ensures(ReasoningEffort::label, (settings.reasoning_effort,), effort_label),
        call_ensures(Speed::label, (settings.speed,), speed_label),
        call_ensures(SystemMessages::label, (settings.system_messages,), treatment_label),
        call_ensures(enabled_label, (settings.detailed_logs,), logs_label),
    ensures
        items@.len() == 7,
        items@[0].action is ReasoningEffort && items@[0].label@ == "Reasoning       "@
            + effort_label@,
        items@[1].action is Speed && items@[1].label@ == "Speed           "@ + speed_label@,
        items@[2].action is SystemMessages && items@[2].label@ == "System messages "@
            + treatment_label@,
        items@[3].action is Host && items@[3].label@ == "IP / host       "@ + settings.host@,
        items@[4].action is Port && items@[4].label@ == "Port            "@ + decimal(
            settings.port as nat,
        ),
        items@[5].action is DetailedLogs && items@[5].label@ == "Detailed logs   "@ + logs_label@,
        items@[6].action is ApiKeys && items@[6].label@ == "API keys        "@ + decimal(
            settings.api_keys@.len(),
        ),
{
}

/// The lines of the other menus.
pub proof fn law_menu_lines(
    action: MenuAction,
    line: &'static str,
    login: LoginAction,
    login_line: &'static str,
    keys: ApiKeysAction,
    keys_line: &'static str,
    answer: ApiKeyDeleteAction,
    answer_line: &'static str,
)
    requires
        call_ensures(MenuAction::label, (action,), line),
        call_ensures(LoginAction::label, (login,), login_line),
        call_ensures(ApiKeysAction::label, (keys,), keys_line),
        call_ensures(ApiKeyDeleteAction::label, (answer,), answer_line),
    ensures
        action is StartProxy ==> line@ == "Start proxy      Run the OpenAI-compatible endpoint"@,
        action is Login ==> line@ == "Login            Browser or headless sign-in"@,
        action is Settings ==> line@ == "Settings         Endpoint, speed, and reasoning"@,
        action is Logout ==> line@ == "Logout           Remove saved Codex auth"@,
        login is Browser ==> login_line@ == "Browser          Open the sign-in page locally"@,
        login is Headless ==> login_line@ == "Headless         Device code for remote servers"@,
        keys is List ==> keys_line@ == "List"@,
        keys is Create ==> keys_line@ == "Create"@,
        answer is Delete ==> answer_line@ == "Delete"@,
        answer is Cancel ==> answer_line@ == "Cancel"@,
{
}

/// What the menus offer.
pub proof fn law_menus_offer(
    actions: Vec<MenuAction>,
    logins: Vec<LoginAction>,
    keys: Vec<ApiKeysAction>,
    answers: Vec<ApiKeyDeleteAction>,
)
    requires
        call_ensures(menu_actions, (), actions),
        call_ensures(login_actions, (), logins),
        call_ensures(api_keys_actions, (), keys),
        call_ensures(api_key_delete_actions, (), answers),
    ensures
        actions@ == seq![
            MenuAction::StartProxy,
            MenuAction::Login,
            MenuAction::Settings,
            MenuAction::Logout,
        ],
        logins@ == seq![LoginAction::Browser, LoginAction::Headless],
        keys@ == seq![ApiKeysAction::List, ApiKeysAction::Create],
        answers@ == seq![ApiKeyDeleteAction::Delete, ApiKeyDeleteAction::Cancel],
{
}

/// What the main menu does once an entry is chosen.
pub proof fn law_menu_does_what_is_chosen(
    action: MenuAction,
    step: MenuStep,
    confirmed: bool,
    sign_out: SignOutStep,
)
    requires
        call_ensures(menu_step, (action,), step),
        call_ensures(sign_out_step, (confirmed,), sign_out),
    ensures
        action is StartProxy <==> step is Serve,
        action is Login <==> step is SignInAndServe,
        action is Settings <==> step is EditSettings,
        action is Logout <==> step is AskToSignOut,
        confirmed <==> sign_out is Remove,
        !confirmed <==> sign_out is Keep,
{
}

/// What the menu of keys does when something happens. It asks for a change only of the key that
/// the user has seen or answered for.
pub proof fn law_keys_menu_does_what_is_chosen(
    settings: ProxySettings,
    event: ApiKeysEvent,
    step: ApiKeysStep,
)
    requires
        call_ensures(api_keys_step, (&settings, event), step),
    ensures
        match event {
            ApiKeysEvent::Chosen(None) => step is Leave && step->Leave_0 is None,
            ApiKeysEvent::Chosen(Some(ApiKeysAction::List)) => {
                &&& settings.api_keys@.len() == 0 <==> step is TellOfNone
                &&& settings.api_keys@.len() > 0 <==> step is Pick
                &&& step is Pick ==> key_texts(step->Pick_0@) == key_texts(settings.api_keys@)
            },
            ApiKeysEvent::Chosen(Some(ApiKeysAction::Create)) => step is Show && exists|
                bytes: Seq<u8>,
            |
                bytes.len() == 32 && is_drawn(32, bytes) && step->Show_key@ == "cp_"@
                    + #[trigger] base64url(bytes),
            ApiKeysEvent::ToldOfNone => step is ShowMenu,
            ApiKeysEvent::Picked(None) => step is ShowMenu,
            ApiKeysEvent::Picked(Some(picked)) => step is Ask && step->Ask_key == picked,
            ApiKeysEvent::Answered { key, answer: Some(ApiKeyDeleteAction::Delete) } => step
                == ApiKeysStep::Leave(Some(SettingsChange::ApiKeyDeleted(key))),
            ApiKeysEvent::Answered { key, answer: Some(ApiKeyDeleteAction::Cancel) } => step
                is ShowMenu,
            ApiKeysEvent::Answered { key, answer: None } => step is ShowMenu,
            ApiKeysEvent::Shown { key } => step == ApiKeysStep::Leave(
                Some(SettingsChange::ApiKeyCreated(key)),
            ),
        },
{
    if step is Pick && event is Chosen {
        assert(texts(step->Pick_0@) =~= key_texts(step->Pick_0@));
        assert(texts(settings.api_keys@) =~= key_texts(settings.api_keys@));
    }
}

/// A port is any number up to 65535, and anything else is refused with what was entered.
pub proof fn law_port_is_read(
    input: &str,
    number: Option<u64>,
    port: u16,
    result: Result<u16, String>,
)
    requires
        call_ensures(parse_port, (input,), result),
        call_ensures(parse_unsigned, (input, 65535u64), number),
    ensures
        result is Ok <==> number is Some,
        result is Ok ==> result->Ok_0 == number->0,
        input@ == decimal(port as nat) ==> result is Ok && result->Ok_0 == port,
        result is Err ==> ("invalid port `"@ + input@ + "`: "@).is_prefix_of(result->Err_0@),
{
    law_written_number_is_read_back(port as nat, 65535);
    if result is Err {
        let start = "invalid port `"@ + input@ + "`: "@;
        assert(result->Err_0@.subrange(0, start.len() as int) =~= start);
    }
}

/// The address of the proxy holds its host and its port.
pub proof fn law_endpoint_holds_host_and_port(host: &str, port: u16, digits: String, text: String)
    requires
        call_ensures(endpoint, (host, port), text),
        call_ensures(decimal_text, (port as u64,), digits),
    ensures
        text@ == "http://"@ + host@ + ":"@ + digits@ + "/v1"@,
{
}

/// Tells whether a line of a report is about something and says something.
pub open spec fn reports(line: Field, label: Seq<char>, value: Seq<char>) -> bool {
    line.label@ == label && line.value@ == value
}

proof fn lemma_fields(fields: Seq<Field>, report: Seq<(Seq<char>, Seq<char>)>)
    requires
        field_texts(fields) == report,
    ensures
        fields.len() == report.len(),
        forall|i: int|
            0 <= i < fields.len() ==> reports(
                #[trigger] fields[i],
                report[i].0,
                report[i].1,
            ),
{
    assert(field_texts(fields).len() == report.len());
    assert forall|i: int| 0 <= i < fields.len() implies reports(
        #[trigger] fields[i],
        report[i].0,
        report[i].1,
    ) by {
        assert(field_texts(fields)[i] == report[i]);
    }
}

/// Above the main menu and when the proxy starts, the terminal shows what is set.
pub proof fn law_headers_show_what_is_set(
    settings: ProxySettings,
    signed_in: bool,
    menu: Vec<Field>,
    host: &str,
    port: u16,
    starting: Vec<Field>,
    set_host: &str,
    set_address: String,
    address: String,
    auth_label: &'static str,
    effort_label: &'static str,
    speed_label: &'static str,
    treatment_label: &'static str,
    logs_label: &'static str,
)
    requires
        call_ensures(menu_header, (&settings, signed_in), menu),
        call_ensures(starting_header, (&settings, host, port), starting),
        set_host@ == settings.host@,
        call_ensures(endpoint, (set_host, settings.port), set_address),
        call_ensures(endpoint, (host, port), address),
        call_ensures(auth_status, (signed_in,), auth_label),
        call_ensures(ReasoningEffort::label, (settings.reasoning_effort,), effort_label),
        call_ensures(Speed::label, (settings.speed,), speed_label),
        call_ensures(SystemMessages::label, (settings.system_messages,), treatment_label),
        call_ensures(enabled_label, (settings.detailed_logs,), logs_label),
    ensures
        menu@.len() == 6,
        reports(menu@[0], "Endpoint"@, set_address@),
        reports(menu@[1], "Auth"@, auth_label@),
        reports(menu@[2], "Reasoning"@, effort_label@),
        reports(menu@[3], "Speed"@, speed_label@),
        reports(menu@[4], "System messages"@, treatment_label@),
        reports(menu@[5], "Logs"@, logs_label@),
        starting@.len() == 5,
        reports(starting@[0], "Endpoint"@, address@),
        reports(starting@[1], "Reasoning"@, effort_label@),
        reports(starting@[2], "Speed"@, speed_label@),
        reports(starting@[3], "System messages"@, treatment_label@),
        reports(starting@[4], "Logs"@, logs_label@),
{
    lemma_fields(menu@, field_texts(menu@));
    lemma_fields(starting@, field_texts(starting@));
}

/// Above the settings menu, the terminal shows where the settings are kept, and what came of the
/// last change.
pub proof fn law_settings_header_shows_the_file(
    menu: SettingsMenu,
    settings_file: &str,
    signed_in: bool,
    header: Vec<Field>,
    set_host: &str,
    set_address: String,
    auth_label: &'static str,
    logs_label: &'static str,
)
    requires
        call_ensures(SettingsMenu::header, (&menu, settings_file, signed_in), header),
        set_host@ == menu.settings.host@,
        call_ensures(endpoint, (set_host, menu.settings.port), set_address),
        call_ensures(auth_status, (signed_in,), auth_label),
        call_ensures(enabled_label, (menu.settings.detailed_logs,), logs_label),
    ensures
        header@.len() == 4 + (if menu.status_message is Some {
            1int
        } else {
            0
        }),
        reports(header@[0], "Endpoint"@, set_address@),
        reports(header@[1], "Auth"@, auth_label@),
        reports(header@[2], "File"@, settings_file@),
        reports(header@[3], "Logs"@, logs_label@),
        menu.status_message is Some ==> reports(
            header@[4],
            "Status"@,
            menu.status_message->0@,
        ),
{
    lemma_fields(header@, field_texts(header@));
}

/// The report on a sign-in says when it expires and whose it is, or what is wrong, and never
/// shows a token.
pub proof fn law_auth_report(
    auth_file: &str,
    saved: Result<SavedAuth, ProxyError>,
    report: Vec<Field>,
    reason: String,
)
    requires
        call_ensures(auth_report, (auth_file, &saved), report),
        saved is Err ==> call_ensures(ProxyError::message, (&saved->Err_0,), reason),
    ensures
        reports(report@[0], "File"@, auth_file@),
        saved is Err ==> report@.len() == 2 && reports(report@[1], "Status"@, reason@),
        saved is Ok ==> {
            &&& report@.len() == 6
            &&& reports(report@[1], "Status"@, "signed in"@)
            &&& reports(report@[2], "Access token"@, "saved"@)
            &&& reports(report@[3], "Refresh token"@, "saved"@)
            &&& reports(
                report@[4],
                "Expires"@,
                decimal(saved->Ok_0.expires_at_millis as nat),
            )
            &&& saved->Ok_0.account_id is Some ==> reports(
                report@[5],
                "Account"@,
                saved->Ok_0.account_id->0@,
            )
            &&& saved->Ok_0.account_id is None ==> reports(report@[5], "Account"@, "unknown"@)
        },
{
    lemma_fields(report@, field_texts(report@));
}

/// The report on a new sign-in says where it is kept, and whose it is where that is known.
pub proof fn law_login_report(auth_file: &str, account_id: Option<&str>, report: Vec<Field>)
    requires
        call_ensures(login_report, (auth_file, account_id), report),
    ensures
        reports(report@[0], "File"@, auth_file@),
        account_id is Some ==> report@.len() == 2 && reports(
            report@[1],
            "Account"@,
            account_id->0@,
        ),
        account_id is None ==> report@.len() == 1,
{
    lemma_fields(report@, field_texts(report@));
}

/// A painted text is the text between the code of its shade of gray and the code that ends it.
pub proof fn law_paint_puts_codes_around(value: &str, color: FleetyTerminalColor, text: String)
    requires
        call_ensures(paint, (value, color), text),
    ensures
        color is Primary ==> text@ == "\x1b[38;2;244;244;244m"@ + value@ + "\x1b[0m"@,
        color is Secondary ==> text@ == "\x1b[38;2;184;184;184m"@ + value@ + "\x1b[0m"@,
        color is Muted ==> text@ == "\x1b[38;2;133;133;133m"@ + value@ + "\x1b[0m"@,
{
    reveal_strlit("\x1b[38;2;");
    reveal_strlit(";");
    reveal_strlit("m");
    reveal_strlit("\x1b[38;2;244;244;244m");
    reveal_strlit("\x1b[38;2;184;184;184m");
    reveal_strlit("\x1b[38;2;133;133;133m");
    reveal_with_fuel(decimal, 4);
    let shade = decimal(color.shade());
    let start = "\x1b[38;2;"@ + shade + ";"@ + shade + ";"@ + shade + "m"@;
    if color is Primary {
        assert(shade =~= seq!['2', '4', '4']);
        assert(start =~= "\x1b[38;2;244;244;244m"@);
    } else if color is Secondary {
        assert(shade =~= seq!['1', '8', '4']);
        assert(start =~= "\x1b[38;2;184;184;184m"@);
    } else {
        assert(shade =~= seq!['1', '3', '3']);
        assert(start =~= "\x1b[38;2;133;133;133m"@);
    }
}

/// A line of a report pads its label with spaces up to ten characters.
pub proof fn law_report_line_pads_its_label(
    label: &str,
    value: &str,
    line: String,
    column: &str,
    painted_label: String,
    painted_value: String,
)
    requires
        call_ensures(field_line, (label, value), line),
        label@.is_prefix_of(column@),
        column@.len() == (if label@.len() < 10 {
            10
        } else {
            label@.len()
        }),
        forall|i: int| label@.len() <= i < column@.len() ==> #[trigger] column@[i] == ' ',
        call_ensures(paint, (column, FleetyTerminalColor::Muted), painted_label),
        call_ensures(paint, (value, FleetyTerminalColor::Secondary), painted_value),
    ensures
        line@ == painted_label@ + " "@ + painted_value@,
{
    assert(column@.subrange(0, label@.len() as int) == label@);
    assert forall|i: int| 0 <= i < label@.len() implies column@[i] == #[trigger] label@[i] by {
        assert(column@.subrange(0, label@.len() as int)[i] == column@[i]);
    }
    assert(column@ =~= crate::cli::padded(label@, 10));
}

/// A title stands in a line of its own, over a line of as many hyphens as it has bytes.
pub proof fn law_title_is_underlined(
    title: &str,
    header: String,
    rule: &str,
    painted_title: String,
    painted_rule: String,
)
    requires
        call_ensures(section_header, (title,), header),
        rule@.len() == encode_utf8(title@).len(),
        forall|i: int| 0 <= i < rule@.len() ==> #[trigger] rule@[i] == '-',
        call_ensures(paint, (title, FleetyTerminalColor::Primary), painted_title),
        call_ensures(paint, (rule, FleetyTerminalColor::Muted), painted_rule),
    ensures
        header@ == "\n"@ + painted_title@ + "\n"@ + painted_rule@,
{
    assert(rule@ =~= crate::cli::repeated('-', encode_utf8(title@).len()));
}

/// The settings of a proxy that nobody has configured.
pub proof fn law_default_settings(settings: ProxySettings)
    requires
        call_ensures(ProxySettings::default, (), settings),
    ensures
        settings.reasoning_effort == ReasoningEffort::Medium,
        settings.speed == Speed::Normal,
        settings.system_messages == SystemMessages::PassThrough,
        settings.system_prompt_file@ == "system.md"@,
        settings.host@ == "0.0.0.0"@,
        settings.port == 8080,
        !settings.detailed_logs,
        settings.priority_service,
        settings.api_keys@.len() == 0,
{
}

/// The settings that are loaded are those that were saved, or the default ones where none were,
/// and each failure says what failed.
pub proof fn law_settings_are_loaded(
    manager: SettingsManager,
    read: FileRead<ProxySettings>,
    loaded: Result<ProxySettings, ProxyError>,
    write: FileWrite,
    saved: Result<(), ProxyError>,
)
    requires
        call_ensures(SettingsManager::load, (&manager, read), loaded),
        call_ensures(SettingsManager::save, (&manager, write), saved),
    ensures
        match read {
            FileRead::Parsed(settings) => loaded is Ok && loaded->Ok_0 == settings,
            FileRead::Failed(FileFault::NotFound) => {
                &&& loaded is Ok
                &&& loaded->Ok_0.reasoning_effort == ReasoningEffort::Medium
                &&& loaded->Ok_0.speed == Speed::Normal
                &&& loaded->Ok_0.system_messages == SystemMessages::PassThrough
                &&& loaded->Ok_0.system_prompt_file@ == "system.md"@
                &&& loaded->Ok_0.host@ == "0.0.0.0"@
                &&& loaded->Ok_0.port == 8080
                &&& !loaded->Ok_0.detailed_logs
                &&& loaded->Ok_0.priority_service
                &&& loaded->Ok_0.api_keys@.len() == 0
            },
            FileRead::Failed(FileFault::Other(reason)) => loaded is Err && loaded->Err_0
                is ReadSettings && loaded->Err_0->ReadSettings_0 == reason,
            FileRead::Malformed(reason) => loaded is Err && loaded->Err_0 is ParseSettings
                && loaded->Err_0->ParseSettings_0 == reason,
        },
        match write {
            FileWrite::Written => saved is Ok,
            FileWrite::Unwritable(reason) => saved is Err && saved->Err_0 is ParseSettings
                && saved->Err_0->ParseSettings_0 == reason,
            FileWrite::Failed(reason) => saved is Err && saved->Err_0 is WriteSettings
                && saved->Err_0->WriteSettings_0 == reason,
        },
{
}

/// The settings are kept in the file that is named for them.
pub proof fn law_settings_file_is_kept(
    settings_file: PathBuf,
    manager: SettingsManager,
    kept: &PathBuf,
)
    requires
        call_ensures(SettingsManager::new, (settings_file,), manager),
        call_ensures(SettingsManager::settings_file, (&manager,), kept),
    ensures
        *kept == settings_file,
{
}

/// The prompt of the proxy is injected exactly where the system messages of clients are ignored.
pub proof fn law_prompt_is_injected_where_messages_are_ignored(
    settings: ProxySettings,
    file: Option<&str>,
    read: Result<String, String>,
    prompt: Result<Option<String>, ProxyError>,
)
    requires
        call_ensures(ProxySettings::injected_prompt_file, (&settings,), file),
        call_ensures(ProxySettings::injected_system_prompt, (&settings, read), prompt),
    ensures
        settings.system_messages is PassThrough ==> file is None && prompt is Ok && prompt->Ok_0
            is None,
        settings.system_messages is Ignore ==> {
            &&& file is Some
            &&& file->0@ == settings.system_prompt_file@
            &&& read is Ok ==> prompt is Ok && prompt->Ok_0 == Some(read->Ok_0)
            &&& read is Err ==> prompt is Err && prompt->Err_0 is ReadSystemPrompt
                && prompt->Err_0->ReadSystemPrompt_path@ == settings.system_prompt_file@
                && prompt->Err_0->ReadSystemPrompt_source == read->Err_0
        },
{
}

} // verus!
