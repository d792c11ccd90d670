//! What the terminal shows, and what the menus do to the settings.

use crate::auth::{is_url_safe_text, SavedAuth};
use crate::config::{ProxySettings, ReasoningEffort, Speed, SystemMessages};
use crate::error::ProxyError;
use crate::headers::is_header_text;
use crate::server::{
    bearer_key, is_admitted, is_random_name, law_more_keys_admit_more, random_name,
};
use crate::text::{
    decimal, decimal_text, law_written_number_is_read_back, parse_unsigned, same_text, texts,
    unsigned_number,
};
use vstd::prelude::*;
use vstd::utf8::encode_utf8;

verus! {

/// The entries of the main menu.
#[derive(Clone, Copy, Debug, PartialEq, Eq, Structural)]
pub enum MenuAction {
    StartProxy,
    Login,
    Settings,
    Logout,
}

/// The ways to sign in.
#[derive(Clone, Copy, Debug, PartialEq, Eq, Structural)]
pub enum LoginAction {
    Browser,
    Headless,
}

/// The settings that the settings menu changes.
#[derive(Clone, Copy, Debug, PartialEq, Eq, Structural)]
pub enum SettingsAction {
    ReasoningEffort,
    Speed,
    SystemMessages,
    Host,
    Port,
    DetailedLogs,
    ApiKeys,
}

/// The entries of the menu of keys.
#[derive(Clone, Copy, Debug, PartialEq, Eq, Structural)]
pub enum ApiKeysAction {
    List,
    Create,
}

/// What can be done with a key.
#[derive(Clone, Copy, Debug, PartialEq, Eq, Structural)]
pub enum ApiKeyDeleteAction {
    Delete,
    Cancel,
}

impl MenuAction {
    pub open spec fn label_text(self) -> Seq<char> {
        match self {
            MenuAction::StartProxy => "Start proxy      Run the OpenAI-compatible endpoint"@,
            MenuAction::Login => "Login            Browser or headless sign-in"@,
            MenuAction::Settings => "Settings         Endpoint, speed, and reasoning"@,
            MenuAction::Logout => "Logout           Remove saved Codex auth"@,
        }
    }

    /// The line that the menu shows for this entry.
    pub fn label(self) -> (result: &'static str)
        ensures
            result@ == self.label_text(),
    {
        match self {
            MenuAction::StartProxy => "Start proxy      Run the OpenAI-compatible endpoint",
            MenuAction::Login => "Login            Browser or headless sign-in",
            MenuAction::Settings => "Settings         Endpoint, speed, and reasoning",
            MenuAction::Logout => "Logout           Remove saved Codex auth",
        }
    }
}

impl LoginAction {
    pub open spec fn label_text(self) -> Seq<char> {
        match self {
            LoginAction::Browser => "Browser          Open the sign-in page locally"@,
            LoginAction::Headless => "Headless         Device code for remote servers"@,
        }
    }

    /// The line that the menu shows for this entry.
    pub fn label(self) -> (result: &'static str)
        ensures
            result@ == self.label_text(),
    {
        match self {
            LoginAction::Browser => "Browser          Open the sign-in page locally",
            LoginAction::Headless => "Headless         Device code for remote servers",
        }
    }
}

impl ApiKeysAction {
    pub open spec fn label_text(self) -> Seq<char> {
        match self {
            ApiKeysAction::List => "List"@,
            ApiKeysAction::Create => "Create"@,
        }
    }

    /// The line that the menu shows for this entry.
    pub fn label(self) -> (result: &'static str)
        ensures
            result@ == self.label_text(),
    {
        match self {
            ApiKeysAction::List => "List",
            ApiKeysAction::Create => "Create",
        }
    }
}

impl ApiKeyDeleteAction {
    pub open spec fn label_text(self) -> Seq<char> {
        match self {
            ApiKeyDeleteAction::Delete => "Delete"@,
            ApiKeyDeleteAction::Cancel => "Cancel"@,
        }
    }

    /// The line that the menu shows for this entry.
    pub fn label(self) -> (result: &'static str)
        ensures
            result@ == self.label_text(),
    {
        match self {
            ApiKeyDeleteAction::Delete => "Delete",
            ApiKeyDeleteAction::Cancel => "Cancel",
        }
    }
}

/// The entries of the main menu, in order.
pub fn menu_actions() -> (result: Vec<MenuAction>)
    ensures
        result@ == seq![
            MenuAction::StartProxy,
            MenuAction::Login,
            MenuAction::Settings,
            MenuAction::Logout,
        ],
{
    let mut actions: Vec<MenuAction> = Vec::new();
    actions.push(MenuAction::StartProxy);
    actions.push(MenuAction::Login);
    actions.push(MenuAction::Settings);
    actions.push(MenuAction::Logout);
    actions
}

/// The ways to sign in, in order.
pub fn login_actions() -> (result: Vec<LoginAction>)
    ensures
        result@ == seq![LoginAction::Browser, LoginAction::Headless],
{
    let mut actions: Vec<LoginAction> = Vec::new();
    actions.push(LoginAction::Browser);
    actions.push(LoginAction::Headless);
    actions
}

/// What the main menu does once an entry is chosen.
#[derive(Clone, Copy, Debug, PartialEq, Eq, Structural)]
pub enum MenuStep {
    /// Serve with the settings that the menu shows, and leave the menu.
    Serve,
    /// Sign in, load the settings again, serve with them, and leave the menu.
    SignInAndServe,
    /// Let the user change the settings, and come back to the menu.
    EditSettings,
    /// Ask the user whether to sign out, and come back to the menu.
    AskToSignOut,
}

/// What the main menu does once an entry is chosen.
pub fn menu_step(action: MenuAction) -> (step: MenuStep)
    ensures
        step == (match action {
            MenuAction::StartProxy => MenuStep::Serve,
            MenuAction::Login => MenuStep::SignInAndServe,
            MenuAction::Settings => MenuStep::EditSettings,
            MenuAction::Logout => MenuStep::AskToSignOut,
        }),
{
    match action {
        MenuAction::StartProxy => MenuStep::Serve,
        MenuAction::Login => MenuStep::SignInAndServe,
        MenuAction::Settings => MenuStep::EditSettings,
        MenuAction::Logout => MenuStep::AskToSignOut,
    }
}

/// What comes of asking the user whether to sign out.
#[derive(Clone, Copy, Debug, PartialEq, Eq, Structural)]
pub enum SignOutStep {
    /// Remove the saved sign-in.
    Remove,
    /// Keep it, and say that it is kept.
    Keep,
}

/// What comes of asking the user whether to sign out.
pub fn sign_out_step(confirmed: bool) -> (step: SignOutStep)
    ensures
        step == (if confirmed {
            SignOutStep::Remove
        } else {
            SignOutStep::Keep
        }),
{
    if confirmed {
        SignOutStep::Remove
    } else {
        SignOutStep::Keep
    }
}

pub open spec fn enabled_text(enabled: bool) -> Seq<char> {
    if enabled {
        "enabled"@
    } else {
        "disabled"@
    }
}

/// The word that a user sees for a switch.
pub fn enabled_label(enabled: bool) -> (result: &'static str)
    ensures
        result@ == enabled_text(enabled),
{
    if enabled {
        "enabled"
    } else {
        "disabled"
    }
}

pub open spec fn auth_status_text(signed_in: bool) -> Seq<char> {
    if signed_in {
        "signed in"@
    } else {
        "not signed in"@
    }
}

/// The words that a user sees for whether there is a sign-in.
pub fn auth_status(signed_in: bool) -> (result: &'static str)
    ensures
        result@ == auth_status_text(signed_in),
{
    if signed_in {
        "signed in"
    } else {
        "not signed in"
    }
}

pub open spec fn endpoint_text(host: Seq<char>, port: u16) -> Seq<char> {
    "http://"@ + host + ":"@ + decimal(port as nat) + "/v1"@
}

/// The address under which clients find the proxy.
pub fn endpoint(host: &str, port: u16) -> (result: String)
    ensures
        result@ == endpoint_text(host@, port),
{
    let mut text = "http://".to_owned();
    text.append(host);
    text.append(":");
    text.append(decimal_text(port as u64).as_str());
    text.append("/v1");
    text
}

/// An entry of the settings menu.
#[derive(Debug)]
pub struct SettingsMenuItem {
    pub action: SettingsAction,
    pub label: String,
}

/// The line that the settings menu shows for a setting.
pub open spec fn setting_line(settings: ProxySettings, action: SettingsAction) -> Seq<char> {
    match action {
        SettingsAction::ReasoningEffort => "Reasoning       "@
            + settings.reasoning_effort.upstream_value(),
        SettingsAction::Speed => "Speed           "@ + settings.speed.label_text(),
        SettingsAction::SystemMessages => "System messages "@
            + settings.system_messages.label_text(),
        SettingsAction::Host => "IP / host       "@ + settings.host@,
        SettingsAction::Port => "Port            "@ + decimal(settings.port as nat),
        SettingsAction::DetailedLogs => "Detailed logs   "@ + enabled_text(settings.detailed_logs),
        SettingsAction::ApiKeys => "API keys        "@ + decimal(settings.api_keys@.len()),
    }
}

/// The settings in the order in which the settings menu shows them.
pub open spec fn settings_actions() -> Seq<SettingsAction> {
    seq![
        SettingsAction::ReasoningEffort,
        SettingsAction::Speed,
        SettingsAction::SystemMessages,
        SettingsAction::Host,
        SettingsAction::Port,
        SettingsAction::DetailedLogs,
        SettingsAction::ApiKeys,
    ]
}

fn menu_item(action: SettingsAction, name: &str, value: &str) -> (result: SettingsMenuItem)
    ensures
        result.action == action,
        result.label@ == name@ + value@,
{
    let mut label = name.to_owned();
    label.append(value);
    SettingsMenuItem { action, label }
}

/// The entries of the settings menu.
pub fn settings_menu_items(settings: &ProxySettings) -> (result: Vec<SettingsMenuItem>)
    ensures
        result@.len() == settings_actions().len(),
        forall|i: int|
            0 <= i < result@.len() ==> {
                &&& (#[trigger] result@[i]).action == settings_actions()[i]
                &&& result@[i].label@ == setting_line(*settings, settings_actions()[i])
            },
{
    let mut items: Vec<SettingsMenuItem> = Vec::new();
    items.push(
        menu_item(
            SettingsAction::ReasoningEffort,
            "Reasoning       ",
            settings.reasoning_effort.label(),
        ),
    );
    items.push(menu_item(SettingsAction::Speed, "Speed           ", settings.speed.label()));
    items.push(
        menu_item(
            SettingsAction::SystemMessages,
            "System messages ",
            settings.system_messages.label(),
        ),
    );
    items.push(menu_item(SettingsAction::Host, "IP / host       ", settings.host.as_str()));
    items.push(
        menu_item(
            SettingsAction::Port,
            "Port            ",
            decimal_text(settings.port as u64).as_str(),
        ),
    );
    items.push(
        menu_item(
            SettingsAction::DetailedLogs,
            "Detailed logs   ",
            enabled_label(settings.detailed_logs),
        ),
    );
    items.push(
        menu_item(
            SettingsAction::ApiKeys,
            "API keys        ",
            decimal_text(settings.api_keys.len() as u64).as_str(),
        ),
    );
    items
}

/// The efforts that a user chooses from.
pub open spec fn effort_list() -> Seq<ReasoningEffort> {
    seq![
        ReasoningEffort::Off,
        ReasoningEffort::Minimal,
        ReasoningEffort::Low,
        ReasoningEffort::Medium,
        ReasoningEffort::High,
        ReasoningEffort::XHigh,
    ]
}

/// The speeds that a user chooses from.
pub open spec fn speed_list() -> Seq<Speed> {
    seq![Speed::Normal, Speed::Fast]
}

/// The treatments of system messages that a user chooses from.
pub open spec fn system_messages_list() -> Seq<SystemMessages> {
    seq![SystemMessages::PassThrough, SystemMessages::Ignore]
}

/// The efforts that a user chooses from.
pub fn reasoning_effort_options() -> (result: Vec<ReasoningEffort>)
    ensures
        result@ == effort_list(),
{
    let mut options: Vec<ReasoningEffort> = Vec::new();
    options.push(ReasoningEffort::Off);
    options.push(ReasoningEffort::Minimal);
    options.push(ReasoningEffort::Low);
    options.push(ReasoningEffort::Medium);
    options.push(ReasoningEffort::High);
    options.push(ReasoningEffort::XHigh);
    options
}

/// The place of an effort among those that a user chooses from.
pub fn reasoning_effort_index(reasoning_effort: ReasoningEffort) -> (result: usize)
    ensures
        result < effort_list().len(),
        effort_list()[result as int] == reasoning_effort,
{
    match reasoning_effort {
        ReasoningEffort::Off => 0,
        ReasoningEffort::Minimal => 1,
        ReasoningEffort::Low => 2,
        ReasoningEffort::Medium => 3,
        ReasoningEffort::High => 4,
        ReasoningEffort::XHigh => 5,
    }
}

/// The speeds that a user chooses from.
pub fn speed_options() -> (result: Vec<Speed>)
    ensures
        result@ == speed_list(),
{
    let mut options: Vec<Speed> = Vec::new();
    options.push(Speed::Normal);
    options.push(Speed::Fast);
    options
}

/// The place of a speed among those that a user chooses from.
pub fn speed_index(speed: Speed) -> (result: usize)
    ensures
        result < speed_list().len(),
        speed_list()[result as int] == speed,
{
    match speed {
        Speed::Normal => 0,
        Speed::Fast => 1,
    }
}

/// The treatments of system messages that a user chooses from.
pub fn system_messages_options() -> (result: Vec<SystemMessages>)
    ensures
        result@ == system_messages_list(),
{
    let mut options: Vec<SystemMessages> = Vec::new();
    options.push(SystemMessages::PassThrough);
    options.push(SystemMessages::Ignore);
    options
}

/// The place of a treatment of system messages among those that a user chooses from.
pub fn system_messages_index(system_messages: SystemMessages) -> (result: usize)
    ensures
        result < system_messages_list().len(),
        system_messages_list()[result as int] == system_messages,
{
    match system_messages {
        SystemMessages::PassThrough => 0,
        SystemMessages::Ignore => 1,
    }
}

/// What the user has chosen in the settings menu.
#[derive(Debug)]
pub enum SettingsChange {
    ReasoningEffort(ReasoningEffort),
    Speed(Speed),
    SystemMessages(SystemMessages),
    Host(String),
    Port(u16),
    DetailedLogs(bool),
    ApiKeyCreated(String),
    ApiKeyDeleted(String),
}

/// A list of texts without those that equal `text`.
pub open spec fn without(list: Seq<Seq<char>>, text: Seq<char>) -> Seq<Seq<char>>
    decreases list.len(),
{
    if list.len() == 0 {
        Seq::empty()
    } else if list.last() == text {
        without(list.drop_last(), text)
    } else {
        without(list.drop_last(), text).push(list.last())
    }
}

/// Tells whether settings are what a change makes of other settings: one setting is changed,
/// and the others are kept.
pub open spec fn is_changed(
    before: ProxySettings,
    change: SettingsChange,
    after: ProxySettings,
) -> bool {
    match change {
        SettingsChange::ReasoningEffort(reasoning_effort) => after == (ProxySettings {
            reasoning_effort,
            ..before
        }),
        SettingsChange::Speed(speed) => after == (ProxySettings { speed, ..before }),
        SettingsChange::SystemMessages(system_messages) => after == (ProxySettings {
            system_messages,
            ..before
        }),
        SettingsChange::Host(host) => after == (ProxySettings { host, ..before }),
        SettingsChange::Port(port) => after == (ProxySettings { port, ..before }),
        SettingsChange::DetailedLogs(detailed_logs) => after == (ProxySettings {
            detailed_logs,
            ..before
        }),
        SettingsChange::ApiKeyCreated(key) => {
            &&& after == (ProxySettings { api_keys: after.api_keys, ..before })
            &&& after.api_keys@ == before.api_keys@.push(key)
        },
        SettingsChange::ApiKeyDeleted(key) => {
            &&& after == (ProxySettings { api_keys: after.api_keys, ..before })
            &&& texts(after.api_keys@) == without(texts(before.api_keys@), key@)
        },
    }
}

/// What the settings menu says once a change is made.
pub open spec fn status_text(change: SettingsChange) -> Seq<char> {
    match change {
        SettingsChange::ApiKeyCreated(_) => "API key created"@,
        SettingsChange::ApiKeyDeleted(_) => "API key deleted"@,
        _ => "Settings saved"@,
    }
}

/// What the settings menu asks the user for.
#[derive(Debug)]
pub enum SettingsPrompt {
    /// One of the efforts, with the cursor at first on the given one.
    ReasoningEffort { efforts: Vec<ReasoningEffort>, cursor: usize },
    Speed { speeds: Vec<Speed>, cursor: usize },
    SystemMessages { treatments: Vec<SystemMessages>, cursor: usize },
    /// A text, at first the given one.
    Host { initial: String },
    Port { initial: String },
    /// Yes or no, by default the given one.
    DetailedLogs { default: bool },
    /// What to do with the keys.
    ApiKeys,
}

/// The settings menu.
#[derive(Debug)]
pub struct SettingsMenu {
    pub settings: ProxySettings,
    /// What the menu says of the last change.
    pub status_message: Option<&'static str>,
}

/// The text of an optional message.
pub open spec fn message_model(message: Option<&'static str>) -> Option<Seq<char>> {
    match message {
        Some(text) => Some(text@),
        None => None,
    }
}

impl SettingsMenu {
    pub fn new(settings: ProxySettings) -> (result: Self)
        ensures
            result.settings == settings,
            result.status_message is None,
    {
        SettingsMenu { settings, status_message: None }
    }

    /// What to ask the user for, once an entry is chosen. The cursor stands on, and the text and
    /// the default are, what the settings hold.
    pub fn prompt(&self, action: SettingsAction) -> (result: SettingsPrompt)
        ensures
            match (action, result) {
                (
                    SettingsAction::ReasoningEffort,
                    SettingsPrompt::ReasoningEffort { efforts, cursor },
                ) => efforts@ == effort_list() && cursor < efforts@.len() && efforts@[cursor as int]
                    == self.settings.reasoning_effort,
                (SettingsAction::Speed, SettingsPrompt::Speed { speeds, cursor }) => speeds@
                    == speed_list() && cursor < speeds@.len() && speeds@[cursor as int]
                    == self.settings.speed,
                (
                    SettingsAction::SystemMessages,
                    SettingsPrompt::SystemMessages { treatments, cursor },
                ) => treatments@ == system_messages_list() && cursor < treatments@.len()
                    && treatments@[cursor as int] == self.settings.system_messages,
                (SettingsAction::Host, SettingsPrompt::Host { initial }) => initial@
                    == self.settings.host@,
                (SettingsAction::Port, SettingsPrompt::Port { initial }) => initial@ == decimal(
                    self.settings.port as nat,
                ),
                (SettingsAction::DetailedLogs, SettingsPrompt::DetailedLogs { default }) => default
                    == self.settings.detailed_logs,
                (SettingsAction::ApiKeys, SettingsPrompt::ApiKeys) => true,
                _ => false,
            },
    {
        match action {
            SettingsAction::ReasoningEffort => SettingsPrompt::ReasoningEffort {
                efforts: reasoning_effort_options(),
                cursor: reasoning_effort_index(self.settings.reasoning_effort),
            },
            SettingsAction::Speed => SettingsPrompt::Speed {
                speeds: speed_options(),
                cursor: speed_index(self.settings.speed),
            },
            SettingsAction::SystemMessages => SettingsPrompt::SystemMessages {
                treatments: system_messages_options(),
                cursor: system_messages_index(self.settings.system_messages),
            },
            SettingsAction::Host => SettingsPrompt::Host { initial: self.settings.host.clone() },
            SettingsAction::Port => SettingsPrompt::Port {
                initial: decimal_text(self.settings.port as u64),
            },
            SettingsAction::DetailedLogs => SettingsPrompt::DetailedLogs {
                default: self.settings.detailed_logs,
            },
            SettingsAction::ApiKeys => SettingsPrompt::ApiKeys,
        }
    }

    /// Takes in what the user has chosen, where they have chosen something; tells whether the
    /// settings are to be saved.
    pub fn apply(&mut self, change: Option<SettingsChange>) -> (save: bool)
        ensures
            match change {
                Some(change) => {
                    &&& save
                    &&& is_changed(old(self).settings, change, final(self).settings)
                    &&& message_model(final(self).status_message) == Some(status_text(change))
                },
                None => !save && *final(self) == *old(self),
            },
    {
        let change = match change {
            Some(change) => change,
            None => {
                return false;
            },
        };
        self.status_message = Some("Settings saved");
        match change {
            SettingsChange::ReasoningEffort(reasoning_effort) => {
                self.settings.reasoning_effort = reasoning_effort;
            },
            SettingsChange::Speed(speed) => {
                self.settings.speed = speed;
            },
            SettingsChange::SystemMessages(system_messages) => {
                self.settings.system_messages = system_messages;
            },
            SettingsChange::Host(host) => {
                self.settings.host = host;
            },
            SettingsChange::Port(port) => {
                self.settings.port = port;
            },
            SettingsChange::DetailedLogs(detailed_logs) => {
                self.settings.detailed_logs = detailed_logs;
            },
            SettingsChange::ApiKeyCreated(key) => {
                self.settings.api_keys.push(key);
                self.status_message = Some("API key created");
            },
            SettingsChange::ApiKeyDeleted(key) => {
                self.settings.api_keys = keys_without(&self.settings.api_keys, key.as_str());
                self.status_message = Some("API key deleted");
            },
        }
        true
    }
}

fn keys_without(keys: &Vec<String>, key: &str) -> (result: Vec<String>)
    ensures
        texts(result@) == without(texts(keys@), key@),
{
    let mut kept: Vec<String> = Vec::new();
    let mut i: usize = 0;
    while i < keys.len()
        invariant
            i <= keys@.len(),
            texts(kept@) == without(texts(keys@).take(i as int), key@),
        decreases keys@.len() - i,
    {
        let ghost all = texts(keys@);
        assert(all.take(i + 1).drop_last() =~= all.take(i as int));
        if !same_text(keys[i].as_str(), key) {
            let ghost before = texts(kept@);
            kept.push(keys[i].clone());
            assert(texts(kept@) =~= before.push(keys@[i as int]@));
        }
        i += 1;
    }
    assert(texts(keys@).take(keys@.len() as int) =~= texts(keys@));
    kept
}

proof fn lemma_without(list: Seq<Seq<char>>, text: Seq<char>)
    ensures
        !without(list, text).contains(text),
        forall|other: Seq<char>|
            other != text ==> (#[trigger] without(list, text).contains(other) <==> list.contains(
                other,
            )),
    decreases list.len(),
{
    if list.len() > 0 {
        let before = list.drop_last();
        lemma_without(before, text);
        let kept = without(list, text);
        assert forall|other: Seq<char>| other != text implies (#[trigger] kept.contains(other)
            <==> list.contains(other)) by {
            if list.contains(other) {
                let i = choose|i: int| 0 <= i < list.len() && list[i] == other;
                if i < before.len() {
                    assert(before[i] == other);
                    assert(without(before, text).contains(other));
                    let j = choose|j: int|
                        0 <= j < without(before, text).len() && without(before, text)[j] == other;
                    assert(kept[j] == other);
                } else {
                    assert(kept[kept.len() - 1] == other);
                }
            }
            if kept.contains(other) {
                let j = choose|j: int| 0 <= j < kept.len() && kept[j] == other;
                if j < without(before, text).len() {
                    assert(without(before, text)[j] == other);
                    assert(without(before, text).contains(other));
                    let i = choose|i: int| 0 <= i < before.len() && before[i] == other;
                    assert(list[i] == other);
                } else {
                    assert(list[list.len() - 1] == other);
                }
            }
        }
        if kept.contains(text) {
            let j = choose|j: int| 0 <= j < kept.len() && kept[j] == text;
            if j < without(before, text).len() {
                assert(without(before, text)[j] == text);
                assert(without(before, text).contains(text));
            }
        }
    }
}

/// A key that is created lets its holder in at once, and shuts nobody out.
pub proof fn law_created_key_is_admitted(
    before: ProxySettings,
    key: String,
    after: ProxySettings,
    headers: Map<Seq<char>, Seq<(Seq<u8>, bool)>>,
)
    requires
        is_changed(before, SettingsChange::ApiKeyCreated(key), after),
    ensures
        bearer_key(headers) == Some(key@) ==> is_admitted(
            headers,
            texts(after.api_keys@),
        ),
        is_admitted(headers, texts(before.api_keys@)) ==> is_admitted(
            headers,
            texts(after.api_keys@),
        ),
{
    assert(texts(after.api_keys@) =~= texts(before.api_keys@).push(key@));
    law_more_keys_admit_more(headers, texts(before.api_keys@), key@);
}

/// A key that is deleted lets nobody in any more, and nobody else is shut out or let in.
pub proof fn law_deleted_key_is_refused(
    before: ProxySettings,
    key: String,
    after: ProxySettings,
    headers: Map<Seq<char>, Seq<(Seq<u8>, bool)>>,
)
    requires
        is_changed(before, SettingsChange::ApiKeyDeleted(key), after),
    ensures
        is_admitted(headers, texts(after.api_keys@)) <==> (
        is_admitted(headers, texts(before.api_keys@))
            && bearer_key(headers) != Some(key@)),
{
    lemma_without(texts(before.api_keys@), key@);
}

/// Makes a key for clients.
pub fn new_proxy_api_key() -> (result: String)
    ensures
        is_new_key(result@),
{
    proof {
        reveal_strlit("cp_");
    }
    random_name("cp_", 32)
}

/// The entries of the menu of keys, in order.
pub fn api_keys_actions() -> (result: Vec<ApiKeysAction>)
    ensures
        result@ == seq![ApiKeysAction::List, ApiKeysAction::Create],
{
    let mut actions: Vec<ApiKeysAction> = Vec::new();
    actions.push(ApiKeysAction::List);
    actions.push(ApiKeysAction::Create);
    actions
}

/// What can be done with a key, in order.
pub fn api_key_delete_actions() -> (result: Vec<ApiKeyDeleteAction>)
    ensures
        result@ == seq![ApiKeyDeleteAction::Delete, ApiKeyDeleteAction::Cancel],
{
    let mut actions: Vec<ApiKeyDeleteAction> = Vec::new();
    actions.push(ApiKeyDeleteAction::Delete);
    actions.push(ApiKeyDeleteAction::Cancel);
    actions
}

/// What happens in the menu of keys. `None` stands for a user who turns back.
#[derive(Debug)]
pub enum ApiKeysEvent {
    /// An entry of the menu is chosen.
    Chosen(Option<ApiKeysAction>),
    /// The user has read that there are no keys.
    ToldOfNone,
    /// A key of the list is chosen.
    Picked(Option<String>),
    /// The user has said what to do with the key.
    Answered { key: String, answer: Option<ApiKeyDeleteAction> },
    /// The user has read the new key.
    Shown { key: String },
}

/// What the menu of keys does next.
#[derive(Debug)]
pub enum ApiKeysStep {
    /// Show the menu.
    ShowMenu,
    /// Say that there are no keys.
    TellOfNone,
    /// Let the user choose one of these keys.
    Pick(Vec<String>),
    /// Ask what to do with the key.
    Ask { key: String },
    /// Show the user the new key.
    Show { key: String },
    /// Leave the menu with this change, where there is one.
    Leave(Option<SettingsChange>),
}

/// Tells whether a text is a key that `new_proxy_api_key` makes.
pub open spec fn is_new_key(key: Seq<char>) -> bool {
    &&& is_random_name(key, "cp_"@, 32)
    &&& key.len() == 46
    &&& is_url_safe_text(key.skip(3))
    &&& is_header_text(key)
}

/// Tells whether a step is what the menu of keys does when something happens.
pub open spec fn is_api_keys_step(
    step: ApiKeysStep,
    api_keys: Seq<String>,
    event: ApiKeysEvent,
) -> bool {
    match event {
        ApiKeysEvent::Chosen(None) => step == ApiKeysStep::Leave(None),
        ApiKeysEvent::Chosen(Some(ApiKeysAction::List)) => if api_keys.len() == 0 {
            step is TellOfNone
        } else {
            step is Pick && texts(step->Pick_0@) == texts(api_keys)
        },
        ApiKeysEvent::Chosen(Some(ApiKeysAction::Create)) => step is Show && is_new_key(
            step->Show_key@,
        ),
        ApiKeysEvent::ToldOfNone => step is ShowMenu,
        ApiKeysEvent::Picked(None) => step is ShowMenu,
        ApiKeysEvent::Picked(Some(picked)) => step == (ApiKeysStep::Ask { key: picked }),
        ApiKeysEvent::Answered { key, answer } => if answer == Some(ApiKeyDeleteAction::Delete) {
            step == ApiKeysStep::Leave(Some(SettingsChange::ApiKeyDeleted(key)))
        } else {
            step is ShowMenu
        },
        ApiKeysEvent::Shown { key } => step == ApiKeysStep::Leave(
            Some(SettingsChange::ApiKeyCreated(key)),
        ),
    }
}

fn key_list(api_keys: &Vec<String>) -> (result: Vec<String>)
    ensures
        texts(result@) == texts(api_keys@),
{
    let mut list: Vec<String> = Vec::new();
    let mut i: usize = 0;
    while i < api_keys.len()
        invariant
            i <= api_keys@.len(),
            texts(list@) == texts(api_keys@).take(i as int),
        decreases api_keys@.len() - i,
    {
        let ghost before = texts(list@);
        list.push(api_keys[i].clone());
        assert(texts(list@) =~= before.push(texts(api_keys@)[i as int]));
        i += 1;
        assert(texts(list@) =~= texts(api_keys@).take(i as int));
    }
    assert(texts(list@) =~= texts(api_keys@));
    list
}

/// What the menu of keys does when something happens.
pub fn api_keys_step(settings: &ProxySettings, event: ApiKeysEvent) -> (step: ApiKeysStep)
    ensures
        is_api_keys_step(step, settings.api_keys@, event),
{
    match event {
        ApiKeysEvent::Chosen(None) => ApiKeysStep::Leave(None),
        ApiKeysEvent::Chosen(Some(ApiKeysAction::List)) => if settings.api_keys.len() == 0 {
            ApiKeysStep::TellOfNone
        } else {
            ApiKeysStep::Pick(key_list(&settings.api_keys))
        },
        ApiKeysEvent::Chosen(Some(ApiKeysAction::Create)) => ApiKeysStep::Show {
            key: new_proxy_api_key(),
        },
        ApiKeysEvent::ToldOfNone => ApiKeysStep::ShowMenu,
        ApiKeysEvent::Picked(None) => ApiKeysStep::ShowMenu,
        ApiKeysEvent::Picked(Some(key)) => ApiKeysStep::Ask { key },
        ApiKeysEvent::Answered { key, answer } => match answer {
            Some(ApiKeyDeleteAction::Delete) => ApiKeysStep::Leave(
                Some(SettingsChange::ApiKeyDeleted(key)),
            ),
            Some(ApiKeyDeleteAction::Cancel) | None => ApiKeysStep::ShowMenu,
        },
        ApiKeysEvent::Shown { key } => ApiKeysStep::Leave(
            Some(SettingsChange::ApiKeyCreated(key)),
        ),
    }
}

/// What `str::parse` says is wrong with a text that is no number from 0 to 65535.
pub uninterp spec fn port_fault(text: Seq<char>) -> Seq<char>;

/// Calls `str::parse` for `u16` on a text that is no such number, and hands on the description
/// of its error; claims that the description depends on the text alone.
#[verifier::external_body]
fn port_error(text: &str) -> (result: String)
    requires
        unsigned_number(text@, 65535) is None,
    ensures
        result@ == port_fault(text@),
{
    text.parse::<u16>().err().map(|error| error.to_string()).unwrap_or_default()
}

/// Reads the port that the user has entered, or tells what is wrong with it.
pub fn parse_port(port_input: &str) -> (result: Result<u16, String>)
    ensures
        match result {
            Ok(port) => unsigned_number(port_input@, 65535) == Some(port as nat),
            Err(message) => {
                &&& unsigned_number(port_input@, 65535) is None
                &&& message@ == "invalid port `"@ + port_input@ + "`: "@ + port_fault(port_input@)
            },
        },
{
    match parse_unsigned(port_input, 65535) {
        Some(port) => Ok(port as u16),
        None => {
            let mut message = "invalid port `".to_owned();
            message.append(port_input);
            message.append("`: ");
            message.append(port_error(port_input).as_str());
            Err(message)
        },
    }
}

/// A line of a report: what it is about, and what it says.
#[derive(Debug)]
pub struct Field {
    pub label: &'static str,
    pub value: String,
}

/// The texts of the lines of a report.
pub open spec fn field_texts(fields: Seq<Field>) -> Seq<(Seq<char>, Seq<char>)> {
    Seq::new(fields.len(), |i: int| (fields[i].label@, fields[i].value@))
}

fn field(label: &'static str, value: &str) -> (result: Field)
    ensures
        result.label@ == label@,
        result.value@ == value@,
{
    Field { label, value: value.to_owned() }
}

/// What is shown of the settings above the main menu and when the proxy starts.
pub open spec fn settings_report(settings: ProxySettings) -> Seq<(Seq<char>, Seq<char>)> {
    seq![
        ("Reasoning"@, settings.reasoning_effort.upstream_value()),
        ("Speed"@, settings.speed.label_text()),
        ("System messages"@, settings.system_messages.label_text()),
        ("Logs"@, enabled_text(settings.detailed_logs)),
    ]
}

fn push_settings_report(fields: &mut Vec<Field>, settings: &ProxySettings)
    ensures
        field_texts(final(fields)@) == field_texts(old(fields)@) + settings_report(*settings),
{
    let ghost before = field_texts(fields@);
    fields.push(field("Reasoning", settings.reasoning_effort.label()));
    fields.push(field("Speed", settings.speed.label()));
    fields.push(field("System messages", settings.system_messages.label()));
    fields.push(field("Logs", enabled_label(settings.detailed_logs)));
    assert(field_texts(fields@) =~= before + settings_report(*settings));
}

/// What is shown above the main menu.
pub fn menu_header(settings: &ProxySettings, signed_in: bool) -> (result: Vec<Field>)
    ensures
        field_texts(result@) == seq![
            ("Endpoint"@, endpoint_text(settings.host@, settings.port)),
            ("Auth"@, auth_status_text(signed_in)),
        ] + settings_report(*settings),
{
    let mut fields: Vec<Field> = Vec::new();
    fields.push(field("Endpoint", endpoint(settings.host.as_str(), settings.port).as_str()));
    fields.push(field("Auth", auth_status(signed_in)));
    assert(field_texts(fields@) =~= seq![
        ("Endpoint"@, endpoint_text(settings.host@, settings.port)),
        ("Auth"@, auth_status_text(signed_in)),
    ]);
    push_settings_report(&mut fields, settings);
    fields
}

/// What is shown when the proxy starts.
pub fn starting_header(settings: &ProxySettings, host: &str, port: u16) -> (result: Vec<Field>)
    ensures
        field_texts(result@) == seq![("Endpoint"@, endpoint_text(host@, port))] + settings_report(
            *settings,
        ),
{
    let mut fields: Vec<Field> = Vec::new();
    fields.push(field("Endpoint", endpoint(host, port).as_str()));
    assert(field_texts(fields@) =~= seq![("Endpoint"@, endpoint_text(host@, port))]);
    push_settings_report(&mut fields, settings);
    fields
}

impl SettingsMenu {
    /// What is shown above the settings menu, given the name of the file that holds the
    /// settings.
    pub fn header(&self, settings_file: &str, signed_in: bool) -> (result: Vec<Field>)
        ensures
            field_texts(result@) == seq![
                ("Endpoint"@, endpoint_text(self.settings.host@, self.settings.port)),
                ("Auth"@, auth_status_text(signed_in)),
                ("File"@, settings_file@),
                ("Logs"@, enabled_text(self.settings.detailed_logs)),
            ] + match self.status_message {
                Some(message) => seq![("Status"@, message@)],
                None => Seq::empty(),
            },
    {
        let mut fields: Vec<Field> = Vec::new();
        fields.push(
            field("Endpoint", endpoint(self.settings.host.as_str(), self.settings.port).as_str()),
        );
        fields.push(field("Auth", auth_status(signed_in)));
        fields.push(field("File", settings_file));
        fields.push(field("Logs", enabled_label(self.settings.detailed_logs)));
        if let Some(message) = self.status_message {
            fields.push(field("Status", message));
        }
        fields
    }
}

/// What is shown of the saved sign-in, given the name of the file that holds it.
pub open spec fn auth_report_texts(
    auth_file: Seq<char>,
    saved: Result<SavedAuth, ProxyError>,
) -> Seq<(Seq<char>, Seq<char>)> {
    match saved {
        Ok(saved_auth) => seq![
            ("File"@, auth_file),
            ("Status"@, "signed in"@),
            ("Access token"@, "saved"@),
            ("Refresh token"@, "saved"@),
            ("Expires"@, decimal(saved_auth.expires_at_millis as nat)),
            (
                "Account"@,
                match saved_auth.account_id {
                    Some(account_id) => account_id@,
                    None => "unknown"@,
                },
            ),
        ],
        Err(error) => seq![("File"@, auth_file), ("Status"@, error.description())],
    }
}

/// What is shown of the saved sign-in, given the name of the file that holds it.
pub fn auth_report(auth_file: &str, saved: &Result<SavedAuth, ProxyError>) -> (result: Vec<Field>)
    ensures
        field_texts(result@) == auth_report_texts(auth_file@, *saved),
{
    let mut fields: Vec<Field> = Vec::new();
    fields.push(field("File", auth_file));
    match saved {
        Ok(saved_auth) => {
            fields.push(field("Status", "signed in"));
            fields.push(field("Access token", "saved"));
            fields.push(field("Refresh token", "saved"));
            fields.push(
                field("Expires", decimal_text(saved_auth.expires_at_millis).as_str()),
            );
            match &saved_auth.account_id {
                Some(account_id) => {
                    fields.push(field("Account", account_id.as_str()));
                },
                None => {
                    fields.push(field("Account", "unknown"));
                },
            }
        },
        Err(error) => {
            fields.push(field("Status", error.message().as_str()));
        },
    }
    assert(field_texts(fields@) =~= auth_report_texts(auth_file@, *saved));
    fields
}

/// What is shown once a sign-in is saved.
pub fn login_report(auth_file: &str, account_id: Option<&str>) -> (result: Vec<Field>)
    ensures
        field_texts(result@) == seq![("File"@, auth_file@)] + match account_id {
            Some(account_id) => seq![("Account"@, account_id@)],
            None => Seq::empty(),
        },
{
    let mut fields: Vec<Field> = Vec::new();
    fields.push(field("File", auth_file));
    if let Some(account_id) = account_id {
        fields.push(field("Account", account_id));
    }
    fields
}

/// What is shown once the user has signed out.
pub fn logout_message(deleted: bool) -> (result: &'static str)
    ensures
        result@ == (if deleted {
            "Removed auth file"@
        } else {
            "No saved auth found"@
        }),
{
    if deleted {
        "Removed auth file"
    } else {
        "No saved auth found"
    }
}

/// The colors of the terminal.
#[derive(Clone, Copy, Debug, PartialEq, Eq, Structural)]
pub enum FleetyTerminalColor {
    Primary,
    Secondary,
    Muted,
}

impl FleetyTerminalColor {
    /// How bright a color is; all of them are shades of gray.
    pub open spec fn shade(self) -> nat {
        match self {
            FleetyTerminalColor::Primary => 244,
            FleetyTerminalColor::Secondary => 184,
            FleetyTerminalColor::Muted => 133,
        }
    }
}

/// A text in a color, as a terminal reads it.
pub open spec fn painted(text: Seq<char>, color: FleetyTerminalColor) -> Seq<char> {
    let shade = decimal(color.shade());
    "\x1b[38;2;"@ + shade + ";"@ + shade + ";"@ + shade + "m"@ + text + "\x1b[0m"@
}

/// Writes a text in a color.
pub fn paint(value: &str, color: FleetyTerminalColor) -> (result: String)
    ensures
        result@ == painted(value@, color),
{
    let shade: u64 = match color {
        FleetyTerminalColor::Primary => 244,
        FleetyTerminalColor::Secondary => 184,
        FleetyTerminalColor::Muted => 133,
    };
    let digits = decimal_text(shade);
    let mut text = "\x1b[38;2;".to_owned();
    text.append(digits.as_str());
    text.append(";");
    text.append(digits.as_str());
    text.append(";");
    text.append(digits.as_str());
    text.append("m");
    text.append(value);
    text.append("\x1b[0m");
    text
}

/// A character so many times.
pub open spec fn repeated(c: char, count: nat) -> Seq<char> {
    Seq::new(count, |i: int| c)
}

/// A text with spaces behind it, up to a width.
pub open spec fn padded(text: Seq<char>, width: nat) -> Seq<char> {
    if text.len() < width {
        text + repeated(' ', (width - text.len()) as nat)
    } else {
        text
    }
}

fn push_repeated(text: &mut String, c: char, count: usize)
    ensures
        final(text)@ == old(text)@ + repeated(c, count as nat),
{
    let ghost before = text@;
    let mut i: usize = 0;
    assert(before + repeated(c, 0) =~= before);
    while i < count
        invariant
            i <= count,
            text@ == before + repeated(c, i as nat),
        decreases count - i,
    {
        text.push(c);
        i += 1;
        assert(text@ =~= before + repeated(c, i as nat));
    }
}

/// Writes a line of a report.
pub fn field_line(label: &str, value: &str) -> (result: String)
    ensures
        result@ == painted(padded(label@, 10), FleetyTerminalColor::Muted) + " "@ + painted(
            value@,
            FleetyTerminalColor::Secondary,
        ),
{
    let mut name = label.to_owned();
    let length = label.unicode_len();
    if length < 10 {
        push_repeated(&mut name, ' ', 10 - length);
    }
    let mut line = paint(name.as_str(), FleetyTerminalColor::Muted);
    line.append(" ");
    line.append(paint(value, FleetyTerminalColor::Secondary).as_str());
    line
}

/// Writes a title with a line of hyphens under it, as long as the title has bytes.
pub fn section_header(title: &str) -> (result: String)
    ensures
        result@ == "\n"@ + painted(title@, FleetyTerminalColor::Primary) + "\n"@ + painted(
            repeated('-', encode_utf8(title@).len()),
            FleetyTerminalColor::Muted,
        ),
{
    let mut rule = String::new();
    push_repeated(&mut rule, '-', title.as_bytes().len());
    assert(rule@ =~= repeated('-', encode_utf8(title@).len()));
    let mut text = "\n".to_owned();
    text.append(paint(title, FleetyTerminalColor::Primary).as_str());
    text.append("\n");
    text.append(paint(rule.as_str(), FleetyTerminalColor::Muted).as_str());
    text
}

/// A user who leaves the port as the menu shows it keeps the port.
pub proof fn law_shown_port_is_kept(port: u16)
    ensures
        unsigned_number(decimal(port as nat), 65535) == Some(port as nat),
{
    law_written_number_is_read_back(port as nat, 65535);
}

} // verus!
