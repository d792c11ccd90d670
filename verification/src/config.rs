//! The settings of the proxy.

use crate::error::{FileFault, FileRead, FileWrite, ProxyError};
use crate::text::same_text;
use std::path::PathBuf;
use vstd::prelude::*;

verus! {

/// How much reasoning the upstream model is asked for.
#[derive(Clone, Copy, Debug, Default, PartialEq, Eq, Structural)]
pub enum ReasoningEffort {
    Off,
    Minimal,
    Low,
    #[default]
    Medium,
    High,
    XHigh,
}

/// Whether requests ask for the priority service by default.
#[derive(Clone, Copy, Debug, Default, PartialEq, Eq, Structural)]
pub enum Speed {
    #[default]
    Normal,
    Fast,
}

/// What is done with the system messages of a client.
#[derive(Clone, Copy, Debug, Default, PartialEq, Eq, Structural)]
pub enum SystemMessages {
    #[default]
    PassThrough,
    Ignore,
}

/// The settings of the proxy.
#[derive(Clone, Debug)]
pub struct ProxySettings {
    pub reasoning_effort: ReasoningEffort,
    pub speed: Speed,
    pub system_messages: SystemMessages,
    pub system_prompt_file: String,
    /// The address to listen on.
    pub host: String,
    pub port: u16,
    pub detailed_logs: bool,
    /// Whether the priority service may be asked for at all.
    pub priority_service: bool,
    /// The keys that clients may use.
    pub api_keys: Vec<String>,
}

impl ProxySettings {
    /// The settings of a proxy that nobody has configured.
    pub open spec fn is_default(self) -> bool {
        &&& self.reasoning_effort == ReasoningEffort::Medium
        &&& self.speed == Speed::Normal
        &&& self.system_messages == SystemMessages::PassThrough
        &&& self.system_prompt_file@ == "system.md"@
        &&& self.host@ == "0.0.0.0"@
        &&& self.port == 8080
        &&& !self.detailed_logs
        &&& self.priority_service
        &&& self.api_keys@.len() == 0
    }

    /// The file that holds the system prompt to inject, where one is injected.
    pub fn injected_prompt_file(&self) -> (result: Option<&str>)
        ensures
            match result {
                Some(file) => self.system_messages == SystemMessages::Ignore && file@
                    == self.system_prompt_file@,
                None => self.system_messages != SystemMessages::Ignore,
            },
    {
        match self.system_messages {
            SystemMessages::Ignore => Some(self.system_prompt_file.as_str()),
            SystemMessages::PassThrough => None,
        }
    }

    /// The system prompt to inject, given what came of reading the file that holds it: its
    /// contents, or why it could not be read.
    pub fn injected_system_prompt(&self, prompt_read: Result<String, String>) -> (result: Result<
        Option<String>,
        ProxyError,
    >)
        ensures
            self.system_messages != SystemMessages::Ignore ==> result == Ok::<
                Option<String>,
                ProxyError,
            >(None),
            self.system_messages == SystemMessages::Ignore ==> match (prompt_read, result) {
                (Ok(prompt), Ok(injected)) => injected == Some(prompt),
                (Err(reason), Err(ProxyError::ReadSystemPrompt { path, source })) => path@
                    == self.system_prompt_file@ && source == reason,
                _ => false,
            },
    {
        match self.injected_prompt_file() {
            None => Ok(None),
            Some(file) => match prompt_read {
                Ok(prompt) => Ok(Some(prompt)),
                Err(source) => Err(ProxyError::ReadSystemPrompt { path: file.to_owned(), source }),
            },
        }
    }
}

impl Default for ProxySettings {
    fn default() -> (result: Self)
        ensures
            result.is_default(),
    {
        ProxySettings {
            reasoning_effort: ReasoningEffort::Medium,
            speed: Speed::Normal,
            system_messages: SystemMessages::PassThrough,
            system_prompt_file: "system.md".to_owned(),
            host: "0.0.0.0".to_owned(),
            port: 8080,
            detailed_logs: false,
            priority_service: true,
            api_keys: Vec::new(),
        }
    }
}

impl ReasoningEffort {
    /// The word that stands for this effort in an upstream request.
    pub open spec fn upstream_value(self) -> Seq<char> {
        match self {
            ReasoningEffort::Off => "none"@,
            ReasoningEffort::Minimal => "minimal"@,
            ReasoningEffort::Low => "low"@,
            ReasoningEffort::Medium => "medium"@,
            ReasoningEffort::High => "high"@,
            ReasoningEffort::XHigh => "xhigh"@,
        }
    }

    /// The word that stands for this effort in an upstream request.
    pub fn as_upstream_value(self) -> (result: &'static str)
        ensures
            result@ == self.upstream_value(),
    {
        match self {
            ReasoningEffort::Off => "none",
            ReasoningEffort::Minimal => "minimal",
            ReasoningEffort::Low => "low",
            ReasoningEffort::Medium => "medium",
            ReasoningEffort::High => "high",
            ReasoningEffort::XHigh => "xhigh",
        }
    }

    /// The effort that a word stands for, where it stands for one.
    pub fn from_upstream_value(word: &str) -> (result: Option<Self>)
        ensures
            is_read_effort(result, word@),
    {
        if same_text(word, "none") {
            Some(ReasoningEffort::Off)
        } else if same_text(word, "minimal") {
            Some(ReasoningEffort::Minimal)
        } else if same_text(word, "low") {
            Some(ReasoningEffort::Low)
        } else if same_text(word, "medium") {
            Some(ReasoningEffort::Medium)
        } else if same_text(word, "high") {
            Some(ReasoningEffort::High)
        } else if same_text(word, "xhigh") {
            Some(ReasoningEffort::XHigh)
        } else {
            None
        }
    }

    /// The word that a user sees for this effort.
    pub fn label(self) -> (result: &'static str)
        ensures
            result@ == self.upstream_value(),
    {
        self.as_upstream_value()
    }
}

/// Different efforts have different words.
pub proof fn law_efforts_have_their_own_words(a: ReasoningEffort, b: ReasoningEffort)
    requires
        a.upstream_value() == b.upstream_value(),
    ensures
        a == b,
{
    reveal_strlit("none");
    reveal_strlit("minimal");
    reveal_strlit("low");
    reveal_strlit("medium");
    reveal_strlit("high");
    reveal_strlit("xhigh");
    assert("none"@.len() == 4 && "high"@.len() == 4);
    assert("none"@[0] == 'n' && "high"@[0] == 'h');
    assert("minimal"@.len() == 7 && "low"@.len() == 3 && "medium"@.len() == 6);
    assert("xhigh"@.len() == 5);
}

/// Tells whether an effort is what a word is read as.
pub open spec fn is_read_effort(read: Option<ReasoningEffort>, word: Seq<char>) -> bool {
    match read {
        Some(effort) => word == effort.upstream_value(),
        None => forall|effort: ReasoningEffort| word != #[trigger] effort.upstream_value(),
    }
}

/// The word of an effort is read back as that effort.
pub proof fn law_efforts_are_read_back(effort: ReasoningEffort, read: Option<ReasoningEffort>)
    requires
        is_read_effort(read, effort.upstream_value()),
    ensures
        read == Some(effort),
{
    if read is Some {
        law_efforts_have_their_own_words(read->0, effort);
    }
}

impl Speed {
    pub open spec fn label_text(self) -> Seq<char> {
        match self {
            Speed::Normal => "normal"@,
            Speed::Fast => "fast"@,
        }
    }

    /// The word that a user sees for this speed.
    pub fn label(self) -> (result: &'static str)
        ensures
            result@ == self.label_text(),
    {
        match self {
            Speed::Normal => "normal",
            Speed::Fast => "fast",
        }
    }
}

impl SystemMessages {
    pub open spec fn label_text(self) -> Seq<char> {
        match self {
            SystemMessages::PassThrough => "pass through"@,
            SystemMessages::Ignore => "ignore"@,
        }
    }

    /// The words that a user sees for this treatment.
    pub fn label(self) -> (result: &'static str)
        ensures
            result@ == self.label_text(),
    {
        match self {
            SystemMessages::PassThrough => "pass through",
            SystemMessages::Ignore => "ignore",
        }
    }
}

/// A path of the file system.
#[verifier::external_type_specification]
#[verifier::external_body]
pub struct ExPathBuf(std::path::PathBuf);

/// `PathBuf::clone` gives the same path.
pub assume_specification[ <std::path::PathBuf as Clone>::clone ](
    path: &std::path::PathBuf,
) -> (result: std::path::PathBuf)
    ensures
        result == *path,
;

/// Keeps the settings in a file.
pub struct SettingsManager {
    pub(crate) settings_file: PathBuf,
}

impl SettingsManager {
    /// The file that the settings are kept in.
    pub closed spec fn file(self) -> PathBuf {
        self.settings_file
    }

    pub fn new(settings_file: PathBuf) -> (result: Self)
        ensures
            result.file() == settings_file,
    {
        SettingsManager { settings_file }
    }

    /// The settings, given what came of reading their file. Where there is no file, they are
    /// the default ones.
    pub fn load(&self, settings_read: FileRead<ProxySettings>) -> (result: Result<
        ProxySettings,
        ProxyError,
    >)
        ensures
            match (settings_read, result) {
                (FileRead::Parsed(settings), Ok(loaded)) => loaded == settings,
                (FileRead::Failed(FileFault::NotFound), Ok(loaded)) => loaded.is_default(),
                (
                    FileRead::Failed(FileFault::Other(reason)),
                    Err(ProxyError::ReadSettings(source)),
                ) => source == reason,
                (FileRead::Malformed(reason), Err(ProxyError::ParseSettings(source))) => source
                    == reason,
                _ => false,
            },
    {
        match settings_read {
            FileRead::Parsed(settings) => Ok(settings),
            FileRead::Failed(FileFault::NotFound) => Ok(ProxySettings::default()),
            FileRead::Failed(FileFault::Other(source)) => Err(ProxyError::ReadSettings(source)),
            FileRead::Malformed(source) => Err(ProxyError::ParseSettings(source)),
        }
    }

    /// What came of saving the settings, given what came of writing their file.
    pub fn save(&self, settings_write: FileWrite) -> (result: Result<(), ProxyError>)
        ensures
            match (settings_write, result) {
                (FileWrite::Written, Ok(_)) => true,
                (FileWrite::Unwritable(reason), Err(ProxyError::ParseSettings(source))) => source
                    == reason,
                (FileWrite::Failed(reason), Err(ProxyError::WriteSettings(source))) => source
                    == reason,
                _ => false,
            },
    {
        match settings_write {
            FileWrite::Written => Ok(()),
            FileWrite::Unwritable(source) => Err(ProxyError::ParseSettings(source)),
            FileWrite::Failed(source) => Err(ProxyError::WriteSettings(source)),
        }
    }

    pub fn settings_file(&self) -> (result: &PathBuf)
        ensures
            *result == self.file(),
    {
        &self.settings_file
    }
}

} // verus!
