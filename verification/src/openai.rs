//! The requests and the answers of the OpenAI-compatible endpoint.

use crate::clock::{epoch_seconds, is_clock_reading, now_seconds};
use crate::codex::{CodexReasoning, CodexRequest};
use crate::config::{ProxySettings, ReasoningEffort, Speed};
use crate::error::ProxyError;
use crate::json::{
    fields_model, items_model, lemma_fields_model, lemma_items_model, text_field, Json, JsonField,
    JsonValue,
};
use crate::text::{decimal, decimal_text, join, joined, optional_text, same_text, texts};
use vstd::prelude::*;

verus! {

/// A request of a client for a chat completion.
#[derive(Debug)]
pub struct ChatCompletionRequest {
    pub model: String,
    pub messages: Vec<ChatMessage>,
    pub stream: bool,
    pub service_tier: Option<String>,
    pub reasoning_effort: Option<ReasoningEffort>,
}

#[derive(Debug)]
pub struct ChatMessage {
    pub role: String,
    pub content: ChatMessageContent,
}

#[derive(Debug)]
pub enum ChatMessageContent {
    Text(String),
    Parts(Vec<ChatMessageContentPart>),
}

#[derive(Debug)]
pub enum ChatMessageContentPart {
    Text { text: String },
    ImageUrl { image_url: ImageUrlPart },
}

#[derive(Debug)]
pub struct ImageUrlPart {
    pub url: String,
}

/// The texts of the text parts, in order.
pub open spec fn part_texts(parts: Seq<ChatMessageContentPart>) -> Seq<Seq<char>>
    decreases parts.len(),
{
    if parts.len() == 0 {
        Seq::empty()
    } else {
        match parts.last() {
            ChatMessageContentPart::Text { text } => part_texts(parts.drop_last()).push(text@),
            ChatMessageContentPart::ImageUrl { .. } => part_texts(parts.drop_last()),
        }
    }
}

/// The text of a message, where it has one.
pub open spec fn message_text(message: ChatMessage) -> Option<Seq<char>> {
    match message.content {
        ChatMessageContent::Text(text) => Some(text@),
        ChatMessageContent::Parts(parts) => {
            let text = joined(part_texts(parts@), "\n"@);
            if text.len() == 0 {
                None
            } else {
                Some(text)
            }
        },
    }
}

pub open spec fn is_system(message: ChatMessage) -> bool {
    message.role@ == "system"@
}

/// The texts of the system messages, in order.
pub open spec fn system_texts(messages: Seq<ChatMessage>) -> Seq<Seq<char>>
    decreases messages.len(),
{
    if messages.len() == 0 {
        Seq::empty()
    } else {
        let before = system_texts(messages.drop_last());
        match message_text(messages.last()) {
            Some(text) if is_system(messages.last()) => before.push(text),
            _ => before,
        }
    }
}

/// The instructions of the upstream request: the texts of the system messages, each behind an
/// empty line but the first, or a fixed sentence where that leaves nothing.
pub open spec fn codex_instructions(messages: Seq<ChatMessage>) -> Seq<char> {
    let text = joined(system_texts(messages), "\n\n"@);
    if text.len() == 0 {
        "You are Codex."@
    } else {
        text
    }
}

/// Tells whether a part is an image without an address, which no request may hold.
pub open spec fn is_refused_part(part: ChatMessageContentPart) -> bool {
    match part {
        ChatMessageContentPart::Text { .. } => false,
        ChatMessageContentPart::ImageUrl { image_url } => image_url.url@.len() == 0,
    }
}

/// Tells whether a message holds a part that no request may hold.
pub open spec fn is_refused_message(message: ChatMessage) -> bool {
    match message.content {
        ChatMessageContent::Text(_) => false,
        ChatMessageContent::Parts(parts) => exists|i: int|
            0 <= i < parts@.len() && is_refused_part(#[trigger] parts@[i]),
    }
}

/// Tells whether some message that would go into the upstream input holds a part that no
/// request may hold.
pub open spec fn is_refused_input(messages: Seq<ChatMessage>) -> bool {
    exists|i: int|
        0 <= i < messages.len() && !is_system(#[trigger] messages[i]) && is_refused_message(
            messages[i],
        )
}

/// The error with which such a request is refused.
pub open spec fn is_empty_image_url_error(error: ProxyError) -> bool {
    match error {
        ProxyError::InvalidRequest(reason) => reason@ == "image_url.url must not be empty"@,
        _ => false,
    }
}

/// A text as a part of an upstream message.
pub open spec fn codex_text(text: Seq<char>) -> Json {
    Json::Object(seq![("type"@, Json::Text("input_text"@)), ("text"@, Json::Text(text))])
}

/// A part as a part of an upstream message.
pub open spec fn codex_content(part: ChatMessageContentPart) -> Json {
    match part {
        ChatMessageContentPart::Text { text } => codex_text(text@),
        ChatMessageContentPart::ImageUrl { image_url } => Json::Object(
            seq![
                ("type"@, Json::Text("input_image"@)),
                ("image_url"@, Json::Text(image_url.url@)),
            ],
        ),
    }
}

/// The parts of the upstream message that stands for a message.
pub open spec fn codex_contents(content: ChatMessageContent) -> Seq<Json> {
    match content {
        ChatMessageContent::Text(text) => seq![codex_text(text@)],
        ChatMessageContent::Parts(parts) => Seq::new(
            parts@.len(),
            |i: int| codex_content(parts@[i]),
        ),
    }
}

/// A message as an item of the upstream input.
pub open spec fn codex_message(message: ChatMessage) -> Json {
    Json::Object(
        seq![
            ("type"@, Json::Text("message"@)),
            ("role"@, Json::Text(message.role@)),
            ("content"@, Json::Array(codex_contents(message.content))),
        ],
    )
}

/// The upstream input: the messages that are not system messages, in order.
pub open spec fn codex_input(messages: Seq<ChatMessage>) -> Seq<Json>
    decreases messages.len(),
{
    if messages.len() == 0 {
        Seq::empty()
    } else if is_system(messages.last()) {
        codex_input(messages.drop_last())
    } else {
        codex_input(messages.drop_last()).push(codex_message(messages.last()))
    }
}

/// The model that upstream knows a model by.
pub open spec fn upstream_model(model: Seq<char>) -> Seq<char> {
    if model == "gpt-5.5-fast"@ {
        "gpt-5.5"@
    } else {
        model
    }
}

/// The service tier to ask upstream for.
pub open spec fn upstream_service_tier(
    model: Seq<char>,
    service_tier: Option<Seq<char>>,
    speed: Speed,
    priority_service: bool,
) -> Option<Seq<char>> {
    match service_tier {
        Some(tier) => if tier == "none"@ {
            None
        } else if tier == "fast"@ || tier == "priority"@ {
            if priority_service {
                Some("priority"@)
            } else {
                None
            }
        } else {
            Some(tier)
        },
        None => if priority_service && (model == "gpt-5.5-fast"@ || speed == Speed::Fast) {
            Some("priority"@)
        } else {
            None
        },
    }
}

impl ChatCompletionRequest {
    /// The effort to ask upstream for.
    pub open spec fn effort(self, settings: ProxySettings) -> ReasoningEffort {
        match self.reasoning_effort {
            Some(effort) => effort,
            None => settings.reasoning_effort,
        }
    }

    /// Tells whether a request to upstream is the one that this request asks for.
    pub open spec fn is_codex_request(
        self,
        settings: ProxySettings,
        request: CodexRequest,
    ) -> bool {
        &&& request.model@ == upstream_model(self.model@)
        &&& request.instructions@ == codex_instructions(self.messages@)
        &&& items_model(request.input@) == codex_input(self.messages@)
        &&& request.reasoning.effort@ == self.effort(settings).upstream_value()
        &&& request.stream
        &&& !request.store
        &&& optional_text(request.service_tier) == upstream_service_tier(
            self.model@,
            optional_text(self.service_tier),
            settings.speed,
            settings.priority_service,
        )
    }

    /// Makes the request to upstream that this request asks for.
    pub fn to_codex_request(&self, settings: &ProxySettings) -> (result: Result<
        CodexRequest,
        ProxyError,
    >)
        ensures
            match result {
                Ok(request) => {
                    &&& !is_refused_input(self.messages@)
                    &&& self.is_codex_request(*settings, request)
                    &&& request.prompt_cache_key is None
                },
                Err(error) => is_refused_input(self.messages@) && is_empty_image_url_error(error),
            },
    {
        let fast_model = same_text(self.model.as_str(), "gpt-5.5-fast");
        let model = if fast_model {
            "gpt-5.5".to_owned()
        } else {
            self.model.clone()
        };
        let service_tier = match &self.service_tier {
            Some(tier) => if same_text(tier.as_str(), "none") {
                None
            } else if same_text(tier.as_str(), "fast") || same_text(tier.as_str(), "priority") {
                if settings.priority_service {
                    Some("priority".to_owned())
                } else {
                    None
                }
            } else {
                Some(tier.clone())
            },
            None => if settings.priority_service && (fast_model || settings.speed == Speed::Fast) {
                Some("priority".to_owned())
            } else {
                None
            },
        };
        let effort = match self.reasoning_effort {
            Some(effort) => effort,
            None => settings.reasoning_effort,
        };
        let instructions = codex_instructions_from_messages(&self.messages);
        match codex_input_from_messages(&self.messages) {
            Ok(input) => Ok(
                CodexRequest {
                    model,
                    instructions,
                    input,
                    reasoning: CodexReasoning { effort: effort.as_upstream_value().to_owned() },
                    stream: true,
                    store: false,
                    service_tier,
                    prompt_cache_key: None,
                },
            ),
            Err(error) => Err(error),
        }
    }
}

/// Makes the input of the upstream request.
fn codex_input_from_messages(messages: &Vec<ChatMessage>) -> (result: Result<
    Vec<JsonValue>,
    ProxyError,
>)
    ensures
        match result {
            Ok(input) => !is_refused_input(messages@) && items_model(input@) == codex_input(
                messages@,
            ),
            Err(error) => is_refused_input(messages@) && is_empty_image_url_error(error),
        },
{
    let mut input: Vec<JsonValue> = Vec::new();
    let mut i: usize = 0;
    while i < messages.len()
        invariant
            i <= messages@.len(),
            items_model(input@) == codex_input(messages@.take(i as int)),
            forall|j: int|
                0 <= j < i && !is_system(#[trigger] messages@[j]) ==> !is_refused_message(
                    messages@[j],
                ),
        decreases messages@.len() - i,
    {
        let message = &messages[i];
        assert(messages@.take(i + 1).drop_last() =~= messages@.take(i as int));
        if !same_text(message.role.as_str(), "system") {
            match chat_message_to_codex_input(message) {
                Ok(item) => {
                    let ghost before = input@;
                    input.push(item);
                    assert(input@.drop_last() =~= before);
                },
                Err(error) => {
                    assert(!is_system(messages@[i as int]));
                    return Err(error);
                },
            }
        }
        i += 1;
    }
    assert(messages@.take(messages@.len() as int) =~= messages@);
    Ok(input)
}

/// Makes the instructions of the upstream request.
pub fn codex_instructions_from_messages(messages: &Vec<ChatMessage>) -> (result: String)
    ensures
        result@ == codex_instructions(messages@),
{
    let mut system: Vec<String> = Vec::new();
    let mut i: usize = 0;
    while i < messages.len()
        invariant
            i <= messages@.len(),
            texts(system@) == system_texts(messages@.take(i as int)),
        decreases messages@.len() - i,
    {
        let message = &messages[i];
        assert(messages@.take(i + 1).drop_last() =~= messages@.take(i as int));
        if same_text(message.role.as_str(), "system") {
            if let Some(text) = chat_message_text(message) {
                let ghost before = texts(system@);
                let ghost added = text@;
                system.push(text);
                assert(texts(system@) =~= before.push(added));
            }
        }
        i += 1;
    }
    assert(messages@.take(messages@.len() as int) =~= messages@);
    let system_text = join(&system, "\n\n");
    if system_text.as_str().is_empty() {
        "You are Codex.".to_owned()
    } else {
        system_text
    }
}

/// Finds the text of a message.
pub fn chat_message_text(chat_message: &ChatMessage) -> (result: Option<String>)
    ensures
        optional_text(result) == message_text(*chat_message),
{
    match &chat_message.content {
        ChatMessageContent::Text(text) => Some(text.clone()),
        ChatMessageContent::Parts(parts) => {
            let mut list: Vec<String> = Vec::new();
            let mut i: usize = 0;
            while i < parts.len()
                invariant
                    i <= parts@.len(),
                    texts(list@) == part_texts(parts@.take(i as int)),
                decreases parts@.len() - i,
            {
                assert(parts@.take(i + 1).drop_last() =~= parts@.take(i as int));
                match &parts[i] {
                    ChatMessageContentPart::Text { text } => {
                        let ghost before = texts(list@);
                        list.push(text.clone());
                        assert(texts(list@) =~= before.push(text@));
                    },
                    ChatMessageContentPart::ImageUrl { .. } => {},
                }
                i += 1;
            }
            assert(parts@.take(parts@.len() as int) =~= parts@);
            let text = join(&list, "\n");
            if text.as_str().is_empty() {
                None
            } else {
                Some(text)
            }
        },
    }
}

/// Makes an item of the upstream input from a message.
pub fn chat_message_to_codex_input(chat_message: &ChatMessage) -> (result: Result<
    JsonValue,
    ProxyError,
>)
    ensures
        match result {
            Ok(item) => !is_refused_message(*chat_message) && item@ == codex_message(*chat_message),
            Err(error) => is_refused_message(*chat_message) && is_empty_image_url_error(error),
        },
{
    let mut content: Vec<JsonValue> = Vec::new();
    let ghost expected = codex_contents(chat_message.content);
    match &chat_message.content {
        ChatMessageContent::Text(text) => {
            content.push(input_text(text.as_str()));
            proof {
                lemma_items_model(content@);
                assert(items_model(content@) =~= expected);
            }
        },
        ChatMessageContent::Parts(parts) => {
            let mut i: usize = 0;
            while i < parts.len()
                invariant
                    i <= parts@.len(),
                    chat_message.content == ChatMessageContent::Parts(*parts),
                    items_model(content@) == Seq::new(
                        i as nat,
                        |j: int| codex_content(parts@[j]),
                    ),
                    forall|j: int| 0 <= j < i ==> !is_refused_part(#[trigger] parts@[j]),
                decreases parts@.len() - i,
            {
                match chat_message_part_to_codex_content(&parts[i]) {
                    Ok(item) => {
                        let ghost before = content@;
                        content.push(item);
                        assert(content@.drop_last() =~= before);
                        assert(items_model(content@) =~= Seq::new(
                            (i + 1) as nat,
                            |j: int| codex_content(parts@[j]),
                        ));
                    },
                    Err(error) => {
                        return Err(error);
                    },
                }
                i += 1;
            }
            assert(items_model(content@) =~= expected);
        },
    }
    let mut fields: Vec<JsonField> = Vec::new();
    fields.push(text_field("type", "message"));
    fields.push(text_field("role", chat_message.role.as_str()));
    fields.push(JsonField { key: "content".to_owned(), value: JsonValue::Array(content) });
    proof {
        lemma_fields_model(fields@);
        assert(fields_model(fields@) =~= seq![
            ("type"@, Json::Text("message"@)),
            ("role"@, Json::Text(chat_message.role@)),
            ("content"@, Json::Array(expected)),
        ]);
    }
    Ok(JsonValue::Object(fields))
}

fn input_text(text: &str) -> (result: JsonValue)
    ensures
        result@ == codex_text(text@),
{
    let mut fields: Vec<JsonField> = Vec::new();
    fields.push(text_field("type", "input_text"));
    fields.push(text_field("text", text));
    proof {
        lemma_fields_model(fields@);
        assert(fields_model(fields@) =~= seq![
            ("type"@, Json::Text("input_text"@)),
            ("text"@, Json::Text(text@)),
        ]);
    }
    JsonValue::Object(fields)
}

/// Makes a part of an upstream message from a part of a message.
pub fn chat_message_part_to_codex_content(part: &ChatMessageContentPart) -> (result: Result<
    JsonValue,
    ProxyError,
>)
    ensures
        match result {
            Ok(item) => !is_refused_part(*part) && item@ == codex_content(*part),
            Err(error) => is_refused_part(*part) && is_empty_image_url_error(error),
        },
{
    match part {
        ChatMessageContentPart::Text { text } => Ok(input_text(text.as_str())),
        ChatMessageContentPart::ImageUrl { image_url } => {
            if image_url.url.as_str().is_empty() {
                return Err(
                    ProxyError::InvalidRequest("image_url.url must not be empty".to_owned()),
                );
            }
            let mut fields: Vec<JsonField> = Vec::new();
            fields.push(text_field("type", "input_image"));
            fields.push(text_field("image_url", image_url.url.as_str()));
            proof {
                lemma_fields_model(fields@);
                assert(fields_model(fields@) =~= seq![
                    ("type"@, Json::Text("input_image"@)),
                    ("image_url"@, Json::Text(image_url.url@)),
                ]);
            }
            Ok(JsonValue::Object(fields))
        },
    }
}

/// The list of the models that the proxy offers.
#[derive(Debug)]
pub struct ModelsResponse {
    pub object: &'static str,
    pub data: Vec<ModelResponse>,
}

#[derive(Debug)]
pub struct ModelResponse {
    pub id: &'static str,
    pub object: &'static str,
    pub created: u64,
    pub owned_by: &'static str,
}

/// The answer to a request that does not ask for a stream.
#[derive(Debug)]
pub struct ChatCompletionResponse {
    pub id: String,
    pub object: &'static str,
    pub created: u64,
    pub model: String,
    pub choices: Vec<ChatCompletionChoice>,
}

#[derive(Debug)]
pub struct ChatCompletionChoice {
    pub index: u32,
    pub message: ChatCompletionMessage,
    pub finish_reason: Option<String>,
}

#[derive(Debug)]
pub struct ChatCompletionMessage {
    pub role: &'static str,
    pub content: String,
}

/// A piece of the answer to a request that asks for a stream.
#[derive(Debug)]
pub struct ChatCompletionChunk {
    pub id: String,
    pub object: &'static str,
    pub created: u64,
    pub model: String,
    pub choices: Vec<ChatCompletionChunkChoice>,
}

#[derive(Debug)]
pub struct ChatCompletionChunkChoice {
    pub index: u32,
    pub delta: ChatCompletionDelta,
    pub finish_reason: Option<String>,
}

#[derive(Debug)]
pub struct ChatCompletionDelta {
    pub role: Option<&'static str>,
    pub content: Option<String>,
}

/// Tells whether an entry of the list of models describes the model `id`.
pub open spec fn is_model(model: ModelResponse, id: Seq<char>) -> bool {
    &&& model.id@ == id
    &&& model.object@ == "model"@
    &&& model.created == 0
    &&& model.owned_by@ == "codex-proxy"@
}

/// The models that the proxy offers.
pub fn models_response() -> (result: ModelsResponse)
    ensures
        result.object@ == "list"@,
        result.data@.len() == 2,
        is_model(result.data@[0], "gpt-5.5"@),
        is_model(result.data@[1], "gpt-5.5-fast"@),
{
    let mut data: Vec<ModelResponse> = Vec::new();
    data.push(model_response("gpt-5.5"));
    data.push(model_response("gpt-5.5-fast"));
    ModelsResponse { object: "list", data }
}

/// Describes a model.
pub fn model_response(id: &'static str) -> (result: ModelResponse)
    ensures
        is_model(result, id@),
{
    ModelResponse { id, object: "model", created: 0, owned_by: "codex-proxy" }
}

/// The identifier of a completion that is given out at a time.
pub open spec fn completion_id(seconds: u64) -> Seq<char> {
    "chatcmpl-"@ + decimal(seconds as nat)
}

/// Tells whether an identifier is one that is given out at a time which the clock has read.
pub open spec fn is_dated_id(id: Seq<char>) -> bool {
    exists|reading: Option<(u64, u32)>| #[trigger]
        is_clock_reading(reading) && id == completion_id(epoch_seconds(reading))
}

/// Tells whether a time in seconds is one that the clock has read.
pub open spec fn is_date(seconds: u64) -> bool {
    exists|reading: Option<(u64, u32)>| #[trigger]
        is_clock_reading(reading) && seconds == epoch_seconds(reading)
}

/// Tells whether an answer gives `content` as the whole answer of `model`.
pub open spec fn is_completion(
    response: ChatCompletionResponse,
    model: Seq<char>,
    content: Seq<char>,
) -> bool {
    &&& response.object@ == "chat.completion"@
    &&& response.model@ == model
    &&& response.choices@.len() == 1
    &&& response.choices@[0].index == 0
    &&& response.choices@[0].message.role@ == "assistant"@
    &&& response.choices@[0].message.content@ == content
    &&& optional_text(response.choices@[0].finish_reason) == Some("stop"@)
}

/// What a piece of a stream says: of which answer, who speaks, what is said, and why it ends.
pub struct ChunkModel {
    pub index: u32,
    pub role: Option<Seq<char>>,
    pub content: Option<Seq<char>>,
    pub finish_reason: Option<Seq<char>>,
}

/// What a choice of a piece of a stream says.
pub open spec fn chunk_model(choice: ChatCompletionChunkChoice) -> ChunkModel {
    ChunkModel {
        index: choice.index,
        role: match choice.delta.role {
            Some(role) => Some(role@),
            None => None,
        },
        content: optional_text(choice.delta.content),
        finish_reason: optional_text(choice.finish_reason),
    }
}

/// Tells whether a piece of a stream of `model` says what `says` holds.
pub open spec fn is_chunk(chunk: ChatCompletionChunk, model: Seq<char>, says: ChunkModel) -> bool {
    &&& exists|seconds: u64| chunk.id@ == #[trigger] completion_id(seconds)
    &&& chunk.object@ == "chat.completion.chunk"@
    &&& chunk.model@ == model
    &&& chunk.choices@.len() == 1
    &&& chunk_model(chunk.choices@[0]) == says
}

/// Tells whether a piece of a stream is dated by the clock.
pub open spec fn is_dated(chunk: ChatCompletionChunk) -> bool {
    is_dated_id(chunk.id@) && is_date(chunk.created)
}

/// What the first piece of a stream says.
pub open spec fn first_says() -> ChunkModel {
    ChunkModel { index: 0, role: Some("assistant"@), content: None, finish_reason: None }
}

/// What a piece of a stream that carries text says.
pub open spec fn content_says(content: Seq<char>) -> ChunkModel {
    ChunkModel { index: 0, role: None, content: Some(content), finish_reason: None }
}

/// What the last piece of a stream says.
pub open spec fn final_says() -> ChunkModel {
    ChunkModel { index: 0, role: None, content: None, finish_reason: Some("stop"@) }
}

fn completion_id_text(seconds: u64) -> (result: String)
    ensures
        result@ == completion_id(seconds),
{
    let mut id = "chatcmpl-".to_owned();
    id.append(decimal_text(seconds).as_str());
    id
}

/// The answer whose identifier is given out at `id_seconds` and which is created at `created`.
pub fn chat_completion_response_at(
    id_seconds: u64,
    created: u64,
    client_model: &str,
    content: String,
) -> (result: ChatCompletionResponse)
    ensures
        result.id@ == completion_id(id_seconds),
        result.created == created,
        is_completion(result, client_model@, content@),
{
    let mut choices: Vec<ChatCompletionChoice> = Vec::new();
    choices.push(
        ChatCompletionChoice {
            index: 0,
            message: ChatCompletionMessage { role: "assistant", content },
            finish_reason: Some("stop".to_owned()),
        },
    );
    ChatCompletionResponse {
        id: completion_id_text(id_seconds),
        object: "chat.completion",
        created,
        model: client_model.to_owned(),
        choices,
    }
}

/// The answer to a request that does not ask for a stream.
pub fn chat_completion_response(client_model: &str, content: String) -> (result:
    ChatCompletionResponse)
    ensures
        is_dated_id(result.id@),
        is_date(result.created),
        is_completion(result, client_model@, content@),
{
    chat_completion_response_at(now_seconds(), now_seconds(), client_model, content)
}

/// The piece of a stream whose identifier is given out at `id_seconds` and which is created at
/// `created`.
pub fn stream_chunk_at(
    id_seconds: u64,
    created: u64,
    client_model: &str,
    delta: ChatCompletionDelta,
    finish_reason: Option<String>,
) -> (result: ChatCompletionChunk)
    ensures
        result.id@ == completion_id(id_seconds),
        result.created == created,
        is_chunk(
            result,
            client_model@,
            chunk_model((ChatCompletionChunkChoice { index: 0, delta, finish_reason })),
        ),
{
    let mut choices: Vec<ChatCompletionChunkChoice> = Vec::new();
    choices.push(ChatCompletionChunkChoice { index: 0, delta, finish_reason });
    ChatCompletionChunk {
        id: completion_id_text(id_seconds),
        object: "chat.completion.chunk",
        created,
        model: client_model.to_owned(),
        choices,
    }
}

/// The first piece of a stream.
pub fn first_stream_chunk(client_model: &str) -> (result: ChatCompletionChunk)
    ensures
        is_chunk(result, client_model@, first_says()),
        is_dated(result),
{
    let delta = ChatCompletionDelta { role: Some("assistant"), content: None };
    stream_chunk_at(now_seconds(), now_seconds(), client_model, delta, None)
}

/// A piece of a stream that carries text.
pub fn content_stream_chunk(client_model: &str, content: String) -> (result: ChatCompletionChunk)
    ensures
        is_chunk(result, client_model@, content_says(content@)),
        is_dated(result),
{
    let delta = ChatCompletionDelta { role: None, content: Some(content) };
    stream_chunk_at(now_seconds(), now_seconds(), client_model, delta, None)
}

/// The last piece of a stream.
pub fn final_stream_chunk(client_model: &str) -> (result: ChatCompletionChunk)
    ensures
        is_chunk(result, client_model@, final_says()),
        is_dated(result),
{
    let delta = ChatCompletionDelta { role: None, content: None };
    stream_chunk_at(now_seconds(), now_seconds(), client_model, delta, Some("stop".to_owned()))
}

/// Upstream never hears of the alias that clients know the fast model by.
pub proof fn law_alias_stays_here(
    request: ChatCompletionRequest,
    settings: ProxySettings,
    upstream: CodexRequest,
)
    requires
        request.is_codex_request(settings, upstream),
    ensures
        upstream.model@ != "gpt-5.5-fast"@,
{
    reveal_strlit("gpt-5.5");
    reveal_strlit("gpt-5.5-fast");
    assert("gpt-5.5"@.len() != "gpt-5.5-fast"@.len());
}

/// The words that only this proxy gives a meaning to never go upstream as a service tier.
pub proof fn law_tier_is_no_alias(
    request: ChatCompletionRequest,
    settings: ProxySettings,
    upstream: CodexRequest,
)
    requires
        request.is_codex_request(settings, upstream),
    ensures
        optional_text(upstream.service_tier) != Some("none"@),
        optional_text(upstream.service_tier) != Some("fast"@),
{
    reveal_strlit("none");
    reveal_strlit("fast");
    reveal_strlit("priority");
    assert("priority"@.len() != "none"@.len());
    assert("priority"@.len() != "fast"@.len());
}

/// Where the settings rule the priority service out, no request asks for it, whatever the client
/// or the speed say.
pub proof fn law_priority_can_be_ruled_out(
    request: ChatCompletionRequest,
    settings: ProxySettings,
    upstream: CodexRequest,
)
    requires
        request.is_codex_request(settings, upstream),
        !settings.priority_service,
    ensures
        optional_text(upstream.service_tier) != Some("priority"@),
{
}

/// Upstream always gets instructions.
pub proof fn law_instructions_are_never_empty(messages: Seq<ChatMessage>)
    ensures
        codex_instructions(messages).len() > 0,
{
    reveal_strlit("You are Codex.");
}

/// The upstream input is made of the messages that are not system messages: of all of them, of
/// each once, in their order.
pub proof fn law_input_is_the_conversation(messages: Seq<ChatMessage>)
    ensures
        codex_input(messages) == messages.filter(
            |message: ChatMessage| !is_system(message),
        ).map_values(|message: ChatMessage| codex_message(message)),
    decreases messages.len(),
{
    let kept = |message: ChatMessage| !is_system(message);
    let made = |message: ChatMessage| codex_message(message);
    reveal(Seq::filter);
    if messages.len() > 0 {
        law_input_is_the_conversation(messages.drop_last());
        assert(messages.filter(kept).map_values(made) =~= codex_input(messages));
    } else {
        assert(messages.filter(kept).map_values(made) =~= codex_input(messages));
    }
}

proof fn lemma_codex_input_add(a: Seq<ChatMessage>, b: Seq<ChatMessage>)
    ensures
        codex_input(a + b) == codex_input(a) + codex_input(b),
    decreases b.len(),
{
    if b.len() == 0 {
        assert(a + b =~= a);
        assert(codex_input(a) + codex_input(b) =~= codex_input(a));
    } else {
        lemma_codex_input_add(a, b.drop_last());
        assert((a + b).drop_last() =~= a + b.drop_last());
        assert(codex_input(a + b) =~= codex_input(a) + codex_input(b));
    }
}

proof fn lemma_system_texts_add(a: Seq<ChatMessage>, b: Seq<ChatMessage>)
    ensures
        system_texts(a + b) == system_texts(a) + system_texts(b),
    decreases b.len(),
{
    if b.len() == 0 {
        assert(a + b =~= a);
        assert(system_texts(a) + system_texts(b) =~= system_texts(a));
    } else {
        lemma_system_texts_add(a, b.drop_last());
        assert((a + b).drop_last() =~= a + b.drop_last());
        assert(system_texts(a + b) =~= system_texts(a) + system_texts(b));
    }
}

/// Wherever it stands, a system message changes the instructions alone, and any other message
/// the input alone, to which it adds one item at its place.
pub proof fn law_roles_are_kept_apart(
    before: Seq<ChatMessage>,
    message: ChatMessage,
    after: Seq<ChatMessage>,
)
    ensures
        is_system(message) ==> codex_input(before + seq![message] + after) == codex_input(
            before + after,
        ),
        !is_system(message) ==> codex_instructions(before + seq![message] + after)
            == codex_instructions(before + after),
        !is_system(message) ==> codex_input(before + seq![message] + after) == codex_input(before)
            + seq![codex_message(message)] + codex_input(after),
{
    let one = seq![message];
    assert(one.drop_last() =~= Seq::<ChatMessage>::empty());
    assert(codex_input(one.drop_last()) =~= Seq::<Json>::empty());
    assert(system_texts(one.drop_last()) =~= Seq::<Seq<char>>::empty());
    lemma_codex_input_add(before, one);
    lemma_codex_input_add(before + one, after);
    lemma_codex_input_add(before, after);
    lemma_system_texts_add(before, one);
    lemma_system_texts_add(before + one, after);
    lemma_system_texts_add(before, after);
    if is_system(message) {
        assert(codex_input(before) + codex_input(one) =~= codex_input(before));
    } else {
        assert(codex_input(one) =~= seq![codex_message(message)]);
        assert(system_texts(before) + system_texts(one) =~= system_texts(before));
    }
}

} // verus!
