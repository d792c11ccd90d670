use codex_proxy::codex::CodexRequest;
use codex_proxy::config::{ProxySettings, ReasoningEffort, Speed};
use codex_proxy::error::ProxyError;
use codex_proxy::json::{JsonField, JsonValue};
use codex_proxy::openai::{
    chat_completion_response, chat_completion_response_at, chat_message_text,
    codex_instructions_from_messages, content_stream_chunk, final_stream_chunk, first_stream_chunk,
    models_response, stream_chunk_at, ChatCompletionDelta, ChatCompletionRequest, ChatMessage,
    ChatMessageContent, ChatMessageContentPart, ImageUrlPart,
};

fn message(role: &str, text: &str) -> ChatMessage {
    ChatMessage {
        role: role.to_string(),
        content: ChatMessageContent::Text(text.to_string()),
    }
}

fn text_part(text: &str) -> ChatMessageContentPart {
    ChatMessageContentPart::Text {
        text: text.to_string(),
    }
}

fn image_part(url: &str) -> ChatMessageContentPart {
    ChatMessageContentPart::ImageUrl {
        image_url: ImageUrlPart {
            url: url.to_string(),
        },
    }
}

fn text_object(members: &[(&str, &str)]) -> JsonValue {
    JsonValue::Object(
        members
            .iter()
            .map(|(key, text)| JsonField {
                key: key.to_string(),
                value: JsonValue::Text(text.to_string()),
            })
            .collect(),
    )
}

fn content_item(request: &CodexRequest, item: usize, part: usize) -> &JsonValue {
    match request.input[item].get("content") {
        Some(JsonValue::Array(parts)) => &parts[part],
        _ => panic!("an item of the input has contents"),
    }
}

#[test]
fn models_response_contains_only_public_models() {
    let models_response = models_response();
    let model_ids = models_response
        .data
        .into_iter()
        .map(|model| model.id)
        .collect::<Vec<_>>();

    assert_eq!(model_ids, vec!["gpt-5.5", "gpt-5.5-fast"]);
}

#[test]
fn models_are_described() {
    let models_response = models_response();
    assert_eq!(models_response.object, "list");
    for model in &models_response.data {
        assert_eq!(model.object, "model");
        assert_eq!(model.created, 0);
        assert_eq!(model.owned_by, "codex-proxy");
    }
}

#[test]
fn fast_model_maps_to_priority_service_tier() {
    let upstream_request = ChatCompletionRequest {
        model: "gpt-5.5-fast".to_string(),
        messages: vec![ChatMessage {
            role: "user".to_string(),
            content: ChatMessageContent::Text("hello".to_string()),
        }],
        stream: false,
        service_tier: None,
        reasoning_effort: None,
    }
    .to_codex_request(&ProxySettings::default())
    .expect("request should convert");

    assert_eq!(upstream_request.model, "gpt-5.5");
    assert_eq!(upstream_request.service_tier.as_deref(), Some("priority"));
    assert_eq!(upstream_request.reasoning.effort, "medium");
    assert!(upstream_request.stream);
    assert!(upstream_request.prompt_cache_key.is_none());
}

#[test]
fn non_streaming_client_request_still_streams_upstream() {
    let upstream_request = ChatCompletionRequest {
        model: "gpt-5.5".to_string(),
        messages: vec![ChatMessage {
            role: "user".to_string(),
            content: ChatMessageContent::Text("hello".to_string()),
        }],
        stream: false,
        service_tier: None,
        reasoning_effort: None,
    }
    .to_codex_request(&ProxySettings::default())
    .expect("request should convert");

    assert!(upstream_request.stream);
}

#[test]
fn fast_service_tier_maps_to_priority() {
    let upstream_request = ChatCompletionRequest {
        model: "gpt-5.5".to_string(),
        messages: vec![ChatMessage {
            role: "user".to_string(),
            content: ChatMessageContent::Text("hello".to_string()),
        }],
        stream: false,
        service_tier: Some("fast".to_string()),
        reasoning_effort: None,
    }
    .to_codex_request(&ProxySettings::default())
    .expect("request should convert");

    assert_eq!(upstream_request.service_tier.as_deref(), Some("priority"));
}

#[test]
fn text_and_image_parts_convert_to_codex_input() {
    let upstream_request = ChatCompletionRequest {
        model: "gpt-5.5".to_string(),
        messages: vec![ChatMessage {
            role: "user".to_string(),
            content: ChatMessageContent::Parts(vec![
                ChatMessageContentPart::Text {
                    text: "what is this?".to_string(),
                },
                ChatMessageContentPart::ImageUrl {
                    image_url: ImageUrlPart {
                        url: "data:image/png;base64,abc".to_string(),
                    },
                },
            ]),
        }],
        stream: false,
        service_tier: None,
        reasoning_effort: None,
    }
    .to_codex_request(&ProxySettings::default())
    .expect("request should convert");

    assert_eq!(
        *content_item(&upstream_request, 0, 0),
        text_object(&[("type", "input_text"), ("text", "what is this?")])
    );
    assert_eq!(
        *content_item(&upstream_request, 0, 1),
        text_object(&[
            ("type", "input_image"),
            ("image_url", "data:image/png;base64,abc")
        ])
    );
}

#[test]
fn system_role_messages_become_instructions_not_input() {
    let upstream_request = ChatCompletionRequest {
        model: "gpt-5.5".to_string(),
        messages: vec![
            ChatMessage {
                role: "system".to_string(),
                content: ChatMessageContent::Text("answer in Lithuanian".to_string()),
            },
            ChatMessage {
                role: "user".to_string(),
                content: ChatMessageContent::Text("hello".to_string()),
            },
        ],
        stream: false,
        service_tier: None,
        reasoning_effort: None,
    }
    .to_codex_request(&ProxySettings::default())
    .expect("request should convert");

    assert_eq!(upstream_request.instructions, "answer in Lithuanian");
    assert_eq!(upstream_request.input.len(), 1);
    assert_eq!(
        upstream_request.input[0].get("role").and_then(JsonValue::as_str),
        Some("user")
    );
}

#[test]
fn system_part_texts_become_joined_instructions() {
    let upstream_request = ChatCompletionRequest {
        model: "gpt-5.5".to_string(),
        messages: vec![
            ChatMessage {
                role: "system".to_string(),
                content: ChatMessageContent::Parts(vec![
                    ChatMessageContentPart::Text {
                        text: "first rule".to_string(),
                    },
                    ChatMessageContentPart::ImageUrl {
                        image_url: ImageUrlPart {
                            url: "data:image/png;base64,abc".to_string(),
                        },
                    },
                    ChatMessageContentPart::Text {
                        text: "second rule".to_string(),
                    },
                ]),
            },
            ChatMessage {
                role: "user".to_string(),
                content: ChatMessageContent::Text("hello".to_string()),
            },
        ],
        stream: false,
        service_tier: None,
        reasoning_effort: None,
    }
    .to_codex_request(&ProxySettings::default())
    .expect("request should convert");

    assert_eq!(upstream_request.instructions, "first rule\nsecond rule");
    assert_eq!(upstream_request.input.len(), 1);
}

#[test]
fn settings_control_reasoning_and_speed_defaults() {
    let upstream_request = ChatCompletionRequest {
        model: "gpt-5.5".to_string(),
        messages: vec![ChatMessage {
            role: "user".to_string(),
            content: ChatMessageContent::Text("hello".to_string()),
        }],
        stream: false,
        service_tier: None,
        reasoning_effort: None,
    }
    .to_codex_request(&ProxySettings {
        reasoning_effort: ReasoningEffort::High,
        speed: Speed::Fast,
        ..ProxySettings::default()
    })
    .expect("request should convert");

    assert_eq!(upstream_request.reasoning.effort, "high");
    assert_eq!(upstream_request.service_tier.as_deref(), Some("priority"));
}

#[test]
fn request_reasoning_effort_overrides_settings_default() {
    let upstream_request = ChatCompletionRequest {
        model: "gpt-5.5".to_string(),
        messages: vec![ChatMessage {
            role: "user".to_string(),
            content: ChatMessageContent::Text("hello".to_string()),
        }],
        stream: false,
        service_tier: None,
        reasoning_effort: Some(ReasoningEffort::Low),
    }
    .to_codex_request(&ProxySettings {
        reasoning_effort: ReasoningEffort::High,
        ..ProxySettings::default()
    })
    .expect("request should convert");

    assert_eq!(upstream_request.reasoning.effort, "low");
}

#[test]
fn priority_service_can_be_disabled() {
    let upstream_request = ChatCompletionRequest {
        model: "gpt-5.5-fast".to_string(),
        messages: vec![ChatMessage {
            role: "user".to_string(),
            content: ChatMessageContent::Text("hello".to_string()),
        }],
        stream: false,
        service_tier: Some("fast".to_string()),
        reasoning_effort: None,
    }
    .to_codex_request(&ProxySettings {
        speed: Speed::Fast,
        priority_service: false,
        ..ProxySettings::default()
    })
    .expect("request should convert");

    assert_eq!(upstream_request.model, "gpt-5.5");
    assert!(upstream_request.service_tier.is_none());
}

#[test]
fn default_settings_keep_detailed_logs_off() {
    assert!(!ProxySettings::default().detailed_logs);
}

fn tier(model: &str, asked: Option<&str>, speed: Speed, priority_service: bool) -> Option<String> {
    ChatCompletionRequest {
        model: model.to_string(),
        messages: vec![message("user", "hello")],
        stream: true,
        service_tier: asked.map(str::to_string),
        reasoning_effort: None,
    }
    .to_codex_request(&ProxySettings {
        speed,
        priority_service,
        ..ProxySettings::default()
    })
    .expect("request should convert")
    .service_tier
}

#[test]
fn service_tiers_are_resolved() {
    assert_eq!(tier("m", Some("none"), Speed::Fast, true), None);
    assert_eq!(
        tier("m", Some("priority"), Speed::Normal, true).as_deref(),
        Some("priority")
    );
    assert_eq!(tier("m", Some("priority"), Speed::Normal, false), None);
    assert_eq!(
        tier("m", Some("flex"), Speed::Fast, false).as_deref(),
        Some("flex")
    );
    assert_eq!(tier("m", None, Speed::Normal, true), None);
    assert_eq!(tier("gpt-5.5-fast", None, Speed::Normal, false), None);
    assert_eq!(tier("m", None, Speed::Fast, false), None);
}

#[test]
fn other_models_go_upstream_as_they_are() {
    let upstream_request = ChatCompletionRequest {
        model: "something else".to_string(),
        messages: Vec::new(),
        stream: true,
        service_tier: None,
        reasoning_effort: Some(ReasoningEffort::Off),
    }
    .to_codex_request(&ProxySettings::default())
    .expect("request should convert");
    assert_eq!(upstream_request.model, "something else");
    assert_eq!(upstream_request.reasoning.effort, "none");
    assert!(!upstream_request.store);
    assert_eq!(upstream_request.instructions, "You are Codex.");
    assert!(upstream_request.input.is_empty());
}

#[test]
fn an_image_without_an_address_is_refused() {
    let request = |role: &str| ChatCompletionRequest {
        model: "gpt-5.5".to_string(),
        messages: vec![ChatMessage {
            role: role.to_string(),
            content: ChatMessageContent::Parts(vec![text_part("look"), image_part("")]),
        }],
        stream: false,
        service_tier: None,
        reasoning_effort: None,
    };
    match request("user").to_codex_request(&ProxySettings::default()) {
        Err(ProxyError::InvalidRequest(reason)) => {
            assert_eq!(reason, "image_url.url must not be empty")
        }
        _ => panic!("the request should be refused"),
    }
    let accepted = request("system")
        .to_codex_request(&ProxySettings::default())
        .expect("a system message with such an image is not part of the input");
    assert_eq!(accepted.instructions, "look");
}

#[test]
fn instructions_are_joined_with_empty_lines() {
    let messages = vec![
        message("system", "one"),
        message("user", "hello"),
        message("system", ""),
        message("system", "two"),
    ];
    assert_eq!(
        codex_instructions_from_messages(&messages),
        "one\n\n\n\ntwo"
    );
    let silent = vec![ChatMessage {
        role: "system".to_string(),
        content: ChatMessageContent::Parts(vec![image_part("http://example.com/a.png")]),
    }];
    assert_eq!(chat_message_text(&silent[0]), None);
    assert_eq!(codex_instructions_from_messages(&silent), "You are Codex.");
}

#[test]
fn input_keeps_the_order_of_the_conversation() {
    let upstream_request = ChatCompletionRequest {
        model: "gpt-5.5".to_string(),
        messages: vec![
            message("user", "first"),
            message("system", "rule"),
            message("assistant", "second"),
            message("System", "third"),
        ],
        stream: false,
        service_tier: None,
        reasoning_effort: None,
    }
    .to_codex_request(&ProxySettings::default())
    .expect("request should convert");
    assert_eq!(upstream_request.input.len(), 3);
    for (i, text) in ["first", "second", "third"].iter().enumerate() {
        assert_eq!(
            *content_item(&upstream_request, i, 0),
            text_object(&[("type", "input_text"), ("text", text)])
        );
        assert_eq!(
            upstream_request.input[i].get("type").and_then(JsonValue::as_str),
            Some("message")
        );
    }
}

#[test]
fn a_completion_holds_the_whole_answer() {
    let response = chat_completion_response_at(12, 13, "gpt-5.5-fast", "hi".to_string());
    assert_eq!(response.id, "chatcmpl-12");
    assert_eq!(response.created, 13);
    assert_eq!(response.object, "chat.completion");
    assert_eq!(response.model, "gpt-5.5-fast");
    assert_eq!(response.choices.len(), 1);
    assert_eq!(response.choices[0].index, 0);
    assert_eq!(response.choices[0].message.role, "assistant");
    assert_eq!(response.choices[0].message.content, "hi");
    assert_eq!(response.choices[0].finish_reason.as_deref(), Some("stop"));
}

#[test]
fn completions_are_dated_by_the_clock() {
    let seconds = || {
        std::time::SystemTime::now()
            .duration_since(std::time::UNIX_EPOCH)
            .expect("the clock is past the epoch")
            .as_secs()
    };
    let before = seconds();
    let response = chat_completion_response("m", String::new());
    let after = seconds();
    assert!(before <= response.created && response.created <= after);
    assert!(response.id.starts_with("chatcmpl-"));
    let id_seconds: u64 = response.id["chatcmpl-".len()..]
        .parse()
        .expect("the identifier ends with a number");
    assert!(before <= id_seconds && id_seconds <= after);
}

#[test]
fn stream_chunks_say_who_what_and_why() {
    let first = first_stream_chunk("m");
    assert_eq!(first.object, "chat.completion.chunk");
    assert_eq!(first.model, "m");
    assert_eq!(first.choices.len(), 1);
    assert_eq!(first.choices[0].delta.role, Some("assistant"));
    assert_eq!(first.choices[0].delta.content, None);
    assert_eq!(first.choices[0].finish_reason, None);

    let content = content_stream_chunk("m", "word".to_string());
    assert_eq!(content.choices[0].delta.role, None);
    assert_eq!(content.choices[0].delta.content.as_deref(), Some("word"));
    assert_eq!(content.choices[0].finish_reason, None);

    let last = final_stream_chunk("m");
    assert_eq!(last.choices[0].delta.role, None);
    assert_eq!(last.choices[0].delta.content, None);
    assert_eq!(last.choices[0].finish_reason.as_deref(), Some("stop"));

    let delta = ChatCompletionDelta {
        role: None,
        content: None,
    };
    assert_eq!(stream_chunk_at(7, 8, "m", delta, None).id, "chatcmpl-7");
}

#[test]
fn roles_are_kept_apart_wherever_they_stand() {
    let convert = |messages| {
        ChatCompletionRequest {
            model: "m".to_string(),
            messages,
            stream: false,
            service_tier: None,
            reasoning_effort: None,
        }
        .to_codex_request(&ProxySettings::default())
        .expect("request should convert")
    };
    let plain = convert(vec![message("user", "a"), message("system", "s"), message("user", "c")]);
    let more_rules = convert(vec![
        message("user", "a"),
        message("system", "r"),
        message("system", "s"),
        message("user", "c"),
    ]);
    assert_eq!(more_rules.input, plain.input);
    assert_eq!(more_rules.instructions, "r\n\ns");
    let longer = convert(vec![
        message("user", "a"),
        message("user", "b"),
        message("system", "s"),
        message("user", "c"),
    ]);
    assert_eq!(longer.instructions, plain.instructions);
    assert_eq!(longer.input.len(), 3);
    assert_eq!(longer.input[0], plain.input[0]);
    assert_eq!(longer.input[2], plain.input[1]);
}
