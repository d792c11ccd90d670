use codex_proxy::diagnostics::{
    chat_request_stats, count_input_images, log_bodies_enabled, logged_body, sanitize_json_value,
    sanitize_string, LoggedBody,
};
use codex_proxy::json::{parse_json, parse_json_bytes, take_value, JsonField, JsonValue};
use codex_proxy::openai::{
    ChatCompletionRequest, ChatMessage, ChatMessageContent, ChatMessageContentPart, ImageUrlPart,
};

#[test]
fn requests_are_counted() {
    let request = ChatCompletionRequest {
        model: "m".to_string(),
        messages: vec![
            ChatMessage {
                role: "system".to_string(),
                content: ChatMessageContent::Text("h\u{e9}".to_string()),
            },
            ChatMessage {
                role: "user".to_string(),
                content: ChatMessageContent::Parts(vec![
                    ChatMessageContentPart::Text {
                        text: "abc".to_string(),
                    },
                    ChatMessageContentPart::ImageUrl {
                        image_url: ImageUrlPart { url: String::new() },
                    },
                    ChatMessageContentPart::ImageUrl {
                        image_url: ImageUrlPart {
                            url: "x".to_string(),
                        },
                    },
                ]),
            },
        ],
        stream: false,
        service_tier: None,
        reasoning_effort: None,
    };
    let stats = chat_request_stats(&request).expect("the counts fit");
    assert_eq!(stats.roles, "system,user");
    assert_eq!(stats.text_chars, 5);
    assert_eq!(stats.image_parts, 2);
}

#[test]
fn bodies_are_logged_on_demand() {
    assert!(log_bodies_enabled(true, None));
    assert!(!log_bodies_enabled(false, None));
    for value in ["1", "true", "TRUE", "yes", "YES"] {
        assert!(log_bodies_enabled(false, Some(value)));
    }
    for value in ["", "0", "True", "no", "1 "] {
        assert!(!log_bodies_enabled(false, Some(value)));
    }
}

#[test]
fn pictures_are_not_logged() {
    assert_eq!(
        sanitize_string("data:image/png;base64,abcd\u{e9}"),
        "data:image/png;base64,<redacted 6 chars>"
    );
    assert_eq!(
        sanitize_string("data:a;base64,b;base64,c"),
        "data:a;base64,<redacted 10 chars>"
    );
    assert_eq!(sanitize_string("image/png;base64,abcd"), "image/png;base64,abcd");
    assert_eq!(sanitize_string("data:text/plain,abcd"), "data:text/plain,abcd");
    assert_eq!(sanitize_string(""), "");
}

fn json(text: &str) -> JsonValue {
    parse_json(text).expect("the text is JSON")
}

#[test]
fn secrets_are_not_logged() {
    let value = json(
        "{\"access_token\":{\"a\":1},\"authorization\":\"Bearer x\",\"author\":[1],\"deep\":[{\"tokens\":3,\"url\":\"data:a;base64,xyz\"},null,true,1.5],\"name\":\"n\"}",
    );
    let shown = json(
        "{\"access_token\":\"<redacted>\",\"authorization\":\"<redacted>\",\"author\":\"<redacted>\",\"deep\":[{\"tokens\":\"<redacted>\",\"url\":\"data:a;base64,<redacted 3 chars>\"},null,true,1.5],\"name\":\"n\"}",
    );
    assert_eq!(sanitize_json_value(&value), shown);
    let other = json("{\"token\":1,\"x\":2}");
    let another = json("{\"token\":[7,8],\"x\":2}");
    assert_eq!(sanitize_json_value(&other), sanitize_json_value(&another));
    let deep = json("[{\"a\":{\"auth\":1,\"b\":[{\"token\":2}]}}]");
    let deep_too = json("[{\"a\":{\"auth\":\"x\",\"b\":[{\"token\":{}}]}}]");
    assert_eq!(sanitize_json_value(&deep), sanitize_json_value(&deep_too));
}

#[test]
fn input_images_are_counted_at_any_depth() {
    let value = json(
        "{\"type\":\"input_image\",\"a\":[{\"type\":\"input_image\"},{\"type\":\"input_text\"},[{\"x\":{\"type\":\"input_image\"}}]],\"b\":\"input_image\",\"c\":{\"type\":1}}",
    );
    assert_eq!(count_input_images(&value), Some(3));
    assert_eq!(count_input_images(&JsonValue::Null), Some(0));
}

#[test]
fn bodies_that_are_no_json_are_measured() {
    match logged_body(b"{\"token\":1}") {
        LoggedBody::Json(shown) => assert_eq!(shown, json("{\"token\":\"<redacted>\"}")),
        _ => panic!("the body is JSON"),
    }
    match logged_body(b"{\"token\"") {
        LoggedBody::Malformed { reason, body_bytes } => {
            assert_eq!(reason, "EOF while parsing an object at line 1 column 8");
            assert_eq!(body_bytes, 8);
        }
        _ => panic!("the body is not JSON"),
    }
    assert!(parse_json_bytes(b"\"\xff\"").is_err());
}

#[test]
fn json_is_taken_over_layer_by_layer() {
    let value = json("{\"b\":[1,-2.5,\"t\",null,false],\"a\":{}}");
    let expected = JsonValue::Object(vec![
        JsonField {
            key: "a".to_string(),
            value: JsonValue::Object(Vec::new()),
        },
        JsonField {
            key: "b".to_string(),
            value: JsonValue::Array(vec![
                JsonValue::Number("1".to_string()),
                JsonValue::Number("-2.5".to_string()),
                JsonValue::Text("t".to_string()),
                JsonValue::Null,
                JsonValue::Bool(false),
            ]),
        },
    ]);
    assert_eq!(value, expected);
    assert_eq!(take_value(serde_json::Value::Bool(true)), JsonValue::Bool(true));
    assert_eq!(value.get("missing"), None);
    assert_eq!(JsonValue::Null.get("a"), None);
    assert_eq!(parse_json("{\"a\":1} x"), None);
}

#[test]
fn every_image_of_the_conversation_is_forwarded() {
    let image = || ChatMessageContentPart::ImageUrl {
        image_url: ImageUrlPart {
            url: "http://example.com/a.png".to_string(),
        },
    };
    let message = |role: &str, images: usize| ChatMessage {
        role: role.to_string(),
        content: ChatMessageContent::Parts((0..images).map(|_| image()).collect()),
    };
    let upstream_request = ChatCompletionRequest {
        model: "m".to_string(),
        messages: vec![message("user", 2), message("system", 4), message("assistant", 1)],
        stream: false,
        service_tier: None,
        reasoning_effort: None,
    }
    .to_codex_request(&codex_proxy::config::ProxySettings::default())
    .expect("the images have addresses");
    assert_eq!(count_input_images(&JsonValue::Array(upstream_request.input)), Some(3));
}
