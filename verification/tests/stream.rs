use codex_proxy::error::ProxyError;
use codex_proxy::json::{parse_json, JsonField, JsonValue};
use codex_proxy::stream::{
    collect_openai_response_text, event_frames, extract_text_deltas,
    extract_text_deltas_from_buffer, frames_to_send, stream_error, text_delta_from_event, OpenAiStream,
    StreamPayload, DONE_PAYLOAD,
};

#[test]
fn stream_delta_extractor_reads_common_event_shapes() {
    let upstream_chunk = [
        "data: {\"type\":\"response.output_text.delta\",\"delta\":\"hello\"}",
        "data: {\"text\":\" world\"}",
        "data: [DONE]",
    ]
    .join("\n");

    assert_eq!(
        extract_text_deltas(&upstream_chunk),
        vec!["hello".to_string(), " world".to_string()]
    );
}

#[test]
fn stream_delta_extractor_ignores_completed_full_content() {
    let upstream_chunk = [
        "data: {\"type\":\"response.output_text.delta\",\"delta\":\"cure-all\"}",
        "data: {\"type\":\"response.completed\",\"content\":[{\"text\":\"cure-all\"}]}",
        "data: [DONE]",
    ]
    .join("\n");

    assert_eq!(
        extract_text_deltas(&upstream_chunk),
        vec!["cure-all".to_string()]
    );
}

#[test]
fn stream_delta_extractor_keeps_split_event_buffered() {
    let mut upstream_buffer = String::new();

    assert!(
        extract_text_deltas_from_buffer(&mut upstream_buffer, "data: {\"delta\":\"hel").is_empty()
    );
    assert_eq!(
        extract_text_deltas_from_buffer(&mut upstream_buffer, "lo\"}\n"),
        vec!["hello".to_string()]
    );
}

fn delta_of(text: &str) -> Option<String> {
    text_delta_from_event(&parse_json(text).expect("the event is JSON"))
}

#[test]
fn events_add_text_in_one_of_three_members() {
    assert_eq!(delta_of("{\"delta\":\"a\",\"text\":\"b\"}").as_deref(), Some("a"));
    assert_eq!(delta_of("{\"delta\":1,\"text\":\"b\"}").as_deref(), Some("b"));
    assert_eq!(delta_of("{\"output_text\":\"c\"}").as_deref(), Some("c"));
    assert_eq!(delta_of("{\"type\":\"x.done\",\"delta\":\"a\"}"), None);
    assert_eq!(delta_of("{\"type\":7,\"delta\":\"a\"}").as_deref(), Some("a"));
    assert_eq!(delta_of("{\"type\":\"x.delta\"}"), None);
    assert_eq!(delta_of("[1]"), None);
}

#[test]
fn lines_that_are_no_events_add_nothing() {
    let chunk = "event: message\r\ndata: {\"delta\":\"a\"}\r\n\r\ndata: not json\ndata:{\"delta\":\"b\"}\n";
    assert_eq!(extract_text_deltas(chunk), vec!["a".to_string()]);
    assert!(extract_text_deltas("").is_empty());
}

const STREAM: &str = "data: {\"delta\":\"Hel\"}\n\ndata: {\"delta\":\"lo \\u00e9\"}\r\n\ndata: [DONE]\n\ndata: {\"text\":\"!\"}";

#[test]
fn the_answer_does_not_depend_on_the_pieces() {
    let chars: Vec<char> = STREAM.chars().collect();
    for size in 1..chars.len() + 1 {
        let pieces: Vec<Result<String, ProxyError>> = chars
            .chunks(size)
            .map(|piece| Ok(piece.iter().collect()))
            .collect();
        let answer = collect_openai_response_text(pieces).expect("nothing failed");
        assert_eq!(answer, "Hello \u{e9}!");
    }
}

#[test]
fn the_first_failure_ends_the_answer() {
    let results = vec![
        Ok("data: {\"delta\":\"a\"}\n".to_string()),
        Err(ProxyError::UpstreamRequest("gone".to_string())),
        Err(ProxyError::MissingAuth),
    ];
    match collect_openai_response_text(results) {
        Err(ProxyError::UpstreamRequest(source)) => assert_eq!(source, "gone"),
        _ => panic!("the answer should fail"),
    }
}

fn said(payload: &StreamPayload) -> Option<&str> {
    match payload {
        StreamPayload::Chunk(chunk) => chunk.choices[0].delta.content.as_deref(),
        _ => panic!("the payload is a chunk"),
    }
}

#[test]
fn a_client_gets_the_answer_piece_by_piece() {
    let mut stream = OpenAiStream::new("gpt-5.5-fast");
    match stream.opening() {
        StreamPayload::Chunk(chunk) => {
            assert_eq!(chunk.model, "gpt-5.5-fast");
            assert_eq!(chunk.choices[0].delta.role, Some("assistant"));
        }
        _ => panic!("the opening is a chunk"),
    }
    let mut text = String::new();
    for piece in ["data: {\"delta\":\"on", "e\"}\ndata: {\"delta\":\" two\"}\n", "\n"] {
        for payload in stream.relay(Ok(piece.to_string())) {
            match &payload {
                StreamPayload::Chunk(chunk) => {
                    assert!(chunk.id.starts_with("chatcmpl-"));
                    assert!(chunk.id["chatcmpl-".len()..].parse::<u64>().is_ok());
                }
                _ => panic!("the payload is a chunk"),
            }
            text.push_str(said(&payload).expect("a piece of text"));
        }
    }
    assert_eq!(text, "one two");
    assert_eq!(stream.upstream_buffer, "");
    let closing = stream.closing();
    assert_eq!(closing.len(), 2);
    match &closing[0] {
        StreamPayload::Chunk(chunk) => {
            assert_eq!(chunk.choices[0].finish_reason.as_deref(), Some("stop"))
        }
        _ => panic!("the closing begins with a chunk"),
    }
    assert!(matches!(closing[1], StreamPayload::Done));
}

#[test]
fn a_failure_is_reported_within_the_stream() {
    let mut stream = OpenAiStream::new("m");
    assert!(stream.relay(Ok("data: {\"del".to_string())).is_empty());
    let payloads = stream.relay(Err(ProxyError::UpstreamRequest("gone".to_string())));
    assert_eq!(payloads.len(), 1);
    match &payloads[0] {
        StreamPayload::Error(value) => {
            assert_eq!(*value, stream_error("upstream request failed: gone"));
        }
        _ => panic!("the payload is an error"),
    }
    assert_eq!(stream.upstream_buffer, "data: {\"del");
    let expected = JsonValue::Object(vec![JsonField {
        key: "error".to_string(),
        value: JsonValue::Object(vec![
            JsonField {
                key: "message".to_string(),
                value: JsonValue::Text("oops".to_string()),
            },
            JsonField {
                key: "type".to_string(),
                value: JsonValue::Text("proxy_stream_error".to_string()),
            },
            JsonField {
                key: "code".to_string(),
                value: JsonValue::Null,
            },
        ]),
    }]);
    assert_eq!(stream_error("oops"), expected);
}

#[test]
fn events_are_framed() {
    assert_eq!(event_frames(&Vec::new()), "");
    assert_eq!(
        event_frames(&vec!["{}".to_string(), DONE_PAYLOAD.to_string()]),
        "data: {}\n\ndata: [DONE]\n\n"
    );
    let frame = event_frames(&vec!["{\"delta\":\"x\"}".to_string()]);
    assert_eq!(extract_text_deltas(&frame), vec!["x".to_string()]);
}

#[test]
fn nothing_empty_is_sent() {
    assert_eq!(frames_to_send(&Vec::new()), None);
    assert_eq!(
        frames_to_send(&vec![String::new()]).as_deref(),
        Some("data: \n\n")
    );
}

#[test]
fn later_pieces_come_through_after_a_failure() {
    let mut stream = OpenAiStream::new("m");
    assert!(stream.relay(Ok("data: {\"delta\":\"a".to_string())).is_empty());
    assert_eq!(stream.relay(Err(ProxyError::MissingAuth)).len(), 1);
    let payloads = stream.relay(Ok("b\"}\n".to_string()));
    assert_eq!(payloads.len(), 1);
    assert_eq!(said(&payloads[0]), Some("ab"));
}
