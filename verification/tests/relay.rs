use llm_relay::classify::{classify_request, InboundError};
use llm_relay::model::{
    ChatMessage, ContentPart, InboundFields, InboundRequest, MessageContent, ReplyBody, ReplyMode,
    UpstreamOutcome,
};
use llm_relay::numtext::u16_to_string;
use llm_relay::outcome::map_upstream_outcome;
use llm_relay::payload::{build_payload, system_instruction, text_model, vision_model};
use llm_relay::relay::prepare_request;

fn fields(
    prompt: Option<&str>,
    message: Option<&str>,
    image_url: Option<&str>,
    image_base64: Option<&str>,
    messages: Option<Vec<ChatMessage>>,
) -> InboundFields {
    InboundFields {
        prompt: prompt.map(|s| s.to_string()),
        message: message.map(|s| s.to_string()),
        image_url: image_url.map(|s| s.to_string()),
        image_base64: image_base64.map(|s| s.to_string()),
        messages,
    }
}

fn http(status: u16, body: &str) -> UpstreamOutcome {
    UpstreamOutcome::Http { status, body: body.to_string() }
}

#[test]
fn prompt_selects_instruction_and_model() {
    let r = prepare_request(true, fields(Some("add totals"), None, None, None, None));
    let p = r.expect("a valid prompt must yield a payload");
    assert_eq!(p.model, text_model());
    assert_eq!(p.messages.len(), 2);
    assert_eq!(p.messages[0].role, "system");
    assert_eq!(p.messages[0].content, MessageContent::Text(system_instruction()));
    assert_eq!(p.messages[1].role, "user");
    assert_eq!(p.messages[1].content, MessageContent::Text("add totals".to_string()));
    assert_eq!(p.temperature_tenths, 5);
    assert_eq!(p.max_tokens, 1024);
}

#[test]
fn vision_message_builds_two_part_content() {
    let r = classify_request(fields(None, Some("describe"), Some("http://x/y.png"), None, None));
    let req = r.expect("message with image must classify");
    let p = build_payload(req);
    assert_eq!(p.model, vision_model());
    assert_eq!(p.messages.len(), 1);
    assert_eq!(p.messages[0].role, "user");
    assert_eq!(
        p.messages[0].content,
        MessageContent::Parts(vec![
            ContentPart::Text("describe".to_string()),
            ContentPart::ImageUrl("http://x/y.png".to_string()),
        ])
    );
}

#[test]
fn base64_image_used_when_no_url() {
    let r = classify_request(fields(None, Some("describe"), None, Some("data:abc123"), None));
    assert_eq!(
        r,
        Ok(InboundRequest::VisionPrompt {
            message: "describe".to_string(),
            image: "data:abc123".to_string(),
        })
    );
}

#[test]
fn image_url_wins_over_base64() {
    let r = classify_request(fields(
        None,
        Some("describe"),
        Some("http://x/y.png"),
        Some("data:abc123"),
        None,
    ));
    assert_eq!(
        r,
        Ok(InboundRequest::VisionPrompt {
            message: "describe".to_string(),
            image: "http://x/y.png".to_string(),
        })
    );
}

#[test]
fn plain_message_selects_text_model() {
    let r = classify_request(fields(None, Some("hello"), None, None, None));
    let req = r.expect("a plain message must classify");
    let p = build_payload(req);
    assert_eq!(p.model, text_model());
    assert_eq!(p.messages.len(), 1);
    assert_eq!(p.messages[0].role, "user");
    assert_eq!(p.messages[0].content, MessageContent::Text("hello".to_string()));
}

#[test]
fn history_passes_through_unchanged() {
    let history = vec![
        ChatMessage { role: "user".to_string(), content: MessageContent::Text("hi".to_string()) },
        ChatMessage {
            role: "assistant".to_string(),
            content: MessageContent::Text("yo".to_string()),
        },
    ];
    let r = classify_request(fields(None, None, None, None, Some(history.clone())));
    let req = r.expect("a history must classify");
    let p = build_payload(req);
    assert_eq!(p.model, text_model());
    assert_eq!(p.messages, history);
}

#[test]
fn missing_input_rejected_without_call() {
    let r = prepare_request(true, fields(None, None, None, None, None));
    // An `Err` carries no payload, so nothing is ever sent upstream.
    let rep = r.expect_err("no input must be rejected");
    assert_eq!(rep.status, 400);
    assert_eq!(rep.body, ReplyBody::Error("No valid input provided".to_string()));
}

#[test]
fn blank_message_rejected() {
    let r = classify_request(fields(None, Some("   \t "), Some("http://x/y.png"), None, None));
    assert_eq!(r, Err(InboundError::BlankMessage));
    let rep = prepare_request(true, fields(None, Some("   \t "), None, None, None))
        .expect_err("a blank message must be rejected");
    assert_eq!(rep.status, 400);
    assert_eq!(rep.body, ReplyBody::Error("Message is empty or whitespace-only".to_string()));
}

#[test]
fn blank_prompt_rejected() {
    let rep = prepare_request(true, fields(Some(""), None, None, None, None))
        .expect_err("a blank prompt must be rejected");
    assert_eq!(rep.status, 400);
    assert_eq!(rep.body, ReplyBody::Error("Prompt is empty or whitespace-only".to_string()));
}

#[test]
fn missing_key_gives_500_without_call() {
    let rep = prepare_request(false, fields(Some("add totals"), None, None, None, None))
        .expect_err("a missing credential must be rejected");
    assert_eq!(rep.status, 500);
    assert_eq!(rep.body, ReplyBody::Error("API key not found".to_string()));
}

#[test]
fn upstream_error_propagates_status_and_body() {
    let r = map_upstream_outcome(http(503, "rate limited"), ReplyMode::Lenient);
    assert_eq!(r.status, 503);
    let text = match r.body {
        ReplyBody::Error(t) => t,
        other => panic!("expected an error body, got {:?}", other),
    };
    assert_eq!(text, "Groq API returned an error: 503 - rate limited");
    assert!(text.contains("503"));
    assert!(text.contains("rate limited"));
}

#[test]
fn action_list_returned_for_json_array() {
    let body = r#"{"choices":[{"message":{"content":"[{\"cell\":\"A1\",\"value\":\"Total\"}]"}}]}"#;
    let r = map_upstream_outcome(http(200, body), ReplyMode::Strict);
    assert_eq!(r.status, 200);
    assert_eq!(
        r.body,
        ReplyBody::Actions(r#"[{"cell":"A1","value":"Total"}]"#.to_string())
    );
}

#[test]
fn non_json_content_rejected_in_strict_mode() {
    let body = r#"{"choices":[{"message":{"content":"not json"}}]}"#;
    let r = map_upstream_outcome(http(200, body), ReplyMode::Strict);
    assert_eq!(r.status, 422);
    let text = match r.body {
        ReplyBody::Error(t) => t,
        other => panic!("expected an error body, got {:?}", other),
    };
    assert!(text.contains("invalid JSON"));
}

#[test]
fn json_non_array_rejected_in_strict_mode() {
    let body = r#"{"choices":[{"message":{"content":"{\"cell\":\"A1\"}"}}]}"#;
    let r = map_upstream_outcome(http(200, body), ReplyMode::Strict);
    assert_eq!(r.status, 422);
    assert_eq!(
        r.body,
        ReplyBody::Error("Model reply is valid JSON but not a JSON array".to_string())
    );
}

#[test]
fn transport_failure_gives_504() {
    let r = map_upstream_outcome(
        UpstreamOutcome::Transport("request timed out".to_string()),
        ReplyMode::Lenient,
    );
    assert_eq!(r.status, 504);
    assert_eq!(r.body, ReplyBody::Error("Groq API failed: request timed out".to_string()));
}

#[test]
fn lenient_reply_is_trimmed() {
    let body = "{\"choices\":[{\"message\":{\"content\":\"  hi there \\n\"}}]}";
    let r = map_upstream_outcome(http(200, body), ReplyMode::Lenient);
    assert_eq!(r.status, 200);
    assert_eq!(r.body, ReplyBody::Reply("hi there".to_string()));
}

#[test]
fn strict_array_found_after_trimming() {
    let body = "{\"choices\":[{\"message\":{\"content\":\"  [1, 2, 3] \"}}]}";
    let r = map_upstream_outcome(http(200, body), ReplyMode::Strict);
    assert_eq!(r.status, 200);
    assert_eq!(r.body, ReplyBody::Actions("[1, 2, 3]".to_string()));
}

#[test]
fn malformed_body_gives_parse_error() {
    for body in ["oops not json", "{\"nothing\":1}", r#"{"choices":[{"message":{}}]}"#] {
        let r = map_upstream_outcome(http(200, body), ReplyMode::Lenient);
        assert_eq!(r.status, 500);
        assert_eq!(r.body, ReplyBody::Error("Failed to parse API response".to_string()));
    }
}

#[test]
fn empty_choices_gives_no_choices_error() {
    let r = map_upstream_outcome(http(200, r#"{"choices":[]}"#), ReplyMode::Lenient);
    assert_eq!(r.status, 500);
    assert_eq!(r.body, ReplyBody::Error("No choices found in API response".to_string()));
}

#[test]
fn status_band_edges() {
    let r = map_upstream_outcome(http(199, "early"), ReplyMode::Lenient);
    assert_eq!(r.status, 199);
    assert_eq!(r.body, ReplyBody::Error("Groq API returned an error: 199 - early".to_string()));
    let r = map_upstream_outcome(http(300, "moved"), ReplyMode::Lenient);
    assert_eq!(r.status, 300);
    assert_eq!(r.body, ReplyBody::Error("Groq API returned an error: 300 - moved".to_string()));
    // 204 sits inside the success band: its (empty) body is parsed, and fails.
    let r = map_upstream_outcome(http(204, ""), ReplyMode::Lenient);
    assert_eq!(r.status, 500);
    assert_eq!(r.body, ReplyBody::Error("Failed to parse API response".to_string()));
}

#[test]
fn status_digits_rendered() {
    assert_eq!(u16_to_string(0), "0");
    assert_eq!(u16_to_string(7), "7");
    assert_eq!(u16_to_string(10), "10");
    assert_eq!(u16_to_string(503), "503");
    assert_eq!(u16_to_string(65535), "65535");
}
