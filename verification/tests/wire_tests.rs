use akkurate::json::{parse_json, Json};
use akkurate::wire::{build_request_body, decode_envelope, escape_json, request_url, LlmError};

#[test]
fn url_carries_credential_as_query_parameter() {
    assert_eq!(
        request_url("SECRET-REDACTED"),
        "https://generativelanguage.googleapis.com/v1beta/models/gemini-3-flash-preview:generateContent?key=SECRET-REDACTED"
    );
}

#[test]
fn escaping_covers_quotes_backslashes_and_controls() {
    assert_eq!(escape_json("plain"), "plain");
    assert_eq!(escape_json("a\"b\\c"), "a\\\"b\\\\c");
    assert_eq!(escape_json("line\nbreak\tand\rmore"), "line\\nbreak\\tand\\rmore");
    assert_eq!(escape_json("\u{8}\u{c}\u{1}\u{1f}"), "\\b\\f\\u0001\\u001f");
    assert_eq!(escape_json("中文"), "中文");
}

#[test]
fn request_body_has_the_fixed_envelope() {
    assert_eq!(
        build_request_body("hi"),
        "{\"contents\":[{\"parts\":[{\"text\":\"hi\"}]}],\"generation_config\":{\"temperature\":0.2,\"responseMimeType\":\"application/json\"}}"
    );
}

#[test]
fn request_body_parses_back_to_the_prompt() {
    let prompt = "Check \"this\"\nplease 中文";
    let body = build_request_body(prompt);
    let v = parse_json(&body).expect("the framed body is well-formed JSON");
    let contents = match v.get("contents") {
        Some(Json::Arr(items)) => items,
        _ => panic!("expected contents"),
    };
    let parts = match contents[0].get("parts") {
        Some(Json::Arr(items)) => items,
        _ => panic!("expected parts"),
    };
    match parts[0].get("text") {
        Some(Json::Str(t)) => assert_eq!(t, prompt),
        _ => panic!("expected the prompt text"),
    }
    match v.get("generation_config").and_then(|g| g.get("temperature")) {
        Some(Json::Num(n)) => assert_eq!(n, "0.2"),
        _ => panic!("expected the temperature"),
    }
}

#[test]
fn envelope_happy_path_yields_first_candidate_text() {
    let body = "{\"candidates\":[{\"content\":{\"parts\":[{\"text\":\"answer one\"},{\"text\":\"ignored\"}]}},{\"content\":{\"parts\":[{\"text\":\"ignored too\"}]}}],\"modelVersion\":\"x\"}";
    assert_eq!(decode_envelope(body).unwrap(), "answer one");
}

#[test]
fn empty_candidates_is_an_empty_response_error() {
    match decode_envelope("{\"candidates\":[]}") {
        Err(LlmError::EmptyResponse(m)) => assert_eq!(m, "No candidates returned"),
        _ => panic!("expected an empty-response error"),
    }
}

#[test]
fn empty_parts_is_an_empty_response_error() {
    match decode_envelope("{\"candidates\":[{\"content\":{\"parts\":[]}}]}") {
        Err(LlmError::EmptyResponse(m)) => assert_eq!(m, "No parts returned"),
        _ => panic!("expected an empty-response error"),
    }
}

#[test]
fn malformed_envelopes_are_decode_errors() {
    for body in [
        "not json at all",
        "[]",
        "{\"candidates\":{}}",
        "{\"other\":1}",
        "{\"candidates\":[{\"content\":{}}]}",
        "{\"candidates\":[{\"content\":{\"parts\":[{\"text\":5}]}}]}",
    ] {
        match decode_envelope(body) {
            Err(LlmError::Decode(m)) => assert_eq!(m, "Failed to parse Gemini response"),
            _ => panic!("expected a decode error for {body:?}"),
        }
    }
}

#[test]
fn error_messages_render() {
    assert_eq!(
        LlmError::Transport(String::from("connection refused")).message(),
        "Failed to send request to Gemini API: connection refused"
    );
    assert_eq!(
        LlmError::Remote(403, String::from("denied")).message(),
        "Gemini API error (403): denied"
    );
    assert_eq!(LlmError::Decode(String::from("Failed to parse JSON")).message(), "Failed to parse JSON");
    assert_eq!(
        LlmError::EmptyResponse(String::from("No candidates returned")).message(),
        "No candidates returned"
    );
}
