use titan_prompt::{hello_world, CodecError, TitanRequest, TitanResponse, TitanTextResult};

fn candidate(text: &str) -> TitanTextResult {
    TitanTextResult {
        token_count: 3,
        output_text: text.to_string(),
        completion_reason: "FINISH".to_string(),
    }
}

fn payload_text(prompt: &str) -> String {
    let bytes = TitanRequest::new(prompt.to_string()).encode().unwrap();
    String::from_utf8(bytes).unwrap()
}

#[test]
fn hello_prompt_payload_carries_fixed_settings() {
    let text = payload_text("hello");
    assert!(text.contains("\"temperature\":0.0"));
    assert!(text.contains("\"topP\":0.0"));
    assert!(text.contains("\"maxTokenCount\":100"));
    assert!(text.contains("\"stopSequences\":[\"|\"]"));
    assert!(text.contains("\"inputText\":\"hello\""));
}

#[test]
fn hello_prompt_payload_is_exact() {
    assert_eq!(
        payload_text("hello"),
        "{\"inputText\":\"hello\",\"textGenerationConfig\":{\"temperature\":0.0,\"topP\":0.0,\"maxTokenCount\":100,\"stopSequences\":[\"|\"]}}"
    );
}

#[test]
fn prompt_with_reserved_characters_is_escaped() {
    let text = payload_text("say \"hi\"\n\\");
    assert!(text.starts_with("{\"inputText\":\"say \\\"hi\\\"\\n\\\\\","));
}

#[test]
fn payload_round_trips_through_json() {
    for prompt in ["hello", "", "quote \" and backslash \\", "line\nbreak\ttab", "caf\u{e9} \u{1F600}", "\u{1}"] {
        let bytes = TitanRequest::new(prompt.to_string()).encode().unwrap();
        let value: serde_json::Value = serde_json::from_slice(&bytes).unwrap();
        assert_eq!(value["inputText"].as_str(), Some(prompt));
        assert_eq!(value["textGenerationConfig"]["maxTokenCount"].as_i64(), Some(100));
        assert_eq!(value["textGenerationConfig"]["stopSequences"][0].as_str(), Some("|"));
        assert_eq!(value["textGenerationConfig"]["temperature"].as_f64(), Some(0.0));
        assert_eq!(value["textGenerationConfig"]["topP"].as_f64(), Some(0.0));
    }
}

#[test]
fn request_keeps_prompt() {
    let request = TitanRequest::new("tell me a story".to_string());
    assert_eq!(request.input_text(), "tell me a story");
}

#[test]
fn first_text_of_empty_result_fails() {
    let response = TitanResponse { input_text_token_count: 5, results: Vec::new() };
    assert_eq!(response.first_text(), Err(CodecError::EmptyResult));
}

#[test]
fn first_text_takes_first_candidate() {
    let response = TitanResponse {
        input_text_token_count: 5,
        results: vec![candidate("first"), candidate("second")],
    };
    assert_eq!(response.first_text(), Ok("first".to_string()));
    assert_eq!(response.first_text(), Ok("first".to_string()));
}

#[test]
fn first_text_of_single_candidate() {
    let response = TitanResponse { input_text_token_count: 0, results: vec![candidate("")] };
    assert_eq!(response.first_text(), Ok(String::new()));
}

#[test]
fn status_codes_of_errors() {
    assert_eq!(CodecError::Encoding.status_code(), 400);
    assert_eq!(CodecError::Decoding.status_code(), 500);
    assert_eq!(CodecError::EmptyResult.status_code(), 500);
    assert_eq!(CodecError::Channel.status_code(), 502);
}

#[test]
fn greeting_text() {
    assert_eq!(hello_world(), "Hello, world!");
}
