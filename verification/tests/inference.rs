use chat_backend::inference::finish_response;
use chat_backend::inference::handle_upstream_response;
use chat_backend::inference::plan_request;
use chat_backend::inference::InferenceError;
use chat_backend::inference::UpstreamOutcome;
use chat_backend::textfmt::json_escape;
use chat_backend::textfmt::u16_to_decimal;

#[test]
fn missing_token_is_a_configuration_error() {
    // Without a token there is no request value at all, so nothing can be sent.
    let planned = plan_request("any message", None);
    assert_eq!(planned.err(), Some(InferenceError::MissingToken));
}

#[test]
fn missing_token_message_names_the_variable() {
    let planned = plan_request("hello", None);
    let message = planned.err().unwrap().message();
    assert_eq!(message, "HF_TOKEN not set: environment variable not found");
}

#[test]
fn planned_request_carries_endpoint_header_and_payload() {
    let request = plan_request("hi", Some("tok".to_string())).unwrap();
    assert_eq!(
        request.url,
        "https://api-inference.huggingface.co/models/gpt2"
    );
    assert_eq!(request.auth_header, "Bearer tok");
    assert_eq!(request.payload, "{\"inputs\":\"hi\"}");
}

#[test]
fn payload_round_trips_through_a_json_parser() {
    let message = "a \"quoted\" back\\slash\nand tab\tdone";
    let request = plan_request(message, Some("t".to_string())).unwrap();
    let value: serde_json::Value = serde_json::from_str(&request.payload).unwrap();
    assert_eq!(value.get("inputs").unwrap().as_str().unwrap(), message);
}

#[test]
fn payload_of_empty_message() {
    let request = plan_request("", Some("t".to_string())).unwrap();
    assert_eq!(request.payload, "{\"inputs\":\"\"}");
}

#[test]
fn escaping_quotes_backslashes_and_controls() {
    let escaped = json_escape("a\"b\\c\nd");
    assert_eq!(escaped, "a\\\"b\\\\c\\u000ad");
}

#[test]
fn escaping_leaves_plain_text_alone() {
    assert_eq!(json_escape("plain text, no specials"), "plain text, no specials");
}

#[test]
fn success_body_yields_generated_text() {
    let result = handle_upstream_response(200, "[{\"generated_text\": \"hello\"}]".to_string());
    assert_eq!(result, Ok("hello".to_string()));
}

#[test]
fn missing_field_is_text_not_found() {
    let result = handle_upstream_response(200, "[{}]".to_string());
    assert_eq!(result, Err(InferenceError::TextNotFound));
    let message = result.err().unwrap().message();
    assert!(message.contains("not found"));
}

#[test]
fn empty_array_is_text_not_found() {
    let result = handle_upstream_response(200, "[]".to_string());
    assert_eq!(result, Err(InferenceError::TextNotFound));
}

#[test]
fn non_json_body_is_text_not_found() {
    let result = handle_upstream_response(200, "no json here".to_string());
    assert_eq!(result, Err(InferenceError::TextNotFound));
}

#[test]
fn non_string_field_is_text_not_found() {
    let result = handle_upstream_response(200, "[{\"generated_text\": 5}]".to_string());
    assert_eq!(result, Err(InferenceError::TextNotFound));
}

#[test]
fn error_status_reports_status_and_body() {
    let result = handle_upstream_response(500, "\"boom\"".to_string());
    let message = result.err().unwrap().message();
    assert!(message.contains("500"));
    assert!(message.contains("\"boom\""));
    assert_eq!(message, "Hugging Face API error: 500 - \"boom\"");
}

#[test]
fn status_boundaries_of_success() {
    assert!(handle_upstream_response(299, "[]".to_string()).is_err());
    assert_eq!(
        handle_upstream_response(299, "[{\"generated_text\": \"x\"}]".to_string()),
        Ok("x".to_string())
    );
    let low = handle_upstream_response(199, "[{\"generated_text\": \"x\"}]".to_string());
    assert_eq!(
        low,
        Err(InferenceError::Upstream { status: 199, body: "[{\"generated_text\": \"x\"}]".to_string() })
    );
    let high = handle_upstream_response(300, "body".to_string());
    assert_eq!(
        high,
        Err(InferenceError::Upstream { status: 300, body: "body".to_string() })
    );
}

#[test]
fn transport_failure_keeps_the_description() {
    let outcome = UpstreamOutcome::TransportFailure("connection refused".to_string());
    let result = finish_response(outcome);
    assert_eq!(
        result,
        Err(InferenceError::Transport("connection refused".to_string()))
    );
    let message = result.err().unwrap().message();
    assert_eq!(
        message,
        "Failed to send request to Hugging Face API: connection refused"
    );
}

#[test]
fn finish_response_routes_responses() {
    let outcome = UpstreamOutcome::Response {
        status: 200,
        body: "[{\"generated_text\": \"routed\"}]".to_string(),
    };
    assert_eq!(finish_response(outcome), Ok("routed".to_string()));
}

#[test]
fn decimal_rendering_of_status_codes() {
    assert_eq!(u16_to_decimal(0), "0");
    assert_eq!(u16_to_decimal(7), "7");
    assert_eq!(u16_to_decimal(500), "500");
    assert_eq!(u16_to_decimal(65535), "65535");
}
