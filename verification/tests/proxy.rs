use tts_proxy::body::build_tts_body;
use tts_proxy::greet::greet;
use tts_proxy::request::bearer_header_value;
use tts_proxy::request::default_format;
use tts_proxy::request::default_model;
use tts_proxy::request::tts_endpoint;
use tts_proxy::request::TtsRequest;
use tts_proxy::response::synthesize_outcome;
use tts_proxy::response::HttpOutcome;

fn request(text: &str, api_key: &str, reference_id: &str) -> TtsRequest {
    TtsRequest::new(
        text.to_string(),
        api_key.to_string(),
        reference_id.to_string(),
        None,
        None,
    )
}

#[test]
fn success_returns_base64_audio() {
    let r = synthesize_outcome(HttpOutcome::SuccessBody { bytes: vec![0x01, 0x02] });
    assert!(r.success);
    assert_eq!(r.audio_base64, Some("AQI=".to_string()));
    assert_eq!(r.error, None);
}

#[test]
fn success_empty_body_gives_empty_audio() {
    let r = synthesize_outcome(HttpOutcome::SuccessBody { bytes: vec![] });
    assert!(r.success);
    assert_eq!(r.audio_base64, Some(String::new()));
    assert_eq!(r.error, None);
}

#[test]
fn api_error_carries_status_and_body() {
    let r = synthesize_outcome(HttpOutcome::ErrorStatus {
        code: 401,
        body: "invalid key".to_string(),
    });
    assert!(!r.success);
    assert_eq!(r.audio_base64, None);
    assert_eq!(
        r.error,
        Some("API error 401 Unauthorized: invalid key".to_string())
    );
}

#[test]
fn api_error_without_registered_reason() {
    let r = synthesize_outcome(HttpOutcome::ErrorStatus {
        code: 599,
        body: "upstream gone".to_string(),
    });
    assert!(!r.success);
    assert_eq!(r.error, Some("API error 599: upstream gone".to_string()));
}

#[test]
fn api_error_renders_every_decimal_digit() {
    let r = synthesize_outcome(HttpOutcome::ErrorStatus {
        code: 65530,
        body: String::new(),
    });
    assert_eq!(r.error, Some("API error 65530: ".to_string()));
}

#[test]
fn transport_failure_names_the_detail() {
    let r = synthesize_outcome(HttpOutcome::Transport {
        detail: "connection refused".to_string(),
    });
    assert!(!r.success);
    assert_eq!(r.audio_base64, None);
    let message = r.error.expect("a transport failure carries a message");
    assert_eq!(message, "request failed: connection refused");
    assert!(!message.is_empty());
    assert!(!message.chars().any(|c| c.is_ascii_digit()));
}

#[test]
fn read_failure_names_the_detail() {
    let r = synthesize_outcome(HttpOutcome::SuccessUnreadable {
        detail: "timed out".to_string(),
    });
    assert!(!r.success);
    assert_eq!(r.audio_base64, None);
    assert_eq!(r.error, Some("failed to read response: timed out".to_string()));
}

#[test]
fn exactly_one_side_is_populated_for_every_outcome() {
    let outcomes = vec![
        HttpOutcome::Transport { detail: "x".to_string() },
        HttpOutcome::SuccessBody { bytes: vec![9, 8, 7] },
        HttpOutcome::SuccessUnreadable { detail: "y".to_string() },
        HttpOutcome::ErrorStatus { code: 500, body: "z".to_string() },
    ];
    for outcome in outcomes {
        let r = synthesize_outcome(outcome);
        assert_eq!(r.success, r.audio_base64.is_some());
        assert_eq!(r.success, r.error.is_none());
        assert!(r.audio_base64.is_some() != r.error.is_some());
    }
}

#[test]
fn omitted_model_and_format_take_defaults() {
    let r = request("hello", "k1", "ref1");
    assert_eq!(r.model, "s1");
    assert_eq!(r.format, "mp3");
    assert_eq!(default_model(), "s1");
    assert_eq!(default_format(), "mp3");
}

#[test]
fn given_model_and_format_are_kept() {
    let r = TtsRequest::new(
        "hello".to_string(),
        "k1".to_string(),
        "ref1".to_string(),
        Some("s2".to_string()),
        Some("wav".to_string()),
    );
    assert_eq!(r.model, "s2");
    assert_eq!(r.format, "wav");
}

#[test]
fn body_holds_the_three_fields_and_no_credential() {
    let body = build_tts_body(&request("hello", "k1", "ref1"));
    assert_eq!(
        body,
        br#"{"text":"hello","reference_id":"ref1","format":"mp3"}"#.to_vec()
    );
    let text = String::from_utf8(body).unwrap();
    assert!(!text.contains("k1"));
    assert!(!text.contains("model"));
}

#[test]
fn body_propagates_the_chosen_format() {
    let r = TtsRequest::new(
        "hi".to_string(),
        "k".to_string(),
        "v".to_string(),
        None,
        Some("wav".to_string()),
    );
    let body = String::from_utf8(build_tts_body(&r)).unwrap();
    assert!(body.contains(r#""format":"wav""#));
}

#[test]
fn body_escapes_json_text() {
    let r = TtsRequest::new(
        "a\"b\\c\nd\u{1}e".to_string(),
        "k".to_string(),
        "v".to_string(),
        None,
        None,
    );
    let body = String::from_utf8(build_tts_body(&r)).unwrap();
    assert_eq!(
        body,
        "{\"text\":\"a\\\"b\\\\c\\nd\\u0001e\",\"reference_id\":\"v\",\"format\":\"mp3\"}"
    );
}

#[test]
fn body_passes_multibyte_text_through() {
    let r = TtsRequest::new("héllo".to_string(), "k".to_string(), "v".to_string(), None, None);
    let body = String::from_utf8(build_tts_body(&r)).unwrap();
    assert!(body.contains("héllo"));
}

#[test]
fn bearer_header_carries_the_key() {
    assert_eq!(bearer_header_value("k1"), "Bearer k1");
}

#[test]
fn endpoint_is_fixed() {
    assert_eq!(tts_endpoint(), "https://api.fish.audio/v1/tts");
}

#[test]
fn greet_formats_the_name() {
    assert_eq!(greet("World"), "Hello, World! You've been greeted from Rust!");
}
