use voice_bridge::wire::{chunk_message, endpoint_url, init_message, VoiceSettings};

#[test]
fn chunk_message_plain_text() {
    let msg = chunk_message(b"hello world");
    assert_eq!(msg, b"{\"text\":\"hello world\"}".to_vec());
}

#[test]
fn chunk_message_empty_is_terminator() {
    let msg = chunk_message(b"");
    assert_eq!(msg, b"{\"text\":\"\"}".to_vec());
}

#[test]
fn chunk_message_escapes_quote_backslash_and_controls() {
    let msg = chunk_message(b"he\"ll\\o\nworld\x01");
    assert_eq!(
        msg,
        b"{\"text\":\"he\\\"ll\\\\o\\u000aworld\\u0001\"}".to_vec()
    );
}

#[test]
fn chunk_message_passes_multibyte_text_through() {
    let text = "grüß dich";
    let msg = chunk_message(text.as_bytes());
    let parsed: serde_json::Value = serde_json::from_slice(&msg).unwrap();
    assert_eq!(parsed["text"].as_str(), Some(text));
}

#[test]
fn chunk_message_round_trips_through_json_parser() {
    let text = "a \"quoted\"\tpiece\\done";
    let msg = chunk_message(text.as_bytes());
    let parsed: serde_json::Value = serde_json::from_slice(&msg).unwrap();
    assert_eq!(parsed["text"].as_str(), Some(text));
}

#[test]
fn init_message_preset_exact_bytes() {
    let settings = VoiceSettings::preset();
    let msg = init_message(&settings, b"sample-token");
    assert_eq!(
        String::from_utf8(msg).unwrap(),
        "{\"text\":\" \",\"voice_settings\":{\"stability\":0.9,\"similarity_boost\":0.8},\"xi_api_key\":\"sample-token\"}"
    );
}

#[test]
fn init_message_escapes_credential() {
    let settings = VoiceSettings::preset();
    let msg = init_message(&settings, b"to\"ken\\");
    let parsed: serde_json::Value = serde_json::from_slice(&msg).unwrap();
    assert_eq!(parsed["xi_api_key"].as_str(), Some("to\"ken\\"));
}

#[test]
fn init_message_is_valid_json_with_expected_fields() {
    let settings = VoiceSettings::preset();
    let msg = init_message(&settings, b"key");
    let parsed: serde_json::Value = serde_json::from_slice(&msg).unwrap();
    assert_eq!(parsed["text"].as_str(), Some(" "));
    assert_eq!(parsed["voice_settings"]["stability"].as_f64(), Some(0.9));
    assert_eq!(
        parsed["voice_settings"]["similarity_boost"].as_f64(),
        Some(0.8)
    );
    assert_eq!(parsed["xi_api_key"].as_str(), Some("key"));
}

#[test]
fn init_message_decimal_edges() {
    let settings = VoiceSettings { stability_milli: 1000, similarity_boost_milli: 0 };
    let msg = String::from_utf8(init_message(&settings, b"k")).unwrap();
    assert!(msg.contains("\"stability\":1.0,"));
    assert!(msg.contains("\"similarity_boost\":0.0}"));

    let settings = VoiceSettings { stability_milli: 850, similarity_boost_milli: 805 };
    let msg = String::from_utf8(init_message(&settings, b"k")).unwrap();
    assert!(msg.contains("\"stability\":0.85,"));
    assert!(msg.contains("\"similarity_boost\":0.805}"));
}

#[test]
fn endpoint_url_substitutes_voice_and_model() {
    let url = endpoint_url("voice123", "model456");
    assert_eq!(
        url,
        "wss://api.elevenlabs.io/v1/text-to-speech/voice123/stream-input?model_id=model456&optimize_streaming_latency=1"
    );
}
