use asr_stream::codec::audio_append;
use asr_stream::codec::audio_append_with_id;
use asr_stream::codec::decimal_text;
use asr_stream::codec::session_update;
use asr_stream::codec::session_update_with_id;
use asr_stream::codec::threshold_text;
use asr_stream::codec::SessionConfig;

fn config(language: &str, keep_open: bool) -> SessionConfig {
    SessionConfig {
        sample_rate: 16000,
        language: language.to_string(),
        vad_threshold_millis: 200,
        vad_silence_ms: 800,
        keep_open,
    }
}

#[test]
fn decimal_text_values() {
    assert_eq!(decimal_text(0), "0");
    assert_eq!(decimal_text(7), "7");
    assert_eq!(decimal_text(10), "10");
    assert_eq!(decimal_text(16000), "16000");
    assert_eq!(decimal_text(u32::MAX), "4294967295");
}

#[test]
fn threshold_text_values() {
    assert_eq!(threshold_text(0), "0.0");
    assert_eq!(threshold_text(200), "0.2");
    assert_eq!(threshold_text(250), "0.25");
    assert_eq!(threshold_text(5), "0.005");
    assert_eq!(threshold_text(1000), "1.0");
    assert_eq!(threshold_text(1500), "1.5");
}

#[test]
fn session_update_exact_text() {
    let text = session_update_with_id(&config("zh", false), "id-1");
    assert_eq!(
        text,
        "{\"event_id\":\"id-1\",\"session\":{\"input_audio_format\":\"pcm\",\
         \"input_audio_transcription\":{\"language\":\"zh\"},\"modalities\":[\"text\"],\
         \"sample_rate\":16000,\"turn_detection\":{\"silence_duration_ms\":800,\
         \"threshold\":0.2,\"type\":\"server_vad\"}},\"type\":\"session.update\"}"
    );
}

#[test]
fn session_update_escapes_language() {
    let text = session_update_with_id(&config("a\"b", true), "x");
    assert!(text.contains("{\"language\":\"a\\\"b\"}"));
}

#[test]
fn session_update_is_json_with_fresh_id() {
    let text = session_update(&config("en", false));
    let value: serde_json::Value = serde_json::from_str(&text).unwrap();
    assert_eq!(value["type"], "session.update");
    assert_eq!(value["event_id"].as_str().unwrap().len(), 36);
    assert_eq!(value["session"]["sample_rate"], 16000);
    assert_eq!(value["session"]["input_audio_transcription"]["language"], "en");
    assert_eq!(value["session"]["turn_detection"]["silence_duration_ms"], 800);
    assert_eq!(value["session"]["turn_detection"]["threshold"], 0.2);
}

#[test]
fn audio_append_exact_text() {
    let text = audio_append_with_id("id-2", &[1u8, 2, 3, 4]);
    assert_eq!(
        text,
        "{\"audio\":\"AQIDBA==\",\"event_id\":\"id-2\",\"type\":\"input_audio_buffer.append\"}"
    );
}

#[test]
fn audio_append_empty_chunk() {
    let text = audio_append_with_id("e", &[]);
    assert_eq!(text, "{\"audio\":\"\",\"event_id\":\"e\",\"type\":\"input_audio_buffer.append\"}");
}

#[test]
fn audio_append_fresh_ids_differ() {
    let a = audio_append(&[0u8, 255]);
    let b = audio_append(&[0u8, 255]);
    let va: serde_json::Value = serde_json::from_str(&a).unwrap();
    let vb: serde_json::Value = serde_json::from_str(&b).unwrap();
    assert_eq!(va["audio"], "AP8=");
    assert_eq!(va["type"], "input_audio_buffer.append");
    assert_ne!(va["event_id"], vb["event_id"]);
}
