//! Session protocol codec: the JSON envelopes sent to the recognition endpoint.
use base64::Engine;
use vstd::prelude::*;

verus! {

/// Base64 text (standard alphabet, padded) of a byte sequence.
pub uninterp spec fn base64_of(b: Seq<u8>) -> Seq<char>;

/// Compact JSON text of a string value: the quoted, escaped literal.
pub uninterp spec fn json_string_of(s: Seq<char>) -> Seq<char>;

/// Relies on `base64::engine::general_purpose::STANDARD.encode`: the padded
/// standard encoding, which depends on the bytes alone. It panics only when the
/// encoded length overflows `usize`, which the bound on the input rules out.
#[verifier::external_body]
fn encode_base64(b: &[u8]) -> (r: String)
    requires
        b@.len() <= usize::MAX / 2,
    ensures
        r@ == base64_of(b@),
        b@.len() == 0 ==> r@.len() == 0,
{
    base64::engine::general_purpose::STANDARD.encode(b)
}

/// Relies on `serde_json::Value::String(..).to_string()`: the compact JSON
/// literal of a string, which depends on its characters alone.
#[verifier::external_body]
fn quote_json(s: &str) -> (r: String)
    ensures
        r@ == json_string_of(s@),
{
    serde_json::Value::String(s.to_string()).to_string()
}

/// Relies on `uuid::Uuid::now_v7` and its `Display`: a fresh time-ordered
/// identifier, written in the hyphenated form of 36 characters.
#[verifier::external_body]
pub(crate) fn fresh_event_id() -> (r: String)
    ensures
        r@.len() == 36,
{
    uuid::Uuid::now_v7().to_string()
}

/// The character of one decimal digit.
pub open spec fn digit_char(d: nat) -> char {
    if d == 0 {
        '0'
    } else if d == 1 {
        '1'
    } else if d == 2 {
        '2'
    } else if d == 3 {
        '3'
    } else if d == 4 {
        '4'
    } else if d == 5 {
        '5'
    } else if d == 6 {
        '6'
    } else if d == 7 {
        '7'
    } else if d == 8 {
        '8'
    } else {
        '9'
    }
}

/// Decimal digits of a natural number, without leading zeros.
pub open spec fn decimal_of(n: nat) -> Seq<char>
    decreases n,
{
    if n < 10 {
        seq![digit_char(n)]
    } else {
        decimal_of(n / 10).push(digit_char(n % 10))
    }
}

/// The fractional digits of a count of thousandths (below one thousand, above
/// zero), with trailing zeros dropped.
pub open spec fn thousandths_digits(f: nat) -> Seq<char> {
    if f % 100 == 0 {
        seq![digit_char(f / 100)]
    } else if f % 10 == 0 {
        seq![digit_char(f / 100), digit_char((f / 10) % 10)]
    } else {
        seq![digit_char(f / 100), digit_char((f / 10) % 10), digit_char(f % 10)]
    }
}

/// JSON number text of a value given in thousandths: at least one fractional
/// digit, no trailing zeros beyond the first (`200` is `0.2`, `1000` is `1.0`).
pub open spec fn thousandths_text(k: nat) -> Seq<char> {
    let whole = decimal_of(k / 1000);
    if k % 1000 == 0 {
        whole + seq!['.', '0']
    } else {
        whole + seq!['.'] + thousandths_digits(k % 1000)
    }
}

/// Settings of a recognition session, fixed before streaming starts.
pub struct SessionConfig {
    /// Sample rate of the PCM input, in hertz.
    pub sample_rate: u32,
    /// Recognition language code.
    pub language: String,
    /// Voice-activity threshold in thousandths (0 to 1000 for 0.0 to 1.0).
    pub vad_threshold_millis: u32,
    /// Silence that ends a speech turn, in milliseconds.
    pub vad_silence_ms: u32,
    /// Whether the session stays open after the audio input ends.
    pub keep_open: bool,
}

/// The session-configure envelope: text output only, raw PCM input at the
/// configured rate, the configured language, and server-side voice-activity
/// detection with the configured threshold and silence duration.
pub open spec fn session_envelope(
    id: Seq<char>,
    sample_rate: nat,
    language: Seq<char>,
    threshold_millis: nat,
    silence_ms: nat,
) -> Seq<char> {
    "{\"event_id\":"@ + json_string_of(id)
        + ",\"session\":{\"input_audio_format\":\"pcm\",\"input_audio_transcription\":{\"language\":"@
        + json_string_of(language) + "},\"modalities\":[\"text\"],\"sample_rate\":"@
        + decimal_of(sample_rate) + ",\"turn_detection\":{\"silence_duration_ms\":"@
        + decimal_of(silence_ms) + ",\"threshold\":"@ + thousandths_text(threshold_millis)
        + ",\"type\":\"server_vad\"}},\"type\":\"session.update\"}"@
}

/// The audio-append envelope that carries one chunk, base64-encoded.
pub open spec fn append_envelope(id: Seq<char>, chunk: Seq<u8>) -> Seq<char> {
    "{\"audio\":"@ + json_string_of(base64_of(chunk)) + ",\"event_id\":"@ + json_string_of(id)
        + ",\"type\":\"input_audio_buffer.append\"}"@
}

fn digit_str(d: u32) -> (r: &'static str)
    requires
        d < 10,
    ensures
        r@ == seq![digit_char(d as nat)],
{
    if d == 0 {
        proof { reveal_strlit("0"); }
        "0"
    } else if d == 1 {
        proof { reveal_strlit("1"); }
        "1"
    } else if d == 2 {
        proof { reveal_strlit("2"); }
        "2"
    } else if d == 3 {
        proof { reveal_strlit("3"); }
        "3"
    } else if d == 4 {
        proof { reveal_strlit("4"); }
        "4"
    } else if d == 5 {
        proof { reveal_strlit("5"); }
        "5"
    } else if d == 6 {
        proof { reveal_strlit("6"); }
        "6"
    } else if d == 7 {
        proof { reveal_strlit("7"); }
        "7"
    } else if d == 8 {
        proof { reveal_strlit("8"); }
        "8"
    } else {
        proof { reveal_strlit("9"); }
        "9"
    }
}

fn push_decimal(out: &mut String, n: u32)
    ensures
        final(out)@ == old(out)@ + decimal_of(n as nat),
    decreases n,
{
    if n >= 10 {
        push_decimal(out, n / 10);
        out.append(digit_str(n % 10));
        assert(final(out)@ =~= old(out)@ + decimal_of(n as nat));
    } else {
        out.append(digit_str(n));
    }
}

/// Decimal text of a number, as JSON writes an unsigned integer.
pub fn decimal_text(n: u32) -> (r: String)
    ensures
        r@ == decimal_of(n as nat),
{
    let mut out = String::new();
    push_decimal(&mut out, n);
    assert(out@ =~= decimal_of(n as nat));
    out
}

fn push_thousandths(out: &mut String, k: u32)
    ensures
        final(out)@ == old(out)@ + thousandths_text(k as nat),
{
    push_decimal(out, k / 1000);
    let f: u32 = k % 1000;
    proof { reveal_strlit("."); reveal_strlit(".0"); }
    if f == 0 {
        out.append(".0");
    } else {
        out.append(".");
        out.append(digit_str(f / 100));
        if f % 100 != 0 {
            out.append(digit_str((f / 10) % 10));
            if f % 10 != 0 {
                out.append(digit_str(f % 10));
            }
        }
    }
    assert(final(out)@ =~= old(out)@ + thousandths_text(k as nat));
}

/// JSON number text of a value given in thousandths (`200` gives `0.2`).
pub fn threshold_text(k: u32) -> (r: String)
    ensures
        r@ == thousandths_text(k as nat),
{
    let mut out = String::new();
    push_thousandths(&mut out, k);
    assert(out@ =~= thousandths_text(k as nat));
    out
}

/// Builds the session-configure envelope with the given event identifier.
pub fn session_update_with_id(config: &SessionConfig, event_id: &str) -> (r: String)
    ensures
        r@ == session_envelope(
            event_id@,
            config.sample_rate as nat,
            config.language@,
            config.vad_threshold_millis as nat,
            config.vad_silence_ms as nat,
        ),
{
    let mut out = String::new();
    out.append("{\"event_id\":");
    out.append(&quote_json(event_id));
    out.append(",\"session\":{\"input_audio_format\":\"pcm\",\"input_audio_transcription\":{\"language\":");
    out.append(&quote_json(config.language.as_str()));
    out.append("},\"modalities\":[\"text\"],\"sample_rate\":");
    push_decimal(&mut out, config.sample_rate);
    out.append(",\"turn_detection\":{\"silence_duration_ms\":");
    push_decimal(&mut out, config.vad_silence_ms);
    out.append(",\"threshold\":");
    push_thousandths(&mut out, config.vad_threshold_millis);
    out.append(",\"type\":\"server_vad\"}},\"type\":\"session.update\"}");
    assert(out@ =~= session_envelope(
        event_id@,
        config.sample_rate as nat,
        config.language@,
        config.vad_threshold_millis as nat,
        config.vad_silence_ms as nat,
    ));
    out
}

/// Builds the session-configure envelope under a freshly generated identifier.
pub fn session_update(config: &SessionConfig) -> (r: String)
    ensures
        exists|id: Seq<char>|
            id.len() == 36 && r@ == #[trigger] session_envelope(
                id,
                config.sample_rate as nat,
                config.language@,
                config.vad_threshold_millis as nat,
                config.vad_silence_ms as nat,
            ),
{
    let id = fresh_event_id();
    session_update_with_id(config, id.as_str())
}

/// Builds the audio-append envelope of one chunk with the given identifier.
pub fn audio_append_with_id(event_id: &str, chunk: &[u8]) -> (r: String)
    requires
        chunk@.len() <= usize::MAX / 2,
    ensures
        r@ == append_envelope(event_id@, chunk@),
{
    let encoded = encode_base64(chunk);
    let mut out = String::new();
    out.append("{\"audio\":");
    out.append(&quote_json(encoded.as_str()));
    out.append(",\"event_id\":");
    out.append(&quote_json(event_id));
    out.append(",\"type\":\"input_audio_buffer.append\"}");
    assert(out@ =~= append_envelope(event_id@, chunk@));
    out
}

/// Builds the audio-append envelope of one chunk under a fresh identifier.
pub fn audio_append(chunk: &[u8]) -> (r: String)
    requires
        chunk@.len() <= usize::MAX / 2,
    ensures
        exists|id: Seq<char>| id.len() == 36 && r@ == #[trigger] append_envelope(id, chunk@),
{
    let id = fresh_event_id();
    audio_append_with_id(id.as_str(), chunk)
}

} // verus!
