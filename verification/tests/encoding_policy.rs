use fast_tts::encoding::{parse_encoding_from_str, parse_gender, AudioEncoding, Gender, TtsProvider};
use fast_tts::errors::TtsError;
use fast_tts::paths::validate_output_extension;

fn msg(e: &TtsError) -> String {
    String::from_utf8(e.message()).unwrap()
}

#[test]
fn api_strings_are_fixed() {
    assert_eq!(AudioEncoding::Linear16.api_str(), "LINEAR16");
    assert_eq!(AudioEncoding::Mp3.api_str(), "MP3");
    assert_eq!(AudioEncoding::OggOpus.api_str(), "OGG_OPUS");
    assert_eq!(AudioEncoding::Mulaw.api_str(), "MULAW");
    assert_eq!(AudioEncoding::Alaw.api_str(), "ALAW");
}

#[test]
fn extension_policy_is_total() {
    assert_eq!(AudioEncoding::Linear16.file_extension(), "wav");
    assert_eq!(AudioEncoding::Mp3.file_extension(), "mp3");
    assert_eq!(AudioEncoding::OggOpus.file_extension(), "ogg");
    assert_eq!(AudioEncoding::Mulaw.file_extension(), "wav");
    assert_eq!(AudioEncoding::Alaw.file_extension(), "wav");
}

#[test]
fn parses_encoding_any_case_and_whitespace() {
    assert_eq!(parse_encoding_from_str("LINEAR16").unwrap(), AudioEncoding::Linear16);
    assert_eq!(parse_encoding_from_str(" mp3 ").unwrap(), AudioEncoding::Mp3);
    assert_eq!(parse_encoding_from_str("ogg_opus").unwrap(), AudioEncoding::OggOpus);
    assert_eq!(parse_encoding_from_str("Mulaw").unwrap(), AudioEncoding::Mulaw);
    assert_eq!(parse_encoding_from_str("\talaw\n").unwrap(), AudioEncoding::Alaw);
}

#[test]
fn rejects_unknown_encoding_with_message() {
    let err = parse_encoding_from_str("flac").unwrap_err();
    assert_eq!(msg(&err), "unsupported encoding: FLAC");
}

#[test]
fn parses_gender_with_neutral_fallback() {
    assert_eq!(parse_gender("male"), Gender::Male);
    assert_eq!(parse_gender("FEMALE"), Gender::Female);
    assert_eq!(parse_gender("anything"), Gender::Neutral);
    assert_eq!(Gender::Female.api_str(), "FEMALE");
    assert_eq!(Gender::Neutral.api_str(), "NEUTRAL");
}

#[test]
fn validates_extension_vs_encoding() {
    let err = validate_output_extension("bad.mp3", AudioEncoding::Linear16).unwrap_err();
    let m = msg(&err);
    assert!(m.contains("does not match encoding"));
    assert_eq!(m, "output extension .mp3 does not match encoding LINEAR16 (expected .wav)");
}

#[test]
fn accepts_matching_extension_case_insensitively() {
    assert!(validate_output_extension("hello.wav", AudioEncoding::Linear16).is_ok());
    assert!(validate_output_extension("HELLO.WAV", AudioEncoding::Linear16).is_ok());
    assert!(validate_output_extension("a/b/c.ogg", AudioEncoding::OggOpus).is_ok());
    assert!(validate_output_extension("x.mp3", AudioEncoding::Mp3).is_ok());
}

#[test]
fn missing_extension_is_its_own_failure() {
    let err = validate_output_extension("noext", AudioEncoding::Mp3).unwrap_err();
    assert_eq!(msg(&err), "output must have .mp3 extension for encoding MP3");
    let err2 = validate_output_extension(".hidden", AudioEncoding::Mp3).unwrap_err();
    assert_eq!(msg(&err2), "output must have .mp3 extension for encoding MP3");
}

#[test]
fn provider_names_and_implementations() {
    assert_eq!(TtsProvider::Hume.name(), "Hume");
    assert!(!TtsProvider::Hume.is_implemented());
    assert!(!TtsProvider::Listnr.is_implemented());
    assert!(!TtsProvider::Murf.is_implemented());
    assert!(TtsProvider::Google.is_implemented());
    assert!(TtsProvider::Gemini.is_implemented());
}
