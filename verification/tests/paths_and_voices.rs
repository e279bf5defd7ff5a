use fast_tts::paths::{
    default_base_url, derive_output_path, extension_of, is_yaml_path, should_disable_proxy,
};
use fast_tts::voices::{format_voice_line, Voice};

#[test]
fn extension_extraction_matches_platform_rules() {
    assert_eq!(extension_of(b"a/b/c.wav"), Some(b"wav".to_vec()));
    assert_eq!(extension_of(b"c.tar.gz"), Some(b"gz".to_vec()));
    assert_eq!(extension_of(b"noext"), None);
    assert_eq!(extension_of(b".hidden"), None);
    assert_eq!(extension_of(b"dir.d/noext"), None);
    assert_eq!(extension_of(b"trailing."), Some(b"".to_vec()));
}

#[test]
fn yaml_selection_is_by_extension() {
    assert!(is_yaml_path("conf.yaml"));
    assert!(is_yaml_path("conf.YML"));
    assert!(!is_yaml_path("conf.json"));
    assert!(!is_yaml_path("conf"));
}

#[test]
fn derived_names_use_one_based_numbering_and_fallback_extension() {
    assert_eq!(derive_output_path(None, 1, b"LINEAR16"), b"item_1.wav".to_vec());
    assert_eq!(derive_output_path(None, 2, b"weird"), b"item_2.bin".to_vec());
    assert_eq!(derive_output_path(Some(&b"out".to_vec()), 3, b"mp3"), b"out/item_3.mp3".to_vec());
    assert_eq!(derive_output_path(Some(&b"out/".to_vec()), 4, b"OGG_OPUS"), b"out/item_4.ogg".to_vec());
    assert_eq!(derive_output_path(Some(&b"".to_vec()), 12, b"ALAW"), b"item_12.wav".to_vec());
}

#[test]
fn loopback_bases_disable_the_proxy() {
    assert!(should_disable_proxy("http://127.0.0.1:9"));
    assert!(should_disable_proxy("http://localhost:2024"));
    assert!(!should_disable_proxy("https://texttospeech.googleapis.com"));
    assert_eq!(default_base_url(), "https://texttospeech.googleapis.com");
}

#[test]
fn voice_lines_match_the_column_layout() {
    let v = Voice {
        name: b"en-US-Test".to_vec(),
        language_codes: vec![b"en-US".to_vec(), b"en-GB".to_vec()],
        ssml_gender: b"FEMALE".to_vec(),
        natural_sample_rate_hertz: Some(24000),
    };
    let line = String::from_utf8(format_voice_line(&v)).unwrap();
    let expected = format!("{:<28} {:<7} {:>6} Hz  [{}]", "en-US-Test", "FEMALE", "24000", "en-US,en-GB");
    assert_eq!(line, expected);
}

#[test]
fn voice_line_placeholders_for_missing_data() {
    let v = Voice {
        name: b"x".to_vec(),
        language_codes: vec![],
        ssml_gender: b"NEUTRAL".to_vec(),
        natural_sample_rate_hertz: None,
    };
    let line = String::from_utf8(format_voice_line(&v)).unwrap();
    let expected = format!("{:<28} {:<7} {:>6} Hz  [{}]", "x", "NEUTRAL", "-", "-");
    assert_eq!(line, expected);
}

#[test]
fn long_fields_are_not_truncated() {
    let v = Voice {
        name: b"a-very-long-voice-name-that-exceeds-the-column".to_vec(),
        language_codes: vec![b"en-US".to_vec()],
        ssml_gender: b"MALE".to_vec(),
        natural_sample_rate_hertz: Some(8000),
    };
    let line = String::from_utf8(format_voice_line(&v)).unwrap();
    let expected = format!(
        "{:<28} {:<7} {:>6} Hz  [{}]",
        "a-very-long-voice-name-that-exceeds-the-column", "MALE", "8000", "en-US"
    );
    assert_eq!(line, expected);
}

#[test]
fn not_implemented_and_missing_credential_messages() {
    let e = fast_tts::errors::TtsError::NotImplemented { provider: b"Hume".to_vec() };
    assert_eq!(
        String::from_utf8(e.message()).unwrap(),
        "provider Hume not yet implemented. Please open an issue with API details."
    );
    let e2 = fast_tts::errors::TtsError::MissingCredential {
        var: b"OPENAI_API_KEY".to_vec(),
        provider: b"openai".to_vec(),
    };
    assert_eq!(
        String::from_utf8(e2.message()).unwrap(),
        "OPENAI_API_KEY is required for provider openai"
    );
    let e3 = fast_tts::errors::TtsError::NoCredentials;
    assert_eq!(
        String::from_utf8(e3.message()).unwrap(),
        "No Google credentials found. Set GOOGLE_APPLICATION_CREDENTIALS or run 'gcloud auth application-default login'"
    );
}
