use base64::Engine;
use fast_tts::providers::{
    azure_format, azure_url, azure_voice, build_azure_ssml, build_deepgram_query,
    build_elevenlabs_body, build_gemini_body, build_openai_body, decode_gemini_response,
    deepgram_format, deepgram_url, elevenlabs_format, elevenlabs_url, gemini_format, gemini_url,
    openai_format, openai_url, polly_output_format, polly_voice, token_header,
};
use fast_tts::AudioEncoding;

#[test]
fn openai_body_and_format() {
    assert_eq!(openai_format(AudioEncoding::Mp3), "mp3");
    assert_eq!(openai_format(AudioEncoding::OggOpus), "opus");
    assert_eq!(openai_format(AudioEncoding::Linear16), "wav");
    assert_eq!(openai_format(AudioEncoding::Mulaw), "wav");
    let body = build_openai_body(b"hello", None, None, AudioEncoding::Mp3);
    let v: serde_json::Value = serde_json::from_slice(&body).unwrap();
    assert_eq!(v["model"].as_str(), Some("gpt-4o-mini-tts"));
    assert_eq!(v["voice"].as_str(), Some("alloy"));
    assert_eq!(v["input"].as_str(), Some("hello"));
    assert_eq!(v["format"].as_str(), Some("mp3"));
    let body2 = build_openai_body(b"x", Some(&b"nova".to_vec()), Some(&b"tts-1".to_vec()), AudioEncoding::Linear16);
    let v2: serde_json::Value = serde_json::from_slice(&body2).unwrap();
    assert_eq!(v2["voice"].as_str(), Some("nova"));
    assert_eq!(v2["model"].as_str(), Some("tts-1"));
    assert_eq!(openai_url(), "https://api.openai.com/v1/audio/speech");
}

#[test]
fn azure_format_table() {
    assert_eq!(azure_format(AudioEncoding::Mp3, Some(44100)), "audio-48khz-192kbitrate-mono-mp3");
    assert_eq!(azure_format(AudioEncoding::Mp3, None), "audio-24khz-160kbitrate-mono-mp3");
    assert_eq!(azure_format(AudioEncoding::OggOpus, None), "ogg-48khz-16bit-mono-opus");
    assert_eq!(azure_format(AudioEncoding::Linear16, Some(48000)), "riff-48khz-16bit-mono-pcm");
    assert_eq!(azure_format(AudioEncoding::Linear16, Some(24000)), "riff-24khz-16bit-mono-pcm");
    assert_eq!(azure_format(AudioEncoding::Linear16, None), "riff-24khz-16bit-mono-pcm");
    assert_eq!(azure_format(AudioEncoding::Mulaw, None), "mulaw-8khz-8bit-mono");
    assert_eq!(azure_format(AudioEncoding::Alaw, None), "alaw-8khz-8bit-mono");
}

#[test]
fn azure_voice_defaults_by_locale() {
    assert_eq!(azure_voice(b"en-US", None), b"en-US-JennyNeural".to_vec());
    assert_eq!(azure_voice(b"en-GB", None), b"en-GB-LibbyNeural".to_vec());
    assert_eq!(azure_voice(b"de-DE", None), b"en-US-JennyNeural".to_vec());
    assert_eq!(azure_voice(b"en-US", Some(&b"en-US-AriaNeural".to_vec())), b"en-US-AriaNeural".to_vec());
}

#[test]
fn azure_ssml_escapes_only_the_text() {
    let ssml = build_azure_ssml(b"a<b&c>'d\"", b"en-US", b"en-US-JennyNeural");
    assert_eq!(
        String::from_utf8(ssml).unwrap(),
        "<speak version=\"1.0\" xml:lang=\"en-US\"><voice xml:lang=\"en-US\" name=\"en-US-JennyNeural\">a&lt;b&amp;c&gt;&#x27;d&quot;</voice></speak>"
    );
    assert_eq!(
        azure_url(b"westeurope"),
        b"https://westeurope.tts.speech.microsoft.com/cognitiveservices/v1".to_vec()
    );
}

#[test]
fn elevenlabs_body_url_and_format() {
    assert_eq!(elevenlabs_format(AudioEncoding::Mp3), "mp3");
    assert_eq!(elevenlabs_format(AudioEncoding::OggOpus), "ogg");
    assert_eq!(elevenlabs_format(AudioEncoding::Alaw), "wav");
    assert_eq!(
        elevenlabs_url(None),
        b"https://api.elevenlabs.io/v1/text-to-speech/Rachel".to_vec()
    );
    assert_eq!(
        elevenlabs_url(Some(&b"Bella".to_vec())),
        b"https://api.elevenlabs.io/v1/text-to-speech/Bella".to_vec()
    );
    let body = build_elevenlabs_body(b"hi there", None, AudioEncoding::Mp3);
    let v: serde_json::Value = serde_json::from_slice(&body).unwrap();
    assert_eq!(v["text"].as_str(), Some("hi there"));
    assert_eq!(v["model_id"].as_str(), Some("eleven_multilingual_v2"));
    assert_eq!(v["output_format"].as_str(), Some("mp3"));
    assert_eq!(v["voice_settings"]["stability"].as_f64(), Some(0.5));
    assert_eq!(v["voice_settings"]["similarity_boost"].as_f64(), Some(0.5));
}

#[test]
fn deepgram_query_and_header() {
    assert_eq!(deepgram_format(AudioEncoding::OggOpus), "opus");
    assert_eq!(deepgram_url(), "https://api.deepgram.com/v1/speak");
    let q = build_deepgram_query(None, None, AudioEncoding::Linear16);
    assert_eq!(
        String::from_utf8(q).unwrap(),
        "model=aura-asteria-en&voice=aura-asteria-en&format=wav"
    );
    let q2 = build_deepgram_query(Some(&b"aura-2".to_vec()), Some(&b"my voice".to_vec()), AudioEncoding::Mp3);
    assert_eq!(String::from_utf8(q2).unwrap(), "model=aura-2&voice=my+voice&format=mp3");
    assert_eq!(token_header(b"k3y"), b"Token k3y".to_vec());
}

#[test]
fn gemini_rejects_telephony_encodings() {
    assert_eq!(gemini_format(AudioEncoding::Mp3).unwrap(), "mp3");
    assert_eq!(gemini_format(AudioEncoding::OggOpus).unwrap(), "ogg");
    assert_eq!(gemini_format(AudioEncoding::Linear16).unwrap(), "wav");
    let err = gemini_format(AudioEncoding::Mulaw).unwrap_err();
    assert_eq!(
        String::from_utf8(err.message()).unwrap(),
        "Gemini speech does not support MULAW encoding; use MP3/OGG_OPUS/LINEAR16"
    );
    assert!(gemini_format(AudioEncoding::Alaw).is_err());
}

#[test]
fn gemini_url_and_body() {
    assert_eq!(
        gemini_url(None, b"KEY"),
        b"https://generativelanguage.googleapis.com/v1beta/models/gemini-1.5-flash-latest:generateContent?key=KEY".to_vec()
    );
    let body = build_gemini_body(b"hello", Some(&b"Puck".to_vec()), "mp3");
    let v: serde_json::Value = serde_json::from_slice(&body).unwrap();
    let parts = v["contents"][0]["parts"].as_array().unwrap();
    assert_eq!(parts[0]["text"].as_str(), Some("hello"));
    assert_eq!(parts[1]["audio"]["voice"].as_str(), Some("Puck"));
    assert_eq!(parts[1]["audio"]["format"].as_str(), Some("mp3"));
    assert_eq!(v["contents"][0]["role"].as_str(), Some("user"));
    let body2 = build_gemini_body(b"x", None, "wav");
    let v2: serde_json::Value = serde_json::from_slice(&body2).unwrap();
    assert!(v2["contents"][0]["parts"][1]["audio"]["voice"].is_null());
}

#[test]
fn gemini_reply_unwraps_first_audio_part() {
    let audio = base64::Engine::encode(&base64::engine::general_purpose::STANDARD, "PCM");
    let reply = format!(
        "{{\"candidates\":[{{\"content\":{{\"parts\":[{{\"text\":\"noise\"}},{{\"audio\":{{\"data\":\"{}\"}}}}]}}}}]}}",
        audio
    );
    assert_eq!(decode_gemini_response(reply.as_bytes()).unwrap(), b"PCM".to_vec());
    let err = decode_gemini_response(b"{\"candidates\":[]}").unwrap_err();
    assert_eq!(
        String::from_utf8(err.message()).unwrap(),
        "Gemini response did not include audio data"
    );
}

#[test]
fn polly_format_and_voice() {
    assert_eq!(polly_output_format(AudioEncoding::Mp3), "mp3");
    assert_eq!(polly_output_format(AudioEncoding::OggOpus), "ogg_vorbis");
    assert_eq!(polly_output_format(AudioEncoding::Linear16), "pcm");
    assert_eq!(polly_voice(None), b"Joanna".to_vec());
    assert_eq!(polly_voice(Some(&b"Matthew".to_vec())), b"Matthew".to_vec());
}
