use base64::Engine;
use fast_tts::google::{
    bearer_header, build_synthesize_body, decode_synthesize_response, synthesize_url, voices_url,
    SynthesisParams,
};
use fast_tts::encoding::Gender;
use fast_tts::AudioEncoding;

fn params_plain_hello() -> SynthesisParams {
    SynthesisParams {
        text: b"hello".to_vec(),
        is_ssml: false,
        language: b"en-US".to_vec(),
        voice: Some(b"en-US-Neural2-F".to_vec()),
        gender: Some(Gender::Female),
        rate: b"1.0".to_vec(),
        pitch: b"0.0".to_vec(),
        volume_gain_db: b"0.0".to_vec(),
        sample_rate: Some(24000),
        encoding: AudioEncoding::Linear16,
        effects: vec![b"wearable-class-device".to_vec()],
    }
}

#[test]
fn synthesize_plain_text_linear16() {
    let p = params_plain_hello();
    assert!(p.check_wf());
    let body = build_synthesize_body(&p);
    let v: serde_json::Value = serde_json::from_slice(&body).unwrap();
    assert_eq!(v["input"]["text"].as_str(), Some("hello"));
    assert!(v["input"].get("ssml").is_none());
    assert_eq!(v["voice"]["languageCode"].as_str(), Some("en-US"));
    assert_eq!(v["voice"]["name"].as_str(), Some("en-US-Neural2-F"));
    assert_eq!(v["voice"]["ssmlGender"].as_str(), Some("FEMALE"));
    assert_eq!(v["audioConfig"]["audioEncoding"].as_str(), Some("LINEAR16"));
    assert_eq!(v["audioConfig"]["speakingRate"].as_f64(), Some(1.0));
    assert_eq!(v["audioConfig"]["pitch"].as_f64(), Some(0.0));
    assert_eq!(v["audioConfig"]["volumeGainDb"].as_f64(), Some(0.0));
    assert_eq!(v["audioConfig"]["sampleRateHertz"].as_i64(), Some(24000));
    assert_eq!(v["audioConfig"]["enableLegacyWavHeader"].as_bool(), Some(false));
    let effects = v["audioConfig"]["effectsProfileId"].as_array().unwrap();
    assert_eq!(effects.len(), 1);
    assert_eq!(effects[0].as_str(), Some("wearable-class-device"));

    let encoded = base64::Engine::encode(&base64::engine::general_purpose::STANDARD, "WAVDATA");
    let reply = format!("{{\"audio_content\":\"{}\"}}", encoded);
    let audio = decode_synthesize_response(reply.as_bytes()).unwrap();
    assert_eq!(audio, b"WAVDATA".to_vec());
}

#[test]
fn synthesize_ssml_mp3() {
    let p = SynthesisParams {
        text: b"<speak>hi</speak>".to_vec(),
        is_ssml: true,
        language: b"en-US".to_vec(),
        voice: None,
        gender: None,
        rate: b"1.0".to_vec(),
        pitch: b"0.0".to_vec(),
        volume_gain_db: b"0.0".to_vec(),
        sample_rate: None,
        encoding: AudioEncoding::Mp3,
        effects: vec![],
    };
    let body = build_synthesize_body(&p);
    let v: serde_json::Value = serde_json::from_slice(&body).unwrap();
    assert_eq!(v["input"]["ssml"].as_str(), Some("<speak>hi</speak>"));
    assert!(v["input"].get("text").is_none());
    assert_eq!(v["audioConfig"]["audioEncoding"].as_str(), Some("MP3"));
    assert!(v["voice"].get("name").is_none());
    assert!(v["voice"].get("ssmlGender").is_none());
    assert!(v["audioConfig"].get("sampleRateHertz").is_none());
    assert!(v["audioConfig"].get("effectsProfileId").is_none());

    let encoded = base64::Engine::encode(&base64::engine::general_purpose::STANDARD, "MP3DATA");
    let reply = format!("{{\"audio_content\":\"{}\"}}", encoded);
    let audio = decode_synthesize_response(reply.as_bytes()).unwrap();
    assert_eq!(audio, b"MP3DATA".to_vec());
}

#[test]
fn ssml_body_bytes_are_exact() {
    let p = SynthesisParams {
        text: b"<speak>hi</speak>".to_vec(),
        is_ssml: true,
        language: b"en-US".to_vec(),
        voice: None,
        gender: None,
        rate: b"1.0".to_vec(),
        pitch: b"0.0".to_vec(),
        volume_gain_db: b"0.0".to_vec(),
        sample_rate: None,
        encoding: AudioEncoding::Mp3,
        effects: vec![],
    };
    let body = String::from_utf8(build_synthesize_body(&p)).unwrap();
    assert_eq!(
        body,
        "{\"input\":{\"ssml\":\"<speak>hi</speak>\"},\"voice\":{\"languageCode\":\"en-US\"},\"audioConfig\":{\"audioEncoding\":\"MP3\",\"speakingRate\":1.0,\"pitch\":0.0,\"volumeGainDb\":0.0,\"enableLegacyWavHeader\":false}}"
    );
}

#[test]
fn text_is_json_escaped() {
    let mut p = params_plain_hello();
    p.text = b"say \"hi\"\\now\n".to_vec();
    let body = build_synthesize_body(&p);
    let v: serde_json::Value = serde_json::from_slice(&body).unwrap();
    assert_eq!(v["input"]["text"].as_str(), Some("say \"hi\"\\now\n"));
}

#[test]
fn rejects_reply_without_audio_content() {
    let err = decode_synthesize_response(b"{\"other\":1}").unwrap_err();
    let m = String::from_utf8(err.message()).unwrap();
    assert!(m.contains("audio_content"));
}

#[test]
fn rejects_reply_with_bad_base64() {
    let err = decode_synthesize_response(b"{\"audio_content\":\"!!notbase64!!\"}").unwrap_err();
    let m = String::from_utf8(err.message()).unwrap();
    assert!(m.contains("failed decoding audio_content"));
}

#[test]
fn urls_and_bearer_header() {
    assert_eq!(synthesize_url("http://127.0.0.1:9"), b"http://127.0.0.1:9/v1/text:synthesize".to_vec());
    assert_eq!(voices_url("https://texttospeech.googleapis.com"), b"https://texttospeech.googleapis.com/v1/voices".to_vec());
    assert_eq!(bearer_header(b"test-token"), b"Bearer test-token".to_vec());
}
