use fast_tts::bulk::{plan_bulk_item, BulkDefaults, BulkItem};
use fast_tts::encoding::Gender;
use fast_tts::AudioEncoding;

fn bare_item(text: &[u8]) -> BulkItem {
    BulkItem {
        text: text.to_vec(),
        output: None,
        language: None,
        voice: None,
        gender: None,
        rate: None,
        pitch: None,
        sample_rate: None,
        encoding: None,
        volume_gain_db: None,
        effects_profile_id: None,
        ssml: None,
    }
}

#[test]
fn hardcoded_fallbacks_apply_without_defaults() {
    let d = BulkDefaults::empty();
    let item = bare_item(b"hello");
    let (p, out) = plan_bulk_item(&d, &item, 1).unwrap();
    assert_eq!(p.language, b"en-US".to_vec());
    assert_eq!(p.rate, b"1.0".to_vec());
    assert_eq!(p.pitch, b"0.0".to_vec());
    assert_eq!(p.volume_gain_db, b"0.0".to_vec());
    assert_eq!(p.encoding, AudioEncoding::Linear16);
    assert!(p.voice.is_none());
    assert!(p.gender.is_none());
    assert!(p.sample_rate.is_none());
    assert!(p.effects.is_empty());
    assert!(!p.is_ssml);
    assert_eq!(out, b"item_1.wav".to_vec());
}

#[test]
fn item_overrides_default_overrides_fallback_per_field() {
    let mut d = BulkDefaults::empty();
    d.language = Some(b"fr-FR".to_vec());
    d.rate = Some(b"2.0".to_vec());
    d.gender = Some(b"female".to_vec());
    let mut item = bare_item(b"salut");
    item.rate = Some(b"3.0".to_vec());
    item.sample_rate = Some(16000);
    let (p, _) = plan_bulk_item(&d, &item, 1).unwrap();
    // item wins over default
    assert_eq!(p.rate, b"3.0".to_vec());
    // default wins over the fallback
    assert_eq!(p.language, b"fr-FR".to_vec());
    assert_eq!(p.gender, Some(Gender::Female));
    // fields no level sets fall back
    assert_eq!(p.pitch, b"0.0".to_vec());
    // item-only field
    assert_eq!(p.sample_rate, Some(16000));
}

#[test]
fn derives_output_path_under_output_dir() {
    let mut d = BulkDefaults::empty();
    d.output_dir = Some(b"out".to_vec());
    d.encoding = Some(b"MP3".to_vec());
    let item = bare_item(b"third");
    let (_, out) = plan_bulk_item(&d, &item, 3).unwrap();
    assert_eq!(out, b"out/item_3.mp3".to_vec());
}

#[test]
fn explicit_output_wins_over_derivation() {
    let mut d = BulkDefaults::empty();
    d.output_dir = Some(b"out".to_vec());
    let mut item = bare_item(b"hello");
    item.output = Some(b"out/hello.wav".to_vec());
    let (_, out) = plan_bulk_item(&d, &item, 1).unwrap();
    assert_eq!(out, b"out/hello.wav".to_vec());
}

#[test]
fn unknown_effective_encoding_aborts_item() {
    let mut item = bare_item(b"hello");
    item.encoding = Some(b"flac".to_vec());
    let err = plan_bulk_item(&BulkDefaults::empty(), &item, 1).unwrap_err();
    let m = String::from_utf8(err.message()).unwrap();
    assert_eq!(m, "unsupported encoding: FLAC");
}

#[test]
fn mismatched_explicit_output_aborts_item() {
    let mut item = bare_item(b"hello");
    item.output = Some(b"song.mp3".to_vec());
    let err = plan_bulk_item(&BulkDefaults::empty(), &item, 1).unwrap_err();
    let m = String::from_utf8(err.message()).unwrap();
    assert!(m.contains("does not match encoding"));
}

#[test]
fn item_gender_overrides_default_gender() {
    let mut d = BulkDefaults::empty();
    d.gender = Some(b"female".to_vec());
    let mut item = bare_item(b"hi");
    item.gender = Some(b"male".to_vec());
    let (p, _) = plan_bulk_item(&d, &item, 2).unwrap();
    assert_eq!(p.gender, Some(Gender::Male));
}

#[test]
fn effects_list_merges_as_whole_field() {
    let mut d = BulkDefaults::empty();
    d.effects_profile_id = Some(vec![b"a".to_vec(), b"b".to_vec()]);
    let item = bare_item(b"hi");
    let (p, _) = plan_bulk_item(&d, &item, 1).unwrap();
    assert_eq!(p.effects, vec![b"a".to_vec(), b"b".to_vec()]);
}
