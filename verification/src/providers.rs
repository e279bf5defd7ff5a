//! Request adaptation for the secondary providers. Each maps the generic
//! encoding selector to its own output-format vocabulary, builds its own
//! request shape, and — where the provider wraps audio in a structured
//! envelope — unwraps the reply.

use vstd::prelude::*;
use vstd::string::StringSliceAdditionalSpecFns;
use crate::ascii::{has_prefix, push_all, starts_with};
use crate::auth::{form_escape, form_escape_push};
use crate::encoding::AudioEncoding;
use crate::errors::TtsError;
use crate::json::{json_str, json_str_push};

verus! {

// ------------------------------------------------------------------ openai

/// The output format requested from the first secondary provider.
pub open spec fn openai_format_spec(e: AudioEncoding) -> Seq<char> {
    match e {
        AudioEncoding::Mp3 => "mp3"@,
        AudioEncoding::OggOpus => "opus"@,
        _ => "wav"@,
    }
}

pub fn openai_format(e: AudioEncoding) -> (r: &'static str)
    ensures
        r@ == openai_format_spec(e),
{
    match e {
        AudioEncoding::Mp3 => "mp3",
        AudioEncoding::OggOpus => "opus",
        _ => "wav",
    }
}

/// That provider's request body; fields appear in the sorted order its
/// JSON object serialization uses. An absent voice falls back to
/// `alloy`, an absent model to `gpt-4o-mini-tts`.
pub open spec fn openai_body_spec(
    text: Seq<u8>,
    voice: Option<Seq<u8>>,
    model: Option<Seq<u8>>,
    e: AudioEncoding,
) -> Seq<u8> {
    "{\"format\":".spec_bytes() + json_str(vstd::utf8::encode_utf8(openai_format_spec(e)))
        + ",\"input\":".spec_bytes() + json_str(text) + ",\"model\":".spec_bytes() + json_str(
        match model {
            Some(m) => m,
            None => "gpt-4o-mini-tts".spec_bytes(),
        },
    ) + ",\"voice\":".spec_bytes() + json_str(
        match voice {
            Some(v) => v,
            None => "alloy".spec_bytes(),
        },
    ) + "}".spec_bytes()
}

pub fn build_openai_body(
    text: &[u8],
    voice: Option<&Vec<u8>>,
    model: Option<&Vec<u8>>,
    e: AudioEncoding,
) -> (r: Vec<u8>)
    ensures
        r@ == openai_body_spec(
            text@,
            match voice {
                Some(v) => Some(v@),
                None => None,
            },
            match model {
                Some(m) => Some(m@),
                None => None,
            },
            e,
        ),
{
    let mut out: Vec<u8> = Vec::new();
    push_all(&mut out, "{\"format\":".as_bytes());
    json_str_push(&mut out, openai_format(e).as_bytes());
    push_all(&mut out, ",\"input\":".as_bytes());
    json_str_push(&mut out, text);
    push_all(&mut out, ",\"model\":".as_bytes());
    match model {
        Some(m) => json_str_push(&mut out, m.as_slice()),
        None => json_str_push(&mut out, "gpt-4o-mini-tts".as_bytes()),
    }
    push_all(&mut out, ",\"voice\":".as_bytes());
    match voice {
        Some(v) => json_str_push(&mut out, v.as_slice()),
        None => json_str_push(&mut out, "alloy".as_bytes()),
    }
    push_all(&mut out, "}".as_bytes());
    proof {
        assert(out@ =~= openai_body_spec(
            text@,
            match voice {
                Some(v) => Some(v@),
                None => None,
            },
            match model {
                Some(m) => Some(m@),
                None => None,
            },
            e,
        ));
    }
    out
}

/// That provider's speech endpoint.
pub fn openai_url() -> (r: &'static str)
    ensures
        r@ == "https://api.openai.com/v1/audio/speech"@,
{
    "https://api.openai.com/v1/audio/speech"
}

// ------------------------------------------------------------------- azure

/// The region-scoped synthesis endpoint of the speech service.
pub fn azure_url(region: &[u8]) -> (r: Vec<u8>)
    ensures
        r@ == "https://".spec_bytes() + region@
            + ".tts.speech.microsoft.com/cognitiveservices/v1".spec_bytes(),
{
    let mut out: Vec<u8> = Vec::new();
    push_all(&mut out, "https://".as_bytes());
    push_all(&mut out, region);
    push_all(&mut out, ".tts.speech.microsoft.com/cognitiveservices/v1".as_bytes());
    out
}

/// That provider's output-format name for an encoding, refined by the
/// requested sample rate where it offers several rates.
pub open spec fn azure_format_spec(e: AudioEncoding, sample_rate: Option<i32>) -> Seq<char> {
    match e {
        AudioEncoding::Mp3 => match sample_rate {
            Some(_) => "audio-48khz-192kbitrate-mono-mp3"@,
            None => "audio-24khz-160kbitrate-mono-mp3"@,
        },
        AudioEncoding::OggOpus => "ogg-48khz-16bit-mono-opus"@,
        AudioEncoding::Linear16 => match sample_rate {
            Some(sr) => if sr >= 48000 {
                "riff-48khz-16bit-mono-pcm"@
            } else {
                "riff-24khz-16bit-mono-pcm"@
            },
            None => "riff-24khz-16bit-mono-pcm"@,
        },
        AudioEncoding::Mulaw => "mulaw-8khz-8bit-mono"@,
        AudioEncoding::Alaw => "alaw-8khz-8bit-mono"@,
    }
}

pub fn azure_format(e: AudioEncoding, sample_rate: Option<i32>) -> (r: &'static str)
    ensures
        r@ == azure_format_spec(e, sample_rate),
{
    match e {
        AudioEncoding::Mp3 => match sample_rate {
            Some(_) => "audio-48khz-192kbitrate-mono-mp3",
            None => "audio-24khz-160kbitrate-mono-mp3",
        },
        AudioEncoding::OggOpus => "ogg-48khz-16bit-mono-opus",
        AudioEncoding::Linear16 => match sample_rate {
            Some(sr) => if sr >= 48000 {
                "riff-48khz-16bit-mono-pcm"
            } else {
                "riff-24khz-16bit-mono-pcm"
            },
            None => "riff-24khz-16bit-mono-pcm",
        },
        AudioEncoding::Mulaw => "mulaw-8khz-8bit-mono",
        AudioEncoding::Alaw => "alaw-8khz-8bit-mono",
    }
}

/// The default voice for a locale: locale-matched neural voices for the
/// two known locales, the first of them otherwise.
pub open spec fn azure_voice_spec(language: Seq<u8>, voice: Option<Seq<u8>>) -> Seq<u8> {
    match voice {
        Some(v) => v,
        None => if has_prefix(language, "en-GB".spec_bytes()) {
            "en-GB-LibbyNeural".spec_bytes()
        } else {
            "en-US-JennyNeural".spec_bytes()
        },
    }
}

pub fn azure_voice(language: &[u8], voice: Option<&Vec<u8>>) -> (r: Vec<u8>)
    ensures
        r@ == azure_voice_spec(
            language@,
            match voice {
                Some(v) => Some(v@),
                None => None,
            },
        ),
{
    match voice {
        Some(v) => crate::ascii::clone_bytes(v),
        None => {
            let mut out: Vec<u8> = Vec::new();
            if starts_with(language, "en-GB".as_bytes()) {
                push_all(&mut out, "en-GB-LibbyNeural".as_bytes());
            } else {
                push_all(&mut out, "en-US-JennyNeural".as_bytes());
            }
            out
        },
    }
}

/// How one byte appears in escaped markup text: the five XML-special
/// bytes become entities, everything else stays.
pub open spec fn xml_esc_byte(b: u8) -> Seq<u8> {
    if b == 38 {
        "&amp;".spec_bytes()
    } else if b == 60 {
        "&lt;".spec_bytes()
    } else if b == 62 {
        "&gt;".spec_bytes()
    } else if b == 34 {
        "&quot;".spec_bytes()
    } else if b == 39 {
        "&#x27;".spec_bytes()
    } else {
        seq![b]
    }
}

/// The escaped form of text embedded in a markup document.
pub open spec fn xml_escape(s: Seq<u8>) -> Seq<u8>
    decreases s.len(),
{
    if s.len() == 0 {
        Seq::empty()
    } else {
        xml_escape(s.drop_last()) + xml_esc_byte(s.last())
    }
}

proof fn lemma_xml_escape_push(s: Seq<u8>, b: u8)
    ensures
        xml_escape(s.push(b)) == xml_escape(s) + xml_esc_byte(b),
{
    assert(s.push(b).drop_last() =~= s);
    assert(s.push(b).last() == b);
}

/// Appends the XML-escaped form of `s` to `out`.
pub fn xml_escape_push(out: &mut Vec<u8>, s: &[u8])
    ensures
        final(out)@ == old(out)@ + xml_escape(s@),
{
    let mut i: usize = 0;
    while i < s.len()
        invariant
            0 <= i <= s@.len(),
            out@ == old(out)@ + xml_escape(s@.subrange(0, i as int)),
        decreases s@.len() - i,
    {
        let b = s[i];
        if b == 38 {
            push_all(out, "&amp;".as_bytes());
        } else if b == 60 {
            push_all(out, "&lt;".as_bytes());
        } else if b == 62 {
            push_all(out, "&gt;".as_bytes());
        } else if b == 34 {
            push_all(out, "&quot;".as_bytes());
        } else if b == 39 {
            push_all(out, "&#x27;".as_bytes());
        } else {
            out.push(b);
        }
        proof {
            lemma_xml_escape_push(s@.subrange(0, i as int), s@[i as int]);
            assert(s@.subrange(0, i + 1) =~= s@.subrange(0, i as int).push(s@[i as int]));
            assert(out@ =~= old(out)@ + xml_escape(s@.subrange(0, i + 1)));
        }
        i = i + 1;
    }
    proof {
        assert(s@.subrange(0, s@.len() as int) =~= s@);
    }
}

/// The SSML document sent to the speech service: the text is escaped,
/// the language and voice attributes are embedded as given.
pub open spec fn azure_ssml_spec(text: Seq<u8>, language: Seq<u8>, voice: Seq<u8>) -> Seq<u8> {
    "<speak version=\"1.0\" xml:lang=\"".spec_bytes() + language + "\"><voice xml:lang=\"".spec_bytes()
        + language + "\" name=\"".spec_bytes() + voice + "\">".spec_bytes() + xml_escape(text)
        + "</voice></speak>".spec_bytes()
}

pub fn build_azure_ssml(text: &[u8], language: &[u8], voice: &[u8]) -> (r: Vec<u8>)
    ensures
        r@ == azure_ssml_spec(text@, language@, voice@),
{
    let mut out: Vec<u8> = Vec::new();
    push_all(&mut out, "<speak version=\"1.0\" xml:lang=\"".as_bytes());
    push_all(&mut out, language);
    push_all(&mut out, "\"><voice xml:lang=\"".as_bytes());
    push_all(&mut out, language);
    push_all(&mut out, "\" name=\"".as_bytes());
    push_all(&mut out, voice);
    push_all(&mut out, "\">".as_bytes());
    xml_escape_push(&mut out, text);
    push_all(&mut out, "</voice></speak>".as_bytes());
    proof {
        assert(out@ =~= azure_ssml_spec(text@, language@, voice@));
    }
    out
}

// -------------------------------------------------------------- elevenlabs

pub open spec fn elevenlabs_format_spec(e: AudioEncoding) -> Seq<char> {
    match e {
        AudioEncoding::Mp3 => "mp3"@,
        AudioEncoding::OggOpus => "ogg"@,
        _ => "wav"@,
    }
}

pub fn elevenlabs_format(e: AudioEncoding) -> (r: &'static str)
    ensures
        r@ == elevenlabs_format_spec(e),
{
    match e {
        AudioEncoding::Mp3 => "mp3",
        AudioEncoding::OggOpus => "ogg",
        _ => "wav",
    }
}

/// The per-voice synthesis endpoint; an absent voice falls back to
/// `Rachel`.
pub open spec fn elevenlabs_url_spec(voice: Option<Seq<u8>>) -> Seq<u8> {
    "https://api.elevenlabs.io/v1/text-to-speech/".spec_bytes() + (match voice {
        Some(v) => v,
        None => "Rachel".spec_bytes(),
    })
}

pub fn elevenlabs_url(voice: Option<&Vec<u8>>) -> (r: Vec<u8>)
    ensures
        r@ == elevenlabs_url_spec(
            match voice {
                Some(v) => Some(v@),
                None => None,
            },
        ),
{
    let mut out: Vec<u8> = Vec::new();
    push_all(&mut out, "https://api.elevenlabs.io/v1/text-to-speech/".as_bytes());
    match voice {
        Some(v) => push_all(&mut out, v.as_slice()),
        None => push_all(&mut out, "Rachel".as_bytes()),
    }
    out
}

/// That provider's request body; fields appear in the sorted order its
/// JSON object serialization uses, with the fixed voice-settings pair.
/// An absent model falls back to `eleven_multilingual_v2`.
pub open spec fn elevenlabs_body_spec(
    text: Seq<u8>,
    model: Option<Seq<u8>>,
    e: AudioEncoding,
) -> Seq<u8> {
    "{\"model_id\":".spec_bytes() + json_str(
        match model {
            Some(m) => m,
            None => "eleven_multilingual_v2".spec_bytes(),
        },
    ) + ",\"output_format\":".spec_bytes() + json_str(
        vstd::utf8::encode_utf8(elevenlabs_format_spec(e)),
    ) + ",\"text\":".spec_bytes() + json_str(text)
        + ",\"voice_settings\":{\"similarity_boost\":0.5,\"stability\":0.5}}".spec_bytes()
}

pub fn build_elevenlabs_body(text: &[u8], model: Option<&Vec<u8>>, e: AudioEncoding) -> (r: Vec<
    u8,
>)
    ensures
        r@ == elevenlabs_body_spec(
            text@,
            match model {
                Some(m) => Some(m@),
                None => None,
            },
            e,
        ),
{
    let mut out: Vec<u8> = Vec::new();
    push_all(&mut out, "{\"model_id\":".as_bytes());
    match model {
        Some(m) => json_str_push(&mut out, m.as_slice()),
        None => json_str_push(&mut out, "eleven_multilingual_v2".as_bytes()),
    }
    push_all(&mut out, ",\"output_format\":".as_bytes());
    json_str_push(&mut out, elevenlabs_format(e).as_bytes());
    push_all(&mut out, ",\"text\":".as_bytes());
    json_str_push(&mut out, text);
    push_all(
        &mut out,
        ",\"voice_settings\":{\"similarity_boost\":0.5,\"stability\":0.5}}".as_bytes(),
    );
    proof {
        assert(out@ =~= elevenlabs_body_spec(
            text@,
            match model {
                Some(m) => Some(m@),
                None => None,
            },
            e,
        ));
    }
    out
}

// ---------------------------------------------------------------- deepgram

pub open spec fn deepgram_format_spec(e: AudioEncoding) -> Seq<char> {
    match e {
        AudioEncoding::Mp3 => "mp3"@,
        AudioEncoding::OggOpus => "opus"@,
        _ => "wav"@,
    }
}

pub fn deepgram_format(e: AudioEncoding) -> (r: &'static str)
    ensures
        r@ == deepgram_format_spec(e),
{
    match e {
        AudioEncoding::Mp3 => "mp3",
        AudioEncoding::OggOpus => "opus",
        _ => "wav",
    }
}

pub fn deepgram_url() -> (r: &'static str)
    ensures
        r@ == "https://api.deepgram.com/v1/speak"@,
{
    "https://api.deepgram.com/v1/speak"
}

/// The query string of that provider's request: model, voice and format
/// in this order, form-urlencoded. Model and voice share the same
/// fallback voice name.
pub open spec fn deepgram_query_spec(
    model: Option<Seq<u8>>,
    voice: Option<Seq<u8>>,
    e: AudioEncoding,
) -> Seq<u8> {
    "model=".spec_bytes() + form_escape(
        match model {
            Some(m) => m,
            None => "aura-asteria-en".spec_bytes(),
        },
    ) + "&voice=".spec_bytes() + form_escape(
        match voice {
            Some(v) => v,
            None => "aura-asteria-en".spec_bytes(),
        },
    ) + "&format=".spec_bytes() + form_escape(vstd::utf8::encode_utf8(deepgram_format_spec(e)))
}

pub fn build_deepgram_query(
    model: Option<&Vec<u8>>,
    voice: Option<&Vec<u8>>,
    e: AudioEncoding,
) -> (r: Vec<u8>)
    ensures
        r@ == deepgram_query_spec(
            match model {
                Some(m) => Some(m@),
                None => None,
            },
            match voice {
                Some(v) => Some(v@),
                None => None,
            },
            e,
        ),
{
    let mut out: Vec<u8> = Vec::new();
    push_all(&mut out, "model=".as_bytes());
    match model {
        Some(m) => form_escape_push(&mut out, m.as_slice()),
        None => form_escape_push(&mut out, "aura-asteria-en".as_bytes()),
    }
    push_all(&mut out, "&voice=".as_bytes());
    match voice {
        Some(v) => form_escape_push(&mut out, v.as_slice()),
        None => form_escape_push(&mut out, "aura-asteria-en".as_bytes()),
    }
    push_all(&mut out, "&format=".as_bytes());
    form_escape_push(&mut out, deepgram_format(e).as_bytes());
    proof {
        assert(out@ =~= deepgram_query_spec(
            match model {
                Some(m) => Some(m@),
                None => None,
            },
            match voice {
                Some(v) => Some(v@),
                None => None,
            },
            e,
        ));
    }
    out
}

/// The Authorization header value of that provider's token scheme.
pub fn token_header(key: &[u8]) -> (r: Vec<u8>)
    ensures
        r@ == "Token ".spec_bytes() + key@,
{
    let mut out: Vec<u8> = Vec::new();
    push_all(&mut out, "Token ".as_bytes());
    push_all(&mut out, key);
    out
}

// ------------------------------------------------------------------ gemini

/// The generative provider cannot represent the telephony encodings.
pub open spec fn gemini_format_spec(e: AudioEncoding) -> Option<Seq<char>> {
    match e {
        AudioEncoding::Mp3 => Some("mp3"@),
        AudioEncoding::OggOpus => Some("ogg"@),
        AudioEncoding::Linear16 => Some("wav"@),
        AudioEncoding::Mulaw => None,
        AudioEncoding::Alaw => None,
    }
}

pub fn gemini_format(e: AudioEncoding) -> (r: Result<&'static str, TtsError>)
    ensures
        match r {
            Ok(f) => gemini_format_spec(e) == Some(f@),
            Err(err) => gemini_format_spec(e) is None && err == (TtsError::UnsupportedEncoding {
                encoding: e,
            }),
        },
{
    match e {
        AudioEncoding::Mp3 => Ok("mp3"),
        AudioEncoding::OggOpus => Ok("ogg"),
        AudioEncoding::Linear16 => Ok("wav"),
        AudioEncoding::Mulaw | AudioEncoding::Alaw => Err(
            TtsError::UnsupportedEncoding { encoding: e },
        ),
    }
}

/// The model-scoped content-generation endpoint, keyed in the query; an
/// absent model falls back to the fast generally-available one.
pub open spec fn gemini_url_spec(model: Option<Seq<u8>>, api_key: Seq<u8>) -> Seq<u8> {
    "https://generativelanguage.googleapis.com/v1beta/models/".spec_bytes() + (match model {
        Some(m) => m,
        None => "gemini-1.5-flash-latest".spec_bytes(),
    }) + ":generateContent?key=".spec_bytes() + api_key
}

pub fn gemini_url(model: Option<&Vec<u8>>, api_key: &[u8]) -> (r: Vec<u8>)
    ensures
        r@ == gemini_url_spec(
            match model {
                Some(m) => Some(m@),
                None => None,
            },
            api_key@,
        ),
{
    let mut out: Vec<u8> = Vec::new();
    push_all(&mut out, "https://generativelanguage.googleapis.com/v1beta/models/".as_bytes());
    match model {
        Some(m) => push_all(&mut out, m.as_slice()),
        None => push_all(&mut out, "gemini-1.5-flash-latest".as_bytes()),
    }
    push_all(&mut out, ":generateContent?key=".as_bytes());
    push_all(&mut out, api_key);
    out
}

/// That provider's request body: one user turn whose parts are the text
/// and an audio directive naming the voice (null when absent) and the
/// format; objects appear in their sorted serialized order.
pub open spec fn gemini_body_spec(text: Seq<u8>, voice: Option<Seq<u8>>, fmt: Seq<char>) -> Seq<
    u8,
> {
    "{\"contents\":[{\"parts\":[{\"text\":".spec_bytes() + json_str(text)
        + "},{\"audio\":{\"format\":".spec_bytes() + json_str(vstd::utf8::encode_utf8(fmt))
        + ",\"voice\":".spec_bytes() + (match voice {
        Some(v) => json_str(v),
        None => "null".spec_bytes(),
    }) + "}}],\"role\":\"user\"}]}".spec_bytes()
}

pub fn build_gemini_body(text: &[u8], voice: Option<&Vec<u8>>, fmt: &str) -> (r: Vec<u8>)
    ensures
        r@ == gemini_body_spec(
            text@,
            match voice {
                Some(v) => Some(v@),
                None => None,
            },
            fmt@,
        ),
{
    let mut out: Vec<u8> = Vec::new();
    push_all(&mut out, "{\"contents\":[{\"parts\":[{\"text\":".as_bytes());
    json_str_push(&mut out, text);
    push_all(&mut out, "},{\"audio\":{\"format\":".as_bytes());
    json_str_push(&mut out, fmt.as_bytes());
    push_all(&mut out, ",\"voice\":".as_bytes());
    match voice {
        Some(v) => json_str_push(&mut out, v.as_slice()),
        None => push_all(&mut out, "null".as_bytes()),
    }
    push_all(&mut out, "}}],\"role\":\"user\"}]}".as_bytes());
    proof {
        assert(out@ =~= gemini_body_spec(
            text@,
            match voice {
                Some(v) => Some(v@),
                None => None,
            },
            fmt@,
        ));
    }
    out
}

/// The first base64 audio-data string among the candidates' parts of a
/// content-generation reply, when the reply is a JSON document of that
/// shape and has one.
pub uninterp spec fn gemini_audio_of(s: Seq<u8>) -> Option<Seq<u8>>;

/// Relies on serde_json::from_slice for parsing the reply and walking
/// `candidates[*].content.parts[*].audio.data` in order; the result
/// depends on the bytes alone.
#[verifier::external_body]
fn parse_gemini_audio(s: &[u8]) -> (r: Option<Vec<u8>>)
    ensures
        match r {
            Some(v) => gemini_audio_of(s@) == Some(v@),
            None => gemini_audio_of(s@) is None,
        },
{
    let v: serde_json::Value = serde_json::from_slice(s).ok()?;
    for c in v.get("candidates")?.as_array()? {
        let parts = c.get("content").and_then(|x| x.get("parts")).and_then(|x| x.as_array());
        for p in parts.into_iter().flatten() {
            if let Some(d) = p.get("audio").and_then(|a| a.get("data")).and_then(|d| d.as_str()) {
                return Some(d.as_bytes().to_vec());
            }
        }
    }
    None
}

/// Unwraps a content-generation reply: finds the audio part and decodes
/// its base64 payload. Each malformation is its own failure.
pub fn decode_gemini_response(body: &[u8]) -> (r: Result<Vec<u8>, TtsError>)
    ensures
        match r {
            Ok(audio) => gemini_audio_of(body@) matches Some(c)
                && crate::google::b64_decoded(c) == Some(audio@),
            Err(e) => match gemini_audio_of(body@) {
                None => e matches TtsError::Provider(ctx) && ctx@ == "Gemini response did not include audio data".spec_bytes(),
                Some(c) => crate::google::b64_decoded(c) is None && (e matches
                TtsError::Provider(ctx) && ctx@ == "failed decoding audio data from Gemini response".spec_bytes()),
            },
        },
{
    match parse_gemini_audio(body) {
        None => {
            let mut ctx: Vec<u8> = Vec::new();
            push_all(&mut ctx, "Gemini response did not include audio data".as_bytes());
            Err(TtsError::Provider(ctx))
        },
        Some(content) => match crate::google::b64_decode_standard(content.as_slice()) {
            None => {
                let mut ctx: Vec<u8> = Vec::new();
                push_all(&mut ctx, "failed decoding audio data from Gemini response".as_bytes());
                Err(TtsError::Provider(ctx))
            },
            Some(audio) => Ok(audio),
        },
    }
}

// ------------------------------------------------------------------- polly

/// The managed speech service's output-format name for an encoding.
pub open spec fn polly_format_spec(e: AudioEncoding) -> Seq<char> {
    match e {
        AudioEncoding::Mp3 => "mp3"@,
        AudioEncoding::OggOpus => "ogg_vorbis"@,
        _ => "pcm"@,
    }
}

pub fn polly_output_format(e: AudioEncoding) -> (r: &'static str)
    ensures
        r@ == polly_format_spec(e),
{
    match e {
        AudioEncoding::Mp3 => "mp3",
        AudioEncoding::OggOpus => "ogg_vorbis",
        _ => "pcm",
    }
}

/// The default voice of the managed speech service.
pub open spec fn polly_voice_spec(voice: Option<Seq<u8>>) -> Seq<u8> {
    match voice {
        Some(v) => v,
        None => "Joanna".spec_bytes(),
    }
}

pub fn polly_voice(voice: Option<&Vec<u8>>) -> (r: Vec<u8>)
    ensures
        r@ == polly_voice_spec(
            match voice {
                Some(v) => Some(v@),
                None => None,
            },
        ),
{
    match voice {
        Some(v) => crate::ascii::clone_bytes(v),
        None => {
            let mut out: Vec<u8> = Vec::new();
            push_all(&mut out, "Joanna".as_bytes());
            out
        },
    }
}

} // verus!
