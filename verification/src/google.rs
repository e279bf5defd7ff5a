//! Request adaptation for the primary provider: the synthesize request
//! body, the endpoint URLs, the bearer header, and the unwrapping of the
//! base64-wrapped audio in its reply.

use vstd::prelude::*;
use vstd::string::StringSliceAdditionalSpecFns;
use crate::ascii::push_all;
use crate::digits::{dec_i32, idec_spec};
use crate::encoding::{AudioEncoding, Gender};
use crate::errors::TtsError;
use crate::json::{is_number_token, json_str, json_str_push, number_token};

verus! {

/// The uniform synthesis parameter set, one value per request. Text
/// fields are UTF-8 bytes; the three number fields carry decimal number
/// tokens rendered by the caller, so the library never touches floating
/// point.
#[derive(Debug)]
pub struct SynthesisParams {
    pub text: Vec<u8>,
    pub is_ssml: bool,
    pub language: Vec<u8>,
    pub voice: Option<Vec<u8>>,
    pub gender: Option<Gender>,
    pub rate: Vec<u8>,
    pub pitch: Vec<u8>,
    pub volume_gain_db: Vec<u8>,
    pub sample_rate: Option<i32>,
    pub encoding: AudioEncoding,
    pub effects: Vec<Vec<u8>>,
}

impl SynthesisParams {
    /// Well-formedness: the number fields hold number tokens, so the
    /// request body built from them is a well-formed JSON document.
    pub open spec fn wf(self) -> bool {
        number_token(self.rate@) && number_token(self.pitch@) && number_token(
            self.volume_gain_db@,
        )
    }

    /// Checks well-formedness.
    pub fn check_wf(&self) -> (r: bool)
        ensures
            r == self.wf(),
    {
        is_number_token(self.rate.as_slice()) && is_number_token(self.pitch.as_slice())
            && is_number_token(self.volume_gain_db.as_slice())
    }
}

/// A UTF-8 spec shorthand for the wire identifiers of the enums.
pub open spec fn utf8(s: Seq<char>) -> Seq<u8> {
    vstd::utf8::encode_utf8(s)
}

/// The comma-separated JSON string literals of an effects-profile list.
pub open spec fn effects_list_spec(l: Seq<Seq<u8>>) -> Seq<u8>
    decreases l.len(),
{
    if l.len() == 0 {
        Seq::empty()
    } else if l.len() == 1 {
        json_str(l[0])
    } else {
        effects_list_spec(l.drop_last()) + ",".spec_bytes() + json_str(l.last())
    }
}

/// The voice-selection object: languageCode, then the optional voice
/// name, then the optional ssmlGender.
pub open spec fn voice_obj_spec(p: SynthesisParams) -> Seq<u8> {
    "{\"languageCode\":".spec_bytes() + json_str(p.language@) + (match p.voice {
        Some(v) => ",\"name\":".spec_bytes() + json_str(v@),
        None => Seq::empty(),
    }) + (match p.gender {
        Some(g) => ",\"ssmlGender\":".spec_bytes() + json_str(utf8(g.api_str_spec())),
        None => Seq::empty(),
    }) + "}".spec_bytes()
}

/// The audio-config object: encoding and the three number fields always;
/// sampleRateHertz only when given; effectsProfileId only when non-empty;
/// the legacy WAV header always disabled.
pub open spec fn audio_config_spec(p: SynthesisParams) -> Seq<u8> {
    "{\"audioEncoding\":".spec_bytes() + json_str(utf8(p.encoding.api_str_spec()))
        + ",\"speakingRate\":".spec_bytes() + p.rate@ + ",\"pitch\":".spec_bytes() + p.pitch@
        + ",\"volumeGainDb\":".spec_bytes() + p.volume_gain_db@ + (match p.sample_rate {
        Some(n) => ",\"sampleRateHertz\":".spec_bytes() + idec_spec(n as int),
        None => Seq::empty(),
    }) + (if p.effects@.len() > 0 {
        ",\"effectsProfileId\":[".spec_bytes() + effects_list_spec(p.effects.deep_view())
            + "]".spec_bytes()
    } else {
        Seq::empty()
    }) + ",\"enableLegacyWavHeader\":false}".spec_bytes()
}

/// The whole synthesize request body. The input object keys the text
/// under `ssml` or `text` according to the input variant — never both.
pub open spec fn synthesize_body_spec(p: SynthesisParams) -> Seq<u8> {
    "{\"input\":{\"".spec_bytes() + (if p.is_ssml {
        "ssml".spec_bytes()
    } else {
        "text".spec_bytes()
    }) + "\":".spec_bytes() + json_str(p.text@) + "},\"voice\":".spec_bytes() + voice_obj_spec(p)
        + ",\"audioConfig\":".spec_bytes() + audio_config_spec(p) + "}".spec_bytes()
}

proof fn lemma_effects_list_push(l: Seq<Seq<u8>>, x: Seq<u8>)
    requires
        l.len() >= 1,
    ensures
        effects_list_spec(l.push(x)) == effects_list_spec(l) + ",".spec_bytes() + json_str(x),
{
    assert(l.push(x).drop_last() =~= l);
    assert(l.push(x).last() == x);
}

fn build_voice_obj(p: &SynthesisParams) -> (r: Vec<u8>)
    ensures
        r@ == voice_obj_spec(*p),
{
    let mut out: Vec<u8> = Vec::new();
    push_all(&mut out, "{\"languageCode\":".as_bytes());
    json_str_push(&mut out, p.language.as_slice());
    match &p.voice {
        Some(v) => {
            push_all(&mut out, ",\"name\":".as_bytes());
            json_str_push(&mut out, v.as_slice());
        },
        None => {},
    }
    match &p.gender {
        Some(g) => {
            push_all(&mut out, ",\"ssmlGender\":".as_bytes());
            json_str_push(&mut out, g.api_str().as_bytes());
        },
        None => {},
    }
    push_all(&mut out, "}".as_bytes());
    proof {
        assert(out@ =~= voice_obj_spec(*p));
    }
    out
}

fn build_effects_list(effects: &Vec<Vec<u8>>) -> (r: Vec<u8>)
    ensures
        r@ == effects_list_spec(effects.deep_view()),
{
    let ghost l = effects.deep_view();
    let mut out: Vec<u8> = Vec::new();
    let mut i: usize = 0;
    while i < effects.len()
        invariant
            effects@.len() == l.len(),
            0 <= i <= l.len(),
            forall|j: int| 0 <= j < l.len() ==> l[j] == #[trigger] effects@[j]@,
            out@ == effects_list_spec(l.subrange(0, i as int)),
        decreases l.len() - i,
    {
        if i > 0 {
            push_all(&mut out, ",".as_bytes());
        }
        json_str_push(&mut out, effects[i].as_slice());
        proof {
            if i == 0 {
                assert(l.subrange(0, 1) =~= seq![l[0]]);
                assert(effects_list_spec(seq![l[0]]) == json_str(l[0]));
                assert(out@ =~= effects_list_spec(l.subrange(0, 1)));
            } else {
                assert(l.subrange(0, i + 1) =~= l.subrange(0, i as int).push(l[i as int]));
                lemma_effects_list_push(l.subrange(0, i as int), l[i as int]);
                assert(out@ =~= effects_list_spec(l.subrange(0, i + 1)));
            }
        }
        i = i + 1;
    }
    proof {
        assert(l.subrange(0, l.len() as int) =~= l);
    }
    out
}

fn build_audio_config(p: &SynthesisParams) -> (r: Vec<u8>)
    ensures
        r@ == audio_config_spec(*p),
{
    let mut out: Vec<u8> = Vec::new();
    push_all(&mut out, "{\"audioEncoding\":".as_bytes());
    json_str_push(&mut out, p.encoding.api_str().as_bytes());
    push_all(&mut out, ",\"speakingRate\":".as_bytes());
    push_all(&mut out, p.rate.as_slice());
    push_all(&mut out, ",\"pitch\":".as_bytes());
    push_all(&mut out, p.pitch.as_slice());
    push_all(&mut out, ",\"volumeGainDb\":".as_bytes());
    push_all(&mut out, p.volume_gain_db.as_slice());
    match p.sample_rate {
        Some(n) => {
            push_all(&mut out, ",\"sampleRateHertz\":".as_bytes());
            let d = dec_i32(n);
            push_all(&mut out, d.as_slice());
        },
        None => {},
    }
    if p.effects.len() > 0 {
        push_all(&mut out, ",\"effectsProfileId\":[".as_bytes());
        let list = build_effects_list(&p.effects);
        push_all(&mut out, list.as_slice());
        push_all(&mut out, "]".as_bytes());
    }
    push_all(&mut out, ",\"enableLegacyWavHeader\":false}".as_bytes());
    proof {
        assert(out@ =~= audio_config_spec(*p));
    }
    out
}

/// Builds the synthesize request body for the primary provider.
pub fn build_synthesize_body(p: &SynthesisParams) -> (r: Vec<u8>)
    ensures
        r@ == synthesize_body_spec(*p),
{
    let mut out: Vec<u8> = Vec::new();
    push_all(&mut out, "{\"input\":{\"".as_bytes());
    if p.is_ssml {
        push_all(&mut out, "ssml".as_bytes());
    } else {
        push_all(&mut out, "text".as_bytes());
    }
    push_all(&mut out, "\":".as_bytes());
    json_str_push(&mut out, p.text.as_slice());
    push_all(&mut out, "},\"voice\":".as_bytes());
    let voice = build_voice_obj(p);
    push_all(&mut out, voice.as_slice());
    push_all(&mut out, ",\"audioConfig\":".as_bytes());
    let config = build_audio_config(p);
    push_all(&mut out, config.as_slice());
    push_all(&mut out, "}".as_bytes());
    proof {
        assert(out@ =~= synthesize_body_spec(*p));
    }
    out
}

/// The synthesize endpoint under a base URL.
pub fn synthesize_url(base: &str) -> (r: Vec<u8>)
    ensures
        r@ == base.spec_bytes() + "/v1/text:synthesize".spec_bytes(),
{
    let mut out: Vec<u8> = Vec::new();
    push_all(&mut out, base.as_bytes());
    push_all(&mut out, "/v1/text:synthesize".as_bytes());
    out
}

/// The voices-listing endpoint under a base URL.
pub fn voices_url(base: &str) -> (r: Vec<u8>)
    ensures
        r@ == base.spec_bytes() + "/v1/voices".spec_bytes(),
{
    let mut out: Vec<u8> = Vec::new();
    push_all(&mut out, base.as_bytes());
    push_all(&mut out, "/v1/voices".as_bytes());
    out
}

/// The Authorization header value for a bearer token.
pub fn bearer_header(token: &[u8]) -> (r: Vec<u8>)
    ensures
        r@ == "Bearer ".spec_bytes() + token@,
{
    let mut out: Vec<u8> = Vec::new();
    push_all(&mut out, "Bearer ".as_bytes());
    push_all(&mut out, token);
    out
}

/// The string under the `audio_content` field of a synthesize reply, when
/// the reply is a JSON object carrying one.
pub uninterp spec fn audio_content_of(body: Seq<u8>) -> Option<Seq<u8>>;

/// Relies on serde_json::from_slice for parsing the reply and reading its
/// `audio_content` string field; the result depends on the bytes alone.
#[verifier::external_body]
fn parse_audio_content(body: &[u8]) -> (r: Option<Vec<u8>>)
    ensures
        match r {
            Some(v) => audio_content_of(body@) == Some(v@),
            None => audio_content_of(body@) is None,
        },
{
    let v: serde_json::Value = serde_json::from_slice(body).ok()?;
    Some(v.get("audio_content")?.as_str()?.as_bytes().to_vec())
}

/// What the base64 standard-alphabet decoder yields on this input, when
/// the input is valid base64.
pub uninterp spec fn b64_decoded(s: Seq<u8>) -> Option<Seq<u8>>;

/// Relies on base64's STANDARD engine decode; the result depends on the
/// bytes alone.
#[verifier::external_body]
pub(crate) fn b64_decode_standard(s: &[u8]) -> (r: Option<Vec<u8>>)
    ensures
        match r {
            Some(v) => b64_decoded(s@) == Some(v@),
            None => b64_decoded(s@) is None,
        },
{
    base64::Engine::decode(&base64::engine::general_purpose::STANDARD, s).ok()
}

/// Unwraps a synthesize reply: reads the base64 `audio_content` field and
/// decodes it to the raw audio bytes. Each malformation is its own
/// failure.
pub fn decode_synthesize_response(body: &[u8]) -> (r: Result<Vec<u8>, TtsError>)
    ensures
        match r {
            Ok(audio) => audio_content_of(body@) matches Some(c) && b64_decoded(c) == Some(
                audio@,
            ),
            Err(e) => match audio_content_of(body@) {
                None => e matches TtsError::Provider(ctx) && ctx@ == "synthesize response did not include audio_content".spec_bytes(),
                Some(c) => b64_decoded(c) is None && (e matches TtsError::Provider(ctx) && ctx@
                    == "failed decoding audio_content from synthesize response".spec_bytes()),
            },
        },
{
    match parse_audio_content(body) {
        None => {
            let mut ctx: Vec<u8> = Vec::new();
            push_all(&mut ctx, "synthesize response did not include audio_content".as_bytes());
            Err(TtsError::Provider(ctx))
        },
        Some(content) => match b64_decode_standard(content.as_slice()) {
            None => {
                let mut ctx: Vec<u8> = Vec::new();
                push_all(
                    &mut ctx,
                    "failed decoding audio_content from synthesize response".as_bytes(),
                );
                Err(TtsError::Provider(ctx))
            },
            Some(audio) => Ok(audio),
        },
    }
}

} // verus!
