//! The audio-encoding policy: every encoding selector has exactly one wire
//! identifier and exactly one required file extension.

use vstd::prelude::*;
use vstd::string::StringSliceAdditionalSpecFns;
use crate::ascii::{eq_bytes, trim_bytes, trim_spec, upper_bytes, upper_spec};
use crate::errors::TtsError;

verus! {

/// The audio encodings the primary provider accepts.
#[derive(Clone, Copy, Debug, PartialEq, Eq, Structural)]
pub enum AudioEncoding {
    Linear16,
    Mp3,
    OggOpus,
    Mulaw,
    Alaw,
}

impl AudioEncoding {
    /// The wire-format identifier sent to the primary provider.
    pub open spec fn api_str_spec(self) -> Seq<char> {
        match self {
            AudioEncoding::Linear16 => "LINEAR16"@,
            AudioEncoding::Mp3 => "MP3"@,
            AudioEncoding::OggOpus => "OGG_OPUS"@,
            AudioEncoding::Mulaw => "MULAW"@,
            AudioEncoding::Alaw => "ALAW"@,
        }
    }

    /// The file extension an output path must carry for this encoding.
    /// Several encodings share "wav"; the mapping is total.
    pub open spec fn file_extension_spec(self) -> Seq<char> {
        match self {
            AudioEncoding::Linear16 => "wav"@,
            AudioEncoding::Mp3 => "mp3"@,
            AudioEncoding::OggOpus => "ogg"@,
            AudioEncoding::Mulaw => "wav"@,
            AudioEncoding::Alaw => "wav"@,
        }
    }

    pub fn api_str(&self) -> (r: &'static str)
        ensures
            r@ == self.api_str_spec(),
    {
        match self {
            AudioEncoding::Linear16 => "LINEAR16",
            AudioEncoding::Mp3 => "MP3",
            AudioEncoding::OggOpus => "OGG_OPUS",
            AudioEncoding::Mulaw => "MULAW",
            AudioEncoding::Alaw => "ALAW",
        }
    }

    pub fn file_extension(&self) -> (r: &'static str)
        ensures
            r@ == self.file_extension_spec(),
    {
        match self {
            AudioEncoding::Linear16 | AudioEncoding::Mulaw | AudioEncoding::Alaw => "wav",
            AudioEncoding::Mp3 => "mp3",
            AudioEncoding::OggOpus => "ogg",
        }
    }
}

/// The encoding policy is total and fixed: every encoding has exactly
/// one extension, each of `mp3` and `ogg` belongs to exactly one
/// encoding, and the three remaining encodings share `wav`.
pub proof fn lemma_extension_policy()
    ensures
        forall|e: AudioEncoding|
            #[trigger] e.file_extension_spec() == "wav"@ || e.file_extension_spec() == "mp3"@
                || e.file_extension_spec() == "ogg"@,
        forall|e: AudioEncoding| #[trigger] e.file_extension_spec() == "mp3"@ <==> e
            == AudioEncoding::Mp3,
        forall|e: AudioEncoding| #[trigger] e.file_extension_spec() == "ogg"@ <==> e
            == AudioEncoding::OggOpus,
        forall|e: AudioEncoding| #[trigger] e.file_extension_spec() == "wav"@ <==> (e
            == AudioEncoding::Linear16 || e == AudioEncoding::Mulaw || e == AudioEncoding::Alaw),
{
    reveal_strlit("wav");
    reveal_strlit("mp3");
    reveal_strlit("ogg");
    assert("wav"@[0] == 'w' && "mp3"@[0] == 'm' && "ogg"@[0] == 'o');
    assert("wav"@ != "mp3"@ && "wav"@ != "ogg"@ && "mp3"@ != "ogg"@);
    assert forall|e: AudioEncoding|
        #[trigger] e.file_extension_spec() == "wav"@ || e.file_extension_spec() == "mp3"@
            || e.file_extension_spec() == "ogg"@ by {
        lemma_extension_policy_cases(e);
    }
    assert forall|e: AudioEncoding| #[trigger] e.file_extension_spec() == "mp3"@ <==> e
        == AudioEncoding::Mp3 by {
        lemma_extension_policy_cases(e);
    }
    assert forall|e: AudioEncoding| #[trigger] e.file_extension_spec() == "ogg"@ <==> e
        == AudioEncoding::OggOpus by {
        lemma_extension_policy_cases(e);
    }
    assert forall|e: AudioEncoding| #[trigger] e.file_extension_spec() == "wav"@ <==> (e
        == AudioEncoding::Linear16 || e == AudioEncoding::Mulaw || e == AudioEncoding::Alaw) by {
        lemma_extension_policy_cases(e);
    }
}

proof fn lemma_extension_policy_cases(e: AudioEncoding)
    ensures
        e == AudioEncoding::Linear16 || e == AudioEncoding::Mp3 || e == AudioEncoding::OggOpus
            || e == AudioEncoding::Mulaw || e == AudioEncoding::Alaw,
        e.file_extension_spec() == (match e {
            AudioEncoding::Linear16 => "wav"@,
            AudioEncoding::Mp3 => "mp3"@,
            AudioEncoding::OggOpus => "ogg"@,
            AudioEncoding::Mulaw => "wav"@,
            AudioEncoding::Alaw => "wav"@,
        }),
{
    match e {
        AudioEncoding::Linear16 => {},
        AudioEncoding::Mp3 => {},
        AudioEncoding::OggOpus => {},
        AudioEncoding::Mulaw => {},
        AudioEncoding::Alaw => {},
    }
}

/// What an encoding selector string denotes: the selector is trimmed of
/// ASCII whitespace and upper-cased before the comparison.
pub open spec fn parse_encoding_spec(b: Seq<u8>) -> Option<AudioEncoding> {
    let u = upper_spec(trim_spec(b));
    if u == "LINEAR16".spec_bytes() {
        Some(AudioEncoding::Linear16)
    } else if u == "MP3".spec_bytes() {
        Some(AudioEncoding::Mp3)
    } else if u == "OGG_OPUS".spec_bytes() {
        Some(AudioEncoding::OggOpus)
    } else if u == "MULAW".spec_bytes() {
        Some(AudioEncoding::Mulaw)
    } else if u == "ALAW".spec_bytes() {
        Some(AudioEncoding::Alaw)
    } else {
        None
    }
}

/// Parses an encoding selector given as bytes, accepting any case and
/// surrounding ASCII whitespace; every other selector is rejected.
pub fn parse_encoding_bytes(b: &[u8]) -> (r: Result<AudioEncoding, TtsError>)
    ensures
        match r {
            Ok(e) => parse_encoding_spec(b@) == Some(e),
            Err(err) => parse_encoding_spec(b@) is None && (err matches
                TtsError::UnknownEncoding { given } && given@ == upper_spec(trim_spec(b@))),
        },
{
    let t = trim_bytes(b);
    let u = upper_bytes(t.as_slice());
    if eq_bytes(u.as_slice(), "LINEAR16".as_bytes()) {
        Ok(AudioEncoding::Linear16)
    } else if eq_bytes(u.as_slice(), "MP3".as_bytes()) {
        Ok(AudioEncoding::Mp3)
    } else if eq_bytes(u.as_slice(), "OGG_OPUS".as_bytes()) {
        Ok(AudioEncoding::OggOpus)
    } else if eq_bytes(u.as_slice(), "MULAW".as_bytes()) {
        Ok(AudioEncoding::Mulaw)
    } else if eq_bytes(u.as_slice(), "ALAW".as_bytes()) {
        Ok(AudioEncoding::Alaw)
    } else {
        Err(TtsError::UnknownEncoding { given: u })
    }
}

/// Parses an encoding selector, accepting any case and surrounding ASCII
/// whitespace; every other string is rejected.
pub fn parse_encoding_from_str(s: &str) -> (r: Result<AudioEncoding, TtsError>)
    ensures
        match r {
            Ok(e) => parse_encoding_spec(s.spec_bytes()) == Some(e),
            Err(err) => parse_encoding_spec(s.spec_bytes()) is None && (err matches
                TtsError::UnknownEncoding { given } && given@ == upper_spec(
                trim_spec(s.spec_bytes()),
            )),
        },
{
    parse_encoding_bytes(s.as_bytes())
}

/// Preferred voice gender.
#[derive(Clone, Copy, Debug, PartialEq, Eq, Structural)]
pub enum Gender {
    Neutral,
    Male,
    Female,
}

impl Gender {
    /// The identifier the primary provider expects for this gender.
    pub open spec fn api_str_spec(self) -> Seq<char> {
        match self {
            Gender::Neutral => "NEUTRAL"@,
            Gender::Male => "MALE"@,
            Gender::Female => "FEMALE"@,
        }
    }

    pub fn api_str(&self) -> (r: &'static str)
        ensures
            r@ == self.api_str_spec(),
    {
        match self {
            Gender::Neutral => "NEUTRAL",
            Gender::Male => "MALE",
            Gender::Female => "FEMALE",
        }
    }
}

/// What a gender selector string denotes after upper-casing: anything that
/// is not MALE or FEMALE falls back to neutral.
pub open spec fn parse_gender_spec(b: Seq<u8>) -> Gender {
    let u = upper_spec(b);
    if u == "MALE".spec_bytes() {
        Gender::Male
    } else if u == "FEMALE".spec_bytes() {
        Gender::Female
    } else {
        Gender::Neutral
    }
}

/// Parses a gender selector given as bytes, accepting any case.
pub fn parse_gender_bytes(b: &[u8]) -> (r: Gender)
    ensures
        r == parse_gender_spec(b@),
{
    let u = upper_bytes(b);
    if eq_bytes(u.as_slice(), "MALE".as_bytes()) {
        Gender::Male
    } else if eq_bytes(u.as_slice(), "FEMALE".as_bytes()) {
        Gender::Female
    } else {
        Gender::Neutral
    }
}

/// Parses a gender selector, accepting any case.
pub fn parse_gender(s: &str) -> (r: Gender)
    ensures
        r == parse_gender_spec(s.spec_bytes()),
{
    parse_gender_bytes(s.as_bytes())
}

/// The supported text-to-speech providers.
#[derive(Clone, Copy, Debug, PartialEq, Eq, Structural)]
pub enum TtsProvider {
    Google,
    Openai,
    Elevenlabs,
    Deepgram,
    Polly,
    Azure,
    Hume,
    Listnr,
    Murf,
    Gemini,
}

impl TtsProvider {
    /// The provider's display name, as it appears in messages.
    pub open spec fn name_spec(self) -> Seq<char> {
        match self {
            TtsProvider::Google => "Google"@,
            TtsProvider::Openai => "Openai"@,
            TtsProvider::Elevenlabs => "Elevenlabs"@,
            TtsProvider::Deepgram => "Deepgram"@,
            TtsProvider::Polly => "Polly"@,
            TtsProvider::Azure => "Azure"@,
            TtsProvider::Hume => "Hume"@,
            TtsProvider::Listnr => "Listnr"@,
            TtsProvider::Murf => "Murf"@,
            TtsProvider::Gemini => "Gemini"@,
        }
    }

    pub fn name(&self) -> (r: &'static str)
        ensures
            r@ == self.name_spec(),
    {
        match self {
            TtsProvider::Google => "Google",
            TtsProvider::Openai => "Openai",
            TtsProvider::Elevenlabs => "Elevenlabs",
            TtsProvider::Deepgram => "Deepgram",
            TtsProvider::Polly => "Polly",
            TtsProvider::Azure => "Azure",
            TtsProvider::Hume => "Hume",
            TtsProvider::Listnr => "Listnr",
            TtsProvider::Murf => "Murf",
            TtsProvider::Gemini => "Gemini",
        }
    }

    /// True for the providers that have no adapter.
    pub open spec fn is_implemented_spec(self) -> bool {
        !(self == TtsProvider::Hume || self == TtsProvider::Listnr || self == TtsProvider::Murf)
    }

    pub fn is_implemented(&self) -> (r: bool)
        ensures
            r == self.is_implemented_spec(),
    {
        match self {
            TtsProvider::Hume | TtsProvider::Listnr | TtsProvider::Murf => false,
            _ => true,
        }
    }
}

} // verus!
