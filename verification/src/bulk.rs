//! The bulk batch driver's decision core: the defaults/override merge and
//! the output-path choice for each item. For every field the effective
//! value is the item's own, else the shared default, else a hardcoded
//! fallback — independently per field.

use vstd::prelude::*;
use vstd::string::StringSliceAdditionalSpecFns;
use crate::ascii::{clone_bytes, clone_bytes_list, trim_spec, upper_spec};
use crate::encoding::{parse_encoding_bytes, parse_encoding_spec, parse_gender_bytes, parse_gender_spec, Gender};
use crate::errors::TtsError;
use crate::google::SynthesisParams;
use crate::paths::{derive_output_path, derive_output_path_spec, validate_extension_bytes};

verus! {

/// The shared defaults of a bulk configuration. Selector and number
/// fields carry the configuration's text; numbers are decimal tokens
/// rendered by the reader of the file.
#[derive(Debug)]
pub struct BulkDefaults {
    pub language: Option<Vec<u8>>,
    pub voice: Option<Vec<u8>>,
    pub gender: Option<Vec<u8>>,
    pub rate: Option<Vec<u8>>,
    pub pitch: Option<Vec<u8>>,
    pub sample_rate: Option<i32>,
    pub encoding: Option<Vec<u8>>,
    pub volume_gain_db: Option<Vec<u8>>,
    pub effects_profile_id: Option<Vec<Vec<u8>>>,
    pub ssml: Option<bool>,
    pub output_dir: Option<Vec<u8>>,
}

impl BulkDefaults {
    /// The defaults object used when a configuration has none: every
    /// field unset, so every hardcoded fallback applies.
    pub fn empty() -> (r: BulkDefaults)
        ensures
            r.language is None,
            r.voice is None,
            r.gender is None,
            r.rate is None,
            r.pitch is None,
            r.sample_rate is None,
            r.encoding is None,
            r.volume_gain_db is None,
            r.effects_profile_id is None,
            r.ssml is None,
            r.output_dir is None,
    {
        BulkDefaults {
            language: None,
            voice: None,
            gender: None,
            rate: None,
            pitch: None,
            sample_rate: None,
            encoding: None,
            volume_gain_db: None,
            effects_profile_id: None,
            ssml: None,
            output_dir: None,
        }
    }
}

/// One bulk synthesis job: the text, an optional explicit output path,
/// and per-item overrides of the defaults.
#[derive(Debug)]
pub struct BulkItem {
    pub text: Vec<u8>,
    pub output: Option<Vec<u8>>,
    pub language: Option<Vec<u8>>,
    pub voice: Option<Vec<u8>>,
    pub gender: Option<Vec<u8>>,
    pub rate: Option<Vec<u8>>,
    pub pitch: Option<Vec<u8>>,
    pub sample_rate: Option<i32>,
    pub encoding: Option<Vec<u8>>,
    pub volume_gain_db: Option<Vec<u8>>,
    pub effects_profile_id: Option<Vec<Vec<u8>>>,
    pub ssml: Option<bool>,
}

/// View of an optional byte string.
pub open spec fn ov(o: Option<Vec<u8>>) -> Option<Seq<u8>> {
    match o {
        Some(v) => Some(v@),
        None => None,
    }
}

/// View of an optional list of byte strings.
pub open spec fn olv(o: Option<Vec<Vec<u8>>>) -> Option<Seq<Seq<u8>>> {
    match o {
        Some(v) => Some(v.deep_view()),
        None => None,
    }
}

/// Item field, else default field, else fallback.
pub open spec fn eff<A>(item_f: Option<A>, def_f: Option<A>, fallback: A) -> A {
    match item_f {
        Some(v) => v,
        None => match def_f {
            Some(v) => v,
            None => fallback,
        },
    }
}

/// Item field, else default field; such a field may stay unset.
pub open spec fn eff_opt<A>(item_f: Option<A>, def_f: Option<A>) -> Option<A> {
    match item_f {
        Some(v) => Some(v),
        None => def_f,
    }
}

/// The effective encoding selector text of an item.
pub open spec fn eff_encoding_spec(d: BulkDefaults, item: BulkItem) -> Seq<u8> {
    eff(ov(item.encoding), ov(d.encoding), "LINEAR16".spec_bytes())
}

fn eff_bytes_exec(item_f: &Option<Vec<u8>>, def_f: &Option<Vec<u8>>, fallback: &str) -> (r: Vec<
    u8,
>)
    ensures
        r@ == eff(ov(*item_f), ov(*def_f), fallback.spec_bytes()),
{
    match item_f {
        Some(v) => clone_bytes(v),
        None => match def_f {
            Some(v) => clone_bytes(v),
            None => {
                let mut out: Vec<u8> = Vec::new();
                crate::ascii::push_all(&mut out, fallback.as_bytes());
                out
            },
        },
    }
}

fn eff_opt_bytes_exec(item_f: &Option<Vec<u8>>, def_f: &Option<Vec<u8>>) -> (r: Option<Vec<u8>>)
    ensures
        ov(r) == eff_opt(ov(*item_f), ov(*def_f)),
{
    match item_f {
        Some(v) => Some(clone_bytes(v)),
        None => match def_f {
            Some(v) => Some(clone_bytes(v)),
            None => None,
        },
    }
}

/// The effective synthesis parameters of one item under the defaults,
/// for an already parsed effective encoding. Every field follows the
/// item → defaults → fallback precedence on its own.
pub fn effective_params(
    d: &BulkDefaults,
    item: &BulkItem,
    encoding: crate::encoding::AudioEncoding,
) -> (r: SynthesisParams)
    ensures
        r.text@ == item.text@,
        r.language@ == eff(ov(item.language), ov(d.language), "en-US".spec_bytes()),
        ov(r.voice) == eff_opt(ov(item.voice), ov(d.voice)),
        r.gender == match eff_opt(ov(item.gender), ov(d.gender)) {
            Some(g) => Some(parse_gender_spec(g)),
            None => None::<Gender>,
        },
        r.rate@ == eff(ov(item.rate), ov(d.rate), "1.0".spec_bytes()),
        r.pitch@ == eff(ov(item.pitch), ov(d.pitch), "0.0".spec_bytes()),
        r.volume_gain_db@ == eff(ov(item.volume_gain_db), ov(d.volume_gain_db), "0.0".spec_bytes()),
        r.sample_rate == eff_opt(item.sample_rate, d.sample_rate),
        r.encoding == encoding,
        r.effects.deep_view() == eff(
            olv(item.effects_profile_id),
            olv(d.effects_profile_id),
            Seq::<Seq<u8>>::empty(),
        ),
        r.is_ssml == eff(item.ssml, d.ssml, false),
{
    let text = clone_bytes(&item.text);
    let language = eff_bytes_exec(&item.language, &d.language, "en-US");
    let voice = eff_opt_bytes_exec(&item.voice, &d.voice);
    let gender_sel = eff_opt_bytes_exec(&item.gender, &d.gender);
    let gender = match &gender_sel {
        Some(g) => Some(parse_gender_bytes(g.as_slice())),
        None => None,
    };
    let rate = eff_bytes_exec(&item.rate, &d.rate, "1.0");
    let pitch = eff_bytes_exec(&item.pitch, &d.pitch, "0.0");
    let volume_gain_db = eff_bytes_exec(&item.volume_gain_db, &d.volume_gain_db, "0.0");
    let sample_rate = match item.sample_rate {
        Some(n) => Some(n),
        None => d.sample_rate,
    };
    let effects = match &item.effects_profile_id {
        Some(v) => clone_bytes_list(v),
        None => match &d.effects_profile_id {
            Some(v) => clone_bytes_list(v),
            None => Vec::new(),
        },
    };
    let is_ssml = match item.ssml {
        Some(b) => b,
        None => match d.ssml {
            Some(b) => b,
            None => false,
        },
    };
    SynthesisParams {
        text,
        is_ssml,
        language,
        voice,
        gender,
        rate,
        pitch,
        volume_gain_db,
        sample_rate,
        encoding,
        effects,
    }
}

/// The output path an item gets: its own explicit path, else a name
/// derived from the 1-based item number and the effective encoding,
/// under the defaults' output directory when one is set.
pub open spec fn planned_output_spec(d: BulkDefaults, item: BulkItem, idx1: nat) -> Seq<u8> {
    match item.output {
        Some(o) => o@,
        None => derive_output_path_spec(ov(d.output_dir), idx1, eff_encoding_spec(d, item)),
    }
}

/// Plans one bulk item: resolves the effective values, chooses the
/// output path, parses the effective encoding and validates the path's
/// extension against it. The first failure aborts the batch, so the
/// error says exactly which check failed.
pub fn plan_bulk_item(d: &BulkDefaults, item: &BulkItem, idx1: u64) -> (r: Result<
    (SynthesisParams, Vec<u8>),
    TtsError,
>)
    requires
        idx1 >= 1,
    ensures
        match r {
            Ok((p, out)) => {
                &&& parse_encoding_spec(eff_encoding_spec(*d, *item)) == Some(p.encoding)
                &&& out@ == planned_output_spec(*d, *item, idx1 as nat)
                &&& crate::paths::extension_spec(out@) matches Some(e) && crate::ascii::lower_spec(
                    e,
                ) == crate::google::utf8(p.encoding.file_extension_spec())
                &&& p.text@ == item.text@
                &&& p.language@ == eff(ov(item.language), ov(d.language), "en-US".spec_bytes())
                &&& ov(p.voice) == eff_opt(ov(item.voice), ov(d.voice))
                &&& p.gender == match eff_opt(ov(item.gender), ov(d.gender)) {
                    Some(g) => Some(parse_gender_spec(g)),
                    None => None::<Gender>,
                }
                &&& p.rate@ == eff(ov(item.rate), ov(d.rate), "1.0".spec_bytes())
                &&& p.pitch@ == eff(ov(item.pitch), ov(d.pitch), "0.0".spec_bytes())
                &&& p.volume_gain_db@ == eff(
                    ov(item.volume_gain_db),
                    ov(d.volume_gain_db),
                    "0.0".spec_bytes(),
                )
                &&& p.sample_rate == eff_opt(item.sample_rate, d.sample_rate)
                &&& p.effects.deep_view() == eff(
                    olv(item.effects_profile_id),
                    olv(d.effects_profile_id),
                    Seq::<Seq<u8>>::empty(),
                )
                &&& p.is_ssml == eff(item.ssml, d.ssml, false)
            },
            Err(e) => {
                ||| (parse_encoding_spec(eff_encoding_spec(*d, *item)) is None && (e matches
                TtsError::UnknownEncoding { given } && given@ == upper_spec(
                    trim_spec(eff_encoding_spec(*d, *item)),
                )))
                ||| (parse_encoding_spec(eff_encoding_spec(*d, *item)) is Some && !(
                crate::paths::extension_spec(planned_output_spec(*d, *item, idx1 as nat)) matches
                    Some(ext) && crate::ascii::lower_spec(ext) == crate::google::utf8(
                    parse_encoding_spec(eff_encoding_spec(*d, *item)).unwrap().file_extension_spec(),
                )))
            },
        },
{
    let enc_str = eff_bytes_exec(&item.encoding, &d.encoding, "LINEAR16");
    let output: Vec<u8> = match &item.output {
        Some(o) => clone_bytes(o),
        None => derive_output_path(d.output_dir.as_ref(), idx1, enc_str.as_slice()),
    };
    let encoding = match parse_encoding_bytes(enc_str.as_slice()) {
        Ok(e) => e,
        Err(err) => {
            return Err(err);
        },
    };
    match validate_extension_bytes(output.as_slice(), encoding) {
        Ok(()) => {},
        Err(err) => {
            return Err(err);
        },
    }
    let p = effective_params(d, item, encoding);
    Ok((p, output))
}

} // verus!
