//! Output-path handling: extension extraction, validation against the
//! encoding policy, bulk output-path derivation, config-format selection
//! and the well-known credential path. Paths are handled as byte strings
//! with `/` as the separator.

use vstd::prelude::*;
use vstd::string::StringSliceAdditionalSpecFns;
use crate::ascii::{copy_range, eq_bytes, lower_bytes, lower_spec, push_all, upper_spec};
use crate::digits::{dec_spec, dec_u64};
use crate::encoding::AudioEncoding;
use crate::errors::TtsError;

verus! {

/// Index of the first byte of the path's file name: the position right
/// after the last `/`, or 0 when there is none.
pub open spec fn file_name_start(p: Seq<u8>) -> int
    decreases p.len(),
{
    if p.len() == 0 {
        0
    } else if p[p.len() - 1] == 47 {
        p.len() as int
    } else {
        file_name_start(p.drop_last())
    }
}

/// Index of the last `.` of a file name, or -1 when there is none.
pub open spec fn last_dot(f: Seq<u8>) -> int
    decreases f.len(),
{
    if f.len() == 0 {
        -1
    } else if f[f.len() - 1] == 46 {
        f.len() - 1
    } else {
        last_dot(f.drop_last())
    }
}

/// The path's extension: the file-name part after its last `.`. A file
/// name with no dot, or only a leading dot, has none.
pub open spec fn extension_spec(p: Seq<u8>) -> Option<Seq<u8>> {
    let f = p.subrange(file_name_start(p), p.len() as int);
    let d = last_dot(f);
    if d <= 0 {
        None
    } else {
        Some(f.subrange(d + 1, f.len() as int))
    }
}

proof fn lemma_file_name_start_at(p: Seq<u8>, k: int)
    requires
        0 <= k <= p.len(),
        forall|i: int| k <= i < p.len() ==> p[i] != 47,
        k > 0 ==> p[k - 1] == 47,
    ensures
        file_name_start(p) == k,
    decreases p.len(),
{
    if p.len() == 0 {
    } else if p[p.len() - 1] == 47 {
    } else {
        lemma_file_name_start_at(p.drop_last(), k);
    }
}

proof fn lemma_last_dot_at(f: Seq<u8>, d: int)
    requires
        -1 <= d < f.len(),
        forall|i: int| d < i < f.len() ==> f[i] != 46,
        d >= 0 ==> f[d] == 46,
    ensures
        last_dot(f) == d,
    decreases f.len(),
{
    if f.len() == 0 {
    } else if f[f.len() - 1] == 46 {
    } else {
        lemma_last_dot_at(f.drop_last(), d);
    }
}

/// Finds the start of the file name of `p`.
fn find_file_name_start(p: &[u8]) -> (k: usize)
    ensures
        k == file_name_start(p@),
        k <= p@.len(),
{
    let mut k: usize = p.len();
    while k > 0
        invariant
            0 <= k <= p@.len(),
            forall|i: int| k <= i < p@.len() ==> p@[i] != 47,
        decreases k,
    {
        if p[k - 1] == 47 {
            proof {
                lemma_file_name_start_at(p@, k as int);
            }
            return k;
        }
        k = k - 1;
    }
    proof {
        lemma_file_name_start_at(p@, 0);
    }
    0
}

/// The path's extension, if any.
pub fn extension_of(p: &[u8]) -> (r: Option<Vec<u8>>)
    ensures
        match r {
            Some(e) => extension_spec(p@) == Some(e@),
            None => extension_spec(p@) is None,
        },
{
    let start = find_file_name_start(p);
    let ghost f = p@.subrange(start as int, p@.len() as int);
    let mut k: usize = p.len();
    while k > start
        invariant
            start <= k <= p@.len(),
            start == file_name_start(p@),
            f == p@.subrange(start as int, p@.len() as int),
            forall|i: int| k <= i < p@.len() ==> p@[i] != 46,
        decreases k,
    {
        if p[k - 1] == 46 {
            proof {
                assert(forall|i: int|
                    k - 1 - start < i < f.len() ==> f[i] == p@[start + i] && f[i] != 46);
                lemma_last_dot_at(f, k - 1 - start);
            }
            if k - 1 == start {
                return None;
            }
            let e = copy_range(p, k, p.len());
            proof {
                assert(f.subrange(k - start, f.len() as int) =~= p@.subrange(
                    k as int,
                    p@.len() as int,
                ));
            }
            return Some(e);
        }
        k = k - 1;
    }
    proof {
        assert(forall|i: int| -1 < i < f.len() ==> f[i] == p@[start + i] && f[i] != 46);
        lemma_last_dot_at(f, -1);
    }
    None
}

/// Validates an output path's extension against the requested encoding:
/// accepts iff the extension, lower-cased, is exactly the one the policy
/// mandates; a missing extension and a mismatched one are distinct
/// failures.
pub fn validate_extension_bytes(output: &[u8], encoding: AudioEncoding) -> (r: Result<
    (),
    TtsError,
>)
    ensures
        r is Ok <==> (extension_spec(output@) matches Some(e) && lower_spec(e)
            == vstd::utf8::encode_utf8(encoding.file_extension_spec())),
        r matches Err(err) ==> match extension_spec(output@) {
            None => err == (TtsError::MissingExtension { encoding }),
            Some(e) => err matches TtsError::ExtensionMismatch { found, encoding: enc2 }
                && found@ == lower_spec(e) && enc2 == encoding,
        },
{
    match extension_of(output) {
        None => Err(TtsError::MissingExtension { encoding }),
        Some(e) => {
            let low = lower_bytes(e.as_slice());
            if eq_bytes(low.as_slice(), encoding.file_extension().as_bytes()) {
                Ok(())
            } else {
                Err(TtsError::ExtensionMismatch { found: low, encoding })
            }
        },
    }
}

/// `validate_extension_bytes` on a path given as a string.
pub fn validate_output_extension(output: &str, encoding: AudioEncoding) -> (r: Result<
    (),
    TtsError,
>)
    ensures
        r is Ok <==> (extension_spec(output.spec_bytes()) matches Some(e) && lower_spec(e)
            == vstd::utf8::encode_utf8(encoding.file_extension_spec())),
        r matches Err(err) ==> match extension_spec(output.spec_bytes()) {
            None => err == (TtsError::MissingExtension { encoding }),
            Some(e) => err matches TtsError::ExtensionMismatch { found, encoding: enc2 }
                && found@ == lower_spec(e) && enc2 == encoding,
        },
{
    validate_extension_bytes(output.as_bytes(), encoding)
}

/// The extension used when deriving a bulk output path from an encoding
/// selector string: unknown selectors get a generic fallback.
pub open spec fn bulk_ext_spec(enc_str: Seq<u8>) -> Seq<u8> {
    let u = upper_spec(enc_str);
    if u == "LINEAR16".spec_bytes() || u == "MULAW".spec_bytes() || u == "ALAW".spec_bytes() {
        "wav".spec_bytes()
    } else if u == "MP3".spec_bytes() {
        "mp3".spec_bytes()
    } else if u == "OGG_OPUS".spec_bytes() {
        "ogg".spec_bytes()
    } else {
        "bin".spec_bytes()
    }
}

fn bulk_ext(enc_str: &[u8]) -> (r: &'static str)
    ensures
        r.spec_bytes() == bulk_ext_spec(enc_str@),
{
    let u = crate::ascii::upper_bytes(enc_str);
    if eq_bytes(u.as_slice(), "LINEAR16".as_bytes()) || eq_bytes(u.as_slice(), "MULAW".as_bytes())
        || eq_bytes(u.as_slice(), "ALAW".as_bytes()) {
        "wav"
    } else if eq_bytes(u.as_slice(), "MP3".as_bytes()) {
        "mp3"
    } else if eq_bytes(u.as_slice(), "OGG_OPUS".as_bytes()) {
        "ogg"
    } else {
        "bin"
    }
}

/// The derived file name for the 1-based item number `idx1`:
/// `item_{idx1}.{ext}`.
pub open spec fn item_file_name_spec(idx1: nat, enc_str: Seq<u8>) -> Seq<u8> {
    "item_".spec_bytes() + dec_spec(idx1) + ".".spec_bytes() + bulk_ext_spec(enc_str)
}

/// Joining a directory and a file name with `/`, as the platform path
/// type does for well-formed non-empty components: an empty directory or
/// one already ending in `/` adds no separator.
pub open spec fn join_spec(dir: Seq<u8>, name: Seq<u8>) -> Seq<u8> {
    if dir.len() == 0 {
        name
    } else if dir[dir.len() - 1] == 47 {
        dir + name
    } else {
        dir + "/".spec_bytes() + name
    }
}

/// The derived output path for a bulk item without an explicit output:
/// under the defaults' output directory when one is set, else in the
/// working directory.
pub open spec fn derive_output_path_spec(
    output_dir: Option<Seq<u8>>,
    idx1: nat,
    enc_str: Seq<u8>,
) -> Seq<u8> {
    match output_dir {
        Some(dir) => join_spec(dir, item_file_name_spec(idx1, enc_str)),
        None => item_file_name_spec(idx1, enc_str),
    }
}

/// Derives the output path for the bulk item with 1-based number `idx1`.
pub fn derive_output_path(output_dir: Option<&Vec<u8>>, idx1: u64, enc_str: &[u8]) -> (r: Vec<
    u8,
>)
    requires
        idx1 >= 1,
    ensures
        r@ == derive_output_path_spec(
            match output_dir {
                Some(d) => Some(d@),
                None => None,
            },
            idx1 as nat,
            enc_str@,
        ),
{
    let mut name: Vec<u8> = Vec::new();
    push_all(&mut name, "item_".as_bytes());
    let digits = dec_u64(idx1);
    push_all(&mut name, digits.as_slice());
    push_all(&mut name, ".".as_bytes());
    push_all(&mut name, bulk_ext(enc_str).as_bytes());
    match output_dir {
        None => name,
        Some(dir) => {
            let mut out: Vec<u8> = Vec::new();
            push_all(&mut out, dir.as_slice());
            if dir.len() > 0 && dir[dir.len() - 1] != 47 {
                push_all(&mut out, "/".as_bytes());
            }
            push_all(&mut out, name.as_slice());
            out
        },
    }
}

/// True when the config file at this path is to be read as YAML rather
/// than JSON: decided by its extension, case-insensitively.
pub open spec fn is_yaml_path_spec(p: Seq<u8>) -> bool {
    match extension_spec(p) {
        Some(e) => lower_spec(e) == "yml".spec_bytes() || lower_spec(e) == "yaml".spec_bytes(),
        None => false,
    }
}

pub fn is_yaml_path(p: &str) -> (r: bool)
    ensures
        r == is_yaml_path_spec(p.spec_bytes()),
{
    match extension_of(p.as_bytes()) {
        Some(e) => {
            let low = lower_bytes(e.as_slice());
            eq_bytes(low.as_slice(), "yml".as_bytes()) || eq_bytes(
                low.as_slice(),
                "yaml".as_bytes(),
            )
        },
        None => false,
    }
}

/// The well-known application-default-credentials path under a home
/// directory.
pub open spec fn adc_path_spec(home: Seq<u8>) -> Seq<u8> {
    join_spec(home, ".config/gcloud/application_default_credentials.json".spec_bytes())
}

pub fn default_adc_path(home: &str) -> (r: Vec<u8>)
    ensures
        r@ == adc_path_spec(home.spec_bytes()),
{
    let mut out: Vec<u8> = Vec::new();
    push_all(&mut out, home.as_bytes());
    let hb = home.as_bytes();
    if hb.len() > 0 && hb[hb.len() - 1] != 47 {
        push_all(&mut out, "/".as_bytes());
    }
    push_all(&mut out, ".config/gcloud/application_default_credentials.json".as_bytes());
    proof {
        if home.spec_bytes().len() == 0 {
            assert(out@ =~= adc_path_spec(home.spec_bytes()));
        }
    }
    out
}

/// The primary provider's default API base.
pub fn default_base_url() -> (r: &'static str)
    ensures
        r@ == "https://texttospeech.googleapis.com"@,
{
    "https://texttospeech.googleapis.com"
}

/// True when requests to this base must bypass any configured proxy: the
/// base names a loopback host, so an override must be honored directly.
pub open spec fn disable_proxy_spec(base: Seq<u8>) -> bool {
    crate::ascii::contains_sub(base, "127.0.0.1".spec_bytes()) || crate::ascii::contains_sub(
        base,
        "localhost".spec_bytes(),
    )
}

pub fn should_disable_proxy(base: &str) -> (r: bool)
    ensures
        r == disable_proxy_spec(base.spec_bytes()),
{
    crate::ascii::find_sub(base.as_bytes(), "127.0.0.1".as_bytes()) || crate::ascii::find_sub(
        base.as_bytes(),
        "localhost".as_bytes(),
    )
}

} // verus!
