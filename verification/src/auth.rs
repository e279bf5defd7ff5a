//! The credential resolver's decision core and the token-exchange
//! building blocks: which credential source to use, in a fixed order;
//! parsing of the two credential file shapes; the form-encoded bodies of
//! the two OAuth2 exchanges; and the token-endpoint reply.

use vstd::prelude::*;
use vstd::string::StringSliceAdditionalSpecFns;
use crate::ascii::{clone_bytes, push_all, trim_bytes, trim_spec};
use crate::errors::TtsError;

verus! {

/// An explicit override token counts only when it is non-empty after
/// trimming ASCII whitespace; it is then used verbatim, untrimmed.
pub open spec fn override_token_spec(t: Option<Seq<u8>>) -> Option<Seq<u8>> {
    match t {
        Some(v) => if trim_spec(v).len() > 0 {
            Some(v)
        } else {
            None
        },
        None => None,
    }
}

/// Applies the override-token rule.
pub fn token_from_override(t: &Option<Vec<u8>>) -> (r: Option<Vec<u8>>)
    ensures
        match r {
            Some(v) => override_token_spec(
                match *t {
                    Some(ref w) => Some(w@),
                    None => None,
                },
            ) == Some(v@),
            None => override_token_spec(
                match *t {
                    Some(ref w) => Some(w@),
                    None => None,
                },
            ) is None,
        },
{
    match t {
        Some(v) => {
            let trimmed = trim_bytes(v.as_slice());
            if trimmed.len() > 0 {
                Some(clone_bytes(v))
            } else {
                None
            }
        },
        None => None,
    }
}

/// The first step of credential resolution that can apply. The order is
/// fixed: an effective override token wins and needs no network call; a
/// service-account key path is next, and any failure along it is final;
/// last comes the well-known user-credential file, whose failures fall
/// through to the no-credentials error.
#[derive(Debug)]
pub enum CredentialPlan {
    UseToken(Vec<u8>),
    ServiceAccount(Vec<u8>),
    TryAdc,
}

/// Chooses the credential source from the override token and the
/// service-account key path, both as the environment supplied them.
pub fn credential_plan(override_token: &Option<Vec<u8>>, sa_key_path: &Option<Vec<u8>>) -> (r:
    CredentialPlan)
    ensures
        match r {
            CredentialPlan::UseToken(tok) => override_token_spec(
                match *override_token {
                    Some(ref w) => Some(w@),
                    None => None,
                },
            ) == Some(tok@),
            CredentialPlan::ServiceAccount(p) => override_token_spec(
                match *override_token {
                    Some(ref w) => Some(w@),
                    None => None,
                },
            ) is None && (*sa_key_path matches Some(q) && q@ == p@),
            CredentialPlan::TryAdc => override_token_spec(
                match *override_token {
                    Some(ref w) => Some(w@),
                    None => None,
                },
            ) is None && *sa_key_path is None,
        },
{
    match token_from_override(override_token) {
        Some(tok) => CredentialPlan::UseToken(tok),
        None => match sa_key_path {
            Some(p) => CredentialPlan::ServiceAccount(clone_bytes(p)),
            None => CredentialPlan::TryAdc,
        },
    }
}

/// A service-account key file's fields.
#[derive(Debug)]
pub struct ServiceAccountKey {
    pub client_email: Vec<u8>,
    pub private_key_pem: Vec<u8>,
    pub token_uri: Option<Vec<u8>>,
}

/// A user application-default-credentials file's fields.
#[derive(Debug)]
pub struct AdcCredential {
    pub client_id: Vec<u8>,
    pub client_secret: Vec<u8>,
    pub refresh_token: Vec<u8>,
}

/// The `client_email`, `private_key` and optional `token_uri` string
/// fields of a service-account key document, when it is a JSON object
/// carrying them.
pub uninterp spec fn sa_key_fields_of(s: Seq<u8>) -> Option<
    (Seq<u8>, Seq<u8>, Option<Seq<u8>>),
>;

/// Relies on serde_json::from_slice for parsing a service-account key
/// file; the result depends on the bytes alone.
#[verifier::external_body]
fn parse_sa_key_json(s: &[u8]) -> (r: Option<(Vec<u8>, Vec<u8>, Option<Vec<u8>>)>)
    ensures
        match r {
            Some(t) => sa_key_fields_of(s@) == Some(
                (
                    t.0@,
                    t.1@,
                    match t.2 {
                        Some(ref u) => Some(u@),
                        None => None,
                    },
                ),
            ),
            None => sa_key_fields_of(s@) is None,
        },
{
    let v: serde_json::Value = serde_json::from_slice(s).ok()?;
    let email = v.get("client_email")?.as_str()?.as_bytes().to_vec();
    let pem = v.get("private_key")?.as_str()?.as_bytes().to_vec();
    let uri = match v.get("token_uri") {
        None | Some(serde_json::Value::Null) => None,
        Some(u) => Some(u.as_str()?.as_bytes().to_vec()),
    };
    Some((email, pem, uri))
}

/// Parses a service-account key file.
pub fn parse_service_account_key(s: &[u8]) -> (r: Result<ServiceAccountKey, TtsError>)
    ensures
        match r {
            Ok(key) => sa_key_fields_of(s@) == Some(
                (
                    key.client_email@,
                    key.private_key_pem@,
                    match key.token_uri {
                        Some(ref u) => Some(u@),
                        None => None,
                    },
                ),
            ),
            Err(e) => sa_key_fields_of(s@) is None && (e matches TtsError::Auth(ctx) && ctx@
                == "invalid service account key file".spec_bytes()),
        },
{
    match parse_sa_key_json(s) {
        Some(t) => Ok(
            ServiceAccountKey { client_email: t.0, private_key_pem: t.1, token_uri: t.2 },
        ),
        None => {
            let mut ctx: Vec<u8> = Vec::new();
            push_all(&mut ctx, "invalid service account key file".as_bytes());
            Err(TtsError::Auth(ctx))
        },
    }
}

/// The `client_id`, `client_secret` and `refresh_token` string fields of
/// an application-default-credentials document that also carries a
/// string `type` tag, when it is a JSON object of that shape.
pub uninterp spec fn adc_fields_of(s: Seq<u8>) -> Option<(Seq<u8>, Seq<u8>, Seq<u8>)>;

/// Relies on serde_json::from_slice for parsing an
/// application-default-credentials file; the result depends on the bytes
/// alone.
#[verifier::external_body]
fn parse_adc_json(s: &[u8]) -> (r: Option<(Vec<u8>, Vec<u8>, Vec<u8>)>)
    ensures
        match r {
            Some(t) => adc_fields_of(s@) == Some((t.0@, t.1@, t.2@)),
            None => adc_fields_of(s@) is None,
        },
{
    let v: serde_json::Value = serde_json::from_slice(s).ok()?;
    let id = v.get("client_id")?.as_str()?.as_bytes().to_vec();
    let secret = v.get("client_secret")?.as_str()?.as_bytes().to_vec();
    let refresh = v.get("refresh_token")?.as_str()?.as_bytes().to_vec();
    v.get("type")?.as_str()?;
    Some((id, secret, refresh))
}

/// Parses an application-default-credentials file.
pub fn parse_adc_file(s: &[u8]) -> (r: Result<AdcCredential, TtsError>)
    ensures
        match r {
            Ok(adc) => adc_fields_of(s@) == Some(
                (adc.client_id@, adc.client_secret@, adc.refresh_token@),
            ),
            Err(e) => adc_fields_of(s@) is None && (e matches TtsError::Auth(ctx) && ctx@
                == "invalid application default credentials file".spec_bytes()),
        },
{
    match parse_adc_json(s) {
        Some(t) => Ok(AdcCredential { client_id: t.0, client_secret: t.1, refresh_token: t.2 }),
        None => {
            let mut ctx: Vec<u8> = Vec::new();
            push_all(&mut ctx, "invalid application default credentials file".as_bytes());
            Err(TtsError::Auth(ctx))
        },
    }
}

/// The `access_token` string field of a token-endpoint reply, when the
/// reply is a JSON object carrying one.
pub uninterp spec fn access_token_of(s: Seq<u8>) -> Option<Seq<u8>>;

/// Relies on serde_json::from_slice for parsing a token-endpoint reply;
/// the result depends on the bytes alone.
#[verifier::external_body]
fn parse_access_token_json(s: &[u8]) -> (r: Option<Vec<u8>>)
    ensures
        match r {
            Some(v) => access_token_of(s@) == Some(v@),
            None => access_token_of(s@) is None,
        },
{
    let v: serde_json::Value = serde_json::from_slice(s).ok()?;
    Some(v.get("access_token")?.as_str()?.as_bytes().to_vec())
}

/// Reads the bearer token out of a token-endpoint reply.
pub fn parse_token_response(s: &[u8]) -> (r: Result<Vec<u8>, TtsError>)
    ensures
        match r {
            Ok(tok) => access_token_of(s@) == Some(tok@),
            Err(e) => access_token_of(s@) is None && (e matches TtsError::Auth(ctx) && ctx@
                == "token endpoint reply had no access_token".spec_bytes()),
        },
{
    match parse_access_token_json(s) {
        Some(tok) => Ok(tok),
        None => {
            let mut ctx: Vec<u8> = Vec::new();
            push_all(&mut ctx, "token endpoint reply had no access_token".as_bytes());
            Err(TtsError::Auth(ctx))
        },
    }
}

/// Upper-case hex digit for a value below 16.
pub open spec fn hex_upper(v: u8) -> u8 {
    if v < 10 {
        (48 + v) as u8
    } else {
        (55 + v) as u8
    }
}

/// Bytes that stay themselves under form-urlencoding.
pub open spec fn form_plain(b: u8) -> bool {
    (48 <= b <= 57) || (65 <= b <= 90) || (97 <= b <= 122) || b == 42 || b == 45 || b == 46 || b
        == 95
}

/// How one byte appears in a form-urlencoded value: kept, a `+` for a
/// space, or a percent escape with upper-case hex.
pub open spec fn form_esc_byte(b: u8) -> Seq<u8> {
    if form_plain(b) {
        seq![b]
    } else if b == 32 {
        seq![43u8]
    } else {
        seq![37u8, hex_upper(b / 16), hex_upper(b % 16)]
    }
}

/// The form-urlencoded rendering of a whole value.
pub open spec fn form_escape(s: Seq<u8>) -> Seq<u8>
    decreases s.len(),
{
    if s.len() == 0 {
        Seq::empty()
    } else {
        form_escape(s.drop_last()) + form_esc_byte(s.last())
    }
}

proof fn lemma_form_escape_push(s: Seq<u8>, b: u8)
    ensures
        form_escape(s.push(b)) == form_escape(s) + form_esc_byte(b),
{
    assert(s.push(b).drop_last() =~= s);
    assert(s.push(b).last() == b);
}

/// Appends the form-urlencoded rendering of `s` to `out`.
pub fn form_escape_push(out: &mut Vec<u8>, s: &[u8])
    ensures
        final(out)@ == old(out)@ + form_escape(s@),
{
    let mut i: usize = 0;
    while i < s.len()
        invariant
            0 <= i <= s@.len(),
            out@ == old(out)@ + form_escape(s@.subrange(0, i as int)),
        decreases s@.len() - i,
    {
        let b = s[i];
        if (48 <= b && b <= 57) || (65 <= b && b <= 90) || (97 <= b && b <= 122) || b == 42 || b
            == 45 || b == 46 || b == 95 {
            out.push(b);
        } else if b == 32 {
            out.push(43);
        } else {
            out.push(37);
            let hi = b / 16;
            let lo = b % 16;
            out.push(if hi < 10 {
                48 + hi
            } else {
                55 + hi
            });
            out.push(if lo < 10 {
                48 + lo
            } else {
                55 + lo
            });
        }
        proof {
            lemma_form_escape_push(s@.subrange(0, i as int), s@[i as int]);
            assert(s@.subrange(0, i + 1) =~= s@.subrange(0, i as int).push(s@[i as int]));
            assert(out@ =~= old(out)@ + form_escape(s@.subrange(0, i + 1)));
        }
        i = i + 1;
    }
    proof {
        assert(s@.subrange(0, s@.len() as int) =~= s@);
    }
}

/// The form body of the JWT-bearer grant, fields sorted by name as the
/// token endpoint receives them.
pub open spec fn jwt_bearer_form_spec(assertion: Seq<u8>) -> Seq<u8> {
    "assertion=".spec_bytes() + form_escape(assertion) + "&grant_type=".spec_bytes()
        + form_escape("urn:ietf:params:oauth:grant-type:jwt-bearer".spec_bytes())
}

/// Builds the JWT-bearer grant body.
pub fn build_jwt_bearer_form(assertion: &[u8]) -> (r: Vec<u8>)
    ensures
        r@ == jwt_bearer_form_spec(assertion@),
{
    let mut out: Vec<u8> = Vec::new();
    push_all(&mut out, "assertion=".as_bytes());
    form_escape_push(&mut out, assertion);
    push_all(&mut out, "&grant_type=".as_bytes());
    form_escape_push(&mut out, "urn:ietf:params:oauth:grant-type:jwt-bearer".as_bytes());
    proof {
        assert(out@ =~= jwt_bearer_form_spec(assertion@));
    }
    out
}

/// The form body of the refresh-token grant, fields sorted by name as
/// the token endpoint receives them.
pub open spec fn refresh_form_spec(id: Seq<u8>, secret: Seq<u8>, refresh: Seq<u8>) -> Seq<u8> {
    "client_id=".spec_bytes() + form_escape(id) + "&client_secret=".spec_bytes() + form_escape(
        secret,
    ) + "&grant_type=refresh_token&refresh_token=".spec_bytes() + form_escape(refresh)
}

/// Builds the refresh-token grant body.
pub fn build_refresh_form(adc: &AdcCredential) -> (r: Vec<u8>)
    ensures
        r@ == refresh_form_spec(adc.client_id@, adc.client_secret@, adc.refresh_token@),
{
    let mut out: Vec<u8> = Vec::new();
    push_all(&mut out, "client_id=".as_bytes());
    form_escape_push(&mut out, adc.client_id.as_slice());
    push_all(&mut out, "&client_secret=".as_bytes());
    form_escape_push(&mut out, adc.client_secret.as_slice());
    push_all(&mut out, "&grant_type=refresh_token&refresh_token=".as_bytes());
    form_escape_push(&mut out, adc.refresh_token.as_slice());
    proof {
        assert(out@ =~= refresh_form_spec(adc.client_id@, adc.client_secret@, adc.refresh_token@));
    }
    out
}

/// The scope requested for the primary provider's API.
pub fn oauth_scope() -> (r: &'static str)
    ensures
        r@ == "https://www.googleapis.com/auth/cloud-platform"@,
{
    "https://www.googleapis.com/auth/cloud-platform"
}

/// The standard token endpoint, used when a key names none and for the
/// refresh-token grant.
pub fn default_token_uri() -> (r: &'static str)
    ensures
        r@ == "https://oauth2.googleapis.com/token"@,
{
    "https://oauth2.googleapis.com/token"
}

/// The token endpoint a service-account key is exchanged at: the key's
/// own, else the standard one.
pub fn token_uri_of(key: &ServiceAccountKey) -> (r: Vec<u8>)
    ensures
        r@ == match key.token_uri {
            Some(ref u) => u@,
            None => "https://oauth2.googleapis.com/token".spec_bytes(),
        },
{
    match &key.token_uri {
        Some(u) => clone_bytes(u),
        None => {
            let mut out: Vec<u8> = Vec::new();
            push_all(&mut out, "https://oauth2.googleapis.com/token".as_bytes());
            out
        },
    }
}

} // verus!
