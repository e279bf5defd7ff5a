//! The JWT signer for the service-account flow: builds the RS256 header
//! and the claims document, URL-safe-base64 encodes both, and signs the
//! result with the service account's RSA key. The expiry claim is always
//! exactly one hour after issuance.

use vstd::prelude::*;
use vstd::string::StringSliceAdditionalSpecFns;
use crate::ascii::push_all;
use crate::digits::{dec_spec, dec_u64};
use crate::errors::TtsError;
use crate::json::{json_str, json_str_push};

verus! {

/// The URL-safe base64 alphabet (RFC 4648 section 5), as a byte for each
/// six-bit value.
pub open spec fn b64url_char(v: u8) -> u8 {
    if v < 26 {
        (65 + v) as u8  // A-Z
    } else if v < 52 {
        (97 + (v - 26)) as u8  // a-z
    } else if v < 62 {
        (48 + (v - 52)) as u8  // 0-9
    } else if v == 62 {
        45  // -
    } else {
        95  // _
    }
}

/// Unpadded URL-safe base64: each three-byte group becomes four alphabet
/// bytes; a trailing group of one or two bytes becomes two or three.
pub open spec fn b64url_of(s: Seq<u8>) -> Seq<u8>
    decreases s.len(),
{
    if s.len() == 0 {
        Seq::empty()
    } else if s.len() == 1 {
        seq![b64url_char(s[0] >> 2), b64url_char((s[0] & 3) << 4)]
    } else if s.len() == 2 {
        seq![
            b64url_char(s[0] >> 2),
            b64url_char(((s[0] & 3) << 4) | (s[1] >> 4)),
            b64url_char((s[1] & 15) << 2),
        ]
    } else {
        seq![
            b64url_char(s[0] >> 2),
            b64url_char(((s[0] & 3) << 4) | (s[1] >> 4)),
            b64url_char(((s[1] & 15) << 2) | (s[2] >> 6)),
            b64url_char(s[2] & 63),
        ] + b64url_of(s.skip(3))
    }
}

/// Relies on base64's URL_SAFE_NO_PAD engine: the unpadded URL-safe
/// alphabet encoding of RFC 4648 section 5, as `b64url_of` states it.
#[verifier::external_body]
fn b64url_encode(s: &[u8]) -> (r: Vec<u8>)
    ensures
        r@ == b64url_of(s@),
{
    base64::Engine::encode(&base64::engine::general_purpose::URL_SAFE_NO_PAD, s).into_bytes()
}

/// The RS256 signature that signing `msg` with the RSA key in `pem`
/// yields, already URL-safe-base64 encoded. RSASSA-PKCS1-v1_5 is
/// deterministic, so this depends on the key and message alone.
pub uninterp spec fn rs256_sig_b64_of(pem: Seq<u8>, msg: Seq<u8>) -> Seq<u8>;

/// Relies on jsonwebtoken::EncodingKey::from_rsa_pem and
/// jsonwebtoken::crypto::sign with Algorithm::RS256, which returns the
/// URL-safe-base64 of the deterministic PKCS#1 v1.5 signature; yields
/// nothing when the PEM is not a usable RSA key or signing fails.
#[verifier::external_body]
fn rs256_sign_b64(pem: &[u8], msg: &[u8]) -> (r: Option<Vec<u8>>)
    ensures
        r matches Some(v) ==> v@ == rs256_sig_b64_of(pem@, msg@),
{
    let key = jsonwebtoken::EncodingKey::from_rsa_pem(pem).ok()?;
    let sig = jsonwebtoken::crypto::sign(msg, &key, jsonwebtoken::Algorithm::RS256).ok()?;
    Some(sig.into_bytes())
}

/// The fixed JOSE header: RS256, typed JWT.
pub open spec fn header_spec() -> Seq<u8> {
    "{\"typ\":\"JWT\",\"alg\":\"RS256\"}".spec_bytes()
}

/// The claims document up to the issue-time digits.
pub open spec fn claims_prefix(iss: Seq<u8>, scope: Seq<u8>, aud: Seq<u8>, iat: nat) -> Seq<
    u8,
> {
    "{\"iss\":".spec_bytes() + json_str(iss) + ",\"scope\":".spec_bytes() + json_str(scope)
        + ",\"aud\":".spec_bytes() + json_str(aud) + ",\"exp\":".spec_bytes() + dec_spec(
        iat + 3600,
    ) + ",\"iat\"".spec_bytes() + seq![58u8]
}

/// The claims document: issuer, scope, audience, then expiry at exactly
/// `iat + 3600`, then the issue time itself.
pub open spec fn claims_spec(iss: Seq<u8>, scope: Seq<u8>, aud: Seq<u8>, iat: nat) -> Seq<u8> {
    claims_prefix(iss, scope, aud, iat) + dec_spec(iat) + seq![125u8]
}

/// What gets signed: encoded header, a dot, encoded claims.
pub open spec fn signing_input_spec(iss: Seq<u8>, scope: Seq<u8>, aud: Seq<u8>, iat: nat) -> Seq<
    u8,
> {
    b64url_of(header_spec()) + seq![46u8] + b64url_of(claims_spec(iss, scope, aud, iat))
}

/// The whole assertion: signing input, a dot, encoded signature.
pub open spec fn jwt_spec(
    pem: Seq<u8>,
    iss: Seq<u8>,
    scope: Seq<u8>,
    aud: Seq<u8>,
    iat: nat,
) -> Seq<u8> {
    signing_input_spec(iss, scope, aud, iat) + seq![46u8] + rs256_sig_b64_of(
        pem,
        signing_input_spec(iss, scope, aud, iat),
    )
}

/// Builds the claims document.
pub fn build_claims(iss: &[u8], scope: &[u8], aud: &[u8], iat: u64) -> (r: Vec<u8>)
    requires
        iat + 3600 <= u64::MAX,
    ensures
        r@ == claims_spec(iss@, scope@, aud@, iat as nat),
{
    let mut out: Vec<u8> = Vec::new();
    push_all(&mut out, "{\"iss\":".as_bytes());
    json_str_push(&mut out, iss);
    push_all(&mut out, ",\"scope\":".as_bytes());
    json_str_push(&mut out, scope);
    push_all(&mut out, ",\"aud\":".as_bytes());
    json_str_push(&mut out, aud);
    push_all(&mut out, ",\"exp\":".as_bytes());
    let exp = dec_u64(iat + 3600);
    push_all(&mut out, exp.as_slice());
    push_all(&mut out, ",\"iat\"".as_bytes());
    out.push(58);
    let iat_d = dec_u64(iat);
    push_all(&mut out, iat_d.as_slice());
    out.push(125);
    proof {
        assert(out@ =~= claims_spec(iss@, scope@, aud@, iat as nat));
    }
    out
}

/// Builds and signs the bearer assertion for the service-account flow.
/// Success yields exactly the token `jwt_spec` states; failure means the
/// key's PEM was rejected or the signer refused, and the error says so.
pub fn sign_assertion(pem: &[u8], iss: &[u8], scope: &[u8], aud: &[u8], iat: u64) -> (r: Result<
    Vec<u8>,
    TtsError,
>)
    requires
        iat + 3600 <= u64::MAX,
    ensures
        match r {
            Ok(jwt) => jwt@ == jwt_spec(pem@, iss@, scope@, aud@, iat as nat),
            Err(e) => e is InvalidRsaKey,
        },
{
    let header: Vec<u8> = {
        let mut h: Vec<u8> = Vec::new();
        push_all(&mut h, "{\"typ\":\"JWT\",\"alg\":\"RS256\"}".as_bytes());
        h
    };
    let claims = build_claims(iss, scope, aud, iat);
    let mut msg = b64url_encode(header.as_slice());
    msg.push(46);
    let claims_b64 = b64url_encode(claims.as_slice());
    push_all(&mut msg, claims_b64.as_slice());
    proof {
        assert(msg@ =~= signing_input_spec(iss@, scope@, aud@, iat as nat));
    }
    match rs256_sign_b64(pem, msg.as_slice()) {
        None => Err(TtsError::InvalidRsaKey),
        Some(sig) => {
            let mut jwt = msg;
            jwt.push(46);
            push_all(&mut jwt, sig.as_slice());
            proof {
                assert(jwt@ =~= jwt_spec(pem@, iss@, scope@, aud@, iat as nat));
            }
            Ok(jwt)
        },
    }
}

/// The expiry a claims document carries is always exactly the issue
/// time plus 3600 seconds: the digits in the `exp` position are the
/// rendering of `iat + 3600`, and decimal rendering round-trips through
/// evaluation, so no other expiry can appear for a given issue time.
pub proof fn lemma_assertion_expiry(iss: Seq<u8>, scope: Seq<u8>, aud: Seq<u8>, iat: nat)
    ensures
        claims_spec(iss, scope, aud, iat) == "{\"iss\":".spec_bytes() + json_str(iss)
            + ",\"scope\":".spec_bytes() + json_str(scope) + ",\"aud\":".spec_bytes() + json_str(
            aud,
        ) + ",\"exp\":".spec_bytes() + dec_spec(iat + 3600) + ",\"iat\"".spec_bytes()
            + seq![58u8] + dec_spec(iat) + seq![125u8],
        crate::digits::dec_val(dec_spec(iat + 3600)) == iat + 3600,
{
    crate::digits::lemma_dec_val_of_spec(iat + 3600);
}

/// The bytes the URL-safe alphabet can produce. The separator dot is
/// not among them.
pub open spec fn is_b64url_byte(b: u8) -> bool {
    (65 <= b <= 90) || (97 <= b <= 122) || (48 <= b <= 57) || b == 45 || b == 95
}

proof fn lemma_char_alphabet()
    ensures
        forall|v: u8| is_b64url_byte(#[trigger] b64url_char(v)),
{
}

proof fn lemma_char_inj()
    ensures
        forall|v1: u8, v2: u8|
            v1 < 64 && v2 < 64 && #[trigger] b64url_char(v1) == #[trigger] b64url_char(v2)
                ==> v1 == v2,
{
}

/// Every byte of an encoding is an alphabet byte.
proof fn lemma_b64url_alphabet(s: Seq<u8>)
    ensures
        forall|i: int|
            0 <= i < b64url_of(s).len() ==> is_b64url_byte(#[trigger] b64url_of(s)[i]),
    decreases s.len(),
{
    lemma_char_alphabet();
    if s.len() >= 3 {
        lemma_b64url_alphabet(s.skip(3));
        let block = seq![
            b64url_char(s[0] >> 2),
            b64url_char(((s[0] & 3) << 4) | (s[1] >> 4)),
            b64url_char(((s[1] & 15) << 2) | (s[2] >> 6)),
            b64url_char(s[2] & 63),
        ];
        let tail = b64url_of(s.skip(3));
        assert forall|i: int|
            0 <= i < b64url_of(s).len() implies is_b64url_byte(#[trigger] b64url_of(s)[i]) by {
            assert(b64url_of(s) == block + tail);
            if i >= 4 {
                assert(b64url_of(s)[i] == tail[i - 4]);
            }
        }
    }
}

/// The URL-safe encoding is injective: it is a positional recoding and
/// every sextet is recoverable from the alphabet bytes.
proof fn lemma_b64url_inj(s1: Seq<u8>, s2: Seq<u8>)
    requires
        b64url_of(s1) == b64url_of(s2),
    ensures
        s1 == s2,
    decreases s1.len(),
{
    lemma_char_inj();
    let o1 = b64url_of(s1);
    let o2 = b64url_of(s2);
    if s1.len() == 0 || s2.len() == 0 {
        if s1.len() == 0 && s2.len() == 0 {
            assert(s1 =~= s2);
        } else {
            assert(false);
        }
    } else if s1.len() <= 2 || s2.len() <= 2 {
        if s1.len() == 1 && s2.len() == 1 {
            let a0 = s1[0];
            let b0 = s2[0];
            assert(a0 >> 2 < 64 && (a0 & 3) << 4 < 64 && b0 >> 2 < 64 && (b0 & 3) << 4 < 64)
                by (bit_vector);
            assert(a0 >> 2 == b0 >> 2 && (a0 & 3) << 4 == (b0 & 3) << 4);
            assert(a0 >> 2 == b0 >> 2 && (a0 & 3) << 4 == (b0 & 3) << 4 ==> a0 == b0)
                by (bit_vector);
            assert(s1 =~= s2);
        } else if s1.len() == 2 && s2.len() == 2 {
            let a0 = s1[0];
            let a1 = s1[1];
            let b0 = s2[0];
            let b1 = s2[1];
            assert(a0 >> 2 < 64 && ((a0 & 3) << 4 | (a1 >> 4)) < 64 && (a1 & 15) << 2 < 64)
                by (bit_vector);
            assert(b0 >> 2 < 64 && ((b0 & 3) << 4 | (b1 >> 4)) < 64 && (b1 & 15) << 2 < 64)
                by (bit_vector);
            assert(a0 >> 2 == b0 >> 2 && ((a0 & 3) << 4 | (a1 >> 4)) == ((b0 & 3) << 4 | (b1
                >> 4)) && (a1 & 15) << 2 == (b1 & 15) << 2);
            assert(a0 >> 2 == b0 >> 2 && ((a0 & 3) << 4 | (a1 >> 4)) == ((b0 & 3) << 4 | (b1
                >> 4)) && (a1 & 15) << 2 == (b1 & 15) << 2 ==> a0 == b0 && a1 == b1)
                by (bit_vector);
            assert(s1 =~= s2);
        } else {
            // a one- or two-byte tail never has the length of any other form
            assert(s1.len() >= 3 ==> o1.len() >= 4);
            assert(s2.len() >= 3 ==> o2.len() >= 4);
            assert(false);
        }
    } else {
        let a0 = s1[0];
        let a1 = s1[1];
        let a2 = s1[2];
        let b0 = s2[0];
        let b1 = s2[1];
        let b2 = s2[2];
        assert(a0 >> 2 < 64 && ((a0 & 3) << 4 | (a1 >> 4)) < 64 && ((a1 & 15) << 2 | (a2 >> 6))
            < 64 && a2 & 63 < 64) by (bit_vector);
        assert(b0 >> 2 < 64 && ((b0 & 3) << 4 | (b1 >> 4)) < 64 && ((b1 & 15) << 2 | (b2 >> 6))
            < 64 && b2 & 63 < 64) by (bit_vector);
        assert(o1[0] == o2[0] && o1[1] == o2[1] && o1[2] == o2[2] && o1[3] == o2[3]);
        assert(a0 >> 2 == b0 >> 2 && ((a0 & 3) << 4 | (a1 >> 4)) == ((b0 & 3) << 4 | (b1 >> 4))
            && ((a1 & 15) << 2 | (a2 >> 6)) == ((b1 & 15) << 2 | (b2 >> 6)) && a2 & 63 == b2
            & 63 ==> a0 == b0 && a1 == b1 && a2 == b2) by (bit_vector);
        let tail1 = b64url_of(s1.skip(3));
        let tail2 = b64url_of(s2.skip(3));
        assert(o1.len() == 4 + tail1.len() && o2.len() == 4 + tail2.len());
        assert forall|i: int| 0 <= i < tail1.len() implies tail1[i] == tail2[i] by {
            assert(tail1[i] == o1[4 + i]);
            assert(tail2[i] == o2[4 + i]);
        }
        assert(b64url_of(s1.skip(3)) =~= b64url_of(s2.skip(3)));
        lemma_b64url_inj(s1.skip(3), s2.skip(3));
        assert(s1.len() == s2.len());
        assert forall|i: int| 0 <= i < s1.len() implies s1[i] == s2[i] by {
            if i >= 3 {
                assert(s1[i] == s1.skip(3)[i - 3]);
                assert(s2[i] == s2.skip(3)[i - 3]);
            }
        }
        assert(s1 =~= s2);
    }
}

/// Equal claims documents carry the same issue time: the issue-time
/// digits are pinned between a non-digit byte and the closing brace, and
/// decimal rendering is injective.
proof fn lemma_claims_iat(iss: Seq<u8>, scope: Seq<u8>, aud: Seq<u8>, iat1: nat, iat2: nat)
    requires
        claims_spec(iss, scope, aud, iat1) == claims_spec(iss, scope, aud, iat2),
    ensures
        iat1 == iat2,
{
    let p1 = claims_prefix(iss, scope, aud, iat1);
    let p2 = claims_prefix(iss, scope, aud, iat2);
    let d1 = dec_spec(iat1);
    let d2 = dec_spec(iat2);
    let c1 = claims_spec(iss, scope, aud, iat1);
    let c2 = claims_spec(iss, scope, aud, iat2);
    crate::digits::lemma_dec_digits(iat1);
    crate::digits::lemma_dec_digits(iat2);
    assert(c1.drop_last() =~= p1 + d1);
    assert(c2.drop_last() =~= p2 + d2);
    assert(p1.last() == 58);
    assert(p2.last() == 58);
    crate::digits::lemma_digit_suffix(p1, d1, p2, d2);
    crate::digits::lemma_dec_val_of_spec(iat1);
    crate::digits::lemma_dec_val_of_spec(iat2);
}

/// Two assertions signed for different issue times are different
/// tokens: the only nondeterminism across calls is the time itself.
/// The claims segment sits between the first separator dot after the
/// fixed header and the next dot, no alphabet byte is a dot, the
/// encoding is injective, and the claims pin the issue time.
pub proof fn lemma_assertion_iat_injective(
    pem: Seq<u8>,
    iss: Seq<u8>,
    scope: Seq<u8>,
    aud: Seq<u8>,
    iat1: nat,
    iat2: nat,
)
    requires
        iat1 != iat2,
    ensures
        jwt_spec(pem, iss, scope, aud, iat1) != jwt_spec(pem, iss, scope, aud, iat2),
{
    let t1 = jwt_spec(pem, iss, scope, aud, iat1);
    let t2 = jwt_spec(pem, iss, scope, aud, iat2);
    if t1 == t2 {
        let h = b64url_of(header_spec());
        let c1 = claims_spec(iss, scope, aud, iat1);
        let c2 = claims_spec(iss, scope, aud, iat2);
        let x1 = b64url_of(c1);
        let x2 = b64url_of(c2);
        let sig1 = rs256_sig_b64_of(pem, signing_input_spec(iss, scope, aud, iat1));
        let sig2 = rs256_sig_b64_of(pem, signing_input_spec(iss, scope, aud, iat2));
        let m = h.len() + 1;
        let u1 = t1.subrange(m as int, t1.len() as int);
        let u2 = t2.subrange(m as int, t2.len() as int);
        assert(u1 =~= x1 + seq![46u8] + sig1);
        assert(u2 =~= x2 + seq![46u8] + sig2);
        assert(u1 == u2);
        lemma_b64url_alphabet(c1);
        lemma_b64url_alphabet(c2);
        if x1.len() < x2.len() {
            assert(u1[x1.len() as int] == 46);
            assert(u2[x1.len() as int] == x2[x1.len() as int]);
            assert(false);
        } else if x2.len() < x1.len() {
            assert(u2[x2.len() as int] == 46);
            assert(u1[x2.len() as int] == x1[x2.len() as int]);
            assert(false);
        }
        assert(x1.len() == x2.len());
        assert forall|i: int| 0 <= i < x1.len() implies x1[i] == x2[i] by {
            assert(u1[i] == x1[i]);
            assert(u2[i] == x2[i]);
        }
        assert(x1 =~= x2);
        lemma_b64url_inj(c1, c2);
        lemma_claims_iat(iss, scope, aud, iat1, iat2);
        assert(false);
    }
}

} // verus!
