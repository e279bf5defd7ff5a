//! Verified JSON text assembly over UTF-8 bytes. Only the bytes that JSON
//! requires to be escaped are rewritten — the double quote, the backslash
//! and control bytes below 0x20 — so multi-byte UTF-8 sequences pass
//! through unchanged.

use vstd::prelude::*;
use vstd::string::StringSliceAdditionalSpecFns;
use crate::ascii::push_all;

verus! {

/// Lower-case hex digit for a value below 16.
pub open spec fn hex_digit(v: u8) -> u8 {
    if v < 10 {
        (48 + v) as u8
    } else {
        (87 + v) as u8
    }
}

/// How one byte appears inside a JSON string literal.
pub open spec fn esc_byte(b: u8) -> Seq<u8> {
    if b == 34 {
        "\\\"".spec_bytes()
    } else if b == 92 {
        "\\\\".spec_bytes()
    } else if b == 8 {
        "\\b".spec_bytes()
    } else if b == 9 {
        "\\t".spec_bytes()
    } else if b == 10 {
        "\\n".spec_bytes()
    } else if b == 12 {
        "\\f".spec_bytes()
    } else if b == 13 {
        "\\r".spec_bytes()
    } else if b < 32 {
        "\\u00".spec_bytes() + seq![hex_digit(b / 16), hex_digit(b % 16)]
    } else {
        seq![b]
    }
}

/// The escaped form of a whole byte string.
pub open spec fn json_escape(s: Seq<u8>) -> Seq<u8>
    decreases s.len(),
{
    if s.len() == 0 {
        Seq::empty()
    } else {
        json_escape(s.drop_last()) + esc_byte(s.last())
    }
}

/// A JSON string literal: quote, escaped contents, quote.
pub open spec fn json_str(s: Seq<u8>) -> Seq<u8> {
    seq![34u8] + json_escape(s) + seq![34u8]
}

proof fn lemma_json_escape_push(s: Seq<u8>, b: u8)
    ensures
        json_escape(s.push(b)) == json_escape(s) + esc_byte(b),
{
    assert(s.push(b).drop_last() =~= s);
    assert(s.push(b).last() == b);
}

/// Appends the escaped form of `s` to `out`.
pub fn json_escape_push(out: &mut Vec<u8>, s: &[u8])
    ensures
        final(out)@ == old(out)@ + json_escape(s@),
{
    let mut i: usize = 0;
    while i < s.len()
        invariant
            0 <= i <= s@.len(),
            out@ == old(out)@ + json_escape(s@.subrange(0, i as int)),
        decreases s@.len() - i,
    {
        let b = s[i];
        if b == 34 {
            push_all(out, "\\\"".as_bytes());
        } else if b == 92 {
            push_all(out, "\\\\".as_bytes());
        } else if b == 8 {
            push_all(out, "\\b".as_bytes());
        } else if b == 9 {
            push_all(out, "\\t".as_bytes());
        } else if b == 10 {
            push_all(out, "\\n".as_bytes());
        } else if b == 12 {
            push_all(out, "\\f".as_bytes());
        } else if b == 13 {
            push_all(out, "\\r".as_bytes());
        } else if b < 32 {
            push_all(out, "\\u00".as_bytes());
            let hi = b / 16;
            let lo = b % 16;
            let hi_d = if hi < 10 {
                48 + hi
            } else {
                87 + hi
            };
            let lo_d = if lo < 10 {
                48 + lo
            } else {
                87 + lo
            };
            out.push(hi_d);
            out.push(lo_d);
        } else {
            out.push(b);
        }
        proof {
            lemma_json_escape_push(s@.subrange(0, i as int), s@[i as int]);
            assert(s@.subrange(0, i + 1) =~= s@.subrange(0, i as int).push(s@[i as int]));
            assert(out@ =~= old(out)@ + json_escape(s@.subrange(0, i + 1)));
        }
        i = i + 1;
    }
    proof {
        assert(s@.subrange(0, s@.len() as int) =~= s@);
    }
}

/// Appends a JSON string literal holding `s` to `out`.
pub fn json_str_push(out: &mut Vec<u8>, s: &[u8])
    ensures
        final(out)@ == old(out)@ + json_str(s@),
{
    out.push(34);
    json_escape_push(out, s);
    out.push(34);
    proof {
        assert(out@ =~= old(out)@ + json_str(s@));
    }
}

/// A guard for number fields carried as raw decimal text: non-empty and
/// built only of bytes that can occur in a JSON number token.
pub open spec fn number_token(s: Seq<u8>) -> bool {
    s.len() > 0 && forall|i: int|
        0 <= i < s.len() ==> (48 <= #[trigger] s[i] <= 57 || s[i] == 45 || s[i] == 43 || s[i]
            == 46 || s[i] == 101 || s[i] == 69)
}

/// Checks the number-token guard.
pub fn is_number_token(s: &[u8]) -> (r: bool)
    ensures
        r == number_token(s@),
{
    if s.len() == 0 {
        return false;
    }
    let mut i: usize = 0;
    while i < s.len()
        invariant
            0 <= i <= s@.len(),
            forall|j: int|
                0 <= j < i ==> (48 <= #[trigger] s@[j] <= 57 || s@[j] == 45 || s@[j] == 43
                    || s@[j] == 46 || s@[j] == 101 || s@[j] == 69),
        decreases s@.len() - i,
    {
        let b = s[i];
        if !(48 <= b && b <= 57 || b == 45 || b == 43 || b == 46 || b == 101 || b == 69) {
            return false;
        }
        i = i + 1;
    }
    true
}

} // verus!
