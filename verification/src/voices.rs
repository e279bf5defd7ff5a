//! The voice listing: the voice record and the fixed-width text line the
//! tool prints for each voice.

use vstd::prelude::*;
use vstd::string::StringSliceAdditionalSpecFns;
use crate::ascii::push_all;
use crate::digits::{dec_i32, idec_spec};

verus! {

/// One voice of the primary provider's catalogue.
#[derive(Debug)]
pub struct Voice {
    pub name: Vec<u8>,
    pub language_codes: Vec<Vec<u8>>,
    pub ssml_gender: Vec<u8>,
    pub natural_sample_rate_hertz: Option<i32>,
}

/// `n` spaces.
pub open spec fn spaces(n: nat) -> Seq<u8> {
    Seq::new(n, |i: int| 32u8)
}

/// `s` padded with spaces on the right to at least `w` bytes.
pub open spec fn pad_right(s: Seq<u8>, w: nat) -> Seq<u8> {
    if s.len() >= w {
        s
    } else {
        s + spaces((w - s.len()) as nat)
    }
}

/// `s` padded with spaces on the left to at least `w` bytes.
pub open spec fn pad_left(s: Seq<u8>, w: nat) -> Seq<u8> {
    if s.len() >= w {
        s
    } else {
        spaces((w - s.len()) as nat) + s
    }
}

fn push_spaces(out: &mut Vec<u8>, n: usize)
    ensures
        final(out)@ == old(out)@ + spaces(n as nat),
{
    let mut i: usize = 0;
    while i < n
        invariant
            0 <= i <= n,
            out@ == old(out)@ + spaces(i as nat),
        decreases n - i,
    {
        out.push(32);
        proof {
            assert(out@ =~= old(out)@ + spaces((i + 1) as nat));
        }
        i = i + 1;
    }
}

/// Appends `s` padded on the right to at least `w` bytes.
fn push_pad_right(out: &mut Vec<u8>, s: &[u8], w: usize)
    ensures
        final(out)@ == old(out)@ + pad_right(s@, w as nat),
{
    push_all(out, s);
    if s.len() < w {
        push_spaces(out, w - s.len());
        proof {
            assert(out@ =~= old(out)@ + pad_right(s@, w as nat));
        }
    }
}

/// Appends `s` padded on the left to at least `w` bytes.
fn push_pad_left(out: &mut Vec<u8>, s: &[u8], w: usize)
    ensures
        final(out)@ == old(out)@ + pad_left(s@, w as nat),
{
    if s.len() < w {
        push_spaces(out, w - s.len());
    }
    push_all(out, s);
    proof {
        assert(out@ =~= old(out)@ + pad_left(s@, w as nat));
    }
}

/// The language codes joined with commas; `-` when there are none.
pub open spec fn langs_spec(l: Seq<Seq<u8>>) -> Seq<u8>
    decreases l.len(),
{
    if l.len() == 0 {
        "-".spec_bytes()
    } else if l.len() == 1 {
        l[0]
    } else {
        langs_spec(l.drop_last()) + ",".spec_bytes() + l.last()
    }
}

proof fn lemma_langs_push(l: Seq<Seq<u8>>, x: Seq<u8>)
    requires
        l.len() >= 1,
    ensures
        langs_spec(l.push(x)) == langs_spec(l) + ",".spec_bytes() + x,
{
    assert(l.push(x).drop_last() =~= l);
    assert(l.push(x).last() == x);
}

fn push_langs(out: &mut Vec<u8>, l: &Vec<Vec<u8>>)
    ensures
        final(out)@ == old(out)@ + langs_spec(l.deep_view()),
{
    let ghost lv = l.deep_view();
    if l.len() == 0 {
        push_all(out, "-".as_bytes());
        return ;
    }
    let mut i: usize = 0;
    while i < l.len()
        invariant
            0 < l@.len() == lv.len(),
            0 <= i <= lv.len(),
            forall|j: int| 0 <= j < lv.len() ==> lv[j] == #[trigger] l@[j]@,
            i == 0 ==> out@ == old(out)@,
            i > 0 ==> out@ == old(out)@ + langs_spec(lv.subrange(0, i as int)),
        decreases lv.len() - i,
    {
        if i > 0 {
            push_all(out, ",".as_bytes());
        }
        push_all(out, l[i].as_slice());
        proof {
            if i == 0 {
                assert(lv.subrange(0, 1) =~= seq![lv[0]]);
                assert(langs_spec(seq![lv[0]]) == lv[0]);
                assert(out@ =~= old(out)@ + langs_spec(lv.subrange(0, 1)));
            } else {
                assert(lv.subrange(0, i + 1) =~= lv.subrange(0, i as int).push(lv[i as int]));
                lemma_langs_push(lv.subrange(0, i as int), lv[i as int]);
                assert(out@ =~= old(out)@ + langs_spec(lv.subrange(0, i + 1)));
            }
        }
        i = i + 1;
    }
    proof {
        assert(lv.subrange(0, lv.len() as int) =~= lv);
    }
}

/// The natural sample rate as text; `-` when the catalogue gives none.
pub open spec fn rate_text_spec(hz: Option<i32>) -> Seq<u8> {
    match hz {
        Some(n) => idec_spec(n as int),
        None => "-".spec_bytes(),
    }
}

/// The fixed-width listing line of one voice: name to 28 columns, gender
/// to 7, the rate right-aligned to 6, then the unit and the bracketed
/// language codes.
pub open spec fn voice_line_spec(v: Voice) -> Seq<u8> {
    pad_right(v.name@, 28) + " ".spec_bytes() + pad_right(v.ssml_gender@, 7) + " ".spec_bytes()
        + pad_left(rate_text_spec(v.natural_sample_rate_hertz), 6) + " Hz  [".spec_bytes()
        + langs_spec(v.language_codes.deep_view()) + "]".spec_bytes()
}

/// Renders the listing line of one voice.
pub fn format_voice_line(v: &Voice) -> (r: Vec<u8>)
    ensures
        r@ == voice_line_spec(*v),
{
    let mut out: Vec<u8> = Vec::new();
    push_pad_right(&mut out, v.name.as_slice(), 28);
    push_all(&mut out, " ".as_bytes());
    push_pad_right(&mut out, v.ssml_gender.as_slice(), 7);
    push_all(&mut out, " ".as_bytes());
    let rate: Vec<u8> = match v.natural_sample_rate_hertz {
        Some(n) => dec_i32(n),
        None => {
            let mut d: Vec<u8> = Vec::new();
            push_all(&mut d, "-".as_bytes());
            d
        },
    };
    push_pad_left(&mut out, rate.as_slice(), 6);
    push_all(&mut out, " Hz  [".as_bytes());
    push_langs(&mut out, &v.language_codes);
    push_all(&mut out, "]".as_bytes());
    proof {
        assert(out@ =~= voice_line_spec(*v));
    }
    out
}

} // verus!
