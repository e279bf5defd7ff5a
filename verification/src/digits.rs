//! Decimal rendering of unsigned integers, with the lemmas other modules
//! need to reason about rendered numbers embedded in larger byte strings.

use vstd::prelude::*;

verus! {

/// The decimal digit bytes of `n`, most significant first.
pub open spec fn dec_spec(n: nat) -> Seq<u8>
    decreases n,
{
    if n < 10 {
        seq![(48 + n) as u8]
    } else {
        dec_spec(n / 10).push((48 + n % 10) as u8)
    }
}

/// Every byte of a rendering is an ASCII digit.
pub open spec fn is_digit(b: u8) -> bool {
    48 <= b <= 57
}

pub proof fn lemma_dec_digits(n: nat)
    ensures
        dec_spec(n).len() >= 1,
        forall|i: int| 0 <= i < dec_spec(n).len() ==> is_digit(#[trigger] dec_spec(n)[i]),
    decreases n,
{
    if n >= 10 {
        lemma_dec_digits(n / 10);
    }
}

/// The numeric value a digit string denotes.
pub open spec fn dec_val(s: Seq<u8>) -> nat
    decreases s.len(),
{
    if s.len() == 0 {
        0
    } else {
        (dec_val(s.drop_last()) * 10 + (s.last() - 48)) as nat
    }
}

/// Rendering is inverted by evaluation, so it is injective.
pub proof fn lemma_dec_val_of_spec(n: nat)
    ensures
        dec_val(dec_spec(n)) == n,
    decreases n,
{
    if n < 10 {
        assert(dec_spec(n).drop_last() =~= Seq::<u8>::empty());
        assert(dec_val(Seq::<u8>::empty()) == 0);
        assert(dec_val(dec_spec(n)) == (0 * 10 + ((48 + n) as u8 - 48)) as nat);
    } else {
        lemma_dec_val_of_spec(n / 10);
        assert(dec_spec(n).drop_last() =~= dec_spec(n / 10));
        vstd::arithmetic::div_mod::lemma_fundamental_div_mod(n as int, 10);
    }
}

/// Two equal strings that each end in a digit run after a non-digit
/// byte split identically: the runs are the same, and so are the parts
/// before them.
pub proof fn lemma_digit_suffix(p1: Seq<u8>, d1: Seq<u8>, p2: Seq<u8>, d2: Seq<u8>)
    requires
        p1 + d1 == p2 + d2,
        d1.len() >= 1,
        d2.len() >= 1,
        p1.len() >= 1,
        p2.len() >= 1,
        forall|i: int| 0 <= i < d1.len() ==> is_digit(#[trigger] d1[i]),
        forall|i: int| 0 <= i < d2.len() ==> is_digit(#[trigger] d2[i]),
        !is_digit(p1.last()),
        !is_digit(p2.last()),
    ensures
        d1 == d2,
        p1 == p2,
{
    broadcast use vstd::seq::group_seq_axioms;

    let s = p1 + d1;
    assert((p1 + d1).len() == (p2 + d2).len());
    assert((p1 + d1).len() == p1.len() + d1.len());
    assert((p2 + d2).len() == p2.len() + d2.len());
    assert(p1.len() + d1.len() == p2.len() + d2.len());
    if p1.len() < p2.len() {
        let k = p2.len() - 1;
        assert(s[k] == p2.last());
        assert(s[k] == d1[k - p1.len()]);
        assert(false);
    } else if p2.len() < p1.len() {
        let k = p1.len() - 1;
        assert(s[k] == p1.last());
        assert(s[k] == d2[k - p2.len()]);
        assert(false);
    }
    assert(p1.len() == p2.len() && d1.len() == d2.len());
    assert forall|i: int| 0 <= i < d1.len() implies d1[i] == d2[i] by {
        assert(d1[i] == (p1 + d1)[p1.len() + i]);
        assert(d2[i] == (p2 + d2)[p2.len() + i]);
    }
    assert(d1 =~= d2);
    assert forall|i: int| 0 <= i < p1.len() implies p1[i] == p2[i] by {
        assert(p1[i] == (p1 + d1)[i]);
        assert(p2[i] == (p2 + d2)[i]);
    }
    assert(p1 =~= p2);
}

/// The decimal bytes of a signed value: a leading `-` for negatives.
pub open spec fn idec_spec(n: int) -> Seq<u8> {
    if n < 0 {
        seq![45u8] + dec_spec((-n) as nat)
    } else {
        dec_spec(n as nat)
    }
}

/// Renders a signed 32-bit value in decimal.
pub fn dec_i32(n: i32) -> (r: Vec<u8>)
    ensures
        r@ == idec_spec(n as int),
{
    let wide: i64 = n as i64;
    if wide < 0 {
        let mut r: Vec<u8> = Vec::new();
        r.push(45);
        let d = dec_u64((-wide) as u64);
        crate::ascii::push_all(&mut r, d.as_slice());
        proof {
            assert(r@ =~= idec_spec(n as int));
        }
        r
    } else {
        dec_u64(wide as u64)
    }
}

/// Renders `n` in decimal.
pub fn dec_u64(n: u64) -> (r: Vec<u8>)
    ensures
        r@ == dec_spec(n as nat),
    decreases n,
{
    if n < 10 {
        let mut r: Vec<u8> = Vec::new();
        r.push(48 + n as u8);
        proof {
            assert(r@ =~= dec_spec(n as nat));
        }
        r
    } else {
        let mut r = dec_u64(n / 10);
        r.push(48 + (n % 10) as u8);
        r
    }
}

} // verus!
