//! Decimal byte strings: the value of a digit string, the canonical
//! decimal representation of a number, and verified conversions between
//! the two. The enclave's multiply operation speaks this encoding: its
//! payload holds two decimal operands and its result is a decimal string.

use vstd::prelude::*;

verus! {

/// ASCII decimal digit.
pub open spec fn is_digit(b: u8) -> bool {
    48 <= b <= 57
}

/// Numeric value of one digit byte (0 for non-digits, so the function is
/// total; it is only applied under `all_digits`).
pub open spec fn digit_val(b: u8) -> nat {
    if is_digit(b) {
        (b - 48) as nat
    } else {
        0
    }
}

/// A non-empty string of decimal digits.
pub open spec fn all_digits(s: Seq<u8>) -> bool {
    s.len() > 0 && forall|i: int| 0 <= i < s.len() ==> is_digit(s[i])
}

/// Value of a digit string read most-significant first.
pub open spec fn dec_value(s: Seq<u8>) -> nat
    decreases s.len(),
{
    if s.len() == 0 {
        0
    } else {
        dec_value(s.drop_last()) * 10 + digit_val(s.last())
    }
}

/// Canonical decimal representation: no leading zeros, `"0"` for zero.
pub open spec fn dec_repr(n: nat) -> Seq<u8>
    decreases n,
{
    if n < 10 {
        seq![(n + 48) as u8]
    } else {
        dec_repr(n / 10).push((n % 10 + 48) as u8)
    }
}

pub open spec fn pow10(k: nat) -> nat
    decreases k,
{
    if k == 0 {
        1
    } else {
        10 * pow10((k - 1) as nat)
    }
}

pub proof fn lemma_pow10_pos(k: nat)
    ensures
        pow10(k) >= 1,
    decreases k,
{
    if k > 0 {
        lemma_pow10_pos((k - 1) as nat);
    }
}

/// The canonical representation is made of digits and reads back to the
/// number it represents.
pub proof fn lemma_dec_repr_value(n: nat)
    ensures
        all_digits(dec_repr(n)),
        dec_value(dec_repr(n)) == n,
    decreases n,
{
    if n < 10 {
        let s = dec_repr(n);
        assert(s.drop_last() =~= Seq::<u8>::empty());
        assert(dec_value(Seq::<u8>::empty()) == 0);
        assert(s.last() == (n + 48) as u8);
        assert(digit_val((n + 48) as u8) == n);
        assert(dec_value(s) == dec_value(s.drop_last()) * 10 + digit_val(s.last()));
    } else {
        lemma_dec_repr_value(n / 10);
        vstd::arithmetic::div_mod::lemma_fundamental_div_mod(n as int, 10);
        let p = dec_repr(n / 10);
        let d = (n % 10 + 48) as u8;
        let s = p.push(d);
        assert(s.drop_last() =~= p);
        assert(s.last() == d);
        assert(dec_value(s) == dec_value(p) * 10 + digit_val(d));
        assert(dec_value(s) == (n / 10) * 10 + n % 10);
        assert(forall|i: int|
            0 <= i < s.len() ==> is_digit(#[trigger] s[i])) by {
            assert(forall|i: int| 0 <= i < p.len() ==> is_digit(#[trigger] p[i]));
        }
    }
}

/// Splitting a digit string: the left part is scaled by a power of ten.
pub proof fn lemma_dec_value_append(s: Seq<u8>, t: Seq<u8>)
    ensures
        dec_value(s + t) == dec_value(s) * pow10(t.len()) + dec_value(t),
    decreases t.len(),
{
    if t.len() == 0 {
        assert(s + t =~= s);
        assert(pow10(0) == 1);
        assert(dec_value(t) == 0);
        assert(dec_value(s) * 1 == dec_value(s));
    } else {
        let t1 = t.drop_last();
        lemma_dec_value_append(s, t1);
        assert((s + t).drop_last() =~= s + t1);
        assert((s + t).last() == t.last());
        let a = dec_value(s);
        let p1 = pow10(t1.len());
        let b1 = dec_value(t1);
        let c = digit_val(t.last());
        assert(dec_value(s + t) == dec_value((s + t).drop_last()) * 10 + digit_val((s + t).last()));
        assert(dec_value(s + t) == (a * p1 + b1) * 10 + c);
        assert(pow10(t.len()) == 10 * p1);
        assert(dec_value(t) == dec_value(t.drop_last()) * 10 + digit_val(t.last()));
        assert(dec_value(t) == b1 * 10 + c);
        assert((a * p1 + b1) * 10 + c == a * (10 * p1) + (b1 * 10 + c)) by (nonlinear_arith);
        assert(dec_value(s + t) == a * pow10(t.len()) + dec_value(t));
    }
}

/// Extending a digit string to the right never decreases its value.
pub proof fn lemma_dec_value_extend_ge(s: Seq<u8>, t: Seq<u8>)
    ensures
        dec_value(s + t) >= dec_value(s),
{
    lemma_dec_value_append(s, t);
    lemma_pow10_pos(t.len());
    let a = dec_value(s);
    let p = pow10(t.len());
    assert(a * p >= a) by (nonlinear_arith)
        requires
            p >= 1,
            a >= 0,
    ;
}

/// Parse a decimal digit string into a number. Returns `None` exactly
/// when the bytes are not a non-empty digit string or the value does not
/// fit in a `u64`.
pub fn parse_u64(v: &Vec<u8>) -> (r: Option<u64>)
    ensures
        match r {
            Some(n) => all_digits(v@) && dec_value(v@) == n as nat,
            None => !all_digits(v@) || dec_value(v@) > u64::MAX,
        },
{
    let n = v.len();
    if n == 0 {
        return None;
    }
    let mut acc: u64 = 0;
    let mut i: usize = 0;
    while i < n
        invariant
            0 <= i <= n,
            n == v@.len(),
            n > 0,
            forall|j: int| 0 <= j < i ==> is_digit(#[trigger] v@[j]),
            acc as nat == dec_value(v@.subrange(0, i as int)),
        decreases n - i,
    {
        let b = v[i];
        if b < 48 || b > 57 {
            return None;
        }
        let d = (b - 48) as u64;
        proof {
            let p = v@.subrange(0, i + 1);
            assert(p.drop_last() =~= v@.subrange(0, i as int));
            assert(p.last() == v@[i as int]);
            assert(dec_value(p) == acc as nat * 10 + digit_val(b));
        }
        if acc > u64::MAX / 10 || (acc == u64::MAX / 10 && d > u64::MAX % 10) {
            proof {
                let p = v@.subrange(0, i + 1);
                let rest = v@.subrange(i + 1, n as int);
                assert(v@ =~= p + rest);
                lemma_dec_value_extend_ge(p, rest);
                assert(dec_value(p) > u64::MAX);
            }
            return None;
        }
        acc = acc * 10 + d;
        i += 1;
    }
    proof {
        assert(v@.subrange(0, n as int) =~= v@);
    }
    Some(acc)
}

/// Render a number as its canonical decimal representation.
pub fn render_u64(n: u64) -> (r: Vec<u8>)
    ensures
        r@ == dec_repr(n as nat),
    decreases n,
{
    if n < 10 {
        let mut v: Vec<u8> = Vec::new();
        v.push((n as u8) + 48);
        proof {
            assert(v@ =~= dec_repr(n as nat));
        }
        v
    } else {
        let d = ((n % 10) as u8) + 48;
        let mut v = render_u64(n / 10);
        v.push(d);
        proof {
            assert(v@ =~= dec_repr(n as nat));
        }
        v
    }
}

} // verus!
