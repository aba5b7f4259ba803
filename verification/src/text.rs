//! Character-level string building: a trusted `String::push` wrapper and a
//! verified decimal rendering of signed integers.

use vstd::prelude::*;
use vstd::string::StrSliceExecFns;

verus! {

/// Returns whether two strings hold the same characters.
pub(crate) fn str_eq(a: &str, b: &str) -> (r: bool)
    ensures
        r == (a@ == b@),
{
    let na = a.unicode_len();
    let nb = b.unicode_len();
    if na != nb {
        return false;
    }
    let mut i: usize = 0;
    while i < na
        invariant
            na == a@.len(),
            na == b@.len(),
            i <= na,
            forall|j: int| 0 <= j < i ==> a@[j] == b@[j],
        decreases na - i,
    {
        if a.get_char(i) != b.get_char(i) {
            return false;
        }
        i = i + 1;
    }
    proof {
        assert(a@ =~= b@);
    }
    true
}

/// The character of a single decimal digit.
pub open spec fn digit_char(d: nat) -> char
    recommends
        d < 10,
{
    if d == 0 { '0' }
    else if d == 1 { '1' }
    else if d == 2 { '2' }
    else if d == 3 { '3' }
    else if d == 4 { '4' }
    else if d == 5 { '5' }
    else if d == 6 { '6' }
    else if d == 7 { '7' }
    else if d == 8 { '8' }
    else { '9' }
}

/// The decimal digits of a natural number, most significant first; empty for
/// zero.
pub open spec fn dec_rec(n: nat) -> Seq<char>
    decreases n,
{
    if n == 0 {
        Seq::empty()
    } else {
        dec_rec(n / 10).push(digit_char(n % 10))
    }
}

/// The decimal rendering of an integer: a leading minus sign for a negative
/// value, and the single digit zero for zero.
pub open spec fn decimal_of(n: int) -> Seq<char> {
    if n == 0 {
        seq!['0']
    } else if n > 0 {
        dec_rec(n as nat)
    } else {
        seq!['-'] + dec_rec((-n) as nat)
    }
}

/// Relies on `String::push`: appends the given character to the end of the
/// string.
#[verifier::external_body]
pub(crate) fn push_char(s: &mut String, c: char)
    ensures
        final(s)@ == old(s)@.push(c),
{
    s.push(c)
}

/// Returns the character of a single decimal digit.
fn digit_char_exec(d: u64) -> (c: char)
    requires
        d < 10,
    ensures
        c == digit_char(d as nat),
{
    if d == 0 { '0' }
    else if d == 1 { '1' }
    else if d == 2 { '2' }
    else if d == 3 { '3' }
    else if d == 4 { '4' }
    else if d == 5 { '5' }
    else if d == 6 { '6' }
    else if d == 7 { '7' }
    else if d == 8 { '8' }
    else { '9' }
}

/// Appends the decimal digits of `k` to `out`, most significant first;
/// appends nothing for zero.
fn push_decimal(out: &mut String, k: u64)
    ensures
        final(out)@ == old(out)@ + dec_rec(k as nat),
    decreases k,
{
    if k == 0 {
        proof {
            assert(out@ =~= old(out)@ + dec_rec(0));
        }
        return ;
    }
    proof {
        assert(k / 10 < k) by (nonlinear_arith)
            requires
                k > 0,
        ;
    }
    push_decimal(out, k / 10);
    push_char(out, digit_char_exec(k % 10));
    proof {
        assert(out@ =~= old(out)@ + dec_rec(k as nat));
    }
}

/// Returns the decimal rendering of `n`, as `i64::to_string` would give it.
pub fn i64_to_decimal(n: i64) -> (r: String)
    ensures
        r@ == decimal_of(n as int),
{
    let mut out = String::new();
    if n == 0 {
        push_char(&mut out, '0');
        proof {
            assert(out@ =~= decimal_of(0));
        }
        return out;
    }
    let m: u64 = if n < 0 {
        push_char(&mut out, '-');
        ((-(n + 1)) as u64) + 1
    } else {
        n as u64
    };
    push_decimal(&mut out, m);
    proof {
        assert(m as int == if n < 0 { -(n as int) } else { n as int });
        assert(out@ =~= decimal_of(n as int));
    }
    out
}

} // verus!
