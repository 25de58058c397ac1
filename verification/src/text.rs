//! Text building blocks: decimal rendering of integers and string assembly.

use vstd::prelude::*;

verus! {

/// `String::push` appends one character to the end of the string.
pub assume_specification[ String::push ](s: &mut String, ch: char)
    ensures
        final(s)@ == old(s)@.push(ch),
;

/// The upper-case form of a text, as `str::to_uppercase` of the standard
/// library gives it.
pub uninterp spec fn uppercase(s: Seq<char>) -> Seq<char>;

/// `str::to_uppercase`: the result is the upper-case form of the argument,
/// a function of the text alone.
#[verifier::external_body]
pub(crate) fn to_uppercase(s: &str) -> (upper: String)
    ensures
        upper@ == uppercase(s@),
{
    s.to_uppercase()
}

/// The character for a single decimal digit `d`, `0 <= d <= 9`.
pub open spec fn digit_char(d: int) -> char {
    ((48 + d) as u8) as char
}

/// The decimal numeral of a natural number, without sign or leading zeros.
pub open spec fn decimal_nat(n: nat) -> Seq<char>
    decreases n,
{
    if n < 10 {
        seq![digit_char(n as int)]
    } else {
        decimal_nat(n / 10).push(digit_char((n % 10) as int))
    }
}

/// The decimal numeral of an integer: a minus sign for negative numbers,
/// then the numeral of the magnitude.
pub open spec fn decimal(i: int) -> Seq<char> {
    if i < 0 {
        seq!['-'] + decimal_nat((-i) as nat)
    } else {
        decimal_nat(i as nat)
    }
}

/// Appends the decimal numeral of `n` to `out`.
pub fn push_decimal_u64(out: &mut String, n: u64)
    ensures
        final(out)@ == old(out)@ + decimal_nat(n as nat),
    decreases n,
{
    if n >= 10 {
        push_decimal_u64(out, n / 10);
    }
    let d: u8 = (n % 10) as u8;
    out.push((48u8 + d) as char);
    proof {
        if n >= 10 {
            assert(old(out)@ + decimal_nat((n / 10) as nat).push(digit_char((n % 10) as int))
                =~= (old(out)@ + decimal_nat((n / 10) as nat)).push(digit_char((n % 10) as int)));
        } else {
            assert(old(out)@ + seq![digit_char(n as int)] =~= old(out)@.push(digit_char(n as int)));
        }
    }
}

/// Appends the decimal numeral of `i` to `out`.
pub fn push_decimal_i64(out: &mut String, i: i64)
    ensures
        final(out)@ == old(out)@ + decimal(i as int),
{
    if i < 0 {
        out.push('-');
        let magnitude: u64 = ((-(i + 1)) as u64) + 1;
        push_decimal_u64(out, magnitude);
        assert(old(out)@.push('-') + decimal_nat(magnitude as nat) =~= old(out)@ + (seq!['-']
            + decimal_nat((-i) as nat)));
    } else {
        push_decimal_u64(out, i as u64);
    }
}

/// The decimal numeral of `n` as a string.
pub fn u64_to_string(n: u64) -> (s: String)
    ensures
        s@ == decimal_nat(n as nat),
{
    let mut s = String::new();
    push_decimal_u64(&mut s, n);
    assert(Seq::<char>::empty() + decimal_nat(n as nat) =~= decimal_nat(n as nat));
    s
}

/// The decimal numeral of `i` as a string.
pub fn i64_to_string(i: i64) -> (s: String)
    ensures
        s@ == decimal(i as int),
{
    let mut s = String::new();
    push_decimal_i64(&mut s, i);
    assert(Seq::<char>::empty() + decimal(i as int) =~= decimal(i as int));
    s
}

} // verus!
