//! Integer-based text formatting for the rendering engine: decimal digits,
//! fixed-point values with two decimals, rounding division, and human-scaled
//! byte sizes at binary 1024 steps.
//!
//! Fractional quantities are carried as exact rationals (numerator and
//! denominator) and rendered by rounding division, half away from zero.

use vstd::prelude::*;

verus! {

/// The character for one decimal digit.
pub open spec fn digit_char(d: int) -> char {
    if d == 0 {
        '0'
    } else if d == 1 {
        '1'
    } else if d == 2 {
        '2'
    } else if d == 3 {
        '3'
    } else if d == 4 {
        '4'
    } else if d == 5 {
        '5'
    } else if d == 6 {
        '6'
    } else if d == 7 {
        '7'
    } else if d == 8 {
        '8'
    } else {
        '9'
    }
}

/// The decimal digits of `n`, most significant first.
pub open spec fn spec_dec(n: nat) -> Seq<char>
    decreases n,
{
    if n < 10 {
        seq![digit_char(n as int)]
    } else {
        spec_dec(n / 10) + seq![digit_char((n % 10) as int)]
    }
}

/// `h` hundredths rendered as a fixed-point number with two decimals,
/// for example 150 as "1.50".
pub open spec fn spec_fixed2(h: nat) -> Seq<char> {
    spec_dec(h / 100) + seq!['.', digit_char(((h / 10) % 10) as int), digit_char((h % 10) as int)]
}

/// `num / den` rounded to the nearest integer, half away from zero.
pub open spec fn spec_round_div(num: nat, den: nat) -> nat
    recommends
        den > 0,
{
    if 2 * (num % den) >= den {
        num / den + 1
    } else {
        num / den
    }
}

/// `n` copies of the character `c`.
pub open spec fn spec_repeat(c: char, n: nat) -> Seq<char> {
    Seq::new(n, |i: int| c)
}

/// The rounded quotient is within half a unit of the exact one:
/// `2 * |spec_round_div(num, den) * den - num| <= den`.
pub proof fn lemma_round_div_close(num: nat, den: nat)
    requires
        den > 0,
    ensures
        2 * (spec_round_div(num, den) * den) <= 2 * num + den,
        2 * num <= 2 * (spec_round_div(num, den) * den) + den,
{
    let q = num / den;
    let r = num % den;
    assert(num == den * q + r && r < den) by (nonlinear_arith)
        requires
            den > 0,
            q == num / den,
            r == num % den,
    ;
    if 2 * r >= den {
        assert((q + 1) * den == den * q + den) by (nonlinear_arith);
    } else {
        assert(q * den == den * q) by (nonlinear_arith);
    }
}

fn digit_to_char(d: u8) -> (c: char)
    requires
        d <= 9,
    ensures
        c == digit_char(d as int),
{
    if d == 0 {
        '0'
    } else if d == 1 {
        '1'
    } else if d == 2 {
        '2'
    } else if d == 3 {
        '3'
    } else if d == 4 {
        '4'
    } else if d == 5 {
        '5'
    } else if d == 6 {
        '6'
    } else if d == 7 {
        '7'
    } else if d == 8 {
        '8'
    } else {
        '9'
    }
}

/// Append the decimal digits of `n` to `out`.
pub fn push_dec(out: &mut Vec<char>, n: u128)
    ensures
        final(out)@ == old(out)@ + spec_dec(n as nat),
    decreases n,
{
    if n < 10 {
        out.push(digit_to_char(n as u8));
    } else {
        push_dec(out, n / 10);
        out.push(digit_to_char((n % 10) as u8));
        assert(final(out)@ =~= old(out)@ + spec_dec(n as nat));
    }
}

/// Append `h` hundredths as a fixed-point number with two decimals.
pub fn push_fixed2(out: &mut Vec<char>, h: u128)
    ensures
        final(out)@ == old(out)@ + spec_fixed2(h as nat),
{
    push_dec(out, h / 100);
    out.push('.');
    out.push(digit_to_char(((h / 10) % 10) as u8));
    out.push(digit_to_char((h % 10) as u8));
    assert(final(out)@ =~= old(out)@ + spec_fixed2(h as nat));
}

/// Append `n` copies of `c`.
pub fn push_repeat(out: &mut Vec<char>, c: char, n: usize)
    ensures
        final(out)@ == old(out)@ + spec_repeat(c, n as nat),
{
    let mut i: usize = 0;
    while i < n
        invariant
            i <= n,
            out@ == old(out)@ + spec_repeat(c, i as nat),
        decreases n - i,
    {
        out.push(c);
        assert(out@ =~= old(out)@ + spec_repeat(c, (i + 1) as nat));
        i = i + 1;
    }
}

/// Append every character of `s`.
pub fn push_all(out: &mut Vec<char>, s: &Vec<char>)
    ensures
        final(out)@ == old(out)@ + s@,
{
    let mut i: usize = 0;
    while i < s.len()
        invariant
            i <= s.len(),
            out@ == old(out)@ + s@.take(i as int),
        decreases s.len() - i,
    {
        out.push(s[i]);
        assert(out@ =~= old(out)@ + s@.take((i + 1) as int));
        i = i + 1;
    }
    assert(s@.take(s@.len() as int) =~= s@);
}

/// `num / den` rounded to the nearest integer, half away from zero.
pub fn round_div(num: u128, den: u128) -> (r: u128)
    requires
        den > 0,
    ensures
        r == spec_round_div(num as nat, den as nat),
{
    let q = num / den;
    let rem = num % den;
    // `rem >= den - rem` avoids overflow when doubling; it means `2 * rem >= den`.
    if rem >= den - rem {
        assert(q < u128::MAX) by {
            assert(den > 1 ==> q <= num / 2) by (nonlinear_arith)
                requires
                    q == num / den,
                    den > 1,
            ;
            assert(den == 1 ==> rem == 0);
        }
        q + 1
    } else {
        q
    }
}

/// The decimal character sequence for `value = num / den` scaled to bytes,
/// kilobytes, megabytes, gigabytes or terabytes at binary 1024 steps:
/// two decimals and a unit suffix, except plain bytes, which are rendered
/// with no decimals.
pub open spec fn spec_kb(num: nat, den: nat) -> Seq<char>
    recommends
        den > 0,
{
    let kb: nat = 1024;
    if num >= den * (kb * kb * kb * kb) {
        spec_fixed2(spec_round_div(100 * num, den * (kb * kb * kb * kb))) + seq![' ', 'T', 'B']
    } else if num >= den * (kb * kb * kb) {
        spec_fixed2(spec_round_div(100 * num, den * (kb * kb * kb))) + seq![' ', 'G', 'B']
    } else if num >= den * (kb * kb) {
        spec_fixed2(spec_round_div(100 * num, den * (kb * kb))) + seq![' ', 'M', 'B']
    } else if num >= den * kb {
        spec_fixed2(spec_round_div(100 * num, den * kb)) + seq![' ', 'K', 'B']
    } else {
        spec_dec(spec_round_div(num, den)) + seq![' ', 'B']
    }
}

/// The largest denominator a byte-scaled rational may carry; keeps every
/// product in the scaling free of overflow.
pub const KB_DEN_MAX: u128 = 0x100000000000000000000;

/// The largest numerator a byte-scaled rational may carry.
pub const KB_NUM_MAX: u128 = 0x10000000000000000000000000;

/// Append the byte-scaled rendering of the exact rational `num / den`.
pub fn push_kb_frac(out: &mut Vec<char>, num: u128, den: u128)
    requires
        0 < den <= KB_DEN_MAX,
        num <= KB_NUM_MAX,
    ensures
        final(out)@ == old(out)@ + spec_kb(num as nat, den as nat),
{
    if num >= den * 1099511627776 {
        push_fixed2(out, round_div(100 * num, den * 1099511627776));
        out.push(' ');
        out.push('T');
        out.push('B');
    } else if num >= den * 1073741824 {
        push_fixed2(out, round_div(100 * num, den * 1073741824));
        out.push(' ');
        out.push('G');
        out.push('B');
    } else if num >= den * 1048576 {
        push_fixed2(out, round_div(100 * num, den * 1048576));
        out.push(' ');
        out.push('M');
        out.push('B');
    } else if num >= den * 1024 {
        push_fixed2(out, round_div(100 * num, den * 1024));
        out.push(' ');
        out.push('K');
        out.push('B');
    } else {
        push_dec(out, round_div(num, den));
        out.push(' ');
        out.push('B');
    }
    assert(final(out)@ =~= old(out)@ + spec_kb(num as nat, den as nat));
}

/// The characters of `s`, collected into a vector.
pub fn str_chars(s: &str) -> (r: Vec<char>)
    ensures
        r@ == s@,
{
    let n = s.unicode_len();
    let mut v: Vec<char> = Vec::new();
    let mut i: usize = 0;
    while i < n
        invariant
            n == s@.len(),
            i <= n,
            v@ == s@.take(i as int),
        decreases n - i,
    {
        let c = s.get_char(i);
        v.push(c);
        assert(v@ =~= s@.take((i + 1) as int));
        i = i + 1;
    }
    assert(s@.take(n as int) =~= s@);
    v
}

/// Relies on `String::from_iter` over `std::iter::Iterator` for `Vec`:
/// collecting characters yields the string of exactly those characters.
#[verifier::external_body]
pub fn chars_to_string(v: &Vec<char>) -> (r: String)
    ensures
        r@ == v@,
{
    v.iter().collect()
}

/// A byte count rendered human-readably: two decimals and a unit at binary
/// 1024 steps, for example 1536 as "1.50 KB"; plain bytes with no decimals.
pub fn kb_fmt(n: u64) -> (r: String)
    ensures
        r@ == spec_kb(n as nat, 1),
{
    let mut out: Vec<char> = Vec::new();
    push_kb_frac(&mut out, n as u128, 1);
    chars_to_string(&out)
}

} // verus!
