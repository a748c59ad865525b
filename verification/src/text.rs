//! Building display strings: decimal numbers and `m:ss` durations.

use vstd::prelude::*;

verus! {

/// The decimal digit character for `d` (`d < 10`).
pub open spec fn digit_char(d: nat) -> char {
    if d == 0 { '0' }
    else if d == 1 { '1' }
    else if d == 2 { '2' }
    else if d == 3 { '3' }
    else if d == 4 { '4' }
    else if d == 5 { '5' }
    else if d == 6 { '6' }
    else if d == 7 { '7' }
    else if d == 8 { '8' }
    else { '9' }
}

/// The decimal representation of `n`, without leading zeros.
pub open spec fn decimal(n: nat) -> Seq<char>
    decreases n,
{
    if n < 10 {
        seq![digit_char(n)]
    } else {
        decimal(n / 10).push(digit_char(n % 10))
    }
}

/// The representation of an integer as `{}` prints it: a minus sign for
/// negative values, then the decimal digits of the magnitude.
pub open spec fn int_text(i: int) -> Seq<char> {
    if i < 0 {
        seq!['-'] + decimal((-i) as nat)
    } else {
        decimal(i as nat)
    }
}

/// The representation of an integer as `{:02}` prints it: zero-padded to
/// at least two characters, the sign counting towards the width.
pub open spec fn int_text_pad2(i: int) -> Seq<char> {
    if 0 <= i < 10 {
        seq!['0', digit_char(i as nat)]
    } else {
        int_text(i)
    }
}

/// Quotient of Rust's integer division, which rounds towards zero.
pub open spec fn trunc_div(a: int, b: int) -> int {
    if a >= 0 { a / b } else { -((-a) / b) }
}

/// Remainder of Rust's integer division: it has the sign of the dividend.
pub open spec fn trunc_rem(a: int, b: int) -> int {
    a - b * trunc_div(a, b)
}

/// `"{}:{:02}"` of the minutes and seconds of `secs`, as Rust's `/` and
/// `%` split it.
pub open spec fn duration_text(secs: int) -> Seq<char> {
    int_text(trunc_div(secs, 60)) + seq![':'] + int_text_pad2(trunc_rem(secs, 60))
}

/// Appends one character to a string (`String::push`).
#[verifier::external_body]
pub(crate) fn push_char(s: &mut String, c: char)
    ensures
        final(s)@ == old(s)@.push(c),
{
    s.push(c);
}

/// Appends a string slice to a string (`String::push_str`).
#[verifier::external_body]
pub(crate) fn push_str(s: &mut String, t: &str)
    ensures
        final(s)@ == old(s)@ + t@,
{
    s.push_str(t);
}

fn digit(d: u64) -> (c: char)
    requires
        d < 10,
    ensures
        c == digit_char(d as nat),
{
    if d == 0 { '0' }
    else if d == 1 { '1' }
    else if d == 2 { '2' }
    else if d == 3 { '3' }
    else if d == 4 { '4' }
    else if d == 5 { '5' }
    else if d == 6 { '6' }
    else if d == 7 { '7' }
    else if d == 8 { '8' }
    else { '9' }
}

/// Appends the decimal digits of `n`.
pub fn push_decimal(out: &mut String, n: u64)
    ensures
        final(out)@ == old(out)@ + decimal(n as nat),
    decreases n,
{
    if n >= 10 {
        push_decimal(out, n / 10);
        push_char(out, digit(n % 10));
        assert(old(out)@ + decimal(n as nat) =~= old(out)@ + decimal((n / 10) as nat) + seq![digit_char((n % 10) as nat)]);
    } else {
        push_char(out, digit(n));
        assert(old(out)@ + decimal(n as nat) =~= old(out)@.push(digit_char(n as nat)));
    }
}

/// Appends `i` as `{}` prints it.
pub fn push_int(out: &mut String, i: i64)
    requires
        i > i64::MIN,
    ensures
        final(out)@ == old(out)@ + int_text(i as int),
{
    if i < 0 {
        push_char(out, '-');
        push_decimal(out, (-i) as u64);
        assert(old(out)@ + int_text(i as int) =~= old(out)@.push('-') + decimal((-i) as nat));
    } else {
        push_decimal(out, i as u64);
    }
}

/// Appends `i` as `{:02}` prints it.
pub fn push_int_pad2(out: &mut String, i: i64)
    requires
        i > i64::MIN,
    ensures
        final(out)@ == old(out)@ + int_text_pad2(i as int),
{
    if 0 <= i && i < 10 {
        push_char(out, '0');
        push_char(out, digit(i as u64));
        assert(old(out)@ + int_text_pad2(i as int) =~= old(out)@.push('0').push(digit_char(i as nat)));
    } else {
        push_int(out, i);
    }
}

/// Formats a number of seconds as `m:ss`, as `format!("{}:{:02}", s / 60, s % 60)` does.
pub fn duration_string(secs: i32) -> (r: String)
    ensures
        r@ == duration_text(secs as int),
{
    let s: i64 = secs as i64;
    let (q, rem): (i64, i64) = if s >= 0 {
        (s / 60, s % 60)
    } else {
        (-((-s) / 60), -((-s) % 60))
    };
    assert(q == trunc_div(s as int, 60));
    assert(rem == trunc_rem(s as int, 60));
    let mut out = String::new();
    push_int(&mut out, q);
    push_char(&mut out, ':');
    push_int_pad2(&mut out, rem);
    out
}

} // verus!
