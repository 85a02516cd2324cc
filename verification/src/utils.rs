//! Rendering of elapsed time as text.

use vstd::prelude::*;
use vstd::string::*;

verus! {

/// The decimal digit character for `d`, which is meant to be below ten.
pub open spec fn digit_char(d: nat) -> char {
    if d == 0 {
        '0'
    } else if d == 1 {
        '1'
    } else if d == 2 {
        '2'
    } else if d == 3 {
        '3'
    } else if d == 4 {
        '4'
    } else if d == 5 {
        '5'
    } else if d == 6 {
        '6'
    } else if d == 7 {
        '7'
    } else if d == 8 {
        '8'
    } else {
        '9'
    }
}

/// The value of a decimal digit character; anything else counts as zero.
pub open spec fn digit_value(c: char) -> nat {
    if c == '1' {
        1
    } else if c == '2' {
        2
    } else if c == '3' {
        3
    } else if c == '4' {
        4
    } else if c == '5' {
        5
    } else if c == '6' {
        6
    } else if c == '7' {
        7
    } else if c == '8' {
        8
    } else if c == '9' {
        9
    } else {
        0
    }
}

pub open spec fn is_digit(c: char) -> bool {
    c == '0' || digit_value(c) > 0
}

/// Decimal rendering of `n`, without padding and without leading zeros.
pub open spec fn decimal_text(n: nat) -> Seq<char>
    decreases n,
{
    if n < 10 {
        seq![digit_char(n)]
    } else {
        decimal_text(n / 10).push(digit_char(n % 10))
    }
}

/// Rendering of `n` padded with zeros to at least two digits.
pub open spec fn padded_text(n: nat) -> Seq<char> {
    if n < 10 {
        seq!['0', digit_char(n)]
    } else {
        decimal_text(n)
    }
}

/// The clock part `HH:MM:SS` of a number of seconds below one day.
pub open spec fn clock_text(secs: nat) -> Seq<char> {
    padded_text(secs / 3600) + seq![':'] + padded_text((secs % 3600) / 60) + seq![':']
        + padded_text(secs % 60)
}

/// The text of an elapsed time of `secs` whole seconds: `HH:MM:SS` below one
/// day, `Dd HH:MM:SS` from one day on.
pub open spec fn duration_text(secs: nat) -> Seq<char> {
    if secs / 86400 > 0 {
        decimal_text(secs / 86400) + seq!['d', ' '] + clock_text(secs % 86400)
    } else {
        clock_text(secs % 86400)
    }
}

/// Whether every character of `s` is a decimal digit.
pub open spec fn all_digits(s: Seq<char>) -> bool {
    forall|i: int| 0 <= i < s.len() ==> is_digit(#[trigger] s[i])
}

/// Whether `t` has the shape `HH:MM:SS`.
pub open spec fn is_clock_text(t: Seq<char>) -> bool {
    &&& t.len() == 8
    &&& is_digit(t[0])
    &&& is_digit(t[1])
    &&& t[2] == ':'
    &&& is_digit(t[3])
    &&& is_digit(t[4])
    &&& t[5] == ':'
    &&& is_digit(t[6])
    &&& is_digit(t[7])
}

/// Whether `t` has the shape `HH:MM:SS` or `Dd HH:MM:SS`, where `D` stands
/// for one or more digits.
pub open spec fn is_duration_text(t: Seq<char>) -> bool {
    ||| is_clock_text(t)
    ||| {
        &&& t.len() > 10
        &&& all_digits(t.subrange(0, t.len() - 10))
        &&& t[t.len() - 10] == 'd'
        &&& t[t.len() - 9] == ' '
        &&& is_clock_text(t.subrange(t.len() - 8, t.len() as int))
    }
}

/// The number that a run of decimal digits stands for.
pub open spec fn decimal_value(s: Seq<char>) -> nat
    decreases s.len(),
{
    if s.len() == 0 {
        0
    } else {
        decimal_value(s.drop_last()) * 10 + digit_value(s.last())
    }
}

/// The seconds that a text of the shape `HH:MM:SS` stands for.
pub open spec fn clock_value(t: Seq<char>) -> nat {
    (digit_value(t[0]) * 10 + digit_value(t[1])) * 3600 + (digit_value(t[3]) * 10 + digit_value(
        t[4],
    )) * 60 + (digit_value(t[6]) * 10 + digit_value(t[7]))
}

/// The seconds that a text of the shape `HH:MM:SS` or `Dd HH:MM:SS` stands
/// for.
pub open spec fn duration_value(t: Seq<char>) -> nat {
    if t.len() <= 8 {
        clock_value(t)
    } else {
        decimal_value(t.subrange(0, t.len() - 10)) * 86400 + clock_value(
            t.subrange(t.len() - 8, t.len() as int),
        )
    }
}

/// The unpadded rendering of a number is a run of digits, at least one, that
/// stands for that number.
pub proof fn lemma_decimal_text_reads_back(n: nat)
    ensures
        decimal_text(n).len() >= 1,
        all_digits(decimal_text(n)),
        decimal_value(decimal_text(n)) == n,
    decreases n,
{
    if n < 10 {
        assert(decimal_text(n).drop_last() =~= Seq::<char>::empty());
        assert(decimal_value(decimal_text(n).drop_last()) == 0);
    } else {
        lemma_decimal_text_reads_back(n / 10);
        assert(decimal_text(n).drop_last() =~= decimal_text(n / 10));
    }
}

/// Below one hundred the padded rendering is two digits: the tens and the
/// units.
pub proof fn lemma_padded_text_reads_back(n: nat)
    requires
        n < 100,
    ensures
        padded_text(n).len() == 2,
        is_digit(padded_text(n)[0]),
        is_digit(padded_text(n)[1]),
        digit_value(padded_text(n)[0]) * 10 + digit_value(padded_text(n)[1]) == n,
{
    reveal_with_fuel(decimal_text, 2);
    assert(padded_text(n) =~= seq![digit_char(n / 10), digit_char(n % 10)]);
    assert(digit_value(digit_char(n / 10)) == n / 10);
    assert(digit_value(digit_char(n % 10)) == n % 10);
}

/// Below one day the clock part has the shape `HH:MM:SS` and stands for the
/// seconds it was made from.
pub proof fn lemma_clock_text_reads_back(secs: nat)
    requires
        secs < 86400,
    ensures
        is_clock_text(clock_text(secs)),
        clock_value(clock_text(secs)) == secs,
{
    let h = secs / 3600;
    let m = (secs % 3600) / 60;
    let s = secs % 60;
    lemma_padded_text_reads_back(h);
    lemma_padded_text_reads_back(m);
    lemma_padded_text_reads_back(s);
    let ph = padded_text(h);
    let pm = padded_text(m);
    let ps = padded_text(s);
    let t = clock_text(secs);
    assert(t =~= seq![ph[0], ph[1], ':', pm[0], pm[1], ':', ps[0], ps[1]]);
    assert(h * 3600 + m * 60 + s == secs);
}

/// Every elapsed time is rendered in the shape `HH:MM:SS` or `Dd HH:MM:SS`,
/// and the text stands for exactly the seconds it was made from: no two
/// elapsed times share a text.
pub proof fn lemma_duration_text_reads_back(secs: nat)
    ensures
        is_duration_text(duration_text(secs)),
        duration_value(duration_text(secs)) == secs,
{
    let days = secs / 86400;
    let rest = secs % 86400;
    lemma_clock_text_reads_back(rest);
    let t = duration_text(secs);
    if days > 0 {
        lemma_decimal_text_reads_back(days);
        let d = decimal_text(days);
        assert(t.len() == d.len() + 10);
        assert(t.subrange(0, t.len() - 10) =~= d);
        assert(t.subrange(t.len() - 8, t.len() as int) =~= clock_text(rest));
        assert(t[t.len() - 10] == 'd');
        assert(t[t.len() - 9] == ' ');
    }
}

fn digit_str(d: u64) -> (s: &'static str)
    requires
        d < 10,
    ensures
        s@ == seq![digit_char(d as nat)],
{
    proof {
        reveal_strlit("0");
        reveal_strlit("1");
        reveal_strlit("2");
        reveal_strlit("3");
        reveal_strlit("4");
        reveal_strlit("5");
        reveal_strlit("6");
        reveal_strlit("7");
        reveal_strlit("8");
        reveal_strlit("9");
    }
    let s = if d == 0 {
        "0"
    } else if d == 1 {
        "1"
    } else if d == 2 {
        "2"
    } else if d == 3 {
        "3"
    } else if d == 4 {
        "4"
    } else if d == 5 {
        "5"
    } else if d == 6 {
        "6"
    } else if d == 7 {
        "7"
    } else if d == 8 {
        "8"
    } else {
        "9"
    };
    assert(s@ =~= seq![digit_char(d as nat)]);
    s
}

/// Appends the unpadded decimal rendering of `n` to `out`.
fn append_decimal(out: &mut String, n: u64)
    ensures
        final(out)@ == old(out)@ + decimal_text(n as nat),
    decreases n,
{
    if n >= 10 {
        append_decimal(out, n / 10);
    }
    out.append(digit_str(n % 10));
    assert(final(out)@ =~= old(out)@ + decimal_text(n as nat));
}

/// The decimal rendering of `n`, without padding.
pub fn decimal_string(n: u64) -> (text: String)
    ensures
        text@ == decimal_text(n as nat),
{
    let mut text = String::new();
    append_decimal(&mut text, n);
    assert(text@ =~= decimal_text(n as nat));
    text
}

/// Appends `n`, padded with a zero to two digits, to `out`.
fn append_padded(out: &mut String, n: u64)
    ensures
        final(out)@ == old(out)@ + padded_text(n as nat),
{
    if n < 10 {
        out.append("0");
        proof {
            reveal_strlit("0");
        }
    }
    append_decimal(out, n);
    assert(final(out)@ =~= old(out)@ + padded_text(n as nat)) by {
        reveal_with_fuel(decimal_text, 2);
    }
}

/// Renders an elapsed time, given in whole seconds, as `HH:MM:SS`, with the
/// number of whole days in front (`Dd HH:MM:SS`) once there is at least one.
pub fn format_duration(total_seconds: u64) -> (text: String)
    ensures
        text@ == duration_text(total_seconds as nat),
{
    let days: u64 = total_seconds / 86400;
    let hours: u64 = (total_seconds % 86400) / 3600;
    let minutes: u64 = (total_seconds % 3600) / 60;
    let seconds: u64 = total_seconds % 60;
    let mut text = String::new();
    if days > 0 {
        append_decimal(&mut text, days);
        text.append("d ");
    }
    append_padded(&mut text, hours);
    text.append(":");
    append_padded(&mut text, minutes);
    text.append(":");
    append_padded(&mut text, seconds);
    proof {
        reveal_strlit("d ");
        reveal_strlit(":");
        let t = total_seconds as nat;
        assert((t % 86400) % 3600 == t % 3600) by (nonlinear_arith);
        assert((t % 86400) % 60 == t % 60) by (nonlinear_arith);
        assert("d "@ =~= seq!['d', ' ']);
        assert(":"@ =~= seq![':']);
        assert(text@ =~= duration_text(t));
    }
    text
}

} // verus!
