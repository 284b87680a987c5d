//! Decimal rendering of integers and the durations built from it.

use vstd::prelude::*;

verus! {

/// The character of a decimal digit.
pub open spec fn digit_char(d: nat) -> char {
    if d == 0 { '0' } else if d == 1 { '1' } else if d == 2 { '2' } else if d == 3 { '3' }
    else if d == 4 { '4' } else if d == 5 { '5' } else if d == 6 { '6' } else if d == 7 { '7' }
    else if d == 8 { '8' } else { '9' }
}

/// Decimal representation of `n`, without leading zeros (as `to_string` gives it).
pub open spec fn decimal(n: nat) -> Seq<char>
    decreases n,
{
    if n < 10 {
        seq![digit_char(n)]
    } else {
        decimal(n / 10).push(digit_char(n % 10))
    }
}

fn digit_str(d: u64) -> (r: &'static str)
    requires
        d < 10,
    ensures
        r@ == seq![digit_char(d as nat)],
{
    match d {
        0 => { proof { reveal_strlit("0"); } "0" },
        1 => { proof { reveal_strlit("1"); } "1" },
        2 => { proof { reveal_strlit("2"); } "2" },
        3 => { proof { reveal_strlit("3"); } "3" },
        4 => { proof { reveal_strlit("4"); } "4" },
        5 => { proof { reveal_strlit("5"); } "5" },
        6 => { proof { reveal_strlit("6"); } "6" },
        7 => { proof { reveal_strlit("7"); } "7" },
        8 => { proof { reveal_strlit("8"); } "8" },
        _ => { proof { reveal_strlit("9"); } "9" },
    }
}

/// Append the decimal representation of `n` to `s`.
pub fn push_decimal(s: &mut String, n: u64)
    ensures
        final(s)@ == old(s)@ + decimal(n as nat),
    decreases n,
{
    if n < 10 {
        s.append(digit_str(n));
    } else {
        push_decimal(s, n / 10);
        s.append(digit_str(n % 10));
        assert(decimal(n as nat) == decimal((n / 10) as nat).push(digit_char((n % 10) as nat)));
        assert(old(s)@ + decimal(n as nat) =~= old(s)@ + decimal((n / 10) as nat) + seq![digit_char((n % 10) as nat)]);
    }
}

/// `n.to_string()`.
pub fn u64_to_string(n: u64) -> (r: String)
    ensures
        r@ == decimal(n as nat),
{
    let mut s = String::new();
    push_decimal(&mut s, n);
    assert(Seq::<char>::empty() + decimal(n as nat) =~= decimal(n as nat));
    s
}

/// `n.to_string()` for a `usize`.
pub fn usize_to_string(n: usize) -> (r: String)
    ensures
        r@ == decimal(n as nat),
{
    u64_to_string(n as u64)
}

/// Human-readable duration: seconds, then minutes and seconds, hours and
/// minutes, or days and hours.
pub open spec fn format_duration_spec(secs: nat) -> Seq<char> {
    if secs < 60 {
        decimal(secs) + "s"@
    } else if secs < 3600 {
        decimal(secs / 60) + "m "@ + decimal(secs % 60) + "s"@
    } else if secs < 86400 {
        decimal(secs / 3600) + "h "@ + decimal((secs % 3600) / 60) + "m"@
    } else {
        decimal(secs / 86400) + "d "@ + decimal((secs % 86400) / 3600) + "h"@
    }
}

/// An uptime reads in its two largest units, each the whole number of that
/// unit that fits, the smaller one below the size of the larger: seconds
/// under a minute, minutes and seconds under an hour, hours and minutes
/// under a day, then days and hours.
pub proof fn law_duration_in_two_units(secs: nat)
    ensures
        secs < 60 ==> format_duration_spec(secs) == decimal(secs) + "s"@,
        60 <= secs < 3600 ==> exists|m: nat, s: nat| #![trigger decimal(m), decimal(s)]
            m * 60 + s == secs && s < 60
            && format_duration_spec(secs) == decimal(m) + "m "@ + decimal(s) + "s"@,
        3600 <= secs < 86400 ==> exists|h: nat, m: nat| #![trigger decimal(h), decimal(m)]
            h * 3600 + m * 60 <= secs < h * 3600 + (m + 1) * 60 && m < 60
            && format_duration_spec(secs) == decimal(h) + "h "@ + decimal(m) + "m"@,
        86400 <= secs ==> exists|d: nat, h: nat| #![trigger decimal(d), decimal(h)]
            d * 86400 + h * 3600 <= secs < d * 86400 + (h + 1) * 3600 && h < 24
            && format_duration_spec(secs) == decimal(d) + "d "@ + decimal(h) + "h"@,
{
    if 60 <= secs < 3600 {
        let m: nat = secs / 60;
        let s: nat = secs % 60;
        assert(m * 60 + s == secs) by (nonlinear_arith)
            requires m == secs / 60, s == secs % 60;
        assert(format_duration_spec(secs) == decimal(m) + "m "@ + decimal(s) + "s"@);
    }
    if 3600 <= secs < 86400 {
        let h: nat = secs / 3600;
        let m: nat = (secs % 3600) / 60;
        assert(h * 3600 + m * 60 <= secs < h * 3600 + (m + 1) * 60 && m < 60) by (nonlinear_arith)
            requires h == secs / 3600, m == (secs % 3600) / 60;
        assert(format_duration_spec(secs) == decimal(h) + "h "@ + decimal(m) + "m"@);
    }
    if 86400 <= secs {
        let d: nat = secs / 86400;
        let h: nat = (secs % 86400) / 3600;
        assert(d * 86400 + h * 3600 <= secs < d * 86400 + (h + 1) * 3600 && h < 24) by (nonlinear_arith)
            requires d == secs / 86400, h == (secs % 86400) / 3600;
        assert(format_duration_spec(secs) == decimal(d) + "d "@ + decimal(h) + "h"@);
    }
}

/// Format an uptime in seconds.
pub fn format_duration(secs: u64) -> (r: String)
    ensures
        r@ == format_duration_spec(secs as nat),
{
    let mut s = String::new();
    if secs < 60 {
        push_decimal(&mut s, secs);
        s.append("s");
    } else if secs < 3600 {
        push_decimal(&mut s, secs / 60);
        s.append("m ");
        push_decimal(&mut s, secs % 60);
        s.append("s");
    } else if secs < 86400 {
        push_decimal(&mut s, secs / 3600);
        s.append("h ");
        push_decimal(&mut s, (secs % 3600) / 60);
        s.append("m");
    } else {
        push_decimal(&mut s, secs / 86400);
        s.append("d ");
        push_decimal(&mut s, (secs % 86400) / 3600);
        s.append("h");
    }
    assert(s@ =~= format_duration_spec(secs as nat));
    s
}

} // verus!
