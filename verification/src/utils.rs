//! Clock-style formatting of playback times.
//!
//! A duration in whole seconds is shown as `M:SS`, or `H:MM:SS` once it
//! reaches one hour; both the metadata records and the live progress line
//! use this one function so they always agree.
use vstd::prelude::*;

verus! {

/// The decimal digit character for `d` (meaningful for `0 <= d <= 9`).
pub open spec fn spec_digit_char(d: int) -> char {
    if d == 0 {
        '0'
    } else if d == 1 {
        '1'
    } else if d == 2 {
        '2'
    } else if d == 3 {
        '3'
    } else if d == 4 {
        '4'
    } else if d == 5 {
        '5'
    } else if d == 6 {
        '6'
    } else if d == 7 {
        '7'
    } else if d == 8 {
        '8'
    } else {
        '9'
    }
}

/// The decimal rendering of `n`, without leading zeros (`0` is `"0"`).
pub open spec fn spec_decimal(n: nat) -> Seq<char>
    decreases n,
{
    if n < 10 {
        seq![spec_digit_char(n as int)]
    } else {
        spec_decimal(n / 10) + seq![spec_digit_char((n % 10) as int)]
    }
}

/// The two-digit zero-padded rendering of `n` (meaningful for `n < 100`).
pub open spec fn spec_two_digits(n: nat) -> Seq<char> {
    seq![spec_digit_char((n / 10) as int), spec_digit_char((n % 10) as int)]
}

/// What `format_duration` returns for a duration of `s` whole seconds.
pub open spec fn spec_format_duration(s: nat) -> Seq<char> {
    let hours = s / 3600;
    let minutes = (s % 3600) / 60;
    let seconds = s % 60;
    if hours > 0 {
        spec_decimal(hours) + seq![':'] + spec_two_digits(minutes) + seq![':'] + spec_two_digits(
            seconds,
        )
    } else {
        spec_decimal(minutes) + seq![':'] + spec_two_digits(seconds)
    }
}

/// The one-character string for the decimal digit `d`.
fn digit_str(d: u64) -> (r: &'static str)
    requires
        d < 10,
    ensures
        r@ == seq![spec_digit_char(d as int)],
{
    proof {
        reveal_strlit("0");
        reveal_strlit("1");
        reveal_strlit("2");
        reveal_strlit("3");
        reveal_strlit("4");
        reveal_strlit("5");
        reveal_strlit("6");
        reveal_strlit("7");
        reveal_strlit("8");
        reveal_strlit("9");
    }
    let r: &'static str = match d {
        0 => "0",
        1 => "1",
        2 => "2",
        3 => "3",
        4 => "4",
        5 => "5",
        6 => "6",
        7 => "7",
        8 => "8",
        _ => "9",
    };
    proof {
        assert(r@ =~= seq![spec_digit_char(d as int)]);
    }
    r
}

/// Renders `n` in decimal, without leading zeros.
pub fn decimal_string(n: u64) -> (r: String)
    ensures
        r@ == spec_decimal(n as nat),
    decreases n,
{
    if n < 10 {
        String::from_str(digit_str(n))
    } else {
        let mut s = decimal_string(n / 10);
        s.append(digit_str(n % 10));
        s
    }
}

/// Renders `n` as exactly two digits, zero padded.
pub fn two_digit_string(n: u64) -> (r: String)
    requires
        n < 100,
    ensures
        r@ == spec_two_digits(n as nat),
{
    let mut s = String::from_str(digit_str(n / 10));
    s.append(digit_str(n % 10));
    s
}

/// Formats a duration of `total_secs` whole seconds as `M:SS`, or
/// `H:MM:SS` for durations of one hour or more.
pub fn format_duration(total_secs: u64) -> (r: String)
    ensures
        r@ == spec_format_duration(total_secs as nat),
{
    proof {
        reveal_strlit(":");
    }
    let hours = total_secs / 3600;
    let rem = total_secs % 3600;
    let minutes = rem / 60;
    let seconds = total_secs % 60;
    assert(minutes < 60) by (nonlinear_arith)
        requires
            rem == total_secs % 3600,
            minutes == rem / 60,
    {
    }
    assert(seconds < 60);
    assert(":"@ == seq![':']) by {
        assert(":"@ =~= seq![':']);
    }
    if hours > 0 {
        let mut s = decimal_string(hours);
        s.append(":");
        s.append(two_digit_string(minutes).as_str());
        s.append(":");
        s.append(two_digit_string(seconds).as_str());
        s
    } else {
        let mut s = decimal_string(minutes);
        s.append(":");
        s.append(two_digit_string(seconds).as_str());
        s
    }
}

} // verus!
