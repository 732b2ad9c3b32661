//! Formatting of the countdown for the render surface: the remaining seconds
//! as an `mm:ss` string, both halves zero-padded to two digits.

use vstd::prelude::*;

verus! {

/// The decimal digit character for `d`, which is expected to lie below ten.
pub open spec fn spec_digit_char(d: u32) -> char
    recommends
        d < 10,
{
    if d == 0 {
        '0'
    } else if d == 1 {
        '1'
    } else if d == 2 {
        '2'
    } else if d == 3 {
        '3'
    } else if d == 4 {
        '4'
    } else if d == 5 {
        '5'
    } else if d == 6 {
        '6'
    } else if d == 7 {
        '7'
    } else if d == 8 {
        '8'
    } else {
        '9'
    }
}

/// `seconds` rendered as `mm:ss`: two zero-padded digits of whole minutes, a
/// colon, two zero-padded digits of leftover seconds. Expects fewer than a
/// hundred minutes' worth of seconds.
pub open spec fn spec_format_time(seconds: u32) -> Seq<char>
    recommends
        seconds < 6000,
{
    seq![
        spec_digit_char((seconds / 60) / 10),
        spec_digit_char((seconds / 60) % 10),
        ':',
        spec_digit_char((seconds % 60) / 10),
        spec_digit_char((seconds % 60) % 10),
    ]
}

/// The one-character string for the digit `d`.
fn digit_str(d: u32) -> (s: &'static str)
    requires
        d < 10,
    ensures
        s@ == seq![spec_digit_char(d)],
{
    proof {
        reveal_strlit("0");
        reveal_strlit("1");
        reveal_strlit("2");
        reveal_strlit("3");
        reveal_strlit("4");
        reveal_strlit("5");
        reveal_strlit("6");
        reveal_strlit("7");
        reveal_strlit("8");
        reveal_strlit("9");
    }
    let s: &'static str = if d == 0 {
        "0"
    } else if d == 1 {
        "1"
    } else if d == 2 {
        "2"
    } else if d == 3 {
        "3"
    } else if d == 4 {
        "4"
    } else if d == 5 {
        "5"
    } else if d == 6 {
        "6"
    } else if d == 7 {
        "7"
    } else if d == 8 {
        "8"
    } else {
        "9"
    };
    proof {
        assert(s@ =~= seq![spec_digit_char(d)]);
    }
    s
}

/// Formats a countdown value as `mm:ss`, both halves zero-padded to two
/// digits. Takes fewer than a hundred minutes' worth of seconds, which every
/// phase's countdown stays within.
pub fn format_time(seconds: u32) -> (formatted: String)
    requires
        seconds < 6000,
    ensures
        formatted@ == spec_format_time(seconds),
{
    let minutes = seconds / 60;
    let secs = seconds % 60;
    let mut formatted = String::from_str(digit_str(minutes / 10));
    formatted.append(digit_str(minutes % 10));
    formatted.append(":");
    formatted.append(digit_str(secs / 10));
    formatted.append(digit_str(secs % 10));
    proof {
        reveal_strlit(":");
        assert(formatted@ =~= spec_format_time(seconds));
    }
    formatted
}

} // verus!
