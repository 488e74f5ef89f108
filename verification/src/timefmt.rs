//! Rendering of elapsed media time and durations, carried as integer
//! microseconds, into the fixed texts the progress surface and result
//! messages use.

use crate::strutil::{digit_char_of, padded2_chars, u64_chars, u64_to_string, u64_to_string_pad2};
use vstd::prelude::*;

verus! {

/// `HH:MM:SS.cc` rendering of a time in microseconds: hours, minutes,
/// seconds and centiseconds, each zero-padded to two digits (hours may take
/// more when they do not fit in two).
pub open spec fn time_chars(us: nat) -> Seq<char> {
    padded2_chars(us / 3_600_000_000) + seq![':'] + padded2_chars((us / 60_000_000) % 60) + seq![
        ':',
    ] + padded2_chars((us / 1_000_000) % 60) + seq!['.'] + padded2_chars((us / 10_000) % 100)
}

/// Render a time in microseconds as `HH:MM:SS.cc`.
pub fn format_time(us: u64) -> (r: String)
    ensures
        r@ == time_chars(us as nat),
{
    proof {
        reveal_strlit(":");
        reveal_strlit(".");
    }
    let mut s = u64_to_string_pad2(us / 3_600_000_000);
    s.append(":");
    let minutes = u64_to_string_pad2((us / 60_000_000) % 60);
    s.append(minutes.as_str());
    s.append(":");
    let seconds = u64_to_string_pad2((us / 1_000_000) % 60);
    s.append(seconds.as_str());
    s.append(".");
    let centis = u64_to_string_pad2((us / 10_000) % 100);
    s.append(centis.as_str());
    proof {
        assert(s@ =~= time_chars(us as nat));
    }
    s
}

/// Decimal seconds with exactly two fractional digits (`"10.05"`), truncating
/// below a centisecond.
pub open spec fn seconds2_chars(us: nat) -> Seq<char> {
    u64_chars(us / 1_000_000) + seq!['.'] + padded2_chars((us / 10_000) % 100)
}

/// Render a duration in microseconds as decimal seconds with two fractional
/// digits.
pub fn format_seconds2(us: u64) -> (r: String)
    ensures
        r@ == seconds2_chars(us as nat),
{
    proof {
        reveal_strlit(".");
    }
    let mut s = u64_to_string(us / 1_000_000);
    s.append(".");
    let centis = u64_to_string_pad2((us / 10_000) % 100);
    s.append(centis.as_str());
    proof {
        assert(s@ =~= seconds2_chars(us as nat));
    }
    s
}

/// Decimal rendering padded on the left with `'0'` to at least three digits.
pub open spec fn padded3_chars(n: nat) -> Seq<char> {
    if n < 10 {
        seq!['0', '0', digit_char_of(n)]
    } else if n < 100 {
        seq!['0'] + u64_chars(n)
    } else {
        u64_chars(n)
    }
}

/// Decimal seconds with exactly three fractional digits (`"0.050"`),
/// truncating below a millisecond.
pub open spec fn seconds3_chars(us: nat) -> Seq<char> {
    u64_chars(us / 1_000_000) + seq!['.'] + padded3_chars((us / 1_000) % 1000)
}

/// Render a duration in microseconds as decimal seconds with three
/// fractional digits.
pub fn format_seconds3(us: u64) -> (r: String)
    ensures
        r@ == seconds3_chars(us as nat),
{
    proof {
        reveal_strlit(".");
        reveal_strlit("0");
        reveal_strlit("00");
    }
    let mut s = u64_to_string(us / 1_000_000);
    s.append(".");
    let frac = (us / 1_000) % 1000;
    if frac < 10 {
        s.append("00");
        s.append(crate::strutil::digit_str(frac));
        proof {
            assert("00"@ =~= seq!['0', '0']);
            assert(s@ =~= seconds3_chars(us as nat));
        }
    } else if frac < 100 {
        s.append("0");
        let d = u64_to_string(frac);
        s.append(d.as_str());
        proof {
            assert(s@ =~= seconds3_chars(us as nat));
        }
    } else {
        let d = u64_to_string(frac);
        s.append(d.as_str());
        proof {
            assert(s@ =~= seconds3_chars(us as nat));
        }
    }
    s
}

} // verus!
