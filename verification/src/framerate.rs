//! Frame rates as integer thousandths of a frame per second ("milli-fps"),
//! parsed from probe output (either a plain decimal or an `N/D` rational) and
//! rendered back as plain decimal text for filter arguments.

use crate::strutil::{
    contains_seq, dec_val_scaled, dec_valid, digit_char_of, find_str, first_char, lemma_first_char,
    lemma_first_char_at, matches_at, parse_decimal_scaled, u64_chars, u64_to_string,
};
use vstd::prelude::*;

verus! {

/// Whether a decimal string is valid and its value at scale `k` fits a `u64`.
pub open spec fn dec_fits(s: Seq<char>, k: nat) -> bool {
    dec_valid(s) && dec_val_scaled(s, k) <= u64::MAX
}

/// The text before the first `/`.
pub open spec fn rational_num_part(s: Seq<char>) -> Seq<char> {
    s.take(first_char(s, '/'))
}

/// The text after the first `/`.
pub open spec fn rational_den_part(s: Seq<char>) -> Seq<char> {
    s.skip(first_char(s, '/') + 1)
}

/// Whether the string holds exactly one `/`.
pub open spec fn one_slash(s: Seq<char>) -> bool {
    first_char(s, '/') < s.len() && first_char(rational_den_part(s), '/') == rational_den_part(
        s,
    ).len()
}

/// Rate of a string that is read as a plain decimal: its value in milli-fps,
/// or zero when it is not a decimal or does not fit.
pub open spec fn plain_rate_milli(s: Seq<char>) -> nat {
    if dec_fits(s, 3) {
        dec_val_scaled(s, 3)
    } else {
        0
    }
}

/// Frame rate denoted by a rate string, in milli-fps. A string with exactly
/// one `/` is read as a rational: numerator and denominator are parsed as
/// decimals at micro precision, an unparsable or zero denominator falls back
/// to the plain reading, and an unparsable numerator yields zero. Any other
/// string is read as a plain decimal; unparsable text yields zero.
pub open spec fn frame_rate_milli(s: Seq<char>) -> nat {
    if one_slash(s) {
        let a = rational_num_part(s);
        let b = rational_den_part(s);
        if dec_fits(b, 6) && dec_val_scaled(b, 6) > 0 {
            if dec_fits(a, 6) {
                dec_val_scaled(a, 6) * 1000 / dec_val_scaled(b, 6)
            } else {
                0
            }
        } else {
            plain_rate_milli(s)
        }
    } else {
        plain_rate_milli(s)
    }
}

/// A natural number clamped into `u64`.
pub open spec fn sat_u64(n: nat) -> u64 {
    if n > u64::MAX {
        u64::MAX
    } else {
        n as u64
    }
}

/// Parse a frame-rate string (`"30000/1001"`, `"30"`, `"29.97"`) into
/// milli-fps. A zero denominator or unparsable text yields zero rather than
/// an error; a value beyond `u64` saturates.
pub fn parse_frame_rate(s: &str) -> (r: u64)
    ensures
        r == sat_u64(frame_rate_milli(s@)),
{
    let n = s.unicode_len();
    match find_str(s, "/") {
        Some(i) => {
            proof {
                reveal_strlit("/");
                assert(s@.subrange(i as int, i + 1)[0] == s@[i as int]);
                assert(s@[i as int] == '/');
                assert("/"@ =~= seq!['/']);
                assert forall|t: int| 0 <= t < i implies s@[t] != '/' by {
                    assert(!matches_at(s@, "/"@, t));
                    if s@[t] == '/' {
                        assert(s@.subrange(t, t + 1) =~= "/"@);
                        assert(matches_at(s@, "/"@, t));
                    }
                }
                lemma_first_char_at(s@, '/', i as int);
            }
            let num = s.substring_char(0, i);
            let den = s.substring_char(i + 1, n);
            proof {
                assert(num@ =~= rational_num_part(s@));
                assert(den@ =~= rational_den_part(s@));
            }
            let den_has_slash = crate::strutil::str_contains(den, "/");
            proof {
                lemma_first_char(den@, '/');
                if !contains_seq(den@, "/"@) {
                    if first_char(den@, '/') < den@.len() {
                        let f = first_char(den@, '/');
                        assert(den@.subrange(f, f + 1) =~= "/"@);
                        assert(matches_at(den@, "/"@, f));
                    }
                } else {
                    let w = choose|j: int| matches_at(den@, "/"@, j);
                    assert(den@.subrange(w, w + 1)[0] == den@[w]);
                    assert(first_char(den@, '/') < den@.len());
                }
            }
            if den_has_slash {
                parse_plain_rate(s)
            } else {
                let b6 = parse_decimal_scaled(den, 6);
                match b6 {
                    Some(b) if b > 0 => {
                        match parse_decimal_scaled(num, 6) {
                            Some(a) => {
                                let q: u128 = (a as u128) * 1000 / (b as u128);
                                if q > u64::MAX as u128 {
                                    u64::MAX
                                } else {
                                    q as u64
                                }
                            },
                            None => 0,
                        }
                    },
                    _ => parse_plain_rate(s),
                }
            }
        },
        None => {
            proof {
                lemma_first_char(s@, '/');
                if first_char(s@, '/') < s@.len() {
                    let f = first_char(s@, '/');
                    reveal_strlit("/");
                    assert(s@.subrange(f, f + 1) =~= "/"@);
                    assert(matches_at(s@, "/"@, f));
                }
            }
            parse_plain_rate(s)
        },
    }
}

/// Read the whole string as a plain decimal rate in milli-fps, yielding zero
/// when it is not one.
fn parse_plain_rate(s: &str) -> (r: u64)
    ensures
        r == plain_rate_milli(s@),
        r == sat_u64(plain_rate_milli(s@)),
{
    match parse_decimal_scaled(s, 3) {
        Some(v) => v,
        None => 0,
    }
}

/// Decimal rendering of a milli-fps value, as the rate-conversion filters
/// expect it: the integer part, then a fractional part only when it is
/// non-zero, with trailing zeros dropped (`60000` renders as `60`, `29970`
/// as `29.97`).
pub open spec fn fps_milli_chars(m: nat) -> Seq<char> {
    if m % 1000 == 0 {
        u64_chars(m / 1000)
    } else if m % 100 == 0 {
        u64_chars(m / 1000) + seq!['.', digit_char_of((m / 100) % 10)]
    } else if m % 10 == 0 {
        u64_chars(m / 1000) + seq!['.', digit_char_of((m / 100) % 10), digit_char_of((m / 10) % 10)]
    } else {
        u64_chars(m / 1000) + seq![
            '.',
            digit_char_of((m / 100) % 10),
            digit_char_of((m / 10) % 10),
            digit_char_of(m % 10),
        ]
    }
}

/// Render a milli-fps value as decimal text.
pub fn format_fps_milli(m: u64) -> (r: String)
    ensures
        r@ == fps_milli_chars(m as nat),
{
    let mut s = u64_to_string(m / 1000);
    if m % 1000 == 0 {
        return s;
    }
    proof {
        reveal_strlit(".");
    }
    s.append(".");
    s.append(crate::strutil::digit_str((m / 100) % 10));
    if m % 100 == 0 {
        proof {
            assert(s@ =~= fps_milli_chars(m as nat));
        }
        return s;
    }
    s.append(crate::strutil::digit_str((m / 10) % 10));
    if m % 10 == 0 {
        proof {
            assert(s@ =~= fps_milli_chars(m as nat));
        }
        return s;
    }
    s.append(crate::strutil::digit_str(m % 10));
    proof {
        assert(s@ =~= fps_milli_chars(m as nat));
    }
    s
}

} // verus!
