//! Verified text primitives: decimal parsing and formatting, substring
//! search, and string equality, each pinned to a spec-level definition over
//! character sequences.

use vstd::prelude::*;

verus! {

/// Whether a character is a decimal digit.
pub open spec fn is_digit_char(c: char) -> bool {
    '0' <= c && c <= '9'
}

/// Numeric value of a decimal digit character.
pub open spec fn digit_char_val(c: char) -> nat {
    (c as u32 - '0' as u32) as nat
}

/// Whether every character of the sequence is a decimal digit.
pub open spec fn all_digits(s: Seq<char>) -> bool {
    forall|i: int| 0 <= i < s.len() ==> is_digit_char(#[trigger] s[i])
}

/// Value of a sequence of decimal digit characters, most significant first.
pub open spec fn digits_val(s: Seq<char>) -> nat
    decreases s.len(),
{
    if s.len() == 0 {
        0
    } else {
        digits_val(s.drop_last()) * 10 + digit_char_val(s.last())
    }
}

/// Extending a digit sequence on the right never decreases its value.
proof fn lemma_digits_val_prefix_le(s: Seq<char>, n: int)
    requires
        0 <= n <= s.len(),
    ensures
        digits_val(s.take(n)) <= digits_val(s),
    decreases s.len() - n,
{
    if n < s.len() {
        lemma_digits_val_prefix_le(s, n + 1);
        assert(s.take(n + 1).drop_last() =~= s.take(n));
        assert(digits_val(s.take(n)) <= digits_val(s.take(n + 1)));
    } else {
        assert(s.take(n) =~= s);
    }
}

/// Parse a non-empty, all-digit string into a `u64`.
/// Returns `None` exactly when the string is empty, holds a non-digit
/// character, or encodes a value above `u64::MAX`.
pub fn parse_u64(s: &str) -> (r: Option<u64>)
    ensures
        match r {
            Some(v) => s@.len() > 0 && all_digits(s@) && v == digits_val(s@),
            None => s@.len() == 0 || !all_digits(s@) || digits_val(s@) > u64::MAX,
        },
{
    let n = s.unicode_len();
    if n == 0 {
        return None;
    }
    let mut acc: u64 = 0;
    let mut i: usize = 0;
    while i < n
        invariant
            0 <= i <= n,
            n == s@.len(),
            all_digits(s@.take(i as int)),
            acc == digits_val(s@.take(i as int)),
        decreases n - i,
    {
        let c = s.get_char(i);
        let v = c as u32;
        if v < 48 || v > 57 {
            assert(!is_digit_char(s@[i as int]));
            return None;
        }
        let d = (v - 48) as u64;
        assert(is_digit_char(s@[i as int]) && d == digit_char_val(s@[i as int]));
        if acc > (u64::MAX - d) / 10 {
            proof {
                assert(acc * 10 + d > u64::MAX);
                assert(s@.take(i as int + 1).drop_last() =~= s@.take(i as int));
                assert(digits_val(s@.take(i as int + 1)) > u64::MAX);
                lemma_digits_val_prefix_le(s@, i as int + 1);
            }
            return None;
        }
        proof {
            assert(s@.take(i as int + 1).drop_last() =~= s@.take(i as int));
        }
        acc = acc * 10 + d;
        i = i + 1;
    }
    proof {
        assert(s@.take(n as int) =~= s@);
    }
    Some(acc)
}

/// Ten to the power `k`.
pub open spec fn pow10(k: nat) -> nat
    decreases k,
{
    if k == 0 {
        1
    } else {
        10 * pow10((k - 1) as nat)
    }
}

proof fn lemma_pow10_pos(k: nat)
    ensures
        pow10(k) >= 1,
    decreases k,
{
    if k > 0 {
        lemma_pow10_pos((k - 1) as nat);
    }
}

/// Index of the first occurrence of `c` in the sequence, or its length if
/// there is none.
pub open spec fn first_char(s: Seq<char>, c: char) -> int
    decreases s.len(),
{
    if s.len() == 0 {
        0
    } else if s[0] == c {
        0
    } else {
        1 + first_char(s.drop_first(), c)
    }
}

pub proof fn lemma_first_char(s: Seq<char>, c: char)
    ensures
        0 <= first_char(s, c) <= s.len(),
        forall|i: int| 0 <= i < first_char(s, c) ==> s[i] != c,
        first_char(s, c) < s.len() ==> s[first_char(s, c)] == c,
    decreases s.len(),
{
    if s.len() > 0 && s[0] != c {
        lemma_first_char(s.drop_first(), c);
        assert forall|i: int| 0 <= i < first_char(s, c) implies s[i] != c by {
            if i > 0 {
                assert(s.drop_first()[i - 1] == s[i]);
            }
        }
    }
}

/// If every character before `i` differs from `c` and `s[i]` is `c`, the
/// first occurrence is at `i`.
pub proof fn lemma_first_char_at(s: Seq<char>, c: char, i: int)
    requires
        0 <= i < s.len(),
        s[i] == c,
        forall|t: int| 0 <= t < i ==> s[t] != c,
    ensures
        first_char(s, c) == i,
    decreases i,
{
    if i > 0 {
        assert forall|t: int| 0 <= t < i - 1 implies s.drop_first()[t] != c by {
            assert(s.drop_first()[t] == s[t + 1]);
        }
        lemma_first_char_at(s.drop_first(), c, i - 1);
    }
}

/// Index of the first `.` in the sequence, or its length if there is none.
pub open spec fn first_dot(s: Seq<char>) -> int {
    first_char(s, '.')
}

proof fn lemma_first_dot(s: Seq<char>)
    ensures
        0 <= first_dot(s) <= s.len(),
        forall|i: int| 0 <= i < first_dot(s) ==> s[i] != '.',
        first_dot(s) < s.len() ==> s[first_dot(s)] == '.',
{
    lemma_first_char(s, '.');
}

/// If `a <= b / c` then `a * c <= b`, for positive `c`.
proof fn lemma_div_mul_le(a: int, b: int, c: int)
    requires
        0 <= a,
        0 <= b,
        0 < c,
        a <= b / c,
    ensures
        a * c <= b,
{
    vstd::arithmetic::div_mod::lemma_fundamental_div_mod(b, c);
    vstd::arithmetic::mul::lemma_mul_inequality(a, b / c, c);
    vstd::arithmetic::mul::lemma_mul_is_commutative(b / c, c);
}

/// If `a > b / c` then `a * c > b`, for positive `c`.
proof fn lemma_div_mul_gt(a: int, b: int, c: int)
    requires
        0 <= b,
        0 < c,
        a > b / c,
    ensures
        a * c > b,
{
    vstd::arithmetic::div_mod::lemma_fundamental_div_mod(b, c);
    vstd::arithmetic::mul::lemma_mul_inequality(b / c + 1, a, c);
    vstd::arithmetic::mul::lemma_mul_is_commutative(b / c, c);
    vstd::arithmetic::mul::lemma_mul_is_distributive_add_other_way(c, b / c, 1);
}

/// Digits before the first `.`.
pub open spec fn dec_int_part(s: Seq<char>) -> Seq<char> {
    s.take(first_dot(s))
}

/// Digits after the first `.`; empty if there is no `.`.
pub open spec fn dec_frac_part(s: Seq<char>) -> Seq<char> {
    if first_dot(s) == s.len() {
        Seq::empty()
    } else {
        s.skip(first_dot(s) + 1)
    }
}

/// Whether the sequence is a plain decimal number: at least one digit, at
/// most one `.`, and nothing else.
pub open spec fn dec_valid(s: Seq<char>) -> bool {
    &&& s.len() > 0
    &&& all_digits(dec_int_part(s))
    &&& all_digits(dec_frac_part(s))
    &&& dec_int_part(s).len() + dec_frac_part(s).len() > 0
}

/// The fractional digits scaled to `k` decimal places, truncating digits
/// beyond the `k`-th.
pub open spec fn frac_scaled(fr: Seq<char>, k: nat) -> nat {
    if fr.len() <= k {
        digits_val(fr) * pow10((k - fr.len()) as nat)
    } else {
        digits_val(fr.take(k as int))
    }
}

/// Value of a decimal string scaled by ten to the `k`: its integer part times
/// `pow10(k)` plus its fraction truncated to `k` digits.
pub open spec fn dec_val_scaled(s: Seq<char>, k: nat) -> nat {
    digits_val(dec_int_part(s)) * pow10(k) + frac_scaled(dec_frac_part(s), k)
}

/// Parse a plain decimal string (`"12"`, `"12.5"`, `".5"`, `"12."`) into a
/// fixed-point integer with `k` fractional decimal places, truncating any
/// fraction digits beyond the `k`-th. Returns `None` exactly when the string
/// is not such a decimal or the scaled value does not fit in a `u64`.
pub fn parse_decimal_scaled(s: &str, k: usize) -> (r: Option<u64>)
    requires
        k <= 6,
    ensures
        match r {
            Some(v) => dec_valid(s@) && v == dec_val_scaled(s@, k as nat),
            None => !dec_valid(s@) || dec_val_scaled(s@, k as nat) > u64::MAX,
        },
{
    let n = s.unicode_len();
    if n == 0 {
        return None;
    }
    proof {
        lemma_first_dot(s@);
    }
    // Scan the integer part up to the first dot or the end.
    let mut i: usize = 0;
    let mut int_acc: u64 = 0;
    let mut saw_dot = false;
    while i < n && !saw_dot
        invariant
            0 <= i <= n,
            n == s@.len(),
            !saw_dot ==> i <= first_dot(s@) && all_digits(s@.take(i as int)) && int_acc
                == digits_val(s@.take(i as int)),
            saw_dot ==> i == first_dot(s@) + 1 && i <= n && all_digits(s@.take(i as int - 1))
                && int_acc == digits_val(dec_int_part(s@)),
            first_dot(s@) <= s@.len(),
            forall|j: int| 0 <= j < first_dot(s@) ==> s@[j] != '.',
            first_dot(s@) < s@.len() ==> s@[first_dot(s@)] == '.',
        decreases n - i,
    {
        let c = s.get_char(i);
        if c == '.' {
            proof {
                // the scan has not passed the first dot, and found one here
                assert(i as int == first_dot(s@));
            }
            saw_dot = true;
            i = i + 1;
        } else {
            let v = c as u32;
            if v < 48 || v > 57 {
                proof {
                    // a non-digit, non-dot character lies in the integer part
                    assert(i < first_dot(s@) || i == first_dot(s@));
                    assert(i < first_dot(s@));
                    assert(!is_digit_char(dec_int_part(s@)[i as int]));
                }
                return None;
            }
            let d = (v - 48) as u64;
            proof {
                assert(is_digit_char(s@[i as int]) && d == digit_char_val(s@[i as int]));
                assert(s@.take(i as int + 1).drop_last() =~= s@.take(i as int));
            }
            if int_acc > (u64::MAX - d) / 10 {
                proof {
                    lemma_div_mul_gt(int_acc as int, u64::MAX - d, 10);
                    assert(digits_val(s@.take(i as int + 1)) > u64::MAX);
                    assert(i + 1 <= first_dot(s@));
                    lemma_digits_val_prefix_le(dec_int_part(s@), i as int + 1);
                    assert(dec_int_part(s@).take(i as int + 1) =~= s@.take(i as int + 1));
                    assert(digits_val(dec_int_part(s@)) > u64::MAX);
                    lemma_pow10_pos(k as nat);
                    vstd::arithmetic::mul::lemma_mul_inequality(
                        1,
                        pow10(k as nat) as int,
                        digits_val(dec_int_part(s@)) as int,
                    );
                    vstd::arithmetic::mul::lemma_mul_is_commutative(
                        pow10(k as nat) as int,
                        digits_val(dec_int_part(s@)) as int,
                    );
                    assert(dec_val_scaled(s@, k as nat) > u64::MAX);
                }
                return None;
            }
            int_acc = int_acc * 10 + d;
            i = i + 1;
            proof {
                if i == first_dot(s@) + 1 {
                    // cannot happen: position first_dot holds '.', not a digit
                    assert(s@[first_dot(s@)] == '.');
                    assert(is_digit_char(s@[i as int - 1]));
                    assert(false);
                }
            }
        }
    }
    proof {
        if !saw_dot {
            assert(i == n);
            assert(first_dot(s@) == s@.len());
            assert(dec_int_part(s@) =~= s@.take(i as int));
            assert(dec_frac_part(s@) =~= Seq::<char>::empty());
        } else {
            assert(dec_int_part(s@) =~= s@.take(first_dot(s@)));
        }
    }
    let int_len = if saw_dot {
        i - 1
    } else {
        i
    };
    // Scan the fractional part, keeping only the first `k` digits.
    let mut frac_acc: u64 = 0;
    let mut kept: usize = 0;
    let frac_start = i;
    let mut j: usize = i;
    while j < n
        invariant
            frac_start <= j <= n,
            n == s@.len(),
            saw_dot ==> frac_start == first_dot(s@) + 1,
            !saw_dot ==> frac_start == n,
            kept <= k <= 6,
            kept == if j - frac_start <= k {
                j - frac_start
            } else {
                k as int
            },
            all_digits(s@.subrange(frac_start as int, j as int)),
            frac_acc == digits_val(s@.subrange(frac_start as int, frac_start + kept)),
            frac_acc < pow10(kept as nat),
            first_dot(s@) <= s@.len(),
        decreases n - j,
    {
        let c = s.get_char(j);
        let v = c as u32;
        if v < 48 || v > 57 {
            proof {
                assert(!is_digit_char(s@[j as int]));
                if saw_dot {
                    assert(dec_frac_part(s@)[j - frac_start] == s@[j as int]);
                    assert(!all_digits(dec_frac_part(s@)));
                }
            }
            return None;
        }
        let d = (v - 48) as u64;
        proof {
            assert(is_digit_char(s@[j as int]) && d == digit_char_val(s@[j as int]));
            assert(s@.subrange(frac_start as int, j as int + 1).drop_last() =~= s@.subrange(
                frac_start as int,
                j as int,
            ));
        }
        if kept < k {
            proof {
                assert(s@.subrange(frac_start as int, frac_start + kept + 1).drop_last()
                    =~= s@.subrange(frac_start as int, frac_start + kept as int));
                lemma_pow10_pos((k - kept - 1) as nat);
                // frac_acc * 10 + d < pow10(kept) * 10 = pow10(kept + 1) <= pow10(6)
                assert(pow10(kept as nat + 1) == 10 * pow10(kept as nat));
                lemma_pow10_le(kept as nat + 1, 6);
                lemma_pow10_small();
            }
            frac_acc = frac_acc * 10 + d;
            kept = kept + 1;
        }
        j = j + 1;
    }
    // The whole string has been validated.
    let total_digits = int_len + (n - frac_start);
    if total_digits == 0 {
        proof {
            assert(dec_int_part(s@).len() == 0);
            if saw_dot {
                assert(dec_frac_part(s@).len() == n - frac_start);
            }
        }
        return None;
    }
    proof {
        if saw_dot {
            assert(dec_frac_part(s@) =~= s@.subrange(frac_start as int, n as int));
        }
        assert(dec_valid(s@));
    }
    // Scale the fraction out to exactly k digits.
    let pad = k - kept;
    let scale = pow10_u64(pad);
    proof {
        lemma_frac_scaled(dec_frac_part(s@), k as nat, kept as nat);
        assert(dec_frac_part(s@).take(kept as int) =~= s@.subrange(
            frac_start as int,
            frac_start + kept,
        ));
        lemma_pow10_small();
        lemma_pow10_le(kept as nat, 6);
        lemma_pow10_le(k as nat, 6);
        lemma_pow10_mul(kept as nat, pad as nat);
        // frac_acc * scale <= (pow10(kept) - 1) * pow10(pad) < pow10(k)
        vstd::arithmetic::mul::lemma_mul_inequality(
            frac_acc as int,
            pow10(kept as nat) as int - 1,
            pow10(pad as nat) as int,
        );
        vstd::arithmetic::mul::lemma_mul_is_distributive_sub_other_way(
            pow10(pad as nat) as int,
            pow10(kept as nat) as int,
            1,
        );
        vstd::arithmetic::mul::lemma_mul_is_commutative(
            pow10(kept as nat) as int,
            pow10(pad as nat) as int,
        );
        assert(frac_acc * pow10(pad as nat) <= pow10(k as nat) - pow10(pad as nat));
    }
    let frac_scaled_v: u64 = frac_acc * scale;
    assert(frac_scaled_v == frac_scaled(dec_frac_part(s@), k as nat));
    // Combine integer and fractional parts, watching for overflow.
    let kscale = pow10_u64(k);
    proof {
        lemma_pow10_pos(k as nat);
    }
    if int_acc > (u64::MAX - frac_scaled_v) / kscale {
        proof {
            lemma_div_mul_gt(int_acc as int, u64::MAX - frac_scaled_v, kscale as int);
            assert(int_acc * kscale + frac_scaled_v > u64::MAX);
        }
        return None;
    }
    proof {
        lemma_div_mul_le(int_acc as int, u64::MAX - frac_scaled_v, kscale as int);
        assert(int_acc * kscale + frac_scaled_v <= u64::MAX);
    }
    Some(int_acc * kscale + frac_scaled_v)
}

/// The first seven powers of ten, written out.
proof fn lemma_pow10_small()
    ensures
        pow10(0) == 1,
        pow10(1) == 10,
        pow10(2) == 100,
        pow10(3) == 1000,
        pow10(4) == 10000,
        pow10(5) == 100000,
        pow10(6) == 1000000,
{
    assert(pow10(0) == 1);
    assert(pow10(1) == 10);
    assert(pow10(2) == 100);
    assert(pow10(3) == 1000);
    assert(pow10(4) == 10000);
    assert(pow10(5) == 100000);
    assert(pow10(6) == 1000000);
}

proof fn lemma_pow10_le(a: nat, b: nat)
    requires
        a <= b,
    ensures
        pow10(a) <= pow10(b),
    decreases b,
{
    if a < b {
        lemma_pow10_le(a, (b - 1) as nat);
        lemma_pow10_pos((b - 1) as nat);
    }
}

proof fn lemma_pow10_mul(a: nat, b: nat)
    ensures
        pow10(a) * pow10(b) == pow10(a + b),
    decreases a,
{
    if a == 0 {
        assert(pow10(0) == 1);
    } else {
        lemma_pow10_mul((a - 1) as nat, b);
        assert(pow10(a) == 10 * pow10((a - 1) as nat));
        assert(pow10(a + b) == 10 * pow10((a + b - 1) as nat));
        assert(pow10(a) * pow10(b) == 10 * (pow10((a - 1) as nat) * pow10(b)))
            by (nonlinear_arith)
            requires
                pow10(a) == 10 * pow10((a - 1) as nat),
        ;
    }
}

/// `frac_scaled` of a fraction whose digits beyond the `m`-th are dropped:
/// keeping `m = min(k, len)` digits and padding with zeros gives the value.
proof fn lemma_frac_scaled(fr: Seq<char>, k: nat, m: nat)
    requires
        m == if fr.len() <= k {
            fr.len()
        } else {
            k
        },
    ensures
        frac_scaled(fr, k) == digits_val(fr.take(m as int)) * pow10((k - m) as nat),
{
    if fr.len() <= k {
        assert(fr.take(m as int) =~= fr);
    } else {
        assert(pow10((k - m) as nat) == 1);
        vstd::arithmetic::mul::lemma_mul_basics(digits_val(fr.take(m as int)) as int);
    }
}

/// Ten to the power `k`, as a machine integer.
pub fn pow10_u64(k: usize) -> (r: u64)
    requires
        k <= 6,
    ensures
        r == pow10(k as nat),
{
    proof {
        lemma_pow10_small();
    }
    if k == 0 {
        1
    } else if k == 1 {
        10
    } else if k == 2 {
        100
    } else if k == 3 {
        1000
    } else if k == 4 {
        10000
    } else if k == 5 {
        100000
    } else {
        1000000
    }
}

/// If `x <= y * d + d - 1` then `x / d <= y`, for positive `d`.
pub proof fn lemma_div_le(x: int, d: int, y: int)
    requires
        0 <= x,
        0 < d,
        0 <= y,
        x <= y * d + d - 1,
    ensures
        x / d <= y,
{
    if x / d > y {
        vstd::arithmetic::div_mod::lemma_fundamental_div_mod(x, d);
        vstd::arithmetic::mul::lemma_mul_inequality(y + 1, x / d, d);
        vstd::arithmetic::mul::lemma_mul_is_commutative(x / d, d);
        vstd::arithmetic::mul::lemma_mul_is_distributive_add_other_way(d, y, 1);
        assert(false);
    }
}

/// The quotient times the divisor does not exceed the dividend.
pub proof fn lemma_div_mul_le_exact(x: int, d: int)
    requires
        0 <= x,
        0 < d,
    ensures
        (x / d) * d <= x,
{
    vstd::arithmetic::div_mod::lemma_fundamental_div_mod(x, d);
    vstd::arithmetic::mul::lemma_mul_is_commutative(x / d, d);
}

/// Whether the needle `n` occurs in the haystack `h` starting at index `i`.
pub open spec fn matches_at(h: Seq<char>, n: Seq<char>, i: int) -> bool {
    0 <= i && i + n.len() <= h.len() && h.subrange(i, i + n.len()) == n
}

/// Whether the needle `n` occurs anywhere in the haystack `h`.
pub open spec fn contains_seq(h: Seq<char>, n: Seq<char>) -> bool {
    exists|i: int| matches_at(h, n, i)
}

/// Whether `pat` occurs in `s` at position `i`.
pub fn str_matches_at(s: &str, i: usize, pat: &str) -> (r: bool)
    requires
        i + pat@.len() <= s@.len(),
    ensures
        r == matches_at(s@, pat@, i as int),
{
    let n = s.unicode_len();
    let m = pat.unicode_len();
    let mut j: usize = 0;
    while j < m
        invariant
            0 <= j <= m,
            m == pat@.len(),
            n == s@.len(),
            i + m <= n,
            forall|t: int| 0 <= t < j ==> s@[i + t] == pat@[t],
        decreases m - j,
    {
        if s.get_char(i + j) != pat.get_char(j) {
            proof {
                assert(s@.subrange(i as int, i + m)[j as int] == s@[i + j]);
                assert(s@.subrange(i as int, i + m) != pat@);
            }
            return false;
        }
        j = j + 1;
    }
    proof {
        assert(s@.subrange(i as int, i + m) =~= pat@);
    }
    true
}

/// Index of the first occurrence of `pat` in `s`, if any.
pub fn find_str(s: &str, pat: &str) -> (r: Option<usize>)
    ensures
        match r {
            Some(i) => matches_at(s@, pat@, i as int) && forall|j: int|
                0 <= j < i ==> !matches_at(s@, pat@, j),
            None => !contains_seq(s@, pat@),
        },
{
    let n = s.unicode_len();
    let m = pat.unicode_len();
    if m > n {
        return None;
    }
    let mut i: usize = 0;
    loop
        invariant
            0 <= i <= n - m,
            m <= n,
            n == s@.len(),
            m == pat@.len(),
            forall|j: int| 0 <= j < i ==> !matches_at(s@, pat@, j),
        decreases n - m - i,
    {
        if str_matches_at(s, i, pat) {
            return Some(i);
        }
        if i >= n - m {
            proof {
                assert(forall|j: int| 0 <= j <= i ==> !matches_at(s@, pat@, j));
                assert forall|j: int| !matches_at(s@, pat@, j) by {
                    if j > i {
                        assert(j + m > n);
                    }
                }
            }
            return None;
        }
        i = i + 1;
    }
}

/// Whether `pat` occurs anywhere in `s`.
pub fn str_contains(s: &str, pat: &str) -> (r: bool)
    ensures
        r == contains_seq(s@, pat@),
{
    find_str(s, pat).is_some()
}

/// Whether two string slices hold the same characters.
pub fn str_eq(a: &str, b: &str) -> (r: bool)
    ensures
        r == (a@ == b@),
{
    let n = a.unicode_len();
    if n != b.unicode_len() {
        return false;
    }
    let mut i: usize = 0;
    while i < n
        invariant
            0 <= i <= n,
            n == a@.len() == b@.len(),
            forall|t: int| 0 <= t < i ==> a@[t] == b@[t],
        decreases n - i,
    {
        if a.get_char(i) != b.get_char(i) {
            return false;
        }
        i = i + 1;
    }
    proof {
        assert(a@ =~= b@);
    }
    true
}

/// The character a decimal digit value denotes.
pub open spec fn digit_char_of(d: nat) -> char {
    if d == 0 {
        '0'
    } else if d == 1 {
        '1'
    } else if d == 2 {
        '2'
    } else if d == 3 {
        '3'
    } else if d == 4 {
        '4'
    } else if d == 5 {
        '5'
    } else if d == 6 {
        '6'
    } else if d == 7 {
        '7'
    } else if d == 8 {
        '8'
    } else {
        '9'
    }
}

/// Decimal rendering of a number, most significant digit first, with no
/// leading zeros (a single `'0'` for zero).
pub open spec fn u64_chars(n: nat) -> Seq<char>
    decreases n,
{
    if n < 10 {
        seq![digit_char_of(n)]
    } else {
        u64_chars(n / 10).push(digit_char_of(n % 10))
    }
}

/// A one-character string for a decimal digit.
pub fn digit_str(d: u64) -> (r: &'static str)
    requires
        d < 10,
    ensures
        r@ =~= seq![digit_char_of(d as nat)],
{
    proof {
        reveal_strlit("0");
        reveal_strlit("1");
        reveal_strlit("2");
        reveal_strlit("3");
        reveal_strlit("4");
        reveal_strlit("5");
        reveal_strlit("6");
        reveal_strlit("7");
        reveal_strlit("8");
        reveal_strlit("9");
    }
    if d == 0 {
        "0"
    } else if d == 1 {
        "1"
    } else if d == 2 {
        "2"
    } else if d == 3 {
        "3"
    } else if d == 4 {
        "4"
    } else if d == 5 {
        "5"
    } else if d == 6 {
        "6"
    } else if d == 7 {
        "7"
    } else if d == 8 {
        "8"
    } else {
        "9"
    }
}

/// Render a number in decimal.
pub fn u64_to_string(n: u64) -> (r: String)
    ensures
        r@ == u64_chars(n as nat),
    decreases n,
{
    if n < 10 {
        String::from_str(digit_str(n))
    } else {
        let mut s = u64_to_string(n / 10);
        s.append(digit_str(n % 10));
        proof {
            assert(s@ =~= u64_chars((n / 10) as nat).push(digit_char_of((n % 10) as nat)));
        }
        s
    }
}

/// Decimal rendering of a possibly negative number.
pub open spec fn int_chars(n: int) -> Seq<char> {
    if n < 0 {
        seq!['-'] + u64_chars((-n) as nat)
    } else {
        u64_chars(n as nat)
    }
}

/// Render a signed number in decimal.
pub fn i64_to_string(n: i64) -> (r: String)
    ensures
        r@ == int_chars(n as int),
{
    if n >= 0 {
        u64_to_string(n as u64)
    } else {
        proof {
            reveal_strlit("-");
        }
        let mut s = String::from_str("-");
        let mag: u64 = if n == i64::MIN {
            9223372036854775808u64
        } else {
            (-n) as u64
        };
        let d = u64_to_string(mag);
        s.append(d.as_str());
        proof {
            assert(s@ =~= seq!['-'] + u64_chars(mag as nat));
        }
        s
    }
}

/// Decimal rendering padded on the left with `'0'` to at least two digits.
pub open spec fn padded2_chars(n: nat) -> Seq<char> {
    if n < 10 {
        seq!['0'] + u64_chars(n)
    } else {
        u64_chars(n)
    }
}

/// Render a number in decimal, zero-padded to at least two digits.
pub fn u64_to_string_pad2(n: u64) -> (r: String)
    ensures
        r@ == padded2_chars(n as nat),
{
    if n < 10 {
        proof {
            reveal_strlit("0");
        }
        let mut s = String::from_str("0");
        let d = u64_to_string(n);
        s.append(d.as_str());
        proof {
            assert(s@ =~= seq!['0'] + u64_chars(n as nat));
        }
        s
    } else {
        u64_to_string(n)
    }
}

/// Index of the first newline in the sequence, or its length if none.
pub open spec fn first_newline(s: Seq<char>) -> int
    decreases s.len(),
{
    if s.len() == 0 {
        0
    } else if s[0] == '\n' {
        0
    } else {
        1 + first_newline(s.drop_first())
    }
}

proof fn lemma_first_newline(s: Seq<char>)
    ensures
        0 <= first_newline(s) <= s.len(),
    decreases s.len(),
{
    if s.len() > 0 && s[0] != '\n' {
        lemma_first_newline(s.drop_first());
    }
}

/// Position of the first newline in `s`, or its length if there is none.
pub fn newline_pos(s: &str) -> (r: usize)
    ensures
        r as int == first_newline(s@),
{
    let n = s.unicode_len();
    proof {
        lemma_first_newline(s@);
    }
    let mut i: usize = 0;
    while i < n
        invariant
            0 <= i <= n,
            n == s@.len(),
            i <= first_newline(s@) <= n,
            forall|t: int| 0 <= t < i ==> s@[t] != '\n',
        decreases n - i,
    {
        let c = s.get_char(i);
        if c == '\n' {
            proof {
                lemma_first_newline_at(s@, i as int);
            }
            return i;
        }
        proof {
            lemma_first_newline_past(s@, i as int);
        }
        i = i + 1;
    }
    i
}

/// The text before the first newline, as a fresh string.
pub fn first_line(s: &str) -> (r: String)
    ensures
        r@ == s@.take(first_newline(s@)),
{
    let i = newline_pos(s);
    proof {
        lemma_first_newline(s@);
    }
    let head = s.substring_char(0, i);
    String::from_str(head)
}

/// If every character before `i` is not a newline and `s[i]` is one, the
/// first newline is at `i`.
proof fn lemma_first_newline_at(s: Seq<char>, i: int)
    requires
        0 <= i < s.len(),
        s[i] == '\n',
        forall|t: int| 0 <= t < i ==> s[t] != '\n',
    ensures
        first_newline(s) == i,
    decreases i,
{
    if i > 0 {
        assert forall|t: int| 0 <= t < i - 1 implies s.drop_first()[t] != '\n' by {
            assert(s.drop_first()[t] == s[t + 1]);
        }
        lemma_first_newline_at(s.drop_first(), i - 1);
    }
}

/// If every character up to and including `i` is not a newline, the first
/// newline lies beyond `i`.
proof fn lemma_first_newline_past(s: Seq<char>, i: int)
    requires
        0 <= i < s.len(),
        forall|t: int| 0 <= t <= i ==> s[t] != '\n',
    ensures
        first_newline(s) > i,
    decreases i,
{
    if i > 0 {
        assert forall|t: int| 0 <= t <= i - 1 implies s.drop_first()[t] != '\n' by {
            assert(s.drop_first()[t] == s[t + 1]);
        }
        lemma_first_newline_past(s.drop_first(), i - 1);
    } else {
        lemma_first_newline(s.drop_first());
    }
}

} // verus!
