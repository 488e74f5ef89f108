//! The progress parser: a stateless per-line field extractor plus the
//! accumulator that carries the last-seen value of every field across lines
//! of one job, and the percentage arithmetic for progress samples.

use crate::strutil::{
    all_digits, contains_seq, digits_val, find_str, is_digit_char, matches_at,
    parse_decimal_scaled,
};
use crate::strutil;
use crate::framerate::dec_fits;
use vstd::prelude::*;

verus! {

/// The smallest index at which the needle occurs in the haystack; meaningful
/// only when it occurs at all.
pub open spec fn first_occurrence(h: Seq<char>, n: Seq<char>) -> int {
    choose|i: int|
        matches_at(h, n, i) && (forall|j: int| 0 <= j < i ==> !matches_at(h, n, j))
}

/// A position that matches and is preceded by no match is the first
/// occurrence.
pub proof fn lemma_first_occurrence(h: Seq<char>, n: Seq<char>, i: int)
    requires
        matches_at(h, n, i),
        forall|j: int| 0 <= j < i ==> !matches_at(h, n, j),
    ensures
        first_occurrence(h, n) == i,
{
    let w = first_occurrence(h, n);
    assert(matches_at(h, n, w) && (forall|j: int| 0 <= j < w ==> !matches_at(h, n, j)));
    if w < i {
        assert(!matches_at(h, n, w));
    }
    if i < w {
        assert(!matches_at(h, n, i));
    }
}

/// End of the run of decimal digits starting at `i`: the first index at or
/// after `i` holding no digit.
pub open spec fn digit_run_end(s: Seq<char>, i: int) -> int
    decreases s.len() - i when 0 <= i <= s.len()
{
    if i < s.len() && is_digit_char(s[i]) {
        digit_run_end(s, i + 1)
    } else {
        i
    }
}

proof fn lemma_digit_run_end(s: Seq<char>, i: int)
    requires
        0 <= i <= s.len(),
    ensures
        i <= digit_run_end(s, i) <= s.len(),
        all_digits(s.subrange(i, digit_run_end(s, i))),
        digit_run_end(s, i) < s.len() ==> !is_digit_char(s[digit_run_end(s, i)]),
    decreases s.len() - i,
{
    if i < s.len() && is_digit_char(s[i]) {
        lemma_digit_run_end(s, i + 1);
        let e = digit_run_end(s, i);
        assert forall|t: int| 0 <= t < e - i implies is_digit_char(
            #[trigger] s.subrange(i, e)[t],
        ) by {
            if t > 0 {
                assert(s.subrange(i + 1, e)[t - 1] == s.subrange(i, e)[t]);
            }
        }
    }
}

/// Whether a decimal character (digit or `.`) stands at `i`.
pub open spec fn is_dec_char(c: char) -> bool {
    is_digit_char(c) || c == '.'
}

/// End of the run of digit-or-dot characters starting at `i`.
pub open spec fn dec_run_end(s: Seq<char>, i: int) -> int
    decreases s.len() - i when 0 <= i <= s.len()
{
    if i < s.len() && is_dec_char(s[i]) {
        dec_run_end(s, i + 1)
    } else {
        i
    }
}

proof fn lemma_dec_run_end(s: Seq<char>, i: int)
    requires
        0 <= i <= s.len(),
    ensures
        i <= dec_run_end(s, i) <= s.len(),
    decreases s.len() - i,
{
    if i < s.len() && is_dec_char(s[i]) {
        lemma_dec_run_end(s, i + 1);
    }
}

/// Whether a speed character (digit, `.` or `x`) stands at `i`.
pub open spec fn is_speed_char(c: char) -> bool {
    is_digit_char(c) || c == '.' || c == 'x'
}

/// End of the run of speed characters starting at `i`.
pub open spec fn speed_run_end(s: Seq<char>, i: int) -> int
    decreases s.len() - i when 0 <= i <= s.len()
{
    if i < s.len() && is_speed_char(s[i]) {
        speed_run_end(s, i + 1)
    } else {
        i
    }
}

proof fn lemma_speed_run_end(s: Seq<char>, i: int)
    requires
        0 <= i <= s.len(),
    ensures
        i <= speed_run_end(s, i) <= s.len(),
    decreases s.len() - i,
{
    if i < s.len() && is_speed_char(s[i]) {
        lemma_speed_run_end(s, i + 1);
    }
}

/// The digit run captured after the first occurrence of `pat`, if `pat`
/// occurs and at least one digit follows it directly.
pub open spec fn u64_field(s: Seq<char>, pat: Seq<char>) -> Option<Seq<char>> {
    if contains_seq(s, pat) {
        let start = first_occurrence(s, pat) + pat.len();
        let end = digit_run_end(s, start);
        if end > start {
            Some(s.subrange(start, end))
        } else {
            None
        }
    } else {
        None
    }
}

/// New value of an integer field after one line: the captured digit run if
/// there is one (zero when its value does not fit in a `u64`, as an
/// unparsable capture), else the old value.
pub open spec fn u64_field_update(s: Seq<char>, pat: Seq<char>, old: u64) -> u64 {
    match u64_field(s, pat) {
        Some(run) => if digits_val(run) > u64::MAX {
            0u64
        } else {
            digits_val(run) as u64
        },
        None => old,
    }
}

/// The digit-or-dot run captured after the first `fps=`, if any and
/// non-empty.
pub open spec fn fps_field(s: Seq<char>) -> Option<Seq<char>> {
    if contains_seq(s, "fps="@) {
        let start = first_occurrence(s, "fps="@) + 4;
        let end = dec_run_end(s, start);
        if end > start {
            Some(s.subrange(start, end))
        } else {
            None
        }
    } else {
        None
    }
}

/// New value of the rate field after one line: the captured run read as a
/// decimal in thousandths (zero when it is not a decimal or does not fit),
/// else the old value.
pub open spec fn fps_field_update(s: Seq<char>, old: u64) -> u64 {
    match fps_field(s) {
        Some(run) => if dec_fits(run, 3) {
            crate::strutil::dec_val_scaled(run, 3) as u64
        } else {
            0u64
        },
        None => old,
    }
}

/// The speed token captured after the first `speed=`: a non-empty run of
/// digits, dots and `x`.
pub open spec fn speed_field(s: Seq<char>) -> Option<Seq<char>> {
    if contains_seq(s, "speed="@) {
        let start = first_occurrence(s, "speed="@) + 6;
        let end = speed_run_end(s, start);
        if end > start {
            Some(s.subrange(start, end))
        } else {
            None
        }
    } else {
        None
    }
}

/// New value of the speed field after one line.
pub open spec fn speed_field_update(s: Seq<char>, old: Seq<char>) -> Seq<char> {
    match speed_field(s) {
        Some(run) => run,
        None => old,
    }
}

/// Find the first occurrence of `pat` in `s` and return the index just past
/// it, pinned to the spec-level first occurrence.
fn find_field_start(s: &str, pat: &str) -> (r: Option<usize>)
    requires
        pat@.len() >= 1,
    ensures
        match r {
            Some(start) => contains_seq(s@, pat@) && start == first_occurrence(s@, pat@)
                + pat@.len() && pat@.len() <= start <= s@.len(),
            None => !contains_seq(s@, pat@),
        },
{
    let n = s.unicode_len();
    match find_str(s, pat) {
        Some(i) => {
            proof {
                lemma_first_occurrence(s@, pat@, i as int);
                assert(i + pat@.len() <= n);
            }
            Some(i + pat.unicode_len())
        },
        None => None,
    }
}

/// Scan the run of digit-or-dot characters starting at `start`, returning
/// its end.
fn scan_dec_run(s: &str, start: usize) -> (r: usize)
    requires
        start <= s@.len(),
    ensures
        r == dec_run_end(s@, start as int),
        start <= r <= s@.len(),
{
    proof {
        lemma_dec_run_end(s@, start as int);
    }
    let n = s.unicode_len();
    let mut j = start;
    while j < n
        invariant
            start <= j <= n,
            n == s@.len(),
            dec_run_end(s@, start as int) == dec_run_end(s@, j as int),
            dec_run_end(s@, j as int) >= j,
        decreases n - j,
    {
        let c = s.get_char(j);
        let v = c as u32;
        if (v < 48 || v > 57) && c != '.' {
            proof {
                assert(!is_dec_char(s@[j as int]));
                assert(dec_run_end(s@, j as int) == j);
            }
            return j;
        }
        proof {
            assert(is_dec_char(s@[j as int]));
            assert(dec_run_end(s@, j as int) == dec_run_end(s@, j as int + 1));
            lemma_dec_run_end(s@, j as int + 1);
        }
        j = j + 1;
    }
    proof {
        assert(dec_run_end(s@, j as int) == j);
    }
    j
}

/// Scan the run of digit, dot or `x` characters starting at `start`,
/// returning its end.
fn scan_speed_run(s: &str, start: usize) -> (r: usize)
    requires
        start <= s@.len(),
    ensures
        r == speed_run_end(s@, start as int),
        start <= r <= s@.len(),
{
    proof {
        lemma_speed_run_end(s@, start as int);
    }
    let n = s.unicode_len();
    let mut j = start;
    while j < n
        invariant
            start <= j <= n,
            n == s@.len(),
            speed_run_end(s@, start as int) == speed_run_end(s@, j as int),
            speed_run_end(s@, j as int) >= j,
        decreases n - j,
    {
        let c = s.get_char(j);
        let v = c as u32;
        if (v < 48 || v > 57) && c != '.' && c != 'x' {
            proof {
                assert(!is_speed_char(s@[j as int]));
                assert(speed_run_end(s@, j as int) == j);
            }
            return j;
        }
        proof {
            assert(is_speed_char(s@[j as int]));
            assert(speed_run_end(s@, j as int) == speed_run_end(s@, j as int + 1));
            lemma_speed_run_end(s@, j as int + 1);
        }
        j = j + 1;
    }
    proof {
        assert(speed_run_end(s@, j as int) == j);
    }
    j
}

/// Scan the run of decimal digits starting at `start`, returning its end.
fn scan_digit_run(s: &str, start: usize) -> (r: usize)
    requires
        start <= s@.len(),
    ensures
        r == digit_run_end(s@, start as int),
        start <= r <= s@.len(),
{
    proof {
        lemma_digit_run_end(s@, start as int);
    }
    let n = s.unicode_len();
    let mut j = start;
    while j < n
        invariant
            start <= j <= n,
            n == s@.len(),
            digit_run_end(s@, start as int) == digit_run_end(s@, j as int),
            digit_run_end(s@, j as int) >= j,
        decreases n - j,
    {
        let c = s.get_char(j);
        let v = c as u32;
        if v < 48 || v > 57 {
            proof {
                assert(!is_digit_char(s@[j as int]));
                assert(digit_run_end(s@, j as int) == j);
            }
            return j;
        }
        proof {
            assert(is_digit_char(s@[j as int]));
            assert(digit_run_end(s@, j as int) == digit_run_end(s@, j as int + 1));
            lemma_digit_run_end(s@, j as int + 1);
        }
        j = j + 1;
    }
    proof {
        assert(digit_run_end(s@, j as int) == j);
    }
    j
}

/// Parse the digit run `[start, end)` of `s` with saturating-failure
/// semantics: a value beyond `u64` reads as zero.
fn parse_digit_run(s: &str, start: usize, end: usize) -> (r: u64)
    requires
        start <= end <= s@.len(),
        all_digits(s@.subrange(start as int, end as int)),
    ensures
        r == if digits_val(s@.subrange(start as int, end as int)) > u64::MAX {
            0u64
        } else {
            digits_val(s@.subrange(start as int, end as int)) as u64
        },
{
    let run = s.substring_char(start, end);
    match strutil::parse_u64(run) {
        Some(v) => v,
        None => 0,
    }
}

/// Extract an integer field: the digit run directly after the first
/// occurrence of `pat`, with an over-large value reading as zero.
fn extract_u64_field(s: &str, pat: &str) -> (r: Option<u64>)
    requires
        pat@.len() >= 1,
    ensures
        match r {
            Some(v) => u64_field(s@, pat@) is Some && v == u64_field_update(s@, pat@, 0),
            None => u64_field(s@, pat@) is None,
        },
{
    match find_field_start(s, pat) {
        Some(start) => {
            let end = scan_digit_run(s, start);
            if end == start {
                None
            } else {
                proof {
                    lemma_digit_run_end(s@, start as int);
                }
                Some(parse_digit_run(s, start, end))
            }
        },
        None => None,
    }
}

/// Extract the rate field: the digit-or-dot run directly after the first
/// `fps=`, read as a decimal in thousandths; an unparsable or over-large
/// capture reads as zero.
fn extract_fps_field(s: &str) -> (r: Option<u64>)
    ensures
        match r {
            Some(v) => fps_field(s@) is Some && v == fps_field_update(s@, 0),
            None => fps_field(s@) is None,
        },
{
    proof {
        reveal_strlit("fps=");
    }
    match find_field_start(s, "fps=") {
        Some(start) => {
            let end = scan_dec_run(s, start);
            if end == start {
                None
            } else {
                let run = s.substring_char(start, end);
                match parse_decimal_scaled(run, 3) {
                    Some(v) => Some(v),
                    None => Some(0),
                }
            }
        },
        None => None,
    }
}

/// Extract the speed token: the run of digits, dots and `x` directly after
/// the first `speed=`.
fn extract_speed_field(s: &str) -> (r: Option<String>)
    ensures
        match r {
            Some(v) => speed_field(s@) is Some && v@ == speed_field(s@)->Some_0,
            None => speed_field(s@) is None,
        },
{
    proof {
        reveal_strlit("speed=");
    }
    match find_field_start(s, "speed=") {
        Some(start) => {
            let end = scan_speed_run(s, start);
            if end == start {
                None
            } else {
                let run = s.substring_char(start, end);
                Some(String::from_str(run))
            }
        },
        None => None,
    }
}

/// Percentage of the job done, in hundredths of a percent: elapsed time over
/// total duration, clamped to one hundred percent, and zero whenever the
/// total duration is zero or unknown.
pub open spec fn progress_centi_pct(elapsed_us: nat, duration_us: nat) -> nat {
    if duration_us == 0 {
        0
    } else if elapsed_us * 10000 / duration_us > 10000 {
        10000
    } else {
        elapsed_us * 10000 / duration_us
    }
}

/// Compute the progress percentage in hundredths of a percent.
pub fn compute_progress_centi_pct(elapsed_us: u64, duration_us: u64) -> (r: u64)
    ensures
        r == progress_centi_pct(elapsed_us as nat, duration_us as nat),
{
    if duration_us == 0 {
        return 0;
    }
    let q: u128 = (elapsed_us as u128) * 10000 / (duration_us as u128);
    if q > 10000 {
        10000
    } else {
        q as u64
    }
}

/// One structured progress sample, as surfaced to consumers. The percentage
/// is in hundredths of a percent (`0..=10000`), the instantaneous rate in
/// thousandths of a frame per second, and the elapsed media time both in raw
/// microseconds and rendered as `HH:MM:SS.cc`.
#[derive(Debug)]
pub struct ProgressEvent {
    pub progress_centi_pct: u64,
    pub frame: u64,
    pub fps_milli: u64,
    pub time_micros: u64,
    pub time: String,
    pub speed: String,
}

/// Last-seen value of every progress field, accumulated across the lines of
/// one job. Each field, once seen, persists until a later line overwrites it.
#[derive(Debug)]
pub struct ProgressAccumulator {
    pub frame: u64,
    pub fps_milli: u64,
    pub time_micros: u64,
    pub speed: String,
}

impl ProgressAccumulator {
    /// A fresh accumulator with every field at its zero value.
    pub fn new() -> (r: ProgressAccumulator)
        ensures
            r.frame == 0,
            r.fps_milli == 0,
            r.time_micros == 0,
            r.speed@ == Seq::<char>::empty(),
    {
        proof {
            reveal_strlit("");
        }
        ProgressAccumulator {
            frame: 0,
            fps_milli: 0,
            time_micros: 0,
            speed: String::from_str(""),
        }
    }

    /// Fold one line of tool output into the accumulator: each recognized
    /// field overwrites its last-seen value, and unrecognized fields keep it.
    pub fn feed_line(&mut self, line: &str)
        ensures
            final(self).frame == u64_field_update(line@, "frame="@, old(self).frame),
            final(self).fps_milli == fps_field_update(line@, old(self).fps_milli),
            final(self).time_micros == u64_field_update(
                line@,
                "out_time_ms="@,
                old(self).time_micros,
            ),
            final(self).speed@ == speed_field_update(line@, old(self).speed@),
    {
        proof {
            reveal_strlit("frame=");
            reveal_strlit("out_time_ms=");
        }
        match extract_u64_field(line, "frame=") {
            Some(v) => {
                self.frame = v;
            },
            None => {},
        }
        match extract_fps_field(line) {
            Some(v) => {
                self.fps_milli = v;
            },
            None => {},
        }
        match extract_u64_field(line, "out_time_ms=") {
            Some(v) => {
                self.time_micros = v;
            },
            None => {},
        }
        match extract_speed_field(line) {
            Some(v) => {
                self.speed = v;
            },
            None => {},
        }
    }

    /// Synthesize a progress sample from the accumulated fields against the
    /// total input duration.
    pub fn sample(&self, input_duration_us: u64) -> (r: ProgressEvent)
        ensures
            r.progress_centi_pct == progress_centi_pct(
                self.time_micros as nat,
                input_duration_us as nat,
            ),
            r.frame == self.frame,
            r.fps_milli == self.fps_milli,
            r.time_micros == self.time_micros,
            r.time@ == crate::timefmt::time_chars(self.time_micros as nat),
            r.speed@ == self.speed@,
    {
        ProgressEvent {
            progress_centi_pct: compute_progress_centi_pct(self.time_micros, input_duration_us),
            frame: self.frame,
            fps_milli: self.fps_milli,
            time_micros: self.time_micros,
            time: crate::timefmt::format_time(self.time_micros),
            speed: self.speed.clone(),
        }
    }
}

} // verus!
