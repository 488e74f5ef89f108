//! Job outcomes: the structured error that threads cancellation from the
//! point of origin (instead of re-deriving it from diagnostic text), the
//! result records surfaced to callers, and the finalization rules that turn
//! a run's outcome and the re-probed artifact into one of them.

use crate::strutil::{int_chars, u64_chars, u64_to_string};
use crate::timefmt::{format_seconds2, format_seconds3, seconds2_chars, seconds3_chars};
use crate::validation::{abs_diff, validate_duration, validate_duration_loose};
use crate::validation::{DURATION_TOLERANCE_MICROS, LOOSE_DURATION_TOLERANCE_MICROS};
use vstd::prelude::*;

verus! {

/// Why a job ended without a usable artifact. Cancellation is distinguished
/// from failure structurally, at the point of origin.
#[derive(Debug)]
pub enum JobError {
    Cancelled,
    Failed(String),
}

/// Result record of a conversion, upscale or compression job.
#[derive(Debug)]
pub struct ConversionResult {
    pub success: bool,
    pub output_path: String,
    pub input_duration_micros: u64,
    pub output_duration_micros: u64,
    pub duration_diff_micros: i64,
    pub duration_valid: bool,
    pub message: String,
}

/// Result record of an audio-padding job.
#[derive(Debug)]
pub struct AudioProcessingResult {
    pub success: bool,
    pub output_path: String,
    pub input_duration_micros: u64,
    pub output_duration_micros: u64,
    pub padding_before_micros: u64,
    pub padding_after_micros: u64,
    pub message: String,
}

/// The summary of a completed conversion: the two durations and their
/// absolute difference, prefixed with a drift warning when the difference
/// left the strict tolerance.
pub open spec fn convert_message_chars(input_us: nat, output_us: nat, valid: bool) -> Seq<char> {
    let head = if valid {
        "conversion complete: input "@
    } else {
        "warning: duration drifted beyond tolerance: input "@
    };
    head + seconds2_chars(input_us) + "s -> output "@ + seconds2_chars(output_us) + "s (diff "@
        + seconds3_chars(abs_diff(input_us as int, output_us as int) as nat) + "s)"@
}

/// Finalize a conversion job. A completed run is validated against the
/// strict duration tolerance and summarized (as a success either way, with a
/// warning message on drift); a cancelled run yields the fixed cancellation
/// record; a failed run propagates its diagnostic. The duration bounds are
/// machine limits on the signed difference.
pub fn finalize_conversion(
    output_path: &str,
    input_duration_micros: u64,
    outcome: Result<u64, JobError>,
) -> (r: Result<ConversionResult, String>)
    requires
        input_duration_micros <= i64::MAX,
        outcome matches Ok(d) ==> d <= i64::MAX,
    ensures
        match outcome {
            Ok(out_us) => r matches Ok(c) && {
                &&& c.success
                &&& c.output_path@ == output_path@
                &&& c.input_duration_micros == input_duration_micros
                &&& c.output_duration_micros == out_us
                &&& c.duration_diff_micros == out_us - input_duration_micros
                &&& c.duration_valid <==> -(DURATION_TOLERANCE_MICROS as int)
                    <= c.duration_diff_micros <= DURATION_TOLERANCE_MICROS as int
                &&& c.message@ == convert_message_chars(
                    input_duration_micros as nat,
                    out_us as nat,
                    c.duration_valid,
                )
            },
            Err(JobError::Cancelled) => r matches Ok(c) && {
                &&& !c.success
                &&& c.output_path@ == output_path@
                &&& c.input_duration_micros == input_duration_micros
                &&& c.output_duration_micros == 0
                &&& c.duration_diff_micros == 0
                &&& !c.duration_valid
                &&& c.message@ == "conversion was cancelled"@
            },
            Err(JobError::Failed(d)) => r matches Err(m) && m@ == d@,
        },
{
    match outcome {
        Ok(out_us) => {
            let (duration_valid, diff) = validate_duration(input_duration_micros, out_us);
            let abs_us: u64 = if out_us >= input_duration_micros {
                out_us - input_duration_micros
            } else {
                input_duration_micros - out_us
            };
            let mut msg = if duration_valid {
                String::from_str("conversion complete: input ")
            } else {
                String::from_str("warning: duration drifted beyond tolerance: input ")
            };
            let in_s = format_seconds2(input_duration_micros);
            msg.append(in_s.as_str());
            msg.append("s -> output ");
            let out_s = format_seconds2(out_us);
            msg.append(out_s.as_str());
            msg.append("s (diff ");
            let diff_s = format_seconds3(abs_us);
            msg.append(diff_s.as_str());
            msg.append("s)");
            proof {
                assert(msg@ =~= convert_message_chars(
                    input_duration_micros as nat,
                    out_us as nat,
                    duration_valid,
                ));
            }
            Ok(
                ConversionResult {
                    success: true,
                    output_path: String::from_str(output_path),
                    input_duration_micros,
                    output_duration_micros: out_us,
                    duration_diff_micros: diff,
                    duration_valid,
                    message: msg,
                },
            )
        },
        Err(JobError::Cancelled) => Ok(
            ConversionResult {
                success: false,
                output_path: String::from_str(output_path),
                input_duration_micros,
                output_duration_micros: 0,
                duration_diff_micros: 0,
                duration_valid: false,
                message: String::from_str("conversion was cancelled"),
            },
        ),
        Err(JobError::Failed(d)) => Err(d),
    }
}

/// The summary of a completed upscale: the two frame sizes and the scale.
pub open spec fn upscale_message_chars(
    input_width: nat,
    input_height: nat,
    output_width: nat,
    output_height: nat,
    scale_factor: nat,
) -> Seq<char> {
    "upscale complete: "@ + u64_chars(input_width) + "x"@ + u64_chars(input_height) + " -> "@
        + u64_chars(output_width) + "x"@ + u64_chars(output_height) + " ("@ + u64_chars(
        scale_factor,
    ) + "x)"@
}

/// Finalize an upscale job. A completed run is validated against the looser
/// duration tolerance (strictly below half a second of absolute drift);
/// cancellation and failure behave as in conversion.
pub fn finalize_upscale(
    output_path: &str,
    input_duration_micros: u64,
    input_width: u32,
    input_height: u32,
    output_width: u32,
    output_height: u32,
    scale_factor: u32,
    outcome: Result<u64, JobError>,
) -> (r: Result<ConversionResult, String>)
    requires
        input_duration_micros <= i64::MAX,
        outcome matches Ok(d) ==> d <= i64::MAX,
    ensures
        match outcome {
            Ok(out_us) => r matches Ok(c) && {
                &&& c.success
                &&& c.output_path@ == output_path@
                &&& c.input_duration_micros == input_duration_micros
                &&& c.output_duration_micros == out_us
                &&& c.duration_diff_micros == abs_diff(
                    input_duration_micros as int,
                    out_us as int,
                )
                &&& c.duration_valid <==> c.duration_diff_micros < LOOSE_DURATION_TOLERANCE_MICROS
                &&& c.message@ == upscale_message_chars(
                    input_width as nat,
                    input_height as nat,
                    output_width as nat,
                    output_height as nat,
                    scale_factor as nat,
                )
            },
            Err(JobError::Cancelled) => r matches Ok(c) && {
                &&& !c.success
                &&& c.output_path@ == output_path@
                &&& c.input_duration_micros == input_duration_micros
                &&& c.output_duration_micros == 0
                &&& c.duration_diff_micros == 0
                &&& !c.duration_valid
                &&& c.message@ == "upscale was cancelled"@
            },
            Err(JobError::Failed(d)) => r matches Err(m) && m@ == d@,
        },
{
    match outcome {
        Ok(out_us) => {
            let (duration_valid, abs_us) = validate_duration_loose(input_duration_micros, out_us);
            let mut msg = String::from_str("upscale complete: ");
            let iw = u64_to_string(input_width as u64);
            msg.append(iw.as_str());
            msg.append("x");
            let ih = u64_to_string(input_height as u64);
            msg.append(ih.as_str());
            msg.append(" -> ");
            let ow = u64_to_string(output_width as u64);
            msg.append(ow.as_str());
            msg.append("x");
            let oh = u64_to_string(output_height as u64);
            msg.append(oh.as_str());
            msg.append(" (");
            let sf = u64_to_string(scale_factor as u64);
            msg.append(sf.as_str());
            msg.append("x)");
            proof {
                assert(msg@ =~= upscale_message_chars(
                    input_width as nat,
                    input_height as nat,
                    output_width as nat,
                    output_height as nat,
                    scale_factor as nat,
                ));
            }
            Ok(
                ConversionResult {
                    success: true,
                    output_path: String::from_str(output_path),
                    input_duration_micros,
                    output_duration_micros: out_us,
                    duration_diff_micros: abs_us as i64,
                    duration_valid,
                    message: msg,
                },
            )
        },
        Err(JobError::Cancelled) => Ok(
            ConversionResult {
                success: false,
                output_path: String::from_str(output_path),
                input_duration_micros,
                output_duration_micros: 0,
                duration_diff_micros: 0,
                duration_valid: false,
                message: String::from_str("upscale was cancelled"),
            },
        ),
        Err(JobError::Failed(d)) => Err(d),
    }
}

/// A byte count in tenths of a mebibyte, truncated.
pub open spec fn mib_tenths(bytes: nat) -> nat {
    bytes * 10 / 1048576
}

/// A byte count rendered as mebibytes with one fractional digit.
pub open spec fn mib_chars(bytes: nat) -> Seq<char> {
    u64_chars(mib_tenths(bytes) / 10) + "."@ + seq![
        crate::strutil::digit_char_of(mib_tenths(bytes) % 10),
    ]
}

/// Render a byte count as mebibytes with one fractional digit.
pub fn format_mib(bytes: u64) -> (r: String)
    ensures
        r@ == mib_chars(bytes as nat),
{
    let tenths: u64 = ((bytes as u128) * 10 / 1048576) as u64;
    proof {
        crate::strutil::lemma_div_le(bytes as int * 10, 1048576, u64::MAX as int);
        vstd::arithmetic::mul::lemma_mul_inequality(bytes as int, u64::MAX as int, 10);
        vstd::arithmetic::mul::lemma_mul_is_commutative(u64::MAX as int, 10);
    }
    let mut s = u64_to_string(tenths / 10);
    s.append(".");
    s.append(crate::strutil::digit_str(tenths % 10));
    proof {
        reveal_strlit(".");
        assert(s@ =~= mib_chars(bytes as nat));
    }
    s
}

/// The size reduction of a compression in whole percent, rounded to the
/// nearest (half upward): one hundred times `1 - output/input`. Negative
/// when the output grew.
pub open spec fn reduction_percent(input_bytes: nat, output_bytes: nat) -> int
    recommends
        input_bytes > 0,
{
    ((input_bytes - output_bytes) * 200 + input_bytes) / (2 * input_bytes as int)
}

/// Compute the size-reduction percentage. The ratio bound is a machine
/// limit keeping the percentage inside a signed integer; no compression
/// output grows a million-fold.
pub fn compute_reduction_percent(input_bytes: u64, output_bytes: u64) -> (r: i64)
    requires
        input_bytes > 0,
        output_bytes as nat <= input_bytes as nat * 1_000_000,
    ensures
        r == reduction_percent(input_bytes as nat, output_bytes as nat),
{
    proof {
        lemma_reduction_percent_bounds(input_bytes as nat, output_bytes as nat);
    }
    let num: i128 = (input_bytes as i128 - output_bytes as i128) * 200 + input_bytes as i128;
    let den: i128 = 2 * input_bytes as i128;
    let q: i128 = match num.checked_div_euclid(den) {
        Some(v) => v,
        None => 0,
    };
    q as i64
}

/// The reduction percentage lies between a bounded negative growth figure
/// and one hundred and one, so it fits a signed machine integer.
proof fn lemma_reduction_percent_bounds(input: nat, output: nat)
    requires
        input > 0,
        output <= input * 1_000_000,
    ensures
        -100_000_000 <= reduction_percent(input, output) <= 101,
{
    let num = (input - output) * 200 + input as int;
    let den = 2 * input as int;
    assert(num >= -100_000_000 * den) by (nonlinear_arith)
        requires
            input > 0,
            output <= input * 1_000_000,
            num == (input - output) * 200 + input as int,
            den == 2 * input as int,
    ;
    vstd::arithmetic::div_mod::lemma_div_is_ordered(-100_000_000 * den, num, den);
    vstd::arithmetic::div_mod::lemma_div_multiples_vanish(-100_000_000, den);
    vstd::arithmetic::mul::lemma_mul_is_commutative(-100_000_000, den);
    assert(num <= 101 * den + den - 1) by (nonlinear_arith)
        requires
            input > 0,
            num == (input - output) * 200 + input as int,
            den == 2 * input as int,
    ;
    if num >= 0 {
        crate::strutil::lemma_div_le(num, den, 101);
    } else {
        vstd::arithmetic::div_mod::lemma_div_is_ordered(num, 0, den);
    }
}

/// The summary of a completed compression: the two sizes in mebibytes and
/// the reduction percentage.
pub open spec fn compress_message_chars(
    input_bytes: nat,
    output_bytes: nat,
) -> Seq<char> {
    "compression complete: "@ + mib_chars(input_bytes) + "MB -> "@ + mib_chars(output_bytes)
        + "MB ("@ + int_chars(reduction_percent(input_bytes, output_bytes)) + "% reduced)"@
}

/// Finalize a compression job: the looser duration tolerance, the size
/// summary with the reduction ratio; cancellation and failure behave as in
/// conversion. A completed run hands back the artifact's probed size and
/// duration.
pub fn finalize_compress(
    output_path: &str,
    input_duration_micros: u64,
    input_size_bytes: u64,
    outcome: Result<(u64, u64), JobError>,
) -> (r: Result<ConversionResult, String>)
    requires
        input_duration_micros <= i64::MAX,
        input_size_bytes > 0,
        outcome matches Ok(sized) ==> sized.0 as nat <= input_size_bytes as nat * 1_000_000
            && sized.1 <= i64::MAX,
    ensures
        match outcome {
            Ok(sized) => r matches Ok(c) && {
                &&& c.success
                &&& c.output_path@ == output_path@
                &&& c.input_duration_micros == input_duration_micros
                &&& c.output_duration_micros == sized.1
                &&& c.duration_diff_micros == abs_diff(
                    input_duration_micros as int,
                    sized.1 as int,
                )
                &&& c.duration_valid <==> c.duration_diff_micros < LOOSE_DURATION_TOLERANCE_MICROS
                &&& c.message@ == compress_message_chars(
                    input_size_bytes as nat,
                    sized.0 as nat,
                )
            },
            Err(JobError::Cancelled) => r matches Ok(c) && {
                &&& !c.success
                &&& c.output_path@ == output_path@
                &&& c.input_duration_micros == input_duration_micros
                &&& c.output_duration_micros == 0
                &&& c.duration_diff_micros == 0
                &&& !c.duration_valid
                &&& c.message@ == "compression was cancelled"@
            },
            Err(JobError::Failed(d)) => r matches Err(m) && m@ == d@,
        },
{
    match outcome {
        Ok((output_size_bytes, out_us)) => {
            let (duration_valid, abs_us) = validate_duration_loose(input_duration_micros, out_us);
            let mut msg = String::from_str("compression complete: ");
            let in_mb = format_mib(input_size_bytes);
            msg.append(in_mb.as_str());
            msg.append("MB -> ");
            let out_mb = format_mib(output_size_bytes);
            msg.append(out_mb.as_str());
            msg.append("MB (");
            let pct = compute_reduction_percent(input_size_bytes, output_size_bytes);
            let pct_s = crate::strutil::i64_to_string(pct);
            msg.append(pct_s.as_str());
            msg.append("% reduced)");
            proof {
                assert(msg@ =~= compress_message_chars(
                    input_size_bytes as nat,
                    output_size_bytes as nat,
                ));
            }
            Ok(
                ConversionResult {
                    success: true,
                    output_path: String::from_str(output_path),
                    input_duration_micros,
                    output_duration_micros: out_us,
                    duration_diff_micros: abs_us as i64,
                    duration_valid,
                    message: msg,
                },
            )
        },
        Err(JobError::Cancelled) => Ok(
            ConversionResult {
                success: false,
                output_path: String::from_str(output_path),
                input_duration_micros,
                output_duration_micros: 0,
                duration_diff_micros: 0,
                duration_valid: false,
                message: String::from_str("compression was cancelled"),
            },
        ),
        Err(JobError::Failed(d)) => Err(d),
    }
}

/// The summary of completed audio processing: the input duration, the two
/// paddings and the resulting duration.
pub open spec fn audio_message_chars(
    input_us: nat,
    padding_before_us: nat,
    padding_after_us: nat,
    output_us: nat,
) -> Seq<char> {
    "audio processing complete: "@ + seconds2_chars(input_us) + "s + before "@ + seconds2_chars(
        padding_before_us,
    ) + "s + after "@ + seconds2_chars(padding_after_us) + "s = "@ + seconds2_chars(output_us)
        + "s"@
}

/// Finalize an audio-padding job; cancellation and failure behave as in
/// conversion.
pub fn finalize_audio(
    output_path: &str,
    input_duration_micros: u64,
    padding_before_micros: u64,
    padding_after_micros: u64,
    outcome: Result<u64, JobError>,
) -> (r: Result<AudioProcessingResult, String>)
    ensures
        match outcome {
            Ok(out_us) => r matches Ok(a) && {
                &&& a.success
                &&& a.output_path@ == output_path@
                &&& a.input_duration_micros == input_duration_micros
                &&& a.output_duration_micros == out_us
                &&& a.padding_before_micros == padding_before_micros
                &&& a.padding_after_micros == padding_after_micros
                &&& a.message@ == audio_message_chars(
                    input_duration_micros as nat,
                    padding_before_micros as nat,
                    padding_after_micros as nat,
                    out_us as nat,
                )
            },
            Err(JobError::Cancelled) => r matches Ok(a) && {
                &&& !a.success
                &&& a.output_path@ == output_path@
                &&& a.input_duration_micros == input_duration_micros
                &&& a.output_duration_micros == 0
                &&& a.padding_before_micros == padding_before_micros
                &&& a.padding_after_micros == padding_after_micros
                &&& a.message@ == "audio processing was cancelled"@
            },
            Err(JobError::Failed(d)) => r matches Err(m) && m@ == d@,
        },
{
    match outcome {
        Ok(out_us) => {
            let mut msg = String::from_str("audio processing complete: ");
            let in_s = format_seconds2(input_duration_micros);
            msg.append(in_s.as_str());
            msg.append("s + before ");
            let b_s = format_seconds2(padding_before_micros);
            msg.append(b_s.as_str());
            msg.append("s + after ");
            let a_s = format_seconds2(padding_after_micros);
            msg.append(a_s.as_str());
            msg.append("s = ");
            let o_s = format_seconds2(out_us);
            msg.append(o_s.as_str());
            msg.append("s");
            proof {
                assert(msg@ =~= audio_message_chars(
                    input_duration_micros as nat,
                    padding_before_micros as nat,
                    padding_after_micros as nat,
                    out_us as nat,
                ));
            }
            Ok(
                AudioProcessingResult {
                    success: true,
                    output_path: String::from_str(output_path),
                    input_duration_micros,
                    output_duration_micros: out_us,
                    padding_before_micros,
                    padding_after_micros,
                    message: msg,
                },
            )
        },
        Err(JobError::Cancelled) => Ok(
            AudioProcessingResult {
                success: false,
                output_path: String::from_str(output_path),
                input_duration_micros,
                output_duration_micros: 0,
                padding_before_micros,
                padding_after_micros,
                message: String::from_str("audio processing was cancelled"),
            },
        ),
        Err(JobError::Failed(d)) => Err(d),
    }
}

} // verus!
