//! The multi-phase interpolation pipeline's decision core: multiplier
//! selection, phase progression with failure and cancellation handling, the
//! achieved-rate computation with its corrective check, and the argument
//! lists of every phase. The host performs the external work (spawning the
//! tools, counting frame files, removing directories) and hands each result
//! back; every aborting step carries the instruction to remove the
//! pipeline's working directories, and the successful end removes them too.

use crate::strutil::{lemma_div_le, lemma_div_mul_le_exact};
use vstd::arithmetic::power2::{lemma2_to64, lemma_pow2_strictly_increases, lemma_pow2_unfold, pow2};
use vstd::prelude::*;

verus! {

/// The exact quotient rounded upwards.
pub open spec fn ceil_div(a: nat, b: nat) -> nat
    recommends
        b > 0,
{
    ((a + b - 1) / (b as int)) as nat
}

/// Interpolation plan: the frame multiplier handed to the interpolation
/// tool, and the rate that many frames would nominally give.
#[derive(Debug)]
pub struct RifePlan {
    pub multiplier: u64,
    pub nominal_fps_milli: u64,
}

/// What the interpolation multiplier must be: the smallest power of two at
/// least `ceil(target / input)`, floored at two.
pub open spec fn multiplier_ok(input_fps_milli: nat, target_fps_milli: nat, m: nat) -> bool {
    &&& (exists|k: nat| m == pow2(k))
    &&& m >= 2
    &&& m >= ceil_div(target_fps_milli, input_fps_milli)
    &&& (m == 2 || m / 2 < ceil_div(target_fps_milli, input_fps_milli))
}

/// Minimality of the multiplier: any power of two that is at least two and
/// at least the rate ratio is no smaller than it.
pub proof fn lemma_multiplier_minimal(input: nat, target: nat, m: nat, q: nat, j: nat)
    requires
        input > 0,
        multiplier_ok(input, target, m),
        q == pow2(j),
        q >= 2,
        q >= ceil_div(target, input),
    ensures
        q >= m,
{
    if m > 2 {
        let k = choose|k: nat| m == pow2(k);
        lemma2_to64();
        if k == 0 {
            assert(m == 1);
        }
        if k == 1 {
            assert(m == 2);
        }
        lemma_pow2_unfold(k);
        assert(m / 2 == pow2((k - 1) as nat));
        if q < m {
            if j == k {
                assert(q == m);
            }
            if j > k {
                lemma_pow2_strictly_increases(k, j);
            }
            assert(j < k);
            if j < k - 1 {
                lemma_pow2_strictly_increases(j, (k - 1) as nat);
            }
            assert(q <= m / 2);
            assert(q < ceil_div(target, input));
            assert(false);
        }
    }
}

/// Compute the interpolation multiplier for a rate conversion. The rate
/// bound is what keeps the doubling loop inside a `u64`; it admits any
/// realistic video rate.
pub fn rife_multiplier(input_fps_milli: u64, target_fps_milli: u64) -> (r: u64)
    requires
        0 < input_fps_milli,
        target_fps_milli <= 1_000_000_000,
    ensures
        multiplier_ok(input_fps_milli as nat, target_fps_milli as nat, r as nat),
        r <= 2_000_000_000,
{
    let q128: u128 = (target_fps_milli as u128 + input_fps_milli as u128 - 1)
        / (input_fps_milli as u128);
    proof {
        vstd::arithmetic::mul::lemma_mul_inequality(
            1,
            input_fps_milli as int,
            1_000_000_000,
        );
        vstd::arithmetic::mul::lemma_mul_is_commutative(input_fps_milli as int, 1_000_000_000);
        lemma_div_le(
            target_fps_milli as int + input_fps_milli as int - 1,
            input_fps_milli as int,
            1_000_000_000,
        );
    }
    let needed: u64 = q128 as u64;
    assert(needed == ceil_div(target_fps_milli as nat, input_fps_milli as nat));
    let mut m: u64 = 2;
    let ghost mut k: nat = 1nat;
    proof {
        lemma2_to64();
        assert(pow2(1) == 2);
    }
    while m < needed
        invariant
            0 < input_fps_milli,
            m == pow2(k),
            2 <= m <= 2_000_000_000,
            m == 2 || m / 2 < needed,
            needed <= 1_000_000_000,
            needed == ceil_div(target_fps_milli as nat, input_fps_milli as nat),
        decreases 2 * needed - m,
    {
        proof {
            lemma_pow2_unfold(k + 1);
            k = k + 1nat;
        }
        m = m * 2;
    }
    m
}

/// Build the interpolation plan: the multiplier, and the nominal output rate
/// `input x multiplier`.
pub fn plan_interpolation(input_fps_milli: u64, target_fps_milli: u64) -> (r: RifePlan)
    requires
        0 < input_fps_milli <= 1_000_000_000,
        target_fps_milli <= 1_000_000_000,
    ensures
        multiplier_ok(input_fps_milli as nat, target_fps_milli as nat, r.multiplier as nat),
        r.nominal_fps_milli == input_fps_milli as nat * r.multiplier as nat,
{
    let m = rife_multiplier(input_fps_milli, target_fps_milli);
    proof {
        lemma_nominal_fits(input_fps_milli as nat, target_fps_milli as nat, m as nat);
    }
    RifePlan { multiplier: m, nominal_fps_milli: input_fps_milli * m }
}

/// The nominal rate `input x multiplier` fits in a `u64`: the minimal power
/// of two stays below twice the rate ratio, so the product stays below twice
/// the sum of the two bounded rates.
proof fn lemma_nominal_fits(input: nat, target: nat, m: nat)
    requires
        0 < input <= 1_000_000_000,
        target <= 1_000_000_000,
        multiplier_ok(input, target, m),
    ensures
        input * m <= u64::MAX,
{
    if m == 2 {
        assert(input * 2 <= 2_000_000_000);
    } else {
        let c = ceil_div(target, input);
        let k = choose|k: nat| m == pow2(k);
        lemma2_to64();
        if k == 0 {
            assert(m == 1);
        }
        lemma_pow2_unfold(k);
        assert(m == 2 * pow2((k - 1) as nat));
        assert(m / 2 == pow2((k - 1) as nat));
        assert(m == 2 * (m / 2));
        assert(m / 2 < c);
        lemma_div_mul_le_exact(target as int + input - 1, input as int);
        assert(c * input <= target + input - 1);
        assert(input * m < input * (2 * c)) by (nonlinear_arith)
            requires
                m < 2 * c,
                input > 0,
        ;
        assert(input * (2 * c) == 2 * (c * input)) by (nonlinear_arith);
        assert(input * m < 2 * (target + input));
    }
}

/// Why a pipeline run aborted before producing its artifact.
#[derive(Debug)]
pub enum AbortReason {
    /// Cancellation was observed at a phase boundary.
    Cancelled,
    /// A phase failed; the diagnostic carries the phase and the tool's
    /// captured error text.
    Failed(String),
}

/// An aborting step's instructions to the host: the outcome to report, and
/// the order — given on every abort — to remove the pipeline's working
/// directories.
#[derive(Debug)]
pub struct PipelineAbort {
    pub reason: AbortReason,
    pub remove_workdirs: bool,
}

/// Decide how the pipeline goes on after the extraction phase: a failed
/// extraction aborts with its error text, cancellation aborts, zero
/// extracted frames abort, a requested total beyond the machine's range
/// aborts, and otherwise the interpolation tool is asked for
/// `frame_count x multiplier` frames. Every abort orders the working
/// directories removed; in particular, cancellation at this boundary yields
/// the cancelled outcome with cleanup ordered, for every input.
pub fn after_extract(
    multiplier: u64,
    extract_ok: bool,
    extract_stderr: &str,
    cancel_requested: bool,
    frame_count: u64,
) -> (r: Result<u64, PipelineAbort>)
    ensures
        match r {
            Ok(requested) => extract_ok && !cancel_requested && frame_count > 0 && frame_count
                as nat * multiplier as nat <= u64::MAX && requested == frame_count as nat
                * multiplier as nat,
            Err(abort) => {
                &&& abort.remove_workdirs
                &&& !(extract_ok && !cancel_requested && frame_count > 0 && frame_count as nat
                    * multiplier as nat <= u64::MAX)
                &&& !extract_ok ==> (abort.reason matches AbortReason::Failed(d) && d@
                    == "frame extraction failed: "@ + extract_stderr@)
                &&& (extract_ok && cancel_requested) ==> abort.reason is Cancelled
                &&& (extract_ok && !cancel_requested && frame_count == 0) ==> (abort.reason
                    matches AbortReason::Failed(d) && d@ == "no frames were extracted"@)
                &&& (extract_ok && !cancel_requested && frame_count > 0 && frame_count as nat
                    * multiplier as nat > u64::MAX) ==> (abort.reason
                    matches AbortReason::Failed(d) && d@ == "requested frame count out of range"@)
            },
        },
{
    if !extract_ok {
        let mut msg = String::from_str("frame extraction failed: ");
        msg.append(extract_stderr);
        return Err(PipelineAbort { reason: AbortReason::Failed(msg), remove_workdirs: true });
    }
    if cancel_requested {
        return Err(PipelineAbort { reason: AbortReason::Cancelled, remove_workdirs: true });
    }
    if frame_count == 0 {
        return Err(
            PipelineAbort {
                reason: AbortReason::Failed(String::from_str("no frames were extracted")),
                remove_workdirs: true,
            },
        );
    }
    proof {
        vstd::arithmetic::mul::lemma_mul_upper_bound(
            frame_count as int,
            u64::MAX as int,
            multiplier as int,
            u64::MAX as int,
        );
        assert((u64::MAX as int) * (u64::MAX as int) <= u128::MAX) by (nonlinear_arith);
    }
    let requested: u128 = frame_count as u128 * multiplier as u128;
    if requested > u64::MAX as u128 {
        return Err(
            PipelineAbort {
                reason: AbortReason::Failed(
                    String::from_str("requested frame count out of range"),
                ),
                remove_workdirs: true,
            },
        );
    }
    proof {
        vstd::arithmetic::mul::lemma_mul_is_commutative(frame_count as int, multiplier as int);
    }
    Ok(requested as u64)
}

/// Decide how the pipeline goes on after the interpolation phase: a failed
/// run aborts with its error text, zero produced frames abort with the
/// no-frames diagnostic, and cancellation aborts. Every abort orders the
/// working directories removed.
pub fn after_interpolate(
    interpolate_ok: bool,
    interpolate_stderr: &str,
    output_frame_count: u64,
    cancel_requested: bool,
) -> (r: Result<(), PipelineAbort>)
    ensures
        match r {
            Ok(_) => interpolate_ok && output_frame_count > 0 && !cancel_requested,
            Err(abort) => {
                &&& abort.remove_workdirs
                &&& !(interpolate_ok && output_frame_count > 0 && !cancel_requested)
                &&& !interpolate_ok ==> (abort.reason matches AbortReason::Failed(d) && d@
                    == "frame interpolation failed: "@ + interpolate_stderr@)
                &&& (interpolate_ok && output_frame_count == 0) ==> (abort.reason
                    matches AbortReason::Failed(d) && d@ == "interpolation produced no frames"@)
                &&& (interpolate_ok && output_frame_count > 0 && cancel_requested) ==> abort.reason
                    is Cancelled
            },
        },
{
    if !interpolate_ok {
        let mut msg = String::from_str("frame interpolation failed: ");
        msg.append(interpolate_stderr);
        return Err(PipelineAbort { reason: AbortReason::Failed(msg), remove_workdirs: true });
    }
    if output_frame_count == 0 {
        return Err(
            PipelineAbort {
                reason: AbortReason::Failed(String::from_str("interpolation produced no frames")),
                remove_workdirs: true,
            },
        );
    }
    if cancel_requested {
        return Err(PipelineAbort { reason: AbortReason::Cancelled, remove_workdirs: true });
    }
    Ok(())
}

/// Decide how the pipeline ends after the encoding phase, whose working
/// directories the host has already removed on both paths: a non-zero exit
/// fails, a zero exit completes the pipeline.
pub fn after_encode(encode_ok: bool) -> (r: Result<(), PipelineAbort>)
    ensures
        match r {
            Ok(_) => encode_ok,
            Err(abort) => !encode_ok && abort.remove_workdirs && (abort.reason
                matches AbortReason::Failed(d) && d@ == "video encoding failed"@),
        },
{
    if encode_ok {
        Ok(())
    } else {
        Err(
            PipelineAbort {
                reason: AbortReason::Failed(String::from_str("video encoding failed")),
                remove_workdirs: true,
            },
        )
    }
}

/// The rate the produced frames actually give over the input's duration, in
/// milli-fps: `frames / duration`, zero when the duration is unknown.
pub open spec fn achieved_rate_milli(frames: nat, duration_us: nat) -> nat {
    if duration_us == 0 {
        0
    } else {
        frames * 1_000_000_000 / duration_us
    }
}

/// Compute the achieved output rate in milli-fps, saturating into `u64`.
pub fn achieved_fps_milli(output_frame_count: u64, input_duration_us: u64) -> (r: u64)
    ensures
        r == crate::framerate::sat_u64(
            achieved_rate_milli(output_frame_count as nat, input_duration_us as nat),
        ),
{
    if input_duration_us == 0 {
        return 0;
    }
    let q: u128 = (output_frame_count as u128) * 1_000_000_000 / (input_duration_us as u128);
    if q > u64::MAX as u128 {
        u64::MAX
    } else {
        q as u64
    }
}

/// Whether the achieved rate misses the requested one by more than one frame
/// per second, so that the encode must apply a corrective rate filter.
pub open spec fn needs_corrective_filter(target_fps_milli: nat, achieved_fps_milli: nat) -> bool {
    crate::validation::abs_diff(target_fps_milli as int, achieved_fps_milli as int) > 1000
}

/// Decide whether the encode needs the corrective rate filter.
pub fn corrective_filter_needed(target_fps_milli: u64, achieved: u64) -> (r: bool)
    ensures
        r == needs_corrective_filter(target_fps_milli as nat, achieved as nat),
{
    let diff = if target_fps_milli >= achieved {
        target_fps_milli - achieved
    } else {
        achieved - target_fps_milli
    };
    diff > 1000
}

/// The model directory handed to the interpolation tool, given which of the
/// two installed locations the host found on disk; neither falls back to a
/// relative name.
pub open spec fn model_dir_chars(primary_exists: bool, secondary_exists: bool) -> Seq<char> {
    if primary_exists {
        "/usr/local/share/rife-ncnn-vulkan/rife-v4.6"@
    } else if secondary_exists {
        "/usr/local/share/rife-ncnn-vulkan/rife-v4"@
    } else {
        "rife-v4.6"@
    }
}

/// Select the model directory from the host's two existence checks.
pub fn select_model_dir(primary_exists: bool, secondary_exists: bool) -> (r: String)
    ensures
        r@ == model_dir_chars(primary_exists, secondary_exists),
{
    if primary_exists {
        String::from_str("/usr/local/share/rife-ncnn-vulkan/rife-v4.6")
    } else if secondary_exists {
        String::from_str("/usr/local/share/rife-ncnn-vulkan/rife-v4")
    } else {
        String::from_str("rife-v4.6")
    }
}

/// The sequential phases of the pipeline.
#[derive(Debug, Clone, Copy, PartialEq, Eq, Structural)]
pub enum RifePhase {
    Extract,
    Interpolate,
    Encode,
}

/// The label a phase announces through the progress surface's free-form
/// speed field, in place of a numeric speed.
pub open spec fn phase_label_chars(phase: RifePhase) -> Seq<char> {
    match phase {
        RifePhase::Extract => "extracting frames"@,
        RifePhase::Interpolate => "interpolating frames"@,
        RifePhase::Encode => "encoding video"@,
    }
}

/// Where a phase's coarse progress band starts, in hundredths of a percent:
/// extraction at 0, interpolation at 30, encoding at 80 percent.
pub open spec fn phase_band_centi(phase: RifePhase) -> nat {
    match phase {
        RifePhase::Extract => 0,
        RifePhase::Interpolate => 3000,
        RifePhase::Encode => 8000,
    }
}

/// The synthetic progress event announcing a phase's start: its band
/// percentage, zeroed numeric fields, and its label in the speed field. The
/// interpolation tool emits no parsable progress stream, so these phase
/// boundaries are the pipeline's progress reports.
pub fn phase_start_event(phase: RifePhase) -> (r: crate::progress::ProgressEvent)
    ensures
        r.progress_centi_pct == phase_band_centi(phase),
        r.frame == 0,
        r.fps_milli == 0,
        r.time_micros == 0,
        r.time@ == crate::timefmt::time_chars(0),
        r.speed@ == phase_label_chars(phase),
{
    let label = match phase {
        RifePhase::Extract => String::from_str("extracting frames"),
        RifePhase::Interpolate => String::from_str("interpolating frames"),
        RifePhase::Encode => String::from_str("encoding video"),
    };
    let band: u64 = match phase {
        RifePhase::Extract => 0,
        RifePhase::Interpolate => 3000,
        RifePhase::Encode => 8000,
    };
    crate::progress::ProgressEvent {
        progress_centi_pct: band,
        frame: 0,
        fps_milli: 0,
        time_micros: 0,
        time: crate::timefmt::format_time(0),
        speed: label,
    }
}

/// The synthetic progress event announcing the pipeline's completion: one
/// hundred percent, the input's full duration as elapsed time.
pub fn completion_event(input_duration_us: u64) -> (r: crate::progress::ProgressEvent)
    ensures
        r.progress_centi_pct == 10000,
        r.frame == 0,
        r.fps_milli == 0,
        r.time_micros == input_duration_us,
        r.time@ == crate::timefmt::time_chars(input_duration_us as nat),
        r.speed@ == "done"@,
{
    crate::progress::ProgressEvent {
        progress_centi_pct: 10000,
        frame: 0,
        fps_milli: 0,
        time_micros: input_duration_us,
        time: crate::timefmt::format_time(input_duration_us),
        speed: String::from_str("done"),
    }
}

/// The frame-file pattern inside a working directory.
pub open spec fn frames_pattern_chars(dir: Seq<char>) -> Seq<char> {
    dir + "/frame_%08d.png"@
}

/// Append the frame-file pattern to a working directory path.
pub fn frames_pattern(dir: &str) -> (r: String)
    ensures
        r@ == frames_pattern_chars(dir@),
{
    let mut s = String::from_str(dir);
    s.append("/frame_%08d.png");
    s
}

/// The argument list of the extraction phase: overwrite, read the input,
/// decompose it into high-quality sequential images in the first working
/// directory.
pub open spec fn extract_args_view(input_path: Seq<char>, frames_dir: Seq<char>) -> Seq<
    Seq<char>,
> {
    seq!["-y"@, "-i"@, input_path, "-qscale:v"@, "2"@, frames_pattern_chars(frames_dir)]
}

/// Build the extraction phase's argument list.
pub fn build_extract_args(input_path: &str, frames_dir: &str) -> (r: Vec<String>)
    ensures
        crate::command::strs_view(r@) == extract_args_view(input_path@, frames_dir@),
{
    let mut args: Vec<String> = Vec::new();
    args.push(String::from_str("-y"));
    args.push(String::from_str("-i"));
    args.push(String::from_str(input_path));
    args.push(String::from_str("-qscale:v"));
    args.push(String::from_str("2"));
    args.push(frames_pattern(frames_dir));
    proof {
        assert(crate::command::strs_view(args@) =~= extract_args_view(input_path@, frames_dir@));
    }
    args
}

/// The argument list of the interpolation tool: the input and output frame
/// directories, the model directory, the requested output frame count, and
/// the frame-file pattern.
pub open spec fn interpolate_args_view(
    input_frames_dir: Seq<char>,
    output_frames_dir: Seq<char>,
    model_dir: Seq<char>,
    requested_frames: nat,
) -> Seq<Seq<char>> {
    seq![
        "-i"@,
        input_frames_dir,
        "-o"@,
        output_frames_dir,
        "-m"@,
        model_dir,
        "-n"@,
        crate::strutil::u64_chars(requested_frames),
        "-f"@,
        "frame_%08d.png"@,
    ]
}

/// Build the interpolation tool's argument list.
pub fn build_interpolate_args(
    input_frames_dir: &str,
    output_frames_dir: &str,
    model_dir: &str,
    requested_frames: u64,
) -> (r: Vec<String>)
    ensures
        crate::command::strs_view(r@) == interpolate_args_view(
            input_frames_dir@,
            output_frames_dir@,
            model_dir@,
            requested_frames as nat,
        ),
{
    let mut args: Vec<String> = Vec::new();
    args.push(String::from_str("-i"));
    args.push(String::from_str(input_frames_dir));
    args.push(String::from_str("-o"));
    args.push(String::from_str(output_frames_dir));
    args.push(String::from_str("-m"));
    args.push(String::from_str(model_dir));
    args.push(String::from_str("-n"));
    args.push(crate::strutil::u64_to_string(requested_frames));
    args.push(String::from_str("-f"));
    args.push(String::from_str("frame_%08d.png"));
    proof {
        assert(crate::command::strs_view(args@) =~= interpolate_args_view(
            input_frames_dir@,
            output_frames_dir@,
            model_dir@,
            requested_frames as nat,
        ));
    }
    args
}

/// The argument list of the lossless audio side-extraction: drop the video,
/// copy the audio stream into the working directory.
pub open spec fn audio_extract_args_view(input_path: Seq<char>, audio_path: Seq<char>) -> Seq<
    Seq<char>,
> {
    seq!["-y"@, "-i"@, input_path, "-vn"@, "-acodec"@, "copy"@, audio_path]
}

/// Build the audio side-extraction's argument list.
pub fn build_audio_extract_args(input_path: &str, audio_path: &str) -> (r: Vec<String>)
    ensures
        crate::command::strs_view(r@) == audio_extract_args_view(input_path@, audio_path@),
{
    let mut args: Vec<String> = Vec::new();
    args.push(String::from_str("-y"));
    args.push(String::from_str("-i"));
    args.push(String::from_str(input_path));
    args.push(String::from_str("-vn"));
    args.push(String::from_str("-acodec"));
    args.push(String::from_str("copy"));
    args.push(String::from_str(audio_path));
    proof {
        assert(crate::command::strs_view(args@) =~= audio_extract_args_view(input_path@, audio_path@));
    }
    args
}

/// The argument list of the AI upscaler, which shares the interpolation
/// tool's directory-based contract: the input and output frame directories,
/// the model name, and the integer scale factor.
pub open spec fn upscale_args_view(
    input_frames_dir: Seq<char>,
    output_frames_dir: Seq<char>,
    model_name: Seq<char>,
    scale_factor: nat,
) -> Seq<Seq<char>> {
    seq![
        "-i"@,
        input_frames_dir,
        "-o"@,
        output_frames_dir,
        "-n"@,
        model_name,
        "-s"@,
        crate::strutil::u64_chars(scale_factor),
    ]
}

/// Build the AI upscaler's argument list.
pub fn build_upscale_args(
    input_frames_dir: &str,
    output_frames_dir: &str,
    model_name: &str,
    scale_factor: u32,
) -> (r: Vec<String>)
    ensures
        crate::command::strs_view(r@) == upscale_args_view(
            input_frames_dir@,
            output_frames_dir@,
            model_name@,
            scale_factor as nat,
        ),
{
    let mut args: Vec<String> = Vec::new();
    args.push(String::from_str("-i"));
    args.push(String::from_str(input_frames_dir));
    args.push(String::from_str("-o"));
    args.push(String::from_str(output_frames_dir));
    args.push(String::from_str("-n"));
    args.push(String::from_str(model_name));
    args.push(String::from_str("-s"));
    args.push(crate::strutil::u64_to_string(scale_factor as u64));
    proof {
        assert(crate::command::strs_view(args@) =~= upscale_args_view(
            input_frames_dir@,
            output_frames_dir@,
            model_name@,
            scale_factor as nat,
        ));
    }
    args
}

/// The audio arguments of the re-encode phase, present only when an audio
/// track was extracted: Opus for WebM and AAC elsewhere, at a fixed bitrate,
/// mapping the video from the frames input and the audio from the side file.
pub open spec fn encode_audio_args_view(
    format: crate::command::OutputFormat,
    audio_path: Option<Seq<char>>,
) -> Seq<Seq<char>> {
    match audio_path {
        Some(_) => seq![
            "-c:a"@,
            if format == crate::command::OutputFormat::Webm {
                "libopus"@
            } else {
                "aac"@
            },
            "-b:a"@,
            "192k"@,
            "-map"@,
            "0:v"@,
            "-map"@,
            "1:a"@,
        ],
        None => Seq::empty(),
    }
}

/// The corrective-rate arguments, present only when the achieved rate misses
/// the requested one by more than one frame per second.
pub open spec fn corrective_args_view(target_fps_milli: nat, achieved_fps_milli: nat) -> Seq<
    Seq<char>,
> {
    if needs_corrective_filter(target_fps_milli, achieved_fps_milli) {
        seq!["-filter:v"@, "fps="@ + crate::framerate::fps_milli_chars(target_fps_milli)]
    } else {
        Seq::empty()
    }
}

/// The full argument list of the re-encode phase: read the interpolated
/// frames at the achieved rate, attach the side-extracted audio when there
/// is one, select the codec exactly as single-pass mode does, apply the
/// corrective rate filter when needed, and write the final artifact.
pub open spec fn encode_args_view(
    output_frames_dir: Seq<char>,
    audio_path: Option<Seq<char>>,
    achieved_fps_milli: nat,
    target_fps_milli: nat,
    use_hw_accel: bool,
    use_hevc: bool,
    preset: crate::command::QualityPreset,
    format: crate::command::OutputFormat,
    output_path: Seq<char>,
) -> Seq<Seq<char>> {
    seq!["-y"@, "-framerate"@, crate::framerate::fps_milli_chars(achieved_fps_milli), "-i"@,
        frames_pattern_chars(output_frames_dir)] + (match audio_path {
        Some(a) => seq!["-i"@, a],
        None => Seq::<Seq<char>>::empty(),
    }) + crate::command::codec_args_view(format, use_hw_accel, use_hevc, preset)
        + encode_audio_args_view(
        format,
        audio_path,
    ) + corrective_args_view(target_fps_milli, achieved_fps_milli) + seq![output_path]
}

/// Build the re-encode phase's argument list.
#[verifier::rlimit(100)]
pub fn build_encode_args(
    output_frames_dir: &str,
    audio_path: Option<&str>,
    achieved_fps_milli: u64,
    target_fps_milli: u64,
    use_hw_accel: bool,
    use_hevc: bool,
    preset: crate::command::QualityPreset,
    format: crate::command::OutputFormat,
    output_path: &str,
) -> (r: Vec<String>)
    ensures
        crate::command::strs_view(r@) == encode_args_view(
            output_frames_dir@,
            match audio_path {
                Some(a) => Some(a@),
                None => None,
            },
            achieved_fps_milli as nat,
            target_fps_milli as nat,
            use_hw_accel,
            use_hevc,
            preset,
            format,
            output_path@,
        ),
{
    let mut args: Vec<String> = Vec::new();
    args.push(String::from_str("-y"));
    args.push(String::from_str("-framerate"));
    args.push(crate::framerate::format_fps_milli(achieved_fps_milli));
    args.push(String::from_str("-i"));
    args.push(frames_pattern(output_frames_dir));
    match audio_path {
        Some(a) => {
            args.push(String::from_str("-i"));
            args.push(String::from_str(a));
        },
        None => {},
    }
    crate::command::push_codec_args(&mut args, format, use_hw_accel, use_hevc, preset);
    match audio_path {
        Some(_) => {
            args.push(String::from_str("-c:a"));
            if matches!(format, crate::command::OutputFormat::Webm) {
                args.push(String::from_str("libopus"));
            } else {
                args.push(String::from_str("aac"));
            }
            args.push(String::from_str("-b:a"));
            args.push(String::from_str("192k"));
            args.push(String::from_str("-map"));
            args.push(String::from_str("0:v"));
            args.push(String::from_str("-map"));
            args.push(String::from_str("1:a"));
        },
        None => {},
    }
    if corrective_filter_needed(target_fps_milli, achieved_fps_milli) {
        args.push(String::from_str("-filter:v"));
        let mut f = String::from_str("fps=");
        let fps = crate::framerate::format_fps_milli(target_fps_milli);
        f.append(fps.as_str());
        args.push(f);
    }
    args.push(String::from_str(output_path));
    proof {
        broadcast use crate::command::lemma_strs_view_push;

        crate::command::lemma_strs_view_empty();
        assert(crate::command::strs_view(args@) =~= encode_args_view(
            output_frames_dir@,
            match audio_path {
                Some(a) => Some(a@),
                None => None,
            },
            achieved_fps_milli as nat,
            target_fps_milli as nat,
            use_hw_accel,
            use_hevc,
            preset,
            format,
            output_path@,
        ));
    }
    args
}

} // verus!
