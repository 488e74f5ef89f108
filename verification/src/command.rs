//! Building transcoder invocations: the interpolation filter, codec and
//! quality selection, and the full argument list for a single-pass
//! rate-conversion run. A built command is never mutated afterwards.

use crate::framerate::fps_milli_chars;
use crate::strutil::{str_eq, u64_chars};
use vstd::prelude::*;

verus! {

/// The views of a sequence of owned strings.
pub open spec fn strs_view(v: Seq<String>) -> Seq<Seq<char>> {
    Seq::new(v.len(), |i: int| v[i]@)
}

/// Appending one string appends its view.
pub broadcast proof fn lemma_strs_view_push(v: Seq<String>, s: String)
    ensures
        #[trigger] strs_view(v.push(s)) == strs_view(v).push(s@),
{
    assert(strs_view(v.push(s)) =~= strs_view(v).push(s@));
}

/// The view of an empty string sequence is empty.
pub proof fn lemma_strs_view_empty()
    ensures
        strs_view(Seq::<String>::empty()) == Seq::<Seq<char>>::empty(),
{
    assert(strs_view(Seq::<String>::empty()) =~= Seq::<Seq<char>>::empty());
}

/// Interpolation method for frame rate conversion.
#[derive(Debug, Clone, Copy, PartialEq, Eq, Structural)]
pub enum InterpolationMethod {
    /// Motion-compensated interpolation: highest quality, slowest.
    Minterpolate,
    /// Frame blending: balanced quality and speed.
    Framerate,
    /// Simple frame duplication: fastest, lowest quality.
    Duplicate,
}

/// The method a method string denotes; anything unrecognized falls back to
/// motion-compensated interpolation.
pub open spec fn spec_method_from_str(s: Seq<char>) -> InterpolationMethod {
    if s == "framerate"@ {
        InterpolationMethod::Framerate
    } else if s == "duplicate"@ {
        InterpolationMethod::Duplicate
    } else {
        InterpolationMethod::Minterpolate
    }
}

impl InterpolationMethod {
    /// Read a method from its name.
    pub fn from_str(s: &str) -> (r: Self)
        ensures
            r == spec_method_from_str(s@),
    {
        if str_eq(s, "framerate") {
            InterpolationMethod::Framerate
        } else if str_eq(s, "duplicate") {
            InterpolationMethod::Duplicate
        } else {
            InterpolationMethod::Minterpolate
        }
    }
}

/// Quality preset tiers for encoding.
#[derive(Debug, Clone, Copy, PartialEq, Eq, Structural)]
pub enum QualityPreset {
    Fast,
    Balanced,
    Quality,
}

/// The preset an optional preset string denotes; absent or unrecognized
/// strings fall back to balanced.
pub open spec fn spec_preset_from_str(s: Option<Seq<char>>) -> QualityPreset {
    match s {
        Some(t) => if t == "fast"@ {
            QualityPreset::Fast
        } else if t == "balanced"@ {
            QualityPreset::Balanced
        } else if t == "quality"@ {
            QualityPreset::Quality
        } else {
            QualityPreset::Balanced
        },
        None => QualityPreset::Balanced,
    }
}

/// Read a quality preset from an optional name.
pub fn preset_from_str(s: Option<&str>) -> (r: QualityPreset)
    ensures
        r == spec_preset_from_str(match s {
            Some(t) => Some(t@),
            None => None,
        }),
{
    match s {
        Some(t) => {
            if str_eq(t, "fast") {
                QualityPreset::Fast
            } else if str_eq(t, "balanced") {
                QualityPreset::Balanced
            } else if str_eq(t, "quality") {
                QualityPreset::Quality
            } else {
                QualityPreset::Balanced
            }
        },
        None => QualityPreset::Balanced,
    }
}

/// Target container and codec family.
#[derive(Debug, Clone, Copy, PartialEq, Eq, Structural)]
pub enum OutputFormat {
    Mp4,
    Mov,
    Mkv,
    Webm,
}

/// The format an optional format string denotes; absent or unrecognized
/// strings fall back to MP4, which shares its behaviour with MOV.
pub open spec fn spec_format_from_str(s: Option<Seq<char>>) -> OutputFormat {
    match s {
        Some(t) => if t == "webm"@ {
            OutputFormat::Webm
        } else if t == "mkv"@ {
            OutputFormat::Mkv
        } else if t == "mov"@ {
            OutputFormat::Mov
        } else {
            OutputFormat::Mp4
        },
        None => OutputFormat::Mp4,
    }
}

/// Read an output format from an optional name.
pub fn format_from_str(s: Option<&str>) -> (r: OutputFormat)
    ensures
        r == spec_format_from_str(match s {
            Some(t) => Some(t@),
            None => None,
        }),
{
    match s {
        Some(t) => {
            if str_eq(t, "webm") {
                OutputFormat::Webm
            } else if str_eq(t, "mkv") {
                OutputFormat::Mkv
            } else if str_eq(t, "mov") {
                OutputFormat::Mov
            } else {
                OutputFormat::Mp4
            }
        },
        None => OutputFormat::Mp4,
    }
}

/// The filter expression for a conversion method at a target rate.
pub open spec fn filter_chars(method: InterpolationMethod, target_fps_milli: nat) -> Seq<char> {
    match method {
        InterpolationMethod::Minterpolate => "minterpolate=fps="@ + fps_milli_chars(
            target_fps_milli,
        ) + ":mi_mode=mci:mc_mode=aobmc:me_mode=bidir:vsbmc=1"@,
        InterpolationMethod::Framerate => "framerate=fps="@ + fps_milli_chars(target_fps_milli)
            + ":interp_start=0:interp_end=255:scene=8.2"@,
        InterpolationMethod::Duplicate => "fps="@ + fps_milli_chars(target_fps_milli),
    }
}

/// Build the filter expression for a conversion method at a target rate.
pub fn build_filter(method: InterpolationMethod, target_fps_milli: u64) -> (r: String)
    ensures
        r@ == filter_chars(method, target_fps_milli as nat),
{
    let fps = crate::framerate::format_fps_milli(target_fps_milli);
    match method {
        InterpolationMethod::Minterpolate => {
            let mut s = String::from_str("minterpolate=fps=");
            s.append(fps.as_str());
            s.append(":mi_mode=mci:mc_mode=aobmc:me_mode=bidir:vsbmc=1");
            proof {
                assert(s@ =~= filter_chars(method, target_fps_milli as nat));
            }
            s
        },
        InterpolationMethod::Framerate => {
            let mut s = String::from_str("framerate=fps=");
            s.append(fps.as_str());
            s.append(":interp_start=0:interp_end=255:scene=8.2");
            proof {
                assert(s@ =~= filter_chars(method, target_fps_milli as nat));
            }
            s
        },
        InterpolationMethod::Duplicate => {
            let mut s = String::from_str("fps=");
            s.append(fps.as_str());
            proof {
                assert(s@ =~= filter_chars(method, target_fps_milli as nat));
            }
            s
        },
    }
}

/// The video-codec arguments for the single-pass converter: VP9 for WebM;
/// otherwise hardware H.264/HEVC when hardware encoding is chosen, else
/// software H.264/HEVC, each with its preset's quality value.
pub open spec fn codec_args_view(
    format: OutputFormat,
    use_hw_accel: bool,
    use_hevc: bool,
    preset: QualityPreset,
) -> Seq<Seq<char>> {
    if format == OutputFormat::Webm {
        seq!["-c:v"@, "libvpx-vp9"@, "-crf"@, vp9_crf_chars(preset), "-b:v"@, "0"@]
    } else if use_hw_accel && use_hevc {
        seq![
            "-c:v"@,
            "hevc_videotoolbox"@,
            "-q:v"@,
            hw_quality_chars(preset),
            "-tag:v"@,
            "hvc1"@,
            "-allow_sw"@,
            "1"@,
        ]
    } else if use_hw_accel {
        seq![
            "-c:v"@,
            "h264_videotoolbox"@,
            "-q:v"@,
            hw_quality_chars(preset),
            "-allow_sw"@,
            "1"@,
        ]
    } else if use_hevc {
        seq![
            "-c:v"@,
            "libx265"@,
            "-preset"@,
            "medium"@,
            "-crf"@,
            hevc_crf_chars(preset),
            "-tag:v"@,
            "hvc1"@,
        ]
    } else {
        seq!["-c:v"@, "libx264"@, "-preset"@, "medium"@, "-crf"@, h264_crf_chars(preset)]
    }
}

/// Quality value handed to the hardware encoders, per preset.
pub open spec fn hw_quality_chars(preset: QualityPreset) -> Seq<char> {
    match preset {
        QualityPreset::Fast => "50"@,
        QualityPreset::Balanced => "65"@,
        QualityPreset::Quality => "80"@,
    }
}

/// Constant rate factor for software H.264, per preset.
pub open spec fn h264_crf_chars(preset: QualityPreset) -> Seq<char> {
    match preset {
        QualityPreset::Fast => "23"@,
        QualityPreset::Balanced => "18"@,
        QualityPreset::Quality => "15"@,
    }
}

/// Constant rate factor for software HEVC, per preset.
pub open spec fn hevc_crf_chars(preset: QualityPreset) -> Seq<char> {
    match preset {
        QualityPreset::Fast => "28"@,
        QualityPreset::Balanced => "23"@,
        QualityPreset::Quality => "18"@,
    }
}

/// Constant rate factor for VP9, per preset.
pub open spec fn vp9_crf_chars(preset: QualityPreset) -> Seq<char> {
    match preset {
        QualityPreset::Fast => "35"@,
        QualityPreset::Balanced => "30"@,
        QualityPreset::Quality => "25"@,
    }
}

/// The audio codec for a container in single-pass mode: Opus for WebM, a
/// passthrough copy elsewhere.
pub open spec fn audio_codec_chars(format: OutputFormat) -> Seq<char> {
    if format == OutputFormat::Webm {
        "libopus"@
    } else {
        "copy"@
    }
}

/// Push the video-codec arguments onto an argument list.
pub(crate) fn push_codec_args(
    args: &mut Vec<String>,
    format: OutputFormat,
    use_hw_accel: bool,
    use_hevc: bool,
    preset: QualityPreset,
)
    ensures
        strs_view(final(args)@) == strs_view(old(args)@) + codec_args_view(
            format,
            use_hw_accel,
            use_hevc,
            preset,
        ),
{
    if format == OutputFormat::Webm {
        args.push(String::from_str("-c:v"));
        args.push(String::from_str("libvpx-vp9"));
        args.push(String::from_str("-crf"));
        match preset {
            QualityPreset::Fast => args.push(String::from_str("35")),
            QualityPreset::Balanced => args.push(String::from_str("30")),
            QualityPreset::Quality => args.push(String::from_str("25")),
        }
        args.push(String::from_str("-b:v"));
        args.push(String::from_str("0"));
        proof {
            assert(strs_view(final(args)@) =~= strs_view(old(args)@) + codec_args_view(
                format,
                use_hw_accel,
                use_hevc,
                preset,
            ));
        }
    } else if use_hw_accel && use_hevc {
        args.push(String::from_str("-c:v"));
        args.push(String::from_str("hevc_videotoolbox"));
        args.push(String::from_str("-q:v"));
        match preset {
            QualityPreset::Fast => args.push(String::from_str("50")),
            QualityPreset::Balanced => args.push(String::from_str("65")),
            QualityPreset::Quality => args.push(String::from_str("80")),
        }
        args.push(String::from_str("-tag:v"));
        args.push(String::from_str("hvc1"));
        args.push(String::from_str("-allow_sw"));
        args.push(String::from_str("1"));
        proof {
            assert(strs_view(final(args)@) =~= strs_view(old(args)@) + codec_args_view(
                format,
                use_hw_accel,
                use_hevc,
                preset,
            ));
        }
    } else if use_hw_accel {
        args.push(String::from_str("-c:v"));
        args.push(String::from_str("h264_videotoolbox"));
        args.push(String::from_str("-q:v"));
        match preset {
            QualityPreset::Fast => args.push(String::from_str("50")),
            QualityPreset::Balanced => args.push(String::from_str("65")),
            QualityPreset::Quality => args.push(String::from_str("80")),
        }
        args.push(String::from_str("-allow_sw"));
        args.push(String::from_str("1"));
        proof {
            assert(strs_view(final(args)@) =~= strs_view(old(args)@) + codec_args_view(
                format,
                use_hw_accel,
                use_hevc,
                preset,
            ));
        }
    } else if use_hevc {
        args.push(String::from_str("-c:v"));
        args.push(String::from_str("libx265"));
        args.push(String::from_str("-preset"));
        args.push(String::from_str("medium"));
        args.push(String::from_str("-crf"));
        match preset {
            QualityPreset::Fast => args.push(String::from_str("28")),
            QualityPreset::Balanced => args.push(String::from_str("23")),
            QualityPreset::Quality => args.push(String::from_str("18")),
        }
        args.push(String::from_str("-tag:v"));
        args.push(String::from_str("hvc1"));
        proof {
            assert(strs_view(final(args)@) =~= strs_view(old(args)@) + codec_args_view(
                format,
                use_hw_accel,
                use_hevc,
                preset,
            ));
        }
    } else {
        args.push(String::from_str("-c:v"));
        args.push(String::from_str("libx264"));
        args.push(String::from_str("-preset"));
        args.push(String::from_str("medium"));
        args.push(String::from_str("-crf"));
        match preset {
            QualityPreset::Fast => args.push(String::from_str("23")),
            QualityPreset::Balanced => args.push(String::from_str("18")),
            QualityPreset::Quality => args.push(String::from_str("15")),
        }
        proof {
            assert(strs_view(final(args)@) =~= strs_view(old(args)@) + codec_args_view(
                format,
                use_hw_accel,
                use_hevc,
                preset,
            ));
        }
    }
}

/// The full argument list of a single-pass conversion: overwrite the output,
/// auto-detect threads, read the input, apply the interpolation filter, use
/// the selected codec and audio handling, and stream machine-readable
/// progress on standard output.
pub open spec fn convert_args_view(
    input_path: Seq<char>,
    output_path: Seq<char>,
    method: InterpolationMethod,
    target_fps_milli: nat,
    use_hw_accel: bool,
    use_hevc: bool,
    preset: QualityPreset,
    format: OutputFormat,
) -> Seq<Seq<char>> {
    seq!["-y"@, "-threads"@, "0"@, "-i"@, input_path, "-filter:v"@, filter_chars(
        method,
        target_fps_milli,
    ), "-filter_threads"@, "0"@] + codec_args_view(format, use_hw_accel, use_hevc, preset) + seq![
        "-c:a"@,
        audio_codec_chars(format),
        "-progress"@,
        "pipe:1"@,
        "-nostats"@,
        output_path,
    ]
}

/// Build the argument list of a single-pass conversion.
pub fn build_convert_args(
    input_path: &str,
    output_path: &str,
    method: InterpolationMethod,
    target_fps_milli: u64,
    use_hw_accel: bool,
    use_hevc: bool,
    preset: QualityPreset,
    format: OutputFormat,
) -> (r: Vec<String>)
    ensures
        strs_view(r@) == convert_args_view(
            input_path@,
            output_path@,
            method,
            target_fps_milli as nat,
            use_hw_accel,
            use_hevc,
            preset,
            format,
        ),
{
    let mut args: Vec<String> = Vec::new();
    args.push(String::from_str("-y"));
    args.push(String::from_str("-threads"));
    args.push(String::from_str("0"));
    args.push(String::from_str("-i"));
    args.push(String::from_str(input_path));
    args.push(String::from_str("-filter:v"));
    args.push(build_filter(method, target_fps_milli));
    args.push(String::from_str("-filter_threads"));
    args.push(String::from_str("0"));
    push_codec_args(&mut args, format, use_hw_accel, use_hevc, preset);
    args.push(String::from_str("-c:a"));
    if format == OutputFormat::Webm {
        args.push(String::from_str("libopus"));
    } else {
        args.push(String::from_str("copy"));
    }
    args.push(String::from_str("-progress"));
    args.push(String::from_str("pipe:1"));
    args.push(String::from_str("-nostats"));
    args.push(String::from_str(output_path));
    proof {
        broadcast use lemma_strs_view_push;

        lemma_strs_view_empty();
        assert(strs_view(args@) =~= convert_args_view(
            input_path@,
            output_path@,
            method,
            target_fps_milli as nat,
            use_hw_accel,
            use_hevc,
            preset,
            format,
        ));
    }
    args
}

/// The argument list of a size-targeted compression: overwrite the output,
/// read the input, cap the video bitrate at the given figure in kilobits per
/// second, optionally scale to a requested frame size, force the software
/// encoder when hardware encoding is declined, and stream machine-readable
/// progress. The container is chosen by the output path's extension.
pub open spec fn compress_args_view(
    input_path: Seq<char>,
    output_path: Seq<char>,
    bitrate_kbps: nat,
    scale: Option<(u32, u32)>,
    use_hw_accel: bool,
) -> Seq<Seq<char>> {
    seq!["-y"@, "-i"@, input_path, "-b:v"@, u64_chars(bitrate_kbps) + "k"@] + (match scale {
        Some(dims) => seq![
            "-vf"@,
            "scale="@ + u64_chars(dims.0 as nat) + ":"@ + u64_chars(dims.1 as nat),
        ],
        None => Seq::<Seq<char>>::empty(),
    }) + (if use_hw_accel {
        Seq::<Seq<char>>::empty()
    } else {
        seq!["-c:v"@, "libx264"@]
    }) + seq!["-progress"@, "pipe:1"@, "-nostats"@, output_path]
}

/// Build the argument list of a size-targeted compression.
pub fn build_compress_args(
    input_path: &str,
    output_path: &str,
    bitrate_kbps: u64,
    scale: Option<(u32, u32)>,
    use_hw_accel: bool,
) -> (r: Vec<String>)
    ensures
        strs_view(r@) == compress_args_view(
            input_path@,
            output_path@,
            bitrate_kbps as nat,
            scale,
            use_hw_accel,
        ),
{
    proof {
        reveal_strlit("k");
        reveal_strlit(":");
    }
    let mut args: Vec<String> = Vec::new();
    args.push(String::from_str("-y"));
    args.push(String::from_str("-i"));
    args.push(String::from_str(input_path));
    args.push(String::from_str("-b:v"));
    let mut rate = crate::strutil::u64_to_string(bitrate_kbps);
    rate.append("k");
    args.push(rate);
    match scale {
        Some((w, h)) => {
            args.push(String::from_str("-vf"));
            let mut f = String::from_str("scale=");
            let ws = crate::strutil::u64_to_string(w as u64);
            f.append(ws.as_str());
            f.append(":");
            let hs = crate::strutil::u64_to_string(h as u64);
            f.append(hs.as_str());
            args.push(f);
        },
        None => {},
    }
    if !use_hw_accel {
        args.push(String::from_str("-c:v"));
        args.push(String::from_str("libx264"));
    }
    args.push(String::from_str("-progress"));
    args.push(String::from_str("pipe:1"));
    args.push(String::from_str("-nostats"));
    args.push(String::from_str(output_path));
    proof {
        broadcast use lemma_strs_view_push;

        lemma_strs_view_empty();
        assert(strs_view(args@) =~= compress_args_view(
            input_path@,
            output_path@,
            bitrate_kbps as nat,
            scale,
            use_hw_accel,
        ));
    }
    args
}

/// The audio-padding filter: silence prepended with a millisecond delay on
/// every channel, and silence appended for a microsecond-precise duration.
pub open spec fn audio_pad_filter_chars(
    padding_before_us: nat,
    padding_after_us: nat,
) -> Seq<char> {
    "adelay="@ + u64_chars(padding_before_us / 1000) + ":all=1,apad=pad_dur="@ + u64_chars(
        padding_after_us,
    ) + "us"@
}

/// Build the audio-padding filter expression.
pub fn build_audio_pad_filter(padding_before_us: u64, padding_after_us: u64) -> (r: String)
    ensures
        r@ == audio_pad_filter_chars(padding_before_us as nat, padding_after_us as nat),
{
    let mut f = String::from_str("adelay=");
    let before = crate::strutil::u64_to_string(padding_before_us / 1000);
    f.append(before.as_str());
    f.append(":all=1,apad=pad_dur=");
    let after = crate::strutil::u64_to_string(padding_after_us);
    f.append(after.as_str());
    f.append("us");
    proof {
        assert(f@ =~= audio_pad_filter_chars(padding_before_us as nat, padding_after_us as nat));
    }
    f
}

/// The argument list of an audio-padding run: overwrite, read the input,
/// apply the padding filter, and stream machine-readable progress.
pub open spec fn audio_pad_args_view(
    input_path: Seq<char>,
    output_path: Seq<char>,
    padding_before_us: nat,
    padding_after_us: nat,
) -> Seq<Seq<char>> {
    seq![
        "-y"@,
        "-i"@,
        input_path,
        "-af"@,
        audio_pad_filter_chars(padding_before_us, padding_after_us),
        "-progress"@,
        "pipe:1"@,
        "-nostats"@,
        output_path,
    ]
}

/// Build the argument list of an audio-padding run.
pub fn build_audio_pad_args(
    input_path: &str,
    output_path: &str,
    padding_before_us: u64,
    padding_after_us: u64,
) -> (r: Vec<String>)
    ensures
        strs_view(r@) == audio_pad_args_view(
            input_path@,
            output_path@,
            padding_before_us as nat,
            padding_after_us as nat,
        ),
{
    let mut args: Vec<String> = Vec::new();
    args.push(String::from_str("-y"));
    args.push(String::from_str("-i"));
    args.push(String::from_str(input_path));
    args.push(String::from_str("-af"));
    args.push(build_audio_pad_filter(padding_before_us, padding_after_us));
    args.push(String::from_str("-progress"));
    args.push(String::from_str("pipe:1"));
    args.push(String::from_str("-nostats"));
    args.push(String::from_str(output_path));
    proof {
        assert(strs_view(args@) =~= audio_pad_args_view(
            input_path@,
            output_path@,
            padding_before_us as nat,
            padding_after_us as nat,
        ));
    }
    args
}

/// An external command, fully determined before it is spawned and immutable
/// afterwards: a binary name and its ordered arguments.
#[derive(Debug)]
pub struct CommandSpec {
    pub program: String,
    pub args: Vec<String>,
}

/// The single-pass conversion command for the transcoder binary.
pub fn convert_command(
    input_path: &str,
    output_path: &str,
    method: InterpolationMethod,
    target_fps_milli: u64,
    use_hw_accel: bool,
    use_hevc: bool,
    preset: QualityPreset,
    format: OutputFormat,
) -> (r: CommandSpec)
    ensures
        r.program@ == "ffmpeg"@,
        strs_view(r.args@) == convert_args_view(
            input_path@,
            output_path@,
            method,
            target_fps_milli as nat,
            use_hw_accel,
            use_hevc,
            preset,
            format,
        ),
{
    CommandSpec {
        program: String::from_str("ffmpeg"),
        args: build_convert_args(
            input_path,
            output_path,
            method,
            target_fps_milli,
            use_hw_accel,
            use_hevc,
            preset,
            format,
        ),
    }
}

} // verus!
