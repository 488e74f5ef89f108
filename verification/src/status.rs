//! Tool availability: deriving the status report from the host's lookups of
//! the transcoder, the prober, and the AI tools, and from the transcoder's
//! own version and encoder listings.

use crate::strutil::{contains_seq, first_line, first_newline, str_contains};
use vstd::prelude::*;

verus! {

/// Availability of the external tools, as reported to the caller at
/// availability-check time (not at job time).
#[derive(Debug)]
pub struct FFmpegStatus {
    pub available: bool,
    pub ffmpeg_path: Option<String>,
    pub ffprobe_path: Option<String>,
    pub version: Option<String>,
    pub videotoolbox_available: bool,
    pub hevc_available: bool,
    pub rife_available: bool,
    pub rife_path: Option<String>,
    pub realesrgan_available: bool,
    pub realesrgan_path: Option<String>,
}

/// The version line reported for the transcoder: the first line of its
/// version output, or `unknown` when that output is empty.
pub open spec fn version_line_chars(output: Seq<char>) -> Seq<char> {
    if output.len() == 0 {
        "unknown"@
    } else {
        output.take(first_newline(output))
    }
}

/// An optional looked-up tool path, kept only when it is non-empty.
pub open spec fn nonempty_path(p: Option<String>) -> Option<String> {
    match p {
        Some(s) => if s@.len() > 0 {
            Some(s)
        } else {
            None
        },
        None => None,
    }
}

/// Derive the availability report from the host's raw checks: the looked-up
/// binary paths (present when the lookup succeeded), the transcoder's
/// version output, and its encoder listing. The transcoder stack is
/// available when both the transcoder and the prober were found; each
/// hardware encoder is available when the listing names it; an AI tool is
/// available when its lookup gave a non-empty path.
pub fn ffmpeg_status_from_checks(
    ffmpeg_path: Option<String>,
    ffprobe_path: Option<String>,
    version_output: Option<String>,
    encoders_output: Option<String>,
    rife_path: Option<String>,
    realesrgan_path: Option<String>,
) -> (r: FFmpegStatus)
    ensures
        r.available == (ffmpeg_path is Some && ffprobe_path is Some),
        r.ffmpeg_path == ffmpeg_path,
        r.ffprobe_path == ffprobe_path,
        (match version_output {
            Some(t) => r.version matches Some(v) && v@ == version_line_chars(t@),
            None => r.version is None,
        }),
        r.videotoolbox_available == (match encoders_output {
            Some(t) => contains_seq(t@, "h264_videotoolbox"@),
            None => false,
        }),
        r.hevc_available == (match encoders_output {
            Some(t) => contains_seq(t@, "hevc_videotoolbox"@),
            None => false,
        }),
        r.rife_path == nonempty_path(rife_path),
        r.rife_available == (nonempty_path(rife_path) is Some),
        r.realesrgan_path == nonempty_path(realesrgan_path),
        r.realesrgan_available == (nonempty_path(realesrgan_path) is Some),
{
    let available = ffmpeg_path.is_some() && ffprobe_path.is_some();
    let version = match &version_output {
        Some(t) => {
            if t.as_str().unicode_len() == 0 {
                Some(String::from_str("unknown"))
            } else {
                Some(first_line(t.as_str()))
            }
        },
        None => None,
    };
    let (videotoolbox_available, hevc_available) = match &encoders_output {
        Some(t) => (
            str_contains(t.as_str(), "h264_videotoolbox"),
            str_contains(t.as_str(), "hevc_videotoolbox"),
        ),
        None => (false, false),
    };
    let rife = keep_nonempty(rife_path);
    let realesrgan = keep_nonempty(realesrgan_path);
    let rife_available = rife.is_some();
    let realesrgan_available = realesrgan.is_some();
    FFmpegStatus {
        available,
        ffmpeg_path,
        ffprobe_path,
        version,
        videotoolbox_available,
        hevc_available,
        rife_available,
        rife_path: rife,
        realesrgan_available,
        realesrgan_path: realesrgan,
    }
}

/// Keep a looked-up path only when it is non-empty.
fn keep_nonempty(p: Option<String>) -> (r: Option<String>)
    ensures
        r == nonempty_path(p),
{
    match p {
        Some(s) => {
            if s.as_str().unicode_len() > 0 {
                Some(s)
            } else {
                None
            }
        },
        None => None,
    }
}

} // verus!
