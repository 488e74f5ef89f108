//! The probe collaborator's data model: turning the probing tool's JSON
//! metadata into plain values, deriving a media description with documented
//! defaults and a distinct error for each hard-missing field, computing tool
//! availability from the host's checks, and framing the preview thumbnail.

use crate::framerate::{dec_fits, frame_rate_milli, parse_frame_rate, sat_u64};
use crate::strutil::{all_digits, dec_val_scaled, digits_val, str_eq};
use vstd::prelude::*;

verus! {

/// The probing tool's JSON document, carried opaquely through the field
/// extraction.
#[verifier::external_type_specification]
#[verifier::external_body]
pub struct ExValue(serde_json::Value);

/// The JSON parser's error, carried opaquely until its text is taken.
#[verifier::external_type_specification]
#[verifier::external_body]
pub struct ExJsonError(serde_json::Error);

/// Whether a text is a well-formed JSON document, as the JSON parser accepts
/// it; a function of the text alone.
pub uninterp spec fn json_ok_of(text: Seq<char>) -> bool;

/// Relies on serde_json::from_str: parses a JSON document, succeeding exactly
/// on well-formed text, or reports why the text is malformed. The parser's
/// outcome depends on the text alone; nothing is assumed of the parsed value
/// or of the error beyond that split.
#[verifier::external_body]
fn json_parse(text: &str) -> (r: Result<serde_json::Value, serde_json::Error>)
    ensures
        r is Ok <==> json_ok_of(text@),
{
    serde_json::from_str(text)
}

/// Relies on serde_json::Error's display rendering: turns the parser's error
/// into its diagnostic text.
#[verifier::external_body]
fn json_error_text(e: &serde_json::Error) -> String {
    e.to_string()
}

/// Relies on serde_json::Value::get: looks a key up in a JSON object,
/// yielding nothing when the value is no object or lacks the key.
#[verifier::external_body]
fn value_get<'a>(v: &'a serde_json::Value, key: &str) -> Option<&'a serde_json::Value> {
    v.get(key)
}

/// Relies on serde_json::Value::as_array: the element vector of a JSON
/// array, nothing otherwise.
#[verifier::external_body]
fn value_as_array<'a>(v: &'a serde_json::Value) -> Option<&'a Vec<serde_json::Value>> {
    v.as_array()
}

/// Relies on serde_json::Value::as_str: the text of a JSON string, owned,
/// nothing otherwise.
#[verifier::external_body]
fn value_as_string(v: &serde_json::Value) -> Option<String> {
    match v.as_str() {
        Some(s) => Some(s.to_owned()),
        None => None,
    }
}

/// Relies on serde_json::Value::as_u64: the value of a JSON unsigned
/// integer, nothing otherwise.
#[verifier::external_body]
fn value_as_u64(v: &serde_json::Value) -> Option<u64> {
    v.as_u64()
}

/// The plain values the metadata logic reads from a probe document: whether
/// the stream list and a video stream exist, and that stream's raw fields.
#[derive(Debug)]
pub struct ProbeFields {
    pub has_streams: bool,
    pub has_video_stream: bool,
    pub width: Option<u64>,
    pub height: Option<u64>,
    pub codec: Option<String>,
    pub r_frame_rate: Option<String>,
    pub avg_frame_rate: Option<String>,
    pub format_duration: Option<String>,
    pub stream_duration: Option<String>,
    pub bit_rate: Option<String>,
}

/// Why a probe result cannot describe a video.
#[derive(Debug)]
pub enum ProbeError {
    /// The metadata text was not well-formed JSON; carries the parser's text.
    MalformedMetadata(String),
    /// The document holds no stream list.
    NoStreams,
    /// No stream in the list is a video stream.
    NoVideoStream,
    /// The video stream gives no width.
    NoWidth,
    /// The video stream gives no height.
    NoHeight,
}

impl ProbeError {
    /// The human-readable message of this error.
    pub fn message(&self) -> (r: String)
        ensures
            r@ == probe_error_chars(self),
    {
        match self {
            ProbeError::MalformedMetadata(t) => {
                let mut s = String::from_str("metadata is not well-formed: ");
                s.append(t.as_str());
                s
            },
            ProbeError::NoStreams => String::from_str("no stream information found"),
            ProbeError::NoVideoStream => String::from_str("no video stream found"),
            ProbeError::NoWidth => String::from_str("video stream has no width"),
            ProbeError::NoHeight => String::from_str("video stream has no height"),
        }
    }
}

/// The message each probe error carries.
pub open spec fn probe_error_chars(e: &ProbeError) -> Seq<char> {
    match e {
        ProbeError::MalformedMetadata(t) => "metadata is not well-formed: "@ + t@,
        ProbeError::NoStreams => "no stream information found"@,
        ProbeError::NoVideoStream => "no video stream found"@,
        ProbeError::NoWidth => "video stream has no width"@,
        ProbeError::NoHeight => "video stream has no height"@,
    }
}

/// Extract the plain metadata fields from the probing tool's JSON text. It
/// fails exactly on text the JSON parser rejects, with the malformed-metadata
/// error; the container-level fields are read whether or not a video stream
/// exists, so audio-only files keep their duration. The values inside the
/// document are opaque to the contracts here; `video_info_from_fields`
/// carries the exact rules over whatever fields came back.
pub fn probe_fields_from_json(text: &str) -> (r: Result<ProbeFields, ProbeError>)
    ensures
        r is Err <==> !json_ok_of(text@),
        r matches Err(e) ==> e is MalformedMetadata,
{
    let parsed = match json_parse(text) {
        Ok(v) => v,
        Err(e) => {
            return Err(ProbeError::MalformedMetadata(json_error_text(&e)));
        },
    };
    let format = value_get(&parsed, "format");
    let format_duration = match format {
        Some(f) => match value_get(f, "duration") {
            Some(d) => value_as_string(d),
            None => None,
        },
        None => None,
    };
    let bit_rate = match format {
        Some(f) => match value_get(f, "bit_rate") {
            Some(b) => value_as_string(b),
            None => None,
        },
        None => None,
    };
    let streams = match value_get(&parsed, "streams") {
        Some(s) => value_as_array(s),
        None => None,
    };
    match streams {
        None => Ok(
            ProbeFields {
                has_streams: false,
                has_video_stream: false,
                width: None,
                height: None,
                codec: None,
                r_frame_rate: None,
                avg_frame_rate: None,
                format_duration,
                stream_duration: None,
                bit_rate,
            },
        ),
        Some(arr) => {
            let mut video: Option<&serde_json::Value> = None;
            let mut i: usize = 0;
            let n = arr.len();
            while i < n && video.is_none()
                invariant
                    0 <= i <= n,
                    n == arr@.len(),
                decreases n - i,
            {
                let s = &arr[i];
                let is_video = match value_get(s, "codec_type") {
                    Some(t) => {
                        match value_as_string(t) {
                            Some(name) => str_eq(name.as_str(), "video"),
                            None => false,
                        }
                    },
                    None => false,
                };
                if is_video {
                    video = Some(s);
                }
                i = i + 1;
            }
            match video {
                None => Ok(
                    ProbeFields {
                        has_streams: true,
                        has_video_stream: false,
                        width: None,
                        height: None,
                        codec: None,
                        r_frame_rate: None,
                        avg_frame_rate: None,
                        format_duration,
                        stream_duration: None,
                        bit_rate,
                    },
                ),
                Some(vs) => {
                    Ok(
                        ProbeFields {
                            has_streams: true,
                            has_video_stream: true,
                            width: match value_get(vs, "width") {
                                Some(w) => value_as_u64(w),
                                None => None,
                            },
                            height: match value_get(vs, "height") {
                                Some(h) => value_as_u64(h),
                                None => None,
                            },
                            codec: match value_get(vs, "codec_name") {
                                Some(c) => value_as_string(c),
                                None => None,
                            },
                            r_frame_rate: match value_get(vs, "r_frame_rate") {
                                Some(f) => value_as_string(f),
                                None => None,
                            },
                            avg_frame_rate: match value_get(vs, "avg_frame_rate") {
                                Some(f) => value_as_string(f),
                                None => None,
                            },
                            format_duration,
                            stream_duration: match value_get(vs, "duration") {
                                Some(d) => value_as_string(d),
                                None => None,
                            },
                            bit_rate,
                        },
                    )
                },
            }
        },
    }
}

/// Structured description of a probed video file, on plain values: duration
/// in microseconds, rate in milli-fps.
#[derive(Debug)]
pub struct VideoInfo {
    pub path: String,
    pub filename: String,
    pub duration_micros: u64,
    pub fps_milli: u64,
    pub width: u32,
    pub height: u32,
    pub codec: String,
    pub bitrate: Option<u64>,
    pub file_size: u64,
    pub thumbnail: Option<String>,
}

/// The rate string the description is derived from: the real frame rate when
/// present, else the average, else the zero rational.
pub open spec fn probe_rate_chars(f: &ProbeFields) -> Seq<char> {
    match f.r_frame_rate {
        Some(r) => r@,
        None => match f.avg_frame_rate {
            Some(a) => a@,
            None => "0/1"@,
        },
    }
}

/// The duration the description carries, in microseconds: the container's
/// duration when it parses as a decimal, else the video stream's, else zero.
pub open spec fn probe_duration_micros(f: &ProbeFields) -> nat {
    match f.format_duration {
        Some(d) => if dec_fits(d@, 6) {
            dec_val_scaled(d@, 6)
        } else {
            fallback_duration_micros(f)
        },
        None => fallback_duration_micros(f),
    }
}

/// The stream-level duration fallback.
pub open spec fn fallback_duration_micros(f: &ProbeFields) -> nat {
    match f.stream_duration {
        Some(d) => if dec_fits(d@, 6) {
            dec_val_scaled(d@, 6)
        } else {
            0
        },
        None => 0,
    }
}

/// The bitrate the description carries: the container's bitrate text read as
/// an integer, nothing when it is absent or unreadable.
pub open spec fn probe_bitrate(f: &ProbeFields) -> Option<u64> {
    match f.bit_rate {
        Some(b) => if b@.len() > 0 && all_digits(b@) && digits_val(b@) <= u64::MAX {
            Some((digits_val(b@) as u64) as u64)
        } else {
            None
        },
        None => None,
    }
}

/// The codec name the description carries: the stream's, or `unknown`.
pub open spec fn probe_codec_chars(f: &ProbeFields) -> Seq<char> {
    match f.codec {
        Some(c) => c@,
        None => "unknown"@,
    }
}

/// Derive the video description from the extracted fields. Absent streams, a
/// missing video stream, and a missing width or height each fail with their
/// own error; every softer gap degrades to its documented default — codec
/// `unknown`, duration zero, rate zero, no bitrate.
pub fn video_info_from_fields(
    path: &str,
    filename: &str,
    file_size: u64,
    thumbnail: Option<String>,
    f: &ProbeFields,
) -> (r: Result<VideoInfo, ProbeError>)
    ensures
        match r {
            Ok(v) => {
                &&& f.has_streams && f.has_video_stream
                &&& f.width is Some && f.height is Some
                &&& v.path@ == path@
                &&& v.filename@ == filename@
                &&& v.file_size == file_size
                &&& v.width == f.width->Some_0 as u32
                &&& v.height == f.height->Some_0 as u32
                &&& v.codec@ == probe_codec_chars(f)
                &&& v.fps_milli == sat_u64(frame_rate_milli(probe_rate_chars(f)))
                &&& v.duration_micros == probe_duration_micros(f)
                &&& v.bitrate == probe_bitrate(f)
                &&& v.thumbnail == thumbnail
            },
            Err(e) => {
                &&& !f.has_streams ==> e is NoStreams
                &&& (f.has_streams && !f.has_video_stream) ==> e is NoVideoStream
                &&& (f.has_streams && f.has_video_stream && f.width is None) ==> e is NoWidth
                &&& (f.has_streams && f.has_video_stream && f.width is Some && f.height is None)
                    ==> e is NoHeight
                &&& !(f.has_streams && f.has_video_stream && f.width is Some && f.height is Some)
            },
        },
{
    if !f.has_streams {
        return Err(ProbeError::NoStreams);
    }
    if !f.has_video_stream {
        return Err(ProbeError::NoVideoStream);
    }
    let width = match &f.width {
        Some(w) => #[verifier::truncate] (*w as u32),
        None => {
            return Err(ProbeError::NoWidth);
        },
    };
    let height = match &f.height {
        Some(h) => #[verifier::truncate] (*h as u32),
        None => {
            return Err(ProbeError::NoHeight);
        },
    };
    let codec = match &f.codec {
        Some(c) => c.clone(),
        None => String::from_str("unknown"),
    };
    let fps_milli = match &f.r_frame_rate {
        Some(r) => parse_frame_rate(r.as_str()),
        None => match &f.avg_frame_rate {
            Some(a) => parse_frame_rate(a.as_str()),
            None => parse_frame_rate("0/1"),
        },
    };
    let duration_micros = container_duration_micros(f);
    let bitrate = match &f.bit_rate {
        Some(b) => crate::strutil::parse_u64(b.as_str()),
        None => None,
    };
    Ok(
        VideoInfo {
            path: String::from_str(path),
            filename: String::from_str(filename),
            duration_micros,
            fps_milli,
            width,
            height,
            codec,
            bitrate,
            file_size,
            thumbnail,
        },
    )
}

/// Read the duration a probe result carries, in microseconds: the
/// container's duration when it parses as a decimal, else the stream's,
/// else zero. This is the one duration reader for every media kind,
/// audio-only files included.
pub fn container_duration_micros(f: &ProbeFields) -> (r: u64)
    ensures
        r == probe_duration_micros(f),
{
    match &f.format_duration {
        Some(d) => {
            match crate::strutil::parse_decimal_scaled(d.as_str(), 6) {
                Some(v) => v,
                None => fallback_duration(f),
            }
        },
        None => fallback_duration(f),
    }
}

/// Read the stream-level duration fallback.
fn fallback_duration(f: &ProbeFields) -> (r: u64)
    ensures
        r == fallback_duration_micros(f),
{
    match &f.stream_duration {
        Some(d) => {
            match crate::strutil::parse_decimal_scaled(d.as_str(), 6) {
                Some(v) => v,
                None => 0,
            }
        },
        None => 0,
    }
}

/// Where the preview thumbnail is taken, in microseconds: a tenth of the
/// duration, but no earlier than a tenth of a second and no later than one
/// second — and the very start for clips of up to one second.
pub open spec fn spec_thumbnail_seek_micros(duration_micros: nat) -> nat {
    if duration_micros > 1_000_000 {
        if duration_micros / 10 < 100_000 {
            100_000
        } else if duration_micros / 10 > 1_000_000 {
            1_000_000
        } else {
            duration_micros / 10
        }
    } else {
        0
    }
}

/// Compute the thumbnail seek position.
pub fn thumbnail_seek_micros(duration_micros: u64) -> (r: u64)
    ensures
        r == spec_thumbnail_seek_micros(duration_micros as nat),
{
    if duration_micros > 1_000_000 {
        let tenth = duration_micros / 10;
        if tenth < 100_000 {
            100_000
        } else if tenth > 1_000_000 {
            1_000_000
        } else {
            tenth
        }
    } else {
        0
    }
}

/// The argument list of the thumbnail extraction: seek to the chosen
/// position, take one frame, scale it to 200 pixels wide, and stream it as
/// JPEG on standard output.
pub open spec fn thumbnail_args_view(input_path: Seq<char>, seek_micros: nat) -> Seq<Seq<char>> {
    seq![
        "-ss"@,
        crate::timefmt::seconds2_chars(seek_micros),
        "-i"@,
        input_path,
        "-vframes"@,
        "1"@,
        "-vf"@,
        "scale=200:-1"@,
        "-f"@,
        "image2pipe"@,
        "-vcodec"@,
        "mjpeg"@,
        "-q:v"@,
        "5"@,
        "pipe:1"@,
    ]
}

/// Build the thumbnail extraction's argument list.
pub fn build_thumbnail_args(input_path: &str, seek_micros: u64) -> (r: Vec<String>)
    ensures
        crate::command::strs_view(r@) == thumbnail_args_view(input_path@, seek_micros as nat),
{
    let mut args: Vec<String> = Vec::new();
    args.push(String::from_str("-ss"));
    args.push(crate::timefmt::format_seconds2(seek_micros));
    args.push(String::from_str("-i"));
    args.push(String::from_str(input_path));
    args.push(String::from_str("-vframes"));
    args.push(String::from_str("1"));
    args.push(String::from_str("-vf"));
    args.push(String::from_str("scale=200:-1"));
    args.push(String::from_str("-f"));
    args.push(String::from_str("image2pipe"));
    args.push(String::from_str("-vcodec"));
    args.push(String::from_str("mjpeg"));
    args.push(String::from_str("-q:v"));
    args.push(String::from_str("5"));
    args.push(String::from_str("pipe:1"));
    proof {
        assert(crate::command::strs_view(args@) =~= thumbnail_args_view(
            input_path@,
            seek_micros as nat,
        ));
    }
    args
}

/// The base64 rendering of a byte sequence under the standard alphabet with
/// padding; a function of the bytes alone.
pub uninterp spec fn base64_of(bytes: Seq<u8>) -> Seq<char>;

/// Relies on base64's standard engine: the encoding is four characters for
/// every started group of three bytes, and depends on the bytes alone. The
/// length bound keeps the crate's own buffer-size computation from
/// overflowing.
#[verifier::external_body]
fn base64_encode(bytes: &Vec<u8>) -> (r: String)
    requires
        4 * ((bytes@.len() + 2) / 3) <= usize::MAX,
    ensures
        r@ == base64_of(bytes@),
        r@.len() == 4 * ((bytes@.len() + 2) / 3),
{
    base64::Engine::encode(&base64::engine::general_purpose::STANDARD, bytes)
}

/// The data URI wrapping a JPEG preview.
pub open spec fn thumbnail_uri_chars(jpeg: Seq<u8>) -> Seq<char> {
    "data:image/jpeg;base64,"@ + base64_of(jpeg)
}

/// Frame the thumbnail tool's output: a failed run or empty output yields
/// the fixed diagnostic, anything else becomes a JPEG data URI. The length
/// bound is a machine limit on the encoded size; a one-frame preview sits
/// far below it.
pub fn thumbnail_from_output(extract_ok: bool, jpeg: Vec<u8>) -> (r: Result<String, String>)
    requires
        jpeg@.len() <= 1_000_000_000,
    ensures
        match r {
            Ok(uri) => extract_ok && jpeg@.len() > 0 && uri@ == thumbnail_uri_chars(jpeg@),
            Err(d) => (!extract_ok || jpeg@.len() == 0) && d@ == "thumbnail generation failed"@,
        },
{
    if !extract_ok || jpeg.len() == 0 {
        return Err(String::from_str("thumbnail generation failed"));
    }
    let mut s = String::from_str("data:image/jpeg;base64,");
    let b64 = base64_encode(&jpeg);
    s.append(b64.as_str());
    Ok(s)
}

} // verus!
