use vmagic::probe::{
    build_thumbnail_args, container_duration_micros, probe_fields_from_json,
    thumbnail_from_output, thumbnail_seek_micros, video_info_from_fields, ProbeError, ProbeFields,
};
use vmagic::rife::select_model_dir;
use vmagic::status::ffmpeg_status_from_checks;

fn fields() -> ProbeFields {
    ProbeFields {
        has_streams: true,
        has_video_stream: true,
        width: Some(1920),
        height: Some(1080),
        codec: Some("h264".to_string()),
        r_frame_rate: Some("30000/1001".to_string()),
        avg_frame_rate: Some("30/1".to_string()),
        format_duration: Some("10.500000".to_string()),
        stream_duration: Some("10.400000".to_string()),
        bit_rate: Some("128000".to_string()),
    }
}

#[test]
fn video_info_reads_every_field() {
    let info = video_info_from_fields("/v.mp4", "v.mp4", 4096, None, &fields()).unwrap();
    assert_eq!(info.path, "/v.mp4");
    assert_eq!(info.filename, "v.mp4");
    assert_eq!(info.width, 1920);
    assert_eq!(info.height, 1080);
    assert_eq!(info.codec, "h264");
    // the real frame rate wins over the average one
    assert_eq!(info.fps_milli, 29_970);
    // the container duration wins over the stream one
    assert_eq!(info.duration_micros, 10_500_000);
    assert_eq!(info.bitrate, Some(128_000));
    assert_eq!(info.file_size, 4096);
}

#[test]
fn video_info_degrades_to_documented_defaults() {
    let mut f = fields();
    f.codec = None;
    f.r_frame_rate = None;
    f.avg_frame_rate = None;
    f.format_duration = None;
    f.stream_duration = None;
    f.bit_rate = Some("not a number".to_string());
    let info = video_info_from_fields("/v.mp4", "v.mp4", 4096, None, &f).unwrap();
    assert_eq!(info.codec, "unknown");
    assert_eq!(info.fps_milli, 0);
    assert_eq!(info.duration_micros, 0);
    assert_eq!(info.bitrate, None);
}

#[test]
fn video_info_falls_back_to_stream_duration() {
    let mut f = fields();
    f.format_duration = Some("garbage".to_string());
    let info = video_info_from_fields("/v.mp4", "v.mp4", 4096, None, &f).unwrap();
    assert_eq!(info.duration_micros, 10_400_000);
}

#[test]
fn video_info_hard_fails_per_missing_field() {
    let mut f = fields();
    f.has_streams = false;
    let e = video_info_from_fields("/v", "v", 0, None, &f).unwrap_err();
    assert!(matches!(e, ProbeError::NoStreams));
    assert_eq!(e.message(), "no stream information found");

    let mut f = fields();
    f.has_video_stream = false;
    let e = video_info_from_fields("/v", "v", 0, None, &f).unwrap_err();
    assert!(matches!(e, ProbeError::NoVideoStream));
    assert_eq!(e.message(), "no video stream found");

    let mut f = fields();
    f.width = None;
    let e = video_info_from_fields("/v", "v", 0, None, &f).unwrap_err();
    assert!(matches!(e, ProbeError::NoWidth));
    assert_eq!(e.message(), "video stream has no width");

    let mut f = fields();
    f.height = None;
    let e = video_info_from_fields("/v", "v", 0, None, &f).unwrap_err();
    assert!(matches!(e, ProbeError::NoHeight));
    assert_eq!(e.message(), "video stream has no height");
}

#[test]
fn probe_json_extraction_finds_the_video_stream() {
    let json = r#"{
        "streams": [
            {"codec_type": "audio", "codec_name": "aac"},
            {"codec_type": "video", "codec_name": "h264", "width": 1280, "height": 720,
             "r_frame_rate": "25/1", "avg_frame_rate": "25/1", "duration": "9.5"}
        ],
        "format": {"duration": "10.000000", "bit_rate": "96000"}
    }"#;
    let f = probe_fields_from_json(json).unwrap();
    assert!(f.has_streams);
    assert!(f.has_video_stream);
    assert_eq!(f.width, Some(1280));
    assert_eq!(f.height, Some(720));
    assert_eq!(f.codec.as_deref(), Some("h264"));
    assert_eq!(f.r_frame_rate.as_deref(), Some("25/1"));
    assert_eq!(f.format_duration.as_deref(), Some("10.000000"));
    assert_eq!(f.stream_duration.as_deref(), Some("9.5"));
    assert_eq!(f.bit_rate.as_deref(), Some("96000"));

    let info = video_info_from_fields("/v.mp4", "v.mp4", 1, None, &f).unwrap();
    assert_eq!(info.fps_milli, 25_000);
    assert_eq!(info.duration_micros, 10_000_000);
}

#[test]
fn probe_json_without_video_stream() {
    let f = probe_fields_from_json(r#"{"streams": [{"codec_type": "audio"}]}"#).unwrap();
    assert!(f.has_streams);
    assert!(!f.has_video_stream);

    let f = probe_fields_from_json(r#"{"format": {}}"#).unwrap();
    assert!(!f.has_streams);
}

#[test]
fn container_duration_survives_without_video_stream() {
    // an audio-only probe keeps its container-level duration and bitrate
    let f = probe_fields_from_json(
        r#"{"streams": [{"codec_type": "audio"}], "format": {"duration": "12.340000", "bit_rate": "96000"}}"#,
    )
    .unwrap();
    assert!(!f.has_video_stream);
    assert_eq!(f.format_duration.as_deref(), Some("12.340000"));
    assert_eq!(f.bit_rate.as_deref(), Some("96000"));
    assert_eq!(container_duration_micros(&f), 12_340_000);
}

#[test]
fn container_duration_reads_the_fields() {
    assert_eq!(container_duration_micros(&fields()), 10_500_000);
    let mut f = fields();
    f.format_duration = None;
    assert_eq!(container_duration_micros(&f), 10_400_000);
    f.stream_duration = None;
    assert_eq!(container_duration_micros(&f), 0);
}

#[test]
fn probe_json_malformed_is_reported() {
    let e = probe_fields_from_json("{not json").unwrap_err();
    match e {
        ProbeError::MalformedMetadata(_) => {},
        _ => panic!("expected a malformed-metadata error"),
    }
}

#[test]
fn thumbnail_seek_position() {
    // clips of up to one second seek to the start
    assert_eq!(thumbnail_seek_micros(800_000), 0);
    assert_eq!(thumbnail_seek_micros(1_000_000), 0);
    // a tenth of the duration, clamped into [0.1 s, 1 s]
    assert_eq!(thumbnail_seek_micros(4_000_000), 400_000);
    assert_eq!(thumbnail_seek_micros(60_000_000), 1_000_000);
    assert_eq!(thumbnail_seek_micros(1_000_001), 100_000);
}

#[test]
fn thumbnail_args_seek_and_scale() {
    let args = build_thumbnail_args("/v.mp4", 1_000_000);
    assert_eq!(
        args,
        vec![
            "-ss", "1.00", "-i", "/v.mp4", "-vframes", "1", "-vf", "scale=200:-1", "-f",
            "image2pipe", "-vcodec", "mjpeg", "-q:v", "5", "pipe:1"
        ]
    );
}

#[test]
fn thumbnail_output_becomes_a_data_uri() {
    // "Man" encodes to TWFu under the standard base64 alphabet
    let uri = thumbnail_from_output(true, vec![b'M', b'a', b'n']).unwrap();
    assert_eq!(uri, "data:image/jpeg;base64,TWFu");
    // padding appears for a lone byte
    let uri = thumbnail_from_output(true, vec![b'M']).unwrap();
    assert_eq!(uri, "data:image/jpeg;base64,TQ==");
    // a failed or empty extraction is an error
    assert_eq!(
        thumbnail_from_output(false, vec![1]).unwrap_err(),
        "thumbnail generation failed"
    );
    assert_eq!(
        thumbnail_from_output(true, vec![]).unwrap_err(),
        "thumbnail generation failed"
    );
}

#[test]
fn availability_report_from_checks() {
    let status = ffmpeg_status_from_checks(
        Some("/usr/bin/ffmpeg".to_string()),
        Some("/usr/bin/ffprobe".to_string()),
        Some("ffmpeg version 6.0\nbuilt with clang".to_string()),
        Some("... h264_videotoolbox ...".to_string()),
        Some("/usr/bin/rife-ncnn-vulkan".to_string()),
        Some("".to_string()),
    );
    assert!(status.available);
    assert_eq!(status.version.as_deref(), Some("ffmpeg version 6.0"));
    assert!(status.videotoolbox_available);
    assert!(!status.hevc_available);
    assert!(status.rife_available);
    assert_eq!(status.rife_path.as_deref(), Some("/usr/bin/rife-ncnn-vulkan"));
    // an empty looked-up path counts as absent
    assert!(!status.realesrgan_available);
    assert_eq!(status.realesrgan_path, None);
}

#[test]
fn availability_report_when_tools_are_missing() {
    let status = ffmpeg_status_from_checks(None, Some("/usr/bin/ffprobe".to_string()), None, None, None, None);
    assert!(!status.available);
    assert_eq!(status.version, None);
    assert!(!status.videotoolbox_available);
    assert!(!status.hevc_available);
    // an empty version output reads as unknown
    let status = ffmpeg_status_from_checks(
        Some("/f".to_string()),
        Some("/p".to_string()),
        Some("".to_string()),
        None,
        None,
        None,
    );
    assert_eq!(status.version.as_deref(), Some("unknown"));
}

#[test]
fn model_dir_prefers_installed_locations() {
    assert_eq!(select_model_dir(true, true), "/usr/local/share/rife-ncnn-vulkan/rife-v4.6");
    assert_eq!(select_model_dir(false, true), "/usr/local/share/rife-ncnn-vulkan/rife-v4");
    assert_eq!(select_model_dir(false, false), "rife-v4.6");
}
