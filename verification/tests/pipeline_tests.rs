use vmagic::command::{
    build_audio_pad_args, build_audio_pad_filter, build_compress_args, build_convert_args,
    build_filter, convert_command, format_from_str, preset_from_str, InterpolationMethod,
    OutputFormat, QualityPreset,
};
use vmagic::outcome::{
    compute_reduction_percent, finalize_audio, finalize_compress, finalize_conversion,
    finalize_upscale, JobError,
};
use vmagic::rife::{
    achieved_fps_milli, after_encode, after_extract, after_interpolate, build_encode_args,
    build_extract_args, build_interpolate_args, build_upscale_args, corrective_filter_needed,
    phase_start_event, plan_interpolation, rife_multiplier, AbortReason, RifePhase,
};

#[test]
fn multiplier_is_next_power_of_two_of_the_ratio() {
    // 60/24 = 2.5, rounded up to 3, next power of two is 4
    assert_eq!(rife_multiplier(24_000, 60_000), 4);
    // equal rates give ratio 1, floored at the minimum multiplier 2
    assert_eq!(rife_multiplier(30_000, 30_000), 2);
    assert_eq!(rife_multiplier(25_000, 50_000), 2);
    assert_eq!(rife_multiplier(24_000, 120_000), 8);
}

#[test]
fn interpolation_method_from_name() {
    assert_eq!(InterpolationMethod::from_str("framerate"), InterpolationMethod::Framerate);
    assert_eq!(InterpolationMethod::from_str("duplicate"), InterpolationMethod::Duplicate);
    assert_eq!(InterpolationMethod::from_str("minterpolate"), InterpolationMethod::Minterpolate);
    assert_eq!(InterpolationMethod::from_str("anything"), InterpolationMethod::Minterpolate);
}

#[test]
fn filter_strings_carry_the_target_rate() {
    assert_eq!(build_filter(InterpolationMethod::Duplicate, 60_000), "fps=60");
    assert_eq!(
        build_filter(InterpolationMethod::Minterpolate, 60_000),
        "minterpolate=fps=60:mi_mode=mci:mc_mode=aobmc:me_mode=bidir:vsbmc=1"
    );
    assert_eq!(
        build_filter(InterpolationMethod::Framerate, 29_970),
        "framerate=fps=29.97:interp_start=0:interp_end=255:scene=8.2"
    );
}

#[test]
fn single_pass_conversion_scenario() {
    // a 10.00 s input converted to 60 fps, software encode, balanced preset:
    // one transcoder invocation whose filter carries fps=60, and a success
    // with a valid duration when the probed output stays within tolerance
    let preset = preset_from_str(Some("balanced"));
    let format = format_from_str(Some("mp4"));
    let cmd = convert_command(
        "/in.mp4",
        "/out.mp4",
        InterpolationMethod::Minterpolate,
        60_000,
        false,
        false,
        preset,
        format,
    );
    assert_eq!(cmd.program, "ffmpeg");
    let filter_pos = cmd.args.iter().position(|a| a == "-filter:v").unwrap();
    assert!(cmd.args[filter_pos + 1].contains("fps=60"));
    // software H.264 at the balanced constant rate factor
    assert!(cmd.args.contains(&"libx264".to_string()));
    assert!(cmd.args.contains(&"18".to_string()));

    let result = finalize_conversion("/out.mp4", 10_000_000, Ok(10_050_000)).unwrap();
    assert!(result.success);
    assert!(result.duration_valid);
    assert_eq!(result.duration_diff_micros, 50_000);
    assert_eq!(
        result.message,
        "conversion complete: input 10.00s -> output 10.05s (diff 0.050s)"
    );
}

#[test]
fn conversion_with_drift_warns_but_succeeds() {
    let result = finalize_conversion("/out.mp4", 10_000_000, Ok(10_300_000)).unwrap();
    assert!(result.success);
    assert!(!result.duration_valid);
    assert!(result.message.starts_with("warning: duration drifted beyond tolerance"));
}

#[test]
fn cancelled_conversion_is_not_a_failure() {
    let result = finalize_conversion("/out.mp4", 10_000_000, Err(JobError::Cancelled)).unwrap();
    assert!(!result.success);
    assert_eq!(result.message, "conversion was cancelled");
    assert_eq!(result.output_duration_micros, 0);
    // a failed run propagates its diagnostic instead
    let err = finalize_conversion("/out.mp4", 10_000_000, Err(JobError::Failed("boom".into())));
    assert_eq!(err.unwrap_err(), "boom");
}

#[test]
fn multi_phase_pipeline_scenario() {
    // 25 fps input at a 50 fps target: multiplier 2, so 250 extracted frames
    // ask the interpolation tool for 500
    let plan = plan_interpolation(25_000, 50_000);
    assert_eq!(plan.multiplier, 2);
    assert_eq!(plan.nominal_fps_milli, 50_000);
    let requested = after_extract(plan.multiplier, true, "", false, 250).unwrap();
    assert_eq!(requested, 500);

    // if the interpolation tool yields zero frames the pipeline fails with
    // the no-frames diagnostic and orders its working directories removed
    let abort = after_interpolate(true, "", 0, false).unwrap_err();
    assert!(abort.remove_workdirs);
    match abort.reason {
        AbortReason::Failed(d) => assert_eq!(d, "interpolation produced no frames"),
        _ => panic!("expected a failure"),
    }
}

#[test]
fn pipeline_aborts_always_order_cleanup() {
    let abort = after_extract(2, false, "disk full", false, 0).unwrap_err();
    assert!(abort.remove_workdirs);
    match abort.reason {
        AbortReason::Failed(d) => assert_eq!(d, "frame extraction failed: disk full"),
        _ => panic!("expected a failure"),
    }

    let abort = after_extract(2, true, "", true, 250).unwrap_err();
    assert!(abort.remove_workdirs);
    assert!(matches!(abort.reason, AbortReason::Cancelled));

    let abort = after_extract(2, true, "", false, 0).unwrap_err();
    assert!(abort.remove_workdirs);
    match abort.reason {
        AbortReason::Failed(d) => assert_eq!(d, "no frames were extracted"),
        _ => panic!("expected a failure"),
    }

    let abort = after_interpolate(true, "", 500, true).unwrap_err();
    assert!(abort.remove_workdirs);
    assert!(matches!(abort.reason, AbortReason::Cancelled));

    let abort = after_encode(false).unwrap_err();
    assert!(abort.remove_workdirs);
    assert!(after_encode(true).is_ok());
}

#[test]
fn achieved_rate_and_corrective_filter() {
    // 500 frames over 10 s is 50 fps
    assert_eq!(achieved_fps_milli(500, 10_000_000), 50_000);
    // an unknown duration gives rate zero, never a division by zero
    assert_eq!(achieved_fps_milli(500, 0), 0);
    // more than one frame per second off: corrective filter
    assert!(corrective_filter_needed(50_000, 48_500));
    assert!(!corrective_filter_needed(50_000, 49_500));
    assert!(!corrective_filter_needed(50_000, 51_000));
}

#[test]
fn phase_events_report_coarse_bands() {
    let e = phase_start_event(RifePhase::Extract);
    assert_eq!(e.progress_centi_pct, 0);
    assert_eq!(e.speed, "extracting frames");
    let e = phase_start_event(RifePhase::Interpolate);
    assert_eq!(e.progress_centi_pct, 3_000);
    let e = phase_start_event(RifePhase::Encode);
    assert_eq!(e.progress_centi_pct, 8_000);
    assert_eq!(e.time, "00:00:00.00");
}

#[test]
fn extract_and_interpolate_argument_lists() {
    let args = build_extract_args("/in.mp4", "/tmp/work/input");
    assert_eq!(
        args,
        vec!["-y", "-i", "/in.mp4", "-qscale:v", "2", "/tmp/work/input/frame_%08d.png"]
    );
    let args = build_interpolate_args("/tmp/work/input", "/tmp/work/output", "rife-v4.6", 500);
    assert_eq!(
        args,
        vec![
            "-i",
            "/tmp/work/input",
            "-o",
            "/tmp/work/output",
            "-m",
            "rife-v4.6",
            "-n",
            "500",
            "-f",
            "frame_%08d.png"
        ]
    );
}

#[test]
fn encode_arguments_attach_audio_and_corrective_filter() {
    // achieved 48 fps against a 50 fps target: corrective filter applied
    let args = build_encode_args(
        "/tmp/work/output",
        Some("/tmp/work/audio.aac"),
        48_000,
        50_000,
        false,
        false,
        QualityPreset::Balanced,
        OutputFormat::Mp4,
        "/out.mp4",
    );
    assert_eq!(
        args,
        vec![
            "-y",
            "-framerate",
            "48",
            "-i",
            "/tmp/work/output/frame_%08d.png",
            "-i",
            "/tmp/work/audio.aac",
            "-c:v",
            "libx264",
            "-preset",
            "medium",
            "-crf",
            "18",
            "-c:a",
            "aac",
            "-b:a",
            "192k",
            "-map",
            "0:v",
            "-map",
            "1:a",
            "-filter:v",
            "fps=50",
            "/out.mp4"
        ]
    );
    // no audio, rate on target: neither block appears
    let args = build_encode_args(
        "/d",
        None,
        50_000,
        50_000,
        false,
        false,
        QualityPreset::Fast,
        OutputFormat::Webm,
        "/o.webm",
    );
    assert_eq!(
        args,
        vec![
            "-y",
            "-framerate",
            "50",
            "-i",
            "/d/frame_%08d.png",
            "-c:v",
            "libvpx-vp9",
            "-crf",
            "35",
            "-b:v",
            "0",
            "/o.webm"
        ]
    );
}

#[test]
fn convert_arguments_for_hardware_and_webm() {
    let args = build_convert_args(
        "/in.mp4",
        "/out.mp4",
        InterpolationMethod::Duplicate,
        30_000,
        true,
        true,
        QualityPreset::Quality,
        OutputFormat::Mp4,
    );
    assert!(args.contains(&"hevc_videotoolbox".to_string()));
    assert!(args.contains(&"80".to_string()));
    assert!(args.contains(&"hvc1".to_string()));
    assert!(args.contains(&"copy".to_string()));
    assert!(args.ends_with(&["-progress".into(), "pipe:1".into(), "-nostats".into(), "/out.mp4".into()]));

    let args = build_convert_args(
        "/in.mp4",
        "/out.webm",
        InterpolationMethod::Duplicate,
        30_000,
        false,
        false,
        QualityPreset::Fast,
        OutputFormat::Webm,
    );
    assert!(args.contains(&"libvpx-vp9".to_string()));
    assert!(args.contains(&"libopus".to_string()));
}

#[test]
fn upscale_and_compress_finalization() {
    let r = finalize_upscale("/out.mp4", 10_000_000, 640, 360, 1280, 720, 2, Ok(10_200_000))
        .unwrap();
    assert!(r.success);
    assert!(r.duration_valid);
    assert_eq!(r.duration_diff_micros, 200_000);
    assert_eq!(r.message, "upscale complete: 640x360 -> 1280x720 (2x)");

    // 10 MiB squeezed to 5 MiB is a 50 percent reduction
    let r = finalize_compress("/out.mp4", 10_000_000, 10_485_760, Ok((5_242_880, 10_100_000)))
        .unwrap();
    assert!(r.success);
    assert!(r.duration_valid);
    assert_eq!(r.message, "compression complete: 10.0MB -> 5.0MB (50% reduced)");

    let r = finalize_compress("/o", 1_000_000, 100, Err(JobError::Cancelled)).unwrap();
    assert!(!r.success);
    assert_eq!(r.message, "compression was cancelled");
}

#[test]
fn reduction_percent_rounds_and_signs() {
    assert_eq!(compute_reduction_percent(1000, 500), 50);
    // a third off: 33.3 percent rounds down
    assert_eq!(compute_reduction_percent(3000, 2000), 33);
    // two thirds off: 66.7 percent rounds up
    assert_eq!(compute_reduction_percent(3000, 1000), 67);
    // output grew: the reduction is negative
    assert_eq!(compute_reduction_percent(1000, 1500), -50);
    assert_eq!(compute_reduction_percent(1000, 1000), 0);
}

#[test]
fn audio_finalization_reports_paddings() {
    let r = finalize_audio("/a.m4a", 10_000_000, 500_000, 1_000_000, Ok(11_500_000)).unwrap();
    assert!(r.success);
    assert_eq!(r.padding_before_micros, 500_000);
    assert_eq!(r.padding_after_micros, 1_000_000);
    assert_eq!(
        r.message,
        "audio processing complete: 10.00s + before 0.50s + after 1.00s = 11.50s"
    );
    let r = finalize_audio("/a.m4a", 10_000_000, 0, 0, Err(JobError::Cancelled)).unwrap();
    assert!(!r.success);
    assert_eq!(r.message, "audio processing was cancelled");
}

#[test]
fn oversized_frame_request_aborts_with_cleanup() {
    // a requested total beyond the machine's range is an abort of its own,
    // not a panic and not a silent wrap
    let abort = after_extract(u64::MAX, true, "", false, 2).unwrap_err();
    assert!(abort.remove_workdirs);
    match abort.reason {
        AbortReason::Failed(d) => assert_eq!(d, "requested frame count out of range"),
        _ => panic!("expected a failure"),
    }
    // cancellation at the boundary wins over the count, with no precondition
    let abort = after_extract(u64::MAX, true, "", true, 2).unwrap_err();
    assert!(abort.remove_workdirs);
    assert!(matches!(abort.reason, AbortReason::Cancelled));
}

#[test]
fn upscaler_argument_list() {
    let args = build_upscale_args("/tmp/w/input", "/tmp/w/output", "x4plus", 4);
    assert_eq!(
        args,
        vec!["-i", "/tmp/w/input", "-o", "/tmp/w/output", "-n", "x4plus", "-s", "4"]
    );
}

#[test]
fn compression_argument_list() {
    let args = build_compress_args("/in.mp4", "/out.mp4", 2048, Some((1280, 720)), false);
    assert_eq!(
        args,
        vec![
            "-y", "-i", "/in.mp4", "-b:v", "2048k", "-vf", "scale=1280:720", "-c:v", "libx264",
            "-progress", "pipe:1", "-nostats", "/out.mp4"
        ]
    );
    // hardware encoding and no scaling: both optional blocks vanish
    let args = build_compress_args("/in.mp4", "/out.mp4", 500, None, true);
    assert_eq!(
        args,
        vec!["-y", "-i", "/in.mp4", "-b:v", "500k", "-progress", "pipe:1", "-nostats", "/out.mp4"]
    );
}

#[test]
fn audio_padding_argument_list() {
    assert_eq!(build_audio_pad_filter(500_000, 1_250_000), "adelay=500:all=1,apad=pad_dur=1250000us");
    let args = build_audio_pad_args("/a.wav", "/a.m4a", 500_000, 1_250_000);
    assert_eq!(
        args,
        vec![
            "-y", "-i", "/a.wav", "-af", "adelay=500:all=1,apad=pad_dur=1250000us", "-progress",
            "pipe:1", "-nostats", "/a.m4a"
        ]
    );
}
