use vmagic::progress::{compute_progress_centi_pct, ProgressAccumulator};
use vmagic::supervisor::{LineAction, ProcessSupervisor, RunOutcome};

#[test]
fn percentage_is_zero_for_unknown_duration() {
    // a zero total duration never divides: the percentage is pinned at zero
    assert_eq!(compute_progress_centi_pct(0, 0), 0);
    assert_eq!(compute_progress_centi_pct(10_000_000, 0), 0);
    assert_eq!(compute_progress_centi_pct(u64::MAX, 0), 0);
}

#[test]
fn percentage_is_ratio_of_elapsed_to_duration() {
    // 10 s of 20 s is 50 percent
    assert_eq!(compute_progress_centi_pct(10_000_000, 20_000_000), 5_000);
    // 5 s of 20 s is 25 percent
    assert_eq!(compute_progress_centi_pct(5_000_000, 20_000_000), 2_500);
}

#[test]
fn percentage_clamps_at_one_hundred() {
    assert_eq!(compute_progress_centi_pct(30_000_000, 20_000_000), 10_000);
    assert_eq!(compute_progress_centi_pct(u64::MAX, 1), 10_000);
}

#[test]
fn accumulator_folds_fields_across_lines() {
    let mut acc = ProgressAccumulator::new();
    acc.feed_line("frame=120");
    acc.feed_line("fps=29.97");
    acc.feed_line("out_time_ms=5000000");
    acc.feed_line("speed=1.5x");
    assert_eq!(acc.frame, 120);
    assert_eq!(acc.fps_milli, 29_970);
    assert_eq!(acc.time_micros, 5_000_000);
    assert_eq!(acc.speed, "1.5x");

    // a later line overwrites only the fields it carries
    acc.feed_line("frame=240");
    assert_eq!(acc.frame, 240);
    assert_eq!(acc.fps_milli, 29_970);

    // an unrelated line changes nothing
    acc.feed_line("bitrate= 128.0kbits/s");
    assert_eq!(acc.frame, 240);
    assert_eq!(acc.time_micros, 5_000_000);
}

#[test]
fn sample_combines_latest_fields() {
    let mut acc = ProgressAccumulator::new();
    acc.feed_line("frame=120 fps=30.0 out_time_ms=10000000 speed=2x");
    let ev = acc.sample(20_000_000);
    assert_eq!(ev.progress_centi_pct, 5_000);
    assert_eq!(ev.frame, 120);
    assert_eq!(ev.fps_milli, 30_000);
    assert_eq!(ev.time_micros, 10_000_000);
    assert_eq!(ev.time, "00:00:10.00");
    assert_eq!(ev.speed, "2x");
}

#[test]
fn supervisor_emits_on_progress_marker() {
    let mut sup = ProcessSupervisor::new(20_000_000);
    assert!(matches!(sup.on_stdout_line(false, "frame=1"), LineAction::Continue));
    assert!(matches!(sup.on_stdout_line(false, "out_time_ms=10000000"), LineAction::Continue));
    match sup.on_stdout_line(false, "progress=continue") {
        LineAction::Emit(ev) => {
            assert_eq!(ev.progress_centi_pct, 5_000);
            assert_eq!(ev.frame, 1);
        },
        _ => panic!("expected a progress sample"),
    }
    match sup.on_stdout_line(false, "progress=end") {
        LineAction::EmitAndStop(ev) => {
            assert_eq!(ev.frame, 1);
        },
        _ => panic!("expected the end of the stream"),
    }
}

#[test]
fn cancellation_preempts_any_line() {
    // once the token is set, the next step on either stream kills the
    // process and reports cancellation, however close the run was to its end
    let mut sup = ProcessSupervisor::new(20_000_000);
    assert!(matches!(sup.on_stdout_line(true, "progress=end"), LineAction::KillAndCancel));
    assert!(matches!(
        sup.on_stderr_line(true, String::from("some diagnostic")),
        LineAction::KillAndCancel
    ));
    // and the line that would have completed the run was not consumed
    assert_eq!(sup.acc.frame, 0);
    // once cancellation was observed, even a clean exit never reads as a
    // success
    assert!(matches!(sup.classify_exit(Some(0)), RunOutcome::Cancelled));
}

#[test]
fn exit_status_classification() {
    let mut sup = ProcessSupervisor::new(0);
    assert!(matches!(sup.classify_exit(Some(0)), RunOutcome::Success));
    match sup.classify_exit(Some(1)) {
        RunOutcome::Failed(d) => assert_eq!(d, "process exited with code 1"),
        _ => panic!("expected a failure"),
    }
    match sup.classify_exit(None) {
        RunOutcome::Failed(d) => assert_eq!(d, "process terminated by a signal"),
        _ => panic!("expected a failure"),
    }
    // the last recorded error line is carried in the diagnostic
    sup.on_stderr_line(false, String::from("first"));
    sup.on_stderr_line(false, String::from("codec not found"));
    match sup.classify_exit(Some(2)) {
        RunOutcome::Failed(d) => assert_eq!(d, "process exited with code 2: codec not found"),
        _ => panic!("expected a failure"),
    }
}
