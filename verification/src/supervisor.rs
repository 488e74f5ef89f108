//! The process supervisor's decision core. An external process is spawned by
//! the host around this library; every line read from its two output streams,
//! and its final exit status, is handed to the state here, which decides —
//! with the cancellation token sampled at each step — whether to kill the
//! process, surface a progress sample, stop reading early, or classify the
//! run's outcome.

use crate::progress::{
    fps_field_update, progress_centi_pct, speed_field_update, u64_field_update, ProgressAccumulator,
    ProgressEvent,
};
use crate::strutil::{contains_seq, int_chars, str_contains};
use vstd::prelude::*;

verus! {

/// Outcome of one supervised run.
#[derive(Debug)]
pub enum RunOutcome {
    /// The process closed its streams and exited with status zero.
    Success,
    /// Cancellation was observed; the process was killed.
    Cancelled,
    /// The process exited with a non-zero status (or was signal-terminated);
    /// the diagnostic carries the exit description and the last recorded
    /// error line.
    Failed(String),
}

/// What the reading loop must do after one line.
#[derive(Debug)]
pub enum LineAction {
    /// Cancellation was observed: kill the process now and report
    /// `Cancelled` without waiting for it to exit.
    KillAndCancel,
    /// The line carried the progress marker: surface this sample and read on.
    Emit(ProgressEvent),
    /// The line carried the end marker: surface this sample and stop reading
    /// without waiting for the stream to close.
    EmitAndStop(ProgressEvent),
    /// Nothing to surface.
    Continue,
}

/// The decision taken for one standard-output line, as a pure function of
/// the cancellation token and the line's text.
#[derive(Debug)]
pub enum LineDecision {
    CancelKill,
    EmitStop,
    EmitContinue,
    Ignore,
}

/// Decision for a standard-output line: cancellation preempts everything;
/// otherwise the end marker stops the loop, the progress marker emits a
/// sample, and any other line only accumulates fields.
pub open spec fn stdout_decision(cancel: bool, line: Seq<char>) -> LineDecision {
    if cancel {
        LineDecision::CancelKill
    } else if contains_seq(line, "progress=end"@) {
        LineDecision::EmitStop
    } else if contains_seq(line, "progress="@) {
        LineDecision::EmitContinue
    } else {
        LineDecision::Ignore
    }
}

/// Decision for a standard-error line: cancellation preempts; every other
/// line is recorded for diagnostics only and never surfaces as progress.
pub open spec fn stderr_decision(cancel: bool) -> LineDecision {
    if cancel {
        LineDecision::CancelKill
    } else {
        LineDecision::Ignore
    }
}

/// Once cancellation is requested, the next step on either stream kills the
/// process and reports cancellation — never a progress sample and never
/// success — regardless of what the line says.
pub proof fn lemma_cancellation_preempts(line: Seq<char>)
    ensures
        stdout_decision(true, line) == LineDecision::CancelKill,
        stderr_decision(true) == LineDecision::CancelKill,
{
}

/// Supervision state for one external process: the progress accumulator, the
/// total input duration that percentages are computed against, the recorded
/// standard-error lines, and whether cancellation has been observed — once it
/// has, the run can only ever be classified as cancelled, never as a success,
/// however close to natural completion the process was.
#[derive(Debug)]
pub struct ProcessSupervisor {
    pub acc: ProgressAccumulator,
    pub input_duration_us: u64,
    pub stderr_tail: Vec<String>,
    pub cancel_observed: bool,
}

impl ProcessSupervisor {
    /// Fresh supervision state for a process whose input has the given total
    /// duration in microseconds (zero when unknown).
    pub fn new(input_duration_us: u64) -> (r: ProcessSupervisor)
        ensures
            r.acc.frame == 0,
            r.acc.fps_milli == 0,
            r.acc.time_micros == 0,
            r.acc.speed@ == Seq::<char>::empty(),
            r.input_duration_us == input_duration_us,
            r.stderr_tail@ == Seq::<String>::empty(),
            !r.cancel_observed,
    {
        ProcessSupervisor {
            acc: ProgressAccumulator::new(),
            input_duration_us,
            stderr_tail: Vec::new(),
            cancel_observed: false,
        }
    }

    /// Fold one standard-output line into the run. The cancellation token is
    /// sampled first: when set, the action is to kill, and the line is not
    /// consumed. Otherwise the accumulator absorbs the line's fields, and a
    /// line holding the progress marker emits a sample synthesized from every
    /// last-seen field — with the end marker additionally stopping the loop.
    pub fn on_stdout_line(&mut self, cancel_requested: bool, line: &str) -> (r: LineAction)
        ensures
            cancel_requested ==> {
                &&& r is KillAndCancel
                &&& final(self).cancel_observed
                &&& final(self).acc == old(self).acc
                &&& final(self).stderr_tail@ == old(self).stderr_tail@
                &&& final(self).input_duration_us == old(self).input_duration_us
            },
            !cancel_requested ==> {
                &&& final(self).cancel_observed == old(self).cancel_observed
                &&& final(self).acc.frame == u64_field_update(line@, "frame="@, old(self).acc.frame)
                &&& final(self).acc.fps_milli == fps_field_update(line@, old(self).acc.fps_milli)
                &&& final(self).acc.time_micros == u64_field_update(
                    line@,
                    "out_time_ms="@,
                    old(self).acc.time_micros,
                )
                &&& final(self).acc.speed@ == speed_field_update(line@, old(self).acc.speed@)
                &&& final(self).input_duration_us == old(self).input_duration_us
                &&& final(self).stderr_tail@ == old(self).stderr_tail@
                &&& match r {
                    LineAction::KillAndCancel => false,
                    LineAction::Emit(ev) => stdout_decision(false, line@)
                        == LineDecision::EmitContinue && final(self).sample_matches(ev),
                    LineAction::EmitAndStop(ev) => stdout_decision(false, line@)
                        == LineDecision::EmitStop && final(self).sample_matches(ev),
                    LineAction::Continue => stdout_decision(false, line@) == LineDecision::Ignore,
                }
            },
    {
        if cancel_requested {
            self.cancel_observed = true;
            return LineAction::KillAndCancel;
        }
        self.acc.feed_line(line);
        proof {
            reveal_strlit("progress=");
            reveal_strlit("progress=end");
        }
        if str_contains(line, "progress=") {
            let ev = self.acc.sample(self.input_duration_us);
            if str_contains(line, "progress=end") {
                LineAction::EmitAndStop(ev)
            } else {
                proof {
                    lemma_end_marker_implies_marker(line@);
                }
                LineAction::Emit(ev)
            }
        } else {
            proof {
                lemma_end_marker_implies_marker(line@);
            }
            LineAction::Continue
        }
    }

    /// Whether a progress sample carries exactly the accumulated fields and
    /// the percentage computed against the input duration.
    pub open spec fn sample_matches(&self, ev: ProgressEvent) -> bool {
        &&& ev.progress_centi_pct == progress_centi_pct(
            self.acc.time_micros as nat,
            self.input_duration_us as nat,
        )
        &&& ev.frame == self.acc.frame
        &&& ev.fps_milli == self.acc.fps_milli
        &&& ev.time_micros == self.acc.time_micros
        &&& ev.time@ == crate::timefmt::time_chars(self.acc.time_micros as nat)
        &&& ev.speed@ == self.acc.speed@
    }

    /// Fold one standard-error line into the run: kill on cancellation,
    /// otherwise record the line for diagnostics; it never surfaces as
    /// progress.
    pub fn on_stderr_line(&mut self, cancel_requested: bool, line: String) -> (r: LineAction)
        ensures
            cancel_requested ==> {
                &&& r is KillAndCancel
                &&& final(self).cancel_observed
                &&& final(self).acc == old(self).acc
                &&& final(self).stderr_tail@ == old(self).stderr_tail@
                &&& final(self).input_duration_us == old(self).input_duration_us
            },
            !cancel_requested ==> {
                &&& r is Continue
                &&& final(self).cancel_observed == old(self).cancel_observed
                &&& final(self).stderr_tail@ == old(self).stderr_tail@.push(line)
                &&& final(self).acc == old(self).acc
                &&& final(self).input_duration_us == old(self).input_duration_us
            },
    {
        if cancel_requested {
            self.cancel_observed = true;
            return LineAction::KillAndCancel;
        }
        self.stderr_tail.push(line);
        LineAction::Continue
    }

    /// Classify the exit status of the run. A run in which cancellation was
    /// observed is cancelled, whatever the exit status says. Otherwise status
    /// zero is success, and anything else fails with a diagnostic naming the
    /// exit and carrying the last recorded error line.
    pub fn classify_exit(&self, exit_code: Option<i64>) -> (r: RunOutcome)
        ensures
            match r {
                RunOutcome::Success => !self.cancel_observed && exit_code == Some(0i64),
                RunOutcome::Failed(d) => !self.cancel_observed && exit_code != Some(0i64) && d@
                    == exit_diag_chars(exit_code, self.stderr_tail@),
                RunOutcome::Cancelled => self.cancel_observed,
            },
    {
        if self.cancel_observed {
            return RunOutcome::Cancelled;
        }
        match exit_code {
            Some(c) if c == 0 => RunOutcome::Success,
            _ => RunOutcome::Failed(build_exit_diag(exit_code, &self.stderr_tail)),
        }
    }
}

/// A line holding the end marker also holds the progress marker.
proof fn lemma_end_marker_implies_marker(line: Seq<char>)
    ensures
        contains_seq(line, "progress=end"@) ==> contains_seq(line, "progress="@),
{
    reveal_strlit("progress=");
    reveal_strlit("progress=end");
    if contains_seq(line, "progress=end"@) {
        let i = choose|i: int| crate::strutil::matches_at(line, "progress=end"@, i);
        assert(line.subrange(i, i + 12) =~= "progress=end"@);
        assert(line.subrange(i, i + 9) =~= "progress="@);
        assert(crate::strutil::matches_at(line, "progress="@, i));
    }
}

/// Diagnostic text for a failed exit: the exit description, then the last
/// recorded error line when there is one.
pub open spec fn exit_diag_chars(exit_code: Option<i64>, stderr_tail: Seq<String>) -> Seq<char> {
    let base = match exit_code {
        Some(c) => "process exited with code "@ + int_chars(c as int),
        None => "process terminated by a signal"@,
    };
    if stderr_tail.len() > 0 {
        base + ": "@ + stderr_tail.last()@
    } else {
        base
    }
}

/// Build the diagnostic text for a failed exit.
fn build_exit_diag(exit_code: Option<i64>, stderr_tail: &Vec<String>) -> (r: String)
    ensures
        r@ == exit_diag_chars(exit_code, stderr_tail@),
{
    let mut s = match exit_code {
        Some(c) => {
            let mut t = String::from_str("process exited with code ");
            let num = crate::strutil::i64_to_string(c);
            t.append(num.as_str());
            t
        },
        None => String::from_str("process terminated by a signal"),
    };
    proof {
        reveal_strlit("process exited with code ");
        reveal_strlit("process terminated by a signal");
        reveal_strlit(": ");
    }
    if stderr_tail.len() > 0 {
        s.append(": ");
        let last = &stderr_tail[stderr_tail.len() - 1];
        s.append(last.as_str());
        proof {
            assert(s@ =~= exit_diag_chars(exit_code, stderr_tail@));
        }
    } else {
        proof {
            assert(s@ =~= exit_diag_chars(exit_code, stderr_tail@));
        }
    }
    s
}

} // verus!
