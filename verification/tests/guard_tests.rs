use vmagic::guard::ConversionState;

#[test]
fn second_acquisition_is_rejected_while_active() {
    let mut state = ConversionState::new();
    assert!(state.try_acquire());
    // a second start attempt fails and leaves the running job's state alone
    assert!(!state.try_acquire());
    assert!(state.is_converting);
    assert!(!state.is_cancel_requested());
}

#[test]
fn acquisition_succeeds_after_any_job_end() {
    let mut state = ConversionState::new();
    assert!(state.try_acquire());
    state.release();
    assert!(state.try_acquire());
    state.release();
    // releasing twice is harmless
    state.release();
    assert!(state.try_acquire());
}

#[test]
fn acquisition_resets_a_stale_cancellation_signal() {
    let mut state = ConversionState::new();
    assert!(state.try_acquire());
    state.request_cancel();
    assert!(state.is_cancel_requested());
    state.release();
    // the token from the finished job must not leak into the next one
    assert!(state.try_acquire());
    assert!(!state.is_cancel_requested());
}

#[test]
fn failed_acquisition_keeps_cancellation_state() {
    let mut state = ConversionState::new();
    assert!(state.try_acquire());
    state.request_cancel();
    // a rejected second start must not clear the first job's token
    assert!(!state.try_acquire());
    assert!(state.is_cancel_requested());
}

#[test]
fn default_state_is_idle() {
    let state = ConversionState::default();
    assert!(!state.is_converting);
    assert!(!state.cancel_flag);
}
