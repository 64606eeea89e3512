use stdio_peer::lifecycle::{ConsoleModes, GlobalState};

fn modes(stdin_nonblocking: bool, stdout_nonblocking: bool) -> ConsoleModes {
    ConsoleModes { stdin_nonblocking, stdout_nonblocking }
}

#[test]
fn fresh_state_has_no_obligations() {
    let s = GlobalState::new();
    assert!(!s.need_to_restore_stdin_blocking_status);
    assert!(!s.need_to_restore_stdout_blocking_status);
    assert_eq!(s, GlobalState::default());
    assert!(!s.needs_stdin_restore());
    assert!(!s.needs_stdout_restore());
}

#[test]
fn setup_switches_both_streams_to_nonblocking() {
    let mut s = GlobalState::new();
    let target = s.register_console_setup(modes(false, false));
    assert_eq!(target, modes(true, true));
}

#[test]
fn setup_then_restore_round_trips_every_initial_mode_pair() {
    for &stdin_nb in &[false, true] {
        for &stdout_nb in &[false, true] {
            let initial = modes(stdin_nb, stdout_nb);
            let mut s = GlobalState::new();
            let target = s.register_console_setup(initial);
            assert_eq!(target, modes(true, true));
            let restored = s.restored_modes(target);
            assert_eq!(restored, initial);
        }
    }
}

#[test]
fn restore_is_idempotent() {
    let mut s = GlobalState::new();
    let target = s.register_console_setup(modes(false, true));
    let once = s.restored_modes(target);
    let twice = s.restored_modes(once);
    assert_eq!(once, twice);
}

#[test]
fn already_nonblocking_stream_leaves_no_obligation() {
    let mut s = GlobalState::new();
    s.register_console_setup(modes(true, false));
    assert!(!s.needs_stdin_restore());
    assert!(s.needs_stdout_restore());
    // Teardown leaves the untouched stream alone.
    let restored = s.restored_modes(modes(true, true));
    assert!(restored.stdin_nonblocking);
    assert!(!restored.stdout_nonblocking);
}

#[test]
fn restore_never_forces_nonblocking() {
    let s = GlobalState::new();
    let restored = s.restored_modes(modes(false, false));
    assert!(!restored.stdin_nonblocking);
    assert!(!restored.stdout_nonblocking);
}

#[test]
fn observations_set_flags_independently_and_never_clear_them() {
    let mut s = GlobalState::new();
    s.observe_stdin(false);
    assert!(s.needs_stdin_restore());
    assert!(!s.needs_stdout_restore());
    // A later non-blocking observation does not clear the obligation.
    s.observe_stdin(true);
    assert!(s.needs_stdin_restore());
    s.observe_stdout(true);
    assert!(!s.needs_stdout_restore());
    s.observe_stdout(false);
    assert!(s.needs_stdout_restore());
}
