use voice_keyboard::launch::{EnvSnapshot, StartError};
use voice_keyboard::session::{Session, SessionState, Status, ToggleAction};

fn full_snapshot() -> EnvSnapshot {
    EnvSnapshot {
        pulse_runtime_path: Some("/run/user/1000/pulse".to_string()),
        xdg_runtime_dir: Some("/run/user/1000".to_string()),
        display: Some(":0".to_string()),
        wayland_display: Some("wayland-0".to_string()),
        home: Some("/home/user".to_string()),
        user: Some("user".to_string()),
    }
}

#[test]
fn new_session_is_idle_and_ready() {
    let s: Session<u64> = Session::new();
    assert_eq!(s.state, SessionState::Idle);
    assert!(s.handle.is_none());
    assert_eq!(s.status.text(), "Ready");
}

#[test]
fn successful_start_records() {
    let mut s: Session<u64> = Session::new();
    s.note_start(Ok(5));
    assert_eq!(s.state, SessionState::Recording);
    assert_eq!(s.handle, Some(5));
    assert_eq!(s.status.text(), "Recording...");
}

#[test]
fn spawn_failure_leaves_idle() {
    let mut s: Session<u64> = Session::new();
    s.note_start(Err(StartError::Spawn { detail: "no such file".to_string() }));
    assert_eq!(s.state, SessionState::Idle);
    assert!(s.handle.is_none());
    assert_eq!(s.status.text(), "Failed to start: no such file");
}

#[test]
fn begin_stop_returns_the_handle() {
    let mut s: Session<u64> = Session::new();
    s.note_start(Ok(11));
    let h = s.begin_stop();
    assert_eq!(h, 11);
    assert_eq!(s.state, SessionState::Idle);
    assert!(s.handle.is_none());
    assert_eq!(s.status.text(), "Stopped");
}

#[test]
fn toggle_alternates_between_idle_and_recording() {
    let mut s: Session<u64> = Session::new();
    let key = "k".to_string();
    let snapshot = full_snapshot();
    let dir = "/opt/app".to_string();

    match s.toggle(&key, &snapshot, Some(&dir)) {
        ToggleAction::StartRequested { .. } => s.note_start(Ok(1)),
        _ => panic!("an idle session with a key must request a start"),
    }
    assert_eq!(s.state, SessionState::Recording);

    match s.toggle(&key, &snapshot, Some(&dir)) {
        ToggleAction::StopRequested { handle } => assert_eq!(handle, 1),
        _ => panic!("a recording session must request a stop"),
    }
    assert_eq!(s.state, SessionState::Idle);

    match s.toggle(&key, &snapshot, Some(&dir)) {
        ToggleAction::StartRequested { .. } => s.note_start(Ok(2)),
        _ => panic!("the third toggle must request a start again"),
    }
    assert_eq!(s.state, SessionState::Recording);
    assert_eq!(s.handle, Some(2));
}

#[test]
fn back_to_back_toggles_never_double_start() {
    let mut s: Session<u64> = Session::new();
    let key = "k".to_string();
    let snapshot = full_snapshot();
    let dir = "/opt/app".to_string();

    match s.toggle(&key, &snapshot, Some(&dir)) {
        ToggleAction::StartRequested { .. } => s.note_start(Ok(1)),
        _ => panic!("first toggle must request a start"),
    }
    // the immediately following toggle is a stop, never a second start
    match s.toggle(&key, &snapshot, Some(&dir)) {
        ToggleAction::StopRequested { handle } => assert_eq!(handle, 1),
        ToggleAction::StartRequested { .. } => panic!("double start"),
        ToggleAction::StartRefused { .. } => panic!("lost toggle"),
    }
}

#[test]
fn empty_key_never_records() {
    let mut s: Session<u64> = Session::new();
    let key = String::new();
    let snapshot = full_snapshot();
    let dir = "/opt/app".to_string();
    match s.toggle(&key, &snapshot, Some(&dir)) {
        ToggleAction::StartRefused { error } => {
            assert!(matches!(error, StartError::ConfigMissing));
        },
        _ => panic!("an empty key must refuse the start"),
    }
    assert_eq!(s.state, SessionState::Idle);
    assert!(s.handle.is_none());
    assert_eq!(s.status.text(), "Cannot start: the API key is not configured");
}

#[test]
fn unknown_binary_directory_refused() {
    let mut s: Session<u64> = Session::new();
    let key = "k".to_string();
    let snapshot = full_snapshot();
    match s.toggle(&key, &snapshot, None) {
        ToggleAction::StartRefused { error } => {
            assert!(matches!(error, StartError::PathResolution));
        },
        _ => panic!("an unknown directory must refuse the start"),
    }
    assert_eq!(s.state, SessionState::Idle);
    assert_eq!(
        s.status.text(),
        "Failed to start: the application binary's directory is unknown"
    );
}

#[test]
fn teardown_surrenders_a_live_handle() {
    let mut s: Session<u64> = Session::new();
    s.note_start(Ok(9));
    let h = s.teardown();
    assert_eq!(h, Some(9));
    assert_eq!(s.state, SessionState::Idle);
    assert!(s.handle.is_none());
}

#[test]
fn teardown_of_idle_session_has_no_handle() {
    let mut s: Session<u64> = Session::new();
    let h = s.teardown();
    assert_eq!(h, None);
    assert_eq!(s.state, SessionState::Idle);
}

#[test]
fn handle_present_exactly_while_recording() {
    let mut s: Session<u64> = Session::new();
    assert_eq!(s.handle.is_some(), s.state == SessionState::Recording);
    s.note_start(Ok(3));
    assert_eq!(s.handle.is_some(), s.state == SessionState::Recording);
    let _ = s.begin_stop();
    assert_eq!(s.handle.is_some(), s.state == SessionState::Recording);
    s.note_start(Err(StartError::ConfigMissing));
    assert_eq!(s.handle.is_some(), s.state == SessionState::Recording);
}

#[test]
fn status_holds_failure_description() {
    let status = Status::Failed(StartError::ConfigMissing);
    assert_eq!(status.text(), "Cannot start: the API key is not configured");
}
