use voice_keyboard::launch::{
    allowed_names, build_launch_spec, helper_argv, worker_path, EnvSnapshot, StartError,
};

#[test]
fn only_present_variables_are_forwarded() {
    let snapshot = EnvSnapshot {
        pulse_runtime_path: None,
        xdg_runtime_dir: None,
        display: Some(":0".to_string()),
        wayland_display: None,
        home: Some("/home/user".to_string()),
        user: None,
    };
    let key = "secret".to_string();
    let dir = "/opt/app".to_string();
    let spec = build_launch_spec(&key, &snapshot, Some(&dir)).unwrap();
    let entries: Vec<(&str, &str)> =
        spec.env.iter().map(|a| (a.name.as_str(), a.value.as_str())).collect();
    assert_eq!(
        entries,
        vec![("DEEPGRAM_API_KEY", "secret"), ("DISPLAY", ":0"), ("HOME", "/home/user")]
    );
}

#[test]
fn unset_variable_is_absent_not_empty() {
    let key = "k".to_string();
    let dir = "/opt/app".to_string();
    let spec = build_launch_spec(&key, &EnvSnapshot::empty(), Some(&dir)).unwrap();
    assert_eq!(spec.env.len(), 1);
    assert_eq!(spec.env[0].name, "DEEPGRAM_API_KEY");
    assert!(spec.env.iter().all(|a| a.name != "PULSE_RUNTIME_PATH"));
    assert!(spec.env.iter().all(|a| !a.value.is_empty() || a.name == "DEEPGRAM_API_KEY"));
}

#[test]
fn empty_key_is_config_missing() {
    let key = String::new();
    let dir = "/opt/app".to_string();
    let r = build_launch_spec(&key, &EnvSnapshot::empty(), Some(&dir));
    assert!(matches!(r, Err(StartError::ConfigMissing)));
}

#[test]
fn unknown_directory_is_path_resolution() {
    let key = "k".to_string();
    let r = build_launch_spec(&key, &EnvSnapshot::empty(), None);
    assert!(matches!(r, Err(StartError::PathResolution)));
}

#[test]
fn spec_invokes_helper_with_fixed_argument() {
    let key = "k".to_string();
    let dir = "/usr/lib/voice".to_string();
    let spec = build_launch_spec(&key, &EnvSnapshot::empty(), Some(&dir)).unwrap();
    assert_eq!(spec.helper, "pkexec");
    assert_eq!(spec.executable_path, "/usr/lib/voice/voice-keyboard");
    assert_eq!(spec.fixed_argument, "--test-stt");
}

#[test]
fn worker_path_joins_directory_and_name() {
    let dir = "/opt/app".to_string();
    assert_eq!(worker_path(&dir), "/opt/app/voice-keyboard");
}

#[test]
fn argv_renders_env_assignments_in_order() {
    let snapshot = EnvSnapshot {
        pulse_runtime_path: None,
        xdg_runtime_dir: Some("/run/user/1000".to_string()),
        display: None,
        wayland_display: None,
        home: None,
        user: Some("user".to_string()),
    };
    let key = "secret".to_string();
    let dir = "/opt/app".to_string();
    let spec = build_launch_spec(&key, &snapshot, Some(&dir)).unwrap();
    let argv = helper_argv(&spec);
    assert_eq!(
        argv,
        vec![
            "env".to_string(),
            "DEEPGRAM_API_KEY=secret".to_string(),
            "XDG_RUNTIME_DIR=/run/user/1000".to_string(),
            "USER=user".to_string(),
            "/opt/app/voice-keyboard".to_string(),
            "--test-stt".to_string(),
        ]
    );
}

#[test]
fn allow_list_is_the_seven_fixed_names() {
    let names = allowed_names();
    assert_eq!(
        names,
        vec![
            "DEEPGRAM_API_KEY",
            "PULSE_RUNTIME_PATH",
            "XDG_RUNTIME_DIR",
            "DISPLAY",
            "WAYLAND_DISPLAY",
            "HOME",
            "USER",
        ]
    );
}
