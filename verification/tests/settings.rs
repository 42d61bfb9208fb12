use greeter::settings::{needs_config, Args, Settings, SettingsError};

fn args(user: Option<&str>, name: Option<&str>, command: Option<&str>) -> Args {
    Args {
        user: user.map(str::to_string),
        session_name: name.map(str::to_string),
        session_command: command.map(str::to_string),
        config: None,
    }
}

fn file_settings() -> Settings {
    Settings {
        default_session_name: "sway".to_string(),
        default_session_command: "sway --unsupported-gpu".to_string(),
        user: "greeter".to_string(),
    }
}

#[test]
fn complete_command_line_needs_no_config() {
    let a = args(Some("alice"), Some("river"), Some("river-run"));
    assert!(!needs_config(&a));
    let resolved = Settings::from_args(a, None).expect("nothing missing");
    assert_eq!(resolved.user, "alice");
    assert_eq!(resolved.default_session_name, "river");
    assert_eq!(resolved.default_session_command, "river-run");
}

#[test]
fn missing_values_fall_back_on_config() {
    let a = args(None, Some("river"), None);
    assert!(needs_config(&a));
    let resolved = Settings::from_args(a, Some(file_settings())).expect("config available");
    assert_eq!(resolved.user, "greeter");
    assert_eq!(resolved.default_session_name, "river");
    assert_eq!(
        resolved.default_session_command,
        "sway --unsupported-gpu"
    );
}

#[test]
fn everything_from_config() {
    let a = args(None, None, None);
    let resolved = Settings::from_args(a, Some(file_settings())).expect("config available");
    assert_eq!(resolved, file_settings());
}

#[test]
fn command_line_wins_over_config() {
    let a = args(Some("alice"), None, None);
    let resolved = Settings::from_args(a, Some(file_settings())).expect("config available");
    assert_eq!(resolved.user, "alice");
    assert_eq!(resolved.default_session_name, "sway");
}

#[test]
fn missing_config_is_an_error() {
    let a = args(Some("alice"), None, Some("river-run"));
    assert_eq!(
        Settings::from_args(a, None),
        Err(SettingsError::ConfigUnavailable)
    );
}

#[test]
fn config_path_does_not_affect_need() {
    let mut a = args(Some("alice"), Some("river"), Some("river-run"));
    a.config = Some("/etc/greetd/other.json".to_string());
    assert!(!needs_config(&a));
    assert!(Settings::from_args(a, None).is_ok());
}
