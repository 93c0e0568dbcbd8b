use onevox::platform::hotkey::{Hotkey, HotkeyConfig, Key, Modifiers};
use onevox::platform::injector::{InjectionBackend, TextInjector};
use onevox::platform::paths::{
    config_file_path, ensure_directories, history_db_path, ipc_socket_path, log_dir, model_path,
    models_dir, runtime_dir, NAMED_PIPE_PATH,
};
use onevox::platform::permissions::{
    check_required_permissions, verify_permissions, Permission, PermissionStatus,
};

#[test]
fn test_injector_creation() {
    let injector = TextInjector::default();
    assert_eq!(injector.config().key_delay_ms, 10);
    assert_eq!(injector.config().initial_delay_ms, 50);
}

#[test]
fn test_model_path() {
    let path = model_path("/home/u/.cache/onevox/models", "whisper-tiny.en");
    assert!(path.contains("whisper-tiny.en"));
    assert_eq!(path, "/home/u/.cache/onevox/models/whisper-tiny.en");
    println!("Model path: {}", path);
}

#[test]
fn test_named_pipe_path() {
    let pipe_path = std::path::PathBuf::from(NAMED_PIPE_PATH);
    let path_str = pipe_path.to_string_lossy();

    assert!(path_str.contains("pipe"));
    assert!(path_str.contains("onevox"));
    assert_eq!(NAMED_PIPE_PATH, r"\\.\pipe\onevox");
}

#[test]
fn test_models_dir() {
    let dir = models_dir("/home/u/.cache/onevox");
    assert!(dir.contains("models"));
    println!("Models dir: {}", dir);
}

#[test]
fn test_log_dir() {
    let dir = log_dir("/home/u/.local/share/onevox");
    println!("Log dir: {}", dir);
    assert!(dir.contains("logs"));
}

#[test]
fn test_ipc_socket_path() {
    let path = ipc_socket_path(Some("/run/user/1000"), "/tmp");
    println!("IPC socket path: {}", path);
    assert!(path.contains(".sock"));
    assert_eq!(path, "/run/user/1000/onevox.sock");
    assert_eq!(ipc_socket_path(None, "/tmp"), "/tmp/onevox.sock");
}

#[test]
fn paths_are_joined_like_paths() {
    assert_eq!(history_db_path("/data"), "/data/history.json");
    assert_eq!(config_file_path("/config/"), "/config/config.toml");
    assert_eq!(model_path("/models", "/abs/model"), "/abs/model");
    assert_eq!(model_path("", "tiny"), "tiny");
    assert_eq!(runtime_dir(None, "/tmp"), "/tmp/onevox");
    assert_eq!(runtime_dir(Some("/run/user/7"), "/tmp"), "/run/user/7/onevox");
    assert_eq!(
        ensure_directories("/c", "/f", "/d"),
        vec!["/c", "/f", "/d", "/c/models", "/d/logs"]
    );
}

#[test]
fn test_hotkey_config_parse() {
    let config = HotkeyConfig::from_string("Cmd+Shift+Space").unwrap();
    assert_eq!(config.modifiers.len(), 2);
    assert_eq!(config.key, "Space");
}

#[test]
fn test_hotkey_config_to_hotkey() {
    let config = HotkeyConfig::default();
    let hotkey = config.to_hotkey();
    assert!(hotkey.is_ok());
}

#[test]
fn hotkey_names_are_read_whatever_their_case() {
    let config = HotkeyConfig::from_string("CTRL+Option+bogus+F12").unwrap();
    assert_eq!(config.modifiers, vec!["CTRL", "Option", "bogus"]);
    assert_eq!(
        config.to_hotkey().unwrap(),
        Hotkey {
            modifiers: Modifiers { cmd: false, shift: false, opt: true, ctrl: true },
            key: Key::F12,
        }
    );
    let lone = HotkeyConfig::from_string("").unwrap();
    assert!(lone.modifiers.is_empty());
    assert_eq!(lone.key, "");
    let unknown = HotkeyConfig::from_string("Cmd+Hyper").unwrap().to_hotkey().unwrap_err();
    assert_eq!(unknown.to_string(), "Configuration error: Unknown key: Hyper");
    assert_eq!(config.parse_key("ESC").unwrap(), Key::Escape);
    assert_eq!(config.parse_key("0").unwrap(), Key::Num0);
}

#[test]
fn test_check_permissions() {
    let permissions = check_required_permissions(false, true, true);
    assert!(!permissions.is_empty());
}

#[test]
fn first_missing_permission_is_reported() {
    let all = check_required_permissions(true, false, true);
    assert_eq!(
        all,
        vec![
            (Permission::Accessibility, PermissionStatus::Granted),
            (Permission::Microphone, PermissionStatus::Granted),
        ]
    );
    assert!(verify_permissions(&all).is_ok());
    let none = check_required_permissions(false, false, false);
    let (permission, error) = verify_permissions(&none).unwrap_err();
    assert_eq!(permission, Permission::Accessibility);
    assert_eq!(error.message(), "Accessibility permission required");
    let no_mic = check_required_permissions(false, true, false);
    let (permission, error) = verify_permissions(&no_mic).unwrap_err();
    assert_eq!(permission, Permission::Microphone);
    assert_eq!(error.to_string(), "Platform error: Microphone permission required");
}

#[test]
fn injection_plan_orders_the_ways_of_typing() {
    let injector = TextInjector::default();
    assert!(injector.plan("", true).is_none());
    let wayland = injector.plan("hello", true).unwrap();
    assert_eq!(
        wayland.backends,
        vec![InjectionBackend::Wtype, InjectionBackend::Ydotool, InjectionBackend::Keystrokes]
    );
    assert_eq!(wayland.initial_delay_ms, 50);
    let other = injector.plan("hello", false).unwrap();
    assert_eq!(other.backends, vec![InjectionBackend::Keystrokes]);
    assert_eq!(other.key_delay_ms, 10);
}

#[test]
fn settings_are_opened_by_the_first_program_that_starts() {
    let commands = onevox::platform::permissions::open_accessibility_settings();
    assert_eq!(
        commands,
        vec![
            vec!["gnome-control-center".to_string(), "privacy".to_string()],
            vec!["systemsettings5".to_string()],
            vec!["xfce4-settings-manager".to_string()],
        ]
    );
    assert_eq!(onevox::platform::permissions::open_input_monitoring_settings(), commands);
    assert_eq!(
        onevox::platform::permissions::settings_not_opened().to_string(),
        "Platform error: Could not open system settings. Please open manually."
    );
}

#[test]
fn test_ensure_directories() {
    let dirs = ensure_directories("/home/u/.cache/onevox", "/home/u/.config/onevox", "/home/u/.local/share/onevox");

    assert_eq!(dirs.len(), 5);
    assert!(dirs.contains(&"/home/u/.cache/onevox".to_string()));
    assert!(dirs.contains(&"/home/u/.config/onevox".to_string()));
    assert!(dirs.contains(&"/home/u/.local/share/onevox".to_string()));
    assert!(dirs.contains(&"/home/u/.cache/onevox/models".to_string()));
    assert!(dirs.contains(&"/home/u/.local/share/onevox/logs".to_string()));
}
