//! Platform rules: hotkeys, text injection, paths and permissions.

pub mod hotkey;
pub mod injector;
pub mod paths;
pub mod permissions;

pub use hotkey::{HotkeyConfig, HotkeyEvent};
pub use injector::{InjectionStrategy, InjectorConfig, TextInjector};
pub use paths::{
    config_file_path, ensure_directories, history_db_path, ipc_socket_path, log_dir, model_path,
    models_dir, runtime_dir,
};
pub use permissions::{
    check_accessibility_permission, check_microphone_permission, check_required_permissions,
    open_accessibility_settings, verify_permissions, Permission, PermissionStatus,
};
