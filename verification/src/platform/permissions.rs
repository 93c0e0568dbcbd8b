//! Which permissions the daemon needs, and what follows from their state.

use crate::{Error, ErrorKind};
use vstd::prelude::*;

verus! {

/// A permission of the platform.
#[derive(Debug, Clone, Copy, PartialEq, Eq, Structural)]
pub enum Permission {
    /// Accessibility, for text injection.
    Accessibility,
    /// Input monitoring, for global hotkeys.
    InputMonitoring,
    /// Microphone access.
    Microphone,
    /// Screen recording.
    ScreenRecording,
}

/// The state of a permission.
#[derive(Debug, Clone, Copy, PartialEq, Eq, Structural)]
pub enum PermissionStatus {
    /// Permission granted.
    Granted,
    /// Permission denied.
    Denied,
    /// Not determined yet.
    NotDetermined,
    /// Not applicable on this platform.
    NotApplicable,
}

/// The accessibility permission on a desktop that says whether a Wayland
/// or an X11 display is there: granted with either, undetermined with
/// neither.
pub fn check_accessibility_permission(wayland_display: bool, x11_display: bool) -> (status:
    PermissionStatus)
    ensures
        status == if wayland_display || x11_display {
            PermissionStatus::Granted
        } else {
            PermissionStatus::NotDetermined
        },
{
    if wayland_display {
        PermissionStatus::Granted
    } else if x11_display {
        PermissionStatus::Granted
    } else {
        PermissionStatus::NotDetermined
    }
}

/// The microphone permission: granted where the sound devices are there,
/// else denied.
pub fn check_microphone_permission(sound_devices_present: bool) -> (status: PermissionStatus)
    ensures
        status == if sound_devices_present {
            PermissionStatus::Granted
        } else {
            PermissionStatus::Denied
        },
{
    if sound_devices_present {
        PermissionStatus::Granted
    } else {
        PermissionStatus::Denied
    }
}

/// The programs that may open the system's settings, in the order they
/// are tried, each with its arguments.
pub open spec fn settings_programs() -> Seq<Seq<Seq<char>>> {
    seq![
        seq!["gnome-control-center"@, "privacy"@],
        seq!["systemsettings5"@],
        seq!["xfce4-settings-manager"@],
    ]
}

/// The views of the words of each command.
pub open spec fn command_texts(commands: Seq<Vec<String>>) -> Seq<Seq<Seq<char>>> {
    commands.map_values(|c: Vec<String>| c@.map_values(|w: String| w@))
}

/// The commands that may open the accessibility settings, in the order
/// they are tried; the first that starts ends the search.
pub fn open_accessibility_settings() -> (commands: Vec<Vec<String>>)
    ensures
        command_texts(commands@) == settings_programs(),
{
    let mut gnome: Vec<String> = Vec::new();
    gnome.push("gnome-control-center".to_owned());
    gnome.push("privacy".to_owned());
    let mut kde: Vec<String> = Vec::new();
    kde.push("systemsettings5".to_owned());
    let mut xfce: Vec<String> = Vec::new();
    xfce.push("xfce4-settings-manager".to_owned());
    assert(gnome@.map_values(|w: String| w@) =~= settings_programs()[0]);
    assert(kde@.map_values(|w: String| w@) =~= settings_programs()[1]);
    assert(xfce@.map_values(|w: String| w@) =~= settings_programs()[2]);
    let mut commands: Vec<Vec<String>> = Vec::new();
    commands.push(gnome);
    commands.push(kde);
    commands.push(xfce);
    assert(command_texts(commands@) =~= settings_programs());
    commands
}

/// The commands that may open the input monitoring settings: the same as
/// for accessibility.
pub fn open_input_monitoring_settings() -> (commands: Vec<Vec<String>>)
    ensures
        command_texts(commands@) == settings_programs(),
{
    open_accessibility_settings()
}

/// The error for settings that no program could open.
pub fn settings_not_opened() -> (e: Error)
    ensures
        e.spec_kind() == ErrorKind::Platform,
        e.spec_message() == "Could not open system settings. Please open manually."@,
{
    Error::Platform("Could not open system settings. Please open manually.".to_owned())
}

/// The permissions the daemon needs with their states: accessibility
/// first, then the microphone.
pub fn check_required_permissions(
    wayland_display: bool,
    x11_display: bool,
    sound_devices_present: bool,
) -> (results: Vec<(Permission, PermissionStatus)>)
    ensures
        results@ == seq![
            (
                Permission::Accessibility,
                if wayland_display || x11_display {
                    PermissionStatus::Granted
                } else {
                    PermissionStatus::NotDetermined
                },
            ),
            (
                Permission::Microphone,
                if sound_devices_present {
                    PermissionStatus::Granted
                } else {
                    PermissionStatus::Denied
                },
            ),
        ],
{
    let mut results: Vec<(Permission, PermissionStatus)> = Vec::new();
    results.push(
        (Permission::Accessibility, check_accessibility_permission(wayland_display, x11_display)),
    );
    results.push((Permission::Microphone, check_microphone_permission(sound_devices_present)));
    assert(results@ =~= seq![results@[0], results@[1]]);
    results
}

/// Whether a permission in this state is missing.
pub open spec fn is_missing(status: PermissionStatus) -> bool {
    status == PermissionStatus::Denied || status == PermissionStatus::NotDetermined
}

/// Where the first missing permission stands, or the number of
/// permissions where none is missing.
pub open spec fn first_missing(permissions: Seq<(Permission, PermissionStatus)>) -> int
    decreases permissions.len(),
{
    if permissions.len() == 0 || is_missing(permissions[0].1) {
        0
    } else {
        1 + first_missing(permissions.drop_first())
    }
}

/// What is said when a permission is missing.
pub open spec fn missing_message(permission: Permission) -> Seq<char> {
    match permission {
        Permission::Accessibility => "Accessibility permission required"@,
        Permission::InputMonitoring => "Input Monitoring permission required"@,
        Permission::Microphone => "Microphone permission required"@,
        Permission::ScreenRecording => "Screen recording permission required"@,
    }
}

proof fn lemma_first_missing(permissions: Seq<(Permission, PermissionStatus)>, i: int)
    requires
        0 <= i <= permissions.len(),
        forall|k: int| 0 <= k < i ==> !is_missing(permissions[k].1),
        i < permissions.len() ==> is_missing(permissions[i].1),
    ensures
        first_missing(permissions) == i,
    decreases permissions.len(),
{
    if i > 0 {
        let rest = permissions.drop_first();
        assert forall|k: int| 0 <= k < i - 1 implies !is_missing(rest[k].1) by {
            assert(rest[k] == permissions[k + 1]);
        }
        lemma_first_missing(rest, i - 1);
    }
}

/// Checks that no permission is denied or undetermined. The first one
/// that is makes the check fail with a platform error that names it; the
/// caller prompts the user for it.
pub fn verify_permissions(permissions: &Vec<(Permission, PermissionStatus)>) -> (result: Result<
    (),
    (Permission, Error),
>)
    ensures
        match result {
            Ok(_) => first_missing(permissions@) == permissions@.len(),
            Err((permission, e)) => {
                &&& first_missing(permissions@) < permissions@.len()
                &&& permission == permissions@[first_missing(permissions@)].0
                &&& e.spec_kind() == ErrorKind::Platform
                &&& e.spec_message() == missing_message(permission)
            },
        },
{
    let mut i: usize = 0;
    while i < permissions.len()
        invariant
            i <= permissions@.len(),
            forall|k: int| 0 <= k < i ==> !is_missing(permissions@[k].1),
        decreases permissions@.len() - i,
    {
        let (permission, status) = permissions[i];
        if status == PermissionStatus::Denied || status == PermissionStatus::NotDetermined {
            proof {
                lemma_first_missing(permissions@, i as int);
            }
            let message = match permission {
                Permission::Accessibility => "Accessibility permission required",
                Permission::InputMonitoring => "Input Monitoring permission required",
                Permission::Microphone => "Microphone permission required",
                Permission::ScreenRecording => "Screen recording permission required",
            };
            return Err((permission, Error::Platform(message.to_owned())));
        }
        i = i + 1;
    }
    proof {
        lemma_first_missing(permissions@, i as int);
    }
    Ok(())
}

} // verus!
