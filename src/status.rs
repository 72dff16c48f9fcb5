//! Small replies to the interface: the greeting, advisory permission states
//! and the result of a completed export.
use crate::model::{ExportResult, PermissionStatus};
use vstd::prelude::*;

verus! {

/// The greeting for `name`.
pub fn greet(name: &str) -> (r: String)
    ensures
        r@ == "Hello, "@ + name@ + "! You've been greeted from Rust!"@,
{
    let mut s = String::from_str("Hello, ");
    s.append(name);
    s.append("! You've been greeted from Rust!");
    s
}

/// Screen recording permission as the backend reports it. The backend cannot
/// read the real state: on macOS it reports no permission and leaves the
/// check to the interface; elsewhere no permission is needed.
pub fn screen_recording_permission(on_macos: bool) -> (r: PermissionStatus)
    ensures
        r.has_permission == !on_macos,
        on_macos ==> r.message@
            == "Permission status cannot be determined from backend. Frontend will check via getDisplayMedia() API."@,
        !on_macos ==> r.message@ == "Screen recording permissions not applicable on this platform"@,
{
    if on_macos {
        PermissionStatus {
            has_permission: false,
            message: String::from_str(
                "Permission status cannot be determined from backend. Frontend will check via getDisplayMedia() API.",
            ),
        }
    } else {
        PermissionStatus {
            has_permission: true,
            message: String::from_str(
                "Screen recording permissions not applicable on this platform",
            ),
        }
    }
}

/// Microphone permission as the backend reports it, on the same terms as
/// `screen_recording_permission`.
pub fn microphone_permission(on_macos: bool) -> (r: PermissionStatus)
    ensures
        r.has_permission == !on_macos,
        on_macos ==> r.message@
            == "Permission status cannot be determined from backend. Frontend will check via getUserMedia() API. Make sure microphone permission is granted in System Preferences > Security & Privacy > Privacy > Microphone."@,
        !on_macos ==> r.message@ == "Microphone permissions not applicable on this platform"@,
{
    if on_macos {
        PermissionStatus {
            has_permission: false,
            message: String::from_str(
                "Permission status cannot be determined from backend. Frontend will check via getUserMedia() API. Make sure microphone permission is granted in System Preferences > Security & Privacy > Privacy > Microphone.",
            ),
        }
    } else {
        PermissionStatus {
            has_permission: true,
            message: String::from_str("Microphone permissions not applicable on this platform"),
        }
    }
}

/// The reply to an export whose read, create, write and sync all succeeded.
pub fn export_completed(destination_path: String) -> (r: ExportResult)
    ensures
        r.success,
        r.message@ == "Export completed successfully"@,
        r.output_path == Some(destination_path),
{
    ExportResult {
        success: true,
        message: String::from_str("Export completed successfully"),
        output_path: Some(destination_path),
    }
}

} // verus!
