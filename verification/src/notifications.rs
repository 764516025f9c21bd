//! Notification data types, the predefined option builders, and the pure
//! decision of what a send attempt reports. The platform call itself is
//! made outside the library; its outcome is handed back in.

use vstd::prelude::*;
use vstd::string::StringExecFns;
use crate::types::opt_view;

verus! {

#[derive(Debug, Clone)]
pub struct NotificationOptions {
    pub title: String,
    pub body: Option<String>,
    pub icon: Option<String>,
    pub sound: Option<String>,
}

#[derive(Debug, Clone)]
pub struct NotificationResult {
    pub success: bool,
    pub message: String,
    pub permission_granted: bool,
}

/// The demo notification.
pub fn create_demo_options() -> (r: NotificationOptions)
    ensures
        r.title@ == "🚀 Tauri Notification Demo"@,
        opt_view(r.body) == Some(
            "This is a demo notification from your Tauri + Next.js app! OS notifications are working perfectly."@,
        ),
        r.icon is None,
        r.sound is None,
{
    NotificationOptions {
        title: String::from_str("🚀 Tauri Notification Demo"),
        body: Some(
            String::from_str(
                "This is a demo notification from your Tauri + Next.js app! OS notifications are working perfectly.",
            ),
        ),
        icon: None,
        sound: None,
    }
}

/// A success notification, with a default body when none is given.
pub fn create_success_options(message: Option<String>) -> (r: NotificationOptions)
    ensures
        r.title@ == "✅ Success"@,
        message is Some ==> r.body == message,
        message is None ==> opt_view(r.body) == Some("Operation completed successfully!"@),
        r.icon is None,
        r.sound is None,
{
    let body = match message {
        Some(m) => Some(m),
        None => Some(String::from_str("Operation completed successfully!")),
    };
    NotificationOptions { title: String::from_str("✅ Success"), body, icon: None, sound: None }
}

/// An error notification, with a default body when none is given.
pub fn create_error_options(message: Option<String>) -> (r: NotificationOptions)
    ensures
        r.title@ == "❌ Error"@,
        message is Some ==> r.body == message,
        message is None ==> opt_view(r.body) == Some("An error occurred!"@),
        r.icon is None,
        r.sound is None,
{
    let body = match message {
        Some(m) => Some(m),
        None => Some(String::from_str("An error occurred!")),
    };
    NotificationOptions { title: String::from_str("❌ Error"), body, icon: None, sound: None }
}

/// An informational notification, with a default body when none is given.
pub fn create_info_options(message: Option<String>) -> (r: NotificationOptions)
    ensures
        r.title@ == "ℹ️ Information"@,
        message is Some ==> r.body == message,
        message is None ==> opt_view(r.body) == Some("Here's some information for you!"@),
        r.icon is None,
        r.sound is None,
{
    let body = match message {
        Some(m) => Some(m),
        None => Some(String::from_str("Here's some information for you!")),
    };
    NotificationOptions { title: String::from_str("ℹ️ Information"), body, icon: None, sound: None }
}

/// What a send attempt reports, given whether permission was granted and
/// what the platform call answered (`None` for success, the error text
/// otherwise). Without permission nothing is attempted.
pub fn notification_outcome(
    permission_granted: bool,
    send_error: Option<&str>,
    title: &str,
) -> (r: NotificationResult)
    ensures
        r.permission_granted == permission_granted,
        !permission_granted ==> !r.success && r.message@
            == "Notification permission not granted"@,
        permission_granted && send_error is None ==> r.success && r.message@ == "Notification '"@
            + title@ + "' sent successfully"@,
        permission_granted && send_error is Some ==> !r.success && r.message@
            == "Failed to send notification: "@ + send_error.unwrap()@,
{
    if !permission_granted {
        return NotificationResult {
            success: false,
            message: String::from_str("Notification permission not granted"),
            permission_granted: false,
        };
    }
    match send_error {
        None => {
            let mut message = String::from_str("Notification '");
            message.append(title);
            message.append("' sent successfully");
            NotificationResult { success: true, message, permission_granted: true }
        },
        Some(e) => {
            let mut message = String::from_str("Failed to send notification: ");
            message.append(e);
            NotificationResult { success: false, message, permission_granted: true }
        },
    }
}

} // verus!
