//! Desktop notifications: what is shown and how long it stays.
use vstd::prelude::*;
use vstd::string::*;

verus! {

/// Urgency of a desktop notification.
#[derive(Debug, Clone, Copy, PartialEq, Eq, Structural)]
pub enum Urgency {
    Low,
    Normal,
    Critical,
}

/// A notification shower: `notify` shows a title, a body and an urgency.
pub trait NotificationService: Send {
    fn notify(&self, title: &str, body: &str, urgency: Urgency);
}

/// Everything a desktop notification daemon is handed.
///
/// A `persistent` notification stays until it is dismissed (resident, no
/// timeout); any other one is transient.
pub struct NotificationRequest {
    pub summary: String,
    pub body: String,
    pub app_name: String,
    pub icon: String,
    pub urgency: Urgency,
    pub persistent: bool,
}

/// The XDG desktop notifications of the assistant, shown under the application
/// name `battery-assistant` with the `battery` icon.
pub struct DesktopNotification;

impl DesktopNotification {
    pub fn new() -> (n: Self) {
        DesktopNotification
    }

    /// The notification to show for a title, a body and an urgency: only
    /// critical ones stay on screen until dismissed.
    pub fn request(&self, title: &str, body: &str, urgency: Urgency) -> (r: NotificationRequest)
        ensures
            r.summary@ == title@,
            r.body@ == body@,
            r.app_name@ == "battery-assistant"@,
            r.icon@ == "battery"@,
            r.urgency == urgency,
            r.persistent == (urgency == Urgency::Critical),
    {
        NotificationRequest {
            summary: String::from_str(title),
            body: String::from_str(body),
            app_name: String::from_str("battery-assistant"),
            icon: String::from_str("battery"),
            urgency,
            persistent: match urgency {
                Urgency::Critical => true,
                _ => false,
            },
        }
    }
}

} // verus!
