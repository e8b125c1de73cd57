//! Daemon configuration: renderer binary, window/widget/variable names for
//! the notification, history and reply surfaces, icon-resolver inputs, the
//! history bound and the per-urgency default timeouts.

use vstd::prelude::*;

verus! {

/// A character sequence that contains no nul character, and so can be handed
/// to the shell quoter.
pub open spec fn nul_free(s: Seq<char>) -> bool {
    forall|i: int| 0 <= i < s.len() ==> s[i] != '\0'
}

/// Default expiry, in seconds, for each urgency level; zero means that a
/// notification of that urgency never expires.
pub struct TimeoutConfig {
    pub low: u32,
    pub normal: u32,
    pub critical: u32,
}

impl Default for TimeoutConfig {
    fn default() -> (r: Self)
        ensures
            r.low == 0 && r.normal == 0 && r.critical == 0,
    {
        TimeoutConfig { low: 0, normal: 0, critical: 0 }
    }
}

/// The notification surface is either one window or a list of windows; every
/// renderer operation on the surface fans out over all of them.
pub enum NotificationWindow {
    Single(String),
    Multiple(Vec<String>),
}

impl NotificationWindow {
    /// The window names of the surface, in order.
    pub open spec fn spec_windows(&self) -> Seq<Seq<char>> {
        match self {
            NotificationWindow::Single(w) => seq![w@],
            NotificationWindow::Multiple(ws) => ws@.map_values(|w: String| w@),
        }
    }
}

pub struct Config {
    pub eww_binary_path: String,
    pub icon_dirs: Vec<String>,
    pub icon_theme: String,
    pub icon_size: u32,
    pub eww_notification_window: NotificationWindow,
    pub eww_notification_widget: String,
    pub eww_notification_var: String,
    pub eww_history_window: String,
    pub eww_history_widget: String,
    pub eww_history_var: String,
    pub eww_reply_window: String,
    pub eww_reply_widget: String,
    pub eww_reply_var: String,
    pub eww_reply_text: String,
    pub max_notifications: u32,
    pub notification_orientation: String,
    pub timeout: TimeoutConfig,
    pub update_history: bool,
}

impl Default for Config {
    fn default() -> (r: Self)
        ensures
            r.eww_binary_path@ == "~/.local/bin/eww"@,
            r.icon_dirs@.len() == 2,
            r.icon_dirs@[0]@ == "/usr/share/icons"@,
            r.icon_dirs@[1]@ == "/usr/share/pixmaps"@,
            r.icon_theme@ == "Adwaita"@,
            r.icon_size == 32,
            r.eww_notification_window matches NotificationWindow::Single(w) && w@
                == "notification-frame"@,
            r.eww_notification_widget@ == "end-notification"@,
            r.eww_notification_var@ == "end-notifications"@,
            r.eww_history_window@ == "history-frame"@,
            r.eww_history_widget@ == "end-history"@,
            r.eww_history_var@ == "end-histories"@,
            r.eww_reply_window@ == "reply-frame"@,
            r.eww_reply_widget@ == "end-reply"@,
            r.eww_reply_var@ == "end-replies"@,
            r.eww_reply_text@ == "end-reply-text"@,
            r.max_notifications == 10,
            r.notification_orientation@ == "v"@,
            r.timeout.low == 5 && r.timeout.normal == 10 && r.timeout.critical == 0,
            r.update_history == true,
    {
        let mut icon_dirs: Vec<String> = Vec::new();
        icon_dirs.push(String::from_str("/usr/share/icons"));
        icon_dirs.push(String::from_str("/usr/share/pixmaps"));
        Config {
            eww_binary_path: String::from_str("~/.local/bin/eww"),
            icon_dirs,
            icon_theme: String::from_str("Adwaita"),
            icon_size: 32,
            eww_notification_window: NotificationWindow::Single(
                String::from_str("notification-frame"),
            ),
            eww_notification_widget: String::from_str("end-notification"),
            eww_notification_var: String::from_str("end-notifications"),
            eww_history_window: String::from_str("history-frame"),
            eww_history_widget: String::from_str("end-history"),
            eww_history_var: String::from_str("end-histories"),
            eww_reply_window: String::from_str("reply-frame"),
            eww_reply_widget: String::from_str("end-reply"),
            eww_reply_var: String::from_str("end-replies"),
            eww_reply_text: String::from_str("end-reply-text"),
            max_notifications: 10,
            notification_orientation: String::from_str("v"),
            timeout: TimeoutConfig { low: 5, normal: 10, critical: 0 },
            update_history: true,
        }
    }
}

} // verus!
