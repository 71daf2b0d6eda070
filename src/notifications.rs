use vstd::prelude::*;

use vstd::string::StringExecFns;

verus! {

/// A desktop notification to show: which application raises it, its title,
/// its text and how long it stays, in seconds.
#[derive(Debug, Clone)]
pub struct Notice {
    pub app_name: String,
    pub summary: String,
    pub body: String,
    pub timeout_secs: u64,
}

/// How long a notification stays, in seconds.
pub const NOTICE_TIMEOUT_SECS: u64 = 5;

/// Composes the notifications that tell the user about connectivity.
#[derive(Debug, Clone)]
pub struct NotificationManager {
    app_name: String,
}

impl NotificationManager {
    /// The application name on every notification.
    pub closed spec fn app_name(&self) -> Seq<char> {
        self.app_name@
    }

    /// A manager that raises notifications as "Post Clipboard Sync".
    pub fn new() -> (r: NotificationManager)
        ensures
            r.app_name() == "Post Clipboard Sync"@,
    {
        NotificationManager { app_name: "Post Clipboard Sync".to_string() }
    }

    /// The notification that the overlay connection was lost.
    pub fn show_tailscale_disconnected(&self) -> (r: Notice)
        ensures
            r.app_name@ == self.app_name(),
            r.summary@ == "Tailscale Disconnected"@,
            r.body@ == "Post clipboard sync is offline. Will retry every 2 seconds."@,
            r.timeout_secs == NOTICE_TIMEOUT_SECS,
    {
        self.show_notification(
            "Tailscale Disconnected",
            "Post clipboard sync is offline. Will retry every 2 seconds.".to_string(),
        )
    }

    /// The notification that the overlay connection was established as `node_id`.
    pub fn show_tailscale_connected(&self, node_id: &str) -> (r: Notice)
        ensures
            r.app_name@ == self.app_name(),
            r.summary@ == "Tailscale Connected"@,
            r.body@ == "Post clipboard sync is online ("@ + node_id@ + ")"@,
            r.timeout_secs == NOTICE_TIMEOUT_SECS,
    {
        let mut body = "Post clipboard sync is online (".to_string();
        body.append(node_id);
        body.append(")");
        self.show_notification("Tailscale Connected", body)
    }

    /// The notification that the daemon started without the overlay.
    pub fn show_daemon_started_offline(&self) -> (r: Notice)
        ensures
            r.app_name@ == self.app_name(),
            r.summary@ == "Post Daemon Started"@,
            r.body@ == "Waiting for Tailscale connection..."@,
            r.timeout_secs == NOTICE_TIMEOUT_SECS,
    {
        self.show_notification("Post Daemon Started", "Waiting for Tailscale connection...".to_string())
    }

    fn show_notification(&self, summary: &str, body: String) -> (r: Notice)
        ensures
            r.app_name@ == self.app_name(),
            r.summary@ == summary@,
            r.body@ == body@,
            r.timeout_secs == NOTICE_TIMEOUT_SECS,
    {
        Notice {
            app_name: self.app_name.clone(),
            summary: summary.to_string(),
            body,
            timeout_secs: NOTICE_TIMEOUT_SECS,
        }
    }
}

impl Default for NotificationManager {
    fn default() -> (r: NotificationManager)
        ensures
            r.app_name() == "Post Clipboard Sync"@,
    {
        NotificationManager::new()
    }
}

} // verus!
