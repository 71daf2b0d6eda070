use post_core::{
    broadcast_outcome, create_clipboard, create_clipboard_watcher,
    create_clipboard_watcher_with_config, create_clipboard_with_config,
    get_best_clipboard_utility, get_possible_socket_paths, is_tailscale_connected,
    online_peer_addresses, BackendState, ClipboardBackend, ClipboardConfig, ClipboardEnvironment,
    MockTransport, NotificationManager, Platform, PostError, TcpApiPeer, WaylandClipboard,
    WaylandClipboardType,
};

fn linux(wayland: bool, wl: bool, xclip: bool, xsel: bool) -> ClipboardEnvironment {
    ClipboardEnvironment {
        platform: Platform::Linux,
        wayland_session: wayland,
        has_wl_clipboard: wl,
        has_xclip: xclip,
        has_xsel: xsel,
        wsl: false,
    }
}

fn config(backend: &str) -> ClipboardConfig {
    let mut c = ClipboardConfig::default();
    c.backend = backend.to_string();
    c
}

#[test]
fn best_utility_order() {
    assert_eq!(get_best_clipboard_utility(&linux(true, true, true, true)), "wl-clipboard");
    assert_eq!(get_best_clipboard_utility(&linux(false, true, true, true)), "xclip");
    assert_eq!(get_best_clipboard_utility(&linux(false, false, false, true)), "xsel");
    assert_eq!(get_best_clipboard_utility(&linux(false, false, false, false)), "system");
}

#[test]
fn linux_backend_selection() {
    assert_eq!(create_clipboard(&linux(true, true, false, false)).unwrap(), ClipboardBackend::HybridLinux);
    assert_eq!(create_clipboard(&linux(false, false, true, false)).unwrap(), ClipboardBackend::XClip);
    assert_eq!(create_clipboard(&linux(false, false, false, true)).unwrap(), ClipboardBackend::XSel);
    assert_eq!(create_clipboard(&linux(false, false, false, false)).unwrap(), ClipboardBackend::System);
    assert_eq!(
        create_clipboard_with_config(&config("wayland"), &linux(true, true, false, false)).unwrap(),
        ClipboardBackend::Wayland(WaylandClipboardType::Clipboard)
    );
    assert!(matches!(
        create_clipboard_with_config(&config("xclip"), &linux(false, false, false, false)),
        Err(PostError::Clipboard(_))
    ));
    assert_eq!(
        create_clipboard_with_config(&config("system"), &linux(true, true, true, true)).unwrap(),
        ClipboardBackend::System
    );
}

#[test]
fn watcher_selection() {
    assert!(matches!(
        create_clipboard_watcher_with_config(&config("wayland"), &linux(true, true, false, false)),
        Err(PostError::Clipboard(_))
    ));
    assert_eq!(create_clipboard_watcher(&linux(false, false, true, false)).unwrap(), ClipboardBackend::XClip);
    let windows = ClipboardEnvironment {
        platform: Platform::Windows,
        wayland_session: false,
        has_wl_clipboard: false,
        has_xclip: false,
        has_xsel: false,
        wsl: true,
    };
    assert_eq!(create_clipboard_watcher(&windows).unwrap(), ClipboardBackend::Wsl);
    let mac = ClipboardEnvironment { platform: Platform::MacOs, ..windows };
    assert_eq!(create_clipboard(&mac).unwrap(), ClipboardBackend::System);
}

#[test]
fn wayland_clipboard_needs_helpers() {
    let c = WaylandClipboard::new(WaylandClipboardType::Primary, true).unwrap();
    assert_eq!(c.selection_arg(), "--primary");
    assert!(matches!(
        WaylandClipboard::new(WaylandClipboardType::Clipboard, false),
        Err(PostError::Clipboard(_))
    ));
}

#[test]
fn notification_texts() {
    let n = NotificationManager::new();
    let c = n.show_tailscale_connected("node-7");
    assert_eq!(c.app_name, "Post Clipboard Sync");
    assert_eq!(c.summary, "Tailscale Connected");
    assert_eq!(c.body, "Post clipboard sync is online (node-7)");
    assert_eq!(c.timeout_secs, 5);
    let d = n.show_tailscale_disconnected();
    assert_eq!(d.body, "Post clipboard sync is offline. Will retry every 2 seconds.");
    let o = n.show_daemon_started_offline();
    assert_eq!(o.summary, "Post Daemon Started");
    assert_eq!(o.body, "Waiting for Tailscale connection...");
}

#[test]
fn broadcast_failure_rules() {
    assert!(broadcast_outcome(0, 0).is_ok());
    assert!(broadcast_outcome(3, 2).is_ok());
    assert!(matches!(broadcast_outcome(2, 2), Err(PostError::Network(_))));
}

#[test]
fn online_peers_first_address() {
    let peers = vec![
        TcpApiPeer { online: true, tailscale_ips: vec!["100.1.1.1".to_string(), "fd7a::1".to_string()] },
        TcpApiPeer { online: false, tailscale_ips: vec!["100.1.1.2".to_string()] },
        TcpApiPeer { online: true, tailscale_ips: vec![] },
        TcpApiPeer { online: true, tailscale_ips: vec!["100.1.1.4".to_string()] },
    ];
    assert_eq!(online_peer_addresses(&peers), vec!["100.1.1.1".to_string(), "100.1.1.4".to_string()]);
}

#[test]
fn overlay_connected_only_when_running() {
    assert!(is_tailscale_connected(Some(BackendState::Running)));
    assert!(!is_tailscale_connected(Some(BackendState::NeedsLogin)));
    assert!(!is_tailscale_connected(None));
}

#[test]
fn socket_paths_by_platform() {
    assert_eq!(get_possible_socket_paths(Platform::Linux, true), vec!["/tmp/tailscaled.sock".to_string()]);
    assert_eq!(
        get_possible_socket_paths(Platform::Linux, false),
        vec!["/var/run/tailscaled.socket".to_string(), "/var/run/tailscale/tailscaled.sock".to_string()]
    );
    assert_eq!(get_possible_socket_paths(Platform::Windows, false).len(), 2);
}

#[test]
fn mock_transport_behaviour() {
    let t = MockTransport::new("mock-node".to_string());
    assert_eq!(t.get_node_id().unwrap(), "mock-node");
    assert!(t.get_tailnet_nodes().unwrap().is_empty());
    assert!(t.is_connected().unwrap());
}
