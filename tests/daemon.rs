use post_core::PostConfig;

#[test]
fn test_daemon_struct_fields() {
    let config = PostConfig::default();
    assert_eq!(
        std::mem::size_of::<PostConfig>(),
        std::mem::size_of_val(&config)
    );
}

#[test]
fn default_config_values() {
    let config = PostConfig::default();
    assert_eq!(config.network.port, 19827);
    assert_eq!(config.network.discovery_interval, 30);
    assert_eq!(config.network.heartbeat_interval, 10);
    assert!(config.node.id.is_none());
    assert!(!config.node.name.is_empty());
    assert_eq!(config.security.key_derivation_iterations, 100_000);
    assert_eq!(config.security.max_content_size, 1024 * 1024);
    assert_eq!(config.ui.colors.connected, "green");
    assert_eq!(config.filters.max_length, Some(10_000));
    assert_eq!(config.clipboard.backend, "auto");
    assert_eq!(config.clipboard.poll_interval_ms, 500);
    assert_eq!(
        config.clipboard.selection_priority,
        vec!["clipboard".to_string(), "primary".to_string()]
    );
}

#[test]
fn config_path_joins_directory() {
    let p = PostConfig::config_path(Some("/home/u/.config".to_string())).unwrap();
    assert_eq!(p, "/home/u/.config/post/config.toml");
    let q = PostConfig::config_path(Some("/home/u/.config/".to_string())).unwrap();
    assert_eq!(q, "/home/u/.config/post/config.toml");
}

#[test]
fn config_path_without_directory_is_config_error() {
    let r = PostConfig::config_path(None);
    assert!(matches!(r, Err(post_core::PostError::Config(_))));
}
