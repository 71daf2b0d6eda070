//! Peer-to-peer clipboard synchronisation over a private overlay network.
//!
//! The library holds the verified core: the message model and its canonical
//! encoding, the crypto primitives and per-peer sessions, the peer registry,
//! the sync engine and the connectivity supervisor, together with the pure
//! decisions of the transport, the clipboard backends and the configuration.
//! Sockets, processes, timers and the operating-system clipboard stay with
//! the caller.

pub mod bytes;
pub mod clipboard;
pub mod codec;
pub mod config;
pub mod crypto;
pub mod error;
pub mod message;
pub mod notifications;
pub mod registry;
pub mod supervisor;
pub mod sync;
pub mod transport;
pub mod wire;

pub use clipboard::{
    create_clipboard, create_clipboard_watcher, create_clipboard_watcher_with_config,
    create_clipboard_with_config, get_best_clipboard_utility, ClipboardBackend,
    ClipboardEnvironment, ClipboardManager, WaylandClipboard, WaylandClipboardType,
};
pub use config::{
    ClipboardConfig, ColorConfig, FilterConfig, NetworkConfig, NodeConfig, PostConfig,
    SecurityConfig, UiConfig,
};
pub use crypto::{
    derive_encryption_key, derive_key_from_tailscale_identity, derive_shared_secret,
    generate_keypair, generate_signing_keypair, sign_message, sign_message_with_signing_key,
    verify_signature, CryptoSession, KeyPair, SigningKeyPair,
};
pub use error::PostError;
pub use message::{
    ClipboardData, HeartbeatData, MessageData, MessageType, NodeDiscoveryData, NodeInfo,
    PostMessage,
};
pub use notifications::{Notice, NotificationManager};
pub use registry::{Peer, PeerRegistry, Upsert};
pub use supervisor::{stale_threshold, Supervisor, SupervisorAction};
pub use sync::{calculate_hash, Handled, SyncManager};
pub use transport::{
    broadcast_outcome, get_possible_socket_paths, is_tailscale_connected, online_peer_addresses,
    BackendState, MockTransport, Platform, TcpApiPeer, TcpApiSelfStatus, TcpApiStatus,
};
pub use wire::{encode_frame, parse_frame, take_frame};
