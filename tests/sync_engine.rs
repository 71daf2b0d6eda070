use post_core::codec::message_signing_bytes;
use post_core::{
    encode_frame, parse_frame, stale_threshold, take_frame, verify_signature, ClipboardManager,
    Handled, KeyPair, MessageData, MessageType, NodeDiscoveryData, PostError, PostMessage,
    SigningKeyPair, Supervisor, SupervisorAction, SyncManager,
};

const T: u64 = 1_700_000_000;

struct TestClipboard {
    content: String,
    sets: usize,
    fail: bool,
}

impl TestClipboard {
    fn new() -> Self {
        TestClipboard { content: String::new(), sets: 0, fail: false }
    }
}

impl ClipboardManager for TestClipboard {
    fn get_contents(&mut self) -> Result<String, PostError> {
        Ok(self.content.clone())
    }

    fn set_contents(&mut self, content: &str) -> Result<(), PostError> {
        self.sets += 1;
        if self.fail {
            return Err(PostError::Clipboard("unavailable".to_string()));
        }
        self.content = content.to_string();
        Ok(())
    }
}

fn key(seed: u8) -> [u8; 32] {
    let mut k = [0u8; 32];
    for (i, b) in k.iter_mut().enumerate() {
        *b = seed.wrapping_mul(31).wrapping_add(i as u8);
    }
    k
}

fn engine(id: &str, seed: u8) -> SyncManager {
    SyncManager::from_keys(
        id.to_string(),
        SigningKeyPair::from_secret(key(seed)),
        KeyPair::from_secret(key(seed.wrapping_add(100))),
    )
}

fn introduce(a: &mut SyncManager, b: &mut SyncManager) {
    let da = a.create_node_discovery_message(T).unwrap();
    let db = b.create_node_discovery_message(T).unwrap();
    assert!(matches!(b.handle_message(&da, T), Ok(Handled::Bound)));
    assert!(matches!(a.handle_message(&db, T), Ok(Handled::Bound)));
}

#[test]
fn produced_envelopes_verify_under_identity_key() {
    let mut a = engine("A", 1);
    let d = a.create_node_discovery_message(T).unwrap();
    let m = a.on_clipboard_change("hello".to_string(), T).unwrap();
    let pk = a.identity_public_key();
    for e in [&d, &m] {
        let bytes = message_signing_bytes(e);
        assert_eq!(e.signature.len(), 64);
        assert_eq!(verify_signature(&pk, &bytes, &e.signature).unwrap(), true);
    }
}

#[test]
fn two_node_first_sync() {
    let mut a = engine("A", 1);
    let mut b = engine("B", 2);
    introduce(&mut a, &mut b);
    let mut clip_a = TestClipboard::new();
    let mut clip_b = TestClipboard::new();
    let update = a.on_clipboard_change("hello".to_string(), T).unwrap();
    let r = b.deliver(&mut clip_b, &update, T);
    assert!(matches!(r, Ok(Handled::Apply(ref c)) if c == "hello"));
    assert_eq!(clip_b.content, "hello");
    let echo = a.deliver(&mut clip_a, &update, T);
    assert!(matches!(echo, Err(PostError::UnknownPeer(_))));
    assert_eq!(clip_a.sets, 0);
}

#[test]
fn own_update_through_the_wire_is_not_reapplied() {
    let mut a = engine("A", 1);
    let own = a.create_node_discovery_message(T).unwrap();
    assert!(matches!(a.handle_message(&own, T), Ok(Handled::Bound)));
    let update = a.on_clipboard_change("payload".to_string(), T).unwrap();
    let mut buffer = encode_frame(&update);
    let frame = take_frame(&mut buffer).unwrap();
    assert!(buffer.is_empty());
    let back = parse_frame(&frame).unwrap().unwrap();
    let mut clip = TestClipboard::new();
    let before = a.last_applied_hash();
    assert!(matches!(a.deliver(&mut clip, &back, T), Ok(Handled::OwnEcho)));
    assert_eq!(clip.sets, 0);
    assert_eq!(a.last_applied_hash(), before);
}

#[test]
fn adjacent_duplicates_set_clipboard_once() {
    let mut a = engine("A", 1);
    let mut b = engine("B", 2);
    introduce(&mut a, &mut b);
    let first = a.on_clipboard_change("same".to_string(), T).unwrap();
    let mut second = first.clone();
    if let MessageData::ClipboardUpdate(ref mut d) = second.data {
        d.sequence += 1;
    }
    post_core::SyncManager::sign_post_message(&mut second, &SigningKeyPair::from_secret(key(1)))
        .unwrap();
    let mut clip = TestClipboard::new();
    assert!(matches!(b.deliver(&mut clip, &first, T), Ok(Handled::Apply(_))));
    assert!(matches!(b.deliver(&mut clip, &second, T), Ok(Handled::Duplicate)));
    assert_eq!(clip.sets, 1);
}

#[test]
fn failed_apply_leaves_hash_unchanged() {
    let mut a = engine("A", 1);
    let mut b = engine("B", 2);
    introduce(&mut a, &mut b);
    let update = a.on_clipboard_change("z".to_string(), T).unwrap();
    let mut clip = TestClipboard::new();
    clip.fail = true;
    let before = b.last_applied_hash();
    assert!(matches!(b.deliver(&mut clip, &update, T), Err(PostError::Clipboard(_))));
    assert_eq!(b.last_applied_hash(), before);
}

#[test]
fn rebind_attempt_is_rejected() {
    let mut a = engine("A", 1);
    let mut b = engine("B", 2);
    introduce(&mut a, &mut b);
    let k1 = b.identity_public_key();
    assert_eq!(a.identity_key_of("B"), Some(k1));
    let impostor = engine("B", 3);
    let d2 = impostor.create_node_discovery_message(T + 5).unwrap();
    assert!(matches!(a.handle_message(&d2, T + 5), Err(PostError::Crypto(_))));
    assert_eq!(a.identity_key_of("B"), Some(k1));
    assert_eq!(a.get_nodes().len(), 1);
    assert_eq!(a.get_nodes()[0].last_seen, T);
}

#[test]
fn zero_exchange_key_is_rejected() {
    let a = engine("A", 1);
    let mut b = engine("B", 2);
    let signer = SigningKeyPair::from_secret(key(1));
    let mut d = PostMessage {
        version: 1,
        message_type: MessageType::NodeDiscovery,
        data: MessageData::NodeDiscovery(NodeDiscoveryData {
            source_node: "A".to_string(),
            timestamp: T,
            public_key: [0u8; 32],
            signing_public_key: a.identity_public_key(),
        }),
        signature: vec![],
    };
    SyncManager::sign_post_message(&mut d, &signer).unwrap();
    assert!(matches!(b.handle_message(&d, T), Err(PostError::Crypto(_))));
    assert_eq!(b.identity_key_of("A"), None);
}

#[test]
fn wrong_version_is_rejected() {
    let mut a = engine("A", 1);
    let mut b = engine("B", 2);
    let mut d = a.create_node_discovery_message(T).unwrap();
    d.version = 2;
    SyncManager::sign_post_message(&mut d, &SigningKeyPair::from_secret(key(1))).unwrap();
    assert!(matches!(b.handle_message(&d, T), Err(PostError::Serialization(_))));
    let _ = a.on_clipboard_change("x".to_string(), T);
}

#[test]
fn unknown_peer_triggers_discovery() {
    let mut sup = Supervisor::new(30);
    let action = sup.tick(Some("A".to_string()), T);
    assert!(matches!(action, SupervisorAction::WentOnline { ref node_id, .. } if node_id == "A"));
    let mut stranger = engine("C", 9);
    let update = stranger.on_clipboard_change("secret".to_string(), T).unwrap();
    let mut clip = TestClipboard::new();
    let r = sup.deliver(&mut clip, &update, T + 40);
    assert!(matches!(r, Err(PostError::UnknownPeer(_))));
    assert_eq!(clip.sets, 0);
    let d = sup.on_unknown_peer(T + 40).unwrap();
    assert_eq!(d.message_type, MessageType::NodeDiscovery);
    assert!(sup.on_unknown_peer(T + 41).is_none());
}

#[test]
fn stale_peer_is_evicted() {
    let mut a = engine("A", 1);
    let mut b = engine("B", 2);
    introduce(&mut a, &mut b);
    assert!(a.get_crypto_session("B").is_some());
    assert_eq!(stale_threshold(30), 60);
    assert_eq!(a.cleanup_stale_nodes(stale_threshold(30), T + 65).unwrap(), 1);
    assert!(a.get_crypto_session("B").is_none());
    assert_eq!(a.identity_key_of("B"), None);
    assert!(a.get_nodes().is_empty());
    let update = b.on_clipboard_change("late".to_string(), T + 66).unwrap();
    assert!(matches!(a.handle_message(&update, T + 66), Err(PostError::UnknownPeer(_))));
}

#[test]
fn recent_peer_survives_cleanup() {
    let mut a = engine("A", 1);
    let mut b = engine("B", 2);
    introduce(&mut a, &mut b);
    assert_eq!(a.cleanup_stale_nodes(60, T + 60).unwrap(), 0);
    assert_eq!(a.get_nodes().len(), 1);
}

#[test]
fn heartbeat_refreshes_peer() {
    let mut a = engine("A", 1);
    let mut b = engine("B", 2);
    introduce(&mut a, &mut b);
    let mut hb = PostMessage {
        version: 1,
        message_type: MessageType::Heartbeat,
        data: MessageData::Heartbeat(post_core::HeartbeatData {
            source_node: "B".to_string(),
            timestamp: T + 50,
        }),
        signature: vec![],
    };
    SyncManager::sign_post_message(&mut hb, &SigningKeyPair::from_secret(key(2))).unwrap();
    assert!(matches!(a.handle_message(&hb, T + 50), Ok(Handled::Touched)));
    a.cleanup_stale_nodes(60, T + 65).unwrap();
    assert_eq!(a.get_nodes().len(), 1);
    assert_eq!(a.get_nodes()[0].last_seen, T + 50);
}

#[test]
fn own_echo_is_dropped() {
    let mut a = engine("A", 1);
    let own = a.create_node_discovery_message(T).unwrap();
    a.handle_message(&own, T).unwrap();
    let update = a.on_clipboard_change("y".to_string(), T).unwrap();
    let before = a.last_applied_hash();
    let mut clip = TestClipboard::new();
    assert!(matches!(a.deliver(&mut clip, &update, T), Ok(Handled::OwnEcho)));
    assert_eq!(a.last_applied_hash(), before);
    assert_eq!(clip.sets, 0);
}

#[test]
fn unchanged_content_is_not_sent_again() {
    let mut a = engine("A", 1);
    assert!(a.on_clipboard_change("same".to_string(), T).is_some());
    assert!(a.on_clipboard_change("same".to_string(), T + 1).is_none());
    let second = a.on_clipboard_change("other".to_string(), T + 2).unwrap();
    match second.data {
        MessageData::ClipboardUpdate(d) => {
            assert_eq!(d.sequence, 2);
            assert_eq!(d.source_node, "A");
            assert_eq!(d.content, "other");
            assert_eq!(d.timestamp, T + 2);
        }
        _ => panic!("expected an update"),
    }
}

#[test]
fn reconnect_after_overlay_loss() {
    let mut sup = Supervisor::new(30);
    let mut b = engine("B", 2);
    let first = match sup.tick(Some("A".to_string()), T) {
        SupervisorAction::WentOnline { discovery, .. } => discovery,
        other => panic!("unexpected {:?}", other),
    };
    assert!(matches!(b.handle_message(&first, T), Ok(Handled::Bound)));
    let db = b.create_node_discovery_message(T).unwrap();
    let mut clip = TestClipboard::new();
    assert!(matches!(sup.deliver(&mut clip, &db, T), Ok(Handled::Bound)));
    assert!(sup.engine_ref().unwrap().get_crypto_session("B").is_some());
    let update = sup.on_clipboard_change("x".to_string(), T).unwrap();
    let mut clip_b = TestClipboard::new();
    assert!(matches!(b.deliver(&mut clip_b, &update, T), Ok(Handled::Apply(_))));
    assert!(matches!(sup.tick(None, T + 2), SupervisorAction::WentOffline));
    assert!(sup.engine_ref().is_none());
    assert!(matches!(sup.tick(None, T + 4), SupervisorAction::Idle));
    let second = match sup.tick(Some("A".to_string()), T + 12) {
        SupervisorAction::WentOnline { discovery, .. } => discovery,
        other => panic!("unexpected {:?}", other),
    };
    let engine = sup.engine_ref().unwrap();
    assert!(engine.get_nodes().is_empty());
    assert!(engine.get_crypto_session("B").is_none());
    assert!(matches!(b.handle_message(&second, T + 12), Err(PostError::Crypto(_))));
}

#[test]
fn heartbeat_from_supervisor_refreshes_peer() {
    let mut sup = Supervisor::new(30);
    assert!(sup.heartbeat(T).is_none());
    let discovery = match sup.tick(Some("A".to_string()), T) {
        SupervisorAction::WentOnline { discovery, .. } => discovery,
        other => panic!("unexpected {:?}", other),
    };
    let mut b = engine("B", 2);
    assert!(matches!(b.handle_message(&discovery, T), Ok(Handled::Bound)));
    let hb = sup.heartbeat(T + 20).unwrap();
    assert_eq!(hb.message_type, MessageType::Heartbeat);
    assert!(matches!(b.handle_message(&hb, T + 20), Ok(Handled::Touched)));
    assert_eq!(b.get_nodes()[0].last_seen, T + 20);
}
