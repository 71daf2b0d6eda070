use post_core::codec::{decode_message, encode_message};
use post_core::wire::hex_encode;
use post_core::{
    calculate_hash, derive_encryption_key, derive_key_from_tailscale_identity,
    derive_shared_secret, parse_frame, sign_message, take_frame, verify_signature, ClipboardData,
    CryptoSession, KeyPair, MessageData, MessageType, NodeDiscoveryData, PostError, PostMessage,
};

fn sample_update() -> PostMessage {
    PostMessage {
        version: 1,
        message_type: MessageType::ClipboardUpdate,
        data: MessageData::ClipboardUpdate(ClipboardData {
            content: "héllo\nwörld ✓".to_string(),
            timestamp: 42,
            source_node: "node-a".to_string(),
            sequence: 7,
        }),
        signature: vec![9u8; 64],
    }
}

#[test]
fn canonical_bytes_round_trip() {
    let m = sample_update();
    let bytes = encode_message(&m);
    let back = decode_message(&bytes).unwrap();
    assert_eq!(back.version, 1);
    assert_eq!(back.message_type, MessageType::ClipboardUpdate);
    assert_eq!(back.signature, vec![9u8; 64]);
    match back.data {
        MessageData::ClipboardUpdate(d) => {
            assert_eq!(d.content, "héllo\nwörld ✓");
            assert_eq!(d.timestamp, 42);
            assert_eq!(d.source_node, "node-a");
            assert_eq!(d.sequence, 7);
        }
        _ => panic!("wrong payload"),
    }
    assert_eq!(encode_message(&m), bytes);
}

#[test]
fn canonical_bytes_layout() {
    let m = PostMessage {
        version: 1,
        message_type: MessageType::Heartbeat,
        data: MessageData::Heartbeat(post_core::HeartbeatData {
            source_node: "ab".to_string(),
            timestamp: 258,
        }),
        signature: vec![],
    };
    let expected: Vec<u8> = vec![
        1, 2, 2, 2, 0, 0, 0, 0, 0, 0, 0, b'a', b'b', 2, 1, 0, 0, 0, 0, 0, 0, 0, 0, 0, 0, 0, 0, 0,
        0,
    ];
    assert_eq!(encode_message(&m), expected);
}

#[test]
fn malformed_bytes_are_rejected() {
    let bytes = encode_message(&sample_update());
    assert!(matches!(decode_message(&bytes[..bytes.len() - 1]), Err(PostError::Serialization(_))));
    let mut extra = bytes.clone();
    extra.push(0);
    assert!(decode_message(&extra).is_err());
    let mut bad_tag = bytes.clone();
    bad_tag[1] = 7;
    assert!(decode_message(&bad_tag).is_err());
    assert!(decode_message(&[]).is_err());
}

#[test]
fn short_discovery_key_is_rejected() {
    let m = PostMessage {
        version: 1,
        message_type: MessageType::NodeDiscovery,
        data: MessageData::NodeDiscovery(NodeDiscoveryData {
            source_node: "n".to_string(),
            timestamp: 1,
            public_key: [5u8; 32],
            signing_public_key: [6u8; 32],
        }),
        signature: vec![],
    };
    let good = encode_message(&m);
    assert!(decode_message(&good).is_ok());
    // header(3) + str "n"(9) + timestamp(8): the first key's length prefix follows.
    let at = 3 + 9 + 8;
    let mut short = good[..at].to_vec();
    short.extend_from_slice(&31u64.to_le_bytes());
    short.extend_from_slice(&[5u8; 31]);
    short.extend_from_slice(&good[at + 8 + 32..]);
    assert!(matches!(decode_message(&short), Err(PostError::Serialization(_))));
}

#[test]
fn frames_are_hex_lines() {
    let m = sample_update();
    let mut buffer = post_core::encode_frame(&m);
    assert_eq!(*buffer.last().unwrap(), b'\n');
    assert_eq!(buffer[..buffer.len() - 1], hex_encode(&encode_message(&m))[..]);
    buffer.extend_from_slice(b"  \r\n");
    buffer.extend_from_slice(b"zz\n");
    buffer.extend_from_slice(b"0102");
    let f1 = take_frame(&mut buffer).unwrap();
    assert!(parse_frame(&f1).unwrap().is_some());
    let f2 = take_frame(&mut buffer).unwrap();
    assert!(parse_frame(&f2).unwrap().is_none());
    let f3 = take_frame(&mut buffer).unwrap();
    assert!(matches!(parse_frame(&f3), Err(PostError::Serialization(_))));
    assert!(take_frame(&mut buffer).is_none());
    assert_eq!(buffer, b"0102".to_vec());
}

#[test]
fn hex_encoding_is_lowercase() {
    assert_eq!(hex_encode(&[0x00, 0xab, 0x7f]), b"00ab7f".to_vec());
    assert_eq!(post_core::wire::hex_decode(b"00ab7f"), Some(vec![0x00, 0xab, 0x7f]));
    assert_eq!(post_core::wire::hex_decode(b"00AB"), None);
    assert_eq!(post_core::wire::hex_decode(b"0"), None);
}

#[test]
fn session_encrypt_then_decrypt() {
    let mut s = CryptoSession::new(&[7u8; 32]).unwrap();
    let plain: Vec<u8> = (0..65536u32).map(|i| (i % 251) as u8).collect();
    let c1 = s.encrypt(&plain).unwrap();
    assert_eq!(c1.len(), 12 + plain.len() + 16);
    assert_eq!(&c1[..12], &[0, 0, 0, 0, 1, 0, 0, 0, 0, 0, 0, 0]);
    let c2 = s.encrypt(b"").unwrap();
    assert_eq!(c2.len(), 12 + 16);
    assert_eq!(&c2[..12], &[0, 0, 0, 0, 2, 0, 0, 0, 0, 0, 0, 0]);
    let peer = CryptoSession::new(&[7u8; 32]).unwrap();
    assert_eq!(peer.decrypt(&c1).unwrap(), plain);
    assert_eq!(peer.decrypt(&c2).unwrap(), Vec::<u8>::new());
    let mut tampered = c1.clone();
    tampered[20] ^= 1;
    assert!(matches!(peer.decrypt(&tampered), Err(PostError::Crypto(_))));
    let other = CryptoSession::new(&[8u8; 32]).unwrap();
    assert!(other.decrypt(&c1).is_err());
}

#[test]
fn short_ciphertext_is_rejected() {
    let s = CryptoSession::new(&[1u8; 32]).unwrap();
    assert!(matches!(s.decrypt(&[0u8; 11]), Err(PostError::Crypto(_))));
}

#[test]
fn diffie_hellman_agrees() {
    let a = KeyPair::from_secret([3u8; 32]);
    let b = KeyPair::from_secret([4u8; 32]);
    let ab = derive_shared_secret(&a.private_key, &b.public_key).unwrap();
    let ba = derive_shared_secret(&b.private_key, &a.public_key).unwrap();
    assert_eq!(ab, ba);
    assert_ne!(a.public_key, a.private_key);
    assert!(matches!(derive_shared_secret(&a.private_key, &[0u8; 32]), Err(PostError::Crypto(_))));
}

#[test]
fn derived_keys_are_tagged_hashes() {
    let k1 = derive_encryption_key(&[1u8; 32]).unwrap();
    let k2 = derive_key_from_tailscale_identity(&[1u8; 32]).unwrap();
    assert_ne!(k1, k2);
    assert_ne!(k1, [1u8; 32]);
    assert_eq!(k1, derive_encryption_key(&[1u8; 32]).unwrap());
}

#[test]
fn sign_and_verify_raw() {
    let sig = sign_message(&[2u8; 32], b"msg").unwrap();
    assert_eq!(sig.len(), 64);
    let kp = post_core::SigningKeyPair::from_secret([2u8; 32]);
    let pk = kp.verifying_key();
    assert_eq!(verify_signature(&pk, b"msg", &sig).unwrap(), true);
    assert_eq!(verify_signature(&pk, b"msh", &sig).unwrap(), false);
    assert!(matches!(sign_message(&[2u8; 31], b"msg"), Err(PostError::Crypto(_))));
    assert!(verify_signature(&pk[..31], b"msg", &sig).is_err());
    assert!(verify_signature(&pk, b"msg", &sig[..63]).is_err());
}

#[test]
fn content_hash_distinguishes_content() {
    assert_eq!(calculate_hash("abc"), calculate_hash("abc"));
    assert_ne!(calculate_hash("abc"), calculate_hash("abd"));
    assert_ne!(calculate_hash(""), 0);
}
