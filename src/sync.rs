use vstd::prelude::*;
use vstd::utf8::encode_utf8;

use crate::bytes::{le8_value, read_u64_le, str_eq};
use crate::clipboard::ClipboardManager;
use crate::codec::{message_signing_bytes, signing_bytes};
use crate::crypto::{
    blake2s_256, blake2s_256_of, derive_shared_secret, ed25519_accepts, ed25519_public_of,
    ed25519_signature_of, generate_keypair, generate_signing_keypair, is_zero_key, session_tag,
    verify_signature, x25519_of, x25519_public_of, CryptoSession, KeyPair, SigningKeyPair,
};
use crate::error::PostError;
use crate::message::{
    source_of, unsigned, ClipboardData, Envelope, HeartbeatData, MessageData, MessageType,
    NodeDiscoveryData,
    NodeInfo, Payload, PostMessage, PROTOCOL_VERSION,
};
use crate::registry::{
    fresh_peers, has_peer, is_stale, lemma_peer_of_index, peer_of, pinned_key, survives, touched,
    unique_ids, Peer,
    PeerRegistry, Upsert,
};

verus! {

// ---------------------------------------------------------------------------
// Content hashing.
// ---------------------------------------------------------------------------

/// The 64-bit content hash: the first eight bytes, little-endian, of the
/// BLAKE2s-256 digest of the UTF-8 text.
pub open spec fn content_hash(content: Seq<char>) -> u64 {
    le8_value(blake2s_256_of(encode_utf8(content)))
}

/// The content hash of `content`.
pub fn calculate_hash(content: &str) -> (r: u64)
    ensures
        r == content_hash(content@),
{
    let digest = blake2s_256(content.as_bytes());
    let r = read_u64_le(digest.as_slice(), 0);
    assert(digest@.subrange(0, 8)[0] == digest@[0]);
    assert(le8_value(digest@.subrange(0, 8)) == le8_value(digest@));
    r
}

// ---------------------------------------------------------------------------
// What an inbound message does.
// ---------------------------------------------------------------------------

/// Why an inbound message was refused.
pub enum Fault {
    Serialization,
    Crypto,
    UnknownPeer,
    Other,
}

/// The fate of an inbound message.
pub enum Verdict {
    Rejected(Fault),
    /// The clipboard is to be set to this content.
    Apply(Seq<char>),
    /// The content equals the last applied content.
    Duplicate,
    /// The message came from this node itself.
    OwnEcho,
    /// A heartbeat refreshed its sender.
    Touched,
    /// A discovery bound a new peer.
    Bound,
    /// A discovery refreshed a peer bound to the same identity key.
    Known,
}

/// The outcome of handling a message, on success.
#[derive(Debug)]
pub enum Handled {
    /// The clipboard is to be set to this content.
    Apply(String),
    Duplicate,
    OwnEcho,
    Touched,
    Bound,
    Known,
}

/// Whether `e` carries a valid signature under `key`.
pub open spec fn accepted_by(key: Seq<u8>, e: Envelope) -> bool {
    e.signature.len() == 64 && ed25519_accepts(key, signing_bytes(e), e.signature)
}

/// The fate of envelope `e` at an engine with peers `ps`, id `node_id` and last
/// applied hash `last_hash`.
pub open spec fn inbound_verdict(
    ps: Seq<Peer>,
    node_id: Seq<char>,
    last_hash: u64,
    e: Envelope,
) -> Verdict {
    if e.version != PROTOCOL_VERSION {
        Verdict::Rejected(Fault::Serialization)
    } else {
        match e.data {
            Payload::Discovery { source_node, public_key, signing_public_key, .. } => {
                if !accepted_by(signing_public_key, e) {
                    Verdict::Rejected(Fault::Crypto)
                } else if is_zero_key(public_key) {
                    Verdict::Rejected(Fault::Crypto)
                } else {
                    match pinned_key(ps, source_node) {
                        None => Verdict::Bound,
                        Some(k) => if k == signing_public_key {
                            Verdict::Known
                        } else {
                            Verdict::Rejected(Fault::Crypto)
                        },
                    }
                }
            },
            Payload::Clipboard { source_node, content, .. } => match pinned_key(ps, source_node) {
                None => Verdict::Rejected(Fault::UnknownPeer),
                Some(k) => if !accepted_by(k, e) {
                    Verdict::Rejected(Fault::Crypto)
                } else if source_node == node_id {
                    Verdict::OwnEcho
                } else if content_hash(content) == last_hash {
                    Verdict::Duplicate
                } else {
                    Verdict::Apply(content)
                },
            },
            Payload::Heartbeat { source_node, .. } => match pinned_key(ps, source_node) {
                None => Verdict::Rejected(Fault::UnknownPeer),
                Some(k) => if !accepted_by(k, e) {
                    Verdict::Rejected(Fault::Crypto)
                } else if source_node == node_id {
                    Verdict::OwnEcho
                } else {
                    Verdict::Touched
                },
            },
        }
    }
}

/// The verdict that a result reports.
pub open spec fn verdict_of(r: Result<Handled, PostError>) -> Verdict {
    match r {
        Ok(Handled::Apply(s)) => Verdict::Apply(s@),
        Ok(Handled::Duplicate) => Verdict::Duplicate,
        Ok(Handled::OwnEcho) => Verdict::OwnEcho,
        Ok(Handled::Touched) => Verdict::Touched,
        Ok(Handled::Bound) => Verdict::Bound,
        Ok(Handled::Known) => Verdict::Known,
        Err(PostError::Serialization(_)) => Verdict::Rejected(Fault::Serialization),
        Err(PostError::Crypto(_)) => Verdict::Rejected(Fault::Crypto),
        Err(PostError::UnknownPeer(_)) => Verdict::Rejected(Fault::UnknownPeer),
        Err(_) => Verdict::Rejected(Fault::Other),
    }
}

/// The session key that a node with exchange secret `secret` derives with a
/// peer whose exchange key is `public_key`.
pub open spec fn session_key_with(secret: Seq<u8>, public_key: Seq<u8>) -> Seq<u8> {
    blake2s_256_of(session_tag() + x25519_of(secret, public_key))
}

/// Whether `after` is `before` with one new peer: `source_node`, seen at
/// `now`, with exchange key `public_key`, pinned to `identity_key`, and a fresh
/// session under `session_key`.
pub open spec fn bound_peer(
    before: Seq<Peer>,
    after: Seq<Peer>,
    source_node: Seq<char>,
    public_key: Seq<u8>,
    identity_key: Seq<u8>,
    now: u64,
    session_key: Seq<u8>,
) -> bool {
    &&& after.len() == before.len() + 1
    &&& after.subrange(0, before.len() as int) == before
    &&& after.last().info.id@ == source_node
    &&& after.last().info.name@ == source_node
    &&& after.last().info.last_seen == now
    &&& after.last().info.public_key@ == public_key
    &&& after.last().identity_key@ == identity_key
    &&& after.last().session.key() == session_key
    &&& after.last().session.counter() == 0
}

/// Whether `after` are the peers once envelope `e` reached, at `now`, an engine
/// with peers `before`, id `node_id`, last hash `last_hash` and exchange
/// secret `secret`: a new binding adds one peer, a refresh touches one, and
/// anything else leaves them as they were.
pub open spec fn inbound_peers_ok(
    before: Seq<Peer>,
    after: Seq<Peer>,
    node_id: Seq<char>,
    last_hash: u64,
    secret: Seq<u8>,
    e: Envelope,
    now: u64,
) -> bool {
    match inbound_verdict(before, node_id, last_hash, e) {
        Verdict::Bound => match e.data {
            Payload::Discovery { source_node, public_key, signing_public_key, .. } => bound_peer(
                before,
                after,
                source_node,
                public_key,
                signing_public_key,
                now,
                session_key_with(secret, public_key),
            ),
            _ => false,
        },
        Verdict::Known => after == touched(before, source_of(e.data), now),
        Verdict::Touched => after == touched(before, source_of(e.data), now),
        _ => after == before,
    }
}

/// The envelope of a clipboard update before signing.
pub open spec fn update_envelope(
    content: Seq<char>,
    timestamp: u64,
    source_node: Seq<char>,
    sequence: u64,
) -> Envelope {
    Envelope {
        version: PROTOCOL_VERSION,
        message_type: MessageType::ClipboardUpdate,
        data: Payload::Clipboard { content, timestamp, source_node, sequence },
        signature: Seq::empty(),
    }
}

/// The envelope of a discovery before signing.
pub open spec fn discovery_envelope(
    source_node: Seq<char>,
    timestamp: u64,
    public_key: Seq<u8>,
    signing_public_key: Seq<u8>,
) -> Envelope {
    Envelope {
        version: PROTOCOL_VERSION,
        message_type: MessageType::NodeDiscovery,
        data: Payload::Discovery { source_node, timestamp, public_key, signing_public_key },
        signature: Seq::empty(),
    }
}

/// Whether `m` is `e` signed with the secret `secret`.
pub open spec fn signed_as(m: Envelope, e: Envelope, secret: Seq<u8>) -> bool {
    &&& unsigned(m) == unsigned(e)
    &&& m.signature == ed25519_signature_of(secret, signing_bytes(e))
    &&& accepted_by(ed25519_public_of(secret), m)
}

/// The envelope of a heartbeat before signing.
pub open spec fn heartbeat_envelope(source_node: Seq<char>, timestamp: u64) -> Envelope {
    Envelope {
        version: PROTOCOL_VERSION,
        message_type: MessageType::Heartbeat,
        data: Payload::Heartbeat { source_node, timestamp },
        signature: Seq::empty(),
    }
}

/// Whether `d` is the signed discovery of engine `m` at `now`: its node id,
/// its exchange public key and its identity verifying key.
pub open spec fn announces(m: SyncManager, d: Envelope, now: u64) -> bool {
    signed_as(
        d,
        discovery_envelope(
            m.node_id(),
            now,
            x25519_public_of(m.exchange().private_key@),
            ed25519_public_of(m.identity_secret()),
        ),
        m.identity_secret(),
    )
}

/// The sequence number after `s`: wrapping addition.
pub open spec fn next_sequence(s: u64) -> u64 {
    if s == u64::MAX {
        0
    } else {
        (s + 1) as u64
    }
}

/// The synchronisation engine of one node: its keys, its peers, the sequence
/// of its own updates and the hash of the last content applied or sent.
pub struct SyncManager {
    node_id: String,
    signing_keypair: SigningKeyPair,
    exchange_keypair: KeyPair,
    sequence_counter: u64,
    last_clipboard_hash: u64,
    registry: PeerRegistry,
}

/// What `handle_message` guarantees of a message `message` handled at `now`
/// by an engine that was `m0` and is now `m1`, with result `r`.
pub open spec fn handled(
    m0: SyncManager,
    m1: SyncManager,
    message: Envelope,
    now: u64,
    r: Result<Handled, PostError>,
) -> bool {
    &&& m1.wf()
    &&& verdict_of(r) == inbound_verdict(m0.peers(), m0.node_id(), m0.last_hash(), message)
    &&& inbound_peers_ok(
        m0.peers(),
        m1.peers(),
        m0.node_id(),
        m0.last_hash(),
        m0.exchange().private_key@,
        message,
        now,
    )
    &&& m1.node_id() == m0.node_id()
    &&& m1.sequence() == m0.sequence()
    &&& m1.last_hash() == m0.last_hash()
    &&& m1.identity_secret() == m0.identity_secret()
    &&& m1.exchange() == m0.exchange()
}

/// What `deliver` guarantees of a message `message` handled at `now` by an
/// engine that was `m0` and is now `m1`, with result `r`.
pub open spec fn delivered(
    m0: SyncManager,
    m1: SyncManager,
    message: Envelope,
    now: u64,
    r: Result<Handled, PostError>,
) -> bool {
    &&& m1.wf()
    &&& inbound_peers_ok(
        m0.peers(),
        m1.peers(),
        m0.node_id(),
        m0.last_hash(),
        m0.exchange().private_key@,
        message,
        now,
    )
    &&& match inbound_verdict(m0.peers(), m0.node_id(), m0.last_hash(), message) {
        Verdict::Apply(c) => (r matches Ok(Handled::Apply(s)) && s@ == c && m1.last_hash() == content_hash(c))
            || (r is Err && m1.last_hash() == m0.last_hash()),
        v => verdict_of(r) == v && m1.last_hash() == m0.last_hash(),
    }
    &&& m1.node_id() == m0.node_id()
    &&& m1.sequence() == m0.sequence()
    &&& m1.identity_secret() == m0.identity_secret()
    &&& m1.exchange() == m0.exchange()
}

/// What `on_clipboard_change` guarantees of a local change to `content` at
/// `now` seen by an engine that was `m0` and is now `m1`, with result `r`.
pub open spec fn changed(
    m0: SyncManager,
    m1: SyncManager,
    content: Seq<char>,
    now: u64,
    r: Option<PostMessage>,
) -> bool {
    &&& m1.wf()
    &&& m1.node_id() == m0.node_id()
    &&& m1.peers() == m0.peers()
    &&& m1.identity_secret() == m0.identity_secret()
    &&& m1.exchange() == m0.exchange()
    &&& content_hash(content) == m0.last_hash() ==> r is None && m1.sequence() == m0.sequence()
        && m1.last_hash() == m0.last_hash()
    &&& content_hash(content) != m0.last_hash() ==> (r matches Some(m) && m1.last_hash()
        == content_hash(content) && m1.sequence() == next_sequence(m0.sequence()) && signed_as(
        m@,
        update_envelope(content, now, m0.node_id(), m1.sequence()),
        m0.identity_secret(),
    ))
}

impl SyncManager {
    /// This node's id.
    pub closed spec fn node_id(&self) -> Seq<char> {
        self.node_id@
    }

    /// The sequence number of the last update sent.
    pub closed spec fn sequence(&self) -> u64 {
        self.sequence_counter
    }

    /// The hash of the last content applied or sent.
    pub closed spec fn last_hash(&self) -> u64 {
        self.last_clipboard_hash
    }

    /// The peers.
    pub closed spec fn peers(&self) -> Seq<Peer> {
        self.registry.peers()
    }

    /// The identity key pair.
    pub closed spec fn identity(&self) -> SigningKeyPair {
        self.signing_keypair
    }

    /// The identity secret.
    pub open spec fn identity_secret(&self) -> Seq<u8> {
        self.identity().secret()
    }

    /// The exchange key pair.
    pub closed spec fn exchange(&self) -> KeyPair {
        self.exchange_keypair
    }

    /// The engine's invariant: peer ids are unique, and each key pair's public
    /// half belongs to its secret half.
    pub open spec fn wf(&self) -> bool {
        &&& unique_ids(self.peers())
        &&& self.identity().wf()
        &&& self.exchange().wf()
    }

    /// An engine for `node_id` with the given keys, no peers, sequence and
    /// last hash at zero.
    pub fn from_keys(
        node_id: String,
        signing_keypair: SigningKeyPair,
        exchange_keypair: KeyPair,
    ) -> (r: SyncManager)
        requires
            signing_keypair.wf(),
            exchange_keypair.wf(),
        ensures
            r.wf(),
            r.node_id() == node_id@,
            r.identity_secret() == signing_keypair.secret(),
            r.exchange() == exchange_keypair,
            r.sequence() == 0,
            r.last_hash() == 0,
            r.peers() == Seq::<Peer>::empty(),
    {
        SyncManager {
            node_id,
            signing_keypair,
            exchange_keypair,
            sequence_counter: 0,
            last_clipboard_hash: 0,
            registry: PeerRegistry::new(),
        }
    }

    /// An engine for `node_id` with fresh identity and exchange keys.
    /// Fails, with a crypto error, only when no randomness can be had.
    pub fn new(node_id: String) -> (r: Result<SyncManager, PostError>)
        ensures
            r matches Ok(m) ==> m.wf() && m.node_id() == node_id@ && m.sequence() == 0
                && m.last_hash() == 0 && m.peers() == Seq::<Peer>::empty(),
            r matches Err(e) ==> e is Crypto,
    {
        let signing_keypair = match generate_signing_keypair() {
            Ok(k) => k,
            Err(e) => return Err(e),
        };
        let exchange_keypair = match generate_keypair() {
            Ok(k) => k,
            Err(e) => return Err(e),
        };
        Ok(SyncManager::from_keys(node_id, signing_keypair, exchange_keypair))
    }

    /// Replaces the node id.
    pub fn update_node_id(&mut self, new_node_id: String) -> (r: Result<(), PostError>)
        requires
            old(self).wf(),
        ensures
            r is Ok,
            final(self).wf(),
            final(self).node_id() == new_node_id@,
            final(self).sequence() == old(self).sequence(),
            final(self).last_hash() == old(self).last_hash(),
            final(self).peers() == old(self).peers(),
            final(self).identity_secret() == old(self).identity_secret(),
            final(self).exchange() == old(self).exchange(),
    {
        if !str_eq(self.node_id.as_str(), new_node_id.as_str()) {
            self.node_id = new_node_id;
        }
        Ok(())
    }

    /// The node id.
    pub fn get_node_id(&self) -> (r: String)
        ensures
            r@ == self.node_id(),
    {
        self.node_id.clone()
    }

    /// The identity key pinned for `node_id`, if any.
    pub fn identity_key_of(&self, node_id: &str) -> (r: Option<[u8; 32]>)
        requires
            self.wf(),
        ensures
            match r {
                Some(k) => pinned_key(self.peers(), node_id@) == Some(k@),
                None => pinned_key(self.peers(), node_id@) is None,
            },
    {
        self.registry.identity_key_of(node_id)
    }

    /// The hash of the last content applied or sent.
    pub fn last_applied_hash(&self) -> (r: u64)
        ensures
            r == self.last_hash(),
    {
        self.last_clipboard_hash
    }

    /// The identity verifying key that peers pin for this node.
    pub fn identity_public_key(&self) -> (r: [u8; 32])
        requires
            self.wf(),
        ensures
            r@ == ed25519_public_of(self.identity_secret()),
    {
        self.signing_keypair.verifying_key()
    }

    /// The exchange public key announced in discoveries.
    pub fn exchange_public_key(&self) -> (r: [u8; 32])
        ensures
            r == self.exchange().public_key,
            self.wf() ==> r@ == x25519_public_of(self.exchange().private_key@),
    {
        self.exchange_keypair.public_key
    }

    /// Signs `message` in place: the signature covers the canonical bytes with
    /// the signature cleared.
    pub fn sign_post_message(message: &mut PostMessage, signing_keypair: &SigningKeyPair) -> (r:
        Result<(), PostError>)
        requires
            signing_keypair.wf(),
        ensures
            r is Ok,
            signed_as(final(message)@, old(message)@, signing_keypair.secret()),
    {
        let bytes = message_signing_bytes(message);
        let sig = signing_keypair.sign(bytes.as_slice());
        let mut signature: Vec<u8> = Vec::new();
        crate::bytes::extend_bytes(&mut signature, sig.as_slice());
        let ghost before = message@;
        message.signature = signature;
        assert(unsigned(message@) == unsigned(before));
        assert(signing_bytes(message@) == signing_bytes(before));
        Ok(())
    }

    /// Checks the signature of `message` against the identity key pinned for
    /// `source_node`: an unpinned node is an `UnknownPeer`.
    pub fn verify_message_signature(
        &self,
        message: &PostMessage,
        source_node: &str,
    ) -> (r: Result<(), PostError>)
        requires
            self.wf(),
        ensures
            match pinned_key(self.peers(), source_node@) {
                None => r matches Err(PostError::UnknownPeer(_)),
                Some(k) => if accepted_by(k, message@) {
                    r is Ok
                } else {
                    r matches Err(PostError::Crypto(_))
                },
            },
    {
        let key = match self.registry.identity_key_of(source_node) {
            Some(k) => k,
            None => return Err(PostError::UnknownPeer("No verifying key found for node".to_string())),
        };
        let bytes = message_signing_bytes(message);
        match verify_signature(key.as_slice(), bytes.as_slice(), message.signature.as_slice()) {
            Ok(true) => Ok(()),
            _ => Err(PostError::Crypto("Invalid signature on message".to_string())),
        }
    }

    /// Handles one inbound message at time `now`: checks its version and
    /// signature, binds or refreshes its sender, suppresses own echoes and
    /// duplicate content. A clipboard update that passes is returned as
    /// `Apply`; the caller sets the clipboard and then calls `confirm_applied`.
    pub fn handle_message(
        &mut self,
        message: &PostMessage,
        now: u64,
    ) -> (r: Result<Handled, PostError>)
        requires
            old(self).wf(),
        ensures
            handled(*old(self), *final(self), message@, now, r),
    {
        if message.version != PROTOCOL_VERSION {
            return Err(PostError::Serialization("Unsupported protocol version".to_string()));
        }
        match &message.data {
            MessageData::NodeDiscovery(data) => self.handle_node_discovery(message, data, now),
            MessageData::ClipboardUpdate(data) => {
                match self.verify_message_signature(message, data.source_node.as_str()) {
                    Ok(()) => {},
                    Err(e) => return Err(e),
                }
                if str_eq(data.source_node.as_str(), self.node_id.as_str()) {
                    return Ok(Handled::OwnEcho);
                }
                self.handle_clipboard_update(data)
            },
            MessageData::Heartbeat(data) => {
                match self.verify_message_signature(message, data.source_node.as_str()) {
                    Ok(()) => {},
                    Err(e) => return Err(e),
                }
                if str_eq(data.source_node.as_str(), self.node_id.as_str()) {
                    return Ok(Handled::OwnEcho);
                }
                self.handle_heartbeat(data.source_node.as_str(), now);
                Ok(Handled::Touched)
            },
        }
    }

    fn handle_clipboard_update(&self, data: &ClipboardData) -> (r: Result<Handled, PostError>)
        ensures
            r matches Ok(h) && if content_hash(data.content@) == self.last_hash() {
                h is Duplicate
            } else {
                h matches Handled::Apply(c) && c@ == data.content@
            },
    {
        let content_hash = calculate_hash(data.content.as_str());
        if content_hash == self.last_clipboard_hash {
            return Ok(Handled::Duplicate);
        }
        Ok(Handled::Apply(data.content.clone()))
    }

    fn handle_heartbeat(&mut self, node_id: &str, now: u64)
        requires
            old(self).wf(),
        ensures
            final(self).wf(),
            final(self).peers() == touched(old(self).peers(), node_id@, now),
            final(self).node_id() == old(self).node_id(),
            final(self).sequence() == old(self).sequence(),
            final(self).last_hash() == old(self).last_hash(),
            final(self).identity_secret() == old(self).identity_secret(),
            final(self).exchange() == old(self).exchange(),
    {
        self.registry.touch(node_id, now);
    }

    fn handle_node_discovery(
        &mut self,
        message: &PostMessage,
        data: &NodeDiscoveryData,
        now: u64,
    ) -> (r: Result<Handled, PostError>)
        requires
            old(self).wf(),
            message.version == PROTOCOL_VERSION,
            message.data == MessageData::NodeDiscovery(*data),
        ensures
            final(self).wf(),
            verdict_of(r) == inbound_verdict(
                old(self).peers(),
                old(self).node_id(),
                old(self).last_hash(),
                message@,
            ),
            inbound_peers_ok(
                old(self).peers(),
                final(self).peers(),
                old(self).node_id(),
                old(self).last_hash(),
                old(self).exchange().private_key@,
                message@,
                now,
            ),
            final(self).node_id() == old(self).node_id(),
            final(self).sequence() == old(self).sequence(),
            final(self).last_hash() == old(self).last_hash(),
            final(self).identity_secret() == old(self).identity_secret(),
            final(self).exchange() == old(self).exchange(),
    {
        let bytes = message_signing_bytes(message);
        let key = data.signing_public_key.as_slice();
        match verify_signature(key, bytes.as_slice(), message.signature.as_slice()) {
            Ok(true) => {},
            _ => return Err(PostError::Crypto("Invalid signature on node discovery message".to_string())),
        }
        let shared = match derive_shared_secret(&self.exchange_keypair.private_key, &data.public_key) {
            Ok(s) => s,
            Err(e) => return Err(e),
        };
        let session = match CryptoSession::new(shared.as_slice()) {
            Ok(s) => s,
            Err(e) => return Err(e),
        };
        match self.registry.upsert_on_discovery(
            &data.source_node,
            data.public_key,
            data.signing_public_key,
            session,
            now,
        ) {
            Upsert::Inserted => {
                assert(self.peers().subrange(0, old(self).peers().len() as int) =~= old(self).peers());
                Ok(Handled::Bound)
            },
            Upsert::AlreadyKnown => Ok(Handled::Known),
            Upsert::IdentityChanged => Err(
                PostError::Crypto("Node attempted to change verifying key".to_string()),
            ),
        }
    }

    /// Records that `content` is now on the local clipboard.
    pub fn confirm_applied(&mut self, content: &str)
        ensures
            final(self).last_hash() == content_hash(content@),
            final(self).wf() == old(self).wf(),
            final(self).node_id() == old(self).node_id(),
            final(self).sequence() == old(self).sequence(),
            final(self).peers() == old(self).peers(),
            final(self).identity_secret() == old(self).identity_secret(),
            final(self).exchange() == old(self).exchange(),
    {
        self.last_clipboard_hash = calculate_hash(content);
    }

    /// Handles one inbound message and, for content to apply, sets the
    /// clipboard; the content counts as applied only when that succeeds.
    pub fn deliver<C: ClipboardManager>(
        &mut self,
        clipboard: &mut C,
        message: &PostMessage,
        now: u64,
    ) -> (r: Result<Handled, PostError>)
        requires
            old(self).wf(),
        ensures
            delivered(*old(self), *final(self), message@, now, r),
    {
        let handled = self.handle_message(message, now);
        match handled {
            Ok(Handled::Apply(content)) => match clipboard.set_contents(content.as_str()) {
                Ok(()) => {
                    self.confirm_applied(content.as_str());
                    Ok(Handled::Apply(content))
                },
                Err(e) => Err(e),
            },
            other => other,
        }
    }

    /// Turns a change of the local clipboard to `content` at `now` into a
    /// signed update for the peers, unless `content` is what was last applied
    /// or sent.
    pub fn on_clipboard_change(&mut self, content: String, now: u64) -> (r: Option<PostMessage>)
        requires
            old(self).wf(),
        ensures
            changed(*old(self), *final(self), content@, now, r),
    {
        let h = calculate_hash(content.as_str());
        if h == self.last_clipboard_hash {
            return None;
        }
        self.last_clipboard_hash = h;
        self.sequence_counter = if self.sequence_counter == u64::MAX {
            0
        } else {
            self.sequence_counter + 1
        };
        let data = ClipboardData {
            content,
            timestamp: now,
            source_node: self.node_id.clone(),
            sequence: self.sequence_counter,
        };
        let mut message = PostMessage {
            version: PROTOCOL_VERSION,
            message_type: MessageType::ClipboardUpdate,
            data: MessageData::ClipboardUpdate(data),
            signature: Vec::new(),
        };
        let _ = SyncManager::sign_post_message(&mut message, &self.signing_keypair);
        Some(message)
    }

    /// A signed discovery announcing this node's exchange and identity keys at `now`.
    pub fn create_node_discovery_message(&self, now: u64) -> (r: Result<PostMessage, PostError>)
        requires
            self.wf(),
        ensures
            r matches Ok(m) && announces(*self, m@, now),
    {
        let data = NodeDiscoveryData {
            source_node: self.node_id.clone(),
            timestamp: now,
            public_key: self.exchange_keypair.public_key,
            signing_public_key: self.signing_keypair.verifying_key(),
        };
        let mut message = PostMessage {
            version: PROTOCOL_VERSION,
            message_type: MessageType::NodeDiscovery,
            data: MessageData::NodeDiscovery(data),
            signature: Vec::new(),
        };
        let _ = SyncManager::sign_post_message(&mut message, &self.signing_keypair);
        Ok(message)
    }

    /// A signed heartbeat of this node at `now`.
    pub fn create_heartbeat_message(&self, now: u64) -> (r: PostMessage)
        requires
            self.wf(),
        ensures
            signed_as(r@, heartbeat_envelope(self.node_id(), now), self.identity_secret()),
    {
        let mut message = PostMessage {
            version: PROTOCOL_VERSION,
            message_type: MessageType::Heartbeat,
            data: MessageData::Heartbeat(HeartbeatData { source_node: self.node_id.clone(), timestamp: now }),
            signature: Vec::new(),
        };
        let _ = SyncManager::sign_post_message(&mut message, &self.signing_keypair);
        message
    }

    /// A copy of every peer's record.
    pub fn get_nodes(&self) -> (r: Vec<NodeInfo>)
        ensures
            r@.len() == self.peers().len(),
            forall|i: int|
                0 <= i < r@.len() ==> (#[trigger] r@[i]).id@ == self.peers()[i].info.id@
                    && r@[i].name@ == self.peers()[i].info.name@ && r@[i].last_seen
                    == self.peers()[i].info.last_seen && r@[i].public_key
                    == self.peers()[i].info.public_key,
    {
        self.registry.snapshot()
    }

    /// Removes the peers, with their bindings and sessions, not seen for more
    /// than `max_age_seconds` at `now`, and returns how many were removed.
    pub fn cleanup_stale_nodes(
        &mut self,
        max_age_seconds: u64,
        now: u64,
    ) -> (r: Result<usize, PostError>)
        requires
            old(self).wf(),
        ensures
            r matches Ok(n) && n == old(self).peers().len() - final(self).peers().len(),
            final(self).wf(),
            final(self).peers() == fresh_peers(old(self).peers(), max_age_seconds, now),
            final(self).node_id() == old(self).node_id(),
            final(self).sequence() == old(self).sequence(),
            final(self).last_hash() == old(self).last_hash(),
            final(self).identity_secret() == old(self).identity_secret(),
            final(self).exchange() == old(self).exchange(),
    {
        Ok(self.registry.evict_stale(max_age_seconds, now))
    }

    /// The session with `node_id`.
    pub fn get_crypto_session(&self, node_id: &str) -> (r: Option<CryptoSession>)
        requires
            self.wf(),
        ensures
            r is Some <==> pinned_key(self.peers(), node_id@) is Some,
            r matches Some(c) ==> c == peer_of(self.peers(), node_id@).session,
    {
        self.registry.session_of(node_id)
    }
}

// ---------------------------------------------------------------------------
// Guarantees across calls.
// ---------------------------------------------------------------------------

/// Every envelope that a node signs verifies under that node's identity key:
/// the signature covers the canonical bytes with the signature cleared.
pub proof fn lemma_signed_envelope_verifies(m: Envelope, e: Envelope, secret: Seq<u8>)
    requires
        signed_as(m, e, secret),
    ensures
        m.signature.len() == 64,
        ed25519_accepts(ed25519_public_of(secret), signing_bytes(m), m.signature),
{
}

/// A node never applies an update that names itself as source: its own
/// updates coming back are dropped as echoes once it has pinned its own key,
/// and refused as from an unknown peer before.
pub proof fn lemma_own_update_not_reapplied(
    ps: Seq<Peer>,
    node_id: Seq<char>,
    last_hash: u64,
    m: Envelope,
    e: Envelope,
    secret: Seq<u8>,
)
    requires
        m.version == PROTOCOL_VERSION,
        m.data is Clipboard,
        source_of(m.data) == node_id,
        signed_as(m, e, secret),
    ensures
        !(inbound_verdict(ps, node_id, last_hash, m) is Apply),
        pinned_key(ps, node_id) is None ==> inbound_verdict(ps, node_id, last_hash, m)
            == Verdict::Rejected(Fault::UnknownPeer),
        pinned_key(ps, node_id) == Some(ed25519_public_of(secret)) ==> inbound_verdict(
            ps,
            node_id,
            last_hash,
            m,
        ) == Verdict::OwnEcho,
{
}

/// A local change that a node sends out is not applied again when the update
/// comes back to it, and leaves the last hash as the change set it.
pub proof fn lemma_local_change_not_reapplied(
    m0: SyncManager,
    m1: SyncManager,
    m2: SyncManager,
    content: Seq<char>,
    now: u64,
    sent: PostMessage,
    now2: u64,
    r: Result<Handled, PostError>,
)
    requires
        changed(m0, m1, content, now, Some(sent)),
        delivered(m1, m2, sent@, now2, r),
    ensures
        !(r matches Ok(Handled::Apply(_))),
        m2.last_hash() == m1.last_hash(),
{
    let e = update_envelope(content, now, m0.node_id(), m1.sequence());
    lemma_own_update_not_reapplied(m1.peers(), m1.node_id(), m1.last_hash(), sent@, e, m0.identity_secret());
}

/// Of two adjacent updates carrying the same content, at most one sets the
/// clipboard: once the first has been applied its hash is the last one, so
/// the second is a duplicate (or an echo, or refused).
pub proof fn lemma_adjacent_duplicates_set_once(
    m0: SyncManager,
    m1: SyncManager,
    m2: SyncManager,
    e1: Envelope,
    e2: Envelope,
    now1: u64,
    now2: u64,
    r1: Result<Handled, PostError>,
    r2: Result<Handled, PostError>,
)
    requires
        e1.data is Clipboard,
        e2.data is Clipboard,
        e1.data->Clipboard_content == e2.data->Clipboard_content,
        delivered(m0, m1, e1, now1, r1),
        delivered(m1, m2, e2, now2, r2),
    ensures
        !(r1 matches Ok(Handled::Apply(_)) && r2 matches Ok(Handled::Apply(_))),
{
}

/// After a discovery that bound or refreshed its node, that node is pinned to
/// the announced identity key.
proof fn lemma_pinned_after(
    ps: Seq<Peer>,
    ps1: Seq<Peer>,
    node_id: Seq<char>,
    last_hash: u64,
    secret: Seq<u8>,
    e: Envelope,
    now: u64,
    id: Seq<char>,
)
    requires
        unique_ids(ps),
        e.data is Discovery,
        e.data->Discovery_source_node == id,
        inbound_verdict(ps, node_id, last_hash, e) is Bound || inbound_verdict(
            ps,
            node_id,
            last_hash,
            e,
        ) is Known,
        inbound_peers_ok(ps, ps1, node_id, last_hash, secret, e, now),
    ensures
        pinned_key(ps1, id) == Some(e.data->Discovery_signing_public_key),
{
    if inbound_verdict(ps, node_id, last_hash, e) is Bound {
        let n = ps.len() as int;
        assert(!has_peer(ps, id));
        assert(ps1[n].info.id@ == id);
        assert(has_peer(ps1, id));
        assert forall|i: int| 0 <= i < ps1.len() && i != n implies ps1[i].info.id@ != id by {
            assert(ps1[i] == ps1.subrange(0, n)[i]);
        }
        let j = choose|j: int| 0 <= j < ps1.len() && #[trigger] ps1[j].info.id@ == id;
        assert(j == n);
    } else {
        lemma_peer_of_index_touched(ps, id, now);
    }
}

proof fn lemma_peer_of_index_touched(ps: Seq<Peer>, id: Seq<char>, now: u64)
    requires
        unique_ids(ps),
        has_peer(ps, id),
    ensures
        has_peer(touched(ps, id, now), id),
        peer_of(touched(ps, id, now), id).identity_key == peer_of(ps, id).identity_key,
{
    let t = touched(ps, id, now);
    let i = choose|i: int| 0 <= i < ps.len() && #[trigger] ps[i].info.id@ == id;
    lemma_peer_of_index(ps, i);
    assert(t[i].info.id@ == id);
    assert(unique_ids(t)) by {
        assert forall|a: int, b: int|
            0 <= a < t.len() && 0 <= b < t.len() && a != b implies #[trigger] t[a].info.id@
            != #[trigger] t[b].info.id@ by {
            assert(t[a].info.id@ == ps[a].info.id@);
            assert(t[b].info.id@ == ps[b].info.id@);
        }
    }
    lemma_peer_of_index(t, i);
}

/// Once a node is bound to an identity key, a discovery from it that announces
/// another key is refused and leaves the peers, and so the binding, as they were.
pub proof fn lemma_identity_rebind_rejected(
    ps: Seq<Peer>,
    ps1: Seq<Peer>,
    node_id: Seq<char>,
    last_hash: u64,
    secret: Seq<u8>,
    e1: Envelope,
    e2: Envelope,
    now1: u64,
)
    requires
        unique_ids(ps),
        e1.data is Discovery,
        e2.data is Discovery,
        e1.data->Discovery_source_node == e2.data->Discovery_source_node,
        e1.data->Discovery_signing_public_key != e2.data->Discovery_signing_public_key,
        inbound_verdict(ps, node_id, last_hash, e1) is Bound || inbound_verdict(
            ps,
            node_id,
            last_hash,
            e1,
        ) is Known,
        inbound_peers_ok(ps, ps1, node_id, last_hash, secret, e1, now1),
    ensures
        pinned_key(ps1, e1.data->Discovery_source_node) == Some(
            e1.data->Discovery_signing_public_key,
        ),
        inbound_verdict(ps1, node_id, last_hash, e2) is Rejected,
        e2.version == PROTOCOL_VERSION ==> inbound_verdict(ps1, node_id, last_hash, e2)
            == Verdict::Rejected(Fault::Crypto),
        forall|ps2: Seq<Peer>, now2: u64|
            #[trigger] inbound_peers_ok(ps1, ps2, node_id, last_hash, secret, e2, now2) ==> ps2
                == ps1,
{
    lemma_pinned_after(ps, ps1, node_id, last_hash, secret, e1, now1, e1.data->Discovery_source_node);
}

/// A discovery whose exchange key is all zeros is refused, however well
/// signed, and changes nothing.
pub proof fn lemma_zero_exchange_key_rejected(
    ps: Seq<Peer>,
    node_id: Seq<char>,
    last_hash: u64,
    e: Envelope,
)
    requires
        e.data is Discovery,
        is_zero_key(e.data->Discovery_public_key),
    ensures
        inbound_verdict(ps, node_id, last_hash, e) is Rejected,
        e.version == PROTOCOL_VERSION ==> inbound_verdict(ps, node_id, last_hash, e)
            == Verdict::Rejected(Fault::Crypto),
        forall|ps1: Seq<Peer>, secret: Seq<u8>, now: u64|
            #[trigger] inbound_peers_ok(ps, ps1, node_id, last_hash, secret, e, now) ==> ps1 == ps,
{
}

/// At the engine: once a node is bound, a discovery from it with another
/// identity key is refused with a crypto error, and the peers, with the pinned
/// key and the session, stay as they were.
pub proof fn lemma_engine_refuses_rebind(
    m0: SyncManager,
    m1: SyncManager,
    m2: SyncManager,
    e1: Envelope,
    e2: Envelope,
    now1: u64,
    now2: u64,
    r1: Result<Handled, PostError>,
    r2: Result<Handled, PostError>,
)
    requires
        m0.wf(),
        e1.data is Discovery,
        e2.data is Discovery,
        e2.version == PROTOCOL_VERSION,
        e1.data->Discovery_source_node == e2.data->Discovery_source_node,
        e1.data->Discovery_signing_public_key != e2.data->Discovery_signing_public_key,
        handled(m0, m1, e1, now1, r1),
        r1 matches Ok(Handled::Bound) || r1 matches Ok(Handled::Known),
        handled(m1, m2, e2, now2, r2),
    ensures
        r2 matches Err(PostError::Crypto(_)),
        m2.peers() == m1.peers(),
        pinned_key(m2.peers(), e1.data->Discovery_source_node) == Some(
            e1.data->Discovery_signing_public_key,
        ),
{
    lemma_identity_rebind_rejected(
        m0.peers(),
        m1.peers(),
        m0.node_id(),
        m0.last_hash(),
        m0.exchange().private_key@,
        e1,
        e2,
        now1,
    );
    assert(inbound_peers_ok(
        m1.peers(),
        m2.peers(),
        m0.node_id(),
        m0.last_hash(),
        m0.exchange().private_key@,
        e2,
        now2,
    ));
}

/// At the engine: a well-signed discovery of version 1 with an all-zero
/// exchange key is refused with a crypto error and changes neither peers nor
/// last hash.
pub proof fn lemma_engine_refuses_zero_key(
    m0: SyncManager,
    m1: SyncManager,
    e: Envelope,
    now: u64,
    r: Result<Handled, PostError>,
)
    requires
        e.data is Discovery,
        e.version == PROTOCOL_VERSION,
        is_zero_key(e.data->Discovery_public_key),
        handled(m0, m1, e, now, r),
    ensures
        r matches Err(PostError::Crypto(_)),
        m1.peers() == m0.peers(),
        m1.last_hash() == m0.last_hash(),
{
}

/// At the engine: an update of version 1 from a node with no pinned key is
/// refused as from an unknown peer; the clipboard is not set, and peers and
/// last hash stay as they were.
pub proof fn lemma_engine_refuses_unknown_sender(
    m0: SyncManager,
    m1: SyncManager,
    e: Envelope,
    now: u64,
    r: Result<Handled, PostError>,
)
    requires
        e.data is Clipboard,
        e.version == PROTOCOL_VERSION,
        pinned_key(m0.peers(), source_of(e.data)) is None,
        delivered(m0, m1, e, now, r),
    ensures
        r matches Err(PostError::UnknownPeer(_)),
        m1.peers() == m0.peers(),
        m1.last_hash() == m0.last_hash(),
{
}

/// At the engine: a well-signed update of version 1 with new content from a
/// bound peer other than this node is applied; when the clipboard accepts it,
/// its hash becomes the last one.
pub proof fn lemma_engine_applies_update(
    m0: SyncManager,
    m1: SyncManager,
    e: Envelope,
    key: Seq<u8>,
    now: u64,
    r: Result<Handled, PostError>,
)
    requires
        e.data is Clipboard,
        e.version == PROTOCOL_VERSION,
        pinned_key(m0.peers(), source_of(e.data)) == Some(key),
        accepted_by(key, e),
        source_of(e.data) != m0.node_id(),
        content_hash(e.data->Clipboard_content) != m0.last_hash(),
        delivered(m0, m1, e, now, r),
    ensures
        r is Ok ==> (r matches Ok(Handled::Apply(s)) && s@ == e.data->Clipboard_content
            && m1.last_hash() == content_hash(e.data->Clipboard_content)),
        r is Err ==> m1.last_hash() == m0.last_hash(),
        m1.peers() == m0.peers(),
{
}

/// At the engine: a peer found stale by a cleanup loses its binding and its
/// session, so a later update from it is refused as from an unknown peer.
pub proof fn lemma_evicted_peer_is_unknown(
    m0: SyncManager,
    m1: SyncManager,
    m2: SyncManager,
    id: Seq<char>,
    max_age: u64,
    now: u64,
    e: Envelope,
    now2: u64,
    r: Result<Handled, PostError>,
)
    requires
        m0.wf(),
        has_peer(m0.peers(), id),
        is_stale(peer_of(m0.peers(), id).info.last_seen, max_age, now),
        m1.peers() == fresh_peers(m0.peers(), max_age, now),
        e.data is Clipboard,
        e.version == PROTOCOL_VERSION,
        source_of(e.data) == id,
        delivered(m1, m2, e, now2, r),
    ensures
        pinned_key(m1.peers(), id) is None,
        r matches Err(PostError::UnknownPeer(_)),
{
    let ps = m0.peers();
    let f = m1.peers();
    if has_peer(f, id) {
        let j = choose|j: int| 0 <= j < f.len() && #[trigger] f[j].info.id@ == id;
        ps.lemma_filter_pred(survives(max_age, now), j);
        assert(f.contains(f[j]));
        ps.lemma_filter_contains_rev(survives(max_age, now), f[j]);
        let k = choose|k: int| 0 <= k < ps.len() && ps[k] == f[j];
        lemma_peer_of_index(ps, k);
        assert(false);
    }
}

} // verus!
