use vstd::prelude::*;

verus! {

/// The kind of a message, carried beside its payload.
#[derive(Debug, Clone, Copy, PartialEq, Eq, Structural)]
pub enum MessageType {
    ClipboardUpdate,
    Heartbeat,
    NodeDiscovery,
}

/// New clipboard content from a node.
#[derive(Debug, Clone)]
pub struct ClipboardData {
    pub content: String,
    pub timestamp: u64,
    pub source_node: String,
    pub sequence: u64,
}

/// A node's announcement of its key-agreement key and its identity key.
#[derive(Debug, Clone)]
pub struct NodeDiscoveryData {
    pub source_node: String,
    pub timestamp: u64,
    pub public_key: [u8; 32],
    pub signing_public_key: [u8; 32],
}

/// A node's sign of life.
#[derive(Debug, Clone)]
pub struct HeartbeatData {
    pub source_node: String,
    pub timestamp: u64,
}

/// The payload of a message.
#[derive(Debug, Clone)]
pub enum MessageData {
    ClipboardUpdate(ClipboardData),
    NodeDiscovery(NodeDiscoveryData),
    Heartbeat(HeartbeatData),
}

/// A signed message: the envelope that travels between nodes.
#[derive(Debug, Clone)]
pub struct PostMessage {
    pub version: u8,
    pub message_type: MessageType,
    pub data: MessageData,
    pub signature: Vec<u8>,
}

/// What is known about a peer.
#[derive(Debug, Clone)]
pub struct NodeInfo {
    pub id: String,
    pub name: String,
    pub last_seen: u64,
    pub public_key: [u8; 32],
}

/// The current protocol version.
pub const PROTOCOL_VERSION: u8 = 1;

/// The mathematical value of a payload.
pub enum Payload {
    Clipboard { content: Seq<char>, timestamp: u64, source_node: Seq<char>, sequence: u64 },
    Discovery {
        source_node: Seq<char>,
        timestamp: u64,
        public_key: Seq<u8>,
        signing_public_key: Seq<u8>,
    },
    Heartbeat { source_node: Seq<char>, timestamp: u64 },
}

/// The mathematical value of an envelope.
pub struct Envelope {
    pub version: u8,
    pub message_type: MessageType,
    pub data: Payload,
    pub signature: Seq<u8>,
}

impl View for MessageData {
    type V = Payload;

    open spec fn view(&self) -> Payload {
        match self {
            MessageData::ClipboardUpdate(d) => Payload::Clipboard {
                content: d.content@,
                timestamp: d.timestamp,
                source_node: d.source_node@,
                sequence: d.sequence,
            },
            MessageData::NodeDiscovery(d) => Payload::Discovery {
                source_node: d.source_node@,
                timestamp: d.timestamp,
                public_key: d.public_key@,
                signing_public_key: d.signing_public_key@,
            },
            MessageData::Heartbeat(d) => Payload::Heartbeat {
                source_node: d.source_node@,
                timestamp: d.timestamp,
            },
        }
    }
}

impl View for PostMessage {
    type V = Envelope;

    open spec fn view(&self) -> Envelope {
        Envelope {
            version: self.version,
            message_type: self.message_type,
            data: self.data@,
            signature: self.signature@,
        }
    }
}

/// The node that a payload names as its source.
pub open spec fn source_of(p: Payload) -> Seq<char> {
    match p {
        Payload::Clipboard { source_node, .. } => source_node,
        Payload::Discovery { source_node, .. } => source_node,
        Payload::Heartbeat { source_node, .. } => source_node,
    }
}

/// An envelope with its signature cleared: what is signed.
pub open spec fn unsigned(e: Envelope) -> Envelope {
    Envelope { signature: Seq::empty(), ..e }
}

impl MessageData {
    /// The node that the payload names as its source.
    pub fn source_node(&self) -> (r: &String)
        ensures
            r@ == source_of(self@),
    {
        match self {
            MessageData::ClipboardUpdate(d) => &d.source_node,
            MessageData::NodeDiscovery(d) => &d.source_node,
            MessageData::Heartbeat(d) => &d.source_node,
        }
    }
}

} // verus!
