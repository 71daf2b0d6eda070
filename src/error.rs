use vstd::prelude::*;

verus! {

/// The error kinds of the library. Each carries a human-readable detail.
#[derive(Debug, Clone)]
pub enum PostError {
    Clipboard(String),
    Tailscale(String),
    Crypto(String),
    Config(String),
    Network(String),
    Serialization(String),
    /// A message came from a node whose identity key is not pinned.
    UnknownPeer(String),
    Other(String),
}

} // verus!
