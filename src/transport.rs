use vstd::prelude::*;

use crate::error::PostError;
use crate::message::PostMessage;

verus! {

/// The state of the overlay network's backend.
#[derive(Debug, Clone, Copy, PartialEq, Eq, Structural)]
pub enum BackendState {
    Running,
    Stopped,
    NoState,
    NeedsLogin,
    NeedsMachineAuth,
    Other,
}

/// The platforms whose overlay daemons listen in different places.
#[derive(Debug, Clone, Copy, PartialEq, Eq, Structural)]
pub enum Platform {
    Linux,
    MacOs,
    Windows,
    Other,
}

/// The status report of the overlay daemon, as its local API gives it.
#[derive(Debug, Clone)]
pub struct TcpApiStatus {
    pub backend_state: String,
    pub self_status: TcpApiSelfStatus,
    pub peer: Vec<TcpApiPeer>,
}

/// This node in a status report.
#[derive(Debug, Clone)]
pub struct TcpApiSelfStatus {
    pub id: String,
}

/// A peer in a status report.
#[derive(Debug, Clone)]
pub struct TcpApiPeer {
    pub online: bool,
    pub tailscale_ips: Vec<String>,
}

/// Whether the overlay counts as connected: a status was had, and its
/// backend runs. A failed query counts as not connected.
pub fn is_tailscale_connected(state: Option<BackendState>) -> (r: bool)
    ensures
        r == (state == Some(BackendState::Running)),
{
    match state {
        Some(BackendState::Running) => true,
        _ => false,
    }
}

/// The address of each online peer that has one: its first overlay address.
pub open spec fn peer_addresses(ps: Seq<TcpApiPeer>) -> Seq<Seq<char>>
    decreases ps.len(),
{
    if ps.len() == 0 {
        Seq::empty()
    } else {
        let rest = peer_addresses(ps.drop_last());
        let p = ps.last();
        if p.online && p.tailscale_ips@.len() > 0 {
            rest.push(p.tailscale_ips@[0]@)
        } else {
            rest
        }
    }
}

/// The addresses to send to: the first overlay address of every online peer.
pub fn online_peer_addresses(peers: &Vec<TcpApiPeer>) -> (r: Vec<String>)
    ensures
        r@.map_values(|s: String| s@) == peer_addresses(peers@),
{
    let mut out: Vec<String> = Vec::new();
    let mut i: usize = 0;
    while i < peers.len()
        invariant
            i <= peers@.len(),
            out@.map_values(|s: String| s@) == peer_addresses(peers@.subrange(0, i as int)),
        decreases peers@.len() - i,
    {
        let p = &peers[i];
        assert(peers@.subrange(0, i + 1).drop_last() =~= peers@.subrange(0, i as int));
        if p.online && p.tailscale_ips.len() > 0 {
            let ip = p.tailscale_ips[0].clone();
            out.push(ip);
        }
        i = i + 1;
        assert(out@.map_values(|s: String| s@) =~= peer_addresses(peers@.subrange(0, i as int)));
    }
    assert(peers@.subrange(0, peers@.len() as int) =~= peers@);
    out
}

/// The result of a broadcast that tried `attempted` peers, of which `failed`
/// could not be reached: only a broadcast that reached none of at least one
/// peer fails.
pub fn broadcast_outcome(attempted: usize, failed: usize) -> (r: Result<(), PostError>)
    requires
        failed <= attempted,
    ensures
        r is Err <==> (attempted > 0 && failed == attempted),
        r matches Err(e) ==> e is Network,
{
    if attempted > 0 && failed == attempted {
        return Err(PostError::Network("Failed to send message to any nodes".to_string()));
    }
    Ok(())
}

/// The local sockets where the overlay daemon may listen, in the order to try.
pub fn get_possible_socket_paths(platform: Platform, in_container: bool) -> (r: Vec<String>)
    ensures
        in_container ==> r@.len() == 1 && r@[0]@ == "/tmp/tailscaled.sock"@,
        !in_container && platform != Platform::Windows ==> r@.len() == 2 && r@[0]@
            == "/var/run/tailscaled.socket"@ && r@[1]@ == "/var/run/tailscale/tailscaled.sock"@,
        !in_container && platform == Platform::Windows ==> r@.len() == 2 && r@[0]@
            == "\\\\.\\pipe\\ProtectedPrefix\\Administrators\\Tailscale\\tailscaled-pipe"@ && r@[1]@
            == "\\\\.\\pipe\\ProtectedPrefix\\Administrators\\Tailscale\\tailscaled"@,
{
    let mut paths: Vec<String> = Vec::new();
    if in_container {
        paths.push("/tmp/tailscaled.sock".to_string());
        return paths;
    }
    match platform {
        Platform::Windows => {
            paths.push("\\\\.\\pipe\\ProtectedPrefix\\Administrators\\Tailscale\\tailscaled-pipe".to_string());
            paths.push("\\\\.\\pipe\\ProtectedPrefix\\Administrators\\Tailscale\\tailscaled".to_string());
        },
        _ => {
            paths.push("/var/run/tailscaled.socket".to_string());
            paths.push("/var/run/tailscale/tailscaled.sock".to_string());
        },
    }
    paths
}

/// The socket to use when no probing is done.
pub fn detect_tailscale_socket_path(platform: Platform, in_container: bool) -> (r: String)
    ensures
        in_container ==> r@ == "/tmp/tailscaled.sock"@,
        !in_container && platform == Platform::Windows ==> r@
            == "\\\\.\\pipe\\ProtectedPrefix\\Administrators\\Tailscale\\tailscaled-pipe"@,
        !in_container && platform != Platform::Windows ==> r@ == "/var/run/tailscaled.socket"@,
{
    if in_container {
        return "/tmp/tailscaled.sock".to_string();
    }
    match platform {
        Platform::Windows => "\\\\.\\pipe\\ProtectedPrefix\\Administrators\\Tailscale\\tailscaled-pipe".to_string(),
        _ => "/var/run/tailscaled.socket".to_string(),
    }
}

/// A transport for tests: always connected, with no peers, sending nowhere.
#[derive(Debug, Clone)]
pub struct MockTransport {
    node_id: String,
}

impl MockTransport {
    /// The node id that the transport reports.
    pub closed spec fn node_id(&self) -> Seq<char> {
        self.node_id@
    }

    /// A mock transport for `node_id`.
    pub fn new(node_id: String) -> (r: MockTransport)
        ensures
            r.node_id() == node_id@,
    {
        MockTransport { node_id }
    }

    /// Accepts any message and sends it nowhere.
    pub fn send_message(&self, message: &PostMessage) -> (r: Result<(), PostError>)
        ensures
            r is Ok,
    {
        Ok(())
    }

    /// The node id given at construction.
    pub fn get_node_id(&self) -> (r: Result<String, PostError>)
        ensures
            r matches Ok(id) && id@ == self.node_id(),
    {
        Ok(self.node_id.clone())
    }

    /// No peers.
    pub fn get_tailnet_nodes(&self) -> (r: Result<Vec<String>, PostError>)
        ensures
            r matches Ok(v) && v@.len() == 0,
    {
        Ok(Vec::new())
    }

    /// Always connected.
    pub fn is_connected(&self) -> (r: Result<bool, PostError>)
        ensures
            r == Ok::<bool, PostError>(true),
    {
        Ok(true)
    }
}

} // verus!
