use vstd::prelude::*;

use crate::clipboard::ClipboardManager;
use crate::error::PostError;
use crate::message::PostMessage;
use crate::registry::{fresh_peers, Peer};
use crate::sync::{
    announces, changed, delivered, heartbeat_envelope, signed_as, Handled, SyncManager,
};

verus! {

/// What the supervisor does after a tick.
#[derive(Debug)]
pub enum SupervisorAction {
    /// Nothing changed.
    Idle,
    /// The overlay came up: a new engine for `node_id` runs, and `discovery`
    /// is to be broadcast.
    WentOnline { node_id: String, discovery: PostMessage },
    /// The overlay went down: the engine and all its sessions are gone.
    WentOffline,
}

/// One tick of the supervisor, over the engine (`e0` before, `e1` after), the
/// connected flag (`c0`, `c1`) and the overlay observation `obs`: the local
/// node id when the overlay runs, `None` otherwise. When the overlay comes up
/// but no engine can be built (no randomness for its keys), the supervisor
/// stays disconnected and tries again at the next tick.
pub open spec fn tick_step(
    e0: Option<SyncManager>,
    c0: bool,
    obs: Option<Seq<char>>,
    e1: Option<SyncManager>,
    c1: bool,
) -> bool {
    match obs {
        None => !c1 && e1 is None,
        Some(id) => if c0 {
            c1 && e1 == e0
        } else {
            (c1 && (e1 matches Some(m) && m.wf() && m.node_id() == id && m.peers() == Seq::<
                Peer,
            >::empty() && m.sequence() == 0 && m.last_hash() == 0)) || (!c1 && e1 is None)
        },
    }
}

/// Owns the sync engine while the overlay network is reachable, and drops it,
/// with every session, when it is not.
pub struct Supervisor {
    engine: Option<SyncManager>,
    was_connected: bool,
    last_discovery: Option<u64>,
    discovery_interval: u64,
}

impl Supervisor {
    /// The engine, when connected.
    pub closed spec fn engine(&self) -> Option<SyncManager> {
        self.engine
    }

    /// Whether the last tick saw the overlay up.
    pub closed spec fn was_connected(&self) -> bool {
        self.was_connected
    }

    /// The least time between two reactive discoveries.
    pub closed spec fn discovery_interval(&self) -> u64 {
        self.discovery_interval
    }

    /// When the last discovery was made.
    pub closed spec fn last_discovery(&self) -> Option<u64> {
        self.last_discovery
    }

    /// The invariant: an engine runs exactly while connected, and is well formed.
    pub open spec fn wf(&self) -> bool {
        &&& (self.engine() is Some <==> self.was_connected())
        &&& (self.engine() matches Some(m) ==> m.wf())
    }

    /// A supervisor that has seen nothing yet.
    pub fn new(discovery_interval: u64) -> (r: Supervisor)
        ensures
            r.wf(),
            r.engine() is None,
            !r.was_connected(),
            r.last_discovery() is None,
            r.discovery_interval() == discovery_interval,
    {
        Supervisor { engine: None, was_connected: false, last_discovery: None, discovery_interval }
    }

    /// Whether an engine runs.
    pub fn is_connected(&self) -> (r: bool)
        ensures
            r == self.was_connected(),
    {
        self.was_connected
    }

    /// The engine, when one runs.
    pub fn engine_ref(&self) -> (r: Option<&SyncManager>)
        ensures
            r matches Some(m) ==> self.engine() == Some(*m),
            r is None ==> self.engine() is None,
    {
        match &self.engine {
            Some(m) => Some(m),
            None => None,
        }
    }

    /// Reacts to one observation of the overlay at `now`: `Some(node_id)` when
    /// it runs, `None` when it does not or cannot be queried.
    pub fn tick(&mut self, overlay: Option<String>, now: u64) -> (r: SupervisorAction)
        requires
            old(self).wf(),
        ensures
            final(self).wf(),
            tick_step(
                old(self).engine(),
                old(self).was_connected(),
                match overlay {
                    Some(id) => Some(id@),
                    None => None,
                },
                final(self).engine(),
                final(self).was_connected(),
            ),
            final(self).discovery_interval() == old(self).discovery_interval(),
            match overlay {
                None => if old(self).was_connected() {
                    r is WentOffline
                } else {
                    r is Idle
                },
                Some(id) => if old(self).was_connected() {
                    r is Idle
                } else if final(self).was_connected() {
                    (r matches SupervisorAction::WentOnline { node_id, discovery } && node_id@ == id@
                        && (final(self).engine() matches Some(m) && announces(m, discovery@, now)))
                        && final(self).last_discovery() == Some(now)
                } else {
                    r is Idle && final(self).last_discovery() == old(self).last_discovery()
                },
            },
    {
        match overlay {
            None => {
                if self.was_connected {
                    self.engine = None;
                    self.was_connected = false;
                    SupervisorAction::WentOffline
                } else {
                    SupervisorAction::Idle
                }
            },
            Some(node_id) => {
                if self.was_connected {
                    return SupervisorAction::Idle;
                }
                let engine = match SyncManager::new(node_id.clone()) {
                    Ok(m) => m,
                    Err(_) => return SupervisorAction::Idle,
                };
                let discovery = match engine.create_node_discovery_message(now) {
                    Ok(m) => m,
                    Err(_) => return SupervisorAction::Idle,
                };
                self.engine = Some(engine);
                self.was_connected = true;
                self.last_discovery = Some(now);
                SupervisorAction::WentOnline { node_id, discovery }
            },
        }
    }

    /// After a message from an unknown peer at `now`: a fresh discovery to
    /// broadcast, unless one was made less than the discovery interval ago or
    /// no engine runs.
    pub fn on_unknown_peer(&mut self, now: u64) -> (r: Option<PostMessage>)
        requires
            old(self).wf(),
        ensures
            final(self).wf(),
            final(self).engine() == old(self).engine(),
            final(self).was_connected() == old(self).was_connected(),
            final(self).discovery_interval() == old(self).discovery_interval(),
            r is Some <==> (old(self).engine() is Some && match old(self).last_discovery() {
                None => true,
                Some(t) => now >= t && now - t >= old(self).discovery_interval(),
            }),
            r is Some ==> final(self).last_discovery() == Some(now),
            r matches Some(d) ==> (old(self).engine() matches Some(m) && announces(m, d@, now)),
            r is None ==> final(self).last_discovery() == old(self).last_discovery(),
    {
        let due = match self.last_discovery {
            None => true,
            Some(t) => now >= t && now - t >= self.discovery_interval,
        };
        if !due {
            return None;
        }
        match &self.engine {
            Some(m) => match m.create_node_discovery_message(now) {
                Ok(d) => {
                    self.last_discovery = Some(now);
                    Some(d)
                },
                Err(_) => None,
            },
            None => None,
        }
    }

    /// A heartbeat to broadcast at `now`, when an engine runs.
    pub fn heartbeat(&self, now: u64) -> (r: Option<PostMessage>)
        requires
            self.wf(),
        ensures
            self.engine() is None ==> r is None,
            self.engine() matches Some(m) ==> (r matches Some(h) && signed_as(
                h@,
                heartbeat_envelope(m.node_id(), now),
                m.identity_secret(),
            )),
    {
        match &self.engine {
            Some(m) => Some(m.create_heartbeat_message(now)),
            None => None,
        }
    }

    /// Hands an inbound message to the engine; with no engine it is refused.
    pub fn deliver<C: ClipboardManager>(
        &mut self,
        clipboard: &mut C,
        message: &PostMessage,
        now: u64,
    ) -> (r: Result<Handled, PostError>)
        requires
            old(self).wf(),
        ensures
            final(self).wf(),
            final(self).was_connected() == old(self).was_connected(),
            final(self).last_discovery() == old(self).last_discovery(),
            final(self).discovery_interval() == old(self).discovery_interval(),
            match old(self).engine() {
                None => r matches Err(PostError::Tailscale(_)) && final(self).engine() is None,
                Some(m0) => final(self).engine() matches Some(m1) && delivered(m0, m1, message@, now, r),
            },
    {
        match &mut self.engine {
            Some(m) => m.deliver(clipboard, message, now),
            None => Err(PostError::Tailscale("Not connected".to_string())),
        }
    }

    /// Turns a change of the local clipboard into an update to broadcast.
    pub fn on_clipboard_change(&mut self, content: String, now: u64) -> (r: Option<PostMessage>)
        requires
            old(self).wf(),
        ensures
            final(self).wf(),
            final(self).was_connected() == old(self).was_connected(),
            final(self).last_discovery() == old(self).last_discovery(),
            final(self).discovery_interval() == old(self).discovery_interval(),
            match old(self).engine() {
                None => r is None && final(self).engine() is None,
                Some(m0) => final(self).engine() matches Some(m1) && changed(m0, m1, content@, now, r),
            },
    {
        match &mut self.engine {
            Some(m) => m.on_clipboard_change(content, now),
            None => None,
        }
    }

    /// Evicts the peers not seen for two cleanup intervals at `now`.
    pub fn cleanup(&mut self, cleanup_interval: u64, now: u64)
        requires
            old(self).wf(),
        ensures
            final(self).wf(),
            final(self).was_connected() == old(self).was_connected(),
            final(self).last_discovery() == old(self).last_discovery(),
            final(self).discovery_interval() == old(self).discovery_interval(),
            match old(self).engine() {
                None => final(self).engine() is None,
                Some(m0) => final(self).engine() matches Some(m1) && m1.peers() == fresh_peers(
                    m0.peers(),
                    threshold_of(cleanup_interval),
                    now,
                ) && m1.node_id() == m0.node_id() && m1.last_hash() == m0.last_hash()
                    && m1.sequence() == m0.sequence(),
            },
    {
        let threshold = stale_threshold(cleanup_interval);
        match &mut self.engine {
            Some(m) => {
                let _ = m.cleanup_stale_nodes(threshold, now);
            },
            None => {},
        }
    }
}

/// Twice the cleanup interval, saturating.
pub open spec fn threshold_of(cleanup_interval: u64) -> u64 {
    if cleanup_interval <= u64::MAX / 2 {
        (2 * cleanup_interval) as u64
    } else {
        u64::MAX
    }
}

/// The age beyond which a peer is stale: twice the cleanup interval, so that
/// one missed interval does not evict.
pub fn stale_threshold(cleanup_interval: u64) -> (r: u64)
    ensures
        r == threshold_of(cleanup_interval),
{
    if cleanup_interval <= u64::MAX / 2 {
        2 * cleanup_interval
    } else {
        u64::MAX
    }
}

/// When the overlay is lost, the engine and all its sessions are dropped at
/// that tick; the engine of the next connection starts with no peers, so no
/// session of the lost connection is used again.
pub proof fn lemma_sessions_dropped_on_overlay_loss(
    e0: Option<SyncManager>,
    e1: Option<SyncManager>,
    c1: bool,
    e2: Option<SyncManager>,
    c2: bool,
    id: Seq<char>,
)
    requires
        tick_step(e0, true, None, e1, c1),
        tick_step(e1, c1, Some(id), e2, c2),
    ensures
        e1 is None,
        e2 matches Some(m) ==> m.peers() == Seq::<Peer>::empty(),
        c2 <==> e2 is Some,
{
}

} // verus!
