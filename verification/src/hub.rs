//! An Ethernet hub: a stupid hub which blindly forwards every incoming frame to all connected
//! peers, and stops once every peer has disconnected.

use crate::plug::EtherPlug;
use vstd::prelude::*;

verus! {

/// Used to build a `Hub`.
pub struct HubBuilder {
    connections: Vec<EtherPlug>,
}

/// An ethernet hub. This is a stupid hub which just blindly forwards all incoming frames to all
/// connected peers.
pub struct Hub {
    connections: Vec<EtherPlug>,
}

impl HubBuilder {
    /// The peers added so far, in order.
    pub closed spec fn connections(&self) -> Seq<EtherPlug> {
        self.connections@
    }

    /// Create a new `HubBuilder` with no peers.
    pub fn new() -> (r: HubBuilder)
        ensures
            r.connections() == Seq::<EtherPlug>::empty(),
    {
        HubBuilder { connections: Vec::new() }
    }

    /// Add a peer to the hub.
    pub fn connect(self, plug: EtherPlug) -> (r: HubBuilder)
        ensures
            r.connections() == self.connections().push(plug),
    {
        let mut connections = self.connections;
        connections.push(plug);
        HubBuilder { connections }
    }

    /// Build the `Hub`.
    pub fn build(self) -> (r: Hub)
        ensures
            r.connections() == self.connections(),
    {
        Hub::new(self.connections)
    }
}

impl Default for HubBuilder {
    fn default() -> (r: HubBuilder)
        ensures
            r.connections() == Seq::<EtherPlug>::empty(),
    {
        HubBuilder::new()
    }
}

impl Hub {
    /// The hub's peers, in order.
    pub closed spec fn connections(&self) -> Seq<EtherPlug> {
        self.connections@
    }

    /// Create a new ethernet hub with the given clients connected to it.
    pub fn new(connections: Vec<EtherPlug>) -> (r: Hub)
        ensures
            r.connections() == connections@,
    {
        Hub { connections }
    }

    /// The number of peers.
    pub fn len(&self) -> (r: usize)
        ensures
            r == self.connections().len(),
    {
        self.connections.len()
    }

    /// The peer at position `i`.
    pub fn connection_mut(&mut self, i: usize) -> (r: &mut EtherPlug)
        requires
            i < old(self).connections().len(),
        ensures
            *r == old(self).connections()[i as int],
            final(self).connections() == old(self).connections().update(i as int, *final(r)),
    {
        &mut self.connections[i]
    }

    /// The peers that a frame arriving from peer `from` is forwarded to: every peer, in order,
    /// the sender included.
    pub fn recipients(&self, from: usize) -> (r: Vec<usize>)
        requires
            from < self.connections().len(),
        ensures
            r@ == Seq::new(self.connections().len(), |i: int| i as usize),
            r@.contains(from),
    {
        let n = self.connections.len();
        let mut r: Vec<usize> = Vec::new();
        let mut i: usize = 0;
        while i < n
            invariant
                n == self.connections().len(),
                i <= n,
                r@ == Seq::new(i as nat, |j: int| j as usize),
            decreases n - i,
        {
            r.push(i);
            i = i + 1;
            assert(r@ =~= Seq::new(i as nat, |j: int| j as usize));
        }
        assert(r@[from as int] == from);
        r
    }
}

/// What polling the current peer of a pass gave.
#[derive(Clone, Copy, Debug, PartialEq, Eq, Structural)]
pub enum HubEvent {
    /// A frame arrived; it is forwarded and the same peer is polled again.
    Frame,
    /// The peer has disconnected; the pass moves on.
    Ended,
    /// The peer has nothing more for now; the pass moves on.
    Pending,
}

/// One polling pass of a hub over its peers, in order. Each peer is polled until it has nothing
/// more (or has disconnected); the hub stops once a pass finds every peer disconnected.
pub struct HubPass {
    count: usize,
    current: usize,
    all_disconnected: bool,
    ended: Ghost<Seq<bool>>,
}

impl HubPass {
    #[verifier::type_invariant]
    spec fn inv(self) -> bool {
        &&& self.current <= self.count
        &&& self.ended@.len() == self.current
        &&& self.all_disconnected == !self.ended@.contains(false)
    }

    /// The number of peers the pass goes over.
    pub closed spec fn count(&self) -> nat {
        self.count as nat
    }

    /// The peer being polled.
    pub closed spec fn current(&self) -> nat {
        self.current as nat
    }

    /// For each peer done so far, whether it had disconnected.
    pub closed spec fn ended(&self) -> Seq<bool> {
        self.ended@
    }

    /// A pass over `count` peers.
    pub fn start(count: usize) -> (r: HubPass)
        ensures
            r.count() == count,
            r.current() == 0,
            r.ended() == Seq::<bool>::empty(),
    {
        HubPass { count, current: 0, all_disconnected: true, ended: Ghost(Seq::empty()) }
    }

    /// The peer to poll next, or `None` when the pass is over.
    pub fn next_peer(&self) -> (r: Option<usize>)
        ensures
            self.current() < self.count() ==> r == Some(self.current() as usize),
            self.current() >= self.count() ==> r is None,
    {
        if self.current < self.count {
            Some(self.current)
        } else {
            None
        }
    }

    /// Records what polling the current peer gave.
    pub fn on_event(&mut self, event: HubEvent)
        requires
            old(self).current() < old(self).count(),
        ensures
            final(self).count() == old(self).count(),
            event is Frame ==> final(self).current() == old(self).current(),
            event is Frame ==> final(self).ended() == old(self).ended(),
            !(event is Frame) ==> final(self).current() == old(self).current() + 1,
            event is Ended ==> final(self).ended() == old(self).ended().push(true),
            event is Pending ==> final(self).ended() == old(self).ended().push(false),
    {
        proof {
            use_type_invariant(&*self);
        }
        match event {
            HubEvent::Frame => {},
            HubEvent::Ended => {
                let ghost e = self.ended@.push(true);
                proof {
                    if e.contains(false) {
                        let k = choose|k: int| 0 <= k < e.len() && e[k] == false;
                        assert(self.ended@[k] == false);
                    }
                    if self.ended@.contains(false) {
                        let k = choose|k: int| 0 <= k < self.ended@.len() && self.ended@[k] == false;
                        assert(e[k] == false);
                    }
                }
                *self = HubPass {
                    count: self.count,
                    current: self.current + 1,
                    all_disconnected: self.all_disconnected,
                    ended: Ghost(e),
                };
            },
            HubEvent::Pending => {
                let ghost e = self.ended@.push(false);
                assert(e[e.len() - 1] == false);
                *self = HubPass {
                    count: self.count,
                    current: self.current + 1,
                    all_disconnected: false,
                    ended: Ghost(e),
                };
            },
        }
    }

    /// Whether the hub stops: the pass is over and every peer had disconnected.
    pub fn hub_finished(&self) -> (r: bool)
        ensures
            r == (self.current() == self.count() && !self.ended().contains(false)),
    {
        proof {
            use_type_invariant(self);
            assert(self.ended() == self.ended@);
        }
        self.current == self.count && self.all_disconnected
    }
}

} // verus!
