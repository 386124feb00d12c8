//! Nodes of IP networks.

use std::time::Duration;
use vstd::prelude::*;

verus! {

/// A node representing latency on an IP connection.
pub struct LatencyNode<N> {
    node: N,
    min_latency: Duration,
    mean_additional_latency: Duration,
}

/// Add latency between nodes. Packets entering the connection from either end will be delayed
/// before arriving at the other end.
///
/// `min_latency` is the baseline for the amount of delay to add to packets.
/// `mean_additional_latency` controls the amount of random variation in the delay added to
/// packets. A non-zero `mean_additional_latency` can cause packets to be re-ordered.
pub fn latency<N>(min_latency: Duration, mean_additional_latency: Duration, node: N) -> (r:
    LatencyNode<N>)
    ensures
        r.node() == node,
        r.min_latency() == min_latency,
        r.mean_additional_latency() == mean_additional_latency,
{
    LatencyNode { node, min_latency, mean_additional_latency }
}

impl<N> LatencyNode<N> {
    /// The node behind the delayed connection.
    pub closed spec fn node(&self) -> N {
        self.node
    }

    /// The baseline delay.
    pub closed spec fn min_latency(&self) -> Duration {
        self.min_latency
    }

    /// The mean of the random extra delay.
    pub closed spec fn mean_additional_latency(&self) -> Duration {
        self.mean_additional_latency
    }

    /// Consumes the node and returns the delayed node, the baseline delay and the mean extra
    /// delay.
    pub fn into_parts(self) -> (r: (N, Duration, Duration))
        ensures
            r == (self.node(), self.min_latency(), self.mean_additional_latency()),
    {
        (self.node, self.min_latency, self.mean_additional_latency)
    }
}

} // verus!
