//! Plugs: the two-way connections between simulated devices. Anything written into one end of a
//! pair of plugs can be read from the other end. Each direction is an unbounded channel of the
//! `futures` crate.

use crate::wire::{EtherFrame, IpPacket, Ipv4Packet, Ipv6Packet};
use futures::channel::mpsc::{TrySendError, UnboundedReceiver, UnboundedSender};
use vstd::prelude::*;

verus! {

#[verifier::external_type_specification]
#[verifier::external_body]
#[verifier::reject_recursive_types(T)]
pub struct ExUnboundedSender<T>(futures::channel::mpsc::UnboundedSender<T>);

#[verifier::external_type_specification]
#[verifier::external_body]
#[verifier::reject_recursive_types(T)]
pub struct ExUnboundedReceiver<T>(futures::channel::mpsc::UnboundedReceiver<T>);

#[verifier::external_type_specification]
#[verifier::external_body]
#[verifier::reject_recursive_types(T)]
pub struct ExTrySendError<T>(futures::channel::mpsc::TrySendError<T>);

/// A new unbounded channel.
///
/// Calls `futures::channel::mpsc::unbounded`, which returns a sender and the receiver it is
/// connected to. The channel is opaque here: nothing is stated of the two halves.
#[verifier::external_body]
fn unbounded_channel<T>() -> (r: (UnboundedSender<T>, UnboundedReceiver<T>)) {
    futures::channel::mpsc::unbounded()
}

/// Queues `msg` on the channel of `tx`.
///
/// Calls `UnboundedSender::unbounded_send`, which fails, handing the message back, when the
/// receiver is gone. Whether it is gone depends on another task, so nothing is stated of the
/// result.
#[verifier::external_body]
fn channel_send<T>(tx: &UnboundedSender<T>, msg: T) -> (r: Result<(), TrySendError<T>>) {
    tx.unbounded_send(msg)
}

/// Bidirectional network plug that can be used to exchange data between two devices. Anything
/// written to the plug will be readable on the other side.
#[derive(Debug)]
#[verifier::reject_recursive_types(T)]
pub struct Plug<T> {
    /// The sender.
    pub tx: UnboundedSender<T>,
    /// The receiver.
    pub rx: UnboundedReceiver<T>,
}

/// A plug carrying Ethernet frames.
pub type EtherPlug = Plug<EtherFrame>;

/// A plug carrying IPv4 packets.
pub type Ipv4Plug = Plug<Ipv4Packet>;

/// A plug carrying IPv6 packets.
pub type Ipv6Plug = Plug<Ipv6Packet>;

impl<T> Plug<T> {
    /// Create a new connection connecting the two returned plugs.
    pub fn new_pair() -> (r: (Plug<T>, Plug<T>)) {
        let (a_tx, b_rx) = unbounded_channel();
        let (b_tx, a_rx) = unbounded_channel();
        let a = Plug { tx: a_tx, rx: a_rx };
        let b = Plug { tx: b_tx, rx: b_rx };
        (a, b)
    }

    /// Returns sender and receiver handles used to interact with the other side of the plug.
    pub fn split(self) -> (r: (UnboundedSender<T>, UnboundedReceiver<T>))
        ensures
            r.0 == self.tx,
            r.1 == self.rx,
    {
        (self.tx, self.rx)
    }
}

/// An IP plug.
#[derive(Debug)]
pub struct IpPlug {
    inner: Plug<IpPacket>,
}

/// The sending half of an `IpPlug`.
pub struct IpSender {
    tx: UnboundedSender<IpPacket>,
}

/// The receiving half of an `IpPlug`.
pub struct IpReceiver {
    rx: UnboundedReceiver<IpPacket>,
}

impl IpPlug {
    /// The plug this IP plug is made of.
    pub closed spec fn spec_plug(&self) -> Plug<IpPacket> {
        self.inner
    }

    /// Create a pair of connected plugs.
    pub fn new_pair() -> (r: (IpPlug, IpPlug)) {
        let (plug_a, plug_b) = Plug::new_pair();
        let plug_a = IpPlug { inner: plug_a };
        let plug_b = IpPlug { inner: plug_b };
        (plug_a, plug_b)
    }

    /// The IP plug made of `inner`.
    pub fn from_plug(inner: Plug<IpPacket>) -> (r: IpPlug)
        ensures
            r.spec_plug() == inner,
    {
        IpPlug { inner }
    }

    /// Split into sending and receiving halves.
    pub fn split(self) -> (r: (IpSender, IpReceiver))
        ensures
            r.0.spec_tx() == self.spec_plug().tx,
            r.1.spec_rx() == self.spec_plug().rx,
    {
        let (tx, rx) = self.inner.split();
        let tx = IpSender { tx };
        let rx = IpReceiver { rx };
        (tx, rx)
    }

    /// Send a packet.
    pub fn unbounded_send(&mut self, packet: IpPacket) -> (r: Result<(), TrySendError<IpPacket>>) {
        channel_send(&self.inner.tx, packet)
    }

    /// The receiver of incoming packets.
    pub fn receiver_mut(&mut self) -> (r: &mut UnboundedReceiver<IpPacket>)
        ensures
            *r == old(self).spec_plug().rx,
            final(self).spec_plug().tx == old(self).spec_plug().tx,
            final(self).spec_plug().rx == *final(r),
    {
        &mut self.inner.rx
    }
}

impl IpSender {
    /// The channel sender of this half.
    pub closed spec fn spec_tx(&self) -> UnboundedSender<IpPacket> {
        self.tx
    }

    /// Send a packet down the wire, ignoring whether the other side is gone.
    pub fn unbounded_send(&self, packet: IpPacket) {
        let _ = channel_send(&self.tx, packet);
    }

    /// The underlying channel sender.
    pub fn sender(&self) -> (r: &UnboundedSender<IpPacket>)
        ensures
            *r == self.spec_tx(),
    {
        &self.tx
    }
}

impl IpReceiver {
    /// The channel receiver of this half.
    pub closed spec fn spec_rx(&self) -> UnboundedReceiver<IpPacket> {
        self.rx
    }

    /// The underlying channel receiver.
    pub fn receiver_mut(&mut self) -> (r: &mut UnboundedReceiver<IpPacket>)
        ensures
            *r == old(self).spec_rx(),
            final(self).spec_rx() == *final(r),
    {
        &mut self.rx
    }
}

impl From<IpPlug> for Plug<IpPacket> {
    fn from(plug: IpPlug) -> (r: Plug<IpPacket>) {
        plug.inner
    }
}

impl vstd::std_specs::convert::FromSpecImpl<IpPlug> for Plug<IpPacket> {
    open spec fn obeys_from_spec() -> bool {
        true
    }

    closed spec fn from_spec(plug: IpPlug) -> Plug<IpPacket> {
        plug.inner
    }
}

} // verus!
