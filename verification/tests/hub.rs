use netsim::hub::{HubEvent, HubPass};
use netsim::wire::EtherFrame;
use netsim::{EtherPlug, HubBuilder, Plug};

fn plugs(n: usize) -> (Vec<EtherPlug>, Vec<EtherPlug>) {
    let mut ours = Vec::new();
    let mut theirs = Vec::new();
    for _ in 0..n {
        let (a, b) = Plug::<EtherFrame>::new_pair();
        ours.push(a);
        theirs.push(b);
    }
    (ours, theirs)
}

#[test]
fn builder_connects_every_plug() {
    let (ours, _theirs) = plugs(3);
    let mut builder = HubBuilder::new();
    for p in ours {
        builder = builder.connect(p);
    }
    let hub = builder.build();
    assert_eq!(hub.len(), 3);
    assert_eq!(HubBuilder::default().build().len(), 0);
}

#[test]
fn frames_go_to_every_peer_including_sender() {
    let (ours, _theirs) = plugs(4);
    let hub = netsim::Hub::new(ours);
    assert_eq!(hub.recipients(2), vec![0, 1, 2, 3]);
    assert_eq!(hub.recipients(0), vec![0, 1, 2, 3]);
}

#[test]
fn forwarded_frame_reaches_each_peer() {
    let (ours, mut theirs) = plugs(2);
    let mut hub = netsim::Hub::new(ours);
    let frame = EtherFrame::from_bytes(vec![1, 2, 3]);
    for i in hub.recipients(1) {
        let _ = hub.connection_mut(i).tx.unbounded_send(frame.clone());
    }
    for peer in theirs.iter_mut() {
        assert_eq!(peer.rx.try_next().unwrap(), Some(frame.clone()));
    }
}

#[test]
fn hub_finishes_only_when_all_peers_ended() {
    let mut pass = HubPass::start(2);
    assert_eq!(pass.next_peer(), Some(0));
    pass.on_event(HubEvent::Frame);
    assert_eq!(pass.next_peer(), Some(0));
    pass.on_event(HubEvent::Ended);
    assert_eq!(pass.next_peer(), Some(1));
    pass.on_event(HubEvent::Ended);
    assert_eq!(pass.next_peer(), None);
    assert!(pass.hub_finished());

    let mut pass = HubPass::start(2);
    pass.on_event(HubEvent::Pending);
    pass.on_event(HubEvent::Ended);
    assert_eq!(pass.next_peer(), None);
    assert!(!pass.hub_finished());
}

#[test]
fn hub_with_no_peers_finishes() {
    let pass = HubPass::start(0);
    assert_eq!(pass.next_peer(), None);
    assert!(pass.hub_finished());
}
