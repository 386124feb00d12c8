use netsim::packet_loss::{link_finished, period_kind, LossState, Period};

#[test]
fn losing_link_drops_and_keeping_link_forwards() {
    let s = LossState::new(true, 100, 50);
    assert_eq!(s.toggle_at, 150);
    assert!(!s.forwards());
    assert_eq!(s.next_period(), Period::Keeping);
    let s = LossState::new(false, 100, 50);
    assert!(s.forwards());
    assert_eq!(s.next_period(), Period::Losing);
}

#[test]
fn periods_alternate_back_to_back() {
    let mut s = LossState::new(false, 0, 10);
    assert!(!s.needs_toggle(10));
    assert!(s.needs_toggle(11));
    s.toggle(5);
    assert!(s.currently_losing);
    assert_eq!(s.toggle_at, 15);
    s.toggle(7);
    assert!(!s.currently_losing);
    assert_eq!(s.toggle_at, 22);
}

#[test]
fn catching_up_after_a_long_sleep() {
    let mut s = LossState::new(true, 0, 3);
    let now = 20;
    let mut toggles = 0;
    while s.needs_toggle(now) {
        s.toggle(4);
        toggles += 1;
    }
    assert_eq!(toggles, 5);
    assert_eq!(s.toggle_at, 23);
    assert!(!s.currently_losing);
}

#[test]
fn link_stops_when_both_ends_unplugged() {
    assert!(link_finished(true, true));
    assert!(!link_finished(true, false));
    assert!(!link_finished(false, true));
    assert!(!link_finished(false, false));
}

#[test]
fn period_kinds() {
    assert_eq!(period_kind(true), Period::Losing);
    assert_eq!(period_kind(false), Period::Keeping);
}
