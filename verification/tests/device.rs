use netsim::device::{
    frame_from_read, packet_from_read, plan_lifecycle, tap_send_action, task_finished,
    tun_send_action, SendAction, SendEvent, TaskPhase, TimerPlan,
};

#[test]
fn receiving_task_ignores_timer_until_exit() {
    let plan = plan_lifecycle(TaskPhase::Receiving, false, true);
    assert_eq!(
        plan,
        TimerPlan { phase: TaskPhase::Receiving, start_timer: false, restart_timer: false, poll_timer: false }
    );
    assert!(!task_finished(plan, true));
}

#[test]
fn exit_starts_grace_timer() {
    let plan = plan_lifecycle(TaskPhase::Receiving, true, false);
    assert_eq!(
        plan,
        TimerPlan { phase: TaskPhase::Dying, start_timer: true, restart_timer: false, poll_timer: true }
    );
    assert!(task_finished(plan, true));
    assert!(!task_finished(plan, false));
    let plan = plan_lifecycle(TaskPhase::Receiving, true, true);
    assert!(plan.start_timer && plan.restart_timer);
}

#[test]
fn dying_task_restarts_timer_on_traffic() {
    let plan = plan_lifecycle(TaskPhase::Dying, false, true);
    assert_eq!(
        plan,
        TimerPlan { phase: TaskPhase::Dying, start_timer: false, restart_timer: true, poll_timer: true }
    );
    let plan = plan_lifecycle(TaskPhase::Dying, true, false);
    assert!(!plan.restart_timer && plan.poll_timer);
}

#[test]
fn tap_sender_steps() {
    assert_eq!(tap_send_action(true, SendEvent::Start), SendAction::PollReady);
    assert_eq!(tap_send_action(false, SendEvent::Start), SendAction::PollQueue);
    assert_eq!(tap_send_action(true, SendEvent::Ready), SendAction::Send);
    assert_eq!(tap_send_action(true, SendEvent::NotReady), SendAction::Stop);
    assert_eq!(tap_send_action(false, SendEvent::Sent), SendAction::PollQueue);
    assert_eq!(tap_send_action(true, SendEvent::Queued), SendAction::PollReady);
    assert_eq!(tap_send_action(false, SendEvent::QueueIdle), SendAction::PollReady);
    assert_eq!(tap_send_action(false, SendEvent::QueueClosed), SendAction::PollReady);
    assert_eq!(tap_send_action(false, SendEvent::Ready), SendAction::Stop);
    assert_eq!(tap_send_action(false, SendEvent::NotReady), SendAction::Stop);
}

#[test]
fn tap_sender_flushes_last_frame() {
    // One frame waits on the plug; it is handed over, the plug goes idle, and the device is
    // asked once more before the task stops, which writes the frame out.
    let mut slot_full = false;
    let mut actions = Vec::new();
    let answers = [
        SendEvent::Start,
        SendEvent::Queued,
        SendEvent::Ready,
        SendEvent::Sent,
        SendEvent::QueueIdle,
        SendEvent::Ready,
    ];
    for event in answers.iter() {
        match event {
            SendEvent::Queued => slot_full = true,
            SendEvent::Sent => slot_full = false,
            _ => {}
        }
        actions.push(tap_send_action(slot_full, *event));
    }
    assert_eq!(
        actions,
        vec![
            SendAction::PollQueue,
            SendAction::PollReady,
            SendAction::Send,
            SendAction::PollQueue,
            SendAction::PollReady,
            SendAction::Stop,
        ]
    );
}

#[test]
fn tun_sender_steps() {
    assert_eq!(tun_send_action(false, SendEvent::Start), SendAction::PollReady);
    assert_eq!(tun_send_action(true, SendEvent::Ready), SendAction::Send);
    assert_eq!(tun_send_action(false, SendEvent::Ready), SendAction::PollQueue);
    assert_eq!(tun_send_action(true, SendEvent::NotReady), SendAction::PollReady);
    assert_eq!(tun_send_action(false, SendEvent::NotReady), SendAction::PollQueue);
    assert_eq!(tun_send_action(false, SendEvent::Sent), SendAction::PollReady);
    assert_eq!(tun_send_action(true, SendEvent::Queued), SendAction::PollReady);
    assert_eq!(tun_send_action(false, SendEvent::QueueIdle), SendAction::Stop);
}

#[test]
fn reads_become_frames() {
    let buffer = [1u8, 2, 3, 4, 5];
    assert!(frame_from_read(&buffer, 0).is_none());
    let frame = frame_from_read(&buffer, 3).unwrap();
    assert_eq!(frame.as_bytes(), &[1, 2, 3]);
}

#[test]
fn reads_become_packets() {
    let buffer = [0x45u8, 0, 0, 0, 9, 9];
    assert!(packet_from_read(&buffer, 0).is_none());
    let packet = packet_from_read(&buffer, 4).unwrap();
    assert_eq!(packet.as_bytes(), &[0x45, 0, 0, 0]);
}
