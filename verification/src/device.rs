//! Decisions of the tasks that connect a machine's TAP or TUN device to its plug.
//!
//! Each poll of such a task (1) moves every frame the device has ready onto the plug, (2) moves
//! frames waiting on the plug into the device, one at a time through a one-frame slot, and
//! (3) checks whether the machine's function has returned: once it has, the task keeps running
//! for a grace period, restarted by every poll in which the device produced frames, and then ends.

use crate::wire::{is_ip_packet_bytes, EtherFrame, IpPacket};
use vstd::prelude::*;

verus! {

/// Where a device task is in its lifecycle.
#[derive(Clone, Copy, Debug, PartialEq, Eq, Structural)]
pub enum TaskPhase {
    /// The machine's function is still running.
    Receiving,
    /// The machine's function has returned; the task ends when its grace timer fires.
    Dying,
}

/// What a device task does with its grace timer in one poll.
#[derive(Clone, Copy, Debug, PartialEq, Eq, Structural)]
pub struct TimerPlan {
    /// The phase the task is in once this poll's decision is made.
    pub phase: TaskPhase,
    /// Start a fresh grace timer.
    pub start_timer: bool,
    /// Restart the grace timer, because the device produced frames in this poll.
    pub restart_timer: bool,
    /// Poll the grace timer; the task ends if it has fired.
    pub poll_timer: bool,
}

/// The plan of a poll in phase `phase`, where `exit_requested` is what the machine's exit flag
/// read (it is read in the receiving phase only) and `received_frames` says whether the device
/// produced frames in this poll.
pub open spec fn lifecycle_plan(phase: TaskPhase, exit_requested: bool, received_frames: bool) -> TimerPlan {
    match phase {
        TaskPhase::Receiving => if exit_requested {
            TimerPlan {
                phase: TaskPhase::Dying,
                start_timer: true,
                restart_timer: received_frames,
                poll_timer: true,
            }
        } else {
            TimerPlan {
                phase: TaskPhase::Receiving,
                start_timer: false,
                restart_timer: false,
                poll_timer: false,
            }
        },
        TaskPhase::Dying => TimerPlan {
            phase: TaskPhase::Dying,
            start_timer: false,
            restart_timer: received_frames,
            poll_timer: true,
        },
    }
}

/// Decides what a device task does with its grace timer in this poll.
pub fn plan_lifecycle(phase: TaskPhase, exit_requested: bool, received_frames: bool) -> (r:
    TimerPlan)
    ensures
        r == lifecycle_plan(phase, exit_requested, received_frames),
{
    match phase {
        TaskPhase::Receiving => {
            if exit_requested {
                TimerPlan {
                    phase: TaskPhase::Dying,
                    start_timer: true,
                    restart_timer: received_frames,
                    poll_timer: true,
                }
            } else {
                TimerPlan {
                    phase: TaskPhase::Receiving,
                    start_timer: false,
                    restart_timer: false,
                    poll_timer: false,
                }
            }
        },
        TaskPhase::Dying => TimerPlan {
            phase: TaskPhase::Dying,
            start_timer: false,
            restart_timer: received_frames,
            poll_timer: true,
        },
    }
}

/// Whether the task ends in this poll: only when the plan polls the timer and it has fired.
pub fn task_finished(plan: TimerPlan, timer_fired: bool) -> (r: bool)
    ensures
        r == (plan.poll_timer && timer_fired),
{
    plan.poll_timer && timer_fired
}

/// One poll as observed by a device task: the exit flag as read, whether the device produced
/// frames, and whether the grace timer fired when polled.
pub struct PollObservation {
    pub exit_requested: bool,
    pub received_frames: bool,
    pub timer_fired: bool,
}

/// The phase after the polls `polls`, starting in `phase`.
pub open spec fn phase_after(phase: TaskPhase, polls: Seq<PollObservation>) -> TaskPhase
    decreases polls.len(),
{
    if polls.len() == 0 {
        phase
    } else {
        let p = polls[0];
        phase_after(
            lifecycle_plan(phase, p.exit_requested, p.received_frames).phase,
            polls.drop_first(),
        )
    }
}

/// Whether some poll in `polls`, starting in `phase`, ends the task.
pub open spec fn finishes_within(phase: TaskPhase, polls: Seq<PollObservation>) -> bool
    decreases polls.len(),
{
    if polls.len() == 0 {
        false
    } else {
        let p = polls[0];
        let plan = lifecycle_plan(phase, p.exit_requested, p.received_frames);
        (plan.poll_timer && p.timer_fired) || finishes_within(plan.phase, polls.drop_first())
    }
}

/// A device task never ends while the machine's function runs: if no poll reads the exit flag
/// as set, a task that starts receiving is still receiving, and no poll ends it.
pub proof fn lemma_no_exit_no_end(polls: Seq<PollObservation>)
    requires
        forall|i: int| 0 <= i < polls.len() ==> !(#[trigger] polls[i]).exit_requested,
    ensures
        phase_after(TaskPhase::Receiving, polls) == TaskPhase::Receiving,
        !finishes_within(TaskPhase::Receiving, polls),
    decreases polls.len(),
{
    if polls.len() > 0 {
        let rest = polls.drop_first();
        assert forall|i: int| 0 <= i < rest.len() implies !(#[trigger] rest[i]).exit_requested by {
            assert(rest[i] == polls[i + 1]);
        }
        assert(!polls[0].exit_requested);
        lemma_no_exit_no_end(rest);
    }
}

/// Once the exit flag has been read as set, the task stays dying and restarts its grace timer in
/// every poll in which the device produced frames.
pub proof fn lemma_dying_is_final(polls: Seq<PollObservation>)
    ensures
        phase_after(TaskPhase::Dying, polls) == TaskPhase::Dying,
        forall|e: bool, r: bool| (#[trigger] lifecycle_plan(TaskPhase::Dying, e, r)).restart_timer == r,
    decreases polls.len(),
{
    if polls.len() > 0 {
        lemma_dying_is_final(polls.drop_first());
    }
}

/// How many polls in `polls`, starting in `phase`, start a fresh grace timer.
pub open spec fn timers_started(phase: TaskPhase, polls: Seq<PollObservation>) -> nat
    decreases polls.len(),
{
    if polls.len() == 0 {
        0
    } else {
        let p = polls[0];
        let plan = lifecycle_plan(phase, p.exit_requested, p.received_frames);
        (if plan.start_timer { 1nat } else { 0nat }) + timers_started(plan.phase, polls.drop_first())
    }
}

/// A poll starts a fresh grace timer exactly when it moves the task from receiving to dying:
/// never while the task receives without the exit flag set, and never once it is dying. A dying
/// task polls its timer in every poll, so it ends in the first poll in which the timer has fired.
pub proof fn lemma_timer_started_on_exit_only(phase: TaskPhase, exit_requested: bool, received_frames: bool)
    ensures
        lifecycle_plan(phase, exit_requested, received_frames).start_timer <==> (phase
            == TaskPhase::Receiving && lifecycle_plan(phase, exit_requested, received_frames).phase
            == TaskPhase::Dying),
        phase == TaskPhase::Dying ==> !lifecycle_plan(phase, exit_requested, received_frames).start_timer,
        phase == TaskPhase::Dying ==> lifecycle_plan(phase, exit_requested, received_frames).poll_timer,
{
}

/// Over any run of polls, a task that starts receiving starts at most one grace timer, and it
/// starts one exactly when some poll reads the exit flag as set. A dying task starts none, and
/// ends in the first poll whose timer has fired.
pub proof fn lemma_one_grace_timer(polls: Seq<PollObservation>)
    ensures
        timers_started(TaskPhase::Dying, polls) == 0,
        timers_started(TaskPhase::Receiving, polls) <= 1,
        timers_started(TaskPhase::Receiving, polls) == 1 <==> exists|i: int|
            0 <= i < polls.len() && (#[trigger] polls[i]).exit_requested,
        polls.len() > 0 && polls[0].timer_fired ==> finishes_within(TaskPhase::Dying, polls),
    decreases polls.len(),
{
    if polls.len() > 0 {
        let rest = polls.drop_first();
        lemma_one_grace_timer(rest);
        let p = polls[0];
        if p.exit_requested {
            assert(timers_started(TaskPhase::Receiving, polls) == 1 + timers_started(TaskPhase::Dying, rest));
        } else {
            assert(timers_started(TaskPhase::Receiving, polls) == timers_started(TaskPhase::Receiving, rest));
            if timers_started(TaskPhase::Receiving, polls) == 1 {
                let i = choose|i: int| 0 <= i < rest.len() && (#[trigger] rest[i]).exit_requested;
                assert(polls[i + 1] == rest[i]);
            }
            if exists|i: int| 0 <= i < polls.len() && (#[trigger] polls[i]).exit_requested {
                let i = choose|i: int| 0 <= i < polls.len() && (#[trigger] polls[i]).exit_requested;
                assert(i > 0);
                assert(rest[i - 1] == polls[i]);
            }
        }
    }
}

/// What the sending half of a device task does next.
#[derive(Clone, Copy, Debug, PartialEq, Eq, Structural)]
pub enum SendAction {
    /// Ask the device whether it can take a frame.
    PollReady,
    /// Hand the frame in the slot to the device.
    Send,
    /// Take the next frame waiting on the plug into the slot.
    PollQueue,
    /// Stop sending for this poll.
    Stop,
}

/// What the sending half of a device task last observed.
#[derive(Clone, Copy, Debug, PartialEq, Eq, Structural)]
pub enum SendEvent {
    /// Nothing yet in this poll.
    Start,
    /// The device can take a frame.
    Ready,
    /// The device cannot take a frame yet.
    NotReady,
    /// The frame in the slot was handed to the device; the slot is empty.
    Sent,
    /// A frame from the plug was put into the slot.
    Queued,
    /// No frame is waiting on the plug.
    QueueIdle,
    /// The plug's other end is gone.
    QueueClosed,
}

/// The events a TAP task can observe with its slot full or empty.
pub open spec fn tap_send_consistent(slot_full: bool, last: SendEvent) -> bool {
    match last {
        SendEvent::Start | SendEvent::Ready | SendEvent::NotReady => true,
        SendEvent::Queued => slot_full,
        SendEvent::Sent | SendEvent::QueueIdle | SendEvent::QueueClosed => !slot_full,
    }
}

/// The TAP task's next sending step: it hands the slot's frame to the device when the device is
/// ready, then refills the slot from the plug. Once the plug has nothing more, it asks the device
/// once more, which flushes what the device still holds of frames handed over before, and stops
/// after that answer, or as soon as the device is not ready for a frame in the slot.
pub open spec fn tap_send_step(slot_full: bool, last: SendEvent) -> SendAction {
    match last {
        SendEvent::Start => if slot_full {
            SendAction::PollReady
        } else {
            SendAction::PollQueue
        },
        SendEvent::Ready => if slot_full {
            SendAction::Send
        } else {
            SendAction::Stop
        },
        SendEvent::NotReady => SendAction::Stop,
        SendEvent::Sent => SendAction::PollQueue,
        SendEvent::Queued => SendAction::PollReady,
        SendEvent::QueueIdle | SendEvent::QueueClosed => SendAction::PollReady,
    }
}

/// Decides the TAP task's next sending step.
pub fn tap_send_action(slot_full: bool, last: SendEvent) -> (r: SendAction)
    requires
        tap_send_consistent(slot_full, last),
    ensures
        r == tap_send_step(slot_full, last),
        r is Send ==> slot_full && last is Ready,
        r is Stop ==> last is Ready || last is NotReady,
{
    match last {
        SendEvent::Start => {
            if slot_full {
                SendAction::PollReady
            } else {
                SendAction::PollQueue
            }
        },
        SendEvent::Ready => {
            if slot_full {
                SendAction::Send
            } else {
                SendAction::Stop
            }
        },
        SendEvent::NotReady => SendAction::Stop,
        SendEvent::Sent => SendAction::PollQueue,
        SendEvent::Queued => SendAction::PollReady,
        SendEvent::QueueIdle => SendAction::PollReady,
        SendEvent::QueueClosed => SendAction::PollReady,
    }
}

/// Whether `reply` is an answer the device or the plug can give to `action`.
pub open spec fn replies_to(action: SendAction, reply: SendEvent) -> bool {
    match action {
        SendAction::PollReady => reply is Ready || reply is NotReady,
        SendAction::PollQueue => reply is Queued || reply is QueueIdle || reply is QueueClosed,
        SendAction::Send => reply is Sent,
        SendAction::Stop => false,
    }
}

/// The TAP task's sending steps from event `last` with the slot full or empty, when the device
/// and the plug give the answers `replies` in turn, one per step that asks them. The run ends at
/// `Stop`, when the replies run out, or at a reply that does not answer the step.
pub open spec fn tap_run(slot_full: bool, last: SendEvent, replies: Seq<SendEvent>) -> Seq<SendAction>
    decreases replies.len(),
{
    let action = tap_send_step(slot_full, last);
    if replies.len() == 0 || !replies_to(action, replies[0]) {
        seq![action]
    } else {
        let next = replies[0];
        let full = match next {
            SendEvent::Queued => true,
            SendEvent::Sent => false,
            _ => slot_full,
        };
        seq![action] + tap_run(full, next, replies.drop_first())
    }
}

/// Every `Stop` in `run` comes straight after a step that asked the device.
pub open spec fn stops_after_device_poll(run: Seq<SendAction>) -> bool {
    forall|i: int, j: int|
        0 <= i && j == i + 1 && j < run.len() && (#[trigger] run[j]) is Stop ==> (#[trigger] run[i]) is PollReady
}

/// Each TAP run starts with the step for `last` and stops only straight after asking the device.
proof fn lemma_tap_run_stops(slot_full: bool, last: SendEvent, replies: Seq<SendEvent>)
    requires
        tap_send_consistent(slot_full, last),
    ensures
        tap_run(slot_full, last, replies).len() >= 1,
        tap_run(slot_full, last, replies)[0] == tap_send_step(slot_full, last),
        stops_after_device_poll(tap_run(slot_full, last, replies)),
    decreases replies.len(),
{
    let action = tap_send_step(slot_full, last);
    let run = tap_run(slot_full, last, replies);
    if replies.len() == 0 || !replies_to(action, replies[0]) {
        assert(run =~= seq![action]);
    } else {
        let next = replies[0];
        let full = match next {
            SendEvent::Queued => true,
            SendEvent::Sent => false,
            _ => slot_full,
        };
        assert(tap_send_consistent(full, next));
        let rest = tap_run(full, next, replies.drop_first());
        assert(run == seq![action] + rest);
        lemma_tap_run_stops(full, next, replies.drop_first());
        assert forall|i: int, j: int|
            0 <= i && j == i + 1 && j < run.len() && (#[trigger] run[j]) is Stop implies (#[trigger] run[i]) is PollReady by {
            assert(run[j] == rest[j - 1]);
            if i > 0 {
                assert(run[i] == rest[i - 1]);
            }
        }
    }
}

/// Every `Send` in `run` is followed by a step that asks the device before the last step.
pub open spec fn sends_flushed(run: Seq<SendAction>) -> bool {
    forall|i: int|
        0 <= i < run.len() && (#[trigger] run[i]) is Send ==> exists|j: int|
            i < j < run.len() - 1 && (#[trigger] run[j]) is PollReady
}

/// A run that stops only straight after asking the device, and ends stopped, has asked the device
/// after each frame it handed over.
proof fn lemma_stopped_run_flushes(run: Seq<SendAction>)
    requires
        stops_after_device_poll(run),
        run.len() >= 1,
        run.last() is Stop,
    ensures
        sends_flushed(run),
{
    let n = run.len() - 1;
    assert forall|i: int| 0 <= i < run.len() && (#[trigger] run[i]) is Send implies exists|j: int|
        i < j < run.len() - 1 && (#[trigger] run[j]) is PollReady by {
        assert(run[n] is Stop);
        assert(n >= 1);
        assert(run[n - 1] is PollReady);
    }
}

/// Every frame the TAP task hands to the device is flushed before the task stops sending: in
/// every run, each `Stop` directly follows a step that asks the device, so after a `Send` the
/// device is asked at least once more before the run ends at `Stop`.
pub proof fn lemma_tap_flushes_after_send(slot_full: bool, last: SendEvent, replies: Seq<SendEvent>)
    requires
        tap_send_consistent(slot_full, last),
    ensures
        stops_after_device_poll(tap_run(slot_full, last, replies)),
        tap_run(slot_full, last, replies).last() is Stop ==> sends_flushed(
            tap_run(slot_full, last, replies),
        ),
{
    lemma_tap_run_stops(slot_full, last, replies);
    let run = tap_run(slot_full, last, replies);
    if run.last() is Stop {
        lemma_stopped_run_flushes(run);
    }
}

/// The events a TUN task can observe with its slot full or empty. The plug of a TUN task never
/// closes while the task runs.
pub open spec fn tun_send_consistent(slot_full: bool, last: SendEvent) -> bool {
    match last {
        SendEvent::Start | SendEvent::Ready | SendEvent::NotReady => true,
        SendEvent::Queued => slot_full,
        SendEvent::Sent | SendEvent::QueueIdle => !slot_full,
        SendEvent::QueueClosed => false,
    }
}

/// The TUN task's next sending step: it asks the device first, hands over the slot's frame when
/// the device is ready, and asks the plug for a frame whenever the slot is empty; while the slot
/// is full and the device not ready it keeps asking the device.
pub open spec fn tun_send_step(slot_full: bool, last: SendEvent) -> SendAction {
    match last {
        SendEvent::Start => SendAction::PollReady,
        SendEvent::Ready => if slot_full {
            SendAction::Send
        } else {
            SendAction::PollQueue
        },
        SendEvent::NotReady => if slot_full {
            SendAction::PollReady
        } else {
            SendAction::PollQueue
        },
        SendEvent::Sent => SendAction::PollReady,
        SendEvent::Queued => SendAction::PollReady,
        _ => SendAction::Stop,
    }
}

/// Decides the TUN task's next sending step.
pub fn tun_send_action(slot_full: bool, last: SendEvent) -> (r: SendAction)
    requires
        tun_send_consistent(slot_full, last),
    ensures
        r == tun_send_step(slot_full, last),
        r is Send ==> slot_full && last is Ready,
{
    match last {
        SendEvent::Start => SendAction::PollReady,
        SendEvent::Ready => {
            if slot_full {
                SendAction::Send
            } else {
                SendAction::PollQueue
            }
        },
        SendEvent::NotReady => {
            if slot_full {
                SendAction::PollReady
            } else {
                SendAction::PollQueue
            }
        },
        SendEvent::Sent => SendAction::PollReady,
        SendEvent::Queued => SendAction::PollReady,
        SendEvent::QueueIdle => SendAction::Stop,
        SendEvent::QueueClosed => SendAction::Stop,
    }
}

/// The frame that a read of `n` bytes from a TAP device into `buffer` yields; a read of zero
/// bytes means the device is gone.
pub fn frame_from_read(buffer: &[u8], n: usize) -> (r: Option<EtherFrame>)
    requires
        n <= buffer@.len(),
    ensures
        n == 0 <==> r is None,
        r matches Some(frame) ==> frame@ == buffer@.take(n as int),
{
    if n == 0 {
        None
    } else {
        let bytes = vstd::slice::slice_to_vec(&buffer[0..n]);
        Some(EtherFrame::from_bytes(bytes))
    }
}

/// The packet that a read of `n` bytes from a TUN device into `buffer` yields; a read of zero
/// bytes means the device is gone.
pub fn packet_from_read(buffer: &[u8], n: usize) -> (r: Option<IpPacket>)
    requires
        n <= buffer@.len(),
        n > 0 ==> is_ip_packet_bytes(buffer@.take(n as int)),
    ensures
        n == 0 <==> r is None,
        r matches Some(packet) ==> packet@ == buffer@.take(n as int),
{
    if n == 0 {
        None
    } else {
        let bytes = vstd::slice::slice_to_vec(&buffer[0..n]);
        Some(IpPacket::from_bytes(bytes))
    }
}

} // verus!
