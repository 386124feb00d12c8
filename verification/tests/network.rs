use netsim::network::{task_step, TaskStep};
use netsim::Network;

#[test]
fn dropping_network_tells_handles_to_stop() {
    let network = Network::new();
    let handle = network.handle();
    let other = handle.clone();
    assert!(!handle.exit_requested());
    drop(network);
    assert!(handle.exit_requested());
    assert!(other.exit_requested());
}

#[test]
fn spawned_task_steps() {
    assert_eq!(task_step(false, None), TaskStep::Poll);
    assert_eq!(task_step(true, None), TaskStep::Stop);
    assert_eq!(task_step(false, Some(true)), TaskStep::Wait);
    assert_eq!(task_step(true, Some(true)), TaskStep::Wait);
    assert_eq!(task_step(false, Some(false)), TaskStep::Poll);
    assert_eq!(task_step(true, Some(false)), TaskStep::Stop);
}
