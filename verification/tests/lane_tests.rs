use instreams::CommandEnum;
use instreams::LoopAction;
use instreams::StartOutcome;
use instreams::StopOutcome;
use instreams::WorkerLane;

#[test]
fn start_on_stopped_lane_starts_it_once() {
    let mut lane = WorkerLane::new(10);
    assert!(!lane.running);
    assert_eq!(lane.start(), StartOutcome::Started);
    assert!(lane.running);
    assert_eq!(lane.start(), StartOutcome::AlreadyRunning);
    assert!(lane.running);
    assert_eq!(lane.start(), StartOutcome::AlreadyRunning);
}

#[test]
fn stop_on_stopped_lane_is_a_reported_noop() {
    let mut lane = WorkerLane::new(25);
    assert_eq!(lane.stop_request(), StopOutcome::NotRunning);
    assert!(!lane.running);
    assert_eq!(lane.mailbox.queue.len(), 0);
}

#[test]
fn stop_on_running_lane_posts_stop_and_loop_exits() {
    let mut lane = WorkerLane::new(50);
    assert_eq!(lane.start(), StartOutcome::Started);
    assert_eq!(lane.stop_request(), StopOutcome::StopPosted);
    assert!(lane.running);
    assert_eq!(lane.loop_step(), LoopAction::Exited);
    assert!(!lane.running);
    assert_eq!(lane.mailbox.queue.len(), 0);
    assert_eq!(lane.stop_request(), StopOutcome::NotRunning);
}

#[test]
fn loop_dozes_on_empty_mailbox() {
    let mut lane = WorkerLane::new(100);
    lane.start();
    assert_eq!(lane.loop_step(), LoopAction::Doze);
    assert!(lane.running);
    assert_eq!(lane.loop_step(), LoopAction::Doze);
    assert!(lane.running);
}

#[test]
fn commands_are_observed_in_send_order() {
    let mut lane = WorkerLane::new(10);
    lane.start();
    assert_eq!(lane.post(CommandEnum::UpdateStatus), Ok(()));
    assert_eq!(lane.post(CommandEnum::Restart), Ok(()));
    assert_eq!(lane.post(CommandEnum::Terminate), Ok(()));
    assert_eq!(lane.loop_step(), LoopAction::Acknowledged(CommandEnum::UpdateStatus));
    assert_eq!(lane.loop_step(), LoopAction::Acknowledged(CommandEnum::Restart));
    assert_eq!(lane.loop_step(), LoopAction::Acknowledged(CommandEnum::Terminate));
    assert_eq!(lane.loop_step(), LoopAction::Doze);
    assert!(lane.running);
}

#[test]
fn non_stop_commands_keep_the_loop_running() {
    let mut lane = WorkerLane::new(10);
    lane.start();
    assert_eq!(lane.post(CommandEnum::Start), Ok(()));
    assert_eq!(lane.post(CommandEnum::UpdateStatus), Ok(()));
    assert_eq!(lane.loop_step(), LoopAction::Acknowledged(CommandEnum::Start));
    assert!(lane.running);
    assert_eq!(lane.loop_step(), LoopAction::Acknowledged(CommandEnum::UpdateStatus));
    assert!(lane.running);
}

#[test]
fn stop_is_observed_after_earlier_commands() {
    let mut lane = WorkerLane::new(10);
    lane.start();
    assert_eq!(lane.post(CommandEnum::UpdateStatus), Ok(()));
    assert_eq!(lane.stop_request(), StopOutcome::StopPosted);
    assert_eq!(lane.loop_step(), LoopAction::Acknowledged(CommandEnum::UpdateStatus));
    assert!(lane.running);
    assert_eq!(lane.loop_step(), LoopAction::Exited);
    assert!(!lane.running);
}

#[test]
fn send_to_stopped_lane_fails_and_changes_nothing() {
    let mut lane = WorkerLane::new(250);
    assert!(lane.post(CommandEnum::UpdateStatus).is_err());
    assert!(!lane.running);
    assert_eq!(lane.mailbox.queue.len(), 0);
}

#[test]
fn commands_pending_at_exit_are_discarded() {
    let mut lane = WorkerLane::new(10);
    lane.start();
    assert_eq!(lane.stop_request(), StopOutcome::StopPosted);
    assert_eq!(lane.post(CommandEnum::UpdateStatus), Ok(()));
    assert_eq!(lane.loop_step(), LoopAction::Exited);
    assert_eq!(lane.mailbox.queue.len(), 0);
    assert!(lane.post(CommandEnum::UpdateStatus).is_err());
}

#[test]
fn lane_is_restartable_after_exit() {
    let mut lane = WorkerLane::new(10);
    assert_eq!(lane.start(), StartOutcome::Started);
    lane.stop_request();
    assert_eq!(lane.loop_step(), LoopAction::Exited);
    assert_eq!(lane.start(), StartOutcome::Started);
    assert!(lane.running);
    assert_eq!(lane.loop_step(), LoopAction::Doze);
}
