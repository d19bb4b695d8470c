use instreams::CommandEnum;
use instreams::DestinationEnum;
use instreams::WorkersEnum;

#[test]
fn command_tokens_decode() {
    assert_eq!(CommandEnum::from_str("Stop"), Ok(CommandEnum::Stop));
    assert_eq!(CommandEnum::from_str("Start"), Ok(CommandEnum::Start));
    assert_eq!(CommandEnum::from_str("Restart"), Ok(CommandEnum::Restart));
    assert_eq!(CommandEnum::from_str("Terminate"), Ok(CommandEnum::Terminate));
    assert_eq!(CommandEnum::from_str("UpdateStatus"), Ok(CommandEnum::UpdateStatus));
}

#[test]
fn command_decode_rejects_unknown_tokens() {
    assert_eq!(
        CommandEnum::from_str("stop"),
        Err("Invalid string for Command Enum".to_string())
    );
    assert_eq!(
        CommandEnum::from_str(""),
        Err("Invalid string for Command Enum".to_string())
    );
}

#[test]
fn destination_tokens_decode() {
    assert_eq!(DestinationEnum::from_str("Worker10"), Ok(DestinationEnum::Worker10));
    assert_eq!(DestinationEnum::from_str("Worker25"), Ok(DestinationEnum::Worker25));
    assert_eq!(DestinationEnum::from_str("Worker50"), Ok(DestinationEnum::Worker50));
    assert_eq!(DestinationEnum::from_str("Worker100"), Ok(DestinationEnum::Worker100));
    assert_eq!(DestinationEnum::from_str("Worker250"), Ok(DestinationEnum::Worker250));
}

#[test]
fn destination_decode_rejects_unknown_tokens() {
    assert_eq!(
        DestinationEnum::from_str("Worker11"),
        Err("Invalid string for Destination Enum".to_string())
    );
    assert_eq!(
        DestinationEnum::from_str("worker10"),
        Err("Invalid string for Destination Enum".to_string())
    );
}

#[test]
fn worker_tokens_decode() {
    assert_eq!(WorkersEnum::from_str("StartWorker10ms"), Ok(WorkersEnum::StartWorker10ms));
    assert_eq!(WorkersEnum::from_str("StartWorker25ms"), Ok(WorkersEnum::StartWorker25ms));
    assert_eq!(WorkersEnum::from_str("StartWorker50ms"), Ok(WorkersEnum::StartWorker50ms));
    assert_eq!(WorkersEnum::from_str("StartWorker100ms"), Ok(WorkersEnum::StartWorker100ms));
    assert_eq!(WorkersEnum::from_str("StartWorker250ms"), Ok(WorkersEnum::StartWorker250ms));
    assert_eq!(WorkersEnum::from_str("StopWorker10ms"), Ok(WorkersEnum::StopWorker10ms));
    assert_eq!(WorkersEnum::from_str("StopWorker25ms"), Ok(WorkersEnum::StopWorker25ms));
    assert_eq!(WorkersEnum::from_str("StopWorker50ms"), Ok(WorkersEnum::StopWorker50ms));
    assert_eq!(WorkersEnum::from_str("StopWorker100ms"), Ok(WorkersEnum::StopWorker100ms));
    assert_eq!(WorkersEnum::from_str("StopWorker250ms"), Ok(WorkersEnum::StopWorker250ms));
}

#[test]
fn worker_decode_rejects_unknown_tokens() {
    assert_eq!(
        WorkersEnum::from_str("StartWorker15ms"),
        Err("Invalid string for WorkersEnum".to_string())
    );
    assert_eq!(
        WorkersEnum::from_str("StartWorker10"),
        Err("Invalid string for WorkersEnum".to_string())
    );
}

#[test]
fn worker_text_round_trips_through_decode() {
    let all = [
        WorkersEnum::StartWorker10ms,
        WorkersEnum::StartWorker25ms,
        WorkersEnum::StartWorker50ms,
        WorkersEnum::StartWorker100ms,
        WorkersEnum::StartWorker250ms,
        WorkersEnum::StopWorker10ms,
        WorkersEnum::StopWorker25ms,
        WorkersEnum::StopWorker50ms,
        WorkersEnum::StopWorker100ms,
        WorkersEnum::StopWorker250ms,
    ];
    for w in all {
        assert_eq!(WorkersEnum::from_str(&w.text()), Ok(w));
    }
    assert_eq!(WorkersEnum::StartWorker10ms.text(), "StartWorker10ms");
    assert_eq!(WorkersEnum::StopWorker250ms.text(), "StopWorker250ms");
}

#[test]
fn worker_targets_and_actions() {
    assert!(WorkersEnum::StartWorker10ms.is_start());
    assert!(!WorkersEnum::StopWorker10ms.is_start());
    assert_eq!(WorkersEnum::StartWorker10ms.target(), DestinationEnum::Worker10);
    assert_eq!(WorkersEnum::StopWorker10ms.target(), DestinationEnum::Worker10);
    assert_eq!(WorkersEnum::StartWorker250ms.target(), DestinationEnum::Worker250);
    assert_eq!(WorkersEnum::StopWorker100ms.target(), DestinationEnum::Worker100);
}

#[test]
fn lane_intervals_are_fixed() {
    assert_eq!(DestinationEnum::Worker10.interval_ms(), 10);
    assert_eq!(DestinationEnum::Worker25.interval_ms(), 25);
    assert_eq!(DestinationEnum::Worker50.interval_ms(), 50);
    assert_eq!(DestinationEnum::Worker100.interval_ms(), 100);
    assert_eq!(DestinationEnum::Worker250.interval_ms(), 250);
}

#[test]
fn command_ack_lines() {
    assert_eq!(CommandEnum::Stop.ack_text(), "... stopping.");
    assert_eq!(CommandEnum::Start.ack_text(), "... starting.");
    assert_eq!(CommandEnum::Restart.ack_text(), "... re-starting.");
    assert_eq!(CommandEnum::Terminate.ack_text(), "... terminating.");
    assert_eq!(CommandEnum::UpdateStatus.ack_text(), "... updating status.");
}
