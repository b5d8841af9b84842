use kurec::error_handling::{EpgUpdateError, ErrorAction};
use kurec::events::EpgStoredEvent;
use kurec::worker::{
    after_resubscribe, builder_loop_action, command_loop_action, durable_name_for,
    event_to_publish, relay_loop_action, should_ack, HandlingOutcome, LoopAction, LoopSignal,
};

#[test]
fn command_loop_reacts_to_each_signal() {
    assert_eq!(command_loop_action(LoopSignal::ShutdownRequested), LoopAction::Stop);
    assert_eq!(command_loop_action(LoopSignal::EventReceived), LoopAction::HandleEvent);
    assert_eq!(command_loop_action(LoopSignal::ReceiveFailed), LoopAction::Continue);
    assert_eq!(command_loop_action(LoopSignal::StreamEnded), LoopAction::Resubscribe);
    assert_eq!(after_resubscribe(true), LoopAction::Continue);
    assert_eq!(after_resubscribe(false), LoopAction::Stop);
}

#[test]
fn builder_loop_stops_at_stream_end() {
    assert_eq!(builder_loop_action(LoopSignal::ShutdownRequested), LoopAction::Stop);
    assert_eq!(builder_loop_action(LoopSignal::EventReceived), LoopAction::HandleEvent);
    assert_eq!(builder_loop_action(LoopSignal::ReceiveFailed), LoopAction::Continue);
    assert_eq!(builder_loop_action(LoopSignal::StreamEnded), LoopAction::Stop);
}

#[test]
fn messages_are_acked_unless_retried() {
    assert!(should_ack(HandlingOutcome::Succeeded));
    assert!(should_ack(HandlingOutcome::FailedClassified(ErrorAction::Ignore)));
    assert!(!should_ack(HandlingOutcome::FailedClassified(ErrorAction::Retry)));
    assert!(!should_ack(HandlingOutcome::FailedUnclassified));
}

#[test]
fn only_successful_output_is_published() {
    let e = EpgStoredEvent { mirakc_url: "u".to_string(), service_id: 1 };
    let published = event_to_publish(Ok(Some(e))).unwrap();
    assert_eq!(published.mirakc_url, "u");
    assert_eq!(published.service_id, 1);
    assert!(event_to_publish(Ok(None)).is_none());
    assert!(event_to_publish(Err(EpgUpdateError::Repository(anyhow::Error::msg("x")))).is_none());
}

#[test]
fn durable_names_use_last_path_segment() {
    assert_eq!(durable_name_for("domain::events::EpgStoredEvent"), "worker_EpgStoredEvent");
    assert_eq!(durable_name_for("TestEvent"), "worker_TestEvent");
    assert_eq!(durable_name_for("a::"), "worker_");
    assert_eq!(durable_name_for(""), "worker_");
    // Separators are cut from the left, as `split("::")` does.
    assert_eq!(durable_name_for("a:::b"), "worker_:b");
    assert_eq!(
        durable_name_for("x::y:z"),
        format!("worker_{}", "x::y:z".split("::").last().unwrap())
    );
}

#[test]
fn relay_loop_stops_on_shutdown_or_stream_end() {
    assert_eq!(relay_loop_action(LoopSignal::ShutdownRequested), LoopAction::Stop);
    assert_eq!(relay_loop_action(LoopSignal::EventReceived), LoopAction::HandleEvent);
    assert_eq!(relay_loop_action(LoopSignal::ReceiveFailed), LoopAction::Continue);
    assert_eq!(relay_loop_action(LoopSignal::StreamEnded), LoopAction::Stop);
}
