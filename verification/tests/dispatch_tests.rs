use kurec::error_handling::{ClassifyError, ErrorAction, MirakcEventError};
use kurec::events::{MirakcEventInput, RecordingFailedReason, RecordingStatus, Timestamp};
use kurec::mirakc_dispatch::{
    usecase_route, HandleDecision, MirakcEvent, MirakcEventData, MirakcEventHandler,
    MirakcEventKind, MirakcEventSinks, UseCaseDecision,
};

fn input(event_type: &str) -> MirakcEventInput {
    MirakcEventInput {
        mirakc_url: "http://mirakc:40772".to_string(),
        event_type: event_type.to_string(),
        data: "{}".to_string(),
        received_at: Timestamp { secs: 1700000000, nanos: 5 },
    }
}

fn json_error() -> serde_json::Error {
    serde_json::from_str::<serde_json::Value>("{").unwrap_err()
}

#[test]
fn event_types_name_their_kinds() {
    let kinds = [
        MirakcEventKind::TunerStatusChanged,
        MirakcEventKind::EpgProgramsUpdated,
        MirakcEventKind::RecordingStarted,
        MirakcEventKind::RecordingStopped,
        MirakcEventKind::RecordingFailed,
        MirakcEventKind::RecordingRescheduled,
        MirakcEventKind::RecordingRecordSaved,
        MirakcEventKind::RecordingRecordRemoved,
        MirakcEventKind::RecordingContentRemoved,
        MirakcEventKind::RecordingRecordBroken,
        MirakcEventKind::OnairProgramChanged,
    ];
    for k in kinds {
        assert_eq!(MirakcEventKind::from_event_type(k.event_type()), Some(k));
    }
    assert_eq!(
        MirakcEventKind::from_event_type("epg.programs-updated"),
        Some(MirakcEventKind::EpgProgramsUpdated)
    );
    assert_eq!(MirakcEventKind::from_event_type("unknown.event"), None);
    assert_eq!(MirakcEventKind::from_event_type(""), None);
}

#[test]
fn handler_publishes_to_configured_sink() {
    let mut sinks = MirakcEventSinks::none();
    sinks.epg_programs_updated = true;
    let handler = MirakcEventHandler::new(sinks);
    let decision = handler
        .route(
            input("epg.programs-updated"),
            Some(Ok(MirakcEventData::EpgProgramsUpdated { service_id: 3273701032 })),
        )
        .unwrap();
    match decision {
        HandleDecision::Publish(MirakcEvent::EpgProgramsUpdated(e)) => {
            assert_eq!(e.mirakc_url, "http://mirakc:40772");
            assert_eq!(e.service_id, 3273701032);
            assert_eq!(e.received_at, Timestamp { secs: 1700000000, nanos: 5 });
        }
        _ => panic!("expected a publish of the EPG event"),
    }
}

#[test]
fn handler_skips_kind_without_sink() {
    let handler = MirakcEventHandler::new(MirakcEventSinks::none());
    let decision = handler
        .route(
            input("recording.started"),
            Some(Ok(MirakcEventData::RecordingStarted { program_id: 7 })),
        )
        .unwrap();
    assert!(matches!(
        decision,
        HandleDecision::NoSink(MirakcEventKind::RecordingStarted)
    ));
}

#[test]
fn handler_ignores_unknown_type() {
    let handler = MirakcEventHandler::new(MirakcEventSinks::none());
    let decision = handler.route(input("something.else"), None).unwrap();
    assert!(matches!(decision, HandleDecision::UnknownType));
}

#[test]
fn handler_fails_on_unparsable_data() {
    let handler = MirakcEventHandler::new(MirakcEventSinks::none());
    let r = handler.route(input("recording.failed"), Some(Err(json_error())));
    match r {
        Err(e) => {
            assert!(matches!(e, MirakcEventError::Serialization(_)));
            assert_eq!(e.error_action(), ErrorAction::Ignore);
        }
        Ok(_) => panic!("expected a serialization error"),
    }
}

#[test]
fn handler_builds_failed_and_saved_events() {
    let mut sinks = MirakcEventSinks::none();
    sinks.recording_failed = true;
    sinks.recording_record_saved = true;
    let handler = MirakcEventHandler::new(sinks);
    let failed = handler
        .route(
            input("recording.failed"),
            Some(Ok(MirakcEventData::RecordingFailed {
                program_id: 42,
                reason: RecordingFailedReason::PipelineError { exit_code: 1 },
            })),
        )
        .unwrap();
    match failed {
        HandleDecision::Publish(MirakcEvent::RecordingFailed(e)) => {
            assert_eq!(e.program_id, 42);
            assert!(matches!(
                e.reason,
                RecordingFailedReason::PipelineError { exit_code: 1 }
            ));
        }
        _ => panic!("expected a publish of the failure"),
    }
    let saved = handler
        .route(
            input("recording.record-saved"),
            Some(Ok(MirakcEventData::RecordingRecordSaved {
                record_id: "r1".to_string(),
                recording_status: RecordingStatus::Finished,
            })),
        )
        .unwrap();
    match saved {
        HandleDecision::Publish(MirakcEvent::RecordingRecordSaved(e)) => {
            assert_eq!(e.record_id, "r1");
            assert_eq!(e.recording_status, RecordingStatus::Finished);
        }
        _ => panic!("expected a publish of the saved record"),
    }
}

#[test]
fn handler_publish_result_maps_failure() {
    assert!(matches!(MirakcEventHandler::publish_result(Ok(())), Ok(None)));
    let r = MirakcEventHandler::publish_result(Err(anyhow::Error::msg("down")));
    match r {
        Err(e) => {
            assert!(matches!(e, MirakcEventError::Publish(_)));
            assert_eq!(e.error_action(), ErrorAction::Retry);
        }
        Ok(_) => panic!("expected a publish error"),
    }
}

#[test]
fn usecase_routes_every_kind_and_skips_bad_data() {
    match usecase_route(
        input("tuner.status-changed"),
        Some(Ok(MirakcEventData::TunerStatusChanged { tuner_index: 2 })),
    ) {
        UseCaseDecision::Publish(MirakcEvent::TunerStatusChanged(e)) => {
            assert_eq!(e.tuner_index, 2)
        }
        _ => panic!("expected a publish"),
    }
    assert!(matches!(
        usecase_route(input("onair.program-changed"), Some(Err(json_error()))),
        UseCaseDecision::SkipUnparsable
    ));
    assert!(matches!(
        usecase_route(input("nope"), None),
        UseCaseDecision::IgnoreUnknown
    ));
}
