use kurec::epg_process::{process_epg_event, EpgUpdateEvent, RecordingScheduleEvent};
use kurec::error_handling::{
    ClassifyError, EpgProcessError, EpgUpdateError, EpgUpdaterError, ErrorAction,
};
use kurec::events::{EpgProgramsUpdatedEvent, EpgStoredEvent, Timestamp};
use kurec::mirakc_dispatch::MirakcEventKind;
use kurec::handlers::{process_epg_programs_updated_event, EpgUpdateHandler, StreamHandler};
use kurec::records::{check_record_stream_status, record_object_name, record_stream_url};
use kurec::streams::{
    event_stream_name, kurec_event_stream, mirakc_event_stream, nats_url_or_default, AppConfig,
    DiscardKind, RetentionKind, StorageKind,
};
use kurec::text::{decimal_string, signed_decimal_string, str_contains, str_eq};
use kurec::usecases::EventsDomain;

fn epg_event(title: &str, start: i64, end: i64) -> EpgUpdateEvent {
    EpgUpdateEvent {
        program_id: "p1".to_string(),
        title: title.to_string(),
        description: "d".to_string(),
        start_time: start,
        end_time: end,
        channel: "27".to_string(),
    }
}

#[test]
fn valid_epg_event_is_scheduled() {
    let s = process_epg_event(epg_event("News", 100, 200)).unwrap();
    assert_eq!(s.program_id, "p1");
    assert_eq!(s.title, "News");
    assert_eq!(s.start_time, 100);
    assert_eq!(s.end_time, 200);
    assert_eq!(s.channel, "27");
}

#[test]
fn invalid_epg_events_are_rejected() {
    match process_epg_event(epg_event("News", 200, 100)) {
        Err(EpgProcessError::InvalidProgram(m)) => assert_eq!(m, "Invalid time range: 200 - 100"),
        _ => panic!("expected an invalid time range"),
    }
    match process_epg_event(epg_event("News", -5, -5)) {
        Err(EpgProcessError::InvalidProgram(m)) => assert_eq!(m, "Invalid time range: -5 - -5"),
        _ => panic!("expected an invalid time range"),
    }
    match process_epg_event(epg_event("", 1, 2)) {
        Err(e) => {
            assert!(matches!(&e, EpgProcessError::InvalidProgram(m) if m == "Empty title"));
            assert_eq!(e.error_action(), ErrorAction::Ignore);
            assert_eq!(e.message(), "Invalid program: Empty title");
        }
        Ok(_) => panic!("expected an empty title"),
    }
}

#[test]
fn error_actions_follow_their_kind() {
    assert_eq!(EpgUpdaterError::MirakcApiError("x".into()).error_action(), ErrorAction::Retry);
    assert_eq!(EpgUpdaterError::KvsStorageError("x".into()).error_action(), ErrorAction::Retry);
    assert_eq!(EpgUpdaterError::NotificationError("x".into()).error_action(), ErrorAction::Retry);
    assert_eq!(EpgUpdaterError::InvalidProgramData("x".into()).error_action(), ErrorAction::Ignore);
    assert_eq!(EpgProcessError::ProcessingError("x".into()).error_action(), ErrorAction::Retry);
    assert_eq!(EpgProcessError::ProcessingError("x".into()).message(), "Processing error: x");
    assert_eq!(EpgUpdaterError::KvsStorageError("y".into()).message(), "KVS storage error: y");
    let json_error = serde_json::from_str::<serde_json::Value>("[").unwrap_err();
    assert_eq!(EpgUpdateError::Serialization(json_error).error_action(), ErrorAction::Ignore);
    assert_eq!(EpgUpdateError::SinkError(anyhow::Error::msg("s")).error_action(), ErrorAction::Ignore);
    assert_eq!(EpgUpdateError::Repository(anyhow::Error::msg("r")).error_action(), ErrorAction::Retry);
    assert_eq!(EpgUpdateError::MirakcClient(anyhow::Error::msg("m")).error_action(), ErrorAction::Retry);
}

#[test]
fn epg_update_handler_emits_nothing() {
    let handler = EpgUpdateHandler::default();
    let event = EpgProgramsUpdatedEvent {
        mirakc_url: "u".to_string(),
        service_id: 1,
        received_at: Timestamp { secs: 0, nanos: 0 },
    };
    assert!(matches!(handler.handle(event), Ok(None)));
    let _ = EpgUpdateHandler::new();
}

#[test]
fn stand_in_worker_reports_injection() {
    let event = EpgProgramsUpdatedEvent {
        mirakc_url: "u".to_string(),
        service_id: 1,
        received_at: Timestamp { secs: 0, nanos: 0 },
    };
    match process_epg_programs_updated_event(event) {
        Err(EpgUpdaterError::MirakcApiError(m)) => {
            assert_eq!(m, "Worker implementation will be injected at runtime")
        }
        _ => panic!("expected the stand-in error"),
    }
}

#[test]
fn streams_are_week_long_file_streams() {
    let m = mirakc_event_stream();
    assert_eq!(m.name, "mirakc-events");
    assert_eq!(m.config.max_age_secs, 7 * 24 * 60 * 60);
    assert_eq!(m.config.storage, StorageKind::File);
    assert_eq!(m.config.retention, RetentionKind::Limits);
    assert_eq!(m.config.discard, DiscardKind::Old);
    assert_eq!(m.config.description, "mirakc events stream");
    let k = kurec_event_stream();
    assert_eq!(k.name, "kurec-events");
    assert_eq!(k.config.description, "kurec events stream");
}

#[test]
fn stream_names_default_to_kebab_case() {
    assert_eq!(event_stream_name("EpgStoredEvent", None), "epg-stored-event");
    assert_eq!(event_stream_name("MirakcEventStreamDef", None), "mirakc-event-stream-def");
    assert_eq!(event_stream_name("EpgStoredEvent", Some("kurec-epg-updated")), "kurec-epg-updated");
}

#[test]
fn test_get_nats_url_default() {
    assert_eq!(nats_url_or_default(None), "nats://localhost:4222");
    assert_eq!(AppConfig::from_nats_url(None).nats_url, "nats://localhost:4222");
}

#[test]
fn test_get_nats_url_custom() {
    assert_eq!(
        nats_url_or_default(Some("nats://example.com:4222".to_string())),
        "nats://example.com:4222"
    );
}

#[test]
fn record_locations_are_built_from_ids() {
    assert_eq!(
        record_stream_url("http://tuner:40772", "000001939DCB8CDA"),
        "http://tuner:40772/api/recording/records/000001939DCB8CDA/stream"
    );
    assert_eq!(record_object_name("abc"), "record/abc.ts");
    assert!(check_record_stream_status(200).is_ok());
    assert_eq!(
        check_record_stream_status(404).unwrap_err(),
        "Failed to get record stream response: 404 Not Found"
    );
    assert_eq!(
        check_record_stream_status(503).unwrap_err(),
        "Failed to get record stream response: 503 Service Unavailable"
    );
    assert_eq!(
        check_record_stream_status(599).unwrap_err(),
        "Failed to get record stream response: 599 <unknown status code>"
    );
}

#[test]
fn text_helpers_agree_with_std() {
    assert!(str_contains("4.0.0-dev.0", "-dev."));
    assert!(!str_contains("4.0.0", "-dev."));
    assert!(str_contains("abc", ""));
    assert!(str_eq("日本", "日本"));
    assert!(!str_eq("日本", "日"));
    for n in [0u64, 7, 10, 99, 100, 12345, u64::MAX] {
        assert_eq!(decimal_string(n), n.to_string());
    }
    for n in [0i64, -1, 42, i64::MIN, i64::MAX] {
        assert_eq!(signed_decimal_string(n), n.to_string());
    }
}

#[test]
fn events_domain_keeps_its_adapters() {
    let d = EventsDomain::new(1u8, "nats");
    assert_eq!(*d.mirakc_adapter(), 1u8);
    assert_eq!(*d.nats_adapter(), "nats");
}

#[test]
fn each_event_type_names_its_stream() {
    assert_eq!(MirakcEventKind::EpgProgramsUpdated.stream_name(), "mirakc-events");
    assert_eq!(MirakcEventKind::RecordingFailed.stream_name(), "mirakc-events");
    assert_eq!(EpgStoredEvent::stream_name(), "kurec-epg-updated");
    assert_eq!(EpgUpdateEvent::stream_and_subject(), ("epg", "epg.update"));
    assert_eq!(
        RecordingScheduleEvent::stream_and_subject(),
        ("recording", "recording.schedule")
    );
}

#[test]
fn stored_events_compare_by_their_fields() {
    let e = EpgStoredEvent { mirakc_url: "http://m".to_string(), service_id: 1 };
    assert_eq!(e.clone(), e);
    assert_ne!(e, EpgStoredEvent { mirakc_url: "http://m".to_string(), service_id: 2 });
}
