use kurec::epg_updater::{EpgUpdateCommand, EpgUpdateReply, EpgUpdateStage, EpgUpdaterWorker};
use kurec::error_handling::{ClassifyError, EpgUpdaterError, ErrorAction};
use kurec::events::{EpgProgramsUpdatedEvent, Timestamp};
use kurec::program::{MirakurunProgram, MirakurunService};

fn event() -> EpgProgramsUpdatedEvent {
    EpgProgramsUpdatedEvent {
        mirakc_url: "http://mirakc:40772".to_string(),
        service_id: 3273701032,
        received_at: Timestamp { secs: 0, nanos: 0 },
    }
}

fn service() -> MirakurunService {
    MirakurunService {
        name: "NHK".to_string(),
        channel_type: "GR".to_string(),
        channel: "27".to_string(),
    }
}

fn named_program(id: i64, named: bool) -> MirakurunProgram {
    MirakurunProgram {
        id,
        event_id: 1,
        service_id: 2,
        network_id: 3,
        start_at: 0,
        duration: 60000,
        is_free: true,
        name: if named { Some(Some(format!("p{}", id))) } else { None },
        description: None,
        extended: None,
        genres: None,
        video: None,
        audio: None,
        audios: None,
        series: None,
    }
}

#[test]
fn successful_run_saves_then_notifies() {
    let worker = EpgUpdaterWorker::new();
    let (run, cmd) = worker.start(&event());
    match cmd {
        EpgUpdateCommand::FetchService { mirakc_url, service_id } => {
            assert_eq!(mirakc_url, "http://mirakc:40772");
            assert_eq!(service_id, 3273701032);
        }
        _ => panic!("expected a service fetch"),
    }
    let (run, cmd) = worker.step(run, EpgUpdateReply::Service(service()));
    assert!(matches!(cmd, EpgUpdateCommand::FetchPrograms { .. }));
    assert_eq!(run.current_stage(), EpgUpdateStage::AwaitPrograms);
    let (run, cmd) = worker.step(
        run,
        EpgUpdateReply::Programs(vec![named_program(1, true), named_program(2, false)]),
    );
    match cmd {
        EpgUpdateCommand::SavePrograms { mirakc_url, service_id, programs } => {
            assert_eq!(mirakc_url, "http://mirakc:40772");
            assert_eq!(service_id, 3273701032);
            assert_eq!(programs.len(), 1);
            assert_eq!(programs[0].id, 1);
            assert_eq!(programs[0].channel_name, "NHK");
            assert_eq!(programs[0].mirakc_url, "http://mirakc:40772");
        }
        _ => panic!("expected a save"),
    }
    let (run, cmd) = worker.step(run, EpgUpdateReply::Saved);
    match cmd {
        EpgUpdateCommand::Notify(e) => {
            assert_eq!(e.mirakc_url, "http://mirakc:40772");
            assert_eq!(e.service_id, 3273701032);
        }
        _ => panic!("expected a notification"),
    }
    let (run, cmd) = worker.step(run, EpgUpdateReply::Notified);
    assert_eq!(run.current_stage(), EpgUpdateStage::Done);
    match cmd {
        EpgUpdateCommand::Finish(Ok(e)) => assert_eq!(e.service_id, 3273701032),
        _ => panic!("expected success"),
    }
}

#[test]
fn failures_end_the_run_with_their_kind() {
    let worker = EpgUpdaterWorker::new();
    let (run, _) = worker.start(&event());
    let (run, cmd) = worker.step(run, EpgUpdateReply::ServiceFailed("timeout".to_string()));
    assert_eq!(run.current_stage(), EpgUpdateStage::Done);
    match cmd {
        EpgUpdateCommand::Finish(Err(e)) => {
            assert!(matches!(&e, EpgUpdaterError::MirakcApiError(m) if m == "Failed to get service: timeout"));
            assert_eq!(e.error_action(), ErrorAction::Retry);
            assert_eq!(e.message(), "Mirakc API error: Failed to get service: timeout");
        }
        _ => panic!("expected a failure"),
    }

    let (run, _) = worker.start(&event());
    let (run, _) = worker.step(run, EpgUpdateReply::Service(service()));
    let (_, cmd) = worker.step(run, EpgUpdateReply::ProgramsUndecodable("bad json".to_string()));
    match cmd {
        EpgUpdateCommand::Finish(Err(e)) => {
            assert!(matches!(&e, EpgUpdaterError::InvalidProgramData(m) if m == "Failed to deserialize programs: bad json"));
            assert_eq!(e.error_action(), ErrorAction::Ignore);
        }
        _ => panic!("expected a failure"),
    }

    let (run, _) = worker.start(&event());
    let (run, _) = worker.step(run, EpgUpdateReply::Service(service()));
    let (run, _) = worker.step(run, EpgUpdateReply::Programs(Vec::new()));
    let (_, cmd) = worker.step(run, EpgUpdateReply::SaveFailed("kv down".to_string()));
    assert!(matches!(cmd, EpgUpdateCommand::Finish(Err(EpgUpdaterError::KvsStorageError(ref m))) if m == "Failed to save programs: kv down"));

    let (run, _) = worker.start(&event());
    let (run, _) = worker.step(run, EpgUpdateReply::Service(service()));
    let (run, _) = worker.step(run, EpgUpdateReply::Programs(Vec::new()));
    let (run, _) = worker.step(run, EpgUpdateReply::Saved);
    let (_, cmd) = worker.step(run, EpgUpdateReply::NotifyFailed("nats".to_string()));
    assert!(matches!(cmd, EpgUpdateCommand::Finish(Err(EpgUpdaterError::NotificationError(ref m))) if m == "Failed to notify EPG stored: nats"));
}
