//! The EPG updater: on an "EPG programs updated" event it fetches the
//! service and its programs from mirakc, converts and stores the programs,
//! and announces that the EPG was stored.
//!
//! The fetching, storing and announcing are done by the caller; this module
//! decides each next step from the answer to the previous one.

use crate::error_handling::{epg_updater_error_action, prefixed, ErrorAction, EpgUpdaterError};
use crate::events::{EpgProgramsUpdatedEvent, EpgStoredEvent};
use crate::genre::{lv1_genre_name, lv2_genre_name, GenreMapper};
use crate::program::{
    convert_programs, programs_converted, KurecProgram, MirakurunProgram, MirakurunService,
};
use vstd::prelude::*;

verus! {

/// Where an update run stands.
#[derive(Debug, Clone, Copy, PartialEq, Eq, Structural)]
pub enum EpgUpdateStage {
    /// Waiting for the service.
    AwaitService,
    /// Waiting for the programs of the service.
    AwaitPrograms,
    /// Waiting for the programs to be saved.
    AwaitSave,
    /// Waiting for the stored event to be announced.
    AwaitNotify,
    /// Finished.
    Done,
}

/// What the caller does next.
pub enum EpgUpdateCommand {
    /// Fetch the service from mirakc.
    FetchService { mirakc_url: String, service_id: i64 },
    /// Fetch the programs of the service from mirakc.
    FetchPrograms { mirakc_url: String, service_id: i64 },
    /// Save the converted programs of the service.
    SavePrograms { mirakc_url: String, service_id: i64, programs: Vec<KurecProgram> },
    /// Announce that the EPG of the service was stored.
    Notify(EpgStoredEvent),
    /// The run is over, with this result.
    Finish(Result<EpgStoredEvent, EpgUpdaterError>),
}

/// The caller's answer to the last command. A failure carries the text of
/// the underlying error.
pub enum EpgUpdateReply {
    Service(MirakurunService),
    ServiceFailed(String),
    ServiceUndecodable(String),
    Programs(Vec<MirakurunProgram>),
    ProgramsFailed(String),
    ProgramsUndecodable(String),
    Saved,
    SaveFailed(String),
    Notified,
    NotifyFailed(String),
}

/// The reply answers the command of the stage.
pub open spec fn reply_fits(stage: EpgUpdateStage, reply: EpgUpdateReply) -> bool {
    match stage {
        EpgUpdateStage::AwaitService => reply is Service || reply is ServiceFailed
            || reply is ServiceUndecodable,
        EpgUpdateStage::AwaitPrograms => reply is Programs || reply is ProgramsFailed
            || reply is ProgramsUndecodable,
        EpgUpdateStage::AwaitSave => reply is Saved || reply is SaveFailed,
        EpgUpdateStage::AwaitNotify => reply is Notified || reply is NotifyFailed,
        EpgUpdateStage::Done => false,
    }
}

/// One update run, for one event.
pub struct EpgUpdateRun {
    mirakc_url: String,
    service_id: i64,
    stage: EpgUpdateStage,
    service: Option<MirakurunService>,
}

impl EpgUpdateRun {
    #[verifier::type_invariant]
    spec fn service_known(self) -> bool {
        self.stage == EpgUpdateStage::AwaitPrograms ==> self.service is Some
    }

    /// The base URL of the mirakc that the event came from.
    pub closed spec fn url(&self) -> Seq<char> {
        self.mirakc_url@
    }

    /// The service that the event names.
    pub closed spec fn id(&self) -> i64 {
        self.service_id
    }

    /// Where the run stands.
    pub closed spec fn stage(&self) -> EpgUpdateStage {
        self.stage
    }

    /// The service, once fetched.
    pub closed spec fn service(&self) -> Option<MirakurunService> {
        self.service
    }

    /// Where the run stands.
    pub fn current_stage(&self) -> (r: EpgUpdateStage)
        ensures
            r == self.stage(),
    {
        self.stage
    }
}

/// `e` names the mirakc and the service of the run.
pub open spec fn stored_event_for(e: EpgStoredEvent, url: Seq<char>, id: i64) -> bool {
    e.mirakc_url@ == url && e.service_id == id
}

/// `r` is the failure `kind` with the message `prefix` followed by `detail`.
pub open spec fn failure_is(
    r: Result<EpgStoredEvent, EpgUpdaterError>,
    kind: EpgUpdaterError,
    prefix: Seq<char>,
    detail: Seq<char>,
) -> bool {
    match (r, kind) {
        (Err(EpgUpdaterError::MirakcApiError(m)), EpgUpdaterError::MirakcApiError(_)) => m@
            == prefix + detail,
        (Err(EpgUpdaterError::KvsStorageError(m)), EpgUpdaterError::KvsStorageError(_)) => m@
            == prefix + detail,
        (Err(EpgUpdaterError::NotificationError(m)), EpgUpdaterError::NotificationError(_)) => m@
            == prefix + detail,
        (Err(EpgUpdaterError::InvalidProgramData(m)), EpgUpdaterError::InvalidProgramData(_)) => m@
            == prefix + detail,
        _ => false,
    }
}

/// The command `c` ends the run with the failure `kind`, described by `prefix`
/// and `detail`.
pub open spec fn finishes_with_failure(
    c: EpgUpdateCommand,
    kind: EpgUpdaterError,
    prefix: Seq<char>,
    detail: Seq<char>,
) -> bool {
    match c {
        EpgUpdateCommand::Finish(r) => failure_is(r, kind, prefix, detail),
        _ => false,
    }
}

/// The next stage and command of a run at `stage` for service `svc` (once
/// known) after `reply`; `converted` describes the programs that a save
/// command carries.
pub open spec fn epg_step(
    url: Seq<char>,
    id: i64,
    stage: EpgUpdateStage,
    svc: Option<MirakurunService>,
    reply: EpgUpdateReply,
    next: EpgUpdateStage,
    c: EpgUpdateCommand,
) -> bool {
    match reply {
        EpgUpdateReply::Service(_) => next == EpgUpdateStage::AwaitPrograms && (c matches EpgUpdateCommand::FetchPrograms {
            mirakc_url,
            service_id,
        } && mirakc_url@ == url && service_id == id),
        EpgUpdateReply::ServiceFailed(d) => next == EpgUpdateStage::Done
            && finishes_with_failure(
            c,
            EpgUpdaterError::MirakcApiError(d),
            "Failed to get service: "@,
            d@,
        ),
        EpgUpdateReply::ServiceUndecodable(d) => next == EpgUpdateStage::Done
            && finishes_with_failure(
            c,
            EpgUpdaterError::InvalidProgramData(d),
            "Failed to deserialize service: "@,
            d@,
        ),
        EpgUpdateReply::Programs(ps) => next == EpgUpdateStage::AwaitSave && match c {
            EpgUpdateCommand::SavePrograms { mirakc_url, service_id, programs } => mirakc_url@
                == url && service_id == id && programs_converted(
                programs@,
                ps@,
                svc.unwrap(),
                url,
            ),
            _ => false,
        },
        EpgUpdateReply::ProgramsFailed(d) => next == EpgUpdateStage::Done
            && finishes_with_failure(
            c,
            EpgUpdaterError::MirakcApiError(d),
            "Failed to get programs: "@,
            d@,
        ),
        EpgUpdateReply::ProgramsUndecodable(d) => next == EpgUpdateStage::Done
            && finishes_with_failure(
            c,
            EpgUpdaterError::InvalidProgramData(d),
            "Failed to deserialize programs: "@,
            d@,
        ),
        EpgUpdateReply::Saved => next == EpgUpdateStage::AwaitNotify && (c matches EpgUpdateCommand::Notify(e)
            && stored_event_for(e, url, id)),
        EpgUpdateReply::SaveFailed(d) => next == EpgUpdateStage::Done && finishes_with_failure(
            c,
            EpgUpdaterError::KvsStorageError(d),
            "Failed to save programs: "@,
            d@,
        ),
        EpgUpdateReply::Notified => next == EpgUpdateStage::Done && (c matches EpgUpdateCommand::Finish(Ok(e))
            && stored_event_for(e, url, id)),
        EpgUpdateReply::NotifyFailed(d) => next == EpgUpdateStage::Done && finishes_with_failure(
            c,
            EpgUpdaterError::NotificationError(d),
            "Failed to notify EPG stored: "@,
            d@,
        ),
    }
}

/// The EPG updater worker.
pub struct EpgUpdaterWorker {
    genre_mapper: GenreMapper,
}

impl EpgUpdaterWorker {
    /// The genre mapper that the worker converts programs with.
    pub closed spec fn mapper(&self) -> GenreMapper {
        self.genre_mapper
    }

    /// A worker with the broadcast genre names.
    pub fn new() -> (r: EpgUpdaterWorker)
        ensures
            forall|lv1: u32| #[trigger] r.mapper().lv1_name_held(lv1) == lv1_genre_name(lv1),
            forall|lv1: u32, lv2: u32|
                #[trigger] r.mapper().lv2_name_held(lv1, lv2) == lv2_genre_name(lv1, lv2),
    {
        EpgUpdaterWorker { genre_mapper: GenreMapper::new() }
    }

    /// Starts a run for an "EPG programs updated" event: the service is
    /// fetched first.
    pub fn start(&self, event: &EpgProgramsUpdatedEvent) -> (r: (EpgUpdateRun, EpgUpdateCommand))
        ensures
            r.0.url() == event.mirakc_url@,
            r.0.id() == event.service_id,
            r.0.stage() == EpgUpdateStage::AwaitService,
            r.0.service() is None,
            r.1 matches EpgUpdateCommand::FetchService { mirakc_url, service_id }
                && mirakc_url@ == event.mirakc_url@ && service_id == event.service_id,
    {
        let run = EpgUpdateRun {
            mirakc_url: event.mirakc_url.clone(),
            service_id: event.service_id,
            stage: EpgUpdateStage::AwaitService,
            service: None,
        };
        let command = EpgUpdateCommand::FetchService {
            mirakc_url: event.mirakc_url.clone(),
            service_id: event.service_id,
        };
        (run, command)
    }

    /// Advances a run by the answer to its last command.
    pub fn step(&self, run: EpgUpdateRun, reply: EpgUpdateReply) -> (r: (
        EpgUpdateRun,
        EpgUpdateCommand,
    ))
        requires
            reply_fits(run.stage(), reply),
        ensures
            r.0.url() == run.url(),
            r.0.id() == run.id(),
            reply matches EpgUpdateReply::Service(svc) ==> r.0.service() == Some(svc),
            !(reply is Service) ==> r.0.service() == run.service(),
            epg_step(run.url(), run.id(), run.stage(), run.service(), reply, r.0.stage(), r.1),
    {
        proof {
            use_type_invariant(&run);
        }
        let EpgUpdateRun { mirakc_url, service_id, stage, service } = run;
        match reply {
            EpgUpdateReply::Service(s) => {
                let command = EpgUpdateCommand::FetchPrograms {
                    mirakc_url: mirakc_url.clone(),
                    service_id,
                };
                (
                    EpgUpdateRun {
                        mirakc_url,
                        service_id,
                        stage: EpgUpdateStage::AwaitPrograms,
                        service: Some(s),
                    },
                    command,
                )
            },
            EpgUpdateReply::ServiceFailed(d) => {
                let e = EpgUpdaterError::MirakcApiError(
                    prefixed("Failed to get service: ", d.as_str()),
                );
                Self::finished(mirakc_url, service_id, service, Err(e))
            },
            EpgUpdateReply::ServiceUndecodable(d) => {
                let e = EpgUpdaterError::InvalidProgramData(
                    prefixed("Failed to deserialize service: ", d.as_str()),
                );
                Self::finished(mirakc_url, service_id, service, Err(e))
            },
            EpgUpdateReply::Programs(ps) => {
                let programs = match &service {
                    Some(svc) => convert_programs(
                        ps,
                        svc,
                        mirakc_url.as_str(),
                        &self.genre_mapper,
                    ),
                    None => Vec::new(),
                };
                let command = EpgUpdateCommand::SavePrograms {
                    mirakc_url: mirakc_url.clone(),
                    service_id,
                    programs,
                };
                (
                    EpgUpdateRun {
                        mirakc_url,
                        service_id,
                        stage: EpgUpdateStage::AwaitSave,
                        service,
                    },
                    command,
                )
            },
            EpgUpdateReply::ProgramsFailed(d) => {
                let e = EpgUpdaterError::MirakcApiError(
                    prefixed("Failed to get programs: ", d.as_str()),
                );
                Self::finished(mirakc_url, service_id, service, Err(e))
            },
            EpgUpdateReply::ProgramsUndecodable(d) => {
                let e = EpgUpdaterError::InvalidProgramData(
                    prefixed("Failed to deserialize programs: ", d.as_str()),
                );
                Self::finished(mirakc_url, service_id, service, Err(e))
            },
            EpgUpdateReply::Saved => {
                let event = EpgStoredEvent { mirakc_url: mirakc_url.clone(), service_id };
                (
                    EpgUpdateRun {
                        mirakc_url,
                        service_id,
                        stage: EpgUpdateStage::AwaitNotify,
                        service,
                    },
                    EpgUpdateCommand::Notify(event),
                )
            },
            EpgUpdateReply::SaveFailed(d) => {
                let e = EpgUpdaterError::KvsStorageError(
                    prefixed("Failed to save programs: ", d.as_str()),
                );
                Self::finished(mirakc_url, service_id, service, Err(e))
            },
            EpgUpdateReply::Notified => {
                let event = EpgStoredEvent { mirakc_url: mirakc_url.clone(), service_id };
                Self::finished(mirakc_url, service_id, service, Ok(event))
            },
            EpgUpdateReply::NotifyFailed(d) => {
                let e = EpgUpdaterError::NotificationError(
                    prefixed("Failed to notify EPG stored: ", d.as_str()),
                );
                Self::finished(mirakc_url, service_id, service, Err(e))
            },
        }
    }

    /// A finished run with its result.
    fn finished(
        mirakc_url: String,
        service_id: i64,
        service: Option<MirakurunService>,
        result: Result<EpgStoredEvent, EpgUpdaterError>,
    ) -> (r: (EpgUpdateRun, EpgUpdateCommand))
        ensures
            r.0.url() == mirakc_url@,
            r.0.id() == service_id,
            r.0.stage() == EpgUpdateStage::Done,
            r.0.service() == service,
            r.1 == EpgUpdateCommand::Finish(result),
    {
        (
            EpgUpdateRun { mirakc_url, service_id, stage: EpgUpdateStage::Done, service },
            EpgUpdateCommand::Finish(result),
        )
    }
}

/// A run only succeeds once its programs were saved and the stored event was
/// announced, and then it reports the event for its own mirakc and service;
/// of its failures, only undecodable mirakc data is dropped rather than retried.
pub proof fn lemma_epg_run_outcome(
    url: Seq<char>,
    id: i64,
    stage: EpgUpdateStage,
    svc: Option<MirakurunService>,
    reply: EpgUpdateReply,
    next: EpgUpdateStage,
    c: EpgUpdateCommand,
)
    requires
        reply_fits(stage, reply),
        epg_step(url, id, stage, svc, reply, next, c),
    ensures
        c matches EpgUpdateCommand::Finish(Ok(e)) ==> stage == EpgUpdateStage::AwaitNotify
            && reply is Notified && stored_event_for(e, url, id),
        c is Notify ==> stage == EpgUpdateStage::AwaitSave && reply is Saved,
        c is SavePrograms ==> stage == EpgUpdateStage::AwaitPrograms && reply is Programs,
        c matches EpgUpdateCommand::Finish(Err(e)) ==> (epg_updater_error_action(e)
            == ErrorAction::Ignore <==> (reply is ServiceUndecodable
            || reply is ProgramsUndecodable)),
        c is Finish <==> next == EpgUpdateStage::Done,
{
}

/// The programs that a run saves are converted with the channel data of the
/// service that mirakc returned for it: the service reply is kept, and the
/// save that follows the programs reply converts with it.
pub proof fn lemma_saved_programs_use_received_service(
    url: Seq<char>,
    id: i64,
    svc: MirakurunService,
    ps: EpgUpdateReply,
    next: EpgUpdateStage,
    c: EpgUpdateCommand,
)
    requires
        ps is Programs,
        epg_step(url, id, EpgUpdateStage::AwaitPrograms, Some(svc), ps, next, c),
    ensures
        c matches EpgUpdateCommand::SavePrograms { mirakc_url, service_id, programs }
            && mirakc_url@ == url && service_id == id && programs_converted(
            programs@,
            ps->Programs_0@,
            svc,
            url,
        ),
{
}

} // verus!
