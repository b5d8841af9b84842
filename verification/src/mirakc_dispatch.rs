//! Dispatch of mirakc's events: which domain event an incoming event becomes
//! and where it goes.

use crate::error_handling::{mirakc_event_error_action, ErrorAction, MirakcEventError};
use crate::events::{
    EpgProgramsUpdatedEvent, MirakcEventInput, OnairProgramChangedEvent, RecordingContentRemovedEvent,
    RecordingFailedEvent, RecordingFailedReason, RecordingRecordBrokenEvent,
    RecordingRecordRemovedEvent, RecordingRecordSavedEvent, RecordingRescheduledEvent,
    RecordingStartedEvent, RecordingStatus, RecordingStoppedEvent, Timestamp,
    TunerStatusChangedEvent,
};
use crate::text::str_eq;
use vstd::prelude::*;

verus! {

/// The kinds of event that mirakc emits and KuRec understands.
#[derive(Debug, Clone, Copy, PartialEq, Eq, Structural)]
pub enum MirakcEventKind {
    TunerStatusChanged,
    EpgProgramsUpdated,
    RecordingStarted,
    RecordingStopped,
    RecordingFailed,
    RecordingRescheduled,
    RecordingRecordSaved,
    RecordingRecordRemoved,
    RecordingContentRemoved,
    RecordingRecordBroken,
    OnairProgramChanged,
}

/// The event type text that mirakc gives to a kind.
pub open spec fn event_type_text(k: MirakcEventKind) -> Seq<char> {
    match k {
        MirakcEventKind::TunerStatusChanged => "tuner.status-changed"@,
        MirakcEventKind::EpgProgramsUpdated => "epg.programs-updated"@,
        MirakcEventKind::RecordingStarted => "recording.started"@,
        MirakcEventKind::RecordingStopped => "recording.stopped"@,
        MirakcEventKind::RecordingFailed => "recording.failed"@,
        MirakcEventKind::RecordingRescheduled => "recording.rescheduled"@,
        MirakcEventKind::RecordingRecordSaved => "recording.record-saved"@,
        MirakcEventKind::RecordingRecordRemoved => "recording.record-removed"@,
        MirakcEventKind::RecordingContentRemoved => "recording.content-removed"@,
        MirakcEventKind::RecordingRecordBroken => "recording.record-broken"@,
        MirakcEventKind::OnairProgramChanged => "onair.program-changed"@,
    }
}

/// The kind that an event type text names, if any.
pub open spec fn kind_of_event_type(t: Seq<char>) -> Option<MirakcEventKind> {
    if t == "tuner.status-changed"@ {
        Some(MirakcEventKind::TunerStatusChanged)
    } else if t == "epg.programs-updated"@ {
        Some(MirakcEventKind::EpgProgramsUpdated)
    } else if t == "recording.started"@ {
        Some(MirakcEventKind::RecordingStarted)
    } else if t == "recording.stopped"@ {
        Some(MirakcEventKind::RecordingStopped)
    } else if t == "recording.failed"@ {
        Some(MirakcEventKind::RecordingFailed)
    } else if t == "recording.rescheduled"@ {
        Some(MirakcEventKind::RecordingRescheduled)
    } else if t == "recording.record-saved"@ {
        Some(MirakcEventKind::RecordingRecordSaved)
    } else if t == "recording.record-removed"@ {
        Some(MirakcEventKind::RecordingRecordRemoved)
    } else if t == "recording.content-removed"@ {
        Some(MirakcEventKind::RecordingContentRemoved)
    } else if t == "recording.record-broken"@ {
        Some(MirakcEventKind::RecordingRecordBroken)
    } else if t == "onair.program-changed"@ {
        Some(MirakcEventKind::OnairProgramChanged)
    } else {
        None
    }
}

impl MirakcEventKind {
    /// The kind that an event type text names, if any.
    pub fn from_event_type(event_type: &str) -> (r: Option<MirakcEventKind>)
        ensures
            r == kind_of_event_type(event_type@),
    {
        if str_eq(event_type, "tuner.status-changed") {
            Some(MirakcEventKind::TunerStatusChanged)
        } else if str_eq(event_type, "epg.programs-updated") {
            Some(MirakcEventKind::EpgProgramsUpdated)
        } else if str_eq(event_type, "recording.started") {
            Some(MirakcEventKind::RecordingStarted)
        } else if str_eq(event_type, "recording.stopped") {
            Some(MirakcEventKind::RecordingStopped)
        } else if str_eq(event_type, "recording.failed") {
            Some(MirakcEventKind::RecordingFailed)
        } else if str_eq(event_type, "recording.rescheduled") {
            Some(MirakcEventKind::RecordingRescheduled)
        } else if str_eq(event_type, "recording.record-saved") {
            Some(MirakcEventKind::RecordingRecordSaved)
        } else if str_eq(event_type, "recording.record-removed") {
            Some(MirakcEventKind::RecordingRecordRemoved)
        } else if str_eq(event_type, "recording.content-removed") {
            Some(MirakcEventKind::RecordingContentRemoved)
        } else if str_eq(event_type, "recording.record-broken") {
            Some(MirakcEventKind::RecordingRecordBroken)
        } else if str_eq(event_type, "onair.program-changed") {
            Some(MirakcEventKind::OnairProgramChanged)
        } else {
            None
        }
    }

    /// The event type text of the kind.
    pub fn event_type(&self) -> (r: &'static str)
        ensures
            r@ == event_type_text(*self),
    {
        match self {
            MirakcEventKind::TunerStatusChanged => "tuner.status-changed",
            MirakcEventKind::EpgProgramsUpdated => "epg.programs-updated",
            MirakcEventKind::RecordingStarted => "recording.started",
            MirakcEventKind::RecordingStopped => "recording.stopped",
            MirakcEventKind::RecordingFailed => "recording.failed",
            MirakcEventKind::RecordingRescheduled => "recording.rescheduled",
            MirakcEventKind::RecordingRecordSaved => "recording.record-saved",
            MirakcEventKind::RecordingRecordRemoved => "recording.record-removed",
            MirakcEventKind::RecordingContentRemoved => "recording.content-removed",
            MirakcEventKind::RecordingRecordBroken => "recording.record-broken",
            MirakcEventKind::OnairProgramChanged => "onair.program-changed",
        }
    }
}

/// The data of an event, parsed according to its kind.
#[allow(inconsistent_fields)]
pub enum MirakcEventData {
    TunerStatusChanged { tuner_index: usize },
    EpgProgramsUpdated { service_id: i64 },
    RecordingStarted { program_id: u64 },
    RecordingStopped { program_id: u64 },
    RecordingFailed { program_id: u64, reason: RecordingFailedReason },
    RecordingRescheduled { program_id: u64 },
    RecordingRecordSaved { record_id: String, recording_status: RecordingStatus },
    RecordingRecordRemoved { record_id: String },
    RecordingContentRemoved { record_id: String },
    RecordingRecordBroken { record_id: String, reason: String },
    OnairProgramChanged { service_id: i64 },
}

/// The kind of parsed event data.
pub open spec fn data_kind(d: MirakcEventData) -> MirakcEventKind {
    match d {
        MirakcEventData::TunerStatusChanged { .. } => MirakcEventKind::TunerStatusChanged,
        MirakcEventData::EpgProgramsUpdated { .. } => MirakcEventKind::EpgProgramsUpdated,
        MirakcEventData::RecordingStarted { .. } => MirakcEventKind::RecordingStarted,
        MirakcEventData::RecordingStopped { .. } => MirakcEventKind::RecordingStopped,
        MirakcEventData::RecordingFailed { .. } => MirakcEventKind::RecordingFailed,
        MirakcEventData::RecordingRescheduled { .. } => MirakcEventKind::RecordingRescheduled,
        MirakcEventData::RecordingRecordSaved { .. } => MirakcEventKind::RecordingRecordSaved,
        MirakcEventData::RecordingRecordRemoved { .. } => MirakcEventKind::RecordingRecordRemoved,
        MirakcEventData::RecordingContentRemoved { .. } => MirakcEventKind::RecordingContentRemoved,
        MirakcEventData::RecordingRecordBroken { .. } => MirakcEventKind::RecordingRecordBroken,
        MirakcEventData::OnairProgramChanged { .. } => MirakcEventKind::OnairProgramChanged,
    }
}

/// A domain event built from one of mirakc's events.
pub enum MirakcEvent {
    TunerStatusChanged(TunerStatusChangedEvent),
    EpgProgramsUpdated(EpgProgramsUpdatedEvent),
    RecordingStarted(RecordingStartedEvent),
    RecordingStopped(RecordingStoppedEvent),
    RecordingFailed(RecordingFailedEvent),
    RecordingRescheduled(RecordingRescheduledEvent),
    RecordingRecordSaved(RecordingRecordSavedEvent),
    RecordingRecordRemoved(RecordingRecordRemovedEvent),
    RecordingContentRemoved(RecordingContentRemovedEvent),
    RecordingRecordBroken(RecordingRecordBrokenEvent),
    OnairProgramChanged(OnairProgramChangedEvent),
}

/// The kind of a domain event.
pub open spec fn event_kind(ev: MirakcEvent) -> MirakcEventKind {
    match ev {
        MirakcEvent::TunerStatusChanged(_) => MirakcEventKind::TunerStatusChanged,
        MirakcEvent::EpgProgramsUpdated(_) => MirakcEventKind::EpgProgramsUpdated,
        MirakcEvent::RecordingStarted(_) => MirakcEventKind::RecordingStarted,
        MirakcEvent::RecordingStopped(_) => MirakcEventKind::RecordingStopped,
        MirakcEvent::RecordingFailed(_) => MirakcEventKind::RecordingFailed,
        MirakcEvent::RecordingRescheduled(_) => MirakcEventKind::RecordingRescheduled,
        MirakcEvent::RecordingRecordSaved(_) => MirakcEventKind::RecordingRecordSaved,
        MirakcEvent::RecordingRecordRemoved(_) => MirakcEventKind::RecordingRecordRemoved,
        MirakcEvent::RecordingContentRemoved(_) => MirakcEventKind::RecordingContentRemoved,
        MirakcEvent::RecordingRecordBroken(_) => MirakcEventKind::RecordingRecordBroken,
        MirakcEvent::OnairProgramChanged(_) => MirakcEventKind::OnairProgramChanged,
    }
}

/// `ev` is the domain event for `data`, received from the mirakc at `url` at
/// time `at`.
pub open spec fn assembled(ev: MirakcEvent, url: Seq<char>, at: Timestamp, data: MirakcEventData) -> bool {
    match (ev, data) {
        (MirakcEvent::TunerStatusChanged(e), MirakcEventData::TunerStatusChanged { tuner_index }) => e.mirakc_url@ == url
            && e.received_at == at && e.tuner_index == tuner_index,
        (MirakcEvent::EpgProgramsUpdated(e), MirakcEventData::EpgProgramsUpdated { service_id }) => e.mirakc_url@ == url
            && e.received_at == at && e.service_id == service_id,
        (MirakcEvent::RecordingStarted(e), MirakcEventData::RecordingStarted { program_id }) => e.mirakc_url@ == url
            && e.received_at == at && e.program_id == program_id,
        (MirakcEvent::RecordingStopped(e), MirakcEventData::RecordingStopped { program_id }) => e.mirakc_url@ == url
            && e.received_at == at && e.program_id == program_id,
        (MirakcEvent::RecordingFailed(e), MirakcEventData::RecordingFailed { program_id, reason }) => e.mirakc_url@ == url
            && e.received_at == at && e.program_id == program_id && e.reason == reason,
        (MirakcEvent::RecordingRescheduled(e), MirakcEventData::RecordingRescheduled { program_id }) => e.mirakc_url@ == url
            && e.received_at == at && e.program_id == program_id,
        (MirakcEvent::RecordingRecordSaved(e), MirakcEventData::RecordingRecordSaved { record_id, recording_status }) => e.mirakc_url@ == url
            && e.received_at == at && e.record_id@ == record_id@ && e.recording_status == recording_status,
        (MirakcEvent::RecordingRecordRemoved(e), MirakcEventData::RecordingRecordRemoved { record_id }) => e.mirakc_url@ == url
            && e.received_at == at && e.record_id@ == record_id@,
        (MirakcEvent::RecordingContentRemoved(e), MirakcEventData::RecordingContentRemoved { record_id }) => e.mirakc_url@ == url
            && e.received_at == at && e.record_id@ == record_id@,
        (MirakcEvent::RecordingRecordBroken(e), MirakcEventData::RecordingRecordBroken { record_id, reason }) => e.mirakc_url@ == url
            && e.received_at == at && e.record_id@ == record_id@ && e.reason@ == reason@,
        (MirakcEvent::OnairProgramChanged(e), MirakcEventData::OnairProgramChanged { service_id }) => e.mirakc_url@ == url
            && e.received_at == at && e.service_id == service_id,
        _ => false,
    }
}

impl MirakcEvent {
    /// Builds the domain event for parsed event data.
    pub fn assemble(mirakc_url: String, received_at: Timestamp, data: MirakcEventData) -> (r: MirakcEvent)
        ensures
            assembled(r, mirakc_url@, received_at, data),
            event_kind(r) == data_kind(data),
    {
        match data {
            MirakcEventData::TunerStatusChanged { tuner_index } => MirakcEvent::TunerStatusChanged(
                TunerStatusChangedEvent { mirakc_url, tuner_index, received_at },
            ),
            MirakcEventData::EpgProgramsUpdated { service_id } => MirakcEvent::EpgProgramsUpdated(
                EpgProgramsUpdatedEvent { mirakc_url, service_id, received_at },
            ),
            MirakcEventData::RecordingStarted { program_id } => MirakcEvent::RecordingStarted(
                RecordingStartedEvent { mirakc_url, program_id, received_at },
            ),
            MirakcEventData::RecordingStopped { program_id } => MirakcEvent::RecordingStopped(
                RecordingStoppedEvent { mirakc_url, program_id, received_at },
            ),
            MirakcEventData::RecordingFailed { program_id, reason } => MirakcEvent::RecordingFailed(
                RecordingFailedEvent { mirakc_url, program_id, reason, received_at },
            ),
            MirakcEventData::RecordingRescheduled { program_id } => MirakcEvent::RecordingRescheduled(
                RecordingRescheduledEvent { mirakc_url, program_id, received_at },
            ),
            MirakcEventData::RecordingRecordSaved { record_id, recording_status } => MirakcEvent::RecordingRecordSaved(
                RecordingRecordSavedEvent { mirakc_url, record_id, recording_status, received_at },
            ),
            MirakcEventData::RecordingRecordRemoved { record_id } => MirakcEvent::RecordingRecordRemoved(
                RecordingRecordRemovedEvent { mirakc_url, record_id, received_at },
            ),
            MirakcEventData::RecordingContentRemoved { record_id } => MirakcEvent::RecordingContentRemoved(
                RecordingContentRemovedEvent { mirakc_url, record_id, received_at },
            ),
            MirakcEventData::RecordingRecordBroken { record_id, reason } => MirakcEvent::RecordingRecordBroken(
                RecordingRecordBrokenEvent { mirakc_url, record_id, reason, received_at },
            ),
            MirakcEventData::OnairProgramChanged { service_id } => MirakcEvent::OnairProgramChanged(
                OnairProgramChangedEvent { mirakc_url, service_id, received_at },
            ),
        }
    }
}

/// Which kinds of event have a sink to be published to.
pub struct MirakcEventSinks {
    pub tuner_status_changed: bool,
    pub epg_programs_updated: bool,
    pub recording_started: bool,
    pub recording_stopped: bool,
    pub recording_failed: bool,
    pub recording_rescheduled: bool,
    pub recording_record_saved: bool,
    pub recording_record_removed: bool,
    pub recording_content_removed: bool,
    pub recording_record_broken: bool,
    pub onair_program_changed: bool,
}

/// Whether the sinks include one for the kind.
pub open spec fn has_sink(s: MirakcEventSinks, k: MirakcEventKind) -> bool {
    match k {
        MirakcEventKind::TunerStatusChanged => s.tuner_status_changed,
        MirakcEventKind::EpgProgramsUpdated => s.epg_programs_updated,
        MirakcEventKind::RecordingStarted => s.recording_started,
        MirakcEventKind::RecordingStopped => s.recording_stopped,
        MirakcEventKind::RecordingFailed => s.recording_failed,
        MirakcEventKind::RecordingRescheduled => s.recording_rescheduled,
        MirakcEventKind::RecordingRecordSaved => s.recording_record_saved,
        MirakcEventKind::RecordingRecordRemoved => s.recording_record_removed,
        MirakcEventKind::RecordingContentRemoved => s.recording_content_removed,
        MirakcEventKind::RecordingRecordBroken => s.recording_record_broken,
        MirakcEventKind::OnairProgramChanged => s.onair_program_changed,
    }
}

impl MirakcEventSinks {
    /// No sink for any kind.
    pub fn none() -> (r: MirakcEventSinks)
        ensures
            forall|k: MirakcEventKind| !has_sink(r, k),
    {
        MirakcEventSinks {
            tuner_status_changed: false,
            epg_programs_updated: false,
            recording_started: false,
            recording_stopped: false,
            recording_failed: false,
            recording_rescheduled: false,
            recording_record_saved: false,
            recording_record_removed: false,
            recording_content_removed: false,
            recording_record_broken: false,
            onair_program_changed: false,
        }
    }

    /// Whether there is a sink for the kind.
    pub fn has(&self, kind: MirakcEventKind) -> (r: bool)
        ensures
            r == has_sink(*self, kind),
    {
        match kind {
            MirakcEventKind::TunerStatusChanged => self.tuner_status_changed,
            MirakcEventKind::EpgProgramsUpdated => self.epg_programs_updated,
            MirakcEventKind::RecordingStarted => self.recording_started,
            MirakcEventKind::RecordingStopped => self.recording_stopped,
            MirakcEventKind::RecordingFailed => self.recording_failed,
            MirakcEventKind::RecordingRescheduled => self.recording_rescheduled,
            MirakcEventKind::RecordingRecordSaved => self.recording_record_saved,
            MirakcEventKind::RecordingRecordRemoved => self.recording_record_removed,
            MirakcEventKind::RecordingContentRemoved => self.recording_content_removed,
            MirakcEventKind::RecordingRecordBroken => self.recording_record_broken,
            MirakcEventKind::OnairProgramChanged => self.onair_program_changed,
        }
    }
}

/// What the event handler does with one event.
pub enum HandleDecision {
    /// Publish the domain event to the sink of its kind.
    Publish(MirakcEvent),
    /// No sink is configured for the kind; nothing is published.
    NoSink(MirakcEventKind),
    /// The event type is unknown; nothing is published.
    UnknownType,
}

/// The parse step is consistent with the event type: it parsed exactly when the
/// type is known, and into data of that type's kind.
pub open spec fn parse_fits(event_type: Seq<char>, parsed: Option<Result<MirakcEventData, serde_json::Error>>) -> bool {
    &&& (parsed is None <==> kind_of_event_type(event_type) is None)
    &&& (parsed matches Some(Ok(d)) ==> Some(data_kind(d)) == kind_of_event_type(event_type))
}

/// The handler's answer for an event from `url`, received at `at`, whose data
/// parsed as `parsed`.
pub open spec fn handler_routed(
    sinks: MirakcEventSinks,
    url: Seq<char>,
    at: Timestamp,
    parsed: Option<Result<MirakcEventData, serde_json::Error>>,
    r: Result<HandleDecision, MirakcEventError>,
) -> bool {
    match parsed {
        None => r matches Ok(HandleDecision::UnknownType),
        Some(Err(e)) => r == Err::<HandleDecision, MirakcEventError>(
            MirakcEventError::Serialization(e),
        ),
        Some(Ok(d)) => if has_sink(sinks, data_kind(d)) {
            match r {
                Ok(HandleDecision::Publish(ev)) => assembled(ev, url, at, d),
                _ => false,
            }
        } else {
            r matches Ok(HandleDecision::NoSink(k)) && k == data_kind(d)
        },
    }
}

/// Turns mirakc's events into domain events for the configured sinks.
pub struct MirakcEventHandler {
    sinks: MirakcEventSinks,
}

impl MirakcEventHandler {
    /// The sinks that the handler publishes to.
    pub closed spec fn sinks(&self) -> MirakcEventSinks {
        self.sinks
    }

    /// A handler for the given sinks.
    pub fn new(sinks: MirakcEventSinks) -> (r: MirakcEventHandler)
        ensures
            r.sinks() == sinks,
    {
        MirakcEventHandler { sinks }
    }

    /// Decides what to do with an event, given what parsing its data according
    /// to its type gave (`None` where the type is unknown and nothing was
    /// parsed): publish the domain event where its kind has a sink, or fail
    /// with the parse error.
    pub fn route(
        &self,
        input: MirakcEventInput,
        parsed: Option<Result<MirakcEventData, serde_json::Error>>,
    ) -> (r: Result<HandleDecision, MirakcEventError>)
        requires
            parse_fits(input.event_type@, parsed),
        ensures
            handler_routed(self.sinks(), input.mirakc_url@, input.received_at, parsed, r),
    {
        let MirakcEventInput { mirakc_url, event_type: _, data: _, received_at } = input;
        match parsed {
            None => Ok(HandleDecision::UnknownType),
            Some(Err(e)) => Err(MirakcEventError::Serialization(e)),
            Some(Ok(d)) => {
                let kind = MirakcEvent::kind_of_data(&d);
                if self.sinks.has(kind) {
                    Ok(HandleDecision::Publish(MirakcEvent::assemble(mirakc_url, received_at, d)))
                } else {
                    Ok(HandleDecision::NoSink(kind))
                }
            },
        }
    }

    /// The handler's result once a publish was attempted.
    pub fn publish_result(result: Result<(), anyhow::Error>) -> (r: Result<
        Option<()>,
        MirakcEventError,
    >)
        ensures
            result is Ok ==> r == Ok::<Option<()>, MirakcEventError>(None),
            result matches Err(e) ==> r == Err::<Option<()>, MirakcEventError>(
                MirakcEventError::Publish(e),
            ),
    {
        match result {
            Ok(()) => Ok(None),
            Err(e) => Err(MirakcEventError::Publish(e)),
        }
    }
}

impl MirakcEvent {
    /// The kind of parsed event data.
    pub fn kind_of_data(d: &MirakcEventData) -> (r: MirakcEventKind)
        ensures
            r == data_kind(*d),
    {
        match d {
            MirakcEventData::TunerStatusChanged { .. } => MirakcEventKind::TunerStatusChanged,
            MirakcEventData::EpgProgramsUpdated { .. } => MirakcEventKind::EpgProgramsUpdated,
            MirakcEventData::RecordingStarted { .. } => MirakcEventKind::RecordingStarted,
            MirakcEventData::RecordingStopped { .. } => MirakcEventKind::RecordingStopped,
            MirakcEventData::RecordingFailed { .. } => MirakcEventKind::RecordingFailed,
            MirakcEventData::RecordingRescheduled { .. } => MirakcEventKind::RecordingRescheduled,
            MirakcEventData::RecordingRecordSaved { .. } => MirakcEventKind::RecordingRecordSaved,
            MirakcEventData::RecordingRecordRemoved { .. } => MirakcEventKind::RecordingRecordRemoved,
            MirakcEventData::RecordingContentRemoved { .. } => MirakcEventKind::RecordingContentRemoved,
            MirakcEventData::RecordingRecordBroken { .. } => MirakcEventKind::RecordingRecordBroken,
            MirakcEventData::OnairProgramChanged { .. } => MirakcEventKind::OnairProgramChanged,
        }
    }
}

/// What the event use case does with one event: its sink takes every kind.
pub enum UseCaseDecision {
    /// Publish the domain event.
    Publish(MirakcEvent),
    /// The data did not parse; the event is skipped.
    SkipUnparsable,
    /// The event type is unknown; nothing is published.
    IgnoreUnknown,
}

/// The use case's answer for an event from `url`, received at `at`.
pub open spec fn usecase_routed(
    url: Seq<char>,
    at: Timestamp,
    parsed: Option<Result<MirakcEventData, serde_json::Error>>,
    r: UseCaseDecision,
) -> bool {
    match parsed {
        None => r is IgnoreUnknown,
        Some(Err(_)) => r is SkipUnparsable,
        Some(Ok(d)) => match r {
            UseCaseDecision::Publish(ev) => assembled(ev, url, at, d),
            _ => false,
        },
    }
}

/// The event use case's decision for an event, given what parsing its data
/// according to its type gave (`None` where the type is unknown).
pub fn usecase_route(
    input: MirakcEventInput,
    parsed: Option<Result<MirakcEventData, serde_json::Error>>,
) -> (r: UseCaseDecision)
    requires
        parse_fits(input.event_type@, parsed),
    ensures
        usecase_routed(input.mirakc_url@, input.received_at, parsed, r),
{
    let MirakcEventInput { mirakc_url, event_type: _, data: _, received_at } = input;
    match parsed {
        None => UseCaseDecision::IgnoreUnknown,
        Some(Err(_)) => UseCaseDecision::SkipUnparsable,
        Some(Ok(d)) => UseCaseDecision::Publish(MirakcEvent::assemble(mirakc_url, received_at, d)),
    }
}

/// Each kind's event type text names that kind, and only that kind.
pub proof fn lemma_event_type_round_trip(k: MirakcEventKind)
    ensures
        kind_of_event_type(event_type_text(k)) == Some(k),
{
    match k {
        MirakcEventKind::TunerStatusChanged => {
            reveal_strlit("tuner.status-changed");
        },
        MirakcEventKind::EpgProgramsUpdated => {
            reveal_strlit("epg.programs-updated");
            reveal_strlit("tuner.status-changed");
            assert("epg.programs-updated"@[0] != "tuner.status-changed"@[0]);
        },
        MirakcEventKind::RecordingStarted => {
            reveal_strlit("recording.started");
            reveal_strlit("tuner.status-changed");
            assert("recording.started"@.len() != "tuner.status-changed"@.len());
            reveal_strlit("epg.programs-updated");
            assert("recording.started"@.len() != "epg.programs-updated"@.len());
        },
        MirakcEventKind::RecordingStopped => {
            reveal_strlit("recording.stopped");
            reveal_strlit("tuner.status-changed");
            assert("recording.stopped"@.len() != "tuner.status-changed"@.len());
            reveal_strlit("epg.programs-updated");
            assert("recording.stopped"@.len() != "epg.programs-updated"@.len());
            reveal_strlit("recording.started");
            assert("recording.stopped"@[12] != "recording.started"@[12]);
        },
        MirakcEventKind::RecordingFailed => {
            reveal_strlit("recording.failed");
            reveal_strlit("tuner.status-changed");
            assert("recording.failed"@.len() != "tuner.status-changed"@.len());
            reveal_strlit("epg.programs-updated");
            assert("recording.failed"@.len() != "epg.programs-updated"@.len());
            reveal_strlit("recording.started");
            assert("recording.failed"@.len() != "recording.started"@.len());
            reveal_strlit("recording.stopped");
            assert("recording.failed"@.len() != "recording.stopped"@.len());
        },
        MirakcEventKind::RecordingRescheduled => {
            reveal_strlit("recording.rescheduled");
            reveal_strlit("tuner.status-changed");
            assert("recording.rescheduled"@.len() != "tuner.status-changed"@.len());
            reveal_strlit("epg.programs-updated");
            assert("recording.rescheduled"@.len() != "epg.programs-updated"@.len());
            reveal_strlit("recording.started");
            assert("recording.rescheduled"@.len() != "recording.started"@.len());
            reveal_strlit("recording.stopped");
            assert("recording.rescheduled"@.len() != "recording.stopped"@.len());
            reveal_strlit("recording.failed");
            assert("recording.rescheduled"@.len() != "recording.failed"@.len());
        },
        MirakcEventKind::RecordingRecordSaved => {
            reveal_strlit("recording.record-saved");
            reveal_strlit("tuner.status-changed");
            assert("recording.record-saved"@.len() != "tuner.status-changed"@.len());
            reveal_strlit("epg.programs-updated");
            assert("recording.record-saved"@.len() != "epg.programs-updated"@.len());
            reveal_strlit("recording.started");
            assert("recording.record-saved"@.len() != "recording.started"@.len());
            reveal_strlit("recording.stopped");
            assert("recording.record-saved"@.len() != "recording.stopped"@.len());
            reveal_strlit("recording.failed");
            assert("recording.record-saved"@.len() != "recording.failed"@.len());
            reveal_strlit("recording.rescheduled");
            assert("recording.record-saved"@.len() != "recording.rescheduled"@.len());
        },
        MirakcEventKind::RecordingRecordRemoved => {
            reveal_strlit("recording.record-removed");
            reveal_strlit("tuner.status-changed");
            assert("recording.record-removed"@.len() != "tuner.status-changed"@.len());
            reveal_strlit("epg.programs-updated");
            assert("recording.record-removed"@.len() != "epg.programs-updated"@.len());
            reveal_strlit("recording.started");
            assert("recording.record-removed"@.len() != "recording.started"@.len());
            reveal_strlit("recording.stopped");
            assert("recording.record-removed"@.len() != "recording.stopped"@.len());
            reveal_strlit("recording.failed");
            assert("recording.record-removed"@.len() != "recording.failed"@.len());
            reveal_strlit("recording.rescheduled");
            assert("recording.record-removed"@.len() != "recording.rescheduled"@.len());
            reveal_strlit("recording.record-saved");
            assert("recording.record-removed"@.len() != "recording.record-saved"@.len());
        },
        MirakcEventKind::RecordingContentRemoved => {
            reveal_strlit("recording.content-removed");
            reveal_strlit("tuner.status-changed");
            assert("recording.content-removed"@.len() != "tuner.status-changed"@.len());
            reveal_strlit("epg.programs-updated");
            assert("recording.content-removed"@.len() != "epg.programs-updated"@.len());
            reveal_strlit("recording.started");
            assert("recording.content-removed"@.len() != "recording.started"@.len());
            reveal_strlit("recording.stopped");
            assert("recording.content-removed"@.len() != "recording.stopped"@.len());
            reveal_strlit("recording.failed");
            assert("recording.content-removed"@.len() != "recording.failed"@.len());
            reveal_strlit("recording.rescheduled");
            assert("recording.content-removed"@.len() != "recording.rescheduled"@.len());
            reveal_strlit("recording.record-saved");
            assert("recording.content-removed"@.len() != "recording.record-saved"@.len());
            reveal_strlit("recording.record-removed");
            assert("recording.content-removed"@.len() != "recording.record-removed"@.len());
        },
        MirakcEventKind::RecordingRecordBroken => {
            reveal_strlit("recording.record-broken");
            reveal_strlit("tuner.status-changed");
            assert("recording.record-broken"@.len() != "tuner.status-changed"@.len());
            reveal_strlit("epg.programs-updated");
            assert("recording.record-broken"@.len() != "epg.programs-updated"@.len());
            reveal_strlit("recording.started");
            assert("recording.record-broken"@.len() != "recording.started"@.len());
            reveal_strlit("recording.stopped");
            assert("recording.record-broken"@.len() != "recording.stopped"@.len());
            reveal_strlit("recording.failed");
            assert("recording.record-broken"@.len() != "recording.failed"@.len());
            reveal_strlit("recording.rescheduled");
            assert("recording.record-broken"@.len() != "recording.rescheduled"@.len());
            reveal_strlit("recording.record-saved");
            assert("recording.record-broken"@.len() != "recording.record-saved"@.len());
            reveal_strlit("recording.record-removed");
            assert("recording.record-broken"@.len() != "recording.record-removed"@.len());
            reveal_strlit("recording.content-removed");
            assert("recording.record-broken"@.len() != "recording.content-removed"@.len());
        },
        MirakcEventKind::OnairProgramChanged => {
            reveal_strlit("onair.program-changed");
            reveal_strlit("tuner.status-changed");
            assert("onair.program-changed"@.len() != "tuner.status-changed"@.len());
            reveal_strlit("epg.programs-updated");
            assert("onair.program-changed"@.len() != "epg.programs-updated"@.len());
            reveal_strlit("recording.started");
            assert("onair.program-changed"@.len() != "recording.started"@.len());
            reveal_strlit("recording.stopped");
            assert("onair.program-changed"@.len() != "recording.stopped"@.len());
            reveal_strlit("recording.failed");
            assert("onair.program-changed"@.len() != "recording.failed"@.len());
            reveal_strlit("recording.rescheduled");
            assert("onair.program-changed"@[0] != "recording.rescheduled"@[0]);
            reveal_strlit("recording.record-saved");
            assert("onair.program-changed"@.len() != "recording.record-saved"@.len());
            reveal_strlit("recording.record-removed");
            assert("onair.program-changed"@.len() != "recording.record-removed"@.len());
            reveal_strlit("recording.content-removed");
            assert("onair.program-changed"@.len() != "recording.content-removed"@.len());
            reveal_strlit("recording.record-broken");
            assert("onair.program-changed"@.len() != "recording.record-broken"@.len());
        },
    }
}

/// The handler publishes only events of the kind that the event type names,
/// and only to a configured sink; data that does not parse fails with an error
/// that workers drop rather than retry.
pub proof fn lemma_handler_publishes_named_kind(
    sinks: MirakcEventSinks,
    input: MirakcEventInput,
    parsed: Option<Result<MirakcEventData, serde_json::Error>>,
    r: Result<HandleDecision, MirakcEventError>,
)
    requires
        parse_fits(input.event_type@, parsed),
        handler_routed(sinks, input.mirakc_url@, input.received_at, parsed, r),
    ensures
        r matches Ok(HandleDecision::Publish(ev)) ==> Some(event_kind(ev)) == kind_of_event_type(
            input.event_type@,
        ) && has_sink(sinks, event_kind(ev)),
        parsed matches Some(Err(_)) ==> (r matches Err(e) && mirakc_event_error_action(e)
            == ErrorAction::Ignore),
        kind_of_event_type(input.event_type@) is None ==> (r matches Ok(HandleDecision::UnknownType)),
{
}

/// mirakc's event type texts name these kinds: `tuner.status-changed` a tuner
/// status change, `recording.started` a started recording, `recording.stopped`
/// a stopped one, and so on for each of the eleven texts; each kind's text is
/// the one that names it.
pub proof fn lemma_event_type_names()
    ensures
        kind_of_event_type("tuner.status-changed"@) == Some(MirakcEventKind::TunerStatusChanged),
        event_type_text(MirakcEventKind::TunerStatusChanged) == "tuner.status-changed"@,
        kind_of_event_type("epg.programs-updated"@) == Some(MirakcEventKind::EpgProgramsUpdated),
        event_type_text(MirakcEventKind::EpgProgramsUpdated) == "epg.programs-updated"@,
        kind_of_event_type("recording.started"@) == Some(MirakcEventKind::RecordingStarted),
        event_type_text(MirakcEventKind::RecordingStarted) == "recording.started"@,
        kind_of_event_type("recording.stopped"@) == Some(MirakcEventKind::RecordingStopped),
        event_type_text(MirakcEventKind::RecordingStopped) == "recording.stopped"@,
        kind_of_event_type("recording.failed"@) == Some(MirakcEventKind::RecordingFailed),
        event_type_text(MirakcEventKind::RecordingFailed) == "recording.failed"@,
        kind_of_event_type("recording.rescheduled"@) == Some(MirakcEventKind::RecordingRescheduled),
        event_type_text(MirakcEventKind::RecordingRescheduled) == "recording.rescheduled"@,
        kind_of_event_type("recording.record-saved"@) == Some(MirakcEventKind::RecordingRecordSaved),
        event_type_text(MirakcEventKind::RecordingRecordSaved) == "recording.record-saved"@,
        kind_of_event_type("recording.record-removed"@) == Some(MirakcEventKind::RecordingRecordRemoved),
        event_type_text(MirakcEventKind::RecordingRecordRemoved) == "recording.record-removed"@,
        kind_of_event_type("recording.content-removed"@) == Some(MirakcEventKind::RecordingContentRemoved),
        event_type_text(MirakcEventKind::RecordingContentRemoved) == "recording.content-removed"@,
        kind_of_event_type("recording.record-broken"@) == Some(MirakcEventKind::RecordingRecordBroken),
        event_type_text(MirakcEventKind::RecordingRecordBroken) == "recording.record-broken"@,
        kind_of_event_type("onair.program-changed"@) == Some(MirakcEventKind::OnairProgramChanged),
        event_type_text(MirakcEventKind::OnairProgramChanged) == "onair.program-changed"@,
{
    lemma_event_type_round_trip(MirakcEventKind::TunerStatusChanged);
    lemma_event_type_round_trip(MirakcEventKind::EpgProgramsUpdated);
    lemma_event_type_round_trip(MirakcEventKind::RecordingStarted);
    lemma_event_type_round_trip(MirakcEventKind::RecordingStopped);
    lemma_event_type_round_trip(MirakcEventKind::RecordingFailed);
    lemma_event_type_round_trip(MirakcEventKind::RecordingRescheduled);
    lemma_event_type_round_trip(MirakcEventKind::RecordingRecordSaved);
    lemma_event_type_round_trip(MirakcEventKind::RecordingRecordRemoved);
    lemma_event_type_round_trip(MirakcEventKind::RecordingContentRemoved);
    lemma_event_type_round_trip(MirakcEventKind::RecordingRecordBroken);
    lemma_event_type_round_trip(MirakcEventKind::OnairProgramChanged);
}

/// Each kind of event is published to the sink of its own name, and to no
/// other: whether a kind has a sink is exactly whether that field is set.
pub proof fn lemma_sink_of_each_kind(s: MirakcEventSinks)
    ensures
        has_sink(s, MirakcEventKind::TunerStatusChanged) == s.tuner_status_changed,
        has_sink(s, MirakcEventKind::EpgProgramsUpdated) == s.epg_programs_updated,
        has_sink(s, MirakcEventKind::RecordingStarted) == s.recording_started,
        has_sink(s, MirakcEventKind::RecordingStopped) == s.recording_stopped,
        has_sink(s, MirakcEventKind::RecordingFailed) == s.recording_failed,
        has_sink(s, MirakcEventKind::RecordingRescheduled) == s.recording_rescheduled,
        has_sink(s, MirakcEventKind::RecordingRecordSaved) == s.recording_record_saved,
        has_sink(s, MirakcEventKind::RecordingRecordRemoved) == s.recording_record_removed,
        has_sink(s, MirakcEventKind::RecordingContentRemoved) == s.recording_content_removed,
        has_sink(s, MirakcEventKind::RecordingRecordBroken) == s.recording_record_broken,
        has_sink(s, MirakcEventKind::OnairProgramChanged) == s.onair_program_changed,
{
}

/// Parsed data and domain events are of the kind that their variant names, and
/// the event built from some data is of that data's kind.
pub proof fn lemma_kinds_follow_variants(
    ev: MirakcEvent,
    url: Seq<char>,
    at: Timestamp,
    data: MirakcEventData,
)
    ensures
        assembled(ev, url, at, data) ==> event_kind(ev) == data_kind(data),
        ev is TunerStatusChanged <==> event_kind(ev) == MirakcEventKind::TunerStatusChanged,
        ev is EpgProgramsUpdated <==> event_kind(ev) == MirakcEventKind::EpgProgramsUpdated,
        ev is RecordingStarted <==> event_kind(ev) == MirakcEventKind::RecordingStarted,
        ev is RecordingStopped <==> event_kind(ev) == MirakcEventKind::RecordingStopped,
        ev is RecordingFailed <==> event_kind(ev) == MirakcEventKind::RecordingFailed,
        ev is RecordingRescheduled <==> event_kind(ev) == MirakcEventKind::RecordingRescheduled,
        ev is RecordingRecordSaved <==> event_kind(ev) == MirakcEventKind::RecordingRecordSaved,
        ev is RecordingRecordRemoved <==> event_kind(ev) == MirakcEventKind::RecordingRecordRemoved,
        ev is RecordingContentRemoved <==> event_kind(ev) == MirakcEventKind::RecordingContentRemoved,
        ev is RecordingRecordBroken <==> event_kind(ev) == MirakcEventKind::RecordingRecordBroken,
        ev is OnairProgramChanged <==> event_kind(ev) == MirakcEventKind::OnairProgramChanged,
        data is TunerStatusChanged <==> data_kind(data) == MirakcEventKind::TunerStatusChanged,
        data is EpgProgramsUpdated <==> data_kind(data) == MirakcEventKind::EpgProgramsUpdated,
        data is RecordingStarted <==> data_kind(data) == MirakcEventKind::RecordingStarted,
        data is RecordingStopped <==> data_kind(data) == MirakcEventKind::RecordingStopped,
        data is RecordingFailed <==> data_kind(data) == MirakcEventKind::RecordingFailed,
        data is RecordingRescheduled <==> data_kind(data) == MirakcEventKind::RecordingRescheduled,
        data is RecordingRecordSaved <==> data_kind(data) == MirakcEventKind::RecordingRecordSaved,
        data is RecordingRecordRemoved <==> data_kind(data) == MirakcEventKind::RecordingRecordRemoved,
        data is RecordingContentRemoved <==> data_kind(data) == MirakcEventKind::RecordingContentRemoved,
        data is RecordingRecordBroken <==> data_kind(data) == MirakcEventKind::RecordingRecordBroken,
        data is OnairProgramChanged <==> data_kind(data) == MirakcEventKind::OnairProgramChanged,
{
}

} // verus!
