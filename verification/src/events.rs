//! The events that flow through KuRec: mirakc's events, as received and as
//! domain events, and the events that KuRec publishes itself.

use vstd::prelude::*;

verus! {

/// Marker for the types that travel as events.
pub trait Event {}

/// A UTC point in time: seconds since the Unix epoch and the nanoseconds
/// within that second.
#[derive(Debug, Clone, Copy, PartialEq, Eq, Structural)]
pub struct Timestamp {
    pub secs: i64,
    pub nanos: u32,
}

/// Why a recording failed.
#[derive(Debug, Clone, PartialEq, Eq)]
pub enum RecordingFailedReason {
    StartRecordingFailed { message: String },
    IoError { message: String, os_error: Option<i32> },
    PipelineError { exit_code: i32 },
    NeedRescheduling,
    ScheduleExpired,
    RemovedFromEpg,
}

/// The state of a recording.
#[derive(Debug, Clone, Copy, PartialEq, Eq, Structural)]
pub enum RecordingStatus {
    Recording,
    Finished,
    Canceled,
    Failed,
}

/// An event as it arrives from mirakc's event stream: its type and its data,
/// a JSON text.
pub struct MirakcEventInput {
    pub mirakc_url: String,
    pub event_type: String,
    pub data: String,
    pub received_at: Timestamp,
}

/// A tuner changed its status.
#[derive(Debug, Clone)]
pub struct TunerStatusChangedEvent {
    pub mirakc_url: String,
    pub tuner_index: usize,
    pub received_at: Timestamp,
}

/// The EPG programs of a service were updated.
#[derive(Debug, Clone)]
pub struct EpgProgramsUpdatedEvent {
    pub mirakc_url: String,
    pub service_id: i64,
    pub received_at: Timestamp,
}

/// A recording started.
#[derive(Debug, Clone)]
pub struct RecordingStartedEvent {
    pub mirakc_url: String,
    pub program_id: u64,
    pub received_at: Timestamp,
}

/// A recording stopped.
#[derive(Debug, Clone)]
pub struct RecordingStoppedEvent {
    pub mirakc_url: String,
    pub program_id: u64,
    pub received_at: Timestamp,
}

/// A recording failed.
#[derive(Debug, Clone)]
pub struct RecordingFailedEvent {
    pub mirakc_url: String,
    pub program_id: u64,
    pub reason: RecordingFailedReason,
    pub received_at: Timestamp,
}

/// A recording was rescheduled.
#[derive(Debug, Clone)]
pub struct RecordingRescheduledEvent {
    pub mirakc_url: String,
    pub program_id: u64,
    pub received_at: Timestamp,
}

/// A record was saved.
#[derive(Debug, Clone)]
pub struct RecordingRecordSavedEvent {
    pub mirakc_url: String,
    pub record_id: String,
    pub recording_status: RecordingStatus,
    pub received_at: Timestamp,
}

/// A record was removed.
#[derive(Debug, Clone)]
pub struct RecordingRecordRemovedEvent {
    pub mirakc_url: String,
    pub record_id: String,
    pub received_at: Timestamp,
}

/// The content of a record was removed.
#[derive(Debug, Clone)]
pub struct RecordingContentRemovedEvent {
    pub mirakc_url: String,
    pub record_id: String,
    pub received_at: Timestamp,
}

/// A record is broken.
#[derive(Debug, Clone)]
pub struct RecordingRecordBrokenEvent {
    pub mirakc_url: String,
    pub record_id: String,
    pub reason: String,
    pub received_at: Timestamp,
}

/// The program on air changed.
#[derive(Debug, Clone)]
pub struct OnairProgramChangedEvent {
    pub mirakc_url: String,
    pub service_id: i64,
    pub received_at: Timestamp,
}

/// The EPG of a service was stored; it triggers the workers downstream.
#[derive(Debug, Clone, PartialEq, Eq)]
pub struct EpgStoredEvent {
    /// Base URL of the mirakc that reported the programs.
    pub mirakc_url: String,
    /// Mirakurun service id.
    pub service_id: i64,
}

/// The EPG of a program was updated in the key-value store.
pub struct KvEpgUpdated {
    pub program_id: u64,
    pub service_id: u64,
    pub tuner_url: String,
}

impl Event for TunerStatusChangedEvent {}

impl Event for EpgProgramsUpdatedEvent {}

impl Event for RecordingStartedEvent {}

impl Event for RecordingStoppedEvent {}

impl Event for RecordingFailedEvent {}

impl Event for RecordingRescheduledEvent {}

impl Event for RecordingRecordSavedEvent {}

impl Event for RecordingRecordRemovedEvent {}

impl Event for RecordingContentRemovedEvent {}

impl Event for RecordingRecordBrokenEvent {}

impl Event for OnairProgramChangedEvent {}

impl Event for EpgStoredEvent {}

impl EpgStoredEvent {
    /// A copy of the event.
    pub fn duplicate(&self) -> (r: EpgStoredEvent)
        ensures
            r.mirakc_url@ == self.mirakc_url@,
            r.service_id == self.service_id,
    {
        EpgStoredEvent { mirakc_url: self.mirakc_url.clone(), service_id: self.service_id }
    }
}

} // verus!
