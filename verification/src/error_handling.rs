//! Error classification: which failures a worker retries and which it drops.

use vstd::prelude::*;

verus! {

/// What a worker does with a message whose processing failed.
#[derive(Debug, Clone, Copy, PartialEq, Eq, Structural)]
pub enum ErrorAction {
    /// Leave the message unacknowledged so that it is delivered again.
    Retry,
    /// Acknowledge the message and go on.
    Ignore,
}

/// An error that knows how a worker should react to it.
pub trait ClassifyError {
    fn error_action(&self) -> ErrorAction;
}

/// `prefix` followed by `detail`, as `format!("{prefix}{detail}")` builds it.
pub fn prefixed(prefix: &str, detail: &str) -> (r: String)
    ensures
        r@ == prefix@ + detail@,
{
    String::from_str(prefix).concat(detail)
}

/// Failures of the EPG updater worker.
#[derive(Debug)]
pub enum EpgUpdaterError {
    MirakcApiError(String),
    KvsStorageError(String),
    NotificationError(String),
    InvalidProgramData(String),
}

/// The action for each EPG updater failure: everything but invalid program
/// data is retried.
pub open spec fn epg_updater_error_action(e: EpgUpdaterError) -> ErrorAction {
    match e {
        EpgUpdaterError::InvalidProgramData(_) => ErrorAction::Ignore,
        _ => ErrorAction::Retry,
    }
}

impl ClassifyError for EpgUpdaterError {
    fn error_action(&self) -> (r: ErrorAction)
        ensures
            r == epg_updater_error_action(*self),
    {
        match self {
            EpgUpdaterError::MirakcApiError(_) => ErrorAction::Retry,
            EpgUpdaterError::KvsStorageError(_) => ErrorAction::Retry,
            EpgUpdaterError::NotificationError(_) => ErrorAction::Retry,
            EpgUpdaterError::InvalidProgramData(_) => ErrorAction::Ignore,
        }
    }
}

impl EpgUpdaterError {
    /// The error's message, as its `Display` shows it.
    pub fn message(&self) -> (r: String)
        ensures
            r@ == match *self {
                EpgUpdaterError::MirakcApiError(s) => "Mirakc API error: "@ + s@,
                EpgUpdaterError::KvsStorageError(s) => "KVS storage error: "@ + s@,
                EpgUpdaterError::NotificationError(s) => "Notification error: "@ + s@,
                EpgUpdaterError::InvalidProgramData(s) => "Invalid program data: "@ + s@,
            },
    {
        match self {
            EpgUpdaterError::MirakcApiError(s) => prefixed("Mirakc API error: ", s.as_str()),
            EpgUpdaterError::KvsStorageError(s) => prefixed("KVS storage error: ", s.as_str()),
            EpgUpdaterError::NotificationError(s) => prefixed(
                "Notification error: ",
                s.as_str(),
            ),
            EpgUpdaterError::InvalidProgramData(s) => prefixed(
                "Invalid program data: ",
                s.as_str(),
            ),
        }
    }
}

/// Failures of the EPG event processor.
#[derive(Debug)]
pub enum EpgProcessError {
    InvalidProgram(String),
    ProcessingError(String),
}

/// An invalid program is dropped, a processing error is retried.
pub open spec fn epg_process_error_action(e: EpgProcessError) -> ErrorAction {
    match e {
        EpgProcessError::InvalidProgram(_) => ErrorAction::Ignore,
        EpgProcessError::ProcessingError(_) => ErrorAction::Retry,
    }
}

impl ClassifyError for EpgProcessError {
    fn error_action(&self) -> (r: ErrorAction)
        ensures
            r == epg_process_error_action(*self),
    {
        match self {
            EpgProcessError::InvalidProgram(_) => ErrorAction::Ignore,
            EpgProcessError::ProcessingError(_) => ErrorAction::Retry,
        }
    }
}

impl EpgProcessError {
    /// The error's message, as its `Display` shows it.
    pub fn message(&self) -> (r: String)
        ensures
            r@ == match *self {
                EpgProcessError::InvalidProgram(s) => "Invalid program: "@ + s@,
                EpgProcessError::ProcessingError(s) => "Processing error: "@ + s@,
            },
    {
        match self {
            EpgProcessError::InvalidProgram(s) => prefixed("Invalid program: ", s.as_str()),
            EpgProcessError::ProcessingError(s) => prefixed("Processing error: ", s.as_str()),
        }
    }
}

/// Failures of the EPG update handler.
#[derive(Debug)]
pub enum EpgUpdateError {
    Repository(anyhow::Error),
    SinkError(anyhow::Error),
    MirakcClient(anyhow::Error),
    Serialization(serde_json::Error),
}

/// Repository and mirakc client failures are retried; failures to publish
/// or to (de)serialise are dropped.
pub open spec fn epg_update_error_action(e: EpgUpdateError) -> ErrorAction {
    match e {
        EpgUpdateError::Repository(_) => ErrorAction::Retry,
        EpgUpdateError::MirakcClient(_) => ErrorAction::Retry,
        EpgUpdateError::SinkError(_) => ErrorAction::Ignore,
        EpgUpdateError::Serialization(_) => ErrorAction::Ignore,
    }
}

impl ClassifyError for EpgUpdateError {
    fn error_action(&self) -> (r: ErrorAction)
        ensures
            r == epg_update_error_action(*self),
    {
        match self {
            EpgUpdateError::Repository(_) => ErrorAction::Retry,
            EpgUpdateError::MirakcClient(_) => ErrorAction::Retry,
            EpgUpdateError::SinkError(_) => ErrorAction::Ignore,
            EpgUpdateError::Serialization(_) => ErrorAction::Ignore,
        }
    }
}

/// Failures of the mirakc event handler.
#[derive(Debug)]
pub enum MirakcEventError {
    Serialization(serde_json::Error),
    Publish(anyhow::Error),
}

/// Event data that does not parse is dropped; a failed publish is retried.
pub open spec fn mirakc_event_error_action(e: MirakcEventError) -> ErrorAction {
    match e {
        MirakcEventError::Serialization(_) => ErrorAction::Ignore,
        MirakcEventError::Publish(_) => ErrorAction::Retry,
    }
}

impl ClassifyError for MirakcEventError {
    fn error_action(&self) -> (r: ErrorAction)
        ensures
            r == mirakc_event_error_action(*self),
    {
        match self {
            MirakcEventError::Serialization(_) => ErrorAction::Ignore,
            MirakcEventError::Publish(_) => ErrorAction::Retry,
        }
    }
}

/// Across the workers, data that cannot be decoded or is invalid is dropped,
/// while failures of the services around them (mirakc, the store, the
/// notifier, the sinks of mirakc's events) are retried; only the EPG update
/// handler drops failed publishes.
pub proof fn lemma_failure_policy(
    text: String,
    json: serde_json::Error,
    cause: anyhow::Error,
)
    ensures
        epg_updater_error_action(EpgUpdaterError::InvalidProgramData(text)) == ErrorAction::Ignore,
        epg_process_error_action(EpgProcessError::InvalidProgram(text)) == ErrorAction::Ignore,
        epg_update_error_action(EpgUpdateError::Serialization(json)) == ErrorAction::Ignore,
        mirakc_event_error_action(MirakcEventError::Serialization(json)) == ErrorAction::Ignore,
        epg_updater_error_action(EpgUpdaterError::MirakcApiError(text)) == ErrorAction::Retry,
        epg_updater_error_action(EpgUpdaterError::KvsStorageError(text)) == ErrorAction::Retry,
        epg_updater_error_action(EpgUpdaterError::NotificationError(text)) == ErrorAction::Retry,
        epg_process_error_action(EpgProcessError::ProcessingError(text)) == ErrorAction::Retry,
        epg_update_error_action(EpgUpdateError::Repository(cause)) == ErrorAction::Retry,
        epg_update_error_action(EpgUpdateError::MirakcClient(cause)) == ErrorAction::Retry,
        mirakc_event_error_action(MirakcEventError::Publish(cause)) == ErrorAction::Retry,
        epg_update_error_action(EpgUpdateError::SinkError(cause)) == ErrorAction::Ignore,
{
}

} // verus!
