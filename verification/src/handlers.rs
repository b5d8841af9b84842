//! Handlers of single events.

use crate::error_handling::{EpgUpdateError, EpgUpdaterError};
use crate::events::{EpgProgramsUpdatedEvent, EpgStoredEvent};
use vstd::prelude::*;

verus! {

/// A handler that turns an input event into at most one output event.
pub trait StreamHandler<I, O, E> {
    fn handle(&self, event: I) -> Result<Option<O>, E>;
}

/// The handler of "EPG programs updated" events. The update itself is done
/// by the EPG updater worker; the handler emits no event of its own.
pub struct EpgUpdateHandler {}

impl EpgUpdateHandler {
    /// A new handler.
    pub fn new() -> (r: EpgUpdateHandler) {
        EpgUpdateHandler {  }
    }
}

impl Default for EpgUpdateHandler {
    fn default() -> (r: EpgUpdateHandler) {
        EpgUpdateHandler::new()
    }
}

impl StreamHandler<EpgProgramsUpdatedEvent, EpgStoredEvent, EpgUpdateError> for EpgUpdateHandler {
    fn handle(&self, event: EpgProgramsUpdatedEvent) -> (r: Result<
        Option<EpgStoredEvent>,
        EpgUpdateError,
    >)
        ensures
            r matches Ok(None),
    {
        Ok(None)
    }
}

/// The message of the stand-in stream worker for EPG updates.
pub open spec fn injected_at_runtime_message() -> Seq<char> {
    "Worker implementation will be injected at runtime"@
}

/// The stream worker entry point for "EPG programs updated" events. The
/// worker that does the update is supplied at run time; this entry point
/// always fails with a mirakc API error saying so.
pub fn process_epg_programs_updated_event(event: EpgProgramsUpdatedEvent) -> (r: Result<
    EpgStoredEvent,
    EpgUpdaterError,
>)
    ensures
        r matches Err(EpgUpdaterError::MirakcApiError(m)) && m@ == injected_at_runtime_message(),
{
    Err(
        EpgUpdaterError::MirakcApiError(
            String::from_str("Worker implementation will be injected at runtime"),
        ),
    )
}

} // verus!
