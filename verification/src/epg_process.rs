//! Turning an EPG update into a recording schedule.

use crate::error_handling::{prefixed, EpgProcessError};
use crate::text::{signed_decimal_string, signed_decimal_text};
use vstd::prelude::*;

verus! {

/// An EPG update of one program.
#[derive(Debug)]
pub struct EpgUpdateEvent {
    pub program_id: String,
    pub title: String,
    pub description: String,
    pub start_time: i64,
    pub end_time: i64,
    pub channel: String,
}

/// A request to record one program.
#[derive(Debug)]
pub struct RecordingScheduleEvent {
    pub program_id: String,
    pub title: String,
    pub start_time: i64,
    pub end_time: i64,
    pub channel: String,
}

/// The message of an invalid time range.
pub open spec fn time_range_message(start: i64, end: i64) -> Seq<char> {
    "Invalid time range: "@ + signed_decimal_text(start as int) + " - "@ + signed_decimal_text(
        end as int,
    )
}

/// Validates an EPG update and schedules the recording of its program. A
/// program whose time range is empty or reversed, or whose title is empty, is
/// invalid.
pub fn process_epg_event(event: EpgUpdateEvent) -> (r: Result<
    RecordingScheduleEvent,
    EpgProcessError,
>)
    ensures
        event.start_time >= event.end_time ==> (r matches Err(EpgProcessError::InvalidProgram(m))
            && m@ == time_range_message(event.start_time, event.end_time)),
        event.start_time < event.end_time && event.title@.len() == 0 ==> (r matches Err(
            EpgProcessError::InvalidProgram(m),
        ) && m@ == "Empty title"@),
        r is Ok <==> event.start_time < event.end_time && event.title@.len() > 0,
        r matches Ok(s) ==> s.program_id == event.program_id && s.title == event.title
            && s.start_time == event.start_time && s.end_time == event.end_time && s.channel
            == event.channel,
{
    if event.start_time >= event.end_time {
        let start = signed_decimal_string(event.start_time);
        let end = signed_decimal_string(event.end_time);
        let message = prefixed("Invalid time range: ", start.as_str()).concat(" - ").concat(
            end.as_str(),
        );
        return Err(EpgProcessError::InvalidProgram(message));
    }
    if event.title.as_str().is_empty() {
        return Err(EpgProcessError::InvalidProgram(String::from_str("Empty title")));
    }
    Ok(
        RecordingScheduleEvent {
            program_id: event.program_id,
            title: event.title,
            start_time: event.start_time,
            end_time: event.end_time,
            channel: event.channel,
        },
    )
}

} // verus!
