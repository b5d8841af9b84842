//! The JetStream streams that KuRec's events travel on, and the connection
//! settings of the application.

use crate::epg_process::{EpgUpdateEvent, RecordingScheduleEvent};
use crate::events::EpgStoredEvent;
use crate::mirakc_dispatch::MirakcEventKind;
use vstd::prelude::*;

verus! {

/// What `heck::ToKebabCase::to_kebab_case` returns for a text.
pub uninterp spec fn kebab_case(text: Seq<char>) -> Seq<char>;

/// Calls `heck::ToKebabCase::to_kebab_case`; the contract claims only that the
/// result is the name `kebab_case` of the text.
#[verifier::external_body]
fn to_kebab_case(text: &str) -> (r: String)
    ensures
        r@ == kebab_case(text@),
{
    heck::ToKebabCase::to_kebab_case(text)
}

/// The name of the stream of an event type: the name given explicitly, else
/// the type's name in kebab case.
pub fn event_stream_name(type_ident: &str, stream: Option<&str>) -> (r: String)
    ensures
        r@ == match stream {
            Some(s) => s@,
            None => kebab_case(type_ident@),
        },
{
    match stream {
        Some(s) => String::from_str(s),
        None => to_kebab_case(type_ident),
    }
}

/// The stream that carries every kind of mirakc event.
pub open spec fn mirakc_events_stream_name() -> Seq<char> {
    "mirakc-events"@
}

impl MirakcEventKind {
    /// The stream that events of this kind are published to: all of mirakc's
    /// events share one stream.
    pub fn stream_name(&self) -> (r: String)
        ensures
            r@ == mirakc_events_stream_name(),
    {
        event_stream_name(self.event_type(), Some("mirakc-events"))
    }
}

impl EpgStoredEvent {
    /// The stream that the event is published to.
    pub fn stream_name() -> (r: String)
        ensures
            r@ == "kurec-epg-updated"@,
    {
        event_stream_name("EpgStoredEvent", Some("kurec-epg-updated"))
    }
}

impl EpgUpdateEvent {
    /// The stream and the subject of the event.
    pub fn stream_and_subject() -> (r: (&'static str, &'static str))
        ensures
            r.0@ == "epg"@,
            r.1@ == "epg.update"@,
    {
        ("epg", "epg.update")
    }
}

impl RecordingScheduleEvent {
    /// The stream and the subject of the event.
    pub fn stream_and_subject() -> (r: (&'static str, &'static str))
        ensures
            r.0@ == "recording"@,
            r.1@ == "recording.schedule"@,
    {
        ("recording", "recording.schedule")
    }
}

/// Where a stream keeps its messages.
#[derive(Debug, Clone, Copy, PartialEq, Eq, Structural)]
pub enum StorageKind {
    File,
    Memory,
}

/// When a stream lets go of its messages.
#[derive(Debug, Clone, Copy, PartialEq, Eq, Structural)]
pub enum RetentionKind {
    Limits,
    Interest,
    WorkQueue,
}

/// Which messages a full stream drops.
#[derive(Debug, Clone, Copy, PartialEq, Eq, Structural)]
pub enum DiscardKind {
    Old,
    New,
}

/// The settings of a stream.
pub struct StreamConfig {
    /// How long a message is kept, in seconds.
    pub max_age_secs: u64,
    pub storage: StorageKind,
    pub retention: RetentionKind,
    pub discard: DiscardKind,
    pub description: String,
}

/// A stream: its name and its settings.
pub struct EventStream {
    pub name: String,
    pub config: StreamConfig,
}

/// Seven days, in seconds.
pub const SEVEN_DAYS_SECS: u64 = 604800;

/// The stream of mirakc's events.
pub struct MirakcEventStreamDef;

/// The stream of KuRec's own events.
pub struct KurecEventStreamDef;

/// A stream that keeps its messages in files for seven days, within limits,
/// dropping the oldest when full.
pub open spec fn week_long_file_stream(s: EventStream, name: Seq<char>, description: Seq<char>) -> bool {
    &&& s.name@ == name
    &&& s.config.max_age_secs == SEVEN_DAYS_SECS
    &&& s.config.storage == StorageKind::File
    &&& s.config.retention == RetentionKind::Limits
    &&& s.config.discard == DiscardKind::Old
    &&& s.config.description@ == description
}

/// A week-long file stream.
fn week_long_file_stream_of(name: &str, description: &str) -> (r: EventStream)
    ensures
        week_long_file_stream(r, name@, description@),
{
    EventStream {
        name: String::from_str(name),
        config: StreamConfig {
            max_age_secs: SEVEN_DAYS_SECS,
            storage: StorageKind::File,
            retention: RetentionKind::Limits,
            discard: DiscardKind::Old,
            description: String::from_str(description),
        },
    }
}

impl MirakcEventStreamDef {
    /// The definition of the stream.
    pub fn event_stream() -> (r: EventStream)
        ensures
            week_long_file_stream(r, "mirakc-events"@, "mirakc events stream"@),
    {
        week_long_file_stream_of("mirakc-events", "mirakc events stream")
    }
}

impl KurecEventStreamDef {
    /// The definition of the stream.
    pub fn event_stream() -> (r: EventStream)
        ensures
            week_long_file_stream(r, "kurec-events"@, "kurec events stream"@),
    {
        week_long_file_stream_of("kurec-events", "kurec events stream")
    }
}

/// The stream of mirakc's events.
pub fn mirakc_event_stream() -> (r: EventStream)
    ensures
        week_long_file_stream(r, "mirakc-events"@, "mirakc events stream"@),
{
    MirakcEventStreamDef::event_stream()
}

/// The stream of KuRec's own events.
pub fn kurec_event_stream() -> (r: EventStream)
    ensures
        week_long_file_stream(r, "kurec-events"@, "kurec events stream"@),
{
    KurecEventStreamDef::event_stream()
}

/// The settings of the application.
pub struct AppConfig {
    /// The URL of the NATS server.
    pub nats_url: String,
}

/// The NATS URL used when none is configured.
pub open spec fn default_nats_url() -> Seq<char> {
    "nats://localhost:4222"@
}

/// The NATS URL: the configured one (the `NATS_URL` environment variable),
/// else the local default.
pub fn nats_url_or_default(configured: Option<String>) -> (r: String)
    ensures
        r@ == match configured {
            Some(u) => u@,
            None => default_nats_url(),
        },
{
    match configured {
        Some(u) => u,
        None => String::from_str("nats://localhost:4222"),
    }
}

impl AppConfig {
    /// The settings, given the configured NATS URL if any.
    pub fn from_nats_url(configured: Option<String>) -> (r: AppConfig)
        ensures
            r.nats_url@ == match configured {
                Some(u) => u@,
                None => default_nats_url(),
            },
    {
        AppConfig { nats_url: nats_url_or_default(configured) }
    }
}

} // verus!
