//! Moving finished recordings from the tuner into the object store: where a
//! record's stream is fetched from and under which name it is stored.

use crate::text::decimal_text;
use vstd::prelude::*;

verus! {

/// The URL of a record's transport stream on the tuner.
pub open spec fn record_stream_url_text(tuner_url: Seq<char>, record_id: Seq<char>) -> Seq<char> {
    tuner_url + "/api/recording/records/"@ + record_id + "/stream"@
}

/// The URL of a record's transport stream on the tuner.
pub fn record_stream_url(tuner_url: &str, record_id: &str) -> (r: String)
    ensures
        r@ == record_stream_url_text(tuner_url@, record_id@),
{
    String::from_str(tuner_url).concat("/api/recording/records/").concat(record_id).concat(
        "/stream",
    )
}

/// The object name that a record is stored under.
pub open spec fn record_object_name_text(record_id: Seq<char>) -> Seq<char> {
    "record/"@ + record_id + ".ts"@
}

/// The object name that a record is stored under.
pub fn record_object_name(record_id: &str) -> (r: String)
    ensures
        r@ == record_object_name_text(record_id@),
{
    String::from_str("record/").concat(record_id).concat(".ts")
}

/// The standard reason phrase of an HTTP status code, where it has one: the
/// table of `http::StatusCode::canonical_reason`.
pub uninterp spec fn status_reason(code: u16) -> Option<Seq<char>>;

/// The text of an HTTP status as `reqwest::StatusCode` displays it: the code,
/// a space, and the reason phrase or `<unknown status code>`.
pub open spec fn status_text(code: u16) -> Seq<char> {
    decimal_text(code as nat) + " "@ + reason_or_unknown(status_reason(code))
}

/// A reason phrase, or `<unknown status code>` where there is none.
pub open spec fn reason_or_unknown(reason: Option<Seq<char>>) -> Seq<char> {
    match reason {
        Some(t) => t,
        None => "<unknown status code>"@,
    }
}

/// Displays an HTTP status through `reqwest::StatusCode` (the `Display` of
/// `http::StatusCode`). The contract claims what that `Display` writes: the
/// code in decimal, a space, and `canonical_reason()` or
/// `<unknown status code>`; the reason table itself is only the name
/// `status_reason`. `StatusCode::from_u16` accepts exactly the codes 100 to 999.
#[verifier::external_body]
fn display_status(code: u16) -> (r: String)
    requires
        100 <= code <= 999,
    ensures
        r@ == decimal_text(code as nat) + " "@ + reason_or_unknown(status_reason(code)),
{
    match reqwest::StatusCode::from_u16(code) {
        Ok(status) => format!("{}", status),
        Err(_) => String::new(),
    }
}

/// The failure message for a record stream answered with another status than 200.
pub open spec fn record_stream_failure_text(status: u16) -> Seq<char> {
    "Failed to get record stream response: "@ + status_text(status)
}

/// Whether the tuner's answer to a record stream request can be stored: only
/// status 200 can; for any other status the failure message is returned. The
/// status is an HTTP status code, which lies between 100 and 999.
pub fn check_record_stream_status(status: u16) -> (r: Result<(), String>)
    requires
        100 <= status <= 999,
    ensures
        r is Ok <==> status == 200,
        r matches Err(m) ==> m@ == record_stream_failure_text(status),
{
    if status != 200 {
        let shown = display_status(status);
        return Err(
            String::from_str("Failed to get record stream response: ").concat(shown.as_str()),
        );
    }
    Ok(())
}

} // verus!
