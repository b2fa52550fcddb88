//! Server-sent events (SSE) streaming support.

use vstd::prelude::*;

verus! {

/// SSE event from the Letta API.
#[derive(Debug)]
pub struct SseEvent {
    /// Event type.
    pub event_type: Option<String>,
    /// Event data.
    pub data: String,
    /// Event ID.
    pub id: Option<String>,
}

/// Whether the data of a server-sent event carries a payload to parse: events
/// with no data, and the `[DONE]` marker that ends a stream, carry none.
pub open spec fn spec_carries_payload(data: Seq<char>) -> bool {
    data.len() > 0 && data != "[DONE]"@
}

/// Whether the data of a server-sent event carries a payload to parse.
pub fn carries_payload(data: &str) -> (r: bool)
    ensures
        r == spec_carries_payload(data@),
{
    let d = crate::text::chars_of(data);
    d.len() > 0 && !crate::text::chars_eq(&d, &crate::text::chars_of("[DONE]"))
}

/// The message of a failure of the event stream itself.
pub fn stream_error_message(detail: &str) -> (r: String)
    ensures
        r@ == "SSE stream error: "@ + detail@,
{
    let mut r = String::from_str("SSE stream error: ");
    r.append(detail);
    r
}

} // verus!
