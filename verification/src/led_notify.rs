//! The HTTP request that tells the LED controller about an event.
//!
//! Sending it (on a detached thread, fire and forget) is I/O and stays
//! outside the library.
use vstd::prelude::*;
use crate::text::{decimal_chars, push_decimal, push_str, string_of};

verus! {

/// The event sent the moment a wake word is detected.
pub const WW_DETECTED_EVENT: &'static str = "ww_detected";

/// The JSON body `{"event":"<event>"}`.
pub open spec fn event_body(event: Seq<char>) -> Seq<char> {
    "{\"event\":\""@ + event + "\"}"@
}

/// The request that posts `event` to the controller's `/api/event`.
pub fn event_request(endpoint: &str, event: &str) -> (r: String)
    ensures
        r@ == "POST /api/event HTTP/1.1\r\nHost: "@ + endpoint@
            + "\r\nContent-Type: application/json\r\nContent-Length: "@ + decimal_chars(
            vstd::utf8::encode_utf8(event_body(event@)).len(),
        ) + "\r\nConnection: close\r\n\r\n"@ + event_body(event@),
{
    let mut body = string_of("{\"event\":\"");
    push_str(&mut body, event);
    push_str(&mut body, "\"}");
    let len = body.as_str().as_bytes().len();
    let mut s = string_of("POST /api/event HTTP/1.1\r\nHost: ");
    push_str(&mut s, endpoint);
    push_str(&mut s, "\r\nContent-Type: application/json\r\nContent-Length: ");
    push_decimal(&mut s, len as u64);
    push_str(&mut s, "\r\nConnection: close\r\n\r\n");
    push_str(&mut s, body.as_str());
    s
}

} // verus!
