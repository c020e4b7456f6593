//! The forwarder's event record: a freshly generated unique identifier plus
//! an arbitrary JSON payload document, and the fixed ingestion envelope the
//! record is delivered in.

use crate::json::{push_escaped, spec_escaped};
use vstd::prelude::*;
use vstd::string::*;

verus! {

/// One event record, created once per forwarding call and discarded when
/// the send loop terminates.
pub struct Event {
    /// The event's unique identifier.
    pub id: String,
    /// The event's payload: an already rendered JSON document.
    pub payload: String,
}

/// A character of a rendered UUID: a lowercase hexadecimal digit or a
/// hyphen.
pub open spec fn is_uuid_char(c: char) -> bool {
    c == '-' || ('0' <= c && c <= '9') || ('a' <= c && c <= 'f')
}

/// Relies on `uuid::Uuid::new_v4` and its `Display` form: a fresh random
/// 128-bit identifier rendered hyphenated and lowercase, 36 characters of
/// hexadecimal digits and hyphens. The value is random, so nothing more is
/// claimed of it.
#[verifier::external_body]
fn fresh_event_id() -> (id: String)
    ensures
        id@.len() == 36,
        forall|i: int| 0 <= i < id@.len() ==> is_uuid_char(#[trigger] id@[i]),
{
    uuid::Uuid::new_v4().to_string()
}

impl Event {
    /// A new event carrying `payload`, under a freshly generated unique
    /// identifier.
    pub fn fresh(payload: String) -> (event: Event)
        ensures
            event.payload == payload,
            event.id@.len() == 36,
            forall|i: int| 0 <= i < event.id@.len() ==> is_uuid_char(#[trigger] event.id@[i]),
    {
        Event { id: fresh_event_id(), payload }
    }
}

/// The ingestion envelope around an event: the fixed `events` table name,
/// and the record with the escaped identifier and the payload document
/// inserted verbatim.
pub open spec fn spec_envelope_json(id: Seq<char>, payload: Seq<char>) -> Seq<char> {
    "{\"table\":\"events\",\"record\":{\"id\":\""@ + spec_escaped(id) + "\",\"payload\":"@
        + payload + "}}"@
}

/// The URL the forwarder posts to: the configured base URL with the fixed
/// ingestion sub-path appended, unvalidated (a malformed base URL surfaces
/// as a request failure, not here).
pub fn ingest_url(base_url: &str) -> (url: String)
    ensures
        url@ == base_url@ + "/ingest/file"@,
{
    let mut out = base_url.to_owned();
    out.append("/ingest/file");
    out
}

/// Serializes the ingestion envelope for one event: the JSON body the
/// forwarder posts to the ingestion endpoint.
pub fn envelope_json(event: &Event) -> (json: String)
    ensures
        json@ == spec_envelope_json(event.id@, event.payload@),
{
    let mut out = String::new();
    proof {
        assert(Seq::<char>::empty() + "{\"table\":\"events\",\"record\":{\"id\":\""@
            =~= "{\"table\":\"events\",\"record\":{\"id\":\""@);
    }
    out.append("{\"table\":\"events\",\"record\":{\"id\":\"");
    push_escaped(&mut out, event.id.as_str());
    out.append("\",\"payload\":");
    out.append(event.payload.as_str());
    out.append("}}");
    out
}

} // verus!
