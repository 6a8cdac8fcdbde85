//! The inbound control protocol: classification of each frame read
//! from the client connection.
//!
//! Binary frames carry audio for the upstream session; text frames are
//! parsed as JSON, and only an object whose `type` field is the string
//! `stop` acts as a graceful-stop signal — every other text payload is
//! silently ignored.  A close frame or a read error ends the loop.

use vstd::prelude::*;

verus! {

/// The string value of the given field of a text, when the text parses
/// as JSON and that field holds a string: a function of the characters
/// alone.
pub uninterp spec fn json_str_field(s: Seq<char>, key: Seq<char>) -> Option<Seq<char>>;

/// Relies on `serde_json::from_str`, `serde_json::Value::get` and
/// `serde_json::Value::as_str`: parses the text as JSON and reads the
/// named field as a string; the outcome depends on the arguments alone.
#[verifier::external_body]
fn read_json_str_field(text: &str, key: &str) -> (r: Option<String>)
    ensures
        r matches Some(t) ==> json_str_field(text@, key@) == Some(t@),
        r is None ==> json_str_field(text@, key@) is None,
{
    match serde_json::from_str::<serde_json::Value>(text) {
        Ok(v) => v.get(key).and_then(|f| f.as_str()).map(|s| s.to_string()),
        Err(_) => None,
    }
}

/// Whether a client text payload carries the recognized stop command:
/// a JSON object whose `type` field is the string `stop`.
pub open spec fn is_stop_text(s: Seq<char>) -> bool {
    json_str_field(s, "type"@) == Some("stop"@)
}

/// Recognizes the stop command in a client text payload.
pub fn check_stop_text(text: &str) -> (r: bool)
    ensures
        r == is_stop_text(text@),
{
    match read_json_str_field(text, "type") {
        Some(v) => v == String::from_str("stop"),
        None => false,
    }
}

/// One frame read from the client connection, as the inbound loop sees
/// it: binary audio, a text payload, a close frame, a read error, or
/// any other frame kind.
pub enum ClientFrame {
    AudioData(Vec<u8>),
    Control(String),
    Goodbye,
    ReadFault,
    OtherFrame,
}

/// Why the inbound loop terminates.
#[derive(Clone, Copy, PartialEq, Eq, Structural, Debug)]
pub enum StopCause {
    ClientStop,
    ClientClosed,
    ReadFailure,
    ForwardFailure,
}

/// What the inbound loop does with one frame: forward audio bytes
/// upstream, terminate, or ignore the frame.
pub enum InboundAction {
    ForwardChunk(Vec<u8>),
    Terminate(StopCause),
    Ignore,
}

/// The termination condition a frame signals, if any.  A binary frame
/// never terminates the loop, however its forwarding may fail later; an
/// unrecognized text payload or any other frame kind is ignored.
pub open spec fn stop_cause_of(f: ClientFrame) -> Option<StopCause> {
    match f {
        ClientFrame::AudioData(_) => None,
        ClientFrame::Control(s) => if is_stop_text(s@) {
            Some(StopCause::ClientStop)
        } else {
            None
        },
        ClientFrame::Goodbye => Some(StopCause::ClientClosed),
        ClientFrame::ReadFault => Some(StopCause::ReadFailure),
        ClientFrame::OtherFrame => None,
    }
}

/// Classifies one client frame.  Binary payloads — the empty one
/// included — are forwarded verbatim as one audio chunk.
pub fn handle_frame(f: ClientFrame) -> (r: InboundAction)
    ensures
        f matches ClientFrame::AudioData(d) ==> r == InboundAction::ForwardChunk(d),
        !(f is AudioData) ==> (stop_cause_of(f) matches Some(c) ==> r == InboundAction::Terminate(
            c,
        )),
        !(f is AudioData) && stop_cause_of(f) is None ==> r == InboundAction::Ignore,
{
    match f {
        ClientFrame::AudioData(d) => InboundAction::ForwardChunk(d),
        ClientFrame::Control(s) => {
            if check_stop_text(s.as_str()) {
                InboundAction::Terminate(StopCause::ClientStop)
            } else {
                InboundAction::Ignore
            }
        },
        ClientFrame::Goodbye => InboundAction::Terminate(StopCause::ClientClosed),
        ClientFrame::ReadFault => InboundAction::Terminate(StopCause::ReadFailure),
        ClientFrame::OtherFrame => InboundAction::Ignore,
    }
}

} // verus!
