//! The upstream event pump: a total classification of each event from
//! the upstream session's event stream, and the routing of an event
//! sequence onto the two internal paths.
//!
//! Each event is classified exactly once: readiness and
//! upstream-reported errors go to the status path, audio frames go to
//! the audio path, transcripts and turn markers are observability only,
//! and any unrecognized event kind is a forward-compatible no-op.

use crate::outbound::StatusNote;
use vstd::prelude::*;

verus! {

/// One event delivered by the upstream session, as the pump receives
/// it.
pub enum UpstreamEvent {
    Ready,
    UserTranscript(String),
    AiResponse(String, bool),
    Audio(Vec<u8>),
    TurnComplete,
    ErrorReport(String),
    Other,
}

/// What the pump does with one event: emit a note on the status path,
/// forward bytes on the audio path, surface it to observability only,
/// or skip it.
pub enum PumpRoute {
    Note(StatusNote),
    ForwardAudio(Vec<u8>),
    Observe,
    Skip,
}

/// Total classification of one upstream event.
pub fn classify_event(e: UpstreamEvent) -> (r: PumpRoute)
    ensures
        e is Ready ==> (r matches PumpRoute::Note(StatusNote::Info(s)) && s@ == "session_ready"@),
        e matches UpstreamEvent::ErrorReport(m) ==> (r matches PumpRoute::Note(StatusNote::Fault(
            t,
        )) && t@ == m@),
        e matches UpstreamEvent::Audio(d) ==> (r matches PumpRoute::ForwardAudio(b) && b@ == d@),
        e is UserTranscript || e is AiResponse || e is TurnComplete ==> r is Observe,
        e is Other ==> r is Skip,
{
    match e {
        UpstreamEvent::Ready => PumpRoute::Note(StatusNote::Info(String::from_str("session_ready"))),
        UpstreamEvent::UserTranscript(_) => PumpRoute::Observe,
        UpstreamEvent::AiResponse(_, _) => PumpRoute::Observe,
        UpstreamEvent::Audio(d) => PumpRoute::ForwardAudio(d),
        UpstreamEvent::TurnComplete => PumpRoute::Observe,
        UpstreamEvent::ErrorReport(m) => PumpRoute::Note(StatusNote::Fault(m)),
        UpstreamEvent::Other => PumpRoute::Skip,
    }
}

/// The view of one status note: whether it is a fault, and its text.
pub open spec fn note_view(n: StatusNote) -> (bool, Seq<char>) {
    match n {
        StatusNote::Info(s) => (false, s@),
        StatusNote::Fault(s) => (true, s@),
    }
}

/// The views of a sequence of status notes.
pub open spec fn note_views(ns: Seq<StatusNote>) -> Seq<(bool, Seq<char>)> {
    ns.map_values(|n: StatusNote| note_view(n))
}

/// The views of a sequence of audio payloads.
pub open spec fn byte_views(ds: Seq<Vec<u8>>) -> Seq<Seq<u8>> {
    ds.map_values(|d: Vec<u8>| d@)
}

/// The notes an event sequence puts on the status path, in emission
/// order: `session_ready` for readiness, the error text for each
/// upstream-reported error.
pub open spec fn status_notes_of(events: Seq<UpstreamEvent>) -> Seq<(bool, Seq<char>)>
    decreases events.len(),
{
    if events.len() == 0 {
        Seq::empty()
    } else {
        let rest = status_notes_of(events.skip(1));
        match events[0] {
            UpstreamEvent::Ready => seq![(false, "session_ready"@)] + rest,
            UpstreamEvent::ErrorReport(m) => seq![(true, m@)] + rest,
            _ => rest,
        }
    }
}

/// The payloads an event sequence puts on the audio path, in emission
/// order.
pub open spec fn audio_payloads_of(events: Seq<UpstreamEvent>) -> Seq<Seq<u8>>
    decreases events.len(),
{
    if events.len() == 0 {
        Seq::empty()
    } else {
        let rest = audio_payloads_of(events.skip(1));
        match events[0] {
            UpstreamEvent::Audio(d) => seq![d@] + rest,
            _ => rest,
        }
    }
}

/// Routes an upstream event sequence onto the two paths.  Within each
/// path the emission order of the events is preserved; no ordering
/// between the two paths is stated, since the paths race onto the
/// shared outbound channel.
pub fn route_events(events: Vec<UpstreamEvent>) -> (r: (Vec<StatusNote>, Vec<Vec<u8>>))
    ensures
        note_views(r.0@) == status_notes_of(events@),
        byte_views(r.1@) == audio_payloads_of(events@),
{
    let mut remaining = events;
    let mut notes: Vec<StatusNote> = Vec::new();
    let mut audio: Vec<Vec<u8>> = Vec::new();
    let ghost all = remaining@;
    while remaining.len() > 0
        invariant
            status_notes_of(all) =~= note_views(notes@) + status_notes_of(remaining@),
            audio_payloads_of(all) =~= byte_views(audio@) + audio_payloads_of(remaining@),
        decreases remaining.len(),
    {
        let ghost before = remaining@;
        let e = remaining.remove(0);
        proof {
            assert(before[0] == e);
            assert(remaining@ =~= before.skip(1));
        }
        let route = classify_event(e);
        match route {
            PumpRoute::Note(n) => {
                let ghost old_notes = notes@;
                notes.push(n);
                proof {
                    assert(note_views(notes@) =~= note_views(old_notes).push(note_view(n)));
                }
            },
            PumpRoute::ForwardAudio(d) => {
                let ghost old_audio = audio@;
                audio.push(d);
                proof {
                    assert(byte_views(audio@) =~= byte_views(old_audio).push(d@));
                }
            },
            PumpRoute::Observe => {},
            PumpRoute::Skip => {},
        }
    }
    proof {
        assert(status_notes_of(remaining@) =~= Seq::<(bool, Seq<char>)>::empty());
        assert(audio_payloads_of(remaining@) =~= Seq::<Seq<u8>>::empty());
        assert(note_views(notes@) =~= note_views(notes@) + status_notes_of(remaining@));
        assert(byte_views(audio@) =~= byte_views(audio@) + audio_payloads_of(remaining@));
    }
    (notes, audio)
}

} // verus!
