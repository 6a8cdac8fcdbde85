//! The session orchestrator: the lifecycle state machine of one
//! connection session.
//!
//! The orchestrator drives the upstream session through its setup
//! states, owns the inbound loop's termination decision, and owns the
//! shutdown sequence.  Each step is a pure decision: the host performs
//! the upstream call or the read, and feeds the outcome back in; the
//! step says what to emit, what to clean up, and which state comes
//! next.

use crate::inbound::{handle_frame, stop_cause_of, ClientFrame, InboundAction, StopCause};
use crate::outbound::OutboundMessage;
use vstd::prelude::*;

verus! {

/// Lifecycle state of one connection session.
#[derive(Clone, Copy, PartialEq, Eq, Structural, Debug)]
pub enum Phase {
    Init,
    Configured,
    Connected,
    SessionStarted,
    AudioStreaming,
    Relaying,
    Closing,
    Closed,
}

/// One best-effort upstream teardown or task-cancellation call.
#[derive(Clone, Copy, PartialEq, Eq, Structural, Debug)]
pub enum CleanupCall {
    EndAudio,
    EndSession,
    Disconnect,
    CancelPump,
    CancelWriter,
}

/// One thing the orchestrator asks its host to do after a step.
pub enum Directive {
    Emit(OutboundMessage),
    Cleanup(CleanupCall),
}

/// The states in which a setup transition is still to be attempted.
pub open spec fn is_setup_phase(p: Phase) -> bool {
    p == Phase::Init || p == Phase::Configured || p == Phase::Connected
        || p == Phase::SessionStarted
}

/// The state a successful setup transition reaches.
pub open spec fn next_setup_phase(p: Phase) -> Phase {
    match p {
        Phase::Init => Phase::Configured,
        Phase::Configured => Phase::Connected,
        Phase::Connected => Phase::SessionStarted,
        Phase::SessionStarted => Phase::AudioStreaming,
        _ => p,
    }
}

/// The prefix of the single error message reported to the client when
/// the setup transition out of each state fails.
pub open spec fn failure_prefix(p: Phase) -> Seq<char> {
    match p {
        Phase::Init => "Failed to create config: "@,
        Phase::Configured => "Failed to connect: "@,
        Phase::Connected => "Failed to start session: "@,
        Phase::SessionStarted => "Failed to start audio: "@,
        _ => Seq::empty(),
    }
}

/// The upstream resources a failed setup transition out of each state
/// must release: nothing before a connection exists, the connection
/// once it does, and the logical session as well once it was started.
pub open spec fn failure_cleanup(p: Phase) -> Seq<CleanupCall> {
    match p {
        Phase::Init => Seq::empty(),
        Phase::Configured => Seq::empty(),
        Phase::Connected => seq![CleanupCall::Disconnect],
        Phase::SessionStarted => seq![CleanupCall::EndSession, CleanupCall::Disconnect],
        _ => Seq::empty(),
    }
}

/// The cleanup calls that are valid in a state: only what acts on a
/// resource acquired in that state or earlier.
pub open spec fn cleanup_allowed(p: Phase) -> Set<CleanupCall> {
    match p {
        Phase::Init => Set::empty(),
        Phase::Configured => Set::empty(),
        Phase::Connected => set![CleanupCall::Disconnect],
        Phase::SessionStarted => set![CleanupCall::Disconnect, CleanupCall::EndSession],
        _ => set![
            CleanupCall::Disconnect,
            CleanupCall::EndSession,
            CleanupCall::EndAudio,
            CleanupCall::CancelPump,
            CleanupCall::CancelWriter,
        ],
    }
}

/// The strict teardown order once the inbound loop has exited: end
/// audio ingestion, end the logical session, disconnect — each
/// attempted even if a prior step fails — then cancel the event pump
/// and the outbound writer.
pub open spec fn closing_sequence() -> Seq<CleanupCall> {
    seq![
        CleanupCall::EndAudio,
        CleanupCall::EndSession,
        CleanupCall::Disconnect,
        CleanupCall::CancelPump,
        CleanupCall::CancelWriter,
    ]
}

/// What one inbound step does to the lifecycle state, and what it asks
/// of the host.  Outside the relaying state a frame has no effect; a
/// frame that signals termination enters the closing state.
pub open spec fn spec_on_frame(p: Phase, f: ClientFrame) -> (Phase, InboundAction) {
    if p != Phase::Relaying {
        (p, InboundAction::Ignore)
    } else {
        match f {
            ClientFrame::AudioData(d) => (Phase::Relaying, InboundAction::ForwardChunk(d)),
            _ => match stop_cause_of(f) {
                Some(c) => (Phase::Closing, InboundAction::Terminate(c)),
                None => (Phase::Relaying, InboundAction::Ignore),
            },
        }
    }
}

/// The orchestrator of one connection session.  It owns the lifecycle
/// state; every upstream mutation is funneled through its steps.
pub struct Orchestrator {
    pub phase: Phase,
}

impl Orchestrator {
    /// A fresh session: no upstream resources held.
    pub fn new() -> (r: Orchestrator)
        ensures
            r.phase == Phase::Init,
    {
        Orchestrator { phase: Phase::Init }
    }

    /// Advances one setup transition with the outcome of its upstream
    /// call: `None` on success, the upstream error text on failure.  On
    /// failure the session emits exactly one error message — the
    /// step's own prefix followed by the upstream text — performs only
    /// the cleanup valid for the states already reached, and is closed;
    /// a failed or closed session never attempts another start.
    pub fn advance_setup(&mut self, outcome: Option<String>) -> (acts: Vec<Directive>)
        requires
            is_setup_phase(old(self).phase),
        ensures
            outcome is None ==> final(self).phase == next_setup_phase(old(self).phase)
                && acts@.len() == 0,
            outcome matches Some(msg) ==> {
                &&& final(self).phase == Phase::Closed
                &&& acts@.len() == 1 + failure_cleanup(old(self).phase).len()
                &&& (acts@[0] matches Directive::Emit(OutboundMessage::Error(t)) && t@
                    == failure_prefix(old(self).phase) + msg@)
                &&& forall|i: int|
                    1 <= i < acts@.len() ==> acts@[i] == Directive::Cleanup(
                        failure_cleanup(old(self).phase)[i - 1],
                    )
            },
    {
        match outcome {
            None => {
                let next = match self.phase {
                    Phase::Init => Phase::Configured,
                    Phase::Configured => Phase::Connected,
                    Phase::Connected => Phase::SessionStarted,
                    _ => Phase::AudioStreaming,
                };
                self.phase = next;
                Vec::new()
            },
            Some(msg) => {
                let mut text = match self.phase {
                    Phase::Init => String::from_str("Failed to create config: "),
                    Phase::Configured => String::from_str("Failed to connect: "),
                    Phase::Connected => String::from_str("Failed to start session: "),
                    _ => String::from_str("Failed to start audio: "),
                };
                text.append(msg.as_str());
                let mut acts: Vec<Directive> = Vec::new();
                acts.push(Directive::Emit(OutboundMessage::Error(text)));
                match self.phase {
                    Phase::Connected => {
                        acts.push(Directive::Cleanup(CleanupCall::Disconnect));
                    },
                    Phase::SessionStarted => {
                        acts.push(Directive::Cleanup(CleanupCall::EndSession));
                        acts.push(Directive::Cleanup(CleanupCall::Disconnect));
                    },
                    _ => {},
                }
                self.phase = Phase::Closed;
                acts
            },
        }
    }

    /// Enters the steady relaying state, once the background pumps and
    /// the writer are running, and emits the initial connected status.
    pub fn begin_relaying(&mut self) -> (acts: Vec<Directive>)
        requires
            old(self).phase == Phase::AudioStreaming,
        ensures
            final(self).phase == Phase::Relaying,
            acts@.len() == 1,
            (acts@[0] matches Directive::Emit(OutboundMessage::Status(t)) && t@ == "connected"@),
    {
        self.phase = Phase::Relaying;
        let mut acts: Vec<Directive> = Vec::new();
        acts.push(Directive::Emit(OutboundMessage::Status(String::from_str("connected"))));
        acts
    }

    /// Takes one inbound frame.  In the relaying state this decides
    /// between forwarding, terminating, and ignoring; in any other
    /// state — the closing states included — the frame has no effect,
    /// so a stop command after the loop has terminated changes nothing.
    pub fn on_frame(&mut self, f: ClientFrame) -> (r: InboundAction)
        ensures
            ({
                let (p2, act) = spec_on_frame(old(self).phase, f);
                final(self).phase == p2 && r == act
            }),
    {
        if !matches!(self.phase, Phase::Relaying) {
            return InboundAction::Ignore;
        }
        let r = handle_frame(f);
        if matches!(r, InboundAction::Terminate(_)) {
            self.phase = Phase::Closing;
        }
        r
    }

    /// Records that forwarding an audio chunk upstream failed: fatal to
    /// the inbound loop, which terminates without retrying.
    pub fn on_forward_failure(&mut self) -> (r: InboundAction)
        requires
            old(self).phase == Phase::Relaying,
        ensures
            final(self).phase == Phase::Closing,
            r == InboundAction::Terminate(StopCause::ForwardFailure),
    {
        self.phase = Phase::Closing;
        InboundAction::Terminate(StopCause::ForwardFailure)
    }

    /// Performs the shutdown sequence: the full teardown is issued in
    /// strict order whatever ended the inbound loop, and the session is
    /// closed.
    pub fn finish(&mut self) -> (acts: Vec<Directive>)
        requires
            old(self).phase == Phase::Closing,
        ensures
            final(self).phase == Phase::Closed,
            acts@.len() == closing_sequence().len(),
            forall|i: int|
                0 <= i < acts@.len() ==> acts@[i] == Directive::Cleanup(closing_sequence()[i]),
    {
        self.phase = Phase::Closed;
        let mut acts: Vec<Directive> = Vec::new();
        acts.push(Directive::Cleanup(CleanupCall::EndAudio));
        acts.push(Directive::Cleanup(CleanupCall::EndSession));
        acts.push(Directive::Cleanup(CleanupCall::Disconnect));
        acts.push(Directive::Cleanup(CleanupCall::CancelPump));
        acts.push(Directive::Cleanup(CleanupCall::CancelWriter));
        acts
    }
}

/// A failure injected at any setup transition triggers only cleanup
/// calls valid for the states already reached: no session is ended
/// before one was started, no connection is closed before one was
/// opened.  (That exactly one error message is emitted is part of the
/// step's own contract.)
pub proof fn lemma_failure_cleanup_scoped(p: Phase)
    requires
        is_setup_phase(p),
    ensures
        forall|i: int|
            0 <= i < failure_cleanup(p).len() ==> cleanup_allowed(p).contains(
                #[trigger] failure_cleanup(p)[i],
            ),
{
    match p {
        Phase::Connected => {
            assert(cleanup_allowed(p).contains(CleanupCall::Disconnect));
        },
        Phase::SessionStarted => {
            assert(cleanup_allowed(p).contains(CleanupCall::EndSession));
            assert(cleanup_allowed(p).contains(CleanupCall::Disconnect));
        },
        _ => {},
    }
}

/// A second stop command — or any frame at all — after the inbound
/// loop has terminated has no observable effect: the state is
/// unchanged and nothing is forwarded or emitted.
pub proof fn lemma_stop_after_termination(p: Phase, f: ClientFrame)
    requires
        p == Phase::Closing || p == Phase::Closed,
    ensures
        spec_on_frame(p, f).0 == p,
        spec_on_frame(p, f).1 == InboundAction::Ignore,
{
}

/// An abrupt client disconnect mid-stream — a read error — terminates
/// the inbound loop, and the closing sequence still performs all three
/// upstream teardown calls, in their strict order.
pub proof fn lemma_read_error_still_torn_down()
    ensures
        spec_on_frame(Phase::Relaying, ClientFrame::ReadFault) == (
            Phase::Closing,
            InboundAction::Terminate(StopCause::ReadFailure),
        ),
        closing_sequence()[0] == CleanupCall::EndAudio,
        closing_sequence()[1] == CleanupCall::EndSession,
        closing_sequence()[2] == CleanupCall::Disconnect,
{
}

} // verus!
