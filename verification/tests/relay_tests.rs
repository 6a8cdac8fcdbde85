use dataplane::events::{classify_event, route_events, PumpRoute, UpstreamEvent};
use dataplane::inbound::{check_stop_text, handle_frame, ClientFrame, InboundAction, StopCause};
use dataplane::outbound::{
    encode_error_text, encode_outbound, encode_status_text, wrap_audio, wrap_status_note,
    OutboundMessage, StatusNote, WireFrame,
};
use dataplane::prompt::select_prompt;
use dataplane::session::{CleanupCall, Directive, Orchestrator, Phase};

#[test]
fn selector_flag_a_prompt_and_speak_first() {
    let cfg = select_prompt(&Some("flagA".to_string()));
    assert!(cfg.ai_speaks_first);
    assert!(cfg.system_prompt.starts_with("Listen to Korean instructions."));
}

#[test]
fn selector_flag_b_prompt_and_speak_first() {
    let cfg = select_prompt(&Some("flagB".to_string()));
    assert!(cfg.ai_speaks_first);
    assert_eq!(
        cfg.system_prompt,
        "Placeholder prompt for flagB. To be defined later."
    );
}

#[test]
fn selector_absent_gives_default() {
    let cfg = select_prompt(&None);
    assert!(!cfg.ai_speaks_first);
    assert!(cfg.system_prompt.starts_with("You are a fast simultaneous interpreter."));
}

#[test]
fn unrecognized_selector_identical_to_absent() {
    let unknown = select_prompt(&Some("flagZ".to_string()));
    let absent = select_prompt(&None);
    assert_eq!(unknown.system_prompt, absent.system_prompt);
    assert_eq!(unknown.ai_speaks_first, absent.ai_speaks_first);
    assert!(!unknown.ai_speaks_first);
}

#[test]
fn status_frame_exact_text() {
    let t = encode_status_text("session_ready");
    assert_eq!(t, "{\"status\":\"session_ready\"}");
}

#[test]
fn error_frame_exact_text() {
    let t = encode_error_text("x");
    assert_eq!(t, "{\"error\":\"x\"}");
}

#[test]
fn error_frame_escapes_specials() {
    let t = encode_error_text("a\"b\\c\nd\t\r\u{8}\u{c}");
    assert_eq!(t, "{\"error\":\"a\\\"b\\\\c\\nd\\t\\r\\b\\f\"}");
}

#[test]
fn error_frame_escapes_control_chars_as_hex() {
    let t = encode_error_text("\u{1}\u{1f}");
    assert_eq!(t, "{\"error\":\"\\u0001\\u001f\"}");
}

#[test]
fn frames_are_valid_json_with_one_key() {
    let t = encode_error_text("quote \" back \\ newline \n ctrl \u{2} done");
    let v: serde_json::Value = serde_json::from_str(&t).expect("frame must be valid JSON");
    let obj = v.as_object().expect("frame must be an object");
    assert_eq!(obj.len(), 1);
    assert_eq!(
        obj.get("error").and_then(|e| e.as_str()),
        Some("quote \" back \\ newline \n ctrl \u{2} done")
    );
}

#[test]
fn wrap_and_encode_status_note() {
    let m = wrap_status_note(StatusNote::Info("session_ready".to_string()));
    match encode_outbound(m) {
        WireFrame::Text(t) => assert_eq!(t, "{\"status\":\"session_ready\"}"),
        WireFrame::Binary(_) => panic!("status note must become a text frame"),
    }
}

#[test]
fn wrap_and_encode_fault_note() {
    let m = wrap_status_note(StatusNote::Fault("x".to_string()));
    match encode_outbound(m) {
        WireFrame::Text(t) => assert_eq!(t, "{\"error\":\"x\"}"),
        WireFrame::Binary(_) => panic!("fault note must become a text frame"),
    }
}

#[test]
fn audio_passes_verbatim() {
    let m = wrap_audio(vec![1u8, 2, 3]);
    match encode_outbound(m) {
        WireFrame::Binary(b) => assert_eq!(b, vec![1u8, 2, 3]),
        WireFrame::Text(_) => panic!("audio must become a binary frame"),
    }
}

#[test]
fn empty_audio_passes_verbatim() {
    match encode_outbound(wrap_audio(Vec::new())) {
        WireFrame::Binary(b) => assert!(b.is_empty()),
        WireFrame::Text(_) => panic!("audio must become a binary frame"),
    }
}

#[test]
fn classify_each_event_kind() {
    assert!(matches!(
        classify_event(UpstreamEvent::Ready),
        PumpRoute::Note(StatusNote::Info(s)) if s == "session_ready"
    ));
    assert!(matches!(
        classify_event(UpstreamEvent::ErrorReport("boom".to_string())),
        PumpRoute::Note(StatusNote::Fault(s)) if s == "boom"
    ));
    assert!(matches!(
        classify_event(UpstreamEvent::Audio(vec![9u8])),
        PumpRoute::ForwardAudio(d) if d == vec![9u8]
    ));
    assert!(matches!(
        classify_event(UpstreamEvent::UserTranscript("hi".to_string())),
        PumpRoute::Observe
    ));
    assert!(matches!(
        classify_event(UpstreamEvent::AiResponse("ok".to_string(), true)),
        PumpRoute::Observe
    ));
    assert!(matches!(classify_event(UpstreamEvent::TurnComplete), PumpRoute::Observe));
    assert!(matches!(classify_event(UpstreamEvent::Other), PumpRoute::Skip));
}

#[test]
fn event_sequence_routes_in_path_order() {
    let b1 = vec![1u8, 2];
    let b2 = vec![3u8];
    let events = vec![
        UpstreamEvent::Ready,
        UpstreamEvent::Audio(b1.clone()),
        UpstreamEvent::Audio(b2.clone()),
        UpstreamEvent::ErrorReport("x".to_string()),
    ];
    let (notes, audio) = route_events(events);
    assert_eq!(notes.len(), 2);
    assert!(matches!(&notes[0], StatusNote::Info(s) if s == "session_ready"));
    assert!(matches!(&notes[1], StatusNote::Fault(s) if s == "x"));
    assert_eq!(audio, vec![b1, b2]);

    let mut frames = Vec::new();
    for n in notes {
        frames.push(encode_outbound(wrap_status_note(n)));
    }
    assert!(matches!(&frames[0], WireFrame::Text(t) if t == "{\"status\":\"session_ready\"}"));
    assert!(matches!(&frames[1], WireFrame::Text(t) if t == "{\"error\":\"x\"}"));
}

#[test]
fn stop_command_recognized() {
    assert!(check_stop_text("{\"type\":\"stop\"}"));
    assert!(check_stop_text(" { \"type\" : \"stop\" , \"extra\" : 1 } "));
}

#[test]
fn non_stop_text_ignored() {
    assert!(!check_stop_text("{\"type\":\"go\"}"));
    assert!(!check_stop_text("{\"kind\":\"stop\"}"));
    assert!(!check_stop_text("{\"type\":7}"));
    assert!(!check_stop_text("not json at all"));
    assert!(!check_stop_text(""));
}

#[test]
fn zero_length_binary_frame_forwards_empty_chunk() {
    match handle_frame(ClientFrame::AudioData(Vec::new())) {
        InboundAction::ForwardChunk(d) => assert!(d.is_empty()),
        _ => panic!("a binary frame must be forwarded"),
    }
}

#[test]
fn frame_classification() {
    assert!(matches!(
        handle_frame(ClientFrame::AudioData(vec![5u8])),
        InboundAction::ForwardChunk(d) if d == vec![5u8]
    ));
    assert!(matches!(
        handle_frame(ClientFrame::Control("{\"type\":\"stop\"}".to_string())),
        InboundAction::Terminate(StopCause::ClientStop)
    ));
    assert!(matches!(
        handle_frame(ClientFrame::Control("{\"type\":\"other\"}".to_string())),
        InboundAction::Ignore
    ));
    assert!(matches!(
        handle_frame(ClientFrame::Goodbye),
        InboundAction::Terminate(StopCause::ClientClosed)
    ));
    assert!(matches!(
        handle_frame(ClientFrame::ReadFault),
        InboundAction::Terminate(StopCause::ReadFailure)
    ));
    assert!(matches!(handle_frame(ClientFrame::OtherFrame), InboundAction::Ignore));
}

fn cleanup_calls(acts: &[Directive]) -> Vec<CleanupCall> {
    acts.iter()
        .filter_map(|a| match a {
            Directive::Cleanup(c) => Some(*c),
            Directive::Emit(_) => None,
        })
        .collect()
}

fn error_emissions(acts: &[Directive]) -> Vec<String> {
    acts.iter()
        .filter_map(|a| match a {
            Directive::Emit(OutboundMessage::Error(t)) => Some(t.clone()),
            _ => None,
        })
        .collect()
}

#[test]
fn happy_path_reaches_relaying_then_closes() {
    let mut orch = Orchestrator::new();
    assert_eq!(orch.phase, Phase::Init);
    for _ in 0..4 {
        let acts = orch.advance_setup(None);
        assert!(acts.is_empty());
    }
    assert_eq!(orch.phase, Phase::AudioStreaming);
    let acts = orch.begin_relaying();
    assert_eq!(orch.phase, Phase::Relaying);
    assert_eq!(acts.len(), 1);
    assert!(matches!(
        &acts[0],
        Directive::Emit(OutboundMessage::Status(t)) if t == "connected"
    ));

    let r = orch.on_frame(ClientFrame::Control("{\"type\":\"stop\"}".to_string()));
    assert!(matches!(r, InboundAction::Terminate(StopCause::ClientStop)));
    assert_eq!(orch.phase, Phase::Closing);

    let acts = orch.finish();
    assert_eq!(orch.phase, Phase::Closed);
    assert_eq!(
        cleanup_calls(&acts),
        vec![
            CleanupCall::EndAudio,
            CleanupCall::EndSession,
            CleanupCall::Disconnect,
            CleanupCall::CancelPump,
            CleanupCall::CancelWriter,
        ]
    );
    assert!(error_emissions(&acts).is_empty());
}

#[test]
fn failure_before_configuration_emits_one_error_and_no_cleanup() {
    let mut orch = Orchestrator::new();
    let acts = orch.advance_setup(Some("bad region".to_string()));
    assert_eq!(orch.phase, Phase::Closed);
    assert_eq!(
        error_emissions(&acts),
        vec!["Failed to create config: bad region".to_string()]
    );
    assert!(cleanup_calls(&acts).is_empty());
}

#[test]
fn failure_on_connect_emits_one_error_and_no_cleanup() {
    let mut orch = Orchestrator::new();
    orch.advance_setup(None);
    let acts = orch.advance_setup(Some("refused".to_string()));
    assert_eq!(orch.phase, Phase::Closed);
    assert_eq!(error_emissions(&acts), vec!["Failed to connect: refused".to_string()]);
    assert!(cleanup_calls(&acts).is_empty());
}

#[test]
fn failure_on_session_start_disconnects_only() {
    let mut orch = Orchestrator::new();
    orch.advance_setup(None);
    orch.advance_setup(None);
    let acts = orch.advance_setup(Some("denied".to_string()));
    assert_eq!(orch.phase, Phase::Closed);
    assert_eq!(error_emissions(&acts), vec!["Failed to start session: denied".to_string()]);
    assert_eq!(cleanup_calls(&acts), vec![CleanupCall::Disconnect]);
}

#[test]
fn failure_on_audio_start_ends_session_then_disconnects() {
    let mut orch = Orchestrator::new();
    orch.advance_setup(None);
    orch.advance_setup(None);
    orch.advance_setup(None);
    let acts = orch.advance_setup(Some("busy".to_string()));
    assert_eq!(orch.phase, Phase::Closed);
    assert_eq!(error_emissions(&acts), vec!["Failed to start audio: busy".to_string()]);
    assert_eq!(
        cleanup_calls(&acts),
        vec![CleanupCall::EndSession, CleanupCall::Disconnect]
    );
}

#[test]
fn second_stop_after_termination_has_no_effect() {
    let mut orch = Orchestrator::new();
    for _ in 0..4 {
        orch.advance_setup(None);
    }
    orch.begin_relaying();
    let first = orch.on_frame(ClientFrame::Control("{\"type\":\"stop\"}".to_string()));
    assert!(matches!(first, InboundAction::Terminate(StopCause::ClientStop)));
    let second = orch.on_frame(ClientFrame::Control("{\"type\":\"stop\"}".to_string()));
    assert!(matches!(second, InboundAction::Ignore));
    assert_eq!(orch.phase, Phase::Closing);
    let acts = orch.finish();
    assert_eq!(acts.len(), 5);
    let third = orch.on_frame(ClientFrame::Control("{\"type\":\"stop\"}".to_string()));
    assert!(matches!(third, InboundAction::Ignore));
    assert_eq!(orch.phase, Phase::Closed);
}

#[test]
fn read_error_still_runs_full_teardown() {
    let mut orch = Orchestrator::new();
    for _ in 0..4 {
        orch.advance_setup(None);
    }
    orch.begin_relaying();
    let r = orch.on_frame(ClientFrame::ReadFault);
    assert!(matches!(r, InboundAction::Terminate(StopCause::ReadFailure)));
    assert_eq!(orch.phase, Phase::Closing);
    let calls = cleanup_calls(&orch.finish());
    assert!(calls.contains(&CleanupCall::EndAudio));
    assert!(calls.contains(&CleanupCall::EndSession));
    assert!(calls.contains(&CleanupCall::Disconnect));
    assert_eq!(orch.phase, Phase::Closed);
}

#[test]
fn forward_failure_terminates_loop() {
    let mut orch = Orchestrator::new();
    for _ in 0..4 {
        orch.advance_setup(None);
    }
    orch.begin_relaying();
    let r = orch.on_frame(ClientFrame::AudioData(vec![0u8; 4]));
    assert!(matches!(r, InboundAction::ForwardChunk(d) if d.len() == 4));
    assert_eq!(orch.phase, Phase::Relaying);
    let r = orch.on_forward_failure();
    assert!(matches!(r, InboundAction::Terminate(StopCause::ForwardFailure)));
    assert_eq!(orch.phase, Phase::Closing);
}
