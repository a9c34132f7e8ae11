use neurodesk::backend::GenerationParams;
use neurodesk::stream::{CancelSlot, Emission, Phase, StreamAction, StreamEvent, StreamMode, StreamPiece, StreamSession};

fn params() -> GenerationParams {
    GenerationParams::local("qwen3:latest".to_string(), "hello".to_string(), Some(false))
}

fn piece(text: &str, done: bool) -> StreamPiece {
    StreamPiece { text: text.to_string(), done }
}

fn emitted_text(a: &StreamAction) -> Option<String> {
    match a {
        StreamAction::Emit(Emission::Text(t)) => Some(t.clone()),
        _ => None,
    }
}

#[test]
fn cancellable_session_runs_to_completion() {
    let mut s = StreamSession::new(StreamMode::Cancellable, params());
    assert!(matches!(s.next_action(), StreamAction::InstallToken));
    s.on_event(StreamEvent::TokenInstalled);
    match s.next_action() {
        StreamAction::Open(p) => {
            assert_eq!(p.model, "qwen3:latest");
            assert_eq!(p.prompt, "hello");
            assert_eq!(p.think, Some(false));
        }
        _ => panic!("expected Open"),
    }
    s.on_event(StreamEvent::Opened);
    assert!(matches!(s.next_action(), StreamAction::AwaitNext { cancellable: true }));
    s.on_event(StreamEvent::Chunk(vec![piece("Hel", false), piece("lo", true)]));
    let a = s.next_action();
    assert_eq!(emitted_text(&a).as_deref(), Some("Hel"));
    s.on_event(StreamEvent::Emitted);
    assert_eq!(emitted_text(&s.next_action()).as_deref(), Some("lo"));
    s.on_event(StreamEvent::Emitted);
    assert!(matches!(s.next_action(), StreamAction::Emit(Emission::Done)));
    s.on_event(StreamEvent::Emitted);
    assert!(matches!(s.next_action(), StreamAction::AwaitNext { cancellable: true }));
    s.on_event(StreamEvent::Ended);
    assert!(matches!(s.next_action(), StreamAction::Emit(Emission::Done)));
    s.on_event(StreamEvent::Emitted);
    assert!(matches!(s.next_action(), StreamAction::ClearToken));
    s.on_event(StreamEvent::TokenCleared);
    assert!(matches!(s.next_action(), StreamAction::Finish(Ok(()))));
    assert_eq!(s.phase, Phase::Finished);
}

#[test]
fn cancellation_is_announced_and_token_cleared() {
    let mut s = StreamSession::new(StreamMode::Cancellable, params());
    s.on_event(StreamEvent::TokenInstalled);
    s.on_event(StreamEvent::Opened);
    s.on_event(StreamEvent::Cancelled);
    let a = s.next_action();
    match &a {
        StreamAction::Emit(e) => {
            assert!(matches!(e, Emission::Cancelled));
            assert_eq!(e.event_name(), "ai-stream-cancelled");
        }
        _ => panic!("expected the cancellation event"),
    }
    s.on_event(StreamEvent::Emitted);
    assert!(matches!(s.next_action(), StreamAction::ClearToken));
    s.on_event(StreamEvent::TokenCleared);
    assert!(matches!(s.next_action(), StreamAction::Finish(Ok(()))));
}

#[test]
fn emit_failure_ends_with_error_and_keeps_token() {
    let mut s = StreamSession::new(StreamMode::Cancellable, params());
    s.on_event(StreamEvent::TokenInstalled);
    s.on_event(StreamEvent::Opened);
    s.on_event(StreamEvent::Chunk(vec![piece("x", false)]));
    s.on_event(StreamEvent::EmitFailed("window gone".to_string()));
    match s.next_action() {
        StreamAction::Finish(Err(e)) => assert_eq!(e, "window gone"),
        _ => panic!("expected failure"),
    }
    s.on_event(StreamEvent::TokenCleared);
    s.on_event(StreamEvent::Ended);
    match s.next_action() {
        StreamAction::Finish(Err(e)) => assert_eq!(e, "window gone"),
        _ => panic!("a finished session stays finished"),
    }
}

#[test]
fn open_and_chunk_failures_end_with_their_message() {
    let mut s = StreamSession::new(StreamMode::Plain, params());
    assert!(matches!(s.next_action(), StreamAction::Open(_)));
    s.on_event(StreamEvent::OpenFailed("no server".to_string()));
    assert!(matches!(s.next_action(), StreamAction::Finish(Err(ref e)) if e == "no server"));

    let mut s = StreamSession::new(StreamMode::Cancellable, params());
    s.on_event(StreamEvent::TokenInstalled);
    s.on_event(StreamEvent::Opened);
    s.on_event(StreamEvent::ChunkFailed("bad json".to_string()));
    assert!(matches!(s.next_action(), StreamAction::Finish(Err(ref e)) if e == "bad json"));
}

#[test]
fn plain_session_relays_text_only() {
    let mut s = StreamSession::new(StreamMode::Plain, params());
    s.on_event(StreamEvent::TokenInstalled);
    assert!(matches!(s.next_action(), StreamAction::Open(_)));
    s.on_event(StreamEvent::Opened);
    assert!(matches!(s.next_action(), StreamAction::AwaitNext { cancellable: false }));
    s.on_event(StreamEvent::Cancelled);
    assert!(matches!(s.next_action(), StreamAction::AwaitNext { cancellable: false }));
    s.on_event(StreamEvent::Chunk(vec![piece("a", true)]));
    let a = s.next_action();
    assert_eq!(emitted_text(&a).as_deref(), Some("a"));
    s.on_event(StreamEvent::Emitted);
    assert!(matches!(s.next_action(), StreamAction::AwaitNext { cancellable: false }));
    s.on_event(StreamEvent::Ended);
    assert!(matches!(s.next_action(), StreamAction::Finish(Ok(()))));
}

#[test]
fn empty_chunk_keeps_listening() {
    let mut s = StreamSession::new(StreamMode::Cancellable, params());
    s.on_event(StreamEvent::TokenInstalled);
    s.on_event(StreamEvent::Opened);
    s.on_event(StreamEvent::Chunk(vec![]));
    assert!(matches!(s.next_action(), StreamAction::AwaitNext { cancellable: true }));
}

#[test]
fn emission_names() {
    assert_eq!(Emission::Text("x".to_string()).event_name(), "ai-stream");
    assert_eq!(Emission::Done.event_name(), "ai-stream-done");
    assert_eq!(Emission::Cancelled.event_name(), "ai-stream-cancelled");
}

#[test]
fn cancel_slot_holds_latest_token() {
    let mut slot: CancelSlot<u32> = CancelSlot::new();
    assert!(slot.to_cancel().is_none());
    slot.install(1);
    slot.install(2);
    assert_eq!(slot.to_cancel(), Some(&2));
    slot.clear();
    assert!(slot.to_cancel().is_none());
}
