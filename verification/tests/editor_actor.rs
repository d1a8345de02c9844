use preview_sync::debug_loc::SpanInterner;
use preview_sync::editor::{
    handle_event, resolve_span_token, startup_frame, ActorEvent, ActorStep,
    ChangeCursorPositionRequest, CompileStatus, ControlPlaneMessage, ControlPlaneResponse,
    DocToSrcJumpInfo, DocToSrcJumpResolveRequest, DocumentPosition, EditorActorRequest,
    MemoryFiles, MemoryFilesShort, Outline, PanelScrollByPositionRequest, SrcToDocJumpRequest,
    TypstActorRequest, WebviewActorRequest,
};

#[test]
fn startup_sends_sync_editor_changes() {
    assert!(matches!(
        startup_frame(),
        ControlPlaneResponse::SyncEditorChanges
    ));
}

#[test]
fn unknown_span_token_is_dropped_without_terminating() {
    let interner = SpanInterner::new();
    let ev = ActorEvent::Frame(ControlPlaneMessage::DocToSrcJumpResolve(
        DocToSrcJumpResolveRequest {
            span: "ffffffff".to_string(),
        },
    ));
    let step = handle_event(&interner, ev);
    assert!(matches!(step, ActorStep::Ignore));
}

#[test]
fn malformed_span_token_is_dropped() {
    let interner = SpanInterner::new();
    assert!(matches!(
        resolve_span_token(&interner, "not-hex"),
        ActorStep::Ignore
    ));
    assert!(matches!(resolve_span_token(&interner, ""), ActorStep::Ignore));
}

#[test]
fn stale_span_token_is_dropped() {
    let mut interner = SpanInterner::new();
    let id = interner.intern(99);
    let token = id.to_hex();
    for _ in 0..30 {
        interner.reset();
    }
    assert!(matches!(
        resolve_span_token(&interner, &token),
        ActorStep::Ignore
    ));
}

#[test]
fn live_span_token_is_forwarded_with_zero_offsets() {
    let mut interner = SpanInterner::new();
    let id = interner.intern(0xabcd);
    let token = id.to_hex();
    match resolve_span_token(&interner, &token) {
        ActorStep::ForwardToCompiler(TypstActorRequest::DocToSrcJumpResolve((from, to))) => {
            assert_eq!(from.span, 0xabcd);
            assert_eq!(from.offset, 0);
            assert_eq!(to, from);
        }
        other => panic!("expected a resolve forward, got a different step: {:?}", kind_of(&other)),
    }
}

#[test]
fn panel_scroll_by_position_broadcasts_the_exact_position() {
    let interner = SpanInterner::new();
    let position = DocumentPosition {
        page_no: 1,
        x_bits: 10f32.to_bits(),
        y_bits: 20f32.to_bits(),
    };
    let ev = ActorEvent::Frame(ControlPlaneMessage::PanelScrollByPosition(
        PanelScrollByPositionRequest { position },
    ));
    match handle_event(&interner, ev) {
        ActorStep::BroadcastToRender(WebviewActorRequest::ViewportPosition(p)) => {
            assert_eq!(p, position);
        }
        other => panic!("expected a broadcast, got a different step: {:?}", kind_of(&other)),
    }
}

#[test]
fn transport_error_shuts_the_actor_down() {
    let interner = SpanInterner::new();
    assert!(matches!(
        handle_event(&interner, ActorEvent::TransportError),
        ActorStep::Shutdown
    ));
}

#[test]
fn malformed_frames_never_shut_the_actor_down() {
    let interner = SpanInterner::new();
    assert!(matches!(
        handle_event(&interner, ActorEvent::MalformedFrame),
        ActorStep::Ignore
    ));
}

#[test]
fn cursor_position_goes_to_the_compiler() {
    let interner = SpanInterner::new();
    let ev = ActorEvent::Frame(ControlPlaneMessage::ChangeCursorPosition(
        ChangeCursorPositionRequest {
            filepath: "main.typ".to_string(),
            line: 3,
            character: 14,
        },
    ));
    match handle_event(&interner, ev) {
        ActorStep::ForwardToCompiler(TypstActorRequest::ChangeCursorPosition(c)) => {
            assert_eq!(c.filepath, "main.typ");
            assert_eq!(c.line, 3);
            assert_eq!(c.character, 14);
        }
        other => panic!("expected a compiler forward, got a different step: {:?}", kind_of(&other)),
    }
}

#[test]
fn panel_scroll_to_goes_to_the_compiler() {
    let interner = SpanInterner::new();
    let ev = ActorEvent::Frame(ControlPlaneMessage::SrcToDocJump(SrcToDocJumpRequest {
        filepath: "ch1.typ".to_string(),
        line: 8,
        character: 2,
    }));
    match handle_event(&interner, ev) {
        ActorStep::ForwardToCompiler(TypstActorRequest::SrcToDocJumpResolve(j)) => {
            assert_eq!(j.filepath, "ch1.typ");
            assert_eq!(j.line, 8);
            assert_eq!(j.character, 2);
        }
        other => panic!("expected a compiler forward, got a different step: {:?}", kind_of(&other)),
    }
}

#[test]
fn memory_file_batches_go_to_the_compiler() {
    let interner = SpanInterner::new();
    let files = MemoryFiles {
        files: vec![("a.typ".to_string(), "= Title".to_string())],
    };
    match handle_event(
        &interner,
        ActorEvent::Frame(ControlPlaneMessage::SyncMemoryFiles(files)),
    ) {
        ActorStep::ForwardToCompiler(TypstActorRequest::SyncMemoryFiles(f)) => {
            assert_eq!(f.files.len(), 1);
            assert_eq!(f.files[0].0, "a.typ");
            assert_eq!(f.files[0].1, "= Title");
        }
        other => panic!("expected a sync forward, got a different step: {:?}", kind_of(&other)),
    }

    let removal = MemoryFilesShort {
        files: vec!["a.typ".to_string()],
    };
    match handle_event(
        &interner,
        ActorEvent::Frame(ControlPlaneMessage::RemoveMemoryFiles(removal)),
    ) {
        ActorStep::ForwardToCompiler(TypstActorRequest::RemoveMemoryFiles(f)) => {
            assert_eq!(f.files, vec!["a.typ".to_string()]);
        }
        other => panic!("expected a removal forward, got a different step: {:?}", kind_of(&other)),
    }
}

#[test]
fn mailbox_jump_result_is_sent_to_the_editor() {
    let interner = SpanInterner::new();
    let ev = ActorEvent::Mailbox(EditorActorRequest::DocToSrcJump(DocToSrcJumpInfo {
        filepath: "main.typ".to_string(),
        start: Some((1, 2)),
        end: Some((1, 9)),
    }));
    match handle_event(&interner, ev) {
        ActorStep::SendToEditor(ControlPlaneResponse::EditorScrollTo(info)) => {
            assert_eq!(info.filepath, "main.typ");
            assert_eq!(info.start, Some((1, 2)));
            assert_eq!(info.end, Some((1, 9)));
        }
        other => panic!("expected an editor frame, got a different step: {:?}", kind_of(&other)),
    }
}

#[test]
fn mailbox_compile_status_is_sent_to_the_editor() {
    let interner = SpanInterner::new();
    let ev = ActorEvent::Mailbox(EditorActorRequest::CompileStatus(CompileStatus::Compiling));
    match handle_event(&interner, ev) {
        ActorStep::SendToEditor(ControlPlaneResponse::CompileStatus(s)) => {
            assert_eq!(s, CompileStatus::Compiling);
        }
        other => panic!("expected an editor frame, got a different step: {:?}", kind_of(&other)),
    }
}

#[test]
fn mailbox_outline_is_sent_to_the_editor() {
    let interner = SpanInterner::new();
    let ev = ActorEvent::Mailbox(EditorActorRequest::Outline(Outline { items: Vec::new() }));
    match handle_event(&interner, ev) {
        ActorStep::SendToEditor(ControlPlaneResponse::Outline(o)) => {
            assert_eq!(o.items.len(), 0);
        }
        other => panic!("expected an editor frame, got a different step: {:?}", kind_of(&other)),
    }
}

#[test]
fn mailbox_resolve_request_goes_through_the_interner() {
    let mut interner = SpanInterner::new();
    let id = interner.intern(0x55);
    let ev = ActorEvent::Mailbox(EditorActorRequest::DocToSrcJumpResolve(
        DocToSrcJumpResolveRequest { span: id.to_hex() },
    ));
    match handle_event(&interner, ev) {
        ActorStep::ForwardToCompiler(TypstActorRequest::DocToSrcJumpResolve((from, _to))) => {
            assert_eq!(from.span, 0x55);
        }
        other => panic!("expected a resolve forward, got a different step: {:?}", kind_of(&other)),
    }
}

fn kind_of(step: &ActorStep) -> &'static str {
    match step {
        ActorStep::SendToEditor(_) => "SendToEditor",
        ActorStep::ForwardToCompiler(_) => "ForwardToCompiler",
        ActorStep::BroadcastToRender(_) => "BroadcastToRender",
        ActorStep::Ignore => "Ignore",
        ActorStep::Shutdown => "Shutdown",
    }
}
