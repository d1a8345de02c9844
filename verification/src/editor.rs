//! The editor-connection actor's protocol logic: the translation between the
//! JSON control-plane frames exchanged with the editor and the internal
//! request types of the compiler and render collaborators.
//!
//! The surrounding runtime owns the connection and the channels; it parses
//! each inbound frame, asks [`handle_event`] what to do with it, and performs
//! the returned action. All decisions — which frames are forwarded where,
//! which are dropped, and what ends the actor — are made here.

use vstd::prelude::*;

use crate::debug_loc::{InternId, InternQuery, SourceSpan, SpanInterner};
use crate::hex::{hex_val, is_hex_str, lemma_hex_val_nonneg, parse_hex_u64};

verus! {

/// Cursor-position fields as the editor reports them.
pub struct ChangeCursorPositionRequest {
    pub filepath: String,
    pub line: usize,
    pub character: usize,
}

/// Source-to-document jump fields as the editor reports them.
pub struct SrcToDocJumpRequest {
    pub filepath: String,
    pub line: usize,
    pub character: usize,
}

/// A position in the rendered document. The coordinates are carried as raw
/// IEEE-754 bit patterns: this layer forwards them verbatim and never reads
/// them.
#[derive(Debug, Clone, Copy, PartialEq, Eq, Structural)]
pub struct DocumentPosition {
    pub page_no: usize,
    pub x_bits: u32,
    pub y_bits: u32,
}

/// Document-to-source jump resolve request: an interned span id in
/// hexadecimal format.
pub struct DocToSrcJumpResolveRequest {
    /// Span id in hex-format.
    pub span: String,
}

/// Viewport-scroll request carrying a document position.
pub struct PanelScrollByPositionRequest {
    pub position: DocumentPosition,
}

/// Result of a document-to-source jump, forwarded to the editor verbatim.
pub struct DocToSrcJumpInfo {
    pub filepath: String,
    pub start: Option<(usize, usize)>,
    pub end: Option<(usize, usize)>,
}

/// One entry of the document outline, forwarded to the editor verbatim.
pub struct OutlineItem {
    pub title: String,
    pub span: Option<String>,
}

/// The document outline, forwarded to the editor verbatim.
pub struct Outline {
    pub items: Vec<OutlineItem>,
}

/// Editor-held unsaved file contents: path and full content per file.
pub struct MemoryFiles {
    pub files: Vec<(String, String)>,
}

/// Paths of editor-held files to drop from the shadow set.
pub struct MemoryFilesShort {
    pub files: Vec<String>,
}

/// Compilation status as reported to the editor.
#[derive(Debug, Clone, Copy, PartialEq, Eq, Structural)]
pub enum CompileStatus {
    Compiling,
    CompileSuccess,
    CompileError,
}

/// A span together with a byte offset into it, the payload of a
/// document-to-source resolve request.
#[derive(Debug, Clone, Copy, PartialEq, Eq, Structural)]
pub struct SourceSpanOffset {
    pub span: SourceSpan,
    pub offset: usize,
}

/// Internal events that collaborators push into the actor's mailbox.
pub enum EditorActorRequest {
    DocToSrcJumpResolve(DocToSrcJumpResolveRequest),
    DocToSrcJump(DocToSrcJumpInfo),
    Outline(Outline),
    CompileStatus(CompileStatus),
}

/// Inbound control-plane frames, one variant per discriminator value of the
/// wire protocol.
pub enum ControlPlaneMessage {
    ChangeCursorPosition(ChangeCursorPositionRequest),
    SrcToDocJump(SrcToDocJumpRequest),
    PanelScrollByPosition(PanelScrollByPositionRequest),
    DocToSrcJumpResolve(DocToSrcJumpResolveRequest),
    SyncMemoryFiles(MemoryFiles),
    UpdateMemoryFiles(MemoryFiles),
    RemoveMemoryFiles(MemoryFilesShort),
}

/// Outbound control-plane frames, one variant per discriminator value of the
/// wire protocol.
pub enum ControlPlaneResponse {
    EditorScrollTo(DocToSrcJumpInfo),
    SyncEditorChanges,
    CompileStatus(CompileStatus),
    Outline(Outline),
}

/// Requests this actor forwards to the compiler collaborator.
pub enum TypstActorRequest {
    ChangeCursorPosition(ChangeCursorPositionRequest),
    SrcToDocJumpResolve(SrcToDocJumpRequest),
    DocToSrcJumpResolve((SourceSpanOffset, SourceSpanOffset)),
    SyncMemoryFiles(MemoryFiles),
    UpdateMemoryFiles(MemoryFiles),
    RemoveMemoryFiles(MemoryFilesShort),
}

/// Requests this actor broadcasts to the render (webview) subscribers.
#[derive(Debug, Clone, Copy, PartialEq, Eq, Structural)]
pub enum WebviewActorRequest {
    ViewportPosition(DocumentPosition),
}

/// One occurrence the actor's loop can wake up on.
pub enum ActorEvent {
    /// An internal event arrived in the mailbox.
    Mailbox(EditorActorRequest),
    /// A text frame arrived on the connection and parsed.
    Frame(ControlPlaneMessage),
    /// A frame arrived on the connection but was malformed or unrecognized.
    MalformedFrame,
    /// Reading from the connection failed: the connection is dead.
    TransportError,
}

/// The single action the actor takes in response to one event.
pub enum ActorStep {
    /// Send this frame on the editor connection.
    SendToEditor(ControlPlaneResponse),
    /// Forward this request to the compiler collaborator.
    ForwardToCompiler(TypstActorRequest),
    /// Broadcast this request to the render subscribers.
    BroadcastToRender(WebviewActorRequest),
    /// Log locally and drop the event; the loop continues.
    Ignore,
    /// The connection is dead: log and terminate the hosting process.
    Shutdown,
}

/// The span with offset zero used as both endpoints of a resolve-by-span
/// request.
pub open spec fn span_offset_of(span: SourceSpan) -> SourceSpanOffset {
    SourceSpanOffset { span, offset: 0 }
}

/// What resolving a hexadecimal span token yields: a malformed token or one
/// whose epoch is stale or whose index is unpopulated is dropped; a resolved
/// span is forwarded to the compiler as a (span, offset) pair used for both
/// endpoints.
pub open spec fn resolve_step_spec(interner: SpanInterner, token: Seq<char>) -> ActorStep {
    if !is_hex_str(token) {
        ActorStep::Ignore
    } else {
        match interner.lookup_spec(InternId::of_u64(hex_val(token) as u64)) {
            InternQuery::Found(Some(span)) => ActorStep::ForwardToCompiler(
                TypstActorRequest::DocToSrcJumpResolve(
                    (span_offset_of(span), span_offset_of(span)),
                ),
            ),
            InternQuery::Found(None) => ActorStep::Ignore,
            InternQuery::Stale => ActorStep::Ignore,
        }
    }
}

/// The actor's reaction to one event, per the protocol tables: mailbox events
/// become frames to the editor, editor frames become collaborator requests,
/// span tokens go through resolution, malformed frames are dropped, and only
/// a transport failure shuts the actor down.
pub open spec fn handle_event_spec(interner: SpanInterner, ev: ActorEvent) -> ActorStep {
    match ev {
        ActorEvent::Mailbox(req) => match req {
            EditorActorRequest::DocToSrcJump(info) => ActorStep::SendToEditor(
                ControlPlaneResponse::EditorScrollTo(info),
            ),
            EditorActorRequest::DocToSrcJumpResolve(req) => resolve_step_spec(
                interner,
                req.span@,
            ),
            EditorActorRequest::CompileStatus(status) => ActorStep::SendToEditor(
                ControlPlaneResponse::CompileStatus(status),
            ),
            EditorActorRequest::Outline(outline) => ActorStep::SendToEditor(
                ControlPlaneResponse::Outline(outline),
            ),
        },
        ActorEvent::Frame(msg) => match msg {
            ControlPlaneMessage::ChangeCursorPosition(cursor) => ActorStep::ForwardToCompiler(
                TypstActorRequest::ChangeCursorPosition(cursor),
            ),
            ControlPlaneMessage::SrcToDocJump(jump) => ActorStep::ForwardToCompiler(
                TypstActorRequest::SrcToDocJumpResolve(jump),
            ),
            ControlPlaneMessage::PanelScrollByPosition(req) => ActorStep::BroadcastToRender(
                WebviewActorRequest::ViewportPosition(req.position),
            ),
            ControlPlaneMessage::DocToSrcJumpResolve(req) => resolve_step_spec(
                interner,
                req.span@,
            ),
            ControlPlaneMessage::SyncMemoryFiles(files) => ActorStep::ForwardToCompiler(
                TypstActorRequest::SyncMemoryFiles(files),
            ),
            ControlPlaneMessage::UpdateMemoryFiles(files) => ActorStep::ForwardToCompiler(
                TypstActorRequest::UpdateMemoryFiles(files),
            ),
            ControlPlaneMessage::RemoveMemoryFiles(files) => ActorStep::ForwardToCompiler(
                TypstActorRequest::RemoveMemoryFiles(files),
            ),
        },
        ActorEvent::MalformedFrame => ActorStep::Ignore,
        ActorEvent::TransportError => ActorStep::Shutdown,
    }
}

/// The acknowledgment the actor sends on the connection immediately after
/// startup, before entering its loop.
pub fn startup_frame() -> (r: ControlPlaneResponse)
    ensures
        r == ControlPlaneResponse::SyncEditorChanges,
{
    ControlPlaneResponse::SyncEditorChanges
}

/// Resolves a hexadecimal span token against the interner under shared
/// access and decides what to do with it.
pub fn resolve_span_token(interner: &SpanInterner, token: &str) -> (r: ActorStep)
    ensures
        r == resolve_step_spec(*interner, token@),
{
    match parse_hex_u64(token) {
        None => ActorStep::Ignore,
        Some(v) => {
            proof {
                lemma_hex_val_nonneg(token@);
            }
            match interner.span(InternId::from_u64(v)) {
                InternQuery::Found(Some(span)) => ActorStep::ForwardToCompiler(
                    TypstActorRequest::DocToSrcJumpResolve(
                        (
                            SourceSpanOffset { span, offset: 0 },
                            SourceSpanOffset { span, offset: 0 },
                        ),
                    ),
                ),
                InternQuery::Found(None) => ActorStep::Ignore,
                InternQuery::Stale => ActorStep::Ignore,
            }
        },
    }
}

/// Decides the actor's reaction to one event. The caller performs the
/// returned action: it sends, forwards or broadcasts the carried value, logs
/// and continues on `Ignore`, and terminates the hosting process on
/// `Shutdown`.
pub fn handle_event(interner: &SpanInterner, ev: ActorEvent) -> (r: ActorStep)
    ensures
        r == handle_event_spec(*interner, ev),
{
    match ev {
        ActorEvent::Mailbox(req) => match req {
            EditorActorRequest::DocToSrcJump(info) => ActorStep::SendToEditor(
                ControlPlaneResponse::EditorScrollTo(info),
            ),
            EditorActorRequest::DocToSrcJumpResolve(req) => resolve_span_token(
                interner,
                req.span.as_str(),
            ),
            EditorActorRequest::CompileStatus(status) => ActorStep::SendToEditor(
                ControlPlaneResponse::CompileStatus(status),
            ),
            EditorActorRequest::Outline(outline) => ActorStep::SendToEditor(
                ControlPlaneResponse::Outline(outline),
            ),
        },
        ActorEvent::Frame(msg) => match msg {
            ControlPlaneMessage::ChangeCursorPosition(cursor) => ActorStep::ForwardToCompiler(
                TypstActorRequest::ChangeCursorPosition(cursor),
            ),
            ControlPlaneMessage::SrcToDocJump(jump) => ActorStep::ForwardToCompiler(
                TypstActorRequest::SrcToDocJumpResolve(jump),
            ),
            ControlPlaneMessage::PanelScrollByPosition(req) => ActorStep::BroadcastToRender(
                WebviewActorRequest::ViewportPosition(req.position),
            ),
            ControlPlaneMessage::DocToSrcJumpResolve(req) => resolve_span_token(
                interner,
                req.span.as_str(),
            ),
            ControlPlaneMessage::SyncMemoryFiles(files) => ActorStep::ForwardToCompiler(
                TypstActorRequest::SyncMemoryFiles(files),
            ),
            ControlPlaneMessage::UpdateMemoryFiles(files) => ActorStep::ForwardToCompiler(
                TypstActorRequest::UpdateMemoryFiles(files),
            ),
            ControlPlaneMessage::RemoveMemoryFiles(files) => ActorStep::ForwardToCompiler(
                TypstActorRequest::RemoveMemoryFiles(files),
            ),
        },
        ActorEvent::MalformedFrame => ActorStep::Ignore,
        ActorEvent::TransportError => ActorStep::Shutdown,
    }
}

/// Robustness law: no inbound frame — well-formed, malformed or unrecognized
/// — and no mailbox event ever shuts the actor down; only a transport-level
/// failure does.
pub proof fn law_only_transport_terminates(interner: SpanInterner, ev: ActorEvent)
    ensures
        (handle_event_spec(interner, ev) is Shutdown) <==> (ev is TransportError),
{
    match ev {
        ActorEvent::Mailbox(req) => match req {
            EditorActorRequest::DocToSrcJumpResolve(r) => {
                assert(!(resolve_step_spec(interner, r.span@) is Shutdown));
            },
            _ => {},
        },
        ActorEvent::Frame(msg) => match msg {
            ControlPlaneMessage::DocToSrcJumpResolve(r) => {
                assert(!(resolve_step_spec(interner, r.span@) is Shutdown));
            },
            _ => {},
        },
        _ => {},
    }
}

/// Routing law: a viewport-scroll frame reaches the render subscribers with
/// the exact position it carried, and nothing is ever forwarded to the
/// compiler for it.
pub proof fn law_panel_scroll_routing(interner: SpanInterner, req: PanelScrollByPositionRequest)
    ensures
        handle_event_spec(
            interner,
            ActorEvent::Frame(ControlPlaneMessage::PanelScrollByPosition(req)),
        ) == ActorStep::BroadcastToRender(WebviewActorRequest::ViewportPosition(req.position)),
{
}

} // verus!
