//! The messages that reach the coordinator, the commands it sends, and the
//! work it hands to the embedder.

use crate::registry::{RegistryError, ViewId, WindowId};
use vstd::prelude::*;

verus! {

/// A cursor shape.
#[derive(Clone, Copy, Debug, PartialEq, Eq, Structural)]
pub enum Cursor {
    Hidden,
    Default,
    Pointer,
    ContextMenu,
    Help,
    Progress,
    Wait,
    Cell,
    Crosshair,
    Text,
    VerticalText,
    Alias,
    Copy,
    Move,
    NoDrop,
    NotAllowed,
    Grab,
    Grabbing,
    EResize,
    NResize,
    NeResize,
    NwResize,
    SResize,
    SeResize,
    SwResize,
    WResize,
    EwResize,
    NsResize,
    NeswResize,
    NwseResize,
    ColResize,
    RowResize,
    AllScroll,
    ZoomIn,
    ZoomOut,
}

/// A document of the renderer.
#[derive(Clone, Copy, Debug, PartialEq, Eq, Structural)]
pub struct DocumentId {
    pub namespace: u32,
    pub id: u32,
}

/// What the engine tells the embedder. With a view identifier beside it the
/// message is for the window that shows the view; without one it is for the
/// coordinator.
#[derive(Clone, Copy, Debug, PartialEq, Eq, Structural)]
pub enum EmbedderMsg {
    /// The view was closed.
    Close,
    /// A new top-level view was asked for and has this identifier.
    NewView(ViewId),
    /// The cursor changes its shape.
    SetCursor(Cursor),
    /// The engine has shut down.
    Shutdown,
    /// A frame is ready to be shown.
    ReadyToPresent,
    /// A message that only a window's own handler reads. The number is the
    /// embedder's ticket for its payload.
    Local(u64),
}

/// What the renderer tells the coordinator.
#[derive(Clone, Copy, Debug, PartialEq, Eq, Structural)]
pub enum CompositorMsg {
    /// A frame of the document is ready; the flag says whether it must be
    /// composited.
    NewWebRenderFrameReady(DocumentId, bool),
    /// The view started or stopped animating.
    AnimationStatus(ViewId, bool),
    /// The engine has finished its teardown.
    ShutdownFinished,
}

/// What an external controller asks for.
#[derive(Clone, Debug, PartialEq, Eq)]
pub enum ControllerMessage {
    /// Load this address in the primary view.
    NavigateTo(String),
    /// Any other request; the coordinator ignores it.
    Other,
}

/// What wakes the native event loop.
#[derive(Clone, Debug, PartialEq, Eq)]
pub enum EventLoopProxyMessage {
    /// An engine thread has something for the coordinator.
    Wake,
    /// A message from the external controller.
    IpcMessage(ControllerMessage),
}

/// A command for the engine's pipeline coordinator.
#[derive(Clone, Debug, PartialEq, Eq)]
pub enum ConstellationMsg {
    /// Shut the engine down.
    Exit,
    /// Load this address in the view.
    LoadUrl(ViewId, String),
    /// Close the view.
    CloseWebView(ViewId),
}

/// An event of the native window system.
#[derive(Clone, Copy, Debug, PartialEq, Eq, Structural)]
pub enum WindowEvent {
    /// The user asked to close the window.
    CloseRequested,
    /// The window gained or lost focus.
    Focused(bool),
    /// An event that only the window itself reads. The number is the
    /// embedder's ticket for it.
    Local(u64),
}

/// Something the embedder should write to its log.
#[derive(Clone, Copy, Debug, PartialEq, Eq, Structural)]
pub enum LogEntry {
    /// A message named a view that no window shows. Expected while views
    /// close.
    StaleView(ViewId),
    /// An event named a window that is not registered.
    StaleWindow(WindowId),
    /// A message for the coordinator that it does not handle.
    Unsupported(EmbedderMsg),
    /// A message arrived after teardown had finished.
    PostTerminal,
    /// The engine reported the end of a teardown that never began.
    UnexpectedShutdownFinished,
    /// No window could be opened for the view.
    WindowRefused(ViewId, RegistryError),
    /// A command of the given kind could not be handed to the engine.
    SendFailed(CommandKind, SendFailure),
    /// The event loop could not be woken.
    WakeFailed,
}

/// The kind of a `ConstellationMsg`.
#[derive(Clone, Copy, Debug, PartialEq, Eq, Structural)]
pub enum CommandKind {
    Exit,
    LoadUrl,
    CloseWebView,
}

/// Why a message could not be put into a channel.
#[derive(Clone, Copy, Debug, PartialEq, Eq, Structural)]
pub enum SendFailure {
    /// The channel holds as many messages as it can.
    Full,
    /// Nobody receives from the channel any more.
    Disconnected,
}

/// Work for the embedder. The coordinator decides; the embedder owns the
/// native windows and the renderer and carries the decisions out, in the
/// order given.
#[derive(Clone, Debug, PartialEq, Eq)]
pub enum Action {
    /// Give the message to the window's own handler.
    Forward { window: WindowId, view: ViewId, msg: EmbedderMsg },
    /// Give the native event to the window's own handler.
    Deliver { window: WindowId, event: WindowEvent },
    /// Create the native window for a newly registered window.
    OpenWindow { window: WindowId, view: ViewId },
    /// Destroy the native window of a window that left the registry.
    CloseWindow { window: WindowId },
    /// Show this cursor in the window.
    SetCursor { window: WindowId, cursor: Cursor },
    /// Send the command to the engine.
    Send(ConstellationMsg),
    /// Let the compositor make its update pass.
    PerformUpdates { composite: bool },
    /// Release the compositor.
    Deinit,
    /// Write the entry to the log.
    Log(LogEntry),
}

/// How the native event loop should go on after a tick.
#[derive(Clone, Copy, Debug, PartialEq, Eq, Structural)]
pub enum ControlFlow {
    /// Run the next tick at once.
    Poll,
    /// Sleep until a native event or a wake signal arrives.
    Wait,
    /// Leave the event loop.
    Exit,
}

impl ConstellationMsg {
    /// The kind of the command.
    pub open spec fn spec_kind(&self) -> CommandKind {
        match *self {
            ConstellationMsg::Exit => CommandKind::Exit,
            ConstellationMsg::LoadUrl(_, _) => CommandKind::LoadUrl,
            ConstellationMsg::CloseWebView(_) => CommandKind::CloseWebView,
        }
    }

    /// The kind of the command.
    #[verifier::when_used_as_spec(spec_kind)]
    pub fn kind(&self) -> (r: CommandKind)
        ensures
            r == self.spec_kind(),
    {
        match self {
            ConstellationMsg::Exit => CommandKind::Exit,
            ConstellationMsg::LoadUrl(_, _) => CommandKind::LoadUrl,
            ConstellationMsg::CloseWebView(_) => CommandKind::CloseWebView,
        }
    }
}

impl CommandKind {
    /// The name under which the kind appears in the log.
    pub fn variant_name(self) -> (r: &'static str)
        ensures
            r@ == match self {
                CommandKind::Exit => "Exit"@,
                CommandKind::LoadUrl => "LoadUrl"@,
                CommandKind::CloseWebView => "CloseWebView"@,
            },
    {
        match self {
            CommandKind::Exit => "Exit",
            CommandKind::LoadUrl => "LoadUrl",
            CommandKind::CloseWebView => "CloseWebView",
        }
    }
}

} // verus!
