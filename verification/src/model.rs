//! The coordinator as a state machine: what each message does to the window
//! registry and the shutdown state, and which work it leaves for the
//! embedder.

use crate::message::{
    Action, CompositorMsg, ConstellationMsg, ControlFlow, ControllerMessage, EmbedderMsg,
    LogEntry, SendFailure, WindowEvent,
};
use crate::registry::{RegistryModel, ViewId, Window, WindowId};
use crate::shutdown::{CompositorModel, ShutdownState};
use vstd::prelude::*;

verus! {

/// What a window's own handler reports back after it has seen a message.
#[derive(Clone, Copy, Debug, PartialEq, Eq, Structural)]
pub enum Signal {
    /// Nothing more to do.
    Handled,
    /// The window's view is gone; the window has to go too.
    Closed,
    /// A new top-level window is needed for this view.
    NeedsWindow(ViewId),
}

/// The signal that the message draws from the window it is forwarded to.
pub open spec fn signal_of(msg: EmbedderMsg) -> Signal {
    match msg {
        EmbedderMsg::Close => Signal::Closed,
        EmbedderMsg::NewView(view) => Signal::NeedsWindow(view),
        _ => Signal::Handled,
    }
}

impl Window {
    /// The window's own handling of a message, as far as the coordinator
    /// has to know of it: what the window signals back.
    pub fn handle_servo_message(&self, msg: EmbedderMsg) -> (r: Signal)
        ensures
            r == signal_of(msg),
    {
        match msg {
            EmbedderMsg::Close => Signal::Closed,
            EmbedderMsg::NewView(view) => Signal::NeedsWindow(view),
            _ => Signal::Handled,
        }
    }
}

/// The coordinator's state: the registry, and the compositor until it is
/// released.
pub struct VersoModel {
    pub windows: RegistryModel,
    pub compositor: Option<CompositorModel>,
}

/// The outcome of one message: the state after it and the work it causes.
pub struct Step {
    pub state: VersoModel,
    pub actions: Seq<Action>,
}

/// The outcome of one tick: the state after it, the work it causes and how
/// the native event loop goes on.
pub struct TickModel {
    pub state: VersoModel,
    pub actions: Seq<Action>,
    pub flow: ControlFlow,
}

/// Anything that can reach the coordinator.
pub enum Event {
    Controller(ControllerMessage),
    Compositor(CompositorMsg),
    Embedder((Option<ViewId>, EmbedderMsg)),
    Window(WindowId, WindowEvent),
    EndTick,
}

/// The one log entry that a message gets once teardown has finished.
pub open spec fn post_terminal() -> Seq<Action> {
    seq![Action::Log(LogEntry::PostTerminal)]
}

impl VersoModel {
    /// The state at startup: one window, which shows `view` and has focus,
    /// and a compositor that is not shutting down.
    pub open spec fn start(view: ViewId) -> VersoModel {
        VersoModel {
            windows: RegistryModel::empty().insert(view),
            compositor: Some(CompositorModel::start(WindowId(0))),
        }
    }

    /// The state's invariant: that of its registry.
    pub open spec fn wf(self) -> bool {
        self.windows.wf()
    }

    /// Teardown has finished: the compositor has said so or is released.
    pub open spec fn terminal(self) -> bool {
        match self.compositor {
            None => true,
            Some(c) => c.shutdown_state == ShutdownState::FinishedShuttingDown,
        }
    }

    /// Teardown has not begun.
    pub open spec fn accepting(self) -> bool {
        match self.compositor {
            None => false,
            Some(c) => c.shutdown_state == ShutdownState::NotShuttingDown,
        }
    }

    /// Whether the event loop has to keep polling: the compositor is there
    /// and some window is animating.
    pub open spec fn is_animating(self) -> bool {
        self.compositor is Some && self.windows.any_animating()
    }

    /// The same state with teardown begun, and the command that asks the
    /// engine to exit if this began it.
    pub open spec fn start_shutting_down(self) -> Step {
        match self.compositor {
            None => Step { state: self, actions: Seq::empty() },
            Some(c) => Step {
                state: VersoModel { compositor: Some(c.maybe_start_shutting_down()), ..self },
                actions: if c.shutdown_state == ShutdownState::NotShuttingDown {
                    seq![Action::Send(ConstellationMsg::Exit)]
                } else {
                    Seq::empty()
                },
            },
        }
    }

    /// A message of the external controller. It never changes the state. A
    /// request to navigate goes to the view of the oldest window; any other
    /// request is ignored; after teardown has finished every request is
    /// logged and dropped.
    pub open spec fn on_controller(self, msg: ControllerMessage) -> Seq<Action> {
        if self.terminal() {
            post_terminal()
        } else {
            match msg {
                ControllerMessage::NavigateTo(url) => match self.windows.primary_view() {
                    Some(view) => seq![Action::Send(ConstellationMsg::LoadUrl(view, url))],
                    None => Seq::empty(),
                },
                ControllerMessage::Other => Seq::empty(),
            }
        }
    }

    /// A message of the compositor.
    pub open spec fn on_compositor(self, msg: CompositorMsg) -> Step {
        match self.compositor {
            None => Step { state: self, actions: post_terminal() },
            Some(c) => match c.shutdown_state {
                ShutdownState::FinishedShuttingDown => Step {
                    state: self,
                    actions: post_terminal(),
                },
                ShutdownState::ShuttingDown => match msg {
                    CompositorMsg::ShutdownFinished => Step {
                        state: VersoModel { compositor: Some(c.finish_shutting_down()), ..self },
                        actions: Seq::empty(),
                    },
                    _ => Step { state: self, actions: Seq::empty() },
                },
                ShutdownState::NotShuttingDown => match msg {
                    CompositorMsg::NewWebRenderFrameReady(_, composite_needed) => Step {
                        state: VersoModel {
                            compositor: Some(c.frame_ready(composite_needed)),
                            ..self
                        },
                        actions: Seq::empty(),
                    },
                    CompositorMsg::AnimationStatus(view, animating) => match self.windows.owner_of(
                        view,
                    ) {
                        Some(window) => Step {
                            state: VersoModel {
                                windows: self.windows.set_animating(window, animating),
                                ..self
                            },
                            actions: Seq::empty(),
                        },
                        None => Step {
                            state: self,
                            actions: seq![Action::Log(LogEntry::StaleView(view))],
                        },
                    },
                    CompositorMsg::ShutdownFinished => Step {
                        state: self,
                        actions: seq![Action::Log(LogEntry::UnexpectedShutdownFinished)],
                    },
                },
            },
        }
    }

    /// A message for the window that shows `view`, while teardown has not
    /// begun. Without such a window the message is logged and dropped. With
    /// one, the message is forwarded, and what the window's handler signals
    /// is carried out at once: the window leaves the registry, or a new
    /// window enters it.
    pub open spec fn on_targeted(self, view: ViewId, msg: EmbedderMsg) -> Step {
        match self.windows.owner_of(view) {
            None => Step { state: self, actions: seq![Action::Log(LogEntry::StaleView(view))] },
            Some(window) => {
                let forward = Action::Forward { window, view, msg };
                match signal_of(msg) {
                    Signal::Handled => Step { state: self, actions: seq![forward] },
                    Signal::Closed => Step {
                        state: VersoModel { windows: self.windows.remove(window), ..self },
                        actions: seq![forward, Action::CloseWindow { window }],
                    },
                    Signal::NeedsWindow(new_view) => match self.windows.insert_error(new_view) {
                        Some(e) => Step {
                            state: self,
                            actions: seq![
                                forward,
                                Action::Log(LogEntry::WindowRefused(new_view, e)),
                            ],
                        },
                        None => Step {
                            state: VersoModel { windows: self.windows.insert(new_view), ..self },
                            actions: seq![
                                forward,
                                Action::OpenWindow {
                                    window: WindowId(self.windows.next),
                                    view: new_view,
                                },
                            ],
                        },
                    },
                }
            },
        }
    }

    /// A message for the coordinator itself, while teardown has not begun.
    /// It never changes the state. A cursor goes to the window in focus, and
    /// to no window if the one in focus is not registered.
    pub open spec fn on_global(self, msg: EmbedderMsg) -> Seq<Action> {
        match msg {
            EmbedderMsg::SetCursor(cursor) => match self.compositor {
                Some(c) => match c.current_window {
                    Some(window) => if self.windows.has_window(window) {
                        seq![Action::SetCursor { window, cursor }]
                    } else {
                        Seq::empty()
                    },
                    None => Seq::empty(),
                },
                None => Seq::empty(),
            },
            EmbedderMsg::Shutdown => Seq::empty(),
            EmbedderMsg::ReadyToPresent => Seq::empty(),
            _ => seq![Action::Log(LogEntry::Unsupported(msg))],
        }
    }

    /// A message of the embedder channel. It is dispatched only while
    /// teardown has not begun; while the engine shuts down it is dropped,
    /// and after teardown has finished it is logged and dropped.
    pub open spec fn on_embedder(self, envelope: (Option<ViewId>, EmbedderMsg)) -> Step {
        match self.compositor {
            None => Step { state: self, actions: post_terminal() },
            Some(c) => match c.shutdown_state {
                ShutdownState::FinishedShuttingDown => Step {
                    state: self,
                    actions: post_terminal(),
                },
                ShutdownState::ShuttingDown => Step { state: self, actions: Seq::empty() },
                ShutdownState::NotShuttingDown => match envelope.0 {
                    Some(view) => self.on_targeted(view, envelope.1),
                    None => Step { state: self, actions: self.on_global(envelope.1) },
                },
            },
        }
    }

    /// An event of the native window system for `window`. Once the
    /// compositor is released nothing happens. A request to close counts
    /// only while teardown has not begun: on the last window it begins
    /// teardown, on any other it closes that window and its view. Any other
    /// event is delivered to the window, and a gain of focus is recorded.
    pub open spec fn on_window_event(self, window: WindowId, event: WindowEvent) -> Step {
        match self.compositor {
            None => Step { state: self, actions: Seq::empty() },
            Some(c) => match event {
                WindowEvent::CloseRequested => if c.shutdown_state
                    != ShutdownState::NotShuttingDown {
                    Step { state: self, actions: Seq::empty() }
                } else {
                    match self.windows.window(window) {
                        None => Step {
                            state: self,
                            actions: seq![Action::Log(LogEntry::StaleWindow(window))],
                        },
                        Some(w) => if self.windows.entries.len() == 1 {
                            self.start_shutting_down()
                        } else {
                            Step {
                                state: VersoModel { windows: self.windows.remove(window), ..self },
                                actions: seq![
                                    Action::CloseWindow { window },
                                    Action::Send(ConstellationMsg::CloseWebView(w.view)),
                                ],
                            }
                        },
                    }
                },
                _ => if self.windows.has_window(window) {
                    Step {
                        state: if event == WindowEvent::Focused(true) {
                            VersoModel { compositor: Some(c.swap_current_window(window)), ..self }
                        } else {
                            self
                        },
                        actions: seq![Action::Deliver { window, event }],
                    }
                } else {
                    Step {
                        state: self,
                        actions: seq![Action::Log(LogEntry::StaleWindow(window))],
                    }
                },
            },
        }
    }

    /// The compositor messages of one tick, oldest first.
    pub open spec fn drain_compositor(self, msgs: Seq<CompositorMsg>) -> Step
        decreases msgs.len(),
    {
        if msgs.len() == 0 {
            Step { state: self, actions: Seq::empty() }
        } else {
            let before = self.drain_compositor(msgs.drop_last());
            let last = before.state.on_compositor(msgs.last());
            Step { state: last.state, actions: before.actions + last.actions }
        }
    }

    /// The embedder messages of one tick, oldest first.
    pub open spec fn drain_embedder(self, msgs: Seq<(Option<ViewId>, EmbedderMsg)>) -> Step
        decreases msgs.len(),
    {
        if msgs.len() == 0 {
            Step { state: self, actions: Seq::empty() }
        } else {
            let before = self.drain_embedder(msgs.drop_last());
            let last = before.state.on_embedder(msgs.last());
            Step { state: last.state, actions: before.actions + last.actions }
        }
    }

    /// The end of a tick. Once teardown has finished the compositor is
    /// released and the event loop is left; this happens once, for a
    /// released compositor is gone. Until then the compositor makes its
    /// update pass, an empty registry begins teardown, and the event loop
    /// polls while a window animates and waits otherwise.
    pub open spec fn end_tick(self) -> TickModel {
        match self.compositor {
            None => TickModel { state: self, actions: Seq::empty(), flow: ControlFlow::Wait },
            Some(c) => if c.shutdown_state == ShutdownState::FinishedShuttingDown {
                TickModel {
                    state: VersoModel { compositor: None, ..self },
                    actions: seq![Action::Deinit],
                    flow: ControlFlow::Exit,
                }
            } else {
                let updated = VersoModel { compositor: Some(c.frame_taken()), ..self };
                let update = seq![Action::PerformUpdates { composite: c.frame_pending }];
                let closing = if self.windows.entries.len() == 0 {
                    updated.start_shutting_down()
                } else {
                    Step { state: updated, actions: Seq::empty() }
                };
                TickModel {
                    state: closing.state,
                    actions: update + closing.actions,
                    flow: if self.windows.any_animating() {
                        ControlFlow::Poll
                    } else {
                        ControlFlow::Wait
                    },
                }
            },
        }
    }

    /// One tick: the controller's pending message first, then every
    /// compositor message, then every embedder message, then the end of the
    /// tick.
    pub open spec fn tick(
        self,
        pending: Option<ControllerMessage>,
        compositor: Seq<CompositorMsg>,
        embedder: Seq<(Option<ViewId>, EmbedderMsg)>,
    ) -> TickModel {
        let first = match pending {
            Some(msg) => self.on_controller(msg),
            None => Seq::empty(),
        };
        let second = self.drain_compositor(compositor);
        let third = second.state.drain_embedder(embedder);
        let end = third.state.end_tick();
        TickModel {
            state: end.state,
            actions: first + second.actions + third.actions + end.actions,
            flow: end.flow,
        }
    }

    /// One event, whatever its kind.
    pub open spec fn on_event(self, event: Event) -> Step {
        match event {
            Event::Controller(msg) => Step { state: self, actions: self.on_controller(msg) },
            Event::Compositor(msg) => self.on_compositor(msg),
            Event::Embedder(envelope) => self.on_embedder(envelope),
            Event::Window(window, e) => self.on_window_event(window, e),
            Event::EndTick => Step {
                state: self.end_tick().state,
                actions: self.end_tick().actions,
            },
        }
    }

    /// The events in the order given, one after the other.
    pub open spec fn run(self, events: Seq<Event>) -> Step
        decreases events.len(),
    {
        if events.len() == 0 {
            Step { state: self, actions: Seq::empty() }
        } else {
            let before = self.run(events.drop_last());
            let last = before.state.on_event(events.last());
            Step { state: last.state, actions: before.actions + last.actions }
        }
    }
}

/// The events that make up one tick, in the order in which the tick takes
/// them.
pub open spec fn tick_events(
    pending: Option<ControllerMessage>,
    compositor: Seq<CompositorMsg>,
    embedder: Seq<(Option<ViewId>, EmbedderMsg)>,
) -> Seq<Event> {
    let first = match pending {
        Some(msg) => seq![Event::Controller(msg)],
        None => Seq::empty(),
    };
    first + compositor.map_values(|msg: CompositorMsg| Event::Compositor(msg))
        + embedder.map_values(|envelope: (Option<ViewId>, EmbedderMsg)| Event::Embedder(envelope))
        + seq![Event::EndTick]
}

/// What is left of one piece of work once it has been offered to the
/// engine. A command that went through is done; one that did not leaves a
/// log entry with its kind and the failure. Anything else is not for the
/// engine and stays as it is.
pub open spec fn settled_one(action: Action, outcome: Option<SendFailure>) -> Seq<Action> {
    match action {
        Action::Send(msg) => match outcome {
            None => Seq::empty(),
            Some(failure) => seq![Action::Log(LogEntry::SendFailed(msg.kind(), failure))],
        },
        _ => seq![action],
    }
}

/// What is left of the work once each piece has been offered to the engine,
/// `outcomes[i]` being how the sending went for `actions[i]`.
pub open spec fn settled(actions: Seq<Action>, outcomes: Seq<Option<SendFailure>>) -> Seq<Action>
    recommends
        actions.len() == outcomes.len(),
    decreases actions.len(),
{
    if actions.len() == 0 {
        Seq::empty()
    } else {
        settled(actions.drop_last(), outcomes.drop_last()) + settled_one(
            actions.last(),
            outcomes.last(),
        )
    }
}

/// Whether `left` is what some course of sending leaves of `actions`.
pub open spec fn is_settled(actions: Seq<Action>, left: Seq<Action>) -> bool {
    exists|outcomes: Seq<Option<SendFailure>>|
        outcomes.len() == actions.len() && left == #[trigger] settled(actions, outcomes)
}

} // verus!
