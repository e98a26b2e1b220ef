//! The coordinator: it owns the window registry, reads the shutdown state,
//! and turns the messages of one tick into work for the embedder.

use crate::channel::{drain, try_send, unbounded};
use crate::message::{
    Action, CompositorMsg, ConstellationMsg, ControlFlow, ControllerMessage, EmbedderMsg,
    CommandKind, EventLoopProxyMessage, LogEntry, SendFailure, WindowEvent,
};
use crate::model::{
    is_settled, post_terminal, settled, settled_one, Signal, TickModel, VersoModel,
};
use crate::notify::{CompositorProxy, EmbedderProxy};
use crate::registry::{ViewId, WindowId, WindowRegistry};
use crate::shutdown::{Compositor, ShutdownState};
use crate::wake::{WakeLatch, Waker};
use crossbeam_channel::{Receiver, Sender};
use vstd::prelude::*;

verus! {

/// Says what to log of a command of kind `kind`, given how the sending
/// went: nothing if it went through, its kind and the failure if not.
pub fn send_report(kind: CommandKind, sent: Result<(), SendFailure>) -> (r: Option<LogEntry>)
    ensures
        r == match sent {
            Ok(_) => None,
            Err(failure) => Some(LogEntry::SendFailed(kind, failure)),
        },
{
    match sent {
        Ok(_) => None,
        Err(failure) => Some(LogEntry::SendFailed(kind, failure)),
    }
}

/// Offers a command to the engine without waiting. A failure is not
/// escalated and the command is not offered again: the result is what to
/// log, which is nothing or a `SendFailed` with the command's kind.
pub fn send_to_constellation(sender: &Sender<ConstellationMsg>, msg: ConstellationMsg) -> (r:
    Option<LogEntry>)
    ensures
        match r {
            None => true,
            Some(entry) => exists|failure: SendFailure|
                entry == LogEntry::SendFailed(msg.kind(), failure),
        },
{
    let kind = msg.kind();
    let sent = try_send(sender, msg);
    send_report(kind, sent)
}

/// Offers every command among the work to the engine, in order, and returns
/// what is left for the embedder.
pub fn deliver(sender: &Sender<ConstellationMsg>, actions: Vec<Action>) -> (left: Vec<Action>)
    ensures
        is_settled(actions@, left@),
{
    let mut left: Vec<Action> = Vec::new();
    let ghost mut outcomes: Seq<Option<SendFailure>> = Seq::empty();
    let ghost all = actions@;
    for action in it: actions
        invariant
            it.seq() == all,
            outcomes.len() == it.index(),
            left@ == settled(all.take(it.index()), outcomes),
    {
        let ghost i = it.index();
        let ghost before = outcomes;
        let ghost kept = left@;
        assert(all.take(i + 1).drop_last() =~= all.take(i));
        assert(all.take(i + 1).last() == action);
        match action {
            Action::Send(msg) => {
                match send_to_constellation(sender, msg) {
                    None => {
                        proof {
                            outcomes = before.push(None);
                        }
                    },
                    Some(entry) => {
                        proof {
                            let failure = choose|failure: SendFailure|
                                entry == LogEntry::SendFailed(msg.kind(), failure);
                            outcomes = before.push(Some(failure));
                        }
                        left.push(Action::Log(entry));
                    },
                }
            },
            other => {
                proof {
                    outcomes = before.push(None);
                }
                left.push(other);
            },
        }
        assert(outcomes.drop_last() =~= before);
        assert(left@ =~= kept + settled_one(action, outcomes.last()));
    }
    assert(all.take(all.len() as int) =~= all);
    assert(left@ == settled(actions@, outcomes));
    left
}

/// Whether a tick that should come out as `tick` left the state `after`,
/// the work `left` once the commands were offered to the engine, and the
/// event loop going on as `flow`.
pub open spec fn is_tick_of(
    tick: TickModel,
    after: VersoModel,
    left: Seq<Action>,
    flow: ControlFlow,
) -> bool {
    after == tick.state && is_settled(tick.actions, left) && flow == tick.flow
}

/// The coordinator of the event loop.
pub struct Verso {
    windows: WindowRegistry,
    compositor: Option<Compositor>,
    latch: WakeLatch,
    constellation_sender: Sender<ConstellationMsg>,
    compositor_receiver: Receiver<CompositorMsg>,
    embedder_receiver: Receiver<(Option<ViewId>, EmbedderMsg)>,
}

impl View for Verso {
    type V = VersoModel;

    closed spec fn view(&self) -> VersoModel {
        VersoModel {
            windows: self.windows@,
            compositor: match self.compositor {
                Some(c) => Some(c@),
                None => None,
            },
        }
    }
}

impl Verso {
    /// The coordinator's invariant: that of its registry.
    pub open spec fn wf(&self) -> bool {
        self@.wf()
    }

    /// Whether a tick is owed: a wake has reached the event loop and no tick
    /// has run since.
    pub closed spec fn wake_pending(&self) -> bool {
        self.latch@
    }

    /// The channel end through which commands go to the engine.
    pub closed spec fn commands(&self) -> Sender<ConstellationMsg> {
        self.constellation_sender
    }

    /// The receiving ends of the coordinator's two queues: the compositor's
    /// and the embedder's.
    pub closed spec fn queues(&self) -> (
        Receiver<CompositorMsg>,
        Receiver<(Option<ViewId>, EmbedderMsg)>,
    ) {
        (self.compositor_receiver, self.embedder_receiver)
    }

    /// A coordinator with one window, which shows `view` and has focus,
    /// and a compositor that is not shutting down. Commands for the engine
    /// go to `constellation_sender`. The two proxies are the sending ends of
    /// the coordinator's queues, for the engine's threads; each wakes the
    /// event loop through `waker`.
    pub fn new(view: ViewId, constellation_sender: Sender<ConstellationMsg>, waker: Waker) -> (r: (
        Verso,
        CompositorProxy,
        EmbedderProxy,
    ))
        ensures
            r.0.wf(),
            r.0@ == VersoModel::start(view),
            r.0.commands() == constellation_sender,
            !r.0.wake_pending(),
    {
        let (compositor_sender, compositor_receiver) = unbounded::<CompositorMsg>();
        let (embedder_sender, embedder_receiver) = unbounded::<(Option<ViewId>, EmbedderMsg)>();
        let compositor_proxy = CompositorProxy::new(compositor_sender, waker.clone_box());
        let embedder_proxy = EmbedderProxy::new(embedder_sender, Box::new(waker));
        let mut windows = WindowRegistry::new();
        let first = match windows.insert(view) {
            Ok(id) => id,
            Err(_) => WindowId(0),
        };
        let verso = Verso {
            windows,
            compositor: Some(Compositor::new(first)),
            latch: WakeLatch::new(),
            constellation_sender,
            compositor_receiver,
            embedder_receiver,
        };
        (verso, compositor_proxy, embedder_proxy)
    }

    /// The shutdown state, until the compositor is released.
    pub fn shutdown_state(&self) -> (r: Option<ShutdownState>)
        ensures
            r == match self@.compositor {
                Some(c) => Some(c.shutdown_state),
                None => None,
            },
    {
        match &self.compositor {
            Some(c) => Some(c.shutdown_state()),
            None => None,
        }
    }

    /// The window registry.
    pub fn windows(&self) -> (r: &WindowRegistry)
        ensures
            r@ == self@.windows,
    {
        &self.windows
    }

    /// Whether a tick is owed.
    pub fn is_wake_pending(&self) -> (r: bool)
        ensures
            r == self.wake_pending(),
    {
        self.latch.is_pending()
    }

    /// The window in focus, until the compositor is released.
    pub fn current_window(&self) -> (r: Option<WindowId>)
        ensures
            r == match self@.compositor {
                Some(c) => c.current_window,
                None => None,
            },
    {
        match &self.compositor {
            Some(c) => c.current_window(),
            None => None,
        }
    }

    /// Whether one of the windows is animating. Without a compositor none
    /// is.
    pub fn is_animating(&self) -> (r: bool)
        ensures
            r == self@.is_animating(),
    {
        match &self.compositor {
            Some(_) => self.windows.any_animating(),
            None => false,
        }
    }

    fn is_terminal(&self) -> (r: bool)
        ensures
            r == self@.terminal(),
    {
        match &self.compositor {
            Some(c) => match c.shutdown_state() {
                ShutdownState::FinishedShuttingDown => true,
                _ => false,
            },
            None => true,
        }
    }

    /// Decides what a message of the external controller leads to.
    pub fn on_controller(&self, msg: ControllerMessage) -> (actions: Vec<Action>)
        ensures
            actions@ == self@.on_controller(msg),
    {
        let mut actions: Vec<Action> = Vec::new();
        if self.is_terminal() {
            actions.push(Action::Log(LogEntry::PostTerminal));
            assert(actions@ =~= post_terminal());
        } else {
            match msg {
                ControllerMessage::NavigateTo(url) => match self.windows.primary_view() {
                    Some(view) => {
                        actions.push(Action::Send(ConstellationMsg::LoadUrl(view, url)));
                        assert(actions@ =~= seq![
                            Action::Send(ConstellationMsg::LoadUrl(view, url)),
                        ]);
                    },
                    None => {},
                },
                ControllerMessage::Other => {},
            }
        }
        actions
    }

    /// Begins teardown unless it has begun, and asks the engine to exit if
    /// this call began it.
    pub fn start_shutting_down(&mut self) -> (actions: Vec<Action>)
        ensures
            final(self).commands() == old(self).commands(),
            final(self).queues() == old(self).queues(),
            final(self).wake_pending() == old(self).wake_pending(),
            final(self)@ == old(self)@.start_shutting_down().state,
            actions@ == old(self)@.start_shutting_down().actions,
    {
        let mut actions: Vec<Action> = Vec::new();
        match &mut self.compositor {
            Some(c) => {
                if c.maybe_start_shutting_down() {
                    actions.push(Action::Send(ConstellationMsg::Exit));
                    assert(actions@ =~= seq![Action::Send(ConstellationMsg::Exit)]);
                }
            },
            None => {},
        }
        actions
    }

    /// Takes in one message of the compositor.
    pub fn on_compositor(&mut self, msg: CompositorMsg) -> (actions: Vec<Action>)
        requires
            old(self).wf(),
        ensures
            final(self).wf(),
            final(self).commands() == old(self).commands(),
            final(self).queues() == old(self).queues(),
            final(self).wake_pending() == old(self).wake_pending(),
            final(self)@ == old(self)@.on_compositor(msg).state,
            actions@ == old(self)@.on_compositor(msg).actions,
    {
        let mut actions: Vec<Action> = Vec::new();
        match &mut self.compositor {
            None => {
                actions.push(Action::Log(LogEntry::PostTerminal));
                assert(actions@ =~= post_terminal());
            },
            Some(c) => match c.shutdown_state() {
                ShutdownState::FinishedShuttingDown => {
                    actions.push(Action::Log(LogEntry::PostTerminal));
                    assert(actions@ =~= post_terminal());
                },
                ShutdownState::ShuttingDown => match msg {
                    CompositorMsg::ShutdownFinished => {
                        c.finish_shutting_down();
                    },
                    _ => {},
                },
                ShutdownState::NotShuttingDown => match msg {
                    CompositorMsg::NewWebRenderFrameReady(_, composite_needed) => {
                        c.frame_ready(composite_needed);
                    },
                    CompositorMsg::AnimationStatus(view, animating) => {
                        match self.windows.lookup_by_view(view) {
                            Some(window) => {
                                self.windows.set_animating(window, animating);
                            },
                            None => {
                                actions.push(Action::Log(LogEntry::StaleView(view)));
                                assert(actions@ =~= seq![Action::Log(LogEntry::StaleView(view))]);
                            },
                        }
                    },
                    CompositorMsg::ShutdownFinished => {
                        actions.push(Action::Log(LogEntry::UnexpectedShutdownFinished));
                        assert(actions@ =~= seq![
                            Action::Log(LogEntry::UnexpectedShutdownFinished),
                        ]);
                    },
                },
            },
        }
        actions
    }

    /// Routes a message to the window that shows `view`, while teardown has
    /// not begun.
    fn on_targeted(&mut self, view: ViewId, msg: EmbedderMsg) -> (actions: Vec<Action>)
        requires
            old(self).wf(),
        ensures
            final(self).wf(),
            final(self).commands() == old(self).commands(),
            final(self).queues() == old(self).queues(),
            final(self).wake_pending() == old(self).wake_pending(),
            final(self)@ == old(self)@.on_targeted(view, msg).state,
            actions@ == old(self)@.on_targeted(view, msg).actions,
    {
        let mut actions: Vec<Action> = Vec::new();
        match self.windows.lookup_by_view(view) {
            None => {
                actions.push(Action::Log(LogEntry::StaleView(view)));
                assert(actions@ =~= seq![Action::Log(LogEntry::StaleView(view))]);
            },
            Some(window) => {
                let signal = match self.windows.get(window) {
                    Some(w) => w.handle_servo_message(msg),
                    None => Signal::Handled,
                };
                proof {
                    crate::registry::lemma_owner_is_registered(self.windows@, view);
                }
                actions.push(Action::Forward { window, view, msg });
                match signal {
                    Signal::Handled => {
                        assert(actions@ =~= seq![Action::Forward { window, view, msg }]);
                    },
                    Signal::Closed => {
                        self.windows.remove(window);
                        actions.push(Action::CloseWindow { window });
                        assert(actions@ =~= seq![
                            Action::Forward { window, view, msg },
                            Action::CloseWindow { window },
                        ]);
                    },
                    Signal::NeedsWindow(new_view) => match self.windows.insert(new_view) {
                        Ok(id) => {
                            actions.push(Action::OpenWindow { window: id, view: new_view });
                            assert(actions@ =~= seq![
                                Action::Forward { window, view, msg },
                                Action::OpenWindow { window: id, view: new_view },
                            ]);
                        },
                        Err(e) => {
                            actions.push(Action::Log(LogEntry::WindowRefused(new_view, e)));
                            assert(actions@ =~= seq![
                                Action::Forward { window, view, msg },
                                Action::Log(LogEntry::WindowRefused(new_view, e)),
                            ]);
                        },
                    },
                }
            },
        }
        actions
    }

    /// Decides what a message for the coordinator itself leads to, while
    /// teardown has not begun.
    fn on_global(&self, msg: EmbedderMsg) -> (actions: Vec<Action>)
        ensures
            actions@ == self@.on_global(msg),
    {
        let mut actions: Vec<Action> = Vec::new();
        match msg {
            EmbedderMsg::SetCursor(cursor) => match self.current_window() {
                Some(window) => {
                    if self.windows.contains(window) {
                        actions.push(Action::SetCursor { window, cursor });
                        assert(actions@ =~= seq![Action::SetCursor { window, cursor }]);
                    }
                },
                None => {},
            },
            EmbedderMsg::Shutdown => {},
            EmbedderMsg::ReadyToPresent => {},
            _ => {
                actions.push(Action::Log(LogEntry::Unsupported(msg)));
                assert(actions@ =~= seq![Action::Log(LogEntry::Unsupported(msg))]);
            },
        }
        actions
    }

    /// Takes in one message of the embedder channel.
    pub fn on_embedder(&mut self, envelope: (Option<ViewId>, EmbedderMsg)) -> (actions: Vec<
        Action,
    >)
        requires
            old(self).wf(),
        ensures
            final(self).wf(),
            final(self).commands() == old(self).commands(),
            final(self).queues() == old(self).queues(),
            final(self).wake_pending() == old(self).wake_pending(),
            final(self)@ == old(self)@.on_embedder(envelope).state,
            actions@ == old(self)@.on_embedder(envelope).actions,
    {
        match self.shutdown_state() {
            None | Some(ShutdownState::FinishedShuttingDown) => {
                let mut actions: Vec<Action> = Vec::new();
                actions.push(Action::Log(LogEntry::PostTerminal));
                assert(actions@ =~= post_terminal());
                actions
            },
            Some(ShutdownState::ShuttingDown) => Vec::new(),
            Some(ShutdownState::NotShuttingDown) => match envelope.0 {
                Some(view) => self.on_targeted(view, envelope.1),
                None => self.on_global(envelope.1),
            },
        }
    }

    /// Takes in one event of the native window system.
    pub fn on_window_event(&mut self, window: WindowId, event: WindowEvent) -> (actions: Vec<
        Action,
    >)
        requires
            old(self).wf(),
        ensures
            final(self).wf(),
            final(self).commands() == old(self).commands(),
            final(self).queues() == old(self).queues(),
            final(self).wake_pending() == old(self).wake_pending(),
            final(self)@ == old(self)@.on_window_event(window, event).state,
            actions@ == old(self)@.on_window_event(window, event).actions,
    {
        let mut actions: Vec<Action> = Vec::new();
        let state = match self.shutdown_state() {
            None => {
                return actions;
            },
            Some(state) => state,
        };
        match event {
            WindowEvent::CloseRequested => {
                match state {
                    ShutdownState::NotShuttingDown => {},
                    _ => {
                        return actions;
                    },
                }
                match self.windows.get(window) {
                    None => {
                        actions.push(Action::Log(LogEntry::StaleWindow(window)));
                        assert(actions@ =~= seq![Action::Log(LogEntry::StaleWindow(window))]);
                    },
                    Some(w) => {
                        if self.windows.len() == 1 {
                            return self.start_shutting_down();
                        }
                        self.windows.remove(window);
                        actions.push(Action::CloseWindow { window });
                        actions.push(Action::Send(ConstellationMsg::CloseWebView(w.view)));
                        assert(actions@ =~= seq![
                            Action::CloseWindow { window },
                            Action::Send(ConstellationMsg::CloseWebView(w.view)),
                        ]);
                    },
                }
            },
            _ => {
                if self.windows.contains(window) {
                    let gained = match event {
                        WindowEvent::Focused(true) => true,
                        _ => false,
                    };
                    if gained {
                        match &mut self.compositor {
                            Some(c) => {
                                c.swap_current_window(window);
                            },
                            None => {},
                        }
                    }
                    actions.push(Action::Deliver { window, event });
                    assert(actions@ =~= seq![Action::Deliver { window, event }]);
                } else {
                    actions.push(Action::Log(LogEntry::StaleWindow(window)));
                    assert(actions@ =~= seq![Action::Log(LogEntry::StaleWindow(window))]);
                }
            },
        }
        actions
    }

    /// Ends a tick: releases the compositor once teardown has finished, and
    /// until then lets it make its update pass, begins teardown if no window
    /// is left, and says how the event loop goes on.
    pub fn end_tick(&mut self) -> (r: (Vec<Action>, ControlFlow))
        requires
            old(self).wf(),
        ensures
            final(self).wf(),
            final(self).commands() == old(self).commands(),
            final(self).queues() == old(self).queues(),
            final(self).wake_pending() == old(self).wake_pending(),
            final(self)@ == old(self)@.end_tick().state,
            r.0@ == old(self)@.end_tick().actions,
            r.1 == old(self)@.end_tick().flow,
    {
        let mut actions: Vec<Action> = Vec::new();
        match self.compositor.take() {
            None => (actions, ControlFlow::Wait),
            Some(mut c) => match c.shutdown_state() {
                ShutdownState::FinishedShuttingDown => {
                    c.deinit();
                    actions.push(Action::Deinit);
                    assert(actions@ =~= seq![Action::Deinit]);
                    (actions, ControlFlow::Exit)
                },
                _ => {
                    let composite = c.take_frame();
                    self.compositor = Some(c);
                    actions.push(Action::PerformUpdates { composite });
                    if self.windows.is_empty() {
                        let mut closing = self.start_shutting_down();
                        actions.append(&mut closing);
                    }
                    let flow = if self.windows.any_animating() {
                        ControlFlow::Poll
                    } else {
                        ControlFlow::Wait
                    };
                    assert(actions@ =~= old(self)@.end_tick().actions);
                    (actions, flow)
                },
            },
        }
    }

    /// Runs one tick on the messages given: the controller's pending
    /// message first, then the compositor's messages, then the embedder's,
    /// each in the order given, then the end of the tick. With the tick run,
    /// none is owed any more.
    pub fn tick(
        &mut self,
        pending: Option<ControllerMessage>,
        compositor: Vec<CompositorMsg>,
        embedder: Vec<(Option<ViewId>, EmbedderMsg)>,
    ) -> (r: (Vec<Action>, ControlFlow))
        requires
            old(self).wf(),
        ensures
            final(self).wf(),
            final(self).commands() == old(self).commands(),
            final(self).queues() == old(self).queues(),
            !final(self).wake_pending(),
            final(self)@ == old(self)@.tick(pending, compositor@, embedder@).state,
            r.0@ == old(self)@.tick(pending, compositor@, embedder@).actions,
            r.1 == old(self)@.tick(pending, compositor@, embedder@).flow,
    {
        self.latch.take();
        let mut actions: Vec<Action> = match pending {
            Some(msg) => self.on_controller(msg),
            None => Vec::new(),
        };
        let ghost first = actions@;
        let ghost start = self@;
        let mut i: usize = 0;
        while i < compositor.len()
            invariant
                i <= compositor.len(),
                self.wf(),
                self.commands() == old(self).commands(),
                self.queues() == old(self).queues(),
                !self.wake_pending(),
                self@ == start.drain_compositor(compositor@.take(i as int)).state,
                actions@ == first + start.drain_compositor(compositor@.take(i as int)).actions,
            decreases compositor.len() - i,
        {
            proof {
                assert(compositor@.take(i + 1).drop_last() =~= compositor@.take(i as int));
            }
            let mut step = self.on_compositor(compositor[i]);
            actions.append(&mut step);
            i = i + 1;
            assert(actions@ =~= first + start.drain_compositor(
                compositor@.take(i as int),
            ).actions);
        }
        assert(compositor@.take(i as int) =~= compositor@);
        let ghost second = actions@;
        let ghost middle = self@;
        let mut j: usize = 0;
        while j < embedder.len()
            invariant
                j <= embedder.len(),
                self.wf(),
                self.commands() == old(self).commands(),
                self.queues() == old(self).queues(),
                !self.wake_pending(),
                self@ == middle.drain_embedder(embedder@.take(j as int)).state,
                actions@ == second + middle.drain_embedder(embedder@.take(j as int)).actions,
            decreases embedder.len() - j,
        {
            proof {
                assert(embedder@.take(j + 1).drop_last() =~= embedder@.take(j as int));
            }
            let mut step = self.on_embedder(embedder[j]);
            actions.append(&mut step);
            j = j + 1;
            assert(actions@ =~= second + middle.drain_embedder(
                embedder@.take(j as int),
            ).actions);
        }
        assert(embedder@.take(j as int) =~= embedder@);
        let (mut last, flow) = self.end_tick();
        actions.append(&mut last);
        assert(actions@ =~= old(self)@.tick(pending, compositor@, embedder@).actions);
        (actions, flow)
    }

    /// Handles an event of the native window system: decides as
    /// `on_window_event` does, offers the commands to the engine, and returns
    /// what is left for the embedder.
    pub fn handle_winit_window_event(&mut self, window_id: WindowId, event: WindowEvent) -> (left:
        Vec<Action>)
        requires
            old(self).wf(),
        ensures
            final(self).wf(),
            final(self).commands() == old(self).commands(),
            final(self).queues() == old(self).queues(),
            final(self).wake_pending() == old(self).wake_pending(),
            final(self)@ == old(self)@.on_window_event(window_id, event).state,
            is_settled(old(self)@.on_window_event(window_id, event).actions, left@),
    {
        let actions = self.on_window_event(window_id, event);
        deliver(&self.constellation_sender, actions)
    }

    /// Handles a message of the external controller: decides as
    /// `on_controller` does, offers the command to the engine, and returns
    /// what is left for the embedder.
    pub fn handle_incoming_webview_message(&self, message: ControllerMessage) -> (left: Vec<
        Action,
    >)
        ensures
            is_settled(self@.on_controller(message), left@),
    {
        let actions = self.on_controller(message);
        deliver(&self.constellation_sender, actions)
    }

    /// Begins teardown on an explicit request, unless it has begun, and
    /// offers the engine the command to exit.
    pub fn request_shutdown(&mut self) -> (left: Vec<Action>)
        ensures
            final(self).commands() == old(self).commands(),
            final(self).queues() == old(self).queues(),
            final(self).wake_pending() == old(self).wake_pending(),
            final(self)@ == old(self)@.start_shutting_down().state,
            is_settled(old(self)@.start_shutting_down().actions, left@),
    {
        let actions = self.start_shutting_down();
        deliver(&self.constellation_sender, actions)
    }

    /// Runs one tick of the event loop. `pending` is the controller's
    /// message that waits, if one does. The tick takes the messages that
    /// wait in the compositor's queue, then those that wait in the
    /// embedder's queue, without ever blocking on either; it runs `tick` on
    /// them, offers the commands to the engine, and returns what is left for
    /// the embedder and how the event loop goes on. With the tick run, none
    /// is owed any more.
    pub fn handle_servo_messages(&mut self, pending: Option<ControllerMessage>) -> (r: (
        Vec<Action>,
        ControlFlow,
    ))
        requires
            old(self).wf(),
        ensures
            final(self).wf(),
            final(self).commands() == old(self).commands(),
            final(self).queues() == old(self).queues(),
            !final(self).wake_pending(),
            exists|compositor: Seq<CompositorMsg>, embedder: Seq<(Option<ViewId>, EmbedderMsg)>|
                is_tick_of(
                    #[trigger] old(self)@.tick(pending, compositor, embedder),
                    final(self)@,
                    r.0@,
                    r.1,
                ),
    {
        let compositor = drain(&self.compositor_receiver);
        let embedder = drain(&self.embedder_receiver);
        let ghost taken = old(self)@.tick(pending, compositor@, embedder@);
        let (actions, flow) = self.tick(pending, compositor, embedder);
        let left = deliver(&self.constellation_sender, actions);
        assert(is_tick_of(taken, self@, left@, flow));
        (left, flow)
    }

    /// Takes in what woke the event loop. A plain wake is noted and nothing
    /// else happens: a tick is owed from then on, however many wakes follow,
    /// and `handle_pending_wake` runs it. A message of the controller runs a
    /// tick at once, with that message pending.
    pub fn handle_event_loop_message(&mut self, message: EventLoopProxyMessage) -> (r: Option<
        (Vec<Action>, ControlFlow),
    >)
        requires
            old(self).wf(),
        ensures
            final(self).wf(),
            final(self).commands() == old(self).commands(),
            final(self).queues() == old(self).queues(),
            match message {
                EventLoopProxyMessage::Wake => {
                    &&& r is None
                    &&& final(self)@ == old(self)@
                    &&& final(self).wake_pending()
                },
                EventLoopProxyMessage::IpcMessage(msg) => {
                    &&& r is Some
                    &&& !final(self).wake_pending()
                    &&& exists|
                        compositor: Seq<CompositorMsg>,
                        embedder: Seq<(Option<ViewId>, EmbedderMsg)>,
                    |
                        is_tick_of(
                            #[trigger] old(self)@.tick(Some(msg), compositor, embedder),
                            final(self)@,
                            r.unwrap().0@,
                            r.unwrap().1,
                        )
                },
            },
    {
        match message {
            EventLoopProxyMessage::Wake => {
                self.latch.wake();
                None
            },
            EventLoopProxyMessage::IpcMessage(msg) => Some(self.handle_servo_messages(Some(msg))),
        }
    }

    /// Runs the tick that the wakes since the last tick asked for: one tick
    /// if one is owed, whatever the number of wakes, and none otherwise.
    pub fn handle_pending_wake(&mut self) -> (r: Option<(Vec<Action>, ControlFlow)>)
        requires
            old(self).wf(),
        ensures
            final(self).wf(),
            final(self).commands() == old(self).commands(),
            final(self).queues() == old(self).queues(),
            !final(self).wake_pending(),
            if old(self).wake_pending() {
                &&& r is Some
                &&& exists|
                    compositor: Seq<CompositorMsg>,
                    embedder: Seq<(Option<ViewId>, EmbedderMsg)>,
                |
                    is_tick_of(
                        #[trigger] old(self)@.tick(None, compositor, embedder),
                        final(self)@,
                        r.unwrap().0@,
                        r.unwrap().1,
                    )
            } else {
                &&& r is None
                &&& final(self)@ == old(self)@
            },
    {
        if self.latch.is_pending() {
            Some(self.handle_servo_messages(None))
        } else {
            None
        }
    }
}

} // verus!
