//! The shutdown state machine and the part of the compositor's state that
//! the coordinator reads every tick.

use crate::registry::WindowId;
use vstd::prelude::*;

verus! {

/// How far teardown has come. The state only ever moves forward:
/// `NotShuttingDown`, then `ShuttingDown`, then `FinishedShuttingDown`.
#[derive(Clone, Copy, Debug, PartialEq, Eq, Structural)]
pub enum ShutdownState {
    NotShuttingDown,
    ShuttingDown,
    FinishedShuttingDown,
}

impl ShutdownState {
    /// The place of a state in the order of teardown.
    pub open spec fn rank(self) -> nat {
        match self {
            ShutdownState::NotShuttingDown => 0,
            ShutdownState::ShuttingDown => 1,
            ShutdownState::FinishedShuttingDown => 2,
        }
    }

    /// Whether `next` is `self` or comes after it.
    pub open spec fn reaches(self, next: ShutdownState) -> bool {
        self.rank() <= next.rank()
    }

    /// Whether teardown may move from `self` to `next`: not at all, or by
    /// exactly one stage.
    pub fn can_advance_to(self, next: ShutdownState) -> (r: bool)
        ensures
            r == (self.rank() == next.rank() || self.rank() + 1 == next.rank()),
    {
        match (self, next) {
            (ShutdownState::NotShuttingDown, ShutdownState::NotShuttingDown) => true,
            (ShutdownState::NotShuttingDown, ShutdownState::ShuttingDown) => true,
            (ShutdownState::ShuttingDown, ShutdownState::ShuttingDown) => true,
            (ShutdownState::ShuttingDown, ShutdownState::FinishedShuttingDown) => true,
            (ShutdownState::FinishedShuttingDown, ShutdownState::FinishedShuttingDown) => true,
            _ => false,
        }
    }
}

/// The mathematical content of a `Compositor`.
pub struct CompositorModel {
    pub shutdown_state: ShutdownState,
    /// The window that last gained native focus.
    pub current_window: Option<WindowId>,
    /// Whether a frame waits to be composited.
    pub frame_pending: bool,
}

impl CompositorModel {
    /// A compositor that is not shutting down, with `window` in focus and no
    /// frame waiting.
    pub open spec fn start(window: WindowId) -> CompositorModel {
        CompositorModel {
            shutdown_state: ShutdownState::NotShuttingDown,
            current_window: Some(window),
            frame_pending: false,
        }
    }

    /// Teardown begins if it has not begun; otherwise nothing changes.
    pub open spec fn maybe_start_shutting_down(self) -> CompositorModel {
        if self.shutdown_state == ShutdownState::NotShuttingDown {
            CompositorModel { shutdown_state: ShutdownState::ShuttingDown, ..self }
        } else {
            self
        }
    }

    /// Teardown is complete.
    pub open spec fn finish_shutting_down(self) -> CompositorModel {
        CompositorModel { shutdown_state: ShutdownState::FinishedShuttingDown, ..self }
    }

    /// Focus passes to `window`.
    pub open spec fn swap_current_window(self, window: WindowId) -> CompositorModel {
        CompositorModel { current_window: Some(window), ..self }
    }

    /// A frame is ready; it waits to be composited if `composite_needed`.
    pub open spec fn frame_ready(self, composite_needed: bool) -> CompositorModel {
        CompositorModel { frame_pending: self.frame_pending || composite_needed, ..self }
    }

    /// The update pass has taken the waiting frame.
    pub open spec fn frame_taken(self) -> CompositorModel {
        CompositorModel { frame_pending: false, ..self }
    }
}

/// The compositor as the coordinator sees it: the shutdown state, the window
/// in focus and whether a frame waits. Its state changes only through the
/// methods below, so teardown never moves backward.
#[derive(Debug)]
pub struct Compositor {
    shutdown_state: ShutdownState,
    current_window: Option<WindowId>,
    frame_pending: bool,
}

impl View for Compositor {
    type V = CompositorModel;

    closed spec fn view(&self) -> CompositorModel {
        CompositorModel {
            shutdown_state: self.shutdown_state,
            current_window: self.current_window,
            frame_pending: self.frame_pending,
        }
    }
}

impl Compositor {
    /// A compositor that is not shutting down, with `window` in focus.
    pub fn new(window: WindowId) -> (r: Compositor)
        ensures
            r@ == CompositorModel::start(window),
    {
        Compositor {
            shutdown_state: ShutdownState::NotShuttingDown,
            current_window: Some(window),
            frame_pending: false,
        }
    }

    /// How far teardown has come.
    pub fn shutdown_state(&self) -> (r: ShutdownState)
        ensures
            r == self@.shutdown_state,
    {
        self.shutdown_state
    }

    /// The window that last gained native focus.
    pub fn current_window(&self) -> (r: Option<WindowId>)
        ensures
            r == self@.current_window,
    {
        self.current_window
    }

    /// Whether a frame waits to be composited.
    pub fn frame_pending(&self) -> (r: bool)
        ensures
            r == self@.frame_pending,
    {
        self.frame_pending
    }

    /// Begins teardown unless it has begun already. Returns whether this call
    /// began it.
    pub fn maybe_start_shutting_down(&mut self) -> (r: bool)
        ensures
            final(self)@ == old(self)@.maybe_start_shutting_down(),
            r == (old(self)@.shutdown_state == ShutdownState::NotShuttingDown),
    {
        match self.shutdown_state {
            ShutdownState::NotShuttingDown => {
                self.shutdown_state = ShutdownState::ShuttingDown;
                true
            },
            _ => false,
        }
    }

    /// Records that teardown is complete. Only a compositor that is shutting
    /// down can finish.
    pub fn finish_shutting_down(&mut self)
        requires
            old(self)@.shutdown_state == ShutdownState::ShuttingDown,
        ensures
            final(self)@ == old(self)@.finish_shutting_down(),
    {
        self.shutdown_state = ShutdownState::FinishedShuttingDown;
    }

    /// Releases the compositor for good. Only a compositor that has finished
    /// shutting down can be released, and a released one is gone: there is no
    /// second call.
    pub fn deinit(self)
        requires
            self@.shutdown_state == ShutdownState::FinishedShuttingDown,
    {
    }

    /// Passes focus to `window`.
    pub fn swap_current_window(&mut self, window: WindowId)
        ensures
            final(self)@ == old(self)@.swap_current_window(window),
    {
        self.current_window = Some(window);
    }

    /// Notes that a frame is ready.
    pub fn frame_ready(&mut self, composite_needed: bool)
        ensures
            final(self)@ == old(self)@.frame_ready(composite_needed),
    {
        self.frame_pending = self.frame_pending || composite_needed;
    }

    /// Hands the waiting frame to the update pass. Returns whether one
    /// waited.
    pub fn take_frame(&mut self) -> (r: bool)
        ensures
            final(self)@ == old(self)@.frame_taken(),
            r == old(self)@.frame_pending,
    {
        let pending = self.frame_pending;
        self.frame_pending = false;
        pending
    }
}

/// Teardown never moves backward: whatever the compositor is asked to do,
/// the state it ends in is the one it began in or a later one.
pub proof fn lemma_shutdown_is_monotonic(c: CompositorModel, window: WindowId, composite: bool)
    ensures
        c.shutdown_state.reaches(c.maybe_start_shutting_down().shutdown_state),
        c.shutdown_state.reaches(c.finish_shutting_down().shutdown_state),
        c.shutdown_state == c.swap_current_window(window).shutdown_state,
        c.shutdown_state == c.frame_ready(composite).shutdown_state,
        c.shutdown_state == c.frame_taken().shutdown_state,
{
}

} // verus!
