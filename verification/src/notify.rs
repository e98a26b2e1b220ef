//! The sending ends that the engine's threads hold: each puts a message in
//! the coordinator's queue and wakes the event loop.

use crate::channel::{clone_sender, try_send};
use crate::message::{CompositorMsg, DocumentId, EmbedderMsg, SendFailure};
use crate::registry::ViewId;
use crate::wake::{WakeOutcome, Waker};
use crossbeam_channel::Sender;
use vstd::prelude::*;

verus! {

/// How a message fared on its way to the coordinator: whether the queue
/// took it, and how the wake that follows every attempt went.
#[derive(Clone, Copy, Debug, PartialEq, Eq)]
pub struct Delivery {
    pub sent: Result<(), SendFailure>,
    pub wake: WakeOutcome,
}

/// The compositor queue's sending end.
pub struct CompositorProxy {
    sender: Sender<CompositorMsg>,
    event_loop_waker: Box<Waker>,
}

/// The embedder queue's sending end.
pub struct EmbedderProxy {
    sender: Sender<(Option<ViewId>, EmbedderMsg)>,
    event_loop_waker: Box<Waker>,
}

impl CompositorProxy {
    /// The queue end that the proxy sends into.
    pub closed spec fn sender(&self) -> Sender<CompositorMsg> {
        self.sender
    }

    /// The waker that the proxy wakes the event loop with.
    pub closed spec fn waker(&self) -> Box<Waker> {
        self.event_loop_waker
    }

    /// A proxy that sends into `sender` and wakes through `event_loop_waker`.
    pub fn new(sender: Sender<CompositorMsg>, event_loop_waker: Box<Waker>) -> (r:
        CompositorProxy)
        ensures
            r.sender() == sender,
            r.waker() == event_loop_waker,
    {
        CompositorProxy { sender, event_loop_waker }
    }

    /// Puts the message in the queue without waiting, then wakes the event
    /// loop whether or not the queue took it.
    pub fn send(&self, msg: CompositorMsg) -> (r: Delivery) {
        let sent = try_send(&self.sender, msg);
        let wake = self.event_loop_waker.wake();
        Delivery { sent, wake }
    }

    /// Another sending end of the same queue, with a waker for the same
    /// event loop: it is equal to this one.
    pub fn duplicate(&self) -> (r: CompositorProxy)
        ensures
            r == *self,
    {
        CompositorProxy {
            sender: clone_sender(&self.sender),
            event_loop_waker: self.event_loop_waker.clone_box(),
        }
    }
}

impl EmbedderProxy {
    /// The queue end that the proxy sends into.
    pub closed spec fn sender(&self) -> Sender<(Option<ViewId>, EmbedderMsg)> {
        self.sender
    }

    /// The waker that the proxy wakes the event loop with.
    pub closed spec fn waker(&self) -> Box<Waker> {
        self.event_loop_waker
    }

    /// A proxy that sends into `sender` and wakes through `event_loop_waker`.
    pub fn new(
        sender: Sender<(Option<ViewId>, EmbedderMsg)>,
        event_loop_waker: Box<Waker>,
    ) -> (r: EmbedderProxy)
        ensures
            r.sender() == sender,
            r.waker() == event_loop_waker,
    {
        EmbedderProxy { sender, event_loop_waker }
    }

    /// Puts the message in the queue without waiting, then wakes the event
    /// loop whether or not the queue took it.
    pub fn send(&self, msg: (Option<ViewId>, EmbedderMsg)) -> (r: Delivery) {
        let sent = try_send(&self.sender, msg);
        let wake = self.event_loop_waker.wake();
        Delivery { sent, wake }
    }

    /// Another sending end of the same queue, with a waker for the same
    /// event loop: it is equal to this one.
    pub fn duplicate(&self) -> (r: EmbedderProxy)
        ensures
            r == *self,
    {
        EmbedderProxy {
            sender: clone_sender(&self.sender),
            event_loop_waker: self.event_loop_waker.clone_box(),
        }
    }
}

/// The renderer's way to tell the coordinator that a frame is ready.
pub struct RenderNotifier {
    compositor_proxy: CompositorProxy,
}

impl RenderNotifier {
    /// The proxy through which the notifier reaches the coordinator.
    pub closed spec fn proxy(&self) -> CompositorProxy {
        self.compositor_proxy
    }

    /// A notifier that announces frames through `compositor_proxy`.
    pub fn new(compositor_proxy: CompositorProxy) -> (r: RenderNotifier)
        ensures
            r.proxy() == compositor_proxy,
    {
        RenderNotifier { compositor_proxy }
    }

    /// Another notifier for the same coordinator: it is equal to this one.
    pub fn duplicate(&self) -> (r: RenderNotifier)
        ensures
            r == *self,
    {
        RenderNotifier::new(self.compositor_proxy.duplicate())
    }

    /// The renderer's plain wake-up. The coordinator needs none: every
    /// frame announces itself.
    pub fn wake_up(&self, composite_needed: bool) {
    }

    /// The message that announces a frame: it names the document and says
    /// whether the frame must be composited. Whether the frame scrolled and
    /// under which number it was published play no part.
    pub fn frame_message(
        document_id: DocumentId,
        scrolled: bool,
        composite_needed: bool,
        frame_publish_id: u64,
    ) -> (msg: CompositorMsg)
        ensures
            msg == CompositorMsg::NewWebRenderFrameReady(document_id, composite_needed),
    {
        CompositorMsg::NewWebRenderFrameReady(document_id, composite_needed)
    }

    /// Announces a frame to the coordinator: offers the one message that
    /// `frame_message` makes of the four arguments to the compositor's
    /// queue and wakes the event loop. Returns the message that was
    /// announced and how the offer went.
    pub fn new_frame_ready(
        &self,
        document_id: DocumentId,
        scrolled: bool,
        composite_needed: bool,
        frame_publish_id: u64,
    ) -> (r: (CompositorMsg, Delivery))
        ensures
            r.0 == CompositorMsg::NewWebRenderFrameReady(document_id, composite_needed),
    {
        let msg = RenderNotifier::frame_message(
            document_id,
            scrolled,
            composite_needed,
            frame_publish_id,
        );
        let delivery = self.compositor_proxy.send(msg);
        (msg, delivery)
    }
}

} // verus!
