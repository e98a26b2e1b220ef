use crossbeam_channel::{unbounded, Receiver};
use verso::message::{
    Action, CompositorMsg, ConstellationMsg, ControlFlow, ControllerMessage, Cursor, DocumentId,
    EmbedderMsg, LogEntry, WindowEvent,
};
use verso::registry::{RegistryError, ViewId, Window, WindowId};
use verso::shutdown::ShutdownState;
use verso::verso::Verso;
use verso::wake::wake_channel;

fn coordinator(view: u64) -> (Verso, Receiver<ConstellationMsg>) {
    let (sender, receiver) = unbounded();
    let (waker, _listener) = wake_channel();
    let (verso, _compositor_proxy, _embedder_proxy) = Verso::new(ViewId(view), sender, waker);
    (verso, receiver)
}

fn coordinator_with_two_windows() -> (Verso, Receiver<ConstellationMsg>) {
    let (mut verso, receiver) = coordinator(1);
    let (actions, flow) =
        verso.tick(None, vec![], vec![(Some(ViewId(1)), EmbedderMsg::NewView(ViewId(2)))]);
    assert_eq!(
        actions,
        vec![
            Action::Forward {
                window: WindowId(0),
                view: ViewId(1),
                msg: EmbedderMsg::NewView(ViewId(2)),
            },
            Action::OpenWindow { window: WindowId(1), view: ViewId(2) },
            Action::PerformUpdates { composite: false },
        ]
    );
    assert_eq!(flow, ControlFlow::Wait);
    (verso, receiver)
}

fn plain(id: u64, view: u64) -> Window {
    Window { id: WindowId(id), view: ViewId(view), animating: false }
}

#[test]
fn new_coordinator_has_one_focused_window() {
    let (verso, receiver) = coordinator(7);
    assert_eq!(verso.windows().windows(), vec![plain(0, 7)]);
    assert_eq!(verso.shutdown_state(), Some(ShutdownState::NotShuttingDown));
    assert_eq!(verso.current_window(), Some(WindowId(0)));
    assert!(!verso.is_animating());
    assert!(receiver.try_recv().is_err());
}

#[test]
fn idle_tick_updates_and_waits() {
    let (mut verso, _receiver) = coordinator(1);
    let (actions, flow) = verso.tick(None, vec![], vec![]);
    assert_eq!(actions, vec![Action::PerformUpdates { composite: false }]);
    assert_eq!(flow, ControlFlow::Wait);
    assert_eq!(verso.shutdown_state(), Some(ShutdownState::NotShuttingDown));
}

#[test]
fn close_message_for_second_view_removes_second_window() {
    let (mut verso, _receiver) = coordinator_with_two_windows();
    assert_eq!(verso.windows().windows(), vec![plain(0, 1), plain(1, 2)]);
    let (actions, flow) = verso.tick(None, vec![], vec![(Some(ViewId(2)), EmbedderMsg::Close)]);
    assert_eq!(
        actions,
        vec![
            Action::Forward { window: WindowId(1), view: ViewId(2), msg: EmbedderMsg::Close },
            Action::CloseWindow { window: WindowId(1) },
            Action::PerformUpdates { composite: false },
        ]
    );
    assert_eq!(flow, ControlFlow::Wait);
    assert_eq!(verso.windows().windows(), vec![plain(0, 1)]);
    assert_eq!(verso.shutdown_state(), Some(ShutdownState::NotShuttingDown));
}

#[test]
fn last_window_close_shuts_down_and_exits_once() {
    let (mut verso, _receiver) = coordinator(1);
    let (actions, flow) = verso.tick(None, vec![], vec![(Some(ViewId(1)), EmbedderMsg::Close)]);
    assert_eq!(
        actions,
        vec![
            Action::Forward { window: WindowId(0), view: ViewId(1), msg: EmbedderMsg::Close },
            Action::CloseWindow { window: WindowId(0) },
            Action::PerformUpdates { composite: false },
            Action::Send(ConstellationMsg::Exit),
        ]
    );
    assert_eq!(flow, ControlFlow::Wait);
    assert_eq!(verso.shutdown_state(), Some(ShutdownState::ShuttingDown));

    let (actions, flow) = verso.tick(None, vec![CompositorMsg::ShutdownFinished], vec![]);
    assert_eq!(actions, vec![Action::Deinit]);
    assert_eq!(flow, ControlFlow::Exit);
    assert_eq!(verso.shutdown_state(), None);

    let mut exits = 1;
    let mut releases = 1;
    for _ in 0..5 {
        let (actions, flow) = verso.tick(None, vec![], vec![]);
        if flow == ControlFlow::Exit {
            exits += 1;
        }
        releases += actions.iter().filter(|a| **a == Action::Deinit).count();
        assert_eq!(actions, Vec::<Action>::new());
        assert_eq!(flow, ControlFlow::Wait);
    }
    assert_eq!(exits, 1);
    assert_eq!(releases, 1);
}

#[test]
fn finish_is_seen_in_the_tick_that_brings_it() {
    let (mut verso, _receiver) = coordinator(1);
    verso.request_shutdown();
    assert_eq!(verso.shutdown_state(), Some(ShutdownState::ShuttingDown));
    let (actions, flow) = verso.tick(
        None,
        vec![CompositorMsg::ShutdownFinished],
        vec![(Some(ViewId(1)), EmbedderMsg::Local(3)), (None, EmbedderMsg::SetCursor(Cursor::Text))],
    );
    assert_eq!(
        actions,
        vec![
            Action::Log(LogEntry::PostTerminal),
            Action::Log(LogEntry::PostTerminal),
            Action::Deinit,
        ]
    );
    assert_eq!(flow, ControlFlow::Exit);
}

#[test]
fn nothing_is_dispatched_after_shutdown_finished() {
    let (mut verso, _receiver) = coordinator(1);
    verso.request_shutdown();
    verso.tick(None, vec![CompositorMsg::ShutdownFinished], vec![]);
    let before = verso.windows().windows();
    let (actions, flow) = verso.tick(
        Some(ControllerMessage::NavigateTo("https://example.org/".to_string())),
        vec![CompositorMsg::AnimationStatus(ViewId(1), true)],
        vec![
            (Some(ViewId(1)), EmbedderMsg::Close),
            (Some(ViewId(1)), EmbedderMsg::NewView(ViewId(2))),
            (None, EmbedderMsg::SetCursor(Cursor::Pointer)),
            (Some(ViewId(9)), EmbedderMsg::Local(1)),
        ],
    );
    assert_eq!(actions, vec![Action::Log(LogEntry::PostTerminal); 6]);
    assert_eq!(flow, ControlFlow::Wait);
    assert_eq!(verso.windows().windows(), before);
    assert_eq!(verso.on_embedder((Some(ViewId(1)), EmbedderMsg::Close)), vec![Action::Log(
        LogEntry::PostTerminal
    )]);
    assert_eq!(verso.windows().windows(), before);
}

#[test]
fn messages_are_dropped_silently_while_shutting_down() {
    let (mut verso, _receiver) = coordinator(1);
    verso.request_shutdown();
    let (actions, flow) = verso.tick(
        None,
        vec![
            CompositorMsg::NewWebRenderFrameReady(DocumentId { namespace: 0, id: 0 }, true),
            CompositorMsg::AnimationStatus(ViewId(1), true),
        ],
        vec![(Some(ViewId(1)), EmbedderMsg::Close), (None, EmbedderMsg::Local(4))],
    );
    assert_eq!(actions, vec![Action::PerformUpdates { composite: false }]);
    assert_eq!(flow, ControlFlow::Wait);
    assert_eq!(verso.windows().windows(), vec![plain(0, 1)]);
    assert_eq!(verso.shutdown_state(), Some(ShutdownState::ShuttingDown));
}

#[test]
fn stale_view_is_logged_and_dropped() {
    let (mut verso, _receiver) = coordinator(1);
    let actions = verso.on_embedder((Some(ViewId(99)), EmbedderMsg::Close));
    assert_eq!(actions, vec![Action::Log(LogEntry::StaleView(ViewId(99)))]);
    assert_eq!(verso.windows().windows(), vec![plain(0, 1)]);
    assert_eq!(verso.shutdown_state(), Some(ShutdownState::NotShuttingDown));
    let actions = verso.on_embedder((Some(ViewId(98)), EmbedderMsg::NewView(ViewId(5))));
    assert_eq!(actions, vec![Action::Log(LogEntry::StaleView(ViewId(98)))]);
    assert_eq!(verso.windows().windows(), vec![plain(0, 1)]);
}

#[test]
fn message_for_a_closed_view_is_stale() {
    let (mut verso, _receiver) = coordinator_with_two_windows();
    let (actions, _) = verso.tick(
        None,
        vec![],
        vec![(Some(ViewId(2)), EmbedderMsg::Close), (Some(ViewId(2)), EmbedderMsg::Local(8))],
    );
    assert_eq!(
        actions,
        vec![
            Action::Forward { window: WindowId(1), view: ViewId(2), msg: EmbedderMsg::Close },
            Action::CloseWindow { window: WindowId(1) },
            Action::Log(LogEntry::StaleView(ViewId(2))),
            Action::PerformUpdates { composite: false },
        ]
    );
}

#[test]
fn new_window_is_registered_before_the_next_message() {
    let (mut verso, _receiver) = coordinator(1);
    let (actions, _) = verso.tick(
        None,
        vec![],
        vec![
            (Some(ViewId(2)), EmbedderMsg::Local(1)),
            (Some(ViewId(1)), EmbedderMsg::NewView(ViewId(2))),
            (Some(ViewId(2)), EmbedderMsg::Local(2)),
        ],
    );
    assert_eq!(
        actions,
        vec![
            Action::Log(LogEntry::StaleView(ViewId(2))),
            Action::Forward {
                window: WindowId(0),
                view: ViewId(1),
                msg: EmbedderMsg::NewView(ViewId(2)),
            },
            Action::OpenWindow { window: WindowId(1), view: ViewId(2) },
            Action::Forward { window: WindowId(1), view: ViewId(2), msg: EmbedderMsg::Local(2) },
            Action::PerformUpdates { composite: false },
        ]
    );
    assert_eq!(verso.windows().windows(), vec![plain(0, 1), plain(1, 2)]);
}

#[test]
fn window_for_a_shown_view_is_refused() {
    let (mut verso, _receiver) = coordinator_with_two_windows();
    let actions = verso.on_embedder((Some(ViewId(1)), EmbedderMsg::NewView(ViewId(2))));
    assert_eq!(
        actions,
        vec![
            Action::Forward {
                window: WindowId(0),
                view: ViewId(1),
                msg: EmbedderMsg::NewView(ViewId(2)),
            },
            Action::Log(LogEntry::WindowRefused(ViewId(2), RegistryError::ViewBound)),
        ]
    );
    assert_eq!(verso.windows().windows(), vec![plain(0, 1), plain(1, 2)]);
}

#[test]
fn cursor_goes_to_the_focused_window_only() {
    let (mut verso, _receiver) = coordinator_with_two_windows();
    assert_eq!(verso.current_window(), Some(WindowId(0)));
    let actions = verso.on_embedder((None, EmbedderMsg::SetCursor(Cursor::Pointer)));
    assert_eq!(actions, vec![Action::SetCursor { window: WindowId(0), cursor: Cursor::Pointer }]);

    let delivered = verso.on_window_event(WindowId(1), WindowEvent::Focused(true));
    assert_eq!(
        delivered,
        vec![Action::Deliver { window: WindowId(1), event: WindowEvent::Focused(true) }]
    );
    assert_eq!(verso.current_window(), Some(WindowId(1)));
    let actions = verso.on_embedder((None, EmbedderMsg::SetCursor(Cursor::Text)));
    assert_eq!(actions, vec![Action::SetCursor { window: WindowId(1), cursor: Cursor::Text }]);
}

#[test]
fn losing_focus_does_not_move_it() {
    let (mut verso, _receiver) = coordinator_with_two_windows();
    let delivered = verso.on_window_event(WindowId(1), WindowEvent::Focused(false));
    assert_eq!(
        delivered,
        vec![Action::Deliver { window: WindowId(1), event: WindowEvent::Focused(false) }]
    );
    assert_eq!(verso.current_window(), Some(WindowId(0)));
}

#[test]
fn cursor_is_dropped_when_the_focused_window_is_gone() {
    let (mut verso, _receiver) = coordinator_with_two_windows();
    verso.on_embedder((Some(ViewId(1)), EmbedderMsg::Close));
    assert_eq!(verso.current_window(), Some(WindowId(0)));
    let actions = verso.on_embedder((None, EmbedderMsg::SetCursor(Cursor::Wait)));
    assert_eq!(actions, Vec::<Action>::new());
}

#[test]
fn global_messages_without_a_handler_are_logged() {
    let (mut verso, _receiver) = coordinator(1);
    assert_eq!(verso.on_embedder((None, EmbedderMsg::Shutdown)), Vec::<Action>::new());
    assert_eq!(verso.on_embedder((None, EmbedderMsg::ReadyToPresent)), Vec::<Action>::new());
    assert_eq!(
        verso.on_embedder((None, EmbedderMsg::Local(12))),
        vec![Action::Log(LogEntry::Unsupported(EmbedderMsg::Local(12)))]
    );
    assert_eq!(
        verso.on_embedder((None, EmbedderMsg::Close)),
        vec![Action::Log(LogEntry::Unsupported(EmbedderMsg::Close))]
    );
    assert_eq!(
        verso.on_embedder((None, EmbedderMsg::NewView(ViewId(3)))),
        vec![Action::Log(LogEntry::Unsupported(EmbedderMsg::NewView(ViewId(3))))]
    );
    assert_eq!(verso.windows().windows(), vec![plain(0, 1)]);
}

#[test]
fn window_local_messages_are_forwarded() {
    let (mut verso, _receiver) = coordinator(1);
    let actions = verso.on_embedder((Some(ViewId(1)), EmbedderMsg::Local(77)));
    assert_eq!(
        actions,
        vec![Action::Forward { window: WindowId(0), view: ViewId(1), msg: EmbedderMsg::Local(77) }]
    );
    let actions = verso.on_embedder((Some(ViewId(1)), EmbedderMsg::SetCursor(Cursor::Grab)));
    assert_eq!(
        actions,
        vec![Action::Forward {
            window: WindowId(0),
            view: ViewId(1),
            msg: EmbedderMsg::SetCursor(Cursor::Grab),
        }]
    );
}

#[test]
fn compositor_messages_come_before_embedder_messages() {
    let (mut verso, _receiver) = coordinator(1);
    let (actions, flow) = verso.tick(
        None,
        vec![CompositorMsg::AnimationStatus(ViewId(5), true)],
        vec![(Some(ViewId(6)), EmbedderMsg::Local(0))],
    );
    assert_eq!(
        actions,
        vec![
            Action::Log(LogEntry::StaleView(ViewId(5))),
            Action::Log(LogEntry::StaleView(ViewId(6))),
            Action::PerformUpdates { composite: false },
        ]
    );
    assert_eq!(flow, ControlFlow::Wait);
}

#[test]
fn controller_message_comes_first() {
    let (mut verso, _receiver) = coordinator(1);
    let (actions, _) = verso.tick(
        Some(ControllerMessage::NavigateTo("https://example.org/a".to_string())),
        vec![CompositorMsg::AnimationStatus(ViewId(5), true)],
        vec![(Some(ViewId(1)), EmbedderMsg::Close)],
    );
    assert_eq!(
        actions,
        vec![
            Action::Send(ConstellationMsg::LoadUrl(
                ViewId(1),
                "https://example.org/a".to_string()
            )),
            Action::Log(LogEntry::StaleView(ViewId(5))),
            Action::Forward { window: WindowId(0), view: ViewId(1), msg: EmbedderMsg::Close },
            Action::CloseWindow { window: WindowId(0) },
            Action::PerformUpdates { composite: false },
            Action::Send(ConstellationMsg::Exit),
        ]
    );
}

#[test]
fn navigation_goes_to_the_oldest_window() {
    let (verso, _receiver) = coordinator_with_two_windows();
    assert_eq!(
        verso.on_controller(ControllerMessage::NavigateTo("about:blank".to_string())),
        vec![Action::Send(ConstellationMsg::LoadUrl(ViewId(1), "about:blank".to_string()))]
    );
    assert_eq!(verso.on_controller(ControllerMessage::Other), Vec::<Action>::new());
}

#[test]
fn navigation_without_windows_is_dropped() {
    let (mut verso, _receiver) = coordinator(1);
    verso.on_embedder((Some(ViewId(1)), EmbedderMsg::Close));
    assert!(verso.windows().is_empty());
    assert_eq!(
        verso.on_controller(ControllerMessage::NavigateTo("about:blank".to_string())),
        Vec::<Action>::new()
    );
}

#[test]
fn animation_keeps_the_loop_polling() {
    let (mut verso, _receiver) = coordinator_with_two_windows();
    let (actions, flow) =
        verso.tick(None, vec![CompositorMsg::AnimationStatus(ViewId(2), true)], vec![]);
    assert_eq!(actions, vec![Action::PerformUpdates { composite: false }]);
    assert_eq!(flow, ControlFlow::Poll);
    assert!(verso.is_animating());
    assert_eq!(
        verso.windows().get(WindowId(1)),
        Some(Window { id: WindowId(1), view: ViewId(2), animating: true })
    );
    let (_, flow) = verso.tick(None, vec![], vec![]);
    assert_eq!(flow, ControlFlow::Poll);
    let (_, flow) =
        verso.tick(None, vec![CompositorMsg::AnimationStatus(ViewId(2), false)], vec![]);
    assert_eq!(flow, ControlFlow::Wait);
    assert!(!verso.is_animating());
}

#[test]
fn ready_frame_is_composited_once() {
    let (mut verso, _receiver) = coordinator(1);
    let document = DocumentId { namespace: 1, id: 2 };
    let (actions, _) = verso.tick(
        None,
        vec![
            CompositorMsg::NewWebRenderFrameReady(document, false),
            CompositorMsg::NewWebRenderFrameReady(document, true),
        ],
        vec![],
    );
    assert_eq!(actions, vec![Action::PerformUpdates { composite: true }]);
    let (actions, _) = verso.tick(None, vec![], vec![]);
    assert_eq!(actions, vec![Action::PerformUpdates { composite: false }]);
    let (actions, _) =
        verso.tick(None, vec![CompositorMsg::NewWebRenderFrameReady(document, false)], vec![]);
    assert_eq!(actions, vec![Action::PerformUpdates { composite: false }]);
}

#[test]
fn shutdown_finished_out_of_turn_is_ignored() {
    let (mut verso, _receiver) = coordinator(1);
    let actions = verso.on_compositor(CompositorMsg::ShutdownFinished);
    assert_eq!(actions, vec![Action::Log(LogEntry::UnexpectedShutdownFinished)]);
    assert_eq!(verso.shutdown_state(), Some(ShutdownState::NotShuttingDown));
}

#[test]
fn close_request_on_the_last_window_begins_shutdown() {
    let (mut verso, _receiver) = coordinator(1);
    let actions = verso.on_window_event(WindowId(0), WindowEvent::CloseRequested);
    assert_eq!(actions, vec![Action::Send(ConstellationMsg::Exit)]);
    assert_eq!(verso.shutdown_state(), Some(ShutdownState::ShuttingDown));
    assert_eq!(verso.windows().windows(), vec![plain(0, 1)]);
    let actions = verso.on_window_event(WindowId(0), WindowEvent::CloseRequested);
    assert_eq!(actions, Vec::<Action>::new());
    assert_eq!(verso.shutdown_state(), Some(ShutdownState::ShuttingDown));
}

#[test]
fn close_request_on_one_of_two_windows_closes_it() {
    let (mut verso, _receiver) = coordinator_with_two_windows();
    let actions = verso.on_window_event(WindowId(0), WindowEvent::CloseRequested);
    assert_eq!(
        actions,
        vec![
            Action::CloseWindow { window: WindowId(0) },
            Action::Send(ConstellationMsg::CloseWebView(ViewId(1))),
        ]
    );
    assert_eq!(verso.windows().windows(), vec![plain(1, 2)]);
    assert_eq!(verso.shutdown_state(), Some(ShutdownState::NotShuttingDown));
}

#[test]
fn events_for_unknown_windows_are_logged() {
    let (mut verso, _receiver) = coordinator(1);
    for event in [WindowEvent::CloseRequested, WindowEvent::Focused(true), WindowEvent::Local(1)] {
        let actions = verso.on_window_event(WindowId(5), event);
        assert_eq!(actions, vec![Action::Log(LogEntry::StaleWindow(WindowId(5)))]);
    }
    assert_eq!(verso.current_window(), Some(WindowId(0)));
    assert_eq!(verso.shutdown_state(), Some(ShutdownState::NotShuttingDown));
}

#[test]
fn window_events_are_delivered() {
    let (mut verso, _receiver) = coordinator(1);
    let actions = verso.on_window_event(WindowId(0), WindowEvent::Local(31));
    assert_eq!(
        actions,
        vec![Action::Deliver { window: WindowId(0), event: WindowEvent::Local(31) }]
    );
}

#[test]
fn window_events_do_nothing_once_the_compositor_is_released() {
    let (mut verso, _receiver) = coordinator(1);
    verso.request_shutdown();
    verso.tick(None, vec![CompositorMsg::ShutdownFinished], vec![]);
    assert_eq!(verso.shutdown_state(), None);
    assert_eq!(verso.on_window_event(WindowId(0), WindowEvent::CloseRequested), Vec::<Action>::new());
    assert_eq!(verso.on_window_event(WindowId(0), WindowEvent::Local(1)), Vec::<Action>::new());
    assert_eq!(verso.on_window_event(WindowId(9), WindowEvent::Local(1)), Vec::<Action>::new());
    assert_eq!(verso.current_window(), None);
    assert!(!verso.is_animating());
}

#[test]
fn start_shutting_down_asks_the_engine_once() {
    let (mut verso, _receiver) = coordinator(1);
    assert_eq!(verso.start_shutting_down(), vec![Action::Send(ConstellationMsg::Exit)]);
    assert_eq!(verso.start_shutting_down(), Vec::<Action>::new());
    assert_eq!(verso.shutdown_state(), Some(ShutdownState::ShuttingDown));
}

#[test]
fn end_tick_releases_the_compositor_once() {
    let (mut verso, _receiver) = coordinator(1);
    verso.start_shutting_down();
    verso.on_compositor(CompositorMsg::ShutdownFinished);
    assert_eq!(verso.shutdown_state(), Some(ShutdownState::FinishedShuttingDown));
    assert_eq!(verso.end_tick(), (vec![Action::Deinit], ControlFlow::Exit));
    assert_eq!(verso.end_tick(), (Vec::<Action>::new(), ControlFlow::Wait));
    assert_eq!(verso.end_tick(), (Vec::<Action>::new(), ControlFlow::Wait));
}
