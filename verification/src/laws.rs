//! What holds of the coordinator whatever reaches it, and in whatever
//! order.

use crate::message::{
    Action, CompositorMsg, ConstellationMsg, ControlFlow, ControllerMessage, EmbedderMsg,
    LogEntry, SendFailure, WindowEvent,
};
use crate::model::{post_terminal, settled, settled_one, tick_events, Event, Step, VersoModel};
use crate::registry::{
    lemma_insert_keeps_wf, lemma_insert_then_lookup, lemma_owner_is_registered,
    lemma_remove_keeps_wf, lemma_remove_then_lookup, lemma_set_animating_keeps_wf, ViewId,
    WindowId,
};
use vstd::prelude::*;

verus! {

/// How far teardown has come, the release of the compositor counted as the
/// last stage.
pub open spec fn stage(s: VersoModel) -> nat {
    match s.compositor {
        Some(c) => c.shutdown_state.rank(),
        None => 3,
    }
}

/// How often the work holds the release of the compositor.
pub open spec fn deinits(actions: Seq<Action>) -> nat
    decreases actions.len(),
{
    if actions.len() == 0 {
        0
    } else {
        deinits(actions.drop_last()) + if actions.last() is Deinit {
            1nat
        } else {
            0nat
        }
    }
}

/// Whether the action carries out an embedder message: it reaches a window,
/// opens one or closes one.
pub open spec fn is_dispatch(action: Action) -> bool {
    action is Forward || action is OpenWindow || action is CloseWindow || action is SetCursor
}

/// Every event leaves the registry well-formed.
pub proof fn lemma_event_keeps_wf(s: VersoModel, event: Event)
    requires
        s.wf(),
    ensures
        s.on_event(event).state.wf(),
{
    match event {
        Event::Controller(_) => {},
        Event::Compositor(msg) => {
            match msg {
                CompositorMsg::AnimationStatus(view, animating) => {
                    if s.windows.owner_of(view) is Some {
                        lemma_set_animating_keeps_wf(
                            s.windows,
                            s.windows.owner_of(view).unwrap(),
                            animating,
                        );
                    }
                },
                _ => {},
            }
        },
        Event::Embedder(envelope) => {
            if envelope.0 is Some {
                let view = envelope.0.unwrap();
                if s.windows.owner_of(view) is Some {
                    lemma_remove_keeps_wf(s.windows, s.windows.owner_of(view).unwrap());
                    match envelope.1 {
                        EmbedderMsg::NewView(new_view) => lemma_insert_keeps_wf(
                            s.windows,
                            new_view,
                        ),
                        _ => {},
                    }
                }
            }
        },
        Event::Window(window, _) => {
            lemma_remove_keeps_wf(s.windows, window);
        },
        Event::EndTick => {},
    }
}

/// Every sequence of events leaves the registry well-formed.
pub proof fn lemma_run_keeps_wf(s: VersoModel, events: Seq<Event>)
    requires
        s.wf(),
    ensures
        s.run(events).state.wf(),
    decreases events.len(),
{
    if events.len() > 0 {
        lemma_run_keeps_wf(s, events.drop_last());
        lemma_event_keeps_wf(s.run(events.drop_last()).state, events.last());
    }
}

/// No event moves teardown backward, and none skips a stage.
pub proof fn lemma_event_never_goes_back(s: VersoModel, event: Event)
    ensures
        stage(s) <= stage(s.on_event(event).state) <= stage(s) + 1,
{
}

/// No sequence of events moves teardown backward.
pub proof fn lemma_run_never_goes_back(s: VersoModel, events: Seq<Event>)
    ensures
        stage(s) <= stage(s.run(events).state),
    decreases events.len(),
{
    if events.len() > 0 {
        lemma_run_never_goes_back(s, events.drop_last());
        lemma_event_never_goes_back(s.run(events.drop_last()).state, events.last());
    }
}

/// Running two sequences of events one after the other is running their
/// concatenation.
pub proof fn lemma_run_split(s: VersoModel, a: Seq<Event>, b: Seq<Event>)
    ensures
        s.run(a + b).state == s.run(a).state.run(b).state,
        s.run(a + b).actions == s.run(a).actions + s.run(a).state.run(b).actions,
    decreases b.len(),
{
    if b.len() == 0 {
        assert(a + b =~= a);
        assert(s.run(a).actions + Seq::<Action>::empty() =~= s.run(a).actions);
    } else {
        assert((a + b).drop_last() =~= a + b.drop_last());
        assert((a + b).last() == b.last());
        lemma_run_split(s, a, b.drop_last());
        let middle = s.run(a).state;
        let before = middle.run(b.drop_last());
        let last = before.state.on_event(b.last());
        assert(s.run(a).actions + (before.actions + last.actions) =~= (s.run(a).actions
            + before.actions) + last.actions);
    }
}

/// Once teardown has finished, a message of the embedder channel is logged
/// and dropped: the state stays as it is and nothing is dispatched.
pub proof fn lemma_finished_drops_embedder(
    s: VersoModel,
    envelope: (Option<ViewId>, EmbedderMsg),
)
    requires
        s.terminal(),
    ensures
        s.on_embedder(envelope) == (Step { state: s, actions: post_terminal() }),
        forall|i: int|
            0 <= i < s.on_embedder(envelope).actions.len() ==> !is_dispatch(
                #[trigger] s.on_embedder(envelope).actions[i],
            ),
{
}

/// Once teardown has finished, no message of any channel is acted upon:
/// each is logged and dropped, and the state stays as it is.
pub proof fn lemma_finished_drops_every_message(s: VersoModel, event: Event)
    requires
        s.terminal(),
        event is Controller || event is Compositor || event is Embedder,
    ensures
        s.on_event(event) == (Step { state: s, actions: post_terminal() }),
{
}

/// In any sequence of events, of whatever kinds and in whatever order: once
/// teardown has finished, every later message of the embedder channel is
/// logged and dropped, and none is dispatched.
pub proof fn lemma_no_dispatch_after_finish(s: VersoModel, events: Seq<Event>, k: int, j: int)
    requires
        0 <= k <= j < events.len(),
        s.run(events.take(k)).state.terminal(),
        events[j] is Embedder,
    ensures
        s.run(events.take(j)).state.terminal(),
        s.run(events.take(j)).state.on_event(events[j]) == (Step {
            state: s.run(events.take(j)).state,
            actions: post_terminal(),
        }),
{
    let early = s.run(events.take(k)).state;
    assert(events.take(j) =~= events.take(k) + events.subrange(k, j));
    lemma_run_split(s, events.take(k), events.subrange(k, j));
    lemma_run_never_goes_back(early, events.subrange(k, j));
    let before = s.run(events.take(j)).state;
    assert(stage(early) >= 2);
    assert(before.terminal());
    match events[j] {
        Event::Embedder(envelope) => lemma_finished_drops_embedder(before, envelope),
        _ => {},
    }
}

/// A message for a view that no window shows is logged and dropped, and the
/// state stays as it is.
pub proof fn lemma_stale_view_is_dropped(s: VersoModel, view: ViewId, msg: EmbedderMsg)
    requires
        s.accepting(),
        s.windows.owner_of(view) is None,
    ensures
        s.on_embedder((Some(view), msg)) == (Step {
            state: s,
            actions: seq![Action::Log(LogEntry::StaleView(view))],
        }),
{
}

/// A window that a message asks for is registered at once: the next message
/// for the new view finds it.
pub proof fn lemma_new_window_resolves_at_once(
    s: VersoModel,
    view: ViewId,
    new_view: ViewId,
)
    requires
        s.wf(),
        s.accepting(),
        s.windows.owner_of(view) is Some,
        s.windows.insert_error(new_view) is None,
    ensures
        s.on_embedder((Some(view), EmbedderMsg::NewView(new_view))).state.windows.owner_of(
            new_view,
        ) == Some(WindowId(s.windows.next)),
        s.on_embedder((Some(view), EmbedderMsg::NewView(new_view))).state.accepting(),
{
    lemma_insert_then_lookup(s.windows, new_view);
}

/// A message that closes a view takes exactly the window that shows it out
/// of the registry, and leaves teardown where it was.
pub proof fn lemma_close_removes_the_window(s: VersoModel, view: ViewId)
    requires
        s.wf(),
        s.accepting(),
        s.windows.owner_of(view) is Some,
    ensures
        ({
            let window = s.windows.owner_of(view).unwrap();
            let after = s.on_embedder((Some(view), EmbedderMsg::Close)).state;
            &&& after.windows == s.windows.remove(window)
            &&& after.windows.entries.len() == s.windows.entries.len() - 1
            &&& !after.windows.has_window(window)
            &&& after.windows.owner_of(view) is None
            &&& after.compositor == s.compositor
        }),
{
    lemma_owner_is_registered(s.windows, view);
    let window = s.windows.owner_of(view).unwrap();
    lemma_remove_then_lookup(s.windows, window);
    crate::registry::lemma_index_of_window(s.windows.entries, window);
}

/// An event for a window that is not registered is logged and dropped, and
/// the state stays as it is.
pub proof fn lemma_stale_window_is_dropped(s: VersoModel, window: WindowId, event: WindowEvent)
    requires
        s.accepting(),
        !s.windows.has_window(window),
    ensures
        s.on_window_event(window, event) == (Step {
            state: s,
            actions: seq![Action::Log(LogEntry::StaleWindow(window))],
        }),
{
}

/// No tick ends with an empty registry while teardown has not begun: when
/// the last window has gone, teardown begins within the same tick.
pub proof fn lemma_tick_without_windows_begins_teardown(
    s: VersoModel,
    pending: Option<ControllerMessage>,
    compositor: Seq<CompositorMsg>,
    embedder: Seq<(Option<ViewId>, EmbedderMsg)>,
)
    ensures
        s.tick(pending, compositor, embedder).state.windows.entries.len() == 0 ==> !s.tick(
            pending,
            compositor,
            embedder,
        ).state.accepting(),
{
}

/// The end of a tick that finds the registry empty while teardown has not
/// begun asks the engine to exit.
pub proof fn lemma_end_tick_without_windows(s: VersoModel)
    requires
        s.accepting(),
        s.windows.entries.len() == 0,
    ensures
        stage(s.end_tick().state) == 1,
        s.end_tick().actions == seq![
            Action::PerformUpdates { composite: s.compositor.unwrap().frame_pending },
            Action::Send(ConstellationMsg::Exit),
        ],
{
    assert(s.end_tick().actions =~= seq![
        Action::PerformUpdates { composite: s.compositor.unwrap().frame_pending },
        Action::Send(ConstellationMsg::Exit),
    ]);
}

/// A request to close the only window begins teardown at once and asks the
/// engine to exit.
pub proof fn lemma_closing_last_window_begins_teardown(s: VersoModel, window: WindowId)
    requires
        s.accepting(),
        s.windows.has_window(window),
        s.windows.entries.len() == 1,
    ensures
        stage(s.on_window_event(window, WindowEvent::CloseRequested).state) == 1,
        s.on_window_event(window, WindowEvent::CloseRequested).actions == seq![
            Action::Send(ConstellationMsg::Exit),
        ],
{
}

/// The event loop is told to exit exactly when the compositor is released,
/// and that is exactly when a tick ends after teardown has finished with the
/// compositor still there.
pub proof fn lemma_exit_comes_with_release(s: VersoModel)
    ensures
        s.end_tick().flow == ControlFlow::Exit <==> s.compositor is Some && s.terminal(),
        s.end_tick().flow == ControlFlow::Exit <==> s.end_tick().actions == seq![Action::Deinit],
        s.end_tick().flow == ControlFlow::Exit ==> s.end_tick().state.compositor is None,
{
    if s.compositor is Some && !s.terminal() {
        assert(s.end_tick().actions[0] is PerformUpdates);
    }
    if s.compositor is None {
        assert(s.end_tick().actions.len() == 0);
    }
}

/// Work without the release in it counts none.
pub proof fn lemma_deinits_none(actions: Seq<Action>)
    requires
        forall|i: int| 0 <= i < actions.len() ==> !(#[trigger] actions[i] is Deinit),
    ensures
        deinits(actions) == 0,
    decreases actions.len(),
{
    if actions.len() > 0 {
        lemma_deinits_none(actions.drop_last());
    }
}

/// The count of releases in two pieces of work is the sum of the counts.
pub proof fn lemma_deinits_add(a: Seq<Action>, b: Seq<Action>)
    ensures
        deinits(a + b) == deinits(a) + deinits(b),
    decreases b.len(),
{
    if b.len() == 0 {
        assert(a + b =~= a);
    } else {
        assert((a + b).drop_last() =~= a + b.drop_last());
        lemma_deinits_add(a, b.drop_last());
    }
}

/// One event releases the compositor at most once, and only the end of a
/// tick after teardown has finished does; after that the compositor is
/// gone, and a compositor that is gone stays gone.
pub proof fn lemma_event_deinits(s: VersoModel, event: Event)
    ensures
        deinits(s.on_event(event).actions) == if event is EndTick && s.compositor is Some
            && s.terminal() {
            1nat
        } else {
            0nat
        },
        deinits(s.on_event(event).actions) == 1 ==> s.on_event(event).state.compositor is None,
        s.compositor is None ==> s.on_event(event).state.compositor is None,
{
    let actions = s.on_event(event).actions;
    if event is EndTick && s.compositor is Some && s.terminal() {
        assert(actions =~= seq![Action::Deinit]);
        assert(actions.drop_last() =~= Seq::<Action>::empty());
        assert(deinits(actions.drop_last()) == 0);
    } else {
        assert forall|i: int| 0 <= i < actions.len() implies !(#[trigger] actions[i] is Deinit) by {
            lemma_event_has_no_stray_deinit(s, event, i);
        }
        lemma_deinits_none(actions);
    }
}

/// Apart from the end of a tick after teardown has finished, no event has
/// the release among its work.
proof fn lemma_event_has_no_stray_deinit(s: VersoModel, event: Event, i: int)
    requires
        !(event is EndTick && s.compositor is Some && s.terminal()),
        0 <= i < s.on_event(event).actions.len(),
    ensures
        !(s.on_event(event).actions[i] is Deinit),
{
    match event {
        Event::Controller(_) => {},
        Event::Compositor(_) => {},
        Event::Embedder(envelope) => {},
        Event::Window(_, _) => {},
        Event::EndTick => {},
    }
}

/// In any sequence of events the compositor is released at most once, and
/// never again once it is gone, however many ticks follow.
pub proof fn lemma_deinit_at_most_once(s: VersoModel, events: Seq<Event>)
    ensures
        deinits(s.run(events).actions) <= 1,
        deinits(s.run(events).actions) == 1 ==> s.run(events).state.compositor is None,
        s.compositor is None ==> deinits(s.run(events).actions) == 0 && s.run(
            events,
        ).state.compositor is None,
    decreases events.len(),
{
    if events.len() > 0 {
        let before = s.run(events.drop_last());
        lemma_deinit_at_most_once(s, events.drop_last());
        lemma_event_deinits(before.state, events.last());
        lemma_deinits_add(before.actions, before.state.on_event(events.last()).actions);
    }
}

/// Offering the commands to the engine neither adds a release nor takes one
/// away.
pub proof fn lemma_settled_keeps_deinits(
    actions: Seq<Action>,
    outcomes: Seq<Option<SendFailure>>,
)
    requires
        actions.len() == outcomes.len(),
    ensures
        deinits(settled(actions, outcomes)) == deinits(actions),
    decreases actions.len(),
{
    if actions.len() > 0 {
        lemma_settled_keeps_deinits(actions.drop_last(), outcomes.drop_last());
        let one = settled_one(actions.last(), outcomes.last());
        lemma_deinits_add(settled(actions.drop_last(), outcomes.drop_last()), one);
        if actions.last() is Deinit {
            assert(one.drop_last() =~= Seq::<Action>::empty());
            assert(deinits(one.drop_last()) == 0);
        } else {
            lemma_deinits_none(one);
        }
    }
}

/// Offering the commands to the engine dispatches nothing: where the work
/// holds no dispatch, what is left of it holds none, and no command either.
pub proof fn lemma_settled_adds_no_dispatch(
    actions: Seq<Action>,
    outcomes: Seq<Option<SendFailure>>,
)
    requires
        actions.len() == outcomes.len(),
        forall|i: int| 0 <= i < actions.len() ==> !is_dispatch(#[trigger] actions[i]),
    ensures
        forall|i: int|
            0 <= i < settled(actions, outcomes).len() ==> !is_dispatch(
                #[trigger] settled(actions, outcomes)[i],
            ) && !(settled(actions, outcomes)[i] is Send),
    decreases actions.len(),
{
    if actions.len() > 0 {
        let front = settled(actions.drop_last(), outcomes.drop_last());
        let one = settled_one(actions.last(), outcomes.last());
        assert forall|i: int| 0 <= i < actions.drop_last().len() implies !is_dispatch(
            #[trigger] actions.drop_last()[i],
        ) by {
            assert(actions.drop_last()[i] == actions[i]);
        }
        lemma_settled_adds_no_dispatch(actions.drop_last(), outcomes.drop_last());
        assert(!is_dispatch(actions[actions.len() - 1]));
        assert forall|i: int| 0 <= i < (front + one).len() implies !is_dispatch(
            #[trigger] (front + one)[i],
        ) && !((front + one)[i] is Send) by {
            if i < front.len() {
                assert((front + one)[i] == front[i]);
            } else {
                assert((front + one)[i] == one[i - front.len()]);
            }
        }
    }
}

/// Draining the compositor's messages is running them as events.
pub proof fn lemma_drain_compositor_is_run(s: VersoModel, msgs: Seq<CompositorMsg>)
    ensures
        s.drain_compositor(msgs) == s.run(
            msgs.map_values(|msg: CompositorMsg| Event::Compositor(msg)),
        ),
    decreases msgs.len(),
{
    let f = |msg: CompositorMsg| Event::Compositor(msg);
    if msgs.len() > 0 {
        lemma_drain_compositor_is_run(s, msgs.drop_last());
        assert(msgs.map_values(f).drop_last() =~= msgs.drop_last().map_values(f));
        assert(msgs.map_values(f).last() == Event::Compositor(msgs.last()));
    }
}

/// Draining the embedder's messages is running them as events.
pub proof fn lemma_drain_embedder_is_run(s: VersoModel, msgs: Seq<(Option<ViewId>, EmbedderMsg)>)
    ensures
        s.drain_embedder(msgs) == s.run(
            msgs.map_values(|envelope: (Option<ViewId>, EmbedderMsg)| Event::Embedder(envelope)),
        ),
    decreases msgs.len(),
{
    let f = |envelope: (Option<ViewId>, EmbedderMsg)| Event::Embedder(envelope);
    if msgs.len() > 0 {
        lemma_drain_embedder_is_run(s, msgs.drop_last());
        assert(msgs.map_values(f).drop_last() =~= msgs.drop_last().map_values(f));
        assert(msgs.map_values(f).last() == Event::Embedder(msgs.last()));
    }
}

/// A tick is the run of its events, so what holds of every sequence of
/// events holds of every tick and of every sequence of ticks.
pub proof fn lemma_tick_is_run(
    s: VersoModel,
    pending: Option<ControllerMessage>,
    compositor: Seq<CompositorMsg>,
    embedder: Seq<(Option<ViewId>, EmbedderMsg)>,
)
    ensures
        s.tick(pending, compositor, embedder).state == s.run(
            tick_events(pending, compositor, embedder),
        ).state,
        s.tick(pending, compositor, embedder).actions == s.run(
            tick_events(pending, compositor, embedder),
        ).actions,
{
    let first = match pending {
        Some(msg) => seq![Event::Controller(msg)],
        None => Seq::empty(),
    };
    let second = compositor.map_values(|msg: CompositorMsg| Event::Compositor(msg));
    let third = embedder.map_values(
        |envelope: (Option<ViewId>, EmbedderMsg)| Event::Embedder(envelope),
    );
    let last = seq![Event::EndTick];
    lemma_drain_compositor_is_run(s, compositor);
    lemma_drain_embedder_is_run(s.run(second).state, embedder);
    assert(s.run(first).state == s && s.run(first).actions =~= match pending {
        Some(msg) => s.on_controller(msg),
        None => Seq::empty(),
    }) by {
        if pending is Some {
            assert(first.drop_last() =~= Seq::<Event>::empty());
            assert(s.run(first.drop_last()).actions =~= Seq::<Action>::empty());
        }
    }
    lemma_run_split(s, first, second);
    lemma_run_split(s, first + second, third);
    lemma_run_split(s, first + second + third, last);
    let before = s.run(first + second + third);
    assert(before.state.run(last).state == before.state.end_tick().state
        && before.state.run(last).actions =~= before.state.end_tick().actions) by {
        assert(last.drop_last() =~= Seq::<Event>::empty());
        assert(before.state.run(last.drop_last()).actions =~= Seq::<Action>::empty());
    }
    assert(s.tick(pending, compositor, embedder).actions =~= s.run(
        tick_events(pending, compositor, embedder),
    ).actions);
}

} // verus!
