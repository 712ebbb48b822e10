//! What a turn comes down to, from its beginning to its end.

use crate::backend::{Backend, Platform, WebviewId};
use crate::frame::{
    flow_of, frame_reply, law_window_frame, window_frame, ControlFlow, Frame, FrameAction,
    INITIAL_RENDER_FLOW,
};
use crate::message::{answer_of, handling, Answer, Handling, WindowMessage};
use crate::run::{
    lemma_performs_both, lemma_performs_more, lemma_performs_nothing, performs, Outside,
};
use crate::setup::{
    CreateWindowPayload, GlAttributes, NameUse, NamingStep, SetupStep, INTEGRATION_NAME,
};
use crate::turn::{
    first_frame, setup_action, walk_kind, Action, Choice, Event, Phase, Reply, State, Step,
    Turn, WalkKind, WalkStep, WindowEvent, WindowStep,
};
use crate::window::{is_open, without_context};
use vstd::prelude::*;

verus! {

/// What handling something comes down to.
pub struct Outcome<B: Backend> {
    /// What the plugin remembers afterwards.
    pub state: State<B>,
    /// What was done, in order.
    pub trace: Seq<Action<B>>,
    /// Whether the event is kept from the rest of the application.
    pub prevent_default: bool,
    /// Whether an application wanted to quit in a frame that was drawn.
    pub should_quit: bool,
}

/// `actions` where `condition` holds, and else nothing.
pub open spec fn only_if<B: Backend>(condition: bool, actions: Seq<Action<B>>) -> Seq<Action<B>> {
    if condition {
        actions
    } else {
        Seq::empty()
    }
}

/// Whether the outside prevents a window from being closed. A signal that says so
/// has to come first; without any the window closes.
pub open spec fn prevents_close<B: Backend>(outside: Outside<B>) -> bool {
    outside.reply(Action::ReceiveCloseSignal)->CloseSignal_0 == Some(true)
}

/// Whether the application of a window wants to quit after it got an event.
pub open spec fn wants_to_quit<B: Backend>(outside: Outside<B>, window_id: WebviewId) -> bool {
    outside.reply(Action::AskShouldQuit(window_id))->ShouldQuit_0
}

/// What is done about a request to close a window: the listeners and the callback
/// are asked, and unless that is prevented the window loses its menu listeners and
/// the context that it may have.
pub open spec fn close_trace<B: Backend>(
    window_id: WebviewId,
    label: String,
    open: bool,
    prevented: bool,
) -> Seq<Action<B>> {
    seq![
        Action::NotifyClose(window_id),
        Action::CallbackClose { label },
        Action::ReceiveCloseSignal,
    ] + only_if(!prevented, seq![Action::RemoveMenuListeners(window_id)]) + only_if(
        !prevented && open,
        seq![Action::ExitIntegration(window_id), Action::DestroyPainter(window_id)],
    )
}

/// What is done to deliver an event to an open window: its integration gets the
/// event, and the window is drawn again. One that wants to quit is closed.
pub open spec fn delivery_trace<B: Backend>(window_id: WebviewId, quits: bool) -> Seq<Action<B>> {
    seq![Action::DeliverEvent(window_id), Action::AskShouldQuit(window_id)] + only_if(
        quits,
        seq![Action::SetControlFlow(ControlFlow::Wait)],
    ) + seq![Action::RequestRedraw(window_id)] + only_if(
        quits,
        seq![Action::RemoveMenuListeners(window_id)],
    )
}

/// What is done to pass an event on: an event with a translation goes to the
/// callback and then to the listeners.
pub open spec fn forward_trace<B: Backend>(
    window_id: WebviewId,
    label: String,
    outside: Outside<B>,
) -> Seq<Action<B>> {
    seq![Action::TranslateEvent] + only_if(
        outside.reply(Action::TranslateEvent)->Translated_0,
        seq![Action::Callback { label }, Action::NotifyListeners(window_id)],
    )
}

/// What becomes of the event of a window.
pub open spec fn window_event_outcome<B: Backend>(
    state: State<B>,
    event: WindowEvent,
    outside: Outside<B>,
) -> Outcome<B> {
    let window_id = outside.reply(Action::LookUpWindow)->WindowId_0;
    if !state.windows.contains_key(window_id) {
        Outcome {
            state,
            trace: seq![Action::LookUpWindow],
            prevent_default: false,
            should_quit: false,
        }
    } else {
        let label = state.windows[window_id].label;
        let open = is_open(state.windows, window_id);
        let closes = event is CloseRequested && !prevents_close(outside);
        let delivered = open && !closes;
        let quits = delivered && wants_to_quit(outside, window_id);
        Outcome {
            state: State {
                windows: if open && closes || quits {
                    without_context(state.windows, window_id)
                } else {
                    state.windows
                },
                is_focused: match event {
                    WindowEvent::Focused(is_focused) => is_focused,
                    _ => state.is_focused,
                },
            },
            trace: seq![Action::LookUpWindow] + only_if(
                event is Resized && open,
                seq![Action::Resize { window_id, width: event->width, height: event->height }],
            ) + only_if(
                event is CloseRequested,
                close_trace(window_id, label, open, prevents_close(outside)),
            ) + only_if(delivered, delivery_trace(window_id, quits)) + forward_trace(
                window_id,
                label,
                outside,
            ),
            prevent_default: true,
            should_quit: false,
        }
    }
}

/// From the translation of an event on.
proof fn lemma_forward<B: Backend>(
    state: State<B>,
    platform: Platform,
    window_id: WebviewId,
    label: String,
    outside: Outside<B>,
    choice: Choice<B>,
)
    requires
        outside.is_proper(platform),
    ensures
        performs(
            state.at_window(platform, window_id, label, WindowStep::TranslateEvent),
            outside,
            choice,
            forward_trace(window_id, label, outside),
            state.finish(platform, true),
        ),
{
    let start = state.at_window(platform, window_id, label, WindowStep::TranslateEvent);
    let trace0 = Seq::<Action<B>>::empty();
    lemma_performs_nothing(start, outside, choice);
    lemma_performs_more(start, outside, choice, trace0, start);
    let trace1 = trace0.push(Action::TranslateEvent);
    if outside.reply(Action::TranslateEvent)->Translated_0 {
        let callback = state.at_window(platform, window_id, label, WindowStep::Callback);
        lemma_performs_more(start, outside, choice, trace1, callback);
        let trace2 = trace1.push(Action::Callback { label });
        let listeners = state.at_window(platform, window_id, label, WindowStep::NotifyListeners);
        lemma_performs_more(start, outside, choice, trace2, listeners);
        let trace3 = trace2.push(Action::NotifyListeners(window_id));
        assert(trace3 =~= forward_trace(window_id, label, outside));
    } else {
        assert(trace1 =~= forward_trace(window_id, label, outside));
    }
}

/// The delivery of an event to an open window.
proof fn lemma_delivery<B: Backend>(
    state: State<B>,
    platform: Platform,
    window_id: WebviewId,
    label: String,
    outside: Outside<B>,
    choice: Choice<B>,
)
    requires
        outside.is_proper(platform),
    ensures
        performs(
            state.at_window(platform, window_id, label, WindowStep::DeliverEvent),
            outside,
            choice,
            delivery_trace(window_id, wants_to_quit(outside, window_id)),
            (if wants_to_quit(outside, window_id) {
                state.close(window_id)
            } else {
                state
            }).at_window(platform, window_id, label, WindowStep::TranslateEvent),
        ),
{
    let quits = wants_to_quit(outside, window_id);
    let start = state.at_window(platform, window_id, label, WindowStep::DeliverEvent);
    let trace0 = Seq::<Action<B>>::empty();
    lemma_performs_nothing(start, outside, choice);
    lemma_performs_more(start, outside, choice, trace0, start);
    let trace1 = trace0.push(Action::DeliverEvent(window_id));
    let ask = state.at_window(platform, window_id, label, WindowStep::AskShouldQuit);
    lemma_performs_more(start, outside, choice, trace1, ask);
    let trace2 = trace1.push(Action::AskShouldQuit(window_id));
    let redraw = state.at_window(
        platform,
        window_id,
        label,
        WindowStep::RequestRedraw { should_quit: quits },
    );
    if quits {
        let wait = state.at_window(platform, window_id, label, WindowStep::QuitControlFlow);
        lemma_performs_more(start, outside, choice, trace2, wait);
        let trace3 = trace2.push(Action::SetControlFlow(ControlFlow::Wait));
        lemma_performs_more(start, outside, choice, trace3, redraw);
        let trace4 = trace3.push(Action::RequestRedraw(window_id));
        let menu = state.close(window_id).at_window(
            platform,
            window_id,
            label,
            WindowStep::QuitMenu,
        );
        lemma_performs_more(start, outside, choice, trace4, menu);
        let trace5 = trace4.push(Action::RemoveMenuListeners(window_id));
        assert(trace5 =~= delivery_trace(window_id, quits));
    } else {
        lemma_performs_more(start, outside, choice, trace2, redraw);
        let trace3 = trace2.push(Action::RequestRedraw(window_id));
        assert(trace3 =~= delivery_trace(window_id, quits));
    }
}

/// A request to close a window, up to where the event is delivered or passed on.
proof fn lemma_close<B: Backend>(
    state: State<B>,
    platform: Platform,
    window_id: WebviewId,
    label: String,
    outside: Outside<B>,
    choice: Choice<B>,
)
    requires
        outside.is_proper(platform),
    ensures
        performs(
            state.at_window(platform, window_id, label, WindowStep::NotifyClose),
            outside,
            choice,
            close_trace(
                window_id,
                label,
                is_open(state.windows, window_id),
                prevents_close(outside),
            ),
            (if is_open(state.windows, window_id) && !prevents_close(outside) {
                state.close(window_id)
            } else {
                state
            }).deliver(platform, window_id, label),
        ),
{
    let open = is_open(state.windows, window_id);
    let prevented = prevents_close(outside);
    let start = state.at_window(platform, window_id, label, WindowStep::NotifyClose);
    let trace0 = Seq::<Action<B>>::empty();
    lemma_performs_nothing(start, outside, choice);
    lemma_performs_more(start, outside, choice, trace0, start);
    let trace1 = trace0.push(Action::NotifyClose(window_id));
    let callback = state.at_window(platform, window_id, label, WindowStep::CallbackClose);
    lemma_performs_more(start, outside, choice, trace1, callback);
    let trace2 = trace1.push(Action::CallbackClose { label });
    let ask = state.at_window(platform, window_id, label, WindowStep::ReceiveCloseSignal);
    lemma_performs_more(start, outside, choice, trace2, ask);
    let trace3 = trace2.push(Action::ReceiveCloseSignal);
    if prevented {
        assert(trace3 =~= close_trace(window_id, label, open, prevented));
    } else {
        let menu = state.at_window(platform, window_id, label, WindowStep::ForgetMenu);
        lemma_performs_more(start, outside, choice, trace3, menu);
        let trace4 = trace3.push(Action::RemoveMenuListeners(window_id));
        if open {
            let context = state.windows[window_id].inner->0;
            let closed = state.close(window_id);
            let exit = closed.at_window(
                platform,
                window_id,
                label,
                WindowStep::ExitIntegration(context),
            );
            lemma_performs_more(start, outside, choice, trace4, exit);
            let trace5 = trace4.push(Action::ExitIntegration(window_id));
            let destroy = closed.at_window(
                platform,
                window_id,
                label,
                WindowStep::DestroyPainter(context),
            );
            lemma_performs_more(start, outside, choice, trace5, destroy);
            let trace6 = trace5.push(Action::DestroyPainter(window_id));
            assert(trace6 =~= close_trace(window_id, label, open, prevented));
        } else {
            assert(trace4 =~= close_trace(window_id, label, open, prevented));
        }
    }
}

/// The delivery of an event to a window that may be open, and what follows.
proof fn lemma_deliver_and_forward<B: Backend>(
    state: State<B>,
    platform: Platform,
    window_id: WebviewId,
    label: String,
    outside: Outside<B>,
    choice: Choice<B>,
)
    requires
        outside.is_proper(platform),
    ensures
        ({
            let open = is_open(state.windows, window_id);
            let quits = open && wants_to_quit(outside, window_id);
            performs(
                state.deliver(platform, window_id, label),
                outside,
                choice,
                only_if(open, delivery_trace(window_id, quits)) + forward_trace(
                    window_id,
                    label,
                    outside,
                ),
                (if quits {
                    state.close(window_id)
                } else {
                    state
                }).finish(platform, true),
            )
        }),
{
    let open = is_open(state.windows, window_id);
    let quits = open && wants_to_quit(outside, window_id);
    let start = state.deliver(platform, window_id, label);
    let after = if quits {
        state.close(window_id)
    } else {
        state
    };
    lemma_forward(after, platform, window_id, label, outside, choice);
    let middle = after.at_window(platform, window_id, label, WindowStep::TranslateEvent);
    if open {
        lemma_delivery(state, platform, window_id, label, outside, choice);
    } else {
        lemma_performs_nothing(start, outside, choice);
    }
    lemma_performs_both(
        start,
        outside,
        choice,
        only_if(open, delivery_trace(window_id, quits)),
        middle,
        forward_trace(window_id, label, outside),
        after.finish(platform, true),
    );
}

/// The turn of a window event comes down to [`window_event_outcome`] once the open
/// windows were walked.
pub proof fn law_window_event<B: Backend>(
    state: State<B>,
    platform: Platform,
    event: WindowEvent,
    should_quit: bool,
    outside: Outside<B>,
    choice: Choice<B>,
)
    requires
        outside.is_proper(platform),
    ensures
        ({
            let outcome = window_event_outcome(state, event, outside);
            performs(
                state.dispatch(platform, Event::WindowEvent(event), should_quit),
                outside,
                choice,
                outcome.trace,
                outcome.state.finish(platform, outcome.prevent_default),
            )
        }),
{
    let outcome = window_event_outcome(state, event, outside);
    let start = state.dispatch(platform, Event::WindowEvent(event), should_quit);
    let window_id = outside.reply(Action::LookUpWindow)->WindowId_0;
    let trace0 = Seq::<Action<B>>::empty();
    lemma_performs_nothing(start, outside, choice);
    lemma_performs_more(start, outside, choice, trace0, start);
    let trace1 = trace0.push(Action::LookUpWindow);
    let found = state.looked_up(platform, event, window_id);
    assert(performs(start, outside, choice, trace1, found));
    if !state.windows.contains_key(window_id) {
        assert(trace1 =~= outcome.trace);
    } else {
        let label = state.windows[window_id].label;
        let open = is_open(state.windows, window_id);
        let closes = event is CloseRequested && !prevents_close(outside);
        let focused = State {
            is_focused: match event {
                WindowEvent::Focused(is_focused) => is_focused,
                _ => state.is_focused,
            },
            ..state
        };
        let settled = if open && closes {
            focused.close(window_id)
        } else {
            focused
        };
        let delivered = is_open(settled.windows, window_id);
        let quits = delivered && wants_to_quit(outside, window_id);
        assert(delivered == (open && !closes));
        let tail = only_if(delivered, delivery_trace(window_id, quits)) + forward_trace(
            window_id,
            label,
            outside,
        );
        lemma_deliver_and_forward(settled, platform, window_id, label, outside, choice);
        let delivery = settled.deliver(platform, window_id, label);
        let end = outcome.state.finish(platform, true);
        if event is CloseRequested {
            let close = close_trace::<B>(window_id, label, open, prevents_close(outside));
            lemma_close(state, platform, window_id, label, outside, choice);
            lemma_performs_both(start, outside, choice, trace1, found, close, delivery);
            lemma_performs_both(start, outside, choice, trace1 + close, delivery, tail, end);
            assert(trace1 + close + tail =~= outcome.trace);
        } else if event is Resized && open {
            lemma_performs_more(start, outside, choice, trace1, found);
            let trace2 = trace1.push(found.action);
            lemma_performs_both(start, outside, choice, trace2, delivery, tail, end);
            assert(trace2 + tail =~= outcome.trace);
        } else {
            lemma_performs_both(start, outside, choice, trace1, delivery, tail, end);
            assert(trace1 + tail =~= outcome.trace);
        }
    }
}

/// What becomes of a message to a window. One to a window that is not open is lost.
pub open spec fn message_outcome<B: Backend>(
    state: State<B>,
    platform: Platform,
    window_id: WebviewId,
    message: WindowMessage<B::Value>,
    outside: Outside<B>,
) -> Outcome<B> {
    let trace = if !is_open(state.windows, window_id) {
        Seq::empty()
    } else {
        match handling(platform, message) {
            Handling::Ignore => Seq::empty(),
            Handling::Operate(operation) => seq![Action::Operate(window_id, operation)],
            Handling::Ask(query) => seq![
                Action::Query(window_id, query),
                Action::Answer(
                    answer_of(outside.reply(Action::Query(window_id, query))->Queried_0),
                ),
            ] + only_if(
                platform is MacOs && query is Theme,
                seq![Action::Answer(Answer::LightTheme)],
            ),
            Handling::AnswerLight => seq![Action::Answer(Answer::LightTheme)],
        }
    };
    Outcome { state, trace, prevent_default: false, should_quit: false }
}

/// The turn of a message comes down to [`message_outcome`] once the open windows
/// were walked.
pub proof fn law_message<B: Backend>(
    state: State<B>,
    platform: Platform,
    window_id: WebviewId,
    message: WindowMessage<B::Value>,
    should_quit: bool,
    outside: Outside<B>,
    choice: Choice<B>,
)
    requires
        outside.is_proper(platform),
    ensures
        ({
            let outcome = message_outcome(state, platform, window_id, message, outside);
            performs(
                state.dispatch(platform, Event::Message(window_id, message), should_quit),
                outside,
                choice,
                outcome.trace,
                state.finish(platform, false),
            )
        }),
{
    let outcome = message_outcome(state, platform, window_id, message, outside);
    let start = state.dispatch(platform, Event::Message(window_id, message), should_quit);
    let trace0 = Seq::<Action<B>>::empty();
    lemma_performs_nothing(start, outside, choice);
    if is_open(state.windows, window_id) && !(handling(platform, message) is Ignore) {
        lemma_performs_more(start, outside, choice, trace0, start);
        let trace1 = trace0.push(start.action);
        if let Handling::Ask(query) = handling(platform, message) {
            let answer = answer_of(outside.reply(Action::Query(window_id, query))->Queried_0);
            let light_follows = platform is MacOs && query is Theme;
            let answering = state.answering(platform, answer, light_follows);
            lemma_performs_more(start, outside, choice, trace1, answering);
            let trace2 = trace1.push(Action::Answer(answer));
            if light_follows {
                let light = state.answering(platform, Answer::LightTheme, false);
                lemma_performs_more(start, outside, choice, trace2, light);
                let trace3 = trace2.push(Action::Answer(Answer::LightTheme));
                assert(trace3 =~= outcome.trace);
            } else {
                assert(trace2 =~= outcome.trace);
            }
        } else {
            assert(trace1 =~= outcome.trace);
        }
    }
}

/// Whether the application of a window asks for another frame in the one that is
/// drawn.
pub open spec fn wants_repaint<B: Backend>(outside: Outside<B>, window_id: WebviewId) -> bool {
    outside.reply(Action::Frame(window_id, FrameAction::Update))->Frame_0->needs_repaint
}

/// Whether the application of a window wants to quit in the frame that is drawn.
pub open spec fn quits_in_frame<B: Backend>(outside: Outside<B>, window_id: WebviewId) -> bool {
    outside.reply(Action::Frame(window_id, FrameAction::AskShouldQuit))->Frame_0->ShouldQuit_0
}

/// The steps of a frame up to its end, done for a window.
pub open spec fn frame_trace<B: Backend>(
    window_id: WebviewId,
    frame: Seq<FrameAction>,
) -> Seq<Action<B>> {
    frame.drop_last().map_values(|action: FrameAction| Action::<B>::Frame(window_id, action))
}

/// What is done with an open window while the windows are walked.
pub open spec fn window_walk_trace<B: Backend>(
    window_id: WebviewId,
    kind: WalkKind,
    is_focused: bool,
    outside: Outside<B>,
) -> Seq<Action<B>> {
    match kind {
        WalkKind::Nothing => Seq::empty(),
        WalkKind::QueueRender => seq![
            Action::QueueRender(window_id),
            Action::LoadRenderFlow(window_id),
            Action::SetControlFlow(
                flow_of(outside.reply(Action::LoadRenderFlow(window_id))->RenderFlow_0)->0,
            ),
        ],
        WalkKind::Frame => frame_trace(
            window_id,
            window_frame(
                is_focused,
                wants_repaint(outside, window_id),
                quits_in_frame(outside, window_id),
            ),
        ),
    }
}

/// What is done while the windows are walked in an order.
pub open spec fn walk_trace<B: Backend>(
    order: Seq<WebviewId>,
    kind: WalkKind,
    is_focused: bool,
    outside: Outside<B>,
) -> Seq<Action<B>>
    decreases order.len(),
{
    if order.len() == 0 {
        Seq::empty()
    } else {
        window_walk_trace(order.first(), kind, is_focused, outside) + walk_trace(
            order.drop_first(),
            kind,
            is_focused,
            outside,
        )
    }
}

/// Whether the application of some window wants to quit in the frame that is drawn
/// while the windows are walked in an order.
pub open spec fn some_quits<B: Backend>(
    order: Seq<WebviewId>,
    kind: WalkKind,
    outside: Outside<B>,
) -> bool {
    kind is Frame && exists|i: int|
        0 <= i < order.len() && quits_in_frame(outside, #[trigger] order[i])
}

/// The rest of a frame leads to the next window of the walk.
#[verifier::spinoff_prover]
#[verifier::rlimit(30)]
proof fn lemma_frame<B: Backend>(
    state: State<B>,
    platform: Platform,
    event: Event<B::Value>,
    order: Vec<WebviewId>,
    at: usize,
    frame: Frame,
    should_quit: bool,
    outside: Outside<B>,
    choice: Choice<B>,
)
    requires
        outside.is_proper(platform),
        at < order@.len(),
        !(frame.action is Finish),
    ensures
        ({
            let window_id = order@[at as int];
            performs(
                Step {
                    state,
                    turn: Turn {
                        platform,
                        phase: Phase::Walk {
                            event,
                            order,
                            at,
                            step: WalkStep::Frame(frame),
                            should_quit,
                        },
                    },
                    action: Action::Frame(window_id, frame.action),
                },
                outside,
                choice,
                frame_trace(
                    window_id,
                    frame.trace(
                        wants_repaint(outside, window_id),
                        quits_in_frame(outside, window_id),
                    ),
                ),
                state.walk(
                    platform,
                    event,
                    order,
                    at + 1,
                    should_quit || frame.ends_quitting(quits_in_frame(outside, window_id)),
                ),
            )
        }),
    decreases frame.calls_left(),
{
    let window_id = order@[at as int];
    let needs_repaint = wants_repaint(outside, window_id);
    let quits = quits_in_frame(outside, window_id);
    let start = Step {
        state,
        turn: Turn {
            platform,
            phase: Phase::Walk { event, order, at, step: WalkStep::Frame(frame), should_quit },
        },
        action: Action::<B>::Frame(window_id, frame.action),
    };
    let reply = frame_reply(frame.action, needs_repaint, quits);
    let next = frame.next(reply);
    let first = seq![start.action];
    assert(outside.reply(start.action)->Frame_0 == reply);
    lemma_performs_nothing(start, outside, choice);
    lemma_performs_more(start, outside, choice, Seq::empty(), start);
    assert(Seq::empty().push(start.action) =~= first);
    let whole = frame_trace::<B>(window_id, frame.trace(needs_repaint, quits));
    let quit_flag = should_quit || frame.ends_quitting(quits);
    let end = state.walk(platform, event, order, at + 1, quit_flag);
    if next.action is Finish {
        assert(next.trace(needs_repaint, quits) =~= seq![FrameAction::Finish]);
        assert(whole =~= first);
    } else {
        lemma_frame(state, platform, event, order, at, next, should_quit, outside, choice);
        let rest = frame_trace::<B>(window_id, next.trace(needs_repaint, quits));
        let middle = start.state.next(start.turn, outside.reply(start.action), choice);
        lemma_trace_ends(next, needs_repaint, quits);
        lemma_performs_both(start, outside, choice, first, middle, rest, end);
        assert(whole =~= first + rest);
    }
}

/// The calls of a frame are never none.
proof fn lemma_trace_ends(frame: Frame, needs_repaint: bool, should_quit: bool)
    ensures
        frame.trace(needs_repaint, should_quit).len() > 0,
{
}

/// The walk from position `at` on does [`walk_trace`] and leads to the event itself.
/// The flag that an application wanted to quit is set after it just if it was set
/// before or one of the applications wants to quit in its frame: it is never reset.
pub proof fn law_walk<B: Backend>(
    state: State<B>,
    platform: Platform,
    event: Event<B::Value>,
    order: Vec<WebviewId>,
    at: int,
    should_quit: bool,
    outside: Outside<B>,
    choice: Choice<B>,
)
    requires
        outside.is_proper(platform),
        0 <= at <= order@.len(),
    ensures
        performs(
            state.walk(platform, event, order, at, should_quit),
            outside,
            choice,
            walk_trace(
                order@.skip(at),
                walk_kind(platform, event),
                state.is_focused,
                outside,
            ),
            state.dispatch(
                platform,
                event,
                should_quit || some_quits(order@.skip(at), walk_kind(platform, event), outside),
            ),
        ),
    decreases order@.len() - at,
{
    let kind = walk_kind(platform, event);
    let start = state.walk(platform, event, order, at, should_quit);
    let rest = order@.skip(at);
    let end = state.dispatch(platform, event, should_quit || some_quits(rest, kind, outside));
    if at == order@.len() {
        lemma_performs_nothing(start, outside, choice);
    } else if kind is Nothing {
        lemma_no_walk(rest, state.is_focused, outside);
        lemma_performs_nothing(start, outside, choice);
    } else {
        assert(at < order.len());
        let window_id = order@[at];
        let quits = kind is Frame && quits_in_frame(outside, window_id);
        let quit_flag = should_quit || quits;
        let next = state.walk(platform, event, order, at + 1, quit_flag);
        let trace = window_walk_trace(window_id, kind, state.is_focused, outside);
        if kind is QueueRender {
            let code = outside.reply(Action::LoadRenderFlow(window_id))->RenderFlow_0;
            let flow = flow_of(code)->0;
            let load = Step {
                state,
                turn: Turn {
                    platform,
                    phase: Phase::Walk {
                        event,
                        order,
                        at: at as usize,
                        step: WalkStep::LoadRenderFlow,
                        should_quit,
                    },
                },
                action: Action::LoadRenderFlow(window_id),
            };
            let set = Step {
                state,
                turn: Turn {
                    platform,
                    phase: Phase::Walk {
                        event,
                        order,
                        at: at as usize,
                        step: WalkStep::SetControlFlow,
                        should_quit,
                    },
                },
                action: Action::SetControlFlow(flow),
            };
            let trace0 = Seq::<Action<B>>::empty();
            lemma_performs_nothing(start, outside, choice);
            lemma_performs_more(start, outside, choice, trace0, start);
            let trace1 = trace0.push(Action::QueueRender(window_id));
            lemma_performs_more(start, outside, choice, trace1, load);
            let trace2 = trace1.push(Action::LoadRenderFlow(window_id));
            lemma_performs_more(start, outside, choice, trace2, set);
            let trace3 = trace2.push(Action::SetControlFlow(flow));
            assert(trace3 =~= trace);
        } else {
            let frame = first_frame(state.is_focused);
            lemma_frame(
                state,
                platform,
                event,
                order,
                at as usize,
                frame,
                should_quit,
                outside,
                choice,
            );
            law_window_frame(
                frame,
                state.is_focused,
                wants_repaint(outside, window_id),
                quits_in_frame(outside, window_id),
            );
        }
        law_walk(state, platform, event, order, at + 1, quit_flag, outside, choice);
        lemma_some_quits(rest, kind, outside);
        assert(rest.drop_first() =~= order@.skip(at + 1));
        assert(rest.first() == window_id);
        let others = walk_trace(order@.skip(at + 1), kind, state.is_focused, outside);
        lemma_performs_both(start, outside, choice, trace, next, others, end);
    }
}

/// Some application wants to quit if the first does or some of the others.
proof fn lemma_some_quits<B: Backend>(
    order: Seq<WebviewId>,
    kind: WalkKind,
    outside: Outside<B>,
)
    requires
        order.len() > 0,
    ensures
        some_quits(order, kind, outside) == (kind is Frame && quits_in_frame(
            outside,
            order.first(),
        ) || some_quits(order.drop_first(), kind, outside)),
{
    let others = order.drop_first();
    if some_quits(others, kind, outside) {
        let i = choose|i: int|
            0 <= i < others.len() && quits_in_frame(outside, #[trigger] others[i]);
        assert(order[i + 1] == others[i]);
    }
    if some_quits(order, kind, outside) {
        let i = choose|i: int|
            0 <= i < order.len() && quits_in_frame(outside, #[trigger] order[i]);
        if i > 0 {
            assert(others[i - 1] == order[i]);
        }
    }
}

/// A walk that does nothing with each window does nothing.
pub proof fn lemma_no_walk<B: Backend>(
    order: Seq<WebviewId>,
    is_focused: bool,
    outside: Outside<B>,
)
    ensures
        walk_trace(order, WalkKind::Nothing, is_focused, outside) == Seq::<Action<B>>::empty(),
    decreases order.len(),
{
    if order.len() > 0 {
        lemma_no_walk(order.drop_first(), is_focused, outside);
        assert(walk_trace(order, WalkKind::Nothing, is_focused, outside) =~= Seq::<
            Action<B>,
        >::empty());
    }
}

/// What becomes of an event itself.
pub open spec fn event_outcome<B: Backend>(
    state: State<B>,
    platform: Platform,
    event: Event<B::Value>,
    outside: Outside<B>,
) -> Outcome<B> {
    match event {
        Event::WindowEvent(event) => window_event_outcome(state, event, outside),
        Event::Message(window_id, message) => message_outcome(
            state,
            platform,
            window_id,
            message,
            outside,
        ),
        _ => Outcome {
            state,
            trace: Seq::empty(),
            prevent_default: false,
            should_quit: false,
        },
    }
}

/// What becomes of an event of the event loop: nothing while the plugin has no
/// window, and else something with each open window before the event itself.
pub open spec fn loop_outcome<B: Backend>(
    state: State<B>,
    platform: Platform,
    event: Event<B::Value>,
    order: Seq<WebviewId>,
    outside: Outside<B>,
) -> Outcome<B> {
    if state.windows.is_empty() {
        Outcome { state, trace: Seq::empty(), prevent_default: false, should_quit: false }
    } else {
        let outcome = event_outcome(state, platform, event, outside);
        let walked = walk_trace(order, walk_kind(platform, event), state.is_focused, outside);
        Outcome {
            trace: walked + outcome.trace,
            should_quit: some_quits(order, walk_kind(platform, event), outside),
            ..outcome
        }
    }
}

/// Handling an event of the event loop comes down to [`loop_outcome`].
pub proof fn law_handle_gl_loop<B: Backend>(
    state: State<B>,
    platform: Platform,
    event: Event<B::Value>,
    order: Vec<WebviewId>,
    outside: Outside<B>,
    choice: Choice<B>,
)
    requires
        outside.is_proper(platform),
    ensures
        ({
            let outcome = loop_outcome(state, platform, event, order@, outside);
            performs(
                state.handle_gl_loop(platform, event, order),
                outside,
                choice,
                outcome.trace,
                outcome.state.end(platform, outcome.prevent_default, outcome.should_quit),
            )
        }),
{
    let start = state.handle_gl_loop(platform, event, order);
    if state.windows.is_empty() {
        lemma_performs_nothing(start, outside, choice);
    } else {
        let outcome = event_outcome(state, platform, event, outside);
        let walked = walk_trace(order@, walk_kind(platform, event), state.is_focused, outside);
        let quits = some_quits(order@, walk_kind(platform, event), outside);
        let middle = state.dispatch(platform, event, quits);
        law_walk(state, platform, event, order, 0, false, outside, choice);
        assert(order@.skip(0) =~= order@);
        match event {
            Event::WindowEvent(event) => {
                law_window_event(state, platform, event, quits, outside, choice);
            },
            Event::Message(window_id, message) => {
                law_message(state, platform, window_id, message, quits, outside, choice);
            },
            _ => {
                lemma_performs_nothing(middle, outside, choice);
            },
        }
        lemma_performs_both(
            start,
            outside,
            choice,
            walked,
            middle,
            outcome.trace,
            outcome.state.end(platform, outcome.prevent_default, quits),
        );
    }
}

/// What the application of a requested window says when it is asked for its name.
pub open spec fn app_name<B: Backend>(
    outside: Outside<B>,
    window_id: WebviewId,
    usage: NameUse,
) -> String {
    outside.reply(Action::AskAppName(window_id, usage))->AppName_0
}

/// What is done to set up a window, in order. The name that the
/// application's state is kept under and the title of the window are what the
/// application says when it is asked for its name, once for each. On Linux what the
/// render callback has left starts out as [`INITIAL_RENDER_FLOW`].
pub open spec fn setup_trace<B: Backend>(
    platform: Platform,
    payload: CreateWindowPayload<B>,
    outside: Outside<B>,
) -> Seq<Action<B>> {
    let window_id = payload.window_id;
    seq![
        Action::AskAppName(window_id, NameUse::Persistence),
        Action::OpenPersistence {
            window_id,
            app_name: app_name(outside, window_id, NameUse::Persistence),
        },
        Action::AskAppName(window_id, NameUse::Title),
        Action::BuildContext {
            window_id,
            app: payload.app,
            native_options: payload.native_options,
            title: app_name(outside, window_id, NameUse::Title),
            attributes: GlAttributes::of_windows(),
        },
        Action::Setup(window_id, SetupStep::MapWindow),
        Action::Setup(window_id, SetupStep::LoadGl),
        Action::Setup(window_id, SetupStep::EnableFramebufferSrgb),
        Action::Setup(window_id, SetupStep::CreatePainter),
        Action::CreateIntegration { window_id, name: INTEGRATION_NAME },
        Action::Setup(window_id, SetupStep::InsertWindowListeners),
        Action::Setup(window_id, SetupStep::InsertMenuListeners),
    ] + only_if(
        platform is Linux,
        seq![Action::ConnectRender { window_id, render_flow: INITIAL_RENDER_FLOW }],
    ) + seq![Action::Setup(window_id, SetupStep::HandOver)]
}

/// The setup of a requested window at a step.
spec fn at_setup<B: Backend>(
    state: State<B>,
    platform: Platform,
    payload: CreateWindowPayload<B>,
    event: Event<B::Value>,
    step: SetupStep,
) -> Step<B> {
    let window_id = payload.window_id;
    Step {
        state,
        turn: Turn {
            platform,
            phase: Phase::Setup { window_id, label: payload.label, event, step },
        },
        action: setup_action(window_id, step),
    }
}

/// The setup of a window up to its painter.
proof fn lemma_setup_context<B: Backend>(
    state: State<B>,
    platform: Platform,
    payload: CreateWindowPayload<B>,
    event: Event<B::Value>,
    outside: Outside<B>,
    choice: Choice<B>,
)
    requires
        outside.is_proper(platform),
    ensures
        performs(
            state.create_gl_window(platform, payload, event),
            outside,
            choice,
            setup_trace(platform, payload, outside).take(7),
            at_setup(state, platform, payload, event, SetupStep::CreatePainter),
        ),
{
    let start = state.create_gl_window(platform, payload, event);
    let window_id = payload.window_id;
    let persistence_name = app_name(outside, window_id, NameUse::Persistence);
    let title = app_name(outside, window_id, NameUse::Title);
    let open = state.after_naming_step(
        platform,
        payload,
        event,
        NamingStep::AskPersistenceName,
        Reply::AppName(persistence_name),
    );
    let ask = state.after_naming_step(
        platform,
        payload,
        event,
        NamingStep::OpenPersistence,
        Reply::Done,
    );
    let build = state.titled(platform, payload, event, title);
    let map = at_setup(state, platform, payload, event, SetupStep::MapWindow);
    let load = at_setup(state, platform, payload, event, SetupStep::LoadGl);
    let enable = at_setup(state, platform, payload, event, SetupStep::EnableFramebufferSrgb);
    let trace0 = Seq::<Action<B>>::empty();
    lemma_performs_nothing(start, outside, choice);
    lemma_performs_more(start, outside, choice, trace0, start);
    let trace1 = trace0.push(start.action);
    lemma_performs_more(start, outside, choice, trace1, open);
    let trace2 = trace1.push(open.action);
    lemma_performs_more(start, outside, choice, trace2, ask);
    let trace3 = trace2.push(ask.action);
    lemma_performs_more(start, outside, choice, trace3, build);
    let trace4 = trace3.push(build.action);
    lemma_performs_more(start, outside, choice, trace4, map);
    let trace5 = trace4.push(map.action);
    lemma_performs_more(start, outside, choice, trace5, load);
    let trace6 = trace5.push(load.action);
    lemma_performs_more(start, outside, choice, trace6, enable);
    let trace7 = trace6.push(enable.action);
    assert(trace7 =~= setup_trace(platform, payload, outside).take(7));
}

/// The setup of a window from its painter to its listeners.
proof fn lemma_setup_integration<B: Backend>(
    state: State<B>,
    platform: Platform,
    payload: CreateWindowPayload<B>,
    event: Event<B::Value>,
    outside: Outside<B>,
    choice: Choice<B>,
)
    requires
        outside.is_proper(platform),
    ensures
        performs(
            at_setup(state, platform, payload, event, SetupStep::CreatePainter),
            outside,
            choice,
            setup_trace(platform, payload, outside).subrange(7, 11),
            at_setup(
                state,
                platform,
                payload,
                event,
                if platform is Linux {
                    SetupStep::ConnectRender
                } else {
                    SetupStep::HandOver
                },
            ),
        ),
{
    let start = at_setup(state, platform, payload, event, SetupStep::CreatePainter);
    let integration = at_setup(state, platform, payload, event, SetupStep::CreateIntegration);
    let window = at_setup(state, platform, payload, event, SetupStep::InsertWindowListeners);
    let menu = at_setup(state, platform, payload, event, SetupStep::InsertMenuListeners);
    let trace0 = Seq::<Action<B>>::empty();
    lemma_performs_nothing(start, outside, choice);
    lemma_performs_more(start, outside, choice, trace0, start);
    let trace1 = trace0.push(start.action);
    lemma_performs_more(start, outside, choice, trace1, integration);
    let trace2 = trace1.push(integration.action);
    lemma_performs_more(start, outside, choice, trace2, window);
    let trace3 = trace2.push(window.action);
    lemma_performs_more(start, outside, choice, trace3, menu);
    let trace4 = trace3.push(menu.action);
    assert(trace4 =~= setup_trace(platform, payload, outside).subrange(7, 11));
}

/// Setting up a window does exactly what [`setup_trace`] says and leaves the window
/// open under its id and label. The event is handled after that.
pub proof fn law_create_gl_window<B: Backend>(
    state: State<B>,
    platform: Platform,
    payload: CreateWindowPayload<B>,
    event: Event<B::Value>,
    outside: Outside<B>,
    choice: Choice<B>,
)
    requires
        outside.is_proper(platform),
    ensures
        performs(
            state.create_gl_window(platform, payload, event),
            outside,
            choice,
            setup_trace(platform, payload, outside),
            state.with_window(
                payload.window_id,
                payload.label,
                choice.context,
            ).handle_gl_loop(platform, event, choice.order),
        ),
{
    let whole = setup_trace(platform, payload, outside);
    let start = state.create_gl_window(platform, payload, event);
    let painter = at_setup(state, platform, payload, event, SetupStep::CreatePainter);
    let hand_over = at_setup(state, platform, payload, event, SetupStep::HandOver);
    let trace1 = whole.take(7);
    let trace2 = trace1 + whole.subrange(7, 11);
    lemma_setup_context(state, platform, payload, event, outside, choice);
    lemma_setup_integration(state, platform, payload, event, outside, choice);
    if platform is Linux {
        let connect = at_setup(state, platform, payload, event, SetupStep::ConnectRender);
        lemma_performs_both(start, outside, choice, trace1, painter, whole.subrange(7, 11), connect);
        lemma_performs_more(start, outside, choice, trace2, connect);
        let trace3 = trace2.push(connect.action);
        lemma_performs_more(start, outside, choice, trace3, hand_over);
        assert(trace3.push(hand_over.action) =~= whole);
    } else {
        lemma_performs_both(
            start,
            outside,
            choice,
            trace1,
            painter,
            whole.subrange(7, 11),
            hand_over,
        );
        lemma_performs_more(start, outside, choice, trace2, hand_over);
        assert(trace2.push(hand_over.action) =~= whole);
    }
}

/// What becomes of a turn in which a request for a window was received.
pub open spec fn request_outcome<B: Backend>(
    state: State<B>,
    platform: Platform,
    payload: CreateWindowPayload<B>,
    event: Event<B::Value>,
    outside: Outside<B>,
    choice: Choice<B>,
) -> Outcome<B> {
    let created = state.with_window(payload.window_id, payload.label, choice.context);
    let outcome = loop_outcome(created, platform, event, choice.order@, outside);
    Outcome { trace: setup_trace(platform, payload, outside) + outcome.trace, ..outcome }
}

/// A turn in which a request for a window was received comes down to
/// [`request_outcome`]: the window is set up, and then the event is handled with
/// the new window among the others.
pub proof fn law_requested_window<B: Backend>(
    state: State<B>,
    platform: Platform,
    payload: CreateWindowPayload<B>,
    event: Event<B::Value>,
    outside: Outside<B>,
    choice: Choice<B>,
)
    requires
        outside.is_proper(platform),
    ensures
        ({
            let outcome = request_outcome(state, platform, payload, event, outside, choice);
            performs(
                state.create_gl_window(platform, payload, event),
                outside,
                choice,
                outcome.trace,
                outcome.state.end(platform, outcome.prevent_default, outcome.should_quit),
            )
        }),
{
    let created = state.with_window(payload.window_id, payload.label, choice.context);
    let outcome = loop_outcome(created, platform, event, choice.order@, outside);
    law_create_gl_window(state, platform, payload, event, outside, choice);
    law_handle_gl_loop(created, platform, event, choice.order, outside, choice);
    lemma_performs_both(
        state.create_gl_window(platform, payload, event),
        outside,
        choice,
        setup_trace(platform, payload, outside),
        created.handle_gl_loop(platform, event, choice.order),
        outcome.trace,
        outcome.state.end(platform, outcome.prevent_default, outcome.should_quit),
    );
}

} // verus!
