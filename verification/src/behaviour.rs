//! What the plugin is for: how what is done, answered and remembered relates to what
//! was asked for.

use crate::backend::{Backend, Platform, WebviewId};
use crate::frame::{ControlFlow, FrameAction, FrameReply};
use crate::outcome::{
    event_outcome, lemma_no_walk, loop_outcome, quits_in_frame, request_outcome, setup_trace,
    some_quits, walk_trace, window_walk_trace,
};
use crate::plugin::{window_request, HandleAction};
use crate::run::Outside;
use crate::setup::{CreateWindowPayload, GlAttributes, NameUse, SetupStep};
use crate::turn::{walk_kind, Action, Choice, Event, Reply, State, WalkKind, WindowEvent};
use crate::window::WindowWrapper;
use vstd::prelude::*;

verus! {

/// The window that an action names, if it names one.
pub open spec fn window_of<B: Backend>(action: Action<B>) -> Option<WebviewId> {
    match action {
        Action::AskAppName(window_id, _) => Some(window_id),
        Action::OpenPersistence { window_id, .. } => Some(window_id),
        Action::BuildContext { window_id, .. } => Some(window_id),
        Action::CreateIntegration { window_id, .. } => Some(window_id),
        Action::ConnectRender { window_id, .. } => Some(window_id),
        Action::Setup(window_id, _) => Some(window_id),
        Action::QueueRender(window_id) => Some(window_id),
        Action::LoadRenderFlow(window_id) => Some(window_id),
        Action::Frame(window_id, _) => Some(window_id),
        Action::Resize { window_id, .. } => Some(window_id),
        Action::NotifyClose(window_id) => Some(window_id),
        Action::RemoveMenuListeners(window_id) => Some(window_id),
        Action::ExitIntegration(window_id) => Some(window_id),
        Action::DestroyPainter(window_id) => Some(window_id),
        Action::DeliverEvent(window_id) => Some(window_id),
        Action::AskShouldQuit(window_id) => Some(window_id),
        Action::RequestRedraw(window_id) => Some(window_id),
        Action::NotifyListeners(window_id) => Some(window_id),
        Action::Query(window_id, _) => Some(window_id),
        Action::Operate(window_id, _) => Some(window_id),
        _ => None,
    }
}

/// The number of actions by which a window is set up.
pub open spec fn setup_len(platform: Platform) -> int {
    if platform is Linux {
        13
    } else {
        12
    }
}

/// A request is carried out by exactly these actions, each for the window of the
/// request, and its window is then among the others when the event is handled.
pub proof fn law_request_is_carried_out<B: Backend>(
    state: State<B>,
    platform: Platform,
    payload: CreateWindowPayload<B>,
    event: Event<B::Value>,
    outside: Outside<B>,
    choice: Choice<B>,
    kept_as: String,
    title: String,
)
    requires
        outside.reply(Action::AskAppName(payload.window_id, NameUse::Persistence)) == Reply::<
            B,
        >::AppName(kept_as),
        outside.reply(Action::AskAppName(payload.window_id, NameUse::Title)) == Reply::<
            B,
        >::AppName(title),
    ensures
        ({
            let window_id = payload.window_id;
            let n = setup_len(platform);
            let outcome = request_outcome(state, platform, payload, event, outside, choice);
            let window = WindowWrapper {
                label: payload.label,
                inner: Some(choice.context),
                menu_items: None,
            };
            let then = loop_outcome(
                State {
                    windows: state.windows.insert(window_id, window),
                    is_focused: state.is_focused,
                },
                platform,
                event,
                choice.order@,
                outside,
            );
            &&& outcome.trace.len() >= n
            &&& outcome.trace[0] == Action::<B>::AskAppName(window_id, NameUse::Persistence)
            &&& outcome.trace[1] == (Action::<B>::OpenPersistence { window_id, app_name: kept_as })
            &&& outcome.trace[2] == Action::<B>::AskAppName(window_id, NameUse::Title)
            &&& outcome.trace[3] == (Action::<B>::BuildContext {
                window_id,
                app: payload.app,
                native_options: payload.native_options,
                title,
                attributes: GlAttributes {
                    depth_buffer: 0,
                    srgb: true,
                    stencil_buffer: 0,
                    vsync: true,
                },
            })
            &&& outcome.trace[4] == Action::<B>::Setup(window_id, SetupStep::MapWindow)
            &&& outcome.trace[5] == Action::<B>::Setup(window_id, SetupStep::LoadGl)
            &&& outcome.trace[6] == Action::<B>::Setup(window_id, SetupStep::EnableFramebufferSrgb)
            &&& outcome.trace[7] == Action::<B>::Setup(window_id, SetupStep::CreatePainter)
            &&& outcome.trace[8] == (Action::<B>::CreateIntegration {
                window_id,
                name: "egui_glow",
            })
            &&& outcome.trace[9] == Action::<B>::Setup(window_id, SetupStep::InsertWindowListeners)
            &&& outcome.trace[10] == Action::<B>::Setup(window_id, SetupStep::InsertMenuListeners)
            &&& platform is Linux ==> outcome.trace[11] == (Action::<B>::ConnectRender {
                window_id,
                render_flow: 1,
            })
            &&& outcome.trace[n - 1] == Action::<B>::Setup(window_id, SetupStep::HandOver)
            &&& outcome.trace.skip(n) == then.trace
            &&& outcome.state == then.state
            &&& outcome.prevent_default == then.prevent_default
            &&& outcome.should_quit == then.should_quit
        }),
{
    let outcome = request_outcome(state, platform, payload, event, outside, choice);
    let set_up = setup_trace(platform, payload, outside);
    let created = state.with_window(payload.window_id, payload.label, choice.context);
    let then = loop_outcome(created, platform, event, choice.order@, outside);
    assert(set_up.len() == setup_len(platform));
    assert(outcome.trace[0] == set_up[0]);
    assert(outcome.trace[1] == set_up[1]);
    assert(outcome.trace[2] == set_up[2]);
    assert(outcome.trace[3] == set_up[3]);
    assert(outcome.trace[4] == set_up[4]);
    assert(outcome.trace[5] == set_up[5]);
    assert(outcome.trace[6] == set_up[6]);
    assert(outcome.trace[7] == set_up[7]);
    assert(outcome.trace[8] == set_up[8]);
    assert(outcome.trace[9] == set_up[9]);
    assert(outcome.trace[10] == set_up[10]);
    assert(outcome.trace[11] == set_up[11]);
    assert(outcome.trace[setup_len(platform) - 1] == set_up[setup_len(platform) - 1]);
    assert(outcome.trace.skip(setup_len(platform)) =~= then.trace);
}

/// Every action of the setup of a window names the window of the request. The native
/// window is made known once, under the very id under which the window is inserted
/// among the windows of the plugin.
pub proof fn law_setup_names_its_window<B: Backend>(
    state: State<B>,
    platform: Platform,
    payload: CreateWindowPayload<B>,
    event: Event<B::Value>,
    outside: Outside<B>,
    choice: Choice<B>,
)
    ensures
        ({
            let outcome = request_outcome(state, platform, payload, event, outside, choice);
            &&& forall|i: int|
                0 <= i < setup_len(platform) ==> window_of(#[trigger] outcome.trace[i]) == Some(
                    payload.window_id,
                )
            &&& exists|i: int|
                0 <= i < outcome.trace.len() && #[trigger] outcome.trace[i] == Action::<B>::Setup(
                    payload.window_id,
                    SetupStep::MapWindow,
                )
            &&& forall|i: int|
                0 <= i < outcome.trace.len() ==> (
                #[trigger] outcome.trace[i] matches Action::Setup(mapped, SetupStep::MapWindow)
                    ==> {
                    &&& i == 4
                    &&& mapped == payload.window_id
                    &&& outcome.state.windows.contains_key(mapped)
                })
        }),
{
    let outcome = request_outcome(state, platform, payload, event, outside, choice);
    let set_up = setup_trace(platform, payload, outside);
    let created = state.with_window(payload.window_id, payload.label, choice.context);
    let then = loop_outcome(created, platform, event, choice.order@, outside).trace;
    assert(set_up.len() == setup_len(platform));
    assert(outcome.trace[4] == set_up[4]);
    lemma_loop_actions(created, platform, event, choice.order@, outside);
    assert forall|i: int| 0 <= i < outcome.trace.len() implies if i < set_up.len() {
        #[trigger] outcome.trace[i] == set_up[i]
    } else {
        outcome.trace[i] == then[i - set_up.len()]
    } by {}
}

/// After the setup of a window the events of its native window are those of a known
/// window, whatever happens in the turns to come: they are kept from the rest of the
/// application.
pub proof fn law_mapped_window_is_found<B: Backend>(
    state: State<B>,
    platform: Platform,
    payload: CreateWindowPayload<B>,
    event: Event<B::Value>,
    outside: Outside<B>,
    choice: Choice<B>,
    i: int,
    mapped: WebviewId,
    later: WindowEvent,
    later_order: Seq<WebviewId>,
    later_outside: Outside<B>,
)
    requires
        0 <= i < request_outcome(state, platform, payload, event, outside, choice).trace.len(),
        request_outcome(state, platform, payload, event, outside, choice).trace[i] == Action::<
            B,
        >::Setup(mapped, SetupStep::MapWindow),
        later_outside.reply(Action::LookUpWindow) == Reply::<B>::WindowId(mapped),
    ensures
        loop_outcome(
            request_outcome(state, platform, payload, event, outside, choice).state,
            platform,
            Event::WindowEvent(later),
            later_order,
            later_outside,
        ).prevent_default,
{
    law_setup_names_its_window(state, platform, payload, event, outside, choice);
    let after = request_outcome(state, platform, payload, event, outside, choice).state;
    assert(after.windows.contains_key(mapped));
    assert(!after.windows.is_empty());
}

/// A request for a window carries just what was asked for, under the id that the asker
/// is told, and is sent before the event loop is woken up.
pub proof fn law_request_says_what_was_asked_for<B: Backend>(
    window_id: WebviewId,
    label: String,
    app: B::App,
    native_options: B::Options,
)
    ensures
        ({
            let request = window_request::<B>(window_id, label, app, native_options);
            &&& request.len() == 2
            &&& request[0] matches HandleAction::Send(payload) && {
                &&& payload.window_id == window_id
                &&& payload.label == label
                &&& payload.app == app
                &&& payload.native_options == native_options
            }
            &&& request[1] is Wake
        }),
{
}

/// What handling an event can do while the windows are walked.
proof fn lemma_walk_actions<B: Backend>(
    order: Seq<WebviewId>,
    kind: WalkKind,
    is_focused: bool,
    outside: Outside<B>,
)
    ensures
        ({
            let walked = walk_trace(order, kind, is_focused, outside);
            forall|i: int|
                0 <= i < walked.len() ==> match #[trigger] walked[i] {
                    Action::QueueRender(_) => kind is QueueRender,
                    Action::LoadRenderFlow(_) => kind is QueueRender,
                    Action::SetControlFlow(_) => kind is QueueRender,
                    Action::Frame(_, _) => kind is Frame,
                    _ => false,
                }
        }),
    decreases order.len(),
{
    if order.len() > 0 {
        let walked = walk_trace(order, kind, is_focused, outside);
        let first = window_walk_trace(order.first(), kind, is_focused, outside);
        let rest = walk_trace(order.drop_first(), kind, is_focused, outside);
        lemma_walk_actions(order.drop_first(), kind, is_focused, outside);
        assert forall|i: int| 0 <= i < walked.len() implies match #[trigger] walked[i] {
            Action::QueueRender(_) => kind is QueueRender,
            Action::LoadRenderFlow(_) => kind is QueueRender,
            Action::SetControlFlow(_) => kind is QueueRender,
            Action::Frame(_, _) => kind is Frame,
            _ => false,
        } by {
            if i < first.len() {
                assert(walked[i] == first[i]);
            } else {
                assert(walked[i] == rest[i - first.len()]);
            }
        }
    }
}

/// Handling an event sets nothing up, and resizes only for a resize event.
#[verifier::spinoff_prover]
#[verifier::rlimit(40)]
proof fn lemma_loop_actions<B: Backend>(
    state: State<B>,
    platform: Platform,
    event: Event<B::Value>,
    order: Seq<WebviewId>,
    outside: Outside<B>,
)
    ensures
        ({
            let outcome = loop_outcome(state, platform, event, order, outside);
            &&& outcome.state.windows.dom() == state.windows.dom()
            &&& forall|i: int|
                0 <= i < outcome.trace.len() ==> {
                    &&& !(#[trigger] outcome.trace[i] is Setup)
                    &&& outcome.trace[i] is Resize ==> (event matches Event::WindowEvent(resized)
                        && resized is Resized)
                }
        }),
{
    let outcome = loop_outcome(state, platform, event, order, outside);
    let kind = walk_kind(platform, event);
    let walked = walk_trace(order, kind, state.is_focused, outside);
    let own = event_outcome(state, platform, event, outside).trace;
    lemma_walk_actions(order, kind, state.is_focused, outside);
    assert(outcome.state.windows.dom() =~= state.windows.dom());
    assert forall|i: int| 0 <= i < outcome.trace.len() implies {
        &&& !(#[trigger] outcome.trace[i] is Setup)
        &&& outcome.trace[i] is Resize ==> (event matches Event::WindowEvent(resized)
            && resized is Resized)
    } by {
        if i < walked.len() {
            assert(outcome.trace[i] == walked[i]);
        } else {
            assert(outcome.trace[i] == own[i - walked.len()]);
        }
    }
}

/// A resize event of an open window resizes the context of that window exactly once, to
/// the width and height of the event, before the integration gets the event.
pub proof fn law_resize<B: Backend>(
    state: State<B>,
    platform: Platform,
    width: u32,
    height: u32,
    order: Seq<WebviewId>,
    outside: Outside<B>,
    window_id: WebviewId,
)
    requires
        state.windows.contains_key(window_id),
        state.windows[window_id].inner is Some,
        outside.reply(Action::LookUpWindow) == Reply::<B>::WindowId(window_id),
    ensures
        ({
            let event = Event::WindowEvent(WindowEvent::Resized { width, height });
            let trace = loop_outcome(state, platform, event, order, outside).trace;
            &&& trace.len() > 2
            &&& trace[0] == Action::<B>::LookUpWindow
            &&& trace[1] == (Action::<B>::Resize { window_id, width, height })
            &&& trace[2] == Action::<B>::DeliverEvent(window_id)
            &&& forall|i: int| 0 <= i < trace.len() && #[trigger] trace[i] is Resize ==> i == 1
        }),
{
    let event = Event::WindowEvent(WindowEvent::Resized { width, height });
    let trace = loop_outcome(state, platform, event, order, outside).trace;
    let own = event_outcome(state, platform, event, outside).trace;
    lemma_no_walk(order, state.is_focused, outside);
    assert(!state.windows.is_empty());
    assert(trace =~= own);
}

/// Only a resize event resizes a context.
pub proof fn law_only_resize_events_resize<B: Backend>(
    state: State<B>,
    platform: Platform,
    event: Event<B::Value>,
    order: Seq<WebviewId>,
    outside: Outside<B>,
)
    requires
        !(event matches Event::WindowEvent(own) && own is Resized),
    ensures
        ({
            let trace = loop_outcome(state, platform, event, order, outside).trace;
            forall|i: int| 0 <= i < trace.len() ==> !(#[trigger] trace[i] is Resize)
        }),
{
    lemma_loop_actions(state, platform, event, order, outside);
}

/// An event of a window that the plugin does not know does nothing and is left to the
/// rest of the application.
pub proof fn law_event_of_unknown_window<B: Backend>(
    state: State<B>,
    platform: Platform,
    event: WindowEvent,
    order: Seq<WebviewId>,
    outside: Outside<B>,
    window_id: WebviewId,
)
    requires
        !state.windows.is_empty(),
        !state.windows.contains_key(window_id),
        outside.reply(Action::LookUpWindow) == Reply::<B>::WindowId(window_id),
    ensures
        ({
            let outcome = loop_outcome(
                state,
                platform,
                Event::WindowEvent(event),
                order,
                outside,
            );
            &&& outcome.trace == seq![Action::<B>::LookUpWindow]
            &&& outcome.state == state
            &&& !outcome.prevent_default
            &&& !outcome.should_quit
        }),
{
    let outcome = loop_outcome(state, platform, Event::WindowEvent(event), order, outside);
    lemma_no_walk(order, state.is_focused, outside);
    assert(outcome.trace =~= seq![Action::<B>::LookUpWindow]);
}

/// The event of an open window goes to its integration, to the callback and to the
/// listeners, in that order, and the window is drawn again. A window whose application
/// then wants to quit is closed: nothing but its context goes, and no other window
/// changes.
#[verifier::spinoff_prover]
#[verifier::rlimit(40)]
pub proof fn law_event_of_open_window<B: Backend>(
    state: State<B>,
    platform: Platform,
    event: WindowEvent,
    order: Seq<WebviewId>,
    outside: Outside<B>,
    window_id: WebviewId,
    quits: bool,
    translated: bool,
)
    requires
        state.windows.contains_key(window_id),
        state.windows[window_id].inner is Some,
        event != WindowEvent::CloseRequested,
        outside.reply(Action::LookUpWindow) == Reply::<B>::WindowId(window_id),
        outside.reply(Action::AskShouldQuit(window_id)) == Reply::<B>::ShouldQuit(quits),
        outside.reply(Action::TranslateEvent) == Reply::<B>::Translated(translated),
    ensures
        ({
            let outcome = loop_outcome(
                state,
                platform,
                Event::WindowEvent(event),
                order,
                outside,
            );
            let window = state.windows[window_id];
            let label = window.label;
            let resize: Seq<Action<B>> = match event {
                WindowEvent::Resized { width, height } => {
                    seq![Action::Resize { window_id, width, height }]
                },
                _ => seq![],
            };
            let delivery: Seq<Action<B>> = if quits {
                seq![
                    Action::DeliverEvent(window_id),
                    Action::AskShouldQuit(window_id),
                    Action::SetControlFlow(ControlFlow::Wait),
                    Action::RequestRedraw(window_id),
                    Action::RemoveMenuListeners(window_id),
                ]
            } else {
                seq![
                    Action::DeliverEvent(window_id),
                    Action::AskShouldQuit(window_id),
                    Action::RequestRedraw(window_id),
                ]
            };
            let forward: Seq<Action<B>> = if translated {
                seq![
                    Action::TranslateEvent,
                    Action::Callback { label },
                    Action::NotifyListeners(window_id),
                ]
            } else {
                seq![Action::TranslateEvent]
            };
            &&& outcome.trace == seq![Action::<B>::LookUpWindow] + resize + delivery + forward
            &&& outcome.state.windows == if quits {
                state.windows.insert(
                    window_id,
                    WindowWrapper { label, inner: None, menu_items: window.menu_items },
                )
            } else {
                state.windows
            }
            &&& outcome.state.is_focused == match event {
                WindowEvent::Focused(is_focused) => is_focused,
                _ => state.is_focused,
            }
            &&& outcome.prevent_default
            &&& !outcome.should_quit
        }),
{
    let outcome = loop_outcome(state, platform, Event::WindowEvent(event), order, outside);
    let own = event_outcome(state, platform, Event::WindowEvent(event), outside).trace;
    lemma_no_walk(order, state.is_focused, outside);
    assert(!state.windows.is_empty());
    assert(outcome.trace =~= own);
}

/// A request to close an open window first asks the listeners and then the callback.
/// Only a first signal that says `true` keeps the window open; it then gets the event
/// like any other. Else it loses its menu listeners and its context is torn down, and
/// it does not get the event.
#[verifier::spinoff_prover]
#[verifier::rlimit(40)]
pub proof fn law_close_request<B: Backend>(
    state: State<B>,
    platform: Platform,
    order: Seq<WebviewId>,
    outside: Outside<B>,
    window_id: WebviewId,
    signal: Option<bool>,
    quits: bool,
    translated: bool,
)
    requires
        state.windows.contains_key(window_id),
        state.windows[window_id].inner is Some,
        outside.reply(Action::LookUpWindow) == Reply::<B>::WindowId(window_id),
        outside.reply(Action::ReceiveCloseSignal) == Reply::<B>::CloseSignal(signal),
        outside.reply(Action::AskShouldQuit(window_id)) == Reply::<B>::ShouldQuit(quits),
        outside.reply(Action::TranslateEvent) == Reply::<B>::Translated(translated),
    ensures
        ({
            let event = Event::WindowEvent(WindowEvent::CloseRequested);
            let outcome = loop_outcome(state, platform, event, order, outside);
            let window = state.windows[window_id];
            let label = window.label;
            let asking: Seq<Action<B>> = seq![
                Action::LookUpWindow,
                Action::NotifyClose(window_id),
                Action::CallbackClose { label },
                Action::ReceiveCloseSignal,
            ];
            let consequence: Seq<Action<B>> = if signal != Some(true) {
                seq![
                    Action::RemoveMenuListeners(window_id),
                    Action::ExitIntegration(window_id),
                    Action::DestroyPainter(window_id),
                ]
            } else if quits {
                seq![
                    Action::DeliverEvent(window_id),
                    Action::AskShouldQuit(window_id),
                    Action::SetControlFlow(ControlFlow::Wait),
                    Action::RequestRedraw(window_id),
                    Action::RemoveMenuListeners(window_id),
                ]
            } else {
                seq![
                    Action::DeliverEvent(window_id),
                    Action::AskShouldQuit(window_id),
                    Action::RequestRedraw(window_id),
                ]
            };
            let forward: Seq<Action<B>> = if translated {
                seq![
                    Action::TranslateEvent,
                    Action::Callback { label },
                    Action::NotifyListeners(window_id),
                ]
            } else {
                seq![Action::TranslateEvent]
            };
            &&& outcome.trace == asking + consequence + forward
            &&& outcome.state.windows == if signal != Some(true) || quits {
                state.windows.insert(
                    window_id,
                    WindowWrapper { label, inner: None, menu_items: window.menu_items },
                )
            } else {
                state.windows
            }
            &&& outcome.state.is_focused == state.is_focused
            &&& outcome.prevent_default
            &&& !outcome.should_quit
        }),
{
    let event = Event::WindowEvent(WindowEvent::CloseRequested);
    let outcome = loop_outcome(state, platform, event, order, outside);
    let own = event_outcome(state, platform, event, outside).trace;
    lemma_no_walk(order, state.is_focused, outside);
    assert(!state.windows.is_empty());
    assert(outcome.trace =~= own);
}

/// The event of a window that was closed reaches the callback and the listeners only. A
/// request to close it once more asks as ever and forgets its menu listeners unless that
/// is prevented. The windows do not change.
#[verifier::spinoff_prover]
#[verifier::rlimit(40)]
pub proof fn law_event_of_closed_window<B: Backend>(
    state: State<B>,
    platform: Platform,
    event: WindowEvent,
    order: Seq<WebviewId>,
    outside: Outside<B>,
    window_id: WebviewId,
    signal: Option<bool>,
    translated: bool,
)
    requires
        state.windows.contains_key(window_id),
        state.windows[window_id].inner is None,
        outside.reply(Action::LookUpWindow) == Reply::<B>::WindowId(window_id),
        outside.reply(Action::ReceiveCloseSignal) == Reply::<B>::CloseSignal(signal),
        outside.reply(Action::TranslateEvent) == Reply::<B>::Translated(translated),
    ensures
        ({
            let outcome = loop_outcome(
                state,
                platform,
                Event::WindowEvent(event),
                order,
                outside,
            );
            let label = state.windows[window_id].label;
            let asking: Seq<Action<B>> = if event != WindowEvent::CloseRequested {
                seq![]
            } else if signal == Some(true) {
                seq![
                    Action::NotifyClose(window_id),
                    Action::CallbackClose { label },
                    Action::ReceiveCloseSignal,
                ]
            } else {
                seq![
                    Action::NotifyClose(window_id),
                    Action::CallbackClose { label },
                    Action::ReceiveCloseSignal,
                    Action::RemoveMenuListeners(window_id),
                ]
            };
            let forward: Seq<Action<B>> = if translated {
                seq![
                    Action::TranslateEvent,
                    Action::Callback { label },
                    Action::NotifyListeners(window_id),
                ]
            } else {
                seq![Action::TranslateEvent]
            };
            &&& outcome.trace == seq![Action::<B>::LookUpWindow] + asking + forward
            &&& outcome.state.windows == state.windows
            &&& outcome.state.is_focused == match event {
                WindowEvent::Focused(is_focused) => is_focused,
                _ => state.is_focused,
            }
            &&& outcome.prevent_default
            &&& !outcome.should_quit
        }),
{
    let outcome = loop_outcome(state, platform, Event::WindowEvent(event), order, outside);
    let own = event_outcome(state, platform, Event::WindowEvent(event), outside).trace;
    lemma_no_walk(order, state.is_focused, outside);
    assert(!state.windows.is_empty());
    assert(outcome.trace =~= own);
}

/// Windows that are walked one after the other are dealt with one after the other: what
/// is done for some and then others is what is done for the former followed by what is
/// done for the latter. An application wants to quit in a frame of all if one does in a
/// frame of some.
pub proof fn law_walk_in_parts<B: Backend>(
    state: State<B>,
    platform: Platform,
    event: Event<B::Value>,
    some: Seq<WebviewId>,
    others: Seq<WebviewId>,
    outside: Outside<B>,
)
    requires
        event is MainEventsCleared || event is RedrawEventsCleared || event is RedrawRequested
            || event is Other,
    ensures
        ({
            let one = loop_outcome(state, platform, event, some, outside);
            let two = loop_outcome(state, platform, event, others, outside);
            let both = loop_outcome(state, platform, event, some + others, outside);
            &&& both.trace == one.trace + two.trace
            &&& both.should_quit == (one.should_quit || two.should_quit)
            &&& both.state == state
            &&& !both.prevent_default
        }),
{
    let kind = walk_kind(platform, event);
    let both = some + others;
    lemma_walk_in_parts(some, others, kind, state.is_focused, outside);
    let one = loop_outcome(state, platform, event, some, outside);
    let two = loop_outcome(state, platform, event, others, outside);
    let all = loop_outcome(state, platform, event, both, outside);
    assert(all.trace =~= one.trace + two.trace);
    if some_quits(some, kind, outside) {
        let i = choose|i: int| 0 <= i < some.len() && quits_in_frame(outside, #[trigger] some[i]);
        assert(both[i] == some[i]);
    }
    if some_quits(others, kind, outside) {
        let i = choose|i: int|
            0 <= i < others.len() && quits_in_frame(outside, #[trigger] others[i]);
        assert(both[some.len() + i] == others[i]);
    }
    if some_quits(both, kind, outside) {
        let i = choose|i: int| 0 <= i < both.len() && quits_in_frame(outside, #[trigger] both[i]);
        if i < some.len() {
            assert(both[i] == some[i]);
        } else {
            assert(both[i] == others[i - some.len()]);
        }
    }
}

/// A walk in two parts.
proof fn lemma_walk_in_parts<B: Backend>(
    some: Seq<WebviewId>,
    others: Seq<WebviewId>,
    kind: WalkKind,
    is_focused: bool,
    outside: Outside<B>,
)
    ensures
        walk_trace(some + others, kind, is_focused, outside) == walk_trace(
            some,
            kind,
            is_focused,
            outside,
        ) + walk_trace(others, kind, is_focused, outside),
    decreases some.len(),
{
    let whole = walk_trace(some + others, kind, is_focused, outside);
    let one = walk_trace(some, kind, is_focused, outside);
    let two = walk_trace(others, kind, is_focused, outside);
    if some.len() == 0 {
        assert(some + others =~= others);
        assert(whole =~= one + two);
    } else {
        lemma_walk_in_parts(some.drop_first(), others, kind, is_focused, outside);
        assert((some + others).drop_first() =~= some.drop_first() + others);
        assert((some + others).first() == some.first());
        assert(whole =~= one + two);
    }
}

/// At the end of the main events Linux queues a frame of a window and takes over the
/// control flow that its render callback has left: 0 to go on at once, 1 to wait and 2
/// to exit.
pub proof fn law_linux_ticks_a_window<B: Backend>(
    state: State<B>,
    outside: Outside<B>,
    window_id: WebviewId,
    number: u8,
)
    requires
        !state.windows.is_empty(),
        number <= 2,
        outside.reply(Action::LoadRenderFlow(window_id)) == Reply::<B>::RenderFlow(number),
    ensures
        ({
            let outcome = loop_outcome(
                state,
                Platform::Linux,
                Event::MainEventsCleared,
                seq![window_id],
                outside,
            );
            &&& outcome.trace == seq![
                Action::<B>::QueueRender(window_id),
                Action::LoadRenderFlow(window_id),
                Action::SetControlFlow(
                    if number == 0 {
                        ControlFlow::Poll
                    } else if number == 1 {
                        ControlFlow::Wait
                    } else {
                        ControlFlow::Exit
                    },
                ),
            ]
            &&& outcome.state == state
            &&& !outcome.prevent_default
            &&& !outcome.should_quit
        }),
{
    let order = seq![window_id];
    let outcome = loop_outcome(
        state,
        Platform::Linux,
        Event::MainEventsCleared,
        order,
        outside,
    );
    let own = window_walk_trace(window_id, WalkKind::QueueRender, state.is_focused, outside);
    assert(order.drop_first() =~= Seq::empty());
    reveal_with_fuel(walk_trace, 2);
    assert(outcome.trace =~= own);
}

/// Windows draws a frame of a window when all redraw events are handled, and the other
/// platforms but Linux draw one at each of them. The frame updates, paints and presents
/// once, in that order. A window without the focus pauses for ten milliseconds first.
/// The window asks to be drawn again, and the event loop goes on at once, just if the
/// application wants another frame and does not want to quit; else the event loop waits.
#[verifier::spinoff_prover]
#[verifier::rlimit(40)]
pub proof fn law_frame_of_a_window<B: Backend>(
    state: State<B>,
    platform: Platform,
    event: Event<B::Value>,
    outside: Outside<B>,
    window_id: WebviewId,
    repaint: bool,
    quit: bool,
)
    requires
        !state.windows.is_empty(),
        platform is Windows && event is RedrawEventsCleared || (platform is MacOs
            || platform is OtherUnix) && event is RedrawRequested,
        outside.reply(Action::Frame(window_id, FrameAction::Update)) == Reply::<B>::Frame(
            FrameReply::Updated { needs_repaint: repaint },
        ),
        outside.reply(Action::Frame(window_id, FrameAction::AskShouldQuit)) == Reply::<B>::Frame(
            FrameReply::ShouldQuit(quit),
        ),
    ensures
        ({
            let outcome = loop_outcome(state, platform, event, seq![window_id], outside);
            let pause: Seq<Action<B>> = if state.is_focused {
                seq![]
            } else {
                seq![Action::Frame(window_id, FrameAction::Pause { millis: 10 })]
            };
            let drawing: Seq<Action<B>> = seq![
                Action::Frame(window_id, FrameAction::Update),
                Action::Frame(window_id, FrameAction::HandlePlatformOutput),
                Action::Frame(window_id, FrameAction::Tessellate),
                Action::Frame(window_id, FrameAction::Clear),
                Action::Frame(window_id, FrameAction::Paint),
                Action::Frame(window_id, FrameAction::SwapBuffers),
                Action::Frame(window_id, FrameAction::AskShouldQuit),
            ];
            let ending: Seq<Action<B>> = if repaint && !quit {
                seq![
                    Action::Frame(window_id, FrameAction::RequestRedraw),
                    Action::Frame(window_id, FrameAction::SetControlFlow(ControlFlow::Poll)),
                    Action::Frame(window_id, FrameAction::Autosave),
                ]
            } else {
                seq![
                    Action::Frame(window_id, FrameAction::SetControlFlow(ControlFlow::Wait)),
                    Action::Frame(window_id, FrameAction::Autosave),
                ]
            };
            &&& outcome.trace == pause + drawing + ending
            &&& outcome.should_quit == quit
            &&& outcome.state == state
            &&& !outcome.prevent_default
        }),
{
    let order = seq![window_id];
    let outcome = loop_outcome(state, platform, event, order, outside);
    let own = window_walk_trace(window_id, WalkKind::Frame, state.is_focused, outside);
    assert(order.drop_first() =~= Seq::empty());
    reveal_with_fuel(walk_trace, 2);
    assert(outcome.trace =~= own);
    assert(order[0] == window_id);
    assert(some_quits(order, WalkKind::Frame, outside) == quit);
}

/// Windows are walked for no other event: nothing is queued, read or drawn. An event
/// that is neither for a window nor a message does nothing else.
#[verifier::spinoff_prover]
#[verifier::rlimit(40)]
pub proof fn law_other_events_walk_no_window<B: Backend>(
    state: State<B>,
    platform: Platform,
    event: Event<B::Value>,
    order: Seq<WebviewId>,
    outside: Outside<B>,
)
    requires
        !(platform is Linux && event is MainEventsCleared),
        !(platform is Windows && event is RedrawEventsCleared),
        !((platform is MacOs || platform is OtherUnix) && event is RedrawRequested),
    ensures
        ({
            let outcome = loop_outcome(state, platform, event, order, outside);
            &&& forall|i: int|
                0 <= i < outcome.trace.len() ==> !(#[trigger] outcome.trace[i] is QueueRender
                    || outcome.trace[i] is LoadRenderFlow || outcome.trace[i] is Frame)
            &&& !outcome.should_quit
            &&& !(event is WindowEvent) && !(event is Message) ==> {
                &&& outcome.trace.len() == 0
                &&& outcome.state == state
                &&& !outcome.prevent_default
            }
        }),
{
    let outcome = loop_outcome(state, platform, event, order, outside);
    let own = event_outcome(state, platform, event, outside).trace;
    lemma_no_walk(order, state.is_focused, outside);
    if !state.windows.is_empty() {
        assert(outcome.trace =~= own);
    }
}

} // verus!
