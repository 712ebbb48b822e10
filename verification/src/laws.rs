//! What holds of every turn.

use crate::backend::{Backend, Platform, WebviewId};
use crate::frame::{flow_of, window_frame, ControlFlow};
use crate::message::{WindowMessage, WindowOperation};
use crate::outcome::{
    close_trace, delivery_trace, event_outcome, forward_trace, frame_trace, lemma_no_walk,
    loop_outcome, message_outcome, only_if, prevents_close, quits_in_frame, request_outcome,
    setup_trace, some_quits, walk_trace, wants_repaint, wants_to_quit, window_event_outcome,
    window_walk_trace,
};
use crate::run::{is_answer, Outside};
use crate::setup::{CreateWindowPayload, NameUse, NamingStep, SetupStep};
use crate::turn::{
    linux_control_flow, setup_action, walk_kind, window_action, Action, Choice, Event, Phase, Reply, State, Step,
    Turn, WalkKind, WalkStep, WindowEvent, WindowStep,
};
use crate::window::{is_open, is_walk, GlutinWindowContext, WindowWrapper};
use vstd::prelude::*;

verus! {

/// The open window whose context an action uses, if it uses one.
pub open spec fn used_window<B: Backend>(action: Action<B>) -> Option<WebviewId> {
    match action {
        Action::QueueRender(window_id) => Some(window_id),
        Action::LoadRenderFlow(window_id) => Some(window_id),
        Action::Frame(window_id, _) => Some(window_id),
        Action::Resize { window_id, .. } => Some(window_id),
        Action::DeliverEvent(window_id) => Some(window_id),
        Action::AskShouldQuit(window_id) => Some(window_id),
        Action::RequestRedraw(window_id) => Some(window_id),
        Action::Query(window_id, _) => Some(window_id),
        Action::Operate(window_id, _) => Some(window_id),
        _ => None,
    }
}

impl<B: Backend> Step<B> {
    /// The action is the one that the turn waits for.
    pub open spec fn is_consistent(self) -> bool {
        match self.turn.phase {
            Phase::Naming { payload, step, .. } => match step {
                NamingStep::AskPersistenceName => {
                    self.action == Action::<B>::AskAppName(
                        payload.window_id,
                        NameUse::Persistence,
                    )
                },
                NamingStep::OpenPersistence => self.action is OpenPersistence,
                NamingStep::AskTitle => {
                    self.action == Action::<B>::AskAppName(payload.window_id, NameUse::Title)
                },
            },
            Phase::Setup { window_id, step, .. } => match step {
                SetupStep::BuildContext => self.action is BuildContext,
                _ => self.action == setup_action::<B>(window_id, step),
            },
            Phase::Walk { order, at, step, .. } => {
                &&& at < order@.len()
                &&& match step {
                    WalkStep::QueueRender => {
                        self.action == Action::<B>::QueueRender(order@[at as int])
                    },
                    WalkStep::LoadRenderFlow => {
                        self.action == Action::<B>::LoadRenderFlow(order@[at as int])
                    },
                    WalkStep::SetControlFlow => self.action is SetControlFlow,
                    WalkStep::Frame(frame) => {
                        &&& self.action == Action::<B>::Frame(order@[at as int], frame.action)
                        &&& !(frame.action is Finish)
                    },
                }
            },
            Phase::LookUp(_) => self.action is LookUpWindow,
            Phase::Window { window_id, label, step } => {
                self.action == window_action(window_id, label, step)
            },
            Phase::Query(query) => self.action matches Action::Query(_, asked) && asked == query,
            Phase::Answer { .. } => self.action is Answer,
            Phase::Operate => self.action is Operate,
            Phase::Finished => self.action is Finish,
        }
    }

    /// The turn knows what it deals with: the windows that it still walks are open,
    /// and the window whose event it handles is registered, under the label that
    /// the turn has, and open where the step at hand needs it.
    pub open spec fn is_sound(self) -> bool {
        let windows = self.state.windows;
        match self.turn.phase {
            Phase::Walk { order, .. } => {
                forall|i: int| 0 <= i < order@.len() ==> is_open(windows, #[trigger] order@[i])
            },
            Phase::Window { window_id, label, step } => {
                &&& windows.contains_key(window_id)
                &&& windows[window_id].label == label
                &&& match step {
                    WindowStep::Resize { .. } => is_open(windows, window_id),
                    WindowStep::DeliverEvent => is_open(windows, window_id),
                    WindowStep::AskShouldQuit => is_open(windows, window_id),
                    WindowStep::QuitControlFlow => is_open(windows, window_id),
                    WindowStep::RequestRedraw { .. } => is_open(windows, window_id),
                    WindowStep::ExitIntegration(_) => !is_open(windows, window_id),
                    WindowStep::DestroyPainter(_) => !is_open(windows, window_id),
                    WindowStep::QuitMenu => !is_open(windows, window_id),
                    _ => true,
                }
            },
            Phase::Query(_) => is_open(windows, used_window(self.action)->0),
            Phase::Operate => is_open(windows, used_window(self.action)->0),
            _ => true,
        }
    }

    /// What holds whenever a turn hands out an action.
    pub open spec fn inv(self) -> bool {
        self.is_consistent() && self.is_sound()
    }
}

/// A turn starts with everything in order.
pub proof fn law_start<B: Backend>(
    state: State<B>,
    platform: Platform,
    payload: CreateWindowPayload<B>,
    event: Event<B::Value>,
    order: Vec<WebviewId>,
)
    requires
        is_walk(order@, state.windows),
    ensures
        state.handle_gl_loop(platform, event, order).inv(),
        state.create_gl_window(platform, payload, event).inv(),
{
    lemma_walked_are_open(order@, state.windows);
    lemma_walk_inv(state, platform, event, order, 0);
}

/// A turn keeps everything in order.
pub proof fn law_next<B: Backend>(step: Step<B>, reply: Reply<B>, choice: Choice<B>)
    requires
        step.inv(),
        step.turn.accepts(reply),
        choice.fits(step.turn, reply, step.state.next(step.turn, reply, choice).state),
    ensures
        step.state.next(step.turn, reply, choice).inv(),
{
    match step.turn.phase {
        Phase::Setup { window_id, label, event, step: setup } => {
            if setup is HandOver {
                let created = step.state.with_window(window_id, label, choice.context);
                lemma_walked_are_open(choice.order@, created.windows);
                lemma_walk_inv(created, step.turn.platform, event, choice.order, 0);
            }
        },
        Phase::Walk { event, order, at, .. } => {
            assert(at < order.len());
            lemma_walk_inv(step.state, step.turn.platform, event, order, at + 1);
        },
        _ => {},
    }
}

/// The walk keeps everything in order.
proof fn lemma_walk_inv<B: Backend>(
    state: State<B>,
    platform: Platform,
    event: Event<B::Value>,
    order: Vec<WebviewId>,
    at: int,
)
    requires
        0 <= at,
        forall|i: int| 0 <= i < order@.len() ==> is_open(state.windows, #[trigger] order@[i]),
    ensures
        forall|should_quit: bool| #[trigger]
            state.walk(platform, event, order, at, should_quit).inv(),
{
    if at < order@.len() {
        assert(at < order.len());
    }
}

/// What is walked is open.
proof fn lemma_walked_are_open<B: Backend>(
    order: Seq<WebviewId>,
    windows: Map<WebviewId, WindowWrapper<B>>,
)
    requires
        is_walk(order, windows),
    ensures
        forall|i: int| 0 <= i < order.len() ==> is_open(windows, #[trigger] order[i]),
{
    assert forall|i: int| 0 <= i < order.len() implies is_open(windows, #[trigger] order[i]) by {
        assert(order.contains(order[i]));
    }
}

/// Which answers a turn accepts depends on the action alone that it handed out.
pub proof fn law_accepted_answers<B: Backend>(step: Step<B>, reply: Reply<B>)
    requires
        step.inv(),
    ensures
        step.turn.accepts(reply) == is_answer(step.turn.platform, step.action, reply),
{
}

/// An action that uses the context of a window is only handed out while the window
/// is open.
pub proof fn law_used_window_is_open<B: Backend>(step: Step<B>)
    requires
        step.inv(),
    ensures
        used_window(step.action) matches Some(window_id) ==> is_open(step.state.windows, window_id),
{
    if let Phase::Walk { order, at, .. } = step.turn.phase {
        assert(is_open(step.state.windows, order@[at as int]));
    }
}

/// While a context is torn down, it is the one that the window had, and the window
/// has none any more.
pub proof fn law_torn_down_context<B: Backend>(step: Step<B>, reply: Reply<B>, choice: Choice<B>)
    requires
        step.inv(),
        step.turn.accepts(reply),
    ensures
        ({
            let next = step.state.next(step.turn, reply, choice);
            next.turn.torn_down() matches Some(context) ==> {
                ||| step.turn.torn_down() == Some(context)
                ||| {
                    &&& next.action matches Action::ExitIntegration(window_id)
                    &&& is_open(step.state.windows, window_id)
                    &&& *step.state.windows[window_id].inner->0 == context
                    &&& !is_open(next.state.windows, window_id)
                }
            }
        }),
{
}

/// Only the end of the setup of a window depends on more than the turn and the
/// answer.
pub proof fn law_choice_at_setup_only<B: Backend>(
    state: State<B>,
    turn: Turn<B>,
    reply: Reply<B>,
    one: Choice<B>,
    other: Choice<B>,
)
    requires
        !(turn.phase matches Phase::Setup { step, .. } && step is HandOver),
    ensures
        state.next(turn, reply, one) == state.next(turn, reply, other),
{
}

/// Whether `after` are the windows `before`, but for some that may have been closed
/// since: none is forgotten, opened again or given another label.
pub open spec fn only_closes<B: Backend>(
    before: Map<WebviewId, WindowWrapper<B>>,
    after: Map<WebviewId, WindowWrapper<B>>,
) -> bool {
    &&& after.dom() == before.dom()
    &&& forall|window_id: WebviewId| #[trigger]
        before.contains_key(window_id) ==> (after[window_id] == before[window_id]
            || after[window_id] == before[window_id].closed())
}

/// An event closes windows at most; it never forgets or opens one.
pub proof fn law_event_only_closes<B: Backend>(
    state: State<B>,
    platform: Platform,
    event: Event<B::Value>,
    order: Seq<WebviewId>,
    outside: Outside<B>,
)
    ensures
        only_closes(
            state.windows,
            loop_outcome(state, platform, event, order, outside).state.windows,
        ),
{
    let after = loop_outcome(state, platform, event, order, outside).state.windows;
    assert(after.dom() =~= state.windows.dom());
}

/// An event closes no window but the one that it is for.
pub proof fn law_event_closes_its_window_only<B: Backend>(
    state: State<B>,
    platform: Platform,
    event: Event<B::Value>,
    order: Seq<WebviewId>,
    outside: Outside<B>,
    window_id: WebviewId,
)
    requires
        state.windows.contains_key(window_id),
        !(event is WindowEvent) || outside.reply(Action::LookUpWindow)->WindowId_0 != window_id,
    ensures
        loop_outcome(state, platform, event, order, outside).state.windows[window_id]
            == state.windows[window_id],
{
}

/// The event is kept from the rest of the application just if it is for a window of
/// the plugin, be it open or closed.
pub proof fn law_prevent_default<B: Backend>(
    state: State<B>,
    platform: Platform,
    event: Event<B::Value>,
    order: Seq<WebviewId>,
    outside: Outside<B>,
)
    ensures
        loop_outcome(state, platform, event, order, outside).prevent_default <==> (
        event is WindowEvent && state.windows.contains_key(
            outside.reply(Action::LookUpWindow)->WindowId_0,
        )),
{
}

/// Without a window the plugin does nothing at all.
pub proof fn law_no_window<B: Backend>(
    state: State<B>,
    platform: Platform,
    event: Event<B::Value>,
    order: Seq<WebviewId>,
    outside: Outside<B>,
)
    requires
        state.windows.is_empty(),
    ensures
        loop_outcome(state, platform, event, order, outside).trace.len() == 0,
        loop_outcome(state, platform, event, order, outside).state == state,
        !loop_outcome(state, platform, event, order, outside).prevent_default,
{
}

/// The plugin remembers the last focus event that was for one of its windows.
pub proof fn law_focus<B: Backend>(
    state: State<B>,
    platform: Platform,
    event: Event<B::Value>,
    order: Seq<WebviewId>,
    outside: Outside<B>,
)
    ensures
        ({
            let after = loop_outcome(state, platform, event, order, outside).state.is_focused;
            let window_id = outside.reply(Action::LookUpWindow)->WindowId_0;
            match event {
                Event::WindowEvent(WindowEvent::Focused(is_focused)) => after == (
                if state.windows.contains_key(window_id) {
                    is_focused
                } else {
                    state.is_focused
                }),
                _ => after == state.is_focused,
            }
        }),
{
}

/// A window that may close loses its menu listeners, is torn down and is not open
/// any more, and its integration does not get the event.
pub proof fn law_close<B: Backend>(
    state: State<B>,
    platform: Platform,
    order: Seq<WebviewId>,
    outside: Outside<B>,
    window_id: WebviewId,
)
    requires
        is_open(state.windows, window_id),
        outside.reply(Action::LookUpWindow) == Reply::<B>::WindowId(window_id),
        !prevents_close(outside),
    ensures
        ({
            let event = Event::WindowEvent(WindowEvent::CloseRequested);
            let outcome = loop_outcome(state, platform, event, order, outside);
            let label = state.windows[window_id].label;
            &&& outcome.state == state.close(window_id)
            &&& !is_open(outcome.state.windows, window_id)
            &&& outcome.trace == seq![
                Action::LookUpWindow,
                Action::NotifyClose(window_id),
                Action::CallbackClose { label },
                Action::ReceiveCloseSignal,
                Action::RemoveMenuListeners(window_id),
                Action::ExitIntegration(window_id),
                Action::DestroyPainter(window_id),
            ] + forward_trace(window_id, label, outside)
        }),
{
    let event = Event::WindowEvent(WindowEvent::CloseRequested);
    let outcome = loop_outcome(state, platform, event, order, outside);
    let label = state.windows[window_id].label;
    lemma_no_walk(order, state.is_focused, outside);
    assert(outcome.trace =~= seq![
        Action::LookUpWindow,
        Action::NotifyClose(window_id),
        Action::CallbackClose { label },
        Action::ReceiveCloseSignal,
        Action::RemoveMenuListeners(window_id),
        Action::ExitIntegration(window_id),
        Action::DestroyPainter(window_id),
    ] + forward_trace(window_id, label, outside));
}

/// A window that is kept from closing stays as it is, and its integration gets the
/// event, unless its application wants to quit.
pub proof fn law_close_prevented<B: Backend>(
    state: State<B>,
    platform: Platform,
    order: Seq<WebviewId>,
    outside: Outside<B>,
    window_id: WebviewId,
)
    requires
        is_open(state.windows, window_id),
        outside.reply(Action::LookUpWindow) == Reply::<B>::WindowId(window_id),
        prevents_close(outside),
    ensures
        ({
            let event = Event::WindowEvent(WindowEvent::CloseRequested);
            let outcome = loop_outcome(state, platform, event, order, outside);
            let label = state.windows[window_id].label;
            let quits = wants_to_quit(outside, window_id);
            &&& outcome.state == if quits {
                state.close(window_id)
            } else {
                state
            }
            &&& outcome.trace == seq![
                Action::LookUpWindow,
                Action::NotifyClose(window_id),
                Action::CallbackClose { label },
                Action::ReceiveCloseSignal,
            ] + delivery_trace(window_id, quits) + forward_trace(window_id, label, outside)
        }),
{
    let event = Event::WindowEvent(WindowEvent::CloseRequested);
    let outcome = loop_outcome(state, platform, event, order, outside);
    let label = state.windows[window_id].label;
    let quits = wants_to_quit(outside, window_id);
    lemma_no_walk(order, state.is_focused, outside);
    assert(outcome.trace =~= seq![
        Action::LookUpWindow,
        Action::NotifyClose(window_id),
        Action::CallbackClose { label },
        Action::ReceiveCloseSignal,
    ] + delivery_trace(window_id, quits) + forward_trace(window_id, label, outside));
}

/// An open window whose application wants to quit after an event is closed, and the
/// event loop is left waiting; one whose application does not stays open.
pub proof fn law_quit<B: Backend>(
    state: State<B>,
    platform: Platform,
    event: WindowEvent,
    order: Seq<WebviewId>,
    outside: Outside<B>,
    window_id: WebviewId,
)
    requires
        is_open(state.windows, window_id),
        outside.reply(Action::LookUpWindow) == Reply::<B>::WindowId(window_id),
        !(event is CloseRequested),
    ensures
        ({
            let outcome = loop_outcome(
                state,
                platform,
                Event::WindowEvent(event),
                order,
                outside,
            );
            &&& is_open(outcome.state.windows, window_id) <==> !wants_to_quit(outside, window_id)
            &&& outcome.trace.contains(Action::SetControlFlow(ControlFlow::Wait)) <==> wants_to_quit(
                outside,
                window_id,
            )
            &&& outcome.trace.contains(Action::RemoveMenuListeners(window_id)) <==> wants_to_quit(
                outside,
                window_id,
            )
            &&& outcome.trace.contains(Action::DeliverEvent(window_id))
            &&& outcome.trace.contains(Action::RequestRedraw(window_id))
        }),
{
    let outcome = loop_outcome(state, platform, Event::WindowEvent(event), order, outside);
    let label = state.windows[window_id].label;
    let quits = wants_to_quit(outside, window_id);
    let resize: Seq<Action<B>> = only_if(
        event is Resized,
        seq![Action::Resize { window_id, width: event->width, height: event->height }],
    );
    lemma_no_walk(order, state.is_focused, outside);
    assert(outcome.trace =~= seq![Action::LookUpWindow] + resize + delivery_trace(window_id, quits)
        + forward_trace(window_id, label, outside));
    let k: int = 1 + resize.len() as int;
    assert(outcome.trace[k] == Action::<B>::DeliverEvent(window_id));
    if quits {
        assert(outcome.trace[k + 2] == Action::<B>::SetControlFlow(ControlFlow::Wait));
        assert(outcome.trace[k + 3] == Action::<B>::RequestRedraw(window_id));
        assert(outcome.trace[k + 4] == Action::<B>::RemoveMenuListeners(window_id));
    } else {
        assert(outcome.trace[k + 2] == Action::<B>::RequestRedraw(window_id));
    }
}

/// The end of a turn tells that an application wanted to quit in a frame just if one
/// of an open window did in a frame that the turn drew.
pub proof fn law_quit_flag<B: Backend>(
    state: State<B>,
    platform: Platform,
    event: Event<B::Value>,
    order: Seq<WebviewId>,
    outside: Outside<B>,
)
    requires
        is_walk(order, state.windows),
    ensures
        loop_outcome(state, platform, event, order, outside).should_quit <==> {
            &&& walk_kind(platform, event) is Frame
            &&& exists|window_id: WebviewId| #[trigger]
                is_open(state.windows, window_id) && quits_in_frame(outside, window_id)
        },
{
    let kind = walk_kind(platform, event);
    if some_quits(order, kind, outside) {
        let i = choose|i: int|
            0 <= i < order.len() && quits_in_frame(outside, #[trigger] order[i]);
        assert(order.contains(order[i]));
        assert(is_open(state.windows, order[i]));
        assert(!state.windows.is_empty());
    }
    if kind is Frame && exists|window_id: WebviewId| #[trigger]
        is_open(state.windows, window_id) && quits_in_frame(outside, window_id) {
        let window_id = choose|window_id: WebviewId| #[trigger]
            is_open(state.windows, window_id) && quits_in_frame(outside, window_id);
        assert(order.contains(window_id));
        let i = choose|i: int| 0 <= i < order.len() && order[i] == window_id;
        assert(quits_in_frame(outside, order[i]));
        assert(!state.windows.is_empty());
    }
}

/// The window whose context an action uses or tears down, if any.
pub open spec fn touched_window<B: Backend>(action: Action<B>) -> Option<WebviewId> {
    match action {
        Action::ExitIntegration(window_id) => Some(window_id),
        Action::DestroyPainter(window_id) => Some(window_id),
        _ => used_window(action),
    }
}

/// A window that is closed or was never there is left alone, whatever the event:
/// it is not drawn, changed, asked or torn down again.
#[verifier::spinoff_prover]
#[verifier::rlimit(30)]
pub proof fn law_closed_window_is_left_alone<B: Backend>(
    state: State<B>,
    platform: Platform,
    event: Event<B::Value>,
    order: Seq<WebviewId>,
    outside: Outside<B>,
    window_id: WebviewId,
)
    requires
        is_walk(order, state.windows),
        !is_open(state.windows, window_id),
    ensures
        forall|i: int|
            #![trigger loop_outcome(state, platform, event, order, outside).trace[i]]
            0 <= i < loop_outcome(state, platform, event, order, outside).trace.len()
                ==> touched_window(loop_outcome(state, platform, event, order, outside).trace[i])
                != Some(window_id),
{
    let outcome = loop_outcome(state, platform, event, order, outside);
    let own = event_outcome(state, platform, event, outside);
    let walked = walk_trace(order, walk_kind(platform, event), state.is_focused, outside);
    if !state.windows.is_empty() {
        lemma_walk_touches(order, walk_kind(platform, event), state.is_focused, outside);
        assert forall|i: int| 0 <= i < outcome.trace.len() implies touched_window(
            #[trigger] outcome.trace[i],
        ) != Some(window_id) by {
            if i < walked.len() {
                assert(outcome.trace[i] == walked[i]);
                assert(!order.contains(window_id));
            } else {
                assert(outcome.trace[i] == own.trace[i - walked.len()]);
            }
        }
    }
}

/// The walk touches the windows of its order only.
proof fn lemma_walk_touches<B: Backend>(
    order: Seq<WebviewId>,
    kind: WalkKind,
    is_focused: bool,
    outside: Outside<B>,
)
    ensures
        forall|i: int|
            #![trigger walk_trace(order, kind, is_focused, outside)[i]]
            0 <= i < walk_trace(order, kind, is_focused, outside).len() ==> (touched_window(
                walk_trace(order, kind, is_focused, outside)[i],
            ) matches Some(window_id) ==> order.contains(window_id)),
    decreases order.len(),
{
    let trace = walk_trace(order, kind, is_focused, outside);
    if order.len() > 0 {
        let first = window_walk_trace(order.first(), kind, is_focused, outside);
        let rest = walk_trace(order.drop_first(), kind, is_focused, outside);
        lemma_walk_touches(order.drop_first(), kind, is_focused, outside);
        assert forall|i: int| 0 <= i < trace.len() implies (touched_window(
            #[trigger] trace[i],
        ) matches Some(window_id) ==> order.contains(window_id)) by {
            if i < first.len() {
                assert(trace[i] == first[i]);
                assert(order.contains(order[0]));
            } else {
                assert(trace[i] == rest[i - first.len()]);
                if let Some(window_id) = touched_window(trace[i]) {
                    let j = choose|j: int|
                        0 <= j < order.drop_first().len() && order.drop_first()[j] == window_id;
                    assert(order[j + 1] == window_id);
                }
            }
        }
    }
}

/// A message to a window that is closed or was never there is lost.
pub proof fn law_message_lost<B: Backend>(
    state: State<B>,
    platform: Platform,
    window_id: WebviewId,
    message: WindowMessage<B::Value>,
    order: Seq<WebviewId>,
    outside: Outside<B>,
)
    requires
        !is_open(state.windows, window_id),
    ensures
        ({
            let event = Event::Message(window_id, message);
            let outcome = loop_outcome(state, platform, event, order, outside);
            outcome.trace.len() == 0 && outcome.state == state && !outcome.prevent_default
        }),
{
    lemma_no_walk(order, state.is_focused, outside);
}

/// A message by which an integration asks for a repaint makes just its window be
/// drawn again, if the window is still open.
pub proof fn law_repaint_request<B: Backend>(
    state: State<B>,
    platform: Platform,
    window_id: WebviewId,
    order: Seq<WebviewId>,
    outside: Outside<B>,
)
    ensures
        ({
            let event = Event::Message(window_id, WindowMessage::RequestRedraw);
            let outcome = loop_outcome(state, platform, event, order, outside);
            &&& outcome.state == state
            &&& outcome.trace == only_if(
                is_open(state.windows, window_id),
                seq![Action::<B>::Operate(window_id, WindowOperation::RequestRedraw)],
            )
        }),
{
    let event = Event::Message(window_id, WindowMessage::RequestRedraw);
    let outcome = loop_outcome(state, platform, event, order, outside);
    lemma_no_walk(order, state.is_focused, outside);
    assert(outcome.trace =~= only_if(
        is_open(state.windows, window_id),
        seq![Action::<B>::Operate(window_id, WindowOperation::RequestRedraw)],
    ));
}

/// Whether a message carries a channel for an answer.
pub open spec fn is_question<V>(message: WindowMessage<V>) -> bool {
    match message {
        WindowMessage::ScaleFactor | WindowMessage::InnerPosition | WindowMessage::OuterPosition
        | WindowMessage::InnerSize | WindowMessage::OuterSize | WindowMessage::IsFullscreen
        | WindowMessage::IsMaximized | WindowMessage::IsDecorated | WindowMessage::IsResizable
        | WindowMessage::IsVisible | WindowMessage::IsMenuVisible | WindowMessage::CurrentMonitor
        | WindowMessage::PrimaryMonitor | WindowMessage::AvailableMonitors
        | WindowMessage::RawWindowHandle | WindowMessage::Theme => true,
        _ => false,
    }
}

/// A question to an open window is answered, and exactly once, save that macOS
/// answers the question for the theme a second time. No other message is answered.
/// A message changes neither the windows nor the focus.
#[verifier::spinoff_prover]
#[verifier::rlimit(30)]
pub proof fn law_message_answered<B: Backend>(
    state: State<B>,
    platform: Platform,
    window_id: WebviewId,
    message: WindowMessage<B::Value>,
    order: Seq<WebviewId>,
    outside: Outside<B>,
)
    requires
        is_open(state.windows, window_id),
    ensures
        ({
            let event = Event::Message(window_id, message);
            let outcome = loop_outcome(state, platform, event, order, outside);
            let answers = outcome.trace.filter(|action: Action<B>| action is Answer);
            &&& outcome.state == state
            &&& !outcome.prevent_default
            &&& answers.len() == if !is_question(message) {
                0nat
            } else if platform is MacOs && message is Theme {
                2
            } else {
                1
            }
        }),
{
    let event = Event::Message(window_id, message);
    let outcome = loop_outcome(state, platform, event, order, outside);
    lemma_no_walk(order, state.is_focused, outside);
    let own = message_outcome(state, platform, window_id, message, outside).trace;
    assert(outcome.trace =~= own);
    reveal_with_fuel(Seq::filter, 4);
    if own.len() == 1 {
        assert(own.drop_last() =~= Seq::empty());
    } else if own.len() == 2 {
        assert(own.drop_last() =~= seq![own[0]]);
        assert(own.drop_last().drop_last() =~= Seq::empty());
    } else if own.len() == 3 {
        assert(own.drop_last() =~= seq![own[0], own[1]]);
        assert(own.drop_last().drop_last() =~= seq![own[0]]);
        assert(own.drop_last().drop_last().drop_last() =~= Seq::empty());
    }
}

/// A window that was set up is open under its label, with the context that it was
/// given and without menu items, and no other window is affected.
pub proof fn law_created_window<B: Backend>(
    state: State<B>,
    window_id: WebviewId,
    label: String,
    context: Box<GlutinWindowContext<B>>,
)
    ensures
        ({
            let created = state.with_window(window_id, label, context);
            &&& is_open(created.windows, window_id)
            &&& created.windows[window_id].label == label
            &&& created.windows[window_id].inner == Some(context)
            &&& created.windows[window_id].menu_items is None
            &&& created.is_focused == state.is_focused
            &&& forall|other: WebviewId|
                other != window_id ==> created.windows.contains_key(other)
                    == state.windows.contains_key(other)
            &&& forall|other: WebviewId|
                other != window_id && state.windows.contains_key(other)
                    ==> #[trigger] created.windows[other] == state.windows[other]
        }),
{
}

/// After the turn in which the request for a window was received, the window is
/// known under the id and the label of the request. It is open, unless the event of
/// that very turn was for it and closed it. Every window that was known is still
/// known.
pub proof fn law_request_opens_window<B: Backend>(
    state: State<B>,
    platform: Platform,
    payload: CreateWindowPayload<B>,
    event: Event<B::Value>,
    outside: Outside<B>,
    choice: Choice<B>,
)
    ensures
        ({
            let outcome = request_outcome(state, platform, payload, event, outside, choice);
            let after = outcome.state.windows;
            let for_it = event is WindowEvent && outside.reply(Action::LookUpWindow)->WindowId_0
                == payload.window_id;
            &&& after.contains_key(payload.window_id)
            &&& after[payload.window_id].label == payload.label
            &&& !for_it ==> after[payload.window_id].inner == Some(choice.context)
            &&& after[payload.window_id].inner matches Some(context) ==> context == choice.context
            &&& state.windows.dom().subset_of(after.dom())
        }),
{
}

/// Each open window has its turn in the walk, whatever the order: there is a place
/// at which just what is to be done with it is done.
pub proof fn law_every_open_window_is_walked<B: Backend>(
    state: State<B>,
    platform: Platform,
    event: Event<B::Value>,
    order: Seq<WebviewId>,
    outside: Outside<B>,
    window_id: WebviewId,
)
    requires
        is_walk(order, state.windows),
        is_open(state.windows, window_id),
    ensures
        ({
            let outcome = loop_outcome(state, platform, event, order, outside);
            let own = window_walk_trace(
                window_id,
                walk_kind(platform, event),
                state.is_focused,
                outside,
            );
            exists|k: int|
                0 <= k <= outcome.trace.len() - own.len() && #[trigger] outcome.trace.subrange(
                    k,
                    k + own.len(),
                ) == own
        }),
{
    let kind = walk_kind(platform, event);
    let outcome = loop_outcome(state, platform, event, order, outside);
    let own = window_walk_trace(window_id, kind, state.is_focused, outside);
    let walked = walk_trace(order, kind, state.is_focused, outside);
    assert(order.contains(window_id));
    lemma_walk_contains(order, kind, state.is_focused, outside, window_id);
    let k = choose|k: int|
        0 <= k <= walked.len() - own.len() && #[trigger] walked.subrange(k, k + own.len()) == own;
    assert(outcome.trace.subrange(k, k + own.len()) =~= walked.subrange(k, k + own.len()));
}

/// Each window of the order has its turn.
proof fn lemma_walk_contains<B: Backend>(
    order: Seq<WebviewId>,
    kind: WalkKind,
    is_focused: bool,
    outside: Outside<B>,
    window_id: WebviewId,
)
    requires
        order.contains(window_id),
    ensures
        ({
            let walked = walk_trace(order, kind, is_focused, outside);
            let own = window_walk_trace(window_id, kind, is_focused, outside);
            exists|k: int|
                0 <= k <= walked.len() - own.len() && #[trigger] walked.subrange(k, k + own.len())
                    == own
        }),
    decreases order.len(),
{
    let walked = walk_trace(order, kind, is_focused, outside);
    let own = window_walk_trace(window_id, kind, is_focused, outside);
    let first = window_walk_trace(order.first(), kind, is_focused, outside);
    let rest = walk_trace(order.drop_first(), kind, is_focused, outside);
    assert(walked == first + rest);
    if order.first() == window_id {
        assert(walked.subrange(0, 0 + own.len() as int) =~= own);
    } else {
        let j = choose|j: int| 0 <= j < order.len() && order[j] == window_id;
        assert(order.drop_first()[j - 1] == window_id);
        lemma_walk_contains(order.drop_first(), kind, is_focused, outside, window_id);
        let k = choose|k: int|
            0 <= k <= rest.len() - own.len() && #[trigger] rest.subrange(k, k + own.len()) == own;
        let at = first.len() + k;
        assert(walked.subrange(at, at + own.len()) =~= rest.subrange(k, k + own.len()));
    }
}

/// Dealing with a window on Linux a second time, while its render callback has left
/// nothing new, gives the same control flow. At the end of the main events that is the
/// one that the callback has left, whatever it was before.
pub proof fn law_linux_gl_loop_twice<V>(
    event: Event<V>,
    render_flow: u8,
    control_flow: ControlFlow,
)
    requires
        event is MainEventsCleared ==> flow_of(render_flow) is Some,
    ensures
        ({
            let once = linux_control_flow(event, render_flow, control_flow);
            &&& linux_control_flow(event, render_flow, once) == once
            &&& event is MainEventsCleared ==> Some(once) == flow_of(render_flow)
            &&& !(event is MainEventsCleared) ==> once == control_flow
        }),
{
}

/// When Linux has walked its windows, the control flow is the one that the render
/// callback of the last of them left.
pub proof fn law_linux_control_flow<B: Backend>(
    state: State<B>,
    order: Seq<WebviewId>,
    outside: Outside<B>,
)
    requires
        is_walk(order, state.windows),
        order.len() > 0,
    ensures
        ({
            let event = Event::MainEventsCleared;
            let outcome = loop_outcome(state, Platform::Linux, event, order, outside);
            outcome.trace.last() == Action::<B>::SetControlFlow(
                flow_of(outside.reply(Action::LoadRenderFlow(order.last()))->RenderFlow_0)->0,
            )
        }),
{
    let event = Event::<B::Value>::MainEventsCleared;
    let outcome = loop_outcome(state, Platform::Linux, event, order, outside);
    let walked = walk_trace(order, WalkKind::QueueRender, state.is_focused, outside);
    assert(order.contains(order[0]));
    assert(is_open(state.windows, order[0]));
    assert(!state.windows.is_empty());
    lemma_last_flow(order, state.is_focused, outside);
    assert(outcome.trace =~= walked);
}

/// The last action of a walk sets the control flow of the last window.
proof fn lemma_last_flow<B: Backend>(order: Seq<WebviewId>, is_focused: bool, outside: Outside<B>)
    requires
        order.len() > 0,
    ensures
        ({
            let walked = walk_trace(order, WalkKind::QueueRender, is_focused, outside);
            walked.len() > 0 && walked.last() == Action::<B>::SetControlFlow(
                flow_of(outside.reply(Action::LoadRenderFlow(order.last()))->RenderFlow_0)->0,
            )
        }),
    decreases order.len(),
{
    let rest = walk_trace(order.drop_first(), WalkKind::QueueRender, is_focused, outside);
    if order.len() > 1 {
        lemma_last_flow(order.drop_first(), is_focused, outside);
        assert(order.drop_first().last() == order.last());
    } else {
        assert(rest =~= Seq::empty());
    }
}

/// Whether the answer to an action can turn out one way or another.
pub open spec fn asks<B: Backend>(action: Action<B>) -> bool {
    match action {
        Action::Setup(_, step) => step is HandOver,
        Action::Frame(_, action) => action is Update || action is AskShouldQuit,
        Action::AskAppName(_, _) | Action::LoadRenderFlow(_) | Action::LookUpWindow
        | Action::ReceiveCloseSignal | Action::AskShouldQuit(_) | Action::TranslateEvent | Action::Query(_, _) => true,
        _ => false,
    }
}

/// Whether nothing is asked twice.
pub open spec fn asks_once<B: Backend>(trace: Seq<Action<B>>) -> bool {
    forall|i: int, j: int|
        #![trigger trace[i], trace[j]]
        0 <= i < j < trace.len() && asks(trace[i]) ==> trace[i] != trace[j]
}

/// An action that asks nothing has only one proper answer.
pub proof fn law_only_questions_are_open<B: Backend>(
    platform: Platform,
    action: Action<B>,
    one: Reply<B>,
    other: Reply<B>,
)
    requires
        !asks(action),
        is_answer(platform, action, one),
        is_answer(platform, action, other),
    ensures
        one == other,
{
}

/// A turn asks nothing twice. So how each question is answered is all there is to
/// know of the outside.
pub proof fn law_asks_once<B: Backend>(
    state: State<B>,
    platform: Platform,
    event: Event<B::Value>,
    order: Seq<WebviewId>,
    outside: Outside<B>,
)
    requires
        is_walk(order, state.windows),
    ensures
        asks_once(loop_outcome(state, platform, event, order, outside).trace),
{
    let outcome = loop_outcome(state, platform, event, order, outside);
    let kind = walk_kind(platform, event);
    let own = event_outcome(state, platform, event, outside).trace;
    if !state.windows.is_empty() {
        if kind is Nothing {
            lemma_no_walk(order, state.is_focused, outside);
            assert(outcome.trace =~= own);
            if let Event::WindowEvent(event) = event {
                lemma_window_event_asks_once(state, event, outside);
            }
        } else {
            lemma_walk_asks_once(order, kind, state.is_focused, outside);
            assert(outcome.trace =~= walk_trace(order, kind, state.is_focused, outside));
        }
    }
}

/// A turn in which a window is set up asks nothing twice.
pub proof fn law_request_asks_once<B: Backend>(
    state: State<B>,
    platform: Platform,
    payload: CreateWindowPayload<B>,
    event: Event<B::Value>,
    outside: Outside<B>,
    choice: Choice<B>,
)
    requires
        is_walk(
            choice.order@,
            state.with_window(payload.window_id, payload.label, choice.context).windows,
        ),
    ensures
        asks_once(request_outcome(state, platform, payload, event, outside, choice).trace),
{
    let created = state.with_window(payload.window_id, payload.label, choice.context);
    let setup = setup_trace(platform, payload, outside);
    let rest = loop_outcome(created, platform, event, choice.order@, outside).trace;
    let whole = request_outcome(state, platform, payload, event, outside, choice).trace;
    law_asks_once(created, platform, event, choice.order@, outside);
    lemma_loop_sets_nothing_up(created, platform, event, choice.order@, outside);
    assert forall|i: int, j: int|
        #![trigger whole[i], whole[j]]
        0 <= i < j < whole.len() && asks(whole[i]) implies whole[i] != whole[j] by {
        if i >= setup.len() {
            assert(whole[i] == rest[i - setup.len()]);
            assert(whole[j] == rest[j - setup.len()]);
        } else {
            assert(whole[i] == setup[i]);
            assert((i == 0 || i == 2) && setup[i] is AskAppName || i == setup.len() - 1
                && setup[i] is Setup);
            if j < setup.len() {
                assert(whole[j] == setup[j]);
            } else {
                assert(whole[j] == rest[j - setup.len()]);
            }
        }
    }
}

/// Whether an action is part of the setup of a window.
spec fn is_setup<B: Backend>(action: Action<B>) -> bool {
    match action {
        Action::AskAppName(_, _) | Action::OpenPersistence { .. } | Action::BuildContext { .. }
        | Action::CreateIntegration { .. } | Action::ConnectRender { .. } | Action::Setup(_, _) => true,
        _ => false,
    }
}

/// Handling an event does no step of a setup.
proof fn lemma_loop_sets_nothing_up<B: Backend>(
    state: State<B>,
    platform: Platform,
    event: Event<B::Value>,
    order: Seq<WebviewId>,
    outside: Outside<B>,
)
    ensures
        ({
            let trace = loop_outcome(state, platform, event, order, outside).trace;
            forall|i: int| 0 <= i < trace.len() ==> !is_setup(#[trigger] trace[i])
        }),
{
    let trace = loop_outcome(state, platform, event, order, outside).trace;
    let kind = walk_kind(platform, event);
    let walked = walk_trace(order, kind, state.is_focused, outside);
    let own = event_outcome(state, platform, event, outside).trace;
    lemma_walk_sets_nothing_up(order, kind, state.is_focused, outside);
    if !state.windows.is_empty() {
        assert forall|i: int| 0 <= i < trace.len() implies !is_setup(#[trigger] trace[i]) by {
            if i < walked.len() {
                assert(trace[i] == walked[i]);
            } else {
                assert(trace[i] == own[i - walked.len()]);
            }
        }
    }
}

/// A walk does no step of a setup.
proof fn lemma_walk_sets_nothing_up<B: Backend>(
    order: Seq<WebviewId>,
    kind: WalkKind,
    is_focused: bool,
    outside: Outside<B>,
)
    ensures
        ({
            let walked = walk_trace(order, kind, is_focused, outside);
            forall|i: int| 0 <= i < walked.len() ==> !is_setup(#[trigger] walked[i])
        }),
    decreases order.len(),
{
    if order.len() > 0 {
        let walked = walk_trace(order, kind, is_focused, outside);
        let first = window_walk_trace(order.first(), kind, is_focused, outside);
        let rest = walk_trace(order.drop_first(), kind, is_focused, outside);
        lemma_walk_sets_nothing_up(order.drop_first(), kind, is_focused, outside);
        assert forall|i: int| 0 <= i < walked.len() implies !is_setup(#[trigger] walked[i]) by {
            if i < first.len() {
                assert(walked[i] == first[i]);
            } else {
                assert(walked[i] == rest[i - first.len()]);
            }
        }
    }
}

/// The event of a window asks nothing twice.
#[verifier::spinoff_prover]
#[verifier::rlimit(30)]
proof fn lemma_window_event_asks_once<B: Backend>(
    state: State<B>,
    event: WindowEvent,
    outside: Outside<B>,
)
    ensures
        asks_once(window_event_outcome(state, event, outside).trace),
{
    let trace = window_event_outcome(state, event, outside).trace;
    let window_id = outside.reply(Action::LookUpWindow)->WindowId_0;
    if state.windows.contains_key(window_id) {
        let label = state.windows[window_id].label;
        let open = is_open(state.windows, window_id);
        let prevented = prevents_close(outside);
        let delivered = open && !(event is CloseRequested && !prevented);
        let head: Seq<Action<B>> = seq![Action::LookUpWindow] + only_if(
            event is Resized && open,
            seq![Action::Resize { window_id, width: event->width, height: event->height }],
        );
        let close: Seq<Action<B>> = only_if(
            event is CloseRequested,
            close_trace(window_id, label, open, prevented),
        );
        let delivery: Seq<Action<B>> = only_if(
            delivered,
            delivery_trace(window_id, delivered && wants_to_quit(outside, window_id)),
        );
        let forward = forward_trace(window_id, label, outside);
        assert(trace == head + close + delivery + forward);
        let a: int = head.len() as int;
        let b: int = a + close.len();
        let c: int = b + delivery.len();
        assert forall|i: int, j: int|
            #![trigger trace[i], trace[j]]
            0 <= i < j < trace.len() && asks(trace[i]) implies trace[i] != trace[j] by {
            if i < a {
                assert(trace[i] == head[i]);
            } else if i < b {
                assert(trace[i] == close[i - a]);
            } else if i < c {
                assert(trace[i] == delivery[i - b]);
            } else {
                assert(trace[i] == forward[i - c]);
            }
            if j < a {
                assert(trace[j] == head[j]);
            } else if j < b {
                assert(trace[j] == close[j - a]);
            } else if j < c {
                assert(trace[j] == delivery[j - b]);
            } else {
                assert(trace[j] == forward[j - c]);
            }
        }
    }
}

/// A frame asks each of its two questions once.
proof fn lemma_frame_asks_once<B: Backend>(
    window_id: WebviewId,
    is_focused: bool,
    needs_repaint: bool,
    should_quit: bool,
)
    ensures
        asks_once::<B>(
            frame_trace(window_id, window_frame(is_focused, needs_repaint, should_quit)),
        ),
{
    let frame = window_frame(is_focused, needs_repaint, should_quit);
    let trace = frame_trace::<B>(window_id, frame);
    let update: int = if is_focused {
        0
    } else {
        1
    };
    assert forall|i: int| 0 <= i < trace.len() && asks(#[trigger] trace[i]) implies {
        ||| i == update
        ||| i == update + 6 && trace[i] != trace[update]
    } by {
        assert(trace[i] == Action::<B>::Frame(window_id, frame[i]));
        assert(trace[update] == Action::<B>::Frame(window_id, frame[update]));
    }
}

/// A walk asks nothing twice.
proof fn lemma_walk_asks_once<B: Backend>(
    order: Seq<WebviewId>,
    kind: WalkKind,
    is_focused: bool,
    outside: Outside<B>,
)
    requires
        order.no_duplicates(),
    ensures
        asks_once(walk_trace(order, kind, is_focused, outside)),
    decreases order.len(),
{
    if order.len() > 0 {
        let window_id = order.first();
        let others = order.drop_first();
        let walked = walk_trace(order, kind, is_focused, outside);
        let first = window_walk_trace(window_id, kind, is_focused, outside);
        let rest = walk_trace(others, kind, is_focused, outside);
        lemma_walk_asks_once(others, kind, is_focused, outside);
        lemma_walk_touches(others, kind, is_focused, outside);
        lemma_frame_asks_once::<B>(
            window_id,
            is_focused,
            wants_repaint(outside, window_id),
            quits_in_frame(outside, window_id),
        );
        assert(asks_once(first));
        assert forall|i: int, j: int|
            #![trigger walked[i], walked[j]]
            0 <= i < j < walked.len() && asks(walked[i]) implies walked[i] != walked[j] by {
            if i >= first.len() {
                assert(walked[i] == rest[i - first.len()]);
                assert(walked[j] == rest[j - first.len()]);
            } else if j < first.len() {
                assert(walked[i] == first[i]);
                assert(walked[j] == first[j]);
            } else {
                assert(walked[i] == first[i]);
                assert(touched_window(first[i]) == Some(window_id));
                assert(walked[j] == rest[j - first.len()]);
                if touched_window(walked[j]) == Some(window_id) {
                    assert(others.contains(window_id));
                    let k = choose|k: int| 0 <= k < others.len() && others[k] == window_id;
                    assert(order[k + 1] == order[0]);
                }
            }
        }
    }
}

} // verus!
