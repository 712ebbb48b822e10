//! What holds over several turns.

use crate::backend::{Backend, Platform, WebviewId};
use crate::frame::{
    callback_frame, code_of, flow_of, painting, requested_flow, FrameAction,
    INITIAL_RENDER_FLOW,
};
use crate::laws::{law_event_only_closes, law_linux_control_flow, only_closes};
use crate::outcome::{
    event_outcome, frame_trace, loop_outcome, request_outcome, setup_trace, walk_trace,
    window_walk_trace,
};
use crate::run::Outside;
use crate::setup::{CreateWindowPayload, SetupStep};
use crate::turn::{walk_kind, Action, Choice, Event, Reply, State, WalkKind};
use crate::window::{is_open, is_walk};
use vstd::prelude::*;

verus! {

/// Whether an action changes the number that a render callback has left.
pub open spec fn writes_number<B: Backend>(action: Action<B>) -> bool {
    match action {
        Action::ConnectRender { .. } => true,
        Action::Frame(_, action) => action is StoreRenderFlow,
        _ => false,
    }
}

/// The numbers that the render callbacks have left, by window, after some actions.
pub open spec fn numbers_after<B: Backend>(
    numbers: Map<WebviewId, u8>,
    trace: Seq<Action<B>>,
) -> Map<WebviewId, u8>
    decreases trace.len(),
{
    if trace.len() == 0 {
        numbers
    } else {
        let before = numbers_after(numbers, trace.drop_last());
        match trace.last() {
            Action::ConnectRender { window_id, render_flow } => {
                before.insert(window_id, render_flow)
            },
            Action::Frame(window_id, FrameAction::StoreRenderFlow(code)) => {
                before.insert(window_id, code)
            },
            _ => before,
        }
    }
}

/// One call of the render callback of a window.
pub struct Render {
    /// Whether the window is still there.
    pub window_exists: bool,
    pub needs_repaint: bool,
    pub should_quit: bool,
}

/// What is done in some calls of the render callback of a window.
pub open spec fn renders_trace<B: Backend>(window_id: WebviewId, renders: Seq<Render>) -> Seq<
    Action<B>,
>
    decreases renders.len(),
{
    if renders.len() == 0 {
        Seq::empty()
    } else {
        let last = renders.last();
        renders_trace(window_id, renders.drop_last()) + frame_trace(
            window_id,
            callback_frame(last.window_exists, last.needs_repaint, last.should_quit),
        )
    }
}

/// The number that a render callback has left after some calls: that of the last one
/// that found its window.
pub open spec fn number_left(renders: Seq<Render>) -> u8
    decreases renders.len(),
{
    if renders.len() == 0 {
        INITIAL_RENDER_FLOW
    } else if renders.last().window_exists {
        code_of(requested_flow(renders.last().should_quit, renders.last().needs_repaint))
    } else {
        number_left(renders.drop_last())
    }
}

/// The number that the render callback of a new window has left is 1 before its first
/// frame. After a frame it is 0 if the application wants another one and does not want
/// to quit, and else 1. So it is never anything else.
pub proof fn law_render_flow_number<B: Backend>(
    payload: CreateWindowPayload<B>,
    outside: Outside<B>,
    numbers: Map<WebviewId, u8>,
    renders: Seq<Render>,
)
    ensures
        ({
            let set_up = setup_trace(Platform::Linux, payload, outside);
            let after = numbers_after(
                numbers,
                set_up + renders_trace(payload.window_id, renders),
            );
            let left = after[payload.window_id];
            &&& after.contains_key(payload.window_id)
            &&& left == number_left(renders)
            &&& left == 0 || left == 1
            &&& renders.len() == 0 ==> left == 1
            &&& renders.len() > 0 && renders.last().window_exists ==> left == (
            if renders.last().needs_repaint && !renders.last().should_quit {
                0u8
            } else {
                1u8
            })
        }),
    decreases renders.len(),
{
    let window_id = payload.window_id;
    let set_up = setup_trace(Platform::Linux, payload, outside);
    let whole = set_up + renders_trace(window_id, renders);
    if renders.len() == 0 {
        let connected = set_up.drop_last();
        assert(set_up.last() == Action::<B>::Setup(window_id, SetupStep::HandOver));
        assert(connected.last() == (Action::<B>::ConnectRender {
            window_id,
            render_flow: INITIAL_RENDER_FLOW,
        }));
        assert(numbers_after(numbers, set_up) == numbers_after(numbers, connected));
        assert(whole =~= set_up);
    } else {
        let last = renders.last();
        let earlier = set_up + renders_trace(window_id, renders.drop_last());
        let frame = frame_trace::<B>(
            window_id,
            callback_frame(last.window_exists, last.needs_repaint, last.should_quit),
        );
        law_render_flow_number(payload, outside, numbers, renders.drop_last());
        assert(whole =~= earlier + frame);
        lemma_numbers_in_turn(numbers, earlier, frame);
        lemma_render::<B>(numbers_after(numbers, earlier), window_id, last);
    }
}

/// A call of a render callback leaves its number, if it finds its window.
proof fn lemma_render<B: Backend>(
    numbers: Map<WebviewId, u8>,
    window_id: WebviewId,
    render: Render,
)
    ensures
        numbers_after::<B>(
            numbers,
            frame_trace(
                window_id,
                callback_frame(render.window_exists, render.needs_repaint, render.should_quit),
            ),
        ) == if render.window_exists {
            numbers.insert(
                window_id,
                code_of(requested_flow(render.should_quit, render.needs_repaint)),
            )
        } else {
            numbers
        },
{
    let frame = callback_frame(render.window_exists, render.needs_repaint, render.should_quit);
    let trace = frame_trace::<B>(window_id, frame);
    if render.window_exists {
        let stored = trace.drop_last();
        let painted = stored.drop_last();
        assert(frame.len() == 9);
        assert(trace.last() == Action::<B>::Frame(window_id, FrameAction::Autosave));
        assert(stored.last() == Action::<B>::Frame(
            window_id,
            FrameAction::StoreRenderFlow(
                code_of(requested_flow(render.should_quit, render.needs_repaint)),
            ),
        ));
        assert forall|i: int| 0 <= i < painted.len() implies !writes_number(
            #[trigger] painted[i],
        ) by {
            assert(painted[i] == Action::<B>::Frame(window_id, frame[i]));
            if i < 5 {
                assert(frame[i] == painting()[i]);
            } else {
                assert(frame[i] == FrameAction::AskShouldQuit);
            }
        }
        lemma_numbers_kept(numbers, painted);
        assert(numbers_after(numbers, trace) == numbers_after(numbers, stored));
    } else {
        assert(trace.len() == 0);
    }
}

/// Actions one after the other.
proof fn lemma_numbers_in_turn<B: Backend>(
    numbers: Map<WebviewId, u8>,
    first: Seq<Action<B>>,
    second: Seq<Action<B>>,
)
    ensures
        numbers_after(numbers, first + second) == numbers_after(
            numbers_after(numbers, first),
            second,
        ),
    decreases second.len(),
{
    if second.len() == 0 {
        assert(first + second =~= first);
    } else {
        lemma_numbers_in_turn(numbers, first, second.drop_last());
        assert((first + second).drop_last() =~= first + second.drop_last());
        assert((first + second).last() == second.last());
    }
}

/// Actions that write no number keep all of them.
proof fn lemma_numbers_kept<B: Backend>(numbers: Map<WebviewId, u8>, trace: Seq<Action<B>>)
    requires
        forall|i: int| 0 <= i < trace.len() ==> !writes_number(#[trigger] trace[i]),
    ensures
        numbers_after(numbers, trace) == numbers,
    decreases trace.len(),
{
    if trace.len() > 0 {
        assert forall|i: int| 0 <= i < trace.drop_last().len() implies !writes_number(
            #[trigger] trace.drop_last()[i],
        ) by {
            assert(trace.drop_last()[i] == trace[i]);
        }
        lemma_numbers_kept(numbers, trace.drop_last());
        assert(!writes_number(trace[trace.len() - 1]));
    }
}

/// Handling an event changes no number that a render callback has left.
pub proof fn law_event_keeps_numbers<B: Backend>(
    state: State<B>,
    platform: Platform,
    event: Event<B::Value>,
    order: Seq<WebviewId>,
    outside: Outside<B>,
    numbers: Map<WebviewId, u8>,
)
    ensures
        numbers_after(numbers, loop_outcome(state, platform, event, order, outside).trace)
            == numbers,
{
    let trace = loop_outcome(state, platform, event, order, outside).trace;
    let kind = walk_kind(platform, event);
    let walked = walk_trace(order, kind, state.is_focused, outside);
    let own = event_outcome(state, platform, event, outside).trace;
    lemma_walk_writes_nothing(order, kind, state.is_focused, outside);
    assert forall|i: int| 0 <= i < trace.len() implies !writes_number(#[trigger] trace[i]) by {
        if i < walked.len() {
            assert(trace[i] == walked[i]);
        } else {
            assert(trace[i] == own[i - walked.len()]);
        }
    }
    lemma_numbers_kept(numbers, trace);
}

/// A walk writes no number.
proof fn lemma_walk_writes_nothing<B: Backend>(
    order: Seq<WebviewId>,
    kind: WalkKind,
    is_focused: bool,
    outside: Outside<B>,
)
    ensures
        ({
            let walked = walk_trace(order, kind, is_focused, outside);
            forall|i: int| 0 <= i < walked.len() ==> !writes_number(#[trigger] walked[i])
        }),
    decreases order.len(),
{
    if order.len() > 0 {
        let walked = walk_trace(order, kind, is_focused, outside);
        let first = window_walk_trace(order.first(), kind, is_focused, outside);
        let rest = walk_trace(order.drop_first(), kind, is_focused, outside);
        lemma_walk_writes_nothing(order.drop_first(), kind, is_focused, outside);
        assert forall|i: int| 0 <= i < walked.len() implies !writes_number(
            #[trigger] walked[i],
        ) by {
            if i < first.len() {
                assert(walked[i] == first[i]);
            } else {
                assert(walked[i] == rest[i - first.len()]);
            }
        }
    }
}

/// Whether the outside reads these numbers where render callbacks have left them.
pub open spec fn reads<B: Backend>(outside: Outside<B>, numbers: Map<WebviewId, u8>) -> bool {
    forall|window_id: WebviewId| #[trigger]
        numbers.contains_key(window_id) ==> outside.reply(Action::LoadRenderFlow(window_id))
            == Reply::<B>::RenderFlow(numbers[window_id])
}

/// Linux deals with a window twice, without a frame in between. Neither time changes
/// the number that its render callback has left, and both do the same: the control flow
/// that they set is the one that stands behind the number.
pub proof fn law_second_tick_of_window<B: Backend>(
    window_id: WebviewId,
    is_focused: bool,
    outside: Outside<B>,
    second_outside: Outside<B>,
    numbers: Map<WebviewId, u8>,
)
    requires
        numbers.contains_key(window_id),
        reads(outside, numbers),
        reads(
            second_outside,
            numbers_after(
                numbers,
                window_walk_trace(window_id, WalkKind::QueueRender, is_focused, outside),
            ),
        ),
    ensures
        ({
            let kind = WalkKind::QueueRender;
            let one = window_walk_trace(window_id, kind, is_focused, outside);
            let two = window_walk_trace(window_id, kind, is_focused, second_outside);
            &&& numbers_after(numbers, one) == numbers
            &&& numbers_after(numbers, one + two) == numbers
            &&& two == one
            &&& one.last() == Action::<B>::SetControlFlow(flow_of(numbers[window_id])->0)
        }),
{
    let kind = WalkKind::QueueRender;
    let one = window_walk_trace(window_id, kind, is_focused, outside);
    let two = window_walk_trace(window_id, kind, is_focused, second_outside);
    lemma_numbers_kept(numbers, one);
    lemma_numbers_kept(numbers, two);
    lemma_numbers_in_turn(numbers, one, two);
}

/// Linux handles the end of the main events twice, without a frame in between. No
/// number changes, and each window is dealt with in the same way. So the control flow
/// is the same in the end if the walk ends with the same window, and everything is the
/// same if its order is.
pub proof fn law_second_tick<B: Backend>(
    state: State<B>,
    order: Seq<WebviewId>,
    outside: Outside<B>,
    second_order: Seq<WebviewId>,
    second_outside: Outside<B>,
    numbers: Map<WebviewId, u8>,
)
    requires
        is_walk(order, state.windows),
        is_walk(second_order, state.windows),
        forall|window_id: WebviewId| #[trigger]
            is_open(state.windows, window_id) ==> numbers.contains_key(window_id),
        reads(outside, numbers),
        reads(
            second_outside,
            numbers_after(
                numbers,
                loop_outcome(
                    state,
                    Platform::Linux,
                    Event::MainEventsCleared,
                    order,
                    outside,
                ).trace,
            ),
        ),
    ensures
        ({
            let event = Event::MainEventsCleared;
            let one = loop_outcome(state, Platform::Linux, event, order, outside);
            let two = loop_outcome(
                one.state,
                Platform::Linux,
                event,
                second_order,
                second_outside,
            );
            &&& one.state == state
            &&& two.state == state
            &&& numbers_after(numbers, one.trace) == numbers
            &&& numbers_after(numbers_after(numbers, one.trace), two.trace) == numbers
            &&& forall|window_id: WebviewId| #[trigger]
                is_open(state.windows, window_id) ==> window_walk_trace(
                    window_id,
                    WalkKind::QueueRender,
                    state.is_focused,
                    outside,
                ) == window_walk_trace(
                    window_id,
                    WalkKind::QueueRender,
                    state.is_focused,
                    second_outside,
                )
            &&& order.len() > 0 && second_order.len() > 0 && order.last() == second_order.last()
                ==> two.trace.last() == one.trace.last()
            &&& second_order == order ==> two.trace == one.trace
        }),
{
    let event = Event::<B::Value>::MainEventsCleared;
    let one = loop_outcome(state, Platform::Linux, event, order, outside);
    let two = loop_outcome(one.state, Platform::Linux, event, second_order, second_outside);
    law_event_keeps_numbers(state, Platform::Linux, event, order, outside, numbers);
    law_event_keeps_numbers(
        one.state,
        Platform::Linux,
        event,
        second_order,
        second_outside,
        numbers,
    );
    assert(one.state == state);
    if order.len() > 0 && second_order.len() > 0 {
        law_linux_control_flow(state, order, outside);
        law_linux_control_flow(state, second_order, second_outside);
        assert(order.contains(order[order.len() - 1]));
        assert(is_open(state.windows, order.last()));
    }
    if second_order == order {
        assert forall|i: int| 0 <= i < order.len() implies numbers.contains_key(
            #[trigger] order[i],
        ) by {
            assert(order.contains(order[i]));
            assert(is_open(state.windows, order[i]));
        }
        lemma_same_walk(order, state.is_focused, outside, second_outside, numbers);
    }
}

/// The same numbers make the same walk.
proof fn lemma_same_walk<B: Backend>(
    order: Seq<WebviewId>,
    is_focused: bool,
    outside: Outside<B>,
    other: Outside<B>,
    numbers: Map<WebviewId, u8>,
)
    requires
        forall|i: int| 0 <= i < order.len() ==> numbers.contains_key(#[trigger] order[i]),
        reads(outside, numbers),
        reads(other, numbers),
    ensures
        walk_trace(order, WalkKind::QueueRender, is_focused, outside) == walk_trace(
            order,
            WalkKind::QueueRender,
            is_focused,
            other,
        ),
    decreases order.len(),
{
    if order.len() > 0 {
        assert(numbers.contains_key(order[0]));
        assert forall|i: int| 0 <= i < order.drop_first().len() implies numbers.contains_key(
            #[trigger] order.drop_first()[i],
        ) by {
            assert(order.drop_first()[i] == order[i + 1]);
        }
        lemma_same_walk(order.drop_first(), is_focused, outside, other, numbers);
    }
}

/// The windows that have event listeners after some actions. None ever loses them.
pub open spec fn listeners_after<B: Backend>(
    listeners: Set<WebviewId>,
    trace: Seq<Action<B>>,
) -> Set<WebviewId>
    decreases trace.len(),
{
    if trace.len() == 0 {
        listeners
    } else {
        let before = listeners_after(listeners, trace.drop_last());
        match trace.last() {
            Action::Setup(window_id, SetupStep::InsertWindowListeners) => before.insert(window_id),
            _ => before,
        }
    }
}

/// The window whose event listeners an action calls, if it calls any.
pub open spec fn notified_window<B: Backend>(action: Action<B>) -> Option<WebviewId> {
    match action {
        Action::NotifyClose(window_id) => Some(window_id),
        Action::NotifyListeners(window_id) => Some(window_id),
        _ => None,
    }
}

/// If every known window has event listeners before an event, every known window has
/// them after it, and only windows that have them are looked up for them.
pub proof fn law_event_keeps_listeners<B: Backend>(
    state: State<B>,
    platform: Platform,
    event: Event<B::Value>,
    order: Seq<WebviewId>,
    outside: Outside<B>,
    listeners: Set<WebviewId>,
)
    requires
        state.windows.dom().subset_of(listeners),
    ensures
        ({
            let outcome = loop_outcome(state, platform, event, order, outside);
            &&& listeners_after(listeners, outcome.trace) == listeners
            &&& outcome.state.windows.dom().subset_of(listeners_after(listeners, outcome.trace))
            &&& forall|i: int|
                0 <= i < outcome.trace.len() ==> (notified_window(
                    #[trigger] outcome.trace[i],
                ) matches Some(window_id) ==> listeners.contains(window_id))
        }),
{
    let outcome = loop_outcome(state, platform, event, order, outside);
    let kind = walk_kind(platform, event);
    let walked = walk_trace(order, kind, state.is_focused, outside);
    let own = event_outcome(state, platform, event, outside).trace;
    law_event_only_closes(state, platform, event, order, outside);
    lemma_walk_and_listeners(order, kind, state.is_focused, outside);
    lemma_event_and_listeners(state, platform, event, outside);
    assert forall|i: int| 0 <= i < outcome.trace.len() implies !(
    #[trigger] outcome.trace[i] is Setup) && (notified_window(outcome.trace[i]) matches Some(
        window_id,
    ) ==> listeners.contains(window_id)) by {
        if i < walked.len() {
            assert(outcome.trace[i] == walked[i]);
        } else {
            assert(outcome.trace[i] == own[i - walked.len()]);
            if let Some(window_id) = notified_window(outcome.trace[i]) {
                assert(state.windows.dom().contains(window_id));
            }
        }
    }
    lemma_listeners_kept(listeners, outcome.trace);
}

/// If every known window has event listeners before a turn in which a request for a
/// window is received, every known window, the new one among them, has them after it.
/// Only windows that have them by then are looked up for them.
pub proof fn law_request_keeps_listeners<B: Backend>(
    state: State<B>,
    platform: Platform,
    payload: CreateWindowPayload<B>,
    event: Event<B::Value>,
    outside: Outside<B>,
    choice: Choice<B>,
    listeners: Set<WebviewId>,
)
    requires
        state.windows.dom().subset_of(listeners),
    ensures
        ({
            let outcome = request_outcome(state, platform, payload, event, outside, choice);
            &&& listeners_after(listeners, outcome.trace) == listeners.insert(payload.window_id)
            &&& outcome.state.windows.dom().subset_of(listeners_after(listeners, outcome.trace))
            &&& forall|i: int|
                0 <= i < outcome.trace.len() ==> (notified_window(
                    #[trigger] outcome.trace[i],
                ) matches Some(window_id) ==> listeners_after(
                    listeners,
                    outcome.trace.take(i),
                ).contains(window_id))
        }),
{
    let window_id = payload.window_id;
    let outcome = request_outcome(state, platform, payload, event, outside, choice);
    let created = state.with_window(window_id, payload.label, choice.context);
    let set_up = setup_trace(platform, payload, outside);
    let rest = loop_outcome(created, platform, event, choice.order@, outside).trace;
    let begun = set_up.take(9);
    let ended = set_up.skip(10);
    let extended = listeners.insert(window_id);
    lemma_listeners_kept(listeners, begun);
    lemma_listeners_kept(extended, ended);
    let inserted = begun.push(Action::Setup(window_id, SetupStep::InsertWindowListeners));
    assert(inserted.drop_last() =~= begun);
    assert(listeners_after(listeners, inserted) == extended);
    assert(set_up =~= inserted + ended);
    lemma_listeners_in_turn(listeners, inserted, ended);
    lemma_listeners_in_turn(listeners, set_up, rest);
    assert(created.windows.dom().subset_of(extended));
    law_event_keeps_listeners(created, platform, event, choice.order@, outside, extended);
    assert forall|i: int| 0 <= i < outcome.trace.len() implies (notified_window(
        #[trigger] outcome.trace[i],
    ) matches Some(notified) ==> listeners_after(listeners, outcome.trace.take(i)).contains(
        notified,
    )) by {
        if i < set_up.len() {
            assert(outcome.trace[i] == set_up[i]);
        } else {
            let before = rest.take(i - set_up.len());
            assert(outcome.trace[i] == rest[i - set_up.len()]);
            assert(outcome.trace.take(i) =~= set_up + before);
            lemma_listeners_in_turn(listeners, set_up, before);
            lemma_listeners_grow(extended, before);
        }
    }
}

/// Actions one after the other.
proof fn lemma_listeners_in_turn<B: Backend>(
    listeners: Set<WebviewId>,
    first: Seq<Action<B>>,
    second: Seq<Action<B>>,
)
    ensures
        listeners_after(listeners, first + second) == listeners_after(
            listeners_after(listeners, first),
            second,
        ),
    decreases second.len(),
{
    if second.len() == 0 {
        assert(first + second =~= first);
    } else {
        lemma_listeners_in_turn(listeners, first, second.drop_last());
        assert((first + second).drop_last() =~= first + second.drop_last());
        assert((first + second).last() == second.last());
    }
}

/// No window loses its event listeners.
proof fn lemma_listeners_grow<B: Backend>(listeners: Set<WebviewId>, trace: Seq<Action<B>>)
    ensures
        listeners.subset_of(listeners_after(listeners, trace)),
    decreases trace.len(),
{
    if trace.len() > 0 {
        lemma_listeners_grow(listeners, trace.drop_last());
    }
}

/// Actions that give no window event listeners.
proof fn lemma_listeners_kept<B: Backend>(listeners: Set<WebviewId>, trace: Seq<Action<B>>)
    requires
        forall|i: int|
            0 <= i < trace.len() ==> !(#[trigger] trace[i] matches Action::Setup(_, step)
                && step is InsertWindowListeners),
    ensures
        listeners_after(listeners, trace) == listeners,
    decreases trace.len(),
{
    if trace.len() > 0 {
        assert forall|i: int| 0 <= i < trace.drop_last().len() implies !(
        #[trigger] trace.drop_last()[i] matches Action::Setup(_, step)
            && step is InsertWindowListeners) by {
            assert(trace.drop_last()[i] == trace[i]);
        }
        lemma_listeners_kept(listeners, trace.drop_last());
        assert(trace.last() == trace[trace.len() - 1]);
    }
}

/// An event itself calls the listeners of known windows only, and gives none any.
#[verifier::spinoff_prover]
#[verifier::rlimit(30)]
proof fn lemma_event_and_listeners<B: Backend>(
    state: State<B>,
    platform: Platform,
    event: Event<B::Value>,
    outside: Outside<B>,
)
    ensures
        ({
            let own = event_outcome(state, platform, event, outside).trace;
            forall|i: int|
                0 <= i < own.len() ==> !(#[trigger] own[i] is Setup) && (notified_window(
                    own[i],
                ) matches Some(window_id) ==> state.windows.contains_key(window_id))
        }),
{
}

/// A walk has nothing to do with event listeners.
proof fn lemma_walk_and_listeners<B: Backend>(
    order: Seq<WebviewId>,
    kind: WalkKind,
    is_focused: bool,
    outside: Outside<B>,
)
    ensures
        ({
            let walked = walk_trace(order, kind, is_focused, outside);
            forall|i: int|
                0 <= i < walked.len() ==> !(#[trigger] walked[i] is Setup) && notified_window(
                    walked[i],
                ) is None
        }),
    decreases order.len(),
{
    if order.len() > 0 {
        let walked = walk_trace(order, kind, is_focused, outside);
        let first = window_walk_trace(order.first(), kind, is_focused, outside);
        let rest = walk_trace(order.drop_first(), kind, is_focused, outside);
        lemma_walk_and_listeners(order.drop_first(), kind, is_focused, outside);
        assert forall|i: int| 0 <= i < walked.len() implies !(#[trigger] walked[i] is Setup)
            && notified_window(walked[i]) is None by {
            if i < first.len() {
                assert(walked[i] == first[i]);
            } else {
                assert(walked[i] == rest[i - first.len()]);
            }
        }
    }
}

/// What a turn meets with.
#[verifier::reject_recursive_types(B)]
pub struct Input<B: Backend> {
    pub event: Event<B::Value>,
    pub outside: Outside<B>,
    pub choice: Choice<B>,
}

/// The plugin between two turns.
pub struct Progress<B: Backend> {
    pub state: State<B>,
    /// The requests that were sent and not received yet, in the order in which they
    /// were sent.
    pub pending: Seq<CreateWindowPayload<B>>,
}

impl<B: Backend> Progress<B> {
    /// After another turn. It receives the request that was sent first, if there is
    /// any.
    pub open spec fn after_turn(self, platform: Platform, input: Input<B>) -> Progress<B> {
        if self.pending.len() > 0 {
            Progress {
                state: request_outcome(
                    self.state,
                    platform,
                    self.pending.first(),
                    input.event,
                    input.outside,
                    input.choice,
                ).state,
                pending: self.pending.drop_first(),
            }
        } else {
            Progress {
                state: loop_outcome(
                    self.state,
                    platform,
                    input.event,
                    input.choice.order@,
                    input.outside,
                ).state,
                ..self
            }
        }
    }

    /// After some turns.
    pub open spec fn after_turns(self, platform: Platform, inputs: Seq<Input<B>>) -> Progress<B>
        decreases inputs.len(),
    {
        if inputs.len() == 0 {
            self
        } else {
            self.after_turns(platform, inputs.drop_last()).after_turn(platform, inputs.last())
        }
    }
}

/// Each turn makes a window out of one pending request, in the order in which the
/// requests were sent, until none is left. A window stays known from then on, under the
/// label of its request, and its context is the one that its own turn put together,
/// unless the window was closed since. No other window comes up.
pub proof fn law_requests_in_order<B: Backend>(
    start: Progress<B>,
    platform: Platform,
    inputs: Seq<Input<B>>,
)
    requires
        forall|i: int, j: int|
            0 <= i < j < start.pending.len() ==> (#[trigger] start.pending[i]).window_id != (
            #[trigger] start.pending[j]).window_id,
        forall|i: int|
            0 <= i < start.pending.len() ==> !start.state.windows.contains_key(
                (#[trigger] start.pending[i]).window_id,
            ),
    ensures
        ({
            let after = start.after_turns(platform, inputs);
            let windows = after.state.windows;
            let received: int = if inputs.len() < start.pending.len() {
                inputs.len() as int
            } else {
                start.pending.len() as int
            };
            &&& after.pending == start.pending.skip(received)
            &&& forall|window_id: WebviewId| #[trigger]
                windows.contains_key(window_id) <==> {
                    ||| start.state.windows.contains_key(window_id)
                    ||| exists|i: int|
                        0 <= i < received && (#[trigger] start.pending[i]).window_id == window_id
                }
            &&& forall|window_id: WebviewId| #[trigger]
                start.state.windows.contains_key(window_id) ==> {
                    ||| windows[window_id] == start.state.windows[window_id]
                    ||| windows[window_id] == start.state.windows[window_id].closed()
                }
            &&& forall|i: int|
                0 <= i < received ==> {
                    let window = windows[(#[trigger] start.pending[i]).window_id];
                    &&& window.label == start.pending[i].label
                    &&& window.menu_items is None
                    &&& window.inner is None || window.inner == Some(inputs[i].choice.context)
                }
        }),
    decreases inputs.len(),
{
    let n: int = start.pending.len() as int;
    if inputs.len() == 0 {
        assert(start.pending.skip(0) =~= start.pending);
    } else {
        let earlier = inputs.drop_last();
        let input = inputs.last();
        let before = start.after_turns(platform, earlier);
        let after = start.after_turns(platform, inputs);
        law_requests_in_order(start, platform, earlier);
        let k: int = earlier.len() as int;
        if k < n {
            let payload = start.pending[k];
            let created = before.state.with_window(
                payload.window_id,
                payload.label,
                input.choice.context,
            );
            assert(before.pending == start.pending.skip(k));
            assert(before.pending.first() == payload);
            assert(before.pending.drop_first() =~= start.pending.skip(k + 1));
            law_event_only_closes(
                created,
                platform,
                input.event,
                input.choice.order@,
                input.outside,
            );
            assert(only_closes(created.windows, after.state.windows));
            assert(after.state.windows.dom() == created.windows.dom());
            assert forall|window_id: WebviewId| #[trigger]
                after.state.windows.contains_key(window_id) == (start.state.windows.contains_key(
                    window_id,
                ) || exists|i: int|
                    0 <= i < k + 1 && (#[trigger] start.pending[i]).window_id == window_id) by {
                assert(after.state.windows.dom().contains(window_id)
                    == created.windows.dom().contains(window_id));
                if window_id == payload.window_id {
                    assert(start.pending[k].window_id == window_id);
                } else {
                    assert(created.windows.contains_key(window_id)
                        == before.state.windows.contains_key(window_id));
                }
            }
            assert forall|window_id: WebviewId| #[trigger]
                start.state.windows.contains_key(window_id) implies {
                ||| after.state.windows[window_id] == start.state.windows[window_id]
                ||| after.state.windows[window_id] == start.state.windows[window_id].closed()
            } by {
                assert(before.state.windows.contains_key(window_id));
                assert(created.windows.contains_key(window_id));
            }
            assert forall|i: int| 0 <= i < k + 1 implies {
                let window = after.state.windows[(#[trigger] start.pending[i]).window_id];
                &&& window.label == start.pending[i].label
                &&& window.menu_items is None
                &&& window.inner is None || window.inner == Some(inputs[i].choice.context)
            } by {
                assert(created.windows.contains_key(start.pending[i].window_id)) by {
                    if i < k {
                        assert(before.state.windows.contains_key(start.pending[i].window_id));
                    }
                }
                if i < k {
                    assert(earlier[i] == inputs[i]);
                }
            }
        } else {
            assert(before.pending.len() == 0);
            law_event_only_closes(
                before.state,
                platform,
                input.event,
                input.choice.order@,
                input.outside,
            );
            assert forall|window_id: WebviewId| #[trigger]
                after.state.windows.contains_key(window_id)
                    == before.state.windows.contains_key(window_id) by {
                assert(after.state.windows.dom().contains(window_id)
                    == before.state.windows.dom().contains(window_id));
            }
            assert forall|window_id: WebviewId| #[trigger]
                start.state.windows.contains_key(window_id) implies {
                ||| after.state.windows[window_id] == start.state.windows[window_id]
                ||| after.state.windows[window_id] == start.state.windows[window_id].closed()
            } by {
                assert(before.state.windows.contains_key(window_id));
            }
            assert forall|i: int| 0 <= i < n implies {
                let window = after.state.windows[(#[trigger] start.pending[i]).window_id];
                &&& window.label == start.pending[i].label
                &&& window.menu_items is None
                &&& window.inner is None || window.inner == Some(inputs[i].choice.context)
            } by {
                assert(before.state.windows.contains_key(start.pending[i].window_id));
                assert(earlier[i] == inputs[i]);
            }
        }
    }
}

} // verus!
