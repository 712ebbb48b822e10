//! What the functions that are called from outside give for what they are given.

use crate::backend::{Backend, Platform, WebviewId};
use crate::frame::{ControlFlow, FrameReply};
use crate::message::{
    answer, answer_of, handle_message, handling, repaint_request, Answer, Handling, Query,
    QueryResult, WindowMessage,
};
use crate::plugin::{is_drawn, EguiPlugin, EguiPluginHandle, HandleAction, Window};
use crate::run::is_answer;
use crate::setup::{CreateWindowPayload, NameUse, SetupStep};
use crate::shared::{MaybeRc, MaybeRcCell};
use crate::turn::{
    create_gl_window, handle_gl_loop, handle_gl_loop_in_order, is_accepted, linux_control_flow,
    state_of, Action, Choice, Event, Reply, State, Turn, WindowStep,
};
use crate::window::{
    context_of, is_open, is_walk, open_windows, without_context, GlutinWindowContext, Parts,
    WindowWrapper,
};
use std::cell::RefCell;
use std::collections::HashMap;
use std::rc::Rc;
use vstd::prelude::*;

verus! {

/// A window that is asked for is sent as a request under the id that the asker is told,
/// with just what was asked for, and only then the event loop is woken up.
pub proof fn law_create_window<B: Backend>(
    handle: EguiPluginHandle<B>,
    label: String,
    app: B::App,
    native_options: B::Options,
    res: (Vec<HandleAction<B>>, Window<B>),
)
    requires
        call_ensures(
            EguiPluginHandle::<B>::create_window,
            (&handle, label, app, native_options),
            res,
        ),
    ensures
        is_drawn(res.1.id),
        cloned(handle.proxy, res.1.proxy),
        res.0@.len() == 2,
        res.0@[0] == HandleAction::<B>::Send(
            CreateWindowPayload { window_id: res.1.id, label, app, native_options },
        ),
        res.0@[1] is Wake,
{
}

/// The same for an id that is given: it is the id of the request and of the window.
pub proof fn law_create_window_with_id<B: Backend>(
    handle: EguiPluginHandle<B>,
    window_id: WebviewId,
    label: String,
    app: B::App,
    native_options: B::Options,
    res: (Vec<HandleAction<B>>, Window<B>),
)
    requires
        call_ensures(
            EguiPluginHandle::<B>::create_window_with_id,
            (&handle, window_id, label, app, native_options),
            res,
        ),
    ensures
        res.1.id == window_id,
        cloned(handle.proxy, res.1.proxy),
        res.0@.len() == 2,
        res.0@[0] == HandleAction::<B>::Send(
            CreateWindowPayload { window_id, label, app, native_options },
        ),
        res.0@[1] is Wake,
{
}

/// A handle reaches the plugin by clones of its proxy and of its sender.
pub proof fn law_handle<B: Backend>(plugin: EguiPlugin<B>, res: EguiPluginHandle<B>)
    requires
        call_ensures(EguiPlugin::<B>::handle, (&plugin,), res),
    ensures
        cloned(plugin.proxy, res.proxy),
        cloned(plugin.create_window_channel.0, res.create_window_tx),
{
}

/// A turn that received a request starts with the request, whatever the event: it holds
/// the application and asks for its name. The event is kept for later.
pub proof fn law_on_event_with_request<B: Backend>(
    plugin: EguiPlugin<B>,
    platform: Platform,
    payload: CreateWindowPayload<B>,
    event: Event<B::Value>,
    res: (Turn<B>, Action<B>),
)
    requires
        call_ensures(
            EguiPlugin::<B>::on_event,
            (&plugin, platform, Some(payload), event),
            res,
        ),
    ensures
        res.0.platform == platform,
        res.0.unnamed_app() == Some(payload.app),
        res.1 == Action::<B>::AskAppName(payload.window_id, NameUse::Persistence),
        plugin.state().step(res) == plugin.state().create_gl_window(platform, payload, event),
        plugin.state().windows == plugin.windows@,
        plugin.state().is_focused == plugin.is_focused,
{
    let state = plugin.state();
    assert(state.step(res) == state.create_gl_window(platform, payload, event));
    assert(state.step(res).turn == res.0);
}

/// A turn that received no request handles the event, walking just the open windows,
/// each once. Without any window it is over at once.
pub proof fn law_on_event_without_request<B: Backend>(
    plugin: EguiPlugin<B>,
    platform: Platform,
    event: Event<B::Value>,
    res: (Turn<B>, Action<B>),
)
    requires
        call_ensures(EguiPlugin::<B>::on_event, (&plugin, platform, None, event), res),
    ensures
        plugin.windows@.is_empty() ==> res.1 == (Action::<B>::Finish {
            prevent_default: false,
            should_quit: false,
        }),
        exists|order: Vec<WebviewId>| #[trigger]
            is_walk(order@, plugin.windows@) && plugin.state().step(res)
                == plugin.state().handle_gl_loop(platform, event, order),
{
    let state = plugin.state();
    let order = choose|order: Vec<WebviewId>| #[trigger]
        is_walk(order@, plugin.windows@) && state.step(res) == state.handle_gl_loop(
            platform,
            event,
            order,
        );
    assert(state.step(res).action == res.1);
}

/// Handling an event from outside the plugin is the same.
pub proof fn law_handle_gl_loop_walks<B: Backend>(
    windows: HashMap<WebviewId, WindowWrapper<B>>,
    platform: Platform,
    event: Event<B::Value>,
    order: Vec<WebviewId>,
    is_focused: bool,
    res: (Turn<B>, Action<B>),
    ordered: (Turn<B>, Action<B>),
)
    requires
        call_ensures(handle_gl_loop::<B>, (&windows, platform, event, is_focused), res),
        call_ensures(
            handle_gl_loop_in_order::<B>,
            (&windows, platform, event, order, is_focused),
            ordered,
        ),
    ensures
        windows@.is_empty() ==> res.1 == (Action::<B>::Finish {
            prevent_default: false,
            should_quit: false,
        }) && ordered.1 == res.1,
        exists|walked: Vec<WebviewId>| #[trigger]
            is_walk(walked@, windows@) && state_of(windows, is_focused).step(res) == state_of(
                windows,
                is_focused,
            ).handle_gl_loop(platform, event, walked),
        state_of(windows, is_focused).step(ordered) == state_of(
            windows,
            is_focused,
        ).handle_gl_loop(platform, event, order),
        state_of(windows, is_focused).windows == windows@,
        state_of(windows, is_focused).is_focused == is_focused,
{
    let state = state_of(windows, is_focused);
    let walked = choose|walked: Vec<WebviewId>| #[trigger]
        is_walk(walked@, windows@) && state.step(res) == state.handle_gl_loop(
            platform,
            event,
            walked,
        );
    assert(state.step(res).action == res.1);
    assert(state.step(ordered).action == ordered.1);
}

/// The setup of a window starts for the window of the request.
pub proof fn law_create_gl_window_starts<B: Backend>(
    state: State<B>,
    platform: Platform,
    payload: CreateWindowPayload<B>,
    event: Event<B::Value>,
    res: (Turn<B>, Action<B>),
)
    requires
        call_ensures(create_gl_window::<B>, (platform, payload, event), res),
    ensures
        res.0.platform == platform,
        res.0.unnamed_app() == Some(payload.app),
        res.1 == Action::<B>::AskAppName(payload.window_id, NameUse::Persistence),
        state.step(res) == state.create_gl_window(platform, payload, event),
{
    assert(state.step(res) == state.create_gl_window(platform, payload, event));
    assert(state.step(res).turn == res.0);
    assert(state.step(res).action == res.1);
}

/// While the application is asked for its name, the turn holds it, and from the building
/// of the window on it does not any more.
pub proof fn law_application_is_held<B: Backend>(
    state: State<B>,
    platform: Platform,
    payload: CreateWindowPayload<B>,
    event: Event<B::Value>,
    kept_as: String,
    title: String,
    choice: Choice<B>,
)
    ensures
        ({
            let ask = state.create_gl_window(platform, payload, event);
            let open = state.next(ask.turn, Reply::AppName(kept_as), choice);
            let again = state.next(open.turn, Reply::Done, choice);
            let build = state.next(again.turn, Reply::AppName(title), choice);
            &&& ask.turn.unnamed_app() == Some(payload.app)
            &&& open.turn.unnamed_app() == Some(payload.app)
            &&& again.turn.unnamed_app() == Some(payload.app)
            &&& build.turn.unnamed_app() is None
            &&& open.action == (Action::<B>::OpenPersistence {
                window_id: payload.window_id,
                app_name: kept_as,
            })
            &&& build.action is BuildContext
            &&& build.action->BuildContext_app == payload.app
            &&& build.action->BuildContext_title == title
        }),
{
}

/// While a window is torn down, the turn holds the context that the window had, and the
/// window has none any more.
pub proof fn law_context_is_held<B: Backend>(
    state: State<B>,
    platform: Platform,
    window_id: WebviewId,
    label: String,
    choice: Choice<B>,
)
    requires
        state.windows.contains_key(window_id),
        state.windows[window_id].inner is Some,
    ensures
        ({
            let menu = state.at_window(platform, window_id, label, WindowStep::ForgetMenu);
            let exit = state.next(menu.turn, Reply::Done, choice);
            let destroy = exit.state.next(exit.turn, Reply::Done, choice);
            let after = destroy.state.next(destroy.turn, Reply::Done, choice);
            &&& menu.action == Action::<B>::RemoveMenuListeners(window_id)
            &&& exit.action == Action::<B>::ExitIntegration(window_id)
            &&& exit.turn.torn_down() == Some(*state.windows[window_id].inner->0)
            &&& destroy.action == Action::<B>::DestroyPainter(window_id)
            &&& destroy.turn.torn_down() == Some(*state.windows[window_id].inner->0)
            &&& after.turn.torn_down() is None
            &&& exit.state.windows[window_id].inner is None
            &&& exit.state.windows[window_id].label == state.windows[window_id].label
            &&& exit.state.windows.dom() == state.windows.dom()
        }),
{
    let menu = state.at_window(platform, window_id, label, WindowStep::ForgetMenu);
    let exit = state.next(menu.turn, Reply::Done, choice);
    assert(exit.state.windows.dom() =~= state.windows.dom());
}

/// What the turn holds can be had from it.
pub proof fn law_held_values_are_lent<B: Backend>(
    turn: Turn<B>,
    app: Option<&B::App>,
    context: Option<&GlutinWindowContext<B>>,
)
    requires
        call_ensures(Turn::<B>::requested_app, (&turn,), app),
        call_ensures(Turn::<B>::closing_context, (&turn,), context),
    ensures
        app is Some <==> turn.unnamed_app() is Some,
        app is Some ==> *app->0 == turn.unnamed_app()->0,
        context is Some <==> turn.torn_down() is Some,
        context is Some ==> *context->0 == turn.torn_down()->0,
{
}

/// The open windows are those that are known and have a context. Each is named once.
pub proof fn law_open_windows<B: Backend>(
    windows: HashMap<WebviewId, WindowWrapper<B>>,
    order: Vec<WebviewId>,
    window_id: WebviewId,
)
    requires
        call_ensures(open_windows::<B>, (&windows,), order),
    ensures
        order@.contains(window_id) <==> windows@.contains_key(window_id)
            && windows@[window_id].inner is Some,
        forall|i: int, j: int| 0 <= i < j < order@.len() ==> order@[i] != order@[j],
{
    assert(order@.contains(window_id) <==> is_open(windows@, window_id));
}

/// Every order in which windows are walked names each window with a context once and
/// nothing else.
pub proof fn law_walks_are_complete<B: Backend>(
    order: Seq<WebviewId>,
    windows: Map<WebviewId, WindowWrapper<B>>,
    window_id: WebviewId,
)
    requires
        is_walk(order, windows),
    ensures
        order.contains(window_id) <==> windows.contains_key(window_id)
            && windows[window_id].inner is Some,
        forall|i: int, j: int| 0 <= i < j < order.len() ==> order[i] != order[j],
{
    assert(order.contains(window_id) <==> is_open(windows, window_id));
}

/// The context of a window is there just if the window is known and was not closed.
pub proof fn law_context_of<B: Backend>(
    plugin: EguiPlugin<B>,
    window_id: WebviewId,
    res: Option<&GlutinWindowContext<B>>,
    own: Option<&GlutinWindowContext<B>>,
)
    requires
        call_ensures(context_of::<B>, (&plugin.windows, window_id), res),
        call_ensures(EguiPlugin::<B>::context, (&plugin, window_id), own),
    ensures
        res is Some <==> plugin.windows@.contains_key(window_id)
            && plugin.windows@[window_id].inner is Some,
        res is Some ==> Some(*res->0) == Some(*plugin.windows@[window_id].inner->0),
        own is Some <==> res is Some,
        own is Some ==> *own->0 == *res->0,
{
}

/// Closing a window takes its context and nothing else: not its label or menu items, and
/// nothing of any other window. A window that is not known changes nothing.
pub proof fn law_closing_takes_the_context_only<B: Backend>(
    windows: Map<WebviewId, WindowWrapper<B>>,
    window_id: WebviewId,
    other: WebviewId,
)
    ensures
        ({
            let after = without_context(windows, window_id);
            &&& after.dom() == windows.dom()
            &&& windows.contains_key(window_id) ==> {
                &&& after[window_id].inner is None
                &&& after[window_id].label == windows[window_id].label
                &&& after[window_id].menu_items == windows[window_id].menu_items
            }
            &&& other != window_id && windows.contains_key(other) ==> after[other]
                == windows[other]
            &&& !windows.contains_key(window_id) ==> after == windows
        }),
{
    assert(without_context(windows, window_id).dom() =~= windows.dom());
}

/// A window is put together from its own parts: each stands where it belongs, owned or
/// shared as it was handed over.
pub proof fn law_parts_make_the_context<B: Backend>(parts: Parts<B>, res: GlutinWindowContext<B>)
    requires
        call_ensures(Parts::<B>::into_context, (parts,), res),
    ensures
        match parts {
            Parts::Owned { context, glow_context, painter, integration } => {
                &&& res.context == MaybeRc::Actual(context)
                &&& res.glow_context == MaybeRc::Actual(glow_context)
                &&& res.painter matches MaybeRcCell::Actual(cell) && call_ensures(
                    RefCell::<B::Painter>::new,
                    (painter,),
                    cell,
                )
                &&& res.integration matches MaybeRcCell::Actual(cell) && call_ensures(
                    RefCell::<B::Integration>::new,
                    (integration,),
                    cell,
                )
                &&& res.render_flow is None
            },
            Parts::Shared { context, glow_context, painter, integration, render_flow } => {
                &&& res.context == MaybeRc::Rc(context)
                &&& res.glow_context == MaybeRc::Rc(glow_context)
                &&& res.painter == MaybeRcCell::RcCell(painter)
                &&& res.integration == MaybeRcCell::RcCell(integration)
                &&& res.render_flow == Some(render_flow)
            },
        },
{
}

/// What happened when a window was handed over fits only if its context is made of the
/// parts and the walk is one of the windows that are open then.
pub proof fn law_choices_fit<B: Backend>(
    choice: Choice<B>,
    turn: Turn<B>,
    parts: Parts<B>,
    state: State<B>,
)
    requires
        turn.phase is Setup,
        choice.fits(turn, Reply::Parts(parts), state),
    ensures
        is_walk(choice.order@, state.windows),
        match parts {
            Parts::Owned { context, glow_context, painter, integration } => {
                &&& choice.context.context == MaybeRc::Actual(context)
                &&& choice.context.glow_context == MaybeRc::Actual(glow_context)
                &&& choice.context.painter.is_made_with(painter)
                &&& choice.context.integration.is_made_with(integration)
                &&& choice.context.render_flow is None
            },
            Parts::Shared { context, glow_context, painter, integration, render_flow } => {
                &&& choice.context.context == MaybeRc::Rc(context)
                &&& choice.context.glow_context == MaybeRc::Rc(glow_context)
                &&& choice.context.painter == MaybeRcCell::RcCell(painter)
                &&& choice.context.integration == MaybeRcCell::RcCell(integration)
                &&& choice.context.render_flow == Some(render_flow)
            },
        },
{
}

/// A value is the same whether it is owned or shared, and so is a cell.
pub proof fn law_sharing_changes_nothing<T>(
    value: T,
    shared: Rc<T>,
    cell: RefCell<T>,
    shared_cell: Rc<RefCell<T>>,
    new: MaybeRc<T>,
    new_cell: MaybeRcCell<T>,
)
    requires
        call_ensures(MaybeRc::<T>::new, (value,), new),
        call_ensures(MaybeRcCell::<T>::new, (value,), new_cell),
    ensures
        MaybeRc::Actual(value).value() == value,
        MaybeRc::Rc(shared).value() == *shared,
        MaybeRcCell::Actual(cell).cell() == cell,
        MaybeRcCell::RcCell(shared_cell).cell() == *shared_cell,
        new == MaybeRc::Actual(value),
        new.value() == value,
        new_cell matches MaybeRcCell::Actual(made) && call_ensures(
            RefCell::<T>::new,
            (value,),
            made,
        ),
{
}

/// Which answers an action admits: one that asks something admits just the answers to its
/// question, and any other just that it was done. The end of a turn admits none.
pub proof fn law_answers_of_actions<B: Backend>(
    platform: Platform,
    action: Action<B>,
    reply: Reply<B>,
)
    ensures
        is_answer(platform, action, reply) <==> match reply {
            Reply::AppName(_) => action is AskAppName,
            Reply::Parts(parts) => {
                &&& action matches Action::Setup(_, step) && step is HandOver
                &&& (parts is Shared) == (platform is Linux)
            },
            Reply::RenderFlow(number) => action is LoadRenderFlow && number <= 2,
            Reply::Frame(reply) => {
                &&& action matches Action::Frame(_, call) && match reply {
                    FrameReply::Updated { .. } => call is Update,
                    FrameReply::ShouldQuit(_) => call is AskShouldQuit,
                    FrameReply::Done => !(call is Update || call is AskShouldQuit),
                }
            },
            Reply::WindowId(_) => action is LookUpWindow,
            Reply::CloseSignal(_) => action is ReceiveCloseSignal,
            Reply::ShouldQuit(_) => action is AskShouldQuit,
            Reply::Translated(_) => action is TranslateEvent,
            Reply::Queried(result) => {
                action matches Action::Query(_, query) && query.accepts(result)
            },
            Reply::Done => !(action is AskAppName || action is LoadRenderFlow || action is Frame
                || action is LookUpWindow || action is ReceiveCloseSignal
                || action is AskShouldQuit || action is TranslateEvent || action is Query
                || action is Finish || (action matches Action::Setup(_, step)
                && step is HandOver)),
        },
{
}

/// A turn tells which replies it accepts.
pub proof fn law_is_accepted<B: Backend>(turn: Turn<B>, reply: Reply<B>, accepted: bool)
    requires
        call_ensures(is_accepted::<B>, (&turn, &reply), accepted),
    ensures
        accepted == turn.accepts(reply),
{
}

/// What a message comes down to, what is answered and what a repaint is asked for with
/// are what is said of them elsewhere.
pub proof fn law_messages_are_handled<V>(
    platform: Platform,
    message: WindowMessage<V>,
    handled: Handling<V>,
    result: QueryResult<V>,
    answered: Answer<V>,
    query: Query,
    fits: bool,
    window_id: WebviewId,
    request: (WebviewId, WindowMessage<V>),
)
    requires
        call_ensures(handle_message::<V>, (platform, message), handled),
        call_ensures(answer::<V>, (result,), answered),
        call_ensures(Query::is_answered_by::<V>, (&query, &result), fits),
        call_ensures(repaint_request::<V>, (window_id,), request),
    ensures
        handled == handling(platform, message),
        answered == answer_of(result),
        fits == query.accepts(result),
        request.0 == window_id,
        request.1 is RequestRedraw,
{
}

/// The answer to what a window said is what it said.
pub proof fn law_answer<V>(result: QueryResult<V>, answered: Answer<V>)
    requires
        call_ensures(answer::<V>, (result,), answered),
    ensures
        match result {
            QueryResult::Flag(flag) => answered == Answer::<V>::Flag(flag),
            QueryResult::Value(value) => answered == Answer::<V>::Value(value),
            QueryResult::Fullscreen(mode) => answered == Answer::<V>::Flag(mode is Some),
            QueryResult::Position(Some(position)) => {
                answered == Answer::<V>::Position(Ok(position))
            },
            QueryResult::Position(None) => answered is Position && answered->Position_0 is Err,
        },
{
}

/// On Linux the end of the main events takes over what the render callback has left, and
/// every other event leaves the control flow as it is.
pub proof fn law_linux_takes_over<V>(event: Event<V>, number: u8, before: ControlFlow)
    requires
        number <= 2,
    ensures
        ({
            let after = linux_control_flow(event, number, before);
            if event is MainEventsCleared {
                &&& after is Poll <==> number == 0
                &&& after is Wait <==> number == 1
                &&& after is Exit <==> number == 2
            } else {
                after == before
            }
        }),
{
}

/// The steps of a setup come one after the other, the render callback on Linux only.
pub proof fn law_setup_steps(platform: Platform)
    ensures
        SetupStep::BuildContext.next(platform) == Some(SetupStep::MapWindow),
        SetupStep::MapWindow.next(platform) == Some(SetupStep::LoadGl),
        SetupStep::LoadGl.next(platform) == Some(SetupStep::EnableFramebufferSrgb),
        SetupStep::EnableFramebufferSrgb.next(platform) == Some(SetupStep::CreatePainter),
        SetupStep::CreatePainter.next(platform) == Some(SetupStep::CreateIntegration),
        SetupStep::CreateIntegration.next(platform) == Some(SetupStep::InsertWindowListeners),
        SetupStep::InsertWindowListeners.next(platform) == Some(SetupStep::InsertMenuListeners),
        SetupStep::InsertMenuListeners.next(platform) == Some(SetupStep::ConnectRender)
            <==> platform is Linux,
        SetupStep::InsertMenuListeners.next(platform) == Some(SetupStep::HandOver)
            <==> !(platform is Linux),
        SetupStep::ConnectRender.next(platform) == Some(SetupStep::HandOver),
        SetupStep::HandOver.next(platform) is None,
{
}

/// What the plugin remembers is its windows and whether one of them has the focus, and a
/// turn keeps the ways by which the plugin is reached.
pub proof fn law_plugin_state<B: Backend>(plugin: EguiPlugin<B>, other: EguiPlugin<B>)
    ensures
        plugin.state().windows == plugin.windows@,
        plugin.state().is_focused == plugin.is_focused,
        plugin.same_channels(other) <==> plugin.proxy == other.proxy
            && plugin.create_window_channel == other.create_window_channel,
{
}

} // verus!
