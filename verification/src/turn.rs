//! One turn of the event loop.
//!
//! Handling an event alternates between decisions and calls into the windowing
//! and rendering libraries. A [`Turn`] makes the decisions: it hands out an
//! [`Action`], the caller performs it and reports the outcome as a [`Reply`] to
//! [`resume`], until the action is [`Action::Finish`].

use crate::backend::{Backend, Platform, WebviewId};
use crate::frame::{
    decode_render_flow, flow_of, ControlFlow, Frame, FrameAction, FrameReply, FrameTarget,
    INITIAL_RENDER_FLOW, UNFOCUSED_PAUSE_MILLIS,
};
use crate::message::{
    answer, answer_of, handle_message, handling, Answer, Handling, Query, QueryResult,
    WindowMessage, WindowOperation,
};
use crate::setup::{
    CreateWindowPayload, GlAttributes, NameUse, NamingStep, SetupStep, INTEGRATION_NAME,
};
use crate::window::{
    context_of, is_open, is_walk, open_windows, take_context, without_context,
    GlutinWindowContext, Parts, WindowWrapper,
};
use std::collections::HashMap;
use vstd::pervasive::unreached;
use vstd::prelude::*;

verus! {

/// An event of a window, as far as the plugin looks into it.
#[derive(Clone, Copy, Debug, PartialEq, Eq, Structural)]
pub enum WindowEvent {
    Focused(bool),
    Resized { width: u32, height: u32 },
    CloseRequested,
    Other,
}

/// An event of the event loop, as far as the plugin looks into it.
pub enum Event<V> {
    MainEventsCleared,
    RedrawEventsCleared,
    RedrawRequested,
    WindowEvent(WindowEvent),
    Message(WebviewId, WindowMessage<V>),
    Other,
}

/// Something that is to be done outside.
pub enum Action<B: Backend> {
    /// Ask the application that the turn holds for its name. Answered by
    /// [`Reply::AppName`].
    AskAppName(WebviewId, NameUse),
    /// Find what the application kept under the given name.
    OpenPersistence { window_id: WebviewId, app_name: String },
    /// Build the native window with the given options and title and its OpenGL
    /// context, and make the context current. The application is for the later steps.
    BuildContext {
        window_id: WebviewId,
        app: B::App,
        native_options: B::Options,
        title: String,
        attributes: GlAttributes,
    },
    /// Make the integration under the given name.
    CreateIntegration { window_id: WebviewId, name: &'static str },
    /// Make the drawing area draw frames in its render callback, for which
    /// `render_flow` is what the callback has left before the first of them.
    ConnectRender { window_id: WebviewId, render_flow: u8 },
    /// Do another step of the setup of a window.
    Setup(WebviewId, SetupStep),
    /// Queue a frame of the window's drawing area.
    QueueRender(WebviewId),
    /// Read the number that the window's render callback left. Answered by
    /// [`Reply::RenderFlow`].
    LoadRenderFlow(WebviewId),
    /// Set the control flow of the event loop.
    SetControlFlow(ControlFlow),
    /// Do a step of a frame of the window. Answered by [`Reply::Frame`].
    Frame(WebviewId, FrameAction),
    /// Look up the id of the window that the event is for. Answered by
    /// [`Reply::WindowId`].
    LookUpWindow,
    /// Resize the window's OpenGL context.
    Resize { window_id: WebviewId, width: u32, height: u32 },
    /// Tell the window's event listeners that it is about to close, each with a
    /// sender by which it can prevent that.
    NotifyClose(WebviewId),
    /// Tell the application's callback that the window is about to close, with a
    /// sender by which it can prevent that.
    CallbackClose { label: String },
    /// Receive the first signal that came back by one of those senders, without
    /// waiting for one. Answered by [`Reply::CloseSignal`].
    ReceiveCloseSignal,
    /// Forget the window's menu event listeners.
    RemoveMenuListeners(WebviewId),
    /// Tell the integration of the context that the turn holds that its window
    /// closes.
    ExitIntegration(WebviewId),
    /// Destroy the painter of the context that the turn holds.
    DestroyPainter(WebviewId),
    /// Hand the event to the window's integration.
    DeliverEvent(WebviewId),
    /// Ask whether the window's application wants to quit. Answered by
    /// [`Reply::ShouldQuit`].
    AskShouldQuit(WebviewId),
    /// Ask the window to be drawn again.
    RequestRedraw(WebviewId),
    /// Translate the event into one for listeners. Answered by
    /// [`Reply::Translated`].
    TranslateEvent,
    /// Hand the translated event to the application's callback.
    Callback { label: String },
    /// Hand the translated event to the window's event listeners.
    NotifyListeners(WebviewId),
    /// Ask the window something. Answered by [`Reply::Queried`].
    Query(WebviewId, Query),
    /// Send an answer on the channel of the message.
    Answer(Answer<B::Value>),
    /// Change the window.
    Operate(WebviewId, WindowOperation<B::Value>),
    /// The turn is over. `should_quit` says whether an application wanted to quit in
    /// a frame that was drawn in the turn.
    Finish { prevent_default: bool, should_quit: bool },
}

/// The outcome of an [`Action`].
pub enum Reply<B: Backend> {
    /// It was done.
    Done,
    /// The name of an application.
    AppName(String),
    /// The parts of a new window.
    Parts(Parts<B>),
    /// The number that a render callback left.
    RenderFlow(u8),
    /// The outcome of a step of a frame.
    Frame(FrameReply),
    /// The id of the window that the event is for.
    WindowId(WebviewId),
    /// What the first signal about closing the window says, if there is one: `true`
    /// prevents it.
    CloseSignal(Option<bool>),
    /// Whether the application wants to quit.
    ShouldQuit(bool),
    /// Whether the event has a translation.
    Translated(bool),
    /// What the window said.
    Queried(QueryResult<B::Value>),
}

/// What is going on with one of the windows that are being walked.
#[derive(Clone, Copy, Debug, PartialEq, Eq, Structural)]
pub enum WalkStep {
    QueueRender,
    LoadRenderFlow,
    SetControlFlow,
    Frame(Frame),
}

/// What is going on with the window that an event is for.
pub enum WindowStep<B: Backend> {
    Resize { width: u32, height: u32 },
    NotifyClose,
    CallbackClose,
    ReceiveCloseSignal,
    ForgetMenu,
    ExitIntegration(Box<GlutinWindowContext<B>>),
    DestroyPainter(Box<GlutinWindowContext<B>>),
    DeliverEvent,
    AskShouldQuit,
    QuitControlFlow,
    RequestRedraw { should_quit: bool },
    QuitMenu,
    TranslateEvent,
    Callback,
    NotifyListeners,
}

/// How far a turn has come.
#[allow(inconsistent_fields)]
pub enum Phase<B: Backend> {
    /// The application of a requested window is being asked for its name.
    Naming { payload: CreateWindowPayload<B>, event: Event<B::Value>, step: NamingStep },
    /// A new window is being set up.
    Setup { window_id: WebviewId, label: String, event: Event<B::Value>, step: SetupStep },
    /// The open windows are being walked.
    /// `should_quit` says whether an application of those that are done wanted to quit.
    Walk {
        event: Event<B::Value>,
        order: Vec<WebviewId>,
        at: usize,
        step: WalkStep,
        should_quit: bool,
    },
    /// The window that an event is for is being looked up.
    LookUp(WindowEvent),
    /// The event of a window is being handled.
    Window { window_id: WebviewId, label: String, step: WindowStep<B> },
    /// A window is being asked something.
    Query(Query),
    /// An answer is being sent.
    Answer { light_follows: bool },
    /// A window is being changed.
    Operate,
    /// The turn is over.
    Finished,
}

/// A turn of the event loop that is under way.
pub struct Turn<B: Backend> {
    pub platform: Platform,
    pub phase: Phase<B>,
}

/// What the plugin remembers from turn to turn.
pub struct State<B: Backend> {
    pub windows: Map<WebviewId, WindowWrapper<B>>,
    pub is_focused: bool,
}

/// A turn at the moment at which it hands out an action.
pub struct Step<B: Backend> {
    pub state: State<B>,
    pub turn: Turn<B>,
    pub action: Action<B>,
}

/// What is not fixed by a turn and a reply: the order in which the map of windows
/// is walked, and the cells that a new window gets.
pub struct Choice<B: Backend> {
    pub order: Vec<WebviewId>,
    pub context: Box<GlutinWindowContext<B>>,
}

/// What a turn does with each open window.
#[derive(Clone, Copy, Debug, PartialEq, Eq, Structural)]
pub enum WalkKind {
    Nothing,
    /// Queue a frame and take over the control flow of the last one.
    QueueRender,
    /// Draw a frame.
    Frame,
}

/// What an event makes the turn do with each open window. Linux leaves the
/// drawing to the render callback, Windows draws when all redraw events are
/// handled, and the others draw at each of them.
pub open spec fn walk_kind<V>(platform: Platform, event: Event<V>) -> WalkKind {
    match (platform, event) {
        (Platform::Linux, Event::MainEventsCleared) => WalkKind::QueueRender,
        (Platform::Windows, Event::RedrawEventsCleared) => WalkKind::Frame,
        (Platform::MacOs, Event::RedrawRequested) => WalkKind::Frame,
        (Platform::OtherUnix, Event::RedrawRequested) => WalkKind::Frame,
        _ => WalkKind::Nothing,
    }
}

/// The first step of a frame in a window.
pub open spec fn first_frame(is_focused: bool) -> Frame {
    Frame::at(
        FrameTarget::Window,
        if is_focused {
            FrameAction::Update
        } else {
            FrameAction::Pause { millis: UNFOCUSED_PAUSE_MILLIS }
        },
    )
}

/// What is to be done at a step of the setup of a window.
pub open spec fn setup_action<B: Backend>(window_id: WebviewId, step: SetupStep) -> Action<B> {
    match step {
        SetupStep::CreateIntegration => Action::CreateIntegration {
            window_id,
            name: INTEGRATION_NAME,
        },
        SetupStep::ConnectRender => Action::ConnectRender {
            window_id,
            render_flow: INITIAL_RENDER_FLOW,
        },
        _ => Action::Setup(window_id, step),
    }
}

/// What is to be done at a step of the walk.
pub open spec fn walk_action<B: Backend>(
    window_id: WebviewId,
    step: WalkStep,
    code: u8,
) -> Action<B> {
    match step {
        WalkStep::QueueRender => Action::QueueRender(window_id),
        WalkStep::LoadRenderFlow => Action::LoadRenderFlow(window_id),
        WalkStep::SetControlFlow => Action::SetControlFlow(flow_of(code)->0),
        WalkStep::Frame(frame) => Action::Frame(window_id, frame.action),
    }
}

/// What is to be done at a step of handling the event of a window.
pub open spec fn window_action<B: Backend>(
    window_id: WebviewId,
    label: String,
    step: WindowStep<B>,
) -> Action<B> {
    match step {
        WindowStep::Resize { width, height } => Action::Resize { window_id, width, height },
        WindowStep::NotifyClose => Action::NotifyClose(window_id),
        WindowStep::CallbackClose => Action::CallbackClose { label },
        WindowStep::ReceiveCloseSignal => Action::ReceiveCloseSignal,
        WindowStep::ForgetMenu => Action::RemoveMenuListeners(window_id),
        WindowStep::ExitIntegration(_) => Action::ExitIntegration(window_id),
        WindowStep::DestroyPainter(_) => Action::DestroyPainter(window_id),
        WindowStep::DeliverEvent => Action::DeliverEvent(window_id),
        WindowStep::AskShouldQuit => Action::AskShouldQuit(window_id),
        WindowStep::QuitControlFlow => Action::SetControlFlow(ControlFlow::Wait),
        WindowStep::RequestRedraw { .. } => Action::RequestRedraw(window_id),
        WindowStep::QuitMenu => Action::RemoveMenuListeners(window_id),
        WindowStep::TranslateEvent => Action::TranslateEvent,
        WindowStep::Callback => Action::Callback { label },
        WindowStep::NotifyListeners => Action::NotifyListeners(window_id),
    }
}

impl<B: Backend> State<B> {
    /// The turn is over.
    pub open spec fn end(
        self,
        platform: Platform,
        prevent_default: bool,
        should_quit: bool,
    ) -> Step<B> {
        Step {
            state: self,
            turn: Turn { platform, phase: Phase::Finished },
            action: Action::Finish { prevent_default, should_quit },
        }
    }

    /// The turn is over, and no application wanted to quit in a frame.
    pub open spec fn finish(self, platform: Platform, prevent_default: bool) -> Step<B> {
        self.end(platform, prevent_default, false)
    }

    /// The event of a window is at `step`.
    pub open spec fn at_window(
        self,
        platform: Platform,
        window_id: WebviewId,
        label: String,
        step: WindowStep<B>,
    ) -> Step<B> {
        Step {
            state: self,
            turn: Turn { platform, phase: Phase::Window { window_id, label, step } },
            action: window_action(window_id, label, step),
        }
    }

    /// The context of a window is gone.
    pub open spec fn close(self, window_id: WebviewId) -> State<B> {
        State { windows: without_context(self.windows, window_id), ..self }
    }

    /// An open window gets the event; a closed one is past that.
    pub open spec fn deliver(
        self,
        platform: Platform,
        window_id: WebviewId,
        label: String,
    ) -> Step<B> {
        if is_open(self.windows, window_id) {
            self.at_window(platform, window_id, label, WindowStep::DeliverEvent)
        } else {
            self.at_window(platform, window_id, label, WindowStep::TranslateEvent)
        }
    }

    /// The window that the event is for was looked up.
    pub open spec fn looked_up(
        self,
        platform: Platform,
        event: WindowEvent,
        window_id: WebviewId,
    ) -> Step<B> {
        if !self.windows.contains_key(window_id) {
            self.finish(platform, false)
        } else {
            let label = self.windows[window_id].label;
            match event {
                WindowEvent::Focused(is_focused) => State { is_focused, ..self }.deliver(
                    platform,
                    window_id,
                    label,
                ),
                WindowEvent::Resized { width, height } => if is_open(self.windows, window_id) {
                    self.at_window(platform, window_id, label, WindowStep::Resize { width, height })
                } else {
                    self.deliver(platform, window_id, label)
                },
                WindowEvent::CloseRequested => self.at_window(
                    platform,
                    window_id,
                    label,
                    WindowStep::NotifyClose,
                ),
                WindowEvent::Other => self.deliver(platform, window_id, label),
            }
        }
    }

    /// The window is closed and its context, if it had one, goes.
    pub open spec fn closing(
        self,
        platform: Platform,
        window_id: WebviewId,
        label: String,
    ) -> Step<B> {
        if is_open(self.windows, window_id) {
            self.close(window_id).at_window(
                platform,
                window_id,
                label,
                WindowStep::ExitIntegration(self.windows[window_id].inner->0),
            )
        } else {
            self.deliver(platform, window_id, label)
        }
    }

    /// The event of a window after the action of `step` had `reply` as its outcome.
    pub open spec fn after_window_step(
        self,
        platform: Platform,
        window_id: WebviewId,
        label: String,
        step: WindowStep<B>,
        reply: Reply<B>,
    ) -> Step<B> {
        match step {
            WindowStep::Resize { .. } => self.deliver(platform, window_id, label),
            WindowStep::NotifyClose => self.at_window(
                platform,
                window_id,
                label,
                WindowStep::CallbackClose,
            ),
            WindowStep::CallbackClose => self.at_window(
                platform,
                window_id,
                label,
                WindowStep::ReceiveCloseSignal,
            ),
            WindowStep::ReceiveCloseSignal => if reply->CloseSignal_0 == Some(
                true,
            ) {
                self.deliver(platform, window_id, label)
            } else {
                self.at_window(platform, window_id, label, WindowStep::ForgetMenu)
            },
            WindowStep::ForgetMenu => self.closing(platform, window_id, label),
            WindowStep::ExitIntegration(context) => self.at_window(
                platform,
                window_id,
                label,
                WindowStep::DestroyPainter(context),
            ),
            WindowStep::DestroyPainter(_) => self.deliver(platform, window_id, label),
            WindowStep::DeliverEvent => self.at_window(
                platform,
                window_id,
                label,
                WindowStep::AskShouldQuit,
            ),
            WindowStep::AskShouldQuit => if reply->ShouldQuit_0 {
                self.at_window(platform, window_id, label, WindowStep::QuitControlFlow)
            } else {
                self.at_window(
                    platform,
                    window_id,
                    label,
                    WindowStep::RequestRedraw { should_quit: false },
                )
            },
            WindowStep::QuitControlFlow => self.at_window(
                platform,
                window_id,
                label,
                WindowStep::RequestRedraw { should_quit: true },
            ),
            WindowStep::RequestRedraw { should_quit } => if should_quit {
                self.close(window_id).at_window(platform, window_id, label, WindowStep::QuitMenu)
            } else {
                self.at_window(platform, window_id, label, WindowStep::TranslateEvent)
            },
            WindowStep::QuitMenu => self.at_window(
                platform,
                window_id,
                label,
                WindowStep::TranslateEvent,
            ),
            WindowStep::TranslateEvent => if reply->Translated_0 {
                self.at_window(platform, window_id, label, WindowStep::Callback)
            } else {
                self.finish(platform, true)
            },
            WindowStep::Callback => self.at_window(
                platform,
                window_id,
                label,
                WindowStep::NotifyListeners,
            ),
            WindowStep::NotifyListeners => self.finish(platform, true),
        }
    }

    /// A message to a window is taken up.
    pub open spec fn message(
        self,
        platform: Platform,
        window_id: WebviewId,
        message: WindowMessage<B::Value>,
    ) -> Step<B> {
        if !is_open(self.windows, window_id) {
            self.finish(platform, false)
        } else {
            match handling(platform, message) {
                Handling::Ignore => self.finish(platform, false),
                Handling::Operate(operation) => Step {
                    state: self,
                    turn: Turn { platform, phase: Phase::Operate },
                    action: Action::Operate(window_id, operation),
                },
                Handling::Ask(query) => Step {
                    state: self,
                    turn: Turn { platform, phase: Phase::Query(query) },
                    action: Action::Query(window_id, query),
                },
                Handling::AnswerLight => self.answering(platform, Answer::LightTheme, false),
            }
        }
    }

    /// An answer is sent.
    pub open spec fn answering(
        self,
        platform: Platform,
        answer: Answer<B::Value>,
        light_follows: bool,
    ) -> Step<B> {
        Step {
            state: self,
            turn: Turn { platform, phase: Phase::Answer { light_follows } },
            action: Action::Answer(answer),
        }
    }

    /// All open windows were walked, and the event itself is taken up. No frame is
    /// drawn before the event of a window or a message.
    pub open spec fn dispatch(
        self,
        platform: Platform,
        event: Event<B::Value>,
        should_quit: bool,
    ) -> Step<B> {
        match event {
            Event::WindowEvent(event) => Step {
                state: self,
                turn: Turn { platform, phase: Phase::LookUp(event) },
                action: Action::LookUpWindow,
            },
            Event::Message(window_id, message) => self.message(platform, window_id, message),
            _ => self.end(platform, false, should_quit),
        }
    }

    /// The walk goes on with the window at position `at`.
    pub open spec fn walk(
        self,
        platform: Platform,
        event: Event<B::Value>,
        order: Vec<WebviewId>,
        at: int,
        should_quit: bool,
    ) -> Step<B> {
        let kind = walk_kind(platform, event);
        if kind is Nothing || at >= order@.len() {
            self.dispatch(platform, event, should_quit)
        } else {
            let step = if kind is QueueRender {
                WalkStep::QueueRender
            } else {
                WalkStep::Frame(first_frame(self.is_focused))
            };
            Step {
                state: self,
                turn: Turn {
                    platform,
                    phase: Phase::Walk { event, order, at: at as usize, step, should_quit },
                },
                action: walk_action(order@[at], step, 0),
            }
        }
    }

    /// The walk after the action of `step` had `reply` as its outcome.
    pub open spec fn after_walk_step(
        self,
        platform: Platform,
        event: Event<B::Value>,
        order: Vec<WebviewId>,
        at: usize,
        step: WalkStep,
        should_quit: bool,
        reply: Reply<B>,
    ) -> Step<B> {
        let stay = |next: WalkStep, code: u8|
            Step {
                state: self,
                turn: Turn {
                    platform,
                    phase: Phase::Walk { event, order, at, step: next, should_quit },
                },
                action: walk_action(order@[at as int], next, code),
            };
        match step {
            WalkStep::QueueRender => stay(WalkStep::LoadRenderFlow, 0),
            WalkStep::LoadRenderFlow => stay(WalkStep::SetControlFlow, reply->RenderFlow_0),
            WalkStep::SetControlFlow => self.walk(platform, event, order, at + 1, should_quit),
            WalkStep::Frame(frame) => {
                let next = frame.next(reply->Frame_0);
                if next.action is Finish {
                    self.walk(platform, event, order, at + 1, should_quit || next.should_quit)
                } else {
                    stay(WalkStep::Frame(next), 0)
                }
            },
        }
    }

    /// The event loop is handled: nothing is done while the plugin has no window.
    pub open spec fn handle_gl_loop(
        self,
        platform: Platform,
        event: Event<B::Value>,
        order: Vec<WebviewId>,
    ) -> Step<B> {
        if self.windows.is_empty() {
            self.finish(platform, false)
        } else {
            self.walk(platform, event, order, 0, false)
        }
    }

    /// A new window was put together.
    pub open spec fn with_window(
        self,
        window_id: WebviewId,
        label: String,
        context: Box<GlutinWindowContext<B>>,
    ) -> State<B> {
        let window = WindowWrapper { label, inner: Some(context), menu_items: None };
        State { windows: self.windows.insert(window_id, window), ..self }
    }

    /// A requested window begins to be set up; `event` is handled after that.
    pub open spec fn create_gl_window(
        self,
        platform: Platform,
        payload: CreateWindowPayload<B>,
        event: Event<B::Value>,
    ) -> Step<B> {
        Step {
            state: self,
            turn: Turn {
                platform,
                phase: Phase::Naming { payload, event, step: NamingStep::AskPersistenceName },
            },
            action: Action::AskAppName(payload.window_id, NameUse::Persistence),
        }
    }

    /// The naming of a requested window's application after the action of `step` had
    /// `reply` as its outcome.
    pub open spec fn after_naming_step(
        self,
        platform: Platform,
        payload: CreateWindowPayload<B>,
        event: Event<B::Value>,
        step: NamingStep,
        reply: Reply<B>,
    ) -> Step<B> {
        let stay = |next: NamingStep, action: Action<B>|
            Step {
                state: self,
                turn: Turn { platform, phase: Phase::Naming { payload, event, step: next } },
                action,
            };
        match step {
            NamingStep::AskPersistenceName => stay(
                NamingStep::OpenPersistence,
                Action::OpenPersistence {
                    window_id: payload.window_id,
                    app_name: reply->AppName_0,
                },
            ),
            NamingStep::OpenPersistence => stay(
                NamingStep::AskTitle,
                Action::AskAppName(payload.window_id, NameUse::Title),
            ),
            NamingStep::AskTitle => self.titled(platform, payload, event, reply->AppName_0),
        }
    }

    /// The application of a requested window said the title of the window.
    pub open spec fn titled(
        self,
        platform: Platform,
        payload: CreateWindowPayload<B>,
        event: Event<B::Value>,
        title: String,
    ) -> Step<B> {
        let window_id = payload.window_id;
        Step {
            state: self,
            turn: Turn {
                platform,
                phase: Phase::Setup {
                    window_id,
                    label: payload.label,
                    event,
                    step: SetupStep::BuildContext,
                },
            },
            action: Action::BuildContext {
                window_id,
                app: payload.app,
                native_options: payload.native_options,
                title,
                attributes: GlAttributes::of_windows(),
            },
        }
    }

    /// The setup of a window after the action of `step` was done.
    pub open spec fn after_setup_step(
        self,
        platform: Platform,
        window_id: WebviewId,
        label: String,
        event: Event<B::Value>,
        step: SetupStep,
        choice: Choice<B>,
    ) -> Step<B> {
        match step.next(platform) {
            Some(next) => Step {
                state: self,
                turn: Turn { platform, phase: Phase::Setup { window_id, label, event, step: next } },
                action: setup_action(window_id, next),
            },
            None => self.with_window(window_id, label, choice.context).handle_gl_loop(
                platform,
                event,
                choice.order,
            ),
        }
    }

    /// A turn after its action had `reply` as its outcome.
    pub open spec fn next(self, turn: Turn<B>, reply: Reply<B>, choice: Choice<B>) -> Step<B> {
        let platform = turn.platform;
        match turn.phase {
            Phase::Naming { payload, event, step } => self.after_naming_step(
                platform,
                payload,
                event,
                step,
                reply,
            ),
            Phase::Setup { window_id, label, event, step } => self.after_setup_step(
                platform,
                window_id,
                label,
                event,
                step,
                choice,
            ),
            Phase::Walk { event, order, at, step, should_quit } => self.after_walk_step(
                platform,
                event,
                order,
                at,
                step,
                should_quit,
                reply,
            ),
            Phase::LookUp(event) => self.looked_up(platform, event, reply->WindowId_0),
            Phase::Window { window_id, label, step } => self.after_window_step(
                platform,
                window_id,
                label,
                step,
                reply,
            ),
            Phase::Query(query) => self.answering(
                platform,
                answer_of(reply->Queried_0),
                platform is MacOs && query is Theme,
            ),
            Phase::Answer { light_follows } => if light_follows {
                self.answering(platform, Answer::LightTheme, false)
            } else {
                self.finish(platform, false)
            },
            Phase::Operate => self.finish(platform, false),
            Phase::Finished => self.finish(platform, false),
        }
    }
}

impl<B: Backend> Turn<B> {
    /// Whether `reply` can be the outcome of the action that the turn handed out.
    pub open spec fn accepts(self, reply: Reply<B>) -> bool {
        match self.phase {
            Phase::Naming { step, .. } => match step {
                NamingStep::OpenPersistence => reply is Done,
                _ => reply is AppName,
            },
            Phase::Setup { step, .. } => if step is HandOver {
                reply is Parts && reply->Parts_0.suits(self.platform)
            } else {
                reply is Done
            },
            Phase::Walk { step, .. } => match step {
                WalkStep::LoadRenderFlow => {
                    reply is RenderFlow && flow_of(reply->RenderFlow_0) is Some
                },
                WalkStep::Frame(frame) => reply is Frame && frame.accepts(reply->Frame_0),
                _ => reply is Done,
            },
            Phase::LookUp(_) => reply is WindowId,
            Phase::Window { step, .. } => match step {
                WindowStep::ReceiveCloseSignal => reply is CloseSignal,
                WindowStep::AskShouldQuit => reply is ShouldQuit,
                WindowStep::TranslateEvent => reply is Translated,
                _ => reply is Done,
            },
            Phase::Query(query) => reply is Queried && query.accepts(reply->Queried_0),
            Phase::Answer { .. } => reply is Done,
            Phase::Operate => reply is Done,
            Phase::Finished => false,
        }
    }

    /// A walk is always at one of its windows, and does what the event asks for.
    pub open spec fn wf(self) -> bool {
        self.phase matches Phase::Walk { event, order, at, step, .. } ==> {
            &&& at < order@.len()
            &&& walk_kind(self.platform, event) == (if step is Frame {
                WalkKind::Frame
            } else {
                WalkKind::QueueRender
            })
        }
    }

    /// The application of the requested window, until its window is built.
    pub open spec fn unnamed_app(self) -> Option<B::App> {
        match self.phase {
            Phase::Naming { payload, .. } => Some(payload.app),
            _ => None,
        }
    }

    /// The application of the requested window, until its window is built.
    pub fn requested_app(&self) -> (res: Option<&B::App>)
        ensures
            match res {
                Some(app) => self.unnamed_app() == Some(*app),
                None => self.unnamed_app() is None,
            },
    {
        match &self.phase {
            Phase::Naming { payload, .. } => Some(&payload.app),
            _ => None,
        }
    }

    /// The context of the window that is being closed, while it is torn down.
    pub open spec fn torn_down(self) -> Option<GlutinWindowContext<B>> {
        match self.phase {
            Phase::Window { step: WindowStep::ExitIntegration(context), .. } => Some(*context),
            Phase::Window { step: WindowStep::DestroyPainter(context), .. } => Some(*context),
            _ => None,
        }
    }

    /// The context of the window that is being closed, while it is torn down.
    pub fn closing_context(&self) -> (res: Option<&GlutinWindowContext<B>>)
        ensures
            match res {
                Some(context) => self.torn_down() == Some(*context),
                None => self.torn_down() is None,
            },
    {
        match &self.phase {
            Phase::Window { step: WindowStep::ExitIntegration(context), .. } => Some(&**context),
            Phase::Window { step: WindowStep::DestroyPainter(context), .. } => Some(&**context),
            _ => None,
        }
    }
}

impl<B: Backend> Choice<B> {
    /// Whether this can be what happened when `reply` led to `state`. Only the
    /// last step of the setup of a window leaves a choice.
    pub open spec fn fits(self, turn: Turn<B>, reply: Reply<B>, state: State<B>) -> bool {
        turn.phase is Setup && reply is Parts ==> {
            &&& reply->Parts_0.make_up(*self.context)
            &&& is_walk(self.order@, state.windows)
        }
    }
}

/// What the plugin remembers, as a pair of fields.
pub open spec fn state_of<B: Backend>(
    windows: HashMap<WebviewId, WindowWrapper<B>>,
    is_focused: bool,
) -> State<B> {
    State { windows: windows@, is_focused }
}

impl<B: Backend> State<B> {
    /// The step at which this is the state and `handed_out` are the turn and the
    /// action.
    pub open spec fn step(self, handed_out: (Turn<B>, Action<B>)) -> Step<B> {
        Step { state: self, turn: handed_out.0, action: handed_out.1 }
    }
}

/// Ends the turn.
fn end<B: Backend>(platform: Platform, prevent_default: bool, should_quit: bool) -> (res: (
    Turn<B>,
    Action<B>,
))
    ensures
        res.0 == (Turn { platform, phase: Phase::<B>::Finished }),
        res.1 == (Action::<B>::Finish { prevent_default, should_quit }),
{
    (Turn { platform, phase: Phase::Finished }, Action::Finish { prevent_default, should_quit })
}

/// Ends a turn in which no application wanted to quit in a frame.
fn finish<B: Backend>(platform: Platform, prevent_default: bool) -> (res: (Turn<B>, Action<B>))
    ensures
        res.0 == (Turn { platform, phase: Phase::<B>::Finished }),
        res.1 == (Action::<B>::Finish { prevent_default, should_quit: false }),
{
    end(platform, prevent_default, false)
}

/// Hands out the action of a step of the setup of a window.
fn at_setup<B: Backend>(
    platform: Platform,
    window_id: WebviewId,
    label: String,
    event: Event<B::Value>,
    step: SetupStep,
) -> (res: (Turn<B>, Action<B>))
    ensures
        res.0 == (Turn::<B> { platform, phase: Phase::Setup { window_id, label, event, step } }),
        res.1 == setup_action::<B>(window_id, step),
{
    let action = match step {
        SetupStep::CreateIntegration => {
            Action::CreateIntegration { window_id, name: INTEGRATION_NAME }
        },
        SetupStep::ConnectRender => {
            Action::ConnectRender { window_id, render_flow: INITIAL_RENDER_FLOW }
        },
        _ => Action::Setup(window_id, step),
    };
    (Turn { platform, phase: Phase::Setup { window_id, label, event, step } }, action)
}

/// Hands out the action of a step of handling the event of a window.
fn at_window<B: Backend>(
    platform: Platform,
    window_id: WebviewId,
    label: String,
    step: WindowStep<B>,
) -> (res: (Turn<B>, Action<B>))
    ensures
        res.0 == (Turn { platform, phase: Phase::Window { window_id, label, step } }),
        res.1 == window_action(window_id, label, step),
{
    let action = match &step {
        WindowStep::Resize { width, height } => {
            Action::Resize { window_id, width: *width, height: *height }
        },
        WindowStep::NotifyClose => Action::NotifyClose(window_id),
        WindowStep::CallbackClose => Action::CallbackClose { label: label.clone() },
        WindowStep::ReceiveCloseSignal => Action::ReceiveCloseSignal,
        WindowStep::ForgetMenu => Action::RemoveMenuListeners(window_id),
        WindowStep::ExitIntegration(_) => Action::ExitIntegration(window_id),
        WindowStep::DestroyPainter(_) => Action::DestroyPainter(window_id),
        WindowStep::DeliverEvent => Action::DeliverEvent(window_id),
        WindowStep::AskShouldQuit => Action::AskShouldQuit(window_id),
        WindowStep::QuitControlFlow => Action::SetControlFlow(ControlFlow::Wait),
        WindowStep::RequestRedraw { .. } => Action::RequestRedraw(window_id),
        WindowStep::QuitMenu => Action::RemoveMenuListeners(window_id),
        WindowStep::TranslateEvent => Action::TranslateEvent,
        WindowStep::Callback => Action::Callback { label: label.clone() },
        WindowStep::NotifyListeners => Action::NotifyListeners(window_id),
    };
    (Turn { platform, phase: Phase::Window { window_id, label, step } }, action)
}

/// Goes on with an event that an open window gets and a closed one does not.
fn deliver<B: Backend>(
    windows: &HashMap<WebviewId, WindowWrapper<B>>,
    platform: Platform,
    window_id: WebviewId,
    label: String,
) -> (res: (Turn<B>, Action<B>))
    ensures
        forall|is_focused: bool|
            #![trigger state_of(*windows, is_focused)]
            state_of(*windows, is_focused).step(res) == state_of(*windows, is_focused).deliver(
                platform,
                window_id,
                label,
            ),
{
    if context_of(windows, window_id).is_some() {
        at_window(platform, window_id, label, WindowStep::DeliverEvent)
    } else {
        at_window(platform, window_id, label, WindowStep::TranslateEvent)
    }
}

/// Goes on when the window that an event is for was looked up.
fn window_found<B: Backend>(
    windows: &HashMap<WebviewId, WindowWrapper<B>>,
    platform: Platform,
    event: WindowEvent,
    window_id: WebviewId,
    is_focused: &mut bool,
) -> (res: (Turn<B>, Action<B>))
    ensures
        state_of(*windows, *final(is_focused)).step(res) == state_of(
            *windows,
            *old(is_focused),
        ).looked_up(platform, event, window_id),
{
    broadcast use vstd::std_specs::hash::group_hash_axioms;

    let label = match windows.get(&window_id) {
        Some(window) => window.label.clone(),
        None => {
            return finish(platform, false);
        },
    };
    match event {
        WindowEvent::Focused(new_focused) => {
            *is_focused = new_focused;
            deliver(windows, platform, window_id, label)
        },
        WindowEvent::Resized { width, height } => {
            if context_of(windows, window_id).is_some() {
                at_window(platform, window_id, label, WindowStep::Resize { width, height })
            } else {
                deliver(windows, platform, window_id, label)
            }
        },
        WindowEvent::CloseRequested => on_close_requested(platform, window_id, label),
        WindowEvent::Other => deliver(windows, platform, window_id, label),
    }
}

/// Starts to ask whether a window may close: first its listeners, then the
/// callback.
fn on_close_requested<B: Backend>(
    platform: Platform,
    window_id: WebviewId,
    label: String,
) -> (res: (Turn<B>, Action<B>))
    ensures
        forall|state: State<B>| #[trigger]
            state.step(res) == state.at_window(platform, window_id, label, WindowStep::NotifyClose),
{
    at_window(platform, window_id, label, WindowStep::NotifyClose)
}

/// Closes a window whose menu event listeners were forgotten. Its context is torn
/// down if it has one.
fn on_window_close<B: Backend>(
    windows: &mut HashMap<WebviewId, WindowWrapper<B>>,
    platform: Platform,
    window_id: WebviewId,
    label: String,
) -> (res: (Turn<B>, Action<B>))
    ensures
        forall|is_focused: bool|
            #![trigger state_of(*final(windows), is_focused)]
            state_of(*final(windows), is_focused).step(res) == state_of(
                *old(windows),
                is_focused,
            ).closing(platform, window_id, label),
{
    match take_context(windows, window_id) {
        Some(context) => at_window(
            platform,
            window_id,
            label,
            WindowStep::ExitIntegration(context),
        ),
        None => {
            proof {
                let windows0 = old(windows)@;
                if windows0.contains_key(window_id) {
                    assert(windows0[window_id].closed() == windows0[window_id]);
                    assert(without_context(windows0, window_id) =~= windows0);
                }
            }
            deliver(windows, platform, window_id, label)
        },
    }
}

/// Goes on with the event of a window.
fn window_step_done<B: Backend>(
    windows: &mut HashMap<WebviewId, WindowWrapper<B>>,
    platform: Platform,
    window_id: WebviewId,
    label: String,
    step: WindowStep<B>,
    reply: Reply<B>,
) -> (res: (Turn<B>, Action<B>))
    requires
        (Turn { platform, phase: Phase::Window { window_id, label, step } }).accepts(reply),
    ensures
        forall|is_focused: bool|
            #![trigger state_of(*final(windows), is_focused)]
            state_of(*final(windows), is_focused).step(res) == state_of(
                *old(windows),
                is_focused,
            ).after_window_step(platform, window_id, label, step, reply),
{
    let next = match step {
        WindowStep::Resize { .. } => {
            return deliver(windows, platform, window_id, label);
        },
        WindowStep::NotifyClose => WindowStep::CallbackClose,
        WindowStep::CallbackClose => WindowStep::ReceiveCloseSignal,
        WindowStep::ReceiveCloseSignal => {
            if let Reply::CloseSignal(Some(true)) = reply {
                return deliver(windows, platform, window_id, label);
            }
            WindowStep::ForgetMenu
        },
        WindowStep::ForgetMenu => {
            return on_window_close(windows, platform, window_id, label);
        },
        WindowStep::ExitIntegration(context) => WindowStep::DestroyPainter(context),
        WindowStep::DestroyPainter(_) => {
            return deliver(windows, platform, window_id, label);
        },
        WindowStep::DeliverEvent => WindowStep::AskShouldQuit,
        WindowStep::AskShouldQuit => match reply {
            Reply::ShouldQuit(true) => WindowStep::QuitControlFlow,
            _ => WindowStep::RequestRedraw { should_quit: false },
        },
        WindowStep::QuitControlFlow => WindowStep::RequestRedraw { should_quit: true },
        WindowStep::RequestRedraw { should_quit } => if should_quit {
            let _ = take_context(windows, window_id);
            WindowStep::QuitMenu
        } else {
            WindowStep::TranslateEvent
        },
        WindowStep::QuitMenu => WindowStep::TranslateEvent,
        WindowStep::TranslateEvent => match reply {
            Reply::Translated(true) => WindowStep::Callback,
            _ => {
                return finish(platform, true);
            },
        },
        WindowStep::Callback => WindowStep::NotifyListeners,
        WindowStep::NotifyListeners => {
            return finish(platform, true);
        },
    };
    at_window(platform, window_id, label, next)
}

/// Takes up a message to a window.
fn message_received<B: Backend>(
    windows: &HashMap<WebviewId, WindowWrapper<B>>,
    platform: Platform,
    window_id: WebviewId,
    message: WindowMessage<B::Value>,
) -> (res: (Turn<B>, Action<B>))
    ensures
        forall|is_focused: bool|
            #![trigger state_of(*windows, is_focused)]
            state_of(*windows, is_focused).step(res) == state_of(*windows, is_focused).message(
                platform,
                window_id,
                message,
            ),
{
    if context_of(windows, window_id).is_none() {
        return finish(platform, false);
    }
    match handle_message(platform, message) {
        Handling::Ignore => finish(platform, false),
        Handling::Operate(operation) => (
            Turn { platform, phase: Phase::Operate },
            Action::Operate(window_id, operation),
        ),
        Handling::Ask(query) => (
            Turn { platform, phase: Phase::Query(query) },
            Action::Query(window_id, query),
        ),
        Handling::AnswerLight => (
            Turn { platform, phase: Phase::Answer { light_follows: false } },
            Action::Answer(Answer::LightTheme),
        ),
    }
}

/// Whether Linux queues a frame of each open window.
fn queues_render<V>(event: &Event<V>) -> (res: bool)
    ensures
        res == (walk_kind(Platform::Linux, *event) is QueueRender),
        !res == (walk_kind(Platform::Linux, *event) is Nothing),
{
    matches!(event, Event::MainEventsCleared)
}

/// The control flow after Linux dealt with a window whose render callback has left
/// `render_flow`, if it was `control_flow` before.
pub open spec fn linux_control_flow<V>(
    event: Event<V>,
    render_flow: u8,
    control_flow: ControlFlow,
) -> ControlFlow {
    if event is MainEventsCleared {
        flow_of(render_flow)->0
    } else {
        control_flow
    }
}

/// Takes over the control flow that the render callback of a window has left. Any event
/// but the end of the main events leaves the control flow as it is.
pub fn linux_gl_loop<V>(event: &Event<V>, render_flow: u8, control_flow: &mut ControlFlow)
    requires
        event is MainEventsCleared ==> flow_of(render_flow) is Some,
    ensures
        *final(control_flow) == linux_control_flow(*event, render_flow, *old(control_flow)),
{
    if queues_render(event) {
        match decode_render_flow(render_flow) {
            Some(flow) => *control_flow = flow,
            None => unreached(),
        }
    }
}

/// The frame that the other platforms draw in each open window, if any.
fn win_mac_gl_loop<V>(
    platform: Platform,
    event: &Event<V>,
    is_focused: bool,
) -> (res: Option<Frame>)
    requires
        !(platform is Linux),
    ensures
        res == (if walk_kind(platform, *event) is Frame {
            Some(first_frame(is_focused))
        } else {
            None
        }),
        res is None ==> walk_kind(platform, *event) is Nothing,
{
    match event {
        Event::RedrawEventsCleared if matches!(platform, Platform::Windows) => {
            Some(Frame::window(is_focused))
        },
        Event::RedrawRequested if !matches!(platform, Platform::Windows) => {
            Some(Frame::window(is_focused))
        },
        _ => None,
    }
}

/// Goes on with the open window at position `at`, or with the event itself when
/// there is none.
fn walk<B: Backend>(
    windows: &HashMap<WebviewId, WindowWrapper<B>>,
    platform: Platform,
    event: Event<B::Value>,
    order: Vec<WebviewId>,
    at: usize,
    should_quit: bool,
    is_focused: bool,
) -> (res: (Turn<B>, Action<B>))
    ensures
        state_of(*windows, is_focused).step(res) == state_of(*windows, is_focused).walk(
            platform,
            event,
            order,
            at as int,
            should_quit,
        ),
        res.0.wf(),
{
    if at < order.len() {
        let window_id = order[at];
        match platform {
            Platform::Linux => {
                if queues_render(&event) {
                    let step = WalkStep::QueueRender;
                    let phase = Phase::Walk { event, order, at, step, should_quit };
                    let turn = Turn { platform, phase };
                    return (turn, Action::QueueRender(window_id));
                }
            },
            Platform::Windows | Platform::MacOs | Platform::OtherUnix => {
                if let Some(frame) = win_mac_gl_loop(platform, &event, is_focused) {
                    let step = WalkStep::Frame(frame);
                    let phase = Phase::Walk { event, order, at, step, should_quit };
                    let turn = Turn { platform, phase };
                    return (turn, Action::Frame(window_id, frame.action));
                }
            },
        }
    }
    match event {
        Event::WindowEvent(event) => (
            Turn { platform, phase: Phase::LookUp(event) },
            Action::LookUpWindow,
        ),
        Event::Message(window_id, message) => {
            message_received(windows, platform, window_id, message)
        },
        _ => end(platform, false, should_quit),
    }
}

/// Goes on with the walk.
fn walk_step_done<B: Backend>(
    windows: &HashMap<WebviewId, WindowWrapper<B>>,
    platform: Platform,
    event: Event<B::Value>,
    order: Vec<WebviewId>,
    at: usize,
    step: WalkStep,
    should_quit: bool,
    reply: Reply<B>,
    is_focused: bool,
) -> (res: (Turn<B>, Action<B>))
    requires
        (Turn::<B> { platform, phase: Phase::Walk { event, order, at, step, should_quit } }).wf(),
        (Turn { platform, phase: Phase::Walk { event, order, at, step, should_quit } }).accepts(
            reply,
        ),
    ensures
        state_of(*windows, is_focused).step(res) == state_of(*windows, is_focused).after_walk_step(
            platform,
            event,
            order,
            at,
            step,
            should_quit,
            reply,
        ),
        res.0.wf(),
{
    let window_id = order[at];
    assert(at < order.len());
    let (step, action) = match step {
        WalkStep::QueueRender => (WalkStep::LoadRenderFlow, Action::LoadRenderFlow(window_id)),
        WalkStep::LoadRenderFlow => {
            let code: u8 = match reply {
                Reply::RenderFlow(code) => code,
                _ => unreached(),
            };
            let mut flow = ControlFlow::Wait;
            linux_gl_loop(&event, code, &mut flow);
            (WalkStep::SetControlFlow, Action::SetControlFlow(flow))
        },
        WalkStep::SetControlFlow => {
            return walk(windows, platform, event, order, at + 1, should_quit, is_focused);
        },
        WalkStep::Frame(frame) => {
            let next = match reply {
                Reply::Frame(reply) => frame.resume(reply),
                _ => unreached(),
            };
            if matches!(next.action, FrameAction::Finish) {
                let should_quit = should_quit || next.should_quit;
                return walk(windows, platform, event, order, at + 1, should_quit, is_focused);
            }
            (WalkStep::Frame(next), Action::Frame(window_id, next.action))
        },
    };
    (Turn { platform, phase: Phase::Walk { event, order, at, step, should_quit } }, action)
}

/// Starts to handle an event, walking the open windows in the given order.
pub fn handle_gl_loop_in_order<B: Backend>(
    windows: &HashMap<WebviewId, WindowWrapper<B>>,
    platform: Platform,
    event: Event<B::Value>,
    order: Vec<WebviewId>,
    is_focused: bool,
) -> (res: (Turn<B>, Action<B>))
    ensures
        state_of(*windows, is_focused).step(res) == state_of(*windows, is_focused).handle_gl_loop(
            platform,
            event,
            order,
        ),
        res.0.wf(),
{
    if windows.is_empty() {
        finish(platform, false)
    } else {
        walk(windows, platform, event, order, 0, false, is_focused)
    }
}

/// Starts to handle an event. The open windows are walked in the order that the
/// map has them in.
pub fn handle_gl_loop<B: Backend>(
    windows: &HashMap<WebviewId, WindowWrapper<B>>,
    platform: Platform,
    event: Event<B::Value>,
    is_focused: bool,
) -> (res: (Turn<B>, Action<B>))
    ensures
        exists|order: Vec<WebviewId>| #[trigger]
            is_walk(order@, windows@) && state_of(*windows, is_focused).step(res) == state_of(
                *windows,
                is_focused,
            ).handle_gl_loop(platform, event, order),
        res.0.wf(),
{
    let order = open_windows(windows);
    let ghost walked = order;
    let res = handle_gl_loop_in_order(windows, platform, event, order, is_focused);
    assert(is_walk(walked@, windows@));
    res
}

/// Starts to set up a requested window. The event is handled once the window is
/// there.
pub fn create_gl_window<B: Backend>(
    platform: Platform,
    payload: CreateWindowPayload<B>,
    event: Event<B::Value>,
) -> (res: (Turn<B>, Action<B>))
    ensures
        forall|state: State<B>| #[trigger]
            state.step(res) == state.create_gl_window(platform, payload, event),
        res.0.wf(),
{
    let window_id = payload.window_id;
    let step = NamingStep::AskPersistenceName;
    (
        Turn { platform, phase: Phase::Naming { payload, event, step } },
        Action::AskAppName(window_id, NameUse::Persistence),
    )
}

/// Goes on with the naming of a requested window's application.
fn naming_step_done<B: Backend>(
    platform: Platform,
    payload: CreateWindowPayload<B>,
    event: Event<B::Value>,
    step: NamingStep,
    reply: Reply<B>,
) -> (res: (Turn<B>, Action<B>))
    requires
        (Turn { platform, phase: Phase::Naming { payload, event, step } }).accepts(reply),
    ensures
        forall|state: State<B>| #[trigger]
            state.step(res) == state.after_naming_step(platform, payload, event, step, reply),
{
    let window_id = payload.window_id;
    match (step, reply) {
        (NamingStep::AskPersistenceName, Reply::AppName(name)) => (
            Turn {
                platform,
                phase: Phase::Naming { payload, event, step: NamingStep::OpenPersistence },
            },
            Action::OpenPersistence { window_id, app_name: name },
        ),
        (NamingStep::OpenPersistence, _) => (
            Turn {
                platform,
                phase: Phase::Naming { payload, event, step: NamingStep::AskTitle },
            },
            Action::AskAppName(window_id, NameUse::Title),
        ),
        (NamingStep::AskTitle, Reply::AppName(title)) => {
            app_titled(platform, payload, event, title)
        },
        _ => unreached(),
    }
}

/// Goes on with the setup of a window when its application said the title.
fn app_titled<B: Backend>(
    platform: Platform,
    payload: CreateWindowPayload<B>,
    event: Event<B::Value>,
    title: String,
) -> (res: (Turn<B>, Action<B>))
    ensures
        forall|state: State<B>| #[trigger]
            state.step(res) == state.titled(platform, payload, event, title),
{
    let attributes = GlAttributes { depth_buffer: 0, srgb: true, stencil_buffer: 0, vsync: true };
    let CreateWindowPayload { window_id, label, app, native_options } = payload;
    (
        Turn {
            platform,
            phase: Phase::Setup { window_id, label, event, step: SetupStep::BuildContext },
        },
        Action::BuildContext { window_id, app, native_options, title, attributes },
    )
}

/// Whether `reply` can be handed to [`resume`].
pub fn is_accepted<B: Backend>(turn: &Turn<B>, reply: &Reply<B>) -> (accepted: bool)
    ensures
        accepted == turn.accepts(*reply),
{
    match &turn.phase {
        Phase::Naming { step, .. } => match step {
            NamingStep::OpenPersistence => matches!(reply, Reply::Done),
            _ => matches!(reply, Reply::AppName(_)),
        },
        Phase::Setup { step, .. } => match (step, reply) {
            (SetupStep::HandOver, Reply::Parts(parts)) => parts.are_for(turn.platform),
            (SetupStep::HandOver, _) => false,
            (_, reply) => matches!(reply, Reply::Done),
        },
        Phase::Walk { step, .. } => match (step, reply) {
            (WalkStep::LoadRenderFlow, Reply::RenderFlow(code)) => {
                decode_render_flow(*code).is_some()
            },
            (WalkStep::LoadRenderFlow, _) => false,
            (WalkStep::Frame(frame), Reply::Frame(reply)) => frame.is_accepted(reply),
            (WalkStep::Frame(_), _) => false,
            (_, reply) => matches!(reply, Reply::Done),
        },
        Phase::LookUp(_) => matches!(reply, Reply::WindowId(_)),
        Phase::Window { step, .. } => match step {
            WindowStep::ReceiveCloseSignal => matches!(reply, Reply::CloseSignal(_)),
            WindowStep::AskShouldQuit => matches!(reply, Reply::ShouldQuit(_)),
            WindowStep::TranslateEvent => matches!(reply, Reply::Translated(_)),
            _ => matches!(reply, Reply::Done),
        },
        Phase::Query(query) => match reply {
            Reply::Queried(result) => query.is_answered_by(result),
            _ => false,
        },
        Phase::Answer { .. } => matches!(reply, Reply::Done),
        Phase::Operate => matches!(reply, Reply::Done),
        Phase::Finished => false,
    }
}

/// Goes on with a turn after the action that it handed out.
pub fn resume<B: Backend>(
    windows: &mut HashMap<WebviewId, WindowWrapper<B>>,
    is_focused: &mut bool,
    turn: Turn<B>,
    reply: Reply<B>,
) -> (res: (Turn<B>, Action<B>))
    requires
        turn.wf(),
        turn.accepts(reply),
    ensures
        exists|choice: Choice<B>| #[trigger]
            choice.fits(turn, reply, state_of(*final(windows), *final(is_focused))) && state_of(
                *final(windows),
                *final(is_focused),
            ).step(res) == state_of(*old(windows), *old(is_focused)).next(turn, reply, choice),
        res.0.wf(),
{
    broadcast use vstd::std_specs::hash::group_hash_axioms;

    let ghost windows0 = *windows;
    let ghost is_focused0 = *is_focused;
    let ghost mut choice: Choice<B> = arbitrary();
    let platform = turn.platform;
    let res = match turn.phase {
        Phase::Naming { payload, event, step } => {
            naming_step_done(platform, payload, event, step, reply)
        },
        Phase::Setup { window_id, label, event, step } => match step.after(platform) {
            Some(step) => at_setup(platform, window_id, label, event, step),
            None => {
                let context = match reply {
                    Reply::Parts(parts) => Box::new(parts.into_context()),
                    _ => unreached(),
                };
                let ghost new_context = context;
                windows.insert(
                    window_id,
                    WindowWrapper { label, inner: Some(context), menu_items: None },
                );
                let res = handle_gl_loop(windows, platform, event, *is_focused);
                proof {
                    let state = state_of(*windows, *is_focused);
                    let order = choose|order: Vec<WebviewId>| #[trigger]
                        is_walk(order@, windows@) && state.step(res) == state.handle_gl_loop(
                            platform,
                            event,
                            order,
                        );
                    choice = Choice { order, context: new_context };
                }
                res
            },
        },
        Phase::Walk { event, order, at, step, should_quit } => walk_step_done(
            windows,
            platform,
            event,
            order,
            at,
            step,
            should_quit,
            reply,
            *is_focused,
        ),
        Phase::LookUp(event) => {
            let window_id: WebviewId = match reply {
                Reply::WindowId(window_id) => window_id,
                _ => unreached(),
            };
            window_found(windows, platform, event, window_id, is_focused)
        },
        Phase::Window { window_id, label, step } => window_step_done(
            windows,
            platform,
            window_id,
            label,
            step,
            reply,
        ),
        Phase::Query(query) => match reply {
            Reply::Queried(result) => {
                let light_follows = matches!(
                    (platform, query),
                    (Platform::MacOs, Query::Theme)
                );
                (
                    Turn { platform, phase: Phase::Answer { light_follows } },
                    Action::Answer(answer(result)),
                )
            },
            _ => unreached(),
        },
        Phase::Answer { light_follows } => if light_follows {
            (
                Turn { platform, phase: Phase::Answer { light_follows: false } },
                Action::Answer(Answer::LightTheme),
            )
        } else {
            finish(platform, false)
        },
        Phase::Operate => finish(platform, false),
        Phase::Finished => unreached(),
    };
    assert(choice.fits(turn, reply, state_of(*windows, *is_focused)));
    assert(state_of(*windows, *is_focused).step(res) == state_of(windows0, is_focused0).next(
        turn,
        reply,
        choice,
    ));
    res
}

} // verus!
