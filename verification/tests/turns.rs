use std::cell::RefCell;
use std::collections::HashMap;
use std::rc::Rc;
use tauri_egui::backend::{Backend, Platform, WebviewId};
use tauri_egui::frame::{ControlFlow, FrameAction, FrameReply};
use tauri_egui::message::{repaint_request, Query, QueryResult, WindowMessage};
use tauri_egui::plugin::{EguiPlugin, HandleAction};
use tauri_egui::setup::{CreateWindowPayload, NameUse, SetupStep, INTEGRATION_NAME};
use tauri_egui::shared::{MaybeRc, MaybeRcCell};
use tauri_egui::turn::{
    handle_gl_loop_in_order, is_accepted, linux_gl_loop, Action, Event, Reply, Turn, WindowEvent,
};
use tauri_egui::window::{
    context_of, open_windows, take_context, GlutinWindowContext, Parts, WindowWrapper,
};

struct Paper;

impl Backend for Paper {
    type Context = &'static str;
    type Gl = u32;
    type Painter = u32;
    type Integration = &'static str;
    type RenderFlow = u8;
    type App = &'static str;
    type Options = u8;
    type MenuItem = u16;
    type Value = i64;
    type Proxy = u32;
    type Sender = u64;
    type Receiver = ();
}

/// How the actions of a turn turn out.
struct World {
    platform: Platform,
    window_id: WebviewId,
    close_signal: Option<bool>,
    should_quit: bool,
    translated: bool,
    render_flows: HashMap<WebviewId, u8>,
    needs_repaint: bool,
    frame_quits: bool,
}

fn world(platform: Platform, window_id: WebviewId) -> World {
    World {
        platform,
        window_id,
        close_signal: None,
        should_quit: false,
        translated: true,
        render_flows: HashMap::new(),
        needs_repaint: false,
        frame_quits: false,
    }
}

impl World {
    fn parts(&self) -> Parts<Paper> {
        match self.platform {
            Platform::Linux => Parts::Shared {
                context: Rc::new("new context"),
                glow_context: Rc::new(1),
                painter: Rc::new(RefCell::new(2)),
                integration: Rc::new(RefCell::new("new integration")),
                render_flow: 1,
            },
            _ => Parts::Owned {
                context: "new context",
                glow_context: 1,
                painter: 2,
                integration: "new integration",
            },
        }
    }

    fn reply(&self, action: &Action<Paper>) -> Reply<Paper> {
        match action {
            Action::AskAppName(_, NameUse::Persistence) => Reply::AppName(String::from("kept")),
            Action::AskAppName(_, NameUse::Title) => Reply::AppName(String::from("demo")),
            Action::Setup(_, SetupStep::HandOver) => Reply::Parts(self.parts()),
            Action::LoadRenderFlow(window_id) => {
                Reply::RenderFlow(*self.render_flows.get(window_id).unwrap_or(&1))
            }
            Action::Frame(_, FrameAction::Update) => {
                Reply::Frame(FrameReply::Updated { needs_repaint: self.needs_repaint })
            }
            Action::Frame(_, FrameAction::AskShouldQuit) => {
                Reply::Frame(FrameReply::ShouldQuit(self.frame_quits))
            }
            Action::Frame(_, _) => Reply::Frame(FrameReply::Done),
            Action::LookUpWindow => Reply::WindowId(self.window_id),
            Action::ReceiveCloseSignal => Reply::CloseSignal(self.close_signal),
            Action::AskShouldQuit(_) => Reply::ShouldQuit(self.should_quit),
            Action::TranslateEvent => Reply::Translated(self.translated),
            Action::Query(_, query) => Reply::Queried(match query {
                Query::InnerPosition => QueryResult::Position(Some(11)),
                Query::OuterPosition => QueryResult::Position(None),
                Query::Fullscreen => QueryResult::Fullscreen(Some(1)),
                Query::IsMaximized
                | Query::IsDecorated
                | Query::IsResizable
                | Query::IsVisible
                | Query::IsMenuVisible => QueryResult::Flag(true),
                _ => QueryResult::Value(12),
            }),
            _ => Reply::Done,
        }
    }
}

/// An action in words.
fn show(action: &Action<Paper>) -> String {
    match action {
        Action::AskAppName(window_id, usage) => format!("name? {} {:?}", window_id, usage),
        Action::OpenPersistence { window_id, app_name } => {
            format!("open {} {}", window_id, app_name)
        }
        Action::BuildContext {
            window_id,
            app,
            native_options,
            title,
            attributes,
        } => format!(
            "build {} {} {} titled {} {:?}",
            window_id, app, native_options, title, attributes
        ),
        Action::CreateIntegration { window_id, name } => format!("integrate {} {}", window_id, name),
        Action::ConnectRender { window_id, render_flow } => {
            format!("connect {} {}", window_id, render_flow)
        }
        Action::Setup(window_id, step) => format!("setup {} {:?}", window_id, step),
        Action::QueueRender(window_id) => format!("queue {}", window_id),
        Action::LoadRenderFlow(window_id) => format!("load {}", window_id),
        Action::SetControlFlow(flow) => format!("flow {:?}", flow),
        Action::Frame(window_id, action) => format!("frame {} {:?}", window_id, action),
        Action::LookUpWindow => String::from("look up"),
        Action::Resize { window_id, width, height } => {
            format!("resize {} {}x{}", window_id, width, height)
        }
        Action::NotifyClose(window_id) => format!("notify close {}", window_id),
        Action::CallbackClose { label } => format!("callback close {}", label),
        Action::ReceiveCloseSignal => String::from("signal?"),
        Action::RemoveMenuListeners(window_id) => format!("remove menu {}", window_id),
        Action::ExitIntegration(window_id) => format!("exit {}", window_id),
        Action::DestroyPainter(window_id) => format!("destroy {}", window_id),
        Action::DeliverEvent(window_id) => format!("deliver {}", window_id),
        Action::AskShouldQuit(window_id) => format!("quit? {}", window_id),
        Action::RequestRedraw(window_id) => format!("redraw {}", window_id),
        Action::TranslateEvent => String::from("translate"),
        Action::Callback { label } => format!("callback {}", label),
        Action::NotifyListeners(window_id) => format!("notify {}", window_id),
        Action::Query(window_id, query) => format!("query {} {:?}", window_id, query),
        Action::Answer(answer) => format!("answer {:?}", answer),
        Action::Operate(window_id, operation) => format!("operate {} {:?}", window_id, operation),
        Action::Finish { prevent_default, should_quit } => {
            format!("finish {}{}", prevent_default, if *should_quit { " quit" } else { "" })
        }
    }
}

/// Runs a turn to its end.
fn run(
    plugin: &mut EguiPlugin<Paper>,
    world: &World,
    start: (Turn<Paper>, Action<Paper>),
) -> Vec<String> {
    let (mut turn, mut action) = start;
    let mut trace = vec![show(&action)];
    while !matches!(action, Action::Finish { .. }) {
        let reply = world.reply(&action);
        assert!(is_accepted(&turn, &reply), "{}", show(&action));
        let next = plugin.resume(turn, reply);
        turn = next.0;
        action = next.1;
        trace.push(show(&action));
    }
    assert!(!is_accepted(&turn, &Reply::Done));
    trace
}

/// Handles an event without a request for a window.
fn handle(plugin: &mut EguiPlugin<Paper>, world: &World, event: Event<i64>) -> Vec<String> {
    let start = plugin.on_event(world.platform, None, event);
    run(plugin, world, start)
}

fn plugin() -> EguiPlugin<Paper> {
    EguiPlugin {
        proxy: 5,
        create_window_channel: (6, ()),
        windows: HashMap::new(),
        is_focused: true,
    }
}

fn context() -> GlutinWindowContext<Paper> {
    GlutinWindowContext {
        context: MaybeRc::new("context"),
        glow_context: MaybeRc::new(1),
        painter: MaybeRcCell::new(2),
        integration: MaybeRcCell::new("integration"),
        render_flow: None,
    }
}

fn open(plugin: &mut EguiPlugin<Paper>, window_id: WebviewId, label: &str) {
    let window =
        WindowWrapper { label: label.to_string(), inner: Some(Box::new(context())), menu_items: None };
    plugin.windows.insert(window_id, window);
}

fn closed(plugin: &mut EguiPlugin<Paper>, window_id: WebviewId, label: &str) {
    let window = WindowWrapper { label: label.to_string(), inner: None, menu_items: None };
    plugin.windows.insert(window_id, window);
}

fn payload(window_id: WebviewId) -> CreateWindowPayload<Paper> {
    CreateWindowPayload { window_id, label: String::from("new"), app: "app", native_options: 3 }
}

const PLATFORMS: [Platform; 4] =
    [Platform::Linux, Platform::Windows, Platform::MacOs, Platform::OtherUnix];

#[test]
fn without_a_window_nothing_is_done() {
    for platform in PLATFORMS {
        let mut plugin = plugin();
        let world = world(platform, 1);
        let events = vec![
            Event::MainEventsCleared,
            Event::RedrawEventsCleared,
            Event::RedrawRequested,
            Event::WindowEvent(WindowEvent::Focused(false)),
            Event::Message(1, WindowMessage::Show),
            Event::Other,
        ];
        for event in events {
            assert_eq!(handle(&mut plugin, &world, event), vec!["finish false"]);
        }
        assert!(plugin.is_focused);
    }
}

#[test]
fn linux_queues_a_frame_of_each_open_window() {
    let mut plugin = plugin();
    open(&mut plugin, 1, "one");
    open(&mut plugin, 2, "two");
    closed(&mut plugin, 3, "three");
    let mut world = world(Platform::Linux, 1);
    world.render_flows.insert(1, 0);
    world.render_flows.insert(2, 2);
    let start = handle_gl_loop_in_order(
        &plugin.windows,
        Platform::Linux,
        Event::MainEventsCleared,
        vec![2, 1],
        true,
    );
    assert_eq!(
        run(&mut plugin, &world, start),
        vec![
            "queue 2",
            "load 2",
            "flow Exit",
            "queue 1",
            "load 1",
            "flow Poll",
            "finish false",
        ]
    );
}

#[test]
fn the_walk_goes_in_the_order_of_the_map() {
    let mut plugin = plugin();
    for window_id in 0..20u64 {
        open(&mut plugin, window_id, "w");
    }
    closed(&mut plugin, 20, "w");
    let order = open_windows(&plugin.windows);
    let mut sorted = order.clone();
    sorted.sort();
    assert_eq!(sorted, (0..20u64).collect::<Vec<_>>());
    let world = world(Platform::Linux, 1);
    let trace = handle(&mut plugin, &world, Event::MainEventsCleared);
    assert_eq!(trace.len(), 61);
    for (at, window_id) in order.iter().enumerate() {
        assert_eq!(trace[3 * at], format!("queue {}", window_id));
        assert_eq!(trace[3 * at + 1], format!("load {}", window_id));
        assert_eq!(trace[3 * at + 2], "flow Wait");
    }
}

#[test]
fn a_number_without_a_control_flow_is_not_accepted() {
    let mut plugin = plugin();
    open(&mut plugin, 1, "one");
    let (turn, action) = plugin.on_event(Platform::Linux, None, Event::MainEventsCleared);
    assert_eq!(show(&action), "queue 1");
    let (turn, action) = plugin.resume(turn, Reply::Done);
    assert_eq!(show(&action), "load 1");
    assert!(is_accepted(&turn, &Reply::RenderFlow(2)));
    assert!(!is_accepted(&turn, &Reply::RenderFlow(3)));
    assert!(!is_accepted(&turn, &Reply::Done));
}

#[test]
fn windows_draws_when_the_redraw_events_are_cleared() {
    let mut plugin = plugin();
    open(&mut plugin, 4, "four");
    let mut world = world(Platform::Windows, 4);
    world.needs_repaint = true;
    assert_eq!(
        handle(&mut plugin, &world, Event::RedrawEventsCleared),
        vec![
            "frame 4 Update",
            "frame 4 HandlePlatformOutput",
            "frame 4 Tessellate",
            "frame 4 Clear",
            "frame 4 Paint",
            "frame 4 SwapBuffers",
            "frame 4 AskShouldQuit",
            "frame 4 RequestRedraw",
            "frame 4 SetControlFlow(Poll)",
            "frame 4 Autosave",
            "finish false",
        ]
    );
    assert_eq!(handle(&mut plugin, &world, Event::RedrawRequested), vec!["finish false"]);
    assert_eq!(handle(&mut plugin, &world, Event::MainEventsCleared), vec!["finish false"]);
}

#[test]
fn macos_draws_at_each_redraw_request() {
    let mut plugin = plugin();
    plugin.is_focused = false;
    open(&mut plugin, 4, "four");
    let mut world = world(Platform::MacOs, 4);
    world.frame_quits = true;
    assert_eq!(
        handle(&mut plugin, &world, Event::RedrawRequested),
        vec![
            "frame 4 Pause { millis: 10 }",
            "frame 4 Update",
            "frame 4 HandlePlatformOutput",
            "frame 4 Tessellate",
            "frame 4 Clear",
            "frame 4 Paint",
            "frame 4 SwapBuffers",
            "frame 4 AskShouldQuit",
            "frame 4 SetControlFlow(Wait)",
            "frame 4 Autosave",
            "finish false quit",
        ]
    );
    assert!(plugin.context(4).is_some());
    assert_eq!(handle(&mut plugin, &world, Event::RedrawEventsCleared), vec!["finish false"]);
    assert_eq!(handle(&mut plugin, &world, Event::MainEventsCleared), vec!["finish false"]);
}

#[test]
fn linux_draws_in_the_render_callback_only() {
    let mut plugin = plugin();
    open(&mut plugin, 4, "four");
    let world = world(Platform::Linux, 4);
    assert_eq!(handle(&mut plugin, &world, Event::RedrawRequested), vec!["finish false"]);
    assert_eq!(handle(&mut plugin, &world, Event::RedrawEventsCleared), vec!["finish false"]);
    assert_eq!(handle(&mut plugin, &world, Event::Other), vec!["finish false"]);
}

#[test]
fn an_event_for_another_window_is_passed_on() {
    let mut plugin = plugin();
    open(&mut plugin, 1, "one");
    let world = world(Platform::Linux, 99);
    let event = Event::WindowEvent(WindowEvent::Focused(false));
    assert_eq!(handle(&mut plugin, &world, event), vec!["look up", "finish false"]);
    assert!(plugin.is_focused);
    assert!(plugin.context(1).is_some());
}

#[test]
fn the_focus_is_remembered() {
    let mut plugin = plugin();
    open(&mut plugin, 1, "one");
    let world = world(Platform::Windows, 1);
    let event = Event::WindowEvent(WindowEvent::Focused(false));
    assert_eq!(
        handle(&mut plugin, &world, event),
        vec![
            "look up",
            "deliver 1",
            "quit? 1",
            "redraw 1",
            "translate",
            "callback one",
            "notify 1",
            "finish true",
        ]
    );
    assert!(!plugin.is_focused);
    let trace = handle(&mut plugin, &world, Event::RedrawEventsCleared);
    assert_eq!(trace[0], "frame 1 Pause { millis: 10 }");
    handle(&mut plugin, &world, Event::WindowEvent(WindowEvent::Focused(true)));
    assert!(plugin.is_focused);
    let trace = handle(&mut plugin, &world, Event::RedrawEventsCleared);
    assert_eq!(trace[0], "frame 1 Update");
}

#[test]
fn a_resized_window_resizes_its_context() {
    let mut plugin = plugin();
    open(&mut plugin, 1, "one");
    let mut world = world(Platform::MacOs, 1);
    world.translated = false;
    let event = Event::WindowEvent(WindowEvent::Resized { width: 640, height: 480 });
    assert_eq!(
        handle(&mut plugin, &world, event),
        vec![
            "look up",
            "resize 1 640x480",
            "deliver 1",
            "quit? 1",
            "redraw 1",
            "translate",
            "finish true",
        ]
    );
}

#[test]
fn a_window_closes_when_nobody_prevents_it() {
    for platform in PLATFORMS {
        let mut plugin = plugin();
        open(&mut plugin, 1, "one");
        open(&mut plugin, 2, "two");
        let mut world = world(platform, 1);
        world.translated = false;
        if platform == Platform::Windows {
            world.close_signal = Some(false);
        }
        let event = Event::WindowEvent(WindowEvent::CloseRequested);
        assert_eq!(
            handle(&mut plugin, &world, event),
            vec![
                "look up",
                "notify close 1",
                "callback close one",
                "signal?",
                "remove menu 1",
                "exit 1",
                "destroy 1",
                "translate",
                "finish true",
            ]
        );
        assert!(plugin.context(1).is_none());
        assert_eq!(plugin.windows[&1].label, "one");
        assert!(plugin.context(2).is_some());
    }
}

#[test]
fn the_turn_holds_the_context_that_is_torn_down() {
    let mut plugin = plugin();
    open(&mut plugin, 1, "one");
    let world = world(Platform::Windows, 1);
    let event = Event::WindowEvent(WindowEvent::CloseRequested);
    let (mut turn, mut action) = plugin.on_event(Platform::Windows, None, event);
    while !matches!(action, Action::ExitIntegration(1)) {
        assert!(turn.closing_context().is_none());
        let next = plugin.resume(turn, world.reply(&action));
        turn = next.0;
        action = next.1;
    }
    assert!(plugin.context(1).is_none());
    let held = turn.closing_context().unwrap();
    assert_eq!(*held.context, "context");
    assert_eq!(*held.integration.borrow(), "integration");
    let (turn, action) = plugin.resume(turn, Reply::Done);
    assert_eq!(show(&action), "destroy 1");
    assert_eq!(*turn.closing_context().unwrap().painter.borrow(), 2);
    let (turn, action) = plugin.resume(turn, Reply::Done);
    assert_eq!(show(&action), "translate");
    assert!(turn.closing_context().is_none());
}

#[test]
fn a_prevented_close_leaves_the_window_open() {
    let mut plugin = plugin();
    open(&mut plugin, 1, "one");
    let mut world = world(Platform::Linux, 1);
    world.close_signal = Some(true);
    world.translated = false;
    let event = Event::WindowEvent(WindowEvent::CloseRequested);
    assert_eq!(
        handle(&mut plugin, &world, event),
        vec![
            "look up",
            "notify close 1",
            "callback close one",
            "signal?",
            "deliver 1",
            "quit? 1",
            "redraw 1",
            "translate",
            "finish true",
        ]
    );
    assert!(plugin.context(1).is_some());
}

#[test]
fn a_closed_window_forgets_its_menu_again_but_is_not_torn_down_again() {
    let mut plugin = plugin();
    closed(&mut plugin, 1, "one");
    let mut world = world(Platform::Linux, 1);
    world.translated = false;
    let event = Event::WindowEvent(WindowEvent::CloseRequested);
    assert_eq!(
        handle(&mut plugin, &world, event),
        vec![
            "look up",
            "notify close 1",
            "callback close one",
            "signal?",
            "remove menu 1",
            "translate",
            "finish true",
        ]
    );
}

#[test]
fn an_event_of_a_closed_window_only_reaches_the_listeners() {
    let mut plugin = plugin();
    closed(&mut plugin, 1, "one");
    let world = world(Platform::Windows, 1);
    let event = Event::WindowEvent(WindowEvent::Resized { width: 1, height: 2 });
    assert_eq!(
        handle(&mut plugin, &world, event),
        vec!["look up", "translate", "callback one", "notify 1", "finish true"]
    );
    assert_eq!(handle(&mut plugin, &world, Event::RedrawEventsCleared), vec!["finish false"]);
}

#[test]
fn a_window_whose_application_quits_is_closed() {
    let mut plugin = plugin();
    open(&mut plugin, 1, "one");
    let mut world = world(Platform::Linux, 1);
    world.should_quit = true;
    assert_eq!(
        handle(&mut plugin, &world, Event::WindowEvent(WindowEvent::Other)),
        vec![
            "look up",
            "deliver 1",
            "quit? 1",
            "flow Wait",
            "redraw 1",
            "remove menu 1",
            "translate",
            "callback one",
            "notify 1",
            "finish true",
        ]
    );
    assert!(plugin.context(1).is_none());
    assert!(plugin.windows.contains_key(&1));
}

#[test]
fn a_question_is_answered() {
    let mut plugin = plugin();
    open(&mut plugin, 1, "one");
    let world = world(Platform::Linux, 1);
    assert_eq!(
        handle(&mut plugin, &world, Event::Message(1, WindowMessage::InnerPosition)),
        vec!["query 1 InnerPosition", "answer Position(Ok(11))", "finish false"]
    );
    assert_eq!(
        handle(&mut plugin, &world, Event::Message(1, WindowMessage::OuterPosition)),
        vec![
            "query 1 OuterPosition",
            "answer Position(Err(FailedToSendMessage))",
            "finish false",
        ]
    );
    assert_eq!(
        handle(&mut plugin, &world, Event::Message(1, WindowMessage::IsFullscreen)),
        vec!["query 1 Fullscreen", "answer Flag(true)", "finish false"]
    );
    assert_eq!(
        handle(&mut plugin, &world, Event::Message(1, WindowMessage::ScaleFactor)),
        vec!["query 1 ScaleFactor", "answer Value(12)", "finish false"]
    );
}

#[test]
fn macos_answers_the_theme_twice() {
    let theme = |platform: Platform| {
        let mut plugin = plugin();
        open(&mut plugin, 1, "one");
        let world = world(platform, 1);
        handle(&mut plugin, &world, Event::Message(1, WindowMessage::Theme))
    };
    assert_eq!(theme(Platform::Linux), vec!["answer LightTheme", "finish false"]);
    assert_eq!(theme(Platform::OtherUnix), vec!["answer LightTheme", "finish false"]);
    assert_eq!(theme(Platform::Windows), vec!["query 1 Theme", "answer Value(12)", "finish false"]);
    assert_eq!(
        theme(Platform::MacOs),
        vec!["query 1 Theme", "answer Value(12)", "answer LightTheme", "finish false"]
    );
}

#[test]
fn a_setter_changes_the_window() {
    let mut plugin = plugin();
    open(&mut plugin, 1, "one");
    let world = world(Platform::MacOs, 1);
    assert_eq!(
        handle(&mut plugin, &world, Event::Message(1, WindowMessage::SetSize(70))),
        vec!["operate 1 SetInnerSize(70)", "finish false"]
    );
    assert_eq!(
        handle(&mut plugin, &world, Event::Message(1, WindowMessage::SetSkipTaskbar(true))),
        vec!["finish false"]
    );
    assert_eq!(
        handle(&mut plugin, &world, Event::Message(1, WindowMessage::Close)),
        vec!["finish false"]
    );
    assert!(plugin.context(1).is_some());
}

#[test]
fn a_repaint_request_draws_the_window_again() {
    let mut plugin = plugin();
    open(&mut plugin, 1, "one");
    open(&mut plugin, 2, "two");
    let world = world(Platform::Linux, 1);
    let (window_id, message) = repaint_request::<i64>(2);
    assert_eq!(
        handle(&mut plugin, &world, Event::Message(window_id, message)),
        vec!["operate 2 RequestRedraw", "finish false"]
    );
}

#[test]
fn a_message_to_a_closed_or_unknown_window_is_lost() {
    let mut plugin = plugin();
    open(&mut plugin, 1, "one");
    closed(&mut plugin, 2, "two");
    let world = world(Platform::Linux, 1);
    for window_id in [2, 3] {
        assert_eq!(
            handle(&mut plugin, &world, Event::Message(window_id, WindowMessage::InnerSize)),
            vec!["finish false"]
        );
    }
}

#[test]
fn a_requested_window_is_set_up_before_the_event() {
    for platform in PLATFORMS {
        let mut plugin = plugin();
        let world = world(platform, 8);
        let start = plugin.on_event(platform, Some(payload(8)), Event::Other);
        let trace = run(&mut plugin, &world, start);
        let mut expected = vec![
            "name? 8 Persistence",
            "open 8 kept",
            "name? 8 Title",
            "build 8 app 3 titled demo GlAttributes { depth_buffer: 0, srgb: true, stencil_buffer: 0, vsync: true }",
            "setup 8 MapWindow",
            "setup 8 LoadGl",
            "setup 8 EnableFramebufferSrgb",
            "setup 8 CreatePainter",
            "integrate 8 egui_glow",
            "setup 8 InsertWindowListeners",
            "setup 8 InsertMenuListeners",
        ];
        if platform == Platform::Linux {
            expected.push("connect 8 1");
        }
        expected.push("setup 8 HandOver");
        expected.push("finish false");
        assert_eq!(trace, expected);
        let created = plugin.context(8).unwrap();
        assert_eq!(*created.context, "new context");
        assert_eq!(*created.glow_context, 1);
        assert_eq!(*created.painter.borrow(), 2);
        assert_eq!(*created.integration.borrow(), "new integration");
        let shared = platform == Platform::Linux;
        assert_eq!(created.render_flow.is_some(), shared);
        assert_eq!(matches!(created.context, MaybeRc::Rc(_)), shared);
        assert_eq!(matches!(created.painter, MaybeRcCell::RcCell(_)), shared);
        assert_eq!(plugin.windows[&8].label, "new");
        assert!(plugin.windows[&8].menu_items.is_none());
    }
}

#[test]
fn a_new_window_takes_part_in_its_first_event() {
    let mut plugin = plugin();
    open(&mut plugin, 1, "one");
    let world = world(Platform::Linux, 1);
    let start = plugin.on_event(Platform::Linux, Some(payload(8)), Event::MainEventsCleared);
    let trace = run(&mut plugin, &world, start);
    assert!(trace.contains(&String::from("queue 1")));
    assert!(trace.contains(&String::from("queue 8")));
    assert_eq!(trace.len(), 13 + 6 + 1);
    assert!(plugin.is_focused);
}

#[test]
fn a_window_has_the_parts_of_its_platform() {
    let mut plugin = plugin();
    let (mut turn, mut action) = plugin.on_event(Platform::Linux, Some(payload(8)), Event::Other);
    while !matches!(action, Action::Setup(_, SetupStep::HandOver)) {
        assert!(!is_accepted(&turn, &Reply::Parts(world(Platform::Linux, 8).parts())));
        let next = plugin.resume(turn, world(Platform::Linux, 8).reply(&action));
        turn = next.0;
        action = next.1;
    }
    assert!(is_accepted(&turn, &Reply::Parts(world(Platform::Linux, 8).parts())));
    assert!(!is_accepted(&turn, &Reply::Parts(world(Platform::Windows, 8).parts())));
    assert!(!is_accepted(&turn, &Reply::Done));
    assert_eq!(INTEGRATION_NAME, "egui_glow");
}

#[test]
fn the_turn_holds_the_application_until_its_window_is_built() {
    let mut plugin = plugin();
    let (turn, action) = plugin.on_event(Platform::Windows, Some(payload(8)), Event::Other);
    assert_eq!(show(&action), "name? 8 Persistence");
    assert_eq!(turn.requested_app(), Some(&"app"));
    assert!(!is_accepted(&turn, &Reply::Done));
    let (turn, action) = plugin.resume(turn, Reply::AppName(String::from("notes")));
    assert_eq!(show(&action), "open 8 notes");
    assert!(!is_accepted(&turn, &Reply::AppName(String::from("notes"))));
    let (turn, action) = plugin.resume(turn, Reply::Done);
    assert_eq!(show(&action), "name? 8 Title");
    assert_eq!(turn.requested_app(), Some(&"app"));
    let (turn, action) = plugin.resume(turn, Reply::AppName(String::from("notes (2)")));
    assert!(show(&action).starts_with("build 8 app 3 titled notes (2) "));
    assert!(turn.requested_app().is_none());
}

#[test]
fn one_application_that_quits_is_told_of_all() {
    let draw = |quitting: Option<u64>| {
        let mut plugin = plugin();
        open(&mut plugin, 1, "one");
        open(&mut plugin, 2, "two");
        let (mut turn, mut action) = handle_gl_loop_in_order(
            &plugin.windows,
            Platform::Windows,
            Event::RedrawEventsCleared,
            vec![1, 2],
            true,
        );
        loop {
            let mut world = world(Platform::Windows, 1);
            match &action {
                Action::Finish { should_quit, .. } => return *should_quit,
                Action::Frame(window_id, _) => world.frame_quits = Some(*window_id) == quitting,
                _ => unreachable!(),
            }
            let next = plugin.resume(turn, world.reply(&action));
            turn = next.0;
            action = next.1;
        }
    };
    assert!(!draw(None));
    assert!(draw(Some(1)));
    assert!(draw(Some(2)));
}

#[test]
fn other_unixes_draw_at_each_redraw_request() {
    let mut plugin = plugin();
    open(&mut plugin, 4, "four");
    let world = world(Platform::OtherUnix, 4);
    let trace = handle(&mut plugin, &world, Event::RedrawRequested);
    assert_eq!(trace.len(), 10);
    assert_eq!(trace[0], "frame 4 Update");
    assert_eq!(handle(&mut plugin, &world, Event::MainEventsCleared), vec!["finish false"]);
}

#[test]
fn a_second_tick_does_the_same() {
    let mut plugin = plugin();
    for window_id in 0..5u64 {
        open(&mut plugin, window_id, "w");
    }
    let mut world = world(Platform::Linux, 1);
    world.render_flows.insert(3, 0);
    let one = handle(&mut plugin, &world, Event::MainEventsCleared);
    let two = handle(&mut plugin, &world, Event::MainEventsCleared);
    assert_eq!(one, two);
}

#[test]
fn linux_takes_over_the_flow_of_a_window_at_the_end_of_the_main_events() {
    let end: Event<i64> = Event::MainEventsCleared;
    let mut control_flow = ControlFlow::Wait;
    linux_gl_loop(&end, 0, &mut control_flow);
    assert_eq!(control_flow, ControlFlow::Poll);
    linux_gl_loop(&end, 0, &mut control_flow);
    assert_eq!(control_flow, ControlFlow::Poll);
    linux_gl_loop(&Event::<i64>::RedrawRequested, 2, &mut control_flow);
    assert_eq!(control_flow, ControlFlow::Poll);
    linux_gl_loop(&end, 2, &mut control_flow);
    assert_eq!(control_flow, ControlFlow::Exit);
    linux_gl_loop(&end, 1, &mut control_flow);
    assert_eq!(control_flow, ControlFlow::Wait);
}

#[test]
fn a_window_that_is_notified_has_listeners() {
    for platform in PLATFORMS {
        let mut plugin = plugin();
        let world = world(platform, 8);
        let event = Event::WindowEvent(WindowEvent::CloseRequested);
        let start = plugin.on_event(platform, Some(payload(8)), event);
        let trace = run(&mut plugin, &world, start);
        let at = |words: &str| trace.iter().position(|action| action == words);
        let inserted = at("setup 8 InsertWindowListeners");
        assert!(inserted.is_some());
        assert!(inserted < at("notify close 8"));
        assert!(inserted < at("notify 8"));
        assert!(plugin.windows.contains_key(&8));
    }
}

#[test]
fn requests_become_windows_one_by_one() {
    let mut plugin = plugin();
    let world = world(Platform::Linux, 1);
    let mut pending = vec![payload(10), payload(11), payload(12)];
    for turn in 0..5usize {
        let received = if pending.is_empty() { None } else { Some(pending.remove(0)) };
        let start = plugin.on_event(Platform::Linux, received, Event::Other);
        run(&mut plugin, &world, start);
        let mut known: Vec<u64> = plugin.windows.keys().copied().collect();
        known.sort();
        let made = if turn < 3 { turn + 1 } else { 3 };
        assert_eq!(known, (10..10 + made as u64).collect::<Vec<_>>());
        assert_eq!(pending.len(), 3 - made);
    }
}

#[test]
fn a_handle_asks_for_windows() {
    let plugin = plugin();
    let handle = plugin.handle();
    assert_eq!(handle.proxy, 5);
    assert_eq!(handle.create_window_tx, 6);
    let (actions, window) = handle.create_window_with_id(42, String::from("main"), "app", 9);
    assert_eq!(window.id, 42);
    assert_eq!(window.proxy, 5);
    assert_eq!(actions.len(), 2);
    match &actions[0] {
        HandleAction::Send(payload) => {
            assert_eq!(payload.window_id, 42);
            assert_eq!(payload.label, "main");
            assert_eq!(payload.app, "app");
            assert_eq!(payload.native_options, 9);
        }
        HandleAction::Wake => unreachable!(),
    }
    assert!(matches!(actions[1], HandleAction::Wake));
}

#[test]
fn each_window_gets_an_id_of_its_own() {
    let plugin = plugin();
    let handle = plugin.handle();
    let mut ids: Vec<u64> = Vec::new();
    for _ in 0..16 {
        let (actions, window) = handle.create_window(String::from("main"), "app", 9);
        match &actions[0] {
            HandleAction::Send(payload) => assert_eq!(payload.window_id, window.id),
            HandleAction::Wake => unreachable!(),
        }
        assert!(!ids.contains(&window.id));
        ids.push(window.id);
    }
}

#[test]
fn a_context_is_taken_once() {
    let mut plugin = plugin();
    open(&mut plugin, 1, "one");
    assert!(context_of(&plugin.windows, 1).is_some());
    assert!(take_context(&mut plugin.windows, 1).is_some());
    assert!(context_of(&plugin.windows, 1).is_none());
    assert!(take_context(&mut plugin.windows, 1).is_none());
    assert!(take_context(&mut plugin.windows, 2).is_none());
    assert_eq!(plugin.windows.len(), 1);
    assert_eq!(plugin.windows[&1].label, "one");
}
