use tauri_egui::backend::Platform;
use tauri_egui::message::{answer, handle_message, Query, QueryResult, WindowMessage};

const PLATFORMS: [Platform; 4] =
    [Platform::Linux, Platform::Windows, Platform::MacOs, Platform::OtherUnix];

/// What a message comes down to, in words.
fn handled(platform: Platform, message: WindowMessage<i64>) -> String {
    format!("{:?}", handle_message(platform, message))
}

#[test]
fn getters_ask_the_window() {
    for platform in PLATFORMS {
        assert_eq!(handled(platform, WindowMessage::ScaleFactor), "Ask(ScaleFactor)");
        assert_eq!(handled(platform, WindowMessage::InnerPosition), "Ask(InnerPosition)");
        assert_eq!(handled(platform, WindowMessage::OuterPosition), "Ask(OuterPosition)");
        assert_eq!(handled(platform, WindowMessage::InnerSize), "Ask(InnerSize)");
        assert_eq!(handled(platform, WindowMessage::OuterSize), "Ask(OuterSize)");
        assert_eq!(handled(platform, WindowMessage::IsFullscreen), "Ask(Fullscreen)");
        assert_eq!(handled(platform, WindowMessage::IsMaximized), "Ask(IsMaximized)");
        assert_eq!(handled(platform, WindowMessage::IsDecorated), "Ask(IsDecorated)");
        assert_eq!(handled(platform, WindowMessage::IsResizable), "Ask(IsResizable)");
        assert_eq!(handled(platform, WindowMessage::IsVisible), "Ask(IsVisible)");
        assert_eq!(handled(platform, WindowMessage::IsMenuVisible), "Ask(IsMenuVisible)");
        assert_eq!(handled(platform, WindowMessage::CurrentMonitor), "Ask(CurrentMonitor)");
        assert_eq!(handled(platform, WindowMessage::PrimaryMonitor), "Ask(PrimaryMonitor)");
        assert_eq!(handled(platform, WindowMessage::AvailableMonitors), "Ask(AvailableMonitors)");
        assert_eq!(handled(platform, WindowMessage::RawWindowHandle), "Ask(RawWindowHandle)");
    }
}

#[test]
fn setters_change_the_window() {
    let platform = Platform::Windows;
    let title = WindowMessage::SetTitle(String::from("a"));
    assert_eq!(handled(platform, WindowMessage::Center), "Operate(Center)");
    assert_eq!(
        handled(platform, WindowMessage::RequestUserAttention(Some(2))),
        "Operate(RequestUserAttention(Some(2)))"
    );
    assert_eq!(
        handled(platform, WindowMessage::RequestUserAttention(None)),
        "Operate(RequestUserAttention(None))"
    );
    assert_eq!(handled(platform, WindowMessage::SetResizable(false)), "Operate(SetResizable(false))");
    assert_eq!(handled(platform, title), "Operate(SetTitle(\"a\"))");
    assert_eq!(handled(platform, WindowMessage::Maximize), "Operate(SetMaximized(true))");
    assert_eq!(handled(platform, WindowMessage::Unmaximize), "Operate(SetMaximized(false))");
    assert_eq!(handled(platform, WindowMessage::Minimize), "Operate(SetMinimized(true))");
    assert_eq!(handled(platform, WindowMessage::Unminimize), "Operate(SetMinimized(false))");
    assert_eq!(handled(platform, WindowMessage::ShowMenu), "Operate(ShowMenu)");
    assert_eq!(handled(platform, WindowMessage::HideMenu), "Operate(HideMenu)");
    assert_eq!(handled(platform, WindowMessage::Show), "Operate(SetVisible(true))");
    assert_eq!(handled(platform, WindowMessage::Hide), "Operate(SetVisible(false))");
    assert_eq!(
        handled(platform, WindowMessage::SetDecorations(true)),
        "Operate(SetDecorations(true))"
    );
    assert_eq!(
        handled(platform, WindowMessage::SetAlwaysOnTop(true)),
        "Operate(SetAlwaysOnTop(true))"
    );
    assert_eq!(handled(platform, WindowMessage::SetSize(5)), "Operate(SetInnerSize(5))");
    assert_eq!(
        handled(platform, WindowMessage::SetMinSize(Some(6))),
        "Operate(SetMinInnerSize(Some(6)))"
    );
    assert_eq!(
        handled(platform, WindowMessage::SetMaxSize(None)),
        "Operate(SetMaxInnerSize(None))"
    );
    assert_eq!(handled(platform, WindowMessage::SetPosition(7)), "Operate(SetOuterPosition(7))");
    assert_eq!(handled(platform, WindowMessage::SetFocus), "Operate(SetFocus)");
    assert_eq!(handled(platform, WindowMessage::SetIcon(8)), "Operate(SetWindowIcon(Some(8)))");
    assert_eq!(handled(platform, WindowMessage::SetCursorGrab(true)), "Operate(SetCursorGrab(true))");
    assert_eq!(
        handled(platform, WindowMessage::SetCursorVisible(false)),
        "Operate(SetCursorVisible(false))"
    );
    assert_eq!(handled(platform, WindowMessage::SetCursorIcon(9)), "Operate(SetCursorIcon(9))");
    assert_eq!(
        handled(platform, WindowMessage::SetCursorPosition(10)),
        "Operate(SetCursorPosition(10))"
    );
    assert_eq!(handled(platform, WindowMessage::DragWindow), "Operate(DragWindow)");
    assert_eq!(handled(platform, WindowMessage::RequestRedraw), "Operate(RequestRedraw)");
}

#[test]
fn fullscreen_is_borderless_on_the_current_monitor() {
    assert_eq!(
        handled(Platform::Linux, WindowMessage::SetFullscreen(true)),
        "Operate(SetFullscreen(Some(BorderlessOnCurrentMonitor)))"
    );
    assert_eq!(
        handled(Platform::Linux, WindowMessage::SetFullscreen(false)),
        "Operate(SetFullscreen(None))"
    );
}

#[test]
fn the_theme_and_the_taskbar_depend_on_the_platform() {
    assert_eq!(handled(Platform::Linux, WindowMessage::Theme), "AnswerLight");
    assert_eq!(handled(Platform::Windows, WindowMessage::Theme), "Ask(Theme)");
    assert_eq!(handled(Platform::MacOs, WindowMessage::Theme), "Ask(Theme)");
    let skip = "Operate(SetSkipTaskbar(true))";
    assert_eq!(handled(Platform::Linux, WindowMessage::SetSkipTaskbar(true)), skip);
    assert_eq!(handled(Platform::Windows, WindowMessage::SetSkipTaskbar(true)), skip);
    assert_eq!(handled(Platform::MacOs, WindowMessage::SetSkipTaskbar(true)), "Ignore");
    assert_eq!(handled(Platform::OtherUnix, WindowMessage::SetSkipTaskbar(true)), "Ignore");
    assert_eq!(handled(Platform::OtherUnix, WindowMessage::Theme), "AnswerLight");
}

#[test]
fn some_messages_have_no_effect() {
    for platform in PLATFORMS {
        assert_eq!(handled(platform, WindowMessage::Close), "Ignore");
        assert_eq!(handled(platform, WindowMessage::UpdateMenuItem), "Ignore");
        assert_eq!(handled(platform, WindowMessage::Other), "Ignore");
    }
}

#[test]
fn answers_say_what_the_window_said() {
    let said = |result: QueryResult<i64>| format!("{:?}", answer(result));
    assert_eq!(said(QueryResult::Position(Some(3))), "Position(Ok(3))");
    assert_eq!(said(QueryResult::Position(None)), "Position(Err(FailedToSendMessage))");
    assert_eq!(said(QueryResult::Fullscreen(Some(1))), "Flag(true)");
    assert_eq!(said(QueryResult::Fullscreen(None)), "Flag(false)");
    assert_eq!(said(QueryResult::Flag(true)), "Flag(true)");
    assert_eq!(said(QueryResult::Value(4)), "Value(4)");
}

#[test]
fn each_query_wants_its_kind_of_result() {
    let position: QueryResult<i64> = QueryResult::Position(None);
    let fullscreen: QueryResult<i64> = QueryResult::Fullscreen(None);
    let flag: QueryResult<i64> = QueryResult::Flag(false);
    let value: QueryResult<i64> = QueryResult::Value(0);
    assert!(Query::InnerPosition.is_answered_by(&position));
    assert!(Query::OuterPosition.is_answered_by(&position));
    assert!(!Query::InnerPosition.is_answered_by(&value));
    assert!(Query::Fullscreen.is_answered_by(&fullscreen));
    assert!(!Query::Fullscreen.is_answered_by(&flag));
    assert!(Query::IsVisible.is_answered_by(&flag));
    assert!(!Query::IsVisible.is_answered_by(&fullscreen));
    assert!(Query::Theme.is_answered_by(&value));
    assert!(Query::ScaleFactor.is_answered_by(&value));
    assert!(!Query::ScaleFactor.is_answered_by(&flag));
}
