//! The messages by which other parts of an application read and change a window.

use crate::backend::{Platform, WebviewId};
use vstd::prelude::*;

verus! {

/// A message to a window. `V` stands for the sizes, positions, icons, cursors and
/// attention requests of the windowing library.
///
/// The messages up to `Theme` ask something and carry a channel for the answer,
/// which the caller keeps.
pub enum WindowMessage<V> {
    ScaleFactor,
    InnerPosition,
    OuterPosition,
    InnerSize,
    OuterSize,
    IsFullscreen,
    IsMaximized,
    IsDecorated,
    IsResizable,
    IsVisible,
    IsMenuVisible,
    CurrentMonitor,
    PrimaryMonitor,
    AvailableMonitors,
    RawWindowHandle,
    Theme,
    Center,
    RequestUserAttention(Option<V>),
    SetResizable(bool),
    SetTitle(String),
    Maximize,
    Unmaximize,
    Minimize,
    Unminimize,
    ShowMenu,
    HideMenu,
    Show,
    Hide,
    Close,
    SetDecorations(bool),
    SetAlwaysOnTop(bool),
    SetSize(V),
    SetMinSize(Option<V>),
    SetMaxSize(Option<V>),
    SetPosition(V),
    SetFullscreen(bool),
    SetFocus,
    SetIcon(V),
    SetSkipTaskbar(bool),
    SetCursorGrab(bool),
    SetCursorVisible(bool),
    SetCursorIcon(V),
    SetCursorPosition(V),
    DragWindow,
    UpdateMenuItem,
    RequestRedraw,
    /// A message that egui windows know nothing of.
    Other,
}

/// Something that a window is asked for.
#[derive(Clone, Copy, Debug, PartialEq, Eq, Structural)]
pub enum Query {
    ScaleFactor,
    InnerPosition,
    OuterPosition,
    InnerSize,
    OuterSize,
    /// The fullscreen mode, if any.
    Fullscreen,
    IsMaximized,
    IsDecorated,
    IsResizable,
    IsVisible,
    IsMenuVisible,
    CurrentMonitor,
    PrimaryMonitor,
    AvailableMonitors,
    RawWindowHandle,
    Theme,
}

/// What a window says to a [`Query`].
#[derive(Debug)]
pub enum QueryResult<V> {
    /// A position, or nothing where the platform cannot tell it.
    Position(Option<V>),
    /// The fullscreen mode, if any.
    Fullscreen(Option<V>),
    /// The value of a property that is on or off.
    Flag(bool),
    /// Any other value.
    Value(V),
}

/// An error that is sent as an answer.
#[derive(Clone, Copy, Debug, PartialEq, Eq, Structural)]
pub enum Error {
    FailedToSendMessage,
}

/// What is sent on the channel of a message.
#[derive(Debug)]
pub enum Answer<V> {
    Position(Result<V, Error>),
    Flag(bool),
    Value(V),
    /// The light theme, whatever the window says.
    LightTheme,
}

/// How a window becomes fullscreen.
#[derive(Clone, Copy, Debug, PartialEq, Eq, Structural)]
pub enum Fullscreen {
    /// Without a border, on the monitor that the window is on.
    BorderlessOnCurrentMonitor,
}

/// A change to a window.
#[derive(Debug)]
pub enum WindowOperation<V> {
    Center,
    RequestUserAttention(Option<V>),
    SetResizable(bool),
    SetTitle(String),
    SetMaximized(bool),
    SetMinimized(bool),
    ShowMenu,
    HideMenu,
    SetVisible(bool),
    SetDecorations(bool),
    SetAlwaysOnTop(bool),
    SetInnerSize(V),
    SetMinInnerSize(Option<V>),
    SetMaxInnerSize(Option<V>),
    SetOuterPosition(V),
    SetFullscreen(Option<Fullscreen>),
    SetFocus,
    SetWindowIcon(Option<V>),
    SetSkipTaskbar(bool),
    SetCursorGrab(bool),
    SetCursorVisible(bool),
    SetCursorIcon(V),
    SetCursorPosition(V),
    DragWindow,
    RequestRedraw,
}

/// What a message comes down to.
#[derive(Debug)]
pub enum Handling<V> {
    /// Nothing happens.
    Ignore,
    /// The window is changed.
    Operate(WindowOperation<V>),
    /// The window is asked, and what it says is sent as the answer.
    Ask(Query),
    /// The light theme is sent as the answer.
    AnswerLight,
}

/// What a message to an open window comes down to on a platform.
///
/// Only Windows and macOS know the theme of a window, and only Linux and Windows can
/// leave one out of the taskbar. Closing a window and updating a menu item by message have no
/// effect.
pub open spec fn handling<V>(platform: Platform, message: WindowMessage<V>) -> Handling<V> {
    match message {
        WindowMessage::ScaleFactor => Handling::Ask(Query::ScaleFactor),
        WindowMessage::InnerPosition => Handling::Ask(Query::InnerPosition),
        WindowMessage::OuterPosition => Handling::Ask(Query::OuterPosition),
        WindowMessage::InnerSize => Handling::Ask(Query::InnerSize),
        WindowMessage::OuterSize => Handling::Ask(Query::OuterSize),
        WindowMessage::IsFullscreen => Handling::Ask(Query::Fullscreen),
        WindowMessage::IsMaximized => Handling::Ask(Query::IsMaximized),
        WindowMessage::IsDecorated => Handling::Ask(Query::IsDecorated),
        WindowMessage::IsResizable => Handling::Ask(Query::IsResizable),
        WindowMessage::IsVisible => Handling::Ask(Query::IsVisible),
        WindowMessage::IsMenuVisible => Handling::Ask(Query::IsMenuVisible),
        WindowMessage::CurrentMonitor => Handling::Ask(Query::CurrentMonitor),
        WindowMessage::PrimaryMonitor => Handling::Ask(Query::PrimaryMonitor),
        WindowMessage::AvailableMonitors => Handling::Ask(Query::AvailableMonitors),
        WindowMessage::RawWindowHandle => Handling::Ask(Query::RawWindowHandle),
        WindowMessage::Theme => if platform is Windows || platform is MacOs {
            Handling::Ask(Query::Theme)
        } else {
            Handling::AnswerLight
        },
        WindowMessage::Center => Handling::Operate(WindowOperation::Center),
        WindowMessage::RequestUserAttention(kind) => Handling::Operate(
            WindowOperation::RequestUserAttention(kind),
        ),
        WindowMessage::SetResizable(resizable) => Handling::Operate(
            WindowOperation::SetResizable(resizable),
        ),
        WindowMessage::SetTitle(title) => Handling::Operate(WindowOperation::SetTitle(title)),
        WindowMessage::Maximize => Handling::Operate(WindowOperation::SetMaximized(true)),
        WindowMessage::Unmaximize => Handling::Operate(WindowOperation::SetMaximized(false)),
        WindowMessage::Minimize => Handling::Operate(WindowOperation::SetMinimized(true)),
        WindowMessage::Unminimize => Handling::Operate(WindowOperation::SetMinimized(false)),
        WindowMessage::ShowMenu => Handling::Operate(WindowOperation::ShowMenu),
        WindowMessage::HideMenu => Handling::Operate(WindowOperation::HideMenu),
        WindowMessage::Show => Handling::Operate(WindowOperation::SetVisible(true)),
        WindowMessage::Hide => Handling::Operate(WindowOperation::SetVisible(false)),
        WindowMessage::Close => Handling::Ignore,
        WindowMessage::SetDecorations(decorations) => Handling::Operate(
            WindowOperation::SetDecorations(decorations),
        ),
        WindowMessage::SetAlwaysOnTop(on_top) => Handling::Operate(
            WindowOperation::SetAlwaysOnTop(on_top),
        ),
        WindowMessage::SetSize(size) => Handling::Operate(WindowOperation::SetInnerSize(size)),
        WindowMessage::SetMinSize(size) => Handling::Operate(
            WindowOperation::SetMinInnerSize(size),
        ),
        WindowMessage::SetMaxSize(size) => Handling::Operate(
            WindowOperation::SetMaxInnerSize(size),
        ),
        WindowMessage::SetPosition(position) => Handling::Operate(
            WindowOperation::SetOuterPosition(position),
        ),
        WindowMessage::SetFullscreen(fullscreen) => Handling::Operate(
            WindowOperation::SetFullscreen(
                if fullscreen {
                    Some(Fullscreen::BorderlessOnCurrentMonitor)
                } else {
                    None
                },
            ),
        ),
        WindowMessage::SetFocus => Handling::Operate(WindowOperation::SetFocus),
        WindowMessage::SetIcon(icon) => Handling::Operate(
            WindowOperation::SetWindowIcon(Some(icon)),
        ),
        WindowMessage::SetSkipTaskbar(skip) => if platform is Linux || platform is Windows {
            Handling::Operate(WindowOperation::SetSkipTaskbar(skip))
        } else {
            Handling::Ignore
        },
        WindowMessage::SetCursorGrab(grab) => Handling::Operate(
            WindowOperation::SetCursorGrab(grab),
        ),
        WindowMessage::SetCursorVisible(visible) => Handling::Operate(
            WindowOperation::SetCursorVisible(visible),
        ),
        WindowMessage::SetCursorIcon(icon) => Handling::Operate(
            WindowOperation::SetCursorIcon(icon),
        ),
        WindowMessage::SetCursorPosition(position) => Handling::Operate(
            WindowOperation::SetCursorPosition(position),
        ),
        WindowMessage::DragWindow => Handling::Operate(WindowOperation::DragWindow),
        WindowMessage::UpdateMenuItem => Handling::Ignore,
        WindowMessage::RequestRedraw => Handling::Operate(WindowOperation::RequestRedraw),
        WindowMessage::Other => Handling::Ignore,
    }
}

/// Decides what a message to an open window comes down to.
pub fn handle_message<V>(platform: Platform, message: WindowMessage<V>) -> (res: Handling<V>)
    ensures
        res == handling(platform, message),
{
    match message {
        // Getters
        WindowMessage::ScaleFactor => Handling::Ask(Query::ScaleFactor),
        WindowMessage::InnerPosition => Handling::Ask(Query::InnerPosition),
        WindowMessage::OuterPosition => Handling::Ask(Query::OuterPosition),
        WindowMessage::InnerSize => Handling::Ask(Query::InnerSize),
        WindowMessage::OuterSize => Handling::Ask(Query::OuterSize),
        WindowMessage::IsFullscreen => Handling::Ask(Query::Fullscreen),
        WindowMessage::IsMaximized => Handling::Ask(Query::IsMaximized),
        WindowMessage::IsDecorated => Handling::Ask(Query::IsDecorated),
        WindowMessage::IsResizable => Handling::Ask(Query::IsResizable),
        WindowMessage::IsVisible => Handling::Ask(Query::IsVisible),
        WindowMessage::IsMenuVisible => Handling::Ask(Query::IsMenuVisible),
        WindowMessage::CurrentMonitor => Handling::Ask(Query::CurrentMonitor),
        WindowMessage::PrimaryMonitor => Handling::Ask(Query::PrimaryMonitor),
        WindowMessage::AvailableMonitors => Handling::Ask(Query::AvailableMonitors),
        WindowMessage::RawWindowHandle => Handling::Ask(Query::RawWindowHandle),
        WindowMessage::Theme => match platform {
            Platform::Linux | Platform::OtherUnix => Handling::AnswerLight,
            Platform::Windows | Platform::MacOs => Handling::Ask(Query::Theme),
        },
        // Setters
        WindowMessage::Center => Handling::Operate(WindowOperation::Center),
        WindowMessage::RequestUserAttention(kind) => {
            Handling::Operate(WindowOperation::RequestUserAttention(kind))
        },
        WindowMessage::SetResizable(resizable) => {
            Handling::Operate(WindowOperation::SetResizable(resizable))
        },
        WindowMessage::SetTitle(title) => Handling::Operate(WindowOperation::SetTitle(title)),
        WindowMessage::Maximize => Handling::Operate(WindowOperation::SetMaximized(true)),
        WindowMessage::Unmaximize => Handling::Operate(WindowOperation::SetMaximized(false)),
        WindowMessage::Minimize => Handling::Operate(WindowOperation::SetMinimized(true)),
        WindowMessage::Unminimize => Handling::Operate(WindowOperation::SetMinimized(false)),
        WindowMessage::ShowMenu => Handling::Operate(WindowOperation::ShowMenu),
        WindowMessage::HideMenu => Handling::Operate(WindowOperation::HideMenu),
        WindowMessage::Show => Handling::Operate(WindowOperation::SetVisible(true)),
        WindowMessage::Hide => Handling::Operate(WindowOperation::SetVisible(false)),
        WindowMessage::Close => Handling::Ignore,
        WindowMessage::SetDecorations(decorations) => {
            Handling::Operate(WindowOperation::SetDecorations(decorations))
        },
        WindowMessage::SetAlwaysOnTop(on_top) => {
            Handling::Operate(WindowOperation::SetAlwaysOnTop(on_top))
        },
        WindowMessage::SetSize(size) => Handling::Operate(WindowOperation::SetInnerSize(size)),
        WindowMessage::SetMinSize(size) => {
            Handling::Operate(WindowOperation::SetMinInnerSize(size))
        },
        WindowMessage::SetMaxSize(size) => {
            Handling::Operate(WindowOperation::SetMaxInnerSize(size))
        },
        WindowMessage::SetPosition(position) => {
            Handling::Operate(WindowOperation::SetOuterPosition(position))
        },
        WindowMessage::SetFullscreen(fullscreen) => {
            let mode = if fullscreen {
                Some(Fullscreen::BorderlessOnCurrentMonitor)
            } else {
                None
            };
            Handling::Operate(WindowOperation::SetFullscreen(mode))
        },
        WindowMessage::SetFocus => Handling::Operate(WindowOperation::SetFocus),
        WindowMessage::SetIcon(icon) => {
            Handling::Operate(WindowOperation::SetWindowIcon(Some(icon)))
        },
        WindowMessage::SetSkipTaskbar(skip) => match platform {
            Platform::MacOs | Platform::OtherUnix => Handling::Ignore,
            Platform::Linux | Platform::Windows => {
                Handling::Operate(WindowOperation::SetSkipTaskbar(skip))
            },
        },
        WindowMessage::SetCursorGrab(grab) => {
            Handling::Operate(WindowOperation::SetCursorGrab(grab))
        },
        WindowMessage::SetCursorVisible(visible) => {
            Handling::Operate(WindowOperation::SetCursorVisible(visible))
        },
        WindowMessage::SetCursorIcon(icon) => {
            Handling::Operate(WindowOperation::SetCursorIcon(icon))
        },
        WindowMessage::SetCursorPosition(position) => {
            Handling::Operate(WindowOperation::SetCursorPosition(position))
        },
        WindowMessage::DragWindow => Handling::Operate(WindowOperation::DragWindow),
        WindowMessage::UpdateMenuItem => Handling::Ignore,
        WindowMessage::RequestRedraw => Handling::Operate(WindowOperation::RequestRedraw),
        WindowMessage::Other => Handling::Ignore,
    }
}

impl Query {
    /// Whether `result` is of the kind that the query asks for.
    pub open spec fn accepts<V>(self, result: QueryResult<V>) -> bool {
        match self {
            Query::InnerPosition | Query::OuterPosition => result is Position,
            Query::Fullscreen => result is Fullscreen,
            Query::IsMaximized | Query::IsDecorated | Query::IsResizable | Query::IsVisible
            | Query::IsMenuVisible => result is Flag,
            _ => result is Value,
        }
    }

    /// Whether `result` is of the kind that the query asks for.
    pub fn is_answered_by<V>(&self, result: &QueryResult<V>) -> (fits: bool)
        ensures
            fits == self.accepts(*result),
    {
        match self {
            Query::InnerPosition | Query::OuterPosition => {
                matches!(result, QueryResult::Position(_))
            },
            Query::Fullscreen => matches!(result, QueryResult::Fullscreen(_)),
            Query::IsMaximized | Query::IsDecorated | Query::IsResizable | Query::IsVisible
            | Query::IsMenuVisible => matches!(result, QueryResult::Flag(_)),
            _ => matches!(result, QueryResult::Value(_)),
        }
    }
}

/// The answer that is sent for what a window said.
pub open spec fn answer_of<V>(result: QueryResult<V>) -> Answer<V> {
    match result {
        QueryResult::Position(Some(position)) => Answer::Position(Ok(position)),
        QueryResult::Position(None) => Answer::Position(Err(Error::FailedToSendMessage)),
        QueryResult::Fullscreen(mode) => Answer::Flag(mode is Some),
        QueryResult::Flag(flag) => Answer::Flag(flag),
        QueryResult::Value(value) => Answer::Value(value),
    }
}

/// Makes the answer out of what a window said.
pub fn answer<V>(result: QueryResult<V>) -> (res: Answer<V>)
    ensures
        res == answer_of(result),
{
    match result {
        QueryResult::Position(Some(position)) => Answer::Position(Ok(position)),
        QueryResult::Position(None) => Answer::Position(Err(Error::FailedToSendMessage)),
        QueryResult::Fullscreen(mode) => Answer::Flag(mode.is_some()),
        QueryResult::Flag(flag) => Answer::Flag(flag),
        QueryResult::Value(value) => Answer::Value(value),
    }
}

/// The message by which the integration of a window asks for the window to be drawn
/// again, and the window that it is for.
pub fn repaint_request<V>(window_id: WebviewId) -> (res: (WebviewId, WindowMessage<V>))
    ensures
        res == (window_id, WindowMessage::<V>::RequestRedraw),
{
    (window_id, WindowMessage::RequestRedraw)
}

} // verus!
