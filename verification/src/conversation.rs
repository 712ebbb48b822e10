//! What messages to windows are for: what is asked is answered, and what is set can be
//! read back.

use crate::backend::{Backend, Platform, WebviewId};
use crate::message::{
    answer_of, handling, Answer, Error, Fullscreen, Handling, Query, QueryResult, WindowMessage,
    WindowOperation,
};
use crate::outcome::{lemma_no_walk, loop_outcome, message_outcome};
use crate::run::Outside;
use crate::turn::{Action, Event, Reply, State};
use vstd::prelude::*;

verus! {

/// What is done about a message to a window.
pub open spec fn done_about<B: Backend>(
    state: State<B>,
    platform: Platform,
    window_id: WebviewId,
    message: WindowMessage<B::Value>,
    order: Seq<WebviewId>,
    outside: Outside<B>,
) -> Seq<Action<B>> {
    loop_outcome(state, platform, Event::Message(window_id, message), order, outside).trace
}

/// A message to an open window does what the message itself comes down to.
proof fn lemma_done_about<B: Backend>(
    state: State<B>,
    platform: Platform,
    window_id: WebviewId,
    message: WindowMessage<B::Value>,
    order: Seq<WebviewId>,
    outside: Outside<B>,
)
    requires
        state.windows.contains_key(window_id),
        state.windows[window_id].inner is Some,
    ensures
        ({
            let done = done_about(state, platform, window_id, message, order, outside);
            &&& done == message_outcome(state, platform, window_id, message, outside).trace
            &&& handling(platform, message) matches Handling::Operate(operation) ==> done == seq![
                Action::<B>::Operate(window_id, operation),
            ]
            &&& handling(platform, message) matches Handling::Ignore ==> done.len() == 0
            &&& handling(platform, message) matches Handling::Ask(query) ==> {
                let light: Seq<Action<B>> = if platform is MacOs && query is Theme {
                    seq![Action::Answer(Answer::LightTheme)]
                } else {
                    seq![]
                };
                done == seq![
                    Action::<B>::Query(window_id, query),
                    Action::Answer(
                        answer_of(outside.reply(Action::Query(window_id, query))->Queried_0),
                    ),
                ] + light
            }
            &&& handling(platform, message) matches Handling::AnswerLight ==> done == seq![
                Action::<B>::Answer(Answer::LightTheme),
            ]
        }),
{
    let done = done_about(state, platform, window_id, message, order, outside);
    lemma_no_walk(order, state.is_focused, outside);
    assert(!state.windows.is_empty());
    assert(done =~= message_outcome(state, platform, window_id, message, outside).trace);
}

/// A property of a window that is on or off.
pub enum Switch {
    Resizable,
    Maximized,
    Decorated,
    Visible,
    MenuVisible,
    Fullscreen,
}

impl Switch {
    /// The message that switches the property.
    pub open spec fn setter<V>(self, on: bool) -> WindowMessage<V> {
        match self {
            Switch::Resizable => WindowMessage::SetResizable(on),
            Switch::Maximized => if on {
                WindowMessage::Maximize
            } else {
                WindowMessage::Unmaximize
            },
            Switch::Decorated => WindowMessage::SetDecorations(on),
            Switch::Visible => if on {
                WindowMessage::Show
            } else {
                WindowMessage::Hide
            },
            Switch::MenuVisible => if on {
                WindowMessage::ShowMenu
            } else {
                WindowMessage::HideMenu
            },
            Switch::Fullscreen => WindowMessage::SetFullscreen(on),
        }
    }

    /// The message that asks for the property.
    pub open spec fn getter<V>(self) -> WindowMessage<V> {
        match self {
            Switch::Resizable => WindowMessage::IsResizable,
            Switch::Maximized => WindowMessage::IsMaximized,
            Switch::Decorated => WindowMessage::IsDecorated,
            Switch::Visible => WindowMessage::IsVisible,
            Switch::MenuVisible => WindowMessage::IsMenuVisible,
            Switch::Fullscreen => WindowMessage::IsFullscreen,
        }
    }
}

/// What can be seen of a native window.
pub struct Looks<V> {
    pub resizable: bool,
    pub maximized: bool,
    pub decorated: bool,
    pub visible: bool,
    pub menu_visible: bool,
    /// The fullscreen mode, if any.
    pub fullscreen: Option<V>,
    pub inner_size: V,
    /// Nothing where the platform cannot tell it.
    pub outer_position: Option<V>,
}

impl<V> Looks<V> {
    /// A native window after an operation. `mode` is how it calls being fullscreen.
    pub open spec fn after(self, operation: WindowOperation<V>, mode: V) -> Looks<V> {
        match operation {
            WindowOperation::SetResizable(resizable) => Looks { resizable, ..self },
            WindowOperation::SetMaximized(maximized) => Looks { maximized, ..self },
            WindowOperation::SetDecorations(decorated) => Looks { decorated, ..self },
            WindowOperation::SetVisible(visible) => Looks { visible, ..self },
            WindowOperation::ShowMenu => Looks { menu_visible: true, ..self },
            WindowOperation::HideMenu => Looks { menu_visible: false, ..self },
            WindowOperation::SetFullscreen(Some(_)) => Looks { fullscreen: Some(mode), ..self },
            WindowOperation::SetFullscreen(None) => Looks { fullscreen: None, ..self },
            WindowOperation::SetInnerSize(inner_size) => Looks { inner_size, ..self },
            WindowOperation::SetOuterPosition(position) => Looks {
                outer_position: if self.outer_position is Some {
                    Some(position)
                } else {
                    None
                },
                ..self
            },
            _ => self,
        }
    }

    /// A native window after some actions.
    pub open spec fn after_all<B: Backend<Value = V>>(
        self,
        trace: Seq<Action<B>>,
        mode: V,
    ) -> Looks<V>
        decreases trace.len(),
    {
        if trace.len() == 0 {
            self
        } else {
            let before = self.after_all(trace.drop_last(), mode);
            match trace.last() {
                Action::Operate(_, operation) => before.after(operation, mode),
                _ => before,
            }
        }
    }

    /// What the native window says of itself.
    pub open spec fn says(self, query: Query) -> Option<QueryResult<V>> {
        match query {
            Query::IsResizable => Some(QueryResult::Flag(self.resizable)),
            Query::IsMaximized => Some(QueryResult::Flag(self.maximized)),
            Query::IsDecorated => Some(QueryResult::Flag(self.decorated)),
            Query::IsVisible => Some(QueryResult::Flag(self.visible)),
            Query::IsMenuVisible => Some(QueryResult::Flag(self.menu_visible)),
            Query::Fullscreen => Some(QueryResult::Fullscreen(self.fullscreen)),
            Query::InnerSize => Some(QueryResult::Value(self.inner_size)),
            Query::OuterPosition => Some(QueryResult::Position(self.outer_position)),
            _ => None,
        }
    }
}

/// Whether the outside answers queries of a window with what can be seen of it.
pub open spec fn shows<B: Backend>(
    outside: Outside<B>,
    window_id: WebviewId,
    looks: Looks<B::Value>,
) -> bool {
    forall|query: Query| #[trigger]
        looks.says(query) is Some ==> outside.reply(Action::Query(window_id, query)) == Reply::<
            B,
        >::Queried(looks.says(query)->0)
}

/// A property that was switched by message is read back by message as it was switched,
/// on or off, and no other is affected.
pub proof fn law_switch_is_read_back<B: Backend>(
    state: State<B>,
    platform: Platform,
    window_id: WebviewId,
    switch: Switch,
    on: bool,
    looks: Looks<B::Value>,
    mode: B::Value,
    set_order: Seq<WebviewId>,
    set_outside: Outside<B>,
    get_order: Seq<WebviewId>,
    get_outside: Outside<B>,
)
    requires
        state.windows.contains_key(window_id),
        state.windows[window_id].inner is Some,
        shows(
            get_outside,
            window_id,
            looks.after_all(
                done_about(state, platform, window_id, switch.setter(on), set_order, set_outside),
                mode,
            ),
        ),
    ensures
        ({
            let set = done_about(
                state,
                platform,
                window_id,
                switch.setter(on),
                set_order,
                set_outside,
            );
            let get = done_about(
                state,
                platform,
                window_id,
                switch.getter(),
                get_order,
                get_outside,
            );
            let after = looks.after_all(set, mode);
            &&& set.len() == 1
            &&& set[0] is Operate && set[0]->Operate_0 == window_id
            &&& get.len() == 2
            &&& get[0] is Query && get[0]->Query_0 == window_id
            &&& get[1] == Action::<B>::Answer(Answer::Flag(on))
            &&& after.resizable == if switch is Resizable { on } else { looks.resizable }
            &&& after.maximized == if switch is Maximized { on } else { looks.maximized }
            &&& after.decorated == if switch is Decorated { on } else { looks.decorated }
            &&& after.visible == if switch is Visible { on } else { looks.visible }
            &&& after.menu_visible == if switch is MenuVisible { on } else { looks.menu_visible }
            &&& after.fullscreen is Some == if switch is Fullscreen {
                on
            } else {
                looks.fullscreen is Some
            }
            &&& after.inner_size == looks.inner_size
            &&& after.outer_position == looks.outer_position
        }),
{
    let set = done_about(state, platform, window_id, switch.setter(on), set_order, set_outside);
    let get = done_about(state, platform, window_id, switch.getter(), get_order, get_outside);
    lemma_done_about(state, platform, window_id, switch.setter(on), set_order, set_outside);
    lemma_done_about(state, platform, window_id, switch.getter(), get_order, get_outside);
    let after = looks.after_all(set, mode);
    assert(set.drop_last() =~= Seq::empty());
    assert(looks.after_all(set.drop_last(), mode) == looks);
    assert(after == looks.after(set[0]->Operate_1, mode));
    assert(after.says(Query::IsResizable) is Some);
    assert(after.says(Query::IsMaximized) is Some);
    assert(after.says(Query::IsDecorated) is Some);
    assert(after.says(Query::IsVisible) is Some);
    assert(after.says(Query::IsMenuVisible) is Some);
    assert(after.says(Query::Fullscreen) is Some);
}

/// The size and the position that were set by message are read back by message as they
/// were set, where the platform can tell them.
pub proof fn law_geometry_is_read_back<B: Backend>(
    state: State<B>,
    platform: Platform,
    window_id: WebviewId,
    value: B::Value,
    looks: Looks<B::Value>,
    mode: B::Value,
    order: Seq<WebviewId>,
    outside: Outside<B>,
    sized: Outside<B>,
    placed: Outside<B>,
)
    requires
        state.windows.contains_key(window_id),
        state.windows[window_id].inner is Some,
        shows(
            sized,
            window_id,
            looks.after_all(
                done_about(
                    state,
                    platform,
                    window_id,
                    WindowMessage::SetSize(value),
                    order,
                    outside,
                ),
                mode,
            ),
        ),
        shows(
            placed,
            window_id,
            looks.after_all(
                done_about(
                    state,
                    platform,
                    window_id,
                    WindowMessage::SetPosition(value),
                    order,
                    outside,
                ),
                mode,
            ),
        ),
    ensures
        ({
            let size = done_about(
                state,
                platform,
                window_id,
                WindowMessage::InnerSize,
                order,
                sized,
            );
            let position = done_about(
                state,
                platform,
                window_id,
                WindowMessage::OuterPosition,
                order,
                placed,
            );
            &&& size.len() == 2
            &&& size[1] == Action::<B>::Answer(Answer::Value(value))
            &&& position.len() == 2
            &&& position[1] == Action::<B>::Answer(
                Answer::Position(
                    if looks.outer_position is Some {
                        Ok(value)
                    } else {
                        Err(Error::FailedToSendMessage)
                    },
                ),
            )
        }),
{
    let resize = done_about(
        state,
        platform,
        window_id,
        WindowMessage::SetSize(value),
        order,
        outside,
    );
    let place = done_about(
        state,
        platform,
        window_id,
        WindowMessage::SetPosition(value),
        order,
        outside,
    );
    lemma_done_about(state, platform, window_id, WindowMessage::SetSize(value), order, outside);
    lemma_done_about(
        state,
        platform,
        window_id,
        WindowMessage::SetPosition(value),
        order,
        outside,
    );
    lemma_done_about(state, platform, window_id, WindowMessage::InnerSize, order, sized);
    lemma_done_about(state, platform, window_id, WindowMessage::OuterPosition, order, placed);
    assert(resize.drop_last() =~= Seq::empty());
    assert(place.drop_last() =~= Seq::empty());
    assert(looks.after_all(resize.drop_last(), mode) == looks);
    assert(looks.after_all(place.drop_last(), mode) == looks);
    assert(looks.after_all(resize, mode).says(Query::InnerSize) is Some);
    assert(looks.after_all(place, mode).says(Query::OuterPosition) is Some);
}

/// Whether a message does one thing only: it changes its window by an operation.
pub open spec fn just_does<B: Backend>(
    done: Seq<Action<B>>,
    window_id: WebviewId,
    operation: WindowOperation<B::Value>,
) -> bool {
    done.len() == 1 && done[0] == Action::<B>::Operate(window_id, operation)
}

/// A message that comes down to an operation does just that.
proof fn lemma_just_does<B: Backend>(
    state: State<B>,
    platform: Platform,
    window_id: WebviewId,
    message: WindowMessage<B::Value>,
    operation: WindowOperation<B::Value>,
    order: Seq<WebviewId>,
    outside: Outside<B>,
)
    requires
        state.windows.contains_key(window_id),
        state.windows[window_id].inner is Some,
        handling(platform, message) == Handling::Operate(operation),
    ensures
        just_does(
            done_about(state, platform, window_id, message, order, outside),
            window_id,
            operation,
        ),
{
    lemma_done_about(state, platform, window_id, message, order, outside);
}

/// A message that comes down to nothing does nothing.
proof fn lemma_does_nothing<B: Backend>(
    state: State<B>,
    platform: Platform,
    window_id: WebviewId,
    message: WindowMessage<B::Value>,
    order: Seq<WebviewId>,
    outside: Outside<B>,
)
    requires
        state.windows.contains_key(window_id),
        state.windows[window_id].inner is Some,
        handling(platform, message) is Ignore,
    ensures
        done_about(state, platform, window_id, message, order, outside).len() == 0,
{
    lemma_done_about(state, platform, window_id, message, order, outside);
}

/// A setter changes its window by the very value that it carries, whatever the value.
pub proof fn law_setters_pass_their_values_on<B: Backend>(
    state: State<B>,
    platform: Platform,
    window_id: WebviewId,
    flag: bool,
    title: String,
    value: B::Value,
    perhaps: Option<B::Value>,
    order: Seq<WebviewId>,
    outside: Outside<B>,
)
    requires
        state.windows.contains_key(window_id),
        state.windows[window_id].inner is Some,
    ensures
        ({
            let done = |message: WindowMessage<B::Value>|
                done_about(state, platform, window_id, message, order, outside);
            &&& just_does(
                done(WindowMessage::SetResizable(flag)),
                window_id,
                WindowOperation::SetResizable(flag),
            )
            &&& just_does(
                done(WindowMessage::SetTitle(title)),
                window_id,
                WindowOperation::SetTitle(title),
            )
            &&& just_does(
                done(WindowMessage::SetDecorations(flag)),
                window_id,
                WindowOperation::SetDecorations(flag),
            )
            &&& just_does(
                done(WindowMessage::SetAlwaysOnTop(flag)),
                window_id,
                WindowOperation::SetAlwaysOnTop(flag),
            )
            &&& just_does(
                done(WindowMessage::SetSize(value)),
                window_id,
                WindowOperation::SetInnerSize(value),
            )
            &&& just_does(
                done(WindowMessage::SetMinSize(perhaps)),
                window_id,
                WindowOperation::SetMinInnerSize(perhaps),
            )
            &&& just_does(
                done(WindowMessage::SetMaxSize(perhaps)),
                window_id,
                WindowOperation::SetMaxInnerSize(perhaps),
            )
            &&& just_does(
                done(WindowMessage::SetPosition(value)),
                window_id,
                WindowOperation::SetOuterPosition(value),
            )
            &&& just_does(
                done(WindowMessage::SetIcon(value)),
                window_id,
                WindowOperation::SetWindowIcon(Some(value)),
            )
            &&& just_does(
                done(WindowMessage::SetCursorGrab(flag)),
                window_id,
                WindowOperation::SetCursorGrab(flag),
            )
            &&& just_does(
                done(WindowMessage::SetCursorVisible(flag)),
                window_id,
                WindowOperation::SetCursorVisible(flag),
            )
            &&& just_does(
                done(WindowMessage::SetCursorIcon(value)),
                window_id,
                WindowOperation::SetCursorIcon(value),
            )
            &&& just_does(
                done(WindowMessage::SetCursorPosition(value)),
                window_id,
                WindowOperation::SetCursorPosition(value),
            )
            &&& just_does(
                done(WindowMessage::RequestUserAttention(perhaps)),
                window_id,
                WindowOperation::RequestUserAttention(perhaps),
            )
            &&& just_does(
                done(WindowMessage::SetFullscreen(flag)),
                window_id,
                WindowOperation::SetFullscreen(
                    if flag {
                        Some(Fullscreen::BorderlessOnCurrentMonitor)
                    } else {
                        None
                    },
                ),
            )
            &&& platform is Linux || platform is Windows ==> just_does(
                done(WindowMessage::SetSkipTaskbar(flag)),
                window_id,
                WindowOperation::SetSkipTaskbar(flag),
            )
            &&& !(platform is Linux || platform is Windows) ==> done(
                WindowMessage::SetSkipTaskbar(flag),
            ).len() == 0
        }),
{
    lemma_just_does(
        state,
        platform,
        window_id,
        WindowMessage::SetResizable(flag),
        WindowOperation::SetResizable(flag),
        order,
        outside,
    );
    lemma_just_does(
        state,
        platform,
        window_id,
        WindowMessage::SetTitle(title),
        WindowOperation::SetTitle(title),
        order,
        outside,
    );
    lemma_just_does(
        state,
        platform,
        window_id,
        WindowMessage::SetDecorations(flag),
        WindowOperation::SetDecorations(flag),
        order,
        outside,
    );
    lemma_just_does(
        state,
        platform,
        window_id,
        WindowMessage::SetAlwaysOnTop(flag),
        WindowOperation::SetAlwaysOnTop(flag),
        order,
        outside,
    );
    lemma_just_does(
        state,
        platform,
        window_id,
        WindowMessage::SetSize(value),
        WindowOperation::SetInnerSize(value),
        order,
        outside,
    );
    lemma_just_does(
        state,
        platform,
        window_id,
        WindowMessage::SetMinSize(perhaps),
        WindowOperation::SetMinInnerSize(perhaps),
        order,
        outside,
    );
    lemma_just_does(
        state,
        platform,
        window_id,
        WindowMessage::SetMaxSize(perhaps),
        WindowOperation::SetMaxInnerSize(perhaps),
        order,
        outside,
    );
    lemma_just_does(
        state,
        platform,
        window_id,
        WindowMessage::SetPosition(value),
        WindowOperation::SetOuterPosition(value),
        order,
        outside,
    );
    lemma_just_does(
        state,
        platform,
        window_id,
        WindowMessage::SetIcon(value),
        WindowOperation::SetWindowIcon(Some(value)),
        order,
        outside,
    );
    lemma_just_does(
        state,
        platform,
        window_id,
        WindowMessage::SetCursorGrab(flag),
        WindowOperation::SetCursorGrab(flag),
        order,
        outside,
    );
    lemma_just_does(
        state,
        platform,
        window_id,
        WindowMessage::SetCursorVisible(flag),
        WindowOperation::SetCursorVisible(flag),
        order,
        outside,
    );
    lemma_just_does(
        state,
        platform,
        window_id,
        WindowMessage::SetCursorIcon(value),
        WindowOperation::SetCursorIcon(value),
        order,
        outside,
    );
    lemma_just_does(
        state,
        platform,
        window_id,
        WindowMessage::SetCursorPosition(value),
        WindowOperation::SetCursorPosition(value),
        order,
        outside,
    );
    lemma_just_does(
        state,
        platform,
        window_id,
        WindowMessage::RequestUserAttention(perhaps),
        WindowOperation::RequestUserAttention(perhaps),
        order,
        outside,
    );
    let mode = if flag {
        Some(Fullscreen::BorderlessOnCurrentMonitor)
    } else {
        None
    };
    lemma_just_does(
        state,
        platform,
        window_id,
        WindowMessage::SetFullscreen(flag),
        WindowOperation::SetFullscreen(mode),
        order,
        outside,
    );
    if platform is Linux || platform is Windows {
        lemma_just_does(
            state,
            platform,
            window_id,
            WindowMessage::SetSkipTaskbar(flag),
            WindowOperation::SetSkipTaskbar(flag),
            order,
            outside,
        );
    } else {
        lemma_does_nothing(
            state,
            platform,
            window_id,
            WindowMessage::SetSkipTaskbar(flag),
            order,
            outside,
        );
    }
}

/// The messages that carry nothing and change their window.
pub proof fn law_commands<B: Backend>(
    state: State<B>,
    platform: Platform,
    window_id: WebviewId,
    order: Seq<WebviewId>,
    outside: Outside<B>,
)
    requires
        state.windows.contains_key(window_id),
        state.windows[window_id].inner is Some,
    ensures
        ({
            let done = |message: WindowMessage<B::Value>|
                done_about(state, platform, window_id, message, order, outside);
            &&& just_does(done(WindowMessage::Center), window_id, WindowOperation::Center)
            &&& just_does(
                done(WindowMessage::Maximize),
                window_id,
                WindowOperation::SetMaximized(true),
            )
            &&& just_does(
                done(WindowMessage::Unmaximize),
                window_id,
                WindowOperation::SetMaximized(false),
            )
            &&& just_does(
                done(WindowMessage::Minimize),
                window_id,
                WindowOperation::SetMinimized(true),
            )
            &&& just_does(
                done(WindowMessage::Unminimize),
                window_id,
                WindowOperation::SetMinimized(false),
            )
            &&& just_does(done(WindowMessage::ShowMenu), window_id, WindowOperation::ShowMenu)
            &&& just_does(done(WindowMessage::HideMenu), window_id, WindowOperation::HideMenu)
            &&& just_does(done(WindowMessage::Show), window_id, WindowOperation::SetVisible(true))
            &&& just_does(done(WindowMessage::Hide), window_id, WindowOperation::SetVisible(false))
            &&& just_does(done(WindowMessage::SetFocus), window_id, WindowOperation::SetFocus)
            &&& just_does(done(WindowMessage::DragWindow), window_id, WindowOperation::DragWindow)
            &&& just_does(
                done(WindowMessage::RequestRedraw),
                window_id,
                WindowOperation::RequestRedraw,
            )
            &&& done(WindowMessage::Close).len() == 0
            &&& done(WindowMessage::UpdateMenuItem).len() == 0
            &&& done(WindowMessage::Other).len() == 0
        }),
{
    lemma_just_does(
        state,
        platform,
        window_id,
        WindowMessage::Center,
        WindowOperation::Center,
        order,
        outside,
    );
    lemma_just_does(
        state,
        platform,
        window_id,
        WindowMessage::Maximize,
        WindowOperation::SetMaximized(true),
        order,
        outside,
    );
    lemma_just_does(
        state,
        platform,
        window_id,
        WindowMessage::Unmaximize,
        WindowOperation::SetMaximized(false),
        order,
        outside,
    );
    lemma_just_does(
        state,
        platform,
        window_id,
        WindowMessage::Minimize,
        WindowOperation::SetMinimized(true),
        order,
        outside,
    );
    lemma_just_does(
        state,
        platform,
        window_id,
        WindowMessage::Unminimize,
        WindowOperation::SetMinimized(false),
        order,
        outside,
    );
    lemma_just_does(
        state,
        platform,
        window_id,
        WindowMessage::ShowMenu,
        WindowOperation::ShowMenu,
        order,
        outside,
    );
    lemma_just_does(
        state,
        platform,
        window_id,
        WindowMessage::HideMenu,
        WindowOperation::HideMenu,
        order,
        outside,
    );
    lemma_just_does(
        state,
        platform,
        window_id,
        WindowMessage::Show,
        WindowOperation::SetVisible(true),
        order,
        outside,
    );
    lemma_just_does(
        state,
        platform,
        window_id,
        WindowMessage::Hide,
        WindowOperation::SetVisible(false),
        order,
        outside,
    );
    lemma_just_does(
        state,
        platform,
        window_id,
        WindowMessage::SetFocus,
        WindowOperation::SetFocus,
        order,
        outside,
    );
    lemma_just_does(
        state,
        platform,
        window_id,
        WindowMessage::DragWindow,
        WindowOperation::DragWindow,
        order,
        outside,
    );
    lemma_just_does(
        state,
        platform,
        window_id,
        WindowMessage::RequestRedraw,
        WindowOperation::RequestRedraw,
        order,
        outside,
    );
    lemma_does_nothing(
        state,
        platform,
        window_id,
        WindowMessage::Close,
        order,
        outside,
    );
    lemma_does_nothing(
        state,
        platform,
        window_id,
        WindowMessage::UpdateMenuItem,
        order,
        outside,
    );
    lemma_does_nothing(
        state,
        platform,
        window_id,
        WindowMessage::Other,
        order,
        outside,
    );
}

/// Two messages that have the same effect, if they have any, are the same message. So
/// messages with different values lead to different changes, and different questions to
/// different queries.
pub proof fn law_messages_are_told_apart<V>(
    platform: Platform,
    one: WindowMessage<V>,
    other: WindowMessage<V>,
)
    requires
        handling(platform, one) == handling(platform, other),
        !(handling(platform, one) is Ignore),
    ensures
        one == other,
{
}

/// Whether a message asks its window one query, and the answer is what the window said.
pub open spec fn just_answers<B: Backend>(
    done: Seq<Action<B>>,
    window_id: WebviewId,
    query: Query,
    answer: Answer<B::Value>,
) -> bool {
    &&& done.len() == 2
    &&& done[0] == Action::<B>::Query(window_id, query)
    &&& done[1] == Action::<B>::Answer(answer)
}

/// A question for a property that is on or off is answered with the very value that the
/// window said; one for the fullscreen mode, with whether there is one.
pub proof fn law_flags_are_answered<B: Backend>(
    state: State<B>,
    platform: Platform,
    window_id: WebviewId,
    message: WindowMessage<B::Value>,
    query: Query,
    flag: bool,
    mode: Option<B::Value>,
    order: Seq<WebviewId>,
    outside: Outside<B>,
)
    requires
        state.windows.contains_key(window_id),
        state.windows[window_id].inner is Some,
        message is IsMaximized && query is IsMaximized || message is IsDecorated
            && query is IsDecorated || message is IsResizable && query is IsResizable
            || message is IsVisible && query is IsVisible || message is IsMenuVisible
            && query is IsMenuVisible || message is IsFullscreen && query is Fullscreen,
        outside.reply(Action::Query(window_id, query)) == if message is IsFullscreen {
            Reply::<B>::Queried(QueryResult::Fullscreen(mode))
        } else {
            Reply::<B>::Queried(QueryResult::Flag(flag))
        },
    ensures
        just_answers(
            done_about(state, platform, window_id, message, order, outside),
            window_id,
            query,
            Answer::Flag(
                if message is IsFullscreen {
                    mode is Some
                } else {
                    flag
                },
            ),
        ),
{
    lemma_done_about(state, platform, window_id, message, order, outside);
}

/// A question for a position is answered with the position, or with an error where the
/// window cannot tell it.
pub proof fn law_positions_are_answered<B: Backend>(
    state: State<B>,
    platform: Platform,
    window_id: WebviewId,
    message: WindowMessage<B::Value>,
    query: Query,
    position: Option<B::Value>,
    order: Seq<WebviewId>,
    outside: Outside<B>,
)
    requires
        state.windows.contains_key(window_id),
        state.windows[window_id].inner is Some,
        message is InnerPosition && query is InnerPosition || message is OuterPosition
            && query is OuterPosition,
        outside.reply(Action::Query(window_id, query)) == Reply::<B>::Queried(
            QueryResult::Position(position),
        ),
    ensures
        just_answers(
            done_about(state, platform, window_id, message, order, outside),
            window_id,
            query,
            Answer::Position(
                match position {
                    Some(position) => Ok(position),
                    None => Err(Error::FailedToSendMessage),
                },
            ),
        ),
{
    lemma_done_about(state, platform, window_id, message, order, outside);
}

/// Any other question but for the theme is answered with the very value that the window
/// said.
pub proof fn law_values_are_answered<B: Backend>(
    state: State<B>,
    platform: Platform,
    window_id: WebviewId,
    message: WindowMessage<B::Value>,
    query: Query,
    value: B::Value,
    order: Seq<WebviewId>,
    outside: Outside<B>,
)
    requires
        state.windows.contains_key(window_id),
        state.windows[window_id].inner is Some,
        message is ScaleFactor && query is ScaleFactor || message is InnerSize
            && query is InnerSize || message is OuterSize && query is OuterSize
            || message is CurrentMonitor && query is CurrentMonitor || message is PrimaryMonitor
            && query is PrimaryMonitor || message is AvailableMonitors
            && query is AvailableMonitors || message is RawWindowHandle
            && query is RawWindowHandle,
        outside.reply(Action::Query(window_id, query)) == Reply::<B>::Queried(
            QueryResult::Value(value),
        ),
    ensures
        just_answers(
            done_about(state, platform, window_id, message, order, outside),
            window_id,
            query,
            Answer::Value(value),
        ),
{
    lemma_done_about(state, platform, window_id, message, order, outside);
}

/// The question for the theme is answered with what the window said on Windows and
/// macOS. On macOS the light theme is sent after it, and on the other platforms instead.
pub proof fn law_theme_is_answered<B: Backend>(
    state: State<B>,
    platform: Platform,
    window_id: WebviewId,
    theme: B::Value,
    order: Seq<WebviewId>,
    outside: Outside<B>,
)
    requires
        state.windows.contains_key(window_id),
        state.windows[window_id].inner is Some,
        outside.reply(Action::Query(window_id, Query::Theme)) == Reply::<B>::Queried(
            QueryResult::Value(theme),
        ),
    ensures
        ({
            let done = done_about(
                state,
                platform,
                window_id,
                WindowMessage::Theme,
                order,
                outside,
            );
            match platform {
                Platform::Windows => just_answers(
                    done,
                    window_id,
                    Query::Theme,
                    Answer::Value(theme),
                ),
                Platform::MacOs => {
                    &&& done.len() == 3
                    &&& done[0] == Action::<B>::Query(window_id, Query::Theme)
                    &&& done[1] == Action::<B>::Answer(Answer::Value(theme))
                    &&& done[2] == Action::<B>::Answer(Answer::LightTheme)
                },
                _ => done.len() == 1 && done[0] == Action::<B>::Answer(Answer::LightTheme),
            }
        }),
{
    lemma_done_about(state, platform, window_id, WindowMessage::Theme, order, outside);
}

/// Two windows that say different things get different answers, save that of a
/// fullscreen mode only its presence is told.
pub proof fn law_answers_are_told_apart<V>(one: QueryResult<V>, other: QueryResult<V>)
    requires
        answer_of(one) == answer_of(other),
        (one is Fullscreen) == (other is Fullscreen),
    ensures
        !(one is Fullscreen) ==> one == other,
        one is Fullscreen ==> (one->Fullscreen_0 is Some) == (other->Fullscreen_0 is Some),
{
}

/// A message changes nothing that the plugin remembers and is not kept from the rest of
/// the application. To a window that is not open it does nothing at all.
pub proof fn law_messages_change_no_state<B: Backend>(
    state: State<B>,
    platform: Platform,
    window_id: WebviewId,
    message: WindowMessage<B::Value>,
    order: Seq<WebviewId>,
    outside: Outside<B>,
)
    ensures
        ({
            let outcome = loop_outcome(
                state,
                platform,
                Event::Message(window_id, message),
                order,
                outside,
            );
            &&& outcome.state == state
            &&& !outcome.prevent_default
            &&& !outcome.should_quit
            &&& !(state.windows.contains_key(window_id) && state.windows[window_id].inner is Some)
                ==> outcome.trace.len() == 0
        }),
{
    lemma_no_walk(order, state.is_focused, outside);
}

/// Each query wants the kind of result that its question is answered with.
pub proof fn law_queries_want_their_kind<V>(query: Query, result: QueryResult<V>)
    ensures
        query.accepts(result) <==> match result {
            QueryResult::Position(_) => query is InnerPosition || query is OuterPosition,
            QueryResult::Fullscreen(_) => query is Fullscreen,
            QueryResult::Flag(_) => query is IsMaximized || query is IsDecorated
                || query is IsResizable || query is IsVisible || query is IsMenuVisible,
            QueryResult::Value(_) => query is ScaleFactor || query is InnerSize
                || query is OuterSize || query is CurrentMonitor || query is PrimaryMonitor
                || query is AvailableMonitors || query is RawWindowHandle || query is Theme,
        },
{
}

} // verus!
