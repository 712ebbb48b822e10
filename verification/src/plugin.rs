//! The plugin and the handle by which an application asks it for windows.

use crate::backend::{Backend, Platform, WebviewId};
use crate::setup::CreateWindowPayload;
use crate::turn::{
    create_gl_window, handle_gl_loop, resume, state_of, Action, Choice, Event, Reply, State, Turn,
};
use crate::window::{context_of, is_open, is_walk, GlutinWindowContext, WindowWrapper};
use std::collections::HashMap;
use vstd::prelude::*;

verus! {

/// The plugin.
pub struct EguiPlugin<B: Backend> {
    pub proxy: B::Proxy,
    pub create_window_channel: (B::Sender, B::Receiver),
    pub windows: HashMap<WebviewId, WindowWrapper<B>>,
    pub is_focused: bool,
}

/// What asks the plugin for windows.
pub struct EguiPluginHandle<B: Backend> {
    pub proxy: B::Proxy,
    pub create_window_tx: B::Sender,
}

/// A window that was asked for.
pub struct Window<B: Backend> {
    pub id: WebviewId,
    pub proxy: B::Proxy,
}

/// Something that a handle is to do.
pub enum HandleAction<B: Backend> {
    /// Send the request to the plugin.
    Send(CreateWindowPayload<B>),
    /// Force the event loop to receive a new event.
    Wake,
}

/// What is done to ask for a window: the request is sent, and then the event loop
/// is woken up.
pub open spec fn window_request<B: Backend>(
    window_id: WebviewId,
    label: String,
    app: B::App,
    native_options: B::Options,
) -> Seq<HandleAction<B>> {
    let payload = CreateWindowPayload::<B> { window_id, label, app, native_options };
    seq![HandleAction::Send(payload), HandleAction::Wake]
}

/// Picks an id by `rand::random`, which can return any number, so nothing is said of
/// which one it is. That two ids differ is likely, not certain. The call panics where
/// the operating system supplies no seed for the generator.
#[verifier::external_body]
fn random_window_id() -> (window_id: WebviewId) {
    rand::random()
}

/// Whether an id is one that was picked by chance.
pub closed spec fn is_drawn(window_id: WebviewId) -> bool {
    call_ensures(random_window_id, (), window_id)
}

/// Calls `draw`, so that the result is known to come from that call.
fn drawn_by<F: FnOnce() -> WebviewId>(draw: F) -> (window_id: WebviewId)
    requires
        call_requires(draw, ()),
    ensures
        call_ensures(draw, (), window_id),
{
    draw()
}

impl<B: Backend> EguiPluginHandle<B> {
    /// Asks for a window under a new id. What is to be done, in order, is returned
    /// beside the window.
    pub fn create_window(&self, label: String, app: B::App, native_options: B::Options) -> (res: (
        Vec<HandleAction<B>>,
        Window<B>,
    ))
        ensures
            is_drawn(res.1.id),
            res.0@ == window_request::<B>(res.1.id, label, app, native_options),
            cloned(self.proxy, res.1.proxy),
    {
        let window_id: WebviewId = drawn_by(random_window_id);
        self.create_window_with_id(window_id, label, app, native_options)
    }

    /// Asks for a window under the given id.
    pub fn create_window_with_id(
        &self,
        window_id: WebviewId,
        label: String,
        app: B::App,
        native_options: B::Options,
    ) -> (res: (Vec<HandleAction<B>>, Window<B>))
        ensures
            res.0@ == window_request::<B>(window_id, label, app, native_options),
            res.1.id == window_id,
            cloned(self.proxy, res.1.proxy),
    {
        let mut actions: Vec<HandleAction<B>> = Vec::new();
        actions.push(
            HandleAction::Send(CreateWindowPayload { window_id, label, app, native_options }),
        );
        actions.push(HandleAction::Wake);
        (actions, Window { id: window_id, proxy: self.proxy.clone() })
    }
}

impl<B: Backend> EguiPlugin<B> {
    /// What the plugin remembers from turn to turn.
    pub open spec fn state(self) -> State<B> {
        state_of(self.windows, self.is_focused)
    }

    /// Whether `other` has the same ways to be reached.
    pub open spec fn same_channels(self, other: EguiPlugin<B>) -> bool {
        self.proxy == other.proxy && self.create_window_channel == other.create_window_channel
    }

    /// A handle to the plugin.
    pub fn handle(&self) -> (res: EguiPluginHandle<B>)
        ensures
            cloned(self.proxy, res.proxy),
            cloned(self.create_window_channel.0, res.create_window_tx),
    {
        EguiPluginHandle {
            proxy: self.proxy.clone(),
            create_window_tx: self.create_window_channel.0.clone(),
        }
    }

    /// Starts the turn of an event. `received` is the request, if any, that was
    /// waiting in the channel: its window is set up before the event is handled.
    pub fn on_event(
        &self,
        platform: Platform,
        received: Option<CreateWindowPayload<B>>,
        event: Event<B::Value>,
    ) -> (res: (Turn<B>, Action<B>))
        ensures
            match received {
                Some(payload) => self.state().step(res) == self.state().create_gl_window(
                    platform,
                    payload,
                    event,
                ),
                None => exists|order: Vec<WebviewId>| #[trigger]
                    is_walk(order@, self.windows@) && self.state().step(res)
                        == self.state().handle_gl_loop(platform, event, order),
            },
            res.0.wf(),
    {
        match received {
            Some(payload) => create_gl_window(platform, payload, event),
            None => handle_gl_loop(&self.windows, platform, event, self.is_focused),
        }
    }

    /// Goes on with a turn after the action that it handed out.
    pub fn resume(&mut self, turn: Turn<B>, reply: Reply<B>) -> (res: (Turn<B>, Action<B>))
        requires
            turn.wf(),
            turn.accepts(reply),
        ensures
            exists|choice: Choice<B>| #[trigger]
                choice.fits(turn, reply, final(self).state()) && final(self).state().step(res)
                    == old(self).state().next(turn, reply, choice),
            final(self).same_channels(*old(self)),
            res.0.wf(),
    {
        let res = resume(&mut self.windows, &mut self.is_focused, turn, reply);
        proof {
            let state = state_of(self.windows, self.is_focused);
            let state0 = old(self).state();
            let choice = choose|choice: Choice<B>| #[trigger]
                choice.fits(turn, reply, state) && state.step(res) == state0.next(
                    turn,
                    reply,
                    choice,
                );
            assert(choice.fits(turn, reply, self.state()));
        }
        res
    }

    /// The context of a window, if the window is open.
    pub fn context(&self, window_id: WebviewId) -> (res: Option<&GlutinWindowContext<B>>)
        ensures
            res is Some <==> is_open(self.windows@, window_id),
            res matches Some(context) ==> *context == *self.windows@[window_id].inner->0,
    {
        context_of(&self.windows, window_id)
    }
}

} // verus!
