//! The windows that the plugin keeps.

use crate::backend::{Backend, Platform, WebviewId};
use crate::shared::{MaybeRc, MaybeRcCell};
use std::cell::RefCell;
use std::collections::HashMap;
use std::rc::Rc;
use vstd::prelude::*;

verus! {

/// What an open window is drawn with.
pub struct GlutinWindowContext<B: Backend> {
    pub context: MaybeRc<B::Context>,
    pub glow_context: MaybeRc<B::Gl>,
    pub painter: MaybeRcCell<B::Painter>,
    pub integration: MaybeRcCell<B::Integration>,
    /// Only on Linux.
    pub render_flow: Option<B::RenderFlow>,
}

/// A window of the plugin. It stays known after it was closed.
pub struct WindowWrapper<B: Backend> {
    pub label: String,
    /// `None` once the window was closed.
    pub inner: Option<Box<GlutinWindowContext<B>>>,
    pub menu_items: Option<HashMap<u16, B::MenuItem>>,
}

/// The pieces that a new window is put together from.
#[allow(inconsistent_fields)]
pub enum Parts<B: Backend> {
    /// The window alone uses them.
    Owned {
        context: B::Context,
        glow_context: B::Gl,
        painter: B::Painter,
        integration: B::Integration,
    },
    /// The render callback of a GTK drawing area uses them too.
    Shared {
        context: Rc<B::Context>,
        glow_context: Rc<B::Gl>,
        painter: Rc<RefCell<B::Painter>>,
        integration: Rc<RefCell<B::Integration>>,
        render_flow: B::RenderFlow,
    },
}

/// Whether the window is known and has not been closed.
pub open spec fn is_open<B: Backend>(
    windows: Map<WebviewId, WindowWrapper<B>>,
    window_id: WebviewId,
) -> bool {
    windows.contains_key(window_id) && windows[window_id].inner is Some
}

impl<B: Backend> WindowWrapper<B> {
    /// The same window after it was closed.
    pub open spec fn closed(self) -> WindowWrapper<B> {
        WindowWrapper { inner: None, ..self }
    }
}

/// The windows after one of them, if it is known, was closed.
pub open spec fn without_context<B: Backend>(
    windows: Map<WebviewId, WindowWrapper<B>>,
    window_id: WebviewId,
) -> Map<WebviewId, WindowWrapper<B>> {
    if windows.contains_key(window_id) {
        windows.insert(window_id, windows[window_id].closed())
    } else {
        windows
    }
}

/// Whether `order` names every open window once and nothing else.
pub open spec fn is_walk<B: Backend>(
    order: Seq<WebviewId>,
    windows: Map<WebviewId, WindowWrapper<B>>,
) -> bool {
    &&& order.no_duplicates()
    &&& forall|window_id: WebviewId| #[trigger]
        order.contains(window_id) <==> is_open(windows, window_id)
}

impl<B: Backend> Parts<B> {
    /// On Linux the parts are shared with the render callback.
    pub open spec fn suits(self, platform: Platform) -> bool {
        (self is Shared) == (platform is Linux)
    }

    /// Whether `context` is made of these parts.
    pub open spec fn make_up(self, context: GlutinWindowContext<B>) -> bool {
        match self {
            Parts::Owned { context: window, glow_context, painter, integration } => {
                &&& context.context == MaybeRc::Actual(window)
                &&& context.glow_context == MaybeRc::Actual(glow_context)
                &&& context.painter.is_made_with(painter)
                &&& context.integration.is_made_with(integration)
                &&& context.render_flow is None
            },
            Parts::Shared { context: window, glow_context, painter, integration, render_flow } => {
                &&& context.context == MaybeRc::Rc(window)
                &&& context.glow_context == MaybeRc::Rc(glow_context)
                &&& context.painter == MaybeRcCell::RcCell(painter)
                &&& context.integration == MaybeRcCell::RcCell(integration)
                &&& context.render_flow == Some(render_flow)
            },
        }
    }

    /// Whether the parts are those that a window has on the platform.
    pub fn are_for(&self, platform: Platform) -> (res: bool)
        ensures
            res == self.suits(platform),
    {
        match self {
            Parts::Owned { .. } => !matches!(platform, Platform::Linux),
            Parts::Shared { .. } => matches!(platform, Platform::Linux),
        }
    }

    /// Puts the parts together.
    pub fn into_context(self) -> (res: GlutinWindowContext<B>)
        ensures
            self.make_up(res),
    {
        match self {
            Parts::Owned { context, glow_context, painter, integration } => GlutinWindowContext {
                context: MaybeRc::new(context),
                glow_context: MaybeRc::new(glow_context),
                painter: MaybeRcCell::new(painter),
                integration: MaybeRcCell::new(integration),
                render_flow: None,
            },
            Parts::Shared { context, glow_context, painter, integration, render_flow } => {
                GlutinWindowContext {
                    context: MaybeRc::Rc(context),
                    glow_context: MaybeRc::Rc(glow_context),
                    painter: MaybeRcCell::RcCell(painter),
                    integration: MaybeRcCell::RcCell(integration),
                    render_flow: Some(render_flow),
                }
            },
        }
    }
}

/// The ids of the open windows, in the order in which the map is walked.
pub fn open_windows<B: Backend>(windows: &HashMap<WebviewId, WindowWrapper<B>>) -> (order: Vec<
    WebviewId,
>)
    ensures
        is_walk(order@, windows@),
{
    broadcast use vstd::std_specs::hash::group_hash_axioms;

    let mut order: Vec<WebviewId> = Vec::new();
    for entry in entries: windows.iter()
        invariant
            order@.no_duplicates(),
            entries.seq().no_duplicates(),
            forall|j: int|
                #![trigger entries.seq()[j]]
                0 <= j < entries.seq().len() ==> windows@.contains_key(*entries.seq()[j].0)
                    && windows@[*entries.seq()[j].0] == *entries.seq()[j].1,
            forall|window_id: WebviewId| #[trigger]
                windows@.contains_key(window_id) ==> entries.seq().contains(
                    (&window_id, &windows@[window_id]),
                ),
            forall|i: int|
                #![trigger order@[i]]
                0 <= i < order.len() ==> is_open(windows@, order@[i]) && exists|j: int|
                    0 <= j < entries.index() && order@[i] == *#[trigger] entries.seq()[j].0,
            forall|j: int|
                0 <= j < entries.index() && is_open(windows@, *#[trigger] entries.seq()[j].0)
                    ==> order@.contains(*entries.seq()[j].0),
    {
        let ghost before = order@;
        assert(entry == entries.seq()[entries.index()]);
        if entry.1.inner.is_some() {
            order.push(*entry.0);
            assert(order@[order@.len() - 1] == *entry.0);
        }
        assert(forall|window_id: WebviewId|
            before.contains(window_id) ==> order@.contains(window_id)) by {
            assert(forall|i: int| 0 <= i < before.len() ==> before[i] == order@[i]);
        }
    }
    order
}

/// The context of a window, if the window is open.
pub fn context_of<B: Backend>(
    windows: &HashMap<WebviewId, WindowWrapper<B>>,
    window_id: WebviewId,
) -> (res: Option<&GlutinWindowContext<B>>)
    ensures
        res is Some <==> is_open(windows@, window_id),
        res matches Some(context) ==> *context == *windows@[window_id].inner->0,
{
    broadcast use vstd::std_specs::hash::group_hash_axioms;

    match windows.get(&window_id) {
        Some(window) => match &window.inner {
            Some(context) => Some(&**context),
            None => None,
        },
        None => None,
    }
}

/// Closes a window, and hands out its context if it was open.
pub fn take_context<B: Backend>(
    windows: &mut HashMap<WebviewId, WindowWrapper<B>>,
    window_id: WebviewId,
) -> (res: Option<Box<GlutinWindowContext<B>>>)
    ensures
        final(windows)@ == without_context(old(windows)@, window_id),
        res == (if is_open(old(windows)@, window_id) {
            old(windows)@[window_id].inner
        } else {
            None
        }),
{
    broadcast use vstd::std_specs::hash::group_hash_axioms;

    match windows.remove(&window_id) {
        Some(mut window) => {
            let context = window.inner.take();
            windows.insert(window_id, window);
            context
        },
        None => None,
    }
}

} // verus!
