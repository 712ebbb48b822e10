//! Setting up a new window.

use crate::backend::{Backend, Platform, WebviewId};
use vstd::prelude::*;

verus! {

/// A request for a window.
pub struct CreateWindowPayload<B: Backend> {
    pub window_id: WebviewId,
    pub label: String,
    pub app: B::App,
    pub native_options: B::Options,
}

/// What the OpenGL context of a window is built with.
#[derive(Clone, Copy, Debug, PartialEq, Eq, Structural)]
pub struct GlAttributes {
    pub depth_buffer: u8,
    pub srgb: bool,
    pub stencil_buffer: u8,
    pub vsync: bool,
}

impl GlAttributes {
    /// What the OpenGL context of every window is built with: no depth and stencil
    /// buffer, but sRGB and vertical synchronization.
    pub open spec fn of_windows() -> GlAttributes {
        GlAttributes { depth_buffer: 0, srgb: true, stencil_buffer: 0, vsync: true }
    }
}

/// What the name of an application is asked for.
#[derive(Clone, Copy, Debug, PartialEq, Eq, Structural)]
pub enum NameUse {
    /// What the application's state is kept under.
    Persistence,
    /// The title of the window.
    Title,
}

/// What is done with an application before its window is built, in order. It is asked
/// for its name anew for each use of it.
#[derive(Clone, Copy, Debug, PartialEq, Eq, Structural)]
pub enum NamingStep {
    /// Ask under which name the application's state is kept.
    AskPersistenceName,
    /// Find what is kept under that name.
    OpenPersistence,
    /// Ask for the title of the window.
    AskTitle,
}

/// The name under which the integration is made.
pub const INTEGRATION_NAME: &'static str = "egui_glow";

/// The steps by which a window comes to be, in order.
#[derive(Clone, Copy, Debug, PartialEq, Eq, Structural)]
pub enum SetupStep {
    /// Build the native window and its OpenGL context.
    BuildContext,
    /// Make the window's native id known as an id of the plugin.
    MapWindow,
    /// Load the OpenGL functions.
    LoadGl,
    /// Switch sRGB framebuffers on.
    EnableFramebufferSrgb,
    /// Make the painter.
    CreatePainter,
    /// Make the integration, named [`INTEGRATION_NAME`], which takes the application
    /// over.
    CreateIntegration,
    /// Give the window an empty set of event listeners.
    InsertWindowListeners,
    /// Give the window an empty set of menu event listeners.
    InsertMenuListeners,
    /// Make the drawing area draw frames in its render callback. Linux only. See
    /// [`crate::frame::INITIAL_RENDER_FLOW`].
    ConnectRender,
    /// Hand the parts of the window over.
    HandOver,
}

impl SetupStep {
    /// The step that follows.
    pub open spec fn next(self, platform: Platform) -> Option<SetupStep> {
        match self {
            SetupStep::BuildContext => Some(SetupStep::MapWindow),
            SetupStep::MapWindow => Some(SetupStep::LoadGl),
            SetupStep::LoadGl => Some(SetupStep::EnableFramebufferSrgb),
            SetupStep::EnableFramebufferSrgb => Some(SetupStep::CreatePainter),
            SetupStep::CreatePainter => Some(SetupStep::CreateIntegration),
            SetupStep::CreateIntegration => Some(SetupStep::InsertWindowListeners),
            SetupStep::InsertWindowListeners => Some(SetupStep::InsertMenuListeners),
            SetupStep::InsertMenuListeners => if platform is Linux {
                Some(SetupStep::ConnectRender)
            } else {
                Some(SetupStep::HandOver)
            },
            SetupStep::ConnectRender => Some(SetupStep::HandOver),
            SetupStep::HandOver => None,
        }
    }

    /// The step that follows.
    pub fn after(self, platform: Platform) -> (res: Option<SetupStep>)
        ensures
            res == self.next(platform),
    {
        match self {
            SetupStep::BuildContext => Some(SetupStep::MapWindow),
            SetupStep::MapWindow => Some(SetupStep::LoadGl),
            SetupStep::LoadGl => Some(SetupStep::EnableFramebufferSrgb),
            SetupStep::EnableFramebufferSrgb => Some(SetupStep::CreatePainter),
            SetupStep::CreatePainter => Some(SetupStep::CreateIntegration),
            SetupStep::CreateIntegration => Some(SetupStep::InsertWindowListeners),
            SetupStep::InsertWindowListeners => Some(SetupStep::InsertMenuListeners),
            SetupStep::InsertMenuListeners => match platform {
                Platform::Linux => Some(SetupStep::ConnectRender),
                Platform::Windows | Platform::MacOs | Platform::OtherUnix => {
                    Some(SetupStep::HandOver)
                },
            },
            SetupStep::ConnectRender => Some(SetupStep::HandOver),
            SetupStep::HandOver => None,
        }
    }
}

} // verus!
