//! The types that the windowing and rendering libraries supply.

use vstd::prelude::*;

verus! {

/// Identifies a window of the plugin.
pub type WebviewId = u64;

/// The operating system that the event loop runs on.
#[derive(Clone, Copy, Debug, PartialEq, Eq, Structural)]
pub enum Platform {
    Linux,
    Windows,
    MacOs,
    /// A Unix that is neither Linux nor macOS.
    OtherUnix,
}

/// The values of the windowing and rendering libraries that the plugin carries
/// around without looking inside them.
pub trait Backend: Sized {
    /// A native window with its OpenGL context.
    type Context;

    /// The loaded OpenGL functions.
    type Gl;

    /// What paints egui meshes with OpenGL.
    type Painter;

    /// An egui application with its window integration.
    type Integration;

    /// The cell in which the render callback of a GTK drawing area leaves the
    /// control flow that it asks for.
    type RenderFlow;

    /// A user's egui application before it is given a window.
    type App;

    /// The native options that a window is created with.
    type Options;

    /// A custom menu item.
    type MenuItem;

    /// A size, position, icon, monitor or similar value of a window message.
    type Value;

    /// What wakes the event loop up.
    type Proxy: Clone;

    /// The sending half of the channel of windows to be created.
    type Sender: Clone;

    /// The receiving half of the channel of windows to be created.
    type Receiver;
}

} // verus!
