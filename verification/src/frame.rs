//! Drawing one frame of an egui window.
//!
//! A frame is drawn by a fixed series of calls into the integration and the
//! painter. [`Frame`] says which call is due; the caller makes it and reports
//! the outcome to [`Frame::resume`].

use vstd::prelude::*;

verus! {

/// What the event loop does when no event is left.
#[derive(Clone, Copy, Debug, PartialEq, Eq, Structural)]
pub enum ControlFlow {
    /// Start the next iteration at once.
    Poll,
    /// Sleep until the next event.
    Wait,
    /// Leave the event loop.
    Exit,
}

/// The number of milliseconds that a frame of an unfocused window is put off.
///
/// On macOS a minimized window would use up all CPU otherwise. Whether a window
/// is minimized cannot be told, but a minimized window is never focused.
pub const UNFOCUSED_PAUSE_MILLIS: u64 = 10;

/// The render flow of a window before its first frame.
pub const INITIAL_RENDER_FLOW: u8 = 1;

/// The control flow that a frame asks for.
pub open spec fn requested_flow(should_quit: bool, needs_repaint: bool) -> ControlFlow {
    if needs_repaint && !should_quit {
        ControlFlow::Poll
    } else {
        ControlFlow::Wait
    }
}

/// The number under which a render callback leaves a control flow.
pub open spec fn code_of(flow: ControlFlow) -> u8 {
    match flow {
        ControlFlow::Poll => 0,
        ControlFlow::Wait => 1,
        ControlFlow::Exit => 2,
    }
}

/// The control flow that stands behind a number, where there is one.
pub open spec fn flow_of(code: u8) -> Option<ControlFlow> {
    if code == 0 {
        Some(ControlFlow::Poll)
    } else if code == 1 {
        Some(ControlFlow::Wait)
    } else if code == 2 {
        Some(ControlFlow::Exit)
    } else {
        None
    }
}

/// The number that a render callback stores after a frame.
pub fn render_flow(should_quit: bool, needs_repaint: bool) -> (code: u8)
    ensures
        code == code_of(requested_flow(should_quit, needs_repaint)),
{
    if should_quit {
        1
    } else if needs_repaint {
        0
    } else {
        1
    }
}

/// Reads back what [`render_flow`] stored.
pub fn decode_render_flow(code: u8) -> (flow: Option<ControlFlow>)
    ensures
        flow == flow_of(code),
{
    match code {
        0 => Some(ControlFlow::Poll),
        1 => Some(ControlFlow::Wait),
        2 => Some(ControlFlow::Exit),
        _ => None,
    }
}

/// Where a frame is drawn.
#[derive(Clone, Copy, Debug, PartialEq, Eq, Structural)]
pub enum FrameTarget {
    /// Inside the render callback of a GTK drawing area, which presents the
    /// frame itself.
    RenderCallback,
    /// In a window that is presented by swapping its buffers.
    Window,
}

/// A call that is due in the course of a frame.
#[derive(Clone, Copy, Debug, PartialEq, Eq, Structural)]
pub enum FrameAction {
    /// Sleep.
    Pause { millis: u64 },
    /// Run the application for one frame. Answered by [`FrameReply::Updated`].
    Update,
    /// Hand the platform output of the update to the window.
    HandlePlatformOutput,
    /// Turn the shapes of the update into meshes.
    Tessellate,
    /// Switch the scissor test off and clear the framebuffer to the
    /// application's clear color.
    Clear,
    /// Upload the textures and paint the meshes.
    Paint,
    /// Present the frame.
    SwapBuffers,
    /// Ask whether the application wants to quit. Answered by
    /// [`FrameReply::ShouldQuit`].
    AskShouldQuit,
    /// Ask the window to be drawn again.
    RequestRedraw,
    /// Leave a number for the event loop, see [`render_flow`].
    StoreRenderFlow(u8),
    /// Set the control flow of the event loop.
    SetControlFlow(ControlFlow),
    /// Let the integration save the application's state if that is due.
    Autosave,
    /// Nothing more is to be done.
    Finish,
}

/// The outcome of a [`FrameAction`].
#[derive(Clone, Copy, Debug, PartialEq, Eq, Structural)]
pub enum FrameReply {
    /// The call was made.
    Done,
    /// The application ran.
    Updated { needs_repaint: bool },
    /// Whether the application wants to quit.
    ShouldQuit(bool),
}

/// A frame that is being drawn.
#[derive(Clone, Copy, Debug, PartialEq, Eq, Structural)]
pub struct Frame {
    pub target: FrameTarget,
    /// Whether the application asked for another frame.
    pub needs_repaint: bool,
    /// Whether the application asked to quit.
    pub should_quit: bool,
    /// The call that is due.
    pub action: FrameAction,
}

impl Frame {
    /// A frame of which `action` is the first call.
    pub open spec fn at(target: FrameTarget, action: FrameAction) -> Frame {
        Frame { target, needs_repaint: false, should_quit: false, action }
    }

    /// The same frame with another call due.
    pub open spec fn with(self, action: FrameAction) -> Frame {
        Frame { action, ..self }
    }

    /// Whether `reply` can be the outcome of the call that is due.
    pub open spec fn accepts(self, reply: FrameReply) -> bool {
        match self.action {
            FrameAction::Update => reply is Updated,
            FrameAction::AskShouldQuit => reply is ShouldQuit,
            FrameAction::Finish => false,
            _ => reply is Done,
        }
    }

    /// The frame after the call that was due.
    pub open spec fn next(self, reply: FrameReply) -> Frame {
        match self.action {
            FrameAction::Pause { .. } => self.with(FrameAction::Update),
            FrameAction::Update => Frame {
                needs_repaint: reply->needs_repaint,
                action: FrameAction::HandlePlatformOutput,
                ..self
            },
            FrameAction::HandlePlatformOutput => self.with(FrameAction::Tessellate),
            FrameAction::Tessellate => self.with(FrameAction::Clear),
            FrameAction::Clear => self.with(FrameAction::Paint),
            FrameAction::Paint => if self.target is Window {
                self.with(FrameAction::SwapBuffers)
            } else {
                self.with(FrameAction::AskShouldQuit)
            },
            FrameAction::SwapBuffers => self.with(FrameAction::AskShouldQuit),
            FrameAction::AskShouldQuit => {
                let asked = Frame { should_quit: reply->ShouldQuit_0, ..self };
                let flow = requested_flow(asked.should_quit, asked.needs_repaint);
                if self.target is RenderCallback {
                    asked.with(FrameAction::StoreRenderFlow(code_of(flow)))
                } else if flow is Poll {
                    asked.with(FrameAction::RequestRedraw)
                } else {
                    asked.with(FrameAction::SetControlFlow(flow))
                }
            },
            FrameAction::RequestRedraw => self.with(
                FrameAction::SetControlFlow(ControlFlow::Poll),
            ),
            FrameAction::StoreRenderFlow(_) => self.with(FrameAction::Autosave),
            FrameAction::SetControlFlow(_) => self.with(FrameAction::Autosave),
            FrameAction::Autosave => self.with(FrameAction::Finish),
            FrameAction::Finish => self,
        }
    }

    /// Starts a frame in a window. An unfocused window pauses first.
    pub fn window(is_focused: bool) -> (frame: Frame)
        ensures
            frame == Frame::at(
                FrameTarget::Window,
                if is_focused {
                    FrameAction::Update
                } else {
                    FrameAction::Pause { millis: UNFOCUSED_PAUSE_MILLIS }
                },
            ),
    {
        let action = if is_focused {
            FrameAction::Update
        } else {
            FrameAction::Pause { millis: UNFOCUSED_PAUSE_MILLIS }
        };
        Frame { target: FrameTarget::Window, needs_repaint: false, should_quit: false, action }
    }

    /// Starts a frame in a render callback. Nothing is drawn where the window
    /// is gone.
    pub fn render_callback(window_exists: bool) -> (frame: Frame)
        ensures
            frame == Frame::at(
                FrameTarget::RenderCallback,
                if window_exists {
                    FrameAction::Update
                } else {
                    FrameAction::Finish
                },
            ),
    {
        let action = if window_exists {
            FrameAction::Update
        } else {
            FrameAction::Finish
        };
        Frame { target: FrameTarget::RenderCallback, needs_repaint: false, should_quit: false, action }
    }

    /// Whether `reply` can be handed to [`Frame::resume`].
    pub fn is_accepted(&self, reply: &FrameReply) -> (accepted: bool)
        ensures
            accepted == self.accepts(*reply),
    {
        match self.action {
            FrameAction::Update => matches!(reply, FrameReply::Updated { .. }),
            FrameAction::AskShouldQuit => matches!(reply, FrameReply::ShouldQuit(_)),
            FrameAction::Finish => false,
            _ => matches!(reply, FrameReply::Done),
        }
    }

    /// Goes on after the call that was due.
    pub fn resume(self, reply: FrameReply) -> (frame: Frame)
        requires
            self.accepts(reply),
        ensures
            frame == self.next(reply),
    {
        let mut frame = self;
        match self.action {
            FrameAction::Pause { .. } => frame.action = FrameAction::Update,
            FrameAction::Update => {
                if let FrameReply::Updated { needs_repaint } = reply {
                    frame.needs_repaint = needs_repaint;
                }
                frame.action = FrameAction::HandlePlatformOutput;
            },
            FrameAction::HandlePlatformOutput => frame.action = FrameAction::Tessellate,
            FrameAction::Tessellate => frame.action = FrameAction::Clear,
            FrameAction::Clear => frame.action = FrameAction::Paint,
            FrameAction::Paint => {
                frame.action = match self.target {
                    FrameTarget::Window => FrameAction::SwapBuffers,
                    FrameTarget::RenderCallback => FrameAction::AskShouldQuit,
                };
            },
            FrameAction::SwapBuffers => frame.action = FrameAction::AskShouldQuit,
            FrameAction::AskShouldQuit => {
                if let FrameReply::ShouldQuit(should_quit) = reply {
                    frame.should_quit = should_quit;
                }
                frame.action = match self.target {
                    FrameTarget::RenderCallback => FrameAction::StoreRenderFlow(
                        render_flow(frame.should_quit, frame.needs_repaint),
                    ),
                    FrameTarget::Window => if frame.should_quit {
                        FrameAction::SetControlFlow(ControlFlow::Wait)
                    } else if frame.needs_repaint {
                        FrameAction::RequestRedraw
                    } else {
                        FrameAction::SetControlFlow(ControlFlow::Wait)
                    },
                };
            },
            FrameAction::RequestRedraw => {
                frame.action = FrameAction::SetControlFlow(ControlFlow::Poll);
            },
            FrameAction::StoreRenderFlow(_) => frame.action = FrameAction::Autosave,
            FrameAction::SetControlFlow(_) => frame.action = FrameAction::Autosave,
            FrameAction::Autosave => frame.action = FrameAction::Finish,
            FrameAction::Finish => {},
        }
        frame
    }
}

/// The outcome of each call of a frame whose application asks for another frame
/// if `needs_repaint` and to quit if `should_quit`.
pub open spec fn frame_reply(
    action: FrameAction,
    needs_repaint: bool,
    should_quit: bool,
) -> FrameReply {
    match action {
        FrameAction::Update => FrameReply::Updated { needs_repaint },
        FrameAction::AskShouldQuit => FrameReply::ShouldQuit(should_quit),
        _ => FrameReply::Done,
    }
}

impl Frame {
    /// A bound on the number of calls that are left.
    pub open spec fn calls_left(self) -> nat {
        match self.action {
            FrameAction::Pause { .. } => 11,
            FrameAction::Update => 10,
            FrameAction::HandlePlatformOutput => 9,
            FrameAction::Tessellate => 8,
            FrameAction::Clear => 7,
            FrameAction::Paint => 6,
            FrameAction::SwapBuffers => 5,
            FrameAction::AskShouldQuit => 4,
            FrameAction::RequestRedraw => 3,
            FrameAction::StoreRenderFlow(_) => 2,
            FrameAction::SetControlFlow(_) => 2,
            FrameAction::Autosave => 1,
            FrameAction::Finish => 0,
        }
    }

    /// Whether the application of the frame has asked to quit when the frame is over,
    /// if it answers `should_quit` should it still be asked.
    pub open spec fn ends_quitting(self, should_quit: bool) -> bool {
        if self.calls_left() >= 4 {
            should_quit
        } else {
            self.should_quit
        }
    }

    /// The calls that are still made, in order, up to and with `Finish`.
    pub open spec fn trace(self, needs_repaint: bool, should_quit: bool) -> Seq<FrameAction>
        decreases self.calls_left(),
    {
        if self.action is Finish {
            seq![FrameAction::Finish]
        } else {
            seq![self.action] + self.next(
                frame_reply(self.action, needs_repaint, should_quit),
            ).trace(needs_repaint, should_quit)
        }
    }
}

/// The calls that turn an update into pixels.
pub open spec fn painting() -> Seq<FrameAction> {
    seq![
        FrameAction::Update,
        FrameAction::HandlePlatformOutput,
        FrameAction::Tessellate,
        FrameAction::Clear,
        FrameAction::Paint,
    ]
}

/// The calls of a whole frame in a window.
pub open spec fn window_frame(is_focused: bool, needs_repaint: bool, should_quit: bool) -> Seq<
    FrameAction,
> {
    let pause = if is_focused {
        seq![]
    } else {
        seq![FrameAction::Pause { millis: UNFOCUSED_PAUSE_MILLIS }]
    };
    let flow = requested_flow(should_quit, needs_repaint);
    let redraw = if flow is Poll {
        seq![FrameAction::RequestRedraw]
    } else {
        seq![]
    };
    pause + painting() + seq![FrameAction::SwapBuffers, FrameAction::AskShouldQuit] + redraw + seq![
        FrameAction::SetControlFlow(flow),
        FrameAction::Autosave,
        FrameAction::Finish,
    ]
}

/// The calls of a whole frame in a render callback.
pub open spec fn callback_frame(window_exists: bool, needs_repaint: bool, should_quit: bool) -> Seq<
    FrameAction,
> {
    if window_exists {
        painting() + seq![
            FrameAction::AskShouldQuit,
            FrameAction::StoreRenderFlow(code_of(requested_flow(should_quit, needs_repaint))),
            FrameAction::Autosave,
            FrameAction::Finish,
        ]
    } else {
        seq![FrameAction::Finish]
    }
}

/// A frame that is about to tessellate paints first.
proof fn lemma_meshes(frame: Frame, needs_repaint: bool, should_quit: bool)
    requires
        frame.action is Tessellate,
    ensures
        frame.trace(needs_repaint, should_quit) == seq![
            FrameAction::Tessellate,
            FrameAction::Clear,
            FrameAction::Paint,
        ] + frame.with(FrameAction::Paint).next(FrameReply::Done).trace(
            needs_repaint,
            should_quit,
        ),
{
    let clear = frame.with(FrameAction::Clear);
    let paint = frame.with(FrameAction::Paint);
    let rest = paint.next(FrameReply::Done).trace(needs_repaint, should_quit);
    assert(paint.trace(needs_repaint, should_quit) == seq![FrameAction::Paint] + rest);
    assert(clear.trace(needs_repaint, should_quit) =~= seq![FrameAction::Clear, FrameAction::Paint]
        + rest);
    assert(frame.trace(needs_repaint, should_quit) =~= seq![
        FrameAction::Tessellate,
        FrameAction::Clear,
        FrameAction::Paint,
    ] + rest);
}

/// A frame that is about to update paints first.
proof fn lemma_painting(frame: Frame, needs_repaint: bool, should_quit: bool)
    requires
        frame.action is Update,
    ensures
        ({
            let painted = Frame {
                needs_repaint,
                action: if frame.target is Window {
                    FrameAction::SwapBuffers
                } else {
                    FrameAction::AskShouldQuit
                },
                ..frame
            };
            frame.trace(needs_repaint, should_quit) == painting() + painted.trace(
                needs_repaint,
                should_quit,
            )
        }),
{
    let updated = Frame { needs_repaint, ..frame };
    let output = updated.with(FrameAction::HandlePlatformOutput);
    let tessellate = updated.with(FrameAction::Tessellate);
    let painted = updated.with(FrameAction::Paint).next(FrameReply::Done);
    let rest = painted.trace(needs_repaint, should_quit);
    lemma_meshes(tessellate, needs_repaint, should_quit);
    assert(output.trace(needs_repaint, should_quit) =~= seq![
        FrameAction::HandlePlatformOutput,
        FrameAction::Tessellate,
        FrameAction::Clear,
        FrameAction::Paint,
    ] + rest);
    assert(frame.trace(needs_repaint, should_quit) =~= painting() + rest);
}

/// A frame that has left its control flow saves and ends.
proof fn lemma_saving(frame: Frame, needs_repaint: bool, should_quit: bool)
    requires
        frame.action is SetControlFlow || frame.action is StoreRenderFlow,
    ensures
        frame.trace(needs_repaint, should_quit) == seq![
            frame.action,
            FrameAction::Autosave,
            FrameAction::Finish,
        ],
{
    let autosave = frame.with(FrameAction::Autosave);
    let finish = frame.with(FrameAction::Finish);
    assert(finish.trace(needs_repaint, should_quit) == seq![FrameAction::Finish]);
    assert(autosave.trace(needs_repaint, should_quit) =~= seq![
        FrameAction::Autosave,
        FrameAction::Finish,
    ]);
    assert(frame.trace(needs_repaint, should_quit) =~= seq![
        frame.action,
        FrameAction::Autosave,
        FrameAction::Finish,
    ]);
}

/// A frame in a window that is painted is presented and leaves its control flow.
proof fn lemma_presenting(frame: Frame, needs_repaint: bool, should_quit: bool)
    requires
        frame.target is Window,
        frame.action is SwapBuffers,
        frame.needs_repaint == needs_repaint,
    ensures
        ({
            let flow = requested_flow(should_quit, needs_repaint);
            let redraw = if flow is Poll {
                seq![FrameAction::RequestRedraw]
            } else {
                seq![]
            };
            frame.trace(needs_repaint, should_quit) == seq![
                FrameAction::SwapBuffers,
                FrameAction::AskShouldQuit,
            ] + redraw + seq![
                FrameAction::SetControlFlow(flow),
                FrameAction::Autosave,
                FrameAction::Finish,
            ]
        }),
{
    let flow = requested_flow(should_quit, needs_repaint);
    let ask = frame.with(FrameAction::AskShouldQuit);
    let asked = Frame { should_quit, ..frame };
    let set = asked.with(FrameAction::SetControlFlow(flow));
    let ending = seq![
        FrameAction::SetControlFlow(flow),
        FrameAction::Autosave,
        FrameAction::Finish,
    ];
    lemma_saving(set, needs_repaint, should_quit);
    if flow is Poll {
        let redraw = asked.with(FrameAction::RequestRedraw);
        assert(redraw.trace(needs_repaint, should_quit) == seq![FrameAction::RequestRedraw]
            + ending);
        assert(ask.trace(needs_repaint, should_quit) =~= seq![
            FrameAction::AskShouldQuit,
            FrameAction::RequestRedraw,
        ] + ending);
        assert(frame.trace(needs_repaint, should_quit) =~= seq![
            FrameAction::SwapBuffers,
            FrameAction::AskShouldQuit,
        ] + seq![FrameAction::RequestRedraw] + ending);
    } else {
        assert(ask.trace(needs_repaint, should_quit) == seq![FrameAction::AskShouldQuit] + ending);
        assert(frame.trace(needs_repaint, should_quit) =~= seq![
            FrameAction::SwapBuffers,
            FrameAction::AskShouldQuit,
        ] + seq![] + ending);
    }
}

/// A frame in a window makes exactly the calls of [`window_frame`], whatever the
/// application answers.
pub proof fn law_window_frame(
    start: Frame,
    is_focused: bool,
    needs_repaint: bool,
    should_quit: bool,
)
    requires
        start == Frame::at(
            FrameTarget::Window,
            if is_focused {
                FrameAction::Update
            } else {
                FrameAction::Pause { millis: UNFOCUSED_PAUSE_MILLIS }
            },
        ),
    ensures
        start.trace(needs_repaint, should_quit) == window_frame(
            is_focused,
            needs_repaint,
            should_quit,
        ),
{
    let update = start.with(FrameAction::Update);
    let swap = Frame { needs_repaint, action: FrameAction::SwapBuffers, ..start };
    lemma_painting(update, needs_repaint, should_quit);
    lemma_presenting(swap, needs_repaint, should_quit);
    let painted = update.trace(needs_repaint, should_quit);
    if is_focused {
        assert(painted =~= window_frame(is_focused, needs_repaint, should_quit));
    } else {
        assert(start.trace(needs_repaint, should_quit) == seq![start.action] + painted);
        assert(seq![start.action] + painted =~= window_frame(
            is_focused,
            needs_repaint,
            should_quit,
        ));
    }
}

/// A frame in a render callback makes exactly the calls of [`callback_frame`],
/// whatever the application answers.
pub proof fn law_callback_frame(
    start: Frame,
    window_exists: bool,
    needs_repaint: bool,
    should_quit: bool,
)
    requires
        start == Frame::at(
            FrameTarget::RenderCallback,
            if window_exists {
                FrameAction::Update
            } else {
                FrameAction::Finish
            },
        ),
    ensures
        start.trace(needs_repaint, should_quit) == callback_frame(
            window_exists,
            needs_repaint,
            should_quit,
        ),
{
    if window_exists {
        let ask = Frame { needs_repaint, action: FrameAction::AskShouldQuit, ..start };
        let store = ask.next(FrameReply::ShouldQuit(should_quit));
        lemma_painting(start, needs_repaint, should_quit);
        lemma_saving(store, needs_repaint, should_quit);
        assert(ask.trace(needs_repaint, should_quit) == seq![FrameAction::AskShouldQuit]
            + store.trace(needs_repaint, should_quit));
        assert(start.trace(needs_repaint, should_quit) =~= callback_frame(
            window_exists,
            needs_repaint,
            should_quit,
        ));
    }
}

/// Every number that is ever left for the event loop stands for a control flow:
/// the one that a window starts with, and the one of every frame. The latter is
/// the control flow that the same frame sets in a window.
pub proof fn law_render_flow_is_readable(needs_repaint: bool, should_quit: bool)
    ensures
        flow_of(INITIAL_RENDER_FLOW) == Some(ControlFlow::Wait),
        flow_of(code_of(requested_flow(should_quit, needs_repaint))) == Some(
            requested_flow(should_quit, needs_repaint),
        ),
        callback_frame(true, needs_repaint, should_quit).contains(
            FrameAction::StoreRenderFlow(code_of(requested_flow(should_quit, needs_repaint))),
        ),
        forall|is_focused: bool| #[trigger]
            window_frame(is_focused, needs_repaint, should_quit).contains(
                FrameAction::SetControlFlow(requested_flow(should_quit, needs_repaint)),
            ),
{
    let callback = callback_frame(true, needs_repaint, should_quit);
    assert(callback[6] == FrameAction::StoreRenderFlow(
        code_of(requested_flow(should_quit, needs_repaint)),
    ));
    assert forall|is_focused: bool| #[trigger]
        window_frame(is_focused, needs_repaint, should_quit).contains(
            FrameAction::SetControlFlow(requested_flow(should_quit, needs_repaint)),
        ) by {
        let frame = window_frame(is_focused, needs_repaint, should_quit);
        assert(frame[frame.len() - 3] == FrameAction::SetControlFlow(
            requested_flow(should_quit, needs_repaint),
        ));
    }
}

/// A frame never asks the event loop to exit.
pub proof fn law_frame_never_exits(needs_repaint: bool, should_quit: bool)
    ensures
        requested_flow(should_quit, needs_repaint) != ControlFlow::Exit,
        requested_flow(true, needs_repaint) == ControlFlow::Wait,
{
}

/// A redraw is requested only in a window, right after its application was asked whether
/// it wants to quit, and just if it asked for another frame and does not want to quit. A
/// frame in a render callback never requests one.
pub proof fn law_redraw_only_if_wanted(frame: Frame, reply: FrameReply)
    requires
        frame.accepts(reply),
    ensures
        frame.next(reply).action is RequestRedraw <==> {
            &&& frame.target is Window
            &&& frame.action is AskShouldQuit
            &&& frame.needs_repaint
            &&& reply == FrameReply::ShouldQuit(false)
        },
{
}

/// A frame stays where it is drawn and remembers what its application last answered.
pub proof fn law_frame_remembers_answers(frame: Frame, reply: FrameReply)
    requires
        frame.accepts(reply),
    ensures
        frame.next(reply).target == frame.target,
        match reply {
            FrameReply::Done => {
                &&& frame.next(reply).needs_repaint == frame.needs_repaint
                &&& frame.next(reply).should_quit == frame.should_quit
            },
            FrameReply::Updated { needs_repaint } => {
                &&& frame.next(reply).needs_repaint == needs_repaint
                &&& frame.next(reply).should_quit == frame.should_quit
            },
            FrameReply::ShouldQuit(should_quit) => {
                &&& frame.next(reply).needs_repaint == frame.needs_repaint
                &&& frame.next(reply).should_quit == should_quit
            },
        },
{
}

/// Only the update and the question whether to quit have answers of their own; a frame
/// that is over has none.
pub proof fn law_frame_answers(frame: Frame, reply: FrameReply)
    ensures
        frame.accepts(reply) <==> match reply {
            FrameReply::Updated { .. } => frame.action is Update,
            FrameReply::ShouldQuit(_) => frame.action is AskShouldQuit,
            FrameReply::Done => !(frame.action is Update || frame.action is AskShouldQuit
                || frame.action is Finish),
        },
{
}

/// A frame in a render callback updates, paints and asks whether to quit, leaves 0 for
/// the event loop if the application wants another frame and does not want to quit and
/// else 1, saves and ends: nothing more and nothing in between.
pub proof fn law_render_callback_runs(needs_repaint: bool, should_quit: bool)
    ensures
        ({
            let start = Frame {
                target: FrameTarget::RenderCallback,
                needs_repaint: false,
                should_quit: false,
                action: FrameAction::Update,
            };
            let done = FrameReply::Done;
            let output = start.next(FrameReply::Updated { needs_repaint });
            let tessellate = output.next(done);
            let clear = tessellate.next(done);
            let paint = clear.next(done);
            let ask = paint.next(done);
            let store = ask.next(FrameReply::ShouldQuit(should_quit));
            let save = store.next(done);
            &&& output.action == FrameAction::HandlePlatformOutput
            &&& tessellate.action == FrameAction::Tessellate
            &&& clear.action == FrameAction::Clear
            &&& paint.action == FrameAction::Paint
            &&& ask.action == FrameAction::AskShouldQuit
            &&& store.action == FrameAction::StoreRenderFlow(
                if needs_repaint && !should_quit {
                    0
                } else {
                    1
                },
            )
            &&& save.action == FrameAction::Autosave
            &&& save.next(done).action == FrameAction::Finish
        }),
{
}

/// A frame in a window updates, paints, is presented and asks whether to quit. If the
/// application wants another frame and does not want to quit, the window asks to be
/// drawn again and the event loop goes on at once; else the event loop waits. Then the
/// frame saves and ends.
pub proof fn law_window_frame_runs(needs_repaint: bool, should_quit: bool)
    ensures
        ({
            let start = Frame {
                target: FrameTarget::Window,
                needs_repaint: false,
                should_quit: false,
                action: FrameAction::Update,
            };
            let done = FrameReply::Done;
            let output = start.next(FrameReply::Updated { needs_repaint });
            let tessellate = output.next(done);
            let clear = tessellate.next(done);
            let paint = clear.next(done);
            let swap = paint.next(done);
            let ask = swap.next(done);
            let asked = ask.next(FrameReply::ShouldQuit(should_quit));
            &&& output.action == FrameAction::HandlePlatformOutput
            &&& tessellate.action == FrameAction::Tessellate
            &&& clear.action == FrameAction::Clear
            &&& paint.action == FrameAction::Paint
            &&& swap.action == FrameAction::SwapBuffers
            &&& ask.action == FrameAction::AskShouldQuit
            &&& if needs_repaint && !should_quit {
                let flow = asked.next(done);
                &&& asked.action == FrameAction::RequestRedraw
                &&& flow.action == FrameAction::SetControlFlow(ControlFlow::Poll)
                &&& flow.next(done).action == FrameAction::Autosave
                &&& flow.next(done).next(done).action == FrameAction::Finish
            } else {
                &&& asked.action == FrameAction::SetControlFlow(ControlFlow::Wait)
                &&& asked.next(done).action == FrameAction::Autosave
                &&& asked.next(done).next(done).action == FrameAction::Finish
            }
        }),
{
}

/// The calls of a frame in a render callback, one after the other. None asks the window
/// to be drawn again, presents the frame or touches the control flow of the event loop.
pub proof fn law_render_callback_leaves_the_window_alone(
    window_exists: bool,
    needs_repaint: bool,
    should_quit: bool,
)
    ensures
        ({
            let calls = callback_frame(window_exists, needs_repaint, should_quit);
            &&& calls.len() == if window_exists {
                9nat
            } else {
                1
            }
            &&& forall|i: int|
                0 <= i < calls.len() ==> !(#[trigger] calls[i] is RequestRedraw
                    || calls[i] is SwapBuffers || calls[i] is SetControlFlow || calls[i] is Pause)
        }),
{
}

/// How frames start: an existing window is updated in its render callback and a missing
/// one is not; a focused window is updated and another one pauses for ten milliseconds
/// first.
pub proof fn law_frames_start(given: bool, callback: Frame, window: Frame)
    requires
        call_ensures(Frame::render_callback, (given,), callback),
        call_ensures(Frame::window, (given,), window),
    ensures
        callback.target is RenderCallback,
        callback.action == if given {
            FrameAction::Update
        } else {
            FrameAction::Finish
        },
        window.target is Window,
        window.action == if given {
            FrameAction::Update
        } else {
            FrameAction::Pause { millis: 10 }
        },
        !callback.needs_repaint && !callback.should_quit,
        !window.needs_repaint && !window.should_quit,
        !given ==> window.next(FrameReply::Done).action is Update,
{
}

/// What a render callback leaves is read back as the control flow that it asks for, and
/// the numbers are those that the control flows have.
pub proof fn law_render_flow_is_read_back(
    should_quit: bool,
    needs_repaint: bool,
    number: u8,
    flow: Option<ControlFlow>,
)
    requires
        call_ensures(render_flow, (should_quit, needs_repaint), number),
        call_ensures(decode_render_flow, (number,), flow),
    ensures
        number <= 1,
        flow == Some(
            if needs_repaint && !should_quit {
                ControlFlow::Poll
            } else {
                ControlFlow::Wait
            },
        ),
{
}

/// The numbers of the control flows: 0 to go on at once, 1 to wait, 2 to exit, and no
/// other.
pub proof fn law_numbers_of_control_flows(number: u8, flow: Option<ControlFlow>)
    requires
        call_ensures(decode_render_flow, (number,), flow),
    ensures
        flow == Some(ControlFlow::Poll) <==> number == 0,
        flow == Some(ControlFlow::Wait) <==> number == 1,
        flow == Some(ControlFlow::Exit) <==> number == 2,
        flow is None <==> number > 2,
{
}

/// A call of a frame that is answered leads to the step that follows it, so what is said
/// of steps holds of the calls.
pub proof fn law_frame_resumes(frame: Frame, reply: FrameReply, next: Frame, accepted: bool)
    requires
        call_ensures(Frame::resume, (frame, reply), next),
        call_ensures(Frame::is_accepted, (&frame, &reply), accepted),
    ensures
        next == frame.next(reply),
        accepted == frame.accepts(reply),
{
}

} // verus!
