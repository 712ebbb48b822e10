use tauri_egui::frame::{
    decode_render_flow, render_flow, ControlFlow, Frame, FrameAction, FrameReply, FrameTarget,
    INITIAL_RENDER_FLOW, UNFOCUSED_PAUSE_MILLIS,
};

/// Draws a frame to its end.
fn draw(start: Frame, needs_repaint: bool, should_quit: bool) -> (Vec<FrameAction>, Frame) {
    let mut frame = start;
    let mut calls = Vec::new();
    while frame.action != FrameAction::Finish {
        calls.push(frame.action);
        let reply = match frame.action {
            FrameAction::Update => FrameReply::Updated { needs_repaint },
            FrameAction::AskShouldQuit => FrameReply::ShouldQuit(should_quit),
            _ => FrameReply::Done,
        };
        assert!(frame.is_accepted(&reply));
        frame = frame.resume(reply);
    }
    (calls, frame)
}

#[test]
fn a_focused_window_that_is_done_waits() {
    let (calls, frame) = draw(Frame::window(true), false, false);
    assert_eq!(
        calls,
        vec![
            FrameAction::Update,
            FrameAction::HandlePlatformOutput,
            FrameAction::Tessellate,
            FrameAction::Clear,
            FrameAction::Paint,
            FrameAction::SwapBuffers,
            FrameAction::AskShouldQuit,
            FrameAction::SetControlFlow(ControlFlow::Wait),
            FrameAction::Autosave,
        ]
    );
    assert!(!frame.should_quit);
}

#[test]
fn an_unfocused_window_pauses_and_one_that_repaints_polls() {
    let (calls, frame) = draw(Frame::window(false), true, false);
    assert_eq!(
        calls,
        vec![
            FrameAction::Pause { millis: 10 },
            FrameAction::Update,
            FrameAction::HandlePlatformOutput,
            FrameAction::Tessellate,
            FrameAction::Clear,
            FrameAction::Paint,
            FrameAction::SwapBuffers,
            FrameAction::AskShouldQuit,
            FrameAction::RequestRedraw,
            FrameAction::SetControlFlow(ControlFlow::Poll),
            FrameAction::Autosave,
        ]
    );
    assert!(frame.needs_repaint);
    assert_eq!(UNFOCUSED_PAUSE_MILLIS, 10);
}

#[test]
fn a_window_that_quits_waits_even_if_it_wants_to_repaint() {
    let (calls, frame) = draw(Frame::window(true), true, true);
    assert!(calls.contains(&FrameAction::SetControlFlow(ControlFlow::Wait)));
    assert!(!calls.contains(&FrameAction::RequestRedraw));
    assert!(frame.should_quit);
}

#[test]
fn a_render_callback_leaves_a_number_and_swaps_nothing() {
    let (calls, _) = draw(Frame::render_callback(true), true, false);
    assert_eq!(
        calls,
        vec![
            FrameAction::Update,
            FrameAction::HandlePlatformOutput,
            FrameAction::Tessellate,
            FrameAction::Clear,
            FrameAction::Paint,
            FrameAction::AskShouldQuit,
            FrameAction::StoreRenderFlow(0),
            FrameAction::Autosave,
        ]
    );
    let (calls, _) = draw(Frame::render_callback(true), true, true);
    assert!(calls.contains(&FrameAction::StoreRenderFlow(1)));
}

#[test]
fn a_render_callback_without_a_window_draws_nothing() {
    let frame = Frame::render_callback(false);
    assert_eq!(frame.action, FrameAction::Finish);
    assert_eq!(frame.target, FrameTarget::RenderCallback);
    assert!(!frame.is_accepted(&FrameReply::Done));
}

#[test]
fn the_render_flow_has_three_numbers() {
    assert_eq!(render_flow(false, false), 1);
    assert_eq!(render_flow(false, true), 0);
    assert_eq!(render_flow(true, false), 1);
    assert_eq!(render_flow(true, true), 1);
    assert_eq!(decode_render_flow(0), Some(ControlFlow::Poll));
    assert_eq!(decode_render_flow(1), Some(ControlFlow::Wait));
    assert_eq!(decode_render_flow(2), Some(ControlFlow::Exit));
    assert_eq!(decode_render_flow(3), None);
    assert_eq!(decode_render_flow(255), None);
    assert_eq!(decode_render_flow(INITIAL_RENDER_FLOW), Some(ControlFlow::Wait));
}

#[test]
fn a_frame_accepts_only_the_reply_to_its_call() {
    let frame = Frame::window(true);
    assert!(frame.is_accepted(&FrameReply::Updated { needs_repaint: false }));
    assert!(!frame.is_accepted(&FrameReply::Done));
    assert!(!frame.is_accepted(&FrameReply::ShouldQuit(true)));
    assert!(Frame::window(false).is_accepted(&FrameReply::Done));
}

#[test]
fn the_number_of_a_render_callback_starts_at_one_and_follows_its_frames() {
    let mut number = INITIAL_RENDER_FLOW;
    assert_eq!(number, 1);
    let renders = [(true, true, false, 0), (false, false, false, 0), (true, true, true, 1)];
    for (window_exists, needs_repaint, should_quit, left) in renders {
        let (calls, _) = draw(Frame::render_callback(window_exists), needs_repaint, should_quit);
        for call in calls {
            if let FrameAction::StoreRenderFlow(code) = call {
                number = code;
            }
        }
        assert_eq!(number, left);
    }
}
