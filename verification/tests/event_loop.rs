use fxst::ui::{EventLoopContext, FrameAction, UiStatus, WindowEventKind};

#[test]
fn nothing_happens_before_a_window_exists() {
    let mut ctx = EventLoopContext::new();
    assert_eq!(ctx.window_count(), 0);
    assert!(!ctx.graphics_ready());
    assert_eq!(ctx.ui(), None);
    assert_eq!(ctx.window_event(1, WindowEventKind::RedrawRequested), FrameAction::Ignore);
    assert_eq!(ctx.window_event(1, WindowEventKind::Other), FrameAction::Ignore);
    assert_eq!(ctx.ui(), None);
}

#[test]
fn first_redraw_loads_then_renders() {
    let mut ctx = EventLoopContext::new();
    ctx.surfaces_created(7, (3, 2));
    assert!(ctx.graphics_ready());
    assert_eq!(ctx.ui(), Some(UiStatus { width: 3, height: 2, loaded: false }));
    assert_eq!(
        ctx.window_event(7, WindowEventKind::RedrawRequested),
        FrameAction::LoadFrame { width: 3, height: 2, bytes_per_row: 12, window: Some(0) }
    );
    assert_eq!(ctx.ui(), Some(UiStatus { width: 3, height: 2, loaded: true }));
    assert_eq!(
        ctx.window_event(7, WindowEventKind::RedrawRequested),
        FrameAction::RenderFrame { window_index: 0 }
    );
    assert_eq!(
        ctx.window_event(7, WindowEventKind::RedrawRequested),
        FrameAction::RenderFrame { window_index: 0 }
    );
}

#[test]
fn unknown_window_is_not_found() {
    let mut ctx = EventLoopContext::new();
    ctx.surfaces_created(7, (1, 1));
    assert_eq!(
        ctx.window_event(8, WindowEventKind::RedrawRequested),
        FrameAction::LoadFrame { width: 1, height: 1, bytes_per_row: 4, window: None }
    );
    // a later redraw must come from a stored window
    assert_eq!(ctx.window_position(8), None);
    assert_eq!(
        ctx.window_event(7, WindowEventKind::RedrawRequested),
        FrameAction::RenderFrame { window_index: 0 }
    );
}

#[test]
fn close_always_exits() {
    let mut ctx = EventLoopContext::new();
    assert_eq!(ctx.window_event(0, WindowEventKind::CloseRequested), FrameAction::Exit);
    ctx.surfaces_created(1, (4, 4));
    assert_eq!(ctx.window_event(1, WindowEventKind::CloseRequested), FrameAction::Exit);
    assert_eq!(ctx.ui(), Some(UiStatus { width: 4, height: 4, loaded: false }));
    assert_eq!(ctx.window_count(), 1);
}

#[test]
fn loading_happens_once_per_start() {
    let mut ctx = EventLoopContext::new();
    ctx.surfaces_created(1, (2, 2));
    let mut loads = 0;
    for event in [
        WindowEventKind::Other,
        WindowEventKind::RedrawRequested,
        WindowEventKind::RedrawRequested,
        WindowEventKind::CloseRequested,
        WindowEventKind::RedrawRequested,
    ] {
        if let FrameAction::LoadFrame { .. } = ctx.window_event(1, event) {
            loads += 1;
        }
    }
    assert_eq!(loads, 1);
    // a second start brings a fresh interface, which loads again
    ctx.surfaces_created(2, (5, 6));
    assert_eq!(ctx.window_count(), 2);
    assert_eq!(
        ctx.window_event(2, WindowEventKind::RedrawRequested),
        FrameAction::LoadFrame { width: 5, height: 6, bytes_per_row: 20, window: Some(1) }
    );
}

#[test]
fn window_position_finds_the_first() {
    let mut ctx = EventLoopContext::new();
    ctx.surfaces_created(5, (1, 1));
    ctx.surfaces_created(9, (1, 1));
    ctx.surfaces_created(5, (1, 1));
    assert_eq!(ctx.window_position(5), Some(0));
    assert_eq!(ctx.window_position(9), Some(1));
    assert_eq!(ctx.window_position(6), None);
    assert_eq!(ctx.window_count(), 3);
}

#[test]
fn wide_logo_row_bytes() {
    let mut ctx = EventLoopContext::new();
    ctx.surfaces_created(0, (u32::MAX / 4, 1));
    assert_eq!(
        ctx.window_event(0, WindowEventKind::RedrawRequested),
        FrameAction::LoadFrame {
            width: u32::MAX / 4,
            height: 1,
            bytes_per_row: (u32::MAX / 4) * 4,
            window: Some(0)
        }
    );
}

#[test]
fn events_keep_the_windows() {
    let mut ctx = EventLoopContext::new();
    ctx.surfaces_created(3, (8, 8));
    ctx.surfaces_created(4, (8, 8));
    for event in [
        WindowEventKind::RedrawRequested,
        WindowEventKind::Other,
        WindowEventKind::CloseRequested,
        WindowEventKind::RedrawRequested,
    ] {
        ctx.window_event(4, event);
        assert_eq!(ctx.window_count(), 2);
        assert!(ctx.graphics_ready());
        assert_eq!(ctx.window_position(3), Some(0));
        assert_eq!(ctx.window_position(4), Some(1));
        let ui = ctx.ui().unwrap();
        assert_eq!((ui.width, ui.height), (8, 8));
    }
}
