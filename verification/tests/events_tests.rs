use renderer_backend::events::{window_event_action, WindowAction, WindowEventKind};

#[test]
fn redraw_renders() {
    assert_eq!(window_event_action(&WindowEventKind::RedrawRequested), WindowAction::Render);
}

#[test]
fn scale_factor_rescales() {
    assert_eq!(
        window_event_action(&WindowEventKind::ScaleFactorChanged),
        WindowAction::RescaleWindow
    );
}

#[test]
fn resize_remakes_surface() {
    assert_eq!(
        window_event_action(&WindowEventKind::Resized { width: 800, height: 600 }),
        WindowAction::RemakeSurface { width: 800, height: 600 }
    );
}

#[test]
fn close_exits() {
    assert_eq!(window_event_action(&WindowEventKind::CloseRequested), WindowAction::Exit);
}

#[test]
fn other_events_ignored() {
    assert_eq!(window_event_action(&WindowEventKind::Other), WindowAction::Ignore);
}
