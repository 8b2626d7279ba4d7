use stl_renderer::input::{ViewerAction, ViewerEvent, ViewerState};

fn shown() -> ViewerState {
    ViewerState::new().handle(ViewerEvent::Resumed).0
}

#[test]
fn starts_without_scene() {
    let s = ViewerState::new();
    assert!(!s.has_scene);
    assert!(!s.dragging);
}

#[test]
fn resume_creates_scene() {
    let (s, a) = ViewerState::new().handle(ViewerEvent::Resumed);
    assert_eq!(a, ViewerAction::CreateScene);
    assert_eq!(s, ViewerState { has_scene: true, dragging: false });
}

#[test]
fn close_exits_in_any_state() {
    assert_eq!(ViewerState::new().handle(ViewerEvent::CloseRequested).1, ViewerAction::Exit);
    assert_eq!(shown().handle(ViewerEvent::CloseRequested).1, ViewerAction::Exit);
}

#[test]
fn left_press_starts_drag_and_motion_rotates() {
    let (s, a) = shown().handle(ViewerEvent::MouseButton { left: true, pressed: true });
    assert_eq!(a, ViewerAction::Nothing);
    assert!(s.dragging);
    assert_eq!(s.handle(ViewerEvent::MouseMotion).1, ViewerAction::RotateCamera);
    let (s, _) = s.handle(ViewerEvent::MouseButton { left: true, pressed: false });
    assert!(!s.dragging);
    assert_eq!(s.handle(ViewerEvent::MouseMotion).1, ViewerAction::Nothing);
}

#[test]
fn other_buttons_do_not_drag() {
    let (s, a) = shown().handle(ViewerEvent::MouseButton { left: false, pressed: true });
    assert_eq!(a, ViewerAction::Nothing);
    assert!(!s.dragging);
    assert_eq!(s.handle(ViewerEvent::MouseMotion).1, ViewerAction::Nothing);
}

#[test]
fn redraw_and_resize_need_a_scene() {
    let s = ViewerState::new();
    assert_eq!(s.handle(ViewerEvent::RedrawRequested).1, ViewerAction::Nothing);
    assert_eq!(s.handle(ViewerEvent::Resized { width: 800, height: 600 }).1, ViewerAction::Nothing);
    assert_eq!(s.handle(ViewerEvent::MouseMotion).1, ViewerAction::Nothing);
    let (after_press, _) = s.handle(ViewerEvent::MouseButton { left: true, pressed: true });
    assert_eq!(after_press, s);
    let s = shown();
    assert_eq!(s.handle(ViewerEvent::RedrawRequested).1, ViewerAction::Render);
    assert_eq!(
        s.handle(ViewerEvent::Resized { width: 1024, height: 768 }).1,
        ViewerAction::Reconfigure { width: 1024, height: 768 }
    );
}

#[test]
fn resume_clears_drag() {
    let (s, _) = shown().handle(ViewerEvent::MouseButton { left: true, pressed: true });
    let (s, a) = s.handle(ViewerEvent::Resumed);
    assert_eq!(a, ViewerAction::CreateScene);
    assert!(!s.dragging);
}

#[test]
fn other_events_change_nothing() {
    let (s, _) = shown().handle(ViewerEvent::MouseButton { left: true, pressed: true });
    assert_eq!(s.handle(ViewerEvent::Other), (s, ViewerAction::Nothing));
}

#[test]
fn drag_follows_the_latest_left_button_event() {
    let events = [
        ViewerEvent::MouseButton { left: true, pressed: true },
        ViewerEvent::MouseButton { left: false, pressed: false },
        ViewerEvent::RedrawRequested,
        ViewerEvent::MouseMotion,
        ViewerEvent::MouseButton { left: true, pressed: false },
        ViewerEvent::Resized { width: 10, height: 10 },
        ViewerEvent::MouseButton { left: true, pressed: true },
    ];
    let mut s = shown();
    assert!(!s.dragging);
    let expected = [true, true, true, true, false, false, true];
    for (event, want) in events.iter().zip(expected) {
        s = s.handle(*event).0;
        assert!(s.has_scene);
        assert_eq!(s.dragging, want);
    }
}
