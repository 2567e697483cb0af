use solid_modeling::viewer::{
    window_action, CameraAction, InputEvent, Key, Notice, Response, Scene, ViewerState, WindowAction,
};

fn key(k: Key) -> InputEvent {
    InputEvent::KeyPressed(k)
}

fn viewer_off() -> ViewerState {
    let mut s = ViewerState::new();
    s.handle_input(key(Key::Tab));
    s.needs_update = false;
    s
}

#[test]
fn starts_in_the_editor_on_scene_zero() {
    let s = ViewerState::new();
    assert_eq!(s.current_scene, 0);
    assert!(s.use_editor_mode);
    assert!(!s.is_dragging);
    assert!(!s.has_cursor);
    assert!(s.needs_update);
    assert_eq!(s.scene_shown(), Scene::EditorPreview);
}

#[test]
fn space_cycles_through_the_five_scenes() {
    let mut s = viewer_off();
    let mut seen = Vec::new();
    for _ in 0..5 {
        let r = s.handle_input(key(Key::Space));
        assert!(r.handled);
        seen.push(s.current_scene);
        assert_eq!(r.notice, Notice::Scene(s.current_scene));
    }
    assert_eq!(seen, vec![1, 2, 3, 4, 0]);
    assert!(s.needs_update);
}

#[test]
fn digits_pick_scenes_only_with_the_editor_off() {
    let mut s = viewer_off();
    let r = s.handle_input(key(Key::Digit4));
    assert_eq!(r, Response { handled: true, camera: CameraAction::Stay, notice: Notice::Silent });
    assert_eq!(s.current_scene, 3);
    assert_eq!(s.scene_shown(), Scene::Ring);

    let mut e = ViewerState::new();
    let r = e.handle_input(key(Key::Digit4));
    assert!(!r.handled);
    assert_eq!(e.current_scene, 0);
    let r = e.handle_input(key(Key::Space));
    assert!(r.handled);
    assert_eq!(e.current_scene, 0);
}

#[test]
fn tab_toggles_the_editor() {
    let mut s = ViewerState::new();
    let r = s.handle_input(key(Key::Tab));
    assert_eq!(r.notice, Notice::EditorMode(false));
    assert!(!s.use_editor_mode);
    assert_eq!(s.scene_shown(), Scene::Circle);
    let r = s.handle_input(key(Key::Tab));
    assert_eq!(r.notice, Notice::EditorMode(true));
    assert!(s.use_editor_mode);
}

#[test]
fn camera_keys() {
    let cases = [
        (Key::KeyR, CameraAction::Reset, Notice::ViewReset),
        (Key::ArrowLeft, CameraAction::PanLeft, Notice::Silent),
        (Key::ArrowRight, CameraAction::PanRight, Notice::Silent),
        (Key::ArrowUp, CameraAction::PanUp, Notice::Silent),
        (Key::ArrowDown, CameraAction::PanDown, Notice::Silent),
        (Key::Equal, CameraAction::ZoomIn, Notice::Zoom),
        (Key::NumpadAdd, CameraAction::ZoomIn, Notice::Zoom),
        (Key::Minus, CameraAction::ZoomOut, Notice::Zoom),
        (Key::NumpadSubtract, CameraAction::ZoomOut, Notice::Zoom),
    ];
    for (k, camera, notice) in cases {
        let mut s = viewer_off();
        let r = s.handle_input(key(k));
        assert_eq!(r, Response { handled: true, camera, notice });
        assert!(s.needs_update);
    }
    let mut s = viewer_off();
    let r = s.handle_input(key(Key::Escape));
    assert!(!r.handled);
    assert!(!s.needs_update);
}

#[test]
fn wheel_zooms() {
    let mut s = viewer_off();
    assert_eq!(s.handle_input(InputEvent::Wheel { up: true }).camera, CameraAction::ZoomIn);
    assert_eq!(s.handle_input(InputEvent::Wheel { up: false }).camera, CameraAction::ZoomOut);
    assert!(s.needs_update);
}

#[test]
fn dragging_pans_from_the_second_move() {
    let mut s = viewer_off();
    // moving without the button: not taken, the position is remembered
    let r = s.handle_input(InputEvent::CursorMoved);
    assert!(!r.handled);
    assert!(s.has_cursor);
    assert!(s.handle_input(InputEvent::LeftButton { pressed: true }).handled);
    let r = s.handle_input(InputEvent::CursorMoved);
    assert_eq!(r, Response { handled: true, camera: CameraAction::Drag, notice: Notice::Silent });
    assert!(s.needs_update);
    s.handle_input(InputEvent::LeftButton { pressed: false });
    assert!(!s.is_dragging);
    assert_eq!(s.handle_input(InputEvent::CursorMoved).camera, CameraAction::Stay);
}

#[test]
fn a_press_before_any_move_does_not_drag() {
    let mut s = viewer_off();
    s.handle_input(InputEvent::LeftButton { pressed: true });
    let r = s.handle_input(InputEvent::CursorMoved);
    assert_eq!(r, Response { handled: true, camera: CameraAction::Stay, notice: Notice::Silent });
    assert!(s.has_cursor);
    assert_eq!(s.handle_input(InputEvent::CursorMoved).camera, CameraAction::Drag);
}

#[test]
fn scenes_shown() {
    let mut s = viewer_off();
    let expected = [Scene::Circle, Scene::TwoCircles, Scene::SmoothTwoCircles, Scene::Ring, Scene::Face];
    for (i, scene) in expected.iter().enumerate() {
        s.current_scene = i;
        assert_eq!(s.scene_shown(), *scene);
    }
    s.current_scene = 7;
    assert_eq!(s.scene_shown(), Scene::Blank);
}

#[test]
fn window_actions() {
    assert_eq!(window_action(InputEvent::CloseRequested, false), WindowAction::Exit);
    assert_eq!(window_action(key(Key::Escape), false), WindowAction::Exit);
    assert_eq!(window_action(InputEvent::Resized, false), WindowAction::Resize);
    assert_eq!(window_action(InputEvent::RedrawRequested, false), WindowAction::Redraw);
    assert_eq!(window_action(key(Key::Space), false), WindowAction::Nothing);
    assert_eq!(window_action(InputEvent::CloseRequested, true), WindowAction::Nothing);
}
