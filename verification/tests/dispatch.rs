use first_person::camera::{EventResponse, FirstPerson, MoveDir, WindowEvent};
use first_person::input::{InputState, Key, MouseButton};

#[test]
fn move_dir_single_keys() {
    let cam = FirstPerson::new();
    assert_eq!(cam.move_dir(false, false, false, false), MoveDir { front: 0, right: 0 });
    assert_eq!(cam.move_dir(true, false, false, false), MoveDir { front: 1, right: 0 });
    assert_eq!(cam.move_dir(false, true, false, false), MoveDir { front: -1, right: 0 });
    assert_eq!(cam.move_dir(false, false, false, true), MoveDir { front: 0, right: 1 });
    assert_eq!(cam.move_dir(false, false, true, false), MoveDir { front: 0, right: -1 });
}

#[test]
fn move_dir_opposing_keys_cancel() {
    let cam = FirstPerson::new();
    assert_eq!(cam.move_dir(true, true, false, false), MoveDir { front: 0, right: 0 });
    assert_eq!(cam.move_dir(false, false, true, true), MoveDir { front: 0, right: 0 });
    assert_eq!(cam.move_dir(true, true, true, true), MoveDir { front: 0, right: 0 });
}

#[test]
fn move_dir_diagonal() {
    let cam = FirstPerson::new();
    assert_eq!(cam.move_dir(true, false, false, true), MoveDir { front: 1, right: 1 });
    assert_eq!(cam.move_dir(false, true, true, false), MoveDir { front: -1, right: -1 });
}

#[test]
fn update_only_up_key_bound_moves_forward() {
    let mut cam = FirstPerson::new();
    cam.rebind_down_key(None);
    cam.rebind_left_key(None);
    cam.rebind_right_key(None);
    let mut canvas = InputState::new();
    canvas.press_key(Key::Up);
    assert_eq!(cam.update(&canvas), MoveDir { front: 1, right: 0 });
}

#[test]
fn update_no_keys_pressed_is_inert() {
    let cam = FirstPerson::new();
    let canvas = InputState::new();
    assert_eq!(cam.update(&canvas), MoveDir { front: 0, right: 0 });
}

#[test]
fn update_after_unbind_ignores_any_pressed_key() {
    let mut cam = FirstPerson::new();
    cam.unbind_movement_keys();
    let mut canvas = InputState::new();
    canvas.press_key(Key::Up);
    canvas.press_key(Key::Down);
    canvas.press_key(Key::Left);
    canvas.press_key(Key::Right);
    canvas.press_key(Key::Space);
    assert_eq!(cam.update(&canvas), MoveDir { front: 0, right: 0 });
}

#[test]
fn update_follows_rebound_keys() {
    let mut cam = FirstPerson::new();
    cam.rebind_up_key(Some(Key::W));
    let mut canvas = InputState::new();
    canvas.press_key(Key::Up);
    assert_eq!(cam.update(&canvas), MoveDir { front: 0, right: 0 });
    canvas.press_key(Key::W);
    assert_eq!(cam.update(&canvas), MoveDir { front: 1, right: 0 });
}

#[test]
fn cursor_event_with_rotate_button_held_is_look() {
    let cam = FirstPerson::new();
    let mut canvas = InputState::new();
    canvas.press_mouse_button(MouseButton::Button1);
    let r = cam.handle_event(&canvas, &WindowEvent::CursorPos);
    assert_eq!(r, EventResponse::Cursor { look: true, pan: false });
}

#[test]
fn cursor_event_with_drag_button_held_is_pan() {
    let cam = FirstPerson::new();
    let mut canvas = InputState::new();
    canvas.press_mouse_button(MouseButton::Button2);
    let r = cam.handle_event(&canvas, &WindowEvent::CursorPos);
    assert_eq!(r, EventResponse::Cursor { look: false, pan: true });
}

#[test]
fn cursor_event_with_both_buttons_held() {
    let cam = FirstPerson::new();
    let mut canvas = InputState::new();
    canvas.press_mouse_button(MouseButton::Button1);
    canvas.press_mouse_button(MouseButton::Button2);
    let r = cam.handle_event(&canvas, &WindowEvent::CursorPos);
    assert_eq!(r, EventResponse::Cursor { look: true, pan: true });
}

#[test]
fn cursor_event_with_no_button_held_does_nothing() {
    let cam = FirstPerson::new();
    let canvas = InputState::new();
    let r = cam.handle_event(&canvas, &WindowEvent::CursorPos);
    assert_eq!(r, EventResponse::Cursor { look: false, pan: false });
}

#[test]
fn cursor_event_with_rotation_disabled_ignores_held_button() {
    let mut cam = FirstPerson::new();
    cam.rebind_rotate_button(None);
    let mut canvas = InputState::new();
    canvas.press_mouse_button(MouseButton::Button1);
    let r = cam.handle_event(&canvas, &WindowEvent::CursorPos);
    assert_eq!(r, EventResponse::Cursor { look: false, pan: false });
}

#[test]
fn cursor_event_with_dragging_disabled_ignores_held_button() {
    let mut cam = FirstPerson::new();
    cam.rebind_drag_button(None);
    let mut canvas = InputState::new();
    canvas.press_mouse_button(MouseButton::Button1);
    canvas.press_mouse_button(MouseButton::Button2);
    let r = cam.handle_event(&canvas, &WindowEvent::CursorPos);
    assert_eq!(r, EventResponse::Cursor { look: true, pan: false });
}

#[test]
fn scroll_event_is_zoom() {
    let cam = FirstPerson::new();
    let canvas = InputState::new();
    let r = cam.handle_event(&canvas, &WindowEvent::Scroll);
    assert_eq!(r, EventResponse::Zoom);
}

#[test]
fn resize_event_carries_dimensions() {
    let cam = FirstPerson::new();
    let canvas = InputState::new();
    let r = cam.handle_event(&canvas, &WindowEvent::FramebufferSize(800, 600));
    assert_eq!(r, EventResponse::Resize(800, 600));
}

#[test]
fn other_events_are_ignored() {
    let cam = FirstPerson::new();
    let mut canvas = InputState::new();
    canvas.press_mouse_button(MouseButton::Button1);
    canvas.press_key(Key::Up);
    let r = cam.handle_event(&canvas, &WindowEvent::Other);
    assert_eq!(r, EventResponse::Ignore);
}
