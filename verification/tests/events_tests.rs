use gloom::events::{
    apply_key_event, next_flow, Flow, KeyState, WindowEvent, WindowSize, INITIAL_SCREEN_H,
    INITIAL_SCREEN_W,
};
use gloom::keys::{Key, PressedKeys};

#[test]
fn close_request_exits() {
    assert_eq!(next_flow(true, &WindowEvent::CloseRequested), Flow::Exit);
}

#[test]
fn quit_keys_exit_on_press_and_release() {
    for state in [KeyState::Pressed, KeyState::Released] {
        assert_eq!(next_flow(true, &WindowEvent::Keyboard { state, key: Key::Escape }), Flow::Exit);
        assert_eq!(next_flow(true, &WindowEvent::Keyboard { state, key: Key::Q }), Flow::Exit);
    }
}

#[test]
fn ordinary_events_wait() {
    assert_eq!(next_flow(true, &WindowEvent::Keyboard { state: KeyState::Pressed, key: Key::W }), Flow::Wait);
    assert_eq!(next_flow(true, &WindowEvent::Resized { width: 10, height: 20 }), Flow::Wait);
    assert_eq!(next_flow(true, &WindowEvent::Other), Flow::Wait);
}

#[test]
fn unhealthy_render_thread_exits_on_any_event() {
    assert_eq!(next_flow(false, &WindowEvent::Other), Flow::Exit);
    assert_eq!(next_flow(false, &WindowEvent::Resized { width: 1, height: 1 }), Flow::Exit);
}

#[test]
fn key_events_update_held_keys() {
    let mut p = PressedKeys::new();
    apply_key_event(&mut p, KeyState::Pressed, Key::A);
    apply_key_event(&mut p, KeyState::Pressed, Key::D);
    apply_key_event(&mut p, KeyState::Released, Key::A);
    assert_eq!(p.len(), 1);
    assert_eq!(p.get(0), Key::D);
}

#[test]
fn initial_size_is_not_pending() {
    let mut s = WindowSize::initial();
    assert_eq!((s.width, s.height), (INITIAL_SCREEN_W, INITIAL_SCREEN_H));
    assert_eq!((INITIAL_SCREEN_W, INITIAL_SCREEN_H), (800, 600));
    assert_eq!(s.take_resize(), None);
}

#[test]
fn resize_is_seen_once() {
    let mut s = WindowSize::initial();
    s.record_resize(1024, 768);
    assert_eq!(s.take_resize(), Some((1024, 768)));
    assert_eq!(s.take_resize(), None);
    assert_eq!((s.width, s.height, s.changed), (1024, 768, false));
}

#[test]
fn latest_resize_wins() {
    let mut s = WindowSize::initial();
    s.record_resize(300, 200);
    s.record_resize(640, 480);
    assert_eq!(s.take_resize(), Some((640, 480)));
}
