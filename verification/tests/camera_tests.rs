use gloom::camera::{move_for, moves_for, CameraMove};
use gloom::keys::{Key, PressedKeys};

#[test]
fn each_movement_key_has_its_move() {
    assert_eq!(move_for(Key::D), Some(CameraMove::DecreaseX));
    assert_eq!(move_for(Key::A), Some(CameraMove::IncreaseX));
    assert_eq!(move_for(Key::W), Some(CameraMove::Forward));
    assert_eq!(move_for(Key::S), Some(CameraMove::Backward));
    assert_eq!(move_for(Key::Space), Some(CameraMove::DecreaseY));
    assert_eq!(move_for(Key::LShift), Some(CameraMove::IncreaseY));
    assert_eq!(move_for(Key::Right), Some(CameraMove::IncreaseYaw));
    assert_eq!(move_for(Key::Left), Some(CameraMove::DecreaseYaw));
    assert_eq!(move_for(Key::Up), Some(CameraMove::DecreasePitch));
    assert_eq!(move_for(Key::Down), Some(CameraMove::IncreasePitch));
}

#[test]
fn other_keys_move_nothing() {
    assert_eq!(move_for(Key::Escape), None);
    assert_eq!(move_for(Key::Q), None);
    assert_eq!(move_for(Key::Other(7)), None);
}

#[test]
fn moves_follow_press_order_and_skip_others() {
    let mut p = PressedKeys::new();
    p.press(Key::Right);
    p.press(Key::Other(99));
    p.press(Key::W);
    p.press(Key::Q);
    p.press(Key::Space);
    assert_eq!(
        moves_for(&p),
        vec![CameraMove::IncreaseYaw, CameraMove::Forward, CameraMove::DecreaseY]
    );
}

#[test]
fn no_keys_no_moves() {
    let p = PressedKeys::new();
    assert_eq!(moves_for(&p), Vec::<CameraMove>::new());
}
