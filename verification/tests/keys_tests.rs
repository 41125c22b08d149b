use gloom::keys::{Key, PressedKeys};

fn held(p: &PressedKeys) -> Vec<Key> {
    let mut out = Vec::new();
    for i in 0..p.len() {
        out.push(p.get(i));
    }
    out
}

#[test]
fn new_list_is_empty() {
    let p = PressedKeys::new();
    assert_eq!(p.len(), 0);
    assert!(!p.contains(Key::A));
}

#[test]
fn press_appends_in_order() {
    let mut p = PressedKeys::new();
    p.press(Key::W);
    p.press(Key::Left);
    p.press(Key::Other(42));
    assert_eq!(held(&p), vec![Key::W, Key::Left, Key::Other(42)]);
    assert_eq!(p.position(Key::Left), Some(1));
}

#[test]
fn press_twice_holds_once() {
    let mut p = PressedKeys::new();
    p.press(Key::A);
    p.press(Key::D);
    p.press(Key::A);
    assert_eq!(held(&p), vec![Key::A, Key::D]);
}

#[test]
fn release_removes_only_that_key() {
    let mut p = PressedKeys::new();
    p.press(Key::A);
    p.press(Key::S);
    p.press(Key::Space);
    p.release(Key::S);
    assert_eq!(held(&p), vec![Key::A, Key::Space]);
    assert!(!p.contains(Key::S));
    assert!(p.contains(Key::A));
    assert!(p.contains(Key::Space));
}

#[test]
fn release_of_unheld_key_changes_nothing() {
    let mut p = PressedKeys::new();
    p.press(Key::Up);
    p.release(Key::Down);
    assert_eq!(held(&p), vec![Key::Up]);
    assert_eq!(p.position(Key::Down), None);
}

#[test]
fn press_then_release_restores() {
    let mut p = PressedKeys::new();
    p.press(Key::LShift);
    p.press(Key::Right);
    let before = held(&p);
    p.press(Key::Q);
    p.release(Key::Q);
    assert_eq!(held(&p), before);
}

#[test]
fn release_twice_same_as_once() {
    let mut p = PressedKeys::new();
    p.press(Key::A);
    p.press(Key::W);
    p.release(Key::A);
    let once = held(&p);
    p.release(Key::A);
    assert_eq!(held(&p), once);
}

#[test]
fn other_codes_are_distinct_keys() {
    let mut p = PressedKeys::new();
    p.press(Key::Other(1));
    p.press(Key::Other(2));
    p.release(Key::Other(1));
    assert_eq!(held(&p), vec![Key::Other(2)]);
}
