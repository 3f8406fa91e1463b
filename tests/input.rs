use ng_render::input::{InputState, Key};

#[test]
fn keys_steer_and_release() {
    let mut s = InputState::new();
    assert_eq!(s.movement(), (0, 0, 0));
    s.handle_key(Key::W, true);
    s.handle_key(Key::A, true);
    s.handle_key(Key::LControl, true);
    assert_eq!(s.movement(), (1, 1, -1));
    s.handle_key(Key::S, true);
    s.handle_key(Key::D, true);
    s.handle_key(Key::Space, true);
    assert_eq!(s.movement(), (0, 0, 0));
    s.handle_key(Key::W, false);
    assert_eq!(s.movement(), (-1, 0, 0));
    s.handle_key(Key::Other, true);
    assert!(!s.escape);
    s.handle_key(Key::Escape, true);
    assert!(s.escape);
}
