use voxel_scene::{Key, MotionIntent};

#[test]
fn forward_keys_set_and_clear_forward() {
    let mut m = MotionIntent::new();
    assert!(m.process_keyboard(Key::KeyW, true));
    assert!(m.forward);
    assert_eq!(m.forward_amount(), 1);
    assert!(m.process_keyboard(Key::ArrowUp, false));
    assert!(!m.forward);
    assert_eq!(m.forward_amount(), 0);
}

#[test]
fn each_key_drives_its_axis() {
    let mut m = MotionIntent::new();
    assert!(m.process_keyboard(Key::KeyS, true));
    assert_eq!(m.forward_amount(), -1);
    assert!(m.process_keyboard(Key::ArrowDown, false));
    assert!(m.process_keyboard(Key::KeyA, true));
    assert_eq!(m.right_amount(), -1);
    assert!(m.process_keyboard(Key::ArrowRight, true));
    assert_eq!(m.right_amount(), 0);
    assert!(m.process_keyboard(Key::ArrowLeft, false));
    assert_eq!(m.right_amount(), 1);
    assert!(m.process_keyboard(Key::KeyD, false));
    assert!(m.process_keyboard(Key::KeyE, true));
    assert_eq!(m.up_amount(), 1);
    assert!(m.process_keyboard(Key::KeyQ, true));
    assert_eq!(m.up_amount(), 0);
    assert!(m.process_keyboard(Key::KeyE, false));
    assert_eq!(m.up_amount(), -1);
    assert!(m.down && !m.up && !m.left && !m.right && !m.forward && !m.backward);
}

#[test]
fn other_keys_are_not_handled() {
    let mut m = MotionIntent::new();
    m.process_keyboard(Key::KeyW, true);
    let before = m;
    assert!(!m.process_keyboard(Key::Other, true));
    assert_eq!(m, before);
}
