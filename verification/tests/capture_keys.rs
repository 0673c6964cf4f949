use lib::capture::{
    build_combo_from_state, capture_idle, capture_key_event, capture_timed_out,
    update_capture_state, CaptureIdle, CaptureState,
};
use lib::keys::{KEY_K, KEY_LEFTALT, KEY_LEFTCTRL, KEY_RIGHTSHIFT, KEY_SLASH};

#[test]
fn capture_tracks_keys() {
    let mut s = CaptureState::default();
    update_capture_state(&mut s, KEY_LEFTCTRL, 1);
    update_capture_state(&mut s, KEY_K, 1);
    assert!(s.ctrl);
    assert!(s.pressed_non_mods.contains(&KEY_K));
    update_capture_state(&mut s, KEY_K, 2);
    assert!(s.pressed_non_mods.contains(&KEY_K));
    update_capture_state(&mut s, KEY_K, 0);
    assert!(!s.pressed_non_mods.contains(&KEY_K));
    update_capture_state(&mut s, KEY_LEFTCTRL, 0);
    assert!(!s.ctrl);
}

#[test]
fn capture_builds_combos() {
    let mut s = CaptureState::default();
    s.ctrl = true;
    s.alt = true;
    assert_eq!(build_combo_from_state(&s, KEY_SLASH), "ctrl+alt+slash");
    s.shift = true;
    s.meta = true;
    assert_eq!(build_combo_from_state(&s, 183), "ctrl+alt+shift+meta+code:183");
}

#[test]
fn capture_records_last_press() {
    let mut s = CaptureState::default();
    assert_eq!(capture_key_event(&mut s, KEY_LEFTALT, 1), None);
    assert_eq!(capture_key_event(&mut s, KEY_RIGHTSHIFT, 1), None);
    assert_eq!(capture_key_event(&mut s, KEY_K, 1), Some("alt+shift+k".to_string()));
    assert_eq!(capture_key_event(&mut s, KEY_K, 0), None);
    assert_eq!(capture_key_event(&mut s, KEY_LEFTALT, 0), None);
    assert_eq!(s.last_combo, Some("alt+shift+k".to_string()));
    assert!(matches!(capture_idle(&s, Some(1999)), CaptureIdle::Wait));
    match capture_idle(&s, Some(2000)) {
        CaptureIdle::Save(c) => assert_eq!(c, "alt+shift+k"),
        _ => panic!("expected a saved combination"),
    }
    assert!(matches!(capture_idle(&s, None), CaptureIdle::Wait));
    assert_eq!(lib::combo::parse_combo("alt+shift+k").map(|c| c.key_code), Some(KEY_K));
}

#[test]
fn capture_without_key() {
    let mut s = CaptureState::default();
    capture_key_event(&mut s, KEY_LEFTCTRL, 1);
    assert!(matches!(capture_idle(&s, Some(5000)), CaptureIdle::NothingCaptured));
    assert!(!capture_timed_out(30000));
    assert!(capture_timed_out(30001));
}
