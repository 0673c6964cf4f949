use lib::combo::KeyCombo;
use lib::daemon::{
    begin_color_cycle, color_cycle_step, combo_matches, handle_color_key, handle_key,
    hsv_to_rgb, parse_daemon_config, request_args, saved_rgb, update_modifiers, Config, KeyAction,
    Keys, Request,
};
use lib::keys::{
    KEY_8, KEY_EQUAL, KEY_K, KEY_KPASTERISK, KEY_KPPLUS, KEY_LEFTALT, KEY_LEFTCTRL, KEY_MINUS,
    KEY_RIGHTCTRL, KEY_SLASH,
};
use lib::settings::config_file_text;

fn ctrl_alt() -> Keys {
    let mut k = Keys::default();
    k.ctrl = true;
    k.alt = true;
    k
}

#[test]
fn default_daemon_config() {
    let c = Config::default();
    assert_eq!(c.rgb_hold_delay_ms, 300);
    assert_eq!(c.rgb_step_delay_ms, 18);
    assert_eq!(c.rgb_hue_step, 5);
    assert_eq!(c.key_color, lib::combo::parse_combo("ctrl+alt+slash").unwrap());
    assert_eq!(c.key_toggle, lib::combo::parse_combo("ctrl+alt+8").unwrap());
    assert_eq!(c.key_brightness_down, lib::combo::parse_combo("ctrl+alt+minus").unwrap());
    assert_eq!(c.key_brightness_up, lib::combo::parse_combo("ctrl+alt+equal").unwrap());
}

#[test]
fn daemon_reads_menu_file() {
    let mut s = lib::settings::Config::default();
    s.key_color = "alt+k".to_string();
    s.key_toggle = "nonsense".to_string();
    s.rgb_hue_step = 9;
    let c = parse_daemon_config(&config_file_text(&s));
    assert_eq!(c.key_color, KeyCombo { ctrl: false, alt: true, shift: false, meta: false, key_code: KEY_K });
    assert_eq!(c.key_toggle, Config::default().key_toggle);
    assert_eq!(c.rgb_hue_step, 9);
    assert_eq!(c.rgb_hold_delay_ms, 300);
}

#[test]
fn daemon_config_keeps_last_readable_hotkey() {
    let c = parse_daemon_config("key_color=alt+k\nkey_color=bogus\nrgb_step_delay_ms=1\n");
    assert_eq!(c.key_color.key_code, KEY_K);
    assert_eq!(c.rgb_step_delay_ms, 5);
}

#[test]
fn modifiers_follow_events() {
    let mut k = Keys::default();
    assert!(update_modifiers(&mut k, KEY_RIGHTCTRL, 1));
    assert!(k.ctrl);
    assert!(update_modifiers(&mut k, KEY_LEFTCTRL, 0));
    assert!(!k.ctrl);
    assert!(update_modifiers(&mut k, KEY_LEFTALT, 2));
    assert!(k.alt);
    assert!(!update_modifiers(&mut k, KEY_K, 1));
}

#[test]
fn combos_need_their_modifiers() {
    let c = Config::default();
    assert!(combo_matches(&ctrl_alt(), KEY_SLASH, &c.key_color));
    assert!(combo_matches(&ctrl_alt(), KEY_KPASTERISK, &c.key_toggle));
    assert!(combo_matches(&ctrl_alt(), KEY_KPPLUS, &c.key_brightness_up));
    let mut only_ctrl = Keys::default();
    only_ctrl.ctrl = true;
    assert!(!combo_matches(&only_ctrl, KEY_SLASH, &c.key_color));
    let mut more = ctrl_alt();
    more.shift = true;
    assert!(combo_matches(&more, KEY_8, &c.key_toggle));
}

#[test]
fn hotkey_actions() {
    let c = Config::default();
    let mut k = ctrl_alt();
    assert_eq!(handle_key(&mut k, &c, KEY_8, 1), KeyAction::Run(Request::Toggle));
    assert_eq!(handle_key(&mut k, &c, KEY_8, 2), KeyAction::Nothing);
    assert_eq!(handle_key(&mut k, &c, KEY_MINUS, 1), KeyAction::Run(Request::BrightnessDown));
    assert_eq!(handle_key(&mut k, &c, KEY_MINUS, 2), KeyAction::Run(Request::BrightnessDown));
    assert_eq!(handle_key(&mut k, &c, KEY_EQUAL, 2), KeyAction::Run(Request::BrightnessUp));
    assert_eq!(handle_key(&mut k, &c, KEY_EQUAL, 0), KeyAction::Nothing);
    assert_eq!(handle_key(&mut k, &c, KEY_EQUAL, 7), KeyAction::Nothing);
    assert_eq!(handle_key(&mut k, &c, KEY_K, 1), KeyAction::Nothing);
    assert_eq!(handle_key(&mut k, &c, KEY_KPASTERISK, 1), KeyAction::Run(Request::Toggle));
    assert_eq!(handle_key(&mut k, &c, KEY_KPPLUS, 1), KeyAction::Run(Request::BrightnessUp));
    let mut plain = Keys::default();
    assert_eq!(handle_key(&mut plain, &c, KEY_8, 1), KeyAction::Nothing);
}

#[test]
fn short_press_gives_next_color() {
    let c = Config::default();
    let mut k = ctrl_alt();
    assert_eq!(handle_key(&mut k, &c, KEY_SLASH, 1), KeyAction::StartColorCycle);
    assert!(k.color_key_down);
    assert_eq!(handle_key(&mut k, &c, KEY_SLASH, 2), KeyAction::Nothing);
    assert_eq!(handle_key(&mut k, &c, KEY_SLASH, 1), KeyAction::Nothing);
    assert_eq!(handle_key(&mut k, &c, KEY_SLASH, 0), KeyAction::Run(Request::Next));
    assert!(!k.color_key_down);
}

#[test]
fn long_press_scrolls_colors() {
    let mut k = Keys::default();
    assert_eq!(handle_color_key(&mut k, 1), KeyAction::StartColorCycle);
    assert!(begin_color_cycle(&mut k));
    assert!(k.color_cycle_running);
    assert_eq!(color_cycle_step(&mut k, 355, 10), Some(((255, 0, 22), 5)));
    assert_eq!(handle_color_key(&mut k, 0), KeyAction::Nothing);
    assert_eq!(color_cycle_step(&mut k, 5, 10), None);
    assert!(!k.color_cycle_running);
    let mut idle = Keys::default();
    assert!(!begin_color_cycle(&mut idle));
    assert!(!idle.color_cycle_running);
}

#[test]
fn modifier_release_stops_scroll() {
    let c = Config::default();
    let mut k = ctrl_alt();
    k.color_key_down = true;
    k.color_cycle_running = true;
    assert_eq!(handle_key(&mut k, &c, KEY_LEFTALT, 0), KeyAction::Nothing);
    assert!(!k.alt && !k.color_key_down && !k.color_cycle_running);
    assert!(k.ctrl);
}

#[test]
fn scroll_colors() {
    assert_eq!(hsv_to_rgb(0), (255, 0, 0));
    assert_eq!(hsv_to_rgb(30), (255, 127, 0));
    assert_eq!(hsv_to_rgb(60), (255, 255, 0));
    assert_eq!(hsv_to_rgb(90), (128, 255, 0));
    assert_eq!(hsv_to_rgb(120), (0, 255, 0));
    assert_eq!(hsv_to_rgb(180), (0, 255, 255));
    assert_eq!(hsv_to_rgb(240), (0, 0, 255));
    assert_eq!(hsv_to_rgb(300), (255, 0, 255));
    assert_eq!(hsv_to_rgb(359), (255, 0, 5));
    assert_eq!(hsv_to_rgb(360), (255, 0, 0));
    assert_eq!(hsv_to_rgb(725), hsv_to_rgb(5));
    for h in 0..=u16::MAX {
        let (r, g, b) = hsv_to_rgb(h);
        assert!(r == 255 || g == 255 || b == 255);
        assert!(r == 0 || g == 0 || b == 0);
    }
}

#[test]
fn requests_to_backlight_tool() {
    assert_eq!(request_args(Request::Next), vec!["next".to_string()]);
    assert_eq!(request_args(Request::Toggle), vec!["toggle".to_string()]);
    assert_eq!(request_args(Request::BrightnessDown), vec!["brightness-down".to_string()]);
    assert_eq!(request_args(Request::BrightnessUp), vec!["brightness-up".to_string()]);
    assert_eq!(
        request_args(Request::Rgb(255, 7, 0)),
        vec!["rgb".to_string(), "255".to_string(), "7".to_string(), "0".to_string()]
    );
}

#[test]
fn saved_color_of_state_file() {
    assert_eq!(saved_rgb("255 120 0 100 100 1 7\n"), Some((255, 120, 0)));
    assert_eq!(saved_rgb("  1\t2 3"), Some((1, 2, 3)));
    assert_eq!(saved_rgb("1 2"), None);
    assert_eq!(saved_rgb("1 2 300 4"), None);
    assert_eq!(saved_rgb(""), None);
}
