use lib::settings::{
    combo_display, config_file_text, hotkey_slot, hotkey_text, parse_config, parse_hold_delay,
    set_custom_speed, set_hotkey, speed_preset, typed_combo, Config, HotkeySlot,
};

const DEFAULT_FILE: &str = "# MACHENIKE hotkey daemon config

rgb_hold_delay_ms=300
rgb_step_delay_ms=18
rgb_hue_step=5

key_color=ctrl+alt+slash
key_toggle=ctrl+alt+8
key_brightness_down=ctrl+alt+minus
key_brightness_up=ctrl+alt+equal
";

fn same(a: &Config, b: &Config) -> bool {
    a.rgb_hold_delay_ms == b.rgb_hold_delay_ms
        && a.rgb_step_delay_ms == b.rgb_step_delay_ms
        && a.rgb_hue_step == b.rgb_hue_step
        && a.key_color == b.key_color
        && a.key_toggle == b.key_toggle
        && a.key_brightness_down == b.key_brightness_down
        && a.key_brightness_up == b.key_brightness_up
}

#[test]
fn default_settings() {
    let c = Config::default();
    assert_eq!(c.rgb_hold_delay_ms, 300);
    assert_eq!(c.rgb_step_delay_ms, 18);
    assert_eq!(c.rgb_hue_step, 5);
    assert_eq!(c.key_color, "ctrl+alt+slash");
    assert_eq!(c.key_toggle, "ctrl+alt+8");
    assert_eq!(c.key_brightness_down, "ctrl+alt+minus");
    assert_eq!(c.key_brightness_up, "ctrl+alt+equal");
}

#[test]
fn reads_the_readme_file() {
    assert!(same(&parse_config(DEFAULT_FILE), &Config::default()));
}

#[test]
fn reads_settings_and_clamps() {
    let c = parse_config(
        "  rgb_hold_delay_ms = 9000 \r\n#key_color=alt+k\nrgb_step_delay_ms=2\nrgb_hue_step=500\nkey_color =  Alt+K \nnonsense\nunknown=1\nkey_toggle=a=b\n",
    );
    assert_eq!(c.rgb_hold_delay_ms, 5000);
    assert_eq!(c.rgb_step_delay_ms, 5);
    assert_eq!(c.rgb_hue_step, 120);
    assert_eq!(c.key_color, "Alt+K");
    assert_eq!(c.key_toggle, "a=b");
    assert_eq!(c.key_brightness_down, "ctrl+alt+minus");
}

#[test]
fn unreadable_numbers_are_ignored() {
    let c = parse_config("rgb_hold_delay_ms=-5\nrgb_step_delay_ms=abc\nrgb_hue_step=70000\n");
    assert!(same(&c, &Config::default()));
    let d = parse_config("rgb_hold_delay_ms=+40\nrgb_step_delay_ms=007\nrgb_hue_step=0\n");
    assert_eq!(d.rgb_hold_delay_ms, 40);
    assert_eq!(d.rgb_step_delay_ms, 7);
    assert_eq!(d.rgb_hue_step, 1);
}

#[test]
fn empty_file_gives_defaults() {
    assert!(same(&parse_config(""), &Config::default()));
}

#[test]
fn written_file_reads_back() {
    let mut c = Config::default();
    c.rgb_hold_delay_ms = 0;
    c.rgb_step_delay_ms = 1000;
    c.rgb_hue_step = 120;
    set_hotkey(&mut c, HotkeySlot::Color, "alt+space".to_string());
    set_hotkey(&mut c, HotkeySlot::Toggle, "".to_string());
    set_hotkey(&mut c, HotkeySlot::BrightnessUp, "meta+code:99".to_string());
    let text = config_file_text(&c);
    assert!(text.starts_with("# MACHENIKE hotkey daemon config\n\n# RGB scroll behavior.\nrgb_hold_delay_ms=0\n"));
    assert!(text.ends_with("key_brightness_up=meta+code:99\n"));
    assert!(same(&parse_config(&text), &c));
    let d = Config::default();
    assert!(same(&parse_config(&config_file_text(&d)), &d));
}

#[test]
fn people_see_combos() {
    assert_eq!(combo_display("ctrl+alt+slash"), "Ctrl+Alt+/");
    assert_eq!(combo_display("ctrl+alt+8"), "Ctrl+Alt+*");
    assert_eq!(combo_display("ctrl+alt+minus"), "Ctrl+Alt+-");
    assert_eq!(combo_display("ctrl+alt+equal"), "Ctrl+Alt++");
    assert_eq!(combo_display("meta+f"), "Meta+f");
    assert_eq!(combo_display("ctrl+shift+kpasterisk"), "Ctrl+Shift+KP*");
}

#[test]
fn typed_hotkeys() {
    assert_eq!(typed_combo("  Ctrl+Alt+K "), Some("ctrl+alt+k".to_string()));
    assert_eq!(typed_combo("   "), None);
    assert_eq!(typed_combo(""), None);
}

#[test]
fn menu_choices() {
    assert_eq!(hotkey_slot("1"), Some(HotkeySlot::Color));
    assert_eq!(hotkey_slot("4"), Some(HotkeySlot::BrightnessUp));
    assert_eq!(hotkey_slot("0"), None);
    assert_eq!(speed_preset("1"), Some((35, 3)));
    assert_eq!(speed_preset("2"), Some((25, 4)));
    assert_eq!(speed_preset("3"), Some((18, 5)));
    assert_eq!(speed_preset("4"), Some((12, 7)));
    assert_eq!(speed_preset("5"), None);
    let c = Config::default();
    assert_eq!(hotkey_text(&c, HotkeySlot::Toggle), "ctrl+alt+8");
}

#[test]
fn custom_speed_and_hold_delay() {
    let mut c = Config::default();
    set_custom_speed(&mut c, "3", "999");
    assert_eq!(c.rgb_step_delay_ms, 5);
    assert_eq!(c.rgb_hue_step, 120);
    set_custom_speed(&mut c, "x", "");
    assert_eq!(c.rgb_step_delay_ms, 5);
    assert_eq!(c.rgb_hue_step, 120);
    assert_eq!(parse_hold_delay("250"), Some(250));
    assert_eq!(parse_hold_delay("60000"), Some(5000));
    assert_eq!(parse_hold_delay(" 250"), None);
    assert_eq!(parse_hold_delay("soon"), None);
}
