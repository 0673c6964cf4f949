//! The hotkey daemon's decisions: which held keys match which hotkey, what a
//! key event asks the backlight tool to do, and the colors of the RGB scroll.

use vstd::prelude::*;
use crate::combo::{
    combo_chars, combo_of_text, combo_text, display_chars, display_text, parse_combo_chars, KeyCombo,
};
use crate::conf::{
    clamp_u64, clamped, lemma_comment_line, lemma_setting_key_chars, lemma_setting_keys,
    setting_line, setting_of_line,
};
use crate::settings::{
    all_comments, config_text, head_lines, hotkey_lines, lemma_config_split, lemma_decimal_storable,
    lemma_fixed_lines, lemma_stored_line, middle_lines, number_lines, setting_text, storable,
    storable_text, ConfigView,
};
use crate::decimal::{decimal, decimal_chars, parse_unsigned, parse_unsigned_chars};
use crate::keys::{
    is_modifier_code, key_code_matches, key_codes_match, KEY_8, KEY_EQUAL, KEY_LEFTALT,
    KEY_LEFTCTRL, KEY_LEFTMETA, KEY_LEFTSHIFT, KEY_MINUS, KEY_RIGHTALT, KEY_RIGHTCTRL,
    KEY_RIGHTMETA, KEY_RIGHTSHIFT, KEY_SLASH,
};
use crate::text::{chars_of, is_str, split_char, split_chars, string_of, words, words_of};

verus! {

/// What the daemon knows of the keyboard: the modifiers held, whether the
/// color hotkey is held, and whether the RGB scroll is running.
#[derive(Debug, Clone, Copy, PartialEq, Eq, Structural)]
pub struct Keys {
    pub ctrl: bool,
    pub alt: bool,
    pub shift: bool,
    pub meta: bool,
    pub color_key_down: bool,
    pub color_cycle_running: bool,
}

/// Nothing held, nothing running.
pub open spec fn released_keys() -> Keys {
    Keys {
        ctrl: false,
        alt: false,
        shift: false,
        meta: false,
        color_key_down: false,
        color_cycle_running: false,
    }
}

impl Default for Keys {
    fn default() -> (r: Self)
        ensures
            r == released_keys(),
    {
        Keys {
            ctrl: false,
            alt: false,
            shift: false,
            meta: false,
            color_key_down: false,
            color_cycle_running: false,
        }
    }
}

/// The keys after a key event: a modifier key (left or right) is held while
/// its value is not 0 (released); other keys change nothing here.
pub open spec fn modifiers_after(k: Keys, code: u16, value: i32) -> Keys {
    let held = value != 0;
    if code == KEY_LEFTCTRL || code == KEY_RIGHTCTRL {
        Keys { ctrl: held, ..k }
    } else if code == KEY_LEFTALT || code == KEY_RIGHTALT {
        Keys { alt: held, ..k }
    } else if code == KEY_LEFTSHIFT || code == KEY_RIGHTSHIFT {
        Keys { shift: held, ..k }
    } else if code == KEY_LEFTMETA || code == KEY_RIGHTMETA {
        Keys { meta: held, ..k }
    } else {
        k
    }
}

/// Records a key event in the modifier state; tells whether the key was a
/// modifier.
pub fn update_modifiers(keys: &mut Keys, code: u16, value: i32) -> (r: bool)
    ensures
        r == is_modifier_code(code),
        *final(keys) == modifiers_after(*old(keys), code, value),
{
    match code {
        KEY_LEFTCTRL | KEY_RIGHTCTRL => {
            keys.ctrl = value != 0;
            true
        },
        KEY_LEFTALT | KEY_RIGHTALT => {
            keys.alt = value != 0;
            true
        },
        KEY_LEFTSHIFT | KEY_RIGHTSHIFT => {
            keys.shift = value != 0;
            true
        },
        KEY_LEFTMETA | KEY_RIGHTMETA => {
            keys.meta = value != 0;
            true
        },
        _ => false,
    }
}

/// Whether the key `code`, with the modifiers of `k` held, triggers `combo`:
/// the key matches (aliases included) and every modifier the combination
/// asks for is held; further held modifiers do not matter.
pub open spec fn combo_held(k: Keys, code: u16, combo: KeyCombo) -> bool {
    &&& key_codes_match(code, combo.key_code)
    &&& (!combo.ctrl || k.ctrl)
    &&& (!combo.alt || k.alt)
    &&& (!combo.shift || k.shift)
    &&& (!combo.meta || k.meta)
}

/// Whether the key `code` with the held modifiers of `keys` triggers `combo`.
pub fn combo_matches(keys: &Keys, code: u16, combo: &KeyCombo) -> (r: bool)
    ensures
        r == combo_held(*keys, code, *combo),
{
    key_code_matches(code, combo.key_code) && (!combo.ctrl || keys.ctrl) && (!combo.alt
        || keys.alt) && (!combo.shift || keys.shift) && (!combo.meta || keys.meta)
}

/// A request to the backlight tool.
#[derive(Debug, Clone, Copy, PartialEq, Eq, Structural)]
pub enum Request {
    Next,
    Toggle,
    BrightnessDown,
    BrightnessUp,
    Rgb(u8, u8, u8),
}

/// What the daemon does after a key event.
#[derive(Debug, Clone, Copy, PartialEq, Eq, Structural)]
pub enum KeyAction {
    Nothing,
    StartColorCycle,
    Run(Request),
}

/// The color hotkey: a press (1) while it is not yet held marks it held and
/// starts waiting for the RGB scroll; a release (0) after a press that did
/// not start the scroll asks for the next color; repeats and other values
/// do nothing.
pub open spec fn color_key_step(k: Keys, value: i32) -> (Keys, KeyAction) {
    if value == 1 {
        if k.color_key_down {
            (k, KeyAction::Nothing)
        } else {
            (Keys { color_key_down: true, color_cycle_running: false, ..k }, KeyAction::StartColorCycle)
        }
    } else if value == 0 {
        let short_press = k.color_key_down && !k.color_cycle_running;
        (
            Keys { color_key_down: false, ..k },
            if short_press {
                KeyAction::Run(Request::Next)
            } else {
                KeyAction::Nothing
            },
        )
    } else {
        (k, KeyAction::Nothing)
    }
}

/// Handles an event of the color hotkey.
pub fn handle_color_key(keys: &mut Keys, value: i32) -> (r: KeyAction)
    ensures
        (*final(keys), r) == color_key_step(*old(keys), value),
{
    if value == 1 {
        if keys.color_key_down {
            KeyAction::Nothing
        } else {
            keys.color_key_down = true;
            keys.color_cycle_running = false;
            KeyAction::StartColorCycle
        }
    } else if value == 0 {
        let short_press = keys.color_key_down && !keys.color_cycle_running;
        keys.color_key_down = false;
        if short_press {
            KeyAction::Run(Request::Next)
        } else {
            KeyAction::Nothing
        }
    } else {
        KeyAction::Nothing
    }
}

/// The hotkeys and RGB scroll timing that the daemon works with.
#[derive(Debug, Clone, Copy, PartialEq, Eq, Structural)]
pub struct Config {
    pub rgb_hold_delay_ms: u64,
    pub rgb_step_delay_ms: u64,
    pub rgb_hue_step: u16,
    pub key_color: KeyCombo,
    pub key_toggle: KeyCombo,
    pub key_brightness_down: KeyCombo,
    pub key_brightness_up: KeyCombo,
}

/// What one key event does: a modifier event updates the modifiers (and its
/// release stops the color hotkey and the RGB scroll); otherwise only press
/// (1), release (0) and repeat (2) count. The color hotkey is handled by
/// `color_key_step`; the toggle hotkey acts on a press; the brightness
/// hotkeys act on a press or a repeat; the first of these that matches wins.
pub open spec fn key_step(k: Keys, config: Config, code: u16, value: i32) -> (Keys, KeyAction) {
    if is_modifier_code(code) {
        let k1 = modifiers_after(k, code, value);
        if value == 0 {
            (Keys { color_key_down: false, color_cycle_running: false, ..k1 }, KeyAction::Nothing)
        } else {
            (k1, KeyAction::Nothing)
        }
    } else if !(value == 0 || value == 1 || value == 2) {
        (k, KeyAction::Nothing)
    } else if combo_held(k, code, config.key_color) {
        color_key_step(k, value)
    } else if combo_held(k, code, config.key_toggle) && value == 1 {
        (k, KeyAction::Run(Request::Toggle))
    } else if combo_held(k, code, config.key_brightness_down) && (value == 1 || value == 2) {
        (k, KeyAction::Run(Request::BrightnessDown))
    } else if combo_held(k, code, config.key_brightness_up) && (value == 1 || value == 2) {
        (k, KeyAction::Run(Request::BrightnessUp))
    } else {
        (k, KeyAction::Nothing)
    }
}

/// Handles one key event of type `EV_KEY`.
pub fn handle_key(keys: &mut Keys, config: &Config, code: u16, value: i32) -> (r: KeyAction)
    ensures
        (*final(keys), r) == key_step(*old(keys), *config, code, value),
{
    if update_modifiers(keys, code, value) {
        if value == 0 {
            keys.color_key_down = false;
            keys.color_cycle_running = false;
        }
        return KeyAction::Nothing;
    }
    if value != 0 && value != 1 && value != 2 {
        return KeyAction::Nothing;
    }
    let color_match = combo_matches(keys, code, &config.key_color);
    let toggle_match = combo_matches(keys, code, &config.key_toggle);
    let down_match = combo_matches(keys, code, &config.key_brightness_down);
    let up_match = combo_matches(keys, code, &config.key_brightness_up);
    if color_match {
        return handle_color_key(keys, value);
    }
    if toggle_match && value == 1 {
        return KeyAction::Run(Request::Toggle);
    }
    if down_match && (value == 1 || value == 2) {
        return KeyAction::Run(Request::BrightnessDown);
    }
    if up_match && (value == 1 || value == 2) {
        return KeyAction::Run(Request::BrightnessUp);
    }
    KeyAction::Nothing
}

/// A short press of the color hotkey (press, then release before the RGB
/// scroll starts) asks for the next palette color.
pub proof fn lemma_short_press_next_color(k: Keys)
    requires
        !k.color_key_down,
    ensures
        color_key_step(k, 1).1 == KeyAction::StartColorCycle,
        color_key_step(color_key_step(k, 1).0, 0).1 == KeyAction::Run(Request::Next),
{
}

/// A short press of the configured color hotkey, with its modifiers held,
/// starts waiting for the RGB scroll, and its release asks for the next
/// color.
pub proof fn lemma_hotkey_short_press(k: Keys, config: Config, code: u16)
    requires
        !is_modifier_code(code),
        combo_held(k, code, config.key_color),
        !k.color_key_down,
    ensures
        key_step(k, config, code, 1).1 == KeyAction::StartColorCycle,
        key_step(key_step(k, config, code, 1).0, config, code, 0).1 == KeyAction::Run(Request::Next),
{
}

/// Each modifier key, left (codes 29, 56, 42, 125) or right (97, 100, 54,
/// 126), makes its modifier held exactly while its value is not 0, and
/// changes nothing else; a modifier event triggers nothing, and its release
/// also ends the color hotkey and the RGB scroll.
pub proof fn lemma_modifier_keys(k: Keys, config: Config, v: i32)
    ensures
        modifiers_after(k, 29, v).ctrl == (v != 0),
        modifiers_after(k, 29, v).alt == k.alt,
        modifiers_after(k, 29, v).shift == k.shift,
        modifiers_after(k, 29, v).meta == k.meta,
        modifiers_after(k, 29, v).color_key_down == k.color_key_down,
        key_step(k, config, 29, v).1 == KeyAction::Nothing,
        key_step(k, config, 29, v).0.ctrl == (v != 0),
        modifiers_after(k, 97, v).ctrl == (v != 0),
        modifiers_after(k, 97, v).alt == k.alt,
        modifiers_after(k, 97, v).shift == k.shift,
        modifiers_after(k, 97, v).meta == k.meta,
        modifiers_after(k, 97, v).color_key_down == k.color_key_down,
        key_step(k, config, 97, v).1 == KeyAction::Nothing,
        key_step(k, config, 97, v).0.ctrl == (v != 0),
        modifiers_after(k, 56, v).alt == (v != 0),
        modifiers_after(k, 56, v).ctrl == k.ctrl,
        modifiers_after(k, 56, v).shift == k.shift,
        modifiers_after(k, 56, v).meta == k.meta,
        modifiers_after(k, 56, v).color_key_down == k.color_key_down,
        key_step(k, config, 56, v).1 == KeyAction::Nothing,
        key_step(k, config, 56, v).0.alt == (v != 0),
        modifiers_after(k, 100, v).alt == (v != 0),
        modifiers_after(k, 100, v).ctrl == k.ctrl,
        modifiers_after(k, 100, v).shift == k.shift,
        modifiers_after(k, 100, v).meta == k.meta,
        modifiers_after(k, 100, v).color_key_down == k.color_key_down,
        key_step(k, config, 100, v).1 == KeyAction::Nothing,
        key_step(k, config, 100, v).0.alt == (v != 0),
        modifiers_after(k, 42, v).shift == (v != 0),
        modifiers_after(k, 42, v).ctrl == k.ctrl,
        modifiers_after(k, 42, v).alt == k.alt,
        modifiers_after(k, 42, v).meta == k.meta,
        modifiers_after(k, 42, v).color_key_down == k.color_key_down,
        key_step(k, config, 42, v).1 == KeyAction::Nothing,
        key_step(k, config, 42, v).0.shift == (v != 0),
        modifiers_after(k, 54, v).shift == (v != 0),
        modifiers_after(k, 54, v).ctrl == k.ctrl,
        modifiers_after(k, 54, v).alt == k.alt,
        modifiers_after(k, 54, v).meta == k.meta,
        modifiers_after(k, 54, v).color_key_down == k.color_key_down,
        key_step(k, config, 54, v).1 == KeyAction::Nothing,
        key_step(k, config, 54, v).0.shift == (v != 0),
        modifiers_after(k, 125, v).meta == (v != 0),
        modifiers_after(k, 125, v).ctrl == k.ctrl,
        modifiers_after(k, 125, v).alt == k.alt,
        modifiers_after(k, 125, v).shift == k.shift,
        modifiers_after(k, 125, v).color_key_down == k.color_key_down,
        key_step(k, config, 125, v).1 == KeyAction::Nothing,
        key_step(k, config, 125, v).0.meta == (v != 0),
        modifiers_after(k, 126, v).meta == (v != 0),
        modifiers_after(k, 126, v).ctrl == k.ctrl,
        modifiers_after(k, 126, v).alt == k.alt,
        modifiers_after(k, 126, v).shift == k.shift,
        modifiers_after(k, 126, v).color_key_down == k.color_key_down,
        key_step(k, config, 126, v).1 == KeyAction::Nothing,
        key_step(k, config, 126, v).0.meta == (v != 0),
{
}

/// For a key that is no modifier, nothing else changes the modifiers.
pub proof fn lemma_other_keys_keep_modifiers(k: Keys, code: u16, v: i32)
    requires
        !is_modifier_code(code),
    ensures
        modifiers_after(k, code, v) == k,
{
}

/// A release (0) of a key that is no modifier and does not trigger the color
/// hotkey does nothing and changes nothing; the same holds of any value
/// other than press (1), release (0) and repeat (2).
pub proof fn lemma_release_does_nothing(k: Keys, config: Config, code: u16, v: i32)
    requires
        !is_modifier_code(code),
        !combo_held(k, code, config.key_color) || !(v == 0 || v == 1 || v == 2),
        v == 0 || !(v == 1 || v == 2),
    ensures
        key_step(k, config, code, v) == (k, KeyAction::Nothing),
{
}

/// Which event values can lead to which request: toggling only on a press,
/// brightness steps only on a press or a repeat, the next color only on a
/// release, the RGB scroll wait only on a press; a toggle or brightness
/// request leaves the keys as they were.
pub proof fn lemma_requests_by_value(k: Keys, config: Config, code: u16, v: i32)
    ensures
        key_step(k, config, code, v).1 == KeyAction::Run(Request::Toggle) ==> v == 1
            && key_step(k, config, code, v).0 == k,
        key_step(k, config, code, v).1 == KeyAction::Run(Request::BrightnessDown) ==> (v == 1
            || v == 2) && key_step(k, config, code, v).0 == k,
        key_step(k, config, code, v).1 == KeyAction::Run(Request::BrightnessUp) ==> (v == 1 || v
            == 2) && key_step(k, config, code, v).0 == k,
        key_step(k, config, code, v).1 == KeyAction::Run(Request::Next) ==> v == 0,
        key_step(k, config, code, v).1 == KeyAction::StartColorCycle ==> v == 1,
        !(key_step(k, config, code, v).1 is Run) || !is_modifier_code(code),
{
}

/// A hotkey fires for its key with its modifiers held, unless a hotkey
/// checked before it (color, then toggle, then brightness down, then up)
/// takes the event: toggle on a press, brightness down and up on a press or
/// a repeat.
pub proof fn lemma_hotkeys_fire(k: Keys, config: Config, code: u16, v: i32)
    requires
        !is_modifier_code(code),
        !combo_held(k, code, config.key_color),
    ensures
        combo_held(k, code, config.key_toggle) && v == 1 ==> key_step(k, config, code, v).1
            == KeyAction::Run(Request::Toggle),
        !(combo_held(k, code, config.key_toggle) && v == 1) && combo_held(
            k,
            code,
            config.key_brightness_down,
        ) && (v == 1 || v == 2) ==> key_step(k, config, code, v).1 == KeyAction::Run(
            Request::BrightnessDown,
        ),
        !(combo_held(k, code, config.key_toggle) && v == 1) && !combo_held(
            k,
            code,
            config.key_brightness_down,
        ) && combo_held(k, code, config.key_brightness_up) && (v == 1 || v == 2) ==> key_step(
            k,
            config,
            code,
            v,
        ).1 == KeyAction::Run(Request::BrightnessUp),
        !combo_held(k, code, config.key_toggle) && !combo_held(k, code, config.key_brightness_down)
            && !combo_held(k, code, config.key_brightness_up) ==> key_step(k, config, code, v) == (
        k, KeyAction::Nothing),
{
}

/// Releasing a modifier always stops the color hotkey and the RGB scroll.
pub proof fn lemma_modifier_release_stops(k: Keys, config: Config, code: u16)
    requires
        is_modifier_code(code),
    ensures
        !key_step(k, config, code, 0).0.color_key_down,
        !key_step(k, config, code, 0).0.color_cycle_running,
        key_step(k, config, code, 0).1 == KeyAction::Nothing,
{
}

/// The color hotkey is held from its first press to its release: a press
/// marks it held (a fresh press also marks the RGB scroll as not running),
/// a release marks it released, and neither touches the modifiers; the
/// other values change nothing.
pub proof fn lemma_color_key_held(k: Keys, v: i32)
    ensures
        v == 1 ==> color_key_step(k, v).0.color_key_down,
        v == 1 && !k.color_key_down ==> !color_key_step(k, v).0.color_cycle_running,
        v == 0 ==> !color_key_step(k, v).0.color_key_down,
        v != 0 && v != 1 ==> color_key_step(k, v) == (k, KeyAction::Nothing),
        color_key_step(k, v).0.ctrl == k.ctrl && color_key_step(k, v).0.alt == k.alt
            && color_key_step(k, v).0.shift == k.shift && color_key_step(k, v).0.meta == k.meta,
{
}

/// Once the RGB scroll runs, releasing the color hotkey ends it without a
/// further color change.
pub proof fn lemma_long_press_no_next(k: Keys)
    requires
        k.color_key_down,
        k.color_cycle_running,
    ensures
        color_key_step(k, 0).1 == KeyAction::Nothing,
        !color_key_step(k, 0).0.color_key_down,
{
}

/// After the hold delay: if the color hotkey is still held, the RGB scroll
/// starts and is marked running; otherwise nothing happens.
pub fn begin_color_cycle(keys: &mut Keys) -> (started: bool)
    ensures
        started == old(keys).color_key_down,
        *final(keys) == (if started {
            Keys { color_cycle_running: true, ..*old(keys) }
        } else {
            *old(keys)
        }),
{
    if !keys.color_key_down {
        return false;
    }
    keys.color_cycle_running = true;
    true
}

/// The hue that follows `hue` in the RGB scroll: `step` degrees on, around
/// the color circle.
pub open spec fn hue_after(hue: u16, step: u16) -> u16 {
    ((hue + step) % 360) as u16
}

/// One step of the RGB scroll: while the color hotkey is held, the color of
/// `hue` to show and the next hue; once it is released, the scroll is marked
/// stopped and `None` is returned.
pub fn color_cycle_step(keys: &mut Keys, hue: u16, step: u16) -> (r: Option<((u8, u8, u8), u16)>)
    requires
        hue + step <= u16::MAX,
    ensures
        old(keys).color_key_down ==> *final(keys) == *old(keys) && r == Some(
            (hsv_color(hue), hue_after(hue, step)),
        ),
        !old(keys).color_key_down ==> *final(keys) == (Keys {
            color_cycle_running: false,
            ..*old(keys)
        }) && r is None,
{
    if !keys.color_key_down {
        keys.color_cycle_running = false;
        return None;
    }
    Some((hsv_to_rgb(hue), (hue + step) % 360))
}

/// The RGB scroll moves `step` degrees around the circle: the next hue is
/// below 360 and differs from `hue + step` by a whole number of turns.
pub proof fn lemma_hue_step(hue: u16, step: u16)
    ensures
        hue_after(hue, step) < 360,
        (hue + step - hue_after(hue, step)) % 360 == 0,
        hue + step < 360 ==> hue_after(hue, step) == hue + step,
{
}

/// Whether the daemon timings are inside their ranges: hold 0..=5000 ms,
/// step 5..=1000 ms, hue step 1..=120.
pub open spec fn daemon_timings_in_range(c: Config) -> bool {
    &&& c.rgb_hold_delay_ms <= 5000
    &&& 5 <= c.rgb_step_delay_ms <= 1000
    &&& 1 <= c.rgb_hue_step <= 120
}

/// Reading lines keeps the timings inside their ranges.
proof fn lemma_daemon_lines_in_range(c: Config, ls: Seq<Seq<char>>)
    requires
        daemon_timings_in_range(c),
    ensures
        daemon_timings_in_range(apply_daemon_lines(c, ls)),
    decreases ls.len(),
{
    if ls.len() > 0 {
        lemma_daemon_lines_in_range(c, ls.drop_last());
    }
}

/// Whatever the configuration file holds, the daemon's timings are inside
/// their ranges.
pub proof fn lemma_daemon_config_in_range(content: Seq<char>)
    ensures
        daemon_timings_in_range(daemon_config_of_text(content)),
{
    lemma_daemon_lines_in_range(default_config(), split_char(content, '\n'));
}

/// The fully saturated, full-value color of `hue` degrees, in integer steps:
/// within each 60-degree sector one channel is 255, one is 0 and the third
/// rises or falls with `255 * (hue mod 60) / 60`.
pub open spec fn hsv_color(hue: u16) -> (u8, u8, u8) {
    let h = hue % 360;
    let region = h / 60;
    let rem = h % 60;
    let t = (255 * rem / 60) as u8;
    let q = (255 - 255 * rem / 60) as u8;
    if region == 0 {
        (255, t, 0)
    } else if region == 1 {
        (q, 255, 0)
    } else if region == 2 {
        (0, 255, t)
    } else if region == 3 {
        (0, q, 255)
    } else if region == 4 {
        (t, 0, 255)
    } else {
        (255, 0, q)
    }
}

/// The color of `hue` degrees, as red, green and blue.
pub fn hsv_to_rgb(hue: u16) -> (rgb: (u8, u8, u8))
    ensures
        rgb == hsv_color(hue),
{
    let h = hue % 360;
    let region = h / 60;
    let remainder = h % 60;
    let p = 0u8;
    let q = (255u16 - (255u16 * remainder / 60)) as u8;
    let t = (255u16 * remainder / 60) as u8;
    let v = 255u8;
    match region {
        0 => (v, t, p),
        1 => (q, v, p),
        2 => (p, v, t),
        3 => (p, q, v),
        4 => (t, p, v),
        _ => (v, p, q),
    }
}

/// Every color of the RGB scroll is fully saturated: one channel is 255 and
/// one is 0.
pub proof fn lemma_hsv_saturated(hue: u16)
    ensures
        ({
            let (r, g, b) = hsv_color(hue);
            (r == 255 || g == 255 || b == 255) && (r == 0 || g == 0 || b == 0)
        }),
{
    let rem = (hue % 360) % 60;
    assert(255 * rem / 60 <= 255) by (nonlinear_arith)
        requires
            rem < 60,
    ;
}

/// The default daemon settings: hold 300 ms, step 18 ms, hue step 5,
/// Ctrl+Alt+/ for the color, Ctrl+Alt+8 to toggle, Ctrl+Alt+- and
/// Ctrl+Alt+= for brightness down and up.
pub open spec fn default_config() -> Config {
    Config {
        rgb_hold_delay_ms: 300,
        rgb_step_delay_ms: 18,
        rgb_hue_step: 5,
        key_color: KeyCombo { ctrl: true, alt: true, shift: false, meta: false, key_code: KEY_SLASH },
        key_toggle: KeyCombo { ctrl: true, alt: true, shift: false, meta: false, key_code: KEY_8 },
        key_brightness_down: KeyCombo {
            ctrl: true,
            alt: true,
            shift: false,
            meta: false,
            key_code: KEY_MINUS,
        },
        key_brightness_up: KeyCombo {
            ctrl: true,
            alt: true,
            shift: false,
            meta: false,
            key_code: KEY_EQUAL,
        },
    }
}

impl Default for Config {
    fn default() -> (r: Self)
        ensures
            r == default_config(),
    {
        Config {
            rgb_hold_delay_ms: 300,
            rgb_step_delay_ms: 18,
            rgb_hue_step: 5,
            key_color: KeyCombo { ctrl: true, alt: true, shift: false, meta: false, key_code: KEY_SLASH },
            key_toggle: KeyCombo { ctrl: true, alt: true, shift: false, meta: false, key_code: KEY_8 },
            key_brightness_down: KeyCombo {
                ctrl: true,
                alt: true,
                shift: false,
                meta: false,
                key_code: KEY_MINUS,
            },
            key_brightness_up: KeyCombo {
                ctrl: true,
                alt: true,
                shift: false,
                meta: false,
                key_code: KEY_EQUAL,
            },
        }
    }
}

/// What one line of the configuration file does to the daemon settings: a
/// timing with a readable value replaces it, clamped into its range (hold
/// 0..=5000 ms, step 5..=1000 ms, hue step 1..=120); a hotkey whose text
/// reads as a combination replaces it; anything else changes nothing.
pub open spec fn apply_daemon_setting(c: Config, line: Seq<char>) -> Config {
    match setting_of_line(line) {
        None => c,
        Some((k, v)) => if k == "rgb_hold_delay_ms"@ {
            match parse_unsigned(v, u64::MAX as nat) {
                Some(n) => Config { rgb_hold_delay_ms: clamped(n, 0, 5000) as u64, ..c },
                None => c,
            }
        } else if k == "rgb_step_delay_ms"@ {
            match parse_unsigned(v, u64::MAX as nat) {
                Some(n) => Config { rgb_step_delay_ms: clamped(n, 5, 1000) as u64, ..c },
                None => c,
            }
        } else if k == "rgb_hue_step"@ {
            match parse_unsigned(v, u16::MAX as nat) {
                Some(n) => Config { rgb_hue_step: clamped(n, 1, 120) as u16, ..c },
                None => c,
            }
        } else if k == "key_color"@ {
            match combo_of_text(v) {
                Some(x) => Config { key_color: x, ..c },
                None => c,
            }
        } else if k == "key_toggle"@ {
            match combo_of_text(v) {
                Some(x) => Config { key_toggle: x, ..c },
                None => c,
            }
        } else if k == "key_brightness_down"@ {
            match combo_of_text(v) {
                Some(x) => Config { key_brightness_down: x, ..c },
                None => c,
            }
        } else if k == "key_brightness_up"@ {
            match combo_of_text(v) {
                Some(x) => Config { key_brightness_up: x, ..c },
                None => c,
            }
        } else {
            c
        },
    }
}

/// The daemon settings after the lines `ls`, read from the first to the last.
pub open spec fn apply_daemon_lines(c: Config, ls: Seq<Seq<char>>) -> Config
    decreases ls.len(),
{
    if ls.len() == 0 {
        c
    } else {
        apply_daemon_setting(apply_daemon_lines(c, ls.drop_last()), ls.last())
    }
}

/// The daemon settings that the text of a configuration file gives: the
/// defaults, changed by each line in turn (see `settings::config_of_text`
/// on line breaks).
pub open spec fn daemon_config_of_text(content: Seq<char>) -> Config {
    apply_daemon_lines(default_config(), split_char(content, '\n'))
}

/// Applies one line of the file to the daemon settings.
fn apply_daemon_line(c: &mut Config, line: &Vec<char>)
    ensures
        *final(c) == apply_daemon_setting(*old(c), line@),
{
    let (k, v) = match setting_line(line) {
        Some(kv) => kv,
        None => return,
    };
    if is_str(&k, "rgb_hold_delay_ms") {
        if let Some(n) = parse_unsigned_chars(&v, u64::MAX) {
            c.rgb_hold_delay_ms = clamp_u64(n, 0, 5000);
        }
    } else if is_str(&k, "rgb_step_delay_ms") {
        if let Some(n) = parse_unsigned_chars(&v, u64::MAX) {
            c.rgb_step_delay_ms = clamp_u64(n, 5, 1000);
        }
    } else if is_str(&k, "rgb_hue_step") {
        if let Some(n) = parse_unsigned_chars(&v, 65535) {
            c.rgb_hue_step = clamp_u64(n, 1, 120) as u16;
        }
    } else if is_str(&k, "key_color") {
        if let Some(x) = parse_combo_chars(&v) {
            c.key_color = x;
        }
    } else if is_str(&k, "key_toggle") {
        if let Some(x) = parse_combo_chars(&v) {
            c.key_toggle = x;
        }
    } else if is_str(&k, "key_brightness_down") {
        if let Some(x) = parse_combo_chars(&v) {
            c.key_brightness_down = x;
        }
    } else if is_str(&k, "key_brightness_up") {
        if let Some(x) = parse_combo_chars(&v) {
            c.key_brightness_up = x;
        }
    }
}

/// The daemon settings that the text of a configuration file gives.
pub fn parse_daemon_config(content: &str) -> (r: Config)
    ensures
        r == daemon_config_of_text(content@),
{
    let lines = split_chars(&chars_of(content), '\n');
    let ghost ls = lines@.map_values(|w: Vec<char>| w@);
    let mut c = Config::default();
    assert(ls.take(0) =~= Seq::<Seq<char>>::empty());
    for i in 0..lines.len()
        invariant
            ls == lines@.map_values(|w: Vec<char>| w@),
            c == apply_daemon_lines(default_config(), ls.take(i as int)),
    {
        assert(ls.take(i + 1).drop_last() =~= ls.take(i as int));
        assert(ls.take(i + 1).last() == lines@[i as int]@);
        apply_daemon_line(&mut c, &lines[i]);
    }
    assert(ls.take(ls.len() as int) =~= ls);
    c
}

/// How a hotkey is shown to people, such as `Ctrl+Alt+/`.
pub fn combo_display(combo: &KeyCombo) -> (r: String)
    ensures
        r@ == display_text(combo_text(*combo)),
{
    string_of(&display_chars(&combo_chars(combo)))
}

/// The command-line arguments that ask the backlight tool for `req`.
pub open spec fn request_words(req: Request) -> Seq<Seq<char>> {
    match req {
        Request::Next => seq!["next"@],
        Request::Toggle => seq!["toggle"@],
        Request::BrightnessDown => seq!["brightness-down"@],
        Request::BrightnessUp => seq!["brightness-up"@],
        Request::Rgb(r, g, b) => seq![
            "rgb"@,
            decimal(r as nat),
            decimal(g as nat),
            decimal(b as nat),
        ],
    }
}

/// The command-line arguments that ask the backlight tool for `req`.
pub fn request_args(req: Request) -> (r: Vec<String>)
    ensures
        r@.map_values(|s: String| s@) == request_words(req),
{
    let mut r: Vec<String> = Vec::new();
    match req {
        Request::Next => r.push(string_of(&chars_of("next"))),
        Request::Toggle => r.push(string_of(&chars_of("toggle"))),
        Request::BrightnessDown => r.push(string_of(&chars_of("brightness-down"))),
        Request::BrightnessUp => r.push(string_of(&chars_of("brightness-up"))),
        Request::Rgb(red, green, blue) => {
            r.push(string_of(&chars_of("rgb")));
            r.push(string_of(&decimal_chars(red as u64)));
            r.push(string_of(&decimal_chars(green as u64)));
            r.push(string_of(&decimal_chars(blue as u64)));
        },
    }
    assert(r@.map_values(|s: String| s@) =~= request_words(req));
    r
}

/// The color saved by the backlight tool, from the text of its state file:
/// the first three words read as numbers of 0..=255; `None` when there are
/// fewer than three words or one of them does not read.
pub open spec fn saved_rgb_of_text(content: Seq<char>) -> Option<(u8, u8, u8)> {
    let ws = words(content);
    if ws.len() < 3 {
        None
    } else {
        let r = parse_unsigned(ws[0], 255);
        let g = parse_unsigned(ws[1], 255);
        let b = parse_unsigned(ws[2], 255);
        if r is Some && g is Some && b is Some {
            Some((r->0 as u8, g->0 as u8, b->0 as u8))
        } else {
            None
        }
    }
}

/// The color saved by the backlight tool, from the text of its state file.
pub fn saved_rgb(content: &str) -> (r: Option<(u8, u8, u8)>)
    ensures
        r == saved_rgb_of_text(content@),
{
    let ws = words_of(&chars_of(content));
    let ghost v = ws@.map_values(|w: Vec<char>| w@);
    if ws.len() < 3 {
        return None;
    }
    assert(v[0] == ws@[0]@ && v[1] == ws@[1]@ && v[2] == ws@[2]@);
    let r = match parse_unsigned_chars(&ws[0], 255) {
        Some(x) => x as u8,
        None => return None,
    };
    let g = match parse_unsigned_chars(&ws[1], 255) {
        Some(x) => x as u8,
        None => return None,
    };
    let b = match parse_unsigned_chars(&ws[2], 255) {
        Some(x) => x as u8,
        None => return None,
    };
    Some((r, g, b))
}

/// The daemon settings that the file written for the menu settings `c`
/// gives: the timings of `c`, and each hotkey whose text reads as a
/// combination; a hotkey whose text does not read keeps its default.
pub open spec fn daemon_view_of(c: ConfigView) -> Config {
    let d = default_config();
    Config {
        rgb_hold_delay_ms: c.rgb_hold_delay_ms,
        rgb_step_delay_ms: c.rgb_step_delay_ms,
        rgb_hue_step: c.rgb_hue_step,
        key_color: match combo_of_text(c.key_color) {
            Some(k) => k,
            None => d.key_color,
        },
        key_toggle: match combo_of_text(c.key_toggle) {
            Some(k) => k,
            None => d.key_toggle,
        },
        key_brightness_down: match combo_of_text(c.key_brightness_down) {
            Some(k) => k,
            None => d.key_brightness_down,
        },
        key_brightness_up: match combo_of_text(c.key_brightness_up) {
            Some(k) => k,
            None => d.key_brightness_up,
        },
    }
}

/// Reading lines one after another: `a + b` does what `a` does, then `b`.
proof fn lemma_daemon_concat(c: Config, a: Seq<Seq<char>>, b: Seq<Seq<char>>)
    ensures
        apply_daemon_lines(c, a + b) == apply_daemon_lines(apply_daemon_lines(c, a), b),
    decreases b.len(),
{
    if b.len() == 0 {
        assert(a + b =~= a);
    } else {
        lemma_daemon_concat(c, a, b.drop_last());
        assert((a + b).drop_last() =~= a + b.drop_last());
        assert((a + b).last() == b.last());
    }
}

/// Lines that are empty or comments change nothing.
proof fn lemma_daemon_comments(c: Config, ls: Seq<Seq<char>>)
    requires
        all_comments(ls),
    ensures
        apply_daemon_lines(c, ls) == c,
    decreases ls.len(),
{
    if ls.len() > 0 {
        let rest = ls.drop_last();
        assert forall|i: int| 0 <= i < rest.len() implies (#[trigger] rest[i]).len() == 0
            || rest[i][0] == '#' by {
            assert(rest[i] == ls[i]);
        }
        lemma_daemon_comments(c, rest);
        assert(ls.last() == ls[ls.len() - 1]);
        lemma_comment_line(ls.last());
    }
}

/// The `rgb_hold_delay_ms` line sets that timing.
proof fn lemma_daemon_hold(c: Config, n: u64)
    requires
        n <= 5000,
    ensures
        apply_daemon_setting(c, setting_text("rgb_hold_delay_ms"@, decimal(n as nat))) == (Config { rgb_hold_delay_ms: n, ..c }),
{
    lemma_setting_keys();
    lemma_setting_key_chars();
    lemma_decimal_storable(n as nat);
    crate::decimal::lemma_parse_decimal(n as nat, u64::MAX as nat);
    lemma_stored_line("rgb_hold_delay_ms"@, decimal(n as nat));
}

/// The `rgb_step_delay_ms` line sets that timing.
proof fn lemma_daemon_step(c: Config, n: u64)
    requires
        5 <= n <= 1000,
    ensures
        apply_daemon_setting(c, setting_text("rgb_step_delay_ms"@, decimal(n as nat))) == (Config { rgb_step_delay_ms: n, ..c }),
{
    lemma_setting_keys();
    lemma_setting_key_chars();
    lemma_decimal_storable(n as nat);
    crate::decimal::lemma_parse_decimal(n as nat, u64::MAX as nat);
    lemma_stored_line("rgb_step_delay_ms"@, decimal(n as nat));
}

/// The `rgb_hue_step` line sets that timing.
proof fn lemma_daemon_hue(c: Config, n: u16)
    requires
        1 <= n <= 120,
    ensures
        apply_daemon_setting(c, setting_text("rgb_hue_step"@, decimal(n as nat))) == (Config { rgb_hue_step: n, ..c }),
{
    lemma_setting_keys();
    lemma_setting_key_chars();
    lemma_decimal_storable(n as nat);
    crate::decimal::lemma_parse_decimal(n as nat, u16::MAX as nat);
    lemma_stored_line("rgb_hue_step"@, decimal(n as nat));
}

/// The `key_color` line sets that hotkey when its text reads.
proof fn lemma_daemon_key_color(c: Config, v: Seq<char>)
    requires
        storable_text(v),
    ensures
        apply_daemon_setting(c, setting_text("key_color"@, v)) == (match combo_of_text(v) {
            Some(x) => Config { key_color: x, ..c },
            None => c,
        }),
{
    lemma_setting_keys();
    lemma_setting_key_chars();
    lemma_stored_line("key_color"@, v);
}

/// The `key_toggle` line sets that hotkey when its text reads.
proof fn lemma_daemon_key_toggle(c: Config, v: Seq<char>)
    requires
        storable_text(v),
    ensures
        apply_daemon_setting(c, setting_text("key_toggle"@, v)) == (match combo_of_text(v) {
            Some(x) => Config { key_toggle: x, ..c },
            None => c,
        }),
{
    lemma_setting_keys();
    lemma_setting_key_chars();
    lemma_stored_line("key_toggle"@, v);
}

/// The `key_brightness_down` line sets that hotkey when its text reads.
proof fn lemma_daemon_key_brightness_down(c: Config, v: Seq<char>)
    requires
        storable_text(v),
    ensures
        apply_daemon_setting(c, setting_text("key_brightness_down"@, v)) == (match combo_of_text(v) {
            Some(x) => Config { key_brightness_down: x, ..c },
            None => c,
        }),
{
    lemma_setting_keys();
    lemma_setting_key_chars();
    lemma_stored_line("key_brightness_down"@, v);
}

/// The `key_brightness_up` line sets that hotkey when its text reads.
proof fn lemma_daemon_key_brightness_up(c: Config, v: Seq<char>)
    requires
        storable_text(v),
    ensures
        apply_daemon_setting(c, setting_text("key_brightness_up"@, v)) == (match combo_of_text(v) {
            Some(x) => Config { key_brightness_up: x, ..c },
            None => c,
        }),
{
    lemma_setting_keys();
    lemma_setting_key_chars();
    lemma_stored_line("key_brightness_up"@, v);
}

/// The daemon reads the timings from their lines.
proof fn lemma_daemon_numbers(c0: Config, c: ConfigView)
    requires
        storable(c),
    ensures
        apply_daemon_lines(c0, number_lines(c)) == (Config {
            rgb_hold_delay_ms: c.rgb_hold_delay_ms,
            rgb_step_delay_ms: c.rgb_step_delay_ms,
            rgb_hue_step: c.rgb_hue_step,
            ..c0
        }),
{
    let ls = number_lines(c);
    let a1 = Config { rgb_hold_delay_ms: c.rgb_hold_delay_ms, ..c0 };
    let a2 = Config { rgb_step_delay_ms: c.rgb_step_delay_ms, ..a1 };
    lemma_daemon_hold(c0, c.rgb_hold_delay_ms);
    lemma_daemon_step(a1, c.rgb_step_delay_ms);
    lemma_daemon_hue(a2, c.rgb_hue_step);
    assert(apply_daemon_lines(c0, ls.take(0)) == c0);
    assert(ls.take(1).drop_last() =~= ls.take(0));
    assert(apply_daemon_lines(c0, ls.take(1)) == a1);
    assert(ls.take(2).drop_last() =~= ls.take(1));
    assert(apply_daemon_lines(c0, ls.take(2)) == a2);
    assert(ls.take(3).drop_last() =~= ls.take(2));
    assert(ls.take(3) =~= ls);
}

/// The daemon reads the hotkeys from their lines.
#[verifier::rlimit(60)]
proof fn lemma_daemon_hotkeys(c1: Config, c: ConfigView)
    requires
        storable(c),
        c1.key_color == default_config().key_color,
        c1.key_toggle == default_config().key_toggle,
        c1.key_brightness_down == default_config().key_brightness_down,
        c1.key_brightness_up == default_config().key_brightness_up,
        c1.rgb_hold_delay_ms == c.rgb_hold_delay_ms,
        c1.rgb_step_delay_ms == c.rgb_step_delay_ms,
        c1.rgb_hue_step == c.rgb_hue_step,
    ensures
        apply_daemon_lines(c1, hotkey_lines(c)) == daemon_view_of(c),
{
    let ls = hotkey_lines(c);
    lemma_daemon_key_color(c1, c.key_color);
    let a1 = apply_daemon_setting(c1, ls[0]);
    lemma_daemon_key_toggle(a1, c.key_toggle);
    let a2 = apply_daemon_setting(a1, ls[1]);
    lemma_daemon_key_brightness_down(a2, c.key_brightness_down);
    let a3 = apply_daemon_setting(a2, ls[2]);
    lemma_daemon_key_brightness_up(a3, c.key_brightness_up);
    let a4 = apply_daemon_setting(a3, ls[3]);
    lemma_comment_line(Seq::<char>::empty());
    assert(apply_daemon_lines(c1, ls.take(0)) == c1);
    assert(ls.take(1).drop_last() =~= ls.take(0));
    assert(apply_daemon_lines(c1, ls.take(1)) == a1);
    assert(ls.take(2).drop_last() =~= ls.take(1));
    assert(apply_daemon_lines(c1, ls.take(2)) == a2);
    assert(ls.take(3).drop_last() =~= ls.take(2));
    assert(apply_daemon_lines(c1, ls.take(3)) == a3);
    assert(ls.take(4).drop_last() =~= ls.take(3));
    assert(apply_daemon_lines(c1, ls.take(4)) == a4);
    assert(ls.take(5).drop_last() =~= ls.take(4));
    assert(ls.take(5) =~= ls);
    assert(a4 == daemon_view_of(c));
}

/// What the configuration menu writes, the daemon reads: the file written
/// for storable settings `c` gives the daemon the timings of `c` and each
/// hotkey whose text reads as a combination (the others keep their
/// defaults).
pub proof fn lemma_daemon_reads_settings(c: ConfigView)
    requires
        storable(c),
    ensures
        daemon_config_of_text(config_text(c)) == daemon_view_of(c),
{
    lemma_config_split(c);
    lemma_fixed_lines();
    let nums = number_lines(c);
    let keys = hotkey_lines(c);
    let c0 = default_config();
    lemma_daemon_comments(c0, head_lines());
    lemma_daemon_concat(c0, head_lines(), nums);
    lemma_daemon_numbers(c0, c);
    let c1 = apply_daemon_lines(c0, nums);
    lemma_daemon_concat(c0, head_lines() + nums, middle_lines());
    lemma_daemon_comments(c1, middle_lines());
    lemma_daemon_concat(c0, head_lines() + nums + middle_lines(), keys);
    lemma_daemon_hotkeys(c1, c);
}

} // verus!
