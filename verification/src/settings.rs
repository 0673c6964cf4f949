//! The settings that the configuration menu edits, kept as text: the
//! hotkeys are stored as they were entered, the timings as numbers.

use vstd::prelude::*;
use crate::conf::{
    clamp_u64, clamped, is_key_char, is_key_word, lemma_comment_line, lemma_setting_key_chars,
    lemma_setting_keys, lemma_setting_line, setting_line, setting_of_line,
};
use crate::decimal::{decimal, decimal_chars, parse_unsigned, parse_unsigned_chars};
use crate::text::{
    append_chars, chars_of, is_str, join_char, join_chars,
    lemma_trim_id, lowercase, lowercase_chars, split_char, split_chars, string_of, trim, trim_chars,
};
use crate::combo::{display_chars, display_text};

verus! {

/// The settings of the hotkey daemon as the configuration menu holds them.
#[derive(Debug, Clone)]
pub struct Config {
    pub rgb_hold_delay_ms: u64,
    pub rgb_step_delay_ms: u64,
    pub rgb_hue_step: u16,
    pub key_color: String,
    pub key_toggle: String,
    pub key_brightness_down: String,
    pub key_brightness_up: String,
}

/// The settings with each hotkey as its text.
pub struct ConfigView {
    pub rgb_hold_delay_ms: u64,
    pub rgb_step_delay_ms: u64,
    pub rgb_hue_step: u16,
    pub key_color: Seq<char>,
    pub key_toggle: Seq<char>,
    pub key_brightness_down: Seq<char>,
    pub key_brightness_up: Seq<char>,
}

impl View for Config {
    type V = ConfigView;

    open spec fn view(&self) -> ConfigView {
        ConfigView {
            rgb_hold_delay_ms: self.rgb_hold_delay_ms,
            rgb_step_delay_ms: self.rgb_step_delay_ms,
            rgb_hue_step: self.rgb_hue_step,
            key_color: self.key_color@,
            key_toggle: self.key_toggle@,
            key_brightness_down: self.key_brightness_down@,
            key_brightness_up: self.key_brightness_up@,
        }
    }
}

/// The default settings: hold 300 ms, step 18 ms, hue step 5, and the
/// hotkeys `ctrl+alt+slash`, `ctrl+alt+8`, `ctrl+alt+minus`, `ctrl+alt+equal`.
pub open spec fn default_view() -> ConfigView {
    ConfigView {
        rgb_hold_delay_ms: 300,
        rgb_step_delay_ms: 18,
        rgb_hue_step: 5,
        key_color: "ctrl+alt+slash"@,
        key_toggle: "ctrl+alt+8"@,
        key_brightness_down: "ctrl+alt+minus"@,
        key_brightness_up: "ctrl+alt+equal"@,
    }
}

impl Default for Config {
    fn default() -> (r: Self)
        ensures
            r@ == default_view(),
    {
        Config {
            rgb_hold_delay_ms: 300,
            rgb_step_delay_ms: 18,
            rgb_hue_step: 5,
            key_color: string_of(&chars_of("ctrl+alt+slash")),
            key_toggle: string_of(&chars_of("ctrl+alt+8")),
            key_brightness_down: string_of(&chars_of("ctrl+alt+minus")),
            key_brightness_up: string_of(&chars_of("ctrl+alt+equal")),
        }
    }
}

/// What one line of the file does to the settings: a known setting with a
/// readable value replaces it (a timing is clamped into its range: hold
/// 0..=5000 ms, step 5..=1000 ms, hue step 1..=120; a hotkey is kept as
/// text); any other line changes nothing.
pub open spec fn apply_setting(c: ConfigView, line: Seq<char>) -> ConfigView {
    match setting_of_line(line) {
        None => c,
        Some((k, v)) => if k == "rgb_hold_delay_ms"@ {
            match parse_unsigned(v, u64::MAX as nat) {
                Some(n) => ConfigView { rgb_hold_delay_ms: clamped(n, 0, 5000) as u64, ..c },
                None => c,
            }
        } else if k == "rgb_step_delay_ms"@ {
            match parse_unsigned(v, u64::MAX as nat) {
                Some(n) => ConfigView { rgb_step_delay_ms: clamped(n, 5, 1000) as u64, ..c },
                None => c,
            }
        } else if k == "rgb_hue_step"@ {
            match parse_unsigned(v, u16::MAX as nat) {
                Some(n) => ConfigView { rgb_hue_step: clamped(n, 1, 120) as u16, ..c },
                None => c,
            }
        } else if k == "key_color"@ {
            ConfigView { key_color: v, ..c }
        } else if k == "key_toggle"@ {
            ConfigView { key_toggle: v, ..c }
        } else if k == "key_brightness_down"@ {
            ConfigView { key_brightness_down: v, ..c }
        } else if k == "key_brightness_up"@ {
            ConfigView { key_brightness_up: v, ..c }
        } else {
            c
        },
    }
}

/// The settings after the lines `ls`, read from the first to the last.
pub open spec fn apply_lines(c: ConfigView, ls: Seq<Seq<char>>) -> ConfigView
    decreases ls.len(),
{
    if ls.len() == 0 {
        c
    } else {
        apply_setting(apply_lines(c, ls.drop_last()), ls.last())
    }
}

/// The settings that the text of a configuration file gives: the defaults,
/// changed by each of its lines in turn. (`str::lines` also drops a `\r`
/// before each line break and the empty text after a final one; neither
/// changes what a line sets, since lines are trimmed and empty ones skipped.)
pub open spec fn config_of_text(content: Seq<char>) -> ConfigView {
    apply_lines(default_view(), split_char(content, '\n'))
}

/// Applies one line of the file to `c`.
fn apply_setting_line(c: &mut Config, line: &Vec<char>)
    ensures
        final(c)@ == apply_setting(old(c)@, line@),
{
    let (k, v) = match setting_line(line) {
        Some(kv) => kv,
        None => return,
    };
    if is_str(&k, "rgb_hold_delay_ms") {
        if let Some(n) = parse_unsigned_chars(&v, u64::MAX) {
            c.rgb_hold_delay_ms = clamp_u64(n, 0, 5000);
        }
    } else if is_str(&k, "rgb_step_delay_ms") {
        if let Some(n) = parse_unsigned_chars(&v, u64::MAX) {
            c.rgb_step_delay_ms = clamp_u64(n, 5, 1000);
        }
    } else if is_str(&k, "rgb_hue_step") {
        if let Some(n) = parse_unsigned_chars(&v, 65535) {
            c.rgb_hue_step = clamp_u64(n, 1, 120) as u16;
        }
    } else if is_str(&k, "key_color") {
        c.key_color = string_of(&v);
    } else if is_str(&k, "key_toggle") {
        c.key_toggle = string_of(&v);
    } else if is_str(&k, "key_brightness_down") {
        c.key_brightness_down = string_of(&v);
    } else if is_str(&k, "key_brightness_up") {
        c.key_brightness_up = string_of(&v);
    }
}

/// The settings that the text of a configuration file gives.
pub fn parse_config(content: &str) -> (r: Config)
    ensures
        r@ == config_of_text(content@),
{
    let lines = split_chars(&chars_of(content), '\n');
    let ghost ls = lines@.map_values(|w: Vec<char>| w@);
    let mut c = Config::default();
    assert(ls.take(0) =~= Seq::<Seq<char>>::empty());
    for i in 0..lines.len()
        invariant
            ls == lines@.map_values(|w: Vec<char>| w@),
            c@ == apply_lines(default_view(), ls.take(i as int)),
    {
        assert(ls.take(i + 1).drop_last() =~= ls.take(i as int));
        assert(ls.take(i + 1).last() == lines@[i as int]@);
        apply_setting_line(&mut c, &lines[i]);
    }
    assert(ls.take(ls.len() as int) =~= ls);
    c
}

/// The comment lines before the numeric settings.
pub open spec fn head_lines() -> Seq<Seq<char>> {
    seq!["# MACHENIKE hotkey daemon config"@, ""@, "# RGB scroll behavior."@]
}

/// The comment lines between the numeric settings and the hotkeys.
pub open spec fn middle_lines() -> Seq<Seq<char>> {
    seq![
        ""@,
        "# Hotkeys."@,
        "# Format examples:"@,
        "# ctrl+alt+slash"@,
        "# ctrl+alt+shift+k"@,
        "# alt+space"@,
        "# meta+f"@,
        "# ctrl+alt+code:53"@,
        "#"@,
        "# Notes:"@,
        "# - \"*\" on the main keyboard is usually Shift+8."@,
        "#   Default toggle is stored as ctrl+alt+8 so Ctrl+Alt+* works too."@,
        "# - \"+\" on the main keyboard is usually Shift+=."@,
        "#   Default brightness-up is stored as ctrl+alt+equal so Ctrl+Alt++ works too."@,
        ""@,
    ]
}

/// The lines of `head_lines`.
fn head_lines_vec() -> (r: Vec<Vec<char>>)
    ensures
        r@.map_values(|w: Vec<char>| w@) == head_lines(),
{
    let mut r: Vec<Vec<char>> = Vec::new();
    r.push(chars_of("# MACHENIKE hotkey daemon config"));
    r.push(chars_of(""));
    r.push(chars_of("# RGB scroll behavior."));
    assert(r@.map_values(|w: Vec<char>| w@) =~= head_lines());
    r
}

/// The lines of `middle_lines`.
fn middle_lines_vec() -> (r: Vec<Vec<char>>)
    ensures
        r@.map_values(|w: Vec<char>| w@) == middle_lines(),
{
    let mut r: Vec<Vec<char>> = Vec::new();
    r.push(chars_of(""));
    r.push(chars_of("# Hotkeys."));
    r.push(chars_of("# Format examples:"));
    r.push(chars_of("# ctrl+alt+slash"));
    r.push(chars_of("# ctrl+alt+shift+k"));
    r.push(chars_of("# alt+space"));
    r.push(chars_of("# meta+f"));
    r.push(chars_of("# ctrl+alt+code:53"));
    r.push(chars_of("#"));
    r.push(chars_of("# Notes:"));
    r.push(chars_of("# - \"*\" on the main keyboard is usually Shift+8."));
    r.push(chars_of("#   Default toggle is stored as ctrl+alt+8 so Ctrl+Alt+* works too."));
    r.push(chars_of("# - \"+\" on the main keyboard is usually Shift+=."));
    r.push(chars_of("#   Default brightness-up is stored as ctrl+alt+equal so Ctrl+Alt++ works too."));
    r.push(chars_of(""));
    assert(r@.map_values(|w: Vec<char>| w@) =~= middle_lines());
    r
}

/// The comment lines are comments: each is empty or starts with `#`, and
/// none holds a line break.
proof fn lemma_comment_lines()
    ensures
        "# MACHENIKE hotkey daemon config"@.len() == 32,
        "# MACHENIKE hotkey daemon config"@[0] == '#',
        !"# MACHENIKE hotkey daemon config"@.contains('\n'),
        "# RGB scroll behavior."@.len() == 22,
        "# RGB scroll behavior."@[0] == '#',
        !"# RGB scroll behavior."@.contains('\n'),
        "# Hotkeys."@.len() == 10,
        "# Hotkeys."@[0] == '#',
        !"# Hotkeys."@.contains('\n'),
        "# Format examples:"@.len() == 18,
        "# Format examples:"@[0] == '#',
        !"# Format examples:"@.contains('\n'),
        "# ctrl+alt+slash"@.len() == 16,
        "# ctrl+alt+slash"@[0] == '#',
        !"# ctrl+alt+slash"@.contains('\n'),
        "# ctrl+alt+shift+k"@.len() == 18,
        "# ctrl+alt+shift+k"@[0] == '#',
        !"# ctrl+alt+shift+k"@.contains('\n'),
        "# alt+space"@.len() == 11,
        "# alt+space"@[0] == '#',
        !"# alt+space"@.contains('\n'),
        "# meta+f"@.len() == 8,
        "# meta+f"@[0] == '#',
        !"# meta+f"@.contains('\n'),
        "# ctrl+alt+code:53"@.len() == 18,
        "# ctrl+alt+code:53"@[0] == '#',
        !"# ctrl+alt+code:53"@.contains('\n'),
        "#"@.len() == 1,
        "#"@[0] == '#',
        !"#"@.contains('\n'),
        "# Notes:"@.len() == 8,
        "# Notes:"@[0] == '#',
        !"# Notes:"@.contains('\n'),
        "# - \"*\" on the main keyboard is usually Shift+8."@.len() == 48,
        "# - \"*\" on the main keyboard is usually Shift+8."@[0] == '#',
        !"# - \"*\" on the main keyboard is usually Shift+8."@.contains('\n'),
        "#   Default toggle is stored as ctrl+alt+8 so Ctrl+Alt+* works too."@.len() == 67,
        "#   Default toggle is stored as ctrl+alt+8 so Ctrl+Alt+* works too."@[0] == '#',
        !"#   Default toggle is stored as ctrl+alt+8 so Ctrl+Alt+* works too."@.contains('\n'),
        "# - \"+\" on the main keyboard is usually Shift+=."@.len() == 48,
        "# - \"+\" on the main keyboard is usually Shift+=."@[0] == '#',
        !"# - \"+\" on the main keyboard is usually Shift+=."@.contains('\n'),
        "#   Default brightness-up is stored as ctrl+alt+equal so Ctrl+Alt++ works too."@.len() == 78,
        "#   Default brightness-up is stored as ctrl+alt+equal so Ctrl+Alt++ works too."@[0] == '#',
        !"#   Default brightness-up is stored as ctrl+alt+equal so Ctrl+Alt++ works too."@.contains('\n'),
        ""@.len() == 0,
{
    reveal_strlit("");
    reveal_strlit("# MACHENIKE hotkey daemon config");
    assert forall|i: int| 0 <= i < 32 implies "# MACHENIKE hotkey daemon config"@[i] != '\n' by {
        assert(i == 0 || i == 1 || i == 2 || i == 3 || i == 4 || i == 5 || i == 6 || i == 7
            || i == 8 || i == 9 || i == 10 || i == 11 || i == 12 || i == 13 || i == 14 || i == 15
            || i == 16 || i == 17 || i == 18 || i == 19 || i == 20 || i == 21 || i == 22
            || i == 23 || i == 24 || i == 25 || i == 26 || i == 27 || i == 28 || i == 29
            || i == 30 || i == 31);
    }
    reveal_strlit("# RGB scroll behavior.");
    assert forall|i: int| 0 <= i < 22 implies "# RGB scroll behavior."@[i] != '\n' by {
        assert(i == 0 || i == 1 || i == 2 || i == 3 || i == 4 || i == 5 || i == 6 || i == 7
            || i == 8 || i == 9 || i == 10 || i == 11 || i == 12 || i == 13 || i == 14 || i == 15
            || i == 16 || i == 17 || i == 18 || i == 19 || i == 20 || i == 21);
    }
    reveal_strlit("# Hotkeys.");
    assert forall|i: int| 0 <= i < 10 implies "# Hotkeys."@[i] != '\n' by {
        assert(i == 0 || i == 1 || i == 2 || i == 3 || i == 4 || i == 5 || i == 6 || i == 7
            || i == 8 || i == 9);
    }
    reveal_strlit("# Format examples:");
    assert forall|i: int| 0 <= i < 18 implies "# Format examples:"@[i] != '\n' by {
        assert(i == 0 || i == 1 || i == 2 || i == 3 || i == 4 || i == 5 || i == 6 || i == 7
            || i == 8 || i == 9 || i == 10 || i == 11 || i == 12 || i == 13 || i == 14 || i == 15
            || i == 16 || i == 17);
    }
    reveal_strlit("# ctrl+alt+slash");
    assert forall|i: int| 0 <= i < 16 implies "# ctrl+alt+slash"@[i] != '\n' by {
        assert(i == 0 || i == 1 || i == 2 || i == 3 || i == 4 || i == 5 || i == 6 || i == 7
            || i == 8 || i == 9 || i == 10 || i == 11 || i == 12 || i == 13 || i == 14 || i == 15);
    }
    reveal_strlit("# ctrl+alt+shift+k");
    assert forall|i: int| 0 <= i < 18 implies "# ctrl+alt+shift+k"@[i] != '\n' by {
        assert(i == 0 || i == 1 || i == 2 || i == 3 || i == 4 || i == 5 || i == 6 || i == 7
            || i == 8 || i == 9 || i == 10 || i == 11 || i == 12 || i == 13 || i == 14 || i == 15
            || i == 16 || i == 17);
    }
    reveal_strlit("# alt+space");
    assert forall|i: int| 0 <= i < 11 implies "# alt+space"@[i] != '\n' by {
        assert(i == 0 || i == 1 || i == 2 || i == 3 || i == 4 || i == 5 || i == 6 || i == 7
            || i == 8 || i == 9 || i == 10);
    }
    reveal_strlit("# meta+f");
    assert forall|i: int| 0 <= i < 8 implies "# meta+f"@[i] != '\n' by {
        assert(i == 0 || i == 1 || i == 2 || i == 3 || i == 4 || i == 5 || i == 6 || i == 7);
    }
    reveal_strlit("# ctrl+alt+code:53");
    assert forall|i: int| 0 <= i < 18 implies "# ctrl+alt+code:53"@[i] != '\n' by {
        assert(i == 0 || i == 1 || i == 2 || i == 3 || i == 4 || i == 5 || i == 6 || i == 7
            || i == 8 || i == 9 || i == 10 || i == 11 || i == 12 || i == 13 || i == 14 || i == 15
            || i == 16 || i == 17);
    }
    reveal_strlit("#");
    reveal_strlit("# Notes:");
    assert forall|i: int| 0 <= i < 8 implies "# Notes:"@[i] != '\n' by {
        assert(i == 0 || i == 1 || i == 2 || i == 3 || i == 4 || i == 5 || i == 6 || i == 7);
    }
    reveal_strlit("# - \"*\" on the main keyboard is usually Shift+8.");
    assert forall|i: int| 0 <= i < 48 implies "# - \"*\" on the main keyboard is usually Shift+8."@[i] != '\n' by {
        assert(i == 0 || i == 1 || i == 2 || i == 3 || i == 4 || i == 5 || i == 6 || i == 7
            || i == 8 || i == 9 || i == 10 || i == 11 || i == 12 || i == 13 || i == 14 || i == 15
            || i == 16 || i == 17 || i == 18 || i == 19 || i == 20 || i == 21 || i == 22
            || i == 23 || i == 24 || i == 25 || i == 26 || i == 27 || i == 28 || i == 29
            || i == 30 || i == 31 || i == 32 || i == 33 || i == 34 || i == 35 || i == 36
            || i == 37 || i == 38 || i == 39 || i == 40 || i == 41 || i == 42 || i == 43
            || i == 44 || i == 45 || i == 46 || i == 47);
    }
    reveal_strlit("#   Default toggle is stored as ctrl+alt+8 so Ctrl+Alt+* works too.");
    assert forall|i: int| 0 <= i < 67 implies "#   Default toggle is stored as ctrl+alt+8 so Ctrl+Alt+* works too."@[i] != '\n' by {
        assert(i == 0 || i == 1 || i == 2 || i == 3 || i == 4 || i == 5 || i == 6 || i == 7
            || i == 8 || i == 9 || i == 10 || i == 11 || i == 12 || i == 13 || i == 14 || i == 15
            || i == 16 || i == 17 || i == 18 || i == 19 || i == 20 || i == 21 || i == 22
            || i == 23 || i == 24 || i == 25 || i == 26 || i == 27 || i == 28 || i == 29
            || i == 30 || i == 31 || i == 32 || i == 33 || i == 34 || i == 35 || i == 36
            || i == 37 || i == 38 || i == 39 || i == 40 || i == 41 || i == 42 || i == 43
            || i == 44 || i == 45 || i == 46 || i == 47 || i == 48 || i == 49 || i == 50
            || i == 51 || i == 52 || i == 53 || i == 54 || i == 55 || i == 56 || i == 57
            || i == 58 || i == 59 || i == 60 || i == 61 || i == 62 || i == 63 || i == 64
            || i == 65 || i == 66);
    }
    reveal_strlit("# - \"+\" on the main keyboard is usually Shift+=.");
    assert forall|i: int| 0 <= i < 48 implies "# - \"+\" on the main keyboard is usually Shift+=."@[i] != '\n' by {
        assert(i == 0 || i == 1 || i == 2 || i == 3 || i == 4 || i == 5 || i == 6 || i == 7
            || i == 8 || i == 9 || i == 10 || i == 11 || i == 12 || i == 13 || i == 14 || i == 15
            || i == 16 || i == 17 || i == 18 || i == 19 || i == 20 || i == 21 || i == 22
            || i == 23 || i == 24 || i == 25 || i == 26 || i == 27 || i == 28 || i == 29
            || i == 30 || i == 31 || i == 32 || i == 33 || i == 34 || i == 35 || i == 36
            || i == 37 || i == 38 || i == 39 || i == 40 || i == 41 || i == 42 || i == 43
            || i == 44 || i == 45 || i == 46 || i == 47);
    }
    reveal_strlit("#   Default brightness-up is stored as ctrl+alt+equal so Ctrl+Alt++ works too.");
    assert forall|i: int| 0 <= i < 78 implies "#   Default brightness-up is stored as ctrl+alt+equal so Ctrl+Alt++ works too."@[i] != '\n' by {
        assert(i == 0 || i == 1 || i == 2 || i == 3 || i == 4 || i == 5 || i == 6 || i == 7
            || i == 8 || i == 9 || i == 10 || i == 11 || i == 12 || i == 13 || i == 14 || i == 15
            || i == 16 || i == 17 || i == 18 || i == 19 || i == 20 || i == 21 || i == 22
            || i == 23 || i == 24 || i == 25 || i == 26 || i == 27 || i == 28 || i == 29
            || i == 30 || i == 31 || i == 32 || i == 33 || i == 34 || i == 35 || i == 36
            || i == 37 || i == 38 || i == 39 || i == 40 || i == 41 || i == 42 || i == 43
            || i == 44 || i == 45 || i == 46 || i == 47 || i == 48 || i == 49 || i == 50
            || i == 51 || i == 52 || i == 53 || i == 54 || i == 55 || i == 56 || i == 57
            || i == 58 || i == 59 || i == 60 || i == 61 || i == 62 || i == 63 || i == 64
            || i == 65 || i == 66 || i == 67 || i == 68 || i == 69 || i == 70 || i == 71
            || i == 72 || i == 73 || i == 74 || i == 75 || i == 76 || i == 77);
    }
}


/// The line `key=value`.
pub open spec fn setting_text(key: Seq<char>, value: Seq<char>) -> Seq<char> {
    key + seq!['='] + value
}

/// The lines that hold the three timings.
pub open spec fn number_lines(c: ConfigView) -> Seq<Seq<char>> {
    seq![
        setting_text("rgb_hold_delay_ms"@, decimal(c.rgb_hold_delay_ms as nat)),
        setting_text("rgb_step_delay_ms"@, decimal(c.rgb_step_delay_ms as nat)),
        setting_text("rgb_hue_step"@, decimal(c.rgb_hue_step as nat)),
    ]
}

/// The lines that hold the four hotkeys, and the empty text after the last
/// line break.
pub open spec fn hotkey_lines(c: ConfigView) -> Seq<Seq<char>> {
    seq![
        setting_text("key_color"@, c.key_color),
        setting_text("key_toggle"@, c.key_toggle),
        setting_text("key_brightness_down"@, c.key_brightness_down),
        setting_text("key_brightness_up"@, c.key_brightness_up),
        Seq::<char>::empty(),
    ]
}

/// `c0` with the timings of `c`.
pub open spec fn with_timings(c0: ConfigView, c: ConfigView) -> ConfigView {
    ConfigView {
        rgb_hold_delay_ms: c.rgb_hold_delay_ms,
        rgb_step_delay_ms: c.rgb_step_delay_ms,
        rgb_hue_step: c.rgb_hue_step,
        ..c0
    }
}

/// `c0` with the hotkeys of `c`.
pub open spec fn with_hotkeys(c0: ConfigView, c: ConfigView) -> ConfigView {
    ConfigView {
        key_color: c.key_color,
        key_toggle: c.key_toggle,
        key_brightness_down: c.key_brightness_down,
        key_brightness_up: c.key_brightness_up,
        ..c0
    }
}

/// The lines of the configuration file that holds `c`.
pub open spec fn config_lines(c: ConfigView) -> Seq<Seq<char>> {
    head_lines() + number_lines(c) + middle_lines() + hotkey_lines(c)
}

/// The text of the configuration file that holds `c`, ending in a line break.
pub open spec fn config_text(c: ConfigView) -> Seq<char> {
    join_char(config_lines(c), '\n')
}

/// The line `key=value`, as characters.
fn setting_chars(key: &str, value: &Vec<char>) -> (r: Vec<char>)
    ensures
        r@ == setting_text(key@, value@),
{
    let mut r = chars_of(key);
    r.push('=');
    append_chars(&mut r, value);
    r
}

/// The text of the configuration file that holds `c`.
pub fn config_file_text(c: &Config) -> (r: String)
    ensures
        r@ == config_text(c@),
{
    let mut lines = head_lines_vec();
    lines.push(setting_chars("rgb_hold_delay_ms", &decimal_chars(c.rgb_hold_delay_ms)));
    lines.push(setting_chars("rgb_step_delay_ms", &decimal_chars(c.rgb_step_delay_ms)));
    lines.push(setting_chars("rgb_hue_step", &decimal_chars(c.rgb_hue_step as u64)));
    let mut mid = middle_lines_vec();
    let ghost l0 = lines@;
    let ghost m0 = mid@;
    lines.append(&mut mid);
    assert(lines@ == l0 + m0);
    lines.push(setting_chars("key_color", &chars_of(c.key_color.as_str())));
    lines.push(setting_chars("key_toggle", &chars_of(c.key_toggle.as_str())));
    lines.push(setting_chars("key_brightness_down", &chars_of(c.key_brightness_down.as_str())));
    lines.push(setting_chars("key_brightness_up", &chars_of(c.key_brightness_up.as_str())));
    lines.push(Vec::new());
    assert(lines@.map_values(|w: Vec<char>| w@) =~= config_lines(c@));
    string_of(&join_chars(&lines, '\n'))
}

/// Whether the timings are inside their ranges: hold 0..=5000 ms, step
/// 5..=1000 ms, hue step 1..=120.
pub open spec fn timings_in_range(c: ConfigView) -> bool {
    &&& c.rgb_hold_delay_ms <= 5000
    &&& 5 <= c.rgb_step_delay_ms <= 1000
    &&& 1 <= c.rgb_hue_step <= 120
}

/// Reading lines keeps the timings inside their ranges.
proof fn lemma_lines_in_range(c: ConfigView, ls: Seq<Seq<char>>)
    requires
        timings_in_range(c),
    ensures
        timings_in_range(apply_lines(c, ls)),
    decreases ls.len(),
{
    if ls.len() > 0 {
        lemma_lines_in_range(c, ls.drop_last());
    }
}

/// Whatever the configuration file holds, the timings read from it are
/// inside their ranges.
pub proof fn lemma_config_in_range(content: Seq<char>)
    ensures
        timings_in_range(config_of_text(content)),
{
    lemma_lines_in_range(default_view(), split_char(content, '\n'));
}

/// Reading lines one after another: the lines `a + b` do what `a` does,
/// then what `b` does.
pub proof fn lemma_apply_concat(c: ConfigView, a: Seq<Seq<char>>, b: Seq<Seq<char>>)
    ensures
        apply_lines(c, a + b) == apply_lines(apply_lines(c, a), b),
    decreases b.len(),
{
    if b.len() == 0 {
        assert(a + b =~= a);
    } else {
        lemma_apply_concat(c, a, b.drop_last());
        assert((a + b).drop_last() =~= a + b.drop_last());
        assert((a + b).last() == b.last());
    }
}

/// Lines that are empty or start with `#` change nothing.
pub proof fn lemma_apply_comments(c: ConfigView, ls: Seq<Seq<char>>)
    requires
        all_comments(ls),
    ensures
        apply_lines(c, ls) == c,
    decreases ls.len(),
{
    if ls.len() > 0 {
        let rest = ls.drop_last();
        assert forall|i: int| 0 <= i < rest.len() implies (#[trigger] rest[i]).len() == 0
            || rest[i][0] == '#' by {
            assert(rest[i] == ls[i]);
        }
        assert(all_comments(rest));
        lemma_apply_comments(c, rest);
        assert(ls.last() == ls[ls.len() - 1]);
        lemma_comment_line(ls.last());
    }
}

/// Whether a hotkey text can be stored and read back unchanged: it is its
/// own trim and holds no line break.
pub open spec fn storable_text(v: Seq<char>) -> bool {
    trim(v) == v && !v.contains('\n')
}

/// Whether the settings are ones that the file keeps: timings inside their
/// ranges and hotkey texts that can be stored.
pub open spec fn storable(c: ConfigView) -> bool {
    &&& c.rgb_hold_delay_ms <= 5000
    &&& 5 <= c.rgb_step_delay_ms <= 1000
    &&& 1 <= c.rgb_hue_step <= 120
    &&& storable_text(c.key_color)
    &&& storable_text(c.key_toggle)
    &&& storable_text(c.key_brightness_down)
    &&& storable_text(c.key_brightness_up)
}

/// A setting name neither holds `=` or a line break nor starts with `#`, and is
/// its own trim.
proof fn lemma_setting_key(k: Seq<char>)
    requires
        is_key_word(k),
    ensures
        k[0] != '#',
        trim(k) == k,
        !k.contains('='),
        !k.contains('\n'),
{
    assert(is_key_char(k[0]));
    assert(is_key_char(k[k.len() - 1]));
    lemma_trim_id(k);
    if k.contains('=') {
        let i = choose|i: int| 0 <= i < k.len() && k[i] == '=';
        assert(is_key_char(k[i]));
    }
    if k.contains('\n') {
        let i = choose|i: int| 0 <= i < k.len() && k[i] == '\n';
        assert(is_key_char(k[i]));
    }
}

/// The line that sets `k` to `v` has no line break and sets `k` to `v`.
pub proof fn lemma_stored_line(k: Seq<char>, v: Seq<char>)
    requires
        is_key_word(k),
        storable_text(v),
    ensures
        setting_of_line(setting_text(k, v)) == Some((k, v)),
        !setting_text(k, v).contains('\n'),
{
    lemma_setting_key(k);
    lemma_setting_line(k, v);
    let t = setting_text(k, v);
    if t.contains('\n') {
        let i = choose|i: int| 0 <= i < t.len() && t[i] == '\n';
        if i < k.len() {
            assert(t[i] == k[i]);
            assert(k.contains('\n'));
        } else if i > k.len() {
            assert(t[i] == v[i - k.len() - 1]);
            assert(v.contains('\n'));
        }
    }
}

/// A number written in decimal is a storable text.
pub proof fn lemma_decimal_storable(n: nat)
    ensures
        storable_text(decimal(n)),
{
    crate::decimal::lemma_decimal(n);
    let d = decimal(n);
    assert(crate::decimal::is_digit(d[0]));
    assert(crate::decimal::is_digit(d[d.len() - 1]));
    lemma_trim_id(d);
    if d.contains('\n') {
        let i = choose|i: int| 0 <= i < d.len() && d[i] == '\n';
        assert(crate::decimal::is_digit(d[i]));
    }
}

/// Whether no line of `ls` holds a line break.
pub open spec fn no_breaks(ls: Seq<Seq<char>>) -> bool {
    forall|i: int| 0 <= i < ls.len() ==> !(#[trigger] ls[i]).contains('\n')
}

/// Whether every line of `ls` is empty or a comment.
pub open spec fn all_comments(ls: Seq<Seq<char>>) -> bool {
    forall|i: int| 0 <= i < ls.len() ==> (#[trigger] ls[i]).len() == 0 || ls[i][0] == '#'
}

/// The fixed lines of the file are comments without line breaks.
pub proof fn lemma_fixed_lines()
    ensures
        no_breaks(head_lines()),
        all_comments(head_lines()),
        no_breaks(middle_lines()),
        all_comments(middle_lines()),
{
    lemma_comment_lines();
    assert forall|i: int| 0 <= i < 3 implies !(#[trigger] head_lines()[i]).contains('\n') && (
    head_lines()[i].len() == 0 || head_lines()[i][0] == '#') by {
        assert(i == 0 || i == 1 || i == 2);
    }
    assert forall|i: int| 0 <= i < 15 implies !(#[trigger] middle_lines()[i]).contains('\n') && (
    middle_lines()[i].len() == 0 || middle_lines()[i][0] == '#') by {
        assert(i == 0 || i == 1 || i == 2 || i == 3 || i == 4 || i == 5 || i == 6 || i == 7 || i
            == 8 || i == 9 || i == 10 || i == 11 || i == 12 || i == 13 || i == 14);
    }
}

/// Lines without breaks stay so when put together.
proof fn lemma_no_breaks_concat(a: Seq<Seq<char>>, b: Seq<Seq<char>>)
    requires
        no_breaks(a),
        no_breaks(b),
    ensures
        no_breaks(a + b),
{
    assert forall|i: int| 0 <= i < (a + b).len() implies !(#[trigger] (a + b)[i]).contains('\n') by {
        if i < a.len() {
            assert((a + b)[i] == a[i]);
        } else {
            assert((a + b)[i] == b[i - a.len()]);
        }
    }
}

/// The numeric lines hold no line break.
proof fn lemma_number_lines(c: ConfigView)
    requires
        storable(c),
    ensures
        no_breaks(number_lines(c)),
{
    lemma_setting_key_chars();
    lemma_decimal_storable(c.rgb_hold_delay_ms as nat);
    lemma_decimal_storable(c.rgb_step_delay_ms as nat);
    lemma_decimal_storable(c.rgb_hue_step as nat);
    lemma_stored_line("rgb_hold_delay_ms"@, decimal(c.rgb_hold_delay_ms as nat));
    lemma_stored_line("rgb_step_delay_ms"@, decimal(c.rgb_step_delay_ms as nat));
    lemma_stored_line("rgb_hue_step"@, decimal(c.rgb_hue_step as nat));
    assert forall|i: int| 0 <= i < 3 implies !(#[trigger] number_lines(c)[i]).contains('\n') by {
        assert(i == 0 || i == 1 || i == 2);
    }
}

/// The hotkey lines hold no line break.
proof fn lemma_hotkey_lines(c: ConfigView)
    requires
        storable(c),
    ensures
        no_breaks(hotkey_lines(c)),
{
    lemma_setting_key_chars();
    lemma_stored_line("key_color"@, c.key_color);
    lemma_stored_line("key_toggle"@, c.key_toggle);
    lemma_stored_line("key_brightness_down"@, c.key_brightness_down);
    lemma_stored_line("key_brightness_up"@, c.key_brightness_up);
    assert forall|i: int| 0 <= i < 5 implies !(#[trigger] hotkey_lines(c)[i]).contains('\n') by {
        assert(i == 0 || i == 1 || i == 2 || i == 3 || i == 4);
    }
}

/// The file of storable settings splits into its lines.
pub proof fn lemma_config_split(c: ConfigView)
    requires
        storable(c),
    ensures
        split_char(config_text(c), '\n') == config_lines(c),
{
    lemma_fixed_lines();
    lemma_number_lines(c);
    lemma_hotkey_lines(c);
    lemma_no_breaks_concat(head_lines(), number_lines(c));
    lemma_no_breaks_concat(head_lines() + number_lines(c), middle_lines());
    lemma_no_breaks_concat(head_lines() + number_lines(c) + middle_lines(), hotkey_lines(c));
    crate::text::lemma_split_join(config_lines(c), '\n');
}

/// The `rgb_hold_delay_ms` line sets that timing.
proof fn lemma_step_hold(c: ConfigView, n: u64)
    requires
        n <= 5000,
    ensures
        apply_setting(c, setting_text("rgb_hold_delay_ms"@, decimal(n as nat))) == (ConfigView { rgb_hold_delay_ms: n, ..c }),
{
    lemma_setting_keys();
    lemma_setting_key_chars();
    lemma_decimal_storable(n as nat);
    crate::decimal::lemma_parse_decimal(n as nat, u64::MAX as nat);
    lemma_stored_line("rgb_hold_delay_ms"@, decimal(n as nat));
}

/// The `rgb_step_delay_ms` line sets that timing.
proof fn lemma_step_step(c: ConfigView, n: u64)
    requires
        5 <= n <= 1000,
    ensures
        apply_setting(c, setting_text("rgb_step_delay_ms"@, decimal(n as nat))) == (ConfigView { rgb_step_delay_ms: n, ..c }),
{
    lemma_setting_keys();
    lemma_setting_key_chars();
    lemma_decimal_storable(n as nat);
    crate::decimal::lemma_parse_decimal(n as nat, u64::MAX as nat);
    lemma_stored_line("rgb_step_delay_ms"@, decimal(n as nat));
}

/// The `rgb_hue_step` line sets that timing.
proof fn lemma_step_hue(c: ConfigView, n: u16)
    requires
        1 <= n <= 120,
    ensures
        apply_setting(c, setting_text("rgb_hue_step"@, decimal(n as nat))) == (ConfigView { rgb_hue_step: n, ..c }),
{
    lemma_setting_keys();
    lemma_setting_key_chars();
    lemma_decimal_storable(n as nat);
    crate::decimal::lemma_parse_decimal(n as nat, u16::MAX as nat);
    lemma_stored_line("rgb_hue_step"@, decimal(n as nat));
}

/// The `key_color` line sets that hotkey text.
proof fn lemma_step_key_color(c: ConfigView, v: Seq<char>)
    requires
        storable_text(v),
    ensures
        apply_setting(c, setting_text("key_color"@, v)) == (ConfigView { key_color: v, ..c }),
{
    lemma_setting_keys();
    lemma_setting_key_chars();
    lemma_stored_line("key_color"@, v);
}

/// The `key_toggle` line sets that hotkey text.
proof fn lemma_step_key_toggle(c: ConfigView, v: Seq<char>)
    requires
        storable_text(v),
    ensures
        apply_setting(c, setting_text("key_toggle"@, v)) == (ConfigView { key_toggle: v, ..c }),
{
    lemma_setting_keys();
    lemma_setting_key_chars();
    lemma_stored_line("key_toggle"@, v);
}

/// The `key_brightness_down` line sets that hotkey text.
proof fn lemma_step_key_brightness_down(c: ConfigView, v: Seq<char>)
    requires
        storable_text(v),
    ensures
        apply_setting(c, setting_text("key_brightness_down"@, v)) == (ConfigView { key_brightness_down: v, ..c }),
{
    lemma_setting_keys();
    lemma_setting_key_chars();
    lemma_stored_line("key_brightness_down"@, v);
}

/// The `key_brightness_up` line sets that hotkey text.
proof fn lemma_step_key_brightness_up(c: ConfigView, v: Seq<char>)
    requires
        storable_text(v),
    ensures
        apply_setting(c, setting_text("key_brightness_up"@, v)) == (ConfigView { key_brightness_up: v, ..c }),
{
    lemma_setting_keys();
    lemma_setting_key_chars();
    lemma_stored_line("key_brightness_up"@, v);
}

/// The numeric lines set the three timings.
proof fn lemma_config_numbers(c0: ConfigView, c: ConfigView)
    requires
        storable(c),
    ensures
        apply_lines(c0, number_lines(c)) == with_timings(c0, c),
{
    let ls = number_lines(c);
    let a1 = ConfigView { rgb_hold_delay_ms: c.rgb_hold_delay_ms, ..c0 };
    let a2 = ConfigView { rgb_step_delay_ms: c.rgb_step_delay_ms, ..a1 };
    lemma_step_hold(c0, c.rgb_hold_delay_ms);
    lemma_step_step(a1, c.rgb_step_delay_ms);
    lemma_step_hue(a2, c.rgb_hue_step);
    assert(apply_lines(c0, ls.take(0)) == c0);
    assert(ls.take(1).drop_last() =~= ls.take(0));
    assert(apply_lines(c0, ls.take(1)) == a1);
    assert(ls.take(2).drop_last() =~= ls.take(1));
    assert(apply_lines(c0, ls.take(2)) == a2);
    assert(ls.take(3).drop_last() =~= ls.take(2));
    assert(ls.take(3) =~= ls);
}

/// The hotkey lines set the four hotkeys; the final empty line changes nothing.
proof fn lemma_config_hotkeys(c0: ConfigView, c: ConfigView)
    requires
        storable(c),
    ensures
        apply_lines(c0, hotkey_lines(c)) == with_hotkeys(c0, c),
{
    let ls = hotkey_lines(c);
    let a1 = ConfigView { key_color: c.key_color, ..c0 };
    let a2 = ConfigView { key_toggle: c.key_toggle, ..a1 };
    let a3 = ConfigView { key_brightness_down: c.key_brightness_down, ..a2 };
    lemma_step_key_color(c0, c.key_color);
    lemma_step_key_toggle(a1, c.key_toggle);
    lemma_step_key_brightness_down(a2, c.key_brightness_down);
    lemma_step_key_brightness_up(a3, c.key_brightness_up);
    lemma_comment_line(Seq::<char>::empty());
    assert(apply_lines(c0, ls.take(0)) == c0);
    assert(ls.take(1).drop_last() =~= ls.take(0));
    assert(apply_lines(c0, ls.take(1)) == a1);
    assert(ls.take(2).drop_last() =~= ls.take(1));
    assert(apply_lines(c0, ls.take(2)) == a2);
    assert(ls.take(3).drop_last() =~= ls.take(2));
    assert(apply_lines(c0, ls.take(3)) == a3);
    assert(ls.take(4).drop_last() =~= ls.take(3));
    assert(apply_lines(c0, ls.take(4)) == with_hotkeys(c0, c));
    assert(ls.take(5).drop_last() =~= ls.take(4));
    assert(ls.take(5) =~= ls);
}

/// Writing settings to the file and reading the file back gives the same
/// settings, for settings that the file can keep.
pub proof fn lemma_config_round_trip(c: ConfigView)
    requires
        storable(c),
    ensures
        config_of_text(config_text(c)) == c,
{
    lemma_config_split(c);
    lemma_fixed_lines();
    let nums = number_lines(c);
    let keys = hotkey_lines(c);
    let c0 = default_view();
    lemma_apply_comments(c0, head_lines());
    lemma_apply_concat(c0, head_lines(), nums);
    lemma_config_numbers(c0, c);
    let c1 = with_timings(c0, c);
    lemma_apply_concat(c0, head_lines() + nums, middle_lines());
    lemma_apply_comments(c1, middle_lines());
    lemma_apply_concat(c0, head_lines() + nums + middle_lines(), keys);
    lemma_config_hotkeys(c1, c);
}

} // verus!

verus! {

/// How the hotkey text `combo` is shown to people, such as `Ctrl+Alt+/`.
pub fn combo_display(combo: &str) -> (r: String)
    ensures
        r@ == display_text(combo@),
{
    string_of(&display_chars(&chars_of(combo)))
}

/// A hotkey typed by hand: the trimmed, lowercased text, or `None` when
/// nothing but white space was typed.
pub fn typed_combo(input: &str) -> (r: Option<String>)
    ensures
        trim(input@).len() == 0 ==> r is None,
        trim(input@).len() > 0 ==> (r matches Some(t) && t@ == lowercase(trim(input@))),
{
    let t = trim_chars(&chars_of(input));
    if t.len() == 0 {
        None
    } else {
        Some(string_of(&lowercase_chars(&t)))
    }
}

/// The four hotkeys of the configuration.
#[derive(Debug, Clone, Copy, PartialEq, Eq, Structural)]
pub enum HotkeySlot {
    Color,
    Toggle,
    BrightnessDown,
    BrightnessUp,
}

/// The hotkey that a menu choice `1` to `4` stands for.
pub fn hotkey_slot(choice: &str) -> (r: Option<HotkeySlot>)
    ensures
        r == (if choice@ == "1"@ {
            Some(HotkeySlot::Color)
        } else if choice@ == "2"@ {
            Some(HotkeySlot::Toggle)
        } else if choice@ == "3"@ {
            Some(HotkeySlot::BrightnessDown)
        } else if choice@ == "4"@ {
            Some(HotkeySlot::BrightnessUp)
        } else {
            None
        }),
{
    let c = chars_of(choice);
    if is_str(&c, "1") {
        Some(HotkeySlot::Color)
    } else if is_str(&c, "2") {
        Some(HotkeySlot::Toggle)
    } else if is_str(&c, "3") {
        Some(HotkeySlot::BrightnessDown)
    } else if is_str(&c, "4") {
        Some(HotkeySlot::BrightnessUp)
    } else {
        None
    }
}

/// The hotkey text of `slot` in `c`.
pub open spec fn slot_text(c: ConfigView, slot: HotkeySlot) -> Seq<char> {
    match slot {
        HotkeySlot::Color => c.key_color,
        HotkeySlot::Toggle => c.key_toggle,
        HotkeySlot::BrightnessDown => c.key_brightness_down,
        HotkeySlot::BrightnessUp => c.key_brightness_up,
    }
}

/// `c` with the hotkey of `slot` set to `v`.
pub open spec fn with_slot(c: ConfigView, slot: HotkeySlot, v: Seq<char>) -> ConfigView {
    match slot {
        HotkeySlot::Color => ConfigView { key_color: v, ..c },
        HotkeySlot::Toggle => ConfigView { key_toggle: v, ..c },
        HotkeySlot::BrightnessDown => ConfigView { key_brightness_down: v, ..c },
        HotkeySlot::BrightnessUp => ConfigView { key_brightness_up: v, ..c },
    }
}

/// The text of the hotkey of `slot`.
pub fn hotkey_text(config: &Config, slot: HotkeySlot) -> (r: &String)
    ensures
        r@ == slot_text(config@, slot),
{
    match slot {
        HotkeySlot::Color => &config.key_color,
        HotkeySlot::Toggle => &config.key_toggle,
        HotkeySlot::BrightnessDown => &config.key_brightness_down,
        HotkeySlot::BrightnessUp => &config.key_brightness_up,
    }
}

/// Sets the hotkey of `slot` to `value`.
pub fn set_hotkey(config: &mut Config, slot: HotkeySlot, value: String)
    ensures
        final(config)@ == with_slot(old(config)@, slot, value@),
{
    match slot {
        HotkeySlot::Color => config.key_color = value,
        HotkeySlot::Toggle => config.key_toggle = value,
        HotkeySlot::BrightnessDown => config.key_brightness_down = value,
        HotkeySlot::BrightnessUp => config.key_brightness_up = value,
    }
}

/// The RGB scroll speed of a menu choice: `1` slow (35 ms, 3 degrees), `2`
/// normal (25 ms, 4), `3` fast (18 ms, 5, the default), `4` very fast
/// (12 ms, 7), as step delay and hue step.
pub open spec fn speed_of_choice(choice: Seq<char>) -> Option<(u64, u16)> {
    if choice == "1"@ {
        Some((35, 3))
    } else if choice == "2"@ {
        Some((25, 4))
    } else if choice == "3"@ {
        Some((18, 5))
    } else if choice == "4"@ {
        Some((12, 7))
    } else {
        None
    }
}

/// The step delay and hue step of a speed menu choice.
pub fn speed_preset(choice: &str) -> (r: Option<(u64, u16)>)
    ensures
        r == speed_of_choice(choice@),
{
    let c = chars_of(choice);
    if is_str(&c, "1") {
        Some((35, 3))
    } else if is_str(&c, "2") {
        Some((25, 4))
    } else if is_str(&c, "3") {
        Some((18, 5))
    } else if is_str(&c, "4") {
        Some((12, 7))
    } else {
        None
    }
}

/// A custom speed typed by hand: a step delay that reads as a number is
/// clamped into 5..=1000 ms, a hue step that reads as a number is clamped
/// into 1..=120; what does not read is left as it was.
pub fn set_custom_speed(config: &mut Config, delay: &str, step: &str)
    ensures
        final(config)@ == (ConfigView {
            rgb_step_delay_ms: match parse_unsigned(delay@, u64::MAX as nat) {
                Some(n) => clamped(n, 5, 1000) as u64,
                None => old(config)@.rgb_step_delay_ms,
            },
            rgb_hue_step: match parse_unsigned(step@, u16::MAX as nat) {
                Some(n) => clamped(n, 1, 120) as u16,
                None => old(config)@.rgb_hue_step,
            },
            ..old(config)@
        }),
{
    if let Some(v) = parse_unsigned_chars(&chars_of(delay), u64::MAX) {
        config.rgb_step_delay_ms = clamp_u64(v, 5, 1000);
    }
    if let Some(v) = parse_unsigned_chars(&chars_of(step), 65535) {
        config.rgb_hue_step = clamp_u64(v, 1, 120) as u16;
    }
}

/// A hold delay typed by hand: the number clamped into 0..=5000 ms, or
/// `None` when the text is not a number.
pub fn parse_hold_delay(input: &str) -> (r: Option<u64>)
    ensures
        match parse_unsigned(input@, u64::MAX as nat) {
            Some(n) => r == Some(clamped(n, 0, 5000) as u64),
            None => r is None,
        },
{
    match parse_unsigned_chars(&chars_of(input), u64::MAX) {
        Some(v) => Some(clamp_u64(v, 0, 5000)),
        None => None,
    }
}

} // verus!
