//! The keyboard backlight: its saved state, the palette, brightness and
//! on/off rules, and the embedded-controller commands that set each zone.

use vstd::prelude::*;
use crate::decimal::{
    decimal, decimal_chars, lemma_decimal, lemma_parse_decimal, parse_unsigned, parse_unsigned_chars,
};
use crate::text::{
    append_str, chars_of, is_str, is_word, join_char, join_chars, lemma_words_join, string_of, words,
    words_of,
};

verus! {

/// A color as red, green and blue.
#[derive(Debug, Clone, Copy, PartialEq, Eq, Structural)]
pub struct Rgb {
    pub r: u8,
    pub g: u8,
    pub b: u8,
}

/// The saved backlight state: the chosen color, the brightness in percent,
/// the brightness to come back to after switching off, whether the light is
/// on, and the palette position of the color.
#[derive(Debug, Clone, Copy, PartialEq, Eq, Structural)]
pub struct State {
    pub color: Rgb,
    pub brightness: u8,
    pub last_brightness: u8,
    pub enabled: bool,
    pub palette_index: usize,
}

/// The number of palette colors.
pub const PALETTE_LEN: usize = 8;

/// The palette color at position `i`: white, blue, red, green, cyan,
/// magenta, yellow, orange.
pub open spec fn palette_color(i: int) -> Rgb {
    if i == 0 {
        Rgb { r: 255, g: 255, b: 255 }
    } else if i == 1 {
        Rgb { r: 0, g: 0, b: 255 }
    } else if i == 2 {
        Rgb { r: 255, g: 0, b: 0 }
    } else if i == 3 {
        Rgb { r: 0, g: 255, b: 0 }
    } else if i == 4 {
        Rgb { r: 0, g: 255, b: 255 }
    } else if i == 5 {
        Rgb { r: 255, g: 0, b: 255 }
    } else if i == 6 {
        Rgb { r: 255, g: 255, b: 0 }
    } else {
        Rgb { r: 255, g: 120, b: 0 }
    }
}

/// The name of the palette color at position `i`.
pub open spec fn palette_name(i: int) -> Seq<char> {
    if i == 0 {
        "white"@
    } else if i == 1 {
        "blue"@
    } else if i == 2 {
        "red"@
    } else if i == 3 {
        "green"@
    } else if i == 4 {
        "cyan"@
    } else if i == 5 {
        "magenta"@
    } else if i == 6 {
        "yellow"@
    } else {
        "orange"@
    }
}

/// The palette entry at position `i`: its name and color.
pub fn palette_entry(i: usize) -> (r: (&'static str, Rgb))
    requires
        i < PALETTE_LEN,
    ensures
        r.0@ == palette_name(i as int),
        r.1 == palette_color(i as int),
{
    match i {
        0 => ("white", Rgb { r: 255, g: 255, b: 255 }),
        1 => ("blue", Rgb { r: 0, g: 0, b: 255 }),
        2 => ("red", Rgb { r: 255, g: 0, b: 0 }),
        3 => ("green", Rgb { r: 0, g: 255, b: 0 }),
        4 => ("cyan", Rgb { r: 0, g: 255, b: 255 }),
        5 => ("magenta", Rgb { r: 255, g: 0, b: 255 }),
        6 => ("yellow", Rgb { r: 255, g: 255, b: 0 }),
        _ => ("orange", Rgb { r: 255, g: 120, b: 0 }),
    }
}

/// White at full brightness, on, at the start of the palette.
pub open spec fn initial_state() -> State {
    State {
        color: Rgb { r: 255, g: 255, b: 255 },
        brightness: 100,
        last_brightness: 100,
        enabled: true,
        palette_index: 0,
    }
}

/// The state used when none is saved or the saved one cannot be read.
pub fn default_state() -> (s: State)
    ensures
        s == initial_state(),
{
    State {
        color: Rgb { r: 255, g: 255, b: 255 },
        brightness: 100,
        last_brightness: 100,
        enabled: true,
        palette_index: 0,
    }
}

/// One channel at `brightness` percent: `value * brightness / 100`, cut to
/// its low eight bits (which changes nothing for brightness up to 100).
pub open spec fn scaled(value: u8, brightness: u8) -> u8 {
    (value as u16 * brightness as u16 / 100) as u8
}

/// `color` at `brightness` percent.
pub open spec fn scaled_color(color: Rgb, brightness: u8) -> Rgb {
    Rgb {
        r: scaled(color.r, brightness),
        g: scaled(color.g, brightness),
        b: scaled(color.b, brightness),
    }
}

/// `color` at `brightness` percent.
pub fn scale_color(color: Rgb, brightness: u8) -> (r: Rgb)
    ensures
        r == scaled_color(color, brightness),
{
    assert(color.r * brightness <= 65535 && color.g * brightness <= 65535 && color.b * brightness
        <= 65535) by (nonlinear_arith)
        requires
            color.r <= 255,
            color.g <= 255,
            color.b <= 255,
            brightness <= 255,
    ;
    Rgb {
        r: ((color.r as u16 * brightness as u16) / 100) as u8,
        g: ((color.g as u16 * brightness as u16) / 100) as u8,
        b: ((color.b as u16 * brightness as u16) / 100) as u8,
    }
}

/// The brightness that the light shows: its brightness when on, else 0.
pub open spec fn shown_brightness(s: State) -> u8 {
    if s.enabled {
        s.brightness
    } else {
        0
    }
}

/// The color that the zones are set to for state `s`.
pub open spec fn shown_color(s: State) -> Rgb {
    scaled_color(s.color, shown_brightness(s))
}

/// The color that the zones are set to for `state`.
pub fn applied_color(state: &State) -> (r: Rgb)
    ensures
        r == shown_color(*state),
{
    let brightness = if state.enabled {
        state.brightness
    } else {
        0
    };
    scale_color(state.color, brightness)
}

/// At brightness up to 100 a channel is `value * brightness / 100`: never
/// more than the channel itself, all of it at 100, nothing at 0.
pub proof fn lemma_scaled(value: u8, brightness: u8)
    requires
        brightness <= 100,
    ensures
        scaled(value, brightness) == value * brightness / 100,
        scaled(value, brightness) <= value,
        brightness == 100 ==> scaled(value, brightness) == value,
        brightness == 0 ==> scaled(value, brightness) == 0,
{
    assert(value * brightness <= value * 100) by (nonlinear_arith)
        requires
            brightness <= 100,
    ;
    assert(value * brightness / 100 <= value) by (nonlinear_arith)
        requires
            value * brightness <= value * 100,
    ;
    assert(value as u16 * brightness as u16 == value * brightness) by (nonlinear_arith)
        requires
            value <= 255,
            brightness <= 100,
    ;
}

/// A light that is off shows black.
pub proof fn lemma_off_is_black(s: State)
    requires
        !s.enabled,
    ensures
        shown_color(s) == (Rgb { r: 0, g: 0, b: 0 }),
{
    lemma_scaled(s.color.r, 0);
    lemma_scaled(s.color.g, 0);
    lemma_scaled(s.color.b, 0);
}

/// The brightness to come back to: the remembered one, but at least 10.
pub open spec fn restored_brightness(s: State) -> u8 {
    if s.last_brightness >= 10 {
        s.last_brightness
    } else {
        10
    }
}

/// Choosing a color: it is set, the light goes on (from brightness 0 it
/// comes back at the remembered brightness, at least 10) and, where a
/// palette position is given, the palette moves to it (modulo the palette's
/// length).
pub open spec fn with_color(s: State, color: Rgb, palette_index: Option<usize>) -> State {
    State {
        color,
        enabled: true,
        brightness: if s.brightness == 0 {
            restored_brightness(s)
        } else {
            s.brightness
        },
        palette_index: match palette_index {
            Some(i) => (i % 8) as usize,
            None => s.palette_index,
        },
        ..s
    }
}

/// The state after choosing `color`.
pub fn set_color(state: State, color: Rgb, palette_index: Option<usize>) -> (r: State)
    ensures
        r == with_color(state, color, palette_index),
{
    let mut s = state;
    s.color = color;
    s.enabled = true;
    if s.brightness == 0 {
        s.brightness = if s.last_brightness >= 10 {
            s.last_brightness
        } else {
            10
        };
    }
    if let Some(index) = palette_index {
        s.palette_index = index % PALETTE_LEN;
    }
    s
}

/// Setting the brightness: a positive one is remembered and switches the
/// light on; 0 switches it off and keeps the remembered brightness.
pub open spec fn with_brightness(s: State, b: u8) -> State {
    if b > 0 {
        State { brightness: b, last_brightness: b, enabled: true, ..s }
    } else {
        State { brightness: 0, enabled: false, ..s }
    }
}

/// The state after setting the brightness to `brightness` percent.
pub fn set_brightness(state: State, brightness: u8) -> (r: State)
    ensures
        r == with_brightness(state, brightness),
{
    let mut s = state;
    s.brightness = brightness;
    if brightness > 0 {
        s.last_brightness = brightness;
        s.enabled = true;
    } else {
        s.enabled = false;
    }
    s
}

/// The brightness that a step starts from: the current one when on, the
/// remembered one when off.
pub open spec fn step_base(s: State) -> int {
    if s.enabled {
        s.brightness as int
    } else {
        s.last_brightness as int
    }
}

/// Stepping the brightness by `delta`: from `step_base`, kept within
/// 0..=100, then set as `with_brightness` does.
pub open spec fn with_brightness_step(s: State, delta: i16) -> State {
    let next = step_base(s) + delta;
    let clamped = if next < 0 {
        0
    } else if next > 100 {
        100
    } else {
        next
    };
    with_brightness(s, clamped as u8)
}

/// The state after stepping the brightness by `delta` percent.
pub fn change_brightness(state: State, delta: i16) -> (r: State)
    requires
        step_base(state) + delta <= i16::MAX,
    ensures
        r == with_brightness_step(state, delta),
{
    let current = if state.enabled {
        state.brightness
    } else {
        state.last_brightness
    };
    let sum: i16 = current as i16 + delta;
    let next: u8 = if sum < 0 {
        0
    } else if sum > 100 {
        100
    } else {
        sum as u8
    };
    set_brightness(state, next)
}

/// Moving to the next palette color: the palette position advances by one
/// around the palette, its color is chosen and the light goes on as
/// `with_color` does.
pub open spec fn with_next_color(s: State) -> State {
    let i = ((s.palette_index + 1) % 8) as usize;
    with_color(s, palette_color(i as int), Some(i))
}

/// The state after moving to the next palette color, and that color's name.
pub fn next_color(state: State) -> (r: (State, &'static str))
    requires
        state.palette_index < usize::MAX,
    ensures
        r.0 == with_next_color(state),
        r.1@ == palette_name(r.0.palette_index as int),
{
    let next_index = (state.palette_index + 1) % PALETTE_LEN;
    let (name, color) = palette_entry(next_index);
    let s = set_color(state, color, Some(next_index));
    (s, name)
}

/// Switching on or off: switching off remembers a positive brightness;
/// switching on from brightness 0 comes back at the remembered brightness,
/// at least 10.
pub open spec fn toggled(s: State) -> State {
    if s.enabled {
        State {
            last_brightness: if s.brightness > 0 {
                s.brightness
            } else {
                s.last_brightness
            },
            enabled: false,
            ..s
        }
    } else {
        State {
            enabled: true,
            brightness: if s.brightness == 0 {
                restored_brightness(s)
            } else {
                s.brightness
            },
            ..s
        }
    }
}

/// The state after switching the light on or off.
pub fn toggle(state: State) -> (r: State)
    ensures
        r == toggled(state),
{
    let mut s = state;
    if s.enabled {
        if s.brightness > 0 {
            s.last_brightness = s.brightness;
        }
        s.enabled = false;
    } else {
        s.enabled = true;
        if s.brightness == 0 {
            s.brightness = if s.last_brightness >= 10 {
                s.last_brightness
            } else {
                10
            };
        }
    }
    s
}

/// Whether a state is one that the tool produces: brightness at most 100,
/// a remembered brightness of 1..=100, and a palette position inside the
/// palette.
pub open spec fn valid_state(s: State) -> bool {
    &&& s.brightness <= 100
    &&& 1 <= s.last_brightness <= 100
    &&& s.palette_index < 8
}

/// Choosing a color sets that color and switches the light on; from
/// brightness 0 it comes back at the remembered brightness, but at least 10,
/// and otherwise keeps its brightness; the remembered brightness is kept; a
/// given palette position is taken modulo 8, and without one the palette
/// position is kept.
pub proof fn lemma_choose_color(s: State, color: Rgb, i: Option<usize>)
    ensures
        with_color(s, color, i).color == color,
        with_color(s, color, i).enabled,
        with_color(s, color, i).last_brightness == s.last_brightness,
        s.brightness == 0 ==> with_color(s, color, i).brightness == (if s.last_brightness >= 10 {
            s.last_brightness
        } else {
            10
        }),
        s.brightness != 0 ==> with_color(s, color, i).brightness == s.brightness,
        i is None ==> with_color(s, color, i).palette_index == s.palette_index,
        i matches Some(n) ==> with_color(s, color, i).palette_index == n % 8,
{
}

/// Switching a light on that is off: it comes back on; from brightness 0 at
/// the remembered brightness, but at least 10; otherwise at its brightness.
/// Switching a light off that is on: it goes off at the same brightness and
/// remembers that brightness when it is positive.
pub proof fn lemma_toggle_on_off(s: State)
    ensures
        toggled(s).enabled == !s.enabled,
        toggled(s).color == s.color,
        toggled(s).palette_index == s.palette_index,
        !s.enabled && s.brightness == 0 ==> toggled(s).brightness == (if s.last_brightness >= 10 {
            s.last_brightness
        } else {
            10
        }),
        !s.enabled && s.brightness != 0 ==> toggled(s).brightness == s.brightness,
        !s.enabled ==> toggled(s).last_brightness == s.last_brightness,
        s.enabled ==> toggled(s).brightness == s.brightness,
        s.enabled && s.brightness > 0 ==> toggled(s).last_brightness == s.brightness,
        s.enabled && s.brightness == 0 ==> toggled(s).last_brightness == s.last_brightness,
{
}

/// Setting the brightness: a positive brightness is shown and remembered
/// and the light is on; 0 switches it off and keeps the remembered one.
pub proof fn lemma_set_brightness(s: State, b: u8)
    ensures
        with_brightness(s, b).brightness == b,
        with_brightness(s, b).enabled == (b > 0),
        b > 0 ==> with_brightness(s, b).last_brightness == b,
        b == 0 ==> with_brightness(s, b).last_brightness == s.last_brightness,
        with_brightness(s, b).color == s.color,
        with_brightness(s, b).palette_index == s.palette_index,
{
}

/// Switching off with `off` and back on with the toggle comes back at the
/// brightness that was set, when that was at least 10.
pub proof fn lemma_off_then_on(s: State, b: u8)
    requires
        10 <= b <= 100,
    ensures
        toggled(with_brightness(with_brightness(s, b), 0)).brightness == b,
        toggled(with_brightness(with_brightness(s, b), 0)).enabled,
{
}

/// Choosing a color after `off` comes back at the brightness that was set,
/// when that was at least 10.
pub proof fn lemma_off_then_color(s: State, b: u8, color: Rgb, i: Option<usize>)
    requires
        10 <= b <= 100,
    ensures
        with_color(with_brightness(with_brightness(s, b), 0), color, i).brightness == b,
{
}

/// A brightness step goes from the current brightness when on and from the
/// remembered one when off, by `delta`, kept within 0..=100; the result is
/// set as a brightness.
pub proof fn lemma_brightness_step(s: State, delta: i16)
    ensures
        ({
            let base: int = if s.enabled {
                s.brightness as int
            } else {
                s.last_brightness as int
            };
            let want: int = if base + delta < 0 {
                0
            } else if base + delta > 100 {
                100
            } else {
                base + delta
            };
            &&& with_brightness_step(s, delta).brightness == want
            &&& with_brightness_step(s, delta).enabled == (want > 0)
            &&& want > 0 ==> with_brightness_step(s, delta).last_brightness == want
            &&& want == 0 ==> with_brightness_step(s, delta).last_brightness == s.last_brightness
        }),
{
}

/// The named colors of the command line are the palette's colors at the
/// palette positions they move to.
pub proof fn lemma_named_colors_in_palette(args: Seq<Seq<char>>)
    ensures
        command_of(args) matches Command::SetColor(c, Some(i)) ==> i < 8 && palette_color(
            i as int,
        ) == c,
{
}

/// Moving to the next color advances the palette position by one around
/// the palette and shows the palette's color there.
pub proof fn lemma_next_color_step(s: State)
    ensures
        with_next_color(s).palette_index == (s.palette_index + 1) % 8,
        with_next_color(s).color == palette_color(((s.palette_index + 1) % 8) as int),
        with_next_color(s).enabled,
{
}

/// Every operation keeps a state valid (setting the brightness, for a
/// brightness of at most 100).
pub proof fn lemma_operations_keep_valid(s: State, color: Rgb, i: Option<usize>, b: u8, delta: i16)
    requires
        valid_state(s),
        b <= 100,
    ensures
        valid_state(initial_state()),
        valid_state(with_color(s, color, i)),
        valid_state(with_brightness(s, b)),
        valid_state(with_brightness_step(s, delta)),
        valid_state(with_next_color(s)),
        valid_state(toggled(s)),
{
}

/// Switching off and on again comes back to the same color and brightness,
/// on, and remembers the brightness it had.
pub proof fn lemma_toggle_twice(s: State)
    requires
        s.enabled,
        s.brightness > 0,
    ensures
        toggled(toggled(s)) == (State { last_brightness: s.brightness, ..s }),
{
}

/// Moving to the next color advances the palette position by one, around
/// the palette.
pub proof fn lemma_next_index(s: State)
    ensures
        with_next_color(s).palette_index == (s.palette_index + 1) % 8,
{
}

/// Eight steps through the palette come back to the same palette position.
pub proof fn lemma_palette_cycle(s: State)
    requires
        s.palette_index < 8,
    ensures
        with_next_color(with_next_color(with_next_color(with_next_color(with_next_color(
            with_next_color(with_next_color(with_next_color(s))),
        ))))).palette_index == s.palette_index,
{
    let s1 = with_next_color(s);
    lemma_next_index(s);
    let s2 = with_next_color(s1);
    lemma_next_index(s1);
    let s3 = with_next_color(s2);
    lemma_next_index(s2);
    let s4 = with_next_color(s3);
    lemma_next_index(s3);
    let s5 = with_next_color(s4);
    lemma_next_index(s4);
    let s6 = with_next_color(s5);
    lemma_next_index(s5);
    let s7 = with_next_color(s6);
    lemma_next_index(s6);
    lemma_next_index(s7);
}

/// One step up and one step down come back to the same brightness, for a
/// light that is on at no more than 100 - `step` percent.
pub proof fn lemma_brightness_up_down(s: State, step: i16)
    requires
        s.enabled,
        0 < step <= 100,
        s.brightness + step <= 100,
    ensures
        with_brightness_step(with_brightness_step(s, step), -step as i16).brightness == s.brightness,
{
}

} // verus!

verus! {

/// The value of the word `w` read as a number of at most `max`.
pub open spec fn read_number(w: Seq<char>, max: nat) -> Option<nat> {
    parse_unsigned(w, max)
}

/// The state that the words of a saved state file give. Four words are the
/// older form `r g b brightness`: the brightness is capped at 100, a
/// brightness of 0 means off with 100 remembered, and the palette starts
/// over. Seven words are `r g b brightness last enabled palette`: the
/// brightness is capped at 100, the remembered one brought into 10..=100,
/// any non-zero `enabled` means on, and the palette position is taken modulo
/// the palette's length. Any other count of words, or a word that does not
/// read as its number, gives the initial state.
pub open spec fn state_of_words(ws: Seq<Seq<char>>) -> State {
    if ws.len() == 4 {
        let r = read_number(ws[0], 255);
        let g = read_number(ws[1], 255);
        let b = read_number(ws[2], 255);
        let br = read_number(ws[3], 255);
        if r is Some && g is Some && b is Some && br is Some {
            let brightness = if br->0 > 100 {
                100
            } else {
                br->0
            };
            State {
                color: Rgb { r: r->0 as u8, g: g->0 as u8, b: b->0 as u8 },
                brightness: brightness as u8,
                last_brightness: if brightness == 0 {
                    100
                } else {
                    brightness as u8
                },
                enabled: brightness != 0,
                palette_index: 0,
            }
        } else {
            initial_state()
        }
    } else if ws.len() == 7 {
        let r = read_number(ws[0], 255);
        let g = read_number(ws[1], 255);
        let b = read_number(ws[2], 255);
        let br = read_number(ws[3], 255);
        let last = read_number(ws[4], 255);
        let on = read_number(ws[5], 255);
        let idx = read_number(ws[6], usize::MAX as nat);
        if r is Some && g is Some && b is Some && br is Some && last is Some && on is Some
            && idx is Some {
            State {
                color: Rgb { r: r->0 as u8, g: g->0 as u8, b: b->0 as u8 },
                brightness: if br->0 > 100 {
                    100
                } else {
                    br->0 as u8
                },
                last_brightness: if last->0 > 100 {
                    100
                } else if last->0 < 10 {
                    10
                } else {
                    last->0 as u8
                },
                enabled: on->0 != 0,
                palette_index: (idx->0 % 8) as usize,
            }
        } else {
            initial_state()
        }
    } else {
        initial_state()
    }
}

/// The state that the text of a saved state file gives.
pub open spec fn state_of_text(content: Seq<char>) -> State {
    state_of_words(words(content))
}

/// Reads the word `w` as a number of at most 255.
fn read_u8(w: &Vec<char>) -> (r: Option<u8>)
    ensures
        r is Some <==> read_number(w@, 255) is Some,
        r matches Some(x) ==> x == read_number(w@, 255)->0,
{
    match parse_unsigned_chars(w, 255) {
        Some(n) => Some(n as u8),
        None => None,
    }
}

/// The state that the text of a saved state file gives.
pub fn parse_state(content: &str) -> (s: State)
    ensures
        s == state_of_text(content@),
{
    let ws = words_of(&chars_of(content));
    let ghost v = ws@.map_values(|w: Vec<char>| w@);
    assert(v.len() == ws@.len());
    if ws.len() == 4 {
        assert(v[0] == ws@[0]@ && v[1] == ws@[1]@ && v[2] == ws@[2]@ && v[3] == ws@[3]@);
        let (r, g, b, br) = match (read_u8(&ws[0]), read_u8(&ws[1]), read_u8(&ws[2]), read_u8(&ws[3])) {
            (Some(r), Some(g), Some(b), Some(br)) => (r, g, b, br),
            _ => return default_state(),
        };
        let brightness = if br > 100 {
            100
        } else {
            br
        };
        return State {
            color: Rgb { r, g, b },
            brightness,
            last_brightness: if brightness == 0 {
                100
            } else {
                brightness
            },
            enabled: brightness != 0,
            palette_index: 0,
        };
    }
    if ws.len() != 7 {
        return default_state();
    }
    assert(v[0] == ws@[0]@ && v[1] == ws@[1]@ && v[2] == ws@[2]@ && v[3] == ws@[3]@);
    assert(v[4] == ws@[4]@ && v[5] == ws@[5]@ && v[6] == ws@[6]@);
    let (r, g, b, br, last, on) = match (
        read_u8(&ws[0]),
        read_u8(&ws[1]),
        read_u8(&ws[2]),
        read_u8(&ws[3]),
        read_u8(&ws[4]),
        read_u8(&ws[5]),
    ) {
        (Some(r), Some(g), Some(b), Some(br), Some(last), Some(on)) => (r, g, b, br, last, on),
        _ => return default_state(),
    };
    let idx = match parse_unsigned_chars(&ws[6], usize::MAX as u64) {
        Some(i) => i as usize,
        None => return default_state(),
    };
    State {
        color: Rgb { r, g, b },
        brightness: if br > 100 {
            100
        } else {
            br
        },
        last_brightness: if last > 100 {
            100
        } else if last < 10 {
            10
        } else {
            last
        },
        enabled: on != 0,
        palette_index: idx % PALETTE_LEN,
    }
}

/// The words in which a state is saved: `r g b brightness last enabled
/// palette`, with `enabled` as 1 or 0.
pub open spec fn state_words(s: State) -> Seq<Seq<char>> {
    seq![
        decimal(s.color.r as nat),
        decimal(s.color.g as nat),
        decimal(s.color.b as nat),
        decimal(s.brightness as nat),
        decimal(s.last_brightness as nat),
        decimal(if s.enabled { 1 } else { 0 }),
        decimal(s.palette_index as nat),
    ]
}

/// The text of the saved state file for `s`: its words separated by spaces,
/// ending in a line break.
pub open spec fn state_text(s: State) -> Seq<char> {
    join_char(state_words(s), ' ').push('\n')
}

/// The text of the saved state file for `state`.
pub fn format_state(state: &State) -> (r: String)
    ensures
        r@ == state_text(*state),
{
    let mut ws: Vec<Vec<char>> = Vec::new();
    ws.push(decimal_chars(state.color.r as u64));
    ws.push(decimal_chars(state.color.g as u64));
    ws.push(decimal_chars(state.color.b as u64));
    ws.push(decimal_chars(state.brightness as u64));
    ws.push(decimal_chars(state.last_brightness as u64));
    ws.push(decimal_chars(if state.enabled { 1 } else { 0 }));
    ws.push(decimal_chars(state.palette_index as u64));
    assert(ws@.map_values(|w: Vec<char>| w@) =~= state_words(*state));
    let mut t = join_chars(&ws, ' ');
    t.push('\n');
    string_of(&t)
}

/// Whether the saved file keeps `s` as it is: a brightness of at most 100,
/// a remembered brightness of 10..=100, and a palette position inside the
/// palette.
pub open spec fn keeps_state(s: State) -> bool {
    &&& s.brightness <= 100
    &&& 10 <= s.last_brightness <= 100
    &&& s.palette_index < 8
}

/// A decimal number is a word.
proof fn lemma_decimal_word(n: nat)
    ensures
        is_word(decimal(n)),
{
    lemma_decimal(n);
    assert forall|i: int| 0 <= i < decimal(n).len() implies !crate::text::is_white_space(
        #[trigger] decimal(n)[i],
    ) by {
        assert(crate::decimal::is_digit(decimal(n)[i]));
    }
}

/// Saving a state and reading it back gives the same state, for a state
/// that the file keeps (a remembered brightness under 10 is read back as 10).
pub proof fn lemma_state_round_trip(s: State)
    requires
        keeps_state(s),
    ensures
        state_of_text(state_text(s)) == s,
{
    let ws = state_words(s);
    lemma_decimal_word(s.color.r as nat);
    lemma_decimal_word(s.color.g as nat);
    lemma_decimal_word(s.color.b as nat);
    lemma_decimal_word(s.brightness as nat);
    lemma_decimal_word(s.last_brightness as nat);
    lemma_decimal_word(if s.enabled { 1 } else { 0 });
    lemma_decimal_word(s.palette_index as nat);
    assert forall|i: int| 0 <= i < ws.len() implies is_word(#[trigger] ws[i]) by {
        assert(i == 0 || i == 1 || i == 2 || i == 3 || i == 4 || i == 5 || i == 6);
    }
    lemma_words_join(ws);
    lemma_parse_decimal(s.color.r as nat, 255);
    lemma_parse_decimal(s.color.g as nat, 255);
    lemma_parse_decimal(s.color.b as nat, 255);
    lemma_parse_decimal(s.brightness as nat, 255);
    lemma_parse_decimal(s.last_brightness as nat, 255);
    lemma_parse_decimal(if s.enabled { 1 } else { 0 }, 255);
    lemma_parse_decimal(s.palette_index as nat, usize::MAX as nat);
}

/// Every state read from a saved file is a valid one.
pub proof fn lemma_read_state_valid(content: Seq<char>)
    ensures
        valid_state(state_of_text(content)),
{
}

/// The hexadecimal digit of `d`, in upper case.
pub open spec fn hex_digit(d: nat) -> char {
    if d < 10 {
        (d + 48) as char
    } else {
        (d + 55) as char
    }
}

/// The two upper-case hexadecimal digits of `n`.
pub open spec fn hex2(n: u8) -> Seq<char> {
    seq![hex_digit((n / 16) as nat), hex_digit((n % 16) as nat)]
}

/// The embedded-controller call that sets zone `zone` to `c`:
/// `\_SB.PC00.LPCB.EC.ECMD {0x05, 0x00, 0xCA, 0xZZ, 0xBB, 0xRR, 0xGG, 0x00}`,
/// with the channels in the order blue, red, green.
pub open spec fn zone_command(zone: u8, c: Rgb) -> Seq<char> {
    "\\_SB.PC00.LPCB.EC.ECMD {0x05, 0x00, 0xCA, 0x"@ + hex2(zone) + ", 0x"@ + hex2(c.b) + ", 0x"@
        + hex2(c.r) + ", 0x"@ + hex2(c.g) + ", 0x00}"@
}

/// The upper-case hexadecimal digit of `d`.
fn hex_digit_char(d: u8) -> (c: char)
    requires
        d < 16,
    ensures
        c == hex_digit(d as nat),
{
    if d < 10 {
        (d + 48) as char
    } else {
        (d + 55) as char
    }
}

/// Appends the two hexadecimal digits of `n`.
fn push_hex2(v: &mut Vec<char>, n: u8)
    ensures
        final(v)@ == old(v)@ + hex2(n),
{
    v.push(hex_digit_char(n / 16));
    v.push(hex_digit_char(n % 16));
    assert(final(v)@ =~= old(v)@ + hex2(n));
}

/// The call that sets zone `zone` of the keyboard to `color`.
pub fn set_zone_raw(zone: u8, color: Rgb) -> (r: String)
    ensures
        r@ == zone_command(zone, color),
{
    let mut v = chars_of("\\_SB.PC00.LPCB.EC.ECMD {0x05, 0x00, 0xCA, 0x");
    push_hex2(&mut v, zone);
    append_str(&mut v, ", 0x");
    push_hex2(&mut v, color.b);
    append_str(&mut v, ", 0x");
    push_hex2(&mut v, color.r);
    append_str(&mut v, ", 0x");
    push_hex2(&mut v, color.g);
    append_str(&mut v, ", 0x00}");
    string_of(&v)
}

/// The embedded-controller codes of the three keyboard zones, left to right.
pub open spec fn zone_codes() -> Seq<u8> {
    seq![3, 4, 5]
}

/// The controller code of zone `number` (1 to 3, left to right), if there is
/// such a zone.
pub fn zone_code(number: u8) -> (r: Option<u8>)
    ensures
        1 <= number <= 3 ==> r == Some(zone_codes()[number - 1]),
        !(1 <= number <= 3) ==> r is None,
{
    if 1 <= number && number <= 3 {
        Some(number + 2)
    } else {
        None
    }
}

/// The calls that show `state` on all three zones, left to right.
pub fn zone_commands(state: &State) -> (r: Vec<String>)
    ensures
        r@.len() == 3,
        forall|i: int| 0 <= i < 3 ==> (#[trigger] r@[i])@ == zone_command(zone_codes()[i], shown_color(*state)),
{
    let color = applied_color(state);
    let mut r: Vec<String> = Vec::new();
    r.push(set_zone_raw(3, color));
    r.push(set_zone_raw(4, color));
    r.push(set_zone_raw(5, color));
    r
}

} // verus!

verus! {

/// What the command line asks of the backlight tool.
#[derive(Debug, Clone, Copy, PartialEq, Eq, Structural)]
pub enum Command {
    /// Choose a color, and where given a palette position.
    SetColor(Rgb, Option<usize>),
    /// Set the brightness in percent.
    SetBrightness(u8),
    /// Set one zone (by controller code) to a color, leaving the state alone.
    Zone(u8, Rgb),
    /// Move to the next palette color.
    Next,
    /// Switch on or off.
    Toggle,
    /// Step the brightness.
    ChangeBrightness(i16),
    /// Show the state.
    Status,
    /// The argument at this position is not a number of 0..=255.
    InvalidValue(usize),
    /// A brightness above 100.
    InvalidBrightness(u8),
    /// A zone number other than 1, 2 or 3.
    InvalidZone(u8),
    /// Anything else: show how to call the tool.
    Usage,
}

/// The argument at `i` read as a number of 0..=255.
pub open spec fn arg_u8(args: Seq<Seq<char>>, i: int) -> Option<u8> {
    match read_number(args[i], 255) {
        Some(n) => Some(n as u8),
        None => None,
    }
}

/// `rgb <r> <g> <b>`: the color, or the first argument that is not a number
/// of 0..=255.
pub open spec fn rgb_command(args: Seq<Seq<char>>) -> Command {
    if arg_u8(args, 2) is None {
        Command::InvalidValue(2)
    } else if arg_u8(args, 3) is None {
        Command::InvalidValue(3)
    } else if arg_u8(args, 4) is None {
        Command::InvalidValue(4)
    } else {
        Command::SetColor(
            Rgb { r: arg_u8(args, 2)->0, g: arg_u8(args, 3)->0, b: arg_u8(args, 4)->0 },
            None,
        )
    }
}

/// `zone <1|2|3> <r> <g> <b>`: the zone's controller code and the color, or
/// the first problem: a zone that is not a number, not 1..=3, or a channel
/// that is not a number of 0..=255.
pub open spec fn zone_command_of(args: Seq<Seq<char>>) -> Command {
    if arg_u8(args, 2) is None {
        Command::InvalidValue(2)
    } else if !(1 <= arg_u8(args, 2)->0 <= 3) {
        Command::InvalidZone(arg_u8(args, 2)->0)
    } else if arg_u8(args, 3) is None {
        Command::InvalidValue(3)
    } else if arg_u8(args, 4) is None {
        Command::InvalidValue(4)
    } else if arg_u8(args, 5) is None {
        Command::InvalidValue(5)
    } else {
        Command::Zone(
            zone_codes()[arg_u8(args, 2)->0 - 1],
            Rgb { r: arg_u8(args, 3)->0, g: arg_u8(args, 4)->0, b: arg_u8(args, 5)->0 },
        )
    }
}

/// `brightness <0..100>`: the brightness, or why it is refused.
pub open spec fn brightness_command(args: Seq<Seq<char>>) -> Command {
    if arg_u8(args, 2) is None {
        Command::InvalidValue(2)
    } else if arg_u8(args, 2)->0 > 100 {
        Command::InvalidBrightness(arg_u8(args, 2)->0)
    } else {
        Command::SetBrightness(arg_u8(args, 2)->0)
    }
}

/// What the arguments `args` (with the program name first) ask for.
pub open spec fn command_of(args: Seq<Seq<char>>) -> Command {
    if args.len() < 2 {
        Command::Usage
    } else {
        let a = args[1];
        if a == "red"@ {
            Command::SetColor(Rgb { r: 255, g: 0, b: 0 }, Some(2))
        } else if a == "green"@ {
            Command::SetColor(Rgb { r: 0, g: 255, b: 0 }, Some(3))
        } else if a == "blue"@ {
            Command::SetColor(Rgb { r: 0, g: 0, b: 255 }, Some(1))
        } else if a == "white"@ {
            Command::SetColor(Rgb { r: 255, g: 255, b: 255 }, Some(0))
        } else if a == "off"@ {
            Command::SetBrightness(0)
        } else if a == "rgb"@ && args.len() == 5 {
            rgb_command(args)
        } else if a == "zone"@ && args.len() == 6 {
            zone_command_of(args)
        } else if a == "next"@ {
            Command::Next
        } else if a == "toggle"@ {
            Command::Toggle
        } else if a == "brightness"@ && args.len() == 3 {
            brightness_command(args)
        } else if a == "brightness-up"@ {
            Command::ChangeBrightness(10)
        } else if a == "brightness-down"@ {
            Command::ChangeBrightness(-10i16)
        } else if a == "status"@ {
            Command::Status
        } else {
            Command::Usage
        }
    }
}

/// The argument at `i` read as a number of 0..=255.
fn read_arg(args: &Vec<Vec<char>>, i: usize) -> (r: Option<u8>)
    requires
        i < args@.len(),
    ensures
        r == arg_u8(args@.map_values(|w: Vec<char>| w@), i as int),
{
    let ghost v = args@.map_values(|w: Vec<char>| w@);
    assert(v[i as int] == args@[i as int]@);
    match read_u8(&args[i]) {
        Some(n) => Some(n),
        None => None,
    }
}

/// What the command-line arguments `args` (with the program name first)
/// ask for.
pub fn parse_command(args: &Vec<String>) -> (c: Command)
    ensures
        c == command_of(args@.map_values(|s: String| s@)),
{
    let mut a: Vec<Vec<char>> = Vec::new();
    for i in 0..args.len()
        invariant
            a@.map_values(|w: Vec<char>| w@) == args@.take(i as int).map_values(|s: String| s@),
    {
        let ghost a0 = a@.map_values(|w: Vec<char>| w@);
        let w = chars_of(args[i].as_str());
        assert(w@ == args@[i as int]@);
        a.push(w);
        assert(a@.map_values(|w: Vec<char>| w@) =~= a0.push(w@));
        assert(args@.take(i + 1).map_values(|s: String| s@) =~= args@.take(i as int).map_values(
            |s: String| s@,
        ).push(args@[i as int]@));
    }
    assert(args@.take(args@.len() as int) =~= args@);
    let ghost v = a@.map_values(|w: Vec<char>| w@);
    let n = a.len();
    if n < 2 {
        return Command::Usage;
    }
    let first = &a[1];
    assert(v[1] == first@);
    if is_str(first, "red") {
        Command::SetColor(Rgb { r: 255, g: 0, b: 0 }, Some(2))
    } else if is_str(first, "green") {
        Command::SetColor(Rgb { r: 0, g: 255, b: 0 }, Some(3))
    } else if is_str(first, "blue") {
        Command::SetColor(Rgb { r: 0, g: 0, b: 255 }, Some(1))
    } else if is_str(first, "white") {
        Command::SetColor(Rgb { r: 255, g: 255, b: 255 }, Some(0))
    } else if is_str(first, "off") {
        Command::SetBrightness(0)
    } else if is_str(first, "rgb") && n == 5 {
        let r = match read_arg(&a, 2) {
            Some(x) => x,
            None => return Command::InvalidValue(2),
        };
        let g = match read_arg(&a, 3) {
            Some(x) => x,
            None => return Command::InvalidValue(3),
        };
        let b = match read_arg(&a, 4) {
            Some(x) => x,
            None => return Command::InvalidValue(4),
        };
        Command::SetColor(Rgb { r, g, b }, None)
    } else if is_str(first, "zone") && n == 6 {
        let number = match read_arg(&a, 2) {
            Some(x) => x,
            None => return Command::InvalidValue(2),
        };
        let zone = match zone_code(number) {
            Some(z) => z,
            None => return Command::InvalidZone(number),
        };
        let r = match read_arg(&a, 3) {
            Some(x) => x,
            None => return Command::InvalidValue(3),
        };
        let g = match read_arg(&a, 4) {
            Some(x) => x,
            None => return Command::InvalidValue(4),
        };
        let b = match read_arg(&a, 5) {
            Some(x) => x,
            None => return Command::InvalidValue(5),
        };
        Command::Zone(zone, Rgb { r, g, b })
    } else if is_str(first, "next") {
        Command::Next
    } else if is_str(first, "toggle") {
        Command::Toggle
    } else if is_str(first, "brightness") && n == 3 {
        let value = match read_arg(&a, 2) {
            Some(x) => x,
            None => return Command::InvalidValue(2),
        };
        if value > 100 {
            Command::InvalidBrightness(value)
        } else {
            Command::SetBrightness(value)
        }
    } else if is_str(first, "brightness-up") {
        Command::ChangeBrightness(10)
    } else if is_str(first, "brightness-down") {
        Command::ChangeBrightness(-10)
    } else if is_str(first, "status") {
        Command::Status
    } else {
        Command::Usage
    }
}

} // verus!
