//! Recording a hotkey from the keyboard: the keys held while recording and
//! the combination that the last key press makes.

use vstd::prelude::*;
use std::collections::BTreeSet;
use crate::combo::{combo_chars, combo_text, KeyCombo};
use crate::keys::{
    is_modifier, is_modifier_code, KEY_LEFTALT, KEY_LEFTCTRL, KEY_LEFTMETA, KEY_LEFTSHIFT,
    KEY_RIGHTALT, KEY_RIGHTCTRL, KEY_RIGHTMETA, KEY_RIGHTSHIFT,
};
use crate::text::string_of;

verus! {

/// What is known while recording: the modifiers held, the other keys held,
/// and the last combination recorded.
#[derive(Debug)]
pub struct CaptureState {
    pub ctrl: bool,
    pub alt: bool,
    pub shift: bool,
    pub meta: bool,
    pub pressed_non_mods: BTreeSet<u16>,
    pub last_combo: Option<String>,
}

/// The recording state with the keys held as a set and the combination as
/// text.
pub struct CaptureView {
    pub ctrl: bool,
    pub alt: bool,
    pub shift: bool,
    pub meta: bool,
    pub pressed: Set<u16>,
    pub last_combo: Option<Seq<char>>,
}

impl View for CaptureState {
    type V = CaptureView;

    open spec fn view(&self) -> CaptureView {
        CaptureView {
            ctrl: self.ctrl,
            alt: self.alt,
            shift: self.shift,
            meta: self.meta,
            pressed: self.pressed_non_mods@,
            last_combo: match self.last_combo {
                Some(s) => Some(s@),
                None => None,
            },
        }
    }
}

/// Nothing held and nothing recorded.
pub open spec fn empty_capture() -> CaptureView {
    CaptureView {
        ctrl: false,
        alt: false,
        shift: false,
        meta: false,
        pressed: Set::empty(),
        last_combo: None,
    }
}

impl Default for CaptureState {
    fn default() -> (r: Self)
        ensures
            r@ == empty_capture(),
    {
        CaptureState {
            ctrl: false,
            alt: false,
            shift: false,
            meta: false,
            pressed_non_mods: BTreeSet::new(),
            last_combo: None,
        }
    }
}

/// The recording state after a key event: a modifier is held while its value
/// is not 0; another key is added to the held keys on a press (1) and taken
/// out on a release (0); repeats change nothing.
pub open spec fn capture_after(s: CaptureView, code: u16, value: i32) -> CaptureView {
    let held = value != 0;
    if code == KEY_LEFTCTRL || code == KEY_RIGHTCTRL {
        CaptureView { ctrl: held, ..s }
    } else if code == KEY_LEFTALT || code == KEY_RIGHTALT {
        CaptureView { alt: held, ..s }
    } else if code == KEY_LEFTSHIFT || code == KEY_RIGHTSHIFT {
        CaptureView { shift: held, ..s }
    } else if code == KEY_LEFTMETA || code == KEY_RIGHTMETA {
        CaptureView { meta: held, ..s }
    } else if value == 1 {
        CaptureView { pressed: s.pressed.insert(code), ..s }
    } else if value == 0 {
        CaptureView { pressed: s.pressed.remove(code), ..s }
    } else {
        s
    }
}

/// Records a key event in the recording state.
pub fn update_capture_state(state: &mut CaptureState, code: u16, value: i32)
    ensures
        final(state)@ == capture_after(old(state)@, code, value),
{
    broadcast use vstd::laws_cmp::group_laws_cmp, vstd::std_specs::btree::group_btree_axioms;

    let pressed = value != 0;
    match code {
        KEY_LEFTCTRL | KEY_RIGHTCTRL => state.ctrl = pressed,
        KEY_LEFTALT | KEY_RIGHTALT => state.alt = pressed,
        KEY_LEFTSHIFT | KEY_RIGHTSHIFT => state.shift = pressed,
        KEY_LEFTMETA | KEY_RIGHTMETA => state.meta = pressed,
        _ => {
            if value == 1 {
                state.pressed_non_mods.insert(code);
            } else if value == 0 {
                state.pressed_non_mods.remove(&code);
            }
        },
    }
}

/// The combination of the modifiers held in `s` with the key `key_code`.
pub open spec fn held_combo(s: CaptureView, key_code: u16) -> KeyCombo {
    KeyCombo { ctrl: s.ctrl, alt: s.alt, shift: s.shift, meta: s.meta, key_code }
}

/// The text of the combination of the held modifiers with `key_code`, such
/// as `ctrl+alt+k`.
pub fn build_combo_from_state(state: &CaptureState, key_code: u16) -> (r: String)
    ensures
        r@ == combo_text(held_combo(state@, key_code)),
{
    let combo = KeyCombo {
        ctrl: state.ctrl,
        alt: state.alt,
        shift: state.shift,
        meta: state.meta,
        key_code,
    };
    string_of(&combo_chars(&combo))
}

/// A key event while recording: it updates the state, and a press (1) of a
/// key that is not a modifier records the combination it makes, which is
/// returned as the new candidate.
pub fn capture_key_event(state: &mut CaptureState, code: u16, value: i32) -> (r: Option<String>)
    ensures
        final(state)@.pressed == capture_after(old(state)@, code, value).pressed,
        final(state)@.ctrl == capture_after(old(state)@, code, value).ctrl,
        final(state)@.alt == capture_after(old(state)@, code, value).alt,
        final(state)@.shift == capture_after(old(state)@, code, value).shift,
        final(state)@.meta == capture_after(old(state)@, code, value).meta,
        value == 1 && !is_modifier_code(code) ==> {
            let text = combo_text(held_combo(capture_after(old(state)@, code, value), code));
            &&& r matches Some(t) && t@ == text
            &&& final(state)@.last_combo == Some(text)
        },
        !(value == 1 && !is_modifier_code(code)) ==> r is None && final(state)@.last_combo == old(
            state,
        )@.last_combo,
{
    update_capture_state(state, code, value);
    if value == 1 && !is_modifier(code) {
        let combo = build_combo_from_state(state, code);
        state.last_combo = Some(combo.clone());
        Some(combo)
    } else {
        None
    }
}

/// What recording does when no key event came for a while.
#[derive(Debug)]
pub enum CaptureIdle {
    /// Keep waiting.
    Wait,
    /// Recording is over; this combination is kept.
    Save(String),
    /// Recording is over, but no key other than a modifier was pressed.
    NothingCaptured,
}

/// How long the keyboard must stay quiet after the last key event before
/// recording ends, in milliseconds.
pub const QUIET_MS: u64 = 2000;

/// How long recording may last at most, in milliseconds.
pub const CAPTURE_LIMIT_MS: u64 = 30000;

/// When no key event came for a while: before any event, or while the last
/// event is less than two seconds old, keep waiting; afterwards keep the last
/// recorded combination, if there is one.
pub fn capture_idle(state: &CaptureState, quiet_ms: Option<u64>) -> (r: CaptureIdle)
    ensures
        (quiet_ms is None || quiet_ms->0 < QUIET_MS) ==> r is Wait,
        quiet_ms matches Some(q) && q >= QUIET_MS ==> match state@.last_combo {
            Some(t) => r matches CaptureIdle::Save(s) && s@ == t,
            None => r is NothingCaptured,
        },
{
    let quiet = match quiet_ms {
        Some(q) => q,
        None => return CaptureIdle::Wait,
    };
    if quiet < QUIET_MS {
        return CaptureIdle::Wait;
    }
    match &state.last_combo {
        Some(combo) => CaptureIdle::Save(combo.clone()),
        None => CaptureIdle::NothingCaptured,
    }
}

/// Whether recording has gone on for longer than it may.
pub fn capture_timed_out(elapsed_ms: u64) -> (r: bool)
    ensures
        r == (elapsed_ms > CAPTURE_LIMIT_MS),
{
    elapsed_ms > CAPTURE_LIMIT_MS
}

/// While recording, each modifier key, left (codes 29, 56, 42, 125) or
/// right (97, 100, 54, 126), makes its modifier held exactly while its value
/// is not 0 and changes nothing else; any other key is added to the held
/// keys on a press (1), taken out on a release (0), and a repeat changes
/// nothing; other keys leave the modifiers alone.
pub proof fn lemma_capture_keys(s: CaptureView, code: u16, v: i32)
    ensures
        capture_after(s, 29, v).ctrl == (v != 0),
        capture_after(s, 29, v).alt == s.alt,
        capture_after(s, 29, v).shift == s.shift,
        capture_after(s, 29, v).meta == s.meta,
        capture_after(s, 29, v).pressed == s.pressed,
        capture_after(s, 97, v).ctrl == (v != 0),
        capture_after(s, 97, v).alt == s.alt,
        capture_after(s, 97, v).shift == s.shift,
        capture_after(s, 97, v).meta == s.meta,
        capture_after(s, 97, v).pressed == s.pressed,
        capture_after(s, 56, v).alt == (v != 0),
        capture_after(s, 56, v).ctrl == s.ctrl,
        capture_after(s, 56, v).shift == s.shift,
        capture_after(s, 56, v).meta == s.meta,
        capture_after(s, 56, v).pressed == s.pressed,
        capture_after(s, 100, v).alt == (v != 0),
        capture_after(s, 100, v).ctrl == s.ctrl,
        capture_after(s, 100, v).shift == s.shift,
        capture_after(s, 100, v).meta == s.meta,
        capture_after(s, 100, v).pressed == s.pressed,
        capture_after(s, 42, v).shift == (v != 0),
        capture_after(s, 42, v).ctrl == s.ctrl,
        capture_after(s, 42, v).alt == s.alt,
        capture_after(s, 42, v).meta == s.meta,
        capture_after(s, 42, v).pressed == s.pressed,
        capture_after(s, 54, v).shift == (v != 0),
        capture_after(s, 54, v).ctrl == s.ctrl,
        capture_after(s, 54, v).alt == s.alt,
        capture_after(s, 54, v).meta == s.meta,
        capture_after(s, 54, v).pressed == s.pressed,
        capture_after(s, 125, v).meta == (v != 0),
        capture_after(s, 125, v).ctrl == s.ctrl,
        capture_after(s, 125, v).alt == s.alt,
        capture_after(s, 125, v).shift == s.shift,
        capture_after(s, 125, v).pressed == s.pressed,
        capture_after(s, 126, v).meta == (v != 0),
        capture_after(s, 126, v).ctrl == s.ctrl,
        capture_after(s, 126, v).alt == s.alt,
        capture_after(s, 126, v).shift == s.shift,
        capture_after(s, 126, v).pressed == s.pressed,
        !is_modifier_code(code) ==> capture_after(s, code, v).ctrl == s.ctrl && capture_after(
            s,
            code,
            v,
        ).alt == s.alt && capture_after(s, code, v).shift == s.shift && capture_after(
            s,
            code,
            v,
        ).meta == s.meta,
        !is_modifier_code(code) && v == 1 ==> capture_after(s, code, v).pressed == s.pressed.insert(
            code,
        ),
        !is_modifier_code(code) && v == 0 ==> capture_after(s, code, v).pressed == s.pressed.remove(
            code,
        ),
        !is_modifier_code(code) && v != 0 && v != 1 ==> capture_after(s, code, v).pressed
            == s.pressed,
{
}

/// A recorded combination reads back, in the daemon, as the modifiers that
/// were held with the key that was pressed.
pub proof fn lemma_capture_reads_back(s: CaptureView, key_code: u16)
    requires
        key_code != 0,
    ensures
        crate::combo::combo_of_text(combo_text(held_combo(s, key_code))) == Some(held_combo(s, key_code)),
{
    crate::combo::lemma_combo_round_trip(held_combo(s, key_code));
}

} // verus!
