//! The line format of the hotkey daemon's configuration file: `key=value`
//! lines, blank lines and `#` comments.

use vstd::prelude::*;
use crate::text::{
    find_char, first_index, lemma_trim_end_prefix, lemma_trim_fixed, lemma_trim_id,
    sub_chars, trim, trim_chars, trim_start,
};

verus! {

/// The key and the value that a line of the file sets. After trimming, a
/// line that is empty, starts with `#` or holds no `=` sets nothing;
/// otherwise the key is the trimmed text before the first `=` and the value
/// the trimmed text after it.
pub open spec fn setting_of_line(raw: Seq<char>) -> Option<(Seq<char>, Seq<char>)> {
    let line = trim(raw);
    if line.len() == 0 || line[0] == '#' {
        None
    } else {
        match first_index(line, '=') {
            Some(i) => Some((trim(line.take(i)), trim(line.skip(i + 1)))),
            None => None,
        }
    }
}

/// The key and the value that the line `raw` sets, if any.
pub fn setting_line(raw: &Vec<char>) -> (r: Option<(Vec<char>, Vec<char>)>)
    ensures
        match r {
            Some((k, v)) => setting_of_line(raw@) == Some((k@, v@)),
            None => setting_of_line(raw@) is None,
        },
{
    let line = trim_chars(raw);
    if line.len() == 0 || line[0] == '#' {
        return None;
    }
    match find_char(&line, '=') {
        Some(i) => {
            let k = trim_chars(&sub_chars(&line, 0, i));
            let v = trim_chars(&sub_chars(&line, i + 1, line.len()));
            assert(line@.subrange(0, i as int) == line@.take(i as int));
            assert(line@.subrange(i + 1, line@.len() as int) == line@.skip(i + 1));
            Some((k, v))
        },
        None => None,
    }
}

/// `v` brought into the range `lo..=hi`, as `Ord::clamp` does.
pub open spec fn clamped(v: nat, lo: nat, hi: nat) -> nat {
    if v < lo {
        lo
    } else if v > hi {
        hi
    } else {
        v
    }
}

/// `v` brought into the range `lo..=hi`.
pub fn clamp_u64(v: u64, lo: u64, hi: u64) -> (r: u64)
    requires
        lo <= hi,
    ensures
        r == clamped(v as nat, lo as nat, hi as nat),
{
    if v < lo {
        lo
    } else if v > hi {
        hi
    } else {
        v
    }
}

/// What the setting names spell, character by character.
pub proof fn lemma_setting_keys()
    ensures
        "rgb_hold_delay_ms"@.len() == 17,
        "rgb_hold_delay_ms"@[0] == 'r',
        "rgb_hold_delay_ms"@[1] == 'g',
        "rgb_hold_delay_ms"@[2] == 'b',
        "rgb_hold_delay_ms"@[3] == '_',
        "rgb_hold_delay_ms"@[4] == 'h',
        "rgb_hold_delay_ms"@[5] == 'o',
        "rgb_hold_delay_ms"@[6] == 'l',
        "rgb_hold_delay_ms"@[7] == 'd',
        "rgb_hold_delay_ms"@[8] == '_',
        "rgb_hold_delay_ms"@[9] == 'd',
        "rgb_hold_delay_ms"@[10] == 'e',
        "rgb_hold_delay_ms"@[11] == 'l',
        "rgb_hold_delay_ms"@[12] == 'a',
        "rgb_hold_delay_ms"@[13] == 'y',
        "rgb_hold_delay_ms"@[14] == '_',
        "rgb_hold_delay_ms"@[15] == 'm',
        "rgb_hold_delay_ms"@[16] == 's',
        "rgb_step_delay_ms"@.len() == 17,
        "rgb_step_delay_ms"@[0] == 'r',
        "rgb_step_delay_ms"@[1] == 'g',
        "rgb_step_delay_ms"@[2] == 'b',
        "rgb_step_delay_ms"@[3] == '_',
        "rgb_step_delay_ms"@[4] == 's',
        "rgb_step_delay_ms"@[5] == 't',
        "rgb_step_delay_ms"@[6] == 'e',
        "rgb_step_delay_ms"@[7] == 'p',
        "rgb_step_delay_ms"@[8] == '_',
        "rgb_step_delay_ms"@[9] == 'd',
        "rgb_step_delay_ms"@[10] == 'e',
        "rgb_step_delay_ms"@[11] == 'l',
        "rgb_step_delay_ms"@[12] == 'a',
        "rgb_step_delay_ms"@[13] == 'y',
        "rgb_step_delay_ms"@[14] == '_',
        "rgb_step_delay_ms"@[15] == 'm',
        "rgb_step_delay_ms"@[16] == 's',
        "rgb_hue_step"@.len() == 12,
        "rgb_hue_step"@[0] == 'r',
        "rgb_hue_step"@[1] == 'g',
        "rgb_hue_step"@[2] == 'b',
        "rgb_hue_step"@[3] == '_',
        "rgb_hue_step"@[4] == 'h',
        "rgb_hue_step"@[5] == 'u',
        "rgb_hue_step"@[6] == 'e',
        "rgb_hue_step"@[7] == '_',
        "rgb_hue_step"@[8] == 's',
        "rgb_hue_step"@[9] == 't',
        "rgb_hue_step"@[10] == 'e',
        "rgb_hue_step"@[11] == 'p',
        "key_color"@.len() == 9,
        "key_color"@[0] == 'k',
        "key_color"@[1] == 'e',
        "key_color"@[2] == 'y',
        "key_color"@[3] == '_',
        "key_color"@[4] == 'c',
        "key_color"@[5] == 'o',
        "key_color"@[6] == 'l',
        "key_color"@[7] == 'o',
        "key_color"@[8] == 'r',
        "key_toggle"@.len() == 10,
        "key_toggle"@[0] == 'k',
        "key_toggle"@[1] == 'e',
        "key_toggle"@[2] == 'y',
        "key_toggle"@[3] == '_',
        "key_toggle"@[4] == 't',
        "key_toggle"@[5] == 'o',
        "key_toggle"@[6] == 'g',
        "key_toggle"@[7] == 'g',
        "key_toggle"@[8] == 'l',
        "key_toggle"@[9] == 'e',
        "key_brightness_down"@.len() == 19,
        "key_brightness_down"@[0] == 'k',
        "key_brightness_down"@[1] == 'e',
        "key_brightness_down"@[2] == 'y',
        "key_brightness_down"@[3] == '_',
        "key_brightness_down"@[4] == 'b',
        "key_brightness_down"@[5] == 'r',
        "key_brightness_down"@[6] == 'i',
        "key_brightness_down"@[7] == 'g',
        "key_brightness_down"@[8] == 'h',
        "key_brightness_down"@[9] == 't',
        "key_brightness_down"@[10] == 'n',
        "key_brightness_down"@[11] == 'e',
        "key_brightness_down"@[12] == 's',
        "key_brightness_down"@[13] == 's',
        "key_brightness_down"@[14] == '_',
        "key_brightness_down"@[15] == 'd',
        "key_brightness_down"@[16] == 'o',
        "key_brightness_down"@[17] == 'w',
        "key_brightness_down"@[18] == 'n',
        "key_brightness_up"@.len() == 17,
        "key_brightness_up"@[0] == 'k',
        "key_brightness_up"@[1] == 'e',
        "key_brightness_up"@[2] == 'y',
        "key_brightness_up"@[3] == '_',
        "key_brightness_up"@[4] == 'b',
        "key_brightness_up"@[5] == 'r',
        "key_brightness_up"@[6] == 'i',
        "key_brightness_up"@[7] == 'g',
        "key_brightness_up"@[8] == 'h',
        "key_brightness_up"@[9] == 't',
        "key_brightness_up"@[10] == 'n',
        "key_brightness_up"@[11] == 'e',
        "key_brightness_up"@[12] == 's',
        "key_brightness_up"@[13] == 's',
        "key_brightness_up"@[14] == '_',
        "key_brightness_up"@[15] == 'u',
        "key_brightness_up"@[16] == 'p',
{
    reveal_strlit("rgb_hold_delay_ms");
    reveal_strlit("rgb_step_delay_ms");
    reveal_strlit("rgb_hue_step");
    reveal_strlit("key_color");
    reveal_strlit("key_toggle");
    reveal_strlit("key_brightness_down");
    reveal_strlit("key_brightness_up");
}

} // verus!

verus! {

/// Whether `c` may stand in a setting name: `a`..`z` or `_`.
pub open spec fn is_key_char(c: char) -> bool {
    97 <= (c as u32) <= 122 || c == '_'
}

/// Whether `k` is a non-empty setting name.
pub open spec fn is_key_word(k: Seq<char>) -> bool {
    k.len() > 0 && forall|i: int| 0 <= i < k.len() ==> is_key_char(#[trigger] k[i])
}

/// Every setting name is made of `a`..`z` and `_`.
pub proof fn lemma_setting_key_chars()
    ensures
        is_key_word("rgb_hold_delay_ms"@),
        is_key_word("rgb_step_delay_ms"@),
        is_key_word("rgb_hue_step"@),
        is_key_word("key_color"@),
        is_key_word("key_toggle"@),
        is_key_word("key_brightness_down"@),
        is_key_word("key_brightness_up"@),
{
    lemma_setting_keys();
    assert forall|i: int| 0 <= i < 17 implies is_key_char(#[trigger] "rgb_hold_delay_ms"@[i]) by {
        assert(i == 0 || i == 1 || i == 2 || i == 3 || i == 4 || i == 5 || i == 6 || i == 7
            || i == 8 || i == 9 || i == 10 || i == 11 || i == 12 || i == 13 || i == 14 || i == 15
            || i == 16);
    }
    assert forall|i: int| 0 <= i < 17 implies is_key_char(#[trigger] "rgb_step_delay_ms"@[i]) by {
        assert(i == 0 || i == 1 || i == 2 || i == 3 || i == 4 || i == 5 || i == 6 || i == 7
            || i == 8 || i == 9 || i == 10 || i == 11 || i == 12 || i == 13 || i == 14 || i == 15
            || i == 16);
    }
    assert forall|i: int| 0 <= i < 12 implies is_key_char(#[trigger] "rgb_hue_step"@[i]) by {
        assert(i == 0 || i == 1 || i == 2 || i == 3 || i == 4 || i == 5 || i == 6 || i == 7
            || i == 8 || i == 9 || i == 10 || i == 11);
    }
    assert forall|i: int| 0 <= i < 9 implies is_key_char(#[trigger] "key_color"@[i]) by {
        assert(i == 0 || i == 1 || i == 2 || i == 3 || i == 4 || i == 5 || i == 6 || i == 7
            || i == 8);
    }
    assert forall|i: int| 0 <= i < 10 implies is_key_char(#[trigger] "key_toggle"@[i]) by {
        assert(i == 0 || i == 1 || i == 2 || i == 3 || i == 4 || i == 5 || i == 6 || i == 7
            || i == 8 || i == 9);
    }
    assert forall|i: int| 0 <= i < 19 implies is_key_char(#[trigger] "key_brightness_down"@[i]) by {
        assert(i == 0 || i == 1 || i == 2 || i == 3 || i == 4 || i == 5 || i == 6 || i == 7
            || i == 8 || i == 9 || i == 10 || i == 11 || i == 12 || i == 13 || i == 14 || i == 15
            || i == 16 || i == 17 || i == 18);
    }
    assert forall|i: int| 0 <= i < 17 implies is_key_char(#[trigger] "key_brightness_up"@[i]) by {
        assert(i == 0 || i == 1 || i == 2 || i == 3 || i == 4 || i == 5 || i == 6 || i == 7
            || i == 8 || i == 9 || i == 10 || i == 11 || i == 12 || i == 13 || i == 14 || i == 15
            || i == 16);
    }
}

/// A line that is empty or starts with `#` sets nothing.
pub proof fn lemma_comment_line(s: Seq<char>)
    requires
        s.len() == 0 || s[0] == '#',
    ensures
        setting_of_line(s) is None,
{
    if s.len() > 0 {
        assert(trim_start(s) == s);
        lemma_trim_end_prefix(s);
        assert(trim(s)[0] == s[0]);
    }
}

/// The line `key=value` sets `key` to `value`, for a key without `=` that is
/// its own trim and does not start with `#`, and a value that is its own trim.
pub proof fn lemma_setting_line(k: Seq<char>, v: Seq<char>)
    requires
        k.len() > 0,
        k[0] != '#',
        trim(k) == k,
        !k.contains('='),
        trim(v) == v,
    ensures
        setting_of_line(k + seq!['='] + v) == Some((k, v)),
{
    let line = k + seq!['='] + v;
    lemma_trim_fixed(k);
    if v.len() > 0 {
        lemma_trim_fixed(v);
        assert(line.last() == v.last());
    } else {
        assert(line.last() == '=');
    }
    assert(line[0] == k[0]);
    lemma_trim_id(line);
    let n = k.len() as int;
    assert(line[n] == '=');
    assert(0 <= n < line.len() && line[n] == '=' && forall|j: int| 0 <= j < n ==> line[j] != '=') by {
        assert forall|j: int| 0 <= j < n implies line[j] != '=' by {
            assert(line[j] == k[j]);
        }
    }
    let i = choose|i: int| 0 <= i < line.len() && line[i] == '=' && forall|j: int| 0 <= j < i ==> line[j] != '=';
    if i < n {
        assert(line[i] == k[i]);
        assert(k.contains('='));
    }
    assert(i == n);
    assert(line.take(n) =~= k);
    assert(line.skip(n + 1) =~= v);
    assert(exists|i: int| 0 <= i < line.len() && line[i] == '=');
    assert(first_index(line, '=') == Some(n));
    assert(trim(line) == line);
}

} // verus!
