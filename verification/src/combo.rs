//! Hotkey combinations: modifiers plus one key, read from and written as
//! text such as `ctrl+alt+slash`.

use vstd::prelude::*;
use crate::keys::{
    is_plain, is_plain_char, key_code_of_name, key_label, key_label_chars, key_name_to_code_chars,
    lemma_key_literals, lemma_label_plain, lemma_label_round_trip, lemma_plain_literals,
};
use crate::text::{
    ascii_lower, all_ascii, chars_of, is_str, join_char, join_chars,
    lemma_join_chars, lemma_join_ends, lemma_split_join, lowercase,
    lowercase_chars, replace_all, replace_chars, split_char, string_of, trim, trim_chars, trim_end, trim_start,
};

verus! {

/// A hotkey: the modifiers that must be held and the key that triggers it.
#[derive(Clone, Copy, Debug, PartialEq, Eq, Structural)]
pub struct KeyCombo {
    pub ctrl: bool,
    pub alt: bool,
    pub shift: bool,
    pub meta: bool,
    pub key_code: u16,
}

/// The combination with no modifier and no key, where reading starts.
pub open spec fn blank_combo() -> KeyCombo {
    KeyCombo { ctrl: false, alt: false, shift: false, meta: false, key_code: 0 }
}

/// What one `+`-separated piece of hotkey text does to the combination read
/// so far: after trimming, `ctrl`/`control`, `alt`, `shift` and
/// `meta`/`super`/`win` set a modifier, an empty piece changes nothing, and
/// anything else must name a key, which becomes the combination's key;
/// `None` when it names none.
pub open spec fn apply_part(c: KeyCombo, part: Seq<char>) -> Option<KeyCombo> {
    let p = trim(part);
    if p == "ctrl"@ || p == "control"@ {
        Some(KeyCombo { ctrl: true, ..c })
    } else if p == "alt"@ {
        Some(KeyCombo { alt: true, ..c })
    } else if p == "shift"@ {
        Some(KeyCombo { shift: true, ..c })
    } else if p == "meta"@ || p == "super"@ || p == "win"@ {
        Some(KeyCombo { meta: true, ..c })
    } else if p.len() == 0 {
        Some(c)
    } else {
        match key_code_of_name(p) {
            Some(k) => Some(KeyCombo { key_code: k, ..c }),
            None => None,
        }
    }
}

/// The combination that the pieces `ps` give, read from the first to the
/// last; `None` as soon as one piece names no key.
pub open spec fn parse_parts(ps: Seq<Seq<char>>) -> Option<KeyCombo>
    decreases ps.len(),
{
    if ps.len() == 0 {
        Some(blank_combo())
    } else {
        match parse_parts(ps.drop_last()) {
            Some(c) => apply_part(c, ps.last()),
            None => None,
        }
    }
}

/// The hotkey that `input` spells: the text is trimmed, lowercased and split
/// at `+`; the pieces are read in order; the result must have a key.
pub open spec fn combo_of_text(input: Seq<char>) -> Option<KeyCombo> {
    match parse_parts(split_char(lowercase(trim(input)), '+')) {
        Some(c) => if c.key_code == 0 {
            None
        } else {
            Some(c)
        },
        None => None,
    }
}

/// The words of a hotkey in written order: the held modifiers among `ctrl`,
/// `alt`, `shift`, `meta`, then the key's label.
pub open spec fn combo_words(c: KeyCombo) -> Seq<Seq<char>> {
    let w0 = Seq::<Seq<char>>::empty();
    let w1 = if c.ctrl { w0.push("ctrl"@) } else { w0 };
    let w2 = if c.alt { w1.push("alt"@) } else { w1 };
    let w3 = if c.shift { w2.push("shift"@) } else { w2 };
    let w4 = if c.meta { w3.push("meta"@) } else { w3 };
    w4.push(key_label(c.key_code))
}

/// The text of a hotkey: its words joined with `+`.
pub open spec fn combo_text(c: KeyCombo) -> Seq<char> {
    join_char(combo_words(c), '+')
}

/// One step of reading: applies `part` unless reading has already failed.
fn step(acc: Option<KeyCombo>, part: &Vec<char>) -> (r: Option<KeyCombo>)
    ensures
        r == (match acc {
            Some(c) => apply_part(c, part@),
            None => None,
        }),
{
    let c = match acc {
        Some(c) => c,
        None => return None,
    };
    let p = trim_chars(part);
    if is_str(&p, "ctrl") || is_str(&p, "control") {
        Some(KeyCombo { ctrl: true, ..c })
    } else if is_str(&p, "alt") {
        Some(KeyCombo { alt: true, ..c })
    } else if is_str(&p, "shift") {
        Some(KeyCombo { shift: true, ..c })
    } else if is_str(&p, "meta") || is_str(&p, "super") || is_str(&p, "win") {
        Some(KeyCombo { meta: true, ..c })
    } else if p.len() == 0 {
        Some(c)
    } else {
        match key_name_to_code_chars(&p) {
            Some(k) => Some(KeyCombo { key_code: k, ..c }),
            None => None,
        }
    }
}

/// The hotkey that the characters `input` spell.
pub fn parse_combo_chars(input: &Vec<char>) -> (r: Option<KeyCombo>)
    ensures
        r == combo_of_text(input@),
{
    let t = trim_chars(input);
    let l = lowercase_chars(&t);
    let mut acc: Option<KeyCombo> = Some(KeyCombo {
        ctrl: false,
        alt: false,
        shift: false,
        meta: false,
        key_code: 0,
    });
    let mut cur: Vec<char> = Vec::new();
    assert(l@.take(0) =~= Seq::<char>::empty());
    for i in 0..l.len()
        invariant
            split_char(l@.take(i as int), '+').len() >= 1,
            cur@ == split_char(l@.take(i as int), '+').last(),
            acc == parse_parts(split_char(l@.take(i as int), '+').drop_last()),
    {
        let c = l[i];
        let ghost prev = split_char(l@.take(i as int), '+');
        assert(l@.take(i + 1).drop_last() =~= l@.take(i as int));
        assert(l@.take(i + 1).last() == c);
        if c == '+' {
            assert(split_char(l@.take(i + 1), '+') == prev.push(Seq::<char>::empty()));
            assert(prev.push(Seq::<char>::empty()).drop_last() =~= prev);
            acc = step(acc, &cur);
            cur = Vec::new();
        } else {
            let ghost next = prev.update(prev.len() - 1, prev.last().push(c));
            assert(split_char(l@.take(i + 1), '+') == next);
            assert(next.drop_last() =~= prev.drop_last());
            cur.push(c);
        }
    }
    assert(l@.take(l@.len() as int) =~= l@);
    acc = step(acc, &cur);
    match acc {
        Some(c) => if c.key_code == 0 {
            None
        } else {
            Some(c)
        },
        None => None,
    }
}

/// The hotkey that `input` spells, such as `ctrl+alt+slash`.
pub fn parse_combo(input: &str) -> (r: Option<KeyCombo>)
    ensures
        r == combo_of_text(input@),
{
    parse_combo_chars(&chars_of(input))
}

/// The text of `combo`, as characters.
pub fn combo_chars(combo: &KeyCombo) -> (r: Vec<char>)
    ensures
        r@ == combo_text(*combo),
{
    let mut parts: Vec<Vec<char>> = Vec::new();
    if combo.ctrl {
        parts.push(chars_of("ctrl"));
    }
    if combo.alt {
        parts.push(chars_of("alt"));
    }
    if combo.shift {
        parts.push(chars_of("shift"));
    }
    if combo.meta {
        parts.push(chars_of("meta"));
    }
    parts.push(key_label_chars(combo.key_code));
    assert(parts@.map_values(|w: Vec<char>| w@) =~= combo_words(*combo));
    join_chars(&parts, '+')
}

/// The text of `combo`, such as `ctrl+alt+slash`.
pub fn combo_to_string(combo: &KeyCombo) -> (r: String)
    ensures
        r@ == combo_text(*combo),
{
    string_of(&combo_chars(combo))
}

/// How hotkey text is shown to people: each of these replacements is made
/// in turn over the whole text, left to right: `ctrl` by `Ctrl`, `alt` by
/// `Alt`, `shift` by `Shift`, `meta` by `Meta`, `slash` by `/`, `minus` by `-`,
/// `equal` by `+`, `space` by `Space`, `kpasterisk` by `KP*`, `kpslash` by
/// `KP/`, `kpminus` by `KP-`, `kpplus` by `KP+`, `Ctrl+Alt+8` by `Ctrl+Alt+*`.
pub open spec fn display_text(s: Seq<char>) -> Seq<char> {
    let s1 = replace_all(s, "ctrl"@, "Ctrl"@);
    let s2 = replace_all(s1, "alt"@, "Alt"@);
    let s3 = replace_all(s2, "shift"@, "Shift"@);
    let s4 = replace_all(s3, "meta"@, "Meta"@);
    let s5 = replace_all(s4, "slash"@, "/"@);
    let s6 = replace_all(s5, "minus"@, "-"@);
    let s7 = replace_all(s6, "equal"@, "+"@);
    let s8 = replace_all(s7, "space"@, "Space"@);
    let s9 = replace_all(s8, "kpasterisk"@, "KP*"@);
    let s10 = replace_all(s9, "kpslash"@, "KP/"@);
    let s11 = replace_all(s10, "kpminus"@, "KP-"@);
    let s12 = replace_all(s11, "kpplus"@, "KP+"@);
    let s13 = replace_all(s12, "Ctrl+Alt+8"@, "Ctrl+Alt+*"@);
    s13
}

/// The replaced words are not empty.
proof fn lemma_display_words()
    ensures
        "ctrl"@.len() == 4,
        "alt"@.len() == 3,
        "shift"@.len() == 5,
        "meta"@.len() == 4,
        "slash"@.len() == 5,
        "minus"@.len() == 5,
        "equal"@.len() == 5,
        "space"@.len() == 5,
        "kpasterisk"@.len() == 10,
        "kpslash"@.len() == 7,
        "kpminus"@.len() == 7,
        "kpplus"@.len() == 6,
        "Ctrl+Alt+8"@.len() == 10,
{
    reveal_strlit("ctrl");
    reveal_strlit("alt");
    reveal_strlit("shift");
    reveal_strlit("meta");
    reveal_strlit("slash");
    reveal_strlit("minus");
    reveal_strlit("equal");
    reveal_strlit("space");
    reveal_strlit("kpasterisk");
    reveal_strlit("kpslash");
    reveal_strlit("kpminus");
    reveal_strlit("kpplus");
    reveal_strlit("Ctrl+Alt+8");
}

/// `s` as it is shown to people.
pub fn display_chars(s: &Vec<char>) -> (r: Vec<char>)
    ensures
        r@ == display_text(s@),
{
    proof {
        lemma_display_words();
    }
    let s1 = replace_chars(s, "ctrl", "Ctrl");
    let s2 = replace_chars(&s1, "alt", "Alt");
    let s3 = replace_chars(&s2, "shift", "Shift");
    let s4 = replace_chars(&s3, "meta", "Meta");
    let s5 = replace_chars(&s4, "slash", "/");
    let s6 = replace_chars(&s5, "minus", "-");
    let s7 = replace_chars(&s6, "equal", "+");
    let s8 = replace_chars(&s7, "space", "Space");
    let s9 = replace_chars(&s8, "kpasterisk", "KP*");
    let s10 = replace_chars(&s9, "kpslash", "KP/");
    let s11 = replace_chars(&s10, "kpminus", "KP-");
    let s12 = replace_chars(&s11, "kpplus", "KP+");
    let s13 = replace_chars(&s12, "Ctrl+Alt+8", "Ctrl+Alt+*");
    s13
}

/// Plain text is its own trim.
proof fn lemma_plain_trim(s: Seq<char>)
    requires
        is_plain(s),
    ensures
        trim(s) == s,
{
    assert(is_plain_char(s[0]));
    assert(is_plain_char(s[s.len() - 1]));
    assert(trim_start(s) == s);
    assert(trim_end(s) == s);
}

/// Reading the words of a hotkey in order gives the hotkey.
proof fn lemma_parse_words(c: KeyCombo)
    ensures
        parse_parts(combo_words(c)) == Some(c),
{
    lemma_key_literals();
    lemma_plain_literals();
    lemma_label_plain(c.key_code);
    lemma_label_round_trip(c.key_code);
    lemma_plain_trim("ctrl"@);
    lemma_plain_trim("alt"@);
    lemma_plain_trim("shift"@);
    lemma_plain_trim("meta"@);
    let label = key_label(c.key_code);
    lemma_plain_trim(label);
    let b0 = blank_combo();
    let b1 = KeyCombo { ctrl: c.ctrl, ..b0 };
    let b2 = KeyCombo { alt: c.alt, ..b1 };
    let b3 = KeyCombo { shift: c.shift, ..b2 };
    let b4 = KeyCombo { meta: c.meta, ..b3 };
    let w0 = Seq::<Seq<char>>::empty();
    let w1 = if c.ctrl { w0.push("ctrl"@) } else { w0 };
    let w2 = if c.alt { w1.push("alt"@) } else { w1 };
    let w3 = if c.shift { w2.push("shift"@) } else { w2 };
    let w4 = if c.meta { w3.push("meta"@) } else { w3 };
    assert(parse_parts(w0) == Some(b0));
    if c.ctrl {
        assert(w1.drop_last() =~= w0);
    }
    assert(parse_parts(w1) == Some(b1));
    if c.alt {
        assert(w2.drop_last() =~= w1);
    }
    assert(parse_parts(w2) == Some(b2));
    if c.shift {
        assert(w3.drop_last() =~= w2);
    }
    assert(parse_parts(w3) == Some(b3));
    if c.meta {
        assert(w4.drop_last() =~= w3);
    }
    assert(parse_parts(w4) == Some(b4));
    assert(w4.push(label).drop_last() =~= w4);
    assert(label != "ctrl"@ && label != "control"@ && label != "alt"@ && label != "shift"@);
    assert(label != "meta"@ && label != "super"@ && label != "win"@);
    assert(apply_part(b4, label) == Some(c));
}

/// Reading back the text of a hotkey gives the same hotkey; a combination
/// without a key (code 0) is written but not read back, since reading
/// requires a key.
pub proof fn lemma_combo_round_trip(c: KeyCombo)
    ensures
        combo_of_text(combo_text(c)) == (if c.key_code == 0 {
            None
        } else {
            Some(c)
        }),
{
    lemma_plain_literals();
    lemma_label_plain(c.key_code);
    let ws = combo_words(c);
    let t = combo_text(c);
    assert forall|i: int| 0 <= i < ws.len() implies is_plain(#[trigger] ws[i]) by {
    }
    assert forall|i: int, j: int| 0 <= i < ws.len() && 0 <= j < ws[i].len() implies (|ch: char|
        is_plain_char(ch) || ch == '+')(#[trigger] ws[i][j]) by {
        assert(is_plain(ws[i]));
    }
    lemma_join_chars(ws, '+', |ch: char| is_plain_char(ch) || ch == '+');
    assert(is_plain(ws[0]));
    assert(is_plain(ws.last()));
    lemma_join_ends(ws, '+');
    assert(is_plain_char(t[0]));
    assert(is_plain_char(t.last()));
    assert(trim_start(t) == t);
    assert(trim_end(t) == t);
    assert(all_ascii(t)) by {
        assert forall|k: int| 0 <= k < t.len() implies (t[k] as u32) < 128 by {
            assert((|ch: char| is_plain_char(ch) || ch == '+')(t[k]));
        }
    }
    assert(t.map_values(|ch: char| ascii_lower(ch)) =~= t) by {
        assert forall|k: int| 0 <= k < t.len() implies ascii_lower(t[k]) == t[k] by {
            assert((|ch: char| is_plain_char(ch) || ch == '+')(t[k]));
        }
    }
    assert(lowercase(trim(t)) == t);
    assert forall|i: int| 0 <= i < ws.len() implies !(#[trigger] ws[i]).contains('+') by {
        assert(is_plain(ws[i]));
        if ws[i].contains('+') {
            let k = choose|k: int| 0 <= k < ws[i].len() && ws[i][k] == '+';
            assert(is_plain_char(ws[i][k]));
        }
    }
    lemma_split_join(ws, '+');
    lemma_parse_words(c);
}

} // verus!
