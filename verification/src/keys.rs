//! Linux input key codes and the names by which hotkeys spell them.

use vstd::prelude::*;
use crate::decimal::{decimal, decimal_chars, lemma_parse_decimal, parse_unsigned, parse_unsigned_chars};
use crate::text::{append_chars, chars_of, is_str, string_of, sub_chars};

verus! {

/// The `EV_KEY` event type of the Linux input subsystem.
pub const EV_KEY: u16 = 1;

/// Linux input code of the `1` key.
pub const KEY_1: u16 = 2;

/// Linux input code of the `2` key.
pub const KEY_2: u16 = 3;

/// Linux input code of the `3` key.
pub const KEY_3: u16 = 4;

/// Linux input code of the `4` key.
pub const KEY_4: u16 = 5;

/// Linux input code of the `5` key.
pub const KEY_5: u16 = 6;

/// Linux input code of the `6` key.
pub const KEY_6: u16 = 7;

/// Linux input code of the `7` key.
pub const KEY_7: u16 = 8;

/// Linux input code of the `8` key.
pub const KEY_8: u16 = 9;

/// Linux input code of the `9` key.
pub const KEY_9: u16 = 10;

/// Linux input code of the `0` key.
pub const KEY_0: u16 = 11;

/// Linux input code of the `q` key.
pub const KEY_Q: u16 = 16;

/// Linux input code of the `w` key.
pub const KEY_W: u16 = 17;

/// Linux input code of the `e` key.
pub const KEY_E: u16 = 18;

/// Linux input code of the `r` key.
pub const KEY_R: u16 = 19;

/// Linux input code of the `t` key.
pub const KEY_T: u16 = 20;

/// Linux input code of the `y` key.
pub const KEY_Y: u16 = 21;

/// Linux input code of the `u` key.
pub const KEY_U: u16 = 22;

/// Linux input code of the `i` key.
pub const KEY_I: u16 = 23;

/// Linux input code of the `o` key.
pub const KEY_O: u16 = 24;

/// Linux input code of the `p` key.
pub const KEY_P: u16 = 25;

/// Linux input code of the `a` key.
pub const KEY_A: u16 = 30;

/// Linux input code of the `s` key.
pub const KEY_S: u16 = 31;

/// Linux input code of the `d` key.
pub const KEY_D: u16 = 32;

/// Linux input code of the `f` key.
pub const KEY_F: u16 = 33;

/// Linux input code of the `g` key.
pub const KEY_G: u16 = 34;

/// Linux input code of the `h` key.
pub const KEY_H: u16 = 35;

/// Linux input code of the `j` key.
pub const KEY_J: u16 = 36;

/// Linux input code of the `k` key.
pub const KEY_K: u16 = 37;

/// Linux input code of the `l` key.
pub const KEY_L: u16 = 38;

/// Linux input code of the `z` key.
pub const KEY_Z: u16 = 44;

/// Linux input code of the `x` key.
pub const KEY_X: u16 = 45;

/// Linux input code of the `c` key.
pub const KEY_C: u16 = 46;

/// Linux input code of the `v` key.
pub const KEY_V: u16 = 47;

/// Linux input code of the `b` key.
pub const KEY_B: u16 = 48;

/// Linux input code of the `n` key.
pub const KEY_N: u16 = 49;

/// Linux input code of the `m` key.
pub const KEY_M: u16 = 50;

/// Linux input code of the `minus` key.
pub const KEY_MINUS: u16 = 12;

/// Linux input code of the `equal` key.
pub const KEY_EQUAL: u16 = 13;

/// Linux input code of the `slash` key.
pub const KEY_SLASH: u16 = 53;

/// Linux input code of the `kpasterisk` key.
pub const KEY_KPASTERISK: u16 = 55;

/// Linux input code of the `space` key.
pub const KEY_SPACE: u16 = 57;

/// Linux input code of the `kpminus` key.
pub const KEY_KPMINUS: u16 = 74;

/// Linux input code of the `kpplus` key.
pub const KEY_KPPLUS: u16 = 78;

/// Linux input code of the `kpslash` key.
pub const KEY_KPSLASH: u16 = 98;

/// Linux input code of the `leftctrl` key.
pub const KEY_LEFTCTRL: u16 = 29;

/// Linux input code of the `leftshift` key.
pub const KEY_LEFTSHIFT: u16 = 42;

/// Linux input code of the `leftalt` key.
pub const KEY_LEFTALT: u16 = 56;

/// Linux input code of the `leftmeta` key.
pub const KEY_LEFTMETA: u16 = 125;

/// Linux input code of the `rightctrl` key.
pub const KEY_RIGHTCTRL: u16 = 97;

/// Linux input code of the `rightshift` key.
pub const KEY_RIGHTSHIFT: u16 = 54;

/// Linux input code of the `rightalt` key.
pub const KEY_RIGHTALT: u16 = 100;

/// Linux input code of the `rightmeta` key.
pub const KEY_RIGHTMETA: u16 = 126;

/// The key code that a key name stands for: one of the fixed names, or
/// `code:` followed by a decimal number that fits in 16 bits.
pub open spec fn key_code_of_name(name: Seq<char>) -> Option<u16> {
    if name == "1"@ {
        Some(KEY_1)
    } else if name == "2"@ {
        Some(KEY_2)
    } else if name == "3"@ {
        Some(KEY_3)
    } else if name == "4"@ {
        Some(KEY_4)
    } else if name == "5"@ {
        Some(KEY_5)
    } else if name == "6"@ {
        Some(KEY_6)
    } else if name == "7"@ {
        Some(KEY_7)
    } else if name == "8"@ {
        Some(KEY_8)
    } else if name == "9"@ {
        Some(KEY_9)
    } else if name == "0"@ {
        Some(KEY_0)
    } else if name == "q"@ {
        Some(KEY_Q)
    } else if name == "w"@ {
        Some(KEY_W)
    } else if name == "e"@ {
        Some(KEY_E)
    } else if name == "r"@ {
        Some(KEY_R)
    } else if name == "t"@ {
        Some(KEY_T)
    } else if name == "y"@ {
        Some(KEY_Y)
    } else if name == "u"@ {
        Some(KEY_U)
    } else if name == "i"@ {
        Some(KEY_I)
    } else if name == "o"@ {
        Some(KEY_O)
    } else if name == "p"@ {
        Some(KEY_P)
    } else if name == "a"@ {
        Some(KEY_A)
    } else if name == "s"@ {
        Some(KEY_S)
    } else if name == "d"@ {
        Some(KEY_D)
    } else if name == "f"@ {
        Some(KEY_F)
    } else if name == "g"@ {
        Some(KEY_G)
    } else if name == "h"@ {
        Some(KEY_H)
    } else if name == "j"@ {
        Some(KEY_J)
    } else if name == "k"@ {
        Some(KEY_K)
    } else if name == "l"@ {
        Some(KEY_L)
    } else if name == "z"@ {
        Some(KEY_Z)
    } else if name == "x"@ {
        Some(KEY_X)
    } else if name == "c"@ {
        Some(KEY_C)
    } else if name == "v"@ {
        Some(KEY_V)
    } else if name == "b"@ {
        Some(KEY_B)
    } else if name == "n"@ {
        Some(KEY_N)
    } else if name == "m"@ {
        Some(KEY_M)
    } else if name == "slash"@ || name == "/"@ {
        Some(KEY_SLASH)
    } else if name == "minus"@ || name == "-"@ {
        Some(KEY_MINUS)
    } else if name == "equal"@ || name == "plus"@ || name == "+"@ {
        Some(KEY_EQUAL)
    } else if name == "space"@ {
        Some(KEY_SPACE)
    } else if name == "kpslash"@ {
        Some(KEY_KPSLASH)
    } else if name == "kpasterisk"@ || name == "asterisk"@ || name == "star"@ || name == "*"@ {
        Some(KEY_KPASTERISK)
    } else if name == "kpminus"@ {
        Some(KEY_KPMINUS)
    } else if name == "kpplus"@ {
        Some(KEY_KPPLUS)
    } else if name.len() >= 5 && name.take(5) == "code:"@ {
        match parse_unsigned(name.skip(5), 65535) {
            Some(v) => Some(v as u16),
            None => None,
        }
    } else {
        None
    }
}

/// The name under which a key code is written: the fixed name of a known
/// key, else `code:` followed by the code in decimal.
pub open spec fn key_label(code: u16) -> Seq<char> {
    if code == KEY_1 {
        "1"@
    } else if code == KEY_2 {
        "2"@
    } else if code == KEY_3 {
        "3"@
    } else if code == KEY_4 {
        "4"@
    } else if code == KEY_5 {
        "5"@
    } else if code == KEY_6 {
        "6"@
    } else if code == KEY_7 {
        "7"@
    } else if code == KEY_8 {
        "8"@
    } else if code == KEY_9 {
        "9"@
    } else if code == KEY_0 {
        "0"@
    } else if code == KEY_Q {
        "q"@
    } else if code == KEY_W {
        "w"@
    } else if code == KEY_E {
        "e"@
    } else if code == KEY_R {
        "r"@
    } else if code == KEY_T {
        "t"@
    } else if code == KEY_Y {
        "y"@
    } else if code == KEY_U {
        "u"@
    } else if code == KEY_I {
        "i"@
    } else if code == KEY_O {
        "o"@
    } else if code == KEY_P {
        "p"@
    } else if code == KEY_A {
        "a"@
    } else if code == KEY_S {
        "s"@
    } else if code == KEY_D {
        "d"@
    } else if code == KEY_F {
        "f"@
    } else if code == KEY_G {
        "g"@
    } else if code == KEY_H {
        "h"@
    } else if code == KEY_J {
        "j"@
    } else if code == KEY_K {
        "k"@
    } else if code == KEY_L {
        "l"@
    } else if code == KEY_Z {
        "z"@
    } else if code == KEY_X {
        "x"@
    } else if code == KEY_C {
        "c"@
    } else if code == KEY_V {
        "v"@
    } else if code == KEY_B {
        "b"@
    } else if code == KEY_N {
        "n"@
    } else if code == KEY_M {
        "m"@
    } else if code == KEY_SLASH {
        "slash"@
    } else if code == KEY_MINUS {
        "minus"@
    } else if code == KEY_EQUAL {
        "equal"@
    } else if code == KEY_SPACE {
        "space"@
    } else if code == KEY_KPSLASH {
        "kpslash"@
    } else if code == KEY_KPASTERISK {
        "kpasterisk"@
    } else if code == KEY_KPMINUS {
        "kpminus"@
    } else if code == KEY_KPPLUS {
        "kpplus"@
    } else {
        "code:"@ + decimal(code as nat)
    }
}

/// What the key-name literals spell, character by character.
pub proof fn lemma_key_literals()
    ensures
        "1"@.len() == 1,
        "1"@[0] == '1',
        "2"@.len() == 1,
        "2"@[0] == '2',
        "3"@.len() == 1,
        "3"@[0] == '3',
        "4"@.len() == 1,
        "4"@[0] == '4',
        "5"@.len() == 1,
        "5"@[0] == '5',
        "6"@.len() == 1,
        "6"@[0] == '6',
        "7"@.len() == 1,
        "7"@[0] == '7',
        "8"@.len() == 1,
        "8"@[0] == '8',
        "9"@.len() == 1,
        "9"@[0] == '9',
        "0"@.len() == 1,
        "0"@[0] == '0',
        "q"@.len() == 1,
        "q"@[0] == 'q',
        "w"@.len() == 1,
        "w"@[0] == 'w',
        "e"@.len() == 1,
        "e"@[0] == 'e',
        "r"@.len() == 1,
        "r"@[0] == 'r',
        "t"@.len() == 1,
        "t"@[0] == 't',
        "y"@.len() == 1,
        "y"@[0] == 'y',
        "u"@.len() == 1,
        "u"@[0] == 'u',
        "i"@.len() == 1,
        "i"@[0] == 'i',
        "o"@.len() == 1,
        "o"@[0] == 'o',
        "p"@.len() == 1,
        "p"@[0] == 'p',
        "a"@.len() == 1,
        "a"@[0] == 'a',
        "s"@.len() == 1,
        "s"@[0] == 's',
        "d"@.len() == 1,
        "d"@[0] == 'd',
        "f"@.len() == 1,
        "f"@[0] == 'f',
        "g"@.len() == 1,
        "g"@[0] == 'g',
        "h"@.len() == 1,
        "h"@[0] == 'h',
        "j"@.len() == 1,
        "j"@[0] == 'j',
        "k"@.len() == 1,
        "k"@[0] == 'k',
        "l"@.len() == 1,
        "l"@[0] == 'l',
        "z"@.len() == 1,
        "z"@[0] == 'z',
        "x"@.len() == 1,
        "x"@[0] == 'x',
        "c"@.len() == 1,
        "c"@[0] == 'c',
        "v"@.len() == 1,
        "v"@[0] == 'v',
        "b"@.len() == 1,
        "b"@[0] == 'b',
        "n"@.len() == 1,
        "n"@[0] == 'n',
        "m"@.len() == 1,
        "m"@[0] == 'm',
        "slash"@.len() == 5,
        "slash"@[0] == 's',
        "slash"@[1] == 'l',
        "slash"@[2] == 'a',
        "slash"@[3] == 's',
        "slash"@[4] == 'h',
        "/"@.len() == 1,
        "/"@[0] == '/',
        "minus"@.len() == 5,
        "minus"@[0] == 'm',
        "minus"@[1] == 'i',
        "minus"@[2] == 'n',
        "minus"@[3] == 'u',
        "minus"@[4] == 's',
        "-"@.len() == 1,
        "-"@[0] == '-',
        "equal"@.len() == 5,
        "equal"@[0] == 'e',
        "equal"@[1] == 'q',
        "equal"@[2] == 'u',
        "equal"@[3] == 'a',
        "equal"@[4] == 'l',
        "plus"@.len() == 4,
        "plus"@[0] == 'p',
        "plus"@[1] == 'l',
        "plus"@[2] == 'u',
        "plus"@[3] == 's',
        "+"@.len() == 1,
        "+"@[0] == '+',
        "space"@.len() == 5,
        "space"@[0] == 's',
        "space"@[1] == 'p',
        "space"@[2] == 'a',
        "space"@[3] == 'c',
        "space"@[4] == 'e',
        "kpslash"@.len() == 7,
        "kpslash"@[0] == 'k',
        "kpslash"@[1] == 'p',
        "kpslash"@[2] == 's',
        "kpslash"@[3] == 'l',
        "kpslash"@[4] == 'a',
        "kpslash"@[5] == 's',
        "kpslash"@[6] == 'h',
        "kpasterisk"@.len() == 10,
        "kpasterisk"@[0] == 'k',
        "kpasterisk"@[1] == 'p',
        "kpasterisk"@[2] == 'a',
        "kpasterisk"@[3] == 's',
        "kpasterisk"@[4] == 't',
        "kpasterisk"@[5] == 'e',
        "kpasterisk"@[6] == 'r',
        "kpasterisk"@[7] == 'i',
        "kpasterisk"@[8] == 's',
        "kpasterisk"@[9] == 'k',
        "asterisk"@.len() == 8,
        "asterisk"@[0] == 'a',
        "asterisk"@[1] == 's',
        "asterisk"@[2] == 't',
        "asterisk"@[3] == 'e',
        "asterisk"@[4] == 'r',
        "asterisk"@[5] == 'i',
        "asterisk"@[6] == 's',
        "asterisk"@[7] == 'k',
        "star"@.len() == 4,
        "star"@[0] == 's',
        "star"@[1] == 't',
        "star"@[2] == 'a',
        "star"@[3] == 'r',
        "*"@.len() == 1,
        "*"@[0] == '*',
        "kpminus"@.len() == 7,
        "kpminus"@[0] == 'k',
        "kpminus"@[1] == 'p',
        "kpminus"@[2] == 'm',
        "kpminus"@[3] == 'i',
        "kpminus"@[4] == 'n',
        "kpminus"@[5] == 'u',
        "kpminus"@[6] == 's',
        "kpplus"@.len() == 6,
        "kpplus"@[0] == 'k',
        "kpplus"@[1] == 'p',
        "kpplus"@[2] == 'p',
        "kpplus"@[3] == 'l',
        "kpplus"@[4] == 'u',
        "kpplus"@[5] == 's',
        "code:"@.len() == 5,
        "code:"@[0] == 'c',
        "code:"@[1] == 'o',
        "code:"@[2] == 'd',
        "code:"@[3] == 'e',
        "code:"@[4] == ':',
        "ctrl"@.len() == 4,
        "ctrl"@[0] == 'c',
        "ctrl"@[1] == 't',
        "ctrl"@[2] == 'r',
        "ctrl"@[3] == 'l',
        "control"@.len() == 7,
        "control"@[0] == 'c',
        "control"@[1] == 'o',
        "control"@[2] == 'n',
        "control"@[3] == 't',
        "control"@[4] == 'r',
        "control"@[5] == 'o',
        "control"@[6] == 'l',
        "alt"@.len() == 3,
        "alt"@[0] == 'a',
        "alt"@[1] == 'l',
        "alt"@[2] == 't',
        "shift"@.len() == 5,
        "shift"@[0] == 's',
        "shift"@[1] == 'h',
        "shift"@[2] == 'i',
        "shift"@[3] == 'f',
        "shift"@[4] == 't',
        "meta"@.len() == 4,
        "meta"@[0] == 'm',
        "meta"@[1] == 'e',
        "meta"@[2] == 't',
        "meta"@[3] == 'a',
        "super"@.len() == 5,
        "super"@[0] == 's',
        "super"@[1] == 'u',
        "super"@[2] == 'p',
        "super"@[3] == 'e',
        "super"@[4] == 'r',
        "win"@.len() == 3,
        "win"@[0] == 'w',
        "win"@[1] == 'i',
        "win"@[2] == 'n',
{
    reveal_strlit("1");
    reveal_strlit("2");
    reveal_strlit("3");
    reveal_strlit("4");
    reveal_strlit("5");
    reveal_strlit("6");
    reveal_strlit("7");
    reveal_strlit("8");
    reveal_strlit("9");
    reveal_strlit("0");
    reveal_strlit("q");
    reveal_strlit("w");
    reveal_strlit("e");
    reveal_strlit("r");
    reveal_strlit("t");
    reveal_strlit("y");
    reveal_strlit("u");
    reveal_strlit("i");
    reveal_strlit("o");
    reveal_strlit("p");
    reveal_strlit("a");
    reveal_strlit("s");
    reveal_strlit("d");
    reveal_strlit("f");
    reveal_strlit("g");
    reveal_strlit("h");
    reveal_strlit("j");
    reveal_strlit("k");
    reveal_strlit("l");
    reveal_strlit("z");
    reveal_strlit("x");
    reveal_strlit("c");
    reveal_strlit("v");
    reveal_strlit("b");
    reveal_strlit("n");
    reveal_strlit("m");
    reveal_strlit("slash");
    reveal_strlit("/");
    reveal_strlit("minus");
    reveal_strlit("-");
    reveal_strlit("equal");
    reveal_strlit("plus");
    reveal_strlit("+");
    reveal_strlit("space");
    reveal_strlit("kpslash");
    reveal_strlit("kpasterisk");
    reveal_strlit("asterisk");
    reveal_strlit("star");
    reveal_strlit("*");
    reveal_strlit("kpminus");
    reveal_strlit("kpplus");
    reveal_strlit("code:");
    reveal_strlit("ctrl");
    reveal_strlit("control");
    reveal_strlit("alt");
    reveal_strlit("shift");
    reveal_strlit("meta");
    reveal_strlit("super");
    reveal_strlit("win");
}

/// The key code that `name` stands for.
pub fn key_name_to_code_chars(name: &Vec<char>) -> (r: Option<u16>)
    ensures
        r == key_code_of_name(name@),
{
    if is_str(name, "1") {
        return Some(KEY_1);
    }
    if is_str(name, "2") {
        return Some(KEY_2);
    }
    if is_str(name, "3") {
        return Some(KEY_3);
    }
    if is_str(name, "4") {
        return Some(KEY_4);
    }
    if is_str(name, "5") {
        return Some(KEY_5);
    }
    if is_str(name, "6") {
        return Some(KEY_6);
    }
    if is_str(name, "7") {
        return Some(KEY_7);
    }
    if is_str(name, "8") {
        return Some(KEY_8);
    }
    if is_str(name, "9") {
        return Some(KEY_9);
    }
    if is_str(name, "0") {
        return Some(KEY_0);
    }
    if is_str(name, "q") {
        return Some(KEY_Q);
    }
    if is_str(name, "w") {
        return Some(KEY_W);
    }
    if is_str(name, "e") {
        return Some(KEY_E);
    }
    if is_str(name, "r") {
        return Some(KEY_R);
    }
    if is_str(name, "t") {
        return Some(KEY_T);
    }
    if is_str(name, "y") {
        return Some(KEY_Y);
    }
    if is_str(name, "u") {
        return Some(KEY_U);
    }
    if is_str(name, "i") {
        return Some(KEY_I);
    }
    if is_str(name, "o") {
        return Some(KEY_O);
    }
    if is_str(name, "p") {
        return Some(KEY_P);
    }
    if is_str(name, "a") {
        return Some(KEY_A);
    }
    if is_str(name, "s") {
        return Some(KEY_S);
    }
    if is_str(name, "d") {
        return Some(KEY_D);
    }
    if is_str(name, "f") {
        return Some(KEY_F);
    }
    if is_str(name, "g") {
        return Some(KEY_G);
    }
    if is_str(name, "h") {
        return Some(KEY_H);
    }
    if is_str(name, "j") {
        return Some(KEY_J);
    }
    if is_str(name, "k") {
        return Some(KEY_K);
    }
    if is_str(name, "l") {
        return Some(KEY_L);
    }
    if is_str(name, "z") {
        return Some(KEY_Z);
    }
    if is_str(name, "x") {
        return Some(KEY_X);
    }
    if is_str(name, "c") {
        return Some(KEY_C);
    }
    if is_str(name, "v") {
        return Some(KEY_V);
    }
    if is_str(name, "b") {
        return Some(KEY_B);
    }
    if is_str(name, "n") {
        return Some(KEY_N);
    }
    if is_str(name, "m") {
        return Some(KEY_M);
    }
    if is_str(name, "slash") || is_str(name, "/") {
        return Some(KEY_SLASH);
    }
    if is_str(name, "minus") || is_str(name, "-") {
        return Some(KEY_MINUS);
    }
    if is_str(name, "equal") || is_str(name, "plus") || is_str(name, "+") {
        return Some(KEY_EQUAL);
    }
    if is_str(name, "space") {
        return Some(KEY_SPACE);
    }
    if is_str(name, "kpslash") {
        return Some(KEY_KPSLASH);
    }
    if is_str(name, "kpasterisk") || is_str(name, "asterisk") || is_str(name, "star") || is_str(name, "*") {
        return Some(KEY_KPASTERISK);
    }
    if is_str(name, "kpminus") {
        return Some(KEY_KPMINUS);
    }
    if is_str(name, "kpplus") {
        return Some(KEY_KPPLUS);
    }
    if name.len() >= 5 && is_str(&sub_chars(name, 0, 5), "code:") {
        assert(name@.subrange(0, 5) == name@.take(5));
        let rest = sub_chars(name, 5, name.len());
        assert(rest@ == name@.skip(5));
        return match parse_unsigned_chars(&rest, 65535) {
            Some(v) => Some(v as u16),
            None => None,
        };
    }
    None
}

/// The label of `code`, as characters.
pub fn key_label_chars(code: u16) -> (r: Vec<char>)
    ensures
        r@ == key_label(code),
{
    if code == KEY_1 {
        return chars_of("1");
    }
    if code == KEY_2 {
        return chars_of("2");
    }
    if code == KEY_3 {
        return chars_of("3");
    }
    if code == KEY_4 {
        return chars_of("4");
    }
    if code == KEY_5 {
        return chars_of("5");
    }
    if code == KEY_6 {
        return chars_of("6");
    }
    if code == KEY_7 {
        return chars_of("7");
    }
    if code == KEY_8 {
        return chars_of("8");
    }
    if code == KEY_9 {
        return chars_of("9");
    }
    if code == KEY_0 {
        return chars_of("0");
    }
    if code == KEY_Q {
        return chars_of("q");
    }
    if code == KEY_W {
        return chars_of("w");
    }
    if code == KEY_E {
        return chars_of("e");
    }
    if code == KEY_R {
        return chars_of("r");
    }
    if code == KEY_T {
        return chars_of("t");
    }
    if code == KEY_Y {
        return chars_of("y");
    }
    if code == KEY_U {
        return chars_of("u");
    }
    if code == KEY_I {
        return chars_of("i");
    }
    if code == KEY_O {
        return chars_of("o");
    }
    if code == KEY_P {
        return chars_of("p");
    }
    if code == KEY_A {
        return chars_of("a");
    }
    if code == KEY_S {
        return chars_of("s");
    }
    if code == KEY_D {
        return chars_of("d");
    }
    if code == KEY_F {
        return chars_of("f");
    }
    if code == KEY_G {
        return chars_of("g");
    }
    if code == KEY_H {
        return chars_of("h");
    }
    if code == KEY_J {
        return chars_of("j");
    }
    if code == KEY_K {
        return chars_of("k");
    }
    if code == KEY_L {
        return chars_of("l");
    }
    if code == KEY_Z {
        return chars_of("z");
    }
    if code == KEY_X {
        return chars_of("x");
    }
    if code == KEY_C {
        return chars_of("c");
    }
    if code == KEY_V {
        return chars_of("v");
    }
    if code == KEY_B {
        return chars_of("b");
    }
    if code == KEY_N {
        return chars_of("n");
    }
    if code == KEY_M {
        return chars_of("m");
    }
    if code == KEY_SLASH {
        return chars_of("slash");
    }
    if code == KEY_MINUS {
        return chars_of("minus");
    }
    if code == KEY_EQUAL {
        return chars_of("equal");
    }
    if code == KEY_SPACE {
        return chars_of("space");
    }
    if code == KEY_KPSLASH {
        return chars_of("kpslash");
    }
    if code == KEY_KPASTERISK {
        return chars_of("kpasterisk");
    }
    if code == KEY_KPMINUS {
        return chars_of("kpminus");
    }
    if code == KEY_KPPLUS {
        return chars_of("kpplus");
    }
    let mut r = chars_of("code:");
    let d = decimal_chars(code as u64);
    append_chars(&mut r, &d);
    r
}

/// Every fixed key label and modifier word is plain text.
pub proof fn lemma_plain_literals()
    ensures
        is_plain("1"@),
        is_plain("2"@),
        is_plain("3"@),
        is_plain("4"@),
        is_plain("5"@),
        is_plain("6"@),
        is_plain("7"@),
        is_plain("8"@),
        is_plain("9"@),
        is_plain("0"@),
        is_plain("q"@),
        is_plain("w"@),
        is_plain("e"@),
        is_plain("r"@),
        is_plain("t"@),
        is_plain("y"@),
        is_plain("u"@),
        is_plain("i"@),
        is_plain("o"@),
        is_plain("p"@),
        is_plain("a"@),
        is_plain("s"@),
        is_plain("d"@),
        is_plain("f"@),
        is_plain("g"@),
        is_plain("h"@),
        is_plain("j"@),
        is_plain("k"@),
        is_plain("l"@),
        is_plain("z"@),
        is_plain("x"@),
        is_plain("c"@),
        is_plain("v"@),
        is_plain("b"@),
        is_plain("n"@),
        is_plain("m"@),
        is_plain("slash"@),
        is_plain("minus"@),
        is_plain("equal"@),
        is_plain("space"@),
        is_plain("kpslash"@),
        is_plain("kpasterisk"@),
        is_plain("kpminus"@),
        is_plain("kpplus"@),
        is_plain("ctrl"@),
        is_plain("alt"@),
        is_plain("shift"@),
        is_plain("meta"@),
{
    lemma_key_literals();
    assert forall|i: int| 0 <= i < 5 implies is_plain_char(#[trigger] "slash"@[i]) by {
        assert(i == 0 || i == 1 || i == 2 || i == 3 || i == 4);
    }
    assert forall|i: int| 0 <= i < 5 implies is_plain_char(#[trigger] "minus"@[i]) by {
        assert(i == 0 || i == 1 || i == 2 || i == 3 || i == 4);
    }
    assert forall|i: int| 0 <= i < 5 implies is_plain_char(#[trigger] "equal"@[i]) by {
        assert(i == 0 || i == 1 || i == 2 || i == 3 || i == 4);
    }
    assert forall|i: int| 0 <= i < 5 implies is_plain_char(#[trigger] "space"@[i]) by {
        assert(i == 0 || i == 1 || i == 2 || i == 3 || i == 4);
    }
    assert forall|i: int| 0 <= i < 7 implies is_plain_char(#[trigger] "kpslash"@[i]) by {
        assert(i == 0 || i == 1 || i == 2 || i == 3 || i == 4 || i == 5 || i == 6);
    }
    assert forall|i: int| 0 <= i < 10 implies is_plain_char(#[trigger] "kpasterisk"@[i]) by {
        assert(i == 0 || i == 1 || i == 2 || i == 3 || i == 4 || i == 5 || i == 6 || i == 7
            || i == 8 || i == 9);
    }
    assert forall|i: int| 0 <= i < 7 implies is_plain_char(#[trigger] "kpminus"@[i]) by {
        assert(i == 0 || i == 1 || i == 2 || i == 3 || i == 4 || i == 5 || i == 6);
    }
    assert forall|i: int| 0 <= i < 6 implies is_plain_char(#[trigger] "kpplus"@[i]) by {
        assert(i == 0 || i == 1 || i == 2 || i == 3 || i == 4 || i == 5);
    }
    assert forall|i: int| 0 <= i < 4 implies is_plain_char(#[trigger] "ctrl"@[i]) by {
        assert(i == 0 || i == 1 || i == 2 || i == 3);
    }
    assert forall|i: int| 0 <= i < 3 implies is_plain_char(#[trigger] "alt"@[i]) by {
        assert(i == 0 || i == 1 || i == 2);
    }
    assert forall|i: int| 0 <= i < 5 implies is_plain_char(#[trigger] "shift"@[i]) by {
        assert(i == 0 || i == 1 || i == 2 || i == 3 || i == 4);
    }
    assert forall|i: int| 0 <= i < 4 implies is_plain_char(#[trigger] "meta"@[i]) by {
        assert(i == 0 || i == 1 || i == 2 || i == 3);
    }
}
/// The key code that the key name `name` stands for, if any.
pub fn key_name_to_code(name: &str) -> (r: Option<u16>)
    ensures
        r == key_code_of_name(name@),
{
    key_name_to_code_chars(&chars_of(name))
}

/// The name under which `code` is written in a hotkey.
pub fn code_to_label(code: u16) -> (r: String)
    ensures
        r@ == key_label(code),
{
    string_of(&key_label_chars(code))
}

/// The name under which a captured key `code` is stored in the configuration.
pub fn key_code_to_name(code: u16) -> (r: String)
    ensures
        r@ == key_label(code),
{
    string_of(&key_label_chars(code))
}

/// The names of the digit keys stand for their Linux input codes, and
/// each of those codes is written under its first name.
pub proof fn lemma_key_names_0()
    ensures
        key_code_of_name("1"@) == Some(2u16),
        key_label(2) == "1"@,
        key_code_of_name("2"@) == Some(3u16),
        key_label(3) == "2"@,
        key_code_of_name("3"@) == Some(4u16),
        key_label(4) == "3"@,
        key_code_of_name("4"@) == Some(5u16),
        key_label(5) == "4"@,
        key_code_of_name("5"@) == Some(6u16),
        key_label(6) == "5"@,
        key_code_of_name("6"@) == Some(7u16),
        key_label(7) == "6"@,
        key_code_of_name("7"@) == Some(8u16),
        key_label(8) == "7"@,
        key_code_of_name("8"@) == Some(9u16),
        key_label(9) == "8"@,
        key_code_of_name("9"@) == Some(10u16),
        key_label(10) == "9"@,
        key_code_of_name("0"@) == Some(11u16),
        key_label(11) == "0"@,
{
    lemma_key_literals();
}

/// The names of the top letter row stand for their Linux input codes, and
/// each of those codes is written under its first name.
pub proof fn lemma_key_names_1()
    ensures
        key_code_of_name("q"@) == Some(16u16),
        key_label(16) == "q"@,
        key_code_of_name("w"@) == Some(17u16),
        key_label(17) == "w"@,
        key_code_of_name("e"@) == Some(18u16),
        key_label(18) == "e"@,
        key_code_of_name("r"@) == Some(19u16),
        key_label(19) == "r"@,
        key_code_of_name("t"@) == Some(20u16),
        key_label(20) == "t"@,
        key_code_of_name("y"@) == Some(21u16),
        key_label(21) == "y"@,
        key_code_of_name("u"@) == Some(22u16),
        key_label(22) == "u"@,
        key_code_of_name("i"@) == Some(23u16),
        key_label(23) == "i"@,
        key_code_of_name("o"@) == Some(24u16),
        key_label(24) == "o"@,
        key_code_of_name("p"@) == Some(25u16),
        key_label(25) == "p"@,
{
    lemma_key_literals();
}

/// The names of the middle letter row stand for their Linux input codes, and
/// each of those codes is written under its first name.
pub proof fn lemma_key_names_2()
    ensures
        key_code_of_name("a"@) == Some(30u16),
        key_label(30) == "a"@,
        key_code_of_name("s"@) == Some(31u16),
        key_label(31) == "s"@,
        key_code_of_name("d"@) == Some(32u16),
        key_label(32) == "d"@,
        key_code_of_name("f"@) == Some(33u16),
        key_label(33) == "f"@,
        key_code_of_name("g"@) == Some(34u16),
        key_label(34) == "g"@,
        key_code_of_name("h"@) == Some(35u16),
        key_label(35) == "h"@,
        key_code_of_name("j"@) == Some(36u16),
        key_label(36) == "j"@,
        key_code_of_name("k"@) == Some(37u16),
        key_label(37) == "k"@,
        key_code_of_name("l"@) == Some(38u16),
        key_label(38) == "l"@,
{
    lemma_key_literals();
}

/// The names of the bottom letter row stand for their Linux input codes, and
/// each of those codes is written under its first name.
pub proof fn lemma_key_names_3()
    ensures
        key_code_of_name("z"@) == Some(44u16),
        key_label(44) == "z"@,
        key_code_of_name("x"@) == Some(45u16),
        key_label(45) == "x"@,
        key_code_of_name("c"@) == Some(46u16),
        key_label(46) == "c"@,
        key_code_of_name("v"@) == Some(47u16),
        key_label(47) == "v"@,
        key_code_of_name("b"@) == Some(48u16),
        key_label(48) == "b"@,
        key_code_of_name("n"@) == Some(49u16),
        key_label(49) == "n"@,
        key_code_of_name("m"@) == Some(50u16),
        key_label(50) == "m"@,
{
    lemma_key_literals();
}

/// The names of the symbol and keypad keys stand for their Linux input codes, and
/// each of those codes is written under its first name.
pub proof fn lemma_key_names_4()
    ensures
        key_code_of_name("slash"@) == Some(53u16),
        key_code_of_name("/"@) == Some(53u16),
        key_label(53) == "slash"@,
        key_code_of_name("minus"@) == Some(12u16),
        key_code_of_name("-"@) == Some(12u16),
        key_label(12) == "minus"@,
        key_code_of_name("equal"@) == Some(13u16),
        key_code_of_name("plus"@) == Some(13u16),
        key_code_of_name("+"@) == Some(13u16),
        key_label(13) == "equal"@,
        key_code_of_name("space"@) == Some(57u16),
        key_label(57) == "space"@,
        key_code_of_name("kpslash"@) == Some(98u16),
        key_label(98) == "kpslash"@,
        key_code_of_name("kpasterisk"@) == Some(55u16),
        key_code_of_name("asterisk"@) == Some(55u16),
        key_code_of_name("star"@) == Some(55u16),
        key_code_of_name("*"@) == Some(55u16),
        key_label(55) == "kpasterisk"@,
        key_code_of_name("kpminus"@) == Some(74u16),
        key_label(74) == "kpminus"@,
        key_code_of_name("kpplus"@) == Some(78u16),
        key_label(78) == "kpplus"@,
{
    lemma_key_literals();
}

/// Every key code is read back from its label: the name written for a key
/// stands for that same key.
pub proof fn lemma_label_round_trip(code: u16)
    ensures
        key_code_of_name(key_label(code)) == Some(code),
{
    lemma_key_literals();
    let d = decimal(code as nat);
    crate::decimal::lemma_decimal(code as nat);
    lemma_parse_decimal(code as nat, 65535);
    let l = "code:"@ + d;
    assert(l.take(5) =~= "code:"@);
    assert(l.skip(5) =~= d);
    assert(l[0] == 'c');
    assert(l.len() >= 6);
}


/// Whether `c` may stand in a key label: `a`..`z`, `0`..`9` or `:`.
pub open spec fn is_plain_char(c: char) -> bool {
    ||| 97 <= (c as u32) <= 122
    ||| 48 <= (c as u32) <= 57
    ||| c == ':'
}

/// Whether `s` is non-empty text made of label characters only.
pub open spec fn is_plain(s: Seq<char>) -> bool {
    s.len() > 0 && forall|i: int| 0 <= i < s.len() ==> is_plain_char(#[trigger] s[i])
}

/// Every key label is plain text.
pub proof fn lemma_label_plain(code: u16)
    ensures
        is_plain(key_label(code)),
{
    lemma_plain_literals();
    lemma_key_literals();
    let d = decimal(code as nat);
    crate::decimal::lemma_decimal(code as nat);
    let l = "code:"@ + d;
    assert forall|i: int| 0 <= i < l.len() implies is_plain_char(#[trigger] l[i]) by {
        if i < 5 {
            assert(l[i] == "code:"@[i]);
            assert(i == 0 || i == 1 || i == 2 || i == 3 || i == 4);
        } else {
            assert(l[i] == d[i - 5]);
            assert(crate::decimal::is_digit(d[i - 5]));
        }
    }
}

/// Whether a key that sends `actual` counts as the key `expected` of a
/// hotkey: the same code, or the main-keyboard and keypad keys of `/`, `-`,
/// `+` and `*`, in either direction.
pub open spec fn key_codes_match(actual: u16, expected: u16) -> bool {
    ||| actual == expected
    ||| expected == KEY_SLASH && actual == KEY_KPSLASH
    ||| expected == KEY_MINUS && actual == KEY_KPMINUS
    ||| expected == KEY_EQUAL && actual == KEY_KPPLUS
    ||| expected == KEY_8 && actual == KEY_KPASTERISK
    ||| expected == KEY_KPSLASH && actual == KEY_SLASH
    ||| expected == KEY_KPMINUS && actual == KEY_MINUS
    ||| expected == KEY_KPPLUS && actual == KEY_EQUAL
    ||| expected == KEY_KPASTERISK && actual == KEY_8
}

/// Whether a key that sends `actual` counts as the key `expected`.
pub fn key_code_matches(actual: u16, expected: u16) -> (r: bool)
    ensures
        r == key_codes_match(actual, expected),
{
    if actual == expected {
        return true;
    }
    match expected {
        KEY_SLASH => actual == KEY_KPSLASH,
        KEY_MINUS => actual == KEY_KPMINUS,
        KEY_EQUAL => actual == KEY_KPPLUS,
        KEY_8 => actual == KEY_KPASTERISK,
        KEY_KPSLASH => actual == KEY_SLASH,
        KEY_KPMINUS => actual == KEY_MINUS,
        KEY_KPPLUS => actual == KEY_EQUAL,
        KEY_KPASTERISK => actual == KEY_8,
        _ => false,
    }
}

/// Matching keys is symmetric: each alias goes both ways.
pub proof fn lemma_key_match_symmetric(a: u16, b: u16)
    ensures
        key_codes_match(a, b) == key_codes_match(b, a),
{
}

/// A key counts as another exactly when it is the same key or the two are
/// the main-keyboard and keypad keys of `/` (53, 98), `-` (12, 74),
/// `=`/`+` (13, 78) or `8`/`*` (9, 55).
pub proof fn lemma_key_aliases(a: u16, b: u16)
    ensures
        key_codes_match(a, b) <==> (a == b || (a == 98 && b == 53) || (a == 53 && b == 98) || (a
            == 74 && b == 12) || (a == 12 && b == 74) || (a == 78 && b == 13) || (a == 13 && b
            == 78) || (a == 55 && b == 9) || (a == 9 && b == 55)),
{
}

/// Whether `code` is one of the eight modifier keys.
pub open spec fn is_modifier_code(code: u16) -> bool {
    ||| code == KEY_LEFTCTRL
    ||| code == KEY_RIGHTCTRL
    ||| code == KEY_LEFTALT
    ||| code == KEY_RIGHTALT
    ||| code == KEY_LEFTSHIFT
    ||| code == KEY_RIGHTSHIFT
    ||| code == KEY_LEFTMETA
    ||| code == KEY_RIGHTMETA
}

/// Whether `code` is one of the eight modifier keys.
pub fn is_modifier(code: u16) -> (r: bool)
    ensures
        r == is_modifier_code(code),
{
    code == KEY_LEFTCTRL || code == KEY_RIGHTCTRL || code == KEY_LEFTALT || code == KEY_RIGHTALT
        || code == KEY_LEFTSHIFT || code == KEY_RIGHTSHIFT || code == KEY_LEFTMETA || code
        == KEY_RIGHTMETA
}

} // verus!
