//! Character-level text utilities used by the parsers and formatters.

use vstd::prelude::*;

verus! {

/// Collects the characters of `s` into a vector.
pub fn chars_of(s: &str) -> (v: Vec<char>)
    ensures
        v@ == s@,
{
    let mut v: Vec<char> = Vec::new();
    for c in it: s.chars()
        invariant
            v@ == it.seq().take(it.index() as int),
            it.seq() == s@,
    {
        v.push(c);
    }
    v
}

/// Appends a character to a string (`String::push`): the string's characters
/// afterwards are the old ones followed by `c`.
#[verifier::external_body]
fn push_char(s: &mut String, c: char)
    ensures
        final(s)@ == old(s)@.push(c),
{
    s.push(c);
}

/// Builds a string from a vector of characters.
pub fn string_of(v: &Vec<char>) -> (s: String)
    ensures
        s@ == v@,
{
    let mut s = String::new();
    for i in 0..v.len()
        invariant
            s@ == v@.take(i as int),
    {
        push_char(&mut s, v[i]);
        assert(v@.take(i + 1) == v@.take(i as int).push(v@[i as int]));
    }
    assert(v@.take(v@.len() as int) == v@);
    s
}

/// Whether two character vectors are equal.
pub fn eq_chars(a: &Vec<char>, b: &Vec<char>) -> (r: bool)
    ensures
        r == (a@ == b@),
{
    if a.len() != b.len() {
        return false;
    }
    for i in 0..a.len()
        invariant
            a@.len() == b@.len(),
            forall|j: int| 0 <= j < i ==> a@[j] == b@[j],
    {
        if a[i] != b[i] {
            return false;
        }
    }
    assert(a@ == b@);
    true
}

/// Whether the characters of `a` spell the string `lit`.
pub fn is_str(a: &Vec<char>, lit: &str) -> (r: bool)
    ensures
        r == (a@ == lit@),
{
    let b = chars_of(lit);
    eq_chars(a, &b)
}

/// The characters of `v` from `start` up to `end`.
pub fn sub_chars(v: &Vec<char>, start: usize, end: usize) -> (r: Vec<char>)
    requires
        start <= end <= v@.len(),
    ensures
        r@ == v@.subrange(start as int, end as int),
{
    let mut r: Vec<char> = Vec::new();
    let mut i = start;
    while i < end
        invariant
            start <= i <= end <= v@.len(),
            r@ == v@.subrange(start as int, i as int),
        decreases end - i,
    {
        r.push(v[i]);
        assert(v@.subrange(start as int, i + 1) == v@.subrange(start as int, i as int).push(v@[i as int]));
        i = i + 1;
    }
    r
}

/// Appends all characters of `b` to `a`.
pub fn append_chars(a: &mut Vec<char>, b: &Vec<char>)
    ensures
        final(a)@ == old(a)@ + b@,
{
    for i in 0..b.len()
        invariant
            a@ == old(a)@ + b@.take(i as int),
    {
        a.push(b[i]);
        assert(b@.take(i + 1) == b@.take(i as int).push(b@[i as int]));
    }
    assert(b@.take(b@.len() as int) == b@);
}

/// Appends the characters of the string `s` to `a`.
pub fn append_str(a: &mut Vec<char>, s: &str)
    ensures
        final(a)@ == old(a)@ + s@,
{
    let b = chars_of(s);
    append_chars(a, &b);
}

/// Whether `c` has the Unicode `White_Space` property, which is what
/// `char::is_whitespace` and `str::trim` go by.
pub open spec fn is_white_space(c: char) -> bool {
    let n = c as u32;
    ||| 0x09 <= n <= 0x0d
    ||| n == 0x20
    ||| n == 0x85
    ||| n == 0xa0
    ||| n == 0x1680
    ||| 0x2000 <= n <= 0x200a
    ||| n == 0x2028
    ||| n == 0x2029
    ||| n == 0x202f
    ||| n == 0x205f
    ||| n == 0x3000
}

/// Whether `c` is white space.
pub fn white_space(c: char) -> (r: bool)
    ensures
        r == is_white_space(c),
{
    let n = c as u32;
    (0x09 <= n && n <= 0x0d) || n == 0x20 || n == 0x85 || n == 0xa0 || n == 0x1680 || (0x2000
        <= n && n <= 0x200a) || n == 0x2028 || n == 0x2029 || n == 0x202f || n == 0x205f || n
        == 0x3000
}

/// `s` without its leading white space.
pub open spec fn trim_start(s: Seq<char>) -> Seq<char>
    decreases s.len(),
{
    if s.len() > 0 && is_white_space(s[0]) {
        trim_start(s.drop_first())
    } else {
        s
    }
}

/// `s` without its trailing white space.
pub open spec fn trim_end(s: Seq<char>) -> Seq<char>
    decreases s.len(),
{
    if s.len() > 0 && is_white_space(s.last()) {
        trim_end(s.drop_last())
    } else {
        s
    }
}

/// `s` without leading and trailing white space, as `str::trim` gives it.
pub open spec fn trim(s: Seq<char>) -> Seq<char> {
    trim_end(trim_start(s))
}

/// `v` without leading and trailing white space.
pub fn trim_chars(v: &Vec<char>) -> (r: Vec<char>)
    ensures
        r@ == trim(v@),
{
    let n = v.len();
    let mut i: usize = 0;
    assert(v@.subrange(0, n as int) == v@);
    while i < n && white_space(v[i])
        invariant
            i <= n == v@.len(),
            trim_start(v@) == trim_start(v@.subrange(i as int, n as int)),
        decreases n - i,
    {
        assert(v@.subrange(i as int, n as int).drop_first() == v@.subrange(i + 1, n as int));
        i = i + 1;
    }
    assert(trim_start(v@.subrange(i as int, n as int)) == v@.subrange(i as int, n as int));
    let mut j: usize = n;
    while j > i && white_space(v[j - 1])
        invariant
            i <= j <= n == v@.len(),
            trim(v@) == trim_end(v@.subrange(i as int, j as int)),
        decreases j,
    {
        assert(v@.subrange(i as int, j as int).drop_last() == v@.subrange(i as int, j - 1));
        j = j - 1;
    }
    sub_chars(v, i, j)
}

} // verus!

verus! {

/// Whether every character of `s` is ASCII.
pub open spec fn all_ascii(s: Seq<char>) -> bool {
    forall|i: int| 0 <= i < s.len() ==> (s[i] as u32) < 128
}

/// ASCII lowercase of one character: `A`..`Z` become `a`..`z`, others stay.
pub open spec fn ascii_lower(c: char) -> char {
    if 65 <= (c as u32) <= 90 {
        ((c as u32) + 32) as char
    } else {
        c
    }
}

/// The lowercase mapping of a whole string that `str::to_lowercase` computes
/// from the Unicode character database.
pub uninterp spec fn unicode_lowercase(s: Seq<char>) -> Seq<char>;

/// The lowercase of `s`: on all-ASCII text, `A`..`Z` become `a`..`z` and
/// every other character stays; other text is mapped by the Unicode tables.
pub open spec fn lowercase(s: Seq<char>) -> Seq<char> {
    if all_ascii(s) {
        s.map_values(|c: char| ascii_lower(c))
    } else {
        unicode_lowercase(s)
    }
}

/// `str::to_lowercase`. On all-ASCII text the Unicode lowercase mapping is
/// the ASCII one, which maps `A`..`Z` to `a`..`z` and keeps every other
/// character; on other text (where one character may map to several) the
/// result is left to the name `unicode_lowercase`.
#[verifier::external_body]
fn str_to_lowercase(s: &str) -> (r: String)
    ensures
        all_ascii(s@) ==> r@ == s@.map_values(|c: char| ascii_lower(c)),
        !all_ascii(s@) ==> r@ == unicode_lowercase(s@),
{
    s.to_lowercase()
}

/// The lowercase of the characters of `v`.
pub fn lowercase_chars(v: &Vec<char>) -> (r: Vec<char>)
    ensures
        r@ == lowercase(v@),
{
    let s = string_of(v);
    let l = str_to_lowercase(s.as_str());
    chars_of(l.as_str())
}

/// `s` with every occurrence of `from` replaced by `to`, scanning from the
/// left and not letting occurrences overlap, as `str::replace` does.
pub open spec fn replace_all(s: Seq<char>, from: Seq<char>, to: Seq<char>) -> Seq<char>
    decreases s.len(),
{
    if from.len() == 0 || s.len() < from.len() {
        s
    } else if s.take(from.len() as int) == from {
        to + replace_all(s.skip(from.len() as int), from, to)
    } else {
        seq![s[0]] + replace_all(s.drop_first(), from, to)
    }
}

/// Whether `f` occurs in `s` at position `i`.
fn occurs_at(s: &Vec<char>, i: usize, f: &Vec<char>) -> (r: bool)
    requires
        i <= s@.len(),
    ensures
        r == (i + f@.len() <= s@.len() && s@.subrange(i as int, i + f@.len()) == f@),
{
    if f.len() > s.len() - i {
        return false;
    }
    for k in 0..f.len()
        invariant
            i + f@.len() <= s@.len(),
            s@.len() == s.len(),
            forall|j: int| 0 <= j < k ==> s@[i + j] == f@[j],
    {
        if s[i + k] != f[k] {
            assert(s@.subrange(i as int, i + f@.len())[k as int] != f@[k as int]);
            return false;
        }
    }
    assert(s@.subrange(i as int, i + f@.len()) == f@);
    true
}

/// `s` with every occurrence of `from` replaced by `to`.
pub fn replace_chars(s: &Vec<char>, from: &str, to: &str) -> (r: Vec<char>)
    requires
        from@.len() > 0,
    ensures
        r@ == replace_all(s@, from@, to@),
{
    let f = chars_of(from);
    let t = chars_of(to);
    let n = s.len();
    let mut out: Vec<char> = Vec::new();
    let mut i: usize = 0;
    assert(s@.skip(0) == s@);
    while i < n
        invariant
            i <= n == s@.len(),
            f@ == from@,
            t@ == to@,
            f@.len() > 0,
            out@ + replace_all(s@.skip(i as int), f@, t@) == replace_all(s@, f@, t@),
        decreases n - i,
    {
        let ghost rest = s@.skip(i as int);
        if occurs_at(s, i, &f) {
            assert(rest.take(f@.len() as int) == s@.subrange(i as int, i + f@.len()));
            assert(rest.skip(f@.len() as int) == s@.skip(i + f@.len()));
            let ghost out0 = out@;
            assert(replace_all(rest, f@, t@) == t@ + replace_all(s@.skip(i + f@.len()), f@, t@));
            append_chars(&mut out, &t);
            assert(out@ + replace_all(s@.skip(i + f@.len()), f@, t@) =~= out0 + (t@ + replace_all(
                s@.skip(i + f@.len()),
                f@,
                t@,
            )));
            i = i + f.len();
        } else {
            proof {
                if rest.len() >= f@.len() {
                    assert(rest.take(f@.len() as int) == s@.subrange(i as int, i + f@.len()));
                }
            }
            assert(rest.drop_first() == s@.skip(i + 1));
            assert(rest[0] == s@[i as int]);
            let ghost out0 = out@;
            assert(replace_all(rest, f@, t@) == seq![s@[i as int]] + replace_all(s@.skip(i + 1), f@, t@));
            out.push(s[i]);
            assert(out@ + replace_all(s@.skip(i + 1), f@, t@) =~= out0 + (seq![s@[i as int]]
                + replace_all(s@.skip(i + 1), f@, t@)));
            i = i + 1;
        }
    }
    assert(s@.skip(n as int) == Seq::<char>::empty());
    assert(out@ + Seq::<char>::empty() == out@);
    out
}

} // verus!

verus! {

/// The pieces of `s` between occurrences of `sep`, as `str::split` with a
/// character separator gives them: always at least one piece, and an empty
/// piece before, between or after separators where nothing stands there.
pub open spec fn split_char(s: Seq<char>, sep: char) -> Seq<Seq<char>>
    decreases s.len(),
{
    if s.len() == 0 {
        seq![Seq::<char>::empty()]
    } else {
        let prev = split_char(s.drop_last(), sep);
        if s.last() == sep {
            prev.push(Seq::<char>::empty())
        } else {
            prev.update(prev.len() - 1, prev.last().push(s.last()))
        }
    }
}

/// The pieces `ws` joined with `sep` between each two, as `[T]::join` gives them.
pub open spec fn join_char(ws: Seq<Seq<char>>, sep: char) -> Seq<char>
    decreases ws.len(),
{
    if ws.len() == 0 {
        Seq::<char>::empty()
    } else if ws.len() == 1 {
        ws[0]
    } else {
        join_char(ws.drop_last(), sep).push(sep) + ws.last()
    }
}

/// Splitting always gives at least one piece.
pub proof fn lemma_split_nonempty(s: Seq<char>, sep: char)
    ensures
        split_char(s, sep).len() >= 1,
    decreases s.len(),
{
    if s.len() > 0 {
        lemma_split_nonempty(s.drop_last(), sep);
    }
}

/// Appending text without the separator extends the last piece.
pub proof fn lemma_split_append(a: Seq<char>, b: Seq<char>, sep: char)
    requires
        !b.contains(sep),
    ensures
        split_char(a + b, sep) == split_char(a, sep).update(
            split_char(a, sep).len() - 1,
            split_char(a, sep).last() + b,
        ),
    decreases b.len(),
{
    lemma_split_nonempty(a, sep);
    let sa = split_char(a, sep);
    if b.len() == 0 {
        assert(a + b =~= a);
        assert(sa.last() + b =~= sa.last());
        assert(sa.update(sa.len() - 1, sa.last()) =~= sa);
    } else {
        let b0 = b.drop_last();
        assert(!b0.contains(sep)) by {
            if b0.contains(sep) {
                let k = choose|k: int| 0 <= k < b0.len() && b0[k] == sep;
                assert(b[k] == sep);
            }
        }
        lemma_split_append(a, b0, sep);
        assert((a + b).drop_last() =~= a + b0);
        assert((a + b).last() == b.last());
        assert(b.last() != sep) by {
            assert(b[b.len() - 1] == b.last());
        }
        assert(sa.last() + b =~= (sa.last() + b0).push(b.last()));
        assert(split_char(a + b, sep) =~= sa.update(sa.len() - 1, sa.last() + b));
    }
}

/// Splitting the join of pieces that hold no separator gives the pieces back.
pub proof fn lemma_split_join(ws: Seq<Seq<char>>, sep: char)
    requires
        ws.len() >= 1,
        forall|i: int| 0 <= i < ws.len() ==> !(#[trigger] ws[i]).contains(sep),
    ensures
        split_char(join_char(ws, sep), sep) == ws,
    decreases ws.len(),
{
    let w = ws.last();
    assert(!w.contains(sep)) by {
        assert(ws[ws.len() - 1] == w);
    }
    if ws.len() == 1 {
        lemma_split_append(Seq::<char>::empty(), w, sep);
        assert(Seq::<char>::empty() + w =~= w);
        assert(split_char(Seq::<char>::empty(), sep) == seq![Seq::<char>::empty()]);
        assert(Seq::<char>::empty() + w =~= w);
        assert(split_char(w, sep) =~= ws);
    } else {
        let rest = ws.drop_last();
        assert forall|i: int| 0 <= i < rest.len() implies !(#[trigger] rest[i]).contains(sep) by {
            assert(rest[i] == ws[i]);
        }
        lemma_split_join(rest, sep);
        let a = join_char(rest, sep).push(sep);
        assert(a.drop_last() =~= join_char(rest, sep));
        assert(split_char(a, sep) == rest.push(Seq::<char>::empty()));
        lemma_split_append(a, w, sep);
        assert(Seq::<char>::empty() + w =~= w);
        assert(rest.push(Seq::<char>::empty()).update(rest.len() as int, w) =~= ws);
    }
}

/// Every character of the join is the separator or a character of a piece.
pub proof fn lemma_join_chars(ws: Seq<Seq<char>>, sep: char, p: spec_fn(char) -> bool)
    requires
        p(sep),
        forall|i: int, j: int|
            0 <= i < ws.len() && 0 <= j < ws[i].len() ==> p(#[trigger] ws[i][j]),
    ensures
        forall|k: int| 0 <= k < join_char(ws, sep).len() ==> p(#[trigger] join_char(ws, sep)[k]),
    decreases ws.len(),
{
    if ws.len() == 1 {
        assert forall|k: int| 0 <= k < join_char(ws, sep).len() implies p(
            #[trigger] join_char(ws, sep)[k],
        ) by {
            assert(ws[0][k] == join_char(ws, sep)[k]);
        }
    } else if ws.len() > 1 {
        let rest = ws.drop_last();
        assert forall|i: int, j: int| 0 <= i < rest.len() && 0 <= j < rest[i].len() implies p(
            #[trigger] rest[i][j],
        ) by {
            assert(rest[i] == ws[i]);
        }
        lemma_join_chars(rest, sep, p);
        let a = join_char(rest, sep).push(sep);
        let w = ws.last();
        assert forall|k: int| 0 <= k < join_char(ws, sep).len() implies p(
            #[trigger] join_char(ws, sep)[k],
        ) by {
            if k < a.len() - 1 {
                assert(join_char(ws, sep)[k] == join_char(rest, sep)[k]);
            } else if k == a.len() - 1 {
                assert(join_char(ws, sep)[k] == sep);
            } else {
                assert(join_char(ws, sep)[k] == w[k - a.len()]);
                assert(ws[ws.len() - 1][k - a.len()] == w[k - a.len()]);
            }
        }
    }
}

/// The join starts with the first piece and ends with the last one.
pub proof fn lemma_join_ends(ws: Seq<Seq<char>>, sep: char)
    requires
        ws.len() >= 1,
        ws[0].len() > 0,
        ws.last().len() > 0,
    ensures
        join_char(ws, sep).len() > 0,
        join_char(ws, sep)[0] == ws[0][0],
        join_char(ws, sep).last() == ws.last().last(),
    decreases ws.len(),
{
    if ws.len() > 1 {
        let rest = ws.drop_last();
        if rest.len() > 1 {
            assert(rest[0] == ws[0]);
            assert(rest.last() == ws[ws.len() - 2]);
        }
        lemma_join_first(rest, sep);
        assert(rest[0] == ws[0]);
    }
}

/// The join begins with the first character of the first piece.
pub proof fn lemma_join_first(ws: Seq<Seq<char>>, sep: char)
    requires
        ws.len() >= 1,
        ws[0].len() > 0,
    ensures
        join_char(ws, sep).len() >= ws[0].len(),
        join_char(ws, sep)[0] == ws[0][0],
    decreases ws.len(),
{
    if ws.len() > 1 {
        let rest = ws.drop_last();
        assert(rest[0] == ws[0]);
        lemma_join_first(rest, sep);
    }
}

/// The pieces `ws` joined with `sep`.
pub fn join_chars(ws: &Vec<Vec<char>>, sep: char) -> (r: Vec<char>)
    ensures
        r@ == join_char(ws@.map_values(|w: Vec<char>| w@), sep),
{
    let ghost v = ws@.map_values(|w: Vec<char>| w@);
    let mut r: Vec<char> = Vec::new();
    if ws.len() == 0 {
        return r;
    }
    append_chars(&mut r, &ws[0]);
    assert(v.take(1).drop_last() =~= Seq::<Seq<char>>::empty());
    assert(r@ == join_char(v.take(1), sep)) by {
        assert(v.take(1)[0] == ws@[0]@);
    }
    for i in 1..ws.len()
        invariant
            v == ws@.map_values(|w: Vec<char>| w@),
            r@ == join_char(v.take(i as int), sep),
    {
        r.push(sep);
        append_chars(&mut r, &ws[i]);
        assert(v.take(i + 1).drop_last() =~= v.take(i as int));
        assert(v.take(i + 1).last() == ws@[i as int]@);
    }
    assert(v.take(ws@.len() as int) =~= v);
    r
}

} // verus!

verus! {

/// The pieces of `s` between occurrences of `sep`.
pub fn split_chars(s: &Vec<char>, sep: char) -> (r: Vec<Vec<char>>)
    ensures
        r@.map_values(|w: Vec<char>| w@) == split_char(s@, sep),
{
    let mut done: Vec<Vec<char>> = Vec::new();
    let mut cur: Vec<char> = Vec::new();
    assert(s@.take(0) =~= Seq::<char>::empty());
    assert(done@.map_values(|w: Vec<char>| w@).push(cur@) =~= split_char(s@.take(0), sep));
    for i in 0..s.len()
        invariant
            done@.map_values(|w: Vec<char>| w@).push(cur@) == split_char(s@.take(i as int), sep),
    {
        let c = s[i];
        let ghost prev = split_char(s@.take(i as int), sep);
        assert(s@.take(i + 1).drop_last() =~= s@.take(i as int));
        assert(s@.take(i + 1).last() == c);
        let ghost d0 = done@.map_values(|w: Vec<char>| w@);
        if c == sep {
            let old_cur = cur;
            cur = Vec::new();
            done.push(old_cur);
            assert(done@.map_values(|w: Vec<char>| w@) =~= d0.push(old_cur@));
            assert(done@.map_values(|w: Vec<char>| w@).push(cur@) =~= prev.push(
                Seq::<char>::empty(),
            ));
        } else {
            cur.push(c);
            assert(done@.map_values(|w: Vec<char>| w@).push(cur@) =~= prev.update(
                prev.len() - 1,
                prev.last().push(c),
            ));
        }
    }
    assert(s@.take(s@.len() as int) =~= s@);
    let ghost d0 = done@.map_values(|w: Vec<char>| w@);
    done.push(cur);
    assert(done@.map_values(|w: Vec<char>| w@) =~= d0.push(cur@));
    done
}

/// Where `c` first occurs in `s`, if it does.
pub open spec fn first_index(s: Seq<char>, c: char) -> Option<int> {
    if exists|i: int| 0 <= i < s.len() && s[i] == c {
        Some(
            choose|i: int|
                0 <= i < s.len() && s[i] == c && forall|j: int| 0 <= j < i ==> s[j] != c,
        )
    } else {
        None
    }
}

/// Where `c` first occurs in `v`, if it does.
pub fn find_char(v: &Vec<char>, c: char) -> (r: Option<usize>)
    ensures
        match r {
            Some(i) => first_index(v@, c) == Some(i as int) && i < v@.len(),
            None => first_index(v@, c) is None,
        },
{
    for i in 0..v.len()
        invariant
            forall|j: int| 0 <= j < i ==> v@[j] != c,
    {
        if v[i] == c {
            assert(0 <= i < v@.len() && v@[i as int] == c);
            let ghost k = choose|k: int|
                0 <= k < v@.len() && v@[k] == c && forall|j: int| 0 <= j < k ==> v@[j] != c;
            assert(0 <= i < v@.len() && v@[i as int] == c && forall|j: int|
                0 <= j < i ==> v@[j] != c);
            assert(k == i);
            return Some(i);
        }
    }
    None
}

} // verus!

verus! {

/// Trimming never makes text longer, and removes a leading white space.
pub proof fn lemma_trim_start_len(s: Seq<char>)
    ensures
        trim_start(s).len() <= s.len(),
        s.len() > 0 && is_white_space(s[0]) ==> trim_start(s).len() < s.len(),
    decreases s.len(),
{
    if s.len() > 0 && is_white_space(s[0]) {
        lemma_trim_start_len(s.drop_first());
    }
}

/// Trimming the end keeps a prefix; one that is non-empty when the text
/// starts with a character that is not white space.
pub proof fn lemma_trim_end_prefix(s: Seq<char>)
    ensures
        trim_end(s).len() <= s.len(),
        trim_end(s) == s.take(trim_end(s).len() as int),
        s.len() > 0 && is_white_space(s.last()) ==> trim_end(s).len() < s.len(),
        s.len() > 0 && !is_white_space(s[0]) ==> trim_end(s).len() > 0,
    decreases s.len(),
{
    if s.len() > 0 && is_white_space(s.last()) {
        let t = s.drop_last();
        lemma_trim_end_prefix(t);
        assert(t.take(trim_end(t).len() as int) =~= s.take(trim_end(t).len() as int));
        if s.len() > 1 && !is_white_space(s[0]) {
            assert(t[0] == s[0]);
        }
    } else {
        assert(s.take(s.len() as int) =~= s);
    }
}

/// Text that neither starts nor ends with white space is its own trim.
pub proof fn lemma_trim_id(s: Seq<char>)
    requires
        s.len() == 0 || (!is_white_space(s[0]) && !is_white_space(s.last())),
    ensures
        trim(s) == s,
{
}

/// Text that is its own trim neither starts nor ends with white space.
pub proof fn lemma_trim_fixed(s: Seq<char>)
    requires
        trim(s) == s,
        s.len() > 0,
    ensures
        !is_white_space(s[0]),
        !is_white_space(s.last()),
{
    lemma_trim_start_len(s);
    lemma_trim_end_prefix(trim_start(s));
    if is_white_space(s[0]) {
        assert(trim(s).len() < s.len());
    }
    assert(trim_start(s) == s);
    if is_white_space(s.last()) {
        assert(trim(s).len() < s.len());
    }
}

} // verus!

verus! {

/// Reading `s` word by word: the words finished so far and the word being
/// read (empty between words).
pub open spec fn words_progress(s: Seq<char>) -> (Seq<Seq<char>>, Seq<char>)
    decreases s.len(),
{
    if s.len() == 0 {
        (Seq::<Seq<char>>::empty(), Seq::<char>::empty())
    } else {
        let (done, cur) = words_progress(s.drop_last());
        if is_white_space(s.last()) {
            if cur.len() > 0 {
                (done.push(cur), Seq::<char>::empty())
            } else {
                (done, cur)
            }
        } else {
            (done, cur.push(s.last()))
        }
    }
}

/// The words of `s`: its non-empty runs of characters that are not white
/// space, as `str::split_whitespace` gives them.
pub open spec fn words(s: Seq<char>) -> Seq<Seq<char>> {
    let (done, cur) = words_progress(s);
    if cur.len() > 0 {
        done.push(cur)
    } else {
        done
    }
}

/// The words of `v`.
pub fn words_of(v: &Vec<char>) -> (r: Vec<Vec<char>>)
    ensures
        r@.map_values(|w: Vec<char>| w@) == words(v@),
{
    let mut done: Vec<Vec<char>> = Vec::new();
    let mut cur: Vec<char> = Vec::new();
    assert(v@.take(0) =~= Seq::<char>::empty());
    for i in 0..v.len()
        invariant
            (done@.map_values(|w: Vec<char>| w@), cur@) == words_progress(v@.take(i as int)),
    {
        let c = v[i];
        assert(v@.take(i + 1).drop_last() =~= v@.take(i as int));
        assert(v@.take(i + 1).last() == c);
        let ghost d0 = done@.map_values(|w: Vec<char>| w@);
        if white_space(c) {
            if cur.len() > 0 {
                let w = cur;
                cur = Vec::new();
                done.push(w);
                assert(done@.map_values(|w: Vec<char>| w@) =~= d0.push(w@));
            }
        } else {
            cur.push(c);
        }
    }
    assert(v@.take(v@.len() as int) =~= v@);
    if cur.len() > 0 {
        let ghost d0 = done@.map_values(|w: Vec<char>| w@);
        done.push(cur);
        assert(done@.map_values(|w: Vec<char>| w@) =~= d0.push(cur@));
    }
    done
}

/// Whether `w` is a non-empty run without white space.
pub open spec fn is_word(w: Seq<char>) -> bool {
    w.len() > 0 && forall|i: int| 0 <= i < w.len() ==> !is_white_space(#[trigger] w[i])
}

/// Reading a word after a break adds it as the word being read.
proof fn lemma_words_append(a: Seq<char>, w: Seq<char>)
    requires
        words_progress(a).1.len() == 0,
        forall|i: int| 0 <= i < w.len() ==> !is_white_space(#[trigger] w[i]),
    ensures
        words_progress(a + w) == (words_progress(a).0, w),
    decreases w.len(),
{
    if w.len() == 0 {
        assert(a + w =~= a);
    } else {
        let w0 = w.drop_last();
        lemma_words_append(a, w0);
        assert((a + w).drop_last() =~= a + w0);
        assert((a + w).last() == w[w.len() - 1]);
        assert(w0.push(w.last()) =~= w);
    }
}

/// The words of pieces without white space, joined with spaces and ending
/// in a line break, are the pieces.
pub proof fn lemma_words_join(ws: Seq<Seq<char>>)
    requires
        ws.len() >= 1,
        forall|i: int| 0 <= i < ws.len() ==> is_word(#[trigger] ws[i]),
    ensures
        words_progress(join_char(ws, ' ')) == (ws.drop_last(), ws.last()),
        words(join_char(ws, ' ').push('\n')) == ws,
    decreases ws.len(),
{
    let w = ws.last();
    assert(is_word(ws[ws.len() - 1]));
    if ws.len() == 1 {
        lemma_words_append(Seq::<char>::empty(), w);
        assert(Seq::<char>::empty() + w =~= w);
        assert(ws.drop_last() =~= Seq::<Seq<char>>::empty());
    } else {
        let rest = ws.drop_last();
        assert forall|i: int| 0 <= i < rest.len() implies is_word(#[trigger] rest[i]) by {
            assert(rest[i] == ws[i]);
        }
        lemma_words_join(rest);
        let a = join_char(rest, ' ').push(' ');
        assert(a.drop_last() =~= join_char(rest, ' '));
        assert(is_word(rest[rest.len() - 1]));
        assert(words_progress(a) == (rest.drop_last().push(rest.last()), Seq::<char>::empty()));
        assert(rest.drop_last().push(rest.last()) =~= rest);
        lemma_words_append(a, w);
    }
    let t = join_char(ws, ' ').push('\n');
    assert(t.drop_last() =~= join_char(ws, ' '));
    assert(ws.drop_last().push(w) =~= ws);
}

} // verus!
