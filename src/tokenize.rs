//! Splitting a command line into whitespace-separated tokens.

use vstd::prelude::*;

verus! {

/// The characters that separate tokens: the Unicode `White_Space` set.
pub open spec fn is_space(c: char) -> bool {
    ('\u{9}' <= c && c <= '\u{d}') || c == ' ' || c == '\u{85}' || c == '\u{a0}'
        || c == '\u{1680}' || ('\u{2000}' <= c && c <= '\u{200a}') || c == '\u{2028}'
        || c == '\u{2029}' || c == '\u{202f}' || c == '\u{205f}' || c == '\u{3000}'
}

/// Exec form of `is_space`.
pub fn space_char(c: char) -> (r: bool)
    ensures
        r == is_space(c),
{
    ('\u{9}' <= c && c <= '\u{d}') || c == ' ' || c == '\u{85}' || c == '\u{a0}'
        || c == '\u{1680}' || ('\u{2000}' <= c && c <= '\u{200a}') || c == '\u{2028}'
        || c == '\u{2029}' || c == '\u{202f}' || c == '\u{205f}' || c == '\u{3000}'
}


/// Splits `s` at whitespace, where `cur` holds the characters of a token
/// already begun before `s`.
pub open spec fn words_from(s: Seq<char>, cur: Seq<char>) -> Seq<Seq<char>>
    decreases s.len(),
{
    if s.len() == 0 {
        if cur.len() == 0 {
            seq![]
        } else {
            seq![cur]
        }
    } else if is_space(s[0]) {
        let rest = words_from(s.drop_first(), seq![]);
        if cur.len() == 0 {
            rest
        } else {
            seq![cur] + rest
        }
    } else {
        words_from(s.drop_first(), cur.push(s[0]))
    }
}

/// The maximal runs of non-whitespace characters of `s`, in order.
pub open spec fn words(s: Seq<char>) -> Seq<Seq<char>> {
    words_from(s, seq![])
}

/// The views of a sequence of strings.
pub open spec fn views(v: Seq<String>) -> Seq<Seq<char>> {
    v.map_values(|t: String| t@)
}

/// The characters of `s`, in order.
fn chars_of(s: &str) -> (r: Vec<char>)
    ensures
        r@ == s@,
{
    broadcast use vstd::string::axiom_spec_iter;

    let mut out: Vec<char> = Vec::new();
    for c in it: s.chars()
        invariant
            it.seq() == s@,
            out@ == it.seq().take(it.index()),
    {
        out.push(c);
    }
    out
}


/// The whitespace-separated tokens of `s`; none of them is empty.
pub fn split_tokens(s: &str) -> (r: Vec<String>)
    ensures
        views(r@) == words(s@),
        forall|k: int| 0 <= k < r.len() ==> r[k]@.len() > 0,
{
    let chars = chars_of(s);
    let n = chars.len();
    let mut out: Vec<String> = Vec::new();
    let mut start: usize = 0;
    let mut in_word: bool = false;
    let mut i: usize = 0;
    assert(s@.skip(0) =~= s@);
    while i < n
        invariant
            chars@ == s@,
            n == chars.len(),
            start <= i <= n,
            in_word ==> start < i,
            forall|k: int| 0 <= k < out.len() ==> out[k]@.len() > 0,
            words(s@) == views(out@) + words_from(
                s@.skip(i as int),
                if in_word { s@.subrange(start as int, i as int) } else { seq![] },
            ),
        decreases n - i,
    {
        let ghost cur = if in_word { s@.subrange(start as int, i as int) } else { seq![] };
        let ghost before = views(out@);
        assert(s@.skip(i as int).drop_first() =~= s@.skip(i + 1));
        assert(s@.skip(i as int)[0] == s@[i as int]);
        let c = chars[i];
        if space_char(c) {
            if in_word {
                let t = s.substring_char(start, i).to_owned();
                out.push(t);
                assert(views(out@) =~= before.push(cur));
                assert(before.push(cur) + words_from(s@.skip(i + 1), seq![]) =~= before + (
                seq![cur] + words_from(s@.skip(i + 1), seq![])));
                in_word = false;
            }
        } else {
            if !in_word {
                start = i;
                in_word = true;
            }
            assert(cur.push(c) =~= s@.subrange(start as int, i + 1));
        }
        i += 1;
    }
    let ghost cur = if in_word { s@.subrange(start as int, i as int) } else { seq![] };
    let ghost before = views(out@);
    if in_word {
        let t = s.substring_char(start, n).to_owned();
        out.push(t);
        assert(views(out@) =~= before.push(cur));
    }
    assert(views(out@) =~= before + words_from(s@.skip(i as int), cur));
    out
}


/// The tokens of a command line: its words, with the leading command marker
/// taken off the first one.
pub open spec fn command_tokens(s: Seq<char>) -> Seq<Seq<char>> {
    let w = words(s);
    if w.len() == 0 {
        w
    } else {
        w.update(0, w[0].drop_first())
    }
}

/// The tokens of a command line, marker removed from the first.
pub fn tokenize(input: &str) -> (r: Vec<String>)
    ensures
        views(r@) == command_tokens(input@),
{
    let mut toks = split_tokens(input);
    if toks.len() > 0 {
        let ghost w = views(toks@);
        let len = toks[0].as_str().unicode_len();
        let head = toks[0].as_str().substring_char(1, len).to_owned();
        toks.set(0, head);
        assert(views(toks@) =~= w.update(0, w[0].drop_first()));
    }
    toks
}

} // verus!
