//! Character-level helpers shared by the schedule codec: whitespace,
//! trimming, tokens and lines, each with its mathematical definition.

pub mod laws;

use vstd::prelude::*;
use vstd::string::StringExecFns;

verus! {

/// Whether `c` has the Unicode `White_Space` property.
pub open spec fn is_space(c: char) -> bool {
    let u = c as u32;
    ||| 0x09 <= u <= 0x0d
    ||| u == 0x20
    ||| u == 0x85
    ||| u == 0xa0
    ||| u == 0x1680
    ||| 0x2000 <= u <= 0x200a
    ||| u == 0x2028
    ||| u == 0x2029
    ||| u == 0x202f
    ||| u == 0x205f
    ||| u == 0x3000
}

/// Decides [`is_space`].
pub fn is_space_char(c: char) -> (b: bool)
    ensures
        b == is_space(c),
{
    let u: u32 = c as u32;
    (0x09 <= u && u <= 0x0d) || u == 0x20 || u == 0x85 || u == 0xa0 || u == 0x1680 || (0x2000 <= u
        && u <= 0x200a) || u == 0x2028 || u == 0x2029 || u == 0x202f || u == 0x205f || u == 0x3000
}

/// `s` without its leading whitespace.
pub open spec fn trim_start(s: Seq<char>) -> Seq<char>
    decreases s.len(),
{
    if s.len() > 0 && is_space(s[0]) {
        trim_start(s.drop_first())
    } else {
        s
    }
}

/// `s` without its trailing whitespace.
pub open spec fn trim_end(s: Seq<char>) -> Seq<char>
    decreases s.len(),
{
    if s.len() > 0 && is_space(s.last()) {
        trim_end(s.drop_last())
    } else {
        s
    }
}

/// `s` without its leading and trailing whitespace.
pub open spec fn trim(s: Seq<char>) -> Seq<char> {
    trim_end(trim_start(s))
}

/// `s` without its leading `#` characters.
pub open spec fn strip_hashes(s: Seq<char>) -> Seq<char>
    decreases s.len(),
{
    if s.len() > 0 && s[0] == '#' {
        strip_hashes(s.drop_first())
    } else {
        s
    }
}

/// Length of the longest prefix of `s` that holds no whitespace.
pub open spec fn word_len(s: Seq<char>) -> nat
    decreases s.len(),
{
    if s.len() > 0 && !is_space(s[0]) {
        1 + word_len(s.drop_first())
    } else {
        0
    }
}

/// The maximal whitespace-free pieces of `s`, in order.
pub open spec fn tokens(s: Seq<char>) -> Seq<Seq<char>>
    decreases s.len(),
    via tokens_decreases
{
    if s.len() == 0 {
        Seq::empty()
    } else if is_space(s[0]) {
        tokens(s.drop_first())
    } else {
        seq![s.take(word_len(s) as int)] + tokens(s.skip(word_len(s) as int))
    }
}

#[via_fn]
proof fn tokens_decreases(s: Seq<char>) {
    lemma_word_len_bound(s);
}

/// `words` joined by single spaces.
pub open spec fn join(words: Seq<Seq<char>>) -> Seq<char>
    decreases words.len(),
{
    if words.len() == 0 {
        Seq::empty()
    } else if words.len() == 1 {
        words[0]
    } else {
        join(words.drop_last()) + seq![' '] + words.last()
    }
}

/// Length of the longest prefix of `s` that holds no line feed.
pub open spec fn line_len(s: Seq<char>) -> nat
    decreases s.len(),
{
    if s.len() > 0 && s[0] != '\n' {
        1 + line_len(s.drop_first())
    } else {
        0
    }
}

/// The lines of `s`: the pieces between line feeds; a line feed at the very
/// end opens no further line.
pub open spec fn lines(s: Seq<char>) -> Seq<Seq<char>>
    decreases s.len(),
{
    if s.len() == 0 {
        Seq::empty()
    } else if line_len(s) >= s.len() {
        seq![s]
    } else {
        seq![s.take(line_len(s) as int)] + lines(s.skip(line_len(s) as int + 1))
    }
}

/// A word is a non-empty text without whitespace.
pub open spec fn is_word(w: Seq<char>) -> bool {
    w.len() > 0 && forall|i: int| 0 <= i < w.len() ==> !is_space(#[trigger] w[i])
}

/// The first word of a text lies within it, holds no whitespace, and ends
/// at whitespace or at the end of the text.
pub proof fn lemma_word_len_bound(s: Seq<char>)
    ensures
        word_len(s) <= s.len(),
        forall|i: int| 0 <= i < word_len(s) ==> !is_space(#[trigger] s[i]),
        word_len(s) < s.len() ==> is_space(s[word_len(s) as int]),
    decreases s.len(),
{
    if s.len() > 0 && !is_space(s[0]) {
        let r = s.drop_first();
        lemma_word_len_bound(r);
        assert forall|i: int| 0 <= i < word_len(s) implies !is_space(#[trigger] s[i]) by {
            if i > 0 {
                assert(s[i] == r[i - 1]);
            }
        }
    }
}

/// The first line of a text lies within it, holds no line feed, and ends at
/// a line feed or at the end of the text.
pub proof fn lemma_line_len_bound(s: Seq<char>)
    ensures
        line_len(s) <= s.len(),
        forall|i: int| 0 <= i < line_len(s) ==> #[trigger] s[i] != '\n',
        line_len(s) < s.len() ==> s[line_len(s) as int] == '\n',
    decreases s.len(),
{
    if s.len() > 0 && s[0] != '\n' {
        let r = s.drop_first();
        lemma_line_len_bound(r);
        assert forall|i: int| 0 <= i < line_len(s) implies #[trigger] s[i] != '\n' by {
            if i > 0 {
                assert(s[i] == r[i - 1]);
            }
        }
    }
}

/// Appends one character to a string (`String::push`): the text afterwards
/// is the text before followed by `c`.
#[verifier::external_body]
pub(crate) fn push_char(s: &mut String, c: char)
    ensures
        final(s)@ == old(s)@.push(c),
{
    s.push(c)
}

/// The characters of `s`, in order.
pub fn to_chars(s: &str) -> (v: Vec<char>)
    ensures
        v@ == s@,
{
    let mut v: Vec<char> = Vec::new();
    for c in it: s.chars()
        invariant
            it.seq() == s@,
            v@ == s@.take(it.index()),
    {
        v.push(c);
    }
    v
}

/// The text made of `v[from..to]`.
pub fn to_text(v: &Vec<char>, from: usize, to: usize) -> (s: String)
    requires
        from <= to <= v.len(),
    ensures
        s@ == v@.subrange(from as int, to as int),
{
    let mut s = String::new();
    let mut i: usize = from;
    while i < to
        invariant
            from <= i <= to <= v.len(),
            s@ == v@.subrange(from as int, i as int),
        decreases to - i,
    {
        push_char(&mut s, v[i]);
        i += 1;
    }
    s
}

/// The view of a list of strings: the list of their texts.
pub open spec fn texts(words: Seq<String>) -> Seq<Seq<char>> {
    Seq::new(words.len(), |i: int| words[i]@)
}

/// The first index in `[from, to]` from which `v[..to]` has no leading
/// whitespace left.
pub fn skip_spaces(v: &Vec<char>, from: usize, to: usize) -> (r: usize)
    requires
        from <= to <= v.len(),
    ensures
        from <= r <= to,
        v@.subrange(r as int, to as int) == trim_start(v@.subrange(from as int, to as int)),
{
    let mut r: usize = from;
    while r < to && is_space_char(v[r])
        invariant
            from <= r <= to <= v.len(),
            trim_start(v@.subrange(r as int, to as int)) == trim_start(
                v@.subrange(from as int, to as int),
            ),
        decreases to - r,
    {
        assert(v@.subrange(r as int, to as int).drop_first() == v@.subrange(r + 1, to as int));
        r += 1;
    }
    r
}

/// The last index in `[from, to]` up to which `v[from..]` has no trailing
/// whitespace left.
pub fn skip_trailing_spaces(v: &Vec<char>, from: usize, to: usize) -> (r: usize)
    requires
        from <= to <= v.len(),
    ensures
        from <= r <= to,
        v@.subrange(from as int, r as int) == trim_end(v@.subrange(from as int, to as int)),
{
    let mut r: usize = to;
    while r > from && is_space_char(v[r - 1])
        invariant
            from <= r <= to <= v.len(),
            trim_end(v@.subrange(from as int, r as int)) == trim_end(
                v@.subrange(from as int, to as int),
            ),
        decreases r - from,
    {
        assert(v@.subrange(from as int, r as int).drop_last() == v@.subrange(from as int, r - 1));
        r -= 1;
    }
    r
}

/// The bounds of `v[from..to]` without its leading and trailing whitespace.
pub fn trim_range(v: &Vec<char>, from: usize, to: usize) -> (r: (usize, usize))
    requires
        from <= to <= v.len(),
    ensures
        from <= r.0 <= r.1 <= to,
        v@.subrange(r.0 as int, r.1 as int) == trim(v@.subrange(from as int, to as int)),
{
    let a = skip_spaces(v, from, to);
    let b = skip_trailing_spaces(v, a, to);
    (a, b)
}

/// The first index in `[from, to]` from which `v[..to]` has no leading `#`
/// left.
pub fn skip_hashes(v: &Vec<char>, from: usize, to: usize) -> (r: usize)
    requires
        from <= to <= v.len(),
    ensures
        from <= r <= to,
        v@.subrange(r as int, to as int) == strip_hashes(v@.subrange(from as int, to as int)),
{
    let mut r: usize = from;
    while r < to && v[r] == '#'
        invariant
            from <= r <= to <= v.len(),
            strip_hashes(v@.subrange(r as int, to as int)) == strip_hashes(
                v@.subrange(from as int, to as int),
            ),
        decreases to - r,
    {
        assert(v@.subrange(r as int, to as int).drop_first() == v@.subrange(r + 1, to as int));
        r += 1;
    }
    r
}

/// The end of the word that starts at `from` in `v[..to]`.
pub fn word_stop(v: &Vec<char>, from: usize, to: usize) -> (r: usize)
    requires
        from <= to <= v.len(),
    ensures
        r == from + word_len(v@.subrange(from as int, to as int)),
        from <= r <= to,
{
    let mut r: usize = from;
    while r < to && !is_space_char(v[r])
        invariant
            from <= r <= to <= v.len(),
            r + word_len(v@.subrange(r as int, to as int)) == from + word_len(
                v@.subrange(from as int, to as int),
            ),
        decreases to - r,
    {
        assert(v@.subrange(r as int, to as int).drop_first() == v@.subrange(r + 1, to as int));
        r += 1;
    }
    r
}

/// The end of the line that starts at `from`: the index of the next line
/// feed, or the end of `v`.
pub fn line_stop(v: &Vec<char>, from: usize) -> (r: usize)
    requires
        from <= v.len(),
    ensures
        r == from + line_len(v@.skip(from as int)),
        from <= r <= v.len(),
{
    let mut r: usize = from;
    while r < v.len() && v[r] != '\n'
        invariant
            from <= r <= v.len(),
            r + line_len(v@.skip(r as int)) == from + line_len(v@.skip(from as int)),
        decreases v.len() - r,
    {
        assert(v@.skip(r as int).drop_first() == v@.skip(r + 1));
        r += 1;
    }
    r
}

/// The words of `v[from..to]`.
pub fn split_words(v: &Vec<char>, from: usize, to: usize) -> (words: Vec<String>)
    requires
        from <= to <= v.len(),
    ensures
        texts(words@) == tokens(v@.subrange(from as int, to as int)),
{
    let mut words: Vec<String> = Vec::new();
    let mut pos: usize = from;
    assert(texts(words@) =~= Seq::empty());
    while pos < to
        invariant
            from <= pos <= to <= v.len(),
            texts(words@) + tokens(v@.subrange(pos as int, to as int)) == tokens(
                v@.subrange(from as int, to as int),
            ),
        decreases to - pos,
    {
        let ghost rest = v@.subrange(pos as int, to as int);
        let ghost before = texts(words@);
        if is_space_char(v[pos]) {
            assert(rest.drop_first() == v@.subrange(pos + 1, to as int));
            pos += 1;
        } else {
            let end = word_stop(v, pos, to);
            let word = to_text(v, pos, end);
            proof {
                lemma_word_len_bound(rest);
                assert(rest.take(word_len(rest) as int) == v@.subrange(pos as int, end as int));
                assert(rest.skip(word_len(rest) as int) == v@.subrange(end as int, to as int));
            }
            words.push(word);
            assert(texts(words@) == before + seq![word@]);
            pos = end;
        }
    }
    assert(tokens(v@.subrange(pos as int, to as int)) == Seq::<Seq<char>>::empty());
    words
}

/// `words[from..to]` joined by single spaces.
pub fn join_words(words: &Vec<String>, from: usize, to: usize) -> (s: String)
    requires
        from <= to <= words.len(),
    ensures
        s@ == join(texts(words@).subrange(from as int, to as int)),
{
    let mut s = String::new();
    let mut i: usize = from;
    let ghost all = texts(words@);
    while i < to
        invariant
            from <= i <= to <= words.len(),
            all == texts(words@),
            s@ == join(all.subrange(from as int, i as int)),
        decreases to - i,
    {
        let ghost next = all.subrange(from as int, i + 1);
        assert(next.drop_last() == all.subrange(from as int, i as int));
        assert(next.last() == words@[i as int]@);
        if i > from {
            push_char(&mut s, ' ');
        }
        s.append(words[i].as_str());
        i += 1;
    }
    s
}

/// Whether `needle` stands in `hay` at index `i`.
pub open spec fn occurs_at(hay: Seq<char>, needle: Seq<char>, i: int) -> bool {
    0 <= i && i + needle.len() <= hay.len() && hay.subrange(i, i + needle.len()) == needle
}

/// Whether `needle` stands somewhere in `hay`.
pub open spec fn contains_text(hay: Seq<char>, needle: Seq<char>) -> bool {
    exists|i: int| occurs_at(hay, needle, i)
}

/// Decides [`occurs_at`].
fn matches_at(hay: &Vec<char>, needle: &Vec<char>, i: usize) -> (b: bool)
    requires
        i + needle.len() <= hay.len(),
    ensures
        b == occurs_at(hay@, needle@, i as int),
{
    let mut k: usize = 0;
    while k < needle.len()
        invariant
            k <= needle.len(),
            i + needle.len() <= hay.len(),
            forall|j: int| 0 <= j < k ==> hay@[i + j] == needle@[j],
        decreases needle.len() - k,
    {
        if hay[i + k] != needle[k] {
            assert(hay@.subrange(i as int, i + needle.len())[k as int] != needle@[k as int]);
            return false;
        }
        k += 1;
    }
    assert(hay@.subrange(i as int, i + needle.len()) =~= needle@);
    true
}

/// Whether `needle` stands somewhere in `hay`.
pub fn contains(hay: &str, needle: &str) -> (b: bool)
    ensures
        b == contains_text(hay@, needle@),
{
    let h = to_chars(hay);
    let n = to_chars(needle);
    if n.len() > h.len() {
        return false;
    }
    let last: usize = h.len() - n.len();
    let mut i: usize = 0;
    while i < last
        invariant
            h@ == hay@,
            n@ == needle@,
            last == h.len() - n.len(),
            n.len() <= h.len(),
            i <= last,
            forall|j: int| 0 <= j < i ==> !occurs_at(h@, n@, j),
        decreases last - i,
    {
        if matches_at(&h, &n, i) {
            return true;
        }
        i += 1;
    }
    matches_at(&h, &n, last)
}

/// Whether the character `c` occurs in `s`.
pub fn contains_char(s: &str, c: char) -> (b: bool)
    ensures
        b == s@.contains(c),
{
    let v = to_chars(s);
    let mut i: usize = 0;
    while i < v.len()
        invariant
            i <= v.len(),
            v@ == s@,
            forall|j: int| 0 <= j < i ==> v@[j] != c,
        decreases v.len() - i,
    {
        if v[i] == c {
            return true;
        }
        i += 1;
    }
    false
}

} // verus!
