//! Facts about trimming, words and lines that the schedule codec rests on.

use vstd::prelude::*;
use crate::text::is_space;
use crate::text::is_word;
use crate::text::join;
use crate::text::line_len;
use crate::text::lines;
use crate::text::strip_hashes;
use crate::text::tokens;
use crate::text::trim;
use crate::text::trim_end;
use crate::text::trim_start;
use crate::text::word_len;

verus! {

/// A text is trimmed when it neither starts nor ends with whitespace.
pub open spec fn is_trimmed(s: Seq<char>) -> bool {
    s.len() == 0 || (!is_space(s[0]) && !is_space(s.last()))
}

/// A text is one line when it holds no line feed.
pub open spec fn is_one_line(s: Seq<char>) -> bool {
    forall|i: int| 0 <= i < s.len() ==> #[trigger] s[i] != '\n'
}

/// Every text of `words` is a word.
pub open spec fn all_words(words: Seq<Seq<char>>) -> bool {
    forall|i: int| 0 <= i < words.len() ==> is_word(#[trigger] words[i])
}

/// A text is normalized when it is its own words joined by single spaces.
pub open spec fn is_normalized(s: Seq<char>) -> bool {
    join(tokens(s)) == s
}

/// A word that is followed by whitespace, or by nothing, ends there.
pub proof fn lemma_word_len_of_word(w: Seq<char>, rest: Seq<char>)
    requires
        forall|i: int| 0 <= i < w.len() ==> !is_space(#[trigger] w[i]),
        rest.len() == 0 || is_space(rest[0]),
    ensures
        word_len(w + rest) == w.len(),
    decreases w.len(),
{
    if w.len() > 0 {
        assert((w + rest).drop_first() == w.drop_first() + rest);
        assert forall|i: int| 0 <= i < w.drop_first().len() implies !is_space(
            #[trigger] w.drop_first()[i],
        ) by {
            assert(w.drop_first()[i] == w[i + 1]);
        }
        lemma_word_len_of_word(w.drop_first(), rest);
        assert((w + rest)[0] == w[0]);
    } else {
        assert(w + rest == rest);
    }
}

/// A line that is followed by a line feed ends there.
pub proof fn lemma_line_len_of_line(l: Seq<char>, rest: Seq<char>)
    requires
        is_one_line(l),
    ensures
        line_len(l + seq!['\n'] + rest) == l.len(),
    decreases l.len(),
{
    let s = l + seq!['\n'] + rest;
    if l.len() > 0 {
        assert(s.drop_first() == l.drop_first() + seq!['\n'] + rest);
        assert forall|i: int| 0 <= i < l.drop_first().len() implies #[trigger] l.drop_first()[i]
            != '\n' by {
            assert(l.drop_first()[i] == l[i + 1]);
        }
        lemma_line_len_of_line(l.drop_first(), rest);
        assert(s[0] == l[0]);
    } else {
        assert(s[0] == '\n');
    }
}

/// The lines of a line, a line feed and more text are that line and the
/// lines of the rest.
pub proof fn lemma_lines_of_line(l: Seq<char>, rest: Seq<char>)
    requires
        is_one_line(l),
    ensures
        lines(l + seq!['\n'] + rest) == seq![l] + lines(rest),
{
    let s = l + seq!['\n'] + rest;
    lemma_line_len_of_line(l, rest);
    assert(s.take(l.len() as int) == l);
    assert(s.skip(l.len() as int + 1) == rest);
}

/// Joining two lists of words joins each and puts one space between.
pub proof fn lemma_join_concat(a: Seq<Seq<char>>, b: Seq<Seq<char>>)
    requires
        a.len() > 0,
        b.len() > 0,
    ensures
        join(a + b) == join(a) + seq![' '] + join(b),
    decreases b.len(),
{
    assert((a + b).drop_last() == a + b.drop_last());
    assert((a + b).last() == b.last());
    if b.len() == 1 {
        assert(a + b.drop_last() == a);
    } else {
        lemma_join_concat(a, b.drop_last());
        assert(join(a + b) == (join(a) + seq![' '] + join(b.drop_last())) + seq![' '] + b.last());
        assert(join(b) == join(b.drop_last()) + seq![' '] + b.last());
        assert(join(a + b) == join(a) + seq![' '] + join(b));
    }
}

/// The first word can be split off a join.
pub proof fn lemma_join_first(words: Seq<Seq<char>>)
    requires
        words.len() >= 2,
    ensures
        join(words) == words[0] + seq![' '] + join(words.drop_first()),
{
    let head = seq![words[0]];
    assert(head + words.drop_first() == words);
    lemma_join_concat(head, words.drop_first());
}

/// A join of words is not empty, is trimmed and holds no whitespace but
/// single spaces: in particular it is one line.
pub proof fn lemma_join_shape(words: Seq<Seq<char>>)
    requires
        all_words(words),
        words.len() > 0,
    ensures
        join(words).len() > 0,
        join(words)[0] == words[0][0],
        is_trimmed(join(words)),
        is_one_line(join(words)),
    decreases words.len(),
{
    let j = join(words);
    let w = words.last();
    assert(is_word(w));
    if words.len() == 1 {
        assert(is_word(words[0]));
        assert forall|i: int| 0 <= i < j.len() implies #[trigger] j[i] != '\n' by {
            assert(!is_space(w[i]));
        }
    } else {
        let init = words.drop_last();
        assert forall|i: int| 0 <= i < init.len() implies is_word(#[trigger] init[i]) by {
            assert(init[i] == words[i]);
        }
        lemma_join_shape(init);
        let ji = join(init);
        assert(j == ji + seq![' '] + w);
        assert(j[0] == ji[0]);
        assert(init[0] == words[0]);
        assert(j.last() == w.last());
        assert forall|i: int| 0 <= i < j.len() implies #[trigger] j[i] != '\n' by {
            if i < ji.len() {
                assert(j[i] == ji[i]);
            } else if i == ji.len() {
                assert(j[i] == ' ');
            } else {
                assert(j[i] == w[i - ji.len() - 1]);
                assert(!is_space(w[i - ji.len() - 1]));
            }
        }
    }
}

/// The words of a join of words are those words.
pub proof fn lemma_tokens_of_join(words: Seq<Seq<char>>)
    requires
        all_words(words),
    ensures
        tokens(join(words)) == words,
    decreases words.len(),
{
    if words.len() == 0 {
    } else if words.len() == 1 {
        let w = words[0];
        assert(is_word(w));
        lemma_word_len_of_word(w, Seq::empty());
        assert(w + Seq::<char>::empty() == w);
        assert(w.take(w.len() as int) == w);
        assert(w.skip(w.len() as int) == Seq::<char>::empty());
        assert(tokens(w) == seq![w] + tokens(Seq::<char>::empty()));
        assert(seq![w] == words);
    } else {
        let w = words[0];
        let rest = words.drop_first();
        assert(is_word(w));
        assert forall|i: int| 0 <= i < rest.len() implies is_word(#[trigger] rest[i]) by {
            assert(rest[i] == words[i + 1]);
        }
        lemma_join_first(words);
        lemma_tokens_of_join(rest);
        let tail = seq![' '] + join(rest);
        let s = join(words);
        assert(s == w + tail);
        lemma_word_len_of_word(w, tail);
        assert(s[0] == w[0]);
        assert(s.take(w.len() as int) == w);
        assert(s.skip(w.len() as int) == tail);
        assert(tail.drop_first() == join(rest));
        assert(is_space(tail[0]));
        assert(tokens(tail) == tokens(join(rest)));
        assert(tokens(s) == seq![w] + tokens(tail));
        assert(seq![w] + rest == words);
    }
}

/// The words of any text are words.
pub proof fn lemma_tokens_are_words(s: Seq<char>)
    ensures
        all_words(tokens(s)),
    decreases s.len(),
{
    if s.len() == 0 {
    } else if is_space(s[0]) {
        lemma_tokens_are_words(s.drop_first());
    } else {
        let k = word_len(s) as int;
        crate::text::lemma_word_len_bound(s);
        lemma_tokens_are_words(s.skip(k));
        let w = s.take(k);
        let rest = tokens(s.skip(k));
        assert(is_word(w));
        assert forall|i: int| 0 <= i < tokens(s).len() implies is_word(#[trigger] tokens(s)[i]) by {
            if i > 0 {
                assert(tokens(s)[i] == rest[i - 1]);
            }
        }
    }
}

/// What trimming at the start leaves is the end of the text, and does not
/// start with whitespace.
pub proof fn lemma_trim_start_shape(s: Seq<char>)
    ensures
        trim_start(s).len() <= s.len(),
        trim_start(s) == s.skip(s.len() - trim_start(s).len()),
        trim_start(s).len() > 0 ==> !is_space(trim_start(s)[0]),
    decreases s.len(),
{
    if s.len() > 0 && is_space(s[0]) {
        let r = s.drop_first();
        lemma_trim_start_shape(r);
        assert(r.skip(r.len() - trim_start(r).len()) == s.skip(s.len() - trim_start(r).len()));
    } else {
        assert(s.skip(0) == s);
    }
}

/// What trimming at the end leaves is the start of the text, and does not
/// end with whitespace.
pub proof fn lemma_trim_end_shape(s: Seq<char>)
    ensures
        trim_end(s).len() <= s.len(),
        trim_end(s) == s.take(trim_end(s).len() as int),
        trim_end(s).len() > 0 ==> !is_space(trim_end(s).last()),
    decreases s.len(),
{
    if s.len() > 0 && is_space(s.last()) {
        let r = s.drop_last();
        lemma_trim_end_shape(r);
        assert(r.take(trim_end(r).len() as int) == s.take(trim_end(r).len() as int));
    } else {
        assert(s.take(s.len() as int) == s);
    }
}

/// A trimmed text is trimmed, and is one line if the text was.
pub proof fn lemma_trim_shape(s: Seq<char>)
    ensures
        is_trimmed(trim(s)),
        is_one_line(s) ==> is_one_line(trim(s)),
{
    let t = trim_start(s);
    lemma_trim_start_shape(s);
    lemma_trim_end_shape(t);
    let u = trim_end(t);
    if u.len() > 0 {
        assert(u[0] == t[0]);
    }
    if is_one_line(s) {
        assert forall|i: int| 0 <= i < u.len() implies #[trigger] u[i] != '\n' by {
            assert(u[i] == t[i]);
            assert(t[i] == s[i + (s.len() - t.len())]);
        }
    }
}

/// What is left without the leading `#` is the end of the text: one line
/// if the text was.
pub proof fn lemma_strip_hashes_shape(s: Seq<char>)
    ensures
        strip_hashes(s).len() <= s.len(),
        strip_hashes(s) == s.skip(s.len() - strip_hashes(s).len()),
        is_one_line(s) ==> is_one_line(strip_hashes(s)),
    decreases s.len(),
{
    if s.len() > 0 && s[0] == '#' {
        let r = s.drop_first();
        lemma_strip_hashes_shape(r);
        assert(r.skip(r.len() - strip_hashes(r).len()) == s.skip(
            s.len() - strip_hashes(r).len(),
        ));
    } else {
        assert(s.skip(0) == s);
    }
    let h = strip_hashes(s);
    if is_one_line(s) {
        assert forall|i: int| 0 <= i < h.len() implies #[trigger] h[i] != '\n' by {
            assert(h[i] == s[i + (s.len() - h.len())]);
        }
    }
}

/// Every line of a text is one line.
pub proof fn lemma_lines_are_one_line(s: Seq<char>)
    ensures
        forall|i: int| 0 <= i < lines(s).len() ==> is_one_line(#[trigger] lines(s)[i]),
    decreases s.len(),
{
    if s.len() == 0 {
    } else {
        crate::text::lemma_line_len_bound(s);
        let k = line_len(s) as int;
        if k >= s.len() {
            assert(is_one_line(s));
        } else {
            let head = s.take(k);
            let rest = lines(s.skip(k + 1));
            lemma_lines_are_one_line(s.skip(k + 1));
            assert(is_one_line(head)) by {
                assert forall|i: int| 0 <= i < head.len() implies #[trigger] head[i] != '\n' by {
                    assert(head[i] == s[i]);
                }
            }
            assert forall|i: int| 0 <= i < lines(s).len() implies is_one_line(
                #[trigger] lines(s)[i],
            ) by {
                if i > 0 {
                    assert(lines(s)[i] == rest[i - 1]);
                }
            }
        }
    }
}

/// The first word of a text that starts without whitespace starts with the
/// text's first character.
pub proof fn lemma_tokens_first(s: Seq<char>)
    requires
        s.len() > 0,
        !is_space(s[0]),
    ensures
        tokens(s).len() > 0,
        tokens(s)[0].len() > 0,
        tokens(s)[0][0] == s[0],
{
    crate::text::lemma_word_len_bound(s);
    let k = word_len(s) as int;
    assert(k >= 1);
    assert(tokens(s)[0] == s.take(k));
}

/// A part of a list of words is a list of words.
pub proof fn lemma_words_subrange(words: Seq<Seq<char>>, from: int, to: int)
    requires
        all_words(words),
        0 <= from <= to <= words.len(),
    ensures
        all_words(words.subrange(from, to)),
{
    let part = words.subrange(from, to);
    assert forall|i: int| 0 <= i < part.len() implies is_word(#[trigger] part[i]) by {
        assert(part[i] == words[from + i]);
    }
}

/// What is left of a comment line `# text` after its marker: the text.
pub proof fn lemma_comment_text(text: Seq<char>)
    requires
        is_trimmed(text),
        text.len() > 0,
    ensures
        trim(seq!['#', ' '] + text) == seq!['#', ' '] + text,
        trim(strip_hashes(seq!['#', ' '] + text)) == text,
{
    let c = seq!['#', ' '] + text;
    assert(c[0] == '#');
    assert(c.last() == text.last());
    let d = c.drop_first();
    assert(d == seq![' '] + text);
    assert(d[0] == ' ');
    assert(strip_hashes(d) == d);
    assert(strip_hashes(c) == d);
    assert(d.drop_first() == text);
    assert(trim_start(d) == trim_start(text));
    assert(trim_end(text) == text);
}

} // verus!
