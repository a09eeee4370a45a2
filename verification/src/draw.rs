//! What the panels hand to the renderer besides their texts: the footer of
//! keybinding hints, laid out in lines, and a long text cut into lines.

use vstd::prelude::*;
use vstd::string::StringExecFns;
use crate::text::push_char;
use crate::text::texts;
use crate::text::to_chars;
use crate::text::to_text;

verus! {

/// No width above this one is told apart: it is wider than any terminal.
pub const WIDTH_CAP: usize = 0x1_0000;

/// The columns at both sides of the footer that stay free.
pub const FOOTER_MARGIN: u16 = 4;

/// The columns that a hint takes: its key, a space, its description and two
/// spaces behind it, by the lengths of the two texts.
pub open spec fn hint_width(key_len: int, description_len: int) -> int {
    key_len + 1 + description_len + 2
}

/// The columns that the footer offers to hints on a terminal `width` wide.
pub open spec fn footer_room(width: u16) -> int {
    if width >= FOOTER_MARGIN {
        width - FOOTER_MARGIN
    } else {
        0
    }
}

/// Filling the footer with hints of the widths `widths`, one after the
/// other: the numbers of hints on the lines that are full, the number of
/// hints on the open line, and the columns used on it. A hint that does not
/// fit behind the hints of the open line starts a new one.
pub open spec fn footer_fill(room: int, widths: Seq<int>) -> (Seq<nat>, nat, int)
    decreases widths.len(),
{
    if widths.len() == 0 {
        (Seq::empty(), 0, 0)
    } else {
        let (full, open, used) = footer_fill(room, widths.drop_last());
        if used + widths.last() > room && open > 0 {
            (full.push(open), 1, widths.last())
        } else {
            (full, open + 1, used + widths.last())
        }
    }
}

/// The layout of the footer: for each of its lines, the number of hints on
/// it. No line is empty.
pub open spec fn footer_layout(room: int, widths: Seq<int>) -> Seq<nat> {
    let (full, open, used) = footer_fill(room, widths);
    if open > 0 {
        full.push(open)
    } else {
        full
    }
}

/// The widths of `hints` as integers.
pub open spec fn widths_of(hints: Seq<usize>) -> Seq<int> {
    Seq::new(hints.len(), |i: int| hints[i] as int)
}

/// The numbers `counts` as natural numbers.
pub open spec fn counts_of(counts: Seq<usize>) -> Seq<nat> {
    Seq::new(counts.len(), |i: int| counts[i] as nat)
}

/// `text` cut into pieces of `size` characters; the last one may be
/// shorter. An empty text has no piece.
pub open spec fn chunks(text: Seq<char>, size: nat) -> Seq<Seq<char>>
    decreases text.len(),
{
    if text.len() == 0 || size == 0 {
        Seq::empty()
    } else if text.len() <= size {
        seq![text]
    } else {
        seq![text.take(size as int)] + chunks(text.skip(size as int), size)
    }
}

/// What the last check of a form's expression found; the renderer shows
/// the expression in an affirmative or a warning style by it.
#[derive(Debug, Clone, Copy, PartialEq, Eq, Structural)]
pub enum Signal {
    /// The expression has not been checked.
    Unchecked,
    /// The expression was valid.
    Valid,
    /// The expression was not valid.
    Invalid,
}

/// The style in which the block of a field is drawn.
#[derive(Debug, Clone, Copy, PartialEq, Eq, Structural)]
pub enum Tone {
    /// The field has the focus and holds a valid expression.
    Valid,
    /// The field has the focus and holds an invalid expression.
    Invalid,
    /// The field has the focus.
    Selected,
    /// The field does not have the focus.
    Unselected,
}

/// The block around a field of a form: its title and its style.
#[derive(Debug)]
pub struct FieldBlock {
    pub title: String,
    pub tone: Tone,
}

/// The mathematical value of a [`FieldBlock`].
pub struct FieldBlockView {
    pub title: Seq<char>,
    pub tone: Tone,
}

impl View for FieldBlock {
    type V = FieldBlockView;

    open spec fn view(&self) -> FieldBlockView {
        FieldBlockView { title: self.title@, tone: self.tone }
    }
}

/// The values of a list of blocks.
pub open spec fn block_views(blocks: Seq<FieldBlock>) -> Seq<FieldBlockView> {
    Seq::new(blocks.len(), |i: int| blocks[i]@)
}

/// The block of a field that does not hold the expression: its plain
/// title, selected if and only if it has the focus.
pub open spec fn plain_block(title: Seq<char>, focused: bool) -> FieldBlockView {
    FieldBlockView {
        title,
        tone: if focused {
            Tone::Selected
        } else {
            Tone::Unselected
        },
    }
}

/// The block of the expression field: without the focus, its plain title;
/// with it, the title says whether the expression is valid, and so does the
/// style.
pub open spec fn expression_block(focused: bool, valid: bool) -> FieldBlockView {
    if !focused {
        FieldBlockView { title: "Cron notation*"@, tone: Tone::Unselected }
    } else if valid {
        FieldBlockView { title: "Cron notation* (OK)"@, tone: Tone::Valid }
    } else {
        FieldBlockView {
            title: "Cron notation* ("@ + "Invalid cron expression"@ + seq![')'],
            tone: Tone::Invalid,
        }
    }
}

/// The signal after a check that found the expression `valid`.
pub open spec fn signal_of(valid: bool) -> Signal {
    if valid {
        Signal::Valid
    } else {
        Signal::Invalid
    }
}

/// Makes the block of a field that does not hold the expression.
pub fn make_plain_block(title: &str, focused: bool) -> (block: FieldBlock)
    ensures
        block@ == plain_block(title@, focused),
{
    FieldBlock {
        title: String::from_str(title),
        tone: if focused {
            Tone::Selected
        } else {
            Tone::Unselected
        },
    }
}

/// Makes the block of the expression field; `valid` is what the check of
/// the expression found.
pub fn make_expression_block(focused: bool, valid: bool) -> (block: FieldBlock)
    ensures
        block@ == expression_block(focused, valid),
{
    if !focused {
        FieldBlock { title: String::from_str("Cron notation*"), tone: Tone::Unselected }
    } else if valid {
        FieldBlock { title: String::from_str("Cron notation* (OK)"), tone: Tone::Valid }
    } else {
        let mut title = String::from_str("Cron notation* (");
        title.append("Invalid cron expression");
        push_char(&mut title, ')');
        assert(title@ == "Cron notation* ("@ + "Invalid cron expression"@ + seq![')']);
        FieldBlock { title, tone: Tone::Invalid }
    }
}

/// The columns that a hint with a key of `key_len` bytes and a description
/// of `description_len` bytes takes, capped at [`WIDTH_CAP`].
pub fn capped_hint_width(key_len: usize, description_len: usize) -> (w: usize)
    ensures
        w == if hint_width(key_len as int, description_len as int) < WIDTH_CAP {
            hint_width(key_len as int, description_len as int)
        } else {
            WIDTH_CAP as int
        },
{
    if key_len >= WIDTH_CAP || description_len >= WIDTH_CAP {
        WIDTH_CAP
    } else {
        let w: usize = key_len + 1 + description_len + 2;
        if w < WIDTH_CAP {
            w
        } else {
            WIDTH_CAP
        }
    }
}

/// `w`, capped at [`WIDTH_CAP`].
pub open spec fn capped(w: int) -> int {
    if w < WIDTH_CAP {
        w
    } else {
        WIDTH_CAP as int
    }
}

/// Lays the footer out for a terminal `width` wide: answers the number of
/// hints on each line, for hints of the widths `hints`.
pub fn footer_lines(width: u16, hints: &Vec<usize>) -> (lines: Vec<usize>)
    ensures
        counts_of(lines@) == footer_layout(footer_room(width), widths_of(hints@)),
{
    let room: usize = if width >= FOOTER_MARGIN {
        (width - FOOTER_MARGIN) as usize
    } else {
        0
    };
    let mut lines: Vec<usize> = Vec::new();
    let mut open: usize = 0;
    let mut used: usize = 0;
    let mut i: usize = 0;
    let ghost all = widths_of(hints@);
    assert(all.take(0) == Seq::<int>::empty());
    assert(counts_of(lines@) == Seq::<nat>::empty());
    while i < hints.len()
        invariant
            i <= hints.len(),
            all == widths_of(hints@),
            room == footer_room(width),
            room < WIDTH_CAP,
            open <= i,
            counts_of(lines@) == footer_fill(room as int, all.take(i as int)).0,
            open == footer_fill(room as int, all.take(i as int)).1,
            used == capped(footer_fill(room as int, all.take(i as int)).2),
            footer_fill(room as int, all.take(i as int)).2 >= 0,
        decreases hints.len() - i,
    {
        let ghost before = counts_of(lines@);
        proof {
            let upto = all.take(i + 1);
            assert(upto.drop_last() == all.take(i as int));
            assert(upto.last() == hints@[i as int]);
        }
        let w: usize = if hints[i] < WIDTH_CAP {
            hints[i]
        } else {
            WIDTH_CAP
        };
        if used + w > room && open > 0 {
            lines.push(open);
            assert(counts_of(lines@) == before.push(open as nat));
            open = 1;
            used = w;
        } else {
            open = open + 1;
            used = if used + w < WIDTH_CAP {
                used + w
            } else {
                WIDTH_CAP
            };
        }
        i += 1;
    }
    assert(all.take(hints.len() as int) == all);
    if open > 0 {
        let ghost before = counts_of(lines@);
        lines.push(open);
        assert(counts_of(lines@) == before.push(open as nat));
    }
    lines
}

/// Cuts `text` into lines of `size` characters.
pub fn wrap_text(text: &str, size: usize) -> (lines: Vec<String>)
    ensures
        texts(lines@) == chunks(text@, size as nat),
{
    let v = to_chars(text);
    let mut lines: Vec<String> = Vec::new();
    assert(texts(lines@) == Seq::<Seq<char>>::empty());
    if size == 0 {
        return lines;
    }
    let mut pos: usize = 0;
    assert(v@.skip(0) == v@);
    while pos < v.len()
        invariant
            pos <= v.len(),
            size > 0,
            v@ == text@,
            texts(lines@) + chunks(v@.skip(pos as int), size as nat) == chunks(
                text@,
                size as nat,
            ),
        decreases v.len() - pos,
    {
        let ghost rest = v@.skip(pos as int);
        let ghost before = texts(lines@);
        let end: usize = if v.len() - pos <= size {
            v.len()
        } else {
            pos + size
        };
        let line = to_text(&v, pos, end);
        proof {
            if v.len() - pos <= size {
                assert(rest == v@.subrange(pos as int, end as int));
                assert(v@.skip(end as int).len() == 0);
                assert(chunks(rest, size as nat) == seq![rest] + chunks(
                    v@.skip(end as int),
                    size as nat,
                ));
            } else {
                assert(rest.take(size as int) == v@.subrange(pos as int, end as int));
                assert(rest.skip(size as int) == v@.skip(end as int));
            }
        }
        lines.push(line);
        assert(texts(lines@) == before + seq![line@]);
        pos = end;
    }
    assert(chunks(v@.skip(pos as int), size as nat) == Seq::<Seq<char>>::empty());
    lines
}

} // verus!
