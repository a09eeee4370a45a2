//! Laws of the schedule codec and of the job list: what is written out is
//! read back, and the selection never leaves the list.

use vstd::prelude::*;
use crate::action::ActionView;
use crate::action::Module;
use crate::action::Target;
use crate::components::cron::CronJobView;
use crate::components::cron::CronView;
use crate::components::cron::utils::entry_text;
use crate::components::cron::utils::job_of;
use crate::components::cron::utils::next_run;
use crate::components::cron::utils::parse_lines;
use crate::components::cron::utils::parse_schedule;
use crate::components::cron::utils::schedule_text;
use crate::text::join;
use crate::text::laws::all_words;
use crate::text::laws::is_normalized;
use crate::text::laws::is_one_line;
use crate::text::laws::is_trimmed;
use crate::text::laws::lemma_comment_text;
use crate::text::laws::lemma_join_concat;
use crate::text::laws::lemma_join_shape;
use crate::text::laws::lemma_lines_are_one_line;
use crate::text::laws::lemma_lines_of_line;
use crate::text::laws::lemma_strip_hashes_shape;
use crate::text::laws::lemma_tokens_are_words;
use crate::text::laws::lemma_tokens_first;
use crate::text::laws::lemma_tokens_of_join;
use crate::text::laws::lemma_trim_shape;
use crate::text::laws::lemma_words_subrange;
use crate::text::lines;
use crate::text::strip_hashes;
use crate::text::tokens;
use crate::text::trim;

verus! {

/// One step of work on the job list.
pub enum ListOp {
    Next,
    Previous,
    First,
    Last,
    InsertOrReplace(Target, CronJobView),
    DeleteSelected,
    Load(Seq<CronJobView>),
    Point(u16, bool),
    Handle(ActionView, Module, int),
}

/// The list after one step.
pub open spec fn step(list: CronView, op: ListOp) -> CronView {
    match op {
        ListOp::Next => list.next_row(),
        ListOp::Previous => list.previous_row(),
        ListOp::First => list.first_row(),
        ListOp::Last => list.last_row(),
        ListOp::InsertOrReplace(target, record) => list.insert_or_replace(target, record),
        ListOp::DeleteSelected => list.delete_selected(),
        ListOp::Load(items) => list.with_items(items),
        ListOp::Point(row, released) => list.pointed(row, released),
        ListOp::Handle(action, active, now) => list.update(action, active, now),
    }
}

/// The list after the steps `ops`, taken in order.
pub open spec fn run(list: CronView, ops: Seq<ListOp>) -> CronView
    decreases ops.len(),
{
    if ops.len() == 0 {
        list
    } else {
        step(run(list, ops.drop_last()), ops.last())
    }
}

/// Selection bounds, one step: a step on a list whose selection is an
/// index of it, or none for an empty list, leaves such a list.
pub proof fn lemma_step_keeps_selection(list: CronView, op: ListOp)
    requires
        list.wf(),
    ensures
        step(list, op).wf(),
{
}

/// Selection bounds: after any sequence of steps on a list of length n the
/// selection is within `[0, n)`, and it is none if and only if n is zero.
pub proof fn lemma_selection_in_bounds(list: CronView, ops: Seq<ListOp>)
    requires
        list.wf(),
    ensures
        run(list, ops).wf(),
        run(list, ops).selected is None <==> run(list, ops).items.len() == 0,
        run(list, ops).selected matches Some(i) ==> 0 <= i < run(list, ops).items.len(),
    decreases ops.len(),
{
    if ops.len() > 0 {
        lemma_selection_in_bounds(list, ops.drop_last());
        lemma_step_keeps_selection(run(list, ops.drop_last()), ops.last());
    }
}

/// Wrap navigation: from the last record the next one is the first, from
/// the first the previous one is the last, and on an empty list neither
/// changes anything.
pub proof fn lemma_wrap_navigation(list: CronView)
    requires
        list.wf(),
    ensures
        list.selected == Some(list.items.len() - 1) ==> list.next_row().selected == Some(0int),
        list.selected == Some(0int) ==> list.previous_row().selected == Some(
            list.items.len() - 1,
        ),
        list.items.len() == 0 ==> list.next_row() == list && list.previous_row() == list,
{
}

/// A record that the schedule text holds as it is: its expression is five
/// words joined by single spaces and does not start with `#`; its command is
/// one or more words joined by single spaces; its description is trimmed
/// and holds no line feed.
pub open spec fn is_canonical(job: CronJobView) -> bool {
    &&& tokens(job.cron_notation).len() == 5
    &&& is_normalized(job.cron_notation)
    &&& job.cron_notation[0] != '#'
    &&& tokens(job.job).len() >= 1
    &&& is_normalized(job.job)
    &&& is_trimmed(job.job_description)
    &&& is_one_line(job.job_description)
}

/// The shape of every record that is read: as a canonical record, but for
/// the command, which may be empty.
pub open spec fn is_read_shape(job: CronJobView) -> bool {
    &&& tokens(job.cron_notation).len() == 5
    &&& is_normalized(job.cron_notation)
    &&& job.cron_notation[0] != '#'
    &&& is_normalized(job.job)
    &&& is_trimmed(job.job_description)
    &&& is_one_line(job.job_description)
}

/// The record of a job line has the shape of a record that is read.
proof fn lemma_job_of_shape(raw: Seq<char>, pending: Seq<char>, now: int)
    requires
        trim(raw).len() > 0,
        trim(raw)[0] != '#',
        tokens(trim(raw)).len() >= 5,
        is_trimmed(pending),
        is_one_line(pending),
    ensures
        is_read_shape(job_of(tokens(trim(raw)), pending, now)),
{
    let line = trim(raw);
    let words = tokens(line);
    lemma_trim_shape(raw);
    lemma_tokens_first(line);
    lemma_tokens_are_words(line);
    let a = words.take(5);
    let b = words.skip(5);
    assert(a == words.subrange(0, 5));
    assert(b == words.subrange(5, words.len() as int));
    lemma_words_subrange(words, 0, 5);
    lemma_words_subrange(words, 5, words.len() as int);
    lemma_tokens_of_join(a);
    lemma_tokens_of_join(b);
    lemma_join_shape(a);
    assert(a[0] == words[0]);
}

/// Every record that the lines yield has the shape of a record that is
/// read.
proof fn lemma_parse_lines_shape(ls: Seq<Seq<char>>, pending: Seq<char>, now: int)
    requires
        forall|i: int| 0 <= i < ls.len() ==> is_one_line(#[trigger] ls[i]),
        is_trimmed(pending),
        is_one_line(pending),
    ensures
        forall|i: int|
            0 <= i < parse_lines(ls, pending, now).len() ==> is_read_shape(
                #[trigger] parse_lines(ls, pending, now)[i],
            ),
    decreases ls.len(),
{
    if ls.len() > 0 {
        let line = trim(ls[0]);
        let rest = ls.drop_first();
        let none = Seq::<char>::empty();
        assert forall|i: int| 0 <= i < rest.len() implies is_one_line(#[trigger] rest[i]) by {
            assert(rest[i] == ls[i + 1]);
        }
        assert(is_one_line(ls[0]));
        lemma_trim_shape(ls[0]);
        if line.len() == 0 {
            lemma_parse_lines_shape(rest, pending, now);
            assert(parse_lines(ls, pending, now) == parse_lines(rest, pending, now));
        } else if line[0] == '#' {
            lemma_strip_hashes_shape(line);
            lemma_trim_shape(strip_hashes(line));
            lemma_parse_lines_shape(rest, trim(strip_hashes(line)), now);
            assert(parse_lines(ls, pending, now) == parse_lines(
                rest,
                trim(strip_hashes(line)),
                now,
            ));
        } else if tokens(line).len() < 5 {
            lemma_parse_lines_shape(rest, pending, now);
            assert(parse_lines(ls, pending, now) == parse_lines(rest, pending, now));
        } else {
            lemma_job_of_shape(ls[0], pending, now);
            lemma_parse_lines_shape(rest, none, now);
            let first = job_of(tokens(line), pending, now);
            let tail = parse_lines(rest, none, now);
            let all = parse_lines(ls, pending, now);
            assert(all == seq![first] + tail);
            assert forall|i: int| 0 <= i < all.len() implies is_read_shape(#[trigger] all[i]) by {
                if i > 0 {
                    assert(all[i] == tail[i - 1]);
                }
            }
        }
    }
}

/// Every record that is read from a schedule text and has a command is
/// canonical.
pub proof fn lemma_read_records_are_canonical(text: Seq<char>, now: int)
    ensures
        forall|i: int|
            0 <= i < parse_schedule(text, now).len() ==> {
                &&& is_read_shape(#[trigger] parse_schedule(text, now)[i])
                &&& parse_schedule(text, now)[i].job.len() > 0 ==> is_canonical(
                    parse_schedule(text, now)[i],
                )
            },
{
    lemma_lines_are_one_line(text);
    lemma_parse_lines_shape(lines(text), Seq::empty(), now);
    assert forall|i: int| 0 <= i < parse_schedule(text, now).len() implies {
        &&& is_read_shape(#[trigger] parse_schedule(text, now)[i])
        &&& parse_schedule(text, now)[i].job.len() > 0 ==> is_canonical(
            parse_schedule(text, now)[i],
        )
    } by {
        let job = parse_schedule(text, now)[i];
        assert(is_read_shape(job));
        if job.job.len() > 0 && tokens(job.job).len() == 0 {
            assert(join(tokens(job.job)).len() == 0);
        }
    }
}

/// Round trip, the other way: records with a command that read back as
/// they were written are canonical. So the canonical records are exactly
/// those for which the round trip holds.
pub proof fn lemma_round_trip_needs_canonical(jobs: Seq<CronJobView>, now: int)
    requires
        forall|i: int| 0 <= i < jobs.len() ==> (#[trigger] jobs[i]).job.len() > 0,
        same_entries(parse_schedule(schedule_text(jobs), now), jobs),
    ensures
        forall|i: int| 0 <= i < jobs.len() ==> is_canonical(#[trigger] jobs[i]),
{
    let back = parse_schedule(schedule_text(jobs), now);
    lemma_read_records_are_canonical(schedule_text(jobs), now);
    assert forall|i: int| 0 <= i < jobs.len() implies is_canonical(#[trigger] jobs[i]) by {
        assert(is_canonical(back[i]));
        assert(back[i].cron_notation == jobs[i].cron_notation);
        assert(back[i].job == jobs[i].job);
        assert(back[i].job_description == jobs[i].job_description);
    }
}

/// `job` with its next run taken anew after the instant `now`.
pub open spec fn refreshed(job: CronJobView, now: int) -> CronJobView {
    CronJobView {
        cron_notation: job.cron_notation,
        job: job.job,
        job_description: job.job_description,
        next_execution: next_run(job.cron_notation, now),
    }
}

/// Each of `jobs`, refreshed.
pub open spec fn refreshed_all(jobs: Seq<CronJobView>, now: int) -> Seq<CronJobView> {
    Seq::new(jobs.len(), |i: int| refreshed(jobs[i], now))
}

/// Whether two lists hold the same expressions, commands and descriptions
/// in the same order.
pub open spec fn same_entries(a: Seq<CronJobView>, b: Seq<CronJobView>) -> bool {
    &&& a.len() == b.len()
    &&& forall|i: int|
        0 <= i < a.len() ==> {
            &&& (#[trigger] a[i]).cron_notation == b[i].cron_notation
            &&& a[i].job == b[i].job
            &&& a[i].job_description == b[i].job_description
        }
}

/// The job line of a canonical record reads back as that record.
proof fn lemma_job_line(job: CronJobView, pending: Seq<char>, now: int)
    requires
        is_canonical(job),
    ensures
        ({
            let line = job.cron_notation + seq![' '] + job.job;
            &&& is_one_line(line)
            &&& trim(line) == line
            &&& line.len() > 0
            &&& line[0] != '#'
            &&& tokens(line).len() >= 5
            &&& job_of(tokens(line), pending, now) == (CronJobView {
                job_description: pending,
                ..refreshed(job, now)
            })
        }),
{
    let line = job.cron_notation + seq![' '] + job.job;
    let te = tokens(job.cron_notation);
    let tc = tokens(job.job);
    lemma_tokens_are_words(job.cron_notation);
    lemma_tokens_are_words(job.job);
    lemma_join_concat(te, tc);
    assert(join(te + tc) == line);
    assert(all_words(te + tc)) by {
        assert forall|i: int| 0 <= i < (te + tc).len() implies crate::text::is_word(
            #[trigger] (te + tc)[i],
        ) by {
            if i < te.len() {
                assert((te + tc)[i] == te[i]);
            } else {
                assert((te + tc)[i] == tc[i - te.len()]);
            }
        }
    }
    lemma_tokens_of_join(te + tc);
    lemma_join_shape(te + tc);
    lemma_join_shape(te);
    assert(line[0] == job.cron_notation[0]);
    assert((te + tc).take(5) == te);
    assert((te + tc).skip(5) == tc);
}

/// The entry of a canonical record, read in front of any text, yields that
/// record and then what the text yields.
proof fn lemma_parse_entry(job: CronJobView, rest: Seq<char>, now: int)
    requires
        is_canonical(job),
    ensures
        parse_schedule(entry_text(job) + rest, now) == seq![refreshed(job, now)] + parse_schedule(
            rest,
            now,
        ),
{
    let none = Seq::<char>::empty();
    let line = job.cron_notation + seq![' '] + job.job;
    let tail = lines(rest);
    lemma_tokens_are_words(job.job);
    lemma_join_shape(tokens(job.job));
    assert(job.job.len() > 0);
    if job.job_description.len() == 0 {
        lemma_job_line(job, none, now);
        assert(entry_text(job) + rest == line + seq!['\n'] + rest);
        lemma_lines_of_line(line, rest);
        let ls = seq![line] + tail;
        assert(ls.drop_first() == tail);
        assert(ls[0] == line);
        assert(job.job_description == none);
    } else {
        let text = job.job_description;
        let comment = seq!['#', ' '] + text;
        lemma_job_line(job, text, now);
        lemma_comment_text(text);
        assert(is_one_line(comment)) by {
            assert forall|i: int| 0 <= i < comment.len() implies #[trigger] comment[i]
                != '\n' by {
                if i >= 2 {
                    assert(comment[i] == text[i - 2]);
                }
            }
        }
        let after = line + seq!['\n'] + rest;
        assert(entry_text(job) + rest == comment + seq!['\n'] + after);
        lemma_lines_of_line(comment, after);
        lemma_lines_of_line(line, rest);
        let inner = seq![line] + tail;
        let outer = seq![comment] + inner;
        assert(outer.drop_first() == inner);
        assert(inner.drop_first() == tail);
        assert(outer[0] == comment);
        assert(inner[0] == line);
        assert(comment[0] == '#');
        assert(parse_lines(outer, none, now) == parse_lines(inner, text, now));
    }
}

/// The schedule text of canonical records, read in front of any text,
/// yields those records and then what the text yields.
proof fn lemma_parse_schedule_text(jobs: Seq<CronJobView>, rest: Seq<char>, now: int)
    requires
        forall|i: int| 0 <= i < jobs.len() ==> is_canonical(#[trigger] jobs[i]),
    ensures
        parse_schedule(schedule_text(jobs) + rest, now) == refreshed_all(jobs, now)
            + parse_schedule(rest, now),
    decreases jobs.len(),
{
    if jobs.len() == 0 {
        assert(schedule_text(jobs) + rest == rest);
        assert(refreshed_all(jobs, now) + parse_schedule(rest, now) == parse_schedule(rest, now));
    } else {
        let init = jobs.drop_last();
        let last = jobs.last();
        let after = entry_text(last) + rest;
        assert(schedule_text(jobs) + rest == schedule_text(init) + after);
        assert forall|i: int| 0 <= i < init.len() implies is_canonical(#[trigger] init[i]) by {
            assert(init[i] == jobs[i]);
        }
        lemma_parse_schedule_text(init, after, now);
        lemma_parse_entry(last, rest, now);
        assert(refreshed_all(init, now) + seq![refreshed(last, now)] == refreshed_all(jobs, now));
    }
}

/// Round trip: the schedule text written for canonical records reads back
/// as the same records, in order, each with its next run after `now`; so
/// expressions, commands and descriptions are the same as before.
pub proof fn lemma_round_trip(jobs: Seq<CronJobView>, now: int)
    requires
        forall|i: int| 0 <= i < jobs.len() ==> is_canonical(#[trigger] jobs[i]),
    ensures
        parse_schedule(schedule_text(jobs), now) == refreshed_all(jobs, now),
        same_entries(parse_schedule(schedule_text(jobs), now), jobs),
{
    let none = Seq::<char>::empty();
    lemma_parse_schedule_text(jobs, none, now);
    assert(schedule_text(jobs) + none == schedule_text(jobs));
    assert(parse_schedule(none, now) == Seq::<CronJobView>::empty());
    assert(refreshed_all(jobs, now) + Seq::<CronJobView>::empty() == refreshed_all(jobs, now));
}

} // verus!
