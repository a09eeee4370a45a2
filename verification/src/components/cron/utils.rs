//! The schedule codec and the projections of a schedule expression.

use vstd::prelude::*;
use vstd::string::StringExecFns;
use crate::components::cron::CronJob;
use crate::components::cron::CronJobView;
use crate::components::cron::laws::is_canonical;
use crate::components::cron::views;
use crate::text::contains;
use crate::text::contains_char;
use crate::text::contains_text;
use crate::text::is_space_char;
use crate::text::join;
use crate::text::join_words;
use crate::text::laws::is_normalized;
use crate::text::laws::is_one_line;
use crate::text::laws::is_trimmed;
use crate::text::lemma_line_len_bound;
use crate::text::line_len;
use crate::text::line_stop;
use crate::text::lines;
use crate::text::push_char;
use crate::text::skip_hashes;
use crate::text::split_words;
use crate::text::strip_hashes;
use crate::text::texts;
use crate::text::to_chars;
use crate::text::to_text;
use crate::text::tokens;
use crate::text::trim;
use crate::text::trim_range;

verus! {

/// What `cron_parser::parse` yields for `expression` and the UTC instant
/// `now` seconds after the Unix epoch, as plain values: the display text of
/// the first occurrence strictly after that instant, or `None` where the
/// instant cannot be represented or the parser returns an error.
pub uninterp spec fn next_occurrence(expression: Seq<char>, now: int) -> Option<Seq<char>>;

/// Calls `cron_parser::parse` on `expression` and on the UTC instant that
/// `chrono::DateTime::from_timestamp` makes of `now`, and formats the
/// occurrence it returns. The contract names the outcome
/// [`next_occurrence`]; of the text it claims only that it is not empty, as
/// chrono writes a date, a time and the zone.
#[verifier::external_body]
fn find_next_occurrence(expression: &str, now: i64) -> (r: Option<String>)
    ensures
        r matches Some(t) ==> next_occurrence(expression@, now as int) == Some(t@) && t@.len() > 0,
        r is None ==> next_occurrence(expression@, now as int) is None,
{
    let after = match chrono::DateTime::from_timestamp(now, 0) {
        Some(after) => after,
        None => return None,
    };
    match cron_parser::parse(expression, &after) {
        Ok(next) => Some(format!("{}", next)),
        Err(_) => None,
    }
}

/// The text shown in place of a next run when the expression is invalid.
pub open spec fn invalid_marker() -> Seq<char> {
    "Invalid cron expression"@
}

/// The text shown for an outcome of the search for the next occurrence.
pub open spec fn next_run_of(found: Option<Seq<char>>) -> Seq<char> {
    match found {
        Some(t) => t,
        None => invalid_marker(),
    }
}

/// The next-run text of `expression` at the instant `now`.
pub open spec fn next_run(expression: Seq<char>, now: int) -> Seq<char> {
    next_run_of(next_occurrence(expression, now))
}

/// Whether `expression`, once trimmed, has an occurrence after `now`.
pub open spec fn is_valid(expression: Seq<char>, now: int) -> bool {
    next_occurrence(trim(expression), now) is Some
}

/// The display text for the outcome of a search for the next occurrence:
/// the occurrence, or the fixed marker of an invalid expression.
pub fn next_execution_text(found: Option<String>) -> (r: String)
    ensures
        r@ == next_run_of(
            match found {
                Some(t) => Some(t@),
                None => None,
            },
        ),
        found is None ==> r@ == "Invalid cron expression"@,
        found matches Some(t) ==> r@ == t@,
{
    match found {
        Some(t) => t,
        None => String::from_str("Invalid cron expression"),
    }
}

/// The next trigger time of `cron_expr` after the instant `now` (seconds
/// since the Unix epoch, UTC), as display text; the invalid marker where
/// there is none.
pub fn get_next_execution(cron_expr: &str, now: i64) -> (r: String)
    ensures
        r@ == next_run(cron_expr@, now as int),
        next_occurrence(cron_expr@, now as int) is None ==> r@ == "Invalid cron expression"@,
        r@.len() > 0,
{
    proof {
        reveal_strlit("Invalid cron expression");
    }
    next_execution_text(find_next_occurrence(cron_expr, now))
}

/// The record that a job line with the words `words` yields under the
/// pending description.
pub open spec fn job_of(words: Seq<Seq<char>>, description: Seq<char>, now: int) -> CronJobView {
    CronJobView {
        cron_notation: join(words.take(5)),
        job: join(words.skip(5)),
        job_description: description,
        next_execution: next_run(join(words.take(5)), now),
    }
}

/// The records of the lines `ls`, read under the pending description
/// `pending`. A blank line is skipped. A line that starts with `#` sets the
/// pending description. Any other line with at least five words yields a
/// record, which takes the pending description; one with fewer is dropped.
pub open spec fn parse_lines(ls: Seq<Seq<char>>, pending: Seq<char>, now: int) -> Seq<CronJobView>
    decreases ls.len(),
{
    if ls.len() == 0 {
        Seq::empty()
    } else {
        let line = trim(ls[0]);
        let rest = ls.drop_first();
        if line.len() == 0 {
            parse_lines(rest, pending, now)
        } else if line[0] == '#' {
            parse_lines(rest, trim(strip_hashes(line)), now)
        } else if tokens(line).len() < 5 {
            parse_lines(rest, pending, now)
        } else {
            seq![job_of(tokens(line), pending, now)] + parse_lines(rest, Seq::empty(), now)
        }
    }
}

/// The records that the schedule text `text` holds, with their next runs
/// after the instant `now`.
pub open spec fn parse_schedule(text: Seq<char>, now: int) -> Seq<CronJobView> {
    parse_lines(lines(text), Seq::empty(), now)
}

/// The lines that `job` takes in the schedule text: none for an empty
/// command; else a comment line for a description that is not empty, and the
/// job line.
pub open spec fn entry_text(job: CronJobView) -> Seq<char> {
    if job.job.len() == 0 {
        Seq::empty()
    } else if job.job_description.len() == 0 {
        job.cron_notation + seq![' '] + job.job + seq!['\n']
    } else {
        seq!['#', ' '] + job.job_description + seq!['\n'] + job.cron_notation + seq![' ']
            + job.job + seq!['\n']
    }
}

/// The schedule text of the records `jobs`: their entries in list order.
pub open spec fn schedule_text(jobs: Seq<CronJobView>) -> Seq<char>
    decreases jobs.len(),
{
    if jobs.len() == 0 {
        Seq::empty()
    } else {
        schedule_text(jobs.drop_last()) + entry_text(jobs.last())
    }
}

/// Reads the records out of the schedule text `text`; the next run of each
/// is taken after the instant `now`.
pub fn parse_crontab(text: &str, now: i64) -> (jobs: Vec<CronJob>)
    ensures
        views(jobs@) == parse_schedule(text@, now as int),
{
    let v = to_chars(text);
    let mut jobs: Vec<CronJob> = Vec::new();
    let mut pending = String::new();
    let mut pos: usize = 0;
    assert(v@.skip(0) == v@);
    assert(views(jobs@) == Seq::<CronJobView>::empty());
    while pos < v.len()
        invariant
            pos <= v.len(),
            v@ == text@,
            views(jobs@) + parse_lines(lines(v@.skip(pos as int)), pending@, now as int)
                == parse_schedule(text@, now as int),
        decreases v.len() - pos,
    {
        let end = line_stop(&v, pos);
        let next: usize = if end < v.len() {
            end + 1
        } else {
            end
        };
        let ghost rest = v@.skip(pos as int);
        let ghost line = v@.subrange(pos as int, end as int);
        let ghost tail = lines(v@.skip(next as int));
        let ghost before = views(jobs@);
        let ghost old_pending = pending@;
        proof {
            lemma_line_len_bound(rest);
            if end < v.len() {
                assert(rest.take(line_len(rest) as int) == line);
                assert(rest.skip(line_len(rest) as int + 1) == v@.skip(next as int));
            } else {
                assert(rest == line);
                assert(v@.skip(next as int).len() == 0);
            }
            assert(lines(rest) == seq![line] + tail);
            assert((seq![line] + tail).drop_first() == tail);
        }
        let (a, b) = trim_range(&v, pos, end);
        if a < b {
            if v[a] == '#' {
                let c = skip_hashes(&v, a, b);
                let (d, e) = trim_range(&v, c, b);
                pending = to_text(&v, d, e);
            } else {
                let words = split_words(&v, a, b);
                if words.len() >= 5 {
                    let expression = join_words(&words, 0, 5);
                    let command = join_words(&words, 5, words.len());
                    let next_execution = get_next_execution(expression.as_str(), now);
                    proof {
                        let ws = texts(words@);
                        assert(ws.subrange(0, 5) == ws.take(5));
                        assert(ws.subrange(5, words.len() as int) == ws.skip(5));
                    }
                    let job = CronJob {
                        cron_notation: expression,
                        job: command,
                        job_description: pending,
                        next_execution,
                    };
                    assert(job@ == job_of(tokens(trim(line)), old_pending, now as int));
                    jobs.push(job);
                    pending = String::new();
                    assert(views(jobs@) == before + seq![job@]);
                }
            }
        }
        pos = next;
    }
    assert(lines(v@.skip(pos as int)) == Seq::<Seq<char>>::empty());
    jobs
}

/// Writes the records `cron_jobs` out as schedule text: the entries of
/// those with a command, in list order, each line ended by a line feed.
pub fn to_crontab(cron_jobs: &Vec<CronJob>) -> (text: String)
    ensures
        text@ == schedule_text(views(cron_jobs@)),
{
    let mut text = String::new();
    let mut i: usize = 0;
    let ghost all = views(cron_jobs@);
    assert(all.take(0) == Seq::<CronJobView>::empty());
    while i < cron_jobs.len()
        invariant
            i <= cron_jobs.len(),
            all == views(cron_jobs@),
            text@ == schedule_text(all.take(i as int)),
        decreases cron_jobs.len() - i,
    {
        let job = &cron_jobs[i];
        let ghost before = text@;
        proof {
            let upto = all.take(i + 1);
            assert(upto.drop_last() == all.take(i as int));
            assert(upto.last() == job@);
        }
        if !job.job.as_str().is_empty() {
            if !job.job_description.as_str().is_empty() {
                push_char(&mut text, '#');
                push_char(&mut text, ' ');
                text.append(job.job_description.as_str());
                push_char(&mut text, '\n');
            }
            text.append(job.cron_notation.as_str());
            push_char(&mut text, ' ');
            text.append(job.job.as_str());
            push_char(&mut text, '\n');
        }
        assert(text@ == before + entry_text(job@));
        i += 1;
    }
    assert(all.take(cron_jobs.len() as int) == all);
    text
}

/// What the host's "list current schedule" query came back with.
#[derive(Debug, Clone)]
pub enum Listing {
    /// The query succeeded; this is the schedule text.
    Listed(String),
    /// The query ended in failure; this is what it wrote to its error stream.
    Refused(String),
    /// The query could not be run or its output could not be read; this is
    /// the message of the failure.
    Unavailable(String),
}

/// Why no records could be read.
#[derive(Debug, Clone)]
pub enum LoadError {
    /// The host refused the query, and not because there is no schedule.
    Refused,
    /// The query could not be run or read.
    Unavailable(String),
}

/// The message of a [`LoadError`].
pub open spec fn load_error_text(e: LoadError) -> Seq<char> {
    match e {
        LoadError::Refused => "Failed to read crontab"@,
        LoadError::Unavailable(message) => message@,
    }
}

impl LoadError {
    /// The message of this error.
    pub fn message(&self) -> (r: String)
        ensures
            r@ == load_error_text(*self),
    {
        match self {
            LoadError::Refused => String::from_str("Failed to read crontab"),
            LoadError::Unavailable(message) => message.clone(),
        }
    }
}

/// The single record that stands for "the host has no schedule".
pub open spec fn no_schedule_record() -> CronJobView {
    CronJobView {
        cron_notation: "User has no crontab"@,
        job: Seq::empty(),
        job_description: Seq::empty(),
        next_execution: Seq::empty(),
    }
}

/// The single record that reports a failed load with its message.
pub open spec fn error_record(message: Seq<char>) -> CronJobView {
    CronJobView {
        cron_notation: "Error: "@ + message,
        job: Seq::empty(),
        job_description: Seq::empty(),
        next_execution: Seq::empty(),
    }
}

/// Whether a refusal of the listing query says that there is no schedule.
pub open spec fn reports_no_schedule(complaint: Seq<char>) -> bool {
    contains_text(complaint, "no crontab for"@)
}

/// A record with the expression `notation` and nothing else.
fn placeholder(notation: String) -> (r: CronJob)
    ensures
        r@ == (CronJobView {
            cron_notation: notation@,
            job: Seq::empty(),
            job_description: Seq::empty(),
            next_execution: Seq::empty(),
        }),
{
    CronJob {
        cron_notation: notation,
        job: String::new(),
        job_description: String::new(),
        next_execution: String::new(),
    }
}

/// The records of a listing: those of the schedule text; the "no schedule"
/// record where the host says that none is configured; an error for any
/// other failure.
pub fn from_crontab(listing: &Listing, now: i64) -> (r: Result<Vec<CronJob>, LoadError>)
    ensures
        match *listing {
            Listing::Listed(text) => r matches Ok(jobs) && views(jobs@) == parse_schedule(
                text@,
                now as int,
            ),
            Listing::Refused(complaint) => if reports_no_schedule(complaint@) {
                r matches Ok(jobs) && views(jobs@) == seq![no_schedule_record()]
            } else {
                r matches Err(LoadError::Refused)
            },
            Listing::Unavailable(message) => r matches Err(LoadError::Unavailable(m)) && m@
                == message@,
        },
{
    match listing {
        Listing::Listed(text) => Ok(parse_crontab(text.as_str(), now)),
        Listing::Refused(complaint) => {
            if contains(complaint.as_str(), "no crontab for") {
                let mut jobs: Vec<CronJob> = Vec::new();
                jobs.push(placeholder(String::from_str("User has no crontab")));
                assert(views(jobs@) == seq![no_schedule_record()]);
                Ok(jobs)
            } else {
                Err(LoadError::Refused)
            }
        },
        Listing::Unavailable(message) => Err(LoadError::Unavailable(message.clone())),
    }
}

/// What [`load`] yields for a listing.
pub open spec fn loaded(listing: Listing, now: int) -> Seq<CronJobView> {
    match listing {
        Listing::Listed(text) => parse_schedule(text@, now),
        Listing::Refused(complaint) => if reports_no_schedule(complaint@) {
            seq![no_schedule_record()]
        } else {
            seq![error_record("Failed to read crontab"@)]
        },
        Listing::Unavailable(message) => seq![error_record(message@)],
    }
}

/// The records to show for a listing: those that [`from_crontab`] reads, or
/// a single record that carries the error's message.
pub fn load(listing: &Listing, now: i64) -> (jobs: Vec<CronJob>)
    ensures
        views(jobs@) == loaded(*listing, now as int),
{
    match from_crontab(listing, now) {
        Ok(jobs) => jobs,
        Err(e) => {
            let mut notation = String::from_str("Error: ");
            notation.append(e.message().as_str());
            let mut jobs: Vec<CronJob> = Vec::new();
            jobs.push(placeholder(notation));
            assert(views(jobs@) == seq![error_record(load_error_text(e))]);
            jobs
        },
    }
}

/// How the host's attempt to put an expression into words ended.
#[derive(Debug, Clone)]
pub enum Generation {
    /// The phrase that was generated.
    Described(String),
    /// The generator refused; this is the text of its error.
    Failed(String),
    /// The generator broke off.
    Panicked,
}

/// Why `expression` is not put into words, given whether it was found
/// valid.
pub open spec fn not_describable_given(expression: Seq<char>, valid: bool) -> Option<Seq<char>> {
    if trim(expression).len() == 0 {
        Some("Cron expression is empty"@)
    } else if !valid || expression.contains(',') {
        Some("Unable to generate human-readable format"@)
    } else {
        None
    }
}

/// Why `expression` is not put into words, if it is not: it is empty once
/// trimmed; or it is not valid at the instant `now`, or holds a comma.
pub open spec fn not_describable(expression: Seq<char>, now: int) -> Option<Seq<char>> {
    not_describable_given(expression, is_valid(expression, now))
}

/// The result of a description for each way the generation can end.
pub open spec fn described(outcome: Generation) -> Result<Seq<char>, Seq<char>> {
    match outcome {
        Generation::Described(phrase) => Ok(phrase@),
        Generation::Failed(error) => Err("Failed to generate human-readable format: "@ + error@),
        Generation::Panicked => Err("Library function panicked while generating description"@),
    }
}

/// Decides whether `cron_expr` is to be put into words, given whether it
/// was found valid: answers the trimmed expression to hand to the
/// generator, or the reason why there is no phrase for it.
pub fn gate_description(cron_expr: &str, valid: bool) -> (r: Result<String, String>)
    ensures
        match r {
            Ok(t) => not_describable_given(cron_expr@, valid) is None && t@ == trim(cron_expr@),
            Err(reason) => not_describable_given(cron_expr@, valid) == Some(reason@),
        },
{
    let t = trimmed(cron_expr);
    if t.as_str().is_empty() {
        return Err(String::from_str("Cron expression is empty"));
    }
    if !valid || contains_char(cron_expr, ',') {
        return Err(String::from_str("Unable to generate human-readable format"));
    }
    Ok(t)
}

/// Decides whether `cron_expr` is to be put into words at the instant
/// `now`: answers the trimmed expression to hand to the generator, or the
/// reason why there is no phrase for it.
pub fn describable(cron_expr: &str, now: i64) -> (r: Result<String, String>)
    ensures
        match r {
            Ok(t) => not_describable(cron_expr@, now as int) is None && t@ == trim(cron_expr@),
            Err(reason) => not_describable(cron_expr@, now as int) == Some(reason@),
        },
{
    gate_description(cron_expr, is_valid_expression(cron_expr, now))
}

/// The result of a description, given how the generation ended: the phrase,
/// or a reason that says what went wrong.
pub fn description_of(outcome: Generation) -> (r: Result<String, String>)
    ensures
        match r {
            Ok(phrase) => described(outcome) == Ok::<Seq<char>, Seq<char>>(phrase@),
            Err(reason) => described(outcome) == Err::<Seq<char>, Seq<char>>(reason@),
        },
{
    match outcome {
        Generation::Described(phrase) => Ok(phrase),
        Generation::Failed(error) => {
            let mut reason = String::from_str("Failed to generate human-readable format: ");
            reason.append(error.as_str());
            Err(reason)
        },
        Generation::Panicked => Err(
            String::from_str("Library function panicked while generating description"),
        ),
    }
}

/// The number of terminal columns that `text` takes, as
/// `unicode_width::UnicodeWidthStr::width` counts them.
pub uninterp spec fn display_width(text: Seq<char>) -> nat;

/// Calls `UnicodeWidthStr::width` on `text`. The contract names the result
/// [`display_width`] and claims nothing else of it.
#[verifier::external_body]
pub(crate) fn width_of(text: &str) -> (w: usize)
    ensures
        w == display_width(text@),
{
    unicode_width::UnicodeWidthStr::width(text)
}

/// The largest of `widths`, zero where there is none.
pub open spec fn largest(widths: Seq<usize>) -> usize
    decreases widths.len(),
{
    if widths.len() == 0 {
        0
    } else if widths.last() > largest(widths.drop_last()) {
        widths.last()
    } else {
        largest(widths.drop_last())
    }
}

/// A width as a column constraint holds it: its low 16 bits.
pub open spec fn column(width: usize) -> u16 {
    (width % 0x1_0000) as u16
}

/// The widths of the three texts that a row shows, for each record.
pub open spec fn widths_of(jobs: Seq<CronJobView>) -> (Seq<usize>, Seq<usize>, Seq<usize>) {
    (
        Seq::new(jobs.len(), |i: int| display_width(jobs[i].cron_notation) as usize),
        Seq::new(jobs.len(), |i: int| display_width(jobs[i].next_execution) as usize),
        Seq::new(jobs.len(), |i: int| display_width(jobs[i].job_description) as usize),
    )
}

/// The column constraint for texts of the widths `widths`: the largest of
/// them, cut to 16 bits.
pub fn longest(widths: &Vec<usize>) -> (r: u16)
    ensures
        r == column(largest(widths@)),
{
    let mut best: usize = 0;
    let mut i: usize = 0;
    assert(widths@.take(0) == Seq::<usize>::empty());
    while i < widths.len()
        invariant
            i <= widths.len(),
            best == largest(widths@.take(i as int)),
        decreases widths.len() - i,
    {
        assert(widths@.take(i + 1).drop_last() == widths@.take(i as int));
        if widths[i] > best {
            best = widths[i];
        }
        i += 1;
    }
    assert(widths@.take(widths.len() as int) == widths@);
    (best % 0x1_0000) as u16
}

/// The widths of the three columns of the list: for the expression, the
/// next run and the description, the largest display width among `items`.
pub fn constraint_len_calculator(items: &Vec<CronJob>) -> (r: (u16, u16, u16))
    ensures
        r.0 == column(largest(widths_of(views(items@)).0)),
        r.1 == column(largest(widths_of(views(items@)).1)),
        r.2 == column(largest(widths_of(views(items@)).2)),
{
    let mut notations: Vec<usize> = Vec::new();
    let mut executions: Vec<usize> = Vec::new();
    let mut descriptions: Vec<usize> = Vec::new();
    let mut i: usize = 0;
    while i < items.len()
        invariant
            i <= items.len(),
            notations.len() == i,
            executions.len() == i,
            descriptions.len() == i,
            forall|j: int|
                0 <= j < i ==> #[trigger] notations@[j] == display_width(
                    items@[j]@.cron_notation,
                ),
            forall|j: int|
                0 <= j < i ==> #[trigger] executions@[j] == display_width(
                    items@[j]@.next_execution,
                ),
            forall|j: int|
                0 <= j < i ==> #[trigger] descriptions@[j] == display_width(
                    items@[j]@.job_description,
                ),
        decreases items.len() - i,
    {
        let job = &items[i];
        notations.push(width_of(job.cron_notation.as_str()));
        executions.push(width_of(job.next_execution.as_str()));
        descriptions.push(width_of(job.job_description.as_str()));
        i += 1;
    }
    assert(notations@ == widths_of(views(items@)).0);
    assert(executions@ == widths_of(views(items@)).1);
    assert(descriptions@ == widths_of(views(items@)).2);
    (longest(&notations), longest(&executions), longest(&descriptions))
}

/// Whether `text` is its own words joined by single spaces; answers the
/// number of its words with it.
pub fn count_normalized_words(text: &String) -> (r: (bool, usize))
    ensures
        r.0 == is_normalized(text@),
        r.1 == tokens(text@).len(),
{
    let v = to_chars(text.as_str());
    assert(v@.subrange(0, v.len() as int) == v@);
    let words = split_words(&v, 0, v.len());
    let joined = join_words(&words, 0, words.len());
    assert(texts(words@).subrange(0, words.len() as int) == texts(words@));
    (joined == *text, words.len())
}

/// Whether `text` is trimmed and one line.
pub fn is_trimmed_line(text: &String) -> (b: bool)
    ensures
        b == (is_trimmed(text@) && is_one_line(text@)),
{
    let v = to_chars(text.as_str());
    if v.len() == 0 {
        return true;
    }
    if is_space_char(v[0]) || is_space_char(v[v.len() - 1]) {
        return false;
    }
    let mut i: usize = 0;
    while i < v.len()
        invariant
            i <= v.len(),
            v@ == text@,
            forall|j: int| 0 <= j < i ==> #[trigger] v@[j] != '\n',
        decreases v.len() - i,
    {
        if v[i] == '\n' {
            return false;
        }
        i += 1;
    }
    true
}

/// Whether `job` is canonical: whether it is read back as it is written.
pub fn is_canonical_record(job: &CronJob) -> (b: bool)
    ensures
        b == is_canonical(job@),
{
    let (notation_normalized, notation_words) = count_normalized_words(&job.cron_notation);
    if !notation_normalized || notation_words != 5 {
        return false;
    }
    let notation = to_chars(job.cron_notation.as_str());
    if notation.len() > 0 && notation[0] == '#' {
        return false;
    }
    let (command_normalized, command_words) = count_normalized_words(&job.job);
    command_normalized && command_words >= 1 && is_trimmed_line(&job.job_description)
}

/// `s` without its leading and trailing whitespace.
pub fn trimmed(s: &str) -> (r: String)
    ensures
        r@ == trim(s@),
{
    let v = to_chars(s);
    let (a, b) = trim_range(&v, 0, v.len());
    assert(v@.subrange(0, v.len() as int) == v@);
    to_text(&v, a, b)
}

/// Whether `expression` is a valid schedule expression at the instant `now`.
pub fn is_valid_expression(expression: &str, now: i64) -> (b: bool)
    ensures
        b == is_valid(expression@, now as int),
{
    let t = trimmed(expression);
    find_next_occurrence(t.as_str(), now).is_some()
}

} // verus!
