//! The edit form with three fields that works on the job list directly.

use vstd::prelude::*;
use vstd::string::StringExecFns;
use crate::action::Effect;
use crate::components::cron::CronJob;
use crate::components::cron::CronJobView;
use crate::components::cron::utils::get_next_execution;
use crate::components::cron::utils::is_valid;
use crate::components::cron::utils::is_valid_expression;
use crate::components::cron::utils::next_run;
use crate::components::cron::views;
use crate::draw::block_views;
use crate::draw::expression_block;
use crate::draw::FieldBlock;
use crate::draw::FieldBlockView;
use crate::draw::make_expression_block;
use crate::draw::make_plain_block;
use crate::draw::plain_block;
use crate::draw::Signal;
use crate::draw::signal_of;

verus! {

/// The field of the form that takes the keys.
#[derive(Debug, Clone, Copy, PartialEq, Eq, Structural)]
pub enum ActiveInput {
    CronNotation,
    Job,
    JobDescription,
}

impl Default for ActiveInput {
    fn default() -> (r: ActiveInput)
        ensures
            r == ActiveInput::CronNotation,
    {
        ActiveInput::CronNotation
    }
}

impl ActiveInput {
    /// The field after this one, in the fixed cyclic order.
    pub open spec fn following(self) -> ActiveInput {
        match self {
            ActiveInput::CronNotation => ActiveInput::Job,
            ActiveInput::Job => ActiveInput::JobDescription,
            ActiveInput::JobDescription => ActiveInput::CronNotation,
        }
    }

    /// The field that takes the focus after this one.
    pub fn next(&self) -> (r: ActiveInput)
        ensures
            r == self.following(),
    {
        match self {
            ActiveInput::CronNotation => ActiveInput::Job,
            ActiveInput::Job => ActiveInput::JobDescription,
            ActiveInput::JobDescription => ActiveInput::CronNotation,
        }
    }
}

/// Why a form cannot be committed.
#[derive(Debug)]
pub enum ValidationError {
    InvalidCronExpression(String),
}

/// The verdict on an expression that was found valid or not: `Ok` for a
/// valid one, the error with its fixed message for any other.
pub fn validation_of(valid: bool) -> (r: Result<(), ValidationError>)
    ensures
        r is Ok <==> valid,
        r matches Err(ValidationError::InvalidCronExpression(message)) ==> message@
            == "Invalid cron expression"@,
{
    if valid {
        Ok(())
    } else {
        Err(ValidationError::InvalidCronExpression(String::from_str("Invalid cron expression")))
    }
}

/// Checks the expression of a form at the instant `now`: `Ok` if and only
/// if it is valid once trimmed; else the error with its fixed message.
pub fn validate(expression: &str, now: i64) -> (r: Result<(), ValidationError>)
    ensures
        r is Ok <==> is_valid(expression@, now as int),
        r matches Err(ValidationError::InvalidCronExpression(message)) ==> message@
            == "Invalid cron expression"@,
{
    validation_of(is_valid_expression(expression, now))
}

/// A key as the form sees it.
#[derive(Debug)]
pub enum FormKey {
    /// Moves the focus to the next field.
    Tab,
    /// Closes the form without saving.
    Esc,
    /// Commits the form.
    Save,
    /// Any other key that the buffer of the focused field took in; with it
    /// comes the first line that the buffer holds afterwards, if it has one.
    Edited(Option<String>),
    /// Any other key that the buffer of the focused field did not take.
    Rejected,
}

/// The text of the first line of a buffer; empty where it has no line.
pub open spec fn line_text(line: Option<String>) -> Seq<char> {
    match line {
        Some(text) => text@,
        None => Seq::empty(),
    }
}

/// The form: the focus, the texts of the three fields as last synchronised
/// with their buffers, whether it makes a new record, and what the last
/// check of the expression found.
#[derive(Debug)]
pub struct Inputs {
    pub current_input: ActiveInput,
    pub cron_notation_value: String,
    pub job_value: String,
    pub job_description_value: String,
    pub is_new: bool,
    pub signal: Signal,
}

/// The mathematical value of an [`Inputs`].
pub struct InputsView {
    pub current_input: ActiveInput,
    pub cron_notation_value: Seq<char>,
    pub job_value: Seq<char>,
    pub job_description_value: Seq<char>,
    pub is_new: bool,
    pub signal: Signal,
}

impl View for Inputs {
    type V = InputsView;

    open spec fn view(&self) -> InputsView {
        InputsView {
            current_input: self.current_input,
            cron_notation_value: self.cron_notation_value@,
            job_value: self.job_value@,
            job_description_value: self.job_description_value@,
            is_new: self.is_new,
            signal: self.signal,
        }
    }
}

impl InputsView {
    /// The form with blank fields and the focus on the first.
    pub open spec fn blank(self) -> InputsView {
        InputsView {
            current_input: ActiveInput::CronNotation,
            cron_notation_value: Seq::empty(),
            job_value: Seq::empty(),
            job_description_value: Seq::empty(),
            is_new: self.is_new,
            signal: Signal::Unchecked,
        }
    }

    /// The form with the texts of `job` in its fields and the focus on the
    /// first.
    pub open spec fn filled(self, job: CronJobView) -> InputsView {
        InputsView {
            current_input: ActiveInput::CronNotation,
            cron_notation_value: job.cron_notation,
            job_value: job.job,
            job_description_value: job.job_description,
            is_new: self.is_new,
            signal: Signal::Unchecked,
        }
    }

    /// The form as it opens: blank for a new record; for an existing one,
    /// with the texts of the selected record, where one of the list is
    /// selected.
    pub open spec fn opened(self, jobs: Seq<CronJobView>, selected: Option<usize>) -> InputsView {
        match selected {
            Some(i) => if !self.is_new && i < jobs.len() {
                self.filled(jobs[i as int])
            } else {
                self.blank()
            },
            None => self.blank(),
        }
    }

    /// The form once the focused field holds `line`.
    pub open spec fn with_line(self, line: Seq<char>) -> InputsView {
        match self.current_input {
            ActiveInput::CronNotation => InputsView { cron_notation_value: line, ..self },
            ActiveInput::Job => InputsView { job_value: line, ..self },
            ActiveInput::JobDescription => InputsView { job_description_value: line, ..self },
        }
    }

    /// The record that the form makes, with the next run `next_execution`.
    pub open spec fn record_with(self, next_execution: Seq<char>) -> CronJobView {
        CronJobView {
            cron_notation: self.cron_notation_value,
            job: self.job_value,
            job_description: self.job_description_value,
            next_execution,
        }
    }

    /// The record that the form makes, with its next run after `now`.
    pub open spec fn record(self, now: int) -> CronJobView {
        self.record_with(next_run(self.cron_notation_value, now))
    }

    /// The form after its expression was checked for a commit: a valid one
    /// is signalled; an invalid one is signalled too and takes the focus.
    pub open spec fn checked(self, valid: bool) -> InputsView {
        if valid {
            InputsView { signal: Signal::Valid, ..self }
        } else {
            InputsView {
                current_input: ActiveInput::CronNotation,
                signal: Signal::Invalid,
                ..self
            }
        }
    }

    /// Whether `key` commits the form at the instant `now`: it is the save
    /// key and the expression is valid.
    pub open spec fn commits(self, key: FormKey, now: int) -> bool {
        key is Save && is_valid(self.cron_notation_value, now)
    }

    /// The form after `key`.
    pub open spec fn handled(self, key: FormKey, now: int) -> InputsView {
        match key {
            FormKey::Tab => InputsView { current_input: self.current_input.following(), ..self },
            FormKey::Esc => self.blank(),
            FormKey::Save => self.checked(is_valid(self.cron_notation_value, now)),
            FormKey::Edited(line) => self.with_line(line_text(line)),
            FormKey::Rejected => self,
        }
    }

    /// The form after it was described for a frame: while the expression
    /// has the focus, it is checked and the signal says what the check found.
    pub open spec fn drawn(self, now: int) -> InputsView {
        if self.current_input == ActiveInput::CronNotation {
            InputsView { signal: signal_of(is_valid(self.cron_notation_value, now)), ..self }
        } else {
            self
        }
    }

    /// The blocks of the three fields for a frame, in the order of the
    /// focus.
    pub open spec fn blocks(self, now: int) -> Seq<FieldBlockView> {
        seq![
            expression_block(
                self.current_input == ActiveInput::CronNotation,
                is_valid(self.cron_notation_value, now),
            ),
            plain_block("Job"@, self.current_input == ActiveInput::Job),
            plain_block("Description"@, self.current_input == ActiveInput::JobDescription),
        ]
    }

    /// The records after a commit of the form that makes `record`: with
    /// the record appended, for a new one; with the record in place of the
    /// selected one, where one of the list is selected; unchanged else.
    pub open spec fn saved_with(
        self,
        jobs: Seq<CronJobView>,
        selected: Option<usize>,
        record: CronJobView,
    ) -> Seq<CronJobView> {
        if self.is_new {
            jobs.push(record)
        } else {
            match selected {
                Some(i) => if i < jobs.len() {
                    jobs.update(i as int, record)
                } else {
                    jobs
                },
                None => jobs,
            }
        }
    }

    /// The records after a commit of the form at the instant `now`.
    pub open spec fn saved(
        self,
        jobs: Seq<CronJobView>,
        selected: Option<usize>,
        now: int,
    ) -> Seq<CronJobView> {
        self.saved_with(jobs, selected, self.record(now))
    }

    /// Whether a commit of the form changes the records.
    pub open spec fn saves(self, jobs: Seq<CronJobView>, selected: Option<usize>) -> bool {
        self.is_new || match selected {
            Some(i) => i < jobs.len(),
            None => false,
        }
    }
}

impl Default for Inputs {
    fn default() -> (r: Inputs)
        ensures
            r@.is_new,
            r@ == r@.blank(),
    {
        Inputs {
            current_input: ActiveInput::CronNotation,
            cron_notation_value: String::new(),
            job_value: String::new(),
            job_description_value: String::new(),
            is_new: true,
            signal: Signal::Unchecked,
        }
    }
}

impl Inputs {
    /// Empties the three fields.
    fn flash_values(&mut self)
        ensures
            final(self)@ == (InputsView {
                current_input: old(self)@.current_input,
                ..old(self)@.blank()
            }),
    {
        self.cron_notation_value = String::new();
        self.job_value = String::new();
        self.job_description_value = String::new();
        self.signal = Signal::Unchecked;
    }

    /// Opens the form for a new record: blank, the focus on the first
    /// field.
    pub fn init_empty(&mut self)
        ensures
            final(self)@.is_new,
            final(self)@ == final(self)@.blank(),
    {
        self.is_new = true;
        self.flash_values();
        self.current_input = ActiveInput::CronNotation;
    }

    /// Opens the form: blank for a new record; for an existing one, with
    /// the texts of the selected record, where one of the list is selected.
    pub fn init(&mut self, cron_jobs: &Vec<CronJob>, selected: Option<usize>)
        ensures
            final(self)@ == old(self)@.opened(views(cron_jobs@), selected),
    {
        self.flash_values();
        self.current_input = ActiveInput::CronNotation;
        if !self.is_new {
            match selected {
                Some(i) => {
                    if i < cron_jobs.len() {
                        let job = &cron_jobs[i];
                        self.cron_notation_value = job.cron_notation.clone();
                        self.job_value = job.job.clone();
                        self.job_description_value = job.job_description.clone();
                    }
                },
                None => {},
            }
        }
    }

    /// The record that the form makes.
    pub fn create_new_cron(&self, now: i64) -> (r: CronJob)
        ensures
            r@ == self@.record(now as int),
    {
        CronJob {
            cron_notation: self.cron_notation_value.clone(),
            job: self.job_value.clone(),
            job_description: self.job_description_value.clone(),
            next_execution: get_next_execution(self.cron_notation_value.as_str(), now),
        }
    }

    /// Overwrites `selected_cron` with the record that the form makes.
    pub fn update_selected_cron(&self, selected_cron: &mut CronJob, now: i64)
        ensures
            final(selected_cron)@ == self@.record(now as int),
    {
        selected_cron.cron_notation = self.cron_notation_value.clone();
        selected_cron.job = self.job_value.clone();
        selected_cron.job_description = self.job_description_value.clone();
        selected_cron.next_execution = get_next_execution(
            self.cron_notation_value.as_str(),
            now,
        );
    }

    /// Describes the blocks of the three fields for a frame; `now` is the
    /// instant at which the expression is checked.
    pub fn describe_fields(&mut self, now: i64) -> (blocks: Vec<FieldBlock>)
        ensures
            final(self)@ == old(self)@.drawn(now as int),
            block_views(blocks@) == old(self)@.blocks(now as int),
    {
        let mut blocks: Vec<FieldBlock> = Vec::new();
        let focused = self.current_input == ActiveInput::CronNotation;
        let valid = validate(self.cron_notation_value.as_str(), now).is_ok();
        if focused {
            self.signal = if valid {
                Signal::Valid
            } else {
                Signal::Invalid
            };
        }
        blocks.push(make_expression_block(focused, valid));
        blocks.push(make_plain_block("Job", self.current_input == ActiveInput::Job));
        blocks.push(
            make_plain_block("Description", self.current_input == ActiveInput::JobDescription),
        );
        assert(block_views(blocks@) == old(self)@.blocks(now as int));
        blocks
    }

    /// Synchronises the text of the focused field with the first line of
    /// its buffer.
    pub fn sync(&mut self, line: Option<String>)
        ensures
            final(self)@ == old(self)@.with_line(line_text(line)),
    {
        let text = match line {
            Some(text) => text,
            None => String::new(),
        };
        match self.current_input {
            ActiveInput::CronNotation => {
                self.cron_notation_value = text;
            },
            ActiveInput::Job => {
                self.job_value = text;
            },
            ActiveInput::JobDescription => {
                self.job_description_value = text;
            },
        }
    }

    /// Commits the form, given what the check of its expression found: the
    /// next run of a valid expression, or nothing for an invalid one. With a
    /// next run, the form's record is written into `cron_jobs`, a new record
    /// is selected and the form closes; without, nothing changes but the
    /// focus, which goes to the expression. Answers whether the records are to
    /// be persisted.
    pub fn commit(
        &mut self,
        checked: Option<String>,
        show_popup: &mut bool,
        cron_jobs: &mut Vec<CronJob>,
        selected: &mut Option<usize>,
    ) -> (effect: Effect)
        ensures
            final(self)@ == old(self)@.checked(checked is Some),
            *final(show_popup) == if checked is Some {
                false
            } else {
                *old(show_popup)
            },
            views(final(cron_jobs)@) == match checked {
                Some(next_execution) => old(self)@.saved_with(
                    views(old(cron_jobs)@),
                    *old(selected),
                    old(self)@.record_with(next_execution@),
                ),
                None => views(old(cron_jobs)@),
            },
            *final(selected) == if checked is Some && old(self)@.is_new {
                Some(old(cron_jobs)@.len() as usize)
            } else {
                *old(selected)
            },
            effect == if checked is Some && old(self)@.saves(
                views(old(cron_jobs)@),
                *old(selected),
            ) {
                Effect::SaveSchedule
            } else {
                Effect::Nothing
            },
    {
        let next_execution = match checked {
            Some(next_execution) => next_execution,
            None => {
                self.current_input = ActiveInput::CronNotation;
                self.signal = Signal::Invalid;
                return Effect::Nothing;
            },
        };
        self.signal = Signal::Valid;
        *show_popup = false;
        let record = CronJob {
            cron_notation: self.cron_notation_value.clone(),
            job: self.job_value.clone(),
            job_description: self.job_description_value.clone(),
            next_execution,
        };
        if self.is_new {
            let n = cron_jobs.len();
            cron_jobs.push(record);
            *selected = Some(n);
            assert(views(cron_jobs@) == views(old(cron_jobs)@).push(record@));
            Effect::SaveSchedule
        } else {
            match *selected {
                Some(i) => {
                    if i < cron_jobs.len() {
                        cron_jobs.set(i, record);
                        assert(views(cron_jobs@) == views(old(cron_jobs)@).update(
                            i as int,
                            record@,
                        ));
                        Effect::SaveSchedule
                    } else {
                        Effect::Nothing
                    }
                },
                None => Effect::Nothing,
            }
        }
    }

    /// Reacts to a key. A commit with a valid expression writes the form's
    /// record into `cron_jobs`, selects a new record and closes the form; one
    /// with an invalid expression changes nothing but the focus, which goes
    /// to the expression. Answers whether the records are to be persisted.
    pub fn handle_inputs(
        &mut self,
        key: FormKey,
        show_popup: &mut bool,
        cron_jobs: &mut Vec<CronJob>,
        selected: &mut Option<usize>,
        now: i64,
    ) -> (effect: Effect)
        ensures
            final(self)@ == old(self)@.handled(key, now as int),
            *final(show_popup) == if key is Esc || old(self)@.commits(key, now as int) {
                false
            } else {
                *old(show_popup)
            },
            views(final(cron_jobs)@) == if old(self)@.commits(key, now as int) {
                old(self)@.saved(views(old(cron_jobs)@), *old(selected), now as int)
            } else {
                views(old(cron_jobs)@)
            },
            *final(selected) == if old(self)@.commits(key, now as int) && old(self)@.is_new {
                Some(old(cron_jobs)@.len() as usize)
            } else {
                *old(selected)
            },
            effect == if old(self)@.commits(key, now as int) && old(self)@.saves(
                views(old(cron_jobs)@),
                *old(selected),
            ) {
                Effect::SaveSchedule
            } else {
                Effect::Nothing
            },
    {
        match key {
            FormKey::Tab => {
                self.current_input = self.current_input.next();
                Effect::Nothing
            },
            FormKey::Esc => {
                *show_popup = false;
                self.flash_values();
                self.current_input = ActiveInput::CronNotation;
                Effect::Nothing
            },
            FormKey::Save => {
                let checked = if is_valid_expression(self.cron_notation_value.as_str(), now) {
                    Some(get_next_execution(self.cron_notation_value.as_str(), now))
                } else {
                    None
                };
                self.commit(checked, show_popup, cron_jobs, selected)
            },
            FormKey::Edited(line) => {
                self.sync(line);
                Effect::Nothing
            },
            FormKey::Rejected => Effect::Nothing,
        }
    }
}

} // verus!
