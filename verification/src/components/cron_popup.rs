//! The edit form with four fields that talks to the job list through
//! actions.

use vstd::prelude::*;
use vstd::string::StringExecFns;
use crate::action::Action;
use crate::action::action_views;
use crate::action::ActionView;
use crate::action::Edit;
use crate::action::edit_of;
use crate::action::EditView;
use crate::action::Effect;
use crate::action::Module;
use crate::action::payload_of;
use crate::action::Reaction;
use crate::action::Target;
use crate::components::cron::utils::is_valid;
use crate::components::cron::utils::is_valid_expression;
use crate::draw::block_views;
use crate::draw::expression_block;
use crate::draw::FieldBlock;
use crate::draw::FieldBlockView;
use crate::draw::make_expression_block;
use crate::draw::make_plain_block;
use crate::draw::plain_block;
use crate::draw::Signal;
use crate::draw::signal_of;
use crate::text::push_char;
use crate::text::texts;

verus! {

/// The field of the form that takes the keys.
#[derive(Debug, Clone, Copy, PartialEq, Eq, Structural)]
pub enum ActiveInput {
    CronNotation,
    Job,
    JobDescription,
    AIQuestion,
}

impl Default for ActiveInput {
    fn default() -> (r: ActiveInput)
        ensures
            r == ActiveInput::CronNotation,
    {
        ActiveInput::CronNotation
    }
}

impl ActiveInput {
    /// The field after this one, in the fixed cyclic order.
    pub open spec fn following(self) -> ActiveInput {
        match self {
            ActiveInput::CronNotation => ActiveInput::Job,
            ActiveInput::Job => ActiveInput::JobDescription,
            ActiveInput::JobDescription => ActiveInput::AIQuestion,
            ActiveInput::AIQuestion => ActiveInput::CronNotation,
        }
    }

    /// The field that takes the focus after this one.
    pub fn next(&self) -> (r: ActiveInput)
        ensures
            r == self.following(),
    {
        match self {
            ActiveInput::CronNotation => ActiveInput::Job,
            ActiveInput::Job => ActiveInput::JobDescription,
            ActiveInput::JobDescription => ActiveInput::AIQuestion,
            ActiveInput::AIQuestion => ActiveInput::CronNotation,
        }
    }
}

/// Why a form cannot be committed.
#[derive(Debug)]
pub enum ValidationError {
    InvalidCronExpression(String),
}

/// The verdict on an expression that was found valid or not: `Ok` for a
/// valid one, the error with its fixed message for any other.
pub fn validation_of(valid: bool) -> (r: Result<(), ValidationError>)
    ensures
        r is Ok <==> valid,
        r matches Err(ValidationError::InvalidCronExpression(message)) ==> message@
            == "Invalid cron expression"@,
{
    if valid {
        Ok(())
    } else {
        Err(ValidationError::InvalidCronExpression(String::from_str("Invalid cron expression")))
    }
}

/// Checks the expression of a form at the instant `now`: `Ok` if and only
/// if it is valid once trimmed; else the error with its fixed message.
pub fn validate(expression: &str, now: i64) -> (r: Result<(), ValidationError>)
    ensures
        r is Ok <==> is_valid(expression@, now as int),
        r matches Err(ValidationError::InvalidCronExpression(message)) ==> message@
            == "Invalid cron expression"@,
{
    validation_of(is_valid_expression(expression, now))
}

/// A key as the form sees it.
#[derive(Debug)]
pub enum PopupKey {
    /// The key that moves the focus; the form leaves it to the action.
    Tab,
    /// The key that commits; the form leaves it to the action.
    Enter,
    /// Asks the assistant, while its question has the focus.
    Up,
    /// Any other key that the buffer of the focused field took in; with it
    /// comes the first line that the buffer holds afterwards, if it has one.
    Edited(Option<String>),
    /// Any other key that the buffer of the focused field did not take.
    Rejected,
}

/// The text of the first line of a buffer; empty where it has no line.
pub open spec fn line_text(line: Option<String>) -> Seq<char> {
    match line {
        Some(text) => text@,
        None => Seq::empty(),
    }
}

/// What the assistant answers to `question`: a fixed expression with the
/// question behind it. Nothing says that the answer is a valid expression.
pub open spec fn assistant_answer(question: Seq<char>) -> Seq<char> {
    "0 0 1 1 *: "@ + question + seq![':']
}

/// The form: whether it is shown, the record it is for, the focus, and the
/// texts of the four fields as last synchronised with their buffers.
pub struct CronPopup {
    enabled: bool,
    target: Target,
    current_input: ActiveInput,
    cron_notation_value: String,
    job_value: String,
    job_description_value: String,
    ai_question_value: String,
    signal: Signal,
}

/// The mathematical value of a [`CronPopup`].
pub struct CronPopupView {
    pub enabled: bool,
    pub target: Target,
    pub current_input: ActiveInput,
    pub cron_notation_value: Seq<char>,
    pub job_value: Seq<char>,
    pub job_description_value: Seq<char>,
    pub ai_question_value: Seq<char>,
    pub signal: Signal,
}

impl View for CronPopup {
    type V = CronPopupView;

    closed spec fn view(&self) -> CronPopupView {
        CronPopupView {
            enabled: self.enabled,
            target: self.target,
            current_input: self.current_input,
            cron_notation_value: self.cron_notation_value@,
            job_value: self.job_value@,
            job_description_value: self.job_description_value@,
            ai_question_value: self.ai_question_value@,
            signal: self.signal,
        }
    }
}

impl CronPopupView {
    /// The closed form: not shown, blank, for a new record, the focus on
    /// the first field.
    pub open spec fn closed() -> CronPopupView {
        CronPopupView {
            enabled: false,
            target: Target::New,
            current_input: ActiveInput::CronNotation,
            cron_notation_value: Seq::empty(),
            job_value: Seq::empty(),
            job_description_value: Seq::empty(),
            ai_question_value: Seq::empty(),
            signal: Signal::Unchecked,
        }
    }

    /// Whether the form reacts to navigation and to a commit.
    pub open spec fn interactive(self, active: Module) -> bool {
        self.enabled && active == Module::CronPopup
    }

    /// The form as the payload `data` opens it: with the texts and the
    /// target of the edit it carries; blank and for a new record where it
    /// carries none. The focus is on the first field.
    pub open spec fn opened(self, data: Seq<Seq<char>>) -> CronPopupView {
        match edit_of(data) {
            Some(edit) => CronPopupView {
                enabled: self.enabled,
                target: edit.target,
                current_input: ActiveInput::CronNotation,
                cron_notation_value: edit.cron_notation,
                job_value: edit.job,
                job_description_value: edit.job_description,
                ai_question_value: Seq::empty(),
                signal: Signal::Unchecked,
            },
            None => CronPopupView { enabled: self.enabled, ..Self::closed() },
        }
    }

    /// The edit that the form holds.
    pub open spec fn edit(self) -> EditView {
        EditView {
            target: self.target,
            cron_notation: self.cron_notation_value,
            job: self.job_value,
            job_description: self.job_description_value,
        }
    }

    /// The form once the focused field holds `line`.
    pub open spec fn with_line(self, line: Seq<char>) -> CronPopupView {
        match self.current_input {
            ActiveInput::CronNotation => CronPopupView { cron_notation_value: line, ..self },
            ActiveInput::Job => CronPopupView { job_value: line, ..self },
            ActiveInput::JobDescription => CronPopupView { job_description_value: line, ..self },
            ActiveInput::AIQuestion => CronPopupView { ai_question_value: line, ..self },
        }
    }

    /// Whether `key` makes the assistant's answer the expression.
    pub open spec fn asks_assistant(self, key: PopupKey) -> bool {
        self.enabled && key is Up && self.current_input == ActiveInput::AIQuestion
    }

    /// The form after `key`.
    pub open spec fn keyed(self, key: PopupKey) -> CronPopupView {
        if !self.enabled {
            self
        } else {
            match key {
                PopupKey::Up => if self.current_input == ActiveInput::AIQuestion {
                    CronPopupView {
                        cron_notation_value: assistant_answer(self.ai_question_value),
                        ..self
                    }
                } else {
                    self
                },
                PopupKey::Edited(line) => self.with_line(line_text(line)),
                _ => self,
            }
        }
    }

    /// The form after a confirmation, given whether its expression was found
    /// valid: closed for a valid one; else with the focus on the expression,
    /// which is signalled as invalid.
    pub open spec fn confirmed(self, valid: bool) -> CronPopupView {
        if valid {
            Self::closed()
        } else {
            CronPopupView {
                current_input: ActiveInput::CronNotation,
                signal: Signal::Invalid,
                ..self
            }
        }
    }

    /// What a confirmation emits, given whether the expression was found
    /// valid: for a valid one, the edit for the job list and the way back to
    /// it; nothing else.
    pub open spec fn confirmation(self, valid: bool) -> Seq<ActionView> {
        if valid {
            seq![
                ActionView::PassData(payload_of(self.edit())),
                ActionView::ChangeMode(Module::Cron),
            ]
        } else {
            Seq::empty()
        }
    }

    /// Whether `action` commits the form at the instant `now`: the form is
    /// interactive, the action is the confirmation and the expression is
    /// valid.
    pub open spec fn commits(self, action: ActionView, active: Module, now: int) -> bool {
        self.interactive(active) && action == ActionView::Confirm && is_valid(
            self.cron_notation_value,
            now,
        )
    }

    /// The form after the handler has seen `action` while `active` was the
    /// interactive panel. Entering the panel shows the form. A payload is
    /// taken in while the job list is interactive, as the list's request: it
    /// opens the form; the payload that the form sends to the list itself is
    /// not for the form. All else is for an interactive form only: the way
    /// back to the list closes it, the focus moves on, and a confirmation
    /// closes it if the expression is valid at the instant `now`.
    pub open spec fn update(self, action: ActionView, active: Module, now: int) -> CronPopupView {
        match action {
            ActionView::ChangeMode(Module::CronPopup) => CronPopupView { enabled: true, ..self },
            ActionView::PassData(data) => if active == Module::Cron {
                self.opened(data)
            } else {
                self
            },
            _ => if !self.interactive(active) {
                self
            } else {
                match action {
                    ActionView::ChangeMode(Module::Cron) => Self::closed(),
                    ActionView::SwtichInput => CronPopupView {
                        current_input: self.current_input.following(),
                        ..self
                    },
                    ActionView::Confirm => self.confirmed(
                        is_valid(self.cron_notation_value, now),
                    ),
                    _ => self,
                }
            },
        }
    }

    /// The form after it was described for a frame: while it is shown and
    /// the expression has the focus, the expression is checked and the
    /// signal says what the check found.
    pub open spec fn drawn(self, now: int) -> CronPopupView {
        if self.enabled && self.current_input == ActiveInput::CronNotation {
            CronPopupView { signal: signal_of(is_valid(self.cron_notation_value, now)), ..self }
        } else {
            self
        }
    }

    /// The blocks of the four fields for a frame, in the order of the
    /// focus; none while the form is not shown.
    pub open spec fn blocks(self, now: int) -> Seq<FieldBlockView> {
        if !self.enabled {
            Seq::empty()
        } else {
            seq![
                expression_block(
                    self.current_input == ActiveInput::CronNotation,
                    is_valid(self.cron_notation_value, now),
                ),
                plain_block("Job"@, self.current_input == ActiveInput::Job),
                plain_block("Description"@, self.current_input == ActiveInput::JobDescription),
                plain_block("Ask AI"@, self.current_input == ActiveInput::AIQuestion),
            ]
        }
    }

    /// The actions that the handler appends to the queue for `action`: on
    /// a commit, the edit for the job list and the way back to it.
    pub open spec fn emits(self, action: ActionView, active: Module, now: int) -> Seq<
        ActionView,
    > {
        self.confirmation(self.commits(action, active, now))
    }
}

impl CronPopup {
    /// The closed form.
    pub fn new() -> (r: CronPopup)
        ensures
            r@ == CronPopupView::closed(),
    {
        CronPopup {
            enabled: false,
            target: Target::New,
            current_input: ActiveInput::CronNotation,
            cron_notation_value: String::new(),
            job_value: String::new(),
            job_description_value: String::new(),
            ai_question_value: String::new(),
            signal: Signal::Unchecked,
        }
    }

    /// What the last check of the expression found.
    pub fn signal(&self) -> (r: Signal)
        ensures
            r == self@.signal,
    {
        self.signal
    }

    /// Describes the blocks of the four fields for a frame; `now` is the
    /// instant at which the expression is checked.
    pub fn describe_fields(&mut self, now: i64) -> (blocks: Vec<FieldBlock>)
        ensures
            final(self)@ == old(self)@.drawn(now as int),
            block_views(blocks@) == old(self)@.blocks(now as int),
    {
        let mut blocks: Vec<FieldBlock> = Vec::new();
        if !self.enabled {
            assert(block_views(blocks@) == Seq::<FieldBlockView>::empty());
            return blocks;
        }
        let focused = self.current_input == ActiveInput::CronNotation;
        let valid = validate(self.cron_notation_value.as_str(), now).is_ok();
        if focused {
            self.signal = if valid {
                Signal::Valid
            } else {
                Signal::Invalid
            };
        }
        blocks.push(make_expression_block(focused, valid));
        blocks.push(make_plain_block("Job", self.current_input == ActiveInput::Job));
        blocks.push(
            make_plain_block("Description", self.current_input == ActiveInput::JobDescription),
        );
        blocks.push(make_plain_block("Ask AI", self.current_input == ActiveInput::AIQuestion));
        assert(block_views(blocks@) == old(self)@.blocks(now as int));
        blocks
    }

    /// Whether the form is shown.
    pub fn is_enabled(&self) -> (r: bool)
        ensures
            r == self@.enabled,
    {
        self.enabled
    }

    /// Whether the form makes a new record.
    pub fn is_new(&self) -> (r: bool)
        ensures
            r == (self@.target is New),
    {
        match self.target {
            Target::New => true,
            Target::Existing(_) => false,
        }
    }

    /// The record that the form is for.
    pub fn target(&self) -> (r: Target)
        ensures
            r == self@.target,
    {
        self.target
    }

    /// The field that has the focus.
    pub fn current_input(&self) -> (r: ActiveInput)
        ensures
            r == self@.current_input,
    {
        self.current_input
    }

    /// The text of the expression field.
    pub fn cron_notation_value(&self) -> (r: &String)
        ensures
            r@ == self@.cron_notation_value,
    {
        &self.cron_notation_value
    }

    /// The text of the command field.
    pub fn job_value(&self) -> (r: &String)
        ensures
            r@ == self@.job_value,
    {
        &self.job_value
    }

    /// The text of the description field.
    pub fn job_description_value(&self) -> (r: &String)
        ensures
            r@ == self@.job_description_value,
    {
        &self.job_description_value
    }

    /// The text of the assistant's question field.
    pub fn ai_question_value(&self) -> (r: &String)
        ensures
            r@ == self@.ai_question_value,
    {
        &self.ai_question_value
    }

    /// Empties the four fields.
    fn flash_values(&mut self)
        ensures
            final(self)@ == (CronPopupView {
                enabled: old(self)@.enabled,
                target: old(self)@.target,
                current_input: old(self)@.current_input,
                ..CronPopupView::closed()
            }),
    {
        self.cron_notation_value = String::new();
        self.job_value = String::new();
        self.job_description_value = String::new();
        self.ai_question_value = String::new();
        self.signal = Signal::Unchecked;
    }

    /// Blank fields and the focus on the first.
    fn initial_render(&mut self)
        ensures
            final(self)@ == (CronPopupView {
                enabled: old(self)@.enabled,
                target: old(self)@.target,
                ..CronPopupView::closed()
            }),
    {
        self.flash_values();
        self.current_input = ActiveInput::CronNotation;
    }

    /// What the assistant answers to the question in its field.
    pub fn make_request_to_ai(&self) -> (r: String)
        ensures
            r@ == assistant_answer(self@.ai_question_value),
    {
        let mut response = String::from_str("0 0 1 1 *: ");
        response.append(self.ai_question_value.as_str());
        push_char(&mut response, ':');
        response
    }

    /// Reacts to a key while the form is shown. Answers whether the buffer
    /// of the expression is to be filled anew from its text.
    pub fn handle_key_event(&mut self, key: PopupKey) -> (refill: bool)
        ensures
            final(self)@ == old(self)@.keyed(key),
            refill == old(self)@.asks_assistant(key),
    {
        if !self.enabled {
            return false;
        }
        match key {
            PopupKey::Up => {
                if self.current_input == ActiveInput::AIQuestion {
                    self.cron_notation_value = self.make_request_to_ai();
                    true
                } else {
                    false
                }
            },
            PopupKey::Edited(line) => {
                let text = match line {
                    Some(text) => text,
                    None => String::new(),
                };
                match self.current_input {
                    ActiveInput::CronNotation => {
                        self.cron_notation_value = text;
                    },
                    ActiveInput::Job => {
                        self.job_value = text;
                    },
                    ActiveInput::JobDescription => {
                        self.job_description_value = text;
                    },
                    ActiveInput::AIQuestion => {
                        self.ai_question_value = text;
                    },
                }
                false
            },
            _ => false,
        }
    }

    /// Confirms the form, given whether its expression was found valid: a
    /// valid one emits the edit and closes the form; an invalid one only
    /// moves the focus to the expression. Answers what is emitted.
    pub fn confirm(&mut self, valid: bool) -> (emitted: Vec<Action>)
        ensures
            final(self)@ == old(self)@.confirmed(valid),
            action_views(emitted@) == old(self)@.confirmation(valid),
    {
        let mut emitted: Vec<Action> = Vec::new();
        if valid {
            let edit = Edit {
                target: self.target,
                cron_notation: self.cron_notation_value.clone(),
                job: self.job_value.clone(),
                job_description: self.job_description_value.clone(),
            };
            assert(edit@ == self@.edit());
            emitted.push(Action::PassData(edit.encode()));
            emitted.push(Action::ChangeMode(Module::Cron));
            assert(action_views(emitted@) == seq![
                ActionView::PassData(payload_of(edit@)),
                ActionView::ChangeMode(Module::Cron),
            ]);
            self.initial_render();
            self.target = Target::New;
            self.enabled = false;
        } else {
            assert(action_views(emitted@) == Seq::<ActionView>::empty());
            self.current_input = ActiveInput::CronNotation;
            self.signal = Signal::Invalid;
        }
        emitted
    }

    /// Reacts to `action`, seen while `active` was the interactive panel.
    /// A confirmation with a valid expression at the instant `now` emits
    /// the edit and closes the form; one with an invalid expression only
    /// moves the focus to the expression.
    pub fn update(&mut self, action: &Action, active: Module, now: i64) -> (r: Reaction)
        ensures
            final(self)@ == old(self)@.update(action@, active, now as int),
            action_views(r.emitted@) == old(self)@.emits(action@, active, now as int),
            r.effect == Effect::Nothing,
    {
        let mut emitted: Vec<Action> = Vec::new();
        assert(action_views(emitted@) == Seq::<ActionView>::empty());
        match action {
            Action::ChangeMode(Module::CronPopup) => {
                self.enabled = true;
            },
            Action::PassData(data) => {
                if active == Module::Cron {
                    self.initial_render();
                    match Edit::decode(data) {
                        Some(edit) => {
                            self.target = edit.target;
                            self.cron_notation_value = edit.cron_notation;
                            self.job_value = edit.job;
                            self.job_description_value = edit.job_description;
                        },
                        None => {
                            self.target = Target::New;
                        },
                    }
                }
            },
            _ => {
                if self.enabled && active == Module::CronPopup {
                    match action {
                        Action::ChangeMode(Module::Cron) => {
                            self.initial_render();
                            self.target = Target::New;
                            self.enabled = false;
                        },
                        Action::SwtichInput => {
                            self.current_input = self.current_input.next();
                        },
                        Action::Confirm => {
                            let valid = is_valid_expression(
                                self.cron_notation_value.as_str(),
                                now,
                            );
                            emitted = self.confirm(valid);
                        },
                        _ => {},
                    }
                }
            },
        }
        Reaction { emitted, effect: Effect::Nothing }
    }
}

} // verus!
