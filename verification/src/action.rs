//! The messages that travel through the dispatch runtime.

use vstd::prelude::*;
use vstd::string::StringExecFns;
use crate::decimal::decimal;
use crate::decimal::decimal_value;
use crate::decimal::lemma_decimal_value;
use crate::decimal::parse_signed;
use crate::decimal::signed_value;
use crate::decimal::to_decimal;
use crate::text::texts;

verus! {

/// The panel that is interactive.
#[derive(Debug, Clone, Copy, PartialEq, Eq, Structural)]
pub enum Module {
    Home,
    Cron,
    CronPopup,
}

impl Default for Module {
    fn default() -> (r: Module)
        ensures
            r == Module::Home,
    {
        Module::Home
    }
}

/// A message to the panels: a lifecycle signal, a navigation step or a
/// mutation intent.
#[derive(Debug, Clone, PartialEq, Eq)]
pub enum Action {
    Render,
    Resize(u16, u16),
    Suspend,
    Resume,
    Quit,
    ClearScreen,
    Error(String),
    Help,
    ChangeMode(Module),
    Select,
    Confirm,
    MoveUp,
    MoveDown,
    MoveToTheFirst,
    MoveToTheLast,
    NewRecord,
    DeleteRecord,
    PassData(Vec<String>),
    SwtichInput,
}

/// The mathematical value of an [`Action`]: texts in place of strings.
pub enum ActionView {
    Render,
    Resize(u16, u16),
    Suspend,
    Resume,
    Quit,
    ClearScreen,
    Error(Seq<char>),
    Help,
    ChangeMode(Module),
    Select,
    Confirm,
    MoveUp,
    MoveDown,
    MoveToTheFirst,
    MoveToTheLast,
    NewRecord,
    DeleteRecord,
    PassData(Seq<Seq<char>>),
    SwtichInput,
}

impl View for Action {
    type V = ActionView;

    open spec fn view(&self) -> ActionView {
        match *self {
            Action::Render => ActionView::Render,
            Action::Resize(w, h) => ActionView::Resize(w, h),
            Action::Suspend => ActionView::Suspend,
            Action::Resume => ActionView::Resume,
            Action::Quit => ActionView::Quit,
            Action::ClearScreen => ActionView::ClearScreen,
            Action::Error(message) => ActionView::Error(message@),
            Action::Help => ActionView::Help,
            Action::ChangeMode(module) => ActionView::ChangeMode(module),
            Action::Select => ActionView::Select,
            Action::Confirm => ActionView::Confirm,
            Action::MoveUp => ActionView::MoveUp,
            Action::MoveDown => ActionView::MoveDown,
            Action::MoveToTheFirst => ActionView::MoveToTheFirst,
            Action::MoveToTheLast => ActionView::MoveToTheLast,
            Action::NewRecord => ActionView::NewRecord,
            Action::DeleteRecord => ActionView::DeleteRecord,
            Action::PassData(data) => ActionView::PassData(texts(data@)),
            Action::SwtichInput => ActionView::SwtichInput,
        }
    }
}

/// The values of a list of actions.
pub open spec fn action_views(actions: Seq<Action>) -> Seq<ActionView> {
    Seq::new(actions.len(), |i: int| actions[i]@)
}

/// A copy of a list of strings.
pub fn duplicate_strings(data: &Vec<String>) -> (r: Vec<String>)
    ensures
        texts(r@) == texts(data@),
{
    let mut r: Vec<String> = Vec::new();
    let mut i: usize = 0;
    while i < data.len()
        invariant
            i <= data.len(),
            r.len() == i,
            forall|j: int| 0 <= j < i ==> r@[j]@ == data@[j]@,
        decreases data.len() - i,
    {
        r.push(data[i].clone());
        i += 1;
    }
    assert(texts(r@) =~= texts(data@));
    r
}

/// What the host is asked to do for a panel once a handler has run.
#[derive(Debug, Clone, Copy, PartialEq, Eq, Structural)]
pub enum Effect {
    /// Nothing.
    Nothing,
    /// Read the schedule store and hand the listing to the job list.
    LoadSchedule,
    /// Write the job list to the schedule store.
    SaveSchedule,
}

/// What a handler answers: the actions to append to the queue, in order,
/// and the work left to the host.
#[derive(Debug)]
pub struct Reaction {
    pub emitted: Vec<Action>,
    pub effect: Effect,
}

/// The record that an edit is for.
#[derive(Debug, Clone, Copy, PartialEq, Eq, Structural)]
pub enum Target {
    /// A record that does not exist yet.
    New,
    /// The record at this index of the job list.
    Existing(usize),
}

/// The texts of a record on their way between the job list and the edit
/// form.
#[derive(Debug)]
pub struct Edit {
    pub target: Target,
    pub cron_notation: String,
    pub job: String,
    pub job_description: String,
}

/// The mathematical value of an [`Edit`].
pub struct EditView {
    pub target: Target,
    pub cron_notation: Seq<char>,
    pub job: Seq<char>,
    pub job_description: Seq<char>,
}

impl View for Edit {
    type V = EditView;

    open spec fn view(&self) -> EditView {
        EditView {
            target: self.target,
            cron_notation: self.cron_notation@,
            job: self.job@,
            job_description: self.job_description@,
        }
    }
}

/// How a target is written in a payload: `-1` for a new record, the index
/// in decimal for an existing one.
pub open spec fn target_text(target: Target) -> Seq<char> {
    match target {
        Target::New => seq!['-', '1'],
        Target::Existing(i) => decimal(i as nat),
    }
}

/// The target that a text denotes: a new record for minus one, an index for
/// a number from zero on; none for any other text.
pub open spec fn target_of(text: Seq<char>) -> Option<Target> {
    match signed_value(text) {
        Some(v) => if v == -1 {
            Some(Target::New)
        } else if v >= 0 {
            Some(Target::Existing(v as usize))
        } else {
            None
        },
        None => None,
    }
}

/// The payload that carries `edit`.
pub open spec fn payload_of(edit: EditView) -> Seq<Seq<char>> {
    seq![target_text(edit.target), edit.cron_notation, edit.job, edit.job_description]
}

/// The edit that a payload carries: its first four texts, where there are
/// as many and the first denotes a target.
pub open spec fn edit_of(data: Seq<Seq<char>>) -> Option<EditView> {
    if data.len() >= 4 && target_of(data[0]) is Some {
        Some(
            EditView {
                target: target_of(data[0])->0,
                cron_notation: data[1],
                job: data[2],
                job_description: data[3],
            },
        )
    } else {
        None
    }
}

/// A target that is written out reads back as itself, as long as its index
/// fits in 32 bits.
pub proof fn lemma_target_round_trip(target: Target)
    requires
        target matches Target::Existing(i) ==> i <= i32::MAX,
    ensures
        target_of(target_text(target)) == Some(target),
{
    match target {
        Target::New => {
            let s = seq!['-', '1'];
            let digits = s.drop_first();
            assert(digits == seq!['1']);
            assert(digits.drop_last() == Seq::<char>::empty());
            assert(decimal_value(digits) == decimal_value(digits.drop_last()) * 10 + 1);
            assert(decimal_value(digits.drop_last()) == 0);
        },
        Target::Existing(i) => {
            lemma_decimal_value(i as nat);
        },
    }
}

/// A payload that is written out reads back as the same edit, as long as the
/// index of its target fits in 32 bits.
pub proof fn lemma_payload_round_trip(edit: EditView)
    requires
        edit.target matches Target::Existing(i) ==> i <= i32::MAX,
    ensures
        edit_of(payload_of(edit)) == Some(edit),
{
    lemma_target_round_trip(edit.target);
}

impl Target {
    /// This target as it is written in a payload.
    pub fn encode(&self) -> (r: String)
        ensures
            r@ == target_text(*self),
    {
        match self {
            Target::New => {
                proof {
                    reveal_strlit("-1");
                }
                let r = String::from_str("-1");
                assert(r@ == seq!['-', '1']);
                r
            },
            Target::Existing(i) => to_decimal(*i),
        }
    }

    /// The target that `text` denotes, if any.
    pub fn decode(text: &str) -> (r: Option<Target>)
        ensures
            r == target_of(text@),
    {
        match parse_signed(text) {
            Some(v) => {
                if v == -1 {
                    Some(Target::New)
                } else if v >= 0 {
                    Some(Target::Existing(v as usize))
                } else {
                    None
                }
            },
            None => None,
        }
    }
}

impl Edit {
    /// The payload that carries this edit.
    pub fn encode(&self) -> (data: Vec<String>)
        ensures
            texts(data@) == payload_of(self@),
    {
        let mut data: Vec<String> = Vec::new();
        data.push(self.target.encode());
        data.push(self.cron_notation.clone());
        data.push(self.job.clone());
        data.push(self.job_description.clone());
        assert(texts(data@) == payload_of(self@));
        data
    }

    /// The edit that the payload `data` carries, if it carries one.
    pub fn decode(data: &Vec<String>) -> (r: Option<Edit>)
        ensures
            match r {
                Some(edit) => edit_of(texts(data@)) == Some(edit@),
                None => edit_of(texts(data@)) is None,
            },
    {
        if data.len() < 4 {
            return None;
        }
        assert(texts(data@)[0] == data@[0]@);
        assert(texts(data@)[1] == data@[1]@);
        assert(texts(data@)[2] == data@[2]@);
        assert(texts(data@)[3] == data@[3]@);
        match Target::decode(data[0].as_str()) {
            Some(target) => Some(
                Edit {
                    target,
                    cron_notation: data[1].clone(),
                    job: data[2].clone(),
                    job_description: data[3].clone(),
                },
            ),
            None => None,
        }
    }
}

impl Action {
    /// A copy of this action.
    pub fn duplicate(&self) -> (r: Action)
        ensures
            r@ == self@,
    {
        match self {
            Action::Render => Action::Render,
            Action::Resize(w, h) => Action::Resize(*w, *h),
            Action::Suspend => Action::Suspend,
            Action::Resume => Action::Resume,
            Action::Quit => Action::Quit,
            Action::ClearScreen => Action::ClearScreen,
            Action::Error(message) => Action::Error(message.clone()),
            Action::Help => Action::Help,
            Action::ChangeMode(module) => Action::ChangeMode(*module),
            Action::Select => Action::Select,
            Action::Confirm => Action::Confirm,
            Action::MoveUp => Action::MoveUp,
            Action::MoveDown => Action::MoveDown,
            Action::MoveToTheFirst => Action::MoveToTheFirst,
            Action::MoveToTheLast => Action::MoveToTheLast,
            Action::NewRecord => Action::NewRecord,
            Action::DeleteRecord => Action::DeleteRecord,
            Action::PassData(data) => Action::PassData(duplicate_strings(data)),
            Action::SwtichInput => Action::SwtichInput,
        }
    }
}

} // verus!
