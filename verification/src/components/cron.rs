//! The job list: the records of the schedule, the selection among them and
//! the handler that reacts to actions.

pub mod edit;
pub mod laws;
pub mod utils;

use vstd::prelude::*;
use crate::action::Action;
use crate::action::action_views;
use crate::action::ActionView;
use crate::action::Edit;
use crate::action::edit_of;
use crate::action::EditView;
use crate::action::Effect;
use crate::action::Module;
use crate::action::payload_of;
use crate::action::Reaction;
use crate::action::Target;
use crate::components::cron::utils::column;
use crate::components::cron::utils::constraint_len_calculator;
use crate::components::cron::utils::get_next_execution;
use crate::components::cron::utils::largest;
use crate::components::cron::utils::Listing;
use crate::components::cron::utils::load;
use crate::components::cron::utils::loaded;
use crate::components::cron::utils::next_run;
use crate::components::cron::utils::widths_of;
use crate::text::texts;

verus! {

/// One entry of the schedule.
#[derive(Debug, Clone)]
pub struct CronJob {
    /// The schedule expression: five fields separated by whitespace.
    pub cron_notation: String,
    /// The command line to run; an empty one is never written out.
    pub job: String,
    /// An optional label, kept in the schedule as a comment line above the entry.
    pub job_description: String,
    /// The next trigger time of `cron_notation`, as shown in the list.
    pub next_execution: String,
}

/// The mathematical value of a [`CronJob`]: its four texts.
pub struct CronJobView {
    pub cron_notation: Seq<char>,
    pub job: Seq<char>,
    pub job_description: Seq<char>,
    pub next_execution: Seq<char>,
}

impl View for CronJob {
    type V = CronJobView;

    open spec fn view(&self) -> CronJobView {
        CronJobView {
            cron_notation: self.cron_notation@,
            job: self.job@,
            job_description: self.job_description@,
            next_execution: self.next_execution@,
        }
    }
}

/// The values of a list of records.
pub open spec fn views(jobs: Seq<CronJob>) -> Seq<CronJobView> {
    Seq::new(jobs.len(), |i: int| jobs[i]@)
}

impl Default for CronJob {
    fn default() -> (r: CronJob)
        ensures
            r@.cron_notation.len() == 0,
            r@.job.len() == 0,
            r@.job_description.len() == 0,
            r@.next_execution.len() == 0,
    {
        CronJob {
            cron_notation: String::new(),
            job: String::new(),
            job_description: String::new(),
            next_execution: String::new(),
        }
    }
}

impl CronJob {
    /// The three texts that a row of the list shows, in column order.
    pub fn ref_array(&self) -> (r: [&String; 3])
        ensures
            r[0]@ == self@.cron_notation,
            r[1]@ == self@.next_execution,
            r[2]@ == self@.job_description,
    {
        [&self.cron_notation, &self.next_execution, &self.job_description]
    }

    /// A record with the four texts of `cron_job`.
    pub fn new(cron_job: CronJob) -> (r: CronJob)
        ensures
            r == cron_job,
    {
        CronJob {
            cron_notation: cron_job.cron_notation,
            job: cron_job.job,
            job_description: cron_job.job_description,
            next_execution: cron_job.next_execution,
        }
    }

    /// A copy of this record.
    pub fn duplicate(&self) -> (r: CronJob)
        ensures
            r@ == self@,
    {
        CronJob {
            cron_notation: self.cron_notation.clone(),
            job: self.job.clone(),
            job_description: self.job_description.clone(),
            next_execution: self.next_execution.clone(),
        }
    }
}

/// The number of screen rows that one record takes in the list.
pub const ITEM_HEIGHT: usize = 3;

/// The screen row at which the first record of the list starts.
pub const FIRST_ROW: u16 = 3;

/// The width of the title of the first column.
pub const HEADER_WIDTH: u16 = 13;

/// `a + b`, or the largest number where that does not fit.
pub open spec fn capped_sum(a: u16, b: u16) -> u16 {
    if a + b <= u16::MAX {
        (a + b) as u16
    } else {
        u16::MAX
    }
}

/// The constraints of the three columns for texts of the widths `lens`:
/// the first is as wide as the wider of its texts and its title, and eight
/// more; the second at least as wide as its texts and one more; the third at
/// least as wide as its texts.
pub open spec fn constraints_of(lens: (u16, u16, u16)) -> (u16, u16, u16) {
    (
        capped_sum(
            if lens.0 < HEADER_WIDTH {
                HEADER_WIDTH
            } else {
                lens.0
            },
            8,
        ),
        capped_sum(lens.1, 1),
        lens.2,
    )
}

/// The constraints of the three columns of the list, given the widths of
/// their widest texts.
pub fn constraints_for(lens: (u16, u16, u16)) -> (r: (u16, u16, u16))
    ensures
        r == constraints_of(lens),
{
    let first: u16 = if lens.0 < HEADER_WIDTH {
        HEADER_WIDTH
    } else {
        lens.0
    };
    (
        if first <= u16::MAX - 8 {
            first + 8
        } else {
            u16::MAX
        },
        if lens.1 <= u16::MAX - 1 {
            lens.1 + 1
        } else {
            u16::MAX
        },
        lens.2,
    )
}

/// Whether the row of the record at `index` is drawn in the alternate
/// shade: every second one is.
pub fn is_alternate_row(index: usize) -> (r: bool)
    ensures
        r == (index % 2 == 1),
{
    index % 2 == 1
}

/// The job list: the records in display order, the selected one, and
/// whether the panel is shown and listens to the pointer.
pub struct Cron {
    enabled: bool,
    mouse: bool,
    selected: Option<usize>,
    items: Vec<CronJob>,
}

/// The mathematical value of a [`Cron`].
pub struct CronView {
    pub enabled: bool,
    pub mouse: bool,
    pub selected: Option<int>,
    pub items: Seq<CronJobView>,
}

/// The record that an edit makes, with its next run after `now`.
pub open spec fn record_of(edit: EditView, now: int) -> CronJobView {
    CronJobView {
        cron_notation: edit.cron_notation,
        job: edit.job,
        job_description: edit.job_description,
        next_execution: next_run(edit.cron_notation, now),
    }
}

/// The edit that opens the record `job` at index `i`.
pub open spec fn edit_for(i: int, job: CronJobView) -> EditView {
    EditView {
        target: Target::Existing(i as usize),
        cron_notation: job.cron_notation,
        job: job.job,
        job_description: job.job_description,
    }
}

/// `i` times the row height, or the largest number where that does not fit.
pub open spec fn rows_of(i: int) -> int {
    if i * ITEM_HEIGHT <= usize::MAX {
        i * ITEM_HEIGHT
    } else {
        usize::MAX as int
    }
}

impl CronView {
    /// The selection is an index of the list, or none where the list is
    /// empty.
    pub open spec fn wf(self) -> bool {
        match self.selected {
            None => self.items.len() == 0,
            Some(i) => 0 <= i < self.items.len(),
        }
    }

    /// The selected index, where it is one of the list.
    pub open spec fn current(self) -> Option<int> {
        match self.selected {
            Some(i) => if 0 <= i < self.items.len() {
                Some(i)
            } else {
                None
            },
            None => None,
        }
    }

    /// Whether the panel reacts to navigation and mutation intents.
    pub open spec fn interactive(self, active: Module) -> bool {
        self.enabled && active == Module::Cron
    }

    /// Selects the record after the selected one; after the last comes the
    /// first. Nothing changes on an empty list.
    pub open spec fn next_row(self) -> CronView {
        if self.items.len() == 0 {
            self
        } else {
            CronView {
                selected: Some(
                    match self.selected {
                        Some(i) => if i >= self.items.len() - 1 {
                            0
                        } else {
                            i + 1
                        },
                        None => 0,
                    },
                ),
                ..self
            }
        }
    }

    /// Selects the record before the selected one; before the first comes
    /// the last. Nothing changes on an empty list.
    pub open spec fn previous_row(self) -> CronView {
        if self.items.len() == 0 {
            self
        } else {
            CronView {
                selected: Some(
                    match self.selected {
                        Some(i) => if i <= 0 || i > self.items.len() {
                            self.items.len() - 1
                        } else {
                            i - 1
                        },
                        None => 0,
                    },
                ),
                ..self
            }
        }
    }

    /// Selects the first record, if there is one.
    pub open spec fn first_row(self) -> CronView {
        if self.items.len() == 0 {
            self
        } else {
            CronView { selected: Some(0), ..self }
        }
    }

    /// Selects the last record, if there is one.
    pub open spec fn last_row(self) -> CronView {
        if self.items.len() == 0 {
            self
        } else {
            CronView { selected: Some(self.items.len() - 1), ..self }
        }
    }

    /// Whether an edit for `target` can be applied: it is for a new record
    /// or for an index of the list.
    pub open spec fn accepts(self, target: Target) -> bool {
        match target {
            Target::New => true,
            Target::Existing(i) => i < self.items.len(),
        }
    }

    /// Appends `record` and selects it, for a new record; replaces the
    /// record at the index in place, for an index of the list; changes
    /// nothing for any other index.
    pub open spec fn insert_or_replace(self, target: Target, record: CronJobView) -> CronView {
        match target {
            Target::New => CronView {
                selected: Some(self.items.len() as int),
                items: self.items.push(record),
                ..self
            },
            Target::Existing(i) => if i < self.items.len() {
                CronView { items: self.items.update(i as int, record), ..self }
            } else {
                self
            },
        }
    }

    /// Removes the selected record; the selection stays at its index, moves
    /// to the new last record where that index is gone, and is none once the
    /// list is empty. Nothing changes where no record is selected.
    pub open spec fn delete_selected(self) -> CronView {
        match self.current() {
            Some(i) => {
                let left = self.items.remove(i);
                CronView {
                    selected: if left.len() == 0 {
                        None
                    } else if i >= left.len() {
                        Some(left.len() - 1)
                    } else {
                        Some(i)
                    },
                    items: left,
                    ..self
                }
            },
            None => self,
        }
    }

    /// Replaces the records; the selection stays where it points into the
    /// new list, else moves to the nearest record, and is none for an empty
    /// list.
    pub open spec fn with_items(self, items: Seq<CronJobView>) -> CronView {
        CronView {
            selected: if items.len() == 0 {
                None
            } else {
                match self.selected {
                    Some(i) => if i >= items.len() {
                        Some(items.len() - 1)
                    } else if i < 0 {
                        Some(0)
                    } else {
                        Some(i)
                    },
                    None => Some(0),
                }
            },
            items,
            ..self
        }
    }

    /// The scroll offset that belongs to the selection.
    pub open spec fn scroll_position(self) -> int {
        match self.current() {
            Some(i) => rows_of(i),
            None => 0,
        }
    }

    /// The index of the record that the screen row `row` shows, if any.
    pub open spec fn row_at(self, row: u16) -> Option<int> {
        if row >= FIRST_ROW && (row - FIRST_ROW) / (ITEM_HEIGHT as int) < self.items.len() {
            Some((row - FIRST_ROW) / (ITEM_HEIGHT as int))
        } else {
            None
        }
    }

    /// The list after the pointer has touched the screen row `row`: the
    /// record shown there is selected; where the button was released on it,
    /// the panel stops listening to the pointer.
    pub open spec fn pointed(self, row: u16, released: bool) -> CronView {
        if self.enabled && self.mouse && self.row_at(row) is Some {
            CronView {
                selected: self.row_at(row),
                mouse: if released {
                    false
                } else {
                    self.mouse
                },
                ..self
            }
        } else {
            self
        }
    }

    /// Whether a touch of the screen row `row` asks to open the record
    /// there.
    pub open spec fn pointer_selects(self, row: u16, released: bool) -> bool {
        self.enabled && self.mouse && self.row_at(row) is Some && released
    }

    /// The list after the handler has seen `action` while `active` was the
    /// interactive panel. Entering the panel shows it. A payload is taken in
    /// while the edit form is interactive, as the form's commit: the edit it
    /// carries is applied, with the next run taken after `now`; the payload
    /// that the list sends to the form itself is not for the list. All else
    /// is for an interactive list only: it hides on the way back to the menu,
    /// stops listening to the pointer while the form is open, deletes the
    /// selected record and follows the navigation.
    pub open spec fn update(self, action: ActionView, active: Module, now: int) -> CronView {
        match action {
            ActionView::ChangeMode(Module::Cron) => CronView { enabled: true, mouse: true, ..self },
            ActionView::PassData(data) => if active == Module::CronPopup && edit_of(data) is Some {
                self.insert_or_replace(edit_of(data)->0.target, record_of(edit_of(data)->0, now))
            } else {
                self
            },
            _ => if !self.interactive(active) {
                self
            } else {
                match action {
                    ActionView::ChangeMode(Module::Home) => CronView { enabled: false, ..self },
                    ActionView::NewRecord => CronView { mouse: false, ..self },
                    ActionView::DeleteRecord => self.delete_selected(),
                    ActionView::Select => if self.current() is Some {
                        CronView { mouse: false, ..self }
                    } else {
                        self
                    },
                    ActionView::MoveUp => self.previous_row(),
                    ActionView::MoveDown => self.next_row(),
                    ActionView::MoveToTheFirst => self.first_row(),
                    ActionView::MoveToTheLast => self.last_row(),
                    _ => self,
                }
            },
        }
    }

    /// The actions that the handler appends to the queue for `action`, in
    /// order: an interactive list clears the screen on the way back to the
    /// menu, and opens the edit form with an empty payload for a new record
    /// or with the texts of the selected record.
    pub open spec fn emits(self, action: ActionView, active: Module) -> Seq<ActionView> {
        if !self.interactive(active) {
            Seq::empty()
        } else {
            match action {
                ActionView::ChangeMode(Module::Home) => seq![ActionView::ClearScreen],
                ActionView::NewRecord => seq![
                    ActionView::PassData(Seq::empty()),
                    ActionView::ChangeMode(Module::CronPopup),
                ],
                ActionView::Select => match self.current() {
                    Some(i) => seq![
                        ActionView::PassData(payload_of(edit_for(i, self.items[i]))),
                        ActionView::ChangeMode(Module::CronPopup),
                    ],
                    None => Seq::empty(),
                },
                _ => Seq::empty(),
            }
        }
    }

    /// The work that the handler leaves to the host for `action`: a load on
    /// entering the panel, a save after each change of the records.
    pub open spec fn effect(self, action: ActionView, active: Module) -> Effect {
        match action {
            ActionView::ChangeMode(Module::Cron) => Effect::LoadSchedule,
            ActionView::PassData(data) => if active == Module::CronPopup && edit_of(data) is Some
                && self.accepts(edit_of(data)->0.target) {
                Effect::SaveSchedule
            } else {
                Effect::Nothing
            },
            ActionView::DeleteRecord => if self.interactive(active) && self.current() is Some {
                Effect::SaveSchedule
            } else {
                Effect::Nothing
            },
            _ => Effect::Nothing,
        }
    }
}

impl View for Cron {
    type V = CronView;

    closed spec fn view(&self) -> CronView {
        CronView {
            enabled: self.enabled,
            mouse: self.mouse,
            selected: match self.selected {
                Some(i) => Some(i as int),
                None => None,
            },
            items: views(self.items@),
        }
    }
}

impl Cron {
    /// An empty list that is not shown yet.
    pub fn new() -> (r: Cron)
        ensures
            r@ == (CronView {
                enabled: false,
                mouse: true,
                selected: None,
                items: Seq::empty(),
            }),
            r@.wf(),
    {
        let r = Cron { enabled: false, mouse: true, selected: None, items: Vec::new() };
        assert(views(r.items@) == Seq::<CronJobView>::empty());
        r
    }

    /// The records, in display order.
    pub fn items(&self) -> (r: &Vec<CronJob>)
        ensures
            views(r@) == self@.items,
    {
        &self.items
    }

    /// The selected index.
    pub fn selected(&self) -> (r: Option<usize>)
        ensures
            match r {
                Some(i) => self@.selected == Some(i as int),
                None => self@.selected is None,
            },
    {
        self.selected
    }

    /// Whether the panel is shown.
    pub fn is_enabled(&self) -> (r: bool)
        ensures
            r == self@.enabled,
    {
        self.enabled
    }

    /// Whether the panel listens to the pointer.
    pub fn listens_to_mouse(&self) -> (r: bool)
        ensures
            r == self@.mouse,
    {
        self.mouse
    }

    /// The scroll offset that belongs to the selection: the selected index
    /// times the row height.
    pub fn scroll_position(&self) -> (r: usize)
        ensures
            r == self@.scroll_position(),
    {
        match self.selected {
            Some(i) => {
                if i < self.items.len() {
                    if i <= usize::MAX / ITEM_HEIGHT {
                        i * ITEM_HEIGHT
                    } else {
                        usize::MAX
                    }
                } else {
                    0
                }
            },
            None => 0,
        }
    }

    /// The constraints of the three columns of the list.
    pub fn column_constraints(&self) -> (r: (u16, u16, u16))
        ensures
            r == constraints_of(
                (
                    column(largest(widths_of(self@.items).0)),
                    column(largest(widths_of(self@.items).1)),
                    column(largest(widths_of(self@.items).2)),
                ),
            ),
    {
        constraints_for(constraint_len_calculator(&self.items))
    }

    /// Whether the rest of the table, below the records, is drawn in the
    /// alternate shade: it goes on where the rows leave off.
    pub fn has_alternate_background(&self) -> (r: bool)
        ensures
            r == (self@.items.len() % 2 == 1),
    {
        self.items.len() % 2 == 1
    }

    /// Selects the next record, wrapping from the last to the first.
    pub fn next_row(&mut self)
        ensures
            final(self)@ == old(self)@.next_row(),
            old(self)@.wf() ==> final(self)@.wf(),
    {
        if self.items.len() == 0 {
            return ;
        }
        let i: usize = match self.selected {
            Some(i) => if i >= self.items.len() - 1 {
                0
            } else {
                i + 1
            },
            None => 0,
        };
        self.selected = Some(i);
    }

    /// Selects the previous record, wrapping from the first to the last.
    pub fn previous_row(&mut self)
        ensures
            final(self)@ == old(self)@.previous_row(),
            old(self)@.wf() ==> final(self)@.wf(),
    {
        if self.items.len() == 0 {
            return ;
        }
        let i: usize = match self.selected {
            Some(i) => if i == 0 || i > self.items.len() {
                self.items.len() - 1
            } else {
                i - 1
            },
            None => 0,
        };
        self.selected = Some(i);
    }

    /// Selects the first record.
    pub fn first_row(&mut self)
        ensures
            final(self)@ == old(self)@.first_row(),
            old(self)@.wf() ==> final(self)@.wf(),
    {
        if self.items.len() > 0 {
            self.selected = Some(0);
        }
    }

    /// Selects the last record.
    pub fn last_row(&mut self)
        ensures
            final(self)@ == old(self)@.last_row(),
            old(self)@.wf() ==> final(self)@.wf(),
    {
        if self.items.len() > 0 {
            self.selected = Some(self.items.len() - 1);
        }
    }

    /// Appends or replaces a record; says whether the list changed.
    pub fn insert_or_replace(&mut self, target: Target, record: CronJob) -> (changed: bool)
        ensures
            final(self)@ == old(self)@.insert_or_replace(target, record@),
            old(self)@.wf() ==> final(self)@.wf(),
            changed == old(self)@.accepts(target),
    {
        match target {
            Target::New => {
                let n = self.items.len();
                self.items.push(record);
                self.selected = Some(n);
                assert(views(self.items@) == views(old(self).items@).push(record@));
                true
            },
            Target::Existing(i) => {
                if i < self.items.len() {
                    self.items.set(i, record);
                    assert(views(self.items@) == views(old(self).items@).update(
                        i as int,
                        record@,
                    ));
                    true
                } else {
                    false
                }
            },
        }
    }

    /// Removes the selected record and repairs the selection; says whether
    /// a record was removed.
    pub fn delete_selected(&mut self) -> (deleted: bool)
        ensures
            final(self)@ == old(self)@.delete_selected(),
            old(self)@.wf() ==> final(self)@.wf(),
            deleted == (old(self)@.current() is Some),
    {
        match self.selected {
            Some(i) => {
                if i < self.items.len() {
                    self.items.remove(i);
                    assert(views(self.items@) == views(old(self).items@).remove(i as int));
                    let n = self.items.len();
                    self.selected = if n == 0 {
                        None
                    } else if i >= n {
                        Some(n - 1)
                    } else {
                        Some(i)
                    };
                    true
                } else {
                    false
                }
            },
            None => false,
        }
    }

    /// Replaces the records and repairs the selection.
    pub fn set_items(&mut self, items: Vec<CronJob>)
        ensures
            final(self)@ == old(self)@.with_items(views(items@)),
            old(self)@.wf() ==> final(self)@.wf(),
    {
        let n = items.len();
        self.selected = if n == 0 {
            None
        } else {
            match self.selected {
                Some(i) => if i >= n {
                    Some(n - 1)
                } else {
                    Some(i)
                },
                None => Some(0),
            }
        };
        self.items = items;
    }

    /// Takes in what the schedule store holds: the records of the listing,
    /// or the record that stands for its failure.
    pub fn loaded(&mut self, listing: &Listing, now: i64)
        ensures
            final(self)@ == old(self)@.with_items(loaded(*listing, now as int)),
            old(self)@.wf() ==> final(self)@.wf(),
    {
        let items = load(listing, now);
        self.set_items(items);
    }

    /// The index of the record that the screen row `row` shows.
    pub fn row_at(&self, row: u16) -> (r: Option<usize>)
        ensures
            match r {
                Some(i) => self@.row_at(row) == Some(i as int),
                None => self@.row_at(row) is None,
            },
    {
        if row < FIRST_ROW {
            return None;
        }
        let index: usize = ((row - FIRST_ROW) as usize) / ITEM_HEIGHT;
        if index < self.items.len() {
            Some(index)
        } else {
            None
        }
    }
    /// Reacts to the pointer at the screen row `row`; `released` says
    /// whether the button went up there. Answers the action to enqueue.
    pub fn handle_mouse_event(&mut self, row: u16, released: bool) -> (r: Option<Action>)
        ensures
            final(self)@ == old(self)@.pointed(row, released),
            old(self)@.wf() ==> final(self)@.wf(),
            match r {
                Some(action) => old(self)@.pointer_selects(row, released) && action@
                    == ActionView::Select,
                None => !old(self)@.pointer_selects(row, released),
            },
    {
        if self.enabled && self.mouse {
            match self.row_at(row) {
                Some(index) => {
                    self.selected = Some(index);
                    if released {
                        self.mouse = false;
                        return Some(Action::Select);
                    }
                },
                None => {},
            }
        }
        None
    }

    /// Reacts to `action`, seen while `active` was the interactive panel;
    /// `now` is the instant after which next runs are taken.
    pub fn update(&mut self, action: &Action, active: Module, now: i64) -> (r: Reaction)
        ensures
            final(self)@ == old(self)@.update(action@, active, now as int),
            old(self)@.wf() ==> final(self)@.wf(),
            action_views(r.emitted@) == old(self)@.emits(action@, active),
            r.effect == old(self)@.effect(action@, active),
    {
        let mut emitted: Vec<Action> = Vec::new();
        let mut effect = Effect::Nothing;
        assert(action_views(emitted@) == Seq::<ActionView>::empty());
        match action {
            Action::ChangeMode(Module::Cron) => {
                self.mouse = true;
                self.enabled = true;
                effect = Effect::LoadSchedule;
            },
            Action::PassData(data) => {
                if active == Module::CronPopup {
                    match Edit::decode(data) {
                        Some(edit) => {
                            let next_execution = get_next_execution(
                                edit.cron_notation.as_str(),
                                now,
                            );
                            let target = edit.target;
                            let record = CronJob {
                                cron_notation: edit.cron_notation,
                                job: edit.job,
                                job_description: edit.job_description,
                                next_execution,
                            };
                            if self.insert_or_replace(target, record) {
                                effect = Effect::SaveSchedule;
                            }
                        },
                        None => {},
                    }
                }
            },
            _ => {
                if self.enabled && active == Module::Cron {
                    match action {
                        Action::ChangeMode(Module::Home) => {
                            self.enabled = false;
                            emitted.push(Action::ClearScreen);
                            assert(action_views(emitted@) == seq![ActionView::ClearScreen]);
                        },
                        Action::NewRecord => {
                            self.mouse = false;
                            let data: Vec<String> = Vec::new();
                            assert(texts(data@) == Seq::<Seq<char>>::empty());
                            emitted.push(Action::PassData(data));
                            emitted.push(Action::ChangeMode(Module::CronPopup));
                            assert(action_views(emitted@) == seq![
                                ActionView::PassData(Seq::empty()),
                                ActionView::ChangeMode(Module::CronPopup),
                            ]);
                        },
                        Action::DeleteRecord => {
                            if self.delete_selected() {
                                effect = Effect::SaveSchedule;
                            }
                        },
                        Action::Select => {
                            match self.selected {
                                Some(i) => {
                                    if i < self.items.len() {
                                        let job = &self.items[i];
                                        let edit = Edit {
                                            target: Target::Existing(i),
                                            cron_notation: job.cron_notation.clone(),
                                            job: job.job.clone(),
                                            job_description: job.job_description.clone(),
                                        };
                                        assert(edit@ == edit_for(i as int, self@.items[i as int]));
                                        let data = edit.encode();
                                        emitted.push(Action::PassData(data));
                                        emitted.push(Action::ChangeMode(Module::CronPopup));
                                        self.mouse = false;
                                        assert(action_views(emitted@) == seq![
                                            ActionView::PassData(payload_of(edit@)),
                                            ActionView::ChangeMode(Module::CronPopup),
                                        ]);
                                    }
                                },
                                None => {},
                            }
                        },
                        Action::MoveUp => {
                            self.previous_row();
                        },
                        Action::MoveDown => {
                            self.next_row();
                        },
                        Action::MoveToTheFirst => {
                            self.first_row();
                        },
                        Action::MoveToTheLast => {
                            self.last_row();
                        },
                        _ => {},
                    }
                }
            },
        }
        Reaction { emitted, effect }
    }
}

} // verus!
