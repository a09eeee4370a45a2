//! The dispatch runtime: one queue of actions, drained one at a time; each
//! action is offered to every panel in a fixed order, and what the panels
//! emit goes to the end of the same queue.

use std::collections::VecDeque;
use vstd::prelude::*;
use crate::action::Action;
use crate::action::action_views;
use crate::action::ActionView;
use crate::action::Effect;
use crate::action::lemma_payload_round_trip;
use crate::action::Module;
use crate::action::Target;
use crate::components::cron::Cron;
use crate::components::cron::CronView;
use crate::components::cron::record_of;
use crate::components::cron::utils::is_valid;
use crate::components::cron::utils::Listing;
use crate::components::cron::utils::loaded;
use crate::components::cron::utils::schedule_text;
use crate::components::cron::utils::to_crontab;
use crate::components::cron_popup::ActiveInput;
use crate::components::cron_popup::CronPopup;
use crate::components::cron_popup::CronPopupView;
use crate::components::cron_popup::PopupKey;
use crate::components::home::Home;
use crate::components::home::HomeView;
use crate::draw::block_views;
use crate::draw::FieldBlock;
use crate::draw::Signal;

verus! {

/// The runtime: the interactive panel, whether the session goes on, the
/// queue, and the panels, each of which owns its state alone.
pub struct Runtime {
    mode: Module,
    running: bool,
    queue: VecDeque<Action>,
    home: Home,
    cron: Cron,
    popup: CronPopup,
}

/// The mathematical value of a [`Runtime`].
pub struct RuntimeView {
    pub mode: Module,
    pub running: bool,
    pub queue: Seq<ActionView>,
    pub home: HomeView,
    pub cron: CronView,
    pub popup: CronPopupView,
}

/// What a step did.
#[derive(Debug)]
pub enum Step {
    /// Nothing: the queue is empty or the session has ended.
    Idle,
    /// This action was offered to the panels; the effect is the work that
    /// is left to the host.
    Handled(Action, Effect),
}

impl View for Runtime {
    type V = RuntimeView;

    closed spec fn view(&self) -> RuntimeView {
        RuntimeView {
            mode: self.mode,
            running: self.running,
            queue: action_views(self.queue@),
            home: self.home@,
            cron: self.cron@,
            popup: self.popup@,
        }
    }
}

impl RuntimeView {
    /// Whether a step has an action to handle.
    pub open spec fn ready(self) -> bool {
        self.running && self.queue.len() > 0
    }

    /// The runtime with `action` at the end of its queue; a session that
    /// has ended takes no more.
    pub open spec fn sent(self, action: ActionView) -> RuntimeView {
        if self.running {
            RuntimeView { queue: self.queue.push(action), ..self }
        } else {
            self
        }
    }

    /// What the panels emit for the head of the queue, in the order in
    /// which they are asked: the menu, the job list, the edit form.
    pub open spec fn emitted(self, now: int) -> Seq<ActionView> {
        self.home.emits(self.queue[0], self.mode) + self.cron.emits(self.queue[0], self.mode)
            + self.popup.emits(self.queue[0], self.mode, now)
    }

    /// The interactive panel once `action` is handled.
    pub open spec fn mode_after(self, action: ActionView) -> Module {
        match action {
            ActionView::ChangeMode(module) => module,
            _ => self.mode,
        }
    }

    /// The runtime after one step: the head of the queue leaves it, every
    /// panel sees it, what they emit is appended behind what was waiting,
    /// a change of panel takes effect, and a quit ends the session.
    pub open spec fn step(self, now: int) -> RuntimeView {
        if !self.ready() {
            self
        } else {
            RuntimeView {
                mode: self.mode_after(self.queue[0]),
                running: self.queue[0] != ActionView::Quit,
                queue: self.queue.drop_first() + self.emitted(now),
                home: self.home.update(self.queue[0], self.mode),
                cron: self.cron.update(self.queue[0], self.mode, now),
                popup: self.popup.update(self.queue[0], self.mode, now),
            }
        }
    }

    /// The runtime after a touch of the pointer at the screen row `row`: a
    /// press goes to the menu, any touch to the job list, and what they
    /// answer goes to the queue.
    pub open spec fn touched(self, row: u16, pressed: bool, released: bool) -> RuntimeView {
        let first = if pressed && self.home.pressed_item(row) {
            RuntimeView { home: self.home.pressed(row), ..self }.sent(
                crate::components::home::menu_action(HomeView::row_at(row)->0)->0,
            )
        } else {
            self
        };
        if first.cron.pointer_selects(row, released) {
            RuntimeView { cron: first.cron.pointed(row, released), ..first }.sent(
                ActionView::Select,
            )
        } else {
            RuntimeView { cron: first.cron.pointed(row, released), ..first }
        }
    }

    /// The work that a step leaves to the host.
    pub open spec fn effect(self) -> Effect {
        if self.ready() {
            self.cron.effect(self.queue[0], self.mode)
        } else {
            Effect::Nothing
        }
    }
}

/// Validation gate: a confirmation of a form whose expression is not
/// valid changes neither the job list nor the queue behind it, and asks
/// nothing of the host; an interactive form keeps its texts, puts the focus
/// on the expression and signals that it is invalid.
pub proof fn lemma_validation_gate(rt: RuntimeView, now: int)
    requires
        rt.ready(),
        rt.queue[0] == ActionView::Confirm,
        !is_valid(rt.popup.cron_notation_value, now),
    ensures
        rt.step(now).cron == rt.cron,
        rt.step(now).queue == rt.queue.drop_first(),
        rt.effect() == Effect::Nothing,
        rt.popup.interactive(rt.mode) ==> rt.step(now).popup == (CronPopupView {
            current_input: ActiveInput::CronNotation,
            signal: Signal::Invalid,
            ..rt.popup
        }),
        !rt.popup.interactive(rt.mode) ==> rt.step(now).popup == rt.popup,
{
    assert(rt.emitted(now) == Seq::<ActionView>::empty());
    assert(rt.queue.drop_first() + Seq::<ActionView>::empty() == rt.queue.drop_first());
}

/// Selection bounds in the runtime: a step leaves the selection of the job
/// list within the list, or none for an empty list.
pub proof fn lemma_step_keeps_selection(rt: RuntimeView, now: int)
    requires
        rt.cron.wf(),
    ensures
        rt.step(now).cron.wf(),
{
}

/// First in, first out: the actions that wait behind the head keep their
/// order and stay in front of whatever the step emits.
pub proof fn lemma_first_in_first_out(rt: RuntimeView, now: int)
    requires
        rt.ready(),
    ensures
        rt.step(now).queue.len() == rt.queue.len() - 1 + rt.emitted(now).len(),
        forall|i: int| 0 <= i < rt.queue.len() - 1 ==> rt.step(now).queue[i] == rt.queue[i + 1],
        forall|i: int|
            0 <= i < rt.emitted(now).len() ==> rt.step(now).queue[rt.queue.len() - 1 + i]
                == rt.emitted(now)[i],
{
}

/// A commit reaches the list: when an interactive form with a valid
/// expression is confirmed and nothing else waits, the step after the
/// confirmation applies the form's edit to the job list, with the next run
/// taken anew. The index of the form's target must fit in 32 bits.
pub proof fn lemma_commit_reaches_list(rt: RuntimeView, now: int)
    requires
        rt.running,
        rt.queue == seq![ActionView::Confirm],
        rt.popup.interactive(rt.mode),
        is_valid(rt.popup.cron_notation_value, now),
        rt.popup.target matches Target::Existing(i) ==> i <= i32::MAX,
    ensures
        rt.step(now).popup == CronPopupView::closed(),
        rt.step(now).cron == rt.cron,
        rt.step(now).step(now).cron == rt.cron.insert_or_replace(
            rt.popup.target,
            record_of(rt.popup.edit(), now),
        ),
        rt.step(now).step(now).queue == seq![ActionView::ChangeMode(Module::Cron)],
{
    let edit = rt.popup.edit();
    lemma_payload_round_trip(edit);
    let first = rt.step(now);
    assert(rt.queue[0] == ActionView::Confirm);
    assert(rt.home.emits(rt.queue[0], rt.mode) == Seq::<ActionView>::empty());
    assert(rt.cron.emits(rt.queue[0], rt.mode) == Seq::<ActionView>::empty());
    let wanted = seq![
        ActionView::PassData(crate::action::payload_of(edit)),
        ActionView::ChangeMode(Module::Cron),
    ];
    assert(rt.emitted(now) == wanted);
    assert(rt.queue.drop_first() == Seq::<ActionView>::empty());
    assert(first.queue == wanted);
    assert(first.mode == Module::CronPopup);
    assert(first.queue[0] == ActionView::PassData(crate::action::payload_of(edit)));
    assert(first.emitted(now) == Seq::<ActionView>::empty());
    assert(first.queue.drop_first() == seq![ActionView::ChangeMode(Module::Cron)]);
}

/// Appends copies of `emitted` to `queue`, in order.
fn enqueue(queue: &mut VecDeque<Action>, emitted: &Vec<Action>)
    ensures
        action_views(final(queue)@) == action_views(old(queue)@) + action_views(emitted@),
{
    let mut i: usize = 0;
    assert(action_views(emitted@).take(0) == Seq::<ActionView>::empty());
    while i < emitted.len()
        invariant
            i <= emitted.len(),
            action_views(queue@) == action_views(old(queue)@) + action_views(emitted@).take(
                i as int,
            ),
        decreases emitted.len() - i,
    {
        let ghost before = queue@;
        let copy = emitted[i].duplicate();
        queue.push_back(copy);
        assert(action_views(queue@) == action_views(before).push(copy@));
        assert(action_views(emitted@).take(i + 1) == action_views(emitted@).take(i as int).push(
            emitted@[i as int]@,
        ));
        i += 1;
    }
    assert(action_views(emitted@).take(emitted.len() as int) == action_views(emitted@));
}

impl Runtime {
    /// A runtime at the start of a session: the menu is interactive, the
    /// queue is empty.
    pub fn new() -> (r: Runtime)
        ensures
            r@.mode == Module::Home,
            r@.running,
            r@.queue.len() == 0,
            r@.home == (HomeView { enabled: true, selected: Some(0int) }),
            r@.cron == (CronView {
                enabled: false,
                mouse: true,
                selected: None,
                items: Seq::empty(),
            }),
            r@.popup == CronPopupView::closed(),
    {
        let r = Runtime {
            mode: Module::Home,
            running: true,
            queue: VecDeque::new(),
            home: Home::new(),
            cron: Cron::new(),
            popup: CronPopup::new(),
        };
        assert(action_views(r.queue@).len() == 0);
        r
    }

    /// The panel that is interactive.
    pub fn mode(&self) -> (r: Module)
        ensures
            r == self@.mode,
    {
        self.mode
    }

    /// Whether the session goes on.
    pub fn is_running(&self) -> (r: bool)
        ensures
            r == self@.running,
    {
        self.running
    }

    /// The number of actions that wait in the queue.
    pub fn pending(&self) -> (r: usize)
        ensures
            r == self@.queue.len(),
    {
        self.queue.len()
    }

    /// The menu.
    pub fn home(&self) -> (r: &Home)
        ensures
            r@ == self@.home,
    {
        &self.home
    }

    /// The job list.
    pub fn cron(&self) -> (r: &Cron)
        ensures
            r@ == self@.cron,
    {
        &self.cron
    }

    /// The edit form.
    pub fn popup(&self) -> (r: &CronPopup)
        ensures
            r@ == self@.popup,
    {
        &self.popup
    }

    /// Puts `action` at the end of the queue.
    pub fn send(&mut self, action: Action)
        ensures
            final(self)@ == old(self)@.sent(action@),
    {
        if self.running {
            let ghost before = self.queue@;
            self.queue.push_back(action);
            assert(action_views(self.queue@) == action_views(before).push(action@));
        }
    }

    /// Takes the action at the head of the queue and offers it to every
    /// panel; `now` is the instant after which next runs are taken.
    pub fn step(&mut self, now: i64) -> (r: Step)
        ensures
            final(self)@ == old(self)@.step(now as int),
            match r {
                Step::Idle => !old(self)@.ready(),
                Step::Handled(action, effect) => {
                    &&& old(self)@.ready()
                    &&& action@ == old(self)@.queue[0]
                    &&& effect == old(self)@.effect()
                },
            },
    {
        if !self.running {
            return Step::Idle;
        }
        let ghost waiting = self.queue@;
        let action = match self.queue.pop_front() {
            Some(action) => action,
            None => {
                return Step::Idle;
            },
        };
        assert(action_views(self.queue@) == action_views(waiting).drop_first());
        let active = self.mode;
        let from_home = self.home.update(&action, active);
        let from_cron = self.cron.update(&action, active, now);
        let from_popup = self.popup.update(&action, active, now);
        enqueue(&mut self.queue, &from_home.emitted);
        enqueue(&mut self.queue, &from_cron.emitted);
        enqueue(&mut self.queue, &from_popup.emitted);
        match action {
            Action::ChangeMode(module) => {
                self.mode = module;
            },
            Action::Quit => {
                self.running = false;
            },
            _ => {},
        }
        assert(action_views(self.queue@) == action_views(waiting).drop_first() + old(
            self,
        )@.emitted(now as int));
        Step::Handled(action, from_cron.effect)
    }

    /// Hands the job list what the schedule store holds.
    pub fn schedule_loaded(&mut self, listing: &Listing, now: i64)
        ensures
            final(self)@ == (RuntimeView {
                cron: old(self)@.cron.with_items(loaded(*listing, now as int)),
                ..old(self)@
            }),
    {
        self.cron.loaded(listing, now);
    }

    /// The schedule text of the job list, as the store is to hold it.
    pub fn schedule_text(&self) -> (text: String)
        ensures
            text@ == schedule_text(self@.cron.items),
    {
        to_crontab(self.cron.items())
    }

    /// Hands a key to the edit form; answers whether the buffer of the
    /// expression is to be filled anew from its text.
    pub fn popup_key(&mut self, key: PopupKey) -> (refill: bool)
        ensures
            final(self)@ == (RuntimeView { popup: old(self)@.popup.keyed(key), ..old(self)@ }),
            refill == old(self)@.popup.asks_assistant(key),
    {
        self.popup.handle_key_event(key)
    }

    /// Describes the blocks of the edit form's fields for a frame; the
    /// expression is checked at the instant `now` while it has the focus.
    pub fn describe_popup(&mut self, now: i64) -> (blocks: Vec<FieldBlock>)
        ensures
            final(self)@ == (RuntimeView { popup: old(self)@.popup.drawn(now as int), ..old(self)@ }),
            block_views(blocks@) == old(self)@.popup.blocks(now as int),
    {
        self.popup.describe_fields(now)
    }

    /// Hands a touch of the pointer at the screen row `row` to the panel
    /// that takes it: a press to the menu, any touch to the job list. What
    /// the panel answers goes to the queue.
    pub fn pointer(&mut self, row: u16, pressed: bool, released: bool)
        ensures
            final(self)@ == old(self)@.touched(row, pressed, released),
    {
        let ghost waiting = self.queue@;
        assert(action_views(waiting) + Seq::<ActionView>::empty() == action_views(waiting));
        if pressed {
            match self.home.handle_mouse_event(row) {
                Some(action) => {
                    if self.running {
                        self.queue.push_back(action);
                        assert(action_views(self.queue@) == action_views(waiting).push(action@));
                    }
                },
                None => {},
            }
        }
        let ghost waiting = self.queue@;
        match self.cron.handle_mouse_event(row, released) {
            Some(action) => {
                if self.running {
                    self.queue.push_back(action);
                    assert(action_views(self.queue@) == action_views(waiting).push(action@));
                }
            },
            None => {},
        }
    }
}

} // verus!
