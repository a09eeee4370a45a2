//! The entry panel: a menu whose items lead to the other panels.

use vstd::prelude::*;
use crate::action::Action;
use crate::action::action_views;
use crate::action::ActionView;
use crate::action::Effect;
use crate::action::Module;
use crate::action::Reaction;

verus! {

/// The number of items of the menu.
pub const MENU_LEN: usize = 5;

/// The number of screen rows that one item of the menu takes.
pub const ITEM_SPAN: u16 = 3;

/// The screen row at which the first item of the menu starts.
pub const MENU_START_ROW: u16 = 6;

/// The action behind the item at `index`: the first item opens the job
/// list, each other one ends the session.
pub open spec fn menu_action(index: int) -> Option<ActionView> {
    if index == 0 {
        Some(ActionView::ChangeMode(Module::Cron))
    } else if 0 < index < MENU_LEN {
        Some(ActionView::Quit)
    } else {
        None
    }
}

/// The menu: whether it is shown, and the selected item.
pub struct Home {
    enabled: bool,
    selected: Option<usize>,
}

/// The mathematical value of a [`Home`].
pub struct HomeView {
    pub enabled: bool,
    pub selected: Option<int>,
}

impl View for Home {
    type V = HomeView;

    closed spec fn view(&self) -> HomeView {
        HomeView {
            enabled: self.enabled,
            selected: match self.selected {
                Some(i) => Some(i as int),
                None => None,
            },
        }
    }
}

impl HomeView {
    /// The selection, where there is one, is an item of the menu.
    pub open spec fn wf(self) -> bool {
        match self.selected {
            Some(i) => 0 <= i < MENU_LEN,
            None => true,
        }
    }

    /// Whether the menu reacts to navigation and to a selection.
    pub open spec fn interactive(self, active: Module) -> bool {
        self.enabled && active == Module::Home
    }

    /// The action that a selection emits: that of the selected item.
    pub open spec fn chosen(self) -> Option<ActionView> {
        match self.selected {
            Some(i) => menu_action(i),
            None => None,
        }
    }

    /// The item after the selected one; the last item stays. With nothing
    /// selected, the first.
    pub open spec fn next_item(self) -> HomeView {
        HomeView {
            selected: Some(
                match self.selected {
                    Some(i) => if i + 1 >= MENU_LEN {
                        MENU_LEN - 1
                    } else {
                        i + 1
                    },
                    None => 0,
                },
            ),
            ..self
        }
    }

    /// The item before the selected one; the first item stays. With
    /// nothing selected, the last.
    pub open spec fn previous_item(self) -> HomeView {
        HomeView {
            selected: Some(
                match self.selected {
                    Some(i) => if i <= 0 {
                        0
                    } else if i > MENU_LEN {
                        MENU_LEN - 1
                    } else {
                        i - 1
                    },
                    None => MENU_LEN - 1,
                },
            ),
            ..self
        }
    }

    /// The index of the item that the screen row `row` shows, if any.
    pub open spec fn row_at(row: u16) -> Option<int> {
        if row >= MENU_START_ROW && (row - MENU_START_ROW) / (ITEM_SPAN as int) < MENU_LEN {
            Some((row - MENU_START_ROW) / (ITEM_SPAN as int))
        } else {
            None
        }
    }

    /// Whether a press of the button on the screen row `row` selects an
    /// item.
    pub open spec fn pressed_item(self, row: u16) -> bool {
        self.enabled && Self::row_at(row) is Some
    }

    /// The menu after the button was pressed on the screen row `row`.
    pub open spec fn pressed(self, row: u16) -> HomeView {
        if self.pressed_item(row) {
            HomeView { enabled: false, selected: Self::row_at(row) }
        } else {
            self
        }
    }

    /// The menu after the handler has seen `action` while `active` was the
    /// interactive panel.
    pub open spec fn update(self, action: ActionView, active: Module) -> HomeView {
        match action {
            ActionView::ChangeMode(Module::Home) => HomeView { enabled: true, ..self },
            _ => if !self.interactive(active) {
                self
            } else {
                match action {
                    ActionView::Select => HomeView { enabled: false, ..self },
                    ActionView::MoveUp => self.previous_item(),
                    ActionView::MoveDown => self.next_item(),
                    ActionView::MoveToTheFirst => HomeView { selected: Some(0), ..self },
                    ActionView::MoveToTheLast => HomeView {
                        selected: Some(MENU_LEN - 1),
                        ..self
                    },
                    _ => self,
                }
            },
        }
    }

    /// The actions that the handler appends to the queue for `action`: on
    /// a selection, the action of the selected item.
    pub open spec fn emits(self, action: ActionView, active: Module) -> Seq<ActionView> {
        if self.interactive(active) && action == ActionView::Select && self.chosen() is Some {
            seq![self.chosen()->0]
        } else {
            Seq::empty()
        }
    }
}

impl Home {
    /// The menu as the session starts: shown, the first item selected.
    pub fn new() -> (r: Home)
        ensures
            r@ == (HomeView { enabled: true, selected: Some(0int) }),
    {
        Home { enabled: true, selected: Some(0) }
    }

    /// Whether the menu is shown.
    pub fn is_enabled(&self) -> (r: bool)
        ensures
            r == self@.enabled,
    {
        self.enabled
    }

    /// The selected item.
    pub fn selected(&self) -> (r: Option<usize>)
        ensures
            match r {
                Some(i) => self@.selected == Some(i as int),
                None => self@.selected is None,
            },
    {
        self.selected
    }

    /// The action of the selected item.
    fn process_select(&self) -> (r: Option<Action>)
        ensures
            match r {
                Some(action) => self@.chosen() == Some(action@),
                None => self@.chosen() is None,
            },
    {
        match self.selected {
            Some(i) => {
                if i == 0 {
                    Some(Action::ChangeMode(Module::Cron))
                } else if i < MENU_LEN {
                    Some(Action::Quit)
                } else {
                    None
                }
            },
            None => None,
        }
    }

    /// Reacts to a press of the pointer's button on the screen row `row`:
    /// the item shown there is selected and its action answered.
    pub fn handle_mouse_event(&mut self, row: u16) -> (r: Option<Action>)
        ensures
            final(self)@ == old(self)@.pressed(row),
            match r {
                Some(action) => old(self)@.pressed_item(row) && menu_action(
                    HomeView::row_at(row)->0,
                ) == Some(action@),
                None => !old(self)@.pressed_item(row),
            },
    {
        if self.enabled && row >= MENU_START_ROW {
            let index: usize = ((row - MENU_START_ROW) / ITEM_SPAN) as usize;
            if index < MENU_LEN {
                self.selected = Some(index);
                self.enabled = false;
                return self.process_select();
            }
        }
        None
    }

    /// Reacts to `action`, seen while `active` was the interactive panel.
    pub fn update(&mut self, action: &Action, active: Module) -> (r: Reaction)
        ensures
            final(self)@ == old(self)@.update(action@, active),
            action_views(r.emitted@) == old(self)@.emits(action@, active),
            r.effect == Effect::Nothing,
    {
        let mut emitted: Vec<Action> = Vec::new();
        assert(action_views(emitted@) == Seq::<ActionView>::empty());
        match action {
            Action::ChangeMode(Module::Home) => {
                self.enabled = true;
            },
            _ => {
                if self.enabled && active == Module::Home {
                    match action {
                        Action::Select => {
                            self.enabled = false;
                            match self.process_select() {
                                Some(chosen) => {
                                    emitted.push(chosen);
                                    assert(action_views(emitted@) == seq![chosen@]);
                                },
                                None => {},
                            }
                        },
                        Action::MoveUp => {
                            let i: usize = match self.selected {
                                Some(i) => if i == 0 {
                                    0
                                } else if i > MENU_LEN {
                                    MENU_LEN - 1
                                } else {
                                    i - 1
                                },
                                None => MENU_LEN - 1,
                            };
                            self.selected = Some(i);
                        },
                        Action::MoveDown => {
                            let i: usize = match self.selected {
                                Some(i) => if i >= MENU_LEN - 1 {
                                    MENU_LEN - 1
                                } else {
                                    i + 1
                                },
                                None => 0,
                            };
                            self.selected = Some(i);
                        },
                        Action::MoveToTheFirst => {
                            self.selected = Some(0);
                        },
                        Action::MoveToTheLast => {
                            self.selected = Some(MENU_LEN - 1);
                        },
                        _ => {},
                    }
                }
            },
        }
        Reaction { emitted, effect: Effect::Nothing }
    }
}

} // verus!
