//! The accounts of the host whose home directory lies under the document
//! root, read from the text of the account file.

use vstd::prelude::*;
use vstd::string::StringExecFns;
use crate::action::Action;
use crate::action::action_views;
use crate::action::ActionView;
use crate::action::Effect;
use crate::action::Module;
use crate::action::Reaction;
use crate::components::cron::utils::column;
use crate::components::cron::utils::display_width;
use crate::components::cron::utils::largest;
use crate::components::cron::utils::longest;
use crate::components::cron::utils::width_of;
use crate::text::lemma_line_len_bound;
use crate::text::line_len;
use crate::text::line_stop;
use crate::text::to_chars;
use crate::text::to_text;

verus! {

/// One account.
#[derive(Debug, Clone)]
pub struct User {
    pub username: String,
    pub docroot: String,
    pub shell: String,
}

/// The mathematical value of a [`User`]: its three texts.
pub struct UserView {
    pub username: Seq<char>,
    pub docroot: Seq<char>,
    pub shell: Seq<char>,
}

impl View for User {
    type V = UserView;

    open spec fn view(&self) -> UserView {
        UserView { username: self.username@, docroot: self.docroot@, shell: self.shell@ }
    }
}

/// The values of a list of accounts.
pub open spec fn user_views(users: Seq<User>) -> Seq<UserView> {
    Seq::new(users.len(), |i: int| users[i]@)
}

impl Default for User {
    fn default() -> (r: User)
        ensures
            r@.username.len() == 0,
            r@.docroot.len() == 0,
            r@.shell.len() == 0,
    {
        User { username: String::new(), docroot: String::new(), shell: String::new() }
    }
}

impl User {
    /// An account of the name `username`, with nothing else known of it.
    pub fn new(username: &str) -> (r: User)
        ensures
            r@ == note(username@),
    {
        User { username: String::from_str(username), docroot: String::new(), shell: String::new() }
    }

    /// The three texts that a row of the list shows, in column order.
    pub fn ref_array(&self) -> (r: [&String; 3])
        ensures
            r[0]@ == self@.username,
            r[1]@ == self@.docroot,
            r[2]@ == self@.shell,
    {
        [&self.username, &self.docroot, &self.shell]
    }
}

/// What reading the account file came to.
#[derive(Debug, Clone)]
pub enum Passwd {
    /// The text of the file.
    Read(String),
    /// The file could not be opened; this is the message of the failure.
    Unavailable(String),
    /// A line of the file could not be read; this is the message of the
    /// failure.
    Broken(String),
}

/// The record that shows `text` in the first column and nothing else.
pub open spec fn note(text: Seq<char>) -> UserView {
    UserView { username: text, docroot: Seq::empty(), shell: Seq::empty() }
}

/// Length of the longest prefix of `s` that holds no colon.
pub open spec fn field_len(s: Seq<char>) -> nat
    decreases s.len(),
{
    if s.len() > 0 && s[0] != ':' {
        1 + field_len(s.drop_first())
    } else {
        0
    }
}

/// The fields of `s`: the pieces between colons. There is always one.
pub open spec fn fields(s: Seq<char>) -> Seq<Seq<char>>
    decreases s.len(),
    via fields_decreases
{
    if field_len(s) >= s.len() {
        seq![s]
    } else {
        seq![s.take(field_len(s) as int)] + fields(s.skip(field_len(s) as int + 1))
    }
}

#[via_fn]
proof fn fields_decreases(s: Seq<char>) {
    lemma_field_len_bound(s);
}

/// The first field of a text lies within it.
pub proof fn lemma_field_len_bound(s: Seq<char>)
    ensures
        field_len(s) <= s.len(),
    decreases s.len(),
{
    if s.len() > 0 && s[0] != ':' {
        lemma_field_len_bound(s.drop_first());
    }
}

/// A line without the carriage return at its end, if it has one.
pub open spec fn bare_line(raw: Seq<char>) -> Seq<char> {
    if raw.len() > 0 && raw.last() == '\r' {
        raw.drop_last()
    } else {
        raw
    }
}

/// The lines of `s` as they are read: the pieces between line feeds, each
/// without the carriage return in front of its line feed, if there is one.
/// What follows the last line feed is a line as it stands, unless it is
/// empty.
pub open spec fn read_lines(s: Seq<char>) -> Seq<Seq<char>>
    decreases s.len(),
{
    if s.len() == 0 {
        Seq::empty()
    } else if line_len(s) >= s.len() {
        seq![s]
    } else {
        seq![bare_line(s.take(line_len(s) as int))] + read_lines(s.skip(line_len(s) as int + 1))
    }
}

/// Whether `s` starts with `prefix`.
pub open spec fn starts_with(s: Seq<char>, prefix: Seq<char>) -> bool {
    prefix.len() <= s.len() && s.take(prefix.len() as int) == prefix
}

/// The accounts that the lines `ls` hold: a line of at least seven fields
/// whose sixth, the home directory, starts with `prefix` gives an account
/// of its first, sixth and seventh field; any other line gives none.
pub open spec fn accounts(ls: Seq<Seq<char>>, prefix: Seq<char>) -> Seq<UserView>
    decreases ls.len(),
{
    if ls.len() == 0 {
        Seq::empty()
    } else {
        let parts = fields(ls.last());
        let before = accounts(ls.drop_last(), prefix);
        if parts.len() >= 7 && starts_with(parts[5], prefix) {
            before.push(UserView { username: parts[0], docroot: parts[5], shell: parts[6] })
        } else {
            before
        }
    }
}

/// What the list shows for a reading of the account file: the accounts
/// under the document root, or a note that there are none; a note with the
/// message where the file could not be read.
pub open spec fn listed(reading: Passwd, prefix: Seq<char>) -> Seq<UserView> {
    match reading {
        Passwd::Read(text) => if accounts(read_lines(text@), prefix).len() == 0 {
            seq![note("No users found"@)]
        } else {
            accounts(read_lines(text@), prefix)
        },
        Passwd::Unavailable(message) => seq![note("Error: "@ + message@)],
        Passwd::Broken(message) => seq![note("Error reading line: "@ + message@)],
    }
}

/// The end of the field that starts at `from` in `v[..to]`.
fn field_stop(v: &Vec<char>, from: usize, to: usize) -> (r: usize)
    requires
        from <= to <= v.len(),
    ensures
        r == from + field_len(v@.subrange(from as int, to as int)),
        from <= r <= to,
{
    let mut r: usize = from;
    while r < to && v[r] != ':'
        invariant
            from <= r <= to <= v.len(),
            r + field_len(v@.subrange(r as int, to as int)) == from + field_len(
                v@.subrange(from as int, to as int),
            ),
        decreases to - r,
    {
        assert(v@.subrange(r as int, to as int).drop_first() == v@.subrange(r + 1, to as int));
        r += 1;
    }
    r
}

/// The bounds of the fields of `v[from..to]`.
fn split_fields(v: &Vec<char>, from: usize, to: usize) -> (parts: Vec<(usize, usize)>)
    requires
        from <= to <= v.len(),
    ensures
        parts.len() == fields(v@.subrange(from as int, to as int)).len(),
        forall|i: int|
            0 <= i < parts.len() ==> {
                &&& from <= (#[trigger] parts@[i]).0 <= parts@[i].1 <= to
                &&& v@.subrange(parts@[i].0 as int, parts@[i].1 as int) == fields(
                    v@.subrange(from as int, to as int),
                )[i]
            },
{
    let mut parts: Vec<(usize, usize)> = Vec::new();
    let mut pos: usize = from;
    let ghost whole = fields(v@.subrange(from as int, to as int));
    let ghost mut found: Seq<Seq<char>> = Seq::empty();
    loop
        invariant_except_break
            from <= pos <= to <= v.len(),
            whole == fields(v@.subrange(from as int, to as int)),
            found + fields(v@.subrange(pos as int, to as int)) == whole,
            parts.len() == found.len(),
            forall|i: int|
                0 <= i < parts.len() ==> {
                    &&& from <= (#[trigger] parts@[i]).0 <= parts@[i].1 <= to
                    &&& v@.subrange(parts@[i].0 as int, parts@[i].1 as int) == found[i]
                },
        ensures
            to <= v.len(),
            whole == fields(v@.subrange(from as int, to as int)),
            parts.len() == whole.len(),
            forall|i: int|
                0 <= i < parts.len() ==> {
                    &&& from <= (#[trigger] parts@[i]).0 <= parts@[i].1 <= to
                    &&& v@.subrange(parts@[i].0 as int, parts@[i].1 as int) == whole[i]
                },
        decreases to - pos,
    {
        let ghost rest = v@.subrange(pos as int, to as int);
        let end = field_stop(v, pos, to);
        parts.push((pos, end));
        if end >= to {
            proof {
                assert(fields(rest) == seq![rest]);
                found = found.push(rest);
                assert(found == whole);
            }
            break ;
        }
        proof {
            assert(rest.take(field_len(rest) as int) == v@.subrange(pos as int, end as int));
            assert(rest.skip(field_len(rest) as int + 1) == v@.subrange(end + 1, to as int));
            found = found.push(v@.subrange(pos as int, end as int));
        }
        pos = end + 1;
    }
    parts
}

/// Whether `v[from..to]` starts with `prefix`.
fn range_starts_with(v: &Vec<char>, from: usize, to: usize, prefix: &Vec<char>) -> (r: bool)
    requires
        from <= to <= v.len(),
    ensures
        r == starts_with(v@.subrange(from as int, to as int), prefix@),
{
    if prefix.len() > to - from {
        return false;
    }
    let ghost s = v@.subrange(from as int, to as int);
    let mut k: usize = 0;
    while k < prefix.len()
        invariant
            k <= prefix.len() <= to - from,
            from <= to <= v.len(),
            s == v@.subrange(from as int, to as int),
            forall|j: int| 0 <= j < k ==> s[j] == prefix@[j],
        decreases prefix.len() - k,
    {
        if v[from + k] != prefix[k] {
            assert(s.take(prefix.len() as int)[k as int] != prefix@[k as int]);
            return false;
        }
        k += 1;
    }
    assert(s.take(prefix.len() as int) == prefix@);
    true
}

/// Reads the accounts out of the text of the account file: those whose
/// home directory starts with `doc_root_prefix`.
pub fn parse_passwd(text: &str, doc_root_prefix: &str) -> (users: Vec<User>)
    ensures
        user_views(users@) == accounts(read_lines(text@), doc_root_prefix@),
{
    let v = to_chars(text);
    let prefix = to_chars(doc_root_prefix);
    let mut users: Vec<User> = Vec::new();
    let mut pos: usize = 0;
    let ghost mut seen: Seq<Seq<char>> = Seq::empty();
    assert(v@.skip(0) == v@);
    assert(user_views(users@) == Seq::<UserView>::empty());
    while pos < v.len()
        invariant
            pos <= v.len(),
            v@ == text@,
            prefix@ == doc_root_prefix@,
            seen + read_lines(v@.skip(pos as int)) == read_lines(text@),
            user_views(users@) == accounts(seen, prefix@),
        decreases v.len() - pos,
    {
        let end = line_stop(&v, pos);
        let next: usize = if end < v.len() {
            end + 1
        } else {
            end
        };
        let stop: usize = if end < v.len() && end > pos && v[end - 1] == '\r' {
            end - 1
        } else {
            end
        };
        let ghost rest = v@.skip(pos as int);
        let ghost line = v@.subrange(pos as int, stop as int);
        let ghost before = user_views(users@);
        proof {
            lemma_line_len_bound(rest);
            if end < v.len() {
                assert(rest.take(line_len(rest) as int) == v@.subrange(pos as int, end as int));
                assert(rest.skip(line_len(rest) as int + 1) == v@.skip(next as int));
                assert(line == bare_line(v@.subrange(pos as int, end as int)));
            } else {
                assert(rest == line);
                assert(v@.skip(next as int).len() == 0);
            }
            assert(read_lines(rest) == seq![line] + read_lines(v@.skip(next as int)));
            assert(seen.push(line) + read_lines(v@.skip(next as int)) == read_lines(text@));
            assert(seen.push(line).drop_last() == seen);
        }
        let parts = split_fields(&v, pos, stop);
        if parts.len() >= 7 {
            let home = parts[5];
            if range_starts_with(&v, home.0, home.1, &prefix) {
                let user = User {
                    username: to_text(&v, parts[0].0, parts[0].1),
                    docroot: to_text(&v, home.0, home.1),
                    shell: to_text(&v, parts[6].0, parts[6].1),
                };
                users.push(user);
                assert(user_views(users@) == before.push(user@));
            }
        }
        proof {
            seen = seen.push(line);
        }
        pos = next;
    }
    assert(read_lines(v@.skip(pos as int)) == Seq::<Seq<char>>::empty());
    assert(seen + Seq::<Seq<char>>::empty() == seen);
    users
}

/// The accounts to show for a reading of the account file.
pub fn get_users_from_passwd(reading: &Passwd, doc_root_prefix: &str) -> (users: Vec<User>)
    ensures
        user_views(users@) == listed(*reading, doc_root_prefix@),
{
    let mut users = match reading {
        Passwd::Read(text) => parse_passwd(text.as_str(), doc_root_prefix),
        Passwd::Unavailable(message) => {
            let mut text = String::from_str("Error: ");
            text.append(message.as_str());
            let mut users: Vec<User> = Vec::new();
            users.push(User::new(text.as_str()));
            assert(user_views(users@) == seq![note("Error: "@ + message@)]);
            return users;
        },
        Passwd::Broken(message) => {
            let mut text = String::from_str("Error reading line: ");
            text.append(message.as_str());
            let mut users: Vec<User> = Vec::new();
            users.push(User::new(text.as_str()));
            assert(user_views(users@) == seq![note("Error reading line: "@ + message@)]);
            return users;
        },
    };
    if users.len() == 0 {
        users.push(User::new("No users found"));
        assert(user_views(users@) == seq![note("No users found"@)]);
    }
    users
}

/// The list of accounts: the accounts in display order, the selected one,
/// and whether the panel is shown.
pub struct Users {
    enabled: bool,
    selected: Option<usize>,
    items: Vec<User>,
}

/// The mathematical value of a [`Users`].
pub struct UsersView {
    pub enabled: bool,
    pub selected: Option<int>,
    pub items: Seq<UserView>,
}

impl View for Users {
    type V = UsersView;

    closed spec fn view(&self) -> UsersView {
        UsersView {
            enabled: self.enabled,
            selected: match self.selected {
                Some(i) => Some(i as int),
                None => None,
            },
            items: user_views(self.items@),
        }
    }
}

impl UsersView {
    /// The selection is an index of the list, or none where the list is
    /// empty.
    pub open spec fn wf(self) -> bool {
        match self.selected {
            None => self.items.len() == 0,
            Some(i) => 0 <= i < self.items.len(),
        }
    }

    /// Selects the account after the selected one; after the last comes the
    /// first. Nothing changes on an empty list.
    pub open spec fn next_row(self) -> UsersView {
        if self.items.len() == 0 {
            self
        } else {
            UsersView {
                selected: Some(
                    match self.selected {
                        Some(i) => if i >= self.items.len() - 1 {
                            0
                        } else {
                            i + 1
                        },
                        None => 0,
                    },
                ),
                ..self
            }
        }
    }

    /// Selects the account before the selected one; before the first comes
    /// the last. Nothing changes on an empty list.
    pub open spec fn previous_row(self) -> UsersView {
        if self.items.len() == 0 {
            self
        } else {
            UsersView {
                selected: Some(
                    match self.selected {
                        Some(i) => if i <= 0 || i > self.items.len() {
                            self.items.len() - 1
                        } else {
                            i - 1
                        },
                        None => 0,
                    },
                ),
                ..self
            }
        }
    }

    /// Selects the first account, if there is one.
    pub open spec fn first_row(self) -> UsersView {
        if self.items.len() == 0 {
            self
        } else {
            UsersView { selected: Some(0), ..self }
        }
    }

    /// Selects the last account, if there is one.
    pub open spec fn last_row(self) -> UsersView {
        if self.items.len() == 0 {
            self
        } else {
            UsersView { selected: Some(self.items.len() - 1), ..self }
        }
    }

    /// The panel as it is shown with the accounts `items`: the first one is
    /// selected, if there is one.
    pub open spec fn shown(items: Seq<UserView>) -> UsersView {
        UsersView {
            enabled: true,
            selected: if items.len() == 0 {
                None
            } else {
                Some(0)
            },
            items,
        }
    }

    /// The list after the handler has seen `action`: a panel that is shown
    /// follows the navigation, and hides on the way back to the menu.
    pub open spec fn update(self, action: ActionView) -> UsersView {
        if !self.enabled {
            self
        } else {
            match action {
                ActionView::ChangeMode(Module::Home) => UsersView { enabled: false, ..self },
                ActionView::MoveUp => self.previous_row(),
                ActionView::MoveDown => self.next_row(),
                ActionView::MoveToTheFirst => self.first_row(),
                ActionView::MoveToTheLast => self.last_row(),
                _ => self,
            }
        }
    }

    /// The actions that the handler appends to the queue for `action`: the
    /// screen is cleared on the way back to the menu.
    pub open spec fn emits(self, action: ActionView) -> Seq<ActionView> {
        if self.enabled && action == ActionView::ChangeMode(Module::Home) {
            seq![ActionView::ClearScreen]
        } else {
            Seq::empty()
        }
    }
}

/// Navigation keeps the selection in the list.
pub proof fn lemma_users_selection_in_bounds(list: UsersView, action: ActionView)
    requires
        list.wf(),
    ensures
        list.update(action).wf(),
        list.selected == Some(list.items.len() - 1) ==> list.next_row().selected == Some(0int),
        list.selected == Some(0int) ==> list.previous_row().selected == Some(
            list.items.len() - 1,
        ),
{
}

impl Users {
    /// An empty list that is not shown.
    pub fn new() -> (r: Users)
        ensures
            r@ == (UsersView { enabled: false, selected: None, items: Seq::empty() }),
    {
        let r = Users { enabled: false, selected: None, items: Vec::new() };
        assert(user_views(r.items@) == Seq::<UserView>::empty());
        r
    }

    /// The accounts, in display order.
    pub fn items(&self) -> (r: &Vec<User>)
        ensures
            user_views(r@) == self@.items,
    {
        &self.items
    }

    /// The selected index.
    pub fn selected(&self) -> (r: Option<usize>)
        ensures
            match r {
                Some(i) => self@.selected == Some(i as int),
                None => self@.selected is None,
            },
    {
        self.selected
    }

    /// Whether the panel is shown.
    pub fn is_enabled(&self) -> (r: bool)
        ensures
            r == self@.enabled,
    {
        self.enabled
    }

    /// Shows the panel with the accounts of a reading of the account file
    /// whose home directory starts with `doc_root_prefix`.
    pub fn show(&mut self, reading: &Passwd, doc_root_prefix: &str)
        ensures
            final(self)@ == UsersView::shown(listed(*reading, doc_root_prefix@)),
    {
        self.items = get_users_from_passwd(reading, doc_root_prefix);
        self.selected = if self.items.len() == 0 {
            None
        } else {
            Some(0)
        };
        self.enabled = true;
    }

    /// Reacts to `action`.
    pub fn update(&mut self, action: &Action) -> (r: Reaction)
        ensures
            final(self)@ == old(self)@.update(action@),
            action_views(r.emitted@) == old(self)@.emits(action@),
            r.effect == Effect::Nothing,
    {
        let mut emitted: Vec<Action> = Vec::new();
        assert(action_views(emitted@) == Seq::<ActionView>::empty());
        if self.enabled {
            let n = self.items.len();
            match action {
                Action::ChangeMode(Module::Home) => {
                    self.enabled = false;
                    emitted.push(Action::ClearScreen);
                    assert(action_views(emitted@) == seq![ActionView::ClearScreen]);
                },
                Action::MoveUp => {
                    if n > 0 {
                        self.selected = Some(
                            match self.selected {
                                Some(i) => if i == 0 || i > n {
                                    n - 1
                                } else {
                                    i - 1
                                },
                                None => 0,
                            },
                        );
                    }
                },
                Action::MoveDown => {
                    if n > 0 {
                        self.selected = Some(
                            match self.selected {
                                Some(i) => if i >= n - 1 {
                                    0
                                } else {
                                    i + 1
                                },
                                None => 0,
                            },
                        );
                    }
                },
                Action::MoveToTheFirst => {
                    if n > 0 {
                        self.selected = Some(0);
                    }
                },
                Action::MoveToTheLast => {
                    if n > 0 {
                        self.selected = Some(n - 1);
                    }
                },
                _ => {},
            }
        }
        Reaction { emitted, effect: Effect::Nothing }
    }
}

/// The widths of the three texts that a row shows, for each account.
pub open spec fn user_widths(users: Seq<UserView>) -> (Seq<usize>, Seq<usize>, Seq<usize>) {
    (
        Seq::new(users.len(), |i: int| display_width(users[i].username) as usize),
        Seq::new(users.len(), |i: int| display_width(users[i].docroot) as usize),
        Seq::new(users.len(), |i: int| display_width(users[i].shell) as usize),
    )
}

/// The widths of the three columns of the list: for the name, the home
/// directory and the shell, the largest display width among `items`.
pub fn constraint_len_calculator(items: &Vec<User>) -> (r: (u16, u16, u16))
    ensures
        r.0 == column(largest(user_widths(user_views(items@)).0)),
        r.1 == column(largest(user_widths(user_views(items@)).1)),
        r.2 == column(largest(user_widths(user_views(items@)).2)),
{
    let mut names: Vec<usize> = Vec::new();
    let mut homes: Vec<usize> = Vec::new();
    let mut shells: Vec<usize> = Vec::new();
    let mut i: usize = 0;
    while i < items.len()
        invariant
            i <= items.len(),
            names.len() == i,
            homes.len() == i,
            shells.len() == i,
            forall|j: int| 0 <= j < i ==> #[trigger] names@[j] == display_width(items@[j]@.username),
            forall|j: int| 0 <= j < i ==> #[trigger] homes@[j] == display_width(items@[j]@.docroot),
            forall|j: int| 0 <= j < i ==> #[trigger] shells@[j] == display_width(items@[j]@.shell),
        decreases items.len() - i,
    {
        let user = &items[i];
        names.push(width_of(user.username.as_str()));
        homes.push(width_of(user.docroot.as_str()));
        shells.push(width_of(user.shell.as_str()));
        i += 1;
    }
    assert(names@ == user_widths(user_views(items@)).0);
    assert(homes@ == user_widths(user_views(items@)).1);
    assert(shells@ == user_widths(user_views(items@)).2);
    (longest(&names), longest(&homes), longest(&shells))
}

} // verus!
