//! The keys of the terminal dashboard: what each does on each screen.
//!
//! There are three screens: the update splash, which comes first and takes any
//! key; the list of actions; and the dashboard itself.
use crate::action;
use crate::action::{ActionModel, ACTIONS, ACTION_COUNT, UPDATE_INDEX};
use crate::text;
use vstd::prelude::*;

verus! {

/// A key.
#[derive(Debug, Clone, Copy, PartialEq, Eq, Structural)]
pub enum Key {
    Char(char),
    Enter,
    Esc,
    Up,
    Down,
    /// Any other key.
    Other,
}

/// What a key press asks of the program.
#[derive(Debug, Clone, Copy, PartialEq, Eq, Structural)]
pub enum Reaction {
    /// Nothing beyond the change of screen.
    Stay,
    /// Leave the dashboard.
    Quit,
    /// Poll the agent now.
    Refresh,
    /// Run the action of this index, then poll the agent.
    Run(usize),
    /// Say that an update is refused while the vehicle reports armed.
    RefuseUpdate,
}

/// What is on the screen.
#[derive(Debug, Clone, Copy, PartialEq, Eq, Structural)]
pub struct Cockpit {
    /// The selected row while the list of actions is open.
    pub actions_selected: Option<usize>,
    /// The update splash is up.
    pub update_splash: bool,
    /// The update splash has been dismissed for this session.
    pub update_splash_done: bool,
}

/// What the keys depend on besides the screen.
#[derive(Debug, Clone, Copy, PartialEq, Eq, Structural)]
pub struct Facts {
    /// A newer version of the agent is known.
    pub update_available: bool,
    /// Whether the vehicle reports armed, where it is known.
    pub armed: Option<bool>,
}

/// The index of the first action at `i` or later with the key `c`.
pub open spec fn keyed(table: Seq<ActionModel>, c: char, i: int) -> Option<usize>
    decreases table.len() - i,
{
    if i < 0 || i >= table.len() {
        None
    } else if table[i].key == Some(c) {
        Some(i as usize)
    } else {
        keyed(table, c, i + 1)
    }
}

/// What running the action `i` comes to: an update is refused while armed.
pub open spec fn guarded(i: usize, f: Facts) -> Reaction {
    if action::updates(action::action_table()[i as int].command) && f.armed == Some(true) {
        Reaction::RefuseUpdate
    } else {
        Reaction::Run(i)
    }
}

/// What the key does on the update splash: it goes away for the session, and
/// `u` or Enter updates.
pub open spec fn on_splash(s: Cockpit, key: Key, f: Facts) -> (Cockpit, Reaction) {
    (
        Cockpit { update_splash: false, update_splash_done: true, ..s },
        if key == Key::Char('u') || key == Key::Char('U') || key == Key::Enter {
            guarded(UPDATE_INDEX, f)
        } else {
            Reaction::Stay
        },
    )
}

/// What the key does in the list of actions with row `sel` selected.
pub open spec fn on_list(s: Cockpit, sel: usize, key: Key, f: Facts) -> (Cockpit, Reaction) {
    match key {
        Key::Esc => (Cockpit { actions_selected: None, ..s }, Reaction::Stay),
        Key::Up => (Cockpit { actions_selected: Some(row_above(sel)), ..s }, Reaction::Stay),
        Key::Down => (Cockpit { actions_selected: Some(row_below(sel)), ..s }, Reaction::Stay),
        Key::Enter => (Cockpit { actions_selected: None, ..s }, guarded(sel, f)),
        Key::Char(c) => if c == 'q' {
            (Cockpit { actions_selected: None, ..s }, Reaction::Stay)
        } else if c == 'k' {
            (Cockpit { actions_selected: Some(row_above(sel)), ..s }, Reaction::Stay)
        } else if c == 'j' {
            (Cockpit { actions_selected: Some(row_below(sel)), ..s }, Reaction::Stay)
        } else {
            (s, Reaction::Stay)
        },
        Key::Other => (s, Reaction::Stay),
    }
}

/// The row above `sel`; the first one stays.
pub open spec fn row_above(sel: usize) -> usize {
    if sel > 0 {
        (sel - 1) as usize
    } else {
        0
    }
}

/// The row below `sel`; the last one stays.
pub open spec fn row_below(sel: usize) -> usize {
    if sel + 1 < ACTION_COUNT {
        (sel + 1) as usize
    } else {
        (ACTION_COUNT - 1) as usize
    }
}

/// What the key does on the dashboard.
pub open spec fn on_dashboard(s: Cockpit, key: Key, f: Facts) -> (Cockpit, Reaction) {
    match key {
        Key::Char(c) => if c == 'q' || c == 'Q' {
            (s, Reaction::Quit)
        } else if c == 'a' || c == 'A' {
            (Cockpit { actions_selected: Some(0), ..s }, Reaction::Stay)
        } else if c == 'r' || c == 'R' {
            (s, Reaction::Refresh)
        } else if (c == 'u' || c == 'U') && f.update_available {
            (s, guarded(UPDATE_INDEX, f))
        } else {
            match keyed(action::action_table(), text::lower(c), 0) {
                Some(i) => (s, guarded(i, f)),
                None => (s, Reaction::Stay),
            }
        },
        _ => (s, Reaction::Stay),
    }
}

/// What a key press does: the screen after it and what it asks for.
pub open spec fn pressed(s: Cockpit, key: Key, ctrl: bool, f: Facts) -> (Cockpit, Reaction) {
    if key == Key::Char('c') && ctrl {
        (s, Reaction::Quit)
    } else if s.update_splash {
        on_splash(s, key, f)
    } else {
        match s.actions_selected {
            Some(sel) => on_list(s, sel, key, f),
            None => on_dashboard(s, key, f),
        }
    }
}

/// The screen after a frame has been prepared: the update splash comes up the
/// first time an update is seen, never over the list of actions.
pub open spec fn framed(s: Cockpit, f: Facts) -> Cockpit {
    if f.update_available && !s.update_splash_done && s.actions_selected is None {
        Cockpit { update_splash: true, ..s }
    } else {
        s
    }
}

fn guard(i: usize, f: Facts) -> (r: Reaction)
    requires
        i < ACTION_COUNT,
    ensures
        r == guarded(i, f),
{
    let all = ACTIONS();
    assert(all@[i as int]@ == action::action_models(all@)[i as int]);
    if all[i].is_update() {
        match f.armed {
            Some(true) => Reaction::RefuseUpdate,
            _ => Reaction::Run(i),
        }
    } else {
        Reaction::Run(i)
    }
}

/// The action that has the key `c`.
pub fn action_for_key(c: char) -> (r: Option<usize>)
    ensures
        r == keyed(action::action_table(), c, 0),
        r is Some ==> r->0 < ACTION_COUNT,
{
    let all = ACTIONS();
    let ghost table = action::action_table();
    let mut i: usize = 0;
    while i < all.len()
        invariant
            i <= all@.len(),
            all@.len() == ACTION_COUNT,
            table == action::action_table(),
            action::action_models(all@) == table,
            table.len() == all@.len(),
            keyed(table, c, 0) == keyed(table, c, i as int),
        decreases all@.len() - i,
    {
        assert(table[i as int] == all@[i as int]@);
        match all[i].key {
            Some(k) => {
                if k == c {
                    return Some(i);
                }
            },
            None => {},
        }
        i += 1;
    }
    None
}

impl Default for Cockpit {
    /// The dashboard, with no splash seen yet.
    fn default() -> (r: Self)
        ensures
            r == (Cockpit {
                actions_selected: None,
                update_splash: false,
                update_splash_done: false,
            }),
    {
        Cockpit { actions_selected: None, update_splash: false, update_splash_done: false }
    }
}

impl Cockpit {
    /// A selected row is a row of the list.
    pub open spec fn valid(self) -> bool {
        self.actions_selected is Some ==> self.actions_selected->0 < ACTION_COUNT
    }

    /// Prepare a frame: bring the update splash up when it is due.
    pub fn frame(&mut self, f: Facts)
        requires
            old(self).valid(),
        ensures
            *final(self) == framed(*old(self), f),
            final(self).valid(),
    {
        if f.update_available && !self.update_splash_done && self.actions_selected.is_none() {
            self.update_splash = true;
        }
    }

    /// Take a key press. Control-C leaves from any screen.
    pub fn press(&mut self, key: Key, ctrl: bool, f: Facts) -> (r: Reaction)
        requires
            old(self).valid(),
        ensures
            (*final(self), r) == pressed(*old(self), key, ctrl, f),
            final(self).valid(),
            r matches Reaction::Run(i) ==> i < ACTION_COUNT,
    {
        if ctrl && key == Key::Char('c') {
            return Reaction::Quit;
        }
        if self.update_splash {
            self.update_splash = false;
            self.update_splash_done = true;
            if key == Key::Char('u') || key == Key::Char('U') || key == Key::Enter {
                return guard(UPDATE_INDEX, f);
            }
            return Reaction::Stay;
        }
        match self.actions_selected {
            Some(sel) => self.press_in_list(sel, key, f),
            None => self.press_on_dashboard(key, f),
        }
    }

    fn press_in_list(&mut self, sel: usize, key: Key, f: Facts) -> (r: Reaction)
        requires
            old(self).actions_selected == Some(sel),
            sel < ACTION_COUNT,
        ensures
            (*final(self), r) == on_list(*old(self), sel, key, f),
            final(self).valid(),
            r matches Reaction::Run(i) ==> i < ACTION_COUNT,
    {
        if key == Key::Esc || key == Key::Char('q') {
            self.actions_selected = None;
            Reaction::Stay
        } else if key == Key::Up || key == Key::Char('k') {
            self.actions_selected = Some(
                if sel > 0 {
                    sel - 1
                } else {
                    0
                },
            );
            Reaction::Stay
        } else if key == Key::Down || key == Key::Char('j') {
            self.actions_selected = Some(
                if sel + 1 < ACTION_COUNT {
                    sel + 1
                } else {
                    ACTION_COUNT - 1
                },
            );
            Reaction::Stay
        } else if key == Key::Enter {
            self.actions_selected = None;
            guard(sel, f)
        } else {
            Reaction::Stay
        }
    }

    fn press_on_dashboard(&mut self, key: Key, f: Facts) -> (r: Reaction)
        requires
            old(self).actions_selected is None,
        ensures
            (*final(self), r) == on_dashboard(*old(self), key, f),
            final(self).valid(),
            r matches Reaction::Run(i) ==> i < ACTION_COUNT,
    {
        match key {
            Key::Char(c) => {
                if c == 'q' || c == 'Q' {
                    Reaction::Quit
                } else if c == 'a' || c == 'A' {
                    self.actions_selected = Some(0);
                    Reaction::Stay
                } else if c == 'r' || c == 'R' {
                    Reaction::Refresh
                } else if (c == 'u' || c == 'U') && f.update_available {
                    guard(UPDATE_INDEX, f)
                } else {
                    match action_for_key(text::lower_char(c)) {
                        Some(i) => guard(i, f),
                        None => Reaction::Stay,
                    }
                }
            },
            _ => Reaction::Stay,
        }
    }
}

// ---------------------------------------------------------------------------
// laws
// ---------------------------------------------------------------------------

/// No key on any screen runs an update while the vehicle reports armed.
pub proof fn law_no_update_while_armed(s: Cockpit, key: Key, ctrl: bool, f: Facts)
    requires
        s.valid(),
        f.armed == Some(true),
    ensures
        pressed(s, key, ctrl, f).1 matches Reaction::Run(i) ==> !action::updates(
            action::action_table()[i as int].command,
        ),
{
}

/// Control-C leaves from every screen.
pub proof fn law_control_c_always_quits(s: Cockpit, f: Facts)
    ensures
        pressed(s, Key::Char('c'), true, f).1 == Reaction::Quit,
{
}

/// A splash that was dismissed never comes back: neither a frame nor a key
/// press undoes the dismissal, and no frame raises it then.
pub proof fn law_the_splash_shows_once(s: Cockpit, key: Key, ctrl: bool, f: Facts)
    requires
        s.update_splash_done,
        !s.update_splash,
    ensures
        framed(s, f) == s,
        pressed(s, key, ctrl, f).0.update_splash_done,
        !pressed(s, key, ctrl, f).0.update_splash,
{
}

/// The splash and the list of actions are never up together.
pub proof fn law_one_overlay_at_a_time(s: Cockpit, key: Key, ctrl: bool, f: Facts)
    requires
        !(s.update_splash && s.actions_selected is Some),
    ensures
        ({
            let a = framed(s, f);
            !(a.update_splash && a.actions_selected is Some)
        }),
        ({
            let b = pressed(s, key, ctrl, f).0;
            !(b.update_splash && b.actions_selected is Some)
        }),
{
}

/// Running an action closes whatever was open over the dashboard.
pub proof fn law_running_returns_to_the_dashboard(s: Cockpit, key: Key, ctrl: bool, f: Facts)
    requires
        !(s.update_splash && s.actions_selected is Some),
        pressed(s, key, ctrl, f).1 is Run,
    ensures
        pressed(s, key, ctrl, f).0.actions_selected is None,
        !pressed(s, key, ctrl, f).0.update_splash,
{
}

/// In the list of actions the arrows and their letters move by one row and stop
/// at either end, Escape and `q` close the list, and nothing else than Enter
/// runs anything.
pub proof fn law_the_list_is_walked_row_by_row(s: Cockpit, sel: usize, f: Facts)
    requires
        !s.update_splash,
        s.actions_selected == Some(sel),
        sel < 8,
    ensures
        pressed(s, Key::Up, false, f) == pressed(s, Key::Char('k'), false, f),
        pressed(s, Key::Down, false, f) == pressed(s, Key::Char('j'), false, f),
        pressed(s, Key::Esc, false, f) == pressed(s, Key::Char('q'), false, f),
        pressed(s, Key::Up, false, f).1 == Reaction::Stay,
        sel > 0 ==> pressed(s, Key::Up, false, f).0.actions_selected->0 == sel - 1,
        sel == 0 ==> pressed(s, Key::Up, false, f).0 == s,
        pressed(s, Key::Up, false, f).0.actions_selected is Some,
        pressed(s, Key::Down, false, f).1 == Reaction::Stay,
        pressed(s, Key::Down, false, f).0.actions_selected is Some,
        sel < 7 ==> pressed(s, Key::Down, false, f).0.actions_selected->0 == sel + 1,
        sel == 7 ==> pressed(s, Key::Down, false, f).0 == s,
        pressed(s, Key::Esc, false, f) == (
            Cockpit { actions_selected: None, ..s },
            Reaction::Stay,
        ),
        pressed(s, Key::Other, false, f) == (s, Reaction::Stay),
        forall|key: Key, ctrl: bool|
            (#[trigger] pressed(s, key, ctrl, f)).1 is Run || pressed(s, key, ctrl, f).1
                == Reaction::RefuseUpdate ==> key == Key::Enter,
{
}

/// Enter closes the list and runs the selected action, but for an update of an
/// armed vehicle, which is refused.
pub proof fn law_enter_runs_the_selected_action(s: Cockpit, sel: usize, ctrl: bool, f: Facts)
    requires
        !s.update_splash,
        s.actions_selected == Some(sel),
        sel < 8,
    ensures
        pressed(s, Key::Enter, ctrl, f).0 == (Cockpit { actions_selected: None, ..s }),
        sel != 4 || f.armed != Some(true) ==> pressed(s, Key::Enter, ctrl, f).1 == Reaction::Run(
            sel,
        ),
        sel == 4 && f.armed == Some(true) ==> pressed(s, Key::Enter, ctrl, f).1
            == Reaction::RefuseUpdate,
{
    lemma_the_update_is_the_fifth(sel as int);
}

proof fn lemma_the_update_is_the_fifth(i: int)
    requires
        0 <= i < 8,
    ensures
        action::updates(action::action_table()[i].command) <==> i == 4,
{
    reveal_strlit("ados");
    reveal_strlit("sudo");
    reveal_strlit("update");
    reveal_strlit("radio");
    reveal_strlit("pair");
    reveal_strlit("logs");
    reveal_strlit("unpair");
    assert("ados"@[0] == 'a' && "sudo"@[0] == 's');
    assert("update"@[1] == 'p' && "radio"@[1] == 'a' && "pair"@[1] == 'a' && "logs"@[1] == 'o'
        && "unpair"@[1] == 'n');
}

/// The keys of the dashboard, in either case: `q` leaves, `a` opens the list at
/// its first row, `r` refreshes, `d`, `p` and `l` run their actions, and `u`
/// updates while an update is known. No other key does anything.
pub proof fn law_the_keys_of_the_dashboard(s: Cockpit, c: char, f: Facts)
    requires
        !s.update_splash,
        s.actions_selected is None,
    ensures
        ({
            let p = pressed(s, Key::Char(c), false, f);
            let known = c == 'q' || c == 'Q' || c == 'a' || c == 'A' || c == 'r' || c == 'R' || c
                == 'd' || c == 'D' || c == 'p' || c == 'P' || c == 'l' || c == 'L';
            &&& c == 'q' || c == 'Q' ==> p == (s, Reaction::Quit)
            &&& c == 'a' || c == 'A' ==> p == (
                Cockpit { actions_selected: Some(0), ..s },
                Reaction::Stay,
            )
            &&& c == 'r' || c == 'R' ==> p == (s, Reaction::Refresh)
            &&& c == 'd' || c == 'D' ==> p == (s, Reaction::Run(0))
            &&& c == 'p' || c == 'P' ==> p == (s, Reaction::Run(1))
            &&& c == 'l' || c == 'L' ==> p == (s, Reaction::Run(2))
            &&& c == 'u' || c == 'U' ==> p == (s, if !f.update_available {
                Reaction::Stay
            } else if f.armed == Some(true) {
                Reaction::RefuseUpdate
            } else {
                Reaction::Run(4)
            })
            &&& !known && c != 'u' && c != 'U' ==> p == (s, Reaction::Stay)
        }),
{
    let table = action::action_table();
    let k = text::lower(c);
    reveal_with_fuel(keyed, 9);
    assert(table.len() == 8);
    assert(table[0].key == Some('d') && table[1].key == Some('p') && table[2].key == Some('l'));
    assert(forall|i: int| 3 <= i < 8 ==> (#[trigger] table[i]).key is None);
    assert(keyed(table, k, 0) == (if k == 'd' {
        Some(0usize)
    } else if k == 'p' {
        Some(1usize)
    } else if k == 'l' {
        Some(2usize)
    } else {
        None
    }));
    lemma_the_update_is_the_fifth(0);
    lemma_the_update_is_the_fifth(1);
    lemma_the_update_is_the_fifth(2);
    lemma_the_update_is_the_fifth(4);
}

/// Any key takes the splash away for good; `u` and Enter take the update, unless
/// the vehicle is armed.
pub proof fn law_any_key_takes_the_splash_away(s: Cockpit, key: Key, f: Facts)
    requires
        s.update_splash,
    ensures
        ({
            let p = pressed(s, key, false, f);
            let takes = key == Key::Char('u') || key == Key::Char('U') || key == Key::Enter;
            &&& p.0 == (Cockpit { update_splash: false, update_splash_done: true, ..s })
            &&& !takes ==> p.1 == Reaction::Stay
            &&& takes && f.armed == Some(true) ==> p.1 == Reaction::RefuseUpdate
            &&& takes && f.armed != Some(true) ==> p.1 == Reaction::Run(4)
        }),
{
    lemma_the_update_is_the_fifth(4);
}

/// The splash comes up exactly with the first frame that knows an update while
/// the list is closed; a frame changes nothing else.
pub proof fn law_when_the_splash_comes_up(s: Cockpit, f: Facts)
    requires
        !s.update_splash,
    ensures
        framed(s, f).update_splash <==> f.update_available && !s.update_splash_done
            && s.actions_selected is None,
        framed(s, f).actions_selected == s.actions_selected,
        framed(s, f).update_splash_done == s.update_splash_done,
{
}

} // verus!
