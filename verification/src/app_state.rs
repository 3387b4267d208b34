use vstd::prelude::*;
use crate::actions::AppAction;
use crate::config::Keybindings;
use crate::keys::Key;

verus! {

/// Width of the terminal that one column takes, in cells.
pub const COLUMN_WIDTH: u16 = 80;

/// How many columns fit: one per 80 cells of width, at most the configured
/// number where one is set.
pub open spec fn spec_column_count(width: u16, configured: Option<usize>) -> nat {
    let fit = (width / 80) as nat;
    match configured {
        Some(n) => if n < fit { n as nat } else { fit },
        None => fit,
    }
}

/// How many columns to show in a terminal `width` cells wide (see
/// `spec_column_count`).
pub fn column_count(width: u16, configured: Option<usize>) -> (r: usize)
    ensures
        r == spec_column_count(width, configured),
{
    let fit = (width / COLUMN_WIDTH) as usize;
    match configured {
        Some(n) => if n < fit { n } else { fit },
        None => fit,
    }
}

/// The columns side by side and the one that has the focus.
#[derive(Clone, Copy, Debug, PartialEq, Eq, Structural)]
pub struct MainState {
    pub columns: usize,
    pub selected: Option<usize>,
}

impl MainState {
    /// The focus is on a column, where there are columns, and there are no
    /// more columns than fit in the widest terminal.
    pub open spec fn wf(&self) -> bool {
        &&& self.columns <= u16::MAX
        &&& self.selected matches Some(s) ==> s < self.columns
    }

    /// `columns` columns, the focus on the first where there is one.
    pub fn new(columns: usize) -> (r: MainState)
        requires
            columns <= u16::MAX,
        ensures
            r.wf(),
            r.columns == columns,
            r.selected == (if columns > 0 { Some(0usize) } else { None }),
    {
        MainState { columns, selected: if columns > 0 { Some(0) } else { None } }
    }

    /// Moves the focus to the next column, round from the last to the
    /// first (onto the first where no column has it), and asks for a redraw.
    pub fn next_focus(&mut self) -> (r: Option<AppAction>)
        requires
            old(self).wf(),
            old(self).columns > 0,
        ensures
            final(self).wf(),
            final(self).columns == old(self).columns,
            final(self).selected == Some((match old(self).selected {
                Some(s) => (s + 1) % (old(self).columns as int),
                None => 0,
            }) as usize),
            r == Some(AppAction::Render),
    {
        let n = self.columns;
        self.selected = Some(match self.selected {
            Some(s) => (s + 1) % n,
            None => 0 % n,
        });
        Some(AppAction::Render)
    }

    /// Moves the focus to the previous column, round from the first to the
    /// last (onto the first where no column has it), and asks for a redraw.
    pub fn prev_focus(&mut self) -> (r: Option<AppAction>)
        requires
            old(self).wf(),
            old(self).columns > 0,
        ensures
            final(self).wf(),
            final(self).columns == old(self).columns,
            final(self).selected == Some((match old(self).selected {
                Some(s) => (s + old(self).columns - 1) % (old(self).columns as int),
                None => 0,
            }) as usize),
            r == Some(AppAction::Render),
    {
        let n = self.columns;
        self.selected = Some(match self.selected {
            Some(s) => (s + n - 1) % n,
            None => 0 % n,
        });
        Some(AppAction::Render)
    }
}

/// Going to the next column and back, or back and forward, returns the
/// focus to where it was.
pub proof fn lemma_focus_round_trip(columns: int, s: int)
    requires
        0 <= s < columns,
    ensures
        ((s + 1) % columns + columns - 1) % columns == s,
        ((s + columns - 1) % columns + 1) % columns == s,
{
    assert(((s + 1) % columns + columns - 1) % columns == s) by (nonlinear_arith)
        requires 0 <= s < columns;
    assert(((s + columns - 1) % columns + 1) % columns == s) by (nonlinear_arith)
        requires 0 <= s < columns;
}

/// An event of the terminal as the application sees it.
#[derive(Clone, Copy, Debug, PartialEq, Eq, Structural)]
pub enum AppEvent {
    Tick(usize),
    Render,
    Key(Key),
    Mouse,
    Error,
}

/// The application action for an event: ticks and redraws as such, a key
/// press by the global key bindings; nothing for the rest.
pub fn app_event(event: AppEvent, bindings: &Keybindings) -> (r: Option<AppAction>)
    ensures
        r == match event {
            AppEvent::Tick(i) => Some(AppAction::Tick(i)),
            AppEvent::Render => Some(AppAction::Render),
            AppEvent::Key(k) => if bindings.global.view().contains_key(k) {
                Some(crate::config::spec_app_action(bindings.global.view()[k]))
            } else {
                None
            },
            _ => None,
        },
{
    match event {
        AppEvent::Tick(i) => Some(AppAction::Tick(i)),
        AppEvent::Render => Some(AppAction::Render),
        AppEvent::Key(k) => bindings.global_action(&k),
        _ => None,
    }
}

/// What the main loop does with an action taken from its queue.
#[derive(Clone, Copy, Debug, PartialEq, Eq, Structural)]
pub enum Dispatch {
    /// Stop after this round, saving the columns' sessions.
    Quit,
    /// A tick; the columns' sessions are saved on every sixtieth.
    Tick { save: bool },
    /// Draw the screen.
    Draw,
    /// Hand the action to the components.
    Update,
}

/// What the main loop does with an action: quit, save on every sixtieth
/// tick, draw, or hand it to the components.
pub fn dispatch(action: &AppAction) -> (r: Dispatch)
    ensures
        r == match *action {
            AppAction::Quit => Dispatch::Quit,
            AppAction::Tick(i) => Dispatch::Tick { save: i % 60 == 0 },
            AppAction::Render => Dispatch::Draw,
            _ => Dispatch::Update,
        },
{
    match action {
        AppAction::Quit => Dispatch::Quit,
        AppAction::Tick(i) => Dispatch::Tick { save: *i % 60 == 0 },
        AppAction::Render => Dispatch::Draw,
        _ => Dispatch::Update,
    }
}

/// What the terminal reports.
#[derive(Clone, Copy, Debug, PartialEq, Eq, Structural)]
pub enum TermInput {
    Mouse,
    /// A key press, repeat or release.
    Key { key: Key, released: bool },
    /// Reading from the terminal failed.
    Error,
    /// Anything else (focus, paste, resize).
    Other,
}

/// The event the application takes from the terminal: mouse events and
/// errors as such, key events except releases, nothing for the rest.
pub fn terminal_event(input: TermInput) -> (r: Option<AppEvent>)
    ensures
        r == match input {
            TermInput::Mouse => Some(AppEvent::Mouse),
            TermInput::Key { key, released } => if released { None } else { Some(AppEvent::Key(key)) },
            TermInput::Error => Some(AppEvent::Error),
            TermInput::Other => None,
        },
{
    match input {
        TermInput::Mouse => Some(AppEvent::Mouse),
        TermInput::Key { key, released } => if released { None } else { Some(AppEvent::Key(key)) },
        TermInput::Error => Some(AppEvent::Error),
        TermInput::Other => None,
    }
}

} // verus!
