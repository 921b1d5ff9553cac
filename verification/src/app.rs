//! The application state machine: modes, menu selection, cursor movement and
//! the key interpreter.
use vstd::prelude::*;

verus! {

/// A cell of the 3x3 grid, as `(row, column)`, each in `[0, 2]`.
pub type Coordinate = (usize, usize);

/// The top-level mode: either the start menu or grid navigation with the
/// cursor at the carried coordinate.
#[derive(Clone, Copy, Debug, PartialEq, Eq)]
pub enum AppState {
    InitialMenu,
    RunningGame(Coordinate),
}

/// An out-of-band signal to the driving loop.
#[derive(Clone, Copy, Debug, PartialEq, Eq)]
pub enum AppAction {
    Exit,
}

/// A key symbol as the interpreter sees it: the arrows, enter, a printable
/// character, or anything else (a defined no-op).
#[derive(Clone, Copy, Debug, PartialEq, Eq)]
pub enum Key {
    Up,
    Down,
    Left,
    Right,
    Enter,
    Char(char),
    Other,
}

/// The cursor never leaves the 3x3 grid.
pub open spec fn coordinate_in_bounds(c: Coordinate) -> bool {
    c.0 <= 2 && c.1 <= 2
}

/// Moving up decrements the row, saturating at 0.
pub open spec fn moved_up(c: Coordinate) -> Coordinate {
    if c.0 == 0 {
        c
    } else {
        (((c.0 - 1) as usize), c.1)
    }
}

/// Moving down increments the row, saturating at 2.
pub open spec fn moved_down(c: Coordinate) -> Coordinate {
    if c.0 < 2 {
        (((c.0 + 1) as usize), c.1)
    } else {
        c
    }
}

/// Moving left decrements the column, saturating at 0.
pub open spec fn moved_left(c: Coordinate) -> Coordinate {
    if c.1 == 0 {
        c
    } else {
        (c.0, ((c.1 - 1) as usize))
    }
}

/// Moving right increments the column, saturating at 2.
pub open spec fn moved_right(c: Coordinate) -> Coordinate {
    if c.1 < 2 {
        (c.0, ((c.1 + 1) as usize))
    } else {
        c
    }
}

/// The selection index after a select-next: from `None` to the first entry,
/// otherwise one forward, wrapping from the last entry to the first.
pub open spec fn wrapped_next(sel: Option<usize>, len: nat) -> usize {
    match sel {
        Option::None => 0usize,
        Option::Some(i) => if i + 1 >= len {
            0usize
        } else {
            ((i + 1) as usize)
        },
    }
}

/// The selection index after a select-previous: from `None` to the first
/// entry, otherwise one back, wrapping from the first entry to the last.
pub open spec fn wrapped_previous(sel: Option<usize>, len: nat) -> usize {
    match sel {
        Option::None => 0usize,
        Option::Some(i) => if i == 0 {
            ((len - 1) as usize)
        } else {
            ((i - 1) as usize)
        },
    }
}

/// Any sequence of select-next / select-previous steps keeps the selection
/// inside `[0, len)`, and the wrap is cyclic: select-next from the last entry
/// reaches index 0, select-previous from index 0 reaches the last entry.
pub proof fn lemma_selection_wraps(sel: Option<usize>, len: nat)
    requires
        1 <= len,
        len <= usize::MAX,
        sel matches Option::Some(i) ==> i < len,
    ensures
        wrapped_next(sel, len) < len,
        wrapped_previous(sel, len) < len,
        sel == Option::Some(((len - 1) as usize)) ==> wrapped_next(sel, len) == 0,
        sel == Option::Some(0usize) ==> wrapped_previous(sel, len) == len - 1,
{
}

#[verifier::external_type_specification]
#[verifier::external_body]
pub struct ExTableState(tui::widgets::TableState);

/// The menu selection that a `tui::widgets::TableState` holds.
pub uninterp spec fn table_selection(state: tui::widgets::TableState) -> Option<usize>;

/// Relies on tui::widgets::TableState::default (derived): the initial state
/// holds no selection.
#[verifier::external_body]
fn table_state_new() -> (state: tui::widgets::TableState)
    ensures
        table_selection(state) is None,
{
    tui::widgets::TableState::default()
}

/// Relies on tui::widgets::TableState::selected: returns the held selection.
#[verifier::external_body]
fn table_state_selected(state: &tui::widgets::TableState) -> (sel: Option<usize>)
    ensures
        sel == table_selection(*state),
{
    state.selected()
}

/// Relies on tui::widgets::TableState::select: stores the given selection.
#[verifier::external_body]
fn table_state_select(state: &mut tui::widgets::TableState, index: Option<usize>)
    ensures
        table_selection(*final(state)) == index,
{
    state.select(index)
}

/// The mode after starting a game from the menu; anywhere else the request
/// is ignored.
pub open spec fn started_state(s: AppState) -> AppState {
    match s {
        AppState::InitialMenu => AppState::RunningGame((0usize, 0usize)),
        AppState::RunningGame(_) => s,
    }
}

/// The mode after leaving the game for the menu; in the menu the request is
/// ignored.
pub open spec fn exited_state(s: AppState) -> AppState {
    match s {
        AppState::InitialMenu => s,
        AppState::RunningGame(_) => AppState::InitialMenu,
    }
}

/// The mode after the developer toggle: a no-op unless the flag is set, else
/// the menu and the grid (cursor at the origin) exchange places.
pub open spec fn toggled_state(s: AppState, developer_mode: bool) -> AppState {
    if !developer_mode {
        s
    } else {
        match s {
            AppState::InitialMenu => AppState::RunningGame((0usize, 0usize)),
            AppState::RunningGame(_) => AppState::InitialMenu,
        }
    }
}

/// The mode after activating the menu entry at `sel`: the first entry starts
/// the game, every other resolution leaves the mode alone.
pub open spec fn activated_state(s: AppState, sel: Option<usize>) -> AppState {
    if sel == Option::Some(0usize) {
        started_state(s)
    } else {
        s
    }
}

/// The signal from activating the menu entry at `sel`: only the second entry
/// (quit) yields `Exit`.
pub open spec fn activated_action(sel: Option<usize>) -> Option<AppAction> {
    if sel == Option::Some(1usize) {
        Option::Some(AppAction::Exit)
    } else {
        Option::None
    }
}

/// The mode after one key, interpreted against the mode it arrived in.
pub open spec fn stepped_state(
    s: AppState,
    sel: Option<usize>,
    developer_mode: bool,
    key: Key,
) -> AppState {
    match s {
        AppState::InitialMenu => {
            if key == Key::Enter {
                activated_state(s, sel)
            } else if key == Key::Char('t') {
                toggled_state(s, developer_mode)
            } else {
                s
            }
        },
        AppState::RunningGame(c) => {
            if key == Key::Down || key == Key::Char('j') {
                AppState::RunningGame(moved_down(c))
            } else if key == Key::Up || key == Key::Char('k') {
                AppState::RunningGame(moved_up(c))
            } else if key == Key::Left || key == Key::Char('h') {
                AppState::RunningGame(moved_left(c))
            } else if key == Key::Right || key == Key::Char('l') {
                AppState::RunningGame(moved_right(c))
            } else if key == Key::Char('x') {
                exited_state(s)
            } else if key == Key::Char('t') {
                toggled_state(s, developer_mode)
            } else {
                s
            }
        },
    }
}

/// The menu selection after one key: only the menu's next/previous keys move
/// it, and only while the menu is shown.
pub open spec fn stepped_selection(
    s: AppState,
    sel: Option<usize>,
    len: nat,
    key: Key,
) -> Option<usize> {
    match s {
        AppState::InitialMenu => {
            if key == Key::Down || key == Key::Char('j') {
                Option::Some(wrapped_next(sel, len))
            } else if key == Key::Up || key == Key::Char('k') {
                Option::Some(wrapped_previous(sel, len))
            } else {
                sel
            }
        },
        AppState::RunningGame(_) => sel,
    }
}

/// The signal from one key: only activating the quit entry from the menu
/// yields one.
pub open spec fn stepped_action(s: AppState, sel: Option<usize>, key: Key) -> Option<AppAction> {
    match s {
        AppState::InitialMenu => {
            if key == Key::Enter {
                activated_action(sel)
            } else {
                Option::None
            }
        },
        AppState::RunningGame(_) => Option::None,
    }
}

/// The whole application: the current mode, the menu and its selection, and
/// the immutable developer-mode flag.
pub struct App<'a> {
    pub app_state: AppState,
    pub menu_state: tui::widgets::TableState,
    pub menu_items: Vec<Vec<&'a str>>,
    pub is_developer_mode: bool,
}

impl<'a> App<'a> {
    /// The state invariant: the menu is never empty, the cursor never leaves
    /// the grid, and the selection always indexes a menu entry.
    pub open spec fn wf(self) -> bool {
        &&& 1 <= self.menu_items@.len()
        &&& match self.app_state {
            AppState::InitialMenu => true,
            AppState::RunningGame(c) => coordinate_in_bounds(c),
        }
        &&& match table_selection(self.menu_state) {
            Option::None => true,
            Option::Some(i) => i < self.menu_items@.len(),
        }
    }

    /// Builds the application in the menu, with no selection yet and the two
    /// fixed entries.
    pub fn new(is_developer_mode_activated: bool) -> (app: App<'a>)
        ensures
            app.wf(),
            app.app_state == AppState::InitialMenu,
            table_selection(app.menu_state) is None,
            app.menu_items@.len() == 2,
            app.is_developer_mode == is_developer_mode_activated,
    {
        App {
            app_state: AppState::InitialMenu,
            menu_state: table_state_new(),
            menu_items: vec![vec!["1. New Game"], vec!["2. Quit (q)"]],
            is_developer_mode: is_developer_mode_activated,
        }
    }

    /// Read-only accessor for the renderer: the current mode.
    pub fn current_mode(&self) -> (mode: AppState)
        ensures
            mode == self.app_state,
    {
        self.app_state
    }

    /// Read-only accessor for the renderer: the current menu selection.
    pub fn selected_menu_index(&self) -> (sel: Option<usize>)
        ensures
            sel == table_selection(self.menu_state),
    {
        table_state_selected(&self.menu_state)
    }

    /// Runtime check of the state invariant, for unverified callers that must
    /// establish it before a call.
    pub fn is_well_formed(&self) -> (r: bool)
        ensures
            r == self.wf(),
    {
        let bounds_ok: bool = match self.app_state {
            AppState::InitialMenu => true,
            AppState::RunningGame(c) => c.0 <= 2 && c.1 <= 2,
        };
        let sel_ok: bool = match table_state_selected(&self.menu_state) {
            Option::None => true,
            Option::Some(i) => i < self.menu_items.len(),
        };
        1 <= self.menu_items.len() && bounds_ok && sel_ok
    }

    /// Moves the cursor one row up, clamped at the top edge; ignored in the
    /// menu.
    pub fn up(&mut self)
        requires
            old(self).wf(),
        ensures
            final(self).wf(),
            final(self).app_state == match old(self).app_state {
                AppState::InitialMenu => old(self).app_state,
                AppState::RunningGame(c) => AppState::RunningGame(moved_up(c)),
            },
            final(self).menu_state == old(self).menu_state,
            final(self).menu_items@ == old(self).menu_items@,
            final(self).is_developer_mode == old(self).is_developer_mode,
    {
        if let AppState::RunningGame(active_coordinate) = self.app_state {
            let (r, c): Coordinate = active_coordinate;
            if let Option::Some(active_row) = r.checked_sub(1) {
                self.app_state = AppState::RunningGame((active_row, c));
            }
        }
    }

    /// Moves the cursor one row down, clamped at the bottom edge; ignored in
    /// the menu.
    pub fn down(&mut self)
        requires
            old(self).wf(),
        ensures
            final(self).wf(),
            final(self).app_state == match old(self).app_state {
                AppState::InitialMenu => old(self).app_state,
                AppState::RunningGame(c) => AppState::RunningGame(moved_down(c)),
            },
            final(self).menu_state == old(self).menu_state,
            final(self).menu_items@ == old(self).menu_items@,
            final(self).is_developer_mode == old(self).is_developer_mode,
    {
        if let AppState::RunningGame(active_coordinate) = self.app_state {
            let (r, c): Coordinate = active_coordinate;
            let active_row: usize = if r < 2 { r + 1 } else { r };
            self.app_state = AppState::RunningGame((active_row, c));
        }
    }

    /// Moves the cursor one column left, clamped at the left edge; ignored in
    /// the menu.
    pub fn left(&mut self)
        requires
            old(self).wf(),
        ensures
            final(self).wf(),
            final(self).app_state == match old(self).app_state {
                AppState::InitialMenu => old(self).app_state,
                AppState::RunningGame(c) => AppState::RunningGame(moved_left(c)),
            },
            final(self).menu_state == old(self).menu_state,
            final(self).menu_items@ == old(self).menu_items@,
            final(self).is_developer_mode == old(self).is_developer_mode,
    {
        if let AppState::RunningGame(active_coordinate) = self.app_state {
            let (r, c): Coordinate = active_coordinate;
            if let Option::Some(active_column) = c.checked_sub(1) {
                self.app_state = AppState::RunningGame((r, active_column));
            }
        }
    }

    /// Moves the cursor one column right, clamped at the right edge; ignored
    /// in the menu.
    pub fn right(&mut self)
        requires
            old(self).wf(),
        ensures
            final(self).wf(),
            final(self).app_state == match old(self).app_state {
                AppState::InitialMenu => old(self).app_state,
                AppState::RunningGame(c) => AppState::RunningGame(moved_right(c)),
            },
            final(self).menu_state == old(self).menu_state,
            final(self).menu_items@ == old(self).menu_items@,
            final(self).is_developer_mode == old(self).is_developer_mode,
    {
        if let AppState::RunningGame(active_coordinate) = self.app_state {
            let (r, c): Coordinate = active_coordinate;
            let active_column: usize = if c < 2 { c + 1 } else { c };
            self.app_state = AppState::RunningGame((r, active_column));
        }
    }

    /// Advances the selection to the next menu entry, wrapping from the last
    /// entry to the first; from no selection it picks the first entry.
    pub fn select_next_menu_item(&mut self)
        requires
            old(self).wf(),
        ensures
            final(self).wf(),
            final(self).app_state == old(self).app_state,
            table_selection(final(self).menu_state) == Option::Some(
                wrapped_next(table_selection(old(self).menu_state), old(self).menu_items@.len()),
            ),
            final(self).menu_items@ == old(self).menu_items@,
            final(self).is_developer_mode == old(self).is_developer_mode,
    {
        let i: usize = match table_state_selected(&self.menu_state) {
            Option::None => 0,
            Option::Some(i) => {
                if i >= self.menu_items.len() - 1 {
                    0
                } else {
                    i + 1
                }
            },
        };
        table_state_select(&mut self.menu_state, Option::Some(i));
    }

    /// Retreats the selection to the previous menu entry, wrapping from the
    /// first entry to the last; from no selection it picks the first entry.
    pub fn select_previous_menu_item(&mut self)
        requires
            old(self).wf(),
        ensures
            final(self).wf(),
            final(self).app_state == old(self).app_state,
            table_selection(final(self).menu_state) == Option::Some(
                wrapped_previous(
                    table_selection(old(self).menu_state),
                    old(self).menu_items@.len(),
                ),
            ),
            final(self).menu_items@ == old(self).menu_items@,
            final(self).is_developer_mode == old(self).is_developer_mode,
    {
        let i: usize = match table_state_selected(&self.menu_state) {
            Option::None => 0,
            Option::Some(i) => {
                if i == 0 {
                    self.menu_items.len() - 1
                } else {
                    i - 1
                }
            },
        };
        table_state_select(&mut self.menu_state, Option::Some(i));
    }

    /// Activates the selected entry: the first starts the game, the second
    /// yields the `Exit` signal, any other resolution (or no selection) does
    /// nothing.
    pub fn select_menu_item(&mut self) -> (action: Option<AppAction>)
        requires
            old(self).wf(),
        ensures
            final(self).wf(),
            final(self).app_state == activated_state(
                old(self).app_state,
                table_selection(old(self).menu_state),
            ),
            action == activated_action(table_selection(old(self).menu_state)),
            final(self).menu_state == old(self).menu_state,
            final(self).menu_items@ == old(self).menu_items@,
            final(self).is_developer_mode == old(self).is_developer_mode,
    {
        if let Option::Some(index) = table_state_selected(&self.menu_state) {
            match index {
                0usize => {
                    self.start_game();
                    return Option::None;
                },
                1usize => {
                    return Option::Some(AppAction::Exit);
                },
                _ => {
                    return Option::None;
                },
            }
        }
        Option::None
    }

    /// The developer shortcut: with the flag set it swaps the menu and the
    /// grid (cursor at the origin); without it, a guaranteed no-op.
    pub fn toggle_app_state(&mut self)
        requires
            old(self).wf(),
        ensures
            final(self).wf(),
            final(self).app_state == toggled_state(
                old(self).app_state,
                old(self).is_developer_mode,
            ),
            final(self).menu_state == old(self).menu_state,
            final(self).menu_items@ == old(self).menu_items@,
            final(self).is_developer_mode == old(self).is_developer_mode,
    {
        if self.is_developer_mode {
            match self.app_state {
                AppState::InitialMenu => {
                    self.app_state = AppState::RunningGame((0, 0));
                },
                AppState::RunningGame(_) => {
                    self.app_state = AppState::InitialMenu;
                },
            }
        }
    }

    /// Enters the game from the menu with the cursor at the origin; ignored
    /// while a game runs.
    pub fn start_game(&mut self)
        requires
            old(self).wf(),
        ensures
            final(self).wf(),
            final(self).app_state == started_state(old(self).app_state),
            final(self).menu_state == old(self).menu_state,
            final(self).menu_items@ == old(self).menu_items@,
            final(self).is_developer_mode == old(self).is_developer_mode,
    {
        if let AppState::InitialMenu = self.app_state {
            self.app_state = AppState::RunningGame((0, 0));
        }
    }

    /// Leaves the game for the menu; ignored while already in the menu.
    pub fn exit_game(&mut self)
        requires
            old(self).wf(),
        ensures
            final(self).wf(),
            final(self).app_state == exited_state(old(self).app_state),
            final(self).menu_state == old(self).menu_state,
            final(self).menu_items@ == old(self).menu_items@,
            final(self).is_developer_mode == old(self).is_developer_mode,
    {
        if let AppState::RunningGame(_) = self.app_state {
            self.app_state = AppState::InitialMenu;
        }
    }

    /// Interprets one key against the current mode, applies the resulting
    /// command, and yields the `Exit` signal where quitting was chosen.
    /// Unrecognized keys are defined no-ops.
    pub fn handle_key_event(&mut self, key: Key) -> (action: Option<AppAction>)
        requires
            old(self).wf(),
        ensures
            final(self).wf(),
            final(self).app_state == stepped_state(
                old(self).app_state,
                table_selection(old(self).menu_state),
                old(self).is_developer_mode,
                key,
            ),
            table_selection(final(self).menu_state) == stepped_selection(
                old(self).app_state,
                table_selection(old(self).menu_state),
                old(self).menu_items@.len(),
                key,
            ),
            action == stepped_action(
                old(self).app_state,
                table_selection(old(self).menu_state),
                key,
            ),
            final(self).menu_items@ == old(self).menu_items@,
            final(self).is_developer_mode == old(self).is_developer_mode,
    {
        match self.app_state {
            AppState::InitialMenu => match key {
                Key::Down | Key::Char('j') => {
                    self.select_next_menu_item();
                    Option::None
                },
                Key::Up | Key::Char('k') => {
                    self.select_previous_menu_item();
                    Option::None
                },
                Key::Char('t') => {
                    self.toggle_app_state();
                    Option::None
                },
                Key::Enter => self.select_menu_item(),
                _ => Option::None,
            },
            AppState::RunningGame(_) => match key {
                Key::Down | Key::Char('j') => {
                    self.down();
                    Option::None
                },
                Key::Up | Key::Char('k') => {
                    self.up();
                    Option::None
                },
                Key::Left | Key::Char('h') => {
                    self.left();
                    Option::None
                },
                Key::Right | Key::Char('l') => {
                    self.right();
                    Option::None
                },
                Key::Char('x') => {
                    self.exit_game();
                    Option::None
                },
                Key::Char('t') => {
                    self.toggle_app_state();
                    Option::None
                },
                _ => Option::None,
            },
        }
    }
}

/// Every move keeps the cursor inside the grid, and a move against a bound
/// leaves the blocked coordinate unchanged: up from row 0 keeps row 0, down
/// from row 2 keeps row 2, left from column 0 keeps column 0, right from
/// column 2 keeps column 2.
pub proof fn lemma_cursor_clamped(c: Coordinate)
    requires
        coordinate_in_bounds(c),
    ensures
        coordinate_in_bounds(moved_up(c)),
        coordinate_in_bounds(moved_down(c)),
        coordinate_in_bounds(moved_left(c)),
        coordinate_in_bounds(moved_right(c)),
        c.0 == 0 ==> moved_up(c) == c,
        c.0 == 2 ==> moved_down(c) == c,
        c.1 == 0 ==> moved_left(c) == c,
        c.1 == 2 ==> moved_right(c) == c,
{
}

/// Activating the quit entry always yields the `Exit` signal and leaves the
/// mode unchanged; activating the start entry from the menu always enters the
/// game with the cursor at the origin and yields no signal.
pub proof fn lemma_activation(s: AppState, sel: Option<usize>)
    ensures
        sel == Option::Some(1usize) ==> activated_action(sel) == Option::Some(AppAction::Exit)
            && activated_state(s, sel) == s,
        sel == Option::Some(0usize) && s == AppState::InitialMenu ==> activated_state(s, sel)
            == AppState::RunningGame((0usize, 0usize)) && activated_action(sel) is None,
{
}

/// Leaving the game always lands in the menu; from the menu the request is a
/// no-op.
pub proof fn lemma_exit_game(s: AppState)
    ensures
        s matches AppState::RunningGame(_) ==> exited_state(s) == AppState::InitialMenu,
        s == AppState::InitialMenu ==> exited_state(s) == s,
{
}

/// With the developer flag unset, the toggle never changes the mode, whatever
/// the starting mode.
pub proof fn lemma_toggle_without_developer_mode(s: AppState)
    ensures
        toggled_state(s, false) == s,
{
}

} // verus!
