//! Keyboard handling of the play-history page: which key means which list
//! command, and what each command does to the selection.
use vstd::prelude::*;
use crate::events::InsertPosition;
use crate::keybinding::config::Action;
use crate::keybinding::keys::{KeyCode, KeyEvent, KeyModifiers, no_mods, normalized};
use crate::keybinding::resolver::{KeybindingResolver, page_action};
use super::sort::{SortMode, SortState, next_mode};

verus! {

/// A command on a song list.
#[derive(Debug, Clone, Copy, PartialEq, Eq, Structural)]
pub enum ListCommand {
    CycleSort,
    Up,
    Down,
    First,
    Last,
    PageUp,
    PageDown,
    Add(InsertPosition),
    Activate,
    Nothing,
}

/// What the history page asks of the application after a key press.
#[derive(Debug, Clone, Copy, PartialEq, Eq, Structural)]
pub enum HistoryOutcome {
    /// Nothing beyond the change of selection.
    Nothing,
    /// The sort mode changed to this one (announced to the user).
    SortChanged(SortMode),
    /// Queue the song at `index` of the sorted history.
    AddToQueue { index: usize, position: InsertPosition },
    /// Play the sorted history from `index`.
    Play { index: usize },
}

/// Rows moved by a page-up or page-down.
pub const HISTORY_PAGE_ROWS: usize = 10;

/// The name of the history page's key-binding scope.
pub open spec fn history_scope() -> Seq<char> {
    seq!['h', 'i', 's', 't', 'o', 'r', 'y']
}

/// The list command of a bound action; `None` for actions the page does not handle.
pub open spec fn bound_command(a: Action) -> Option<ListCommand> {
    match a {
        Action::ListCycleSort => Some(ListCommand::CycleSort),
        Action::ListSelectUp => Some(ListCommand::Up),
        Action::ListSelectDown => Some(ListCommand::Down),
        Action::ListSelectFirst => Some(ListCommand::First),
        Action::ListSelectLast => Some(ListCommand::Last),
        Action::ListPageUp => Some(ListCommand::PageUp),
        Action::ListPageDown => Some(ListCommand::PageDown),
        Action::ListAddToQueue => Some(ListCommand::Add(InsertPosition::End)),
        Action::ListAddToQueueNext => Some(ListCommand::Add(InsertPosition::Next)),
        Action::ListActivate => Some(ListCommand::Activate),
        _ => None,
    }
}

/// The built-in keys of the page, read when no binding applies; the activation
/// key only counts when there is a song to activate (`can_activate`).
pub open spec fn builtin_command(key: KeyEvent, can_activate: bool) -> ListCommand {
    let plain = key.modifiers == no_mods();
    let shift = key.modifiers == (KeyModifiers { shift: true, ..no_mods() });
    let ctrl = key.modifiers == (KeyModifiers { control: true, ..no_mods() });
    let c = key.code;
    if plain && c == KeyCode::Char('s') {
        ListCommand::CycleSort
    } else if plain && c == KeyCode::Up {
        ListCommand::Up
    } else if plain && c == KeyCode::Down {
        ListCommand::Down
    } else if plain && (c == KeyCode::Home || c == KeyCode::Char('g')) {
        ListCommand::First
    } else if (plain && (c == KeyCode::End || c == KeyCode::Char('G'))) || (shift && c == KeyCode::Char('G')) {
        ListCommand::Last
    } else if (ctrl && c == KeyCode::Char('u')) || (plain && c == KeyCode::PageUp) {
        ListCommand::PageUp
    } else if (ctrl && c == KeyCode::Char('d')) || (plain && c == KeyCode::PageDown) {
        ListCommand::PageDown
    } else if can_activate {
        ListCommand::Activate
    } else if plain && c == KeyCode::Char('a') {
        ListCommand::Add(InsertPosition::End)
    } else if (plain || shift) && c == KeyCode::Char('A') {
        ListCommand::Add(InsertPosition::Next)
    } else {
        ListCommand::Nothing
    }
}

/// The command of a key press: the page binding when it names a list
/// command, else the built-in keys.
pub open spec fn history_command(bound: Option<Action>, key: KeyEvent, can_activate: bool) -> ListCommand {
    match bound {
        Some(a) => match bound_command(a) {
            Some(c) => c,
            None => builtin_command(key, can_activate),
        },
        None => builtin_command(key, can_activate),
    }
}

/// The selection after `cmd` on a list of `len` songs, from `sel`.
pub open spec fn selection_after(cmd: ListCommand, sel: int, len: int, wrap: bool) -> int {
    let last = if len > 0 { len - 1 } else { 0 };
    match cmd {
        ListCommand::CycleSort => 0,
        ListCommand::Up => if len > 0 && sel == 0 && wrap { last } else if len > 0 && sel > 0 { sel - 1 } else { sel },
        ListCommand::Down => if len > 0 && sel + 1 < len { sel + 1 } else if len > 0 && wrap { 0 } else { sel },
        ListCommand::First => 0,
        ListCommand::Last => last,
        ListCommand::PageUp => if sel >= 10 { sel - 10 } else { 0 },
        ListCommand::PageDown => if sel + 10 < last { sel + 10 } else { last },
        _ => sel,
    }
}

/// What the page asks of the application after `cmd`.
pub open spec fn outcome_of(cmd: ListCommand, sel: int, len: int, mode: SortMode) -> HistoryOutcome {
    match cmd {
        ListCommand::CycleSort => HistoryOutcome::SortChanged(next_mode(mode)),
        ListCommand::Add(p) => if 0 <= sel < len { HistoryOutcome::AddToQueue { index: sel as usize, position: p } } else { HistoryOutcome::Nothing },
        ListCommand::Activate => if 0 <= sel < len { HistoryOutcome::Play { index: sel as usize } } else { HistoryOutcome::Nothing },
        _ => HistoryOutcome::Nothing,
    }
}

/// The list command of a bound action.
fn command_of_action(a: Action) -> (r: Option<ListCommand>)
    ensures
        r == bound_command(a),
{
    match a {
        Action::ListCycleSort => Some(ListCommand::CycleSort),
        Action::ListSelectUp => Some(ListCommand::Up),
        Action::ListSelectDown => Some(ListCommand::Down),
        Action::ListSelectFirst => Some(ListCommand::First),
        Action::ListSelectLast => Some(ListCommand::Last),
        Action::ListPageUp => Some(ListCommand::PageUp),
        Action::ListPageDown => Some(ListCommand::PageDown),
        Action::ListAddToQueue => Some(ListCommand::Add(InsertPosition::End)),
        Action::ListAddToQueueNext => Some(ListCommand::Add(InsertPosition::Next)),
        Action::ListActivate => Some(ListCommand::Activate),
        _ => None,
    }
}

/// The built-in command of a key press.
pub fn builtin_key_command(key: &KeyEvent, can_activate: bool) -> (r: ListCommand)
    ensures
        r == builtin_command(*key, can_activate),
{
    let plain = key.modifiers == KeyModifiers::none();
    let shift = key.modifiers == KeyModifiers::shift_only();
    let ctrl = key.modifiers == KeyModifiers::control_only();
    let c = key.code;
    if plain && c == KeyCode::Char('s') {
        ListCommand::CycleSort
    } else if plain && c == KeyCode::Up {
        ListCommand::Up
    } else if plain && c == KeyCode::Down {
        ListCommand::Down
    } else if plain && (c == KeyCode::Home || c == KeyCode::Char('g')) {
        ListCommand::First
    } else if (plain && (c == KeyCode::End || c == KeyCode::Char('G'))) || (shift && c == KeyCode::Char('G')) {
        ListCommand::Last
    } else if (ctrl && c == KeyCode::Char('u')) || (plain && c == KeyCode::PageUp) {
        ListCommand::PageUp
    } else if (ctrl && c == KeyCode::Char('d')) || (plain && c == KeyCode::PageDown) {
        ListCommand::PageDown
    } else if can_activate {
        ListCommand::Activate
    } else if plain && c == KeyCode::Char('a') {
        ListCommand::Add(InsertPosition::End)
    } else if (plain || shift) && c == KeyCode::Char('A') {
        ListCommand::Add(InsertPosition::Next)
    } else {
        ListCommand::Nothing
    }
}

/// Applies a list command to the page state of a sorted list of `len` songs.
pub fn apply_list_command(cmd: ListCommand, len: usize, state: &mut SortState, wrap_navigation: bool) -> (r: HistoryOutcome)
    requires
        old(state).selected + HISTORY_PAGE_ROWS <= usize::MAX,
    ensures
        final(state).selected == selection_after(cmd, old(state).selected as int, len as int, wrap_navigation),
        final(state).mode == (if cmd is CycleSort { next_mode(old(state).mode) } else { old(state).mode }),
        final(state).scroll == (if cmd is CycleSort { 0 } else { old(state).scroll }),
        r == outcome_of(cmd, old(state).selected as int, len as int, old(state).mode),
{
    let last = if len > 0 { len - 1 } else { 0 };
    let sel = state.selected;
    match cmd {
        ListCommand::CycleSort => {
            let mode = state.cycle();
            HistoryOutcome::SortChanged(mode)
        },
        ListCommand::Up => {
            if len > 0 {
                if sel > 0 {
                    state.selected = sel - 1;
                } else if wrap_navigation {
                    state.selected = last;
                }
            }
            HistoryOutcome::Nothing
        },
        ListCommand::Down => {
            if len > 0 {
                if sel + 1 < len {
                    state.selected = sel + 1;
                } else if wrap_navigation {
                    state.selected = 0;
                }
            }
            HistoryOutcome::Nothing
        },
        ListCommand::First => {
            state.selected = 0;
            HistoryOutcome::Nothing
        },
        ListCommand::Last => {
            state.selected = last;
            HistoryOutcome::Nothing
        },
        ListCommand::PageUp => {
            state.selected = sel.saturating_sub(HISTORY_PAGE_ROWS);
            HistoryOutcome::Nothing
        },
        ListCommand::PageDown => {
            let down = sel + HISTORY_PAGE_ROWS;
            state.selected = if down < last { down } else { last };
            HistoryOutcome::Nothing
        },
        ListCommand::Add(position) => {
            if sel < len {
                HistoryOutcome::AddToQueue { index: sel, position }
            } else {
                HistoryOutcome::Nothing
            }
        },
        ListCommand::Activate => {
            if sel < len {
                HistoryOutcome::Play { index: sel }
            } else {
                HistoryOutcome::Nothing
            }
        },
        ListCommand::Nothing => HistoryOutcome::Nothing,
    }
}

/// Handles a key press on the history page, whose sorted list holds `len`
/// songs. `activation_key` says whether the key is the song-activation key;
/// `wrap_navigation` whether moving past an end wraps to the other.
pub fn handle_history_input(
    key: &KeyEvent,
    len: usize,
    state: &mut SortState,
    resolver: &KeybindingResolver,
    wrap_navigation: bool,
    activation_key: bool,
) -> (r: HistoryOutcome)
    requires
        old(state).selected + HISTORY_PAGE_ROWS <= usize::MAX,
    ensures
        ({
            let cmd = history_command(
                page_action(resolver.page_scopes(), history_scope(), normalized(key.modifiers, key.code)),
                *key,
                activation_key && old(state).selected < len,
            );
            &&& final(state).selected == selection_after(cmd, old(state).selected as int, len as int, wrap_navigation)
            &&& final(state).mode == (if cmd is CycleSort { next_mode(old(state).mode) } else { old(state).mode })
            &&& final(state).scroll == (if cmd is CycleSort { 0 } else { old(state).scroll })
            &&& r == outcome_of(cmd, old(state).selected as int, len as int, old(state).mode)
        }),
        len > 0 && old(state).selected < len ==> final(state).selected < len,
{
    let page = "history";
    proof {
        reveal_strlit("history");
        assert(page@ == history_scope());
    }
    let bound = resolver.resolve_page(page, key);
    let can_activate = activation_key && state.selected < len;
    let cmd = match bound {
        Some(a) => match command_of_action(a) {
            Some(c) => c,
            None => builtin_key_command(key, can_activate),
        },
        None => builtin_key_command(key, can_activate),
    };
    apply_list_command(cmd, len, state, wrap_navigation)
}

} // verus!
