//! The mouse on the history and local music lists: the wheel moves the
//! selection, a click selects a song and may play the list from it.
use vstd::prelude::*;
use crate::terminal::CellArea;
use crate::ui::context_menu::Position;
use crate::ui::hit_test::{MouseButton, MouseEvent, MouseEventKind, bottom_edge, hit_fits, inside_border, row_hit, song_index_at, song_rows};
use crate::ui::sort::SortState;

verus! {

/// Rows the wheel moves: the configured amount, at least one.
pub open spec fn wheel_rows(amount: usize) -> int {
    if amount >= 1 { amount as int } else { 1 }
}

/// The selection after the wheel, in a list of `len` songs.
pub open spec fn wheeled(sel: usize, up: bool, len: usize, amount: usize) -> usize {
    if up {
        if sel >= wheel_rows(amount) { (sel - wheel_rows(amount)) as usize } else { 0 }
    } else {
        let last: int = if len >= 1 { len - 1 } else { 0 };
        (if sel + wheel_rows(amount) <= last { sel + wheel_rows(amount) } else { last }) as usize
    }
}

/// Whether the wheel moving down from `sel` counts within `usize`.
pub open spec fn wheel_fits(event: MouseEvent, sel: usize, amount: usize) -> bool {
    event.kind == MouseEventKind::ScrollDown ==> sel + wheel_rows(amount) <= usize::MAX
}

/// The history row on `area` that a click on screen row `row` hits: the
/// rows inside the border below the header, whatever the column; counted
/// from `scroll` among `len` songs.
pub open spec fn history_row(area: CellArea, row: u16, scroll: usize, len: usize) -> Option<usize> {
    let inner = inside_border(area);
    let list_y = inner.y.saturating_add(1);
    if row < list_y || row >= bottom_edge(inner) || scroll + (row - list_y) >= len {
        None
    } else {
        Some((scroll + (row - list_y)) as usize)
    }
}

/// Whether counting the hit history row from `scroll` fits in `usize`.
pub open spec fn history_fits(area: CellArea, row: u16, scroll: usize) -> bool {
    let inner = inside_border(area);
    let list_y = inner.y.saturating_add(1);
    (list_y <= row < bottom_edge(inner)) ==> scroll + (row - list_y) <= usize::MAX
}

/// The state and the position to play from after a mouse event on a list
/// of `len` songs whose click target is `hit`: the wheel moves the
/// selection by `amount` rows (at least one); a left click on a song selects
/// it and, when `activate`, plays the list from it.
pub open spec fn list_mouse(state: SortState, event: MouseEvent, hit: Option<usize>, len: usize, amount: usize, activate: bool) -> (SortState, Option<usize>) {
    match event.kind {
        MouseEventKind::ScrollUp => (SortState { selected: wheeled(state.selected, true, len, amount), ..state }, None),
        MouseEventKind::ScrollDown => (SortState { selected: wheeled(state.selected, false, len, amount), ..state }, None),
        MouseEventKind::Down(MouseButton::Left) => match hit {
            Some(i) => (SortState { selected: i, ..state }, if activate { Some(i) } else { None }),
            None => (state, None),
        },
        _ => (state, None),
    }
}

/// Moves the selection with the wheel (see [`wheeled`]).
fn wheel(state: &mut SortState, up: bool, len: usize, amount: usize)
    requires
        !up ==> old(state).selected + wheel_rows(amount) <= usize::MAX,
    ensures
        *final(state) == (SortState { selected: wheeled(old(state).selected, up, len, amount), ..*old(state) }),
{
    let rows = if amount >= 1 { amount } else { 1 };
    if up {
        state.selected = state.selected.saturating_sub(rows);
    } else {
        let last = len.saturating_sub(1);
        let next = state.selected + rows;
        state.selected = if next <= last { next } else { last };
    }
}

/// The history row hit on screen row `row` (see [`history_row`]).
pub fn history_row_at(area: CellArea, row: u16, scroll: usize, len: usize) -> (r: Option<usize>)
    requires
        history_fits(area, row, scroll),
    ensures
        r == history_row(area, row, scroll, len),
{
    let inner = area.inner();
    let list_y = inner.y.saturating_add(1);
    if row < list_y || row >= inner.bottom() {
        return None;
    }
    let index = scroll + (row - list_y) as usize;
    if index >= len {
        None
    } else {
        Some(index)
    }
}

/// Handles a mouse event on the history drawn on `area`, sorted as `state`
/// says and `len` songs long (see [`list_mouse`] and [`history_row`]);
/// returns the position to play the sorted history from.
pub fn handle_history_mouse(event: MouseEvent, area: CellArea, len: usize, state: &mut SortState, scroll_amount: usize, activate: bool) -> (r: Option<usize>)
    requires
        wheel_fits(event, old(state).selected, scroll_amount),
        history_fits(area, event.row, old(state).scroll),
    ensures
        (*final(state), r) == list_mouse(*old(state), event, history_row(area, event.row, old(state).scroll, len), len, scroll_amount, activate),
{
    match event.kind {
        MouseEventKind::ScrollUp => {
            wheel(state, true, len, scroll_amount);
            None
        },
        MouseEventKind::ScrollDown => {
            wheel(state, false, len, scroll_amount);
            None
        },
        MouseEventKind::Down(MouseButton::Left) => match history_row_at(area, event.row, state.scroll, len) {
            Some(index) => {
                state.selected = index;
                if activate {
                    Some(index)
                } else {
                    None
                }
            },
            None => None,
        },
        _ => None,
    }
}

/// The history song under a right click on screen row `row`, which becomes
/// the selection.
pub fn history_context_song_at(row: u16, area: CellArea, len: usize, state: &mut SortState) -> (r: Option<usize>)
    requires
        history_fits(area, row, old(state).scroll),
    ensures
        r == history_row(area, row, old(state).scroll, len),
        *final(state) == match r {
            Some(i) => SortState { selected: i, ..*old(state) },
            None => *old(state),
        },
{
    let hit = history_row_at(area, row, state.scroll, len);
    match hit {
        Some(index) => {
            state.selected = index;
        },
        None => {},
    }
    hit
}

/// Handles a mouse event on the local music table drawn on `area`, sorted
/// as `state` says and `len` songs long (see [`list_mouse`]; a click hits
/// the rows of [`song_rows`]); returns the position to play from.
pub fn handle_local_mouse(event: MouseEvent, area: CellArea, len: usize, state: &mut SortState, scroll_amount: usize, activate: bool) -> (r: Option<usize>)
    requires
        wheel_fits(event, old(state).selected, scroll_amount),
        hit_fits(song_rows(area), Position { x: event.column, y: event.row }, old(state).scroll as int),
    ensures
        (*final(state), r) == list_mouse(
            *old(state),
            event,
            row_hit(song_rows(area), Position { x: event.column, y: event.row }, old(state).scroll as int, len as int),
            len,
            scroll_amount,
            activate,
        ),
{
    match event.kind {
        MouseEventKind::ScrollUp => {
            wheel(state, true, len, scroll_amount);
            None
        },
        MouseEventKind::ScrollDown => {
            wheel(state, false, len, scroll_amount);
            None
        },
        MouseEventKind::Down(MouseButton::Left) => {
            let position = Position { x: event.column, y: event.row };
            match song_index_at(area, position, state.scroll, len) {
                Some(index) => {
                    state.selected = index;
                    if activate {
                        Some(index)
                    } else {
                        None
                    }
                },
                None => None,
            }
        },
        _ => None,
    }
}

/// The local song under a right click at `position`, which becomes the
/// selection.
pub fn local_context_song_at(position: Position, area: CellArea, len: usize, state: &mut SortState) -> (r: Option<usize>)
    requires
        hit_fits(song_rows(area), position, old(state).scroll as int),
    ensures
        r == row_hit(song_rows(area), position, old(state).scroll as int, len as int),
        *final(state) == match r {
            Some(i) => SortState { selected: i, ..*old(state) },
            None => *old(state),
        },
{
    let hit = song_index_at(area, position, state.scroll, len);
    match hit {
        Some(index) => {
            state.selected = index;
        },
        None => {},
    }
    hit
}

} // verus!
