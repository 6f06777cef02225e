//! The mouse on the main page: grabbing the dividers of the layout, and
//! scrolling, playing and dragging entries of the play queue.
use vstd::prelude::*;
use crate::song::{SongInfo, songs_view};
use crate::terminal::CellArea;
use crate::ui::context_menu::Position;
use crate::ui::hit_test::{
    MouseButton, MouseEvent, MouseEventKind, bottom_edge, hit_fits, list_rows, queue_index_at, queue_index_at_filtered,
    right_edge, row_hit,
};
use crate::ui::list_mouse::{wheel_fits, wheel_rows};
use crate::ui::main_keys::{MainKeysModel, MainPageKeys, filtered_indices, last_row, visible};

verus! {

/// A divider of the main page that the mouse can drag.
#[derive(Debug, Clone, Copy, PartialEq, Eq, Structural)]
pub enum ResizeTarget {
    /// Between the cover and lyrics column and the queue (wide layout).
    WideColumns,
    /// Between the cover and the lyrics (wide layout).
    WideCoverLyrics,
    /// Between the queue and the lyrics (narrow layout).
    NarrowQueueLyrics,
}

/// Where the parts of the main page are drawn.
#[derive(Debug, Clone, Copy, PartialEq, Eq, Structural)]
pub struct MainAreas {
    /// Whether the cover and lyrics stand beside the queue.
    pub wide: bool,
    pub left: CellArea,
    pub queue: CellArea,
    pub cover: CellArea,
    pub lyric: CellArea,
}

/// How far from a divider, in cells, a press still grabs it.
pub const RESIZE_GRAB_RADIUS: u16 = 1;

/// The distance between two coordinates.
pub open spec fn distance(a: u16, b: u16) -> int {
    if a >= b { a - b } else { b - a }
}

/// The divider grabbed by a press at `(x, y)`: the column divider along the
/// left part's last column, the divider under the cover, or the divider
/// under the queue of the narrow layout; the last two only when both parts
/// they divide have rows.
pub open spec fn grabbed(x: u16, y: u16, l: MainAreas) -> Option<ResizeTarget> {
    if l.wide {
        if distance(x, right_edge(l.left).saturating_sub(1)) <= RESIZE_GRAB_RADIUS && l.left.y <= y < bottom_edge(l.left) {
            Some(ResizeTarget::WideColumns)
        } else if l.cover.height > 0 && l.lyric.height > 0
            && distance(y, bottom_edge(l.cover).saturating_sub(1)) <= RESIZE_GRAB_RADIUS
            && l.left.x <= x < right_edge(l.left) {
            Some(ResizeTarget::WideCoverLyrics)
        } else {
            None
        }
    } else if l.queue.height > 0 && l.lyric.height > 0
        && distance(y, bottom_edge(l.queue).saturating_sub(1)) <= RESIZE_GRAB_RADIUS
        && l.queue.x <= x < right_edge(l.queue) {
        Some(ResizeTarget::NarrowQueueLyrics)
    } else {
        None
    }
}

fn distance_of(a: u16, b: u16) -> (r: u16)
    ensures
        r == distance(a, b),
{
    if a >= b { a - b } else { b - a }
}

/// The divider grabbed by a press at `(column, row)` (see [`grabbed`]).
pub fn resize_target_at(column: u16, row: u16, layout: &MainAreas) -> (r: Option<ResizeTarget>)
    ensures
        r == grabbed(column, row, *layout),
{
    let x = column;
    let y = row;
    if layout.wide {
        let vertical = layout.left.right().saturating_sub(1);
        if distance_of(x, vertical) <= RESIZE_GRAB_RADIUS && y >= layout.left.y && y < layout.left.bottom() {
            return Some(ResizeTarget::WideColumns);
        }
        let horizontal = layout.cover.bottom().saturating_sub(1);
        if layout.cover.height > 0 && layout.lyric.height > 0 && distance_of(y, horizontal) <= RESIZE_GRAB_RADIUS
            && x >= layout.left.x && x < layout.left.right() {
            return Some(ResizeTarget::WideCoverLyrics);
        }
    } else {
        let horizontal = layout.queue.bottom().saturating_sub(1);
        if layout.queue.height > 0 && layout.lyric.height > 0 && distance_of(y, horizontal) <= RESIZE_GRAB_RADIUS
            && x >= layout.queue.x && x < layout.queue.right() {
            return Some(ResizeTarget::NarrowQueueLyrics);
        }
    }
    None
}

/// What the main page asks of the application after a mouse event.
#[derive(Debug, Clone, Copy, PartialEq, Eq, Structural)]
pub enum MainMouseCommand {
    Nothing,
    /// Start dragging this divider.
    StartResize(ResizeTarget),
    /// Show the dragged divider at the pointer.
    PreviewResize,
    /// Keep the dragged divider where it is shown and stop dragging.
    CommitResize,
    /// Move the queue entry at `from` to `to`.
    MoveItem { from: usize, to: usize },
    /// Play the queue from this position.
    Play(usize),
}

/// The queue entry hit at `p` in the queue drawn on `area`: through the
/// positions the filter shows when one is set.
pub open spec fn queue_hit(m: MainKeysModel, area: CellArea, p: Position, songs: Seq<SongInfo>) -> Option<usize> {
    if m.queue_filter.len() == 0 {
        row_hit(list_rows(area, 1), p, m.scroll as int, songs.len() as int)
    } else {
        let v = visible(songs_view(songs), m.queue_filter);
        match row_hit(list_rows(area, 1), p, m.scroll as int, v.len() as int) {
            Some(i) => Some(v[i as int]),
            None => None,
        }
    }
}

/// The main page after a mouse event on the page laid out as `layout`, with
/// the queue `songs` whose current song is at `current`, and its request.
/// While a divider is dragged, dragging previews it, releasing keeps it, and
/// nothing else happens. A left press on a divider grabs it. Otherwise the
/// wheel moves the selection by `amount` rows (at least one) and drops a
/// dragged entry; a left press on an entry selects it and starts dragging
/// it (and plays the queue from it when `activate`), elsewhere it selects
/// the current song; dragging onto another entry moves the dragged entry
/// there; releasing ends the drag.
pub open spec fn main_mouse(
    m: MainKeysModel,
    event: MouseEvent,
    layout: MainAreas,
    songs: Seq<SongInfo>,
    current: usize,
    amount: usize,
    activate: bool,
) -> (MainKeysModel, MainMouseCommand) {
    let len = songs.len() as int;
    let p = Position { x: event.column, y: event.row };
    let hit = queue_hit(m, layout.queue, p, songs);
    if m.resizing {
        match event.kind {
            MouseEventKind::Drag(MouseButton::Left) => (m, MainMouseCommand::PreviewResize),
            MouseEventKind::Up(MouseButton::Left) => (MainKeysModel { resizing: false, ..m }, MainMouseCommand::CommitResize),
            _ => (m, MainMouseCommand::Nothing),
        }
    } else if event.kind == MouseEventKind::Down(MouseButton::Left) && grabbed(event.column, event.row, layout) is Some {
        (MainKeysModel { resizing: true, ..m }, MainMouseCommand::StartResize(grabbed(event.column, event.row, layout)->0))
    } else {
        match event.kind {
            MouseEventKind::ScrollUp => (
                MainKeysModel {
                    dragging: None,
                    selected: if m.selected >= wheel_rows(amount) { (m.selected - wheel_rows(amount)) as usize } else { 0 },
                    ..m
                },
                MainMouseCommand::Nothing,
            ),
            MouseEventKind::ScrollDown => (
                MainKeysModel {
                    dragging: None,
                    selected: if m.selected + wheel_rows(amount) <= last_row(len as usize) {
                        (m.selected + wheel_rows(amount)) as usize
                    } else {
                        last_row(len as usize)
                    },
                    ..m
                },
                MainMouseCommand::Nothing,
            ),
            MouseEventKind::Down(MouseButton::Left) => match hit {
                Some(i) => (
                    MainKeysModel { selected: i, dragging: Some(i), ..m },
                    if activate { MainMouseCommand::Play(i) } else { MainMouseCommand::Nothing },
                ),
                None => (
                    MainKeysModel {
                        dragging: None,
                        selected: if current <= last_row(len as usize) { current } else { last_row(len as usize) },
                        ..m
                    },
                    MainMouseCommand::Nothing,
                ),
            },
            MouseEventKind::Drag(MouseButton::Left) => match (m.dragging, hit) {
                (Some(from), Some(to)) => if to != from {
                    (MainKeysModel { selected: to, dragging: Some(to), ..m }, MainMouseCommand::MoveItem { from, to })
                } else {
                    (m, MainMouseCommand::Nothing)
                },
                _ => (m, MainMouseCommand::Nothing),
            },
            MouseEventKind::Up(MouseButton::Left) => (MainKeysModel { dragging: None, ..m }, MainMouseCommand::Nothing),
            _ => (m, MainMouseCommand::Nothing),
        }
    }
}

impl MainPageKeys {
    /// The queue entry hit at `p` (see [`queue_hit`]).
    fn queue_entry_at(&self, area: CellArea, p: Position, songs: &[SongInfo]) -> (r: Option<usize>)
        requires
            hit_fits(list_rows(area, 1), p, self.scroll as int),
        ensures
            r == queue_hit(self@, area, p, songs@),
    {
        if crate::text::chars_of(self.queue_filter.as_str()).len() == 0 {
            queue_index_at(p, area, self.scroll, songs.len())
        } else {
            let v = filtered_indices(songs, self.queue_filter.as_str());
            queue_index_at_filtered(p, area, self.scroll, v.as_slice())
        }
    }

    /// Handles a mouse event on the main page (see [`main_mouse`]);
    /// `scroll_amount` is the configured wheel step.
    pub fn handle_mouse(
        &mut self,
        event: MouseEvent,
        layout: &MainAreas,
        songs: &[SongInfo],
        current: usize,
        scroll_amount: usize,
        activate: bool,
    ) -> (r: MainMouseCommand)
        requires
            wheel_fits(event, old(self).selected, scroll_amount),
            hit_fits(list_rows(layout.queue, 1), Position { x: event.column, y: event.row }, old(self).scroll as int),
        ensures
            (final(self)@, r) == main_mouse(old(self)@, event, *layout, songs@, current, scroll_amount, activate),
    {
        if self.resizing {
            match event.kind {
                MouseEventKind::Drag(MouseButton::Left) => {
                    return MainMouseCommand::PreviewResize;
                },
                MouseEventKind::Up(MouseButton::Left) => {
                    self.resizing = false;
                    return MainMouseCommand::CommitResize;
                },
                _ => {
                    return MainMouseCommand::Nothing;
                },
            }
        }
        if event.kind == MouseEventKind::Down(MouseButton::Left) {
            match resize_target_at(event.column, event.row, layout) {
                Some(target) => {
                    self.resizing = true;
                    return MainMouseCommand::StartResize(target);
                },
                None => {},
            }
        }
        let rows = if scroll_amount >= 1 { scroll_amount } else { 1 };
        let last = if songs.len() > 0 { songs.len() - 1 } else { 0 };
        let p = Position { x: event.column, y: event.row };
        match event.kind {
            MouseEventKind::ScrollUp => {
                self.dragging = None;
                self.selected = self.selected.saturating_sub(rows);
                MainMouseCommand::Nothing
            },
            MouseEventKind::ScrollDown => {
                self.dragging = None;
                let next = self.selected + rows;
                self.selected = if next <= last { next } else { last };
                MainMouseCommand::Nothing
            },
            MouseEventKind::Down(MouseButton::Left) => match self.queue_entry_at(layout.queue, p, songs) {
                Some(index) => {
                    self.selected = index;
                    self.dragging = Some(index);
                    if activate {
                        MainMouseCommand::Play(index)
                    } else {
                        MainMouseCommand::Nothing
                    }
                },
                None => {
                    self.dragging = None;
                    self.selected = if current <= last { current } else { last };
                    MainMouseCommand::Nothing
                },
            },
            MouseEventKind::Drag(MouseButton::Left) => {
                match self.dragging {
                    Some(from) => match self.queue_entry_at(layout.queue, p, songs) {
                        Some(to) => {
                            if to != from {
                                self.selected = to;
                                self.dragging = Some(to);
                                MainMouseCommand::MoveItem { from, to }
                            } else {
                                MainMouseCommand::Nothing
                            }
                        },
                        None => MainMouseCommand::Nothing,
                    },
                    None => MainMouseCommand::Nothing,
                }
            },
            MouseEventKind::Up(MouseButton::Left) => {
                self.dragging = None;
                MainMouseCommand::Nothing
            },
            _ => MainMouseCommand::Nothing,
        }
    }

    /// The queue song under a right click at `position` in the queue drawn
    /// on `queue_area`: it becomes the selection and any drag ends.
    pub fn context_song_at(&mut self, position: Position, queue_area: CellArea, len: usize) -> (r: Option<usize>)
        requires
            hit_fits(list_rows(queue_area, 1), position, old(self).scroll as int),
        ensures
            r == row_hit(list_rows(queue_area, 1), position, old(self).scroll as int, len as int),
            final(self)@ == match r {
                Some(i) => MainKeysModel { selected: i, dragging: None, ..old(self)@ },
                None => old(self)@,
            },
    {
        let hit = queue_index_at(position, queue_area, self.scroll, len);
        match hit {
            Some(index) => {
                self.selected = index;
                self.dragging = None;
            },
            None => {},
        }
        hit
    }
}

} // verus!
