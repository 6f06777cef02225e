//! Cell geometry shared by rendering and mouse handling: rectangles of
//! cells, the area inside a bordered block, and which list row a click hits.
use vstd::prelude::*;
use crate::terminal::CellArea;
use crate::ui::context_menu::Position;

verus! {

/// A mouse button.
#[derive(Debug, Clone, Copy, PartialEq, Eq, Structural)]
pub enum MouseButton {
    Left,
    Right,
    Middle,
}

/// What the mouse did.
#[derive(Debug, Clone, Copy, PartialEq, Eq, Structural)]
pub enum MouseEventKind {
    Down(MouseButton),
    Up(MouseButton),
    Drag(MouseButton),
    Moved,
    ScrollDown,
    ScrollUp,
    ScrollLeft,
    ScrollRight,
}

/// A mouse event at a cell of the screen.
#[derive(Debug, Clone, Copy, PartialEq, Eq, Structural)]
pub struct MouseEvent {
    pub kind: MouseEventKind,
    pub column: u16,
    pub row: u16,
}

/// The rectangle at `(x, y)` of the given size, shrunk so that its right and
/// bottom edges stay within `u16`.
pub open spec fn rect_at(x: u16, y: u16, width: u16, height: u16) -> CellArea {
    CellArea {
        x,
        y,
        width: (x.saturating_add(width) - x) as u16,
        height: (y.saturating_add(height) - y) as u16,
    }
}

/// The first column right of the area (saturating).
pub open spec fn right_edge(a: CellArea) -> u16 {
    a.x.saturating_add(a.width)
}

/// The first row below the area (saturating).
pub open spec fn bottom_edge(a: CellArea) -> u16 {
    a.y.saturating_add(a.height)
}

/// Whether the cell `p` lies in the area.
pub open spec fn covers(a: CellArea, p: Position) -> bool {
    a.x <= p.x < right_edge(a) && a.y <= p.y < bottom_edge(a)
}

/// The smaller of two cell coordinates.
pub open spec fn min_u16(a: u16, b: u16) -> u16 {
    if a <= b { a } else { b }
}

/// The area inside a border drawn on every side of `a`.
pub open spec fn inside_border(a: CellArea) -> CellArea {
    CellArea {
        x: min_u16(a.x.saturating_add(1), right_edge(a)),
        y: min_u16(a.y.saturating_add(1), bottom_edge(a)),
        width: a.width.saturating_sub(2),
        height: a.height.saturating_sub(2),
    }
}

/// The row of a one-line-per-row list in `list` that the cell `p` hits,
/// counted from `scroll`, when it is a row of the list's `len` rows.
pub open spec fn row_hit(list: CellArea, p: Position, scroll: int, len: int) -> Option<usize> {
    if !covers(list, p) {
        None
    } else if scroll + (p.y - list.y) < len {
        Some((scroll + (p.y - list.y)) as usize)
    } else {
        None
    }
}

/// Whether counting the hit row from `scroll` fits in `usize`.
pub open spec fn hit_fits(list: CellArea, p: Position, scroll: int) -> bool {
    covers(list, p) ==> scroll + (p.y - list.y) <= usize::MAX
}

/// The list rows of a bordered block on `area` whose first `header_rows`
/// rows inside the border are not part of the list.
pub open spec fn list_rows(area: CellArea, header_rows: u16) -> CellArea {
    let inner = inside_border(area);
    rect_at(inner.x, inner.y.saturating_add(header_rows), inner.width, inner.height.saturating_sub(header_rows))
}

/// The song rows of the local music table: inside the border, below the
/// header row and above the last row.
pub open spec fn song_rows(area: CellArea) -> CellArea {
    let inner = inside_border(area);
    rect_at(inner.x, inner.y.saturating_add(1), inner.width, inner.height.saturating_sub(2))
}

impl CellArea {
    /// The rectangle at `(x, y)` of the given size, its width and height cut
    /// so that its edges stay within `u16`.
    pub fn new(x: u16, y: u16, width: u16, height: u16) -> (r: CellArea)
        ensures
            r == rect_at(x, y, width, height),
    {
        CellArea { x, y, width: x.saturating_add(width) - x, height: y.saturating_add(height) - y }
    }

    /// The first column right of the area.
    pub fn right(self) -> (r: u16)
        ensures
            r == right_edge(self),
    {
        self.x.saturating_add(self.width)
    }

    /// The first row below the area.
    pub fn bottom(self) -> (r: u16)
        ensures
            r == bottom_edge(self),
    {
        self.y.saturating_add(self.height)
    }

    /// Whether the cell `p` lies in the area.
    pub fn contains(self, p: Position) -> (r: bool)
        ensures
            r == covers(self, p),
    {
        p.x >= self.x && p.x < self.right() && p.y >= self.y && p.y < self.bottom()
    }

    /// The area inside a border drawn on every side.
    pub fn inner(self) -> (r: CellArea)
        ensures
            r == inside_border(self),
    {
        let right = self.right();
        let bottom = self.bottom();
        let x = self.x.saturating_add(1);
        let y = self.y.saturating_add(1);
        CellArea {
            x: if x <= right { x } else { right },
            y: if y <= bottom { y } else { bottom },
            width: self.width.saturating_sub(2),
            height: self.height.saturating_sub(2),
        }
    }
}

/// The row of the list in `list` hit by `p`, counted from `scroll`.
fn hit_row(list: CellArea, p: Position, scroll: usize, len: usize) -> (r: Option<usize>)
    requires
        hit_fits(list, p, scroll as int),
    ensures
        r == row_hit(list, p, scroll as int, len as int),
{
    if !list.contains(p) {
        return None;
    }
    let index = scroll + (p.y - list.y) as usize;
    if index < len {
        Some(index)
    } else {
        None
    }
}

/// The index of the list entry that the cell `position` hits, in a list
/// drawn one entry per row inside a bordered block on `area`, below
/// `header_rows` rows, scrolled by `scroll`; none outside the list rows or
/// past the `len` entries.
pub fn row_at(area: CellArea, position: Position, scroll: usize, len: usize, header_rows: u16) -> (r: Option<usize>)
    requires
        hit_fits(list_rows(area, header_rows), position, scroll as int),
    ensures
        r == row_hit(list_rows(area, header_rows), position, scroll as int, len as int),
{
    let inner = area.inner();
    let list = CellArea::new(inner.x, inner.y.saturating_add(header_rows), inner.width, inner.height.saturating_sub(header_rows));
    hit_row(list, position, scroll, len)
}

/// The index of the song that the cell `position` hits in the local music
/// table drawn on `area` and scrolled by `scroll`; none on the border, the
/// header row, the unused last row, or past the `len` songs.
pub fn song_index_at(area: CellArea, position: Position, scroll: usize, len: usize) -> (r: Option<usize>)
    requires
        hit_fits(song_rows(area), position, scroll as int),
    ensures
        r == row_hit(song_rows(area), position, scroll as int, len as int),
{
    let inner = area.inner();
    let list = CellArea::new(inner.x, inner.y.saturating_add(1), inner.width, inner.height.saturating_sub(2));
    hit_row(list, position, scroll, len)
}

/// The index in the play queue drawn on `area` (one header row) of the row
/// clicked at `position`.
pub fn queue_index_at(position: Position, area: CellArea, scroll: usize, len: usize) -> (r: Option<usize>)
    requires
        hit_fits(list_rows(area, 1), position, scroll as int),
    ensures
        r == row_hit(list_rows(area, 1), position, scroll as int, len as int),
{
    row_at(area, position, scroll, len, 1)
}

/// The queue index of the row clicked at `position` while the queue shows
/// only the entries at `indices`.
pub fn queue_index_at_filtered(position: Position, area: CellArea, scroll: usize, indices: &[usize]) -> (r: Option<usize>)
    requires
        hit_fits(list_rows(area, 1), position, scroll as int),
    ensures
        row_hit(list_rows(area, 1), position, scroll as int, indices@.len() as int) matches Some(i) ==> r == Some(indices@[i as int]),
        row_hit(list_rows(area, 1), position, scroll as int, indices@.len() as int) is None ==> r is None,
{
    match row_at(area, position, scroll, indices.len(), 1) {
        Some(pos) => Some(indices[pos]),
        None => None,
    }
}

/// `v` brought into `lo..=hi`.
pub open spec fn clamp_u16(v: u16, lo: u16, hi: u16) -> u16 {
    if v < lo { lo } else if v > hi { hi } else { v }
}

/// The width of the context menu inside `bounds`.
pub open spec fn menu_width(bounds: CellArea) -> u16 {
    min_u16(24, bounds.width)
}

/// The height of the context menu of `item_count` items inside `bounds`: the
/// items and the border.
pub open spec fn menu_height(bounds: CellArea, item_count: usize) -> u16 {
    min_u16(((item_count as u16) + 2) as u16, bounds.height)
}

/// Whether the menu of `item_count` items can be placed in `bounds`: the
/// count fits the height computation and the area left of and above the
/// menu's furthest position does not start before `bounds`.
pub open spec fn menu_fits(bounds: CellArea, item_count: usize) -> bool {
    &&& (item_count as u16) + 2 <= u16::MAX
    &&& (bounds.width > 0 && bounds.height > 0) ==> {
        &&& bounds.x <= right_edge(bounds).saturating_sub(menu_width(bounds))
        &&& bounds.y <= bottom_edge(bounds).saturating_sub(menu_height(bounds, item_count))
    }
}

/// Where the context menu of `item_count` items opened at `origin` is drawn
/// inside `bounds`: 24 columns wide and two rows taller than its items, cut
/// to `bounds`, moved back inside `bounds`; nothing when `bounds` is empty.
pub open spec fn menu_rect(bounds: CellArea, origin: Position, item_count: usize) -> CellArea {
    if bounds.width == 0 || bounds.height == 0 {
        CellArea { x: 0, y: 0, width: 0, height: 0 }
    } else {
        let width = menu_width(bounds);
        let height = menu_height(bounds, item_count);
        rect_at(
            clamp_u16(origin.x, bounds.x, right_edge(bounds).saturating_sub(width)),
            clamp_u16(origin.y, bounds.y, bottom_edge(bounds).saturating_sub(height)),
            width,
            height,
        )
    }
}

fn clamp(v: u16, lo: u16, hi: u16) -> (r: u16)
    requires
        lo <= hi,
    ensures
        r == clamp_u16(v, lo, hi),
{
    if v < lo {
        lo
    } else if v > hi {
        hi
    } else {
        v
    }
}

/// The area of the context menu (see [`menu_rect`]).
pub fn menu_area(bounds: CellArea, origin: Position, item_count: usize) -> (r: CellArea)
    requires
        menu_fits(bounds, item_count),
    ensures
        r == menu_rect(bounds, origin, item_count),
{
    if bounds.width == 0 || bounds.height == 0 {
        return CellArea { x: 0, y: 0, width: 0, height: 0 };
    }
    let width = if 24 <= bounds.width { 24 } else { bounds.width };
    let rows = (item_count as u16) + 2;
    let height = if rows <= bounds.height { rows } else { bounds.height };
    let max_x = bounds.right().saturating_sub(width);
    let max_y = bounds.bottom().saturating_sub(height);
    CellArea::new(clamp(origin.x, bounds.x, max_x), clamp(origin.y, bounds.y, max_y), width, height)
}

/// The item of a menu drawn in `area` that the cell `p` hits: the rows
/// inside the border, one per item.
pub open spec fn menu_item_hit(area: CellArea, p: Position, item_count: int) -> Option<usize> {
    row_hit(inside_border(area), p, 0, item_count)
}

/// The menu item (of `item_count`) that the cell `position` hits in the menu
/// drawn in `area`; none on the border or below the last item.
pub fn item_at(area: CellArea, position: Position, item_count: usize) -> (r: Option<usize>)
    ensures
        r == menu_item_hit(area, position, item_count as int),
{
    hit_row(area.inner(), position, 0, item_count)
}

} // verus!
