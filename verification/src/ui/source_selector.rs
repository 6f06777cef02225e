//! The source selector: a row of source tabs that also opens as a popup
//! list, moved through with keys, the wheel-free mouse and cycling.
use vstd::prelude::*;
use crate::keybinding::keys::{KeyCode, KeyEvent, KeyModifiers, no_mods};
use crate::source::SourceId;
use crate::terminal::CellArea;
use crate::ui::context_menu::Position;
use crate::ui::hit_test::{MouseButton, MouseEvent, MouseEventKind, covers, rect_at};

verus! {

/// What an entry of the selector picks.
#[derive(Debug, Clone, Copy, PartialEq, Eq, Structural)]
pub enum SourceSelectorKey {
    All,
    Custom,
    Favorites,
    Source(SourceId),
}

/// A list of labelled entries with one selected, shown as tabs or as an
/// open popup.
#[derive(Debug, Clone)]
pub struct SourceSelector {
    items: Vec<(SourceSelectorKey, String)>,
    selected: usize,
    scroll: usize,
    open: bool,
}

/// The selector as values.
pub struct SelectorView {
    pub keys: Seq<SourceSelectorKey>,
    pub labels: Seq<Seq<char>>,
    pub selected: usize,
    pub scroll: usize,
    pub open: bool,
}

impl View for SourceSelector {
    type V = SelectorView;

    closed spec fn view(&self) -> SelectorView {
        SelectorView {
            keys: self.items@.map_values(|e: (SourceSelectorKey, String)| e.0),
            labels: self.items@.map_values(|e: (SourceSelectorKey, String)| e.1@),
            selected: self.selected,
            scroll: self.scroll,
            open: self.open,
        }
    }
}

/// The last position of a list of `len` entries (0 when empty).
pub open spec fn last_entry(len: int) -> usize {
    if len > 0 { (len - 1) as usize } else { 0 }
}

/// The key of the selected entry, if there is one.
pub open spec fn current_key(v: SelectorView) -> Option<SourceSelectorKey> {
    if v.selected < v.keys.len() { Some(v.keys[v.selected as int]) } else { None }
}

/// The selector with entry `index` selected, when it exists.
pub open spec fn selecting(v: SelectorView, index: int) -> SelectorView {
    if 0 <= index < v.keys.len() { SelectorView { selected: index as usize, ..v } } else { v }
}

/// The entry `delta` steps from the selected one, going round the list.
pub open spec fn cycled(v: SelectorView, delta: int) -> SelectorView {
    if v.keys.len() == 0 {
        v
    } else {
        SelectorView { selected: ((v.selected + delta) % (v.keys.len() as int)) as usize, ..v }
    }
}

/// The selector after a key, and the key of the entry it picked. Open: Esc
/// or `q` close it, the arrows, `j`/`k`, Home/`g` and End/`G` move through
/// the entries, Enter closes it and picks the selected entry. Closed: `p`
/// opens it, Left/`[` and Right/`]` pick the entry before or after the
/// selected one, going round.
pub open spec fn selector_key(v: SelectorView, key: KeyEvent) -> (SelectorView, Option<SourceSelectorKey>) {
    let plain = key.modifiers == no_mods();
    let c = key.code;
    let n = v.keys.len() as int;
    let s = v.selected as int;
    if v.open {
        if plain && (c == KeyCode::Esc || c == KeyCode::Char('q')) {
            (SelectorView { open: false, ..v }, None)
        } else if plain && (c == KeyCode::Up || c == KeyCode::Char('k')) {
            (selecting(v, if s >= 1 { s - 1 } else { 0 }), None)
        } else if plain && (c == KeyCode::Down || c == KeyCode::Char('j')) {
            (selecting(v, if s + 1 <= last_entry(n) { s + 1 } else { last_entry(n) as int }), None)
        } else if plain && (c == KeyCode::Home || c == KeyCode::Char('g')) {
            (selecting(v, 0), None)
        } else if plain && (c == KeyCode::End || c == KeyCode::Char('G')) {
            (selecting(v, last_entry(n) as int), None)
        } else if plain && c == KeyCode::Enter {
            (SelectorView { open: false, ..v }, current_key(v))
        } else {
            (v, None)
        }
    } else if plain && (c == KeyCode::Char('p') || c == KeyCode::Char('P')) {
        (SelectorView { open: true, ..v }, None)
    } else if plain && (c == KeyCode::Left || c == KeyCode::Char('[')) {
        (cycled(v, -1), current_key(cycled(v, -1)))
    } else if plain && (c == KeyCode::Right || c == KeyCode::Char(']')) {
        (cycled(v, 1), current_key(cycled(v, 1)))
    } else {
        (v, None)
    }
}

/// The width of the popup on `area`: four columns narrower, kept between
/// 30 and 48.
pub open spec fn popup_width(area: CellArea) -> u16 {
    let w = area.width.saturating_sub(4);
    if w < 30 { 30 } else if w > 48 { 48 } else { w }
}

/// The rows of entries the popup on `area` shows: all of them, at most
/// eight fewer than the area's rows, at least one.
pub open spec fn popup_rows(area: CellArea, len: int) -> int {
    let room = area.height.saturating_sub(8) as int;
    let rows = if len <= room { len } else { room };
    if rows >= 1 { rows } else { 1 }
}

/// Whether the popup's centred position fits in `u16`.
pub open spec fn popup_fits(area: CellArea, len: int) -> bool {
    &&& area.x + area.width.saturating_sub(popup_width(area)) / 2 <= u16::MAX
    &&& area.y + area.height.saturating_sub((popup_rows(area, len) + 5) as u16) / 2 <= u16::MAX
}

/// The popup of `len` entries on `area`: centred, its entries plus five
/// rows high (see [`popup_width`] and [`popup_rows`]).
pub open spec fn popup_area(area: CellArea, len: int) -> CellArea {
    let width = popup_width(area);
    let height = (popup_rows(area, len) + 5) as u16;
    rect_at(
        (area.x + area.width.saturating_sub(width) / 2) as u16,
        (area.y + area.height.saturating_sub(height) / 2) as u16,
        width,
        height,
    )
}

/// The rows of entries inside a popup.
pub open spec fn popup_entries(popup: CellArea) -> CellArea {
    rect_at((popup.x + 1) as u16, (popup.y + 1) as u16, popup.width.saturating_sub(2), popup.height.saturating_sub(3))
}

/// The selector after a mouse event, the popup being on `area`, and the key
/// of the entry picked: only a left click on an open selector does
/// anything; outside the popup it closes it, on an entry it selects the
/// entry, closes the popup and picks it.
pub open spec fn selector_mouse(v: SelectorView, event: MouseEvent, area: CellArea) -> (SelectorView, Option<SourceSelectorKey>) {
    let p = Position { x: event.column, y: event.row };
    let popup = popup_area(area, v.keys.len() as int);
    let entries = popup_entries(popup);
    if !v.open || event.kind != MouseEventKind::Down(MouseButton::Left) {
        (v, None)
    } else if !covers(popup, p) {
        (SelectorView { open: false, ..v }, None)
    } else if covers(entries, p) && p.y - entries.y < v.keys.len() {
        let w = SelectorView { selected: (p.y - entries.y) as usize, open: false, ..v };
        (w, current_key(w))
    } else {
        (v, None)
    }
}

impl SourceSelector {
    /// The selection is an entry, or 0 when there is none, and the entries
    /// can be counted in `isize`.
    pub closed spec fn wf(&self) -> bool {
        &&& self.selected <= last_entry(self.items@.len() as int)
        &&& self.items@.len() <= isize::MAX
    }

    /// A closed selector of `items` with entry `selected` selected (the last
    /// one when it is past the end).
    pub fn new(items: Vec<(SourceSelectorKey, String)>, selected: usize) -> (r: SourceSelector)
        requires
            items@.len() <= isize::MAX,
        ensures
            r.wf(),
            r@.keys == items@.map_values(|e: (SourceSelectorKey, String)| e.0),
            r@.labels == items@.map_values(|e: (SourceSelectorKey, String)| e.1@),
            r@.selected == if selected <= last_entry(items@.len() as int) { selected } else { last_entry(items@.len() as int) },
            r@.scroll == 0,
            !r@.open,
    {
        let last = items.len().saturating_sub(1);
        SourceSelector { selected: if selected <= last { selected } else { last }, scroll: 0, items, open: false }
    }

    /// The key of the selected entry.
    pub fn current(&self) -> (r: Option<SourceSelectorKey>)
        ensures
            r == current_key(self@),
    {
        if self.selected < self.items.len() {
            Some(self.items[self.selected].0)
        } else {
            None
        }
    }

    /// The selected position.
    pub fn selected_index(&self) -> (r: usize)
        ensures
            r == self@.selected,
    {
        self.selected
    }

    /// The first entry shown by the popup.
    pub fn scroll(&self) -> (r: usize)
        ensures
            r == self@.scroll,
    {
        self.scroll
    }

    /// Shows the popup from entry `scroll`.
    pub fn set_scroll(&mut self, scroll: usize)
        requires
            old(self).wf(),
        ensures
            final(self).wf(),
            final(self)@ == (SelectorView { scroll, ..old(self)@ }),
    {
        self.scroll = scroll;
    }

    /// The number of entries.
    pub fn len(&self) -> (r: usize)
        ensures
            r == self@.keys.len(),
    {
        self.items.len()
    }

    /// The label of entry `i`.
    pub fn label(&self, i: usize) -> (r: &str)
        requires
            i < self@.keys.len(),
        ensures
            r@ == self@.labels[i as int],
    {
        self.items[i].1.as_str()
    }

    /// Whether the popup is open.
    pub fn is_open(&self) -> (r: bool)
        ensures
            r == self@.open,
    {
        self.open
    }

    /// Closes the popup.
    pub fn close(&mut self)
        requires
            old(self).wf(),
        ensures
            final(self).wf(),
            final(self)@ == (SelectorView { open: false, ..old(self)@ }),
    {
        self.open = false;
    }

    /// Opens the popup.
    pub fn open(&mut self)
        requires
            old(self).wf(),
        ensures
            final(self).wf(),
            final(self)@ == (SelectorView { open: true, ..old(self)@ }),
    {
        self.open = true;
    }

    /// Selects entry `index` and gives its key; nothing when there is no
    /// such entry.
    pub fn select(&mut self, index: usize) -> (r: Option<SourceSelectorKey>)
        requires
            old(self).wf(),
        ensures
            final(self).wf(),
            final(self)@ == selecting(old(self)@, index as int),
            r == if index < old(self)@.keys.len() { Some(old(self)@.keys[index as int]) } else { None },
    {
        if index >= self.items.len() {
            return None;
        }
        self.selected = index;
        Some(self.items[index].0)
    }

    /// Selects the entry `delta` steps away, going round, and gives its key;
    /// nothing when there are no entries.
    pub fn cycle(&mut self, delta: isize) -> (r: Option<SourceSelectorKey>)
        requires
            old(self).wf(),
            isize::MIN <= old(self)@.selected + delta <= isize::MAX,
        ensures
            final(self).wf(),
            final(self)@ == cycled(old(self)@, delta as int),
            r == current_key(final(self)@),
    {
        if self.items.len() == 0 {
            return None;
        }
        let n = self.items.len() as isize;
        let v = self.selected as isize + delta;
        match v.checked_rem_euclid(n) {
            Some(k) => {
                self.selected = k as usize;
            },
            None => {},
        }
        self.current()
    }

    /// Handles a key (see [`selector_key`]).
    pub fn handle_key(&mut self, key: KeyEvent) -> (r: Option<SourceSelectorKey>)
        requires
            old(self).wf(),
        ensures
            final(self).wf(),
            (final(self)@, r) == selector_key(old(self)@, key),
    {
        let plain = key.modifiers == KeyModifiers::none();
        let c = key.code;
        if self.open {
            if plain && (c == KeyCode::Esc || c == KeyCode::Char('q')) {
                self.close();
            } else if plain && (c == KeyCode::Up || c == KeyCode::Char('k')) {
                let s = self.selected.saturating_sub(1);
                self.select(s);
            } else if plain && (c == KeyCode::Down || c == KeyCode::Char('j')) {
                let last = self.items.len().saturating_sub(1);
                let s = if self.selected < last { self.selected + 1 } else { last };
                self.select(s);
            } else if plain && (c == KeyCode::Home || c == KeyCode::Char('g')) {
                self.select(0);
            } else if plain && (c == KeyCode::End || c == KeyCode::Char('G')) {
                let last = self.items.len().saturating_sub(1);
                self.select(last);
            } else if plain && c == KeyCode::Enter {
                self.close();
                return self.current();
            }
            return None;
        }
        if plain && (c == KeyCode::Char('p') || c == KeyCode::Char('P')) {
            self.open();
            None
        } else if plain && (c == KeyCode::Left || c == KeyCode::Char('[')) {
            self.cycle(-1)
        } else if plain && (c == KeyCode::Right || c == KeyCode::Char(']')) {
            self.cycle(1)
        } else {
            None
        }
    }

    /// Where the popup is drawn on `area` (see [`popup_area`]).
    pub fn popup_rect(&self, area: CellArea) -> (r: CellArea)
        requires
            popup_fits(area, self@.keys.len() as int),
        ensures
            r == popup_area(area, self@.keys.len() as int),
    {
        let w = area.width.saturating_sub(4);
        let width: u16 = if w < 30 { 30 } else if w > 48 { 48 } else { w };
        let room = area.height.saturating_sub(8) as usize;
        let fit = if self.items.len() <= room { self.items.len() } else { room };
        let rows = if fit >= 1 { fit } else { 1 };
        let height = rows as u16 + 5;
        CellArea::new(
            area.x + area.width.saturating_sub(width) / 2,
            area.y + area.height.saturating_sub(height) / 2,
            width,
            height,
        )
    }

    /// Handles a mouse event on the popup drawn on `area` (see
    /// [`selector_mouse`]).
    pub fn handle_mouse(&mut self, event: MouseEvent, area: CellArea) -> (r: Option<SourceSelectorKey>)
        requires
            old(self).wf(),
            popup_fits(area, old(self)@.keys.len() as int),
        ensures
            final(self).wf(),
            (final(self)@, r) == selector_mouse(old(self)@, event, area),
    {
        if !self.open || event.kind != MouseEventKind::Down(MouseButton::Left) {
            return None;
        }
        let popup = self.popup_rect(area);
        let p = Position { x: event.column, y: event.row };
        if !popup.contains(p) {
            self.close();
            return None;
        }
        let inner = CellArea::new(popup.x + 1, popup.y + 1, popup.width.saturating_sub(2), popup.height.saturating_sub(3));
        if inner.contains(p) {
            let index = (p.y - inner.y) as usize;
            if index < self.items.len() {
                self.selected = index;
                self.close();
                return self.current();
            }
        }
        None
    }
}

} // verus!
