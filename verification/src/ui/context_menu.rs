//! The context menu of a song: its items and how keys move through them.
use vstd::prelude::*;
use crate::keybinding::config::Action;
use crate::keybinding::keys::{KeyCode, KeyEvent, no_mods, normalized};
use crate::keybinding::resolver::{KeybindingResolver, page_action};
use crate::song::SongInfo;
use crate::text::to_owned_string;
use crate::terminal::CellArea;
use crate::ui::hit_test::{MouseButton, MouseEvent, MouseEventKind, item_at, menu_area, menu_fits, menu_item_hit, menu_rect};

verus! {

/// Where the menu was opened.
#[derive(Debug, Clone, Copy, PartialEq, Eq, Structural)]
pub enum SongMenuKind {
    Queue,
    Standard,
    Local,
}

/// What a menu item does.
#[derive(Debug, Clone, Copy, PartialEq, Eq, Structural)]
pub enum SongMenuAction {
    Play,
    PlayNext,
    AddToQueue,
    ToggleFavorite,
    RemoveFromQueue,
    DeleteLocal,
}

/// What handling an input did to the menu.
#[derive(Debug, Clone, Copy, PartialEq, Eq, Structural)]
pub enum MenuOutcome {
    Unchanged,
    Close,
    Action(SongMenuAction),
}

/// One item of the menu.
#[derive(Debug, Clone)]
pub struct MenuItem {
    pub label: String,
    pub action: SongMenuAction,
}

/// A cell position on the screen.
#[derive(Debug, Clone, Copy, PartialEq, Eq, Structural)]
pub struct Position {
    pub x: u16,
    pub y: u16,
}

impl Position {
    /// The cell in column `x`, row `y`.
    pub fn new(x: u16, y: u16) -> (r: Position)
        ensures
            r == (Position { x, y }),
    {
        Position { x, y }
    }
}

/// The context menu of the song at `index` of `songs`.
#[derive(Debug)]
pub struct SongContextMenu {
    origin: Position,
    songs: Vec<SongInfo>,
    index: usize,
    selected: usize,
    items: Vec<MenuItem>,
}

/// The actions of the menu for a song of a list of `kind`: play; unless in
/// the queue, play next and add to the queue; toggle the favourite; remove
/// from the queue (queue) or delete the file (local songs).
pub open spec fn menu_actions(kind: SongMenuKind) -> Seq<SongMenuAction> {
    let head = if kind == SongMenuKind::Queue {
        seq![SongMenuAction::Play]
    } else {
        seq![SongMenuAction::Play, SongMenuAction::PlayNext, SongMenuAction::AddToQueue]
    };
    let with_fav = head.push(SongMenuAction::ToggleFavorite);
    match kind {
        SongMenuKind::Queue => with_fav.push(SongMenuAction::RemoveFromQueue),
        SongMenuKind::Local => with_fav.push(SongMenuAction::DeleteLocal),
        SongMenuKind::Standard => with_fav,
    }
}

/// The label of an item: the favourite item names what it will do.
pub open spec fn action_label(a: SongMenuAction, is_favorite: bool) -> Seq<char> {
    match a {
        SongMenuAction::Play => "播放"@,
        SongMenuAction::PlayNext => "设为下一首"@,
        SongMenuAction::AddToQueue => "加入队尾"@,
        SongMenuAction::ToggleFavorite => if is_favorite { "取消收藏"@ } else { "收藏歌曲"@ },
        SongMenuAction::RemoveFromQueue => "从队列移除"@,
        SongMenuAction::DeleteLocal => "删除本地文件"@,
    }
}

/// The labels of the menu for a song of a list of `kind`.
pub open spec fn menu_labels(kind: SongMenuKind, is_favorite: bool) -> Seq<Seq<char>> {
    menu_actions(kind).map_values(|a: SongMenuAction| action_label(a, is_favorite))
}

/// The labels of the items.
pub open spec fn item_labels(items: Seq<MenuItem>) -> Seq<Seq<char>> {
    items.map_values(|i: MenuItem| i.label@)
}

/// The actions of the items.
pub open spec fn item_actions(items: Seq<MenuItem>) -> Seq<SongMenuAction> {
    items.map_values(|i: MenuItem| i.action)
}

/// What activating the item at `selected` gives: its action, or closing
/// when there is no such item.
pub open spec fn activation(actions: Seq<SongMenuAction>, selected: int) -> MenuOutcome {
    if 0 <= selected < actions.len() {
        MenuOutcome::Action(actions[selected])
    } else {
        MenuOutcome::Close
    }
}

impl SongContextMenu {
    /// The menu's invariant: the song exists and an item is selected.
    pub closed spec fn wf(&self) -> bool {
        &&& self.index < self.songs@.len()
        &&& self.selected < self.items@.len()
    }

    /// The actions of the menu's items, in order.
    pub closed spec fn actions(&self) -> Seq<SongMenuAction> {
        item_actions(self.items@)
    }

    /// The labels of the menu's items, in order.
    pub closed spec fn labels(&self) -> Seq<Seq<char>> {
        item_labels(self.items@)
    }

    /// Where the menu was opened.
    pub closed spec fn opened_at(&self) -> Position {
        self.origin
    }

    /// The selected item.
    pub closed spec fn selection(&self) -> int {
        self.selected as int
    }

    /// The songs of the list the menu belongs to.
    pub closed spec fn song_list(&self) -> Seq<SongInfo> {
        self.songs@
    }

    /// The position of the song in the list.
    pub closed spec fn song_index(&self) -> int {
        self.index as int
    }

    /// The menu for the song at `index` of `songs`, opened at `origin`, with
    /// the first item selected; none when there is no such song.
    pub fn new(origin: Position, songs: Vec<SongInfo>, index: usize, kind: SongMenuKind, is_favorite: bool) -> (r: Option<SongContextMenu>)
        ensures
            r is Some <==> index < songs@.len(),
            r matches Some(m) ==> {
                &&& m.wf()
                &&& m.actions() == menu_actions(kind)
                &&& m.labels() == menu_labels(kind, is_favorite)
                &&& m.opened_at() == origin
                &&& m.selection() == 0
                &&& m.song_list() == songs@
                &&& m.song_index() == index
            },
    {
        if index >= songs.len() {
            return None;
        }
        let mut items: Vec<MenuItem> = Vec::new();
        items.push(MenuItem { label: to_owned_string("播放"), action: SongMenuAction::Play });
        if kind != SongMenuKind::Queue {
            items.push(MenuItem { label: to_owned_string("设为下一首"), action: SongMenuAction::PlayNext });
            items.push(MenuItem { label: to_owned_string("加入队尾"), action: SongMenuAction::AddToQueue });
        }
        let label = if is_favorite {
            to_owned_string("取消收藏")
        } else {
            to_owned_string("收藏歌曲")
        };
        items.push(MenuItem { label, action: SongMenuAction::ToggleFavorite });
        match kind {
            SongMenuKind::Queue => items.push(MenuItem { label: to_owned_string("从队列移除"), action: SongMenuAction::RemoveFromQueue }),
            SongMenuKind::Local => items.push(MenuItem { label: to_owned_string("删除本地文件"), action: SongMenuAction::DeleteLocal }),
            SongMenuKind::Standard => {},
        }
        assert(item_actions(items@) =~= menu_actions(kind));
        proof {
            reveal_strlit("播放");
            reveal_strlit("设为下一首");
            reveal_strlit("加入队尾");
            reveal_strlit("取消收藏");
            reveal_strlit("收藏歌曲");
            reveal_strlit("从队列移除");
            reveal_strlit("删除本地文件");
        }
        assert(item_labels(items@) =~= menu_labels(kind, is_favorite));
        Some(SongContextMenu { origin, songs, index, selected: 0, items })
    }

    /// The songs of the list.
    pub fn songs(&self) -> (r: &[SongInfo])
        ensures
            r@ == self.song_list(),
    {
        self.songs.as_slice()
    }

    /// The position of the song in the list.
    pub fn index(&self) -> (r: usize)
        ensures
            r == self.song_index(),
    {
        self.index
    }

    /// The song of the menu.
    pub fn song(&self) -> (r: &SongInfo)
        requires
            self.wf(),
        ensures
            *r == self.song_list()[self.song_index()],
    {
        &self.songs[self.index]
    }

    /// The selected item.
    pub fn selected(&self) -> (r: usize)
        ensures
            r == self.selection(),
    {
        self.selected
    }

    /// Number of items.
    pub fn item_count(&self) -> (r: usize)
        ensures
            r == self.actions().len(),
    {
        self.items.len()
    }

    /// The label of item `i`.
    pub fn item_label(&self, i: usize) -> (r: &str)
        requires
            i < self.actions().len(),
        ensures
            r@ == self.labels()[i as int],
    {
        self.items[i].label.as_str()
    }

    /// The position the menu was opened at.
    pub fn origin(&self) -> (r: Position)
        ensures
            r == self.opened_at(),
    {
        self.origin
    }

    /// Selects item `i` (one of the items).
    pub fn select(&mut self, i: usize)
        requires
            old(self).wf(),
            i < old(self).actions().len(),
        ensures
            final(self).wf(),
            final(self).selection() == i,
            final(self).actions() == old(self).actions(),
            final(self).labels() == old(self).labels(),
            final(self).opened_at() == old(self).opened_at(),
            final(self).song_list() == old(self).song_list(),
            final(self).song_index() == old(self).song_index(),
    {
        self.selected = i;
    }

    /// Selects the item above, the last one from the first.
    pub fn select_previous(&mut self)
        requires
            old(self).wf(),
        ensures
            final(self).wf(),
            final(self).selection() == if old(self).selection() == 0 {
                old(self).actions().len() - 1
            } else {
                old(self).selection() - 1
            },
            final(self).actions() == old(self).actions(),
            final(self).labels() == old(self).labels(),
            final(self).opened_at() == old(self).opened_at(),
            final(self).song_list() == old(self).song_list(),
            final(self).song_index() == old(self).song_index(),
    {
        if self.items.len() == 0 {
            return;
        }
        self.selected = if self.selected == 0 {
            self.items.len() - 1
        } else {
            self.selected - 1
        };
    }

    /// Selects the item below, the first one from the last.
    pub fn select_next(&mut self)
        requires
            old(self).wf(),
        ensures
            final(self).wf(),
            final(self).selection() == (old(self).selection() + 1) % (old(self).actions().len() as int),
            final(self).actions() == old(self).actions(),
            final(self).labels() == old(self).labels(),
            final(self).opened_at() == old(self).opened_at(),
            final(self).song_list() == old(self).song_list(),
            final(self).song_index() == old(self).song_index(),
    {
        if self.items.len() > 0 {
            self.selected = (self.selected + 1) % self.items.len();
        }
    }

    /// What activating the selected item gives (see [`activation`]).
    pub fn activate(&self) -> (r: MenuOutcome)
        ensures
            r == activation(self.actions(), self.selection()),
    {
        if self.selected < self.items.len() {
            MenuOutcome::Action(self.items[self.selected].action)
        } else {
            MenuOutcome::Close
        }
    }

    /// Handles a key: Esc or `q` close the menu, Enter activates the
    /// selected item; otherwise the binding of `page_scope` decides (moving
    /// up or down, activating, going back closes), else the arrow keys move.
    /// Moving wraps around.
    pub fn handle_key(&mut self, key: &KeyEvent, resolver: &KeybindingResolver, page_scope: &str) -> (r: MenuOutcome)
        requires
            old(self).wf(),
        ensures
            final(self).wf(),
            final(self).actions() == old(self).actions(),
            final(self).labels() == old(self).labels(),
            final(self).opened_at() == old(self).opened_at(),
            final(self).song_list() == old(self).song_list(),
            final(self).song_index() == old(self).song_index(),
            ({
                let plain = key.modifiers == no_mods();
                let bound = page_action(resolver.page_scopes(), page_scope@, normalized(key.modifiers, key.code));
                let n = old(self).actions().len() as int;
                let s = old(self).selection();
                let up = if s == 0 {
                    n - 1
                } else {
                    s - 1
                };
                let down = (s + 1) % n;
                if plain && (key.code == KeyCode::Esc || key.code == KeyCode::Char('q')) {
                    r == MenuOutcome::Close && final(self).selection() == s
                } else if plain && key.code == KeyCode::Enter {
                    r == activation(old(self).actions(), s) && final(self).selection() == s
                } else if bound == Some(Action::ListSelectUp) {
                    r == MenuOutcome::Unchanged && final(self).selection() == up
                } else if bound == Some(Action::ListSelectDown) {
                    r == MenuOutcome::Unchanged && final(self).selection() == down
                } else if bound == Some(Action::ListActivate) {
                    r == activation(old(self).actions(), s) && final(self).selection() == s
                } else if bound == Some(Action::ListGoBack) {
                    r == MenuOutcome::Close && final(self).selection() == s
                } else if plain && key.code == KeyCode::Up {
                    r == MenuOutcome::Unchanged && final(self).selection() == up
                } else if plain && key.code == KeyCode::Down {
                    r == MenuOutcome::Unchanged && final(self).selection() == down
                } else {
                    r == MenuOutcome::Unchanged && final(self).selection() == s
                }
            }),
    {
        let plain = key.modifiers.is_empty();
        if plain && (key.code == KeyCode::Esc || key.code == KeyCode::Char('q')) {
            return MenuOutcome::Close;
        }
        if plain && key.code == KeyCode::Enter {
            return self.activate();
        }
        match resolver.resolve_page(page_scope, key) {
            Some(Action::ListSelectUp) => self.select_previous(),
            Some(Action::ListSelectDown) => self.select_next(),
            Some(Action::ListActivate) => {
                return self.activate();
            },
            Some(Action::ListGoBack) => {
                return MenuOutcome::Close;
            },
            _ => {
                if plain && key.code == KeyCode::Up {
                    self.select_previous();
                } else if plain && key.code == KeyCode::Down {
                    self.select_next();
                }
            },
        }
        MenuOutcome::Unchanged
    }

    /// Where the menu is drawn inside `bounds` (see [`menu_rect`]).
    pub fn area(&self, bounds: CellArea) -> (r: CellArea)
        requires
            menu_fits(bounds, self.actions().len() as usize),
        ensures
            r == menu_rect(bounds, self.opened_at(), self.actions().len() as usize),
    {
        menu_area(bounds, self.origin, self.items.len())
    }

    /// Handles a mouse event, the menu being drawn inside `bounds`: the
    /// wheel moves the selection (wrapping), moving over an item selects it,
    /// a left click on an item selects and activates it and anywhere else
    /// closes the menu, a right click closes it.
    pub fn handle_mouse(&mut self, event: MouseEvent, bounds: CellArea) -> (r: MenuOutcome)
        requires
            old(self).wf(),
            menu_fits(bounds, old(self).actions().len() as usize),
        ensures
            final(self).wf(),
            final(self).actions() == old(self).actions(),
            final(self).labels() == old(self).labels(),
            final(self).opened_at() == old(self).opened_at(),
            final(self).song_list() == old(self).song_list(),
            final(self).song_index() == old(self).song_index(),
            ({
                let n = old(self).actions().len() as int;
                let s = old(self).selection();
                let area = menu_rect(bounds, old(self).opened_at(), n as usize);
                let hit = menu_item_hit(area, Position { x: event.column, y: event.row }, n);
                match event.kind {
                    MouseEventKind::ScrollUp => r == MenuOutcome::Unchanged
                        && final(self).selection() == if s == 0 { n - 1 } else { s - 1 },
                    MouseEventKind::ScrollDown => r == MenuOutcome::Unchanged
                        && final(self).selection() == (s + 1) % n,
                    MouseEventKind::Moved => r == MenuOutcome::Unchanged
                        && final(self).selection() == match hit {
                            Some(i) => i as int,
                            None => s,
                        },
                    MouseEventKind::Down(MouseButton::Left) => match hit {
                        Some(i) => r == MenuOutcome::Action(old(self).actions()[i as int])
                            && final(self).selection() == i,
                        None => r == MenuOutcome::Close && final(self).selection() == s,
                    },
                    MouseEventKind::Down(MouseButton::Right) => r == MenuOutcome::Close
                        && final(self).selection() == s,
                    _ => r == MenuOutcome::Unchanged && final(self).selection() == s,
                }
            }),
    {
        let area = self.area(bounds);
        let position = Position { x: event.column, y: event.row };
        match event.kind {
            MouseEventKind::ScrollUp => self.select_previous(),
            MouseEventKind::ScrollDown => self.select_next(),
            MouseEventKind::Moved => {
                if let Some(index) = item_at(area, position, self.items.len()) {
                    self.selected = index;
                }
            },
            MouseEventKind::Down(MouseButton::Left) => {
                match item_at(area, position, self.items.len()) {
                    Some(index) => {
                        self.selected = index;
                        return self.activate();
                    },
                    None => {
                        return MenuOutcome::Close;
                    },
                }
            },
            MouseEventKind::Down(MouseButton::Right) => {
                return MenuOutcome::Close;
            },
            _ => {},
        }
        MenuOutcome::Unchanged
    }
}

} // verus!
