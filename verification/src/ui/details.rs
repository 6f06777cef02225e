//! The artist and album details page: what it holds, and how keys and
//! clicks move through its album and song lists.
use vstd::prelude::*;
use ratatui::layout::{Constraint, Direction, Layout, Rect};
use crate::events::{InsertPosition, NotificationLevel};
use crate::keybinding::config::Action;
use crate::keybinding::keys::{KeyCode, KeyEvent, KeyModifiers, no_mods, normalized};
use crate::keybinding::resolver::{KeybindingResolver, page_action};
use crate::library::collection::{Library, keep_songs};
use crate::library::identity::equivalent;
use crate::song::{SongInfo, SongView, songs_view};
use crate::source::SourceId;
use crate::terminal::CellArea;
use crate::text::to_owned_string;
use crate::ui::context_menu::Position;
use crate::ui::hit_test::{MouseButton, MouseEvent, MouseEventKind, covers, row_hit};

verus! {

/// An artist whose details are shown.
#[derive(Debug, Clone)]
pub struct Artist {
    pub id: String,
    pub name: String,
    pub source: SourceId,
    pub cover_url: Option<String>,
}

/// An album whose details are shown, or one of an artist's albums.
#[derive(Debug, Clone)]
pub struct Album {
    pub id: String,
    pub name: String,
    pub source: SourceId,
    pub cover_url: Option<String>,
    pub artist: String,
}

/// What the page shows the details of.
#[derive(Debug, Clone)]
pub enum DetailsTarget {
    Artist(Artist),
    Album(Album),
}

/// Which list of the page keys move through.
#[derive(Debug, Clone, Copy, PartialEq, Eq, Structural)]
pub enum DetailsFocus {
    Albums,
    Songs,
}

/// The details page of an artist (albums and songs) or an album (songs).
#[derive(Debug)]
pub struct DetailsPage {
    target: DetailsTarget,
    albums: Vec<Album>,
    songs: Vec<SongInfo>,
    focus: DetailsFocus,
    selected_album: usize,
    selected_song: usize,
    album_scroll: usize,
    song_scroll: usize,
    loading: bool,
    error: Option<String>,
}

/// The page as values.
pub struct DetailsView {
    pub target: DetailsTarget,
    pub albums: Seq<Album>,
    pub songs: Seq<SongInfo>,
    pub focus: DetailsFocus,
    pub selected_album: usize,
    pub selected_song: usize,
    pub album_scroll: usize,
    pub song_scroll: usize,
    pub loading: bool,
    pub error: Option<Seq<char>>,
}

impl View for DetailsPage {
    type V = DetailsView;

    closed spec fn view(&self) -> DetailsView {
        DetailsView {
            target: self.target,
            albums: self.albums@,
            songs: self.songs@,
            focus: self.focus,
            selected_album: self.selected_album,
            selected_song: self.selected_song,
            album_scroll: self.album_scroll,
            song_scroll: self.song_scroll,
            loading: self.loading,
            error: match self.error {
                Some(e) => Some(e@),
                None => None,
            },
        }
    }
}

/// What the page asks of the application after an input.
#[derive(Debug, Clone, PartialEq, Eq)]
pub enum DetailsCommand {
    Nothing,
    /// Leave the page.
    GoBack,
    /// Play the page's songs from this position.
    Play { index: usize },
    /// Queue the page's song at this position.
    AddToQueue { index: usize, position: InsertPosition },
    /// Tell the user.
    Notify { level: NotificationLevel, message: String },
}

/// What an input does besides changing the page's state.
pub enum DetailsEffect {
    Nothing,
    GoBack,
    Play(usize),
    AddToQueue(usize, InsertPosition),
    Notify(NotificationLevel, Seq<char>),
    /// Toggle the favourite of the song at this position.
    ToggleFavorite(usize),
}

impl View for DetailsCommand {
    type V = DetailsEffect;

    open spec fn view(&self) -> DetailsEffect {
        match self {
            DetailsCommand::Nothing => DetailsEffect::Nothing,
            DetailsCommand::GoBack => DetailsEffect::GoBack,
            DetailsCommand::Play { index } => DetailsEffect::Play(*index),
            DetailsCommand::AddToQueue { index, position } => DetailsEffect::AddToQueue(*index, *position),
            DetailsCommand::Notify { level, message } => DetailsEffect::Notify(*level, message@),
        }
    }
}

/// Rows moved by a page-up or page-down.
pub const DETAILS_PAGE_ROWS: usize = 10;

/// The name of the details page's key-binding scope.
pub open spec fn details_scope() -> Seq<char> {
    "details"@
}

/// The message when an artist has no songs.
pub open spec fn no_artist_songs() -> Seq<char> {
    "未找到该歌手的歌曲"@
}

/// The message when an album has no songs.
pub open spec fn no_album_songs() -> Seq<char> {
    "未找到该专辑的曲目"@
}

/// The last position of a list of `len` entries (0 when empty).
pub open spec fn last_index(len: int) -> usize {
    if len > 0 { (len - 1) as usize } else { 0 }
}

/// The smaller of two positions.
pub open spec fn min_index(a: int, b: usize) -> usize {
    if a <= b { a as usize } else { b }
}

/// The selection kept inside the lists.
pub open spec fn clamped(v: DetailsView) -> DetailsView {
    DetailsView {
        selected_album: min_index(v.selected_album as int, last_index(v.albums.len() as int)),
        selected_song: min_index(v.selected_song as int, last_index(v.songs.len() as int)),
        ..v
    }
}

/// The page of a new target: nothing loaded yet, the first entries
/// selected, the lists shown from the top.
pub open spec fn fresh(target: DetailsTarget, focus: DetailsFocus) -> DetailsView {
    DetailsView {
        target,
        albums: Seq::empty(),
        songs: Seq::empty(),
        focus,
        selected_album: 0,
        selected_song: 0,
        album_scroll: 0,
        song_scroll: 0,
        loading: true,
        error: None,
    }
}

/// The songs of a load result: none when it failed.
pub open spec fn loaded_songs(songs: Result<Vec<SongInfo>, String>) -> Seq<SongInfo> {
    match songs {
        Ok(v) => v@,
        Err(_) => Seq::empty(),
    }
}

/// The page after its songs were loaded: loading is over, and an empty
/// song list is reported with `message`.
pub open spec fn loaded(v: DetailsView, songs: Seq<SongInfo>, message: Seq<char>) -> DetailsView {
    clamped(DetailsView {
        songs,
        loading: false,
        error: if songs.len() == 0 { Some(message) } else { None },
        ..v
    })
}

/// The length of the focused list.
pub open spec fn focused_len(v: DetailsView) -> int {
    match v.focus {
        DetailsFocus::Albums => v.albums.len() as int,
        DetailsFocus::Songs => v.songs.len() as int,
    }
}

/// The selection of the focused list.
pub open spec fn focused_selection(v: DetailsView) -> usize {
    match v.focus {
        DetailsFocus::Albums => v.selected_album,
        DetailsFocus::Songs => v.selected_song,
    }
}

/// The page with `s` selected in the focused list.
pub open spec fn with_selection(v: DetailsView, s: usize) -> DetailsView {
    match v.focus {
        DetailsFocus::Albums => DetailsView { selected_album: s, ..v },
        DetailsFocus::Songs => DetailsView { selected_song: s, ..v },
    }
}

/// One step up (or down) the focused list, stopping at its ends; then, when
/// `wrap`, a selection that reached the first (last) entry goes round to the
/// last (first) one.
pub open spec fn moved(v: DetailsView, down: bool, wrap: bool) -> DetailsView {
    let n = focused_len(v);
    let s = focused_selection(v);
    let s1: int = if down {
        min_index(s + 1, last_index(n)) as int
    } else if s >= 1 {
        s - 1
    } else {
        0
    };
    let s2: int = if !wrap || n == 0 {
        s1
    } else if down && s1 + 1 >= n {
        0
    } else if !down && s1 == 0 {
        n - 1
    } else {
        s1
    };
    with_selection(v, s2 as usize)
}

/// The focused selection a page up.
pub open spec fn paged_up(v: DetailsView) -> DetailsView {
    let s = focused_selection(v);
    with_selection(v, if s >= DETAILS_PAGE_ROWS { (s - DETAILS_PAGE_ROWS) as usize } else { 0 })
}

/// The focused selection a page down, stopping at the last entry.
pub open spec fn paged_down(v: DetailsView) -> DetailsView {
    with_selection(v, min_index(focused_selection(v) + DETAILS_PAGE_ROWS, last_index(focused_len(v))))
}

/// The other list focused.
pub open spec fn focus_toggled(v: DetailsView) -> DetailsView {
    DetailsView {
        focus: match v.focus {
            DetailsFocus::Albums => DetailsFocus::Songs,
            DetailsFocus::Songs => DetailsFocus::Albums,
        },
        ..v
    }
}

/// Activating: the selected song plays when the songs are focused and it
/// exists; albums do nothing.
pub open spec fn activated(v: DetailsView) -> DetailsEffect {
    if v.focus == DetailsFocus::Songs && v.selected_song < v.songs.len() {
        DetailsEffect::Play(v.selected_song)
    } else {
        DetailsEffect::Nothing
    }
}

/// Queueing the selected song at `position`, or telling that there is none.
pub open spec fn added(v: DetailsView, position: InsertPosition) -> DetailsEffect {
    if v.selected_song < v.songs.len() {
        DetailsEffect::AddToQueue(v.selected_song, position)
    } else {
        DetailsEffect::Notify(NotificationLevel::Info, "暂无可加入队列的歌曲"@)
    }
}

/// Playing all songs from the first, or telling that there are none.
pub open spec fn played_all(v: DetailsView) -> DetailsEffect {
    if v.songs.len() == 0 {
        DetailsEffect::Notify(NotificationLevel::Info, "暂无可播放歌曲"@)
    } else {
        DetailsEffect::Play(0)
    }
}

/// Toggling the favourite of the selected song, or telling that there is none.
pub open spec fn favorite_toggled(v: DetailsView) -> DetailsEffect {
    if v.selected_song < v.songs.len() {
        DetailsEffect::ToggleFavorite(v.selected_song)
    } else {
        DetailsEffect::Notify(NotificationLevel::Info, "暂无可收藏歌曲"@)
    }
}

/// The key's binding on the details page: moves act on the focused list and
/// the key goes on to the page's own keys; activating and queueing end the
/// key with their effect.
pub open spec fn bound_step(v: DetailsView, bound: Option<Action>, wrap: bool) -> (DetailsView, Option<DetailsEffect>) {
    match bound {
        Some(Action::ListSelectUp) => (moved(v, false, wrap), None),
        Some(Action::ListSelectDown) => (moved(v, true, wrap), None),
        Some(Action::ListSelectFirst) => (with_selection(v, 0), None),
        Some(Action::ListSelectLast) => (with_selection(v, last_index(focused_len(v))), None),
        Some(Action::ListPageUp) => (paged_up(v), None),
        Some(Action::ListPageDown) => (paged_down(v), None),
        Some(Action::ListActivate) => (v, Some(activated(v))),
        Some(Action::ListAddToQueue) => (v, Some(added(v, InsertPosition::End))),
        Some(Action::ListAddToQueueNext) => (v, Some(added(v, InsertPosition::Next))),
        _ => (v, None),
    }
}

/// The page's own keys.
pub open spec fn key_step(v: DetailsView, key: KeyEvent, wrap: bool) -> (DetailsView, DetailsEffect) {
    let plain = key.modifiers == no_mods();
    let shift = key.modifiers == (KeyModifiers { shift: true, ..no_mods() });
    let ctrl = key.modifiers == (KeyModifiers { control: true, ..no_mods() });
    let c = key.code;
    let artist = v.target is Artist;
    if plain && c == KeyCode::Char('p') {
        (v, played_all(v))
    } else if plain && c == KeyCode::Char('a') {
        (v, added(v, InsertPosition::End))
    } else if (plain || shift) && c == KeyCode::Char('A') {
        (v, added(v, InsertPosition::Next))
    } else if plain && c == KeyCode::Char('f') {
        (v, favorite_toggled(v))
    } else if plain && (c == KeyCode::Char('h') || c == KeyCode::Left) && artist && v.focus == DetailsFocus::Songs {
        (DetailsView { focus: DetailsFocus::Albums, ..v }, DetailsEffect::Nothing)
    } else if plain && (c == KeyCode::Char('l') || c == KeyCode::Right) && artist && v.focus == DetailsFocus::Albums {
        (DetailsView { focus: DetailsFocus::Songs, ..v }, DetailsEffect::Nothing)
    } else if plain && c == KeyCode::Up {
        (moved(v, false, wrap), DetailsEffect::Nothing)
    } else if plain && c == KeyCode::Down {
        (moved(v, true, wrap), DetailsEffect::Nothing)
    } else if plain && (c == KeyCode::Home || c == KeyCode::Char('g')) {
        (with_selection(v, 0), DetailsEffect::Nothing)
    } else if (plain && (c == KeyCode::End || c == KeyCode::Char('G'))) || (shift && c == KeyCode::Char('G')) {
        (with_selection(v, last_index(focused_len(v))), DetailsEffect::Nothing)
    } else if (ctrl && c == KeyCode::Char('u')) || (plain && c == KeyCode::PageUp) {
        (paged_up(v), DetailsEffect::Nothing)
    } else if (ctrl && c == KeyCode::Char('d')) || (plain && c == KeyCode::PageDown) {
        (paged_down(v), DetailsEffect::Nothing)
    } else {
        (v, DetailsEffect::Nothing)
    }
}

/// The next state of the page and the effect of a key press whose binding
/// on the page is `bound`; `wrap` says whether moving past an end wraps.
/// Esc leaves the page; Tab switches the focused list of an artist.
pub open spec fn details_step(v: DetailsView, key: KeyEvent, bound: Option<Action>, wrap: bool) -> (DetailsView, DetailsEffect) {
    let plain = key.modifiers == no_mods();
    if plain && key.code == KeyCode::Esc {
        (v, DetailsEffect::GoBack)
    } else if plain && key.code == KeyCode::Tab && v.target is Artist {
        (focus_toggled(v), DetailsEffect::Nothing)
    } else {
        let (v1, done) = bound_step(v, bound, wrap);
        match done {
            Some(e) => (v1, e),
            None => key_step(v1, key, wrap),
        }
    }
}

/// Whether `song` is one of the favourites `favs`.
pub open spec fn favored(favs: Seq<SongInfo>, song: SongView) -> bool {
    exists|i: int| 0 <= i < favs.len() && #[trigger] equivalent(favs[i]@, song)
}

/// The scroll that keeps `sel` in view in a list `height` rows high (at
/// least one) of `len` entries: moved as little as needed, then no further
/// down than the list's end allows.
pub open spec fn scroll_to_show(sel: usize, scroll: usize, len: int, height: u16) -> usize {
    let visible: int = if height >= 1 { height as int } else { 1 };
    let s1: int = if sel >= scroll + visible {
        sel + 1 - visible
    } else if sel < scroll {
        sel as int
    } else {
        scroll as int
    };
    let end: int = if len >= visible { len - visible } else { 0 };
    (if s1 <= end { s1 } else { end }) as usize
}

/// The parts of `area` that ratatui's layout solver gives for the albums
/// and songs of an artist, side by side (`Percentage(34)`, `Percentage(66)`).
pub uninterp spec fn solved_details_columns(area: CellArea) -> (CellArea, CellArea);

/// Calls ratatui's `Layout::split` with a horizontal
/// `[Percentage(34), Percentage(66)]` layout; claims only that the result is
/// the solver's, named [`solved_details_columns`].
#[verifier::external_body]
fn split_details_columns(area: CellArea) -> (r: (CellArea, CellArea))
    ensures
        r == solved_details_columns(area),
{
    let p = Layout::default()
        .direction(Direction::Horizontal)
        .constraints([Constraint::Percentage(34), Constraint::Percentage(66)])
        .split(Rect { x: area.x, y: area.y, width: area.width, height: area.height });
    (
        CellArea { x: p[0].x, y: p[0].y, width: p[0].width, height: p[0].height },
        CellArea { x: p[1].x, y: p[1].y, width: p[1].width, height: p[1].height },
    )
}

/// Where the albums and the songs are drawn on `area`: an album page has
/// only songs.
pub open spec fn content_areas(v: DetailsView, area: CellArea) -> (CellArea, CellArea) {
    if v.target is Album {
        (CellArea { x: 0, y: 0, width: 0, height: 0 }, area)
    } else {
        solved_details_columns(area)
    }
}

/// The next state of the page and the effect of a mouse event, the albums
/// and songs being drawn in `areas`: the wheel moves the selection of the
/// list under the pointer and keeps it in view; a left click on a row of
/// either list (counted against the songs) focuses and selects it, and
/// activates it when `activate`.
pub open spec fn details_mouse(v: DetailsView, event: MouseEvent, areas: (CellArea, CellArea), activate: bool) -> (DetailsView, DetailsEffect) {
    let (album_area, song_area) = areas;
    let p = Position { x: event.column, y: event.row };
    match event.kind {
        MouseEventKind::ScrollUp => if covers(song_area, p) {
            let s: usize = if v.selected_song >= 1 { (v.selected_song - 1) as usize } else { 0 };
            (DetailsView { selected_song: s, song_scroll: scroll_to_show(s, v.song_scroll, v.songs.len() as int, song_area.height), ..v }, DetailsEffect::Nothing)
        } else if covers(album_area, p) {
            let s: usize = if v.selected_album >= 1 { (v.selected_album - 1) as usize } else { 0 };
            (DetailsView { selected_album: s, album_scroll: scroll_to_show(s, v.album_scroll, v.albums.len() as int, album_area.height), ..v }, DetailsEffect::Nothing)
        } else {
            (v, DetailsEffect::Nothing)
        },
        MouseEventKind::ScrollDown => if covers(song_area, p) {
            let s = min_index(v.selected_song + 1, last_index(v.songs.len() as int));
            (DetailsView { selected_song: s, song_scroll: scroll_to_show(s, v.song_scroll, v.songs.len() as int, song_area.height), ..v }, DetailsEffect::Nothing)
        } else if covers(album_area, p) {
            let s = min_index(v.selected_album + 1, last_index(v.albums.len() as int));
            (DetailsView { selected_album: s, album_scroll: scroll_to_show(s, v.album_scroll, v.albums.len() as int, album_area.height), ..v }, DetailsEffect::Nothing)
        } else {
            (v, DetailsEffect::Nothing)
        },
        MouseEventKind::Down(MouseButton::Left) => match row_hit(song_area, p, v.song_scroll as int, v.songs.len() as int) {
            Some(i) => {
                let v1 = DetailsView { focus: DetailsFocus::Songs, selected_song: i, ..v };
                (v1, if activate { activated(v1) } else { DetailsEffect::Nothing })
            },
            None => match row_hit(album_area, p, v.album_scroll as int, v.songs.len() as int) {
                Some(i) => {
                    let v1 = DetailsView { focus: DetailsFocus::Albums, selected_album: i, ..v };
                    (v1, if activate { activated(v1) } else { DetailsEffect::Nothing })
                },
                None => (v, DetailsEffect::Nothing),
            },
        },
        _ => (v, DetailsEffect::Nothing),
    }
}

/// The smaller of two positions.
fn min_of(a: usize, b: usize) -> (r: usize)
    ensures
        r == min_index(a as int, b),
{
    if a <= b { a } else { b }
}

/// The last position of a list of `len` entries.
fn last_of(len: usize) -> (r: usize)
    ensures
        r == last_index(len as int),
{
    if len > 0 { len - 1 } else { 0 }
}

/// The row of a list drawn in `area` from `scroll` that `p` hits, among
/// `len` rows.
fn list_row(area: CellArea, p: Position, scroll: usize, len: usize) -> (r: Option<usize>)
    ensures
        r == row_hit(area, p, scroll as int, len as int),
{
    if !area.contains(p) {
        return None;
    }
    let offset = (p.y - area.y) as usize;
    if scroll < len && offset < len - scroll {
        Some(scroll + offset)
    } else {
        None
    }
}

/// The scroll that keeps `sel` in view (see [`scroll_to_show`]).
fn scroll_showing(sel: usize, scroll: usize, len: usize, height: u16) -> (r: usize)
    ensures
        r == scroll_to_show(sel, scroll, len as int, height),
{
    let visible: usize = if height >= 1 { height as usize } else { 1 };
    let s1 = if sel >= scroll && sel - scroll >= visible {
        sel - visible + 1
    } else if sel < scroll {
        sel
    } else {
        scroll
    };
    let end = len.saturating_sub(visible);
    if s1 <= end { s1 } else { end }
}

/// The first `width` characters of `value`, or, when it is longer, its
/// first `width - 1` characters and an ellipsis.
pub open spec fn truncated(value: Seq<char>, width: u16) -> Seq<char> {
    if value.len() <= width {
        value
    } else {
        value.take(if width >= 1 { width - 1 } else { 0 }) + seq!['…']
    }
}

/// `value` cut to `width` characters with an ellipsis (see [`truncated`]).
pub fn truncate(value: &str, width: u16) -> (r: String)
    ensures
        r@ == truncated(value@, width),
{
    let chars = crate::text::chars_of(value);
    if chars.len() <= width as usize {
        return to_owned_string(value);
    }
    let keep: usize = if width >= 1 { (width - 1) as usize } else { 0 };
    let mut out = crate::text::string_of_range(&chars, 0, keep);
    crate::text::push_char(&mut out, '…');
    assert(out@ =~= truncated(value@, width));
    out
}

impl DetailsPage {
    /// The page of an artist: its albums are focused.
    pub fn artist(artist: Artist) -> (r: DetailsPage)
        ensures
            r@ == fresh(DetailsTarget::Artist(artist), DetailsFocus::Albums),
    {
        DetailsPage {
            target: DetailsTarget::Artist(artist),
            albums: Vec::new(),
            songs: Vec::new(),
            focus: DetailsFocus::Albums,
            selected_album: 0,
            selected_song: 0,
            album_scroll: 0,
            song_scroll: 0,
            loading: true,
            error: None,
        }
    }

    /// The page of an album: its songs are focused.
    pub fn album(album: Album) -> (r: DetailsPage)
        ensures
            r@ == fresh(DetailsTarget::Album(album), DetailsFocus::Songs),
    {
        DetailsPage {
            target: DetailsTarget::Album(album),
            albums: Vec::new(),
            songs: Vec::new(),
            focus: DetailsFocus::Songs,
            selected_album: 0,
            selected_song: 0,
            album_scroll: 0,
            song_scroll: 0,
            loading: true,
            error: None,
        }
    }

    /// What the page shows the details of.
    pub fn target(&self) -> (r: &DetailsTarget)
        ensures
            *r == self@.target,
    {
        &self.target
    }

    /// The songs shown.
    pub fn songs(&self) -> (r: &[SongInfo])
        ensures
            r@ == self@.songs,
    {
        self.songs.as_slice()
    }

    /// The albums shown.
    pub fn albums(&self) -> (r: &[Album])
        ensures
            r@ == self@.albums,
    {
        self.albums.as_slice()
    }

    /// The focused list.
    pub fn focus(&self) -> (r: DetailsFocus)
        ensures
            r == self@.focus,
    {
        self.focus
    }

    /// The selected song.
    pub fn selected_song(&self) -> (r: usize)
        ensures
            r == self@.selected_song,
    {
        self.selected_song
    }

    /// The selected album.
    pub fn selected_album(&self) -> (r: usize)
        ensures
            r == self@.selected_album,
    {
        self.selected_album
    }

    /// Whether the details are still loading.
    pub fn is_loading(&self) -> (r: bool)
        ensures
            r == self@.loading,
    {
        self.loading
    }

    /// The error shown, if any.
    pub fn error(&self) -> (r: Option<&str>)
        ensures
            r matches Some(e) ==> self@.error == Some(e@),
            r is None ==> self@.error is None,
    {
        match &self.error {
            Some(e) => Some(e.as_str()),
            None => None,
        }
    }

    /// Keeps each selection inside its list.
    fn clamp_selection(&mut self)
        ensures
            final(self)@ == clamped(old(self)@),
    {
        self.selected_album = min_of(self.selected_album, last_of(self.albums.len()));
        self.selected_song = min_of(self.selected_song, last_of(self.songs.len()));
    }

    /// Shows an artist's albums and songs (none when they failed to load).
    pub fn update_artist(&mut self, albums: Vec<Album>, songs: Result<Vec<SongInfo>, String>)
        ensures
            final(self)@ == loaded(DetailsView { albums: albums@, ..old(self)@ }, loaded_songs(songs), no_artist_songs()),
    {
        self.albums = albums;
        self.songs = match songs {
            Ok(v) => v,
            Err(_) => Vec::new(),
        };
        self.loading = false;
        self.error = if self.songs.len() == 0 {
            Some(to_owned_string("未找到该歌手的歌曲"))
        } else {
            None
        };
        self.clamp_selection();
    }

    /// Shows an album's songs (none when they failed to load).
    pub fn update_album(&mut self, songs: Result<Vec<SongInfo>, String>)
        ensures
            final(self)@ == loaded(old(self)@, loaded_songs(songs), no_album_songs()),
    {
        self.songs = match songs {
            Ok(v) => v,
            Err(_) => Vec::new(),
        };
        self.loading = false;
        self.error = if self.songs.len() == 0 {
            Some(to_owned_string("未找到该专辑的曲目"))
        } else {
            None
        };
        self.clamp_selection();
    }

    /// Shows `error` in place of the lists.
    pub fn update_error(&mut self, error: String)
        ensures
            final(self)@ == (DetailsView {
                albums: Seq::empty(),
                songs: Seq::empty(),
                loading: false,
                error: Some(error@),
                selected_album: 0,
                selected_song: 0,
                ..old(self)@
            }),
    {
        self.loading = false;
        self.error = Some(error);
        self.albums.clear();
        self.songs.clear();
        self.clamp_selection();
    }

    /// Selects `s` in the focused list.
    fn select(&mut self, s: usize)
        ensures
            final(self)@ == with_selection(old(self)@, s),
    {
        match self.focus {
            DetailsFocus::Albums => self.selected_album = s,
            DetailsFocus::Songs => self.selected_song = s,
        }
    }

    /// The length of the focused list.
    fn focused_len(&self) -> (r: usize)
        ensures
            r == focused_len(self@),
    {
        match self.focus {
            DetailsFocus::Albums => self.albums.len(),
            DetailsFocus::Songs => self.songs.len(),
        }
    }

    /// The selection of the focused list.
    fn focused_selection(&self) -> (r: usize)
        ensures
            r == focused_selection(self@),
    {
        match self.focus {
            DetailsFocus::Albums => self.selected_album,
            DetailsFocus::Songs => self.selected_song,
        }
    }

    /// One step up or down the focused list (see [`moved`]).
    fn move_by_one(&mut self, down: bool, wrap: bool)
        ensures
            final(self)@ == moved(old(self)@, down, wrap),
    {
        let n = self.focused_len();
        let s = self.focused_selection();
        let s1 = if down {
            min_of(s.saturating_add(1), last_of(n))
        } else {
            s.saturating_sub(1)
        };
        let s2 = if !wrap || n == 0 {
            s1
        } else if down && s1 >= n - 1 {
            0
        } else if !down && s1 == 0 {
            n - 1
        } else {
            s1
        };
        self.select(s2);
    }

    /// The focused selection a page up.
    fn page_up(&mut self)
        ensures
            final(self)@ == paged_up(old(self)@),
    {
        let s = self.focused_selection();
        self.select(s.saturating_sub(DETAILS_PAGE_ROWS));
    }

    /// The focused selection a page down.
    fn page_down(&mut self)
        ensures
            final(self)@ == paged_down(old(self)@),
    {
        let s = self.focused_selection();
        let last = last_of(self.focused_len());
        self.select(min_of(s.saturating_add(DETAILS_PAGE_ROWS), last));
    }

    /// Activating (see [`activated`]).
    pub fn activate(&self) -> (r: DetailsCommand)
        ensures
            r@ == activated(self@),
    {
        if self.focus == DetailsFocus::Songs && self.selected_song < self.songs.len() {
            DetailsCommand::Play { index: self.selected_song }
        } else {
            DetailsCommand::Nothing
        }
    }

    /// Queueing the selected song (see [`added`]).
    fn add_selected(&self, position: InsertPosition) -> (r: DetailsCommand)
        ensures
            r@ == added(self@, position),
    {
        if self.selected_song < self.songs.len() {
            DetailsCommand::AddToQueue { index: self.selected_song, position }
        } else {
            let message = to_owned_string("暂无可加入队列的歌曲");
            DetailsCommand::Notify { level: NotificationLevel::Info, message }
        }
    }

    /// Playing all songs (see [`played_all`]).
    fn play_all(&self) -> (r: DetailsCommand)
        ensures
            r@ == played_all(self@),
    {
        if self.songs.len() == 0 {
            let message = to_owned_string("暂无可播放歌曲");
            DetailsCommand::Notify { level: NotificationLevel::Info, message }
        } else {
            DetailsCommand::Play { index: 0 }
        }
    }

    /// Toggles the favourite of the selected song in `library`: removes it
    /// when it is a favourite, adds it otherwise, and says which it did.
    fn toggle_favorite(&self, library: &mut Library) -> (r: DetailsCommand)
        ensures
            favorite_toggled(self@) matches DetailsEffect::ToggleFavorite(i) ==> {
                let song = self@.songs[i as int]@;
                &&& favored(old(library).favorites@, song) ==> {
                    &&& r@ == DetailsEffect::Notify(NotificationLevel::Success, "已取消收藏歌曲"@)
                    &&& songs_view(final(library).favorites@) == keep_songs(songs_view(old(library).favorites@), |x: SongView| !equivalent(x, song))
                }
                &&& !favored(old(library).favorites@, song) ==> {
                    &&& r@ == DetailsEffect::Notify(NotificationLevel::Success, "已收藏歌曲"@)
                    &&& songs_view(final(library).favorites@) == songs_view(old(library).favorites@).push(song)
                }
                &&& final(library).custom_playlists == old(library).custom_playlists
                &&& final(library).history == old(library).history
            },
            !(favorite_toggled(self@) is ToggleFavorite) ==> r@ == favorite_toggled(self@) && *final(library) == *old(library),
    {
        if self.selected_song >= self.songs.len() {
            let message = to_owned_string("暂无可收藏歌曲");
            return DetailsCommand::Notify { level: NotificationLevel::Info, message };
        }
        let song = &self.songs[self.selected_song];
        if library.is_favorite(song) {
            library.remove_favorite(song);
            DetailsCommand::Notify { level: NotificationLevel::Success, message: to_owned_string("已取消收藏歌曲") }
        } else {
            library.add_favorite(song);
            DetailsCommand::Notify { level: NotificationLevel::Success, message: to_owned_string("已收藏歌曲") }
        }
    }

    /// Handles the key's binding on the page (see [`bound_step`]).
    fn bound_key(&mut self, bound: Option<Action>, wrap: bool) -> (r: Option<DetailsCommand>)
        ensures
            final(self)@ == bound_step(old(self)@, bound, wrap).0,
            match bound_step(old(self)@, bound, wrap).1 {
                Some(e) => r matches Some(c) && c@ == e,
                None => r is None,
            },
    {
        match bound {
            Some(Action::ListSelectUp) => {
                self.move_by_one(false, wrap);
                None
            },
            Some(Action::ListSelectDown) => {
                self.move_by_one(true, wrap);
                None
            },
            Some(Action::ListSelectFirst) => {
                self.select(0);
                None
            },
            Some(Action::ListSelectLast) => {
                let last = last_of(self.focused_len());
                self.select(last);
                None
            },
            Some(Action::ListPageUp) => {
                self.page_up();
                None
            },
            Some(Action::ListPageDown) => {
                self.page_down();
                None
            },
            Some(Action::ListActivate) => Some(self.activate()),
            Some(Action::ListAddToQueue) => Some(self.add_selected(InsertPosition::End)),
            Some(Action::ListAddToQueueNext) => Some(self.add_selected(InsertPosition::Next)),
            _ => None,
        }
    }

    /// Handles the page's own keys (see [`key_step`]).
    fn own_key(&mut self, key: &KeyEvent, library: &mut Library, wrap: bool) -> (r: DetailsCommand)
        ensures
            final(self)@ == key_step(old(self)@, *key, wrap).0,
            key_step(old(self)@, *key, wrap).1 matches DetailsEffect::ToggleFavorite(i) ==> {
                let song = old(self)@.songs[i as int]@;
                &&& favored(old(library).favorites@, song) ==> {
                    &&& r@ == DetailsEffect::Notify(NotificationLevel::Success, "已取消收藏歌曲"@)
                    &&& songs_view(final(library).favorites@) == keep_songs(songs_view(old(library).favorites@), |x: SongView| !equivalent(x, song))
                }
                &&& !favored(old(library).favorites@, song) ==> {
                    &&& r@ == DetailsEffect::Notify(NotificationLevel::Success, "已收藏歌曲"@)
                    &&& songs_view(final(library).favorites@) == songs_view(old(library).favorites@).push(song)
                }
                &&& final(library).custom_playlists == old(library).custom_playlists
                &&& final(library).history == old(library).history
            },
            !(key_step(old(self)@, *key, wrap).1 is ToggleFavorite) ==> r@ == key_step(old(self)@, *key, wrap).1 && *final(library) == *old(library),
    {
        let plain = key.modifiers == KeyModifiers::none();
        let shift = key.modifiers == KeyModifiers::shift_only();
        let ctrl = key.modifiers == KeyModifiers::control_only();
        let c = key.code;
        let artist = match self.target {
            DetailsTarget::Artist(_) => true,
            DetailsTarget::Album(_) => false,
        };
        if plain && c == KeyCode::Char('p') {
            self.play_all()
        } else if plain && c == KeyCode::Char('a') {
            self.add_selected(InsertPosition::End)
        } else if (plain || shift) && c == KeyCode::Char('A') {
            self.add_selected(InsertPosition::Next)
        } else if plain && c == KeyCode::Char('f') {
            self.toggle_favorite(library)
        } else if plain && (c == KeyCode::Char('h') || c == KeyCode::Left) && artist && self.focus == DetailsFocus::Songs {
            self.focus = DetailsFocus::Albums;
            DetailsCommand::Nothing
        } else if plain && (c == KeyCode::Char('l') || c == KeyCode::Right) && artist && self.focus == DetailsFocus::Albums {
            self.focus = DetailsFocus::Songs;
            DetailsCommand::Nothing
        } else if plain && c == KeyCode::Up {
            self.move_by_one(false, wrap);
            DetailsCommand::Nothing
        } else if plain && c == KeyCode::Down {
            self.move_by_one(true, wrap);
            DetailsCommand::Nothing
        } else if plain && (c == KeyCode::Home || c == KeyCode::Char('g')) {
            self.select(0);
            DetailsCommand::Nothing
        } else if (plain && (c == KeyCode::End || c == KeyCode::Char('G'))) || (shift && c == KeyCode::Char('G')) {
            let last = last_of(self.focused_len());
            self.select(last);
            DetailsCommand::Nothing
        } else if (ctrl && c == KeyCode::Char('u')) || (plain && c == KeyCode::PageUp) {
            self.page_up();
            DetailsCommand::Nothing
        } else if (ctrl && c == KeyCode::Char('d')) || (plain && c == KeyCode::PageDown) {
            self.page_down();
            DetailsCommand::Nothing
        } else {
            DetailsCommand::Nothing
        }
    }

    /// Handles a key (see [`details_step`]): its binding in the `details`
    /// scope of `resolver`, then the page's own keys; `wrap` says whether
    /// moving past an end wraps. A favourite toggled with `f` is toggled in
    /// `library`, which nothing else changes.
    pub fn handle_input(&mut self, key: &KeyEvent, library: &mut Library, resolver: &KeybindingResolver, wrap: bool) -> (r: DetailsCommand)
        ensures
            ({
                let bound = page_action(resolver.page_scopes(), details_scope(), normalized(key.modifiers, key.code));
                let (v, e) = details_step(old(self)@, *key, bound, wrap);
                &&& final(self)@ == v
                &&& e matches DetailsEffect::ToggleFavorite(i) ==> {
                    let song = old(self)@.songs[i as int]@;
                    &&& favored(old(library).favorites@, song) ==> {
                        &&& r@ == DetailsEffect::Notify(NotificationLevel::Success, "已取消收藏歌曲"@)
                        &&& songs_view(final(library).favorites@) == keep_songs(songs_view(old(library).favorites@), |x: SongView| !equivalent(x, song))
                    }
                    &&& !favored(old(library).favorites@, song) ==> {
                        &&& r@ == DetailsEffect::Notify(NotificationLevel::Success, "已收藏歌曲"@)
                        &&& songs_view(final(library).favorites@) == songs_view(old(library).favorites@).push(song)
                    }
                    &&& final(library).custom_playlists == old(library).custom_playlists
                    &&& final(library).history == old(library).history
                }
                &&& !(e is ToggleFavorite) ==> r@ == e && *final(library) == *old(library)
            }),
    {
        let plain = key.modifiers == KeyModifiers::none();
        if plain && key.code == KeyCode::Esc {
            return DetailsCommand::GoBack;
        }
        let artist = match self.target {
            DetailsTarget::Artist(_) => true,
            DetailsTarget::Album(_) => false,
        };
        if plain && key.code == KeyCode::Tab && artist {
            self.focus = match self.focus {
                DetailsFocus::Albums => DetailsFocus::Songs,
                DetailsFocus::Songs => DetailsFocus::Albums,
            };
            return DetailsCommand::Nothing;
        }
        let bound = resolver.resolve_page("details", key);
        match self.bound_key(bound, wrap) {
            Some(command) => command,
            None => self.own_key(key, library, wrap),
        }
    }

    /// Keeps the selected album in view in a list `height` rows high.
    pub fn ensure_album_visible(&mut self, height: u16)
        ensures
            final(self)@ == (DetailsView {
                album_scroll: scroll_to_show(old(self)@.selected_album, old(self)@.album_scroll, old(self)@.albums.len() as int, height),
                ..old(self)@
            }),
    {
        self.album_scroll = scroll_showing(self.selected_album, self.album_scroll, self.albums.len(), height);
    }

    /// Keeps the selected song in view in a list `height` rows high.
    pub fn ensure_song_visible(&mut self, height: u16)
        ensures
            final(self)@ == (DetailsView {
                song_scroll: scroll_to_show(old(self)@.selected_song, old(self)@.song_scroll, old(self)@.songs.len() as int, height),
                ..old(self)@
            }),
    {
        self.song_scroll = scroll_showing(self.selected_song, self.song_scroll, self.songs.len(), height);
    }

    /// Where the albums and the songs are drawn on `area`.
    pub fn content_chunks(&self, area: CellArea) -> (r: (CellArea, CellArea))
        ensures
            r == content_areas(self@, area),
    {
        match self.target {
            DetailsTarget::Album(_) => (CellArea { x: 0, y: 0, width: 0, height: 0 }, area),
            DetailsTarget::Artist(_) => split_details_columns(area),
        }
    }

    /// Handles a mouse event on the page drawn on `area` (see
    /// [`details_mouse`]); a click activates the row when `activate`.
    pub fn handle_mouse(&mut self, event: MouseEvent, area: CellArea, activate: bool) -> (r: DetailsCommand)
        ensures
            ({
                let (v, e) = details_mouse(old(self)@, event, content_areas(old(self)@, area), activate);
                final(self)@ == v && r@ == e
            }),
    {
        let (album_area, song_area) = self.content_chunks(area);
        let p = Position { x: event.column, y: event.row };
        match event.kind {
            MouseEventKind::ScrollUp => {
                if song_area.contains(p) {
                    self.selected_song = self.selected_song.saturating_sub(1);
                    self.ensure_song_visible(song_area.height);
                } else if album_area.contains(p) {
                    self.selected_album = self.selected_album.saturating_sub(1);
                    self.ensure_album_visible(album_area.height);
                }
            },
            MouseEventKind::ScrollDown => {
                if song_area.contains(p) {
                    self.selected_song = min_of(self.selected_song.saturating_add(1), last_of(self.songs.len()));
                    self.ensure_song_visible(song_area.height);
                } else if album_area.contains(p) {
                    self.selected_album = min_of(self.selected_album.saturating_add(1), last_of(self.albums.len()));
                    self.ensure_album_visible(album_area.height);
                }
            },
            MouseEventKind::Down(MouseButton::Left) => {
                match list_row(song_area, p, self.song_scroll, self.songs.len()) {
                    Some(index) => {
                        self.focus = DetailsFocus::Songs;
                        self.selected_song = index;
                        if activate {
                            return self.activate();
                        }
                    },
                    None => {
                        match list_row(album_area, p, self.album_scroll, self.songs.len()) {
                            Some(index) => {
                                self.focus = DetailsFocus::Albums;
                                self.selected_album = index;
                                if activate {
                                    return self.activate();
                                }
                            },
                            None => {},
                        }
                    },
                }
            },
            _ => {},
        }
        DetailsCommand::Nothing
    }
}

} // verus!
