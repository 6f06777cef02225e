//! Keyboard handling of the main page's play queue as a state machine: the
//! quick filter, moving through the visible songs, editing the queue and
//! starting playback. A key press moves the page state on and names the one
//! request that the application carries out on the queue and the player.
use vstd::prelude::*;
use crate::keybinding::config::Action;
use crate::keybinding::keys::{KeyCode, KeyEvent, KeyModifiers, no_mods, normalized};
use crate::keybinding::resolver::{KeybindingResolver, page_action};
use crate::library::import::{contains_lit, contains_text, lemma_contains_within};
use crate::song::{SongInfo, SongView, songs_view};
use crate::text::{chars_of, lemma_lower_text_concat, lower_text, lowercase, no_capital_sigma, push_char, push_str, str_lowercase, string_of_range, trim_str, trim_ws};
use super::queue_keys::{CLEAR_QUEUE_CONFIRM_SECS, QueueEditCommand, clear_is_confirmed, queue_edit, queue_edit_command};
use crate::time::Duration;
use crate::queue::{PlaylistManager, position_after_remove};

verus! {

/// Rows moved by a page-up or page-down in the queue.
pub const QUEUE_PAGE_ROWS: usize = 5;

/// The text a song is found by: title, singer and album, separated by spaces.
pub open spec fn haystack(s: SongView) -> Seq<char> {
    s.name + " "@ + s.singer + " "@ + s.album_name
}

/// Song `s` matches the lower-case query `q`.
pub open spec fn song_matches(s: SongView, q: Seq<char>) -> bool {
    contains_text(str_lowercase(haystack(s)), q)
}

/// The query `q` occurs in the lower-cased title, singer or album of `s`,
/// none of which holds a capital sigma.
pub open spec fn found_in_fields(s: SongView, q: Seq<char>) -> bool {
    &&& no_capital_sigma(s.name) && no_capital_sigma(s.singer) && no_capital_sigma(s.album_name)
    &&& contains_text(lower_text(s.name), q) || contains_text(lower_text(s.singer), q)
        || contains_text(lower_text(s.album_name), q)
}

/// The searched text holds each field: what occurs in a lower-cased field
/// occurs in the lower-cased text.
proof fn lemma_fields_in_haystack(s: SongView, q: Seq<char>)
    requires
        found_in_fields(s, q),
    ensures
        no_capital_sigma(haystack(s)),
        contains_text(lower_text(haystack(s)), q),
{
    reveal_strlit(" ");
    let sp = " "@;
    let h = haystack(s);
    assert(h == s.name + sp + s.singer + sp + s.album_name);
    assert forall|k: int| 0 <= k < h.len() implies h[k] != '\u{3a3}' by {
        if k < s.name.len() {
            assert(h[k] == s.name[k]);
        } else if k < s.name.len() + 1 {
            assert(h[k] == sp[0]);
        } else if k < s.name.len() + 1 + s.singer.len() {
            assert(h[k] == s.singer[k - s.name.len() - 1]);
        } else if k < s.name.len() + 2 + s.singer.len() {
            assert(h[k] == sp[0]);
        } else {
            assert(h[k] == s.album_name[k - s.name.len() - 2 - s.singer.len()]);
        }
    }
    lemma_lower_text_concat(s.name + sp + s.singer + sp, s.album_name);
    lemma_lower_text_concat(s.name + sp + s.singer, sp);
    lemma_lower_text_concat(s.name + sp, s.singer);
    lemma_lower_text_concat(s.name, sp);
    let ln = lower_text(s.name);
    let ls = lower_text(sp);
    let lg = lower_text(s.singer);
    let la = lower_text(s.album_name);
    assert(lower_text(h) == ln + ls + lg + ls + la);
    if contains_text(ln, q) {
        lemma_contains_within(Seq::empty(), ln, ls + lg + ls + la, q);
        assert(Seq::<char>::empty() + ln + (ls + lg + ls + la) == lower_text(h));
    } else if contains_text(lg, q) {
        lemma_contains_within(ln + ls, lg, ls + la, q);
        assert(ln + ls + lg + (ls + la) == lower_text(h));
    } else {
        lemma_contains_within(ln + ls + lg + ls, la, Seq::empty(), q);
        assert(ln + ls + lg + ls + la + Seq::<char>::empty() == lower_text(h));
    }
}

/// Positions among the first `n` songs that match `q`, in order.
pub open spec fn matching_upto(songs: Seq<SongView>, q: Seq<char>, n: int) -> Seq<usize>
    decreases n,
{
    if n <= 0 {
        Seq::empty()
    } else if song_matches(songs[n - 1], q) {
        matching_upto(songs, q, n - 1).push((n - 1) as usize)
    } else {
        matching_upto(songs, q, n - 1)
    }
}

/// The positions of the queue that the filter shows: all when the trimmed,
/// lower-cased filter is empty, else those whose text contains it.
pub open spec fn visible(songs: Seq<SongView>, filter: Seq<char>) -> Seq<usize> {
    let q = str_lowercase(trim_ws(filter));
    if q.len() == 0 {
        Seq::new(songs.len(), |i: int| i as usize)
    } else {
        matching_upto(songs, q, songs.len() as int)
    }
}

/// The first visible position, or 0.
pub open spec fn first_visible(v: Seq<usize>) -> usize {
    if v.len() > 0 { v[0] } else { 0 }
}

/// Whether song `s` matches the lower-case query `q`.
fn matches_query(s: &SongInfo, q: &Vec<char>) -> (r: bool)
    ensures
        r == song_matches(s@, q@),
        found_in_fields(s@, q@) ==> r,
{
    let mut h = s.name.clone();
    push_str(&mut h, " ");
    push_str(&mut h, s.singer.as_str());
    push_str(&mut h, " ");
    push_str(&mut h, s.album_name.as_str());
    proof {
        reveal_strlit(" ");
        assert(h@ == haystack(s@));
    }
    let lower = lowercase(h.as_str());
    proof {
        if found_in_fields(s@, q@) {
            lemma_fields_in_haystack(s@, q@);
        }
    }
    let lv = chars_of(lower.as_str());
    let q_text = string_of_range(q, 0, q.len());
    assert(q@.subrange(0, q@.len() as int) == q@);
    contains_lit(&lv, q_text.as_str())
}

/// The positions of the queue that the filter shows (see [`visible`]).
pub fn filtered_indices(songs: &[SongInfo], filter: &str) -> (r: Vec<usize>)
    ensures
        r@ == visible(songs_view(songs@), filter@),
        forall|k: int|
            0 <= k < songs@.len() && found_in_fields(#[trigger] songs@[k]@, str_lowercase(trim_ws(filter@)))
                ==> r@.contains(k as usize),
{
    let ghost sv = songs_view(songs@);
    let t = trim_str(filter);
    let ql = lowercase(t.as_str());
    let q = chars_of(ql.as_str());
    let mut r: Vec<usize> = Vec::new();
    let mut i: usize = 0;
    if q.len() == 0 {
        while i < songs.len()
            invariant
                i <= songs.len(),
                r@ == Seq::new(i as nat, |k: int| k as usize),
            decreases songs.len() - i,
        {
            r.push(i);
            assert(r@ =~= Seq::new((i + 1) as nat, |k: int| k as usize));
            i += 1;
        }
        assert forall|k: int| 0 <= k < songs@.len() implies #[trigger] r@.contains(k as usize) by {
            assert(r@[k] == k as usize);
        }
        return r;
    }
    while i < songs.len()
        invariant
            i <= songs.len(),
            sv == songs_view(songs@),
            q@ == str_lowercase(trim_ws(filter@)),
            r@ == matching_upto(sv, q@, i as int),
            forall|k: int| 0 <= k < i && found_in_fields(#[trigger] songs@[k]@, q@) ==> r@.contains(k as usize),
        decreases songs.len() - i,
    {
        let ghost before = r@;
        if matches_query(&songs[i], &q) {
            r.push(i);
            assert(r@.last() == i);
        }
        assert forall|k: int| 0 <= k < i + 1 && found_in_fields(#[trigger] songs@[k]@, q@) implies r@.contains(k as usize) by {
            if k < i {
                let m = choose|m: int| 0 <= m < before.len() && before[m] == k as usize;
                assert(r@[m] == k as usize);
            } else {
                assert(r@[r@.len() - 1] == k as usize);
            }
        }
        i += 1;
    }
    r
}

/// The first position of `x` in `v` from `k` on, or 0 when it is not there.
pub open spec fn pos_from(v: Seq<usize>, x: usize, k: int) -> int
    decreases v.len() - k,
{
    if k < 0 || k >= v.len() {
        0
    } else if v[k] == x {
        k
    } else {
        pos_from(v, x, k + 1)
    }
}

/// Moving up through the visible positions `v` from `sel` (placed at its
/// first position in `v`, else at the top): the previous one; at the top the
/// last one when wrapping, else the first.
pub open spec fn up_target(v: Seq<usize>, sel: usize, wrap: bool) -> usize {
    let p = pos_from(v, sel, 0);
    if p == 0 {
        if wrap { v.last() } else { v[0] }
    } else {
        v[p - 1]
    }
}

/// Moving down through the visible positions: the next one; at the bottom
/// the first one when wrapping, else the last.
pub open spec fn down_target(v: Seq<usize>, sel: usize, wrap: bool) -> usize {
    let p = pos_from(v, sel, 0);
    if p < v.len() - 1 {
        v[p + 1]
    } else if wrap {
        v[0]
    } else {
        v.last()
    }
}

/// `pos_from` stays inside a non-empty sequence.
proof fn lemma_pos_from(v: Seq<usize>, x: usize, k: int)
    requires
        0 <= k,
        v.len() > 0,
    ensures
        0 <= pos_from(v, x, k) < v.len(),
    decreases v.len() - k,
{
    if k < v.len() && v[k] != x {
        lemma_pos_from(v, x, k + 1);
    }
}

/// The first position of `x` in `v`, or 0.
fn position_of(v: &Vec<usize>, x: usize) -> (r: usize)
    requires
        v@.len() > 0,
    ensures
        r == pos_from(v@, x, 0),
        r < v@.len(),
{
    let mut k: usize = 0;
    while k < v.len()
        invariant
            k <= v.len(),
            v@.len() > 0,
            pos_from(v@, x, 0) == pos_from(v@, x, k as int),
        decreases v.len() - k,
    {
        if v[k] == x {
            return k;
        }
        k += 1;
    }
    proof {
        lemma_pos_from(v@, x, 0);
    }
    0
}

/// The visible position above `sel` (see [`up_target`]).
pub fn visible_up(v: &Vec<usize>, sel: usize, wrap: bool) -> (r: usize)
    requires
        v@.len() > 0,
    ensures
        r == up_target(v@, sel, wrap),
{
    let p = position_of(v, sel);
    if p == 0 {
        if wrap {
            v[v.len() - 1]
        } else {
            v[0]
        }
    } else {
        v[p - 1]
    }
}

/// The visible position below `sel` (see [`down_target`]).
pub fn visible_down(v: &Vec<usize>, sel: usize, wrap: bool) -> (r: usize)
    requires
        v@.len() > 0,
    ensures
        r == down_target(v@, sel, wrap),
{
    let p = position_of(v, sel);
    if p < v.len() - 1 {
        v[p + 1]
    } else if wrap {
        v[0]
    } else {
        v[v.len() - 1]
    }
}

/// The keyboard state of the main page.
#[derive(Debug, Clone)]
pub struct MainPageKeys {
    /// Selected position of the queue.
    pub selected: usize,
    /// First queue row shown.
    pub scroll: usize,
    /// The quick filter of the queue.
    pub queue_filter: String,
    /// The filter is being typed.
    pub queue_filter_active: bool,
    /// The lyrics fill the page.
    pub lyric_fullscreen: bool,
    /// A divider of the layout is being dragged.
    pub resizing: bool,
    /// A first clear key was pressed and waits for confirmation.
    pub clear_armed: bool,
    /// The queue entry being dragged with the mouse.
    pub dragging: Option<usize>,
}

/// The keyboard state of the main page as values.
pub struct MainKeysModel {
    pub selected: usize,
    pub scroll: usize,
    pub queue_filter: Seq<char>,
    pub queue_filter_active: bool,
    pub lyric_fullscreen: bool,
    pub resizing: bool,
    pub clear_armed: bool,
    pub dragging: Option<usize>,
}

impl View for MainPageKeys {
    type V = MainKeysModel;

    open spec fn view(&self) -> MainKeysModel {
        MainKeysModel {
            selected: self.selected,
            scroll: self.scroll,
            queue_filter: self.queue_filter@,
            queue_filter_active: self.queue_filter_active,
            lyric_fullscreen: self.lyric_fullscreen,
            resizing: self.resizing,
            clear_armed: self.clear_armed,
            dragging: self.dragging,
        }
    }
}

/// What the main page asks of the application after a key press.
#[derive(Debug, Clone, Copy, PartialEq, Eq, Structural)]
pub enum MainCommand {
    Nothing,
    /// Drop the preview of the divider being dragged.
    CancelResize,
    /// Move the queue entry at `from` to `to`.
    MoveItem { from: usize, to: usize },
    /// Remove the queue entry at this position.
    RemoveAt(usize),
    /// Remember the time of a first clear key and warn that a second one clears the queue.
    ArmClear,
    /// Clear the queue and stop playback.
    ClearQueue,
    /// Play the queue from this position.
    Play(usize),
    /// Toggle the favourite of the song at this position.
    ToggleFavorite(usize),
}

/// The last position of a queue of `len` songs (0 when empty).
pub open spec fn last_row(len: usize) -> usize {
    if len > 0 { (len - 1) as usize } else { 0 }
}

/// The selection kept inside a queue of `len` songs: a selection past the
/// end goes to the current song, itself kept inside the queue.
pub open spec fn clamped_selection(sel: usize, len: usize, current: usize) -> usize {
    if sel >= len {
        if current < last_row(len) { current } else { last_row(len) }
    } else {
        sel
    }
}

/// The state after editing the filter to `f`: the first visible song is
/// selected and the queue is shown from the top.
pub open spec fn refiltered(m: MainKeysModel, songs: Seq<SongView>, f: Seq<char>) -> MainKeysModel {
    MainKeysModel { queue_filter: f, selected: first_visible(visible(songs, f)), scroll: 0, ..m }
}

/// Keys while the filter is typed, and the key that starts typing it;
/// `None` leaves the key to the rest of the page.
pub open spec fn filter_step(m: MainKeysModel, key: KeyEvent, songs: Seq<SongView>) -> Option<(MainKeysModel, MainCommand)> {
    let plain = key.modifiers == no_mods();
    let shift = key.modifiers == (KeyModifiers { shift: true, ..no_mods() });
    if m.queue_filter_active {
        match key.code {
            KeyCode::Esc => Some((
                MainKeysModel { queue_filter_active: false, queue_filter: Seq::empty(), selected: 0, scroll: 0, ..m },
                MainCommand::Nothing,
            )),
            KeyCode::Enter => Some((MainKeysModel { queue_filter_active: false, ..m }, MainCommand::Nothing)),
            KeyCode::Backspace => Some((
                refiltered(m, songs, if m.queue_filter.len() > 0 { m.queue_filter.drop_last() } else { m.queue_filter }),
                MainCommand::Nothing,
            )),
            KeyCode::Char(c) => if plain || shift {
                Some((refiltered(m, songs, m.queue_filter.push(c)), MainCommand::Nothing))
            } else {
                None
            },
            _ => None,
        }
    } else if plain && key.code == KeyCode::Char('/') {
        Some((MainKeysModel { queue_filter_active: true, scroll: 0, ..m }, MainCommand::Nothing))
    } else {
        None
    }
}

/// The queue edits (see [`queue_edit`]); `confirmed` says whether a clear
/// key now confirms an earlier one.
pub open spec fn edit_step(m: MainKeysModel, key: KeyEvent, len: usize, confirmed: bool) -> Option<(MainKeysModel, MainCommand)> {
    let sel = m.selected;
    match queue_edit(key) {
        Some(QueueEditCommand::MoveUp) => if sel > 0 {
            Some((MainKeysModel { selected: (sel - 1) as usize, ..m }, MainCommand::MoveItem { from: sel, to: (sel - 1) as usize }))
        } else {
            Some((m, MainCommand::Nothing))
        },
        Some(QueueEditCommand::MoveDown) => if sel + 1 < len {
            Some((MainKeysModel { selected: (sel + 1) as usize, ..m }, MainCommand::MoveItem { from: sel, to: (sel + 1) as usize }))
        } else {
            Some((m, MainCommand::Nothing))
        },
        Some(QueueEditCommand::RemoveSelected) => Some((m, MainCommand::RemoveAt(sel))),
        Some(QueueEditCommand::Clear) => if confirmed {
            Some((MainKeysModel { clear_armed: false, selected: 0, scroll: 0, ..m }, MainCommand::ClearQueue))
        } else {
            Some((MainKeysModel { clear_armed: true, ..m }, MainCommand::ArmClear))
        },
        None => None,
    }
}

/// The selection moved up a page.
pub open spec fn page_up(sel: usize) -> usize {
    if sel >= 5 { (sel - 5) as usize } else { 0 }
}

/// The selection moved down a page, stopping at the last song.
pub open spec fn page_down(sel: usize, len: usize) -> usize {
    if sel + 5 < last_row(len) { (sel + 5) as usize } else { last_row(len) }
}

/// The keys bound on the main page; `None` leaves the key to the built-in keys.
pub open spec fn bound_step(m: MainKeysModel, bound: Option<Action>, v: Seq<usize>, len: usize, wrap: bool) -> Option<(MainKeysModel, MainCommand)> {
    let sel = m.selected;
    match bound {
        Some(Action::ListSelectUp) => Some((
            if v.len() > 0 { MainKeysModel { selected: up_target(v, sel, wrap), ..m } } else { m },
            MainCommand::Nothing,
        )),
        Some(Action::ListSelectDown) => Some((
            if v.len() > 0 { MainKeysModel { selected: down_target(v, sel, wrap), ..m } } else { m },
            MainCommand::Nothing,
        )),
        Some(Action::ListSelectFirst) => Some((MainKeysModel { selected: 0, ..m }, MainCommand::Nothing)),
        Some(Action::ListSelectLast) => Some((MainKeysModel { selected: last_row(len), ..m }, MainCommand::Nothing)),
        Some(Action::ListPageUp) => Some((MainKeysModel { selected: page_up(sel), ..m }, MainCommand::Nothing)),
        Some(Action::ListPageDown) => Some((MainKeysModel { selected: page_down(sel, len), ..m }, MainCommand::Nothing)),
        Some(Action::ListActivate) => Some((m, if sel < len { MainCommand::Play(sel) } else { MainCommand::Nothing })),
        Some(Action::ListToggleFavorite) => Some((m, if sel < len { MainCommand::ToggleFavorite(sel) } else { MainCommand::Nothing })),
        _ => None,
    }
}

/// The built-in keys of the queue; `activation` says whether the key is the
/// song-activation key.
pub open spec fn builtin_step(m: MainKeysModel, key: KeyEvent, len: usize, activation: bool) -> (MainKeysModel, MainCommand) {
    let plain = key.modifiers == no_mods();
    let shift = key.modifiers == (KeyModifiers { shift: true, ..no_mods() });
    let ctrl = key.modifiers == (KeyModifiers { control: true, ..no_mods() });
    let c = key.code;
    let sel = m.selected;
    if plain && (c == KeyCode::Home || c == KeyCode::Char('g')) {
        (MainKeysModel { selected: 0, ..m }, MainCommand::Nothing)
    } else if (plain && (c == KeyCode::End || c == KeyCode::Char('G'))) || (shift && c == KeyCode::Char('G')) {
        (MainKeysModel { selected: last_row(len), ..m }, MainCommand::Nothing)
    } else if (ctrl && c == KeyCode::Char('u')) || (plain && c == KeyCode::PageUp) {
        (MainKeysModel { selected: page_up(sel), ..m }, MainCommand::Nothing)
    } else if (ctrl && c == KeyCode::Char('d')) || (plain && c == KeyCode::PageDown) {
        (MainKeysModel { selected: page_down(sel, len), ..m }, MainCommand::Nothing)
    } else if activation && sel < len {
        (m, MainCommand::Play(sel))
    } else if plain && c == KeyCode::Char('f') && sel < len {
        (m, MainCommand::ToggleFavorite(sel))
    } else {
        (m, MainCommand::Nothing)
    }
}

/// Whether `d` is within the window in which a second clear key confirms
/// the first.
pub open spec fn within_clear_window(d: Duration) -> bool {
    d.total_nanos() <= CLEAR_QUEUE_CONFIRM_SECS * 1_000_000_000
}

/// The next state of the main page and the request of a key press, on a
/// queue `songs` whose current song is at `current`. `bound` is the
/// main-page binding of the key, `wrap` whether moving past an end wraps,
/// `activation` whether the key is the song-activation key and
/// `since_armed` the time since a first clear key armed the page: a clear
/// key confirms only on an armed page within the confirmation window.
pub open spec fn main_step(
    m: MainKeysModel,
    key: KeyEvent,
    songs: Seq<SongView>,
    current: usize,
    bound: Option<Action>,
    wrap: bool,
    activation: bool,
    since_armed: Duration,
) -> (MainKeysModel, MainCommand) {
    let len = songs.len() as usize;
    let plain = key.modifiers == no_mods();
    if m.resizing && key.code == KeyCode::Esc {
        (MainKeysModel { resizing: false, ..m }, MainCommand::CancelResize)
    } else {
        let m1 = MainKeysModel { selected: clamped_selection(m.selected, len, current), ..m };
        if !m1.queue_filter_active && plain && (key.code == KeyCode::Char('v') || key.code == KeyCode::Char('V')) {
            (MainKeysModel { lyric_fullscreen: !m1.lyric_fullscreen, ..m1 }, MainCommand::Nothing)
        } else if filter_step(m1, key, songs) is Some {
            filter_step(m1, key, songs)->0
        } else if edit_step(m1, key, len, m1.clear_armed && within_clear_window(since_armed)) is Some {
            edit_step(m1, key, len, m1.clear_armed && within_clear_window(since_armed))->0
        } else {
            let m2 = if plain && key.code == KeyCode::Esc { MainKeysModel { clear_armed: false, ..m1 } } else { m1 };
            let v = visible(songs, m2.queue_filter);
            if bound_step(m2, bound, v, len, wrap) is Some {
                bound_step(m2, bound, v, len, wrap)->0
            } else {
                builtin_step(m2, key, len, activation)
            }
        }
    }
}

/// Every visible position is a position of the queue.
proof fn lemma_visible_in_queue(songs: Seq<SongView>, q: Seq<char>, n: int)
    requires
        0 <= n <= songs.len() <= usize::MAX,
    ensures
        forall|k: int| 0 <= k < matching_upto(songs, q, n).len() ==> #[trigger] matching_upto(songs, q, n)[k] < n,
    decreases n,
{
    if n > 0 {
        lemma_visible_in_queue(songs, q, n - 1);
        let prev = matching_upto(songs, q, n - 1);
        assert forall|k: int| 0 <= k < matching_upto(songs, q, n).len() implies #[trigger] matching_upto(songs, q, n)[k] < n by {
            if k < prev.len() {
                assert(prev[k] < n - 1);
            }
        }
    }
}

/// Every visible position is a position of the queue.
proof fn lemma_visible_bounded(songs: Seq<SongView>, f: Seq<char>)
    requires
        songs.len() <= usize::MAX,
    ensures
        forall|k: int| 0 <= k < visible(songs, f).len() ==> #[trigger] visible(songs, f)[k] < songs.len(),
{
    lemma_visible_in_queue(songs, str_lowercase(trim_ws(f)), songs.len() as int);
}

/// Law: the queue is cleared only by a clear key on a page that a first
/// clear key armed, within the confirmation window.
pub proof fn lemma_clear_needs_arming(
    m: MainKeysModel,
    key: KeyEvent,
    songs: Seq<SongView>,
    current: usize,
    bound: Option<Action>,
    wrap: bool,
    activation: bool,
    since_armed: Duration,
)
    ensures
        main_step(m, key, songs, current, bound, wrap, activation, since_armed).1 == MainCommand::ClearQueue
            ==> m.clear_armed && within_clear_window(since_armed),
{
}

/// Law: after any key but the Esc that ends dragging a divider, the
/// selection is a position of the (non-empty) queue.
pub proof fn lemma_main_step_keeps_selection(
    m: MainKeysModel,
    key: KeyEvent,
    songs: Seq<SongView>,
    current: usize,
    bound: Option<Action>,
    wrap: bool,
    activation: bool,
    since_armed: Duration,
)
    requires
        0 < songs.len() <= usize::MAX,
        !(m.resizing && key.code == KeyCode::Esc),
    ensures
        main_step(m, key, songs, current, bound, wrap, activation, since_armed).0.selected < songs.len(),
{
    let len = songs.len() as usize;
    let m1 = MainKeysModel { selected: clamped_selection(m.selected, len, current), ..m };
    lemma_visible_bounded(songs, m1.queue_filter);
    lemma_visible_bounded(songs, if m1.queue_filter.len() > 0 { m1.queue_filter.drop_last() } else { m1.queue_filter });
    match key.code {
        KeyCode::Char(c) => lemma_visible_bounded(songs, m1.queue_filter.push(c)),
        _ => {},
    }
    let plain = key.modifiers == no_mods();
    let m2 = if plain && key.code == KeyCode::Esc { MainKeysModel { clear_armed: false, ..m1 } } else { m1 };
    let v = visible(songs, m2.queue_filter);
    if v.len() > 0 {
        lemma_pos_from(v, m2.selected, 0);
        let p = pos_from(v, m2.selected, 0);
        assert(v[p] < songs.len());
        assert(v[v.len() - 1] < songs.len());
        assert(v[0] < songs.len());
        if p > 0 {
            assert(v[p - 1] < songs.len());
        }
        if p + 1 < v.len() {
            assert(v[p + 1] < songs.len());
        }
    }
}

/// The last position of a queue of `len` songs.
fn last_row_of(len: usize) -> (r: usize)
    ensures
        r == last_row(len),
{
    if len > 0 {
        len - 1
    } else {
        0
    }
}

/// The selection moved down a page (see [`page_down`]).
fn page_down_of(sel: usize, len: usize) -> (r: usize)
    ensures
        r == page_down(sel, len),
{
    let last = last_row_of(len);
    if sel < last && last - sel > 5 {
        sel + 5
    } else {
        last
    }
}

impl MainPageKeys {
    /// The first song selected, no filter, nothing armed or dragged.
    pub fn new() -> (r: MainPageKeys)
        ensures
            r.selected == 0 && r.scroll == 0 && r.queue_filter@.len() == 0,
            !r.queue_filter_active && !r.lyric_fullscreen && !r.resizing && !r.clear_armed,
            r.dragging is None,
    {
        MainPageKeys {
            selected: 0,
            scroll: 0,
            queue_filter: String::new(),
            queue_filter_active: false,
            lyric_fullscreen: false,
            resizing: false,
            clear_armed: false,
            dragging: None,
        }
    }

    /// Selects the first visible song for the filter and shows the top.
    fn refilter(&mut self, songs: &[SongInfo])
        ensures
            final(self)@ == refiltered(old(self)@, songs_view(songs@), old(self)@.queue_filter),
    {
        let v = filtered_indices(songs, self.queue_filter.as_str());
        self.selected = if v.len() > 0 {
            v[0]
        } else {
            0
        };
        self.scroll = 0;
    }

    /// Handles the filter keys (see [`filter_step`]).
    fn filter_key(&mut self, key: &KeyEvent, songs: &[SongInfo]) -> (r: Option<MainCommand>)
        ensures
            match filter_step(old(self)@, *key, songs_view(songs@)) {
                Some(p) => r == Some(p.1) && final(self)@ == p.0,
                None => r is None && final(self)@ == old(self)@,
            },
    {
        let plain = key.modifiers == KeyModifiers::none();
        let shift = key.modifiers == KeyModifiers::shift_only();
        if self.queue_filter_active {
            match key.code {
                KeyCode::Esc => {
                    self.queue_filter_active = false;
                    self.queue_filter = String::new();
                    self.selected = 0;
                    self.scroll = 0;
                    Some(MainCommand::Nothing)
                },
                KeyCode::Enter => {
                    self.queue_filter_active = false;
                    Some(MainCommand::Nothing)
                },
                KeyCode::Backspace => {
                    let v = chars_of(self.queue_filter.as_str());
                    if v.len() > 0 {
                        self.queue_filter = string_of_range(&v, 0, v.len() - 1);
                        assert(self.queue_filter@ =~= old(self)@.queue_filter.drop_last());
                    }
                    self.refilter(songs);
                    Some(MainCommand::Nothing)
                },
                KeyCode::Char(c) => {
                    if plain || shift {
                        push_char(&mut self.queue_filter, c);
                        self.refilter(songs);
                        Some(MainCommand::Nothing)
                    } else {
                        None
                    }
                },
                _ => None,
            }
        } else if plain && key.code == KeyCode::Char('/') {
            self.queue_filter_active = true;
            self.scroll = 0;
            Some(MainCommand::Nothing)
        } else {
            None
        }
    }

    /// Handles the queue edits (see [`edit_step`]).
    fn edit_key(&mut self, key: &KeyEvent, len: usize, confirmed: bool) -> (r: Option<MainCommand>)
        ensures
            match edit_step(old(self)@, *key, len, confirmed) {
                Some(p) => r == Some(p.1) && final(self)@ == p.0,
                None => r is None && final(self)@ == old(self)@,
            },
    {
        let sel = self.selected;
        match queue_edit_command(key) {
            Some(QueueEditCommand::MoveUp) => {
                if sel > 0 {
                    self.selected = sel - 1;
                    Some(MainCommand::MoveItem { from: sel, to: sel - 1 })
                } else {
                    Some(MainCommand::Nothing)
                }
            },
            Some(QueueEditCommand::MoveDown) => {
                if len > 0 && sel < len - 1 {
                    self.selected = sel + 1;
                    Some(MainCommand::MoveItem { from: sel, to: sel + 1 })
                } else {
                    Some(MainCommand::Nothing)
                }
            },
            Some(QueueEditCommand::RemoveSelected) => Some(MainCommand::RemoveAt(sel)),
            Some(QueueEditCommand::Clear) => {
                if confirmed {
                    self.clear_armed = false;
                    self.selected = 0;
                    self.scroll = 0;
                    Some(MainCommand::ClearQueue)
                } else {
                    self.clear_armed = true;
                    Some(MainCommand::ArmClear)
                }
            },
            None => None,
        }
    }

    /// Handles the keys bound on the main page (see [`bound_step`]).
    fn bound_key(&mut self, bound: Option<Action>, v: &Vec<usize>, len: usize, wrap: bool) -> (r: Option<MainCommand>)
        ensures
            match bound_step(old(self)@, bound, v@, len, wrap) {
                Some(p) => r == Some(p.1) && final(self)@ == p.0,
                None => r is None && final(self)@ == old(self)@,
            },
    {
        let sel = self.selected;
        match bound {
            Some(Action::ListSelectUp) => {
                if v.len() > 0 {
                    self.selected = visible_up(v, sel, wrap);
                }
                Some(MainCommand::Nothing)
            },
            Some(Action::ListSelectDown) => {
                if v.len() > 0 {
                    self.selected = visible_down(v, sel, wrap);
                }
                Some(MainCommand::Nothing)
            },
            Some(Action::ListSelectFirst) => {
                self.selected = 0;
                Some(MainCommand::Nothing)
            },
            Some(Action::ListSelectLast) => {
                self.selected = last_row_of(len);
                Some(MainCommand::Nothing)
            },
            Some(Action::ListPageUp) => {
                self.selected = sel.saturating_sub(QUEUE_PAGE_ROWS);
                Some(MainCommand::Nothing)
            },
            Some(Action::ListPageDown) => {
                self.selected = page_down_of(sel, len);
                Some(MainCommand::Nothing)
            },
            Some(Action::ListActivate) => Some(
                if sel < len {
                    MainCommand::Play(sel)
                } else {
                    MainCommand::Nothing
                },
            ),
            Some(Action::ListToggleFavorite) => Some(
                if sel < len {
                    MainCommand::ToggleFavorite(sel)
                } else {
                    MainCommand::Nothing
                },
            ),
            _ => None,
        }
    }

    /// Handles the built-in keys (see [`builtin_step`]).
    fn builtin_key(&mut self, key: &KeyEvent, len: usize, activation: bool) -> (r: MainCommand)
        ensures
            (final(self)@, r) == builtin_step(old(self)@, *key, len, activation),
    {
        let plain = key.modifiers == KeyModifiers::none();
        let shift = key.modifiers == KeyModifiers::shift_only();
        let ctrl = key.modifiers == KeyModifiers::control_only();
        let c = key.code;
        let sel = self.selected;
        if plain && (c == KeyCode::Home || c == KeyCode::Char('g')) {
            self.selected = 0;
            MainCommand::Nothing
        } else if (plain && (c == KeyCode::End || c == KeyCode::Char('G'))) || (shift && c == KeyCode::Char('G')) {
            self.selected = last_row_of(len);
            MainCommand::Nothing
        } else if (ctrl && c == KeyCode::Char('u')) || (plain && c == KeyCode::PageUp) {
            self.selected = sel.saturating_sub(QUEUE_PAGE_ROWS);
            MainCommand::Nothing
        } else if (ctrl && c == KeyCode::Char('d')) || (plain && c == KeyCode::PageDown) {
            self.selected = page_down_of(sel, len);
            MainCommand::Nothing
        } else if activation && sel < len {
            MainCommand::Play(sel)
        } else if plain && c == KeyCode::Char('f') && sel < len {
            MainCommand::ToggleFavorite(sel)
        } else {
            MainCommand::Nothing
        }
    }

    /// Handles a key press on the main page (see [`main_step`]): `songs` is
    /// the queue and `current` the position of its current song.
    #[verifier::rlimit(30)]
    pub fn handle_input(
        &mut self,
        key: &KeyEvent,
        songs: &[SongInfo],
        current: usize,
        resolver: &KeybindingResolver,
        wrap_navigation: bool,
        activation_key: bool,
        since_armed: Duration,
    ) -> (r: MainCommand)
        ensures
            (final(self)@, r) == main_step(
                old(self)@,
                *key,
                songs_view(songs@),
                current,
                page_action(resolver.page_scopes(), "main"@, normalized(key.modifiers, key.code)),
                wrap_navigation,
                activation_key,
                since_armed,
            ),
    {
        if self.resizing && key.code == KeyCode::Esc {
            self.resizing = false;
            return MainCommand::CancelResize;
        }
        let len = songs.len();
        if self.selected >= len {
            let last = last_row_of(len);
            self.selected = if current < last {
                current
            } else {
                last
            };
        }
        let plain = key.modifiers == KeyModifiers::none();
        if !self.queue_filter_active && plain && (key.code == KeyCode::Char('v') || key.code == KeyCode::Char('V')) {
            self.lyric_fullscreen = !self.lyric_fullscreen;
            return MainCommand::Nothing;
        }
        match self.filter_key(key, songs) {
            Some(command) => {
                return command;
            },
            None => {},
        }
        let confirmed = self.clear_armed && clear_is_confirmed(Some(since_armed));
        match self.edit_key(key, len, confirmed) {
            Some(command) => {
                return command;
            },
            None => {},
        }
        if plain && key.code == KeyCode::Esc {
            self.clear_armed = false;
        }
        let bound = resolver.resolve_page("main", key);
        let v = filtered_indices(songs, self.queue_filter.as_str());
        match self.bound_key(bound, &v, len, wrap_navigation) {
            Some(command) => {
                return command;
            },
            None => {},
        }
        self.builtin_key(key, len, activation_key)
    }

    /// After the entry at `index` was removed from the queue, which now
    /// holds `remaining` songs: the selection goes to `index`, both it and the
    /// first row shown kept inside the queue.
    pub fn after_removal(&mut self, index: usize, remaining: usize)
        ensures
            final(self).selected == if index < last_row(remaining) { index } else { last_row(remaining) },
            final(self).scroll == if old(self).scroll < last_row(remaining) { old(self).scroll } else { last_row(remaining) },
            final(self).queue_filter@ == old(self).queue_filter@,
            final(self).queue_filter_active == old(self).queue_filter_active,
            final(self).lyric_fullscreen == old(self).lyric_fullscreen,
            final(self).resizing == old(self).resizing,
            final(self).clear_armed == old(self).clear_armed,
            final(self).dragging == old(self).dragging,
    {
        let last = last_row_of(remaining);
        self.selected = if index < last {
            index
        } else {
            last
        };
        self.scroll = if self.scroll < last {
            self.scroll
        } else {
            last
        };
    }
}

/// What removing a queue entry asks of the application.
#[derive(Debug, Clone, Copy, PartialEq, Eq, Structural)]
pub enum RemoveOutcome {
    /// Another song than the current one was removed (or nothing was).
    Nothing,
    /// The current song was the last one: stop playing and show no song.
    Stopped,
    /// The current song was removed: play the queue from this position.
    Play(usize),
}

impl MainPageKeys {
    /// Removes the queue entry at `index`, keeping the selection and the
    /// first row shown inside the queue (see [`MainPageKeys::after_removal`]).
    pub fn remove_at(&mut self, index: usize, queue: &mut PlaylistManager) -> (r: RemoveOutcome)
        requires
            old(queue).wf(),
        ensures
            final(queue).wf(),
            index >= old(queue).songs().len() ==> r == RemoveOutcome::Nothing && final(self)@ == old(self)@
                && final(queue).songs() == old(queue).songs() && final(queue).index() == old(queue).index(),
            index < old(queue).songs().len() ==> {
                let remaining = old(queue).songs().remove(index as int);
                let last = last_row(remaining.len() as usize);
                &&& final(queue).songs() == remaining
                &&& final(queue).index() == position_after_remove(old(queue).index(), index as int, old(queue).songs().len() as int)
                &&& final(self)@ == MainKeysModel {
                    selected: if index < last { index } else { last },
                    scroll: if old(self).scroll < last { old(self).scroll } else { last },
                    ..old(self)@
                }
                &&& r == if index != old(queue).index() {
                    RemoveOutcome::Nothing
                } else if remaining.len() == 0 {
                    RemoveOutcome::Stopped
                } else {
                    RemoveOutcome::Play(final(queue).index() as usize)
                }
            },
            final(queue).mode_of() == old(queue).mode_of(),
    {
        let len = queue.len();
        if index >= len {
            return RemoveOutcome::Nothing;
        }
        let current = queue.snapshot().1;
        let removing_current = index == current;
        queue.remove(index);
        let remaining = queue.len();
        let next = queue.snapshot().1;
        self.after_removal(index, remaining);
        if !removing_current {
            RemoveOutcome::Nothing
        } else if remaining == 0 {
            RemoveOutcome::Stopped
        } else {
            RemoveOutcome::Play(next)
        }
    }
}

} // verus!
