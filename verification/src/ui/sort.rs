//! Sort orders of the song lists (favourites, history, local library).
//!
//! Every order ends with the position in the stored list, so that two songs
//! never compare equal and sorting is stable.
use vstd::prelude::*;
use crate::song::{EXTRA_FILE_MODIFIED_UNIX_NANOS, SongInfo, SongView, songs_view};
use crate::text::{char_to_lowercase, lower_text, chars_lt, chars_of, lemma_lex_total, lemma_lex_trans, lex_lt, parse_u128, parse_unsigned, str_eq};

verus! {

/// The list being sorted.
#[derive(Debug, Clone, Copy, PartialEq, Eq, Structural)]
pub enum SortTarget {
    Favorites,
    History,
    Local,
}

/// How a list is sorted.
#[derive(Debug, Clone, Copy, PartialEq, Eq, Structural)]
pub enum SortMode {
    Newest,
    Oldest,
    TitleAsc,
    TitleDesc,
    ArtistAsc,
    AlbumAsc,
    DurationAsc,
    DurationDesc,
    SourceAsc,
}

/// The mode after `m` in the cycle Newest, Oldest, TitleAsc, TitleDesc,
/// ArtistAsc, AlbumAsc, DurationAsc, DurationDesc, SourceAsc, Newest.
pub open spec fn next_mode(m: SortMode) -> SortMode {
    match m {
        SortMode::Newest => SortMode::Oldest,
        SortMode::Oldest => SortMode::TitleAsc,
        SortMode::TitleAsc => SortMode::TitleDesc,
        SortMode::TitleDesc => SortMode::ArtistAsc,
        SortMode::ArtistAsc => SortMode::AlbumAsc,
        SortMode::AlbumAsc => SortMode::DurationAsc,
        SortMode::DurationAsc => SortMode::DurationDesc,
        SortMode::DurationDesc => SortMode::SourceAsc,
        SortMode::SourceAsc => SortMode::Newest,
    }
}

/// The label of mode `m` on list `t`.
pub open spec fn mode_label(m: SortMode, t: SortTarget) -> Seq<char> {
    match (m, t) {
        (SortMode::Newest, SortTarget::Favorites) => "最新收藏"@,
        (SortMode::Newest, SortTarget::History) => "最近播放"@,
        (SortMode::Newest, SortTarget::Local) => "最新修改"@,
        (SortMode::Oldest, SortTarget::Favorites) => "最早收藏"@,
        (SortMode::Oldest, SortTarget::History) => "最早播放"@,
        (SortMode::Oldest, SortTarget::Local) => "最早修改"@,
        (SortMode::TitleAsc, _) => "名称升序"@,
        (SortMode::TitleDesc, _) => "名称降序"@,
        (SortMode::ArtistAsc, _) => "歌手升序"@,
        (SortMode::AlbumAsc, _) => "专辑升序"@,
        (SortMode::DurationAsc, _) => "时长升序"@,
        (SortMode::DurationDesc, _) => "时长降序"@,
        (SortMode::SourceAsc, SortTarget::Local) => "路径升序"@,
        (SortMode::SourceAsc, _) => "来源升序"@,
    }
}

/// Nine steps of the cycle lead back to the starting mode.
pub proof fn lemma_mode_cycle(m: SortMode)
    ensures
        next_mode(next_mode(next_mode(next_mode(next_mode(next_mode(next_mode(next_mode(next_mode(m))))))))) == m,
{
}

impl SortMode {
    /// The next mode of the cycle (see [`next_mode`]).
    pub fn next(self) -> (r: SortMode)
        ensures
            r == next_mode(self),
    {
        match self {
            SortMode::Newest => SortMode::Oldest,
            SortMode::Oldest => SortMode::TitleAsc,
            SortMode::TitleAsc => SortMode::TitleDesc,
            SortMode::TitleDesc => SortMode::ArtistAsc,
            SortMode::ArtistAsc => SortMode::AlbumAsc,
            SortMode::AlbumAsc => SortMode::DurationAsc,
            SortMode::DurationAsc => SortMode::DurationDesc,
            SortMode::DurationDesc => SortMode::SourceAsc,
            SortMode::SourceAsc => SortMode::Newest,
        }
    }

    /// The label of the mode on list `target`.
    pub fn label(self, target: SortTarget) -> (r: &'static str)
        ensures
            r@ == mode_label(self, target),
    {
        match (self, target) {
            (SortMode::Newest, SortTarget::Favorites) => "最新收藏",
            (SortMode::Newest, SortTarget::History) => "最近播放",
            (SortMode::Newest, SortTarget::Local) => "最新修改",
            (SortMode::Oldest, SortTarget::Favorites) => "最早收藏",
            (SortMode::Oldest, SortTarget::History) => "最早播放",
            (SortMode::Oldest, SortTarget::Local) => "最早修改",
            (SortMode::TitleAsc, _) => "名称升序",
            (SortMode::TitleDesc, _) => "名称降序",
            (SortMode::ArtistAsc, _) => "歌手升序",
            (SortMode::AlbumAsc, _) => "专辑升序",
            (SortMode::DurationAsc, _) => "时长升序",
            (SortMode::DurationDesc, _) => "时长降序",
            (SortMode::SourceAsc, SortTarget::Local) => "路径升序",
            (SortMode::SourceAsc, _) => "来源升序",
        }
    }
}

/// Sort mode and list position of a page.
#[derive(Debug, Clone, Copy)]
pub struct SortState {
    pub selected: usize,
    pub scroll: usize,
    pub mode: SortMode,
}

impl SortState {
    /// The top of a list sorted by `mode`.
    pub fn new(mode: SortMode) -> (r: SortState)
        ensures
            r.selected == 0,
            r.scroll == 0,
            r.mode == mode,
    {
        SortState { selected: 0, scroll: 0, mode }
    }

    /// Moves to the next mode and back to the top of the list; returns the
    /// new mode.
    pub fn cycle(&mut self) -> (r: SortMode)
        ensures
            r == next_mode(old(self).mode),
            final(self).mode == r,
            final(self).selected == 0,
            final(self).scroll == 0,
    {
        self.mode = self.mode.next();
        self.reset_position();
        self.mode
    }

    /// Back to the top of the list.
    pub fn reset_position(&mut self)
        ensures
            final(self).selected == 0,
            final(self).scroll == 0,
            final(self).mode == old(self).mode,
    {
        self.selected = 0;
        self.scroll = 0;
    }
}

/// `-1`, `0` or `1` as `a` is below, equal to or above `b`.
pub open spec fn order_int(a: int, b: int) -> int {
    if a < b {
        -1
    } else if a == b {
        0
    } else {
        1
    }
}

/// Three-way lexicographic comparison of character sequences (the order of
/// `str`).
pub open spec fn order_seq(a: Seq<char>, b: Seq<char>) -> int {
    if lex_lt(a, b) {
        -1
    } else if a == b {
        0
    } else {
        1
    }
}

/// Case-insensitive comparison of texts: of their lower-case mappings.
pub open spec fn order_text(a: Seq<char>, b: Seq<char>) -> int {
    order_seq(lower_text(a), lower_text(b))
}

/// Comparison of optional paths: no path first, then by text.
pub open spec fn order_path(a: Option<Seq<char>>, b: Option<Seq<char>>) -> int {
    match (a, b) {
        (None, None) => 0,
        (None, Some(_)) => -1,
        (Some(_), None) => 1,
        (Some(x), Some(y)) => order_seq(x, y),
    }
}

/// `c`, or `d` when `c` is 0 (`Ordering::then_with`).
pub open spec fn then(c: int, d: int) -> int {
    if c != 0 {
        c
    } else {
        d
    }
}

/// Position of the first extra field of `extra` with key `key`.
pub open spec fn extra_index(extra: Seq<(Seq<char>, Seq<char>)>, key: Seq<char>) -> int
    decreases extra.len(),
{
    if extra.len() == 0 {
        -1
    } else if extra[0].0 == key {
        0
    } else {
        let r = extra_index(extra.drop_first(), key);
        if r < 0 {
            -1
        } else {
            r + 1
        }
    }
}

/// The cached modification time of a local song, in nanoseconds since the
/// Unix epoch; 0 when missing or not a number that fits in `u128`.
pub open spec fn modified_nanos(s: SongView) -> int {
    let i = extra_index(s.extra, EXTRA_FILE_MODIFIED_UNIX_NANOS@);
    if 0 <= i < s.extra.len() {
        match parse_unsigned(s.extra[i].1) {
            Some(n) => if n <= u128::MAX {
                n as int
            } else {
                0
            },
            None => 0,
        }
    } else {
        0
    }
}

/// How song `a` at position `ai` compares with song `b` at position `bi`
/// under `mode` on list `target` (`-1` before, `1` after); the position
/// decides between songs that the mode does not tell apart.
pub open spec fn song_order(a: SongView, ai: int, b: SongView, bi: int, mode: SortMode, target: SortTarget) -> int {
    then(mode_order(a, ai, b, bi, mode, target), order_int(ai, bi))
}

/// How `mode` on list `target` alone compares song `a` at position `ai`
/// with song `b` at position `bi`.
pub open spec fn mode_order(a: SongView, ai: int, b: SongView, bi: int, mode: SortMode, target: SortTarget) -> int {
    match mode {
        SortMode::Newest => match target {
            SortTarget::Favorites => order_int(bi, ai),
            SortTarget::History => order_int(ai, bi),
            SortTarget::Local => then(
                order_int(modified_nanos(b), modified_nanos(a)),
                then(order_text(a.name, b.name), order_path(a.file_path, b.file_path)),
            ),
        },
        SortMode::Oldest => match target {
            SortTarget::Favorites => order_int(ai, bi),
            SortTarget::History => order_int(bi, ai),
            SortTarget::Local => then(
                order_int(modified_nanos(a), modified_nanos(b)),
                then(order_text(a.name, b.name), order_path(a.file_path, b.file_path)),
            ),
        },
        SortMode::TitleAsc => then(order_text(a.name, b.name), order_text(a.singer, b.singer)),
        SortMode::TitleDesc => then(order_text(b.name, a.name), order_text(b.singer, a.singer)),
        SortMode::ArtistAsc => then(order_text(a.singer, b.singer), order_text(a.name, b.name)),
        SortMode::AlbumAsc => then(order_text(a.album_name, b.album_name), order_text(a.name, b.name)),
        SortMode::DurationAsc => then(
            order_int(a.duration.total_nanos(), b.duration.total_nanos()),
            order_text(a.name, b.name),
        ),
        SortMode::DurationDesc => then(
            order_int(b.duration.total_nanos(), a.duration.total_nanos()),
            order_text(a.name, b.name),
        ),
        SortMode::SourceAsc => match target {
            SortTarget::Local => then(order_path(a.file_path, b.file_path), order_text(a.name, b.name)),
            _ => then(
                order_seq(crate::source::source_name(a.source), crate::source::source_name(b.source)),
                order_text(a.name, b.name),
            ),
        },
    }
}

/// The three comparisons `p` (a with b), `q` (b with c) and `r` (a with c)
/// of a total preorder agree: what comes before or with something that comes
/// before or with a third comes before or with it, strictly if either step is
/// strict.
pub open spec fn transitive3(p: int, q: int, r: int) -> bool {
    &&& (p <= 0 && q <= 0 ==> r <= 0)
    &&& (p < 0 && q <= 0 ==> r < 0)
    &&& (p <= 0 && q < 0 ==> r < 0)
    &&& (p >= 0 && q >= 0 ==> r >= 0)
    &&& (p > 0 && q >= 0 ==> r > 0)
    &&& (p >= 0 && q > 0 ==> r > 0)
}

/// Chaining two total preorders with `then` gives a total preorder.
proof fn lemma_then(p: int, q: int, r: int, p2: int, q2: int, r2: int)
    requires
        transitive3(p, q, r),
        transitive3(p2, q2, r2),
        -1 <= p <= 1 && -1 <= q <= 1 && -1 <= r <= 1,
    ensures
        transitive3(then(p, p2), then(q, q2), then(r, r2)),
{
}

proof fn lemma_order_int(a: int, b: int, c: int)
    ensures
        transitive3(order_int(a, b), order_int(b, c), order_int(a, c)),
        order_int(a, b) == -order_int(b, a),
{
}

proof fn lemma_order_seq(a: Seq<char>, b: Seq<char>, c: Seq<char>)
    ensures
        transitive3(order_seq(a, b), order_seq(b, c), order_seq(a, c)),
        order_seq(a, b) == -order_seq(b, a),
{
    lemma_lex_total(a, b);
    lemma_lex_total(b, c);
    lemma_lex_total(a, c);
    if lex_lt(a, b) && lex_lt(b, c) {
        lemma_lex_trans(a, b, c);
    }
    if lex_lt(c, b) && lex_lt(b, a) {
        lemma_lex_trans(c, b, a);
    }
}

proof fn lemma_order_path(a: Option<Seq<char>>, b: Option<Seq<char>>, c: Option<Seq<char>>)
    ensures
        transitive3(order_path(a, b), order_path(b, c), order_path(a, c)),
        order_path(a, b) == -order_path(b, a),
{
    match (a, b, c) {
        (Some(x), Some(y), Some(z)) => lemma_order_seq(x, y, z),
        (Some(x), Some(y), None) => lemma_order_seq(x, y, y),
        (Some(x), None, Some(z)) => lemma_order_seq(x, z, z),
        (None, Some(y), Some(z)) => lemma_order_seq(y, z, z),
        _ => {},
    }
}

proof fn lemma_then_anti(p: int, q: int, p2: int, q2: int)
    requires
        p == -q,
        p2 == -q2,
    ensures
        then(p, p2) == -then(q, q2),
{
}

/// A mode ordering a pair of texts, then another pair, is a total preorder.
proof fn lemma_texts(x: (Seq<char>, Seq<char>, Seq<char>), y: (Seq<char>, Seq<char>, Seq<char>))
    ensures
        transitive3(
            then(order_text(x.0, x.1), order_text(y.0, y.1)),
            then(order_text(x.1, x.2), order_text(y.1, y.2)),
            then(order_text(x.0, x.2), order_text(y.0, y.2)),
        ),
        then(order_text(x.0, x.1), order_text(y.0, y.1)) == -then(order_text(x.1, x.0), order_text(y.1, y.0)),
{
    lemma_order_seq(lower_text(x.0), lower_text(x.1), lower_text(x.2));
    lemma_order_seq(lower_text(y.0), lower_text(y.1), lower_text(y.2));
    lemma_then(order_text(x.0, x.1), order_text(x.1, x.2), order_text(x.0, x.2), order_text(y.0, y.1), order_text(y.1, y.2), order_text(y.0, y.2));
    lemma_then_anti(order_text(x.0, x.1), order_text(x.1, x.0), order_text(y.0, y.1), order_text(y.1, y.0));
}

/// A mode ordering numbers `n`, then texts `t`, is a total preorder.
proof fn lemma_num_text(n: (int, int, int), t: (Seq<char>, Seq<char>, Seq<char>))
    ensures
        transitive3(
            then(order_int(n.0, n.1), order_text(t.0, t.1)),
            then(order_int(n.1, n.2), order_text(t.1, t.2)),
            then(order_int(n.0, n.2), order_text(t.0, t.2)),
        ),
        then(order_int(n.0, n.1), order_text(t.0, t.1)) == -then(order_int(n.1, n.0), order_text(t.1, t.0)),
{
    lemma_order_int(n.0, n.1, n.2);
    lemma_order_seq(lower_text(t.0), lower_text(t.1), lower_text(t.2));
    lemma_then(order_int(n.0, n.1), order_int(n.1, n.2), order_int(n.0, n.2), order_text(t.0, t.1), order_text(t.1, t.2), order_text(t.0, t.2));
    lemma_then_anti(order_int(n.0, n.1), order_int(n.1, n.0), order_text(t.0, t.1), order_text(t.1, t.0));
}

/// A mode ordering numbers `n`, then texts `t`, then paths `p`, is a total
/// preorder.
proof fn lemma_num_text_path(n: (int, int, int), t: (Seq<char>, Seq<char>, Seq<char>), p: (Option<Seq<char>>, Option<Seq<char>>, Option<Seq<char>>))
    ensures
        transitive3(
            then(order_int(n.0, n.1), then(order_text(t.0, t.1), order_path(p.0, p.1))),
            then(order_int(n.1, n.2), then(order_text(t.1, t.2), order_path(p.1, p.2))),
            then(order_int(n.0, n.2), then(order_text(t.0, t.2), order_path(p.0, p.2))),
        ),
        then(order_int(n.0, n.1), then(order_text(t.0, t.1), order_path(p.0, p.1)))
            == -then(order_int(n.1, n.0), then(order_text(t.1, t.0), order_path(p.1, p.0))),
{
    lemma_order_int(n.0, n.1, n.2);
    lemma_order_seq(lower_text(t.0), lower_text(t.1), lower_text(t.2));
    lemma_order_path(p.0, p.1, p.2);
    lemma_then(order_text(t.0, t.1), order_text(t.1, t.2), order_text(t.0, t.2), order_path(p.0, p.1), order_path(p.1, p.2), order_path(p.0, p.2));
    lemma_then(
        order_int(n.0, n.1),
        order_int(n.1, n.2),
        order_int(n.0, n.2),
        then(order_text(t.0, t.1), order_path(p.0, p.1)),
        then(order_text(t.1, t.2), order_path(p.1, p.2)),
        then(order_text(t.0, t.2), order_path(p.0, p.2)),
    );
    lemma_then_anti(order_text(t.0, t.1), order_text(t.1, t.0), order_path(p.0, p.1), order_path(p.1, p.0));
    lemma_then_anti(
        order_int(n.0, n.1),
        order_int(n.1, n.0),
        then(order_text(t.0, t.1), order_path(p.0, p.1)),
        then(order_text(t.1, t.0), order_path(p.1, p.0)),
    );
}

/// A mode ordering paths `p`, then texts `t`, is a total preorder.
proof fn lemma_path_text(p: (Option<Seq<char>>, Option<Seq<char>>, Option<Seq<char>>), t: (Seq<char>, Seq<char>, Seq<char>))
    ensures
        transitive3(
            then(order_path(p.0, p.1), order_text(t.0, t.1)),
            then(order_path(p.1, p.2), order_text(t.1, t.2)),
            then(order_path(p.0, p.2), order_text(t.0, t.2)),
        ),
        then(order_path(p.0, p.1), order_text(t.0, t.1)) == -then(order_path(p.1, p.0), order_text(t.1, t.0)),
{
    lemma_order_path(p.0, p.1, p.2);
    lemma_order_seq(lower_text(t.0), lower_text(t.1), lower_text(t.2));
    lemma_then(order_path(p.0, p.1), order_path(p.1, p.2), order_path(p.0, p.2), order_text(t.0, t.1), order_text(t.1, t.2), order_text(t.0, t.2));
    lemma_then_anti(order_path(p.0, p.1), order_path(p.1, p.0), order_text(t.0, t.1), order_text(t.1, t.0));
}

/// A mode ordering texts `s` exactly, then texts `t`, is a total preorder.
proof fn lemma_seq_text(s: (Seq<char>, Seq<char>, Seq<char>), t: (Seq<char>, Seq<char>, Seq<char>))
    ensures
        transitive3(
            then(order_seq(s.0, s.1), order_text(t.0, t.1)),
            then(order_seq(s.1, s.2), order_text(t.1, t.2)),
            then(order_seq(s.0, s.2), order_text(t.0, t.2)),
        ),
        then(order_seq(s.0, s.1), order_text(t.0, t.1)) == -then(order_seq(s.1, s.0), order_text(t.1, t.0)),
{
    lemma_order_seq(s.0, s.1, s.2);
    lemma_order_seq(lower_text(t.0), lower_text(t.1), lower_text(t.2));
    lemma_then(order_seq(s.0, s.1), order_seq(s.1, s.2), order_seq(s.0, s.2), order_text(t.0, t.1), order_text(t.1, t.2), order_text(t.0, t.2));
    lemma_then_anti(order_seq(s.0, s.1), order_seq(s.1, s.0), order_text(t.0, t.1), order_text(t.1, t.0));
}

/// What a mode alone says is a total preorder, in `-1..=1`.
proof fn lemma_mode_order(a: SongView, ai: int, b: SongView, bi: int, c: SongView, ci: int, mode: SortMode, target: SortTarget)
    ensures
        mode_order(a, ai, b, bi, mode, target) == -mode_order(b, bi, a, ai, mode, target),
        transitive3(
            mode_order(a, ai, b, bi, mode, target),
            mode_order(b, bi, c, ci, mode, target),
            mode_order(a, ai, c, ci, mode, target),
        ),
        -1 <= mode_order(a, ai, b, bi, mode, target) <= 1,
{
    let names = (a.name, b.name, c.name);
    let singers = (a.singer, b.singer, c.singer);
    let paths = (a.file_path, b.file_path, c.file_path);
    match mode {
        SortMode::Newest => match target {
            SortTarget::Local => {
                let (na, nb, nc) = (modified_nanos(a), modified_nanos(b), modified_nanos(c));
                lemma_num_text_path((-na, -nb, -nc), names, paths);
                assert(order_int(-na, -nb) == order_int(nb, na));
                assert(order_int(-nb, -na) == order_int(na, nb));
                assert(order_int(-nb, -nc) == order_int(nc, nb));
                assert(order_int(-na, -nc) == order_int(nc, na));
            },
            _ => {
                lemma_order_int(ci, bi, ai);
                lemma_order_int(bi, ai, ai);
            },
        },
        SortMode::Oldest => match target {
            SortTarget::Local => lemma_num_text_path((modified_nanos(a), modified_nanos(b), modified_nanos(c)), names, paths),
            _ => {
                lemma_order_int(ai, bi, ci);
            },
        },
        SortMode::TitleAsc => lemma_texts(names, singers),
        SortMode::TitleDesc => {
            lemma_texts((c.name, b.name, a.name), (c.singer, b.singer, a.singer));
            lemma_texts((b.name, a.name, a.name), (b.singer, a.singer, a.singer));
        },
        SortMode::ArtistAsc => lemma_texts(singers, names),
        SortMode::AlbumAsc => lemma_texts((a.album_name, b.album_name, c.album_name), names),
        SortMode::DurationAsc => lemma_num_text((a.duration.total_nanos(), b.duration.total_nanos(), c.duration.total_nanos()), names),
        SortMode::DurationDesc => {
            let (da, db, dc) = (a.duration.total_nanos(), b.duration.total_nanos(), c.duration.total_nanos());
            lemma_num_text((-da, -db, -dc), names);
            assert(order_int(-da, -db) == order_int(db, da));
            assert(order_int(-db, -da) == order_int(da, db));
            assert(order_int(-db, -dc) == order_int(dc, db));
            assert(order_int(-da, -dc) == order_int(dc, da));
        },
        SortMode::SourceAsc => match target {
            SortTarget::Local => lemma_path_text(paths, names),
            _ => lemma_seq_text(
                (crate::source::source_name(a.source), crate::source::source_name(b.source), crate::source::source_name(c.source)),
                names,
            ),
        },
    }
}

/// Every sort order is a strict total order on the positions of a list:
/// antisymmetric, transitive, and two songs at different positions never
/// compare equal.
pub proof fn lemma_song_order(a: SongView, ai: int, b: SongView, bi: int, c: SongView, ci: int, mode: SortMode, target: SortTarget)
    ensures
        song_order(a, ai, b, bi, mode, target) == -song_order(b, bi, a, ai, mode, target),
        transitive3(
            song_order(a, ai, b, bi, mode, target),
            song_order(b, bi, c, ci, mode, target),
            song_order(a, ai, c, ci, mode, target),
        ),
        ai != bi ==> song_order(a, ai, b, bi, mode, target) != 0,
        -1 <= song_order(a, ai, b, bi, mode, target) <= 1,
{
    lemma_mode_order(a, ai, b, bi, c, ci, mode, target);
    lemma_order_int(ai, bi, ci);
    lemma_then(
        mode_order(a, ai, b, bi, mode, target),
        mode_order(b, bi, c, ci, mode, target),
        mode_order(a, ai, c, ci, mode, target),
        order_int(ai, bi),
        order_int(bi, ci),
        order_int(ai, ci),
    );
    lemma_then_anti(mode_order(a, ai, b, bi, mode, target), mode_order(b, bi, a, ai, mode, target), order_int(ai, bi), order_int(bi, ai));
}

/// `p` lists the positions of `songs` in the order of `mode` on `target`:
/// each position once, each before the ones after it.
pub open spec fn sorted_positions(songs: Seq<SongView>, p: Seq<int>, mode: SortMode, target: SortTarget) -> bool {
    &&& p.len() == songs.len()
    &&& forall|i: int| 0 <= i < p.len() ==> 0 <= #[trigger] p[i] < songs.len()
    &&& forall|i: int, j: int| 0 <= i < j < p.len() ==> #[trigger] p[i] != #[trigger] p[j]
    &&& forall|i: int, j: int|
        0 <= i < j < p.len() ==> song_order(songs[#[trigger] p[i]], p[i], songs[#[trigger] p[j]], p[j], mode, target) < 0
}

/// A comparison of texts that puts `a` before or with `b`: the lower-case
/// mapping of `a` equals that of `b` or comes before it.
pub open spec fn text_not_after(a: Seq<char>, b: Seq<char>) -> bool {
    lower_text(a) == lower_text(b) || lex_lt(lower_text(a), lower_text(b))
}

proof fn lemma_then_le(c: int, d: int)
    requires
        then(c, d) <= 0,
    ensures
        c <= 0,
{
}

/// What each sort mode promises of two songs of a sorted list, the first
/// before the second: shorter first under `DurationAsc`, longer first under
/// `DurationDesc`; by title, artist or album (ignoring case) under the
/// text modes; newer or older first under `Newest` and `Oldest` (the later
/// favourite, the earlier history entry, the later modified local file);
/// by source name under `SourceAsc` on the online lists.
pub proof fn lemma_sorted_order(songs: Seq<SongView>, p: Seq<int>, mode: SortMode, target: SortTarget)
    requires
        sorted_positions(songs, p, mode, target),
    ensures
        forall|i: int, j: int| #![trigger p[i], p[j]] 0 <= i < j < p.len() ==> {
            let a = songs[p[i]];
            let b = songs[p[j]];
            &&& mode == SortMode::DurationAsc ==> a.duration.total_nanos() <= b.duration.total_nanos()
            &&& mode == SortMode::DurationDesc ==> a.duration.total_nanos() >= b.duration.total_nanos()
            &&& mode == SortMode::TitleAsc ==> text_not_after(a.name, b.name)
            &&& mode == SortMode::TitleDesc ==> text_not_after(b.name, a.name)
            &&& mode == SortMode::ArtistAsc ==> text_not_after(a.singer, b.singer)
            &&& mode == SortMode::AlbumAsc ==> text_not_after(a.album_name, b.album_name)
            &&& (mode == SortMode::Newest && target == SortTarget::Favorites) ==> p[i] > p[j]
            &&& (mode == SortMode::Oldest && target == SortTarget::Favorites) ==> p[i] < p[j]
            &&& (mode == SortMode::Newest && target == SortTarget::History) ==> p[i] < p[j]
            &&& (mode == SortMode::Oldest && target == SortTarget::History) ==> p[i] > p[j]
            &&& (mode == SortMode::Newest && target == SortTarget::Local) ==> modified_nanos(a) >= modified_nanos(b)
            &&& (mode == SortMode::Oldest && target == SortTarget::Local) ==> modified_nanos(a) <= modified_nanos(b)
            &&& (mode == SortMode::SourceAsc && target != SortTarget::Local) ==> (
                crate::source::source_name(a.source) == crate::source::source_name(b.source)
                || lex_lt(crate::source::source_name(a.source), crate::source::source_name(b.source)))
        },
{
    assert forall|i: int, j: int| #![trigger p[i], p[j]] 0 <= i < j < p.len() implies {
        let a = songs[p[i]];
        let b = songs[p[j]];
        &&& mode == SortMode::DurationAsc ==> a.duration.total_nanos() <= b.duration.total_nanos()
        &&& mode == SortMode::DurationDesc ==> a.duration.total_nanos() >= b.duration.total_nanos()
        &&& mode == SortMode::TitleAsc ==> text_not_after(a.name, b.name)
        &&& mode == SortMode::TitleDesc ==> text_not_after(b.name, a.name)
        &&& mode == SortMode::ArtistAsc ==> text_not_after(a.singer, b.singer)
        &&& mode == SortMode::AlbumAsc ==> text_not_after(a.album_name, b.album_name)
        &&& (mode == SortMode::Newest && target == SortTarget::Favorites) ==> p[i] > p[j]
        &&& (mode == SortMode::Oldest && target == SortTarget::Favorites) ==> p[i] < p[j]
        &&& (mode == SortMode::Newest && target == SortTarget::History) ==> p[i] < p[j]
        &&& (mode == SortMode::Oldest && target == SortTarget::History) ==> p[i] > p[j]
        &&& (mode == SortMode::Newest && target == SortTarget::Local) ==> modified_nanos(a) >= modified_nanos(b)
        &&& (mode == SortMode::Oldest && target == SortTarget::Local) ==> modified_nanos(a) <= modified_nanos(b)
        &&& (mode == SortMode::SourceAsc && target != SortTarget::Local) ==> (
            crate::source::source_name(a.source) == crate::source::source_name(b.source)
            || lex_lt(crate::source::source_name(a.source), crate::source::source_name(b.source)))
    } by {
        let a = songs[p[i]];
        let b = songs[p[j]];
        let m = mode_order(a, p[i], b, p[j], mode, target);
        assert(song_order(a, p[i], b, p[j], mode, target) < 0);
        lemma_then_le(m, order_int(p[i], p[j]));
        assert(p[i] != p[j]);
        match mode {
            SortMode::DurationAsc => {
                lemma_then_le(order_int(a.duration.total_nanos(), b.duration.total_nanos()), order_text(a.name, b.name));
            },
            SortMode::DurationDesc => {
                lemma_then_le(order_int(b.duration.total_nanos(), a.duration.total_nanos()), order_text(a.name, b.name));
            },
            SortMode::TitleAsc => {
                lemma_then_le(order_text(a.name, b.name), order_text(a.singer, b.singer));
            },
            SortMode::TitleDesc => {
                lemma_then_le(order_text(b.name, a.name), order_text(b.singer, a.singer));
            },
            SortMode::ArtistAsc => {
                lemma_then_le(order_text(a.singer, b.singer), order_text(a.name, b.name));
            },
            SortMode::AlbumAsc => {
                lemma_then_le(order_text(a.album_name, b.album_name), order_text(a.name, b.name));
            },
            SortMode::Newest => {
                if target == SortTarget::Local {
                    lemma_then_le(
                        order_int(modified_nanos(b), modified_nanos(a)),
                        then(order_text(a.name, b.name), order_path(a.file_path, b.file_path)),
                    );
                }
            },
            SortMode::Oldest => {
                if target == SortTarget::Local {
                    lemma_then_le(
                        order_int(modified_nanos(a), modified_nanos(b)),
                        then(order_text(a.name, b.name), order_path(a.file_path, b.file_path)),
                    );
                }
            },
            SortMode::SourceAsc => {
                if target != SortTarget::Local {
                    lemma_then_le(
                        order_seq(crate::source::source_name(a.source), crate::source::source_name(b.source)),
                        order_text(a.name, b.name),
                    );
                }
            },
        }
    }
}

/// The positions of a list of indices, as integers.
pub open spec fn positions(v: Seq<usize>) -> Seq<int> {
    v.map_values(|x: usize| x as int)
}

/// The lower-case mapping of the characters of `s` (see [`lower_text`]).
pub fn lower_chars(s: &str) -> (r: Vec<char>)
    ensures
        r@ == lower_text(s@),
{
    let v = chars_of(s);
    let mut r: Vec<char> = Vec::new();
    let mut i: usize = 0;
    while i < v.len()
        invariant
            i <= v.len(),
            r@ == lower_text(v@.take(i as int)),
        decreases v.len() - i,
    {
        let l = char_to_lowercase(v[i]);
        let mut j: usize = 0;
        let ghost before = r@;
        while j < l.len()
            invariant
                j <= l.len(),
                r@ == before + l@.take(j as int),
            decreases l.len() - j,
        {
            r.push(l[j]);
            assert(l@.take(j + 1) == l@.take(j as int).push(l@[j as int]));
            j += 1;
        }
        assert(l@.take(l.len() as int) == l@);
        assert(v@.take(i + 1).drop_last() == v@.take(i as int));
        i += 1;
    }
    assert(v@.take(v.len() as int) == v@);
    r
}

/// Three-way comparison of numbers (see [`order_int`]).
fn order_u128(a: u128, b: u128) -> (r: i8)
    ensures
        r == order_int(a as int, b as int),
{
    if a < b {
        -1
    } else if a == b {
        0
    } else {
        1
    }
}

/// Three-way lexicographic comparison (see [`order_seq`]).
fn order_chars(a: &Vec<char>, b: &Vec<char>) -> (r: i8)
    ensures
        r == order_seq(a@, b@),
{
    if chars_lt(a, b) {
        -1
    } else if crate::text::chars_eq(a, b) {
        0
    } else {
        1
    }
}

/// Case-insensitive comparison of texts (see [`order_text`]).
fn order_texts(a: &String, b: &String) -> (r: i8)
    ensures
        r == order_text(a@, b@),
{
    order_chars(&lower_chars(a.as_str()), &lower_chars(b.as_str()))
}

/// Comparison of optional paths (see [`order_path`]).
fn order_paths(a: &Option<String>, b: &Option<String>) -> (r: i8)
    ensures
        r == order_path(crate::song::opt_view(*a), crate::song::opt_view(*b)),
{
    match (a, b) {
        (None, None) => 0,
        (None, Some(_)) => -1,
        (Some(_), None) => 1,
        (Some(x), Some(y)) => order_chars(&chars_of(x.as_str()), &chars_of(y.as_str())),
    }
}

/// Comparison of song lengths.
fn order_durations(a: &crate::time::Duration, b: &crate::time::Duration) -> (r: i8)
    ensures
        r == order_int(a.total_nanos(), b.total_nanos()),
{
    if a.lt(b) {
        -1
    } else if a.same(b) {
        0
    } else {
        1
    }
}

/// Comparison of positions.
fn order_usize(a: usize, b: usize) -> (r: i8)
    ensures
        r == order_int(a as int, b as int),
{
    if a < b {
        -1
    } else if a == b {
        0
    } else {
        1
    }
}

/// `extra_index` is `i` when `i` is the first position with key `key`, or -1
/// when there is none.
proof fn lemma_extra_index_is(extra: Seq<(Seq<char>, Seq<char>)>, key: Seq<char>, i: int)
    requires
        -1 <= i < extra.len(),
        i >= 0 ==> extra[i].0 == key,
        forall|j: int| 0 <= j < extra.len() && (i < 0 || j < i) ==> (#[trigger] extra[j]).0 != key,
    ensures
        extra_index(extra, key) == i,
    decreases extra.len(),
{
    if extra.len() > 0 && i != 0 {
        let t = extra.drop_first();
        assert(extra[0].0 != key);
        assert forall|j: int| 0 <= j < t.len() && (i - 1 < 0 || j < i - 1) implies (#[trigger] t[j]).0 != key by {
            assert(t[j] == extra[j + 1]);
        }
        if i > 0 {
            assert(t[i - 1] == extra[i]);
            lemma_extra_index_is(t, key, i - 1);
        } else {
            lemma_extra_index_is(t, key, -1);
        }
    }
}

/// The cached modification time of a local song (see [`modified_nanos`]).
fn file_modified_nanos(song: &SongInfo) -> (r: u128)
    ensures
        r == modified_nanos(song@),
{
    let ghost ev = song@.extra;
    let mut i: usize = 0;
    while i < song.extra.len()
        invariant
            i <= song.extra.len(),
            ev == song@.extra,
            ev.len() == song.extra.len(),
            forall|j: int| 0 <= j < i ==> (#[trigger] ev[j]).0 != EXTRA_FILE_MODIFIED_UNIX_NANOS@,
        decreases song.extra.len() - i,
    {
        assert(ev[i as int] == (song.extra@[i as int].0@, song.extra@[i as int].1@));
        if str_eq(song.extra[i].0.as_str(), EXTRA_FILE_MODIFIED_UNIX_NANOS) {
            proof {
                lemma_extra_index_is(ev, EXTRA_FILE_MODIFIED_UNIX_NANOS@, i as int);
            }
            return match parse_u128(&chars_of(song.extra[i].1.as_str())) {
                Some(n) => n,
                None => 0,
            };
        }
        i += 1;
    }
    proof {
        lemma_extra_index_is(ev, EXTRA_FILE_MODIFIED_UNIX_NANOS@, -1);
    }
    0
}

/// How `left` at position `left_index` compares with `right` at
/// `right_index` (see [`song_order`]): `-1`, `0` or `1`.
fn compare_songs(left: &SongInfo, left_index: usize, right: &SongInfo, right_index: usize, mode: SortMode, target: SortTarget) -> (r: i8)
    ensures
        r == song_order(left@, left_index as int, right@, right_index as int, mode, target),
{
    let order: i8 = match mode {
        SortMode::Newest => match target {
            SortTarget::Favorites => order_usize(right_index, left_index),
            SortTarget::History => order_usize(left_index, right_index),
            SortTarget::Local => {
                let c = order_u128(file_modified_nanos(right), file_modified_nanos(left));
                if c != 0 {
                    c
                } else {
                    let t = order_texts(&left.name, &right.name);
                    if t != 0 {
                        t
                    } else {
                        order_paths(&left.file_path, &right.file_path)
                    }
                }
            },
        },
        SortMode::Oldest => match target {
            SortTarget::Favorites => order_usize(left_index, right_index),
            SortTarget::History => order_usize(right_index, left_index),
            SortTarget::Local => {
                let c = order_u128(file_modified_nanos(left), file_modified_nanos(right));
                if c != 0 {
                    c
                } else {
                    let t = order_texts(&left.name, &right.name);
                    if t != 0 {
                        t
                    } else {
                        order_paths(&left.file_path, &right.file_path)
                    }
                }
            },
        },
        SortMode::TitleAsc => {
            let c = order_texts(&left.name, &right.name);
            if c != 0 {
                c
            } else {
                order_texts(&left.singer, &right.singer)
            }
        },
        SortMode::TitleDesc => {
            let c = order_texts(&right.name, &left.name);
            if c != 0 {
                c
            } else {
                order_texts(&right.singer, &left.singer)
            }
        },
        SortMode::ArtistAsc => {
            let c = order_texts(&left.singer, &right.singer);
            if c != 0 {
                c
            } else {
                order_texts(&left.name, &right.name)
            }
        },
        SortMode::AlbumAsc => {
            let c = order_texts(&left.album_name, &right.album_name);
            if c != 0 {
                c
            } else {
                order_texts(&left.name, &right.name)
            }
        },
        SortMode::DurationAsc => {
            let c = order_durations(&left.duration, &right.duration);
            if c != 0 {
                c
            } else {
                order_texts(&left.name, &right.name)
            }
        },
        SortMode::DurationDesc => {
            let c = order_durations(&right.duration, &left.duration);
            if c != 0 {
                c
            } else {
                order_texts(&left.name, &right.name)
            }
        },
        SortMode::SourceAsc => match target {
            SortTarget::Local => {
                let c = order_paths(&left.file_path, &right.file_path);
                if c != 0 {
                    c
                } else {
                    order_texts(&left.name, &right.name)
                }
            },
            _ => {
                let c = order_chars(&chars_of(left.source.as_str()), &chars_of(right.source.as_str()));
                if c != 0 {
                    c
                } else {
                    order_texts(&left.name, &right.name)
                }
            },
        },
    };
    assert(order == mode_order(left@, left_index as int, right@, right_index as int, mode, target));
    if order != 0 {
        order
    } else {
        order_usize(left_index, right_index)
    }
}

/// `r` lists the positions below `k`, each once, in the order of `mode`.
pub open spec fn sorted_below(sv: Seq<SongView>, r: Seq<usize>, k: int, mode: SortMode, target: SortTarget) -> bool {
    &&& r.len() == k
    &&& forall|i: int| 0 <= i < r.len() ==> #[trigger] r[i] < k
    &&& forall|i: int, j: int| 0 <= i < j < r.len() ==> #[trigger] r[i] != #[trigger] r[j]
    &&& forall|i: int, j: int|
        0 <= i < j < r.len() ==> song_order(sv[#[trigger] r[i] as int], r[i] as int, sv[#[trigger] r[j] as int], r[j] as int, mode, target) < 0
}

/// Where the scan for the place of `k` stops, every earlier entry comes
/// before `k`.
proof fn lemma_stop(sv: Seq<SongView>, r: Seq<usize>, k: int, j: int, mode: SortMode, target: SortTarget)
    requires
        sorted_below(sv, r, k, mode, target),
        0 <= j <= r.len(),
        k < sv.len(),
        j > 0 ==> song_order(sv[k], k, sv[r[j - 1] as int], r[j - 1] as int, mode, target) >= 0,
    ensures
        forall|m: int| 0 <= m < j ==> song_order(sv[#[trigger] r[m] as int], r[m] as int, sv[k], k, mode, target) < 0,
{
    if j > 0 {
        let x = r[j - 1] as int;
        lemma_song_order(sv[k], k, sv[x], x, sv[x], x, mode, target);
        assert forall|m: int| 0 <= m < j implies song_order(sv[#[trigger] r[m] as int], r[m] as int, sv[k], k, mode, target) < 0 by {
            if m < j - 1 {
                let y = r[m] as int;
                lemma_song_order(sv[y], y, sv[x], x, sv[k], k, mode, target);
            }
        }
    }
}

/// Inserting `k` where every earlier entry comes before it and it comes
/// before every later entry keeps the list sorted.
proof fn lemma_insert(sv: Seq<SongView>, r: Seq<usize>, k: usize, j: int, mode: SortMode, target: SortTarget)
    requires
        sorted_below(sv, r, k as int, mode, target),
        0 <= j <= r.len(),
        forall|m: int| 0 <= m < j ==> song_order(sv[#[trigger] r[m] as int], r[m] as int, sv[k as int], k as int, mode, target) < 0,
        forall|m: int| j <= m < r.len() ==> song_order(sv[k as int], k as int, sv[#[trigger] r[m] as int], r[m] as int, mode, target) < 0,
    ensures
        sorted_below(sv, r.insert(j, k), k + 1, mode, target),
{
    let n = r.insert(j, k);
    assert forall|i: int| 0 <= i < n.len() implies #[trigger] n[i] < k + 1 by {
        if i < j {
            assert(n[i] == r[i]);
        } else if i > j {
            assert(n[i] == r[i - 1]);
        }
    }
    assert forall|a: int, b: int| 0 <= a < b < n.len() implies #[trigger] n[a] != #[trigger] n[b] by {
        if a < j && b < j {
            assert(n[a] == r[a] && n[b] == r[b]);
        } else if a < j && b > j {
            assert(n[a] == r[a] && n[b] == r[b - 1]);
        } else if a > j {
            assert(n[a] == r[a - 1] && n[b] == r[b - 1]);
        } else if a == j {
            assert(n[b] == r[b - 1]);
        } else {
            assert(n[a] == r[a]);
        }
    }
    assert forall|a: int, b: int| 0 <= a < b < n.len() implies song_order(sv[#[trigger] n[a] as int], n[a] as int, sv[#[trigger] n[b] as int], n[b] as int, mode, target) < 0 by {
        if a < j && b < j {
            assert(n[a] == r[a] && n[b] == r[b]);
        } else if a < j && b > j {
            assert(n[a] == r[a] && n[b] == r[b - 1]);
        } else if a > j {
            assert(n[a] == r[a - 1] && n[b] == r[b - 1]);
        } else if a == j {
            assert(n[b] == r[b - 1]);
        } else {
            assert(n[a] == r[a]);
        }
    }
}

/// The positions of `songs` in the order of `mode` on `target`.
pub fn sorted_indices(songs: &[SongInfo], mode: SortMode, target: SortTarget) -> (r: Vec<usize>)
    ensures
        sorted_positions(songs_view(songs@), positions(r@), mode, target),
{
    let ghost sv = songs_view(songs@);
    let mut r: Vec<usize> = Vec::new();
    let mut k: usize = 0;
    while k < songs.len()
        invariant
            k <= songs.len(),
            sv == songs_view(songs@),
            sorted_below(sv, r@, k as int, mode, target),
        decreases songs.len() - k,
    {
        let mut j: usize = r.len();
        while j > 0 && compare_songs(&songs[k], k, &songs[r[j - 1]], r[j - 1], mode, target) < 0
            invariant
                j <= r.len(),
                k < songs.len(),
                sv == songs_view(songs@),
                sorted_below(sv, r@, k as int, mode, target),
                forall|m: int| j <= m < r.len() ==> song_order(sv[k as int], k as int, sv[#[trigger] r@[m] as int], r@[m] as int, mode, target) < 0,
            decreases j,
        {
            assert(sv[r@[j - 1] as int] == songs@[r@[j - 1] as int]@);
            assert(sv[k as int] == songs@[k as int]@);
            j -= 1;
        }
        proof {
            if j > 0 {
                assert(sv[r@[j - 1] as int] == songs@[r@[j - 1] as int]@);
                assert(sv[k as int] == songs@[k as int]@);
            }
            lemma_stop(sv, r@, k as int, j as int, mode, target);
            lemma_insert(sv, r@, k, j as int, mode, target);
        }
        r.insert(j, k);
        k += 1;
    }
    proof {
        let p = positions(r@);
        assert forall|i: int, j: int| 0 <= i < j < p.len() implies #[trigger] p[i] != #[trigger] p[j] by {
            assert(r@[i] != r@[j]);
        }
        assert forall|i: int, j: int| 0 <= i < j < p.len() implies song_order(sv[#[trigger] p[i]], p[i], sv[#[trigger] p[j]], p[j], mode, target) < 0 by {
            assert(p[i] == r@[i] as int && p[j] == r@[j] as int);
        }
    }
    r
}

/// The songs in the order of `mode` on `target`.
pub fn sorted_songs(songs: Vec<SongInfo>, mode: SortMode, target: SortTarget) -> (r: Vec<SongInfo>)
    ensures
        exists|p: Seq<int>|
            sorted_positions(songs_view(songs@), p, mode, target)
            && songs_view(r@) == p.map_values(|i: int| songs_view(songs@)[i]),
{
    let idx = sorted_indices(songs.as_slice(), mode, target);
    let ghost p = positions(idx@);
    let ghost sv = songs_view(songs@);
    let mut r: Vec<SongInfo> = Vec::new();
    let mut i: usize = 0;
    while i < idx.len()
        invariant
            i <= idx.len(),
            p == positions(idx@),
            sv == songs_view(songs@),
            sorted_positions(sv, p, mode, target),
            r.len() == i,
            forall|q: int| 0 <= q < i ==> (#[trigger] r@[q])@ == sv[p[q]],
        decreases idx.len() - i,
    {
        assert(0 <= p[i as int] < sv.len());
        r.push(songs[idx[i]].clone());
        i += 1;
    }
    assert(songs_view(r@) =~= p.map_values(|i: int| sv[i]));
    r
}

/// `r` holds the songs `songs` in the order of `mode` on `target`.
pub open spec fn sorted_view(songs: Seq<SongView>, r: Seq<SongView>, mode: SortMode, target: SortTarget) -> bool {
    exists|p: Seq<int>| sorted_positions(songs, p, mode, target) && r == p.map_values(|i: int| songs[i])
}

/// A sorted song list kept until the data or the sort mode changes.
pub struct SortedListCache {
    version: u64,
    mode: Option<SortMode>,
    songs: Vec<SongInfo>,
}

impl SortedListCache {
    /// Version of the data the list was built from.
    pub closed spec fn built_version(&self) -> u64 {
        self.version
    }

    /// Mode the list was sorted by (none before the first build).
    pub closed spec fn built_mode(&self) -> Option<SortMode> {
        self.mode
    }

    /// The sorted songs.
    pub closed spec fn list(&self) -> Seq<SongView> {
        songs_view(self.songs@)
    }

    /// An empty cache that no request matches yet.
    pub fn new() -> (r: SortedListCache)
        ensures
            r.built_version() == 0,
            r.built_mode() is None,
            r.list().len() == 0,
    {
        let songs: Vec<SongInfo> = Vec::new();
        proof {
            assert(songs_view(songs@) =~= Seq::<SongView>::empty());
        }
        SortedListCache { version: 0, mode: None, songs }
    }

    /// The list sorted by `mode` for data version `version`: the kept one
    /// when both match, else the songs `source` gives, sorted, which are
    /// kept from then on.
    pub fn get_or_build<F: FnOnce() -> Vec<SongInfo>>(&mut self, version: u64, mode: SortMode, target: SortTarget, source: F) -> (r: &[SongInfo])
        requires
            call_requires(source, ()),
        ensures
            final(self).built_version() == version,
            final(self).built_mode() == Some(mode),
            (old(self).built_version() == version && old(self).built_mode() == Some(mode)) ==> final(self).list() == old(self).list(),
            !(old(self).built_version() == version && old(self).built_mode() == Some(mode)) ==> exists|s: Vec<SongInfo>|
                call_ensures(source, (), s) && sorted_view(songs_view(s@), final(self).list(), mode, target),
            songs_view(r@) == final(self).list(),
    {
        if !(self.version == version && self.mode == Some(mode)) {
            self.version = version;
            self.mode = Some(mode);
            let fresh = source();
            let sorted = sorted_songs(fresh, mode, target);
            self.songs = sorted;
        }
        self.songs.as_slice()
    }
}

impl Default for SortedListCache {
    /// The empty cache of [`SortedListCache::new`].
    fn default() -> (r: SortedListCache)
        ensures
            r.built_version() == 0,
            r.built_mode() is None,
            r.list().len() == 0,
    {
        SortedListCache::new()
    }
}

} // verus!
