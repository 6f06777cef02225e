//! The user's library in memory: favourite songs, custom playlists and the
//! play history, with the rules each change follows. Saving it is the
//! caller's task.
use vstd::prelude::*;
use crate::song::{SongInfo, SongView, clone_songs, opt_view, songs_view};
use crate::strings::{decimal, push_decimal};
use crate::text::{chars_eq_ignore_ascii_case, chars_of, eq_ignore_ascii_case, push_str, str_eq, to_owned_string, trim_str, trim_ws};
use crate::time::Duration;
use super::identity::{equivalent, matches_path, same_identity, local_song_matches_path, same_song_identity, songs_equivalent};

verus! {

/// A playlist made by the user.
#[derive(Debug)]
pub struct CustomPlaylist {
    pub id: String,
    pub name: String,
    pub songs: Vec<SongInfo>,
    pub created_at_unix_nanos: u128,
    pub updated_at_unix_nanos: u128,
}

/// The content of a [`CustomPlaylist`].
pub struct CustomPlaylistView {
    pub id: Seq<char>,
    pub name: Seq<char>,
    pub songs: Seq<SongView>,
    pub created_at_unix_nanos: u128,
    pub updated_at_unix_nanos: u128,
}

impl View for CustomPlaylist {
    type V = CustomPlaylistView;

    open spec fn view(&self) -> CustomPlaylistView {
        CustomPlaylistView {
            id: self.id@,
            name: self.name@,
            songs: songs_view(self.songs@),
            created_at_unix_nanos: self.created_at_unix_nanos,
            updated_at_unix_nanos: self.updated_at_unix_nanos,
        }
    }
}

impl Clone for CustomPlaylist {
    fn clone(&self) -> (r: Self)
        ensures
            r@ == self@,
    {
        CustomPlaylist {
            id: self.id.clone(),
            name: self.name.clone(),
            songs: clone_songs(&self.songs),
            created_at_unix_nanos: self.created_at_unix_nanos,
            updated_at_unix_nanos: self.updated_at_unix_nanos,
        }
    }
}

/// What a list of custom playlists shows of one.
#[derive(Debug, Clone)]
pub struct CustomPlaylistSummary {
    pub id: String,
    pub name: String,
    pub cover_url: Option<String>,
    pub song_count: u32,
}

/// Result of importing a playlist file.
#[derive(Debug, Clone, PartialEq, Eq)]
pub struct PlaylistImportReport {
    pub playlist_id: String,
    pub playlist_name: String,
    pub imported: usize,
    pub skipped: usize,
}

/// Player state kept between runs.
#[derive(Debug, Clone, Copy, PartialEq, Eq, Structural)]
pub enum SavedPlayerState {
    Playing,
    Paused,
    Stopped,
}

/// The queue and position kept between runs.
#[derive(Debug)]
pub struct PlaybackSession {
    pub playlist: Vec<SongInfo>,
    pub current_index: usize,
    pub position: Duration,
    pub state: SavedPlayerState,
}

impl PlaybackSession {
    /// The session as it is resumed: none for an empty queue; the current
    /// position is clamped to the last song.
    pub fn restored(self) -> (r: Option<PlaybackSession>)
        ensures
            self.playlist@.len() == 0 <==> r is None,
            r matches Some(s) ==> {
                &&& s.playlist == self.playlist
                &&& s.position == self.position
                &&& s.state == self.state
                &&& s.current_index == if self.current_index < self.playlist@.len() {
                    self.current_index as int
                } else {
                    self.playlist@.len() - 1
                }
            },
    {
        if self.playlist.len() == 0 {
            return None;
        }
        let last = self.playlist.len() - 1;
        let index = if self.current_index < last {
            self.current_index
        } else {
            last
        };
        Some(PlaybackSession { playlist: self.playlist, current_index: index, position: self.position, state: self.state })
    }
}

/// Version of the exported user-data document.
pub const DATA_BACKUP_VERSION: u32 = 1;

/// The message for a document of a version newer than supported.
pub open spec fn unsupported_version_message(v: u32) -> Seq<char> {
    "不支持的数据版本 "@ + decimal(v as nat) + "，当前支持版本 "@ + decimal(DATA_BACKUP_VERSION as nat)
}

/// The version under which an exported document is read, from the number
/// in its `version` field (none for the old unversioned documents), cut to
/// 32 bits: the old documents are read as the current version; a newer
/// version than supported is refused.
pub fn backup_version(found: Option<u64>) -> (r: Result<u32, String>)
    ensures
        ({
            let v = match found {
                Some(n) => n as u32,
                None => 0u32,
            };
            match r {
                Ok(u) => v <= DATA_BACKUP_VERSION && u == if v == 0 { DATA_BACKUP_VERSION } else { v },
                Err(m) => v > DATA_BACKUP_VERSION && m@ == unsupported_version_message(v),
            }
        }),
{
    let v: u32 = match found {
        Some(n) => n as u32,
        None => 0,
    };
    if v > DATA_BACKUP_VERSION {
        let mut m = to_owned_string("不支持的数据版本 ");
        push_decimal(&mut m, v as u64);
        push_str(&mut m, "，当前支持版本 ");
        push_decimal(&mut m, DATA_BACKUP_VERSION as u64);
        return Err(m);
    }
    if v == 0 {
        Ok(DATA_BACKUP_VERSION)
    } else {
        Ok(v)
    }
}

/// Longest name of a custom playlist, in characters.
pub const MAX_PLAYLIST_NAME_CHARS: usize = 80;

/// The name of a custom playlist as stored: trimmed, not empty, at most 80
/// characters.
pub fn validate_custom_playlist_name(name: &str) -> (r: Result<String, String>)
    ensures
        trim_ws(name@).len() == 0 ==> (r matches Err(e) && e@ == "歌单名称不能为空"@),
        trim_ws(name@).len() > 80 ==> (r matches Err(e) && e@ == "歌单名称不能超过 80 个字符"@),
        0 < trim_ws(name@).len() <= 80 ==> (r matches Ok(n) && n@ == trim_ws(name@)),
{
    let t = trim_str(name);
    let n = chars_of(t.as_str()).len();
    if n == 0 {
        return Err(to_owned_string("歌单名称不能为空"));
    }
    if n > 80 {
        return Err(to_owned_string("歌单名称不能超过 80 个字符"));
    }
    Ok(t)
}

/// Some playlist other than `except` already has `name`, ignoring ASCII case.
pub open spec fn name_taken(playlists: Seq<CustomPlaylistView>, name: Seq<char>, except: Option<Seq<char>>) -> bool {
    exists|i: int|
        0 <= i < playlists.len() && except != Some(playlists[i].id) && #[trigger] eq_ignore_ascii_case(playlists[i].name, name)
}

/// The views of a list of custom playlists.
pub open spec fn playlists_view(v: Seq<CustomPlaylist>) -> Seq<CustomPlaylistView> {
    v.map_values(|p: CustomPlaylist| p@)
}

/// `Ok` unless another playlist than `except_id` has `name` (ignoring ASCII
/// case).
pub fn ensure_unique_custom_playlist_name(playlists: &[CustomPlaylist], name: &str, except_id: Option<&str>) -> (r: Result<(), String>)
    ensures
        r is Err <==> name_taken(
            playlists_view(playlists@),
            name@,
            match except_id {
                Some(e) => Some(e@),
                None => None,
            },
        ),
        r matches Err(e) ==> e@ == "已经存在同名自定义歌单"@,
{
    let ghost pv = playlists_view(playlists@);
    let ghost ex = match except_id {
        Some(e) => Some(e@),
        None => None::<Seq<char>>,
    };
    let nv = chars_of(name);
    let mut i: usize = 0;
    while i < playlists.len()
        invariant
            i <= playlists.len(),
            pv == playlists_view(playlists@),
            nv@ == name@,
            ex == match except_id {
                Some(e) => Some(e@),
                None => None::<Seq<char>>,
            },
            forall|j: int| 0 <= j < i ==> !(ex != Some(pv[j].id) && #[trigger] eq_ignore_ascii_case(pv[j].name, name@)),
        decreases playlists.len() - i,
    {
        assert(pv[i as int] == playlists@[i as int]@);
        let other = match except_id {
            Some(e) => !str_eq(playlists[i].id.as_str(), e),
            None => true,
        };
        assert(other == (ex != Some(pv[i as int].id)));
        if other && chars_eq_ignore_ascii_case(&chars_of(playlists[i].name.as_str()), &nv) {
            assert(ex != Some(pv[i as int].id) && eq_ignore_ascii_case(pv[i as int].name, name@));
            return Err(to_owned_string("已经存在同名自定义歌单"));
        }
        i += 1;
    }
    Ok(())
}

/// The songs of `s` for which `keep` holds, in order.
pub open spec fn keep_songs(s: Seq<SongView>, keep: spec_fn(SongView) -> bool) -> Seq<SongView>
    decreases s.len(),
{
    if s.len() == 0 {
        s
    } else if keep(s.last()) {
        keep_songs(s.drop_last(), keep).push(s.last())
    } else {
        keep_songs(s.drop_last(), keep)
    }
}

/// Keeping songs keeps a subsequence: at most as many, and every kept song
/// satisfies the test.
pub proof fn lemma_keep_songs(s: Seq<SongView>, keep: spec_fn(SongView) -> bool)
    ensures
        keep_songs(s, keep).len() <= s.len(),
        forall|i: int| 0 <= i < keep_songs(s, keep).len() ==> keep(#[trigger] keep_songs(s, keep)[i]),
        keep_songs(s, keep).len() == s.len() <==> forall|i: int| 0 <= i < s.len() ==> keep(#[trigger] s[i]),
    decreases s.len(),
{
    if s.len() > 0 {
        lemma_keep_songs(s.drop_last(), keep);
        let k = keep_songs(s.drop_last(), keep);
        assert forall|i: int| 0 <= i < keep_songs(s, keep).len() implies keep(#[trigger] keep_songs(s, keep)[i]) by {
            if i < k.len() {
                assert(keep_songs(s, keep)[i] == k[i]);
            }
        }
        if keep_songs(s, keep).len() == s.len() {
            assert forall|i: int| 0 <= i < s.len() implies keep(#[trigger] s[i]) by {
                if i < s.len() - 1 {
                    assert(s[i] == s.drop_last()[i]);
                }
            }
        }
        if forall|i: int| 0 <= i < s.len() ==> keep(#[trigger] s[i]) {
            assert forall|i: int| 0 <= i < s.drop_last().len() implies keep(#[trigger] s.drop_last()[i]) by {
                assert(s.drop_last()[i] == s[i]);
            }
            assert(keep(s[s.len() - 1]));
        }
    }
}

/// The user's favourites, custom playlists and play history.
#[derive(Debug)]
pub struct Library {
    pub favorites: Vec<SongInfo>,
    pub custom_playlists: Vec<CustomPlaylist>,
    pub history: Vec<SongInfo>,
}

/// A history entry is `song` when it has the same id and source.
pub open spec fn same_entry(a: SongView, b: SongView) -> bool {
    a.id == b.id && a.source == b.source
}

/// The history after playing `song` with room for `limit` entries (at least
/// one): `song` first, then the earlier entries other than it, cut to the limit.
pub open spec fn history_after_play(h: Seq<SongView>, song: SongView, limit: int) -> Seq<SongView> {
    let all = seq![song] + keep_songs(h, |x: SongView| !same_entry(x, song));
    let cap = if limit < 1 {
        1
    } else {
        limit
    };
    if all.len() <= cap {
        all
    } else {
        all.take(cap)
    }
}

/// The position of the first playlist with id `id`, or -1.
pub open spec fn playlist_index(p: Seq<CustomPlaylistView>, id: Seq<char>) -> int
    decreases p.len(),
{
    if p.len() == 0 {
        -1
    } else {
        let r = playlist_index(p.drop_last(), id);
        if r >= 0 {
            r
        } else if p.last().id == id {
            p.len() - 1
        } else {
            -1
        }
    }
}

/// `playlist_index` is `i` when `i` is the first position with `id`.
proof fn lemma_playlist_index(p: Seq<CustomPlaylistView>, id: Seq<char>, i: int)
    requires
        -1 <= i < p.len(),
        i >= 0 ==> p[i].id == id,
        forall|j: int| 0 <= j < p.len() && (i < 0 || j < i) ==> (#[trigger] p[j]).id != id,
    ensures
        playlist_index(p, id) == i,
    decreases p.len(),
{
    if p.len() > 0 {
        let q = p.drop_last();
        if i == p.len() - 1 {
            assert forall|j: int| 0 <= j < q.len() implies (#[trigger] q[j]).id != id by {
                assert(q[j] == p[j]);
            }
            lemma_playlist_index(q, id, -1);
        } else {
            assert forall|j: int| 0 <= j < q.len() && (i < 0 || j < i) implies (#[trigger] q[j]).id != id by {
                assert(q[j] == p[j]);
            }
            if i >= 0 {
                assert(q[i] == p[i]);
            }
            lemma_playlist_index(q, id, i);
        }
    }
}

/// The position of the playlist with id `id`.
fn find_playlist(playlists: &Vec<CustomPlaylist>, id: &str) -> (r: Option<usize>)
    ensures
        r matches Some(i) ==> i < playlists.len() && playlist_index(playlists_view(playlists@), id@) == i,
        r is None ==> playlist_index(playlists_view(playlists@), id@) == -1,
{
    let ghost pv = playlists_view(playlists@);
    let mut i: usize = 0;
    while i < playlists.len()
        invariant
            i <= playlists.len(),
            pv == playlists_view(playlists@),
            forall|j: int| 0 <= j < i ==> (#[trigger] pv[j]).id != id@,
        decreases playlists.len() - i,
    {
        assert(pv[i as int] == playlists@[i as int]@);
        if str_eq(playlists[i].id.as_str(), id) {
            proof {
                lemma_playlist_index(pv, id@, i as int);
            }
            return Some(i);
        }
        i += 1;
    }
    proof {
        lemma_playlist_index(pv, id@, -1);
    }
    None
}

/// The songs of `v` for which `keep` holds with `song` (`retain`).
fn retain_songs(v: &Vec<SongInfo>, song: &SongInfo, which: u8) -> (r: Vec<SongInfo>)
    requires
        which <= 2,
    ensures
        songs_view(r@) == keep_songs(songs_view(v@), drop_test(which, song@)),
{
    let ghost sv = songs_view(v@);
    let ghost keep = drop_test(which, song@);
    let mut r: Vec<SongInfo> = Vec::new();
    let mut i: usize = 0;
    while i < v.len()
        invariant
            i <= v.len(),
            which <= 2,
            sv == songs_view(v@),
            keep == drop_test(which, song@),
            songs_view(r@) == keep_songs(sv.take(i as int), keep),
        decreases v.len() - i,
    {
        assert(sv.take(i + 1).drop_last() == sv.take(i as int));
        assert(sv.take(i + 1).last() == v@[i as int]@);
        let drop = if which == 0 {
            songs_equivalent(&v[i], song)
        } else if which == 1 {
            v[i].id == song.id && v[i].source == song.source
        } else {
            same_song_identity(&v[i], song)
        };
        if !drop {
            let ghost before = r@;
            r.push(v[i].clone());
            assert(songs_view(r@) == songs_view(before).push(v@[i as int]@));
        }
        i += 1;
    }
    assert(sv.take(v.len() as int) == sv);
    r
}

/// The test that keeps the songs that are not `song`: as a favourite (0), a
/// history entry (1) or a playlist entry (2).
pub open spec fn drop_test(which: u8, song: SongView) -> spec_fn(SongView) -> bool {
    if which == 0 {
        |x: SongView| !equivalent(x, song)
    } else if which == 1 {
        |x: SongView| !same_entry(x, song)
    } else {
        |x: SongView| !same_identity(x, song)
    }
}

impl Library {
    /// An empty library.
    pub fn new() -> (r: Library)
        ensures
            r.favorites@.len() == 0,
            r.custom_playlists@.len() == 0,
            r.history@.len() == 0,
    {
        Library { favorites: Vec::new(), custom_playlists: Vec::new(), history: Vec::new() }
    }

    /// Whether `song` is a favourite (the same favourite as one of them).
    pub fn is_favorite(&self, song: &SongInfo) -> (r: bool)
        ensures
            r == exists|i: int| 0 <= i < self.favorites@.len() && #[trigger] equivalent(self.favorites@[i]@, song@),
    {
        let mut i: usize = 0;
        while i < self.favorites.len()
            invariant
                i <= self.favorites.len(),
                forall|j: int| 0 <= j < i ==> !#[trigger] equivalent(self.favorites@[j]@, song@),
            decreases self.favorites.len() - i,
        {
            if songs_equivalent(&self.favorites[i], song) {
                return true;
            }
            i += 1;
        }
        false
    }

    /// Adds `song` to the favourites unless it is one already; returns
    /// whether it was added. Afterwards it is a favourite either way.
    pub fn add_favorite(&mut self, song: &SongInfo) -> (r: bool)
        ensures
            r == !(exists|i: int| 0 <= i < old(self).favorites@.len() && #[trigger] equivalent(old(self).favorites@[i]@, song@)),
            r ==> songs_view(final(self).favorites@) == songs_view(old(self).favorites@).push(song@),
            !r ==> final(self).favorites@ == old(self).favorites@,
            exists|i: int| 0 <= i < final(self).favorites@.len() && #[trigger] equivalent(final(self).favorites@[i]@, song@),
            final(self).custom_playlists == old(self).custom_playlists,
            final(self).history == old(self).history,
    {
        if self.is_favorite(song) {
            return false;
        }
        let ghost before = self.favorites@;
        self.favorites.push(song.clone());
        proof {
            super::identity::lemma_equivalent(song@, song@);
            assert(equivalent(self.favorites@[before.len() as int]@, song@));
            assert(songs_view(self.favorites@) =~= songs_view(before).push(song@));
        }
        true
    }

    /// Removes every favourite that is the same favourite as `song`; returns
    /// whether any was removed.
    pub fn remove_favorite(&mut self, song: &SongInfo) -> (r: bool)
        ensures
            songs_view(final(self).favorites@) == keep_songs(songs_view(old(self).favorites@), |x: SongView| !equivalent(x, song@)),
            r == (final(self).favorites@.len() != old(self).favorites@.len()),
            forall|i: int| 0 <= i < final(self).favorites@.len() ==> !#[trigger] equivalent(final(self).favorites@[i]@, song@),
            final(self).custom_playlists == old(self).custom_playlists,
            final(self).history == old(self).history,
    {
        let kept = retain_songs(&self.favorites, song, 0);
        let changed = kept.len() != self.favorites.len();
        proof {
            assert(drop_test(0, song@) == (|x: SongView| !equivalent(x, song@)));
            lemma_keep_songs(songs_view(self.favorites@), |x: SongView| !equivalent(x, song@));
            assert forall|i: int| 0 <= i < kept@.len() implies !#[trigger] equivalent(kept@[i]@, song@) by {
                assert(songs_view(kept@)[i] == kept@[i]@);
            }
        }
        self.favorites = kept;
        changed
    }

    /// Records that `song` was played, keeping at most `limit` entries (at
    /// least one): it becomes the first entry and no other entry has its id
    /// and source.
    pub fn add_history(&mut self, song: &SongInfo, limit: usize)
        ensures
            songs_view(final(self).history@) == history_after_play(songs_view(old(self).history@), song@, limit as int),
            final(self).favorites == old(self).favorites,
            final(self).custom_playlists == old(self).custom_playlists,
    {
        let kept = retain_songs(&self.history, song, 1);
        proof {
            assert(drop_test(1, song@) == (|x: SongView| !same_entry(x, song@)));
        }
        let mut all: Vec<SongInfo> = Vec::new();
        all.push(song.clone());
        let mut i: usize = 0;
        while i < kept.len()
            invariant
                i <= kept.len(),
                songs_view(all@) == seq![song@] + songs_view(kept@).take(i as int),
            decreases kept.len() - i,
        {
            let ghost before = all@;
            all.push(kept[i].clone());
            assert(songs_view(kept@).take(i + 1) == songs_view(kept@).take(i as int).push(kept@[i as int]@));
            assert(songs_view(all@) == songs_view(before).push(kept@[i as int]@));
            i += 1;
        }
        assert(songs_view(kept@).take(kept.len() as int) == songs_view(kept@));
        let cap: usize = if limit < 1 {
            1
        } else {
            limit
        };
        if all.len() > cap {
            all.truncate(cap);
            assert(songs_view(all@) =~= (seq![song@] + songs_view(kept@)).take(cap as int));
        }
        self.history = all;
    }

    /// Removes the history entries with the id and source of `song`; returns
    /// whether any was removed.
    pub fn remove_history(&mut self, song: &SongInfo) -> (r: bool)
        ensures
            songs_view(final(self).history@) == keep_songs(songs_view(old(self).history@), |x: SongView| !same_entry(x, song@)),
            r == (final(self).history@.len() != old(self).history@.len()),
            final(self).favorites == old(self).favorites,
            final(self).custom_playlists == old(self).custom_playlists,
    {
        let kept = retain_songs(&self.history, song, 1);
        let changed = kept.len() != self.history.len();
        proof {
            assert(drop_test(1, song@) == (|x: SongView| !same_entry(x, song@)));
        }
        self.history = kept;
        changed
    }

    /// Empties the history; returns whether it held anything.
    pub fn clear_history(&mut self) -> (r: bool)
        ensures
            r == (old(self).history@.len() > 0),
            final(self).history@.len() == 0,
            final(self).favorites == old(self).favorites,
            final(self).custom_playlists == old(self).custom_playlists,
    {
        if self.history.len() == 0 {
            return false;
        }
        self.history = Vec::new();
        true
    }

    /// Keeps the first `limit` history entries (at least one); returns
    /// whether any was removed.
    pub fn trim_history(&mut self, limit: usize) -> (r: bool)
        ensures
            ({
                let cap = if limit < 1 {
                    1
                } else {
                    limit as int
                };
                &&& r == (old(self).history@.len() > cap)
                &&& final(self).history@ == if r {
                    old(self).history@.take(cap)
                } else {
                    old(self).history@
                }
            }),
            final(self).favorites == old(self).favorites,
            final(self).custom_playlists == old(self).custom_playlists,
    {
        let cap: usize = if limit < 1 {
            1
        } else {
            limit
        };
        if self.history.len() <= cap {
            return false;
        }
        self.history.truncate(cap);
        true
    }
}


/// The cover of the first song of `songs` that has one.
pub open spec fn first_cover(songs: Seq<SongView>) -> Option<Seq<char>>
    decreases songs.len(),
{
    if songs.len() == 0 {
        None
    } else if songs[0].cover_url is Some {
        songs[0].cover_url
    } else {
        first_cover(songs.drop_first())
    }
}

/// No two playlists have the same name ignoring ASCII case.
pub open spec fn names_unique(p: Seq<CustomPlaylistView>) -> bool {
    forall|i: int, j: int| 0 <= i < p.len() && 0 <= j < p.len() && i != j ==> !eq_ignore_ascii_case(#[trigger] p[i].name, #[trigger] p[j].name)
}

/// No two playlists have the same id.
pub open spec fn ids_unique(p: Seq<CustomPlaylistView>) -> bool {
    forall|i: int, j: int| 0 <= i < p.len() && 0 <= j < p.len() && i != j ==> #[trigger] p[i].id != #[trigger] p[j].id
}

/// The cover of the first song that has one.
fn first_cover_of(songs: &Vec<SongInfo>) -> (r: Option<String>)
    ensures
        opt_view(r) == first_cover(songs_view(songs@)),
{
    let ghost sv = songs_view(songs@);
    let mut i: usize = 0;
    assert(sv.skip(0) == sv);
    while i < songs.len()
        invariant
            i <= songs.len(),
            sv == songs_view(songs@),
            first_cover(sv) == first_cover(sv.skip(i as int)),
        decreases songs.len() - i,
    {
        assert(sv.skip(i as int)[0] == songs@[i as int]@);
        match &songs[i].cover_url {
            Some(c) => {
                return Some(c.clone());
            },
            None => {},
        }
        assert(sv.skip(i as int).drop_first() == sv.skip(i + 1));
        i += 1;
    }
    None
}

impl Library {
    /// What the list of custom playlists shows: id, name, the cover of the
    /// first song that has one, and the number of songs (at most `u32::MAX`).
    pub fn custom_playlist_summaries(&self) -> (r: Vec<CustomPlaylistSummary>)
        ensures
            r@.len() == self.custom_playlists@.len(),
            forall|i: int| 0 <= i < r@.len() ==> {
                let p = #[trigger] self.custom_playlists@[i]@;
                &&& r@[i].id@ == p.id
                &&& r@[i].name@ == p.name
                &&& opt_view(r@[i].cover_url) == first_cover(p.songs)
                &&& r@[i].song_count == if p.songs.len() > u32::MAX {
                    u32::MAX as int
                } else {
                    p.songs.len() as int
                }
            },
    {
        let mut r: Vec<CustomPlaylistSummary> = Vec::new();
        let mut i: usize = 0;
        while i < self.custom_playlists.len()
            invariant
                i <= self.custom_playlists.len(),
                r@.len() == i,
                forall|k: int| 0 <= k < i ==> {
                    let p = #[trigger] self.custom_playlists@[k]@;
                    &&& r@[k].id@ == p.id
                    &&& r@[k].name@ == p.name
                    &&& opt_view(r@[k].cover_url) == first_cover(p.songs)
                    &&& r@[k].song_count == if p.songs.len() > u32::MAX {
                        u32::MAX as int
                    } else {
                        p.songs.len() as int
                    }
                },
            decreases self.custom_playlists.len() - i,
        {
            let p = &self.custom_playlists[i];
            let n = p.songs.len();
            let count: u32 = if n > 4294967295 {
                4294967295
            } else {
                n as u32
            };
            r.push(CustomPlaylistSummary { id: p.id.clone(), name: p.name.clone(), cover_url: first_cover_of(&p.songs), song_count: count });
            i += 1;
        }
        r
    }

    /// Id and name of each custom playlist, in order.
    pub fn custom_playlist_choices(&self) -> (r: Vec<(String, String)>)
        ensures
            r@.len() == self.custom_playlists@.len(),
            forall|i: int| 0 <= i < r@.len() ==> (#[trigger] r@[i]).0@ == self.custom_playlists@[i].id@ && r@[i].1@ == self.custom_playlists@[i].name@,
    {
        let mut r: Vec<(String, String)> = Vec::new();
        let mut i: usize = 0;
        while i < self.custom_playlists.len()
            invariant
                i <= self.custom_playlists.len(),
                r@.len() == i,
                forall|k: int| 0 <= k < i ==> (#[trigger] r@[k]).0@ == self.custom_playlists@[k].id@ && r@[k].1@ == self.custom_playlists@[k].name@,
            decreases self.custom_playlists.len() - i,
        {
            r.push((self.custom_playlists[i].id.clone(), self.custom_playlists[i].name.clone()));
            i += 1;
        }
        r
    }

    /// A copy of the first custom playlist with id `playlist_id`.
    pub fn custom_playlist(&self, playlist_id: &str) -> (r: Option<CustomPlaylist>)
        ensures
            ({
                let i = playlist_index(playlists_view(self.custom_playlists@), playlist_id@);
                &&& r is None <==> i < 0
                &&& r matches Some(p) ==> p@ == self.custom_playlists@[i]@
            }),
    {
        match find_playlist(&self.custom_playlists, playlist_id) {
            Some(i) => Some(self.custom_playlists[i].clone()),
            None => None,
        }
    }

    /// Creates an empty playlist named `name` (trimmed) with id `id`, created
    /// and updated at `now`. Fails when the name is empty or too long (see
    /// [`validate_custom_playlist_name`]) or another playlist has it.
    pub fn create_custom_playlist(&mut self, name: &str, id: String, now: u128) -> (r: Result<CustomPlaylist, String>)
        ensures
            ({
                let t = trim_ws(name@);
                let ok = 0 < t.len() <= 80 && !name_taken(playlists_view(old(self).custom_playlists@), t, None);
                &&& r is Ok <==> ok
                &&& r matches Ok(p) ==> {
                    &&& p@ == (CustomPlaylistView { id: id@, name: t, songs: Seq::empty(), created_at_unix_nanos: now, updated_at_unix_nanos: now })
                    &&& playlists_view(final(self).custom_playlists@) == playlists_view(old(self).custom_playlists@).push(p@)
                }
                &&& r is Err ==> final(self).custom_playlists@ == old(self).custom_playlists@
                &&& names_unique(playlists_view(old(self).custom_playlists@)) ==> names_unique(playlists_view(final(self).custom_playlists@))
            }),
            final(self).favorites == old(self).favorites,
            final(self).history == old(self).history,
    {
        let name = match validate_custom_playlist_name(name) {
            Ok(n) => n,
            Err(e) => {
                return Err(e);
            },
        };
        match ensure_unique_custom_playlist_name(self.custom_playlists.as_slice(), name.as_str(), None) {
            Ok(()) => {},
            Err(e) => {
                return Err(e);
            },
        }
        let playlist = CustomPlaylist { id, name, songs: Vec::new(), created_at_unix_nanos: now, updated_at_unix_nanos: now };
        let ghost before = self.custom_playlists@;
        let copy = playlist.clone();
        self.custom_playlists.push(playlist);
        proof {
            let pv = playlists_view(self.custom_playlists@);
            assert(pv =~= playlists_view(before).push(copy@));
            assert(songs_view(Seq::<SongInfo>::empty()) =~= Seq::<SongView>::empty());
            if names_unique(playlists_view(before)) {
                assert forall|i: int, j: int| 0 <= i < pv.len() && 0 <= j < pv.len() && i != j implies !eq_ignore_ascii_case(#[trigger] pv[i].name, #[trigger] pv[j].name) by {
                    if i < before.len() && j < before.len() {
                        assert(pv[i] == playlists_view(before)[i] && pv[j] == playlists_view(before)[j]);
                    } else if i < before.len() {
                        assert(pv[i] == playlists_view(before)[i]);
                        assert(!eq_ignore_ascii_case(playlists_view(before)[i].name, copy@.name));
                    } else {
                        assert(pv[j] == playlists_view(before)[j]);
                        assert(!eq_ignore_ascii_case(playlists_view(before)[j].name, copy@.name));
                    }
                }
            }
        }
        Ok(copy)
    }

    /// Removes the playlists with id `playlist_id`; returns whether any was
    /// removed.
    pub fn delete_custom_playlist(&mut self, playlist_id: &str) -> (r: bool)
        ensures
            r == (playlist_index(playlists_view(old(self).custom_playlists@), playlist_id@) >= 0),
            playlists_view(final(self).custom_playlists@) == without_id(playlists_view(old(self).custom_playlists@), playlist_id@),
            final(self).favorites == old(self).favorites,
            final(self).history == old(self).history,
    {
        let ghost pv = playlists_view(self.custom_playlists@);
        let mut kept: Vec<CustomPlaylist> = Vec::new();
        let mut removed = false;
        let mut i: usize = 0;
        while i < self.custom_playlists.len()
            invariant
                i <= self.custom_playlists.len(),
                pv == playlists_view(self.custom_playlists@),
                removed == (playlist_index(pv.take(i as int), playlist_id@) >= 0),
                playlists_view(kept@) == without_id(pv.take(i as int), playlist_id@),
            decreases self.custom_playlists.len() - i,
        {
            let ghost t = pv.take(i + 1);
            assert(t.drop_last() == pv.take(i as int));
            assert(t.last() == self.custom_playlists@[i as int]@);
            proof {
                lemma_playlist_index_found(pv.take(i as int), playlist_id@);
            }
            if str_eq(self.custom_playlists[i].id.as_str(), playlist_id) {
                removed = true;
            } else {
                let ghost before = kept@;
                kept.push(self.custom_playlists[i].clone());
                assert(playlists_view(kept@) =~= playlists_view(before).push(t.last()));
            }
            i += 1;
        }
        assert(pv.take(self.custom_playlists.len() as int) == pv);
        self.custom_playlists = kept;
        removed
    }
}

/// The playlists of `p` whose id is not `id`, in order.
pub open spec fn without_id(p: Seq<CustomPlaylistView>, id: Seq<char>) -> Seq<CustomPlaylistView>
    decreases p.len(),
{
    if p.len() == 0 {
        p
    } else if p.last().id == id {
        without_id(p.drop_last(), id)
    } else {
        without_id(p.drop_last(), id).push(p.last())
    }
}

/// A playlist added with a fresh id is found at the end.
proof fn lemma_index_of_pushed(p: Seq<CustomPlaylistView>, x: CustomPlaylistView)
    requires
        playlist_index(p, x.id) < 0,
    ensures
        playlist_index(p.push(x), x.id) == p.len(),
{
    assert(p.push(x).drop_last() == p);
}

/// Removing an id that only the last playlist has gives the others back.
proof fn lemma_without_new_id(p: Seq<CustomPlaylistView>, x: CustomPlaylistView)
    requires
        playlist_index(p, x.id) < 0,
    ensures
        without_id(p.push(x), x.id) == p,
    decreases p.len(),
{
    assert(p.push(x).drop_last() == p);
    lemma_without_other(p, x.id);
}

/// Removing an id that no playlist has changes nothing.
proof fn lemma_without_other(p: Seq<CustomPlaylistView>, id: Seq<char>)
    requires
        playlist_index(p, id) < 0,
    ensures
        without_id(p, id) == p,
    decreases p.len(),
{
    if p.len() > 0 {
        lemma_playlist_index_none(p, id, p.len() - 1);
        lemma_without_other(p.drop_last(), id);
        assert(p.drop_last().push(p.last()) == p);
    }
}

/// When no playlist has the id, every position has another id.
proof fn lemma_playlist_index_none(p: Seq<CustomPlaylistView>, id: Seq<char>, k: int)
    requires
        playlist_index(p, id) < 0,
        0 <= k < p.len(),
    ensures
        p[k].id != id,
    decreases p.len(),
{
    if k < p.len() - 1 {
        assert(p.drop_last()[k] == p[k]);
        lemma_playlist_index_none(p.drop_last(), id, k);
    }
}


/// The playlist `p` renamed to `name` at `now`.
pub open spec fn renamed(p: CustomPlaylistView, name: Seq<char>, now: u128) -> CustomPlaylistView {
    CustomPlaylistView { name, updated_at_unix_nanos: now, ..p }
}

/// The playlist `p` with songs `songs`, changed at `now`.
pub open spec fn with_songs(p: CustomPlaylistView, songs: Seq<SongView>, now: u128) -> CustomPlaylistView {
    CustomPlaylistView { songs, updated_at_unix_nanos: now, ..p }
}

/// The playlist `p` without the local songs of the file `path`; its time of
/// change is `now` when it lost any.
pub open spec fn without_path(p: CustomPlaylistView, path: Seq<char>, now: u128) -> CustomPlaylistView {
    let kept = keep_songs(p.songs, |x: SongView| !matches_path(x, path));
    if kept.len() == p.songs.len() {
        p
    } else {
        with_songs(p, kept, now)
    }
}

/// Number of songs removed from the playlists `p` by [`without_path`].
pub open spec fn removed_by_path(p: Seq<CustomPlaylistView>, path: Seq<char>) -> int
    decreases p.len(),
{
    if p.len() == 0 {
        0
    } else {
        removed_by_path(p.drop_last(), path) + p.last().songs.len() - keep_songs(
            p.last().songs,
            |x: SongView| !matches_path(x, path),
        ).len()
    }
}

/// The name of a playlist imported from a file named `base`: `base` when no
/// playlist has it (ignoring ASCII case), else the first free `base (k)` for
/// `k` from 2 to 999, else `base (fallback)`.
pub open spec fn import_name_from(names: Seq<Seq<char>>, base: Seq<char>, k: nat, fallback: nat) -> Seq<char>
    decreases 1000 - k,
{
    let candidate = base + " ("@ + decimal(k) + ")"@;
    if k > 999 {
        base + " ("@ + decimal(fallback) + ")"@
    } else if !(exists|i: int| 0 <= i < names.len() && #[trigger] eq_ignore_ascii_case(names[i], candidate)) {
        candidate
    } else {
        import_name_from(names, base, k + 1, fallback)
    }
}

/// The names of the playlists.
pub open spec fn playlist_names(p: Seq<CustomPlaylistView>) -> Seq<Seq<char>> {
    p.map_values(|x: CustomPlaylistView| x.name)
}

/// Whether some playlist is named `name`, ignoring ASCII case.
fn has_name(playlists: &Vec<CustomPlaylist>, name: &Vec<char>) -> (r: bool)
    ensures
        r == exists|i: int| 0 <= i < playlists@.len() && #[trigger] eq_ignore_ascii_case(playlist_names(playlists_view(playlists@))[i], name@),
{
    let ghost names = playlist_names(playlists_view(playlists@));
    let mut i: usize = 0;
    while i < playlists.len()
        invariant
            i <= playlists.len(),
            names == playlist_names(playlists_view(playlists@)),
            forall|j: int| 0 <= j < i ==> !#[trigger] eq_ignore_ascii_case(names[j], name@),
        decreases playlists.len() - i,
    {
        assert(names[i as int] == playlists@[i as int].name@);
        if chars_eq_ignore_ascii_case(&chars_of(playlists[i].name.as_str()), name) {
            return true;
        }
        i += 1;
    }
    false
}

impl Library {
    /// Renames the playlist `playlist_id` to `name` (trimmed) at `now`. Fails
    /// when the name is empty or too long, when another playlist has it, or
    /// when there is no such playlist. Names that differ (ignoring ASCII case)
    /// stay so, when ids do.
    pub fn rename_custom_playlist(&mut self, playlist_id: &str, name: &str, now: u128) -> (r: Result<(), String>)
        ensures
            ({
                let t = trim_ws(name@);
                let pv = playlists_view(old(self).custom_playlists@);
                let i = playlist_index(pv, playlist_id@);
                &&& r is Ok <==> (0 < t.len() <= 80 && !name_taken(pv, t, Some(playlist_id@)) && i >= 0)
                &&& r is Ok ==> playlists_view(final(self).custom_playlists@) == pv.update(i, renamed(pv[i], t, now))
                &&& r is Err ==> final(self).custom_playlists@ == old(self).custom_playlists@
                &&& (0 < t.len() <= 80 && !name_taken(pv, t, Some(playlist_id@)) && i < 0) ==> (r matches Err(e) && e@ == "自定义歌单不存在"@)
                &&& (names_unique(pv) && ids_unique(pv)) ==> names_unique(playlists_view(final(self).custom_playlists@))
            }),
            final(self).favorites == old(self).favorites,
            final(self).history == old(self).history,
    {
        let name = match validate_custom_playlist_name(name) {
            Ok(n) => n,
            Err(e) => {
                return Err(e);
            },
        };
        match ensure_unique_custom_playlist_name(self.custom_playlists.as_slice(), name.as_str(), Some(playlist_id)) {
            Ok(()) => {},
            Err(e) => {
                return Err(e);
            },
        }
        let i = match find_playlist(&self.custom_playlists, playlist_id) {
            Some(i) => i,
            None => {
                return Err(to_owned_string("自定义歌单不存在"));
            },
        };
        let ghost pv = playlists_view(self.custom_playlists@);
        let old_p = &self.custom_playlists[i];
        let p = CustomPlaylist {
            id: old_p.id.clone(),
            name,
            songs: clone_songs(&old_p.songs),
            created_at_unix_nanos: old_p.created_at_unix_nanos,
            updated_at_unix_nanos: now,
        };
        let ghost pnew = p@;
        self.custom_playlists.set(i, p);
        proof {
            let nv = playlists_view(self.custom_playlists@);
            assert(nv =~= pv.update(i as int, pnew));
            if names_unique(pv) && ids_unique(pv) {
                lemma_playlist_index_found(pv, playlist_id@);
                assert(pv[i as int].id == playlist_id@);
                assert forall|a: int, b: int| 0 <= a < nv.len() && 0 <= b < nv.len() && a != b implies !eq_ignore_ascii_case(#[trigger] nv[a].name, #[trigger] nv[b].name) by {
                    if a != i && b != i {
                        assert(nv[a] == pv[a] && nv[b] == pv[b]);
                    } else if a == i {
                        assert(nv[b] == pv[b]);
                        assert(pv[b].id != playlist_id@);
                        assert(!eq_ignore_ascii_case(pv[b].name, pnew.name));
                    } else {
                        assert(nv[a] == pv[a]);
                        assert(pv[a].id != playlist_id@);
                        assert(!eq_ignore_ascii_case(pv[a].name, pnew.name));
                    }
                }
            }
        }
        Ok(())
    }

    /// Adds `song` to the playlist `playlist_id` at `now` unless it holds the
    /// same entry already; `Ok(false)` then. Fails when there is no such
    /// playlist.
    pub fn add_song_to_custom_playlist(&mut self, playlist_id: &str, song: &SongInfo, now: u128) -> (r: Result<bool, String>)
        ensures
            ({
                let pv = playlists_view(old(self).custom_playlists@);
                let i = playlist_index(pv, playlist_id@);
                &&& r is Err <==> i < 0
                &&& r matches Err(e) ==> e@ == "自定义歌单不存在"@
                &&& r matches Ok(added) ==> {
                    &&& added == !(exists|k: int| 0 <= k < pv[i].songs.len() && #[trigger] same_identity(pv[i].songs[k], song@))
                    &&& playlists_view(final(self).custom_playlists@) == if added {
                        pv.update(i, with_songs(pv[i], pv[i].songs.push(song@), now))
                    } else {
                        pv
                    }
                }
                &&& r is Err ==> final(self).custom_playlists@ == old(self).custom_playlists@
            }),
            final(self).favorites == old(self).favorites,
            final(self).history == old(self).history,
    {
        let i = match find_playlist(&self.custom_playlists, playlist_id) {
            Some(i) => i,
            None => {
                return Err(to_owned_string("自定义歌单不存在"));
            },
        };
        let ghost pv = playlists_view(self.custom_playlists@);
        let ghost sv = pv[i as int].songs;
        assert(sv == songs_view(self.custom_playlists@[i as int].songs@));
        let mut k: usize = 0;
        while k < self.custom_playlists[i].songs.len()
            invariant
                i < self.custom_playlists.len(),
                pv == playlists_view(self.custom_playlists@),
                playlist_index(pv, playlist_id@) == i,
                self.custom_playlists@ == old(self).custom_playlists@,
                self.favorites == old(self).favorites,
                self.history == old(self).history,
                sv == songs_view(self.custom_playlists@[i as int].songs@),
                k <= sv.len(),
                forall|j: int| 0 <= j < k ==> !#[trigger] same_identity(sv[j], song@),
            decreases self.custom_playlists[i as int].songs.len() - k,
        {
            if same_song_identity(&self.custom_playlists[i].songs[k], song) {
                assert(sv[k as int] == self.custom_playlists@[i as int].songs@[k as int]@);
                assert(same_identity(sv[k as int], song@));
                assert(pv[i as int].songs[k as int] == sv[k as int]);
                return Ok(false);
            }
            assert(sv[k as int] == self.custom_playlists@[i as int].songs@[k as int]@);
            k += 1;
        }
        let old_p = &self.custom_playlists[i];
        let mut songs = clone_songs(&old_p.songs);
        songs.push(song.clone());
        let p = CustomPlaylist {
            id: old_p.id.clone(),
            name: old_p.name.clone(),
            songs,
            created_at_unix_nanos: old_p.created_at_unix_nanos,
            updated_at_unix_nanos: now,
        };
        let ghost pnew = p@;
        assert(pnew.songs =~= sv.push(song@));
        self.custom_playlists.set(i, p);
        assert(playlists_view(self.custom_playlists@) =~= pv.update(i as int, pnew));
        Ok(true)
    }

    /// Removes the entries of the playlist `playlist_id` that are the same
    /// entry as `song`; returns whether any was removed (the playlist is then
    /// changed at `now`). Fails when there is no such playlist.
    pub fn remove_song_from_custom_playlist(&mut self, playlist_id: &str, song: &SongInfo, now: u128) -> (r: Result<bool, String>)
        ensures
            ({
                let pv = playlists_view(old(self).custom_playlists@);
                let i = playlist_index(pv, playlist_id@);
                let kept = keep_songs(pv[i].songs, |x: SongView| !same_identity(x, song@));
                &&& r is Err <==> i < 0
                &&& r matches Err(e) ==> e@ == "自定义歌单不存在"@
                &&& r matches Ok(removed) ==> {
                    &&& removed == (kept.len() != pv[i].songs.len())
                    &&& playlists_view(final(self).custom_playlists@) == if removed {
                        pv.update(i, with_songs(pv[i], kept, now))
                    } else {
                        pv
                    }
                }
                &&& r is Err ==> final(self).custom_playlists@ == old(self).custom_playlists@
            }),
            final(self).favorites == old(self).favorites,
            final(self).history == old(self).history,
    {
        let i = match find_playlist(&self.custom_playlists, playlist_id) {
            Some(i) => i,
            None => {
                return Err(to_owned_string("自定义歌单不存在"));
            },
        };
        let ghost pv = playlists_view(self.custom_playlists@);
        let old_p = &self.custom_playlists[i];
        let kept = retain_songs(&old_p.songs, song, 2);
        proof {
            assert(drop_test(2, song@) == (|x: SongView| !same_identity(x, song@)));
        }
        if kept.len() == old_p.songs.len() {
            return Ok(false);
        }
        let p = CustomPlaylist {
            id: old_p.id.clone(),
            name: old_p.name.clone(),
            songs: kept,
            created_at_unix_nanos: old_p.created_at_unix_nanos,
            updated_at_unix_nanos: now,
        };
        let ghost pnew = p@;
        self.custom_playlists.set(i, p);
        assert(playlists_view(self.custom_playlists@) =~= pv.update(i as int, pnew));
        Ok(true)
    }

    /// Removes the local songs of the file `path` from every playlist; each
    /// playlist that lost any is changed at `now`. Returns how many songs
    /// were removed.
    pub fn remove_local_path_from_custom_playlists(&mut self, path: &str, now: u128) -> (r: usize)
        requires
            removed_by_path(playlists_view(old(self).custom_playlists@), path@) <= usize::MAX,
        ensures
            playlists_view(final(self).custom_playlists@) == playlists_view(old(self).custom_playlists@).map_values(
                |p: CustomPlaylistView| without_path(p, path@, now),
            ),
            r == removed_by_path(playlists_view(old(self).custom_playlists@), path@),
            final(self).favorites == old(self).favorites,
            final(self).history == old(self).history,
    {
        let ghost pv = playlists_view(self.custom_playlists@);
        let ghost keep = |x: SongView| !matches_path(x, path@);
        let mut out: Vec<CustomPlaylist> = Vec::new();
        let mut removed: usize = 0;
        let mut i: usize = 0;
        while i < self.custom_playlists.len()
            invariant
                i <= self.custom_playlists.len(),
                pv == playlists_view(self.custom_playlists@),
                keep == (|x: SongView| !matches_path(x, path@)),
                removed_by_path(pv, path@) <= usize::MAX,
                playlists_view(out@) == pv.take(i as int).map_values(|p: CustomPlaylistView| without_path(p, path@, now)),
                removed == removed_by_path(pv.take(i as int), path@),
            decreases self.custom_playlists.len() - i,
        {
            let old_p = &self.custom_playlists[i];
            let ghost sv = songs_view(old_p.songs@);
            let mut kept: Vec<SongInfo> = Vec::new();
            let mut k: usize = 0;
            while k < old_p.songs.len()
                invariant
                    k <= old_p.songs.len(),
                    sv == songs_view(old_p.songs@),
                    keep == (|x: SongView| !matches_path(x, path@)),
                    songs_view(kept@) == keep_songs(sv.take(k as int), keep),
                decreases old_p.songs.len() - k,
            {
                assert(sv.take(k + 1).drop_last() == sv.take(k as int));
                assert(sv.take(k + 1).last() == old_p.songs@[k as int]@);
                if !local_song_matches_path(&old_p.songs[k], path) {
                    let ghost before = kept@;
                    kept.push(old_p.songs[k].clone());
                    assert(songs_view(kept@) == songs_view(before).push(old_p.songs@[k as int]@));
                }
                k += 1;
            }
            assert(sv.take(old_p.songs.len() as int) == sv);
            proof {
                lemma_keep_songs(sv, keep);
                assert(pv.take(i + 1).drop_last() == pv.take(i as int));
                assert(pv.take(i + 1).last() == pv[i as int]);
                assert(pv[i as int].songs == sv);
                lemma_removed_by_path_prefix(pv, path@, i + 1);
                lemma_removed_by_path_mono(pv, path@, i + 1);
            }
            let lost = old_p.songs.len() - kept.len();
            let p = if lost > 0 {
                CustomPlaylist {
                    id: old_p.id.clone(),
                    name: old_p.name.clone(),
                    songs: kept,
                    created_at_unix_nanos: old_p.created_at_unix_nanos,
                    updated_at_unix_nanos: now,
                }
            } else {
                old_p.clone()
            };
            let ghost before = out@;
            out.push(p);
            removed = removed + lost;
            proof {
                assert(playlists_view(out@) =~= playlists_view(before).push(without_path(pv[i as int], path@, now)));
                assert(pv.take(i + 1).map_values(|p: CustomPlaylistView| without_path(p, path@, now)) =~= pv.take(i as int).map_values(
                    |p: CustomPlaylistView| without_path(p, path@, now),
                ).push(without_path(pv[i as int], path@, now)));
            }
            i += 1;
        }
        assert(pv.take(self.custom_playlists.len() as int) == pv);
        self.custom_playlists = out;
        removed
    }

    /// The name for a playlist imported from a file named `stem` (see
    /// [`import_name_from`]; `stem` is trimmed, `fallback` is the time in
    /// nanoseconds).
    pub fn unique_import_name(&self, stem: &str, fallback: u128) -> (r: String)
        requires
            fallback <= u64::MAX,
        ensures
            ({
                let base = trim_ws(stem@);
                let names = playlist_names(playlists_view(self.custom_playlists@));
                r@ == if !(exists|i: int| 0 <= i < names.len() && #[trigger] eq_ignore_ascii_case(names[i], base)) {
                    base
                } else {
                    import_name_from(names, base, 2, fallback as nat)
                }
            }),
    {
        let base = trim_str(stem);
        let bv = chars_of(base.as_str());
        if !has_name(&self.custom_playlists, &bv) {
            return base;
        }
        let ghost names = playlist_names(playlists_view(self.custom_playlists@));
        let mut k: u64 = 2;
        while k <= 999
            invariant
                2 <= k <= 1000,
                names == playlist_names(playlists_view(self.custom_playlists@)),
                bv@ == base@,
                base@ == trim_ws(stem@),
                fallback <= u64::MAX,
                exists|i: int| 0 <= i < names.len() && #[trigger] eq_ignore_ascii_case(names[i], base@),
                import_name_from(names, base@, 2, fallback as nat) == import_name_from(names, base@, k as nat, fallback as nat),
            decreases 1000 - k,
        {
            let mut candidate = base.clone();
            push_str(&mut candidate, " (");
            push_decimal(&mut candidate, k);
            push_str(&mut candidate, ")");
            let cv = chars_of(candidate.as_str());
            assert(cv@ == base@ + " ("@ + decimal(k as nat) + ")"@);
            assert(names.len() == self.custom_playlists@.len());
            if !has_name(&self.custom_playlists, &cv) {
                return candidate;
            }
            k += 1;
        }
        let mut last = base.clone();
        push_str(&mut last, " (");
        push_decimal(&mut last, fallback as u64);
        push_str(&mut last, ")");
        last
    }
}

/// A found position holds the id.
proof fn lemma_playlist_index_found(p: Seq<CustomPlaylistView>, id: Seq<char>)
    ensures
        playlist_index(p, id) >= 0 ==> playlist_index(p, id) < p.len() && p[playlist_index(p, id)].id == id,
        playlist_index(p, id) >= -1,
    decreases p.len(),
{
    if p.len() > 0 {
        lemma_playlist_index_found(p.drop_last(), id);
        if playlist_index(p.drop_last(), id) >= 0 {
            assert(p[playlist_index(p, id)] == p.drop_last()[playlist_index(p, id)]);
        }
    }
}

/// The songs lost by the first `n` playlists are at most those lost by all.
proof fn lemma_removed_by_path_mono(p: Seq<CustomPlaylistView>, path: Seq<char>, n: int)
    requires
        0 <= n <= p.len(),
    ensures
        removed_by_path(p.take(n), path) <= removed_by_path(p, path),
    decreases p.len() - n,
{
    if n < p.len() {
        lemma_removed_by_path_prefix(p, path, n + 1);
        lemma_removed_by_path_mono(p, path, n + 1);
    } else {
        assert(p.take(n) == p);
    }
}

/// How many songs the first `n` playlists lose, step by step.
proof fn lemma_removed_by_path_prefix(p: Seq<CustomPlaylistView>, path: Seq<char>, n: int)
    requires
        0 < n <= p.len(),
    ensures
        removed_by_path(p.take(n), path) == removed_by_path(p.take(n - 1), path) + p[n - 1].songs.len()
            - keep_songs(p[n - 1].songs, |x: SongView| !matches_path(x, path)).len(),
        removed_by_path(p.take(n), path) >= 0,
        p[n - 1].songs.len() - keep_songs(p[n - 1].songs, |x: SongView| !matches_path(x, path)).len() >= 0,
    decreases n,
{
    assert(p.take(n).drop_last() == p.take(n - 1));
    if n > 1 {
        lemma_removed_by_path_prefix(p, path, n - 1);
    } else {
        assert(p.take(0) =~= Seq::<CustomPlaylistView>::empty());
    }
    lemma_keep_songs(p[n - 1].songs, |x: SongView| !matches_path(x, path));
}


/// Some song before position `k` of `songs` has the id and source of `x`.
pub open spec fn seen_before(songs: Seq<Option<SongView>>, k: int, x: SongView) -> bool {
    exists|j: int| 0 <= j < k && #[trigger] songs[j] is Some && same_entry(songs[j]->0, x)
}

/// The songs an import keeps, in order: each song read (`Some`) whose id and
/// source no earlier song had, and that is not the same playlist entry as
/// one kept before it.
pub open spec fn import_kept(songs: Seq<Option<SongView>>) -> Seq<SongView>
    decreases songs.len(),
{
    if songs.len() == 0 {
        Seq::empty()
    } else {
        let kept = import_kept(songs.drop_last());
        match songs.last() {
            None => kept,
            Some(x) => if seen_before(songs, songs.len() - 1, x) || (exists|i: int|
                0 <= i < kept.len() && #[trigger] same_identity(kept[i], x)) {
                kept
            } else {
                kept.push(x)
            },
        }
    }
}

/// The views of a list of optional songs.
pub open spec fn opt_songs_view(v: Seq<Option<SongInfo>>) -> Seq<Option<SongView>> {
    v.map_values(|o: Option<SongInfo>| match o {
        Some(s) => Some(s@),
        None => None,
    })
}

/// The name asked for a playlist imported from a file named `stem`: the
/// stem, or `导入歌单` when it is blank.
pub open spec fn import_stem(stem: Seq<char>) -> Seq<char> {
    if trim_ws(stem).len() == 0 {
        "导入歌单"@
    } else {
        stem
    }
}

/// The name an import from a file named `stem` asks for, among the
/// playlists `pv` (see [`Library::unique_import_name`]).
pub open spec fn import_playlist_name(pv: Seq<CustomPlaylistView>, stem: Seq<char>, fallback: u128) -> Seq<char> {
    let base = trim_ws(import_stem(stem));
    let names = playlist_names(pv);
    if !(exists|i: int| 0 <= i < names.len() && #[trigger] eq_ignore_ascii_case(names[i], base)) {
        base
    } else {
        import_name_from(names, base, 2, fallback as nat)
    }
}

/// Whether a playlist named `name` can be made among the playlists `pv`:
/// trimmed, it is not blank, at most 80 characters, and no playlist has it.
pub open spec fn playlist_name_ok(pv: Seq<CustomPlaylistView>, name: Seq<char>) -> bool {
    0 < trim_ws(name).len() <= 80 && !name_taken(pv, trim_ws(name), None)
}

impl Library {
    /// Imports the songs read from a playlist file named `stem` into a new
    /// playlist with the fresh id `id`, made at `now`; `None` stands for an
    /// entry that gave no song. The playlist gets a free name (see
    /// [`Library::unique_import_name`], `fallback` being the time) and the
    /// songs that [`import_kept`] keeps; the others count as skipped. Fails,
    /// leaving the playlists as they were, when there are no entries, the
    /// playlist cannot be made, or no song is kept.
    pub fn import_songs(&mut self, stem: &str, songs: &Vec<Option<SongInfo>>, id: String, now: u128, fallback: u128) -> (r: Result<PlaylistImportReport, String>)
        requires
            fallback <= u64::MAX,
            playlist_index(playlists_view(old(self).custom_playlists@), id@) < 0,
        ensures
            songs@.len() == 0 ==> (r matches Err(e) && e@ == "歌单文件中没有可导入的歌曲"@),
            r is Err ==> playlists_view(final(self).custom_playlists@) == playlists_view(old(self).custom_playlists@),
            songs@.len() > 0 && import_kept(opt_songs_view(songs@)).len() == 0 ==> r is Err,
            r is Ok <==> songs@.len() > 0 && import_kept(opt_songs_view(songs@)).len() > 0 && playlist_name_ok(
                playlists_view(old(self).custom_playlists@),
                import_playlist_name(playlists_view(old(self).custom_playlists@), stem@, fallback),
            ),
            songs@.len() > 0 && import_kept(opt_songs_view(songs@)).len() == 0 && playlist_name_ok(
                playlists_view(old(self).custom_playlists@),
                import_playlist_name(playlists_view(old(self).custom_playlists@), stem@, fallback),
            ) ==> (r matches Err(e) && e@ == "歌单中没有可识别的歌曲"@),
            r matches Ok(report) ==> {
                let kept = import_kept(opt_songs_view(songs@));
                &&& report.playlist_id@ == id@
                &&& report.playlist_name@ == import_playlist_name(playlists_view(old(self).custom_playlists@), stem@, fallback)
                &&& report.imported == kept.len()
                &&& report.imported > 0
                &&& report.imported + report.skipped == songs@.len()
                &&& playlists_view(final(self).custom_playlists@) == playlists_view(old(self).custom_playlists@).push(
                    CustomPlaylistView {
                        id: id@,
                        name: trim_ws(report.playlist_name@),
                        songs: kept,
                        created_at_unix_nanos: now,
                        updated_at_unix_nanos: now,
                    },
                )
            },
            final(self).favorites == old(self).favorites,
            final(self).history == old(self).history,
    {
        if songs.len() == 0 {
            return Err(to_owned_string("歌单文件中没有可导入的歌曲"));
        }
        let blank = crate::text::trim_str(stem).as_str().is_empty();
        let base = if blank {
            to_owned_string("导入歌单")
        } else {
            to_owned_string(stem)
        };
        assert(base@ == import_stem(stem@));
        let name = self.unique_import_name(base.as_str(), fallback);
        let ghost old_pv = playlists_view(self.custom_playlists@);
        assert(name@ == import_playlist_name(old_pv, stem@, fallback));
        let created = self.create_custom_playlist(name.as_str(), id, now);
        let playlist = match created {
            Ok(p) => p,
            Err(e) => {
                return Err(e);
            },
        };
        let ghost n = old_pv.len() as int;
        let ghost sv = opt_songs_view(songs@);
        proof {
            lemma_index_of_pushed(old_pv, playlist@);
        }
        let mut imported: usize = 0;
        let mut skipped: usize = 0;
        let mut k: usize = 0;
        while k < songs.len()
            invariant
                k <= songs.len(),
                sv == opt_songs_view(songs@),
                n == old_pv.len(),
                playlist_index(old_pv, playlist.id@) < 0,
                playlists_view(self.custom_playlists@) == old_pv.push(
                    CustomPlaylistView {
                        id: playlist@.id,
                        name: playlist@.name,
                        songs: import_kept(sv.take(k as int)),
                        created_at_unix_nanos: now,
                        updated_at_unix_nanos: now,
                    },
                ),
                playlist_index(playlists_view(self.custom_playlists@), playlist.id@) == n,
                imported == import_kept(sv.take(k as int)).len(),
                imported + skipped == k,
                self.favorites == old(self).favorites,
                self.history == old(self).history,
            decreases songs.len() - k,
        {
            let ghost t = sv.take(k + 1);
            assert(t.drop_last() == sv.take(k as int));
            let ghost kept = import_kept(sv.take(k as int));
            match &songs[k] {
                None => {
                    assert(t.last() is None);
                    skipped += 1;
                },
                Some(x) => {
                    assert(t.last() == Some(x@));
                    let mut seen = false;
                    let mut j: usize = 0;
                    while j < k
                        invariant
                            j <= k < songs.len(),
                            sv == opt_songs_view(songs@),
                            t == sv.take(k + 1),
                            seen == exists|q: int| 0 <= q < j && #[trigger] t[q] is Some && same_entry(t[q]->0, x@),
                        decreases k - j,
                    {
                        match &songs[j] {
                            Some(y) => {
                                assert(t[j as int] == Some(y@));
                                if y.id == x.id && y.source == x.source {
                                    seen = true;
                                }
                            },
                            None => {
                                assert(t[j as int] is None);
                            },
                        }
                        j += 1;
                    }
                    if seen {
                        skipped += 1;
                    } else {
                        let added = self.add_song_to_custom_playlist(playlist.id.as_str(), x, now);
                        proof {
                            let pv = old_pv.push(
                                CustomPlaylistView {
                                    id: playlist@.id,
                                    name: playlist@.name,
                                    songs: kept,
                                    created_at_unix_nanos: now,
                                    updated_at_unix_nanos: now,
                                },
                            );
                            assert(pv[n].songs == kept);
                        }
                        match added {
                            Ok(true) => {
                                imported += 1;
                            },
                            _ => {
                                skipped += 1;
                            },
                        }
                        proof {
                            let pv2 = playlists_view(self.custom_playlists@);
                            assert(pv2 =~= old_pv.push(
                                CustomPlaylistView {
                                    id: playlist@.id,
                                    name: playlist@.name,
                                    songs: import_kept(t),
                                    created_at_unix_nanos: now,
                                    updated_at_unix_nanos: now,
                                },
                            ));
                            lemma_index_of_pushed(old_pv, pv2[n]);
                        }
                    }
                },
            }
            k += 1;
        }
        assert(sv.take(songs.len() as int) == sv);
        if imported == 0 {
            let removed = self.delete_custom_playlist(playlist.id.as_str());
            proof {
                lemma_without_new_id(
                    old_pv,
                    CustomPlaylistView {
                        id: playlist@.id,
                        name: playlist@.name,
                        songs: import_kept(sv),
                        created_at_unix_nanos: now,
                        updated_at_unix_nanos: now,
                    },
                );
            }
            return Err(to_owned_string("歌单中没有可识别的歌曲"));
        }
        Ok(PlaylistImportReport { playlist_id: playlist.id, playlist_name: name, imported, skipped })
    }
}

} // verus!
