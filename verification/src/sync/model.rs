//! Types of playlist synchronisation and the canonical identity of a song.
use vstd::prelude::*;
use crate::song::{SongInfo, SongView, clone_songs, pairs_view, songs_view};
use crate::source::SourceId;
use crate::time::Duration;
use crate::text::{chars_of, chars_eq_ignore_ascii_case, eq_ignore_ascii_case, push_str, string_of, to_owned_string, trim_chars, trim_ws, upper_ascii};
use crate::keybinding::keys::to_ascii_uppercase;
use super::normalize::{normalize_artist, normalize_text, sync_artist, sync_text};

verus! {

/// What is synchronised: a playlist or the favourites.
#[derive(Debug, Clone, Copy, PartialEq, Eq, Hash, Structural)]
pub enum SyncCollectionKind {
    Playlist,
    Favorites,
}

/// Normalised song identity used to compare songs across sources.
#[derive(Debug)]
pub struct CanonicalSong {
    pub title: String,
    pub artist: String,
    pub album: String,
    pub duration_ms: u64,
    pub isrc: Option<String>,
}

/// The content of a [`CanonicalSong`].
pub struct CanonicalView {
    pub title: Seq<char>,
    pub artist: Seq<char>,
    pub album: Seq<char>,
    pub duration_ms: u64,
    pub isrc: Option<Seq<char>>,
}

impl View for CanonicalSong {
    type V = CanonicalView;

    open spec fn view(&self) -> CanonicalView {
        CanonicalView {
            title: self.title@,
            artist: self.artist@,
            album: self.album@,
            duration_ms: self.duration_ms,
            isrc: match self.isrc {
                Some(v) => Some(v@),
                None => None,
            },
        }
    }
}

/// A duration in whole milliseconds, saturated at `u64::MAX`.
pub open spec fn millis_u64(d: Duration) -> u64 {
    if d.total_millis() > u64::MAX {
        u64::MAX
    } else {
        d.total_millis() as u64
    }
}

/// `s` without `-` and spaces.
pub open spec fn strip_dashes(s: Seq<char>) -> Seq<char>
    decreases s.len(),
{
    if s.len() == 0 {
        s
    } else if s.last() == '-' || s.last() == ' ' {
        strip_dashes(s.drop_last())
    } else {
        strip_dashes(s.drop_last()).push(s.last())
    }
}

/// Position of the first extra field whose key is `isrc` in any ASCII case, or -1.
pub open spec fn isrc_index(extra: Seq<(Seq<char>, Seq<char>)>) -> int
    decreases extra.len(),
{
    if extra.len() == 0 {
        -1
    } else if eq_ignore_ascii_case(extra[0].0, "isrc"@) {
        0
    } else {
        let r = isrc_index(extra.drop_first());
        if r < 0 {
            -1
        } else {
            r + 1
        }
    }
}

/// The ISRC of a song: the value of its `isrc` field, trimmed, upper-cased,
/// without dashes and spaces; `None` when missing or empty.
pub open spec fn isrc_of(extra: Seq<(Seq<char>, Seq<char>)>) -> Option<Seq<char>> {
    let i = isrc_index(extra);
    if 0 <= i < extra.len() {
        let v = strip_dashes(upper_ascii(trim_ws(extra[i].1)));
        if v.len() > 0 {
            Some(v)
        } else {
            None
        }
    } else {
        None
    }
}

/// The canonical identity of a song.
pub open spec fn canonical(s: SongView) -> CanonicalView {
    CanonicalView {
        title: sync_text(s.name),
        artist: sync_artist(s.singer),
        album: sync_text(s.album_name),
        duration_ms: millis_u64(s.duration),
        isrc: isrc_of(s.extra),
    }
}

proof fn lemma_isrc_index_is(extra: Seq<(Seq<char>, Seq<char>)>, i: int)
    requires
        -1 <= i < extra.len(),
        i >= 0 ==> eq_ignore_ascii_case(extra[i].0, "isrc"@),
        forall|j: int| 0 <= j < extra.len() && (i < 0 || j < i) ==> !eq_ignore_ascii_case(#[trigger] extra[j].0, "isrc"@),
    ensures
        isrc_index(extra) == i,
    decreases extra.len(),
{
    if extra.len() > 0 && i != 0 {
        let t = extra.drop_first();
        assert(!eq_ignore_ascii_case(extra[0].0, "isrc"@));
        assert forall|j: int| 0 <= j < t.len() && (i - 1 < 0 || j < i - 1) implies !eq_ignore_ascii_case(#[trigger] t[j].0, "isrc"@) by {
            assert(t[j] == extra[j + 1]);
        }
        if i > 0 {
            assert(t[i - 1] == extra[i]);
            lemma_isrc_index_is(t, i - 1);
        } else {
            lemma_isrc_index_is(t, -1);
        }
    }
}

/// The ISRC of a song (see [`isrc_of`]).
fn isrc_exec(extra: &Vec<(String, String)>) -> (r: Option<String>)
    ensures
        match r {
            Some(v) => isrc_of(pairs_view(extra@)) == Some(v@),
            None => isrc_of(pairs_view(extra@)) is None,
        },
{
    let ghost pv = pairs_view(extra@);
    let key = chars_of("isrc");
    let mut i: usize = 0;
    while i < extra.len()
        invariant
            i <= extra.len(),
            pv == pairs_view(extra@),
            key@ == "isrc"@,
            forall|j: int| 0 <= j < i ==> !eq_ignore_ascii_case(#[trigger] pv[j].0, "isrc"@),
        decreases extra.len() - i,
    {
        let k = chars_of(extra[i].0.as_str());
        if chars_eq_ignore_ascii_case(&k, &key) {
            proof {
                lemma_isrc_index_is(pv, i as int);
            }
            let raw = chars_of(extra[i].1.as_str());
            let t = trim_chars(&raw);
            let mut out: Vec<char> = Vec::new();
            let mut m: usize = 0;
            while m < t.len()
                invariant
                    m <= t.len(),
                    out@ == strip_dashes(upper_ascii(t@).take(m as int)),
                decreases t.len() - m,
            {
                let ghost nx = upper_ascii(t@).take(m + 1);
                assert(nx.drop_last() == upper_ascii(t@).take(m as int));
                let u = to_ascii_uppercase(t[m]);
                assert(nx.last() == u);
                if u != '-' && u != ' ' {
                    out.push(u);
                }
                m += 1;
            }
            assert(upper_ascii(t@).take(t.len() as int) == upper_ascii(t@));
            if out.len() == 0 {
                return None;
            }
            return Some(string_of(&out));
        }
        i += 1;
    }
    proof {
        lemma_isrc_index_is(pv, -1);
    }
    None
}

impl CanonicalSong {
    /// The canonical identity of `song`.
    pub fn from_song(song: &SongInfo) -> (r: CanonicalSong)
        ensures
            r@ == canonical(song@),
    {
        CanonicalSong {
            title: normalize_text(song.name.as_str()),
            artist: normalize_artist(song.singer.as_str()),
            album: normalize_text(song.album_name.as_str()),
            duration_ms: song.duration.as_millis_saturating(),
            isrc: isrc_exec(&song.extra),
        }
    }
}

/// Source and identifier of a song on its platform.
#[derive(Debug, Clone)]
pub struct PlatformSongId {
    pub source: SourceId,
    pub id: String,
}

impl PlatformSongId {
    /// The platform identity of `song`.
    pub fn from_song(song: &SongInfo) -> (r: PlatformSongId)
        ensures
            r.source == song.source,
            r.id@ == song.id@,
    {
        PlatformSongId { source: song.source, id: song.id.clone() }
    }
}

/// How a source song was matched to a target song.
#[derive(Debug, Clone, Copy, PartialEq, Eq, Structural)]
pub enum MatchConfidence {
    Isrc,
    PlatformId,
    ExactMetadata,
    MetadataDuration,
    FuzzyMetadata,
    Unmatched,
}

/// A source song and the target song it was matched to.
#[derive(Debug)]
pub struct SyncSongMatch {
    pub source: SongInfo,
    pub target: Option<SongInfo>,
    pub confidence: MatchConfidence,
}

/// A playlist or the favourites of one source.
#[derive(Debug)]
pub struct SyncCollection {
    pub kind: SyncCollectionKind,
    pub id: String,
    pub name: String,
    pub source: SourceId,
    pub songs: Vec<SongInfo>,
}

impl SyncCollection {
    /// `self` and `other` hold the same kind, id, name, source and songs.
    pub open spec fn same_as(self, other: SyncCollection) -> bool {
        &&& self.kind == other.kind
        &&& self.id@ == other.id@
        &&& self.name@ == other.name@
        &&& self.source == other.source
        &&& songs_view(self.songs@) == songs_view(other.songs@)
    }
}

impl Clone for SyncCollection {
    fn clone(&self) -> (r: Self)
        ensures
            r.same_as(*self),
    {
        SyncCollection {
            kind: self.kind,
            id: self.id.clone(),
            name: self.name.clone(),
            source: self.source,
            songs: clone_songs(&self.songs),
        }
    }
}

/// Direction of a synchronisation.
#[derive(Debug, Clone, Copy, PartialEq, Eq, Structural)]
pub enum SyncDirection {
    SourceToTarget,
    TargetToSource,
    Bidirectional,
}

/// Whether songs missing from the source are removed from the target.
#[derive(Debug, Clone, Copy, PartialEq, Eq, Structural)]
pub enum SyncPolicy {
    /// Only add.
    Additive,
    /// Also remove what the source does not have.
    Mirror,
}

/// Options of a synchronisation.
#[derive(Debug, Clone, Copy)]
pub struct SyncOptions {
    pub direction: SyncDirection,
    pub policy: SyncPolicy,
    pub match_duration_tolerance_ms: u64,
    pub fuzzy_threshold: u16,
    pub batch_size: usize,
}

impl Default for SyncOptions {
    /// One-way additive synchronisation, 5 s duration tolerance, fuzzy
    /// threshold 92, batches of 100.
    fn default() -> (r: Self)
        ensures
            r.direction == SyncDirection::SourceToTarget,
            r.policy == SyncPolicy::Additive,
            r.match_duration_tolerance_ms == 5000,
            r.fuzzy_threshold == 92,
            r.batch_size == 100,
    {
        SyncOptions {
            direction: SyncDirection::SourceToTarget,
            policy: SyncPolicy::Additive,
            match_duration_tolerance_ms: 5_000,
            fuzzy_threshold: 92,
            batch_size: 100,
        }
    }
}

/// What a synchronisation would do.
#[derive(Debug)]
pub struct SyncPlan {
    pub source: SyncCollection,
    pub target: SyncCollection,
    pub matches: Vec<SyncSongMatch>,
    pub additions: Vec<SongInfo>,
    pub removals: Vec<SongInfo>,
    pub unmatched: Vec<SongInfo>,
}

impl SyncPlan {
    /// Whether the plan neither adds nor removes anything.
    pub fn is_empty(&self) -> (r: bool)
        ensures
            r == (self.additions@.len() == 0 && self.removals@.len() == 0),
    {
        self.additions.len() == 0 && self.removals.len() == 0
    }

    /// Number of songs to add.
    pub fn additions_count(&self) -> (r: usize)
        ensures
            r == self.additions@.len(),
    {
        self.additions.len()
    }

    /// Number of songs to remove.
    pub fn removals_count(&self) -> (r: usize)
        ensures
            r == self.removals@.len(),
    {
        self.removals.len()
    }

    /// Number of source songs that found a target song.
    pub fn matched_count(&self) -> (r: usize)
        ensures
            r == matched_in(self.matches@),
    {
        let mut n: usize = 0;
        let mut i: usize = 0;
        while i < self.matches.len()
            invariant
                i <= self.matches.len(),
                n == matched_in(self.matches@.take(i as int)),
                n <= i,
            decreases self.matches.len() - i,
        {
            assert(self.matches@.take(i + 1).drop_last() == self.matches@.take(i as int));
            if self.matches[i].target.is_some() {
                n += 1;
            }
            i += 1;
        }
        assert(self.matches@.take(self.matches.len() as int) == self.matches@);
        n
    }
}

/// Number of matches that found a target song.
pub open spec fn matched_in(m: Seq<SyncSongMatch>) -> nat
    decreases m.len(),
{
    if m.len() == 0 {
        0
    } else {
        matched_in(m.drop_last()) + if m.last().target is Some {
            1nat
        } else {
            0nat
        }
    }
}

/// Result of running a plan.
#[derive(Debug)]
pub struct SyncReport {
    pub source: SourceId,
    pub target: SourceId,
    pub collection_name: String,
    pub added: usize,
    pub removed: usize,
    pub already_present: usize,
    pub unmatched: usize,
    pub failed: Vec<SyncFailure>,
}

/// A song that could not be synchronised.
#[derive(Debug)]
pub struct SyncFailure {
    pub song: String,
    pub artist: String,
    pub reason: String,
}

/// Why synchronisation failed.
#[derive(Debug)]
pub enum SyncError {
    CollectionNotFound(String),
    NotLoggedIn(String),
    WriteUnsupported(String),
    Provider(String),
    InvalidOptions(String),
}

/// The text of an error: its kind, a colon and its detail.
pub open spec fn error_message(e: SyncError) -> Seq<char> {
    match e {
        SyncError::CollectionNotFound(s) => "未找到同步对象: "@ + s@,
        SyncError::NotLoggedIn(s) => "音源未登录: "@ + s@,
        SyncError::WriteUnsupported(s) => "音源不支持同步写入: "@ + s@,
        SyncError::Provider(s) => "同步请求失败: "@ + s@,
        SyncError::InvalidOptions(s) => "同步参数无效: "@ + s@,
    }
}

impl SyncError {
    /// The text of the error (see [`error_message`]).
    pub fn message(&self) -> (r: String)
        ensures
            r@ == error_message(*self),
    {
        let (mut out, detail) = match self {
            SyncError::CollectionNotFound(s) => (to_owned_string("未找到同步对象: "), s),
            SyncError::NotLoggedIn(s) => (to_owned_string("音源未登录: "), s),
            SyncError::WriteUnsupported(s) => (to_owned_string("音源不支持同步写入: "), s),
            SyncError::Provider(s) => (to_owned_string("同步请求失败: "), s),
            SyncError::InvalidOptions(s) => (to_owned_string("同步参数无效: "), s),
        };
        push_str(&mut out, detail.as_str());
        out
    }
}

} // verus!
