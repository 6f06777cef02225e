//! The song record shared by every part of the player.
use vstd::prelude::*;
use crate::source::SourceId;
use crate::time::Duration;

verus! {

/// Key of the extra field that caches a local file's modification time
/// (nanoseconds since the Unix epoch, in decimal).
pub const EXTRA_FILE_MODIFIED_UNIX_NANOS: &'static str = "file_modified_unix_nanos";

/// Metadata of one song.
#[derive(Debug)]
pub struct SongInfo {
    pub id: String,
    pub source: SourceId,
    pub name: String,
    pub singer: String,
    pub album_name: String,
    pub duration: Duration,
    pub cover_url: Option<String>,
    /// Path of the audio file for local songs.
    pub file_path: Option<String>,
    /// Additional key/value pairs; a key occurs at most once.
    pub extra: Vec<(String, String)>,
}

/// The mathematical content of a [`SongInfo`].
pub struct SongView {
    pub id: Seq<char>,
    pub source: SourceId,
    pub name: Seq<char>,
    pub singer: Seq<char>,
    pub album_name: Seq<char>,
    pub duration: Duration,
    pub cover_url: Option<Seq<char>>,
    pub file_path: Option<Seq<char>>,
    pub extra: Seq<(Seq<char>, Seq<char>)>,
}

/// The view of an optional string.
pub open spec fn opt_view(s: Option<String>) -> Option<Seq<char>> {
    match s {
        Some(v) => Some(v@),
        None => None,
    }
}

/// The view of a list of key/value pairs.
pub open spec fn pairs_view(v: Seq<(String, String)>) -> Seq<(Seq<char>, Seq<char>)> {
    v.map_values(|p: (String, String)| (p.0@, p.1@))
}

impl View for SongInfo {
    type V = SongView;

    open spec fn view(&self) -> SongView {
        SongView {
            id: self.id@,
            source: self.source,
            name: self.name@,
            singer: self.singer@,
            album_name: self.album_name@,
            duration: self.duration,
            cover_url: opt_view(self.cover_url),
            file_path: opt_view(self.file_path),
            extra: pairs_view(self.extra@),
        }
    }
}

/// The views of a list of songs.
pub open spec fn songs_view(v: Seq<SongInfo>) -> Seq<SongView> {
    v.map_values(|s: SongInfo| s@)
}

/// A copy of an optional string.
pub fn clone_opt_string(s: &Option<String>) -> (r: Option<String>)
    ensures
        r == *s,
{
    match s {
        Some(v) => Some(v.clone()),
        None => None,
    }
}

/// A copy of a list of key/value pairs.
pub fn clone_pairs(v: &Vec<(String, String)>) -> (r: Vec<(String, String)>)
    ensures
        pairs_view(r@) == pairs_view(v@),
{
    let mut r: Vec<(String, String)> = Vec::new();
    let mut i: usize = 0;
    while i < v.len()
        invariant
            i <= v.len(),
            r.len() == i,
            forall|j: int| 0 <= j < i ==> (#[trigger] r@[j]).0@ == v@[j].0@ && r@[j].1@ == v@[j].1@,
        decreases v.len() - i,
    {
        let (k, x) = &v[i];
        r.push((k.clone(), x.clone()));
        i += 1;
    }
    assert(pairs_view(r@) =~= pairs_view(v@));
    r
}

impl Clone for SongInfo {
    fn clone(&self) -> (r: Self)
        ensures
            r@ == self@,
    {
        SongInfo {
            id: self.id.clone(),
            source: self.source,
            name: self.name.clone(),
            singer: self.singer.clone(),
            album_name: self.album_name.clone(),
            duration: self.duration,
            cover_url: clone_opt_string(&self.cover_url),
            file_path: clone_opt_string(&self.file_path),
            extra: clone_pairs(&self.extra),
        }
    }
}

/// A copy of a list of songs.
pub fn clone_songs(v: &Vec<SongInfo>) -> (r: Vec<SongInfo>)
    ensures
        songs_view(r@) == songs_view(v@),
{
    let mut r: Vec<SongInfo> = Vec::new();
    let mut i: usize = 0;
    while i < v.len()
        invariant
            i <= v.len(),
            r.len() == i,
            forall|j: int| 0 <= j < i ==> (#[trigger] r@[j])@ == v@[j]@,
        decreases v.len() - i,
    {
        r.push(v[i].clone());
        i += 1;
    }
    assert(songs_view(r@) =~= songs_view(v@));
    r
}

impl SongInfo {
    /// A song with the given identity and names; every other field is empty.
    pub fn new(id: String, source: SourceId, name: String, singer: String) -> (r: SongInfo)
        ensures
            r.id == id,
            r.source == source,
            r.name == name,
            r.singer == singer,
            r.album_name@ == Seq::<char>::empty(),
            r.duration.total_nanos() == 0,
            r.cover_url is None,
            r.file_path is None,
            r.extra@ == Seq::<(String, String)>::empty(),
    {
        SongInfo {
            id,
            source,
            name,
            singer,
            album_name: String::new(),
            duration: Duration::zero(),
            cover_url: None,
            file_path: None,
            extra: Vec::new(),
        }
    }
}

} // verus!
