//! Online playlists the user keeps as favourites, known by their id and
//! source.
use vstd::prelude::*;
use crate::source::SourceId;
use crate::text::str_eq;

verus! {

/// An online playlist.
#[derive(Debug)]
pub struct Playlist {
    pub id: String,
    pub name: String,
    pub source: SourceId,
}

/// What tells two playlists apart: their id and source.
pub open spec fn playlist_key(p: Playlist) -> (Seq<char>, SourceId) {
    (p.id@, p.source)
}

/// The keys of a list of playlists.
pub open spec fn playlist_keys(v: Seq<Playlist>) -> Seq<(Seq<char>, SourceId)> {
    v.map_values(|p: Playlist| playlist_key(p))
}

/// The names of a list of playlists.
pub open spec fn playlist_names_of(v: Seq<Playlist>) -> Seq<Seq<char>> {
    v.map_values(|p: Playlist| p.name@)
}

/// The playlists of `v` whose key is not `k`, in order.
pub open spec fn without_key(v: Seq<Playlist>, k: (Seq<char>, SourceId)) -> Seq<Playlist>
    decreases v.len(),
{
    if v.len() == 0 {
        Seq::empty()
    } else if playlist_key(v.last()) == k {
        without_key(v.drop_last(), k)
    } else {
        without_key(v.drop_last(), k).push(v.last())
    }
}

/// Whether some playlist of `v` has key `k`.
pub open spec fn has_key(v: Seq<Playlist>, k: (Seq<char>, SourceId)) -> bool {
    exists|i: int| 0 <= i < v.len() && #[trigger] playlist_key(v[i]) == k
}

/// A copy of `p`.
pub fn copy_playlist(p: &Playlist) -> (r: Playlist)
    ensures
        r.id@ == p.id@,
        r.name@ == p.name@,
        r.source == p.source,
{
    Playlist { id: p.id.clone(), name: p.name.clone(), source: p.source }
}

/// The favourite online playlists, in the order they were added.
#[derive(Debug)]
pub struct FavoritePlaylists {
    pub playlists: Vec<Playlist>,
}

impl FavoritePlaylists {
    /// No favourite playlists.
    pub fn new() -> (r: FavoritePlaylists)
        ensures
            r.playlists@.len() == 0,
    {
        FavoritePlaylists { playlists: Vec::new() }
    }

    /// Whether `playlist` (its id and source) is a favourite.
    pub fn is_favorite_playlist(&self, playlist: &Playlist) -> (r: bool)
        ensures
            r == has_key(self.playlists@, playlist_key(*playlist)),
    {
        let mut i: usize = 0;
        while i < self.playlists.len()
            invariant
                i <= self.playlists.len(),
                forall|j: int| 0 <= j < i ==> #[trigger] playlist_key(self.playlists@[j]) != playlist_key(*playlist),
            decreases self.playlists.len() - i,
        {
            let f = &self.playlists[i];
            if f.source == playlist.source && str_eq(f.id.as_str(), playlist.id.as_str()) {
                assert(playlist_key(self.playlists@[i as int]) == playlist_key(*playlist));
                return true;
            }
            i += 1;
        }
        false
    }

    /// Adds `playlist` at the end unless a playlist with its id and source is
    /// a favourite already; returns whether it was added.
    pub fn add_favorite_playlist(&mut self, playlist: &Playlist) -> (r: bool)
        ensures
            r == !has_key(old(self).playlists@, playlist_key(*playlist)),
            r ==> playlist_keys(final(self).playlists@) == playlist_keys(old(self).playlists@).push(playlist_key(*playlist))
                && playlist_names_of(final(self).playlists@) == playlist_names_of(old(self).playlists@).push(playlist.name@),
            !r ==> final(self).playlists@ == old(self).playlists@,
    {
        if self.is_favorite_playlist(playlist) {
            return false;
        }
        let ghost before = self.playlists@;
        self.playlists.push(copy_playlist(playlist));
        assert(playlist_keys(self.playlists@) =~= playlist_keys(before).push(playlist_key(*playlist)));
        assert(playlist_names_of(self.playlists@) =~= playlist_names_of(before).push(playlist.name@));
        true
    }

    /// Removes every favourite with the id and source of `playlist`;
    /// returns whether any was removed.
    pub fn remove_favorite_playlist(&mut self, playlist: &Playlist) -> (r: bool)
        ensures
            playlist_keys(final(self).playlists@) == playlist_keys(without_key(old(self).playlists@, playlist_key(*playlist))),
            playlist_names_of(final(self).playlists@) == playlist_names_of(without_key(old(self).playlists@, playlist_key(*playlist))),
            r == (final(self).playlists@.len() != old(self).playlists@.len()),
            !has_key(final(self).playlists@, playlist_key(*playlist)),
    {
        let ghost k = playlist_key(*playlist);
        let ghost old_v = self.playlists@;
        let mut kept: Vec<Playlist> = Vec::new();
        let mut i: usize = 0;
        while i < self.playlists.len()
            invariant
                i <= self.playlists.len(),
                self.playlists@ == old_v,
                k == playlist_key(*playlist),
                playlist_keys(kept@) == playlist_keys(without_key(old_v.take(i as int), k)),
                playlist_names_of(kept@) == playlist_names_of(without_key(old_v.take(i as int), k)),
                forall|j: int| 0 <= j < kept@.len() ==> #[trigger] playlist_key(kept@[j]) != k,
                kept@.len() <= i,
            decreases self.playlists.len() - i,
        {
            assert(old_v.take(i + 1).drop_last() =~= old_v.take(i as int));
            assert(old_v.take(i + 1).last() == old_v[i as int]);
            let f = &self.playlists[i];
            if !(f.source == playlist.source && str_eq(f.id.as_str(), playlist.id.as_str())) {
                let ghost before = kept@;
                kept.push(copy_playlist(f));
                assert(playlist_keys(kept@) =~= playlist_keys(before).push(playlist_key(old_v[i as int])));
                assert(playlist_names_of(kept@) =~= playlist_names_of(before).push(old_v[i as int].name@));
                assert(playlist_key(kept@[before.len() as int]) == playlist_key(old_v[i as int]));
            }
            i += 1;
        }
        assert(old_v.take(old_v.len() as int) =~= old_v);
        let changed = kept.len() != self.playlists.len();
        self.playlists = kept;
        proof {
            lemma_without_key_len(old_v, k);
            if !changed {
                assert(playlist_keys(self.playlists@).len() == old_v.len());
            }
        }
        changed
    }

    /// Copies of the favourite playlists, in order.
    pub fn load_favorite_playlists(&self) -> (r: Vec<Playlist>)
        ensures
            playlist_keys(r@) == playlist_keys(self.playlists@),
            playlist_names_of(r@) == playlist_names_of(self.playlists@),
    {
        let mut out: Vec<Playlist> = Vec::new();
        let mut i: usize = 0;
        while i < self.playlists.len()
            invariant
                i <= self.playlists.len(),
                out@.len() == i,
                playlist_keys(out@) == playlist_keys(self.playlists@.take(i as int)),
                playlist_names_of(out@) == playlist_names_of(self.playlists@.take(i as int)),
            decreases self.playlists.len() - i,
        {
            let ghost before = out@;
            out.push(copy_playlist(&self.playlists[i]));
            assert(self.playlists@.take(i + 1) =~= self.playlists@.take(i as int).push(self.playlists@[i as int]));
            assert(playlist_key(out@[i as int]) == playlist_key(self.playlists@[i as int]));
            assert(playlist_keys(out@) =~= playlist_keys(before).push(playlist_key(out@[i as int])));
            assert(playlist_names_of(out@) =~= playlist_names_of(before).push(out@[i as int].name@));
            assert(playlist_keys(out@) =~= playlist_keys(self.playlists@.take(i + 1)));
            assert(playlist_names_of(out@) =~= playlist_names_of(self.playlists@.take(i + 1)));
            i += 1;
        }
        assert(self.playlists@.take(self.playlists@.len() as int) =~= self.playlists@);
        out
    }
}

/// Removing by key keeps the length exactly when no playlist has the key.
proof fn lemma_without_key_len(v: Seq<Playlist>, k: (Seq<char>, SourceId))
    ensures
        without_key(v, k).len() <= v.len(),
        without_key(v, k).len() == v.len() <==> !has_key(v, k),
    decreases v.len(),
{
    if v.len() > 0 {
        let d = v.drop_last();
        lemma_without_key_len(d, k);
        if has_key(d, k) {
            let i = choose|i: int| 0 <= i < d.len() && #[trigger] playlist_key(d[i]) == k;
            assert(playlist_key(v[i]) == k);
        }
        if playlist_key(v.last()) == k {
            assert(playlist_key(v[v.len() - 1]) == k);
        }
        if has_key(v, k) && !has_key(d, k) {
            let i = choose|i: int| 0 <= i < v.len() && #[trigger] playlist_key(v[i]) == k;
            if i < v.len() - 1 {
                assert(playlist_key(d[i]) == k);
            }
        }
    }
}

} // verus!
