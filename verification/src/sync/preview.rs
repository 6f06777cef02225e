//! The preview shown before synchronising the library with an account: for
//! each local playlist the account playlist it corresponds to and how many
//! songs would move each way, the account playlists with no local
//! counterpart, and the same for the favourites.
use vstd::prelude::*;
use crate::library::collection::CustomPlaylist;
use crate::song::{SongInfo, SongView, clone_songs, opt_view, pairs_view, songs_view};
use crate::source::SourceId;
use crate::text::{str_eq, to_owned_string};
use super::engine::{SyncEngine, same_collection_message, unmatched_of};
use super::matcher::{match_all, matches_agree};
use super::model::{MatchConfidence, SyncCollection, SyncCollectionKind, SyncOptions, SyncSongMatch, matched_in};
use super::report::{NeteaseSyncPreview, PlaylistDiff};

verus! {

/// Most songs without a match listed by a preview.
pub const PREVIEW_UNMATCHED_LIMIT: usize = 100;

/// The source songs of the first `n` match results that found nothing.
pub open spec fn unmatched_upto(src: Seq<SongView>, pat: Seq<Option<(int, MatchConfidence)>>, n: int) -> Seq<SongView>
    decreases n,
{
    if n <= 0 {
        Seq::empty()
    } else if pat[n - 1] is None {
        unmatched_upto(src, pat, n - 1).push(src[n - 1])
    } else {
        unmatched_upto(src, pat, n - 1)
    }
}

/// How many of the first `n` match results found a song.
pub open spec fn matched_upto(pat: Seq<Option<(int, MatchConfidence)>>, n: int) -> nat
    decreases n,
{
    if n <= 0 {
        0
    } else if pat[n - 1] is Some {
        matched_upto(pat, n - 1) + 1
    } else {
        matched_upto(pat, n - 1)
    }
}

/// The songs of `src` that find no song in `tgt` under the default options
/// (5 s duration tolerance, fuzzy threshold 92), in order.
pub open spec fn one_way_unmatched(src: Seq<SongView>, tgt: Seq<SongView>) -> Seq<SongView> {
    unmatched_upto(src, match_all(src, tgt, 5000, 92).0, src.len() as int)
}

/// How many songs of `src` find a song in `tgt` under the default options.
pub open spec fn one_way_matched(src: Seq<SongView>, tgt: Seq<SongView>) -> nat {
    matched_upto(match_all(src, tgt, 5000, 92).0, src.len() as int)
}

/// The first `n` matches that agree with the matcher give the unmatched
/// songs and the count of the first `n` match results.
proof fn lemma_plan_prefix(ms: Seq<SyncSongMatch>, s: Seq<SongInfo>, t: Seq<SongInfo>, n: int)
    requires
        matches_agree(ms, s, t, 5000, 92),
        0 <= n <= ms.len(),
    ensures
        unmatched_of(ms.take(n)) == unmatched_upto(songs_view(s), match_all(songs_view(s), songs_view(t), 5000, 92).0, n),
        matched_in(ms.take(n)) == matched_upto(match_all(songs_view(s), songs_view(t), 5000, 92).0, n),
    decreases n,
{
    if n > 0 {
        lemma_plan_prefix(ms, s, t, n - 1);
        assert(ms.take(n).drop_last() == ms.take(n - 1));
        assert(ms.take(n).last() == ms[n - 1]);
        assert(ms[n - 1].source@ == s[n - 1]@);
    }
}

/// Matches that agree with the matcher give the unmatched songs and the
/// count of [`one_way_unmatched`] and [`one_way_matched`].
proof fn lemma_plan_counts(ms: Seq<SyncSongMatch>, s: Seq<SongInfo>, t: Seq<SongInfo>)
    requires
        matches_agree(ms, s, t, 5000, 92),
    ensures
        unmatched_of(ms) == one_way_unmatched(songs_view(s), songs_view(t)),
        matched_in(ms) == one_way_matched(songs_view(s), songs_view(t)),
{
    lemma_plan_prefix(ms, s, t, ms.len() as int);
    assert(ms.take(ms.len() as int) == ms);
}

/// The position of the last collection with id `id`, or -1.
pub open spec fn last_with_id(r: Seq<SyncCollection>, id: Seq<char>) -> int
    decreases r.len(),
{
    if r.len() == 0 {
        -1
    } else if r.last().id@ == id {
        r.len() - 1
    } else {
        last_with_id(r.drop_last(), id)
    }
}

/// The position of the last collection named `name`, or -1.
pub open spec fn last_with_name(r: Seq<SyncCollection>, name: Seq<char>) -> int
    decreases r.len(),
{
    if r.len() == 0 {
        -1
    } else if r.last().name@ == name {
        r.len() - 1
    } else {
        last_with_name(r.drop_last(), name)
    }
}

/// The account playlist of a local playlist: the one it is bound to, when
/// that one exists, else the last one with its name; -1 when there is none.
pub open spec fn target_of(r: Seq<SyncCollection>, mapped: Option<Seq<char>>, name: Seq<char>) -> int {
    let by_id = match mapped {
        Some(id) => last_with_id(r, id),
        None => -1,
    };
    if by_id >= 0 { by_id } else { last_with_name(r, name) }
}

/// The account playlist of local playlist `i`.
pub open spec fn target_index(locals: Seq<CustomPlaylist>, maps: Seq<Option<String>>, remote: Seq<SyncCollection>, i: int) -> int {
    target_of(remote, opt_view(maps[i]), locals[i]@.name)
}

/// Local playlist `i` and its account playlist are one collection, which
/// cannot be planned.
pub open spec fn local_conflict(locals: Seq<CustomPlaylist>, maps: Seq<Option<String>>, remote: Seq<SyncCollection>, i: int) -> bool {
    let t = target_index(locals, maps, remote, i);
    t >= 0 && remote[t].source == SourceId::Local && remote[t].id@ == locals[i]@.id
}

/// Some local playlist conflicts with its account playlist.
pub open spec fn any_conflict(locals: Seq<CustomPlaylist>, maps: Seq<Option<String>>, remote: Seq<SyncCollection>) -> bool {
    exists|i: int| 0 <= i < locals.len() && #[trigger] local_conflict(locals, maps, remote, i)
}

/// Totals over the first `n` local playlists: songs to upload, to
/// download, matched, without match, playlists only local, and the songs
/// without match in order.
pub open spec fn local_totals(locals: Seq<CustomPlaylist>, maps: Seq<Option<String>>, remote: Seq<SyncCollection>, n: int) -> (nat, nat, nat, nat, nat, Seq<SongView>)
    decreases n,
{
    if n <= 0 {
        (0, 0, 0, 0, 0, Seq::empty())
    } else {
        let p = local_totals(locals, maps, remote, n - 1);
        let i = n - 1;
        let t = target_index(locals, maps, remote, i);
        let ls = locals[i]@.songs;
        if t >= 0 {
            let rs = songs_view(remote[t].songs@);
            let up = one_way_unmatched(ls, rs);
            let down = one_way_unmatched(rs, ls);
            (p.0 + up.len(), p.1 + down.len(), p.2 + one_way_matched(ls, rs), p.3 + up.len() + down.len(), p.4, p.5 + up + down)
        } else {
            (p.0 + ls.len(), p.1, p.2, p.3, p.4 + 1, p.5)
        }
    }
}

/// How a local playlist is tied to its account playlist.
pub open spec fn mapping_label(mapped: bool) -> Seq<char> {
    if mapped { "已绑定"@ } else { "名称匹配"@ }
}

/// The row of local playlist `i`: name, upload, download, matched, without
/// match, and how it is tied (empty when only local).
pub open spec fn diff_model(locals: Seq<CustomPlaylist>, maps: Seq<Option<String>>, remote: Seq<SyncCollection>, i: int) -> (Seq<char>, int, int, int, int, Seq<char>) {
    let t = target_index(locals, maps, remote, i);
    let ls = locals[i]@.songs;
    if t >= 0 {
        let rs = songs_view(remote[t].songs@);
        let up = one_way_unmatched(ls, rs).len() as int;
        let down = one_way_unmatched(rs, ls).len() as int;
        (locals[i]@.name, up, down, one_way_matched(ls, rs) as int, up + down, mapping_label(maps[i] is Some))
    } else {
        (locals[i]@.name, ls.len() as int, 0, 0, 0, Seq::empty())
    }
}

/// The fields of a row.
pub open spec fn diff_view(d: PlaylistDiff) -> (Seq<char>, int, int, int, int, Seq<char>) {
    (d.name@, d.upload as int, d.download as int, d.matched as int, d.unmatched as int, d.mapping@)
}

/// The name of the account's favourites, which is never counted as a playlist.
pub open spec fn favorites_name() -> Seq<char> {
    "我喜欢"@
}

/// Some local playlist has the name of `c` or is bound to it.
pub open spec fn claimed_by_local(locals: Seq<CustomPlaylist>, maps: Seq<Option<String>>, c: SyncCollection) -> bool {
    exists|i: int| 0 <= i < locals.len() && (#[trigger] locals[i]@.name == c.name@ || opt_view(maps[i]) == Some(c.id@))
}

/// No later account playlist has the name of playlist `j`.
pub open spec fn name_is_last(remote: Seq<SyncCollection>, j: int) -> bool {
    forall|k: int| j < k < remote.len() ==> #[trigger] remote[k].name@ != remote[j].name@
}

/// Account playlist `j` counts as only on the account: the last of its
/// name, not the favourites, and no local playlist has its name or is bound to it.
pub open spec fn remote_only_at(locals: Seq<CustomPlaylist>, maps: Seq<Option<String>>, remote: Seq<SyncCollection>, j: int) -> bool {
    &&& name_is_last(remote, j)
    &&& remote[j].name@ != favorites_name()
    &&& !claimed_by_local(locals, maps, remote[j])
}

/// Among the first `n` account playlists, how many are only on the account
/// and how many songs they hold.
pub open spec fn remote_only_totals(locals: Seq<CustomPlaylist>, maps: Seq<Option<String>>, remote: Seq<SyncCollection>, n: int) -> (nat, nat)
    decreases n,
{
    if n <= 0 {
        (0, 0)
    } else {
        let p = remote_only_totals(locals, maps, remote, n - 1);
        if remote_only_at(locals, maps, remote, n - 1) {
            (p.0 + 1, p.1 + remote[n - 1].songs@.len())
        } else {
            p
        }
    }
}

/// The id of the local favourites as a collection.
pub open spec fn local_favorites_id() -> Seq<char> {
    "local:favorites"@
}

/// The account favourites and the local ones are one collection.
pub open spec fn favorites_conflict(rf: SyncCollection) -> bool {
    rf.source == SourceId::Local && rf.id@ == local_favorites_id()
}

/// The error when the account has no favourites.
pub open spec fn missing_favorites_message() -> Seq<char> {
    "网易云未找到“我喜欢”"@
}

/// Title and artist of the first songs of `s`, at most
/// [`PREVIEW_UNMATCHED_LIMIT`].
pub open spec fn capped(s: Seq<SongView>) -> Seq<(Seq<char>, Seq<char>)> {
    let n = if s.len() < 100 { s.len() as int } else { 100 };
    s.take(n).map_values(|v: SongView| (v.name, v.singer))
}

/// The preview fits in machine integers.
pub open spec fn preview_fits(
    locals: Seq<CustomPlaylist>,
    maps: Seq<Option<String>>,
    remote: Seq<SyncCollection>,
    lf: Seq<SongInfo>,
    rf: Option<SyncCollection>,
) -> bool {
    let t = local_totals(locals, maps, remote, locals.len() as int);
    let ro = remote_only_totals(locals, maps, remote, remote.len() as int);
    let fav = match rf {
        Some(c) => one_way_unmatched(songs_view(lf), songs_view(c.songs@)).len() + one_way_unmatched(
            songs_view(c.songs@),
            songs_view(lf),
        ).len(),
        None => 0,
    };
    &&& t.0 <= usize::MAX
    &&& t.1 + ro.1 <= usize::MAX
    &&& t.2 <= usize::MAX
    &&& t.3 + fav <= usize::MAX
}

/// `p` is the preview of the local playlists, their bindings, the account
/// playlists and both favourites: one row per local playlist; upload and
/// download summed over the rows, the account-only playlists adding their
/// songs to the download; without match summed over the rows and both
/// directions of the favourites; and the first songs without match.
pub open spec fn preview_of(
    p: NeteaseSyncPreview,
    locals: Seq<CustomPlaylist>,
    maps: Seq<Option<String>>,
    remote: Seq<SyncCollection>,
    lf: Seq<SongInfo>,
    rf: SyncCollection,
) -> bool {
    let t = local_totals(locals, maps, remote, locals.len() as int);
    let ro = remote_only_totals(locals, maps, remote, remote.len() as int);
    let fu = one_way_unmatched(songs_view(lf), songs_view(rf.songs@));
    let fd = one_way_unmatched(songs_view(rf.songs@), songs_view(lf));
    &&& p.playlists@.len() == locals.len()
    &&& forall|i: int| 0 <= i < locals.len() ==> diff_view(#[trigger] p.playlists@[i]) == diff_model(locals, maps, remote, i)
    &&& p.upload == t.0
    &&& p.download == t.1 + ro.1
    &&& p.matched == t.2
    &&& p.unmatched == t.3 + fu.len() + fd.len()
    &&& p.favorites_upload == fu.len()
    &&& p.favorites_download == fd.len()
    &&& p.remote_only == ro.0
    &&& p.local_only == t.4
    &&& pairs_view(p.unmatched_songs@) == capped(t.5 + fu + fd)
}

/// Later local playlists only add to the totals.
proof fn lemma_totals_grow(locals: Seq<CustomPlaylist>, maps: Seq<Option<String>>, remote: Seq<SyncCollection>, n: int, m: int)
    requires
        0 <= n <= m,
    ensures
        local_totals(locals, maps, remote, n).0 <= local_totals(locals, maps, remote, m).0,
        local_totals(locals, maps, remote, n).1 <= local_totals(locals, maps, remote, m).1,
        local_totals(locals, maps, remote, n).2 <= local_totals(locals, maps, remote, m).2,
        local_totals(locals, maps, remote, n).3 <= local_totals(locals, maps, remote, m).3,
        local_totals(locals, maps, remote, n).4 <= local_totals(locals, maps, remote, m).4,
    decreases m - n,
{
    if n < m {
        lemma_totals_grow(locals, maps, remote, n, m - 1);
    }
}

/// No more playlists are only local than playlists looked at.
proof fn lemma_local_only_count(locals: Seq<CustomPlaylist>, maps: Seq<Option<String>>, remote: Seq<SyncCollection>, m: int)
    requires
        0 <= m,
    ensures
        local_totals(locals, maps, remote, m).4 <= m,
    decreases m,
{
    if m > 0 {
        lemma_local_only_count(locals, maps, remote, m - 1);
    }
}

/// Later account playlists only add to the account-only totals.
proof fn lemma_remote_only_grow(locals: Seq<CustomPlaylist>, maps: Seq<Option<String>>, remote: Seq<SyncCollection>, n: int, m: int)
    requires
        0 <= n <= m,
    ensures
        remote_only_totals(locals, maps, remote, n).0 <= remote_only_totals(locals, maps, remote, m).0,
        remote_only_totals(locals, maps, remote, n).1 <= remote_only_totals(locals, maps, remote, m).1,
    decreases m - n,
{
    if n < m {
        lemma_remote_only_grow(locals, maps, remote, n, m - 1);
    }
}

/// The count of account-only playlists never exceeds the playlists looked at.
proof fn lemma_remote_only_count(locals: Seq<CustomPlaylist>, maps: Seq<Option<String>>, remote: Seq<SyncCollection>, m: int)
    requires
        0 <= m,
    ensures
        remote_only_totals(locals, maps, remote, m).0 <= m,
    decreases m,
{
    if m > 0 {
        lemma_remote_only_count(locals, maps, remote, m - 1);
    }
}

/// Appending songs to the ones without match keeps the first
/// [`PREVIEW_UNMATCHED_LIMIT`] of them.
fn push_unmatched(list: &mut Vec<(String, String)>, songs: &Vec<SongInfo>, Ghost(prior): Ghost<Seq<SongView>>)
    requires
        pairs_view(old(list)@) == capped(prior),
    ensures
        pairs_view(final(list)@) == capped(prior + songs_view(songs@)),
{
    let ghost sv = songs_view(songs@);
    let mut k: usize = 0;
    while k < songs.len()
        invariant
            k <= songs.len(),
            sv == songs_view(songs@),
            pairs_view(list@) == capped(prior + sv.take(k as int)),
        decreases songs.len() - k,
    {
        let ghost q = prior + sv.take(k as int);
        assert(prior + sv.take(k + 1) == q.push(sv[k as int]));
        assert(list@.len() == pairs_view(list@).len());
        if list.len() < PREVIEW_UNMATCHED_LIMIT {
            let ghost before = list@;
            list.push((songs[k].name.clone(), songs[k].singer.clone()));
            assert(pairs_view(list@) =~= pairs_view(before).push((sv[k as int].name, sv[k as int].singer)));
            assert(capped(q.push(sv[k as int])) =~= capped(q).push((sv[k as int].name, sv[k as int].singer)));
        } else {
            assert(capped(q.push(sv[k as int])) =~= capped(q));
        }
        k += 1;
    }
    assert(sv.take(songs.len() as int) == sv);
}

/// The songs of `source` without a match in `target`, and how many matched;
/// the error of planning a collection into itself.
fn one_way(source: &SyncCollection, target: &SyncCollection) -> (r: Result<(Vec<SongInfo>, usize), String>)
    ensures
        r is Err <==> (source.source == target.source && source.id@ == target.id@),
        r matches Err(m) ==> m@ == same_collection_message(),
        r matches Ok(p) ==> songs_view(p.0@) == one_way_unmatched(songs_view(source.songs@), songs_view(target.songs@)),
        r matches Ok(p) ==> p.1 == one_way_matched(songs_view(source.songs@), songs_view(target.songs@)),
{
    let options = SyncOptions::default();
    let s = source.clone();
    let t = target.clone();
    match SyncEngine::plan(s, t, &options) {
        Ok(plan) => {
            proof {
                lemma_plan_counts(plan.matches@, plan.source.songs@, plan.target.songs@);
            }
            let matched = plan.matched_count();
            Ok((plan.unmatched, matched))
        },
        Err(e) => Err(e.message()),
    }
}

/// The position of the last collection with id `id`.
fn find_last_id(remote: &[SyncCollection], id: &String) -> (r: Option<usize>)
    ensures
        r matches Some(j) ==> j < remote.len(),
        (match r {
            Some(j) => j as int,
            None => -1,
        }) == last_with_id(remote@, id@),
{
    let mut i: usize = remote.len();
    assert(remote@.take(i as int) == remote@);
    while i > 0
        invariant
            i <= remote.len(),
            last_with_id(remote@, id@) == last_with_id(remote@.take(i as int), id@),
        decreases i,
    {
        let j = i - 1;
        assert(remote@.take(i as int).drop_last() == remote@.take(j as int));
        if remote[j].id == *id {
            return Some(j);
        }
        i = j;
    }
    None
}

/// The position of the last collection named `name`.
fn find_last_name(remote: &[SyncCollection], name: &String) -> (r: Option<usize>)
    ensures
        r matches Some(j) ==> j < remote.len(),
        (match r {
            Some(j) => j as int,
            None => -1,
        }) == last_with_name(remote@, name@),
{
    let mut i: usize = remote.len();
    assert(remote@.take(i as int) == remote@);
    while i > 0
        invariant
            i <= remote.len(),
            last_with_name(remote@, name@) == last_with_name(remote@.take(i as int), name@),
        decreases i,
    {
        let j = i - 1;
        assert(remote@.take(i as int).drop_last() == remote@.take(j as int));
        if remote[j].name == *name {
            return Some(j);
        }
        i = j;
    }
    None
}

/// The account playlist of a local playlist (see [`target_of`]).
pub fn find_target(remote: &[SyncCollection], mapped: &Option<String>, name: &String) -> (r: Option<usize>)
    ensures
        r matches Some(j) ==> j < remote.len(),
        (match r {
            Some(j) => j as int,
            None => -1,
        }) == target_of(remote@, opt_view(*mapped), name@),
{
    match mapped {
        Some(id) => match find_last_id(remote, id) {
            Some(j) => Some(j),
            None => find_last_name(remote, name),
        },
        None => find_last_name(remote, name),
    }
}

/// Whether some local playlist has the name of `c` or is bound to it.
fn is_claimed_by_local(locals: &[CustomPlaylist], mappings: &[Option<String>], c: &SyncCollection) -> (r: bool)
    requires
        locals.len() == mappings.len(),
    ensures
        r == claimed_by_local(locals@, mappings@, *c),
{
    let mut i: usize = 0;
    while i < locals.len()
        invariant
            i <= locals.len() == mappings.len(),
            forall|k: int| 0 <= k < i ==> !(#[trigger] locals@[k]@.name == c.name@ || opt_view(mappings@[k]) == Some(c.id@)),
        decreases locals.len() - i,
    {
        let bound = match &mappings[i] {
            Some(m) => *m == c.id,
            None => false,
        };
        assert(bound == (opt_view(mappings@[i as int]) == Some(c.id@)));
        let same_name = locals[i].name == c.name;
        assert(same_name == (locals@[i as int]@.name == c.name@));
        if same_name || bound {
            assert(locals@[i as int]@.name == c.name@ || opt_view(mappings@[i as int]) == Some(c.id@));
            return true;
        }
        i += 1;
    }
    false
}

/// Whether no account playlist after `j` has its name.
fn is_last_name(remote: &[SyncCollection], j: usize) -> (r: bool)
    requires
        j < remote.len(),
    ensures
        r == name_is_last(remote@, j as int),
{
    let mut k: usize = j + 1;
    while k < remote.len()
        invariant
            j < k <= remote.len(),
            forall|q: int| j < q < k ==> #[trigger] remote@[q].name@ != remote@[j as int].name@,
        decreases remote.len() - k,
    {
        if remote[k].name == remote[j].name {
            return false;
        }
        k += 1;
    }
    true
}

/// How many account playlists are only on the account, and their songs.
fn count_remote_only(locals: &[CustomPlaylist], mappings: &[Option<String>], remote: &[SyncCollection]) -> (r: (usize, usize))
    requires
        locals.len() == mappings.len(),
        remote_only_totals(locals@, mappings@, remote@, remote@.len() as int).1 <= usize::MAX,
    ensures
        r.0 == remote_only_totals(locals@, mappings@, remote@, remote@.len() as int).0,
        r.1 == remote_only_totals(locals@, mappings@, remote@, remote@.len() as int).1,
{
    let mut count: usize = 0;
    let mut songs: usize = 0;
    let mut j: usize = 0;
    while j < remote.len()
        invariant
            j <= remote.len(),
            locals.len() == mappings.len(),
            remote_only_totals(locals@, mappings@, remote@, remote@.len() as int).1 <= usize::MAX,
            count == remote_only_totals(locals@, mappings@, remote@, j as int).0,
            songs == remote_only_totals(locals@, mappings@, remote@, j as int).1,
        decreases remote.len() - j,
    {
        proof {
            lemma_remote_only_grow(locals@, mappings@, remote@, j + 1, remote@.len() as int);
            lemma_remote_only_count(locals@, mappings@, remote@, j + 1);
        }
        let only = is_last_name(remote, j) && !str_eq(remote[j].name.as_str(), "我喜欢") && !is_claimed_by_local(
            locals,
            mappings,
            &remote[j],
        );
        proof {
            reveal_strlit("我喜欢");
        }
        if only {
            count = count + 1;
            songs = songs + remote[j].songs.len();
        }
        j += 1;
    }
    (count, songs)
}

/// A local playlist as a collection of the local source.
fn local_collection(p: &CustomPlaylist) -> (r: SyncCollection)
    ensures
        r.kind == SyncCollectionKind::Playlist,
        r.id@ == p.id@,
        r.name@ == p.name@,
        r.source == SourceId::Local,
        songs_view(r.songs@) == p@.songs,
{
    SyncCollection {
        kind: SyncCollectionKind::Playlist,
        id: p.id.clone(),
        name: p.name.clone(),
        source: SourceId::Local,
        songs: clone_songs(&p.songs),
    }
}

/// `out` holds the rows and totals of the first `i` local playlists, and
/// nothing yet of the account-only playlists or the favourites.
pub open spec fn rows_done(out: NeteaseSyncPreview, lv: Seq<CustomPlaylist>, mv: Seq<Option<String>>, rv: Seq<SyncCollection>, i: int) -> bool {
    let t = local_totals(lv, mv, rv, i);
    &&& out.playlists@.len() == i
    &&& forall|k: int| 0 <= k < i ==> diff_view(#[trigger] out.playlists@[k]) == diff_model(lv, mv, rv, k)
    &&& out.upload == t.0
    &&& out.download == t.1
    &&& out.matched == t.2
    &&& out.unmatched == t.3
    &&& out.local_only == t.4
    &&& pairs_view(out.unmatched_songs@) == capped(t.5)
    &&& out.favorites_upload == 0 && out.favorites_download == 0 && out.remote_only == 0
}

/// Adds the row of local playlist `i` to the preview; fails when the
/// playlist and its account playlist are one collection.
fn add_playlist(
    out: &mut NeteaseSyncPreview,
    locals: &[CustomPlaylist],
    mappings: &[Option<String>],
    remote: &[SyncCollection],
    i: usize,
) -> (r: Result<(), String>)
    requires
        i < locals.len() == mappings.len(),
        rows_done(*old(out), locals@, mappings@, remote@, i as int),
        local_totals(locals@, mappings@, remote@, i + 1).0 <= usize::MAX,
        local_totals(locals@, mappings@, remote@, i + 1).1 <= usize::MAX,
        local_totals(locals@, mappings@, remote@, i + 1).2 <= usize::MAX,
        local_totals(locals@, mappings@, remote@, i + 1).3 <= usize::MAX,
    ensures
        r is Err <==> local_conflict(locals@, mappings@, remote@, i as int),
        r matches Err(m) ==> m@ == same_collection_message(),
        r is Ok ==> rows_done(*final(out), locals@, mappings@, remote@, i + 1),
{
    let ghost lv = locals@;
    let ghost mv = mappings@;
    let ghost rv = remote@;
    let local = &locals[i];
    let target = find_target(remote, &mappings[i], &local.name);
    let ghost before = out.playlists@;
    proof {
        lemma_local_only_count(lv, mv, rv, i as int);
    }
    match target {
        Some(j) => {
            let lc = local_collection(local);
            let a = one_way(&lc, &remote[j]);
            let b = one_way(&remote[j], &lc);
            match (a, b) {
                (Ok((up, matched)), Ok((down, _))) => {
                    let ghost prior = local_totals(lv, mv, rv, i as int).5;
                    let ghost us = songs_view(up@);
                    assert(up@.len() == us.len());
                    assert(down@.len() == songs_view(down@).len());
                    out.upload = out.upload + up.len();
                    out.download = out.download + down.len();
                    out.matched = out.matched + matched;
                    out.unmatched = out.unmatched + up.len() + down.len();
                    push_unmatched(&mut out.unmatched_songs, &up, Ghost(prior));
                    push_unmatched(&mut out.unmatched_songs, &down, Ghost(prior + us));
                    let mapping = if mappings[i].is_some() {
                        to_owned_string("已绑定")
                    } else {
                        to_owned_string("名称匹配")
                    };
                    out.playlists.push(
                        PlaylistDiff {
                            name: local.name.clone(),
                            upload: up.len(),
                            download: down.len(),
                            matched,
                            unmatched: up.len() + down.len(),
                            mapping,
                        },
                    );
                    assert(out.playlists@ == before.push(out.playlists@[i as int]));
                    assert(prior + us + songs_view(down@) == local_totals(lv, mv, rv, i + 1).5);
                    assert(out.upload == local_totals(lv, mv, rv, i + 1).0);
                    assert(out.download == local_totals(lv, mv, rv, i + 1).1);
                    assert(out.matched == local_totals(lv, mv, rv, i + 1).2);
                    assert(out.unmatched == local_totals(lv, mv, rv, i + 1).3);
                    assert(out.local_only == local_totals(lv, mv, rv, i + 1).4);
                    assert(diff_view(out.playlists@[i as int]) == diff_model(lv, mv, rv, i as int));
                    assert(pairs_view(out.unmatched_songs@) == capped(local_totals(lv, mv, rv, i + 1).5));
                    Ok(())
                },
                (Err(m), _) => Err(m),
                (_, Err(m)) => Err(m),
            }
        },
        None => {
            out.local_only = out.local_only + 1;
            out.upload = out.upload + local.songs.len();
            let mut row = PlaylistDiff::default();
            row.name = local.name.clone();
            row.upload = local.songs.len();
            out.playlists.push(row);
            assert(out.playlists@ == before.push(out.playlists@[i as int]));
            assert(local.songs@.len() == lv[i as int]@.songs.len());
            assert(out.upload == local_totals(lv, mv, rv, i + 1).0);
            assert(out.local_only == local_totals(lv, mv, rv, i + 1).4);
            assert(diff_view(out.playlists@[i as int]) == diff_model(lv, mv, rv, i as int));
            assert(pairs_view(out.unmatched_songs@) == capped(local_totals(lv, mv, rv, i + 1).5));
            Ok(())
        },
    }
}

/// The preview of synchronising the local playlists (with, for each, the
/// id of the account playlist it is bound to, if any) and the local
/// favourites with the account's playlists and favourites (the first
/// favourites collection the account lists). Fails when a local collection
/// and its account counterpart are one collection, or when the account has
/// no favourites (see [`preview_of`]).
#[verifier::rlimit(40)]
pub fn sync_preview(
    locals: &[CustomPlaylist],
    mappings: &[Option<String>],
    remote: &[SyncCollection],
    local_favorites: Vec<SongInfo>,
    remote_favorites: Option<SyncCollection>,
) -> (r: Result<NeteaseSyncPreview, String>)
    requires
        locals.len() == mappings.len(),
        preview_fits(locals@, mappings@, remote@, local_favorites@, remote_favorites),
    ensures
        r is Err <==> (any_conflict(locals@, mappings@, remote@) || remote_favorites is None || favorites_conflict(
            remote_favorites->0,
        )),
        r matches Err(m) ==> m@ == (if any_conflict(locals@, mappings@, remote@) {
            same_collection_message()
        } else if remote_favorites is None {
            missing_favorites_message()
        } else {
            same_collection_message()
        }),
        r matches Ok(p) ==> preview_of(p, locals@, mappings@, remote@, local_favorites@, remote_favorites->0),
{
    let ghost lv = locals@;
    let ghost mv = mappings@;
    let ghost rv = remote@;
    let ghost n = locals@.len() as int;
    let mut out = NeteaseSyncPreview::default();
    proof {
        assert(pairs_view(out.unmatched_songs@) =~= capped(Seq::empty()));
    }
    proof {
        lemma_remote_only_grow(lv, mv, rv, 0, rv.len() as int);
    }
    let mut i: usize = 0;
    while i < locals.len()
        invariant
            i <= locals.len() == mappings.len(),
            lv == locals@ && mv == mappings@ && rv == remote@ && n == locals@.len(),
            local_totals(lv, mv, rv, n).0 <= usize::MAX,
            local_totals(lv, mv, rv, n).1 <= usize::MAX,
            local_totals(lv, mv, rv, n).2 <= usize::MAX,
            local_totals(lv, mv, rv, n).3 <= usize::MAX,
            forall|k: int| 0 <= k < i ==> !#[trigger] local_conflict(lv, mv, rv, k),
            rows_done(out, lv, mv, rv, i as int),
        decreases locals.len() - i,
    {
        proof {
            lemma_totals_grow(lv, mv, rv, i + 1, n);
        }
        match add_playlist(&mut out, locals, mappings, remote, i) {
            Ok(()) => {},
            Err(m) => {
                assert(local_conflict(lv, mv, rv, i as int));
                return Err(m);
            },
        }
        i += 1;
    }
    assert(!any_conflict(lv, mv, rv));
    proof {
        lemma_remote_only_grow(lv, mv, rv, 0, rv.len() as int);
    }
    let (only, only_songs) = count_remote_only(locals, mappings, remote);
    out.remote_only = only;
    out.download = out.download + only_songs;
    let rf = match remote_favorites {
        Some(c) => c,
        None => {
            let m = to_owned_string("网易云未找到“我喜欢”");
            return Err(m);
        },
    };
    let lf = SyncCollection {
        kind: SyncCollectionKind::Favorites,
        id: to_owned_string("local:favorites"),
        name: to_owned_string("本地收藏"),
        source: SourceId::Local,
        songs: local_favorites,
    };
    let a = one_way(&lf, &rf);
    let b = one_way(&rf, &lf);
    match (a, b) {
        (Ok((up, _)), Ok((down, _))) => {
            let ghost prior = local_totals(lv, mv, rv, n).5;
            let ghost us = songs_view(up@);
            assert(up@.len() == us.len());
            assert(down@.len() == songs_view(down@).len());
            out.favorites_upload = up.len();
            out.favorites_download = down.len();
            out.unmatched = out.unmatched + up.len() + down.len();
            push_unmatched(&mut out.unmatched_songs, &up, Ghost(prior));
            push_unmatched(&mut out.unmatched_songs, &down, Ghost(prior + us));
            proof {
                assert(prior + us + songs_view(down@) == prior + (us + songs_view(down@)));
            }
            Ok(out)
        },
        (Err(m), _) => Err(m),
        (_, Err(m)) => Err(m),
    }
}

} // verus!
