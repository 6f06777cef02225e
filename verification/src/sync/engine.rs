//! Planning a synchronisation from one collection to another.
use vstd::prelude::*;
use crate::song::{SongInfo, SongView, songs_view};
use crate::text::to_owned_string;
use super::matcher::{first_from, lemma_first_from, match_all, match_one, match_songs, matches_agree, pos_of};
use super::model::{error_message, SyncCollection, SyncDirection, SyncError, SyncFailure, SyncOptions, SyncPlan, SyncPolicy, SyncReport, SyncSongMatch};

verus! {

/// Plans synchronisations between collections.
pub struct SyncEngine;

/// The text of the error of planning a collection into itself.
pub open spec fn same_collection_message() -> Seq<char> {
    "同步参数无效: 源歌单和目标歌单不能是同一个对象"@
}

/// The source songs of the matches that found no target song, in order.
pub open spec fn unmatched_of(ms: Seq<SyncSongMatch>) -> Seq<SongView>
    decreases ms.len(),
{
    if ms.len() == 0 {
        Seq::empty()
    } else {
        let rest = unmatched_of(ms.drop_last());
        if ms.last().target is None {
            rest.push(ms.last().source@)
        } else {
            rest
        }
    }
}

/// `m` matched a target song with the id and source of `c`.
pub open spec fn claims(m: SyncSongMatch, c: SongView) -> bool {
    match m.target {
        Some(t) => t@.id == c.id && t@.source == c.source,
        None => false,
    }
}

/// Some match in `ms` claims `c`.
pub open spec fn claimed(ms: Seq<SyncSongMatch>, c: SongView) -> bool {
    exists|j: int| 0 <= j < ms.len() && #[trigger] claims(ms[j], c)
}

/// The target songs, in order, that no match claims.
pub open spec fn unclaimed(tg: Seq<SongView>, ms: Seq<SyncSongMatch>) -> Seq<SongView>
    decreases tg.len(),
{
    if tg.len() == 0 {
        Seq::empty()
    } else {
        let rest = unclaimed(tg.drop_last(), ms);
        if claimed(ms, tg.last()) {
            rest
        } else {
            rest.push(tg.last())
        }
    }
}

/// `p` is the plan of synchronising `source` into `target` with `options`:
/// the matches of the source songs; as additions (and as unmatched songs) the
/// source songs that found no target; as removals, under the mirror policy
/// only, the target songs that no match claims.
pub open spec fn plan_of(p: SyncPlan, source: SyncCollection, target: SyncCollection, options: SyncOptions) -> bool {
    &&& p.source == source
    &&& p.target == target
    &&& matches_agree(
        p.matches@,
        source.songs@,
        target.songs@,
        options.match_duration_tolerance_ms as int,
        options.fuzzy_threshold as int,
    )
    &&& songs_view(p.additions@) == unmatched_of(p.matches@)
    &&& songs_view(p.unmatched@) == unmatched_of(p.matches@)
    &&& songs_view(p.removals@) == if options.policy == SyncPolicy::Mirror {
        unclaimed(songs_view(target.songs@), p.matches@)
    } else {
        Seq::empty()
    }
}

/// The source songs of the matches without a target song.
fn unmatched_sources(ms: &Vec<SyncSongMatch>) -> (r: Vec<SongInfo>)
    ensures
        songs_view(r@) == unmatched_of(ms@),
{
    let mut r: Vec<SongInfo> = Vec::new();
    let mut i: usize = 0;
    while i < ms.len()
        invariant
            i <= ms.len(),
            songs_view(r@) == unmatched_of(ms@.take(i as int)),
        decreases ms.len() - i,
    {
        assert(ms@.take(i + 1).drop_last() == ms@.take(i as int));
        assert(ms@.take(i + 1).last() == ms@[i as int]);
        if ms[i].target.is_none() {
            let ghost before = r@;
            r.push(ms[i].source.clone());
            assert(songs_view(r@) == songs_view(before).push(ms@[i as int].source@));
        }
        i += 1;
    }
    assert(ms@.take(ms.len() as int) == ms@);
    r
}

/// Whether a match in `ms` claims `c`.
fn is_claimed(ms: &Vec<SyncSongMatch>, c: &SongInfo) -> (r: bool)
    ensures
        r == claimed(ms@, c@),
{
    let mut i: usize = 0;
    while i < ms.len()
        invariant
            i <= ms.len(),
            forall|j: int| 0 <= j < i ==> !#[trigger] claims(ms@[j], c@),
        decreases ms.len() - i,
    {
        let hit = match &ms[i].target {
            Some(t) => t.id == c.id && t.source == c.source,
            None => false,
        };
        if hit {
            assert(claims(ms@[i as int], c@));
            return true;
        }
        i += 1;
    }
    false
}

/// The target songs that no match claims.
fn unclaimed_targets(tg: &Vec<SongInfo>, ms: &Vec<SyncSongMatch>) -> (r: Vec<SongInfo>)
    ensures
        songs_view(r@) == unclaimed(songs_view(tg@), ms@),
{
    let ghost tv = songs_view(tg@);
    let mut r: Vec<SongInfo> = Vec::new();
    let mut i: usize = 0;
    while i < tg.len()
        invariant
            i <= tg.len(),
            tv == songs_view(tg@),
            songs_view(r@) == unclaimed(tv.take(i as int), ms@),
        decreases tg.len() - i,
    {
        assert(tv.take(i + 1).drop_last() == tv.take(i as int));
        assert(tv.take(i + 1).last() == tg@[i as int]@);
        if !is_claimed(ms, &tg[i]) {
            let ghost before = r@;
            r.push(tg[i].clone());
            assert(songs_view(r@) == songs_view(before).push(tg@[i as int]@));
        }
        i += 1;
    }
    assert(tv.take(tg.len() as int) == tv);
    r
}

impl SyncEngine {
    /// Plans the synchronisation of `source` into `target`: the matches, the
    /// source songs to add and, under the mirror policy, the target songs to
    /// remove. A collection cannot be synchronised into itself (same source
    /// and id): that is `InvalidOptions`.
    pub fn plan(source: SyncCollection, target: SyncCollection, options: &SyncOptions) -> (r: Result<SyncPlan, SyncError>)
        ensures
            r is Err <==> (source.source == target.source && source.id@ == target.id@),
            r matches Err(e) ==> e is InvalidOptions,
            r matches Err(e) ==> error_message(e) == same_collection_message(),
            r matches Ok(p) ==> plan_of(p, source, target, *options),
    {
        if source.source == target.source && source.id == target.id {
            let reason = to_owned_string("源歌单和目标歌单不能是同一个对象");
            proof {
                reveal_strlit("源歌单和目标歌单不能是同一个对象");
                reveal_strlit("同步参数无效: ");
                reveal_strlit("同步参数无效: 源歌单和目标歌单不能是同一个对象");
                assert(error_message(SyncError::InvalidOptions(reason)) =~= same_collection_message());
            }
            return Err(SyncError::InvalidOptions(reason));
        }
        let matches = match_songs(
            source.songs.as_slice(),
            target.songs.as_slice(),
            options.match_duration_tolerance_ms,
            options.fuzzy_threshold,
        );
        let additions = unmatched_sources(&matches);
        let unmatched = unmatched_sources(&matches);
        let removals = if options.policy == SyncPolicy::Mirror {
            unclaimed_targets(&target.songs, &matches)
        } else {
            Vec::new()
        };
        proof {
            assert(songs_view(Seq::<SongInfo>::empty()) =~= Seq::<SongView>::empty());
        }
        Ok(SyncPlan { source, target, matches, additions, removals, unmatched })
    }

    /// Two independent plans, `left` into `right` and `right` into `left`;
    /// each is confirmed and run on its own, so that one operation never
    /// changes both platforms. Fails as [`SyncEngine::plan`] does when both
    /// are the same collection.
    pub fn plan_bidirectional(left: SyncCollection, right: SyncCollection, options: &SyncOptions) -> (r: Result<(SyncPlan, SyncPlan), SyncError>)
        ensures
            r is Err <==> (left.source == right.source && left.id@ == right.id@),
            r matches Err(e) ==> e is InvalidOptions,
            r matches Err(e) ==> error_message(e) == same_collection_message(),
            r matches Ok((f, b)) ==> {
                &&& f.source.same_as(left)
                &&& f.target.same_as(right)
                &&& plan_of(f, f.source, f.target, *options)
                &&& b.source == right
                &&& b.target == left
                &&& plan_of(b, right, left, *options)
            },
    {
        let mut forward = *options;
        forward.direction = SyncDirection::SourceToTarget;
        let mut backward = *options;
        backward.direction = SyncDirection::TargetToSource;
        let f = match Self::plan(left.clone(), right.clone(), &forward) {
            Ok(p) => p,
            Err(e) => {
                return Err(e);
            },
        };
        let b = match Self::plan(right, left, &backward) {
            Ok(p) => p,
            Err(e) => {
                return Err(e);
            },
        };
        Ok((f, b))
    }
}

/// The first candidate, if any, with the id and source of `t`.
pub open spec fn first_with_identity(cands: Seq<SongView>, t: SongView) -> Option<int> {
    first_from(0, cands.len() as int, Set::empty(), |j: int| cands[j].id == t.id && cands[j].source == t.source)
}

/// The candidate, among the songs a search on the target platform found,
/// that stands for `source`: the song matched to it as in
/// [`match_songs`](super::matcher::match_songs), taken as the first candidate
/// with that song's id and source. `None` when no candidate matches.
pub fn best_candidate<'a>(source: &SongInfo, candidates: &'a [SongInfo], options: &SyncOptions) -> (r: Option<&'a SongInfo>)
    ensures
        match match_one(
            source@,
            songs_view(candidates@),
            Set::empty(),
            options.match_duration_tolerance_ms as int,
            options.fuzzy_threshold as int,
        ) {
            Some(m) => (first_with_identity(songs_view(candidates@), candidates@[m.0]@) matches Some(j)
                && r matches Some(c) && *c == candidates@[j]),
            None => r is None,
        },
{
    let ghost cv = songs_view(candidates@);
    let ghost tol = options.match_duration_tolerance_ms as int;
    let ghost fz = options.fuzzy_threshold as int;
    let one = vec![source.clone()];
    let ms = match_songs(one.as_slice(), candidates, options.match_duration_tolerance_ms, options.fuzzy_threshold);
    proof {
        let sv = songs_view(one@);
        assert(sv.drop_last() =~= Seq::<SongView>::empty());
        assert(sv.last() == source@);
        assert(match_all(sv.drop_last(), cv, tol, fz) == (Seq::<Option<(int, super::model::MatchConfidence)>>::empty(), Set::<int>::empty()));
        assert(match_all(sv, cv, tol, fz).0[0] == match_one(source@, cv, Set::empty(), tol, fz));
    }
    let target = match &ms[0].target {
        Some(t) => t,
        None => {
            return None;
        },
    };
    let ghost i = pos_of(match_one(source@, cv, Set::empty(), tol, fz));
    assert(target@ == candidates@[i]@);
    let ghost t = candidates@[i]@;
    let ghost p = |j: int| cv[j].id == t.id && cv[j].source == t.source;
    assert(first_with_identity(cv, t) == first_from(0, candidates.len() as int, Set::empty(), p)) by {
        assert(p =~= (|j: int| cv[j].id == t.id && cv[j].source == t.source));
    }
    let mut j: usize = 0;
    while j < candidates.len()
        invariant
            j <= i < candidates.len(),
            cv == songs_view(candidates@),
            target@ == candidates@[i]@,
            t == candidates@[i]@,
            tol == options.match_duration_tolerance_ms as int,
            fz == options.fuzzy_threshold as int,
            match_one(source@, cv, Set::empty(), tol, fz) is Some,
            pos_of(match_one(source@, cv, Set::empty(), tol, fz)) == i,
            first_with_identity(cv, t) == first_from(0, candidates.len() as int, Set::empty(), p),
            p == (|j: int| cv[j].id == t.id && cv[j].source == t.source),
            forall|q: int| 0 <= q < j ==> !(!Set::<int>::empty().contains(q) && #[trigger] p(q)),
        decreases candidates.len() - j,
    {
        assert(cv[j as int] == candidates@[j as int]@);
        if candidates[j].id == target.id && candidates[j].source == target.source {
            proof {
                lemma_first_from(0, candidates.len() as int, Set::empty(), p, j as int);
            }
            return Some(&candidates[j]);
        }
        assert(cv[i] == candidates@[i]@);
        assert(p(i));
        j += 1;
    }
    None
}

/// Number of songs added per request: the configured batch size, at least 1.
pub fn batch_len(options: &SyncOptions) -> (r: usize)
    ensures
        r == if options.batch_size == 0 {
            1
        } else {
            options.batch_size
        },
{
    if options.batch_size == 0 {
        1
    } else {
        options.batch_size
    }
}

impl SyncEngine {
    /// Whether running `plan` removes songs from the target: only when the
    /// caller allows it, the policy mirrors and there is something to remove.
    pub fn removal_allowed(plan: &SyncPlan, options: &SyncOptions, allow_removals: bool) -> (r: bool)
        ensures
            r == (allow_removals && options.policy == SyncPolicy::Mirror && plan.removals@.len() > 0),
    {
        allow_removals && options.policy == SyncPolicy::Mirror && plan.removals.len() > 0
    }
}

impl SyncFailure {
    /// The failure of a song for which the target platform has no match.
    pub fn not_found(song: &SongInfo) -> (r: SyncFailure)
        ensures
            r.song@ == song.name@,
            r.artist@ == song.singer@,
            r.reason@ == "目标音源找不到可匹配歌曲"@,
    {
        SyncFailure {
            song: song.name.clone(),
            artist: song.singer.clone(),
            reason: to_owned_string("目标音源找不到可匹配歌曲"),
        }
    }
}

impl SyncReport {
    /// The report of running `plan`: `added` and `removed` songs, and the
    /// songs that failed. Songs already present are the matches beyond the
    /// additions (at least 0); the unmatched count is the number of failures.
    pub fn from_run(plan: &SyncPlan, added: usize, removed: usize, failed: Vec<SyncFailure>) -> (r: SyncReport)
        ensures
            r.source == plan.source.source,
            r.target == plan.target.source,
            r.collection_name@ == plan.target.name@,
            r.added == added,
            r.removed == removed,
            r.already_present == if plan.matches@.len() >= plan.additions@.len() {
                plan.matches@.len() - plan.additions@.len()
            } else {
                0
            },
            r.unmatched == failed@.len(),
            r.failed == failed,
    {
        let unmatched = failed.len();
        SyncReport {
            source: plan.source.source,
            target: plan.target.source,
            collection_name: plan.target.name.clone(),
            added,
            removed,
            already_present: plan.matches.len().saturating_sub(plan.additions.len()),
            unmatched,
            failed,
        }
    }
}

} // verus!
