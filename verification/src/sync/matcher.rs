//! Matching the songs of one collection to those of another.
//!
//! Fixed priority: ISRC, then platform id, then exact metadata, then metadata
//! with a close duration, then the best fuzzy metadata score. Each target song
//! is matched at most once.
use vstd::prelude::*;
use crate::song::{SongInfo, SongView, songs_view};
use crate::text::{chars_of, chars_eq, contains_char, trim_chars, trim_ws};
use super::model::{CanonicalSong, CanonicalView, MatchConfidence, SyncSongMatch, canonical, millis_u64};
use super::normalize::{normalize_text, sync_text};

verus! {

/// Number of characters of `a` that occur somewhere in `b`.
pub open spec fn common_count(a: Seq<char>, b: Seq<char>) -> nat
    decreases a.len(),
{
    if a.len() == 0 {
        0
    } else {
        common_count(a.drop_last(), b) + if b.contains(a.last()) {
            1nat
        } else {
            0nat
        }
    }
}

/// Similarity of two normalised texts, from 0 to 100.
pub open spec fn similarity(a: Seq<char>, b: Seq<char>) -> int {
    if a == b {
        100
    } else if a.len() == 0 || b.len() == 0 {
        0
    } else {
        let s: int = (common_count(a, b) * 200) as int / (a.len() + b.len()) as int;
        if s > 100 {
            100
        } else {
            s
        }
    }
}

/// Metadata score of two songs: title similarity weighted 60, artist 30, and
/// 10 more when both have the same non-empty album.
pub open spec fn metadata_score(a: SongView, b: SongView) -> int {
    similarity(sync_text(a.name), sync_text(b.name)) * 60 / 100 + similarity(
        sync_text(a.singer),
        sync_text(b.singer),
    ) * 30 / 100 + if trim_ws(a.album_name).len() > 0 && trim_ws(b.album_name).len() > 0
        && sync_text(a.album_name) == sync_text(b.album_name) {
        10int
    } else {
        0int
    }
}

/// The durations of two songs differ by at most `tolerance_ms` milliseconds.
pub open spec fn duration_close(a: SongView, b: SongView, tolerance_ms: int) -> bool {
    let x = millis_u64(a.duration) as int;
    let y = millis_u64(b.duration) as int;
    (if x >= y {
        x - y
    } else {
        y - x
    }) <= tolerance_ms
}

/// The first position `i` in `k..n` that is not used and satisfies `p`.
pub open spec fn first_from(k: int, n: int, used: Set<int>, p: spec_fn(int) -> bool) -> Option<int>
    decreases n - k,
{
    if k >= n {
        None
    } else if !used.contains(k) && p(k) {
        Some(k)
    } else {
        first_from(k + 1, n, used, p)
    }
}

/// Among the unused positions `k..n` scoring at least `threshold`, the last of
/// those with the highest score (continuing from the best so far, `cur`).
pub open spec fn best_from(k: int, n: int, used: Set<int>, score: spec_fn(int) -> int, threshold: int, cur: Option<int>) -> Option<int>
    decreases n - k,
{
    if k >= n {
        cur
    } else if !used.contains(k) && score(k) >= threshold && (cur is None || score(k) >= score(cur->0)) {
        best_from(k + 1, n, used, score, threshold, Some(k))
    } else {
        best_from(k + 1, n, used, score, threshold, cur)
    }
}

/// The target song matched to `src` when the positions in `used` are taken.
pub open spec fn match_one(src: SongView, tg: Seq<SongView>, used: Set<int>, tol: int, fuzzy: int) -> Option<(int, MatchConfidence)> {
    let c = canonical(src);
    let n = tg.len() as int;
    let by_isrc = match c.isrc {
        Some(v) => first_from(0, n, used, |i: int| canonical(tg[i]).isrc == Some(v)),
        None => None,
    };
    if by_isrc is Some {
        Some((by_isrc->0, MatchConfidence::Isrc))
    } else {
        let by_id = first_from(0, n, used, |i: int| tg[i].source == src.source && tg[i].id == src.id);
        if by_id is Some {
            Some((by_id->0, MatchConfidence::PlatformId))
        } else {
            let exact = first_from(
                0,
                n,
                used,
                |i: int|
                    canonical(tg[i]).title == c.title && canonical(tg[i]).artist == c.artist
                        && canonical(tg[i]).album == c.album,
            );
            if exact is Some {
                Some((exact->0, MatchConfidence::ExactMetadata))
            } else {
                let close = first_from(
                    0,
                    n,
                    used,
                    |i: int| duration_close(src, tg[i], tol) && metadata_score(src, tg[i]) >= 100,
                );
                if close is Some {
                    Some((close->0, MatchConfidence::MetadataDuration))
                } else {
                    match best_from(0, n, used, |i: int| metadata_score(src, tg[i]), fuzzy, None) {
                        Some(i) => Some((i, MatchConfidence::FuzzyMetadata)),
                        None => None,
                    }
                }
            }
        }
    }
}

/// Matches of the source songs, in order, and the target positions they took.
pub open spec fn match_all(src: Seq<SongView>, tg: Seq<SongView>, tol: int, fuzzy: int) -> (Seq<Option<(int, MatchConfidence)>>, Set<int>)
    decreases src.len(),
{
    if src.len() == 0 {
        (Seq::empty(), Set::empty())
    } else {
        let (ms, used) = match_all(src.drop_last(), tg, tol, fuzzy);
        let m = match_one(src.last(), tg, used, tol, fuzzy);
        match m {
            Some(p) => (ms.push(m), used.insert(p.0)),
            None => (ms.push(m), used),
        }
    }
}

/// The target position of a match, or -1 when there is none.
pub open spec fn pos_of(m: Option<(int, MatchConfidence)>) -> int {
    match m {
        Some(p) => p.0,
        None => -1,
    }
}

/// The positions marked in `used`.
pub open spec fn used_set(used: Seq<bool>) -> Set<int> {
    Set::new(|i: int| 0 <= i < used.len() && used[i])
}

/// A found position is the first one from `k`.
pub proof fn lemma_first_from(k: int, n: int, used: Set<int>, p: spec_fn(int) -> bool, i: int)
    requires
        k <= i <= n,
        i < n ==> !used.contains(i) && p(i),
        forall|j: int| k <= j < i ==> !(!used.contains(j) && #[trigger] p(j)),
    ensures
        first_from(k, n, used, p) == (if i < n {
            Some(i)
        } else {
            None::<int>
        }),
    decreases i - k,
{
    if k < i {
        assert(!(!used.contains(k) && p(k)));
        lemma_first_from(k + 1, n, used, p, i);
    }
}

/// What `first_from` finds is an unused position in `k..n` that satisfies `p`.
proof fn lemma_first_from_found(k: int, n: int, used: Set<int>, p: spec_fn(int) -> bool)
    ensures
        first_from(k, n, used, p) matches Some(i) ==> k <= i < n && !used.contains(i) && p(i),
    decreases n - k,
{
    if k < n {
        lemma_first_from_found(k + 1, n, used, p);
    }
}

/// What `best_from` finds is an unused position below `n`.
proof fn lemma_best_from_found(k: int, n: int, used: Set<int>, score: spec_fn(int) -> int, threshold: int, cur: Option<int>)
    requires
        0 <= k,
        cur matches Some(c) ==> 0 <= c < n && !used.contains(c),
    ensures
        best_from(k, n, used, score, threshold, cur) matches Some(i) ==> 0 <= i < n && !used.contains(i),
    decreases n - k,
{
    if k < n {
        if !used.contains(k) && score(k) >= threshold && (cur is None || score(k) >= score(cur->0)) {
            lemma_best_from_found(k + 1, n, used, score, threshold, Some(k));
        } else {
            lemma_best_from_found(k + 1, n, used, score, threshold, cur);
        }
    }
}

/// The target song chosen for a source song is one not taken yet.
proof fn lemma_match_one_fresh(src: SongView, tg: Seq<SongView>, used: Set<int>, tol: int, fuzzy: int)
    ensures
        match_one(src, tg, used, tol, fuzzy) matches Some(m) ==> 0 <= m.0 < tg.len() && !used.contains(m.0),
{
    let c = canonical(src);
    let n = tg.len() as int;
    match c.isrc {
        Some(v) => lemma_first_from_found(0, n, used, |i: int| canonical(tg[i]).isrc == Some(v)),
        None => {},
    }
    lemma_first_from_found(0, n, used, |i: int| tg[i].source == src.source && tg[i].id == src.id);
    lemma_first_from_found(
        0,
        n,
        used,
        |i: int|
            canonical(tg[i]).title == c.title && canonical(tg[i]).artist == c.artist
                && canonical(tg[i]).album == c.album,
    );
    lemma_first_from_found(
        0,
        n,
        used,
        |i: int| duration_close(src, tg[i], tol) && metadata_score(src, tg[i]) >= 100,
    );
    lemma_best_from_found(0, n, used, |i: int| metadata_score(src, tg[i]), fuzzy, None);
}

/// Matching gives one result per source song, and no target song is matched
/// to two source songs: every matched position is a target position, it is
/// recorded as taken, and two matched source songs have different targets.
pub proof fn lemma_match_all_distinct(src: Seq<SongView>, tg: Seq<SongView>, tol: int, fuzzy: int)
    ensures
        match_all(src, tg, tol, fuzzy).0.len() == src.len(),
        forall|i: int| #[trigger] match_all(src, tg, tol, fuzzy).1.contains(i) ==> 0 <= i < tg.len(),
        forall|k: int|
            0 <= k < src.len() && (#[trigger] match_all(src, tg, tol, fuzzy).0[k]) is Some ==> {
                let i = pos_of(match_all(src, tg, tol, fuzzy).0[k]);
                0 <= i < tg.len() && match_all(src, tg, tol, fuzzy).1.contains(i)
            },
        forall|k1: int, k2: int|
            0 <= k1 < src.len() && 0 <= k2 < src.len() && k1 != k2
                && (#[trigger] match_all(src, tg, tol, fuzzy).0[k1]) is Some
                && (#[trigger] match_all(src, tg, tol, fuzzy).0[k2]) is Some
                ==> pos_of(match_all(src, tg, tol, fuzzy).0[k1]) != pos_of(match_all(src, tg, tol, fuzzy).0[k2]),
    decreases src.len(),
{
    if src.len() > 0 {
        let prev = src.drop_last();
        lemma_match_all_distinct(prev, tg, tol, fuzzy);
        let (ms, used) = match_all(prev, tg, tol, fuzzy);
        lemma_match_one_fresh(src.last(), tg, used, tol, fuzzy);
        let now = match_all(src, tg, tol, fuzzy);
        let last = src.len() - 1;
        assert forall|k: int| 0 <= k < last implies #[trigger] now.0[k] == ms[k] by {}
        assert forall|k: int|
            0 <= k < src.len() && (#[trigger] now.0[k]) is Some implies {
                let i = pos_of(now.0[k]);
                0 <= i < tg.len() && now.1.contains(i)
            } by {
            if k < last {
                assert(now.0[k] == ms[k]);
            }
        }
        assert forall|k1: int, k2: int|
            0 <= k1 < src.len() && 0 <= k2 < src.len() && k1 != k2
                && (#[trigger] now.0[k1]) is Some
                && (#[trigger] now.0[k2]) is Some
                implies pos_of(now.0[k1]) != pos_of(now.0[k2]) by {
            if k1 < last && k2 < last {
                assert(now.0[k1] == ms[k1]);
                assert(now.0[k2] == ms[k2]);
            } else if k1 < last {
                assert(now.0[k1] == ms[k1]);
                assert(used.contains(pos_of(ms[k1])));
            } else {
                assert(now.0[k2] == ms[k2]);
                assert(used.contains(pos_of(ms[k2])));
            }
        }
    }
}

/// Number of characters of `a` found in `b`.
fn common_count_exec(a: &Vec<char>, b: &Vec<char>) -> (r: usize)
    ensures
        r == common_count(a@, b@),
        r <= a.len(),
{
    let mut n: usize = 0;
    let mut i: usize = 0;
    while i < a.len()
        invariant
            i <= a.len(),
            n <= i,
            n == common_count(a@.take(i as int), b@),
        decreases a.len() - i,
    {
        assert(a@.take(i + 1).drop_last() == a@.take(i as int));
        assert(a@.take(i + 1).last() == a@[i as int]);
        if contains_char(b, a[i]) {
            n += 1;
        }
        i += 1;
    }
    assert(a@.take(a.len() as int) == a@);
    n
}

/// Similarity of two normalised texts (see [`similarity`]).
fn similarity_exec(a: &Vec<char>, b: &Vec<char>) -> (r: u16)
    ensures
        r == similarity(a@, b@),
        r <= 100,
{
    if chars_eq(a, b) {
        return 100;
    }
    if a.len() == 0 || b.len() == 0 {
        return 0;
    }
    let common = common_count_exec(a, b) as u128;
    let total = (a.len() as u128) + (b.len() as u128);
    let s = (common * 200) / total;
    if s > 100 {
        100
    } else {
        s as u16
    }
}

/// The normalised characters of a text.
fn norm_chars(s: &String) -> (r: Vec<char>)
    ensures
        r@ == sync_text(s@),
{
    let n = normalize_text(s.as_str());
    chars_of(n.as_str())
}

/// Metadata score of two songs (see [`metadata_score`]).
pub fn metadata_score_exec(a: &SongInfo, b: &SongInfo) -> (r: u16)
    ensures
        r == metadata_score(a@, b@),
{
    let title = similarity_exec(&norm_chars(&a.name), &norm_chars(&b.name)) * 60 / 100;
    let artist = similarity_exec(&norm_chars(&a.singer), &norm_chars(&b.singer)) * 30 / 100;
    let ta = trim_chars(&chars_of(a.album_name.as_str()));
    let tb = trim_chars(&chars_of(b.album_name.as_str()));
    let album: u16 = if ta.len() > 0 && tb.len() > 0 && chars_eq(&norm_chars(&a.album_name), &norm_chars(&b.album_name)) {
        10
    } else {
        0
    };
    title + artist + album
}

/// Whether the durations of two songs are within `tolerance_ms`.
pub fn duration_close_exec(a: &SongInfo, b: &SongInfo, tolerance_ms: u64) -> (r: bool)
    ensures
        r == duration_close(a@, b@, tolerance_ms as int),
{
    let x = a.duration.as_millis_saturating();
    let y = b.duration.as_millis_saturating();
    let d = if x >= y {
        x - y
    } else {
        y - x
    };
    d <= tolerance_ms
}

/// Whether two optional strings hold the same text.
fn opt_string_eq(a: &Option<String>, b: &Option<String>) -> (r: bool)
    ensures
        r == (match (a, b) {
            (Some(x), Some(y)) => x@ == y@,
            (None, None) => true,
            _ => false,
        }),
{
    match (a, b) {
        (Some(x), Some(y)) => *x == *y,
        (None, None) => true,
        _ => false,
    }
}

/// The target song matched to `song` (see [`match_one`]).
#[verifier::loop_isolation(false)]
#[verifier::spinoff_prover]
#[verifier::rlimit(40)]
fn match_one_exec(
    song: &SongInfo,
    target: &[SongInfo],
    canon: &Vec<CanonicalSong>,
    used: &Vec<bool>,
    tol: u64,
    fuzzy: u16,
) -> (r: Option<(usize, MatchConfidence)>)
    requires
        canon.len() == target.len(),
        used.len() == target.len(),
        forall|i: int| 0 <= i < target.len() ==> #[trigger] canon@[i]@ == canonical(target@[i]@),
    ensures
        match r {
            Some((i, c)) => match_one(song@, songs_view(target@), used_set(used@), tol as int, fuzzy as int) == Some((i as int, c)) && i < target.len(),
            None => match_one(song@, songs_view(target@), used_set(used@), tol as int, fuzzy as int) is None,
        },
{
    let ghost tg = songs_view(target@);
    let ghost us = used_set(used@);
    let ghost n = target.len() as int;
    let c = CanonicalSong::from_song(song);
    let ghost cv = c@;
    // ISRC
    match &c.isrc {
        Some(v) => {
            let ghost p = |i: int| canonical(tg[i]).isrc == Some(v@);
            let mut i: usize = 0;
            while i < target.len()
                invariant
                    i <= target.len(),
                    canon.len() == target.len(),
                    used.len() == target.len(),
                    tg == songs_view(target@),
                    us == used_set(used@),
                    forall|j: int| 0 <= j < target.len() ==> #[trigger] canon@[j]@ == canonical(target@[j]@),
                    forall|j: int| 0 <= j < i ==> !(!us.contains(j) && #[trigger] p(j)),
                decreases target.len() - i,
            {
                proof {
                    assert(tg[i as int] == target@[i as int]@);
                    assert(canon@[i as int]@ == canonical(tg[i as int]));
                }
                if !used[i] && opt_string_eq(&canon[i].isrc, &c.isrc) {
                    proof {
                        assert(tg[i as int] == target@[i as int]@);
                        lemma_first_from(0, n, us, p, i as int);
                    }
                    return Some((i, MatchConfidence::Isrc));
                }
                proof {
                    assert(tg[i as int] == target@[i as int]@);
                }
                i += 1;
            }
            proof {
                lemma_first_from(0, n, us, p, n);
            }
        },
        None => {},
    }
    // platform id
    let ghost pid = |i: int| tg[i].source == song@.source && tg[i].id == song@.id;
    let mut i: usize = 0;
    while i < target.len()
        invariant
            i <= target.len(),
            used.len() == target.len(),
            tg == songs_view(target@),
            us == used_set(used@),
            forall|j: int| 0 <= j < i ==> !(!us.contains(j) && #[trigger] pid(j)),
        decreases target.len() - i,
    {
        assert(tg[i as int] == target@[i as int]@);
        if !used[i] && target[i].source == song.source && target[i].id == song.id {
            proof {
                lemma_first_from(0, n, us, pid, i as int);
            }
            return Some((i, MatchConfidence::PlatformId));
        }
        i += 1;
    }
    proof {
        lemma_first_from(0, n, us, pid, n);
    }
    // exact metadata
    let ghost pex = |i: int| canonical(tg[i]).title == cv.title && canonical(tg[i]).artist == cv.artist && canonical(tg[i]).album == cv.album;
    let mut i: usize = 0;
    while i < target.len()
        invariant
            i <= target.len(),
            canon.len() == target.len(),
            used.len() == target.len(),
            tg == songs_view(target@),
            us == used_set(used@),
            cv == c@,
            forall|j: int| 0 <= j < target.len() ==> #[trigger] canon@[j]@ == canonical(target@[j]@),
            forall|j: int| 0 <= j < i ==> !(!us.contains(j) && #[trigger] pex(j)),
        decreases target.len() - i,
    {
        assert(tg[i as int] == target@[i as int]@);
        assert(canon@[i as int]@ == canonical(tg[i as int]));
        if !used[i] && canon[i].title == c.title && canon[i].artist == c.artist && canon[i].album == c.album {
            proof {
                lemma_first_from(0, n, us, pex, i as int);
            }
            return Some((i, MatchConfidence::ExactMetadata));
        }
        i += 1;
    }
    proof {
        lemma_first_from(0, n, us, pex, n);
    }
    // metadata with a close duration
    let ghost pclose = |i: int| duration_close(song@, tg[i], tol as int) && metadata_score(song@, tg[i]) >= 100;
    let mut i: usize = 0;
    while i < target.len()
        invariant
            i <= target.len(),
            used.len() == target.len(),
            tg == songs_view(target@),
            us == used_set(used@),
            forall|j: int| 0 <= j < i ==> !(!us.contains(j) && #[trigger] pclose(j)),
        decreases target.len() - i,
    {
        assert(tg[i as int] == target@[i as int]@);
        if !used[i] && duration_close_exec(song, &target[i], tol) && metadata_score_exec(song, &target[i]) >= 100 {
            proof {
                lemma_first_from(0, n, us, pclose, i as int);
            }
            return Some((i, MatchConfidence::MetadataDuration));
        }
        i += 1;
    }
    proof {
        lemma_first_from(0, n, us, pclose, n);
    }
    // best fuzzy score
    let ghost score = |i: int| metadata_score(song@, tg[i]);
    let mut best: Option<usize> = None;
    let mut best_score: u16 = 0;
    let mut i: usize = 0;
    while i < target.len()
        invariant
            i <= target.len(),
            used.len() == target.len(),
            tg == songs_view(target@),
            us == used_set(used@),
            best matches Some(b) ==> b < i && best_score == score(b as int),
            best_from(0, n, us, score, fuzzy as int, None) == best_from(
                i as int,
                n,
                us,
                score,
                fuzzy as int,
                match best {
                    Some(b) => Some(b as int),
                    None => None,
                },
            ),
        decreases target.len() - i,
    {
        assert(tg[i as int] == target@[i as int]@);
        if !used[i] {
            let s = metadata_score_exec(song, &target[i]);
            if s >= fuzzy && (best.is_none() || s >= best_score) {
                best = Some(i);
                best_score = s;
            }
        }
        i += 1;
    }
    match best {
        Some(b) => Some((b, MatchConfidence::FuzzyMetadata)),
        None => None,
    }
}

/// Matches each source song to at most one target song, in source order, by
/// the fixed priority: ISRC, platform id, exact metadata, metadata with close
/// duration, best fuzzy metadata score (at least `fuzzy_threshold`).
pub fn match_songs(source: &[SongInfo], target: &[SongInfo], duration_tolerance_ms: u64, fuzzy_threshold: u16) -> (r: Vec<SyncSongMatch>)
    ensures
        matches_agree(r@, source@, target@, duration_tolerance_ms as int, fuzzy_threshold as int),
{
    let ghost sv = songs_view(source@);
    let ghost tv = songs_view(target@);
    let ghost tol = duration_tolerance_ms as int;
    let ghost fz = fuzzy_threshold as int;
    let mut canon: Vec<CanonicalSong> = Vec::new();
    let mut j: usize = 0;
    while j < target.len()
        invariant
            j <= target.len(),
            canon.len() == j,
            forall|i: int| 0 <= i < j ==> #[trigger] canon@[i]@ == canonical(target@[i]@),
        decreases target.len() - j,
    {
        canon.push(CanonicalSong::from_song(&target[j]));
        j += 1;
    }
    let mut used: Vec<bool> = Vec::new();
    let mut j: usize = 0;
    while j < target.len()
        invariant
            j <= target.len(),
            used.len() == j,
            forall|i: int| 0 <= i < j ==> !#[trigger] used@[i],
        decreases target.len() - j,
    {
        used.push(false);
        j += 1;
    }
    assert(used_set(used@) =~= Set::<int>::empty());
    let mut r: Vec<SyncSongMatch> = Vec::new();
    let mut k: usize = 0;
    while k < source.len()
        invariant
            k <= source.len(),
            r.len() == k,
            canon.len() == target.len(),
            used.len() == target.len(),
            sv == songs_view(source@),
            tv == songs_view(target@),
            tol == duration_tolerance_ms as int,
            fz == fuzzy_threshold as int,
            forall|i: int| 0 <= i < target.len() ==> #[trigger] canon@[i]@ == canonical(target@[i]@),
            match_all(sv.take(k as int), tv, tol, fz).1 == used_set(used@),
            match_all(sv.take(k as int), tv, tol, fz).0.len() == k,
            forall|q: int| 0 <= q < k ==> {
                &&& (#[trigger] r@[q]).source@ == source@[q]@
                &&& match match_all(sv.take(k as int), tv, tol, fz).0[q] {
                    Some((i, c)) => (0 <= i < target.len() && (r@[q].target matches Some(t) && t@ == target@[i]@) && r@[q].confidence == c),
                    None => (r@[q].target is None && r@[q].confidence == MatchConfidence::Unmatched),
                }
            },
        decreases source.len() - k,
    {
        let ghost prev = match_all(sv.take(k as int), tv, tol, fz);
        let ghost nx = sv.take(k + 1);
        assert(nx.drop_last() == sv.take(k as int));
        assert(nx.last() == source@[k as int]@);
        let found = match_one_exec(&source[k], target, &canon, &used, duration_tolerance_ms, fuzzy_threshold);
        let ghost old_used = used@;
        let ghost old_r = r@;
        match found {
            Some((i, c)) => {
                used.set(i, true);
                assert(used_set(used@) =~= used_set(old_used).insert(i as int));
                r.push(SyncSongMatch { source: source[k].clone(), target: Some(target[i].clone()), confidence: c });
            },
            None => {
                r.push(SyncSongMatch { source: source[k].clone(), target: None, confidence: MatchConfidence::Unmatched });
            },
        }
        proof {
            let now = match_all(nx, tv, tol, fz);
            assert(now.0 == prev.0.push(match_one(sv[k as int], tv, prev.1, tol, fz)));
            assert forall|q: int| 0 <= q < k + 1 implies {
                &&& (#[trigger] r@[q]).source@ == source@[q]@
                &&& match now.0[q] {
                    Some((i, c)) => (0 <= i < target.len() && (r@[q].target matches Some(t) && t@ == target@[i]@) && r@[q].confidence == c),
                    None => (r@[q].target is None && r@[q].confidence == MatchConfidence::Unmatched),
                }
            } by {
                if q < k {
                    assert(r@[q] == old_r[q]);
                    assert(now.0[q] == prev.0[q]);
                }
            }
        }
        k += 1;
    }
    assert(sv.take(source.len() as int) == sv);
    r
}

/// `r` holds, for each source song in order, the source song, the target song
/// that [`match_all`] matched to it and how, or no target and `Unmatched`.
pub open spec fn matches_agree(r: Seq<SyncSongMatch>, source: Seq<SongInfo>, target: Seq<SongInfo>, tol: int, fuzzy: int) -> bool {
    &&& r.len() == source.len()
    &&& forall|k: int| 0 <= k < source.len() ==> {
        &&& (#[trigger] r[k]).source@ == source[k]@
        &&& match match_all(songs_view(source), songs_view(target), tol, fuzzy).0[k] {
            Some((i, c)) => (0 <= i < target.len() && (r[k].target matches Some(t) && t@ == target[i]@) && r[k].confidence == c),
            None => (r[k].target is None && r[k].confidence == MatchConfidence::Unmatched),
        }
    }
}

} // verus!
