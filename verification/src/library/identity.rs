//! When two songs of the user's library are the same song.
use vstd::prelude::*;
use crate::song::{SongInfo, SongView, opt_view};
use crate::source::SourceId;
use crate::sync::normalize::{dedup_seq, insert_sorted_exec, join_seqs, sort_seqs, split_by, split_chars, vv};
use crate::text::{alphanumeric, chars_eq, chars_of, is_alphanumeric, push_all, push_char, string_of};
use crate::text::lower_text;
use crate::ui::sort::lower_chars;

verus! {

/// The letters and digits of `s`, in order.
pub open spec fn keep_alphanumeric(s: Seq<char>) -> Seq<char>
    decreases s.len(),
{
    if s.len() == 0 {
        s
    } else if alphanumeric(s.last()) {
        keep_alphanumeric(s.drop_last()).push(s.last())
    } else {
        keep_alphanumeric(s.drop_last())
    }
}

/// The comparable form of a title: lower case, letters and digits only.
pub open spec fn plain_text(s: Seq<char>) -> Seq<char> {
    keep_alphanumeric(lower_text(s))
}

/// Separators between singer names.
pub open spec fn singer_separators() -> Seq<char> {
    seq!['、', ',', '&', '/', ';', '，']
}

/// The non-empty comparable forms of the pieces.
pub open spec fn plain_names(pieces: Seq<Seq<char>>) -> Seq<Seq<char>>
    decreases pieces.len(),
{
    if pieces.len() == 0 {
        Seq::empty()
    } else {
        let rest = plain_names(pieces.drop_last());
        let n = plain_text(pieces.last());
        if n.len() == 0 {
            rest
        } else {
            rest.push(n)
        }
    }
}

/// The comparable form of a singer list: names split at the separators, made
/// comparable, sorted, without repetitions, joined with `|`.
pub open spec fn singer_key(s: Seq<char>) -> Seq<char> {
    join_seqs(dedup_seq(sort_seqs(plain_names(split_by(s, singer_separators())))), seq!['|'])
}

/// Two songs are the same favourite: the same id on the same source, or the
/// same non-empty comparable title and the same non-empty singer list.
pub open spec fn equivalent(a: SongView, b: SongView) -> bool {
    (a.source == b.source && a.id == b.id) || (plain_text(a.name).len() > 0 && plain_text(a.name)
        == plain_text(b.name) && singer_key(a.singer).len() > 0 && singer_key(a.singer)
        == singer_key(b.singer))
}

/// Being the same favourite is reflexive and symmetric.
pub proof fn lemma_equivalent(a: SongView, b: SongView)
    ensures
        equivalent(a, a),
        equivalent(a, b) == equivalent(b, a),
{
}

/// Two songs are the same entry of a custom playlist: the same non-empty id
/// on the same source, or two local songs with the same file.
pub open spec fn same_identity(a: SongView, b: SongView) -> bool {
    (a.source == b.source && a.id.len() > 0 && a.id == b.id) || (a.source == SourceId::Local
        && b.source == SourceId::Local && a.file_path is Some && a.file_path == b.file_path)
}

/// A local song stands for the file `path`: its file path or its id is `path`.
pub open spec fn matches_path(s: SongView, path: Seq<char>) -> bool {
    s.source == SourceId::Local && (s.file_path == Some(path) || s.id == path)
}

/// The letters and digits of `v`.
fn keep_alphanumeric_exec(v: &Vec<char>) -> (r: Vec<char>)
    ensures
        r@ == keep_alphanumeric(v@),
{
    let mut r: Vec<char> = Vec::new();
    let mut i: usize = 0;
    while i < v.len()
        invariant
            i <= v.len(),
            r@ == keep_alphanumeric(v@.take(i as int)),
        decreases v.len() - i,
    {
        assert(v@.take(i + 1).drop_last() == v@.take(i as int));
        if is_alphanumeric(v[i]) {
            r.push(v[i]);
        }
        i += 1;
    }
    assert(v@.take(v.len() as int) == v@);
    r
}

/// The comparable form of a title (see [`plain_text`]).
pub fn normalize_text(value: &str) -> (r: String)
    ensures
        r@ == plain_text(value@),
{
    string_of(&keep_alphanumeric_exec(&lower_chars(value)))
}

/// The comparable form of a singer list (see [`singer_key`]).
pub fn normalize_singer(value: &str) -> (r: String)
    ensures
        r@ == singer_key(value@),
{
    let v = chars_of(value);
    let seps = vec!['、', ',', '&', '/', ';', '，'];
    assert(seps@ == singer_separators());
    let pieces = split_chars(&v, &seps);
    let mut names: Vec<Vec<char>> = Vec::new();
    let mut i: usize = 0;
    while i < pieces.len()
        invariant
            i <= pieces.len(),
            vv(names@) == plain_names(vv(pieces@).take(i as int)),
        decreases pieces.len() - i,
    {
        let ghost t = vv(pieces@).take(i + 1);
        assert(t.drop_last() == vv(pieces@).take(i as int));
        assert(t.last() == pieces@[i as int]@);
        let n = keep_alphanumeric_exec(&lower_chars(string_of(&pieces[i]).as_str()));
        if n.len() > 0 {
            let ghost before = vv(names@);
            names.push(n);
            assert(vv(names@) =~= before.push(plain_text(pieces@[i as int]@)));
        }
        i += 1;
    }
    assert(vv(pieces@).take(pieces.len() as int) == vv(pieces@));
    let mut sorted: Vec<Vec<char>> = Vec::new();
    let mut k: usize = 0;
    while k < names.len()
        invariant
            k <= names.len(),
            vv(sorted@) == sort_seqs(vv(names@).take(k as int)),
        decreases names.len() - k,
    {
        let ghost t = vv(names@).take(k + 1);
        assert(t.drop_last() == vv(names@).take(k as int));
        assert(t.last() == names@[k as int]@);
        insert_sorted_exec(&mut sorted, names[k].clone());
        k += 1;
    }
    assert(vv(names@).take(names.len() as int) == vv(names@));
    let mut unique: Vec<Vec<char>> = Vec::new();
    let mut m: usize = 0;
    while m < sorted.len()
        invariant
            m <= sorted.len(),
            vv(unique@) == dedup_seq(vv(sorted@).take(m as int)),
        decreases sorted.len() - m,
    {
        let ghost t = vv(sorted@).take(m + 1);
        assert(t.drop_last() == vv(sorted@).take(m as int));
        assert(t.last() == sorted@[m as int]@);
        let ghost before = vv(unique@);
        if unique.len() > 0 && chars_eq(&unique[unique.len() - 1], &sorted[m]) {
            assert(before.last() == unique@[unique.len() - 1]@);
        } else {
            proof {
                if before.len() > 0 {
                    assert(before.last() == unique@[unique.len() - 1]@);
                }
            }
            unique.push(sorted[m].clone());
            assert(vv(unique@) =~= before.push(sorted@[m as int]@));
        }
        m += 1;
    }
    assert(vv(sorted@).take(sorted.len() as int) == vv(sorted@));
    let mut out = String::new();
    let mut j: usize = 0;
    while j < unique.len()
        invariant
            j <= unique.len(),
            out@ == join_seqs(vv(unique@).take(j as int), seq!['|']),
        decreases unique.len() - j,
    {
        let ghost t = vv(unique@).take(j + 1);
        assert(t.drop_last() == vv(unique@).take(j as int));
        assert(t.last() == unique@[j as int]@);
        if j > 0 {
            push_char(&mut out, '|');
        } else {
            assert(t =~= seq![unique@[0]@]);
        }
        push_all(&mut out, &unique[j]);
        proof {
            if j > 0 {
                assert(join_seqs(t, seq!['|']) == join_seqs(vv(unique@).take(j as int), seq!['|']) + seq!['|'] + unique@[j as int]@);
            }
        }
        assert(j == 0 ==> out@ =~= unique@[0]@);
        j += 1;
    }
    assert(vv(unique@).take(unique.len() as int) == vv(unique@));
    out
}

/// Whether two songs are the same favourite (see [`equivalent`]).
pub fn songs_equivalent(left: &SongInfo, right: &SongInfo) -> (r: bool)
    ensures
        r == equivalent(left@, right@),
{
    if left.source == right.source && left.id == right.id {
        return true;
    }
    let left_name = normalize_text(left.name.as_str());
    let right_name = normalize_text(right.name.as_str());
    let left_singer = normalize_singer(left.singer.as_str());
    let right_singer = normalize_singer(right.singer.as_str());
    !left_name.as_str().is_empty() && left_name == right_name && !left_singer.as_str().is_empty()
        && left_singer == right_singer
}

/// Whether two songs are the same custom-playlist entry (see [`same_identity`]).
pub fn same_song_identity(left: &SongInfo, right: &SongInfo) -> (r: bool)
    ensures
        r == same_identity(left@, right@),
{
    if left.source == right.source && !left.id.as_str().is_empty() && left.id == right.id {
        return true;
    }
    left.source == SourceId::Local && right.source == SourceId::Local && left.file_path.is_some()
        && match (&left.file_path, &right.file_path) {
        (Some(a), Some(b)) => *a == *b,
        _ => false,
    }
}

/// Whether `song` is the local song of the file `path` (see [`matches_path`]).
pub fn local_song_matches_path(song: &SongInfo, path: &str) -> (r: bool)
    ensures
        r == matches_path(song@, path@),
{
    if song.source != SourceId::Local {
        return false;
    }
    let by_file = match &song.file_path {
        Some(p) => crate::text::str_eq(p.as_str(), path),
        None => false,
    };
    by_file || crate::text::str_eq(song.id.as_str(), path)
}

} // verus!
