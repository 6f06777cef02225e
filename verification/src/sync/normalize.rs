//! Normalised song text used to compare songs across sources.
use vstd::prelude::*;
use crate::text::{
    chars_of, chars_eq, chars_lt, contains_char, is_whitespace, is_ws, lex_lt, lemma_lex_total,
    lowercase, str_lowercase, string_of, trim_str, trim_ws,
};

verus! {

/// Characters removed by [`sync_text`]: white space and middle dots.
pub open spec fn is_dropped(c: char) -> bool {
    is_ws(c) || c == '\u{3000}' || c == '\u{b7}' || c == '\u{2022}' || c == '\u{30fb}'
}

/// Full-width brackets become spaces, dashes become `-`, curly quotes become `'`.
pub open spec fn fold_punct(c: char) -> char {
    if c == '\u{ff08}' || c == '\u{ff09}' || c == '\u{3010}' || c == '\u{3011}' || c == '[' || c == ']' {
        ' '
    } else if c == '\u{ff0d}' || c == '\u{2013}' || c == '\u{2014}' || c == '\u{2212}' {
        '-'
    } else if c == '\u{201c}' || c == '\u{201d}' || c == '\u{2018}' || c == '\u{2019}' {
        '\''
    } else {
        c
    }
}

/// `s` without the dropped characters, punctuation folded.
pub open spec fn clean(s: Seq<char>) -> Seq<char>
    decreases s.len(),
{
    if s.len() == 0 {
        s
    } else if is_dropped(s.last()) {
        clean(s.drop_last())
    } else {
        clean(s.drop_last()).push(fold_punct(s.last()))
    }
}

/// The normalised form of a title or album: trimmed, lower-cased, without
/// white space or middle dots, with punctuation folded.
pub open spec fn sync_text(s: Seq<char>) -> Seq<char> {
    clean(str_lowercase(trim_ws(s)))
}

fn is_dropped_exec(c: char) -> (r: bool)
    ensures
        r == is_dropped(c),
{
    is_whitespace(c) || c == '\u{3000}' || c == '\u{b7}' || c == '\u{2022}' || c == '\u{30fb}'
}

fn fold_punct_exec(c: char) -> (r: char)
    ensures
        r == fold_punct(c),
{
    if c == '\u{ff08}' || c == '\u{ff09}' || c == '\u{3010}' || c == '\u{3011}' || c == '[' || c == ']' {
        ' '
    } else if c == '\u{ff0d}' || c == '\u{2013}' || c == '\u{2014}' || c == '\u{2212}' {
        '-'
    } else if c == '\u{201c}' || c == '\u{201d}' || c == '\u{2018}' || c == '\u{2019}' {
        '\''
    } else {
        c
    }
}

/// Normalises a title or album name (see [`sync_text`]).
pub fn normalize_text(value: &str) -> (r: String)
    ensures
        r@ == sync_text(value@),
{
    let t = trim_str(value);
    let l = lowercase(t.as_str());
    let v = chars_of(l.as_str());
    let mut out: Vec<char> = Vec::new();
    let mut i: usize = 0;
    while i < v.len()
        invariant
            i <= v.len(),
            out@ == clean(v@.take(i as int)),
        decreases v.len() - i,
    {
        let ghost next = v@.take(i + 1);
        assert(next.drop_last() == v@.take(i as int));
        assert(next.last() == v@[i as int]);
        let c = v[i];
        if !is_dropped_exec(c) {
            out.push(fold_punct_exec(c));
        }
        i += 1;
    }
    assert(v@.take(v.len() as int) == v@);
    string_of(&out)
}

/// Pieces of `s` between the separator characters of `seps` (`str::split`).
pub open spec fn split_by(s: Seq<char>, seps: Seq<char>) -> Seq<Seq<char>>
    decreases s.len(),
{
    if s.len() == 0 {
        seq![Seq::<char>::empty()]
    } else {
        let parts = split_by(s.drop_last(), seps);
        if seps.contains(s.last()) {
            parts.push(Seq::<char>::empty())
        } else {
            parts.update(parts.len() - 1, parts.last().push(s.last()))
        }
    }
}

/// `split_by` always yields at least one piece.
pub proof fn lemma_split_nonempty(s: Seq<char>, seps: Seq<char>)
    ensures
        split_by(s, seps).len() >= 1,
    decreases s.len(),
{
    if s.len() > 0 {
        lemma_split_nonempty(s.drop_last(), seps);
    }
}

/// The views of a list of character vectors.
pub open spec fn vv(v: Seq<Vec<char>>) -> Seq<Seq<char>> {
    v.map_values(|x: Vec<char>| x@)
}

/// Splits `v` at the characters of `seps`.
pub fn split_chars(v: &Vec<char>, seps: &Vec<char>) -> (r: Vec<Vec<char>>)
    ensures
        vv(r@) == split_by(v@, seps@),
{
    let mut parts: Vec<Vec<char>> = Vec::new();
    let mut cur: Vec<char> = Vec::new();
    let mut i: usize = 0;
    assert(v@.take(0) =~= Seq::<char>::empty());
    while i < v.len()
        invariant
            i <= v.len(),
            vv(parts@).push(cur@) == split_by(v@.take(i as int), seps@),
        decreases v.len() - i,
    {
        let ghost next = v@.take(i + 1);
        assert(next.drop_last() == v@.take(i as int));
        assert(next.last() == v@[i as int]);
        proof {
            lemma_split_nonempty(v@.take(i as int), seps@);
        }
        let ghost before = vv(parts@);
        let c = v[i];
        if contains_char(seps, c) {
            let done = cur;
            parts.push(done);
            cur = Vec::new();
            assert(vv(parts@) =~= before.push(done@));
            assert(vv(parts@).push(cur@) =~= before.push(done@).push(Seq::<char>::empty()));
        } else {
            let ghost old_cur = cur@;
            cur.push(c);
            assert(vv(parts@).push(cur@) =~= before.push(old_cur).update(before.len() as int, old_cur.push(c)));
        }
        i += 1;
    }
    assert(v@.take(v.len() as int) == v@);
    let ghost before = vv(parts@);
    parts.push(cur);
    assert(vv(parts@) =~= before.push(cur@));
    parts
}

/// `s` with `x` inserted after the last element that does not come after it.
pub open spec fn insert_sorted(s: Seq<Seq<char>>, x: Seq<char>) -> Seq<Seq<char>>
    decreases s.len(),
{
    if s.len() == 0 {
        seq![x]
    } else if !lex_lt(x, s.last()) {
        s.push(x)
    } else {
        insert_sorted(s.drop_last(), x).push(s.last())
    }
}

/// `s` sorted in lexicographic order (by insertion).
pub open spec fn sort_seqs(s: Seq<Seq<char>>) -> Seq<Seq<char>>
    decreases s.len(),
{
    if s.len() == 0 {
        s
    } else {
        insert_sorted(sort_seqs(s.drop_last()), s.last())
    }
}

/// Inserts `x` into `v` at its sorted place (see [`insert_sorted`]).
pub fn insert_sorted_exec(v: &mut Vec<Vec<char>>, x: Vec<char>)
    ensures
        vv(final(v)@) == insert_sorted(vv(old(v)@), x@),
{
    let ghost s = vv(v@);
    let mut j: usize = v.len();
    assert(s.take(j as int) == s);
    assert(s.skip(j as int) =~= Seq::<Seq<char>>::empty());
    while j > 0 && chars_lt(&x, &v[j - 1])
        invariant
            j <= v.len(),
            s == vv(v@),
            insert_sorted(s, x@) == insert_sorted(s.take(j as int), x@) + s.skip(j as int),
        decreases j,
    {
        let ghost t = s.take(j as int);
        assert(t.drop_last() == s.take(j - 1));
        assert(t.last() == s[j - 1]);
        assert(s.skip(j - 1) =~= seq![s[j - 1]] + s.skip(j as int));
        assert(insert_sorted(s.take(j - 1), x@).push(s[j - 1]) + s.skip(j as int) =~= insert_sorted(s.take(j - 1), x@) + s.skip(j - 1));
        j -= 1;
    }
    proof {
        let t = s.take(j as int);
        if j == 0 {
            assert(insert_sorted(t, x@) == seq![x@]);
        } else {
            assert(t.last() == s[j - 1]);
            assert(insert_sorted(t, x@) == t.push(x@));
        }
    }
    let ghost xv = x@;
    v.insert(j, x);
    assert(vv(v@) =~= s.take(j as int).push(xv) + s.skip(j as int));
    assert(s.take(j as int).push(xv) =~= insert_sorted(s.take(j as int), xv)) by {
        if j == 0 {
            assert(s.take(0).push(xv) =~= seq![xv]);
        }
    }
}

/// `s` without consecutive repetitions (`Vec::dedup`).
pub open spec fn dedup_seq(s: Seq<Seq<char>>) -> Seq<Seq<char>>
    decreases s.len(),
{
    if s.len() == 0 {
        s
    } else {
        let d = dedup_seq(s.drop_last());
        if d.len() > 0 && d.last() == s.last() {
            d
        } else {
            d.push(s.last())
        }
    }
}

/// The pieces of `s` joined with `sep` in between (`join`).
pub open spec fn join_seqs(s: Seq<Seq<char>>, sep: Seq<char>) -> Seq<char>
    decreases s.len(),
{
    if s.len() == 0 {
        Seq::empty()
    } else if s.len() == 1 {
        s[0]
    } else {
        join_seqs(s.drop_last(), sep) + sep + s.last()
    }
}

/// The non-empty pieces of `s`, each normalised.
pub open spec fn normalized_names(pieces: Seq<Seq<char>>) -> Seq<Seq<char>>
    decreases pieces.len(),
{
    if pieces.len() == 0 {
        Seq::empty()
    } else {
        let rest = normalized_names(pieces.drop_last());
        let n = sync_text(pieces.last());
        if n.len() == 0 {
            rest
        } else {
            rest.push(n)
        }
    }
}

/// Separators between artist names.
pub open spec fn artist_separators() -> Seq<char> {
    seq!['\u{3001}', ',', '&', '/', '|', '\u{ff1b}', ';']
}

/// The normalised artist list: names split at the separators, normalised,
/// sorted, without repetitions, joined with `&`.
pub open spec fn sync_artist(s: Seq<char>) -> Seq<char> {
    join_seqs(dedup_seq(sort_seqs(normalized_names(split_by(s, artist_separators())))), seq!['&'])
}

/// Normalises an artist list (see [`sync_artist`]).
pub fn normalize_artist(value: &str) -> (r: String)
    ensures
        r@ == sync_artist(value@),
{
    let v = chars_of(value);
    let seps = vec!['\u{3001}', ',', '&', '/', '|', '\u{ff1b}', ';'];
    assert(seps@ == artist_separators());
    let pieces = split_chars(&v, &seps);
    // normalise and keep the non-empty names
    let mut names: Vec<Vec<char>> = Vec::new();
    let mut i: usize = 0;
    while i < pieces.len()
        invariant
            i <= pieces.len(),
            vv(names@) == normalized_names(vv(pieces@).take(i as int)),
        decreases pieces.len() - i,
    {
        let ghost t = vv(pieces@).take(i + 1);
        assert(t.drop_last() == vv(pieces@).take(i as int));
        assert(t.last() == pieces@[i as int]@);
        let s = string_of(&pieces[i]);
        let n = normalize_text(s.as_str());
        let nv = chars_of(n.as_str());
        if nv.len() > 0 {
            let ghost before = vv(names@);
            names.push(nv);
            assert(vv(names@) =~= before.push(sync_text(pieces@[i as int]@)));
        }
        i += 1;
    }
    assert(vv(pieces@).take(pieces.len() as int) == vv(pieces@));
    // sort
    let mut sorted: Vec<Vec<char>> = Vec::new();
    let mut k: usize = 0;
    while k < names.len()
        invariant
            k <= names.len(),
            vv(sorted@) == sort_seqs(vv(names@).take(k as int)),
        decreases names.len() - k,
    {
        let ghost t = vv(names@).take(k + 1);
        assert(t.drop_last() == vv(names@).take(k as int));
        assert(t.last() == names@[k as int]@);
        insert_sorted_exec(&mut sorted, names[k].clone());
        k += 1;
    }
    assert(vv(names@).take(names.len() as int) == vv(names@));
    // dedup
    let mut unique: Vec<Vec<char>> = Vec::new();
    let mut m: usize = 0;
    while m < sorted.len()
        invariant
            m <= sorted.len(),
            vv(unique@) == dedup_seq(vv(sorted@).take(m as int)),
        decreases sorted.len() - m,
    {
        let ghost t = vv(sorted@).take(m + 1);
        assert(t.drop_last() == vv(sorted@).take(m as int));
        assert(t.last() == sorted@[m as int]@);
        let ghost before = vv(unique@);
        if unique.len() > 0 && chars_eq(&unique[unique.len() - 1], &sorted[m]) {
            assert(before.last() == unique@[unique.len() - 1]@);
        } else {
            proof {
                if before.len() > 0 {
                    assert(before.last() == unique@[unique.len() - 1]@);
                }
            }
            unique.push(sorted[m].clone());
            assert(vv(unique@) =~= before.push(sorted@[m as int]@));
        }
        m += 1;
    }
    assert(vv(sorted@).take(sorted.len() as int) == vv(sorted@));
    // join
    let mut out = String::new();
    let mut j: usize = 0;
    while j < unique.len()
        invariant
            j <= unique.len(),
            out@ == join_seqs(vv(unique@).take(j as int), seq!['&']),
        decreases unique.len() - j,
    {
        let ghost t = vv(unique@).take(j + 1);
        assert(t.drop_last() == vv(unique@).take(j as int));
        assert(t.last() == unique@[j as int]@);
        if j > 0 {
            crate::text::push_char(&mut out, '&');
        } else {
            assert(t =~= seq![unique@[0]@]);
        }
        crate::text::push_all(&mut out, &unique[j]);
        proof {
            if j > 0 {
                assert(join_seqs(t, seq!['&']) == join_seqs(vv(unique@).take(j as int), seq!['&']) + seq!['&'] + unique@[j as int]@);
            }
        }
        assert(j == 0 ==> out@ =~= unique@[0]@);
        j += 1;
    }
    assert(vv(unique@).take(unique.len() as int) == vv(unique@));
    out
}

} // verus!
