//! Names of downloaded files: template rendering, removal of characters that
//! file systems refuse, and the audio extension of a download.
//!
//! A name is cut to a UTF-8 byte budget on a character boundary, keeping its
//! extension.
use vstd::prelude::*;
use crate::strings::{
    fit_count, fit_prefix, find_last, last_index, lemma_fit_count, lemma_utf8_len_concat,
    lemma_utf8_len_prefix, utf8_len, utf8_len_seq, utf8_size, concat_chars,
};
use crate::song::SongInfo;
use crate::source::{Quality, quality_label, source_name};
use crate::strings::{lower_ascii, lower_ascii_chars, replace_all, replace_chars, decimal, push_decimal};
use crate::text::{
    chars_of, is_cc, is_control, is_ws, lemma_trim_end_by, lemma_trim_start_by, push_all, push_str, slice_chars, str_eq, string_of,
    to_owned_string, trim_by, trim_chars, trim_end_by, trim_start_by, trim_str, trim_ws, trim_ws_bounds, alphanumeric, is_alphanumeric,
};

verus! {

/// Largest size in bytes of one file name, extension included.
pub const MAX_NAME_BYTES: usize = 180;

/// A character that file systems refuse in a name.
pub open spec fn is_illegal(c: char) -> bool {
    c == '/' || c == '\\' || c == '?' || c == '*' || c == ':' || c == '|' || c == '<' || c == '>'
        || c == '"' || c == '\0'
}

/// The character written for `c` in a file name: a space for an illegal or a
/// control character, else `c`.
pub open spec fn clean_char(c: char) -> char {
    if is_illegal(c) || is_cc(c) {
        ' '
    } else {
        c
    }
}

/// `s` with each run of spaces reduced to its first space.
pub open spec fn collapse_spaces(s: Seq<char>) -> Seq<char>
    decreases s.len(),
{
    if s.len() == 0 {
        s
    } else {
        let r = collapse_spaces(s.drop_last());
        if s.last() == ' ' && s.len() >= 2 && s[s.len() - 2] == ' ' {
            r
        } else {
            r.push(s.last())
        }
    }
}

/// A space or a dot, which a file name may not end with.
pub open spec fn is_space_or_dot(c: char) -> bool {
    c == ' ' || c == '.'
}

/// The extension of a file name without separators, with its dot: what
/// follows the last dot, when that dot is not the first character.
pub open spec fn name_extension(s: Seq<char>) -> Option<Seq<char>> {
    match last_index(s, '.') {
        Some(i) => if i > 0 {
            Some(s.skip(i))
        } else {
            None
        },
        None => None,
    }
}

/// Illegal and control characters made spaces, runs of spaces collapsed,
/// spaces and dots trimmed from both ends.
pub open spec fn cleaned_name(name: Seq<char>) -> Seq<char> {
    trim_by(
        collapse_spaces(name.map_values(|c: char| clean_char(c))),
        |c: char| is_space_or_dot(c),
    )
}

/// The file name made of `name`: [`cleaned_name`], or `未命名` when nothing is
/// left; then cut to [`MAX_NAME_BYTES`] on a character boundary, keeping an
/// extension of at most half the budget; what is cut loses trailing spaces
/// and dots (Windows refuses names that end in them).
pub open spec fn sanitized(name: Seq<char>) -> Seq<char> {
    let t = cleaned_name(name);
    if t.len() == 0 {
        "未命名"@
    } else {
        match name_extension(t) {
            Some(ext) => if utf8_len_seq(ext) <= 90 {
                let stem_bytes = utf8_len_seq(t) - utf8_len_seq(ext);
                let room = 180 - utf8_len_seq(ext);
                let cap = if stem_bytes <= room {
                    stem_bytes
                } else {
                    room
                };
                trim_end_by(t.take(fit_count(t, cap)), |c: char| is_space_or_dot(c)) + ext
            } else {
                trim_end_by(t.take(fit_count(t, 180)), |c: char| is_space_or_dot(c))
            },
            None => trim_end_by(t.take(fit_count(t, 180)), |c: char| is_space_or_dot(c)),
        }
    }
}

/// No character of `s` is illegal or a control character.
pub open spec fn clean_seq(s: Seq<char>) -> bool {
    forall|i: int| 0 <= i < s.len() ==> !is_illegal(#[trigger] s[i]) && !is_cc(s[i])
}

/// Collapsing spaces keeps only characters of the input.
proof fn lemma_collapse_clean(s: Seq<char>)
    requires
        clean_seq(s),
    ensures
        clean_seq(collapse_spaces(s)),
        collapse_spaces(s).len() <= s.len(),
    decreases s.len(),
{
    if s.len() > 0 {
        let p = s.drop_last();
        assert forall|i: int| 0 <= i < p.len() implies !is_illegal(#[trigger] p[i]) && !is_cc(p[i]) by {
            assert(p[i] == s[i]);
        }
        lemma_collapse_clean(p);
    }
}

/// A part of a clean sequence is clean.
proof fn lemma_subrange_clean(s: Seq<char>, a: int, b: int)
    requires
        clean_seq(s),
        0 <= a <= b <= s.len(),
    ensures
        clean_seq(s.subrange(a, b)),
{
    assert forall|i: int| 0 <= i < b - a implies !is_illegal(#[trigger] s.subrange(a, b)[i]) && !is_cc(s.subrange(a, b)[i]) by {
        assert(s.subrange(a, b)[i] == s[a + i]);
    }
}

/// Bounds `(start, end)` of `v` with spaces and dots removed from both ends.
fn trim_space_dot_bounds(v: &Vec<char>) -> (r: (usize, usize))
    ensures
        r.0 <= r.1 <= v.len(),
        v@.subrange(r.0 as int, r.1 as int) == trim_by(v@, |c: char| is_space_or_dot(c)),
        r.0 < r.1 ==> !is_space_or_dot(v@[r.0 as int]) && !is_space_or_dot(v@[r.1 - 1]),
{
    let ghost p = |c: char| is_space_or_dot(c);
    let mut start: usize = 0;
    while start < v.len() && (v[start] == ' ' || v[start] == '.')
        invariant
            start <= v.len(),
            forall|j: int| 0 <= j < start ==> is_space_or_dot(#[trigger] v@[j]),
        decreases v.len() - start,
    {
        start += 1;
    }
    proof {
        lemma_trim_start_by(v@, p, start as int);
    }
    let mut end: usize = v.len();
    while end > start && (v[end - 1] == ' ' || v[end - 1] == '.')
        invariant
            start <= end <= v.len(),
            forall|j: int| end <= j < v.len() ==> is_space_or_dot(#[trigger] v@[j]),
        decreases end - start,
    {
        end -= 1;
    }
    proof {
        let t = v@.subrange(start as int, v.len() as int);
        assert forall|j: int| end - start <= j < t.len() implies p(#[trigger] t[j]) by {
            assert(t[j] == v@[start + j]);
        }
        if end > start {
            assert(t[end - start - 1] == v@[end - 1]);
        }
        lemma_trim_end_by(t, p, end - start);
        assert(t.subrange(0, end - start) == v@.subrange(start as int, end as int));
    }
    (start, end)
}

/// Number of leading characters of `v` left once trailing spaces and dots are
/// removed.
fn trim_end_space_dot(v: &Vec<char>) -> (r: usize)
    ensures
        r <= v.len(),
        v@.take(r as int) == trim_end_by(v@, |c: char| is_space_or_dot(c)),
{
    let ghost p = |c: char| is_space_or_dot(c);
    let mut end: usize = v.len();
    while end > 0 && (v[end - 1] == ' ' || v[end - 1] == '.')
        invariant
            end <= v.len(),
            forall|j: int| end <= j < v.len() ==> is_space_or_dot(#[trigger] v@[j]),
        decreases end,
    {
        end -= 1;
    }
    proof {
        lemma_trim_end_by(v@, p, end as int);
    }
    end
}

/// The characters of a file name with illegal characters replaced, spaces
/// collapsed and spaces and dots trimmed (see [`cleaned_name`]).
fn clean_name_chars(name: &str) -> (r: Vec<char>)
    ensures
        r@ == cleaned_name(name@),
        clean_seq(r@),
{
    let v = chars_of(name);
    let ghost mapped = v@.map_values(|c: char| clean_char(c));
    let mut cleaned: Vec<char> = Vec::new();
    let mut i: usize = 0;
    while i < v.len()
        invariant
            i <= v.len(),
            mapped == v@.map_values(|c: char| clean_char(c)),
            cleaned@ == mapped.take(i as int),
        decreases v.len() - i,
    {
        let c = v[i];
        let d = if c == '/' || c == '\\' || c == '?' || c == '*' || c == ':' || c == '|' || c
            == '<' || c == '>' || c == '"' || c == '\0' || is_control(c) {
            ' '
        } else {
            c
        };
        cleaned.push(d);
        assert(mapped.take(i + 1) == mapped.take(i as int).push(mapped[i as int]));
        i += 1;
    }
    assert(mapped.take(v.len() as int) == mapped);
    assert(clean_seq(mapped));
    let mut collapsed: Vec<char> = Vec::new();
    let mut last_was_space = false;
    let mut k: usize = 0;
    while k < cleaned.len()
        invariant
            k <= cleaned.len(),
            collapsed@ == collapse_spaces(cleaned@.take(k as int)),
            last_was_space == (k > 0 && cleaned@[k - 1] == ' '),
        decreases cleaned.len() - k,
    {
        let c = cleaned[k];
        let is_space = c == ' ';
        assert(cleaned@.take(k + 1).drop_last() == cleaned@.take(k as int));
        if !(is_space && last_was_space) {
            collapsed.push(c);
        }
        last_was_space = is_space;
        k += 1;
    }
    assert(cleaned@.take(cleaned.len() as int) == cleaned@);
    proof {
        lemma_collapse_clean(cleaned@);
    }
    let (a, b) = trim_space_dot_bounds(&collapsed);
    proof {
        lemma_subrange_clean(collapsed@, a as int, b as int);
    }
    slice_chars(&collapsed, a, b)
}

/// One character takes at most 4 bytes.
proof fn lemma_first_char_fits(s: Seq<char>)
    requires
        s.len() > 0,
    ensures
        utf8_len_seq(s.take(1)) <= 4,
{
    assert(s.take(1).drop_last() =~= Seq::<char>::empty());
    assert(utf8_len_seq(Seq::<char>::empty()) == 0);
}

/// `t` cut to the byte budget with its extension `t[i..]` kept, when the
/// extension takes at most half the budget; `None` otherwise.
fn cut_keeping_extension(t: &Vec<char>, i: usize) -> (r: Option<Vec<char>>)
    requires
        0 < i < t.len(),
        clean_seq(t@),
    ensures
        r is None <==> utf8_len_seq(t@.skip(i as int)) > 90,
        r matches Some(v) ==> {
            let ext = t@.skip(i as int);
            let stem_bytes = utf8_len_seq(t@) - utf8_len_seq(ext);
            let room = 180 - utf8_len_seq(ext);
            let cap = if stem_bytes <= room {
                stem_bytes
            } else {
                room
            };
            &&& v@ == trim_end_by(t@.take(fit_count(t@, cap)), |c: char| is_space_or_dot(c)) + ext
            &&& v@.len() > 0
            &&& utf8_len_seq(v@) <= 180
            &&& clean_seq(v@)
            &&& (!is_space_or_dot(t@[0]) ==> v@[0] == t@[0])
            &&& v@.last() == t@.last()
        },
{
    let ghost tv = t@;
    let ext = slice_chars(t, i, t.len());
    let ghost ev = ext@;
    assert(ev == tv.skip(i as int));
    proof {
        lemma_fit_count(ev, 90);
        assert(ev.take(ev.len() as int) == ev);
    }
    if fit_prefix(&ext, 90) != ext.len() {
        return None;
    }
    let ext_bytes = utf8_size(&ext);
    let room: usize = 180 - ext_bytes;
    let stem_all = slice_chars(t, 0, i);
    proof {
        assert(tv == stem_all@ + ev);
        lemma_utf8_len_concat(stem_all@, ev);
        lemma_fit_count(stem_all@, room as int);
        assert(stem_all@.take(stem_all@.len() as int) == stem_all@);
    }
    let cap: usize = if fit_prefix(&stem_all, room) == stem_all.len() {
        utf8_size(&stem_all)
    } else {
        room
    };
    let n = fit_prefix(t, cap);
    let stem = slice_chars(t, 0, n);
    assert(stem@ == tv.take(n as int));
    let m = trim_end_space_dot(&stem);
    let kept = slice_chars(&stem, 0, m);
    assert(kept@ == stem@.take(m as int));
    let all = concat_chars(&kept, &ext);
    proof {
        lemma_fit_count(tv, cap as int);
        lemma_utf8_len_prefix(stem@, m as int, stem@.len() as int);
        assert(stem@.take(stem@.len() as int) == stem@);
        lemma_utf8_len_concat(kept@, ev);
        lemma_subrange_clean(tv, 0, n as int);
        lemma_subrange_clean(stem@, 0, m as int);
        lemma_subrange_clean(tv, i as int, tv.len() as int);
        if !is_space_or_dot(tv[0]) {
            lemma_first_char_fits(tv);
            lemma_utf8_len_prefix(tv, 1, i as int);
            assert(stem_all@ == tv.take(i as int));
            if n == 0 {
                assert(utf8_len_seq(tv.take(1)) > cap);
            }
            assert(stem@[0] == tv[0]);
            lemma_trim_end_keeps_first(stem@, |c: char| is_space_or_dot(c));
            assert(all@[0] == kept@[0]);
        }
        assert(all@.last() == ev.last());
        assert(ev.last() == tv.last());
        assert(kept@ == stem@.subrange(0, m as int));
        assert(stem@ == tv.subrange(0, n as int));
        assert(ev == tv.subrange(i as int, tv.len() as int));
        assert forall|j: int| 0 <= j < all@.len() implies !is_illegal(#[trigger] all@[j]) && !is_cc(all@[j]) by {
            if j < kept@.len() {
                assert(all@[j] == kept@[j]);
            } else {
                assert(all@[j] == ev[j - kept@.len()]);
            }
        }
    }
    Some(all)
}

/// The file name made of `name` (see [`sanitized`]): never empty, at most
/// [`MAX_NAME_BYTES`] bytes, without illegal or control characters.
pub fn sanitize_filename(name: &str) -> (r: String)
    ensures
        r@ == sanitized(name@),
        r@.len() > 0,
        utf8_len_seq(r@) <= 180,
        clean_seq(r@),
        !is_space_or_dot(r@[0]),
        !is_space_or_dot(r@.last()),
{
    let t = clean_name_chars(name);
    if t.len() == 0 {
        let r = to_owned_string("未命名");
        proof {
            reveal_strlit("未命名");
            assert(r@.len() == 3);
            assert(r@.take(0) =~= Seq::<char>::empty());
            assert(r@.take(1).drop_last() == r@.take(0));
            assert(r@.take(2).drop_last() == r@.take(1));
            assert(r@.take(3) == r@);
            assert(r@.take(3).drop_last() == r@.take(2));
            assert(utf8_len_seq(r@.take(0)) == 0);
            assert(utf8_len(r@[0]) <= 4 && utf8_len(r@[1]) <= 4 && utf8_len(r@[2]) <= 4);
            assert(r@.take(1).last() == r@[0]);
            assert(r@.take(2).last() == r@[1]);
            assert(r@.take(3).last() == r@[2]);
            assert(utf8_len_seq(r@.take(1)) <= 4);
            assert(utf8_len_seq(r@.take(2)) <= 8);
            assert(utf8_len_seq(r@.take(3)) <= 12);
            assert(!is_illegal(r@[0]) && !is_cc(r@[0]));
            assert(!is_illegal(r@[1]) && !is_cc(r@[1]));
            assert(!is_illegal(r@[2]) && !is_cc(r@[2]));
            assert(r@.last() == r@[2]);
        }
        return r;
    }
    let ghost tv = t@;
    if let Some(i) = find_last(&t, '.') {
        if i > 0 {
            assert(name_extension(tv) == Some(tv.skip(i as int)));
            if let Some(v) = cut_keeping_extension(&t, i) {
                proof {
                    lemma_cleaned_ends(name@);
                }
                return string_of(&v);
            }
        }
    }
    let n = fit_prefix(&t, 180);
    let stem = slice_chars(&t, 0, n);
    assert(stem@ == tv.take(n as int));
    let m = trim_end_space_dot(&stem);
    let r = string_of_prefix(&stem, m);
    proof {
        lemma_fit_count(tv, 180);
        lemma_first_char_fits(tv);
        lemma_cleaned_ends(name@);
        assert(n >= 1);
        assert(stem@[0] == tv[0]);
        lemma_trim_end_keeps_first(stem@, |c: char| is_space_or_dot(c));
        lemma_utf8_len_prefix(stem@, m as int, stem@.len() as int);
        assert(stem@.take(stem@.len() as int) == stem@);
        lemma_subrange_clean(tv, 0, n as int);
        assert(stem@ == tv.subrange(0, n as int));
        lemma_subrange_clean(stem@, 0, m as int);
        assert(stem@.take(m as int) == stem@.subrange(0, m as int));
    }
    r
}

/// Trimming the end of a sequence whose first element stays keeps a
/// non-empty prefix of it.
proof fn lemma_trim_end_keeps_first(s: Seq<char>, p: spec_fn(char) -> bool)
    requires
        s.len() > 0,
        !p(s[0]),
    ensures
        trim_end_by(s, p).len() > 0,
        trim_end_by(s, p)[0] == s[0],
        trim_end_by(s, p).len() <= s.len(),
        trim_end_by(s, p) == s.take(trim_end_by(s, p).len() as int),
        !p(trim_end_by(s, p).last()),
    decreases s.len(),
{
    if p(s.last()) {
        let d = s.drop_last();
        assert(s.len() > 1);
        assert(d[0] == s[0]);
        lemma_trim_end_keeps_first(d, p);
        assert(d.take(trim_end_by(d, p).len() as int) == s.take(trim_end_by(d, p).len() as int));
    } else {
        assert(s.take(s.len() as int) == s);
    }
}

/// What the start trims never begins with a trimmed character.
proof fn lemma_trim_start_first(s: Seq<char>, p: spec_fn(char) -> bool)
    ensures
        trim_start_by(s, p).len() > 0 ==> !p(trim_start_by(s, p)[0]),
    decreases s.len(),
{
    if s.len() > 0 && p(s[0]) {
        lemma_trim_start_first(s.drop_first(), p);
    }
}

/// A cleaned name neither begins nor ends with a space or a dot.
proof fn lemma_cleaned_ends(name: Seq<char>)
    ensures
        cleaned_name(name).len() > 0 ==> !is_space_or_dot(cleaned_name(name)[0]),
        cleaned_name(name).len() > 0 ==> !is_space_or_dot(cleaned_name(name).last()),
{
    let p = |c: char| is_space_or_dot(c);
    let x = trim_start_by(collapse_spaces(name.map_values(|c: char| clean_char(c))), p);
    lemma_trim_start_first(collapse_spaces(name.map_values(|c: char| clean_char(c))), p);
    if cleaned_name(name).len() > 0 {
        assert(x.len() > 0);
        lemma_trim_end_keeps_first(x, p);
    }
}

/// The string of the first `n` characters of `v`.
fn string_of_prefix(v: &Vec<char>, n: usize) -> (r: String)
    requires
        n <= v.len(),
    ensures
        r@ == v@.take(n as int),
{
    let p = slice_chars(v, 0, n);
    string_of(&p)
}


/// Common audio extensions, by which the format of a download is recognised.
pub const AUDIO_EXTENSIONS: [&'static str; 16] = [
    "mp3", "flac", "m4a", "mp4", "aac", "ogg", "opus", "wav", "wma", "ape", "aiff", "aif", "mka",
    "dff", "dsf", "wv",
];

/// `s` is one of [`AUDIO_EXTENSIONS`].
pub open spec fn is_audio_ext(s: Seq<char>) -> bool {
    exists|i: int| 0 <= i < 16 && (#[trigger] AUDIO_EXTENSIONS@[i])@ == s
}

/// Whether `ext` is one of [`AUDIO_EXTENSIONS`].
fn is_audio_extension(ext: &str) -> (r: bool)
    ensures
        r == is_audio_ext(ext@),
{
    let list = AUDIO_EXTENSIONS;
    let mut i: usize = 0;
    while i < 16
        invariant
            i <= 16,
            list@ == AUDIO_EXTENSIONS@,
            forall|j: int| 0 <= j < i ==> (#[trigger] AUDIO_EXTENSIONS@[j])@ != ext@,
        decreases 16 - i,
    {
        if str_eq(list[i], ext) {
            return true;
        }
        i += 1;
    }
    false
}

/// The extension of a download as given: white space trimmed, leading dots
/// removed, ASCII letters made lower case; `mp4` (an audio container) becomes
/// `m4a` and an empty extension `mp3`.
pub open spec fn normalized_extension(ext: Seq<char>) -> Seq<char> {
    let e = lower_ascii(trim_start_by(trim_ws(ext), |c: char| c == '.'));
    if e == "mp4"@ {
        "m4a"@
    } else if e.len() == 0 {
        "mp3"@
    } else {
        e
    }
}

/// Number of leading dots of `v`, and the proof that removing them is
/// `trim_start_by` with the dot.
fn leading_dots(v: &Vec<char>) -> (r: usize)
    ensures
        r <= v.len(),
        v@.skip(r as int) == trim_start_by(v@, |c: char| c == '.'),
{
    let mut k: usize = 0;
    while k < v.len() && v[k] == '.'
        invariant
            k <= v.len(),
            forall|j: int| 0 <= j < k ==> #[trigger] v@[j] == '.',
        decreases v.len() - k,
    {
        k += 1;
    }
    proof {
        lemma_trim_start_by(v@, |c: char| c == '.', k as int);
        assert(v@.skip(k as int) == v@.subrange(k as int, v.len() as int));
    }
    k
}

/// The extension of a download in its usual form (see [`normalized_extension`]).
pub fn normalize_extension(extension: &str) -> (r: String)
    ensures
        r@ == normalized_extension(extension@),
{
    let t = trim_chars(&chars_of(extension));
    let k = leading_dots(&t);
    let rest = slice_chars(&t, k, t.len());
    assert(rest@ == t@.skip(k as int));
    let e = lower_ascii_chars(&rest);
    let s = string_of(&e);
    if str_eq(s.as_str(), "mp4") {
        to_owned_string("m4a")
    } else if e.len() == 0 {
        to_owned_string("mp3")
    } else {
        s
    }
}

/// Position of the first `?` or `#` of `s` from position `k`, or its length.
pub open spec fn query_from(s: Seq<char>, k: int) -> int
    decreases s.len() - k,
{
    if k >= s.len() {
        s.len() as int
    } else if s[k] == '?' || s[k] == '#' {
        k
    } else {
        query_from(s, k + 1)
    }
}

/// What follows the last `c` of `s`, or all of `s` when it has none.
pub open spec fn after_last(s: Seq<char>, c: char) -> Seq<char> {
    match last_index(s, c) {
        Some(i) => s.skip(i + 1),
        None => s,
    }
}

/// The audio extension named by a URL: the text after the last dot of the
/// last path segment (the query and fragment are not read), trimmed and in
/// ASCII lower case, when it is one of [`AUDIO_EXTENSIONS`].
pub open spec fn url_extension(url: Seq<char>) -> Option<Seq<char>> {
    let path = url.take(query_from(url, 0));
    let segment = after_last(path, '/');
    match last_index(segment, '.') {
        Some(i) => {
            let candidate = lower_ascii(trim_ws(segment.skip(i + 1)));
            if is_audio_ext(candidate) {
                Some(candidate)
            } else {
                None
            }
        },
        None => None,
    }
}

/// The audio extension named by `url` (see [`url_extension`]).
pub fn extension_from_url(url: &str) -> (r: Option<String>)
    ensures
        r matches Some(e) ==> url_extension(url@) == Some(e@),
        r is None ==> url_extension(url@) is None,
{
    let v = chars_of(url);
    let mut q: usize = 0;
    while q < v.len() && v[q] != '?' && v[q] != '#'
        invariant
            q <= v.len(),
            query_from(v@, 0) == query_from(v@, q as int),
        decreases v.len() - q,
    {
        q += 1;
    }
    let path = slice_chars(&v, 0, q);
    assert(path@ == v@.take(query_from(v@, 0)));
    let segment = match find_last(&path, '/') {
        Some(i) => slice_chars(&path, i + 1, path.len()),
        None => path,
    };
    assert(segment@ == after_last(v@.take(query_from(v@, 0)), '/'));
    match find_last(&segment, '.') {
        Some(i) => {
            let tail = slice_chars(&segment, i + 1, segment.len());
            let candidate = string_of(&lower_ascii_chars(&trim_chars(&tail)));
            if is_audio_extension(candidate.as_str()) {
                Some(candidate)
            } else {
                None
            }
        },
        None => None,
    }
}

/// The audio format that the first bytes of a file show, whatever its name
/// says: `None` for fewer than 4 bytes or an unknown header.
pub open spec fn magic_extension(b: Seq<u8>) -> Option<Seq<char>> {
    if b.len() < 4 {
        None
    } else if (b[0] == 0x49 && b[1] == 0x44 && b[2] == 0x33) || (b[0] == 0xFF && b[1] & 0xE0 == 0xE0) {
        Some("mp3"@)
    } else if b[0] == 0x66 && b[1] == 0x4C && b[2] == 0x61 && b[3] == 0x43 {
        Some("flac"@)
    } else if b[0] == 0x4F && b[1] == 0x67 && b[2] == 0x67 && b[3] == 0x53 {
        Some("ogg"@)
    } else if b.len() >= 8 && b[4] == 0x66 && b[5] == 0x74 && b[6] == 0x79 && b[7] == 0x70 {
        Some("m4a"@)
    } else if b[0] == 0x52 && b[1] == 0x49 && b[2] == 0x46 && b[3] == 0x46 {
        Some("wav"@)
    } else if b[0] == 0x4D && b[1] == 0x41 && b[2] == 0x43 && b[3] == 0x20 {
        Some("ape"@)
    } else if b[0] == 0x77 && b[1] == 0x76 && b[2] == 0x70 && b[3] == 0x6B {
        Some("wv"@)
    } else if b[0] == 0x46 && b[1] == 0x4F && b[2] == 0x52 && b[3] == 0x4D {
        Some("aiff"@)
    } else if (b[0] == 0x77 && b[1] == 0x6D && b[2] == 0x61) || (b[0] == 0x30 && b[1] == 0x26 && b[2] == 0xB2 && b[3] == 0x75) {
        Some("wma"@)
    } else {
        None
    }
}

/// The audio format shown by the first bytes of a file (see [`magic_extension`]).
pub fn detect_extension(bytes: &[u8]) -> (r: Option<&'static str>)
    ensures
        r matches Some(e) ==> magic_extension(bytes@) == Some(e@),
        r is None ==> magic_extension(bytes@) is None,
{
    if bytes.len() < 4 {
        return None;
    }
    let b = bytes;
    if (b[0] == 0x49 && b[1] == 0x44 && b[2] == 0x33) || (b[0] == 0xFF && b[1] & 0xE0 == 0xE0) {
        return Some("mp3");
    }
    if b[0] == 0x66 && b[1] == 0x4C && b[2] == 0x61 && b[3] == 0x43 {
        return Some("flac");
    }
    if b[0] == 0x4F && b[1] == 0x67 && b[2] == 0x67 && b[3] == 0x53 {
        return Some("ogg");
    }
    if b.len() >= 8 && b[4] == 0x66 && b[5] == 0x74 && b[6] == 0x79 && b[7] == 0x70 {
        return Some("m4a");
    }
    if b[0] == 0x52 && b[1] == 0x49 && b[2] == 0x46 && b[3] == 0x46 {
        return Some("wav");
    }
    if b[0] == 0x4D && b[1] == 0x41 && b[2] == 0x43 && b[3] == 0x20 {
        return Some("ape");
    }
    if b[0] == 0x77 && b[1] == 0x76 && b[2] == 0x70 && b[3] == 0x6B {
        return Some("wv");
    }
    if b[0] == 0x46 && b[1] == 0x4F && b[2] == 0x52 && b[3] == 0x4D {
        return Some("aiff");
    }
    if (b[0] == 0x77 && b[1] == 0x6D && b[2] == 0x61) || (b[0] == 0x30 && b[1] == 0x26 && b[2] == 0xB2 && b[3] == 0x75) {
        return Some("wma");
    }
    None
}

/// A separator that a rendered name does not start or end with.
pub open spec fn is_name_sep(c: char) -> bool {
    c == '-' || c == '—' || c == '_' || c == '.' || c == ' '
}

/// The template with the song's fields filled in: `{name}`, `{singer}` and
/// `{album}` (each trimmed), `{source}` (the short source name) and
/// `{quality}` (the tier's label), in that order; other text, unknown
/// placeholders included, is kept.
pub open spec fn filled_template(template: Seq<char>, song: crate::song::SongView, quality: Quality) -> Seq<char> {
    let t0 = trim_ws(template);
    let t = if t0.len() == 0 {
        "{singer} - {name}"@
    } else {
        t0
    };
    let r1 = replace_all(t, "{name}"@, trim_ws(song.name));
    let r2 = replace_all(r1, "{singer}"@, trim_ws(song.singer));
    let r3 = replace_all(r2, "{album}"@, trim_ws(song.album_name));
    let r4 = replace_all(r3, "{source}"@, source_name(song.source));
    replace_all(r4, "{quality}"@, quality_label(quality))
}

/// No character of `s` is a letter or a digit.
pub open spec fn no_alphanumeric(s: Seq<char>) -> bool {
    forall|i: int| 0 <= i < s.len() ==> !alphanumeric(#[trigger] s[i])
}

/// The file name stem of `song` rendered from `template` (an empty template
/// is `{singer} - {name}`): the filled template without separators (`-`,
/// `—`, `_`, `.`, space) at its ends, `"  -  "` made `" - "`, trimmed; when
/// that holds no letter or digit, the trimmed song name.
pub open spec fn rendered_name(template: Seq<char>, song: crate::song::SongView, quality: Quality) -> Seq<char> {
    let filled = filled_template(template, song, quality);
    let stripped = trim_by(filled, |c: char| is_name_sep(c));
    let name = trim_ws(replace_all(stripped, "  -  "@, " - "@));
    if no_alphanumeric(name) {
        trim_ws(song.name)
    } else {
        name
    }
}

/// `v` with `pat` replaced by `rep`, for a non-empty literal `pat`.
fn replace_lit(v: &Vec<char>, pat: &str, rep: &Vec<char>) -> (r: Vec<char>)
    requires
        pat@.len() > 0,
    ensures
        r@ == replace_all(v@, pat@, rep@),
{
    let p = chars_of(pat);
    replace_chars(v, &p, rep)
}

/// Whether no character of `v` is a letter or a digit.
fn has_no_alphanumeric(v: &Vec<char>) -> (r: bool)
    ensures
        r == no_alphanumeric(v@),
{
    let mut i: usize = 0;
    while i < v.len()
        invariant
            i <= v.len(),
            forall|j: int| 0 <= j < i ==> !alphanumeric(#[trigger] v@[j]),
        decreases v.len() - i,
    {
        if is_alphanumeric(v[i]) {
            return false;
        }
        i += 1;
    }
    true
}

/// The file name stem of `song` (see [`rendered_name`]); the placeholders are
/// `{name}`, `{singer}`, `{album}`, `{source}` and `{quality}`.
pub fn render_filename(template: &str, song: &SongInfo, quality: Quality) -> (r: String)
    ensures
        r@ == rendered_name(template@, song@, quality),
{
    proof {
        reveal_strlit("{name}");
        reveal_strlit("{singer}");
        reveal_strlit("{album}");
        reveal_strlit("{source}");
        reveal_strlit("{quality}");
        reveal_strlit("  -  ");
    }
    let t0 = trim_chars(&chars_of(template));
    let t = if t0.len() == 0 {
        chars_of("{singer} - {name}")
    } else {
        t0
    };
    let r1 = replace_lit(&t, "{name}", &trim_chars(&chars_of(song.name.as_str())));
    let r2 = replace_lit(&r1, "{singer}", &trim_chars(&chars_of(song.singer.as_str())));
    let r3 = replace_lit(&r2, "{album}", &trim_chars(&chars_of(song.album_name.as_str())));
    let r4 = replace_lit(&r3, "{source}", &chars_of(song.source.as_str()));
    let r5 = replace_lit(&r4, "{quality}", &chars_of(quality.label()));
    assert(r5@ == filled_template(template@, song@, quality));
    let seps = vec!['-', '—', '_', '.', ' '];
    proof {
        assert forall|c: char| seps@.contains(c) <==> is_name_sep(c) by {
            if c == '-' {
                assert(seps@[0] == c);
            } else if c == '—' {
                assert(seps@[1] == c);
            } else if c == '_' {
                assert(seps@[2] == c);
            } else if c == '.' {
                assert(seps@[3] == c);
            } else if c == ' ' {
                assert(seps@[4] == c);
            }
        }
        assert((|c: char| seps@.contains(c)) =~= (|c: char| is_name_sep(c)));
    }
    let (a, b) = crate::text::trim_set_bounds(&r5, &seps);
    let stripped = slice_chars(&r5, a, b);
    let joined = replace_lit(&stripped, "  -  ", &chars_of(" - "));
    let name = trim_chars(&joined);
    if has_no_alphanumeric(&name) {
        trim_str(song.name.as_str())
    } else {
        string_of(&name)
    }
}

/// The file name tried at the `attempt`-th try for a download of `stem` with
/// extension `ext` (leading dots removed): `name.ext` first, then
/// `name (2).ext`, `name (3).ext`, ...; `name` is [`sanitized`].
pub open spec fn dest_name(stem: Seq<char>, ext: Seq<char>, attempt: nat) -> Seq<char> {
    let name = sanitized(stem);
    let e = trim_start_by(ext, |c: char| c == '.');
    if attempt <= 1 {
        name + "."@ + e
    } else {
        name + " ("@ + decimal(attempt) + ")."@ + e
    }
}

/// The first try from `attempt` whose name is not in `existing`; the 999th
/// try is taken whatever it gives.
pub open spec fn free_attempt(existing: Seq<Seq<char>>, stem: Seq<char>, ext: Seq<char>, attempt: nat) -> nat
    decreases 999 - attempt,
{
    if attempt >= 999 {
        999
    } else if !existing.contains(dest_name(stem, ext, attempt)) {
        attempt
    } else {
        free_attempt(existing, stem, ext, attempt + 1)
    }
}

/// The views of a list of strings.
pub open spec fn strings_view(v: Seq<String>) -> Seq<Seq<char>> {
    v.map_values(|s: String| s@)
}

/// Whether `name` is one of `existing`.
fn name_taken(existing: &Vec<String>, name: &String) -> (r: bool)
    ensures
        r == strings_view(existing@).contains(name@),
{
    let mut i: usize = 0;
    while i < existing.len()
        invariant
            i <= existing.len(),
            forall|j: int| 0 <= j < i ==> existing@[j]@ != name@,
        decreases existing.len() - i,
    {
        if existing[i] == *name {
            assert(strings_view(existing@)[i as int] == name@);
            return true;
        }
        i += 1;
    }
    assert forall|j: int| 0 <= j < existing@.len() implies strings_view(existing@)[j] != name@ by {
        assert(strings_view(existing@)[j] == existing@[j]@);
    }
    false
}

/// The name tried at `attempt` (see [`dest_name`]).
fn dest_name_at(name: &String, ext: &Vec<char>, attempt: u64) -> (r: String)
    ensures
        r@ == if attempt <= 1 {
            name@ + "."@ + ext@
        } else {
            name@ + " ("@ + decimal(attempt as nat) + ")."@ + ext@
        },
{
    let mut r = name.clone();
    if attempt <= 1 {
        push_str(&mut r, ".");
    } else {
        push_str(&mut r, " (");
        push_decimal(&mut r, attempt);
        push_str(&mut r, ").");
    }
    push_all(&mut r, ext);
    r
}

/// The file name for a download of `stem` with extension `extension` that
/// is not among the names `existing` in the target directory: `name.ext`,
/// else `name (2).ext`, `name (3).ext`, ... up to `name (999).ext`, which is
/// returned even when taken.
pub fn unique_dest(existing: &Vec<String>, stem: &str, extension: &str) -> (r: String)
    ensures
        r@ == dest_name(stem@, extension@, free_attempt(strings_view(existing@), stem@, extension@, 1)),
{
    let name = sanitize_filename(stem);
    let v = chars_of(extension);
    let k = leading_dots(&v);
    let ext = slice_chars(&v, k, v.len());
    assert(ext@ == trim_start_by(extension@, |c: char| c == '.'));
    let ghost ex = strings_view(existing@);
    let mut attempt: u64 = 1;
    loop
        invariant
            1 <= attempt <= 999,
            ex == strings_view(existing@),
            name@ == sanitized(stem@),
            ext@ == trim_start_by(extension@, |c: char| c == '.'),
            free_attempt(ex, stem@, extension@, 1) == free_attempt(ex, stem@, extension@, attempt as nat),
        decreases 999 - attempt,
    {
        let candidate = dest_name_at(&name, &ext, attempt);
        assert(candidate@ == dest_name(stem@, extension@, attempt as nat));
        if attempt >= 999 || !name_taken(existing, &candidate) {
            return candidate;
        }
        attempt += 1;
    }
}

/// Where downloads go, as configured.
pub enum DownloadDir {
    /// Nothing configured: the user's music folder (else downloads folder,
    /// else home, else the current directory), sub-folder `voicefox`.
    Default,
    /// A path under the home directory (configured as `~/...` or
    /// `$HOME/...`); `configured` is used as it is when there is no home.
    UnderHome { relative: String, configured: String },
    /// The configured path as it is.
    Given(String),
}

/// The download directory that `configured` names: after trimming, empty is
/// the default; `~/x` and `$HOME/x` are `x` under the home directory; any
/// other text is taken as it is.
pub fn download_dir_choice(configured: &str) -> (r: DownloadDir)
    ensures
        ({
            let t = trim_ws(configured@);
            match r {
                DownloadDir::Default => t.len() == 0,
                DownloadDir::UnderHome { relative, configured: c } => t.len() > 0 && c@ == t && (
                    (crate::text::has_prefix(t, "~/"@) && relative@ == t.skip(2))
                    || (!crate::text::has_prefix(t, "~/"@) && crate::text::has_prefix(t, "$HOME/"@) && relative@ == t.skip(6))),
                DownloadDir::Given(g) => t.len() > 0 && g@ == t && !crate::text::has_prefix(t, "~/"@)
                    && !crate::text::has_prefix(t, "$HOME/"@),
            }
        }),
{
    proof {
        reveal_strlit("~/");
        reveal_strlit("$HOME/");
    }
    let t = trim_chars(&chars_of(configured));
    if t.len() == 0 {
        return DownloadDir::Default;
    }
    let home = chars_of("~/");
    let env = chars_of("$HOME/");
    if crate::text::starts_with_at(&t, 0, &home) {
        assert(t@.skip(0) == t@);
        return DownloadDir::UnderHome { relative: string_of(&slice_chars(&t, 2, t.len())), configured: string_of(&t) };
    }
    assert(t@.skip(0) == t@);
    if crate::text::starts_with_at(&t, 0, &env) {
        return DownloadDir::UnderHome { relative: string_of(&slice_chars(&t, 6, t.len())), configured: string_of(&t) };
    }
    DownloadDir::Given(string_of(&t))
}

} // verus!
