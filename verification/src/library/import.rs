//! Reading playlists from files: M3U lines and the songs their entries
//! stand for.
use vstd::prelude::*;
use crate::song::{SongInfo, SongView};
use crate::source::SourceId;
use crate::strings::{lower_ascii, lower_ascii_chars, occurs_at};
use crate::sync::normalize::{split_by, split_chars, vv};
use crate::text::{
    all_digits, chars_of, digits_value, has_prefix, is_ws, lemma_trim_end_by, lemma_trim_start_by, parse_u128, parse_unsigned,
    slice_chars, starts_with_at, str_eq, string_of, to_owned_string, trim_chars, trim_start_by, trim_ws,
};
use crate::time::Duration;

verus! {

/// One song read from a playlist file.
#[derive(Debug)]
pub struct ImportedEntry {
    pub title: String,
    pub artist: String,
    pub album: String,
    pub id: Option<String>,
    pub url: Option<String>,
    pub duration: Option<Duration>,
    pub source: Option<SourceId>,
}

/// The content of an [`ImportedEntry`]; the duration in nanoseconds.
pub struct EntryView {
    pub title: Seq<char>,
    pub artist: Seq<char>,
    pub album: Seq<char>,
    pub id: Option<Seq<char>>,
    pub url: Option<Seq<char>>,
    pub duration: Option<int>,
    pub source: Option<SourceId>,
}

impl View for ImportedEntry {
    type V = EntryView;

    open spec fn view(&self) -> EntryView {
        EntryView {
            title: self.title@,
            artist: self.artist@,
            album: self.album@,
            id: crate::song::opt_view(self.id),
            url: crate::song::opt_view(self.url),
            duration: match self.duration {
                Some(d) => Some(d.total_nanos()),
                None => None,
            },
            source: self.source,
        }
    }
}

/// An entry with nothing known yet.
pub open spec fn empty_entry() -> EntryView {
    EntryView {
        title: Seq::empty(),
        artist: Seq::empty(),
        album: Seq::empty(),
        id: None,
        url: None,
        duration: None,
        source: None,
    }
}

/// The views of a list of entries.
pub open spec fn entries_view(v: Seq<ImportedEntry>) -> Seq<EntryView> {
    v.map_values(|e: ImportedEntry| e@)
}

/// The first position at or after `k` where `s` holds `c`, or the length.
pub open spec fn index_from(s: Seq<char>, c: char, k: int) -> int
    decreases s.len() - k,
{
    if k >= s.len() {
        s.len() as int
    } else if s[k] == c {
        k
    } else {
        index_from(s, c, k + 1)
    }
}

/// `index_from` stays between its start and the length.
pub proof fn lemma_index_from(s: Seq<char>, c: char, k: int)
    requires
        0 <= k <= s.len(),
    ensures
        k <= index_from(s, c, k) <= s.len(),
        index_from(s, c, k) < s.len() ==> s[index_from(s, c, k)] == c,
        forall|j: int| k <= j < index_from(s, c, k) ==> s[j] != c,
    decreases s.len() - k,
{
    if k < s.len() && s[k] != c {
        lemma_index_from(s, c, k + 1);
    }
}

/// `l` without one final carriage return.
pub open spec fn strip_cr(l: Seq<char>) -> Seq<char> {
    if l.len() > 0 && l.last() == '\r' {
        l.drop_last()
    } else {
        l
    }
}

/// The lines of `s` (`str::lines`): split after each line feed, a carriage
/// return before the line feed removed; a last line feed ends the last line.
pub open spec fn lines_of(s: Seq<char>) -> Seq<Seq<char>>
    decreases s.len(),
{
    if s.len() == 0 {
        Seq::empty()
    } else {
        let i = index_from(s, '\n', 0);
        proof {
            lemma_index_from(s, '\n', 0);
        }
        if i >= s.len() {
            seq![s]
        } else {
            seq![strip_cr(s.take(i))] + lines_of(s.skip(i + 1))
        }
    }
}

/// The first position where `p` occurs in `s` at or after `k`, if any.
pub open spec fn find_from(s: Seq<char>, p: Seq<char>, k: int) -> Option<int>
    decreases s.len() + 1 - k,
{
    if k + p.len() > s.len() {
        None
    } else if s.skip(k).take(p.len() as int) == p {
        Some(k)
    } else {
        find_from(s, p, k + 1)
    }
}

/// `p` occurs somewhere in `s`.
pub open spec fn contains_text(s: Seq<char>, p: Seq<char>) -> bool {
    find_from(s, p, 0) is Some
}

/// What `find_from` finds is an occurrence of `p` at or after `k`.
proof fn lemma_find_from_found(s: Seq<char>, p: Seq<char>, k: int)
    requires
        find_from(s, p, k) is Some,
    ensures
        k <= find_from(s, p, k)->0,
        find_from(s, p, k)->0 + p.len() <= s.len(),
        s.skip(find_from(s, p, k)->0).take(p.len() as int) == p,
    decreases s.len() + 1 - k,
{
    if k + p.len() > s.len() {
    } else if s.skip(k).take(p.len() as int) == p {
    } else {
        lemma_find_from_found(s, p, k + 1);
    }
}

/// An occurrence of `p` at `j`, at or after `k`, is found from `k`.
proof fn lemma_find_from_reaches(s: Seq<char>, p: Seq<char>, k: int, j: int)
    requires
        k <= j,
        j + p.len() <= s.len(),
        s.skip(j).take(p.len() as int) == p,
    ensures
        find_from(s, p, k) is Some,
    decreases j - k,
{
    if k < j && s.skip(k).take(p.len() as int) != p {
        lemma_find_from_reaches(s, p, k + 1, j);
    }
}

/// What occurs in `t` occurs in every text that holds `t`.
pub proof fn lemma_contains_within(u: Seq<char>, t: Seq<char>, w: Seq<char>, p: Seq<char>)
    requires
        contains_text(t, p),
    ensures
        contains_text(u + t + w, p),
{
    lemma_find_from_found(t, p, 0);
    let j = find_from(t, p, 0)->0;
    let s = u + t + w;
    assert(s.skip(u.len() + j).take(p.len() as int) =~= t.skip(j).take(p.len() as int));
    lemma_find_from_reaches(s, p, 0, u.len() + j);
}

/// The non-negative whole seconds that `i64::from_str` reads from `t`, if
/// any (a negative number gives none).
pub open spec fn nonneg_seconds(t: Seq<char>) -> Option<nat> {
    if t.len() > 0 && t[0] == '-' {
        let d = t.drop_first();
        if d.len() > 0 && all_digits(d) && digits_value(d) == 0 {
            Some(0)
        } else {
            None
        }
    } else {
        match parse_unsigned(t) {
            Some(n) => if n <= i64::MAX {
                Some(n)
            } else {
                None
            },
            None => None,
        }
    }
}

/// Artist and title of an M3U label `artist - title`; the whole trimmed label
/// is the title when it has no ` - `.
pub open spec fn label_parts(label: Seq<char>) -> (Seq<char>, Seq<char>) {
    let t = trim_ws(label);
    match find_from(t, " - "@, 0) {
        Some(i) => (trim_ws(t.take(i)), trim_ws(t.skip(i + 3))),
        None => (Seq::empty(), t),
    }
}

/// The named components of a path: the non-empty pieces between slashes
/// other than `.`.
pub open spec fn path_parts(pieces: Seq<Seq<char>>) -> Seq<Seq<char>>
    decreases pieces.len(),
{
    if pieces.len() == 0 {
        Seq::empty()
    } else {
        let rest = path_parts(pieces.drop_last());
        let p = pieces.last();
        if p.len() == 0 || p == "."@ {
            rest
        } else {
            rest.push(p)
        }
    }
}

/// The file name of a path (`Path::file_name`): its last named component,
/// none when there is none or it is `..`.
pub open spec fn path_file_name(s: Seq<char>) -> Option<Seq<char>> {
    let parts = path_parts(split_by(s, seq!['/']));
    if parts.len() == 0 || parts.last() == ".."@ {
        None
    } else {
        Some(parts.last())
    }
}

/// The stem of a file name (`Path::file_stem`): what comes before its last
/// dot, unless that dot is the first character.
pub open spec fn name_stem(n: Seq<char>) -> Seq<char> {
    match crate::strings::last_index(n, '.') {
        Some(i) => if i > 0 {
            n.take(i)
        } else {
            n
        },
        None => n,
    }
}

/// The title an M3U path line gives: the stem of its file name, or the line.
pub open spec fn stem_title(line: Seq<char>) -> Seq<char> {
    match path_file_name(line) {
        Some(n) => name_stem(n),
        None => line,
    }
}

/// A line as the M3U reader reads it: trimmed, byte order marks removed
/// from its start.
pub open spec fn clean_line(raw: Seq<char>) -> Seq<char> {
    trim_start_by(trim_ws(raw), |c: char| c == '\u{feff}')
}

/// The reader after one more line: entries read so far and the entry that
/// an `#EXTINF:` line announced. Empty lines and other comments are skipped;
/// `#EXTINF:<seconds>,<label>` announces an entry; any other line is the
/// location of an entry (the announced one, or a new one), titled by the
/// stem of its file name when it has no title yet.
pub open spec fn m3u_step(state: (Seq<EntryView>, Option<EntryView>), raw: Seq<char>) -> (Seq<EntryView>, Option<EntryView>) {
    let line = clean_line(raw);
    let (entries, pending) = state;
    if line.len() == 0 || (has_prefix(line, "#"@) && !has_prefix(line, "#EXTINF:"@)) {
        state
    } else if has_prefix(line, "#EXTINF:"@) {
        let info = line.skip(8);
        let comma = index_from(info, ',', 0);
        let (dur, label) = if comma < info.len() {
            (info.take(comma), info.skip(comma + 1))
        } else {
            (info, Seq::<char>::empty())
        };
        let (artist, title) = label_parts(label);
        let duration = match nonneg_seconds(trim_ws(dur)) {
            Some(n) => Some((n * 1_000_000_000) as int),
            None => None,
        };
        (entries, Some(EntryView { title, artist, duration, ..empty_entry() }))
    } else {
        let e = match pending {
            Some(p) => p,
            None => empty_entry(),
        };
        let title = if e.title.len() == 0 {
            stem_title(line)
        } else {
            e.title
        };
        (entries.push(EntryView { title, url: Some(line), ..e }), None)
    }
}

/// The reader after the lines `ls`.
pub open spec fn m3u_state(ls: Seq<Seq<char>>) -> (Seq<EntryView>, Option<EntryView>)
    decreases ls.len(),
{
    if ls.len() == 0 {
        (Seq::empty(), None)
    } else {
        m3u_step(m3u_state(ls.drop_last()), ls.last())
    }
}

/// The entries of an M3U playlist.
pub open spec fn m3u_entries(content: Seq<char>) -> Seq<EntryView> {
    m3u_state(lines_of(content)).0
}

/// The lines of `v` (see [`lines_of`]).
fn lines(v: &Vec<char>) -> (r: Vec<Vec<char>>)
    ensures
        vv(r@) == lines_of(v@),
{
    let mut out: Vec<Vec<char>> = Vec::new();
    let mut start: usize = 0;
    assert(v@.skip(0) == v@);
    assert(vv(out@) + lines_of(v@.skip(0)) == lines_of(v@));
    while start < v.len()
        invariant
            start <= v.len(),
            vv(out@) + lines_of(v@.skip(start as int)) == lines_of(v@),
        decreases v.len() - start,
    {
        let ghost rest = v@.skip(start as int);
        let mut j: usize = start;
        while j < v.len() && v[j] != '\n'
            invariant
                start <= j <= v.len(),
                rest == v@.skip(start as int),
                index_from(rest, '\n', 0) == index_from(rest, '\n', j - start),
            decreases v.len() - j,
        {
            assert(rest[j - start] == v@[j as int]);
            j += 1;
        }
        if j < v.len() {
            assert(rest[j - start] == v@[j as int]);
        }
        let ghost before = vv(out@);
        if j == v.len() {
            assert(rest == v@.subrange(start as int, v.len() as int));
            out.push(slice_chars(v, start, j));
            assert(vv(out@) =~= before.push(rest));
            assert(lines_of(rest) == seq![rest]);
            assert(v@.skip(j as int) =~= Seq::<char>::empty());
            assert(vv(out@) + lines_of(v@.skip(j as int)) =~= before + lines_of(rest));
            start = j;
        } else {
            let end = if j > start && v[j - 1] == '\r' {
                j - 1
            } else {
                j
            };
            let line = slice_chars(v, start, end);
            assert(rest.take(j - start) == v@.subrange(start as int, j as int));
            assert(line@ == strip_cr(rest.take(j - start)));
            out.push(line);
            assert(rest.skip(j - start + 1) == v@.skip(j + 1));
            assert(vv(out@) =~= before.push(line@));
            assert(vv(out@) + lines_of(v@.skip(j + 1)) =~= before + lines_of(rest));
            start = j + 1;
        }
    }
    assert(v@.skip(v.len() as int) =~= Seq::<char>::empty());
    assert(vv(out@) + Seq::<Seq<char>>::empty() == vv(out@));
    out
}

/// The first position of `p` in `v`, if any (see [`find_from`]).
fn find_text(v: &Vec<char>, p: &Vec<char>) -> (r: Option<usize>)
    ensures
        r matches Some(i) ==> find_from(v@, p@, 0) == Some(i as int) && i + p.len() <= v.len(),
        r is None ==> find_from(v@, p@, 0) is None,
{
    let mut k: usize = 0;
    while k <= v.len()
        invariant
            find_from(v@, p@, 0) == find_from(v@, p@, k as int),
        decreases v.len() + 1 - k,
    {
        if v.len() - k < p.len() {
            return None;
        }
        if occurs_at(v, k, p) {
            return Some(k);
        }
        if k == v.len() {
            assert(v@.skip(k as int).take(p.len() as int) =~= p@);
            return None;
        }
        k += 1;
    }
    None
}

/// Whether `p` occurs in `v`.
pub fn contains_lit(v: &Vec<char>, p: &str) -> (r: bool)
    ensures
        r == contains_text(v@, p@),
{
    let pv = chars_of(p);
    find_text(v, &pv).is_some()
}

/// The seconds of an `#EXTINF` duration (see [`nonneg_seconds`]).
fn read_seconds(t: &Vec<char>) -> (r: Option<u64>)
    ensures
        match nonneg_seconds(t@) {
            Some(n) => r == Some(n as u64),
            None => r is None,
        },
{
    if t.len() > 0 && t[0] == '-' {
        let d = slice_chars(t, 1, t.len());
        assert(d@ == t@.drop_first());
        if d.len() > 0 && d[0] != '+' {
            match parse_u128(&d) {
                Some(n) => {
                    if n == 0 {
                        return Some(0);
                    }
                },
                None => {},
            }
        }
        return None;
    }
    match parse_u128(t) {
        Some(n) => {
            if n <= 9223372036854775807 {
                Some(n as u64)
            } else {
                None
            }
        },
        None => None,
    }
}


/// Artist and title of an M3U label (see [`label_parts`]).
pub fn split_m3u_label(label: &str) -> (r: (String, String))
    ensures
        (r.0@, r.1@) == label_parts(label@),
{
    proof {
        reveal_strlit(" - ");
    }
    let t = trim_chars(&chars_of(label));
    let sep = chars_of(" - ");
    match find_text(&t, &sep) {
        Some(i) => {
            let a = trim_chars(&slice_chars(&t, 0, i));
            let b = trim_chars(&slice_chars(&t, i + 3, t.len()));
            assert(t@.take(i as int) == t@.subrange(0, i as int));
            assert(t@.skip(i + 3) == t@.subrange(i + 3, t@.len() as int));
            (string_of(&a), string_of(&b))
        },
        None => (String::new(), string_of(&t)),
    }
}

/// The named components of `pieces` (see [`path_parts`]).
fn named_parts(pieces: &Vec<Vec<char>>) -> (r: Vec<Vec<char>>)
    ensures
        vv(r@) == path_parts(vv(pieces@)),
{
    proof {
        reveal_strlit(".");
    }
    let mut r: Vec<Vec<char>> = Vec::new();
    let mut i: usize = 0;
    while i < pieces.len()
        invariant
            i <= pieces.len(),
            vv(r@) == path_parts(vv(pieces@).take(i as int)),
        decreases pieces.len() - i,
    {
        let ghost t = vv(pieces@).take(i + 1);
        assert(t.drop_last() == vv(pieces@).take(i as int));
        assert(t.last() == pieces@[i as int]@);
        let p = &pieces[i];
        let dot = p.len() == 1 && p[0] == '.';
        assert(dot == (p@ == "."@)) by {
            reveal_strlit(".");
            if p@ == "."@ {
                assert(p@.len() == 1);
            }
            if dot {
                assert(p@ =~= "."@);
            }
        }
        if p.len() > 0 && !dot {
            let ghost before = vv(r@);
            r.push(p.clone());
            assert(vv(r@) =~= before.push(p@));
        }
        i += 1;
    }
    assert(vv(pieces@).take(pieces.len() as int) == vv(pieces@));
    r
}

/// The title an M3U location line gives (see [`stem_title`]).
fn title_from_location(line: &Vec<char>) -> (r: Vec<char>)
    ensures
        r@ == stem_title(line@),
{
    proof {
        reveal_strlit("..");
    }
    let slash = vec!['/'];
    let parts = named_parts(&split_chars(line, &slash));
    assert(slash@ == seq!['/']);
    if parts.len() == 0 {
        return line.clone();
    }
    let last = &parts[parts.len() - 1];
    assert(vv(parts@).last() == last@);
    let dots = last.len() == 2 && last[0] == '.' && last[1] == '.';
    assert(dots == (last@ == ".."@)) by {
        if dots {
            assert(last@ =~= ".."@);
        }
    }
    if dots {
        return line.clone();
    }
    match crate::strings::find_last(last, '.') {
        Some(i) => {
            if i > 0 {
                slice_chars(last, 0, i)
            } else {
                last.clone()
            }
        },
        None => last.clone(),
    }
}

/// A line as the M3U reader reads it (see [`clean_line`]).
fn clean_line_chars(raw: &Vec<char>) -> (r: Vec<char>)
    ensures
        r@ == clean_line(raw@),
{
    let t = trim_chars(raw);
    let mut k: usize = 0;
    while k < t.len() && t[k] == '\u{feff}'
        invariant
            k <= t.len(),
            forall|j: int| 0 <= j < k ==> #[trigger] t@[j] == '\u{feff}',
        decreases t.len() - k,
    {
        k += 1;
    }
    proof {
        lemma_trim_start_by(t@, |c: char| c == '\u{feff}', k as int);
    }
    slice_chars(&t, k, t.len())
}

/// The entries of an M3U playlist (see [`m3u_entries`]).
pub fn parse_m3u(content: &str) -> (r: Vec<ImportedEntry>)
    ensures
        entries_view(r@) == m3u_entries(content@),
{
    proof {
        reveal_strlit("#");
        reveal_strlit("#EXTINF:");
    }
    let ls = lines(&chars_of(content));
    let hash = chars_of("#");
    let extinf = chars_of("#EXTINF:");
    let mut entries: Vec<ImportedEntry> = Vec::new();
    let mut pending: Option<ImportedEntry> = None;
    let mut i: usize = 0;
    while i < ls.len()
        invariant
            i <= ls.len(),
            hash@ == "#"@,
            extinf@ == "#EXTINF:"@,
            (entries_view(entries@), match pending {
                Some(p) => Some(p@),
                None => None::<EntryView>,
            }) == m3u_state(vv(ls@).take(i as int)),
        decreases ls.len() - i,
    {
        let ghost t = vv(ls@).take(i + 1);
        assert(t.drop_last() == vv(ls@).take(i as int));
        assert(t.last() == ls@[i as int]@);
        let line = clean_line_chars(&ls[i]);
        assert(line@.skip(0) == line@);
        let is_info = starts_with_at(&line, 0, &extinf);
        proof {
            reveal_strlit("#EXTINF:");
        }
        if line.len() == 0 || (starts_with_at(&line, 0, &hash) && !is_info) {
            i += 1;
            continue;
        }
        if is_info {
            let info = slice_chars(&line, 8, line.len());
            assert(info@ == line@.skip(8));
            let mut c: usize = 0;
            while c < info.len() && info[c] != ','
                invariant
                    c <= info.len(),
                    index_from(info@, ',', 0) == index_from(info@, ',', c as int),
                decreases info.len() - c,
            {
                c += 1;
            }
            let (dur, label) = if c < info.len() {
                (slice_chars(&info, 0, c), slice_chars(&info, c + 1, info.len()))
            } else {
                (info.clone(), Vec::new())
            };
            assert(c < info.len() ==> dur@ == info@.take(c as int) && label@ == info@.skip(c + 1));
            let (artist, title) = split_m3u_label(string_of(&label).as_str());
            let duration = match read_seconds(&trim_chars(&dur)) {
                Some(n) => Some(Duration::from_secs(n)),
                None => None,
            };
            pending = Some(ImportedEntry { title, artist, album: String::new(), id: None, url: None, duration, source: None });
            i += 1;
            continue;
        }
        let e = match pending {
            Some(p) => p,
            None => ImportedEntry { title: String::new(), artist: String::new(), album: String::new(), id: None, url: None, duration: None, source: None },
        };
        let title = if e.title.as_str().is_empty() {
            string_of(&title_from_location(&line))
        } else {
            e.title
        };
        let ghost before = entries_view(entries@);
        entries.push(ImportedEntry { title, artist: e.artist, album: e.album, id: e.id, url: Some(string_of(&line)), duration: e.duration, source: e.source });
        assert(entries_view(entries@) =~= before.push(entries@.last()@));
        pending = None;
        i += 1;
    }
    assert(vv(ls@).take(ls.len() as int) == vv(ls@));
    entries
}

/// The source a playlist file names (`kuwo`, `qq`, `netease`, ... in any
/// ASCII case, trimmed).
pub open spec fn source_named(value: Seq<char>) -> Option<SourceId> {
    let v = lower_ascii(trim_ws(value));
    if v == "kw"@ || v == "kuwo"@ {
        Some(SourceId::Kw)
    } else if v == "kg"@ || v == "kugou"@ {
        Some(SourceId::Kg)
    } else if v == "tx"@ || v == "qq"@ || v == "tencent"@ {
        Some(SourceId::Tx)
    } else if v == "wy"@ || v == "163"@ || v == "netease"@ || v == "neteasecloud"@ {
        Some(SourceId::Wy)
    } else if v == "mg"@ || v == "migu"@ {
        Some(SourceId::Mg)
    } else if v == "bili"@ || v == "bilibili"@ {
        Some(SourceId::Bili)
    } else if v == "local"@ {
        Some(SourceId::Local)
    } else {
        None
    }
}

/// The longer names that a source is also known by in playlist files.
pub open spec fn source_aliases(id: SourceId) -> Seq<Seq<char>> {
    match id {
        SourceId::Kw => seq!["kuwo"@],
        SourceId::Kg => seq!["kugou"@],
        SourceId::Tx => seq!["qq"@, "tencent"@],
        SourceId::Wy => seq!["163"@, "netease"@, "neteasecloud"@],
        SourceId::Mg => seq!["migu"@],
        SourceId::Bili => seq!["bilibili"@],
        SourceId::Local => seq![],
    }
}

/// A name of lower-case letters and digits is its own trimmed, lower-cased
/// form.
proof fn lemma_plain_name(s: Seq<char>)
    requires
        forall|k: int| 0 <= k < s.len() ==> ('a' <= #[trigger] s[k] <= 'z' || '0' <= s[k] <= '9'),
    ensures
        lower_ascii(trim_ws(s)) == s,
{
    let p = |c: char| is_ws(c);
    lemma_trim_start_by(s, p, 0);
    assert(s.subrange(0, s.len() as int) == s);
    lemma_trim_end_by(s, p, s.len() as int);
    assert(lower_ascii(s) =~= s);
}

/// Source names read back as their sources: the short name of each source
/// (`kw`, `kg`, `tx`, `wy`, `mg`, `bili`, `local`) and each of its longer
/// names parse to it, so different sources have different names; and a
/// text parses to a source only when, trimmed and in lower case, it is one
/// of that source's names.
pub proof fn lemma_source_names(id: SourceId)
    ensures
        source_named(crate::source::source_name(id)) == Some(id),
        forall|i: int| 0 <= i < source_aliases(id).len() ==> source_named(#[trigger] source_aliases(id)[i]) == Some(id),
        forall|v: Seq<char>| #[trigger] source_named(v) == Some(id) ==> (
            lower_ascii(trim_ws(v)) == crate::source::source_name(id)
            || source_aliases(id).contains(lower_ascii(trim_ws(v)))),
{
    reveal_strlit("kw");
    reveal_strlit("kuwo");
    reveal_strlit("kg");
    reveal_strlit("kugou");
    reveal_strlit("tx");
    reveal_strlit("qq");
    reveal_strlit("tencent");
    reveal_strlit("wy");
    reveal_strlit("163");
    reveal_strlit("netease");
    reveal_strlit("neteasecloud");
    reveal_strlit("mg");
    reveal_strlit("migu");
    reveal_strlit("bili");
    reveal_strlit("bilibili");
    reveal_strlit("local");
    lemma_plain_name(crate::source::source_name(id));
    assert forall|i: int| 0 <= i < source_aliases(id).len() implies source_named(#[trigger] source_aliases(id)[i]) == Some(id) by {
        lemma_plain_name(source_aliases(id)[i]);
    }
    assert forall|v: Seq<char>| #[trigger] source_named(v) == Some(id) implies (
        lower_ascii(trim_ws(v)) == crate::source::source_name(id)
        || source_aliases(id).contains(lower_ascii(trim_ws(v)))) by {
        let w = lower_ascii(trim_ws(v));
        match id {
            SourceId::Tx => {
                if w == "qq"@ { assert(source_aliases(id)[0] == w); }
                if w == "tencent"@ { assert(source_aliases(id)[1] == w); }
            },
            SourceId::Wy => {
                if w == "163"@ { assert(source_aliases(id)[0] == w); }
                if w == "netease"@ { assert(source_aliases(id)[1] == w); }
                if w == "neteasecloud"@ { assert(source_aliases(id)[2] == w); }
            },
            _ => {
                if w != crate::source::source_name(id) {
                    assert(source_aliases(id)[0] == w);
                }
            },
        }
    }
}

/// The source a playlist file names (see [`source_named`]).
pub fn parse_source_id(value: &str) -> (r: Option<SourceId>)
    ensures
        r == source_named(value@),
{
    let v = string_of(&lower_ascii_chars(&trim_chars(&chars_of(value))));
    let s = v.as_str();
    if str_eq(s, "kw") || str_eq(s, "kuwo") {
        Some(SourceId::Kw)
    } else if str_eq(s, "kg") || str_eq(s, "kugou") {
        Some(SourceId::Kg)
    } else if str_eq(s, "tx") || str_eq(s, "qq") || str_eq(s, "tencent") {
        Some(SourceId::Tx)
    } else if str_eq(s, "wy") || str_eq(s, "163") || str_eq(s, "netease") || str_eq(s, "neteasecloud") {
        Some(SourceId::Wy)
    } else if str_eq(s, "mg") || str_eq(s, "migu") {
        Some(SourceId::Mg)
    } else if str_eq(s, "bili") || str_eq(s, "bilibili") {
        Some(SourceId::Bili)
    } else if str_eq(s, "local") {
        Some(SourceId::Local)
    } else {
        None
    }
}


/// `s` with every leading `p` removed (`trim_start_matches`; `p` not empty).
pub open spec fn strip_prefixes(s: Seq<char>, p: Seq<char>) -> Seq<char>
    decreases s.len(),
{
    if p.len() > 0 && has_prefix(s, p) {
        strip_prefixes(s.skip(p.len() as int), p)
    } else {
        s
    }
}

/// Where the file of an entry is looked for, and whether the path is
/// relative to the playlist's folder: a `file://` URL gives its path (used as
/// it is); a location without `://` is a path, relative unless it starts with
/// `/`; anything else names no file.
pub open spec fn local_reference(e: EntryView) -> Option<(Seq<char>, bool)> {
    match e.url {
        None => None,
        Some(u) => if has_prefix(u, "file://"@) {
            Some((strip_prefixes(u, "file://"@), false))
        } else if contains_text(u, "://"@) {
            None
        } else {
            Some((u, !has_prefix(u, "/"@)))
        },
    }
}

/// Where a local entry's file is looked for.
#[derive(Debug)]
pub struct LocalReference {
    pub path: String,
    /// The path is relative to the folder of the playlist file.
    pub under_parent: bool,
}

/// Where the file of `entry` is looked for (see [`local_reference`]).
pub fn entry_local_path(entry: &ImportedEntry) -> (r: Option<LocalReference>)
    ensures
        match local_reference(entry@) {
            Some((p, rel)) => (r matches Some(l) && l.path@ == p && l.under_parent == rel),
            None => r is None,
        },
{
    proof {
        reveal_strlit("file://");
    }
    let u = match &entry.url {
        Some(u) => chars_of(u.as_str()),
        None => {
            return None;
        },
    };
    let scheme = chars_of("file://");
    assert(scheme@.len() == 7);
    assert(u@.skip(0) == u@);
    if starts_with_at(&u, 0, &scheme) {
        let mut k: usize = 0;
        assert(u@.skip(0) == u@);
        while k <= u.len() && starts_with_at(&u, k, &scheme)
            invariant
                k <= u.len(),
                scheme@ == "file://"@,
                scheme@.len() == 7,
                strip_prefixes(u@, scheme@) == strip_prefixes(u@.skip(k as int), scheme@),
            decreases u.len() - k,
        {
            assert(u@.skip(k as int).skip(7) == u@.skip(k + 7));
            k += 7;
        }
        let rest = slice_chars(&u, k, u.len());
        assert(rest@ == u@.skip(k as int));
        return Some(LocalReference { path: string_of(&rest), under_parent: false });
    }
    if contains_lit(&u, "://") {
        return None;
    }
    let absolute = u.len() > 0 && u[0] == '/';
    proof {
        reveal_strlit("/");
        if absolute {
            assert(u@.take(1) =~= "/"@);
        }
    }
    Some(LocalReference { path: string_of(&u), under_parent: !absolute })
}

/// What an entry refers to: its location, else its id.
pub open spec fn raw_reference(e: EntryView) -> Option<Seq<char>> {
    match e.url {
        Some(u) => Some(u),
        None => e.id,
    }
}

/// The source of an entry that names none: NetEase for a `music.163.com`
/// URL, local for another URL or a local path, NetEase for a bare id.
pub open spec fn inferred_source(e: EntryView, raw: Seq<char>) -> SourceId {
    match e.source {
        Some(s) => s,
        None => if contains_text(raw, "music.163.com"@) {
            SourceId::Wy
        } else if contains_text(raw, "://"@) {
            SourceId::Local
        } else if local_reference(e) is Some {
            SourceId::Local
        } else {
            SourceId::Wy
        },
    }
}

/// The song that `entry` stands for when its file cannot be read: id (else
/// the reference), source (see [`inferred_source`]), trimmed title, trimmed
/// artist (`未知艺术家` when empty), album, duration (0 when unknown), and the
/// reference as `import_url` when it is a URL. `None` when the entry has
/// neither location nor id.
pub fn entry_song(entry: &ImportedEntry) -> (r: Option<SongInfo>)
    ensures
        r is None <==> raw_reference(entry@) is None,
        r matches Some(s) ==> {
            let e = entry@;
            let raw = raw_reference(e)->0;
            &&& s@.id == match e.id {
                Some(i) => i,
                None => raw,
            }
            &&& s@.source == inferred_source(e, raw)
            &&& s@.name == trim_ws(e.title)
            &&& s@.singer == if trim_ws(e.artist).len() == 0 {
                "未知艺术家"@
            } else {
                trim_ws(e.artist)
            }
            &&& s@.album_name == e.album
            &&& s@.duration.total_nanos() == match e.duration {
                Some(d) => d,
                None => 0,
            }
            &&& s@.cover_url is None
            &&& s@.file_path is None
            &&& s@.extra == if contains_text(raw, "://"@) {
                seq![("import_url"@, raw)]
            } else {
                Seq::empty()
            }
        },
{
    let raw = match (&entry.url, &entry.id) {
        (Some(u), _) => u.clone(),
        (None, Some(i)) => i.clone(),
        (None, None) => {
            return None;
        },
    };
    let rv = chars_of(raw.as_str());
    let is_url = contains_lit(&rv, "://");
    let source = match entry.source {
        Some(s) => s,
        None => {
            if contains_lit(&rv, "music.163.com") {
                SourceId::Wy
            } else if is_url {
                SourceId::Local
            } else if entry_local_path(entry).is_some() {
                SourceId::Local
            } else {
                SourceId::Wy
            }
        },
    };
    let id = match &entry.id {
        Some(i) => i.clone(),
        None => raw.clone(),
    };
    let artist = crate::text::trim_str(entry.artist.as_str());
    let singer = if artist.as_str().is_empty() {
        to_owned_string("未知艺术家")
    } else {
        artist
    };
    let mut song = SongInfo::new(id, source, crate::text::trim_str(entry.title.as_str()), singer);
    song.album_name = entry.album.clone();
    song.duration = match entry.duration {
        Some(d) => d,
        None => Duration::zero(),
    };
    if is_url {
        song.extra.push((to_owned_string("import_url"), raw));
        assert(crate::song::pairs_view(song.extra@) =~= seq![("import_url"@, raw_reference(entry@)->0)]);
    } else {
        assert(crate::song::pairs_view(song.extra@) =~= Seq::<(Seq<char>, Seq<char>)>::empty());
    }
    Some(song)
}

} // verus!
