//! Songs of JSON playlist exports (LX Music, NetEase and similar): which
//! objects of the document are songs and which keys give their fields.
use vstd::prelude::*;
use crate::library::import::{EntryView, ImportedEntry, parse_source_id, source_named};
use crate::source::SourceId;
use crate::song::opt_view;
use crate::sync::normalize::join_seqs;
use crate::text::{chars_of, push_str, str_eq, to_owned_string, trim_str, trim_ws};

verus! {

/// A JSON value; numbers are kept as the text JSON writes them with.
#[derive(Debug)]
pub enum JsonNode {
    Null,
    Bool(bool),
    Number(String),
    Text(String),
    Array(Vec<JsonNode>),
    /// The members, in the order of the parsed document's map.
    Object(Vec<(String, JsonNode)>),
}

/// `serde_json::Value`, carried through the parse.
#[verifier::external_type_specification]
#[verifier::external_body]
pub struct ExJsonValue(serde_json::Value);

/// `serde_json::Error`, carried through the parse.
#[verifier::external_type_specification]
#[verifier::external_body]
pub struct ExJsonError(serde_json::Error);

/// The document that `serde_json` reads from `bytes`.
pub uninterp spec fn parsed_json(bytes: Seq<u8>) -> JsonNode;

/// The value of `serde_json::Value` `v` as a [`JsonNode`]: variant for
/// variant, numbers written with their `Display`, members in the map's
/// order.
#[verifier::external_body]
fn node_of(v: serde_json::Value) -> JsonNode {
    match v {
        serde_json::Value::Null => JsonNode::Null,
        serde_json::Value::Bool(b) => JsonNode::Bool(b),
        serde_json::Value::Number(n) => JsonNode::Number(n.to_string()),
        serde_json::Value::String(s) => JsonNode::Text(s),
        serde_json::Value::Array(a) => JsonNode::Array(a.into_iter().map(node_of).collect()),
        serde_json::Value::Object(o) => JsonNode::Object(o.into_iter().map(|(k, v)| (k, node_of(v))).collect()),
    }
}

/// Calls `serde_json::from_slice` into a `serde_json::Value`; claims that a
/// document read is [`parsed_json`] of the bytes. Which inputs it refuses
/// is left to `serde_json`.
#[verifier::external_body]
fn parse_json(bytes: &[u8]) -> (r: Result<JsonNode, serde_json::Error>)
    ensures
        r matches Ok(n) ==> n == parsed_json(bytes@),
{
    serde_json::from_slice::<serde_json::Value>(bytes).map(node_of)
}

/// Calls `Display` of `serde_json::Error`: the text of the error.
#[verifier::external_body]
fn json_error_text(e: &serde_json::Error) -> String {
    e.to_string()
}

/// A song found in a JSON playlist: its entry, with no duration, and the
/// texts of its duration members in key order (a number's text, or a
/// string to be read as one).
#[derive(Debug)]
pub struct JsonEntry {
    pub entry: ImportedEntry,
    pub durations: Vec<String>,
}

/// The content of a [`JsonEntry`].
pub struct JsonEntryView {
    pub entry: EntryView,
    pub durations: Seq<Seq<char>>,
}

impl View for JsonEntry {
    type V = JsonEntryView;

    open spec fn view(&self) -> JsonEntryView {
        JsonEntryView { entry: self.entry@, durations: self.durations@.map_values(|t: String| t@) }
    }
}

/// The views of a list of entries.
pub open spec fn json_entries_view(v: Seq<JsonEntry>) -> Seq<JsonEntryView> {
    v.map_values(|e: JsonEntry| e@)
}

/// The keys that give a song's title.
pub open spec fn title_keys() -> Seq<Seq<char>> {
    seq!["name"@, "songName"@, "song_name"@, "title"@, "trackName"@]
}

/// The keys that give a song's artist as text.
pub open spec fn artist_keys() -> Seq<Seq<char>> {
    seq!["artist"@, "singer"@, "artists"@, "author"@]
}

/// The keys that give a song's artists as a list.
pub open spec fn artist_list_keys() -> Seq<Seq<char>> {
    seq!["ar"@, "artists"@, "artist"@]
}

/// The keys that give a song's id.
pub open spec fn id_keys() -> Seq<Seq<char>> {
    seq!["id"@, "songId"@, "song_id"@, "songmid"@, "mid"@, "bvid"@, "hash"@]
}

/// The keys that give a song's URL or path.
pub open spec fn url_keys() -> Seq<Seq<char>> {
    seq!["url"@, "path"@, "file"@, "file_path"@, "location"@, "playUrl"@]
}

/// The keys that give a song's album.
pub open spec fn album_keys() -> Seq<Seq<char>> {
    seq!["album"@, "albumName"@, "album_name"@]
}

/// The keys that give a song's duration.
pub open spec fn duration_keys() -> Seq<Seq<char>> {
    seq!["duration"@, "duration_ms"@, "dt"@]
}

/// The keys that give a song's source.
pub open spec fn source_keys() -> Seq<Seq<char>> {
    seq!["source"@, "platform"@, "sourceId"@, "source_id"@]
}

/// The value of member `key` of an object (its keys are distinct).
pub open spec fn member(obj: Seq<(String, JsonNode)>, key: Seq<char>) -> Option<JsonNode>
    decreases obj.len(),
{
    if obj.len() == 0 {
        None
    } else if obj[0].0@ == key {
        Some(obj[0].1)
    } else {
        member(obj.drop_first(), key)
    }
}

/// The text of a string or a number.
pub open spec fn scalar_text(v: JsonNode) -> Option<Seq<char>> {
    match v {
        JsonNode::Text(t) => Some(t@),
        JsonNode::Number(n) => Some(n@),
        _ => None,
    }
}

/// The text of the first of `keys` whose member is a string or a number.
pub open spec fn first_text(obj: Seq<(String, JsonNode)>, keys: Seq<Seq<char>>) -> Option<Seq<char>>
    decreases keys.len(),
{
    if keys.len() == 0 {
        None
    } else {
        match member(obj, keys[0]) {
            Some(v) => match scalar_text(v) {
                Some(t) => Some(t),
                None => first_text(obj, keys.drop_first()),
            },
            None => first_text(obj, keys.drop_first()),
        }
    }
}

/// [`first_text`], unless that text is blank.
pub open spec fn text_field(obj: Seq<(String, JsonNode)>, keys: Seq<Seq<char>>) -> Option<Seq<char>> {
    match first_text(obj, keys) {
        Some(t) => if trim_ws(t).len() > 0 { Some(t) } else { None },
        None => None,
    }
}

/// The name an artist list item gives: the text of its `name` member for
/// an object, else its own text.
pub open spec fn item_name(v: JsonNode) -> Option<Seq<char>> {
    match v {
        JsonNode::Object(o) => match member(o@, "name"@) {
            Some(n) => scalar_text(n),
            None => None,
        },
        _ => scalar_text(v),
    }
}

/// The names of the items of an artist list that give one.
pub open spec fn item_names(items: Seq<JsonNode>) -> Seq<Seq<char>>
    decreases items.len(),
{
    if items.len() == 0 {
        Seq::empty()
    } else {
        let rest = item_names(items.drop_last());
        match item_name(items.last()) {
            Some(n) => rest.push(n),
            None => rest,
        }
    }
}

/// The names of the first of `keys` whose member is a list with names,
/// joined with `、`.
pub open spec fn listed_artist(obj: Seq<(String, JsonNode)>, keys: Seq<Seq<char>>) -> Option<Seq<char>>
    decreases keys.len(),
{
    if keys.len() == 0 {
        None
    } else {
        match member(obj, keys[0]) {
            Some(JsonNode::Array(items)) => if item_names(items@).len() > 0 {
                Some(join_seqs(item_names(items@), seq!['、']))
            } else {
                listed_artist(obj, keys.drop_first())
            },
            _ => listed_artist(obj, keys.drop_first()),
        }
    }
}

/// The artist of a song object: a text member, else a list of names, else
/// nothing.
pub open spec fn artist_of(obj: Seq<(String, JsonNode)>) -> Seq<char> {
    match text_field(obj, artist_keys()) {
        Some(a) => a,
        None => match listed_artist(obj, artist_list_keys()) {
            Some(a) => a,
            None => Seq::empty(),
        },
    }
}

/// The album of a song object: a text member, else the text of the `name`
/// of its `al` object, else nothing.
pub open spec fn album_of(obj: Seq<(String, JsonNode)>) -> Seq<char> {
    match text_field(obj, album_keys()) {
        Some(a) => a,
        None => match member(obj, "al"@) {
            Some(JsonNode::Object(o)) => match member(o@, "name"@) {
                Some(n) => match scalar_text(n) {
                    Some(t) => t,
                    None => Seq::empty(),
                },
                None => Seq::empty(),
            },
            _ => Seq::empty(),
        },
    }
}

/// The texts of the members of `keys` that are strings or numbers, in key
/// order.
pub open spec fn texts_of(obj: Seq<(String, JsonNode)>, keys: Seq<Seq<char>>) -> Seq<Seq<char>>
    decreases keys.len(),
{
    if keys.len() == 0 {
        Seq::empty()
    } else {
        let rest = texts_of(obj, keys.drop_last());
        match member(obj, keys.last()) {
            Some(v) => match scalar_text(v) {
                Some(t) => rest.push(t),
                None => rest,
            },
            None => rest,
        }
    }
}

/// The song an object stands for: it needs a title, and an artist, an id
/// or a URL.
pub open spec fn song_of(obj: Seq<(String, JsonNode)>) -> Option<JsonEntryView> {
    let artist = artist_of(obj);
    let id = text_field(obj, id_keys());
    let url = text_field(obj, url_keys());
    match text_field(obj, title_keys()) {
        Some(title) => if artist.len() == 0 && id is None && url is None {
            None
        } else {
            Some(JsonEntryView {
                entry: EntryView {
                    title,
                    artist,
                    album: album_of(obj),
                    id,
                    url,
                    duration: None,
                    source: match text_field(obj, source_keys()) {
                        Some(t) => source_named(t),
                        None => None,
                    },
                },
                durations: texts_of(obj, duration_keys()),
            })
        },
        None => None,
    }
}

/// The songs of a JSON playlist document, in document order: a list gives
/// the songs of its items; an object that is a song gives itself, other
/// objects the songs of their members.
pub open spec fn json_entries(v: JsonNode) -> Seq<JsonEntryView>
    decreases v,
{
    match v {
        JsonNode::Array(items) => items_entries(items@),
        JsonNode::Object(pairs) => match song_of(pairs@) {
            Some(e) => seq![e],
            None => members_entries(pairs@),
        },
        _ => Seq::empty(),
    }
}

/// The songs of a list's items.
pub open spec fn items_entries(s: Seq<JsonNode>) -> Seq<JsonEntryView>
    decreases s,
{
    if s.len() == 0 {
        Seq::empty()
    } else {
        items_entries(s.subrange(0, s.len() - 1)) + json_entries(s[s.len() - 1])
    }
}

/// The songs of an object's members.
pub open spec fn members_entries(s: Seq<(String, JsonNode)>) -> Seq<JsonEntryView>
    decreases s,
{
    if s.len() == 0 {
        Seq::empty()
    } else {
        members_entries(s.subrange(0, s.len() - 1)) + json_entries(s[s.len() - 1].1)
    }
}

/// The texts of a list of keys.
pub open spec fn key_seqs(keys: Seq<&str>) -> Seq<Seq<char>> {
    keys.map_values(|k: &str| k@)
}

/// The member `key` of an object (see [`member`]).
fn member_of<'a>(obj: &'a Vec<(String, JsonNode)>, key: &str) -> (r: Option<&'a JsonNode>)
    ensures
        match r {
            Some(v) => member(obj@, key@) == Some(*v),
            None => member(obj@, key@) is None,
        },
{
    let mut i: usize = 0;
    assert(obj@.skip(0) =~= obj@);
    while i < obj.len()
        invariant
            i <= obj.len(),
            member(obj@, key@) == member(obj@.skip(i as int), key@),
        decreases obj.len() - i,
    {
        assert(obj@.skip(i as int)[0] == obj@[i as int]);
        if str_eq(obj[i].0.as_str(), key) {
            return Some(&obj[i].1);
        }
        assert(obj@.skip(i as int).drop_first() =~= obj@.skip(i + 1));
        i += 1;
    }
    assert(obj@.skip(i as int).len() == 0);
    None
}

/// The text of a string or a number (see [`scalar_text`]).
fn scalar_of(v: &JsonNode) -> (r: Option<String>)
    ensures
        opt_view(r) == scalar_text(*v),
{
    match v {
        JsonNode::Text(t) => Some(t.clone()),
        JsonNode::Number(n) => Some(n.clone()),
        _ => None,
    }
}

/// The text of the first of `keys` whose member is a string or a number.
fn first_text_of(obj: &Vec<(String, JsonNode)>, keys: &Vec<&str>) -> (r: Option<String>)
    ensures
        opt_view(r) == first_text(obj@, key_seqs(keys@)),
{
    let ghost ks = key_seqs(keys@);
    let mut i: usize = 0;
    assert(ks.skip(0) =~= ks);
    while i < keys.len()
        invariant
            i <= keys.len(),
            ks == key_seqs(keys@),
            first_text(obj@, ks) == first_text(obj@, ks.skip(i as int)),
        decreases keys.len() - i,
    {
        assert(ks.skip(i as int)[0] == keys@[i as int]@);
        assert(ks.skip(i as int).drop_first() =~= ks.skip(i + 1));
        match member_of(obj, keys[i]) {
            Some(v) => match scalar_of(v) {
                Some(t) => {
                    return Some(t);
                },
                None => {},
            },
            None => {},
        }
        i += 1;
    }
    assert(ks.skip(i as int).len() == 0);
    None
}

/// The text of [`text_field`].
fn text_field_of(obj: &Vec<(String, JsonNode)>, keys: &Vec<&str>) -> (r: Option<String>)
    ensures
        opt_view(r) == text_field(obj@, key_seqs(keys@)),
{
    match first_text_of(obj, keys) {
        Some(t) => {
            let trimmed = trim_str(t.as_str());
            if chars_of(trimmed.as_str()).len() > 0 {
                Some(t)
            } else {
                None
            }
        },
        None => None,
    }
}

/// The names of an artist list (see [`item_names`]).
fn item_names_of(items: &Vec<JsonNode>) -> (r: Vec<String>)
    ensures
        r@.map_values(|t: String| t@) == item_names(items@),
{
    let mut names: Vec<String> = Vec::new();
    let mut i: usize = 0;
    while i < items.len()
        invariant
            i <= items.len(),
            names@.map_values(|t: String| t@) == item_names(items@.take(i as int)),
        decreases items.len() - i,
    {
        assert(items@.take(i + 1).drop_last() =~= items@.take(i as int));
        let name = match &items[i] {
            JsonNode::Object(o) => match member_of(o, "name") {
                Some(n) => scalar_of(n),
                None => None,
            },
            other => scalar_of(other),
        };
        let ghost before = names@;
        match name {
            Some(n) => {
                names.push(n);
                assert(names@.map_values(|t: String| t@) =~= before.map_values(|t: String| t@).push(names@[before.len() as int]@));
            },
            None => {},
        }
        i += 1;
    }
    assert(items@.take(items.len() as int) =~= items@);
    names
}

/// `names` joined with `、`.
fn join_names(names: &Vec<String>) -> (r: String)
    ensures
        r@ == join_seqs(names@.map_values(|t: String| t@), seq!['、']),
{
    let ghost ns = names@.map_values(|t: String| t@);
    let mut out = to_owned_string("");
    proof {
        reveal_strlit("");
        reveal_strlit("、");
    }
    let mut i: usize = 0;
    while i < names.len()
        invariant
            i <= names.len(),
            ns == names@.map_values(|t: String| t@),
            out@ == join_seqs(ns.take(i as int), seq!['、']),
        decreases names.len() - i,
    {
        assert(ns.take(i + 1).drop_last() =~= ns.take(i as int));
        assert(ns.take(i + 1).last() == names@[i as int]@);
        let ghost prev = out@;
        if i > 0 {
            push_str(&mut out, "、");
            proof {
                reveal_strlit("、");
            }
            assert(out@ =~= prev + seq!['、']);
        } else {
            assert(ns.take(1) =~= seq![ns[0]]);
            assert(ns.take(0) =~= Seq::<Seq<char>>::empty());
        }
        push_str(&mut out, names[i].as_str());
        if i > 0 {
            assert(ns.take(i + 1).len() == i + 1);
            assert(join_seqs(ns.take(i + 1), seq!['、']) == join_seqs(ns.take(i as int), seq!['、']) + seq!['、'] + ns[i as int]);
        }
        assert(out@ =~= join_seqs(ns.take(i + 1), seq!['、']));
        i += 1;
    }
    assert(ns.take(names.len() as int) =~= ns);
    out
}

/// The joined names of the first of `keys` that lists names (see
/// [`listed_artist`]).
fn listed_artist_of(obj: &Vec<(String, JsonNode)>, keys: &Vec<&str>) -> (r: Option<String>)
    ensures
        opt_view(r) == listed_artist(obj@, key_seqs(keys@)),
{
    let ghost ks = key_seqs(keys@);
    let mut i: usize = 0;
    assert(ks.skip(0) =~= ks);
    while i < keys.len()
        invariant
            i <= keys.len(),
            ks == key_seqs(keys@),
            listed_artist(obj@, ks) == listed_artist(obj@, ks.skip(i as int)),
        decreases keys.len() - i,
    {
        assert(ks.skip(i as int)[0] == keys@[i as int]@);
        assert(ks.skip(i as int).drop_first() =~= ks.skip(i + 1));
        match member_of(obj, keys[i]) {
            Some(JsonNode::Array(items)) => {
                let names = item_names_of(items);
                if names.len() > 0 {
                    return Some(join_names(&names));
                }
            },
            _ => {},
        }
        i += 1;
    }
    assert(ks.skip(i as int).len() == 0);
    None
}

/// The texts of the members of `keys` that are strings or numbers.
fn texts_of_keys(obj: &Vec<(String, JsonNode)>, keys: &Vec<&str>) -> (r: Vec<String>)
    ensures
        r@.map_values(|t: String| t@) == texts_of(obj@, key_seqs(keys@)),
{
    let ghost ks = key_seqs(keys@);
    let mut out: Vec<String> = Vec::new();
    let mut i: usize = 0;
    while i < keys.len()
        invariant
            i <= keys.len(),
            ks == key_seqs(keys@),
            out@.map_values(|t: String| t@) == texts_of(obj@, ks.take(i as int)),
        decreases keys.len() - i,
    {
        assert(ks.take(i + 1).drop_last() =~= ks.take(i as int));
        assert(ks.take(i + 1).last() == keys@[i as int]@);
        let ghost before = out@;
        match member_of(obj, keys[i]) {
            Some(v) => match scalar_of(v) {
                Some(t) => {
                    out.push(t);
                    assert(out@.map_values(|t: String| t@) =~= before.map_values(|t: String| t@).push(out@[before.len() as int]@));
                },
                None => {},
            },
            None => {},
        }
        i += 1;
    }
    assert(ks.take(keys.len() as int) =~= ks);
    out
}

/// The song an object stands for (see [`song_of`]).
fn song_of_object(obj: &Vec<(String, JsonNode)>) -> (r: Option<JsonEntry>)
    ensures
        match r {
            Some(e) => song_of(obj@) == Some(e@),
            None => song_of(obj@) is None,
        },
{
    let title_k = vec!["name", "songName", "song_name", "title", "trackName"];
    let artist_k = vec!["artist", "singer", "artists", "author"];
    let list_k = vec!["ar", "artists", "artist"];
    let id_k = vec!["id", "songId", "song_id", "songmid", "mid", "bvid", "hash"];
    let url_k = vec!["url", "path", "file", "file_path", "location", "playUrl"];
    let album_k = vec!["album", "albumName", "album_name"];
    let duration_k = vec!["duration", "duration_ms", "dt"];
    let source_k = vec!["source", "platform", "sourceId", "source_id"];
    assert(key_seqs(title_k@) =~= title_keys());
    assert(key_seqs(artist_k@) =~= artist_keys());
    assert(key_seqs(list_k@) =~= artist_list_keys());
    assert(key_seqs(id_k@) =~= id_keys());
    assert(key_seqs(url_k@) =~= url_keys());
    assert(key_seqs(album_k@) =~= album_keys());
    assert(key_seqs(duration_k@) =~= duration_keys());
    assert(key_seqs(source_k@) =~= source_keys());
    let title = match text_field_of(obj, &title_k) {
        Some(t) => t,
        None => {
            return None;
        },
    };
    let artist = match text_field_of(obj, &artist_k) {
        Some(a) => a,
        None => match listed_artist_of(obj, &list_k) {
            Some(a) => a,
            None => to_owned_string(""),
        },
    };
    proof {
        reveal_strlit("");
    }
    let id = text_field_of(obj, &id_k);
    let url = text_field_of(obj, &url_k);
    if chars_of(artist.as_str()).len() == 0 && id.is_none() && url.is_none() {
        return None;
    }
    let album = match text_field_of(obj, &album_k) {
        Some(a) => a,
        None => match member_of(obj, "al") {
            Some(JsonNode::Object(o)) => match member_of(o, "name") {
                Some(n) => match scalar_of(n) {
                    Some(t) => t,
                    None => to_owned_string(""),
                },
                None => to_owned_string(""),
            },
            _ => to_owned_string(""),
        },
    };
    let source = match text_field_of(obj, &source_k) {
        Some(t) => parse_source_id(t.as_str()),
        None => None,
    };
    let durations = texts_of_keys(obj, &duration_k);
    let entry = ImportedEntry { title, artist, album, id, url, duration: None, source };
    let e = JsonEntry { entry, durations };
    assert(e@.entry.title == song_of(obj@)->0.entry.title);
    assert(e@.entry.artist == song_of(obj@)->0.entry.artist);
    assert(e@.entry.album == song_of(obj@)->0.entry.album);
    assert(e@.entry.id == song_of(obj@)->0.entry.id);
    assert(e@.entry.url == song_of(obj@)->0.entry.url);
    assert(e@.entry.source == song_of(obj@)->0.entry.source);
    assert(e@.entry == song_of(obj@)->0.entry);
    Some(e)
}

/// Appends the songs of `v` (see [`json_entries`]).
fn collect_entries(v: &JsonNode, out: &mut Vec<JsonEntry>)
    ensures
        json_entries_view(final(out)@) == json_entries_view(old(out)@) + json_entries(*v),
    decreases v,
{
    match v {
        JsonNode::Array(items) => {
            let ghost base = json_entries_view(out@);
            let mut i: usize = 0;
            assert(items@.take(0) =~= Seq::<JsonNode>::empty());
            assert(json_entries_view(out@) =~= base + items_entries(items@.take(0)));
            while i < items.len()
                invariant
                    i <= items.len(),
                    *v == JsonNode::Array(*items),
                    json_entries_view(out@) == base + items_entries(items@.take(i as int)),
                decreases items.len() - i,
            {
                assert(items@.take(i + 1).subrange(0, i as int) =~= items@.take(i as int));
                assert(items@.take(i + 1)[i as int] == items@[i as int]);
                assert(decreases_to!(*v => (*v)->Array_0));
                assert((*v)->Array_0 == *items);
                assert(decreases_to!(*items => items@));
                assert(decreases_to!(items@ => items@[i as int]));
                assert(decreases_to!(*v => items@[i as int]));
                collect_entries(&items[i], out);
                assert(json_entries_view(out@) =~= base + items_entries(items@.take(i + 1)));
                i += 1;
            }
            assert(items@.take(items.len() as int) =~= items@);
        },
        JsonNode::Object(pairs) => {
            match song_of_object(pairs) {
                Some(e) => {
                    let ghost before = out@;
                    out.push(e);
                    assert(json_entries_view(out@) =~= json_entries_view(before) + seq![out@[before.len() as int]@]);
                },
                None => {
                    let ghost base = json_entries_view(out@);
                    let mut i: usize = 0;
                    assert(pairs@.take(0) =~= Seq::<(String, JsonNode)>::empty());
                    assert(json_entries_view(out@) =~= base + members_entries(pairs@.take(0)));
                    while i < pairs.len()
                        invariant
                            i <= pairs.len(),
                            *v == JsonNode::Object(*pairs),
                            json_entries_view(out@) == base + members_entries(pairs@.take(i as int)),
                        decreases pairs.len() - i,
                    {
                        assert(pairs@.take(i + 1).subrange(0, i as int) =~= pairs@.take(i as int));
                        assert(pairs@.take(i + 1)[i as int] == pairs@[i as int]);
                        assert(decreases_to!(*v => (*v)->Object_0));
                        assert((*v)->Object_0 == *pairs);
                        assert(decreases_to!(*pairs => pairs@));
                        assert(decreases_to!(pairs@ => pairs@[i as int]));
                        assert(decreases_to!(pairs@[i as int] => pairs@[i as int].1));
                        assert(decreases_to!(*v => pairs@[i as int].1));
                        collect_entries(&pairs[i].1, out);
                        assert(json_entries_view(out@) =~= base + members_entries(pairs@.take(i + 1)));
                        i += 1;
                    }
                    assert(pairs@.take(pairs.len() as int) =~= pairs@);
                },
            }
        },
        _ => {
            assert(json_entries_view(out@) =~= json_entries_view(old(out)@) + json_entries(*v));
        },
    }
}

/// The songs of a JSON playlist document (see [`json_entries`]).
pub fn playlist_entries(root: &JsonNode) -> (r: Vec<JsonEntry>)
    ensures
        json_entries_view(r@) == json_entries(*root),
{
    let mut out: Vec<JsonEntry> = Vec::new();
    assert(json_entries_view(out@) =~= Seq::<JsonEntryView>::empty());
    collect_entries(root, &mut out);
    assert(json_entries_view(out@) =~= json_entries(*root));
    out
}

/// The message of a JSON playlist that cannot be read.
pub open spec fn invalid_json_message(detail: Seq<char>) -> Seq<char> {
    "歌单 JSON 格式无效: "@ + detail
}

/// The songs of the JSON playlist in `bytes`: those of the document
/// `serde_json` reads (see [`playlist_entries`]), or, when it reads none,
/// the message of its error.
pub fn parse_playlist_json(bytes: &[u8]) -> (r: Result<Vec<JsonEntry>, String>)
    ensures
        r matches Ok(v) ==> json_entries_view(v@) == json_entries(parsed_json(bytes@)),
        r matches Err(e) ==> exists|d: Seq<char>| e@ == invalid_json_message(d),
{
    match parse_json(bytes) {
        Ok(root) => Ok(playlist_entries(&root)),
        Err(e) => {
            let detail = json_error_text(&e);
            let mut m = to_owned_string("歌单 JSON 格式无效: ");
            push_str(&mut m, detail.as_str());
            assert(m@ == invalid_json_message(detail@));
            Err(m)
        },
    }
}

} // verus!
