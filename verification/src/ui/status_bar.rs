//! The bottom status bar: which segments it shows, with what text, in the
//! columns it has. Colours and drawing are left to the terminal front end.
use vstd::prelude::*;
use crate::source::{PlayerState, Quality, quality_label};
use crate::strings::{decimal, push_decimal};
use crate::text::{push_str, to_owned_string, trim_str, trim_ws};
use crate::time::Duration;
use crate::ui::text_width::{display_width, str_columns, truncate_width, truncated};

verus! {

/// A segment the status bar can show.
#[derive(Debug, Clone, Copy, PartialEq, Eq, Structural)]
pub enum StatusBarItem {
    State,
    Source,
    Sort,
    Song,
    Time,
    Volume,
    PlayMode,
    Quality,
    Queue,
    JsSourceState,
}

/// What the status bar reports, as plain values.
#[derive(Debug, Clone)]
pub struct StatusInfo {
    pub state: PlayerState,
    pub position: Duration,
    pub duration: Duration,
    /// Name and singer of the current song, when one is loaded.
    pub song: Option<(String, String)>,
    /// The source the current song plays from.
    pub source_name: String,
    /// Whether a custom (JS) source is loaded.
    pub js_source_online: bool,
    pub queue_len: usize,
    pub queue_index: usize,
    /// Label of the play mode.
    pub mode_label: String,
    pub quality: Quality,
    pub volume: u32,
    /// Label of the sort mode of the page, when it sorts.
    pub sort_status: Option<String>,
}

/// A segment shown, with its text.
#[derive(Debug, Clone, PartialEq, Eq)]
pub struct StatusSegment {
    pub item: StatusBarItem,
    pub text: String,
}

/// The text between two segments.
pub open spec fn separator() -> Seq<char> {
    "  ·  "@
}

/// The word of a player state.
pub open spec fn state_word(s: PlayerState) -> Seq<char> {
    match s {
        PlayerState::Playing => "播放"@,
        PlayerState::Paused => "暂停"@,
        PlayerState::Loading => "缓冲"@,
        PlayerState::Stopped => "停止"@,
        PlayerState::Idle => "空闲"@,
    }
}

/// `n` in decimal with at least two digits.
pub open spec fn two_digits(n: nat) -> Seq<char> {
    if n < 10 { seq!['0'] + decimal(n) } else { decimal(n) }
}

/// Whole seconds as minutes and seconds, `mm:ss`.
pub open spec fn clock(secs: nat) -> Seq<char> {
    two_digits(secs / 60) + seq![':'] + two_digits(secs % 60)
}

/// The time shown: the position, and the length when it is known.
pub open spec fn time_text(position: Duration, duration: Duration) -> Seq<char> {
    if duration.total_nanos() == 0 {
        clock(position.whole_secs() as nat)
    } else {
        clock(position.whole_secs() as nat) + seq!['/'] + clock(duration.whole_secs() as nat)
    }
}

/// The song shown: its name, with the singer when there is one; the
/// program's name when nothing is loaded.
pub open spec fn song_title(song: Option<(String, String)>) -> Seq<char> {
    match song {
        Some((name, singer)) => if trim_ws(singer@).len() == 0 { name@ } else { name@ + " - "@ + singer@ },
        None => "voicefox"@,
    }
}

/// The queue position shown: the current song's place (from one) over the
/// queue's length.
pub open spec fn queue_text(len: usize, index: usize) -> Seq<char> {
    if len == 0 {
        "0/0"@
    } else {
        decimal((if index < usize::MAX { index + 1 } else { usize::MAX as int }) as nat) + seq!['/'] + decimal(len as nat)
    }
}

/// The widest the source name gets in a bar `width` columns wide.
pub open spec fn source_cap(width: u16) -> int {
    if width <= 49 { 8 } else if width <= 89 { 14 } else { 20 }
}

/// The text of segment `item`, `remaining` columns being left after the
/// separator, in a bar `width` columns wide; none for a segment that has
/// nothing to show or no room for its content.
pub open spec fn segment_text(info: StatusInfo, item: StatusBarItem, remaining: int, width: u16) -> Option<Seq<char>> {
    match item {
        StatusBarItem::State => Some(seq![' '] + state_word(info.state) + seq![' ']),
        StatusBarItem::Source => {
            let room = remaining - display_width("音源 "@);
            let w = if room <= 0 { 0 } else if room <= source_cap(width) { room } else { source_cap(width) };
            if w > 0 {
                Some("音源 "@ + truncated(if info.song is Some { info.source_name@ } else { "-"@ }, w))
            } else {
                None
            }
        },
        StatusBarItem::Sort => match info.sort_status {
            Some(s) => Some("排序 "@ + s@ + " (s)"@),
            None => None,
        },
        StatusBarItem::Song => if remaining > 0 {
            Some(truncated(song_title(info.song), if remaining <= 28 { remaining } else { 28 }))
        } else {
            None
        },
        StatusBarItem::Time => Some(time_text(info.position, info.duration)),
        StatusBarItem::Volume => Some("音量 "@ + decimal(info.volume as nat) + seq!['%']),
        StatusBarItem::PlayMode => Some(info.mode_label@),
        StatusBarItem::Quality => Some(quality_label(info.quality)),
        StatusBarItem::Queue => Some("队列 "@ + queue_text(info.queue_len, info.queue_index)),
        StatusBarItem::JsSourceState => Some(if info.js_source_online { "自定义音源在线"@ } else { "自定义音源离线"@ }),
    }
}

/// The columns used and the segments placed after the first `n` of `items`
/// in a bar `width` columns wide. Each segment is preceded by the separator
/// unless it is the first; a segment is placed when it has text of some
/// width and fits in what is left, and skipped otherwise.
pub open spec fn placed(info: StatusInfo, items: Seq<StatusBarItem>, width: u16, n: int) -> (int, Seq<(StatusBarItem, Seq<char>)>)
    decreases n,
{
    if n <= 0 {
        (0, Seq::empty())
    } else {
        let (used, segs) = placed(info, items, width, n - 1);
        let sep: int = if segs.len() == 0 { 0 } else { display_width(separator()) as int };
        let remaining: int = if width >= used + sep { width - (used + sep) } else { 0 };
        match segment_text(info, items[n - 1], remaining, width) {
            Some(t) => if display_width(t) == 0 || used + sep + display_width(t) > width {
                (used, segs)
            } else {
                (used + sep + display_width(t), segs.push((items[n - 1], t)))
            },
            None => (used, segs),
        }
    }
}

/// The segments and their texts.
pub open spec fn segments_view(v: Seq<StatusSegment>) -> Seq<(StatusBarItem, Seq<char>)> {
    v.map_values(|s: StatusSegment| (s.item, s.text@))
}

/// Law: the segments placed, with their separators, never take more
/// columns than the bar has.
pub proof fn lemma_placed_fits(info: StatusInfo, items: Seq<StatusBarItem>, width: u16, n: int)
    ensures
        0 <= placed(info, items, width, n).0 <= width,
    decreases n,
{
    if n > 0 {
        lemma_placed_fits(info, items, width, n - 1);
    }
}

/// `n` in decimal with at least two digits, appended to `s`.
fn push_two_digits(s: &mut String, n: u64)
    ensures
        final(s)@ == old(s)@ + two_digits(n as nat),
{
    if n < 10 {
        push_str(s, "0");
        proof {
            reveal_strlit("0");
        }
    }
    let ghost mid = s@;
    push_decimal(s, n);
    assert(s@ =~= old(s)@ + two_digits(n as nat));
}

/// Whole seconds as `mm:ss`, appended to `s`.
fn push_clock(s: &mut String, secs: u64)
    ensures
        final(s)@ == old(s)@ + clock(secs as nat),
{
    push_two_digits(s, secs / 60);
    push_str(s, ":");
    proof {
        reveal_strlit(":");
    }
    push_two_digits(s, secs % 60);
    assert(s@ =~= old(s)@ + clock(secs as nat));
}

/// The time shown (see [`time_text`]).
pub fn format_time(position: Duration, duration: Duration) -> (r: String)
    ensures
        r@ == time_text(position, duration),
{
    let mut s = String::new();
    push_clock(&mut s, position.as_secs());
    if !duration.is_zero() {
        push_str(&mut s, "/");
        proof {
            reveal_strlit("/");
        }
        push_clock(&mut s, duration.as_secs());
    }
    assert(s@ =~= time_text(position, duration));
    s
}

/// The song shown (see [`song_title`]).
fn title_of(song: &Option<(String, String)>) -> (r: String)
    ensures
        r@ == song_title(*song),
{
    match song {
        Some((name, singer)) => {
            let trimmed = trim_str(singer.as_str());
            if crate::text::chars_of(trimmed.as_str()).len() == 0 {
                name.clone()
            } else {
                let mut s = name.clone();
                push_str(&mut s, " - ");
                push_str(&mut s, singer.as_str());
                s
            }
        },
        None => to_owned_string("voicefox"),
    }
}

/// The queue position shown (see [`queue_text`]).
fn queue_position(len: usize, index: usize) -> (r: String)
    ensures
        r@ == queue_text(len, index),
{
    if len == 0 {
        return to_owned_string("0/0");
    }
    let mut s = String::new();
    push_decimal(&mut s, index.saturating_add(1) as u64);
    push_str(&mut s, "/");
    proof {
        reveal_strlit("/");
    }
    push_decimal(&mut s, len as u64);
    assert(s@ =~= queue_text(len, index));
    s
}

/// The text of a segment (see [`segment_text`]).
fn segment_for(info: &StatusInfo, item: StatusBarItem, remaining: usize, width: u16) -> (r: Option<String>)
    ensures
        match r {
            Some(t) => segment_text(*info, item, remaining as int, width) == Some(t@),
            None => segment_text(*info, item, remaining as int, width) is None,
        },
{
    match item {
        StatusBarItem::State => {
            let mut s = to_owned_string(" ");
            let word = match info.state {
                PlayerState::Playing => "播放",
                PlayerState::Paused => "暂停",
                PlayerState::Loading => "缓冲",
                PlayerState::Stopped => "停止",
                PlayerState::Idle => "空闲",
            };
            push_str(&mut s, word);
            push_str(&mut s, " ");
            proof {
                reveal_strlit(" ");
            }
            assert(s@ =~= seq![' '] + state_word(info.state) + seq![' ']);
            Some(s)
        },
        StatusBarItem::Source => {
            let label_width = str_columns("音源 ");
            let room = remaining.saturating_sub(label_width);
            let cap: usize = if width <= 49 { 8 } else if width <= 89 { 14 } else { 20 };
            let w = if room <= cap { room } else { cap };
            if w > 0 {
                let name = if info.song.is_some() { info.source_name.as_str() } else { "-" };
                let mut s = to_owned_string("音源 ");
                let cut = truncate_width(name, w);
                push_str(&mut s, cut.as_str());
                Some(s)
            } else {
                None
            }
        },
        StatusBarItem::Sort => match &info.sort_status {
            Some(sort) => {
                let mut s = to_owned_string("排序 ");
                push_str(&mut s, sort.as_str());
                push_str(&mut s, " (s)");
                Some(s)
            },
            None => None,
        },
        StatusBarItem::Song => {
            if remaining > 0 {
                let title = title_of(&info.song);
                Some(truncate_width(title.as_str(), if remaining <= 28 { remaining } else { 28 }))
            } else {
                None
            }
        },
        StatusBarItem::Time => Some(format_time(info.position, info.duration)),
        StatusBarItem::Volume => {
            let mut s = to_owned_string("音量 ");
            push_decimal(&mut s, info.volume as u64);
            push_str(&mut s, "%");
            proof {
                reveal_strlit("%");
            }
            assert(s@ =~= "音量 "@ + decimal(info.volume as nat) + seq!['%']);
            Some(s)
        },
        StatusBarItem::PlayMode => Some(info.mode_label.clone()),
        StatusBarItem::Quality => Some(to_owned_string(info.quality.label())),
        StatusBarItem::Queue => {
            let mut s = to_owned_string("队列 ");
            let q = queue_position(info.queue_len, info.queue_index);
            push_str(&mut s, q.as_str());
            Some(s)
        },
        StatusBarItem::JsSourceState => Some(
            if info.js_source_online {
                to_owned_string("自定义音源在线")
            } else {
                to_owned_string("自定义音源离线")
            },
        ),
    }
}

/// The segments of `items` that the status bar shows in `width` columns,
/// in order, with their texts (see [`placed`]).
pub fn status_segments(info: &StatusInfo, items: &[StatusBarItem], width: u16) -> (r: Vec<StatusSegment>)
    ensures
        segments_view(r@) == placed(*info, items@, width, items@.len() as int).1,
{
    let total = width as usize;
    let sep_width = str_columns("  ·  ");
    let mut used: usize = 0;
    let mut segments: Vec<StatusSegment> = Vec::new();
    let mut i: usize = 0;
    while i < items.len()
        invariant
            i <= items.len(),
            total == width,
            sep_width == display_width(separator()),
            (used as int, segments_view(segments@)) == placed(*info, items@, width, i as int),
        decreases items.len() - i,
    {
        proof {
            lemma_placed_fits(*info, items@, width, i as int);
        }
        let sep = if segments.len() == 0 { 0 } else { sep_width };
        let remaining = total.saturating_sub(used.saturating_add(sep));
        match segment_for(info, items[i], remaining, width) {
            Some(text) => {
                let text_width = str_columns(text.as_str());
                if text_width != 0 && sep <= total - used && text_width <= total - used - sep {
                    used = used + sep + text_width;
                    let ghost before = segments@;
                    segments.push(StatusSegment { item: items[i], text });
                    assert(segments_view(segments@) =~= segments_view(before).push((items@[i as int], segments@[before.len() as int].text@)));
                }
            },
            None => {},
        }
        i += 1;
    }
    segments
}

} // verus!
