//! The text of the synchronisation dialog for each of its phases.
use vstd::prelude::*;
use crate::strings::{decimal, push_decimal};
use crate::text::{push_char, push_str, to_owned_string};
use super::report::{NeteaseSyncPreview, NeteaseSyncReport, PlaylistDiff, SyncPhase, SyncUiState};

verus! {

/// The title of the dialog for the source named `source`.
pub open spec fn overlay_title(source: Seq<char>) -> Seq<char> {
    "同步预览 Diff · "@ + source
}

/// `prefix`, `n` in decimal, then `suffix`.
pub open spec fn count_line(prefix: Seq<char>, n: usize, suffix: Seq<char>) -> Seq<char> {
    prefix + decimal(n as nat) + suffix
}

/// The line of a playlist's difference.
pub open spec fn diff_line(d: PlaylistDiff) -> Seq<char> {
    "  "@ + d.name@ + "  ↑"@ + decimal(d.upload as nat) + " ↓"@ + decimal(d.download as nat) + " ="@
        + decimal(d.matched as nat) + " ?"@ + decimal(d.unmatched as nat) + " ["@ + d.mapping@ + "]"@
}

/// The line of a song without a match.
pub open spec fn unmatched_line(song: (String, String)) -> Seq<char> {
    "  ? "@ + song.0@ + " — "@ + song.1@
}

/// Playlists listed on a dialog `height` rows high.
pub open spec fn listed_playlists(height: u16) -> int {
    if height >= 10 { height - 10 } else { 0 }
}

/// The unmatched songs listed: at most five, then how many more there are.
pub open spec fn unmatched_lines(songs: Seq<(String, String)>) -> Seq<Seq<char>> {
    if songs.len() == 0 {
        Seq::empty()
    } else {
        let shown = if songs.len() <= 5 { songs.len() as int } else { 5 };
        let more = if songs.len() > 5 {
            seq![count_line("  ... 还有 "@, (songs.len() - 5) as usize, " 首"@)]
        } else {
            Seq::empty()
        };
        seq![""@, "未匹配歌曲："@] + Seq::new(shown as nat, |i: int| unmatched_line(songs[i])) + more
    }
}

/// The summary lines at the top of a preview from the source named `source`.
pub open spec fn preview_head(p: NeteaseSyncPreview, source: Seq<char>) -> Seq<Seq<char>> {
    seq![
        "本次不会修改任何数据。确认后才执行。"@,
        ""@,
        "↑ 上传到"@ + source + "  "@ + decimal(p.upload as nat) + " 首"@,
        count_line("↓ 下载到本地      "@, p.download, " 首"@),
        count_line("= 已匹配          "@, p.matched, " 首"@),
        count_line("? 未匹配          "@, p.unmatched, " 首"@),
        count_line("收藏：↑ "@, p.favorites_upload, " / ↓ "@) + decimal(p.favorites_download as nat),
        count_line(
            "歌单：名称映射 "@,
            (if p.playlists@.len() >= p.local_only { p.playlists@.len() - p.local_only } else { 0 }) as usize,
            " 个，本地独有 "@,
        ) + count_line(""@, p.local_only, "，网易云独有 "@) + decimal(p.remote_only as nat),
        ""@,
    ]
}

/// The lines of a preview from the source named `source` on a dialog
/// `height` rows high.
pub open spec fn preview_lines(p: NeteaseSyncPreview, source: Seq<char>, height: u16) -> Seq<Seq<char>> {
    let n = p.playlists@.len() as int;
    let listed = if n <= listed_playlists(height) { n } else { listed_playlists(height) };
    preview_head(p, source) + Seq::new(listed as nat, |i: int| diff_line(p.playlists@[i])) + unmatched_lines(p.unmatched_songs@)
        + seq![""@, "[Enter/S] 确认执行    [Esc] 取消"@]
}

/// Number of `#` of a progress bar `width` columns wide after `done` of
/// `total` steps.
pub open spec fn filled_cells(width: int, done: usize, total: usize) -> int {
    if total == 0 {
        0
    } else {
        let d: int = if done <= total { done as int } else { total as int };
        let product: int = if width * d <= usize::MAX { width * d } else { usize::MAX as int };
        product / (total as int)
    }
}

/// The lines of the dialog in state `s`, for the source named `source`, on
/// an inside of `width` by `height` cells, `done` of `total` songs being
/// synchronised.
pub open spec fn overlay_lines(s: SyncUiState, source: Seq<char>, width: u16, height: u16, done: usize, total: usize) -> Seq<Seq<char>> {
    match s.phase {
        SyncPhase::Preparing => seq!["正在读取网易云与本地歌单并计算 Diff..."@],
        SyncPhase::Preview => match s.preview {
            Some(p) => preview_lines(p, source, height),
            None => Seq::empty(),
        },
        SyncPhase::Running => {
            let bar = if width >= 4 { width - 4 } else { 0 };
            let filled = filled_cells(bar, done, total);
            seq![
                "正在同步，不会自动删除歌曲。"@,
                count_line("进度  "@, done, "/"@) + decimal(total as nat),
                seq!['['] + Seq::new(filled as nat, |i: int| '#') + Seq::new((if bar >= filled { bar - filled } else { 0 }) as nat, |i: int| '-') + seq![']'],
                "[Esc] 取消"@,
            ]
        },
        SyncPhase::Done => match s.report {
            Some(r) => seq![
                "网易云同步完成"@,
                count_line("歌单创建 "@, r.playlists_created, " · 拉取 "@) + count_line(""@, r.songs_pulled, " · 推送 "@) + decimal(r.songs_pushed as nat),
                count_line("收藏拉取 "@, r.favorites_pulled, " · 收藏推送 "@) + count_line(""@, r.favorites_pushed, " · 未匹配 "@) + decimal(r.unmatched as nat),
                "[Enter/Esc] 返回"@,
            ],
            None => Seq::empty(),
        },
        SyncPhase::Failed | SyncPhase::Cancelled => seq![
            if s.phase == SyncPhase::Cancelled { "同步已取消"@ } else { "同步失败"@ },
            match s.error {
                Some(e) => e@,
                None => "未知错误"@,
            },
            ""@,
            "[R] 重试预览    [Esc] 返回"@,
        ],
    }
}

/// The views of lines.
pub open spec fn lines_view(v: Seq<String>) -> Seq<Seq<char>> {
    v.map_values(|s: String| s@)
}

/// `prefix`, `n` in decimal, then `suffix`.
fn count_text(prefix: &str, n: usize, suffix: &str) -> (r: String)
    ensures
        r@ == count_line(prefix@, n, suffix@),
{
    let mut s = to_owned_string(prefix);
    push_decimal(&mut s, n as u64);
    push_str(&mut s, suffix);
    s
}

/// Appends `line` to `lines`.
fn push_line(lines: &mut Vec<String>, line: String)
    ensures
        lines_view(final(lines)@) == lines_view(old(lines)@).push(line@),
{
    let ghost before = lines@;
    lines.push(line);
    assert(lines_view(lines@) =~= lines_view(before).push(line@));
}

/// Appends the unmatched songs (see [`unmatched_lines`]).
fn push_unmatched(lines: &mut Vec<String>, songs: &Vec<(String, String)>)
    ensures
        lines_view(final(lines)@) == lines_view(old(lines)@) + unmatched_lines(songs@),
{
    if songs.len() == 0 {
        assert(lines_view(lines@) =~= lines_view(old(lines)@) + unmatched_lines(songs@));
        return;
    }
    push_line(lines, to_owned_string(""));
    push_line(lines, to_owned_string("未匹配歌曲："));
    let shown = if songs.len() <= 5 { songs.len() } else { 5 };
    let ghost base = lines_view(lines@);
    let mut i: usize = 0;
    while i < shown
        invariant
            i <= shown <= songs.len(),
            shown == if songs@.len() <= 5 { songs@.len() as int } else { 5 },
            lines_view(lines@) == base + Seq::new(i as nat, |k: int| unmatched_line(songs@[k])),
        decreases shown - i,
    {
        let mut s = to_owned_string("  ? ");
        push_str(&mut s, songs[i].0.as_str());
        push_str(&mut s, " — ");
        push_str(&mut s, songs[i].1.as_str());
        push_line(lines, s);
        assert(Seq::new((i + 1) as nat, |k: int| unmatched_line(songs@[k])) =~= Seq::new(i as nat, |k: int| unmatched_line(songs@[k])).push(unmatched_line(songs@[i as int])));
        i += 1;
    }
    if songs.len() > 5 {
        push_line(lines, count_text("  ... 还有 ", songs.len() - 5, " 首"));
    }
    proof {
        reveal_strlit("");
    }
    assert(lines_view(lines@) =~= lines_view(old(lines)@) + unmatched_lines(songs@));
}

/// The summary lines of a preview (see [`preview_head`]).
fn preview_head_text(p: &NeteaseSyncPreview, source: &str) -> (r: Vec<String>)
    ensures
        lines_view(r@) == preview_head(*p, source@),
{
    let mut lines: Vec<String> = Vec::new();
    push_line(&mut lines, to_owned_string("本次不会修改任何数据。确认后才执行。"));
    push_line(&mut lines, to_owned_string(""));
    let mut up = to_owned_string("↑ 上传到");
    push_str(&mut up, source);
    push_str(&mut up, "  ");
    push_decimal(&mut up, p.upload as u64);
    push_str(&mut up, " 首");
    push_line(&mut lines, up);
    push_line(&mut lines, count_text("↓ 下载到本地      ", p.download, " 首"));
    push_line(&mut lines, count_text("= 已匹配          ", p.matched, " 首"));
    push_line(&mut lines, count_text("? 未匹配          ", p.unmatched, " 首"));
    let mut fav = count_text("收藏：↑ ", p.favorites_upload, " / ↓ ");
    push_decimal(&mut fav, p.favorites_download as u64);
    push_line(&mut lines, fav);
    let mapped = p.playlists.len().saturating_sub(p.local_only);
    let mut pl = count_text("歌单：名称映射 ", mapped, " 个，本地独有 ");
    let local = count_text("", p.local_only, "，网易云独有 ");
    push_str(&mut pl, local.as_str());
    push_decimal(&mut pl, p.remote_only as u64);
    push_line(&mut lines, pl);
    push_line(&mut lines, to_owned_string(""));
    assert(lines_view(lines@) =~= preview_head(*p, source@));
    lines
}

/// The lines of a preview (see [`preview_lines`]).
fn preview_text(p: &NeteaseSyncPreview, source: &str, height: u16) -> (r: Vec<String>)
    ensures
        lines_view(r@) == preview_lines(*p, source@, height),
{
    let mut lines = preview_head_text(p, source);
    let room = height.saturating_sub(10) as usize;
    let listed = if p.playlists.len() <= room { p.playlists.len() } else { room };
    let ghost base = lines_view(lines@);
    let mut i: usize = 0;
    while i < listed
        invariant
            i <= listed <= p.playlists.len(),
            lines_view(lines@) == base + Seq::new(i as nat, |k: int| diff_line(p.playlists@[k])),
        decreases listed - i,
    {
        let d = &p.playlists[i];
        let mut s = to_owned_string("  ");
        push_str(&mut s, d.name.as_str());
        push_str(&mut s, "  ↑");
        push_decimal(&mut s, d.upload as u64);
        push_str(&mut s, " ↓");
        push_decimal(&mut s, d.download as u64);
        push_str(&mut s, " =");
        push_decimal(&mut s, d.matched as u64);
        push_str(&mut s, " ?");
        push_decimal(&mut s, d.unmatched as u64);
        push_str(&mut s, " [");
        push_str(&mut s, d.mapping.as_str());
        push_str(&mut s, "]");
        push_line(&mut lines, s);
        assert(Seq::new((i + 1) as nat, |k: int| diff_line(p.playlists@[k])) =~= Seq::new(i as nat, |k: int| diff_line(p.playlists@[k])).push(diff_line(p.playlists@[i as int])));
        i += 1;
    }
    push_unmatched(&mut lines, &p.unmatched_songs);
    push_line(&mut lines, to_owned_string(""));
    push_line(&mut lines, to_owned_string("[Enter/S] 确认执行    [Esc] 取消"));
    proof {
        reveal_strlit("");
    }
    assert(lines_view(lines@) =~= preview_lines(*p, source@, height));
    lines
}

/// `n` copies of `c` appended to `s`.
fn push_repeated(s: &mut String, c: char, n: usize)
    ensures
        final(s)@ == old(s)@ + Seq::new(n as nat, |i: int| c),
{
    let mut i: usize = 0;
    while i < n
        invariant
            i <= n,
            s@ == old(s)@ + Seq::new(i as nat, |k: int| c),
        decreases n - i,
    {
        push_char(s, c);
        assert(Seq::new((i + 1) as nat, |k: int| c) =~= Seq::new(i as nat, |k: int| c).push(c));
        i += 1;
    }
}

/// The lines of the dialog (see [`overlay_lines`]).
pub fn overlay_text(s: &SyncUiState, source: &str, width: u16, height: u16, done: usize, total: usize) -> (r: Vec<String>)
    ensures
        lines_view(r@) == overlay_lines(*s, source@, width, height, done, total),
{
    let mut lines: Vec<String> = Vec::new();
    match s.phase {
        SyncPhase::Preparing => {
            push_line(&mut lines, to_owned_string("正在读取网易云与本地歌单并计算 Diff..."));
        },
        SyncPhase::Preview => match &s.preview {
            Some(p) => {
                lines = preview_text(p, source, height);
            },
            None => {},
        },
        SyncPhase::Running => {
            push_line(&mut lines, to_owned_string("正在同步，不会自动删除歌曲。"));
            let mut progress = count_text("进度  ", done, "/");
            push_decimal(&mut progress, total as u64);
            push_line(&mut lines, progress);
            let bar = width.saturating_sub(4) as usize;
            let filled = if total == 0 {
                0
            } else {
                let d = if done <= total { done } else { total };
                assert((bar as int) * (d as int) <= 65535 * 0xFFFF_FFFF_FFFF_FFFFint) by (nonlinear_arith)
                    requires
                        bar <= 65535,
                        d <= 0xFFFF_FFFF_FFFF_FFFFint,
                ;
                let wide: u128 = (bar as u128) * (d as u128);
                let product: usize = if wide <= usize::MAX as u128 { wide as usize } else { usize::MAX };
                product / total
            };
            let mut b = to_owned_string("[");
            push_repeated(&mut b, '#', filled);
            push_repeated(&mut b, '-', bar.saturating_sub(filled));
            push_str(&mut b, "]");
            proof {
                reveal_strlit("[");
                reveal_strlit("]");
            }
            assert(filled == filled_cells(bar as int, done, total));
            assert(b@ =~= seq!['['] + Seq::new(filled as nat, |i: int| '#') + Seq::new((if bar >= filled { bar - filled } else { 0 }) as nat, |i: int| '-') + seq![']']);
            push_line(&mut lines, b);
            push_line(&mut lines, to_owned_string("[Esc] 取消"));
            assert(lines_view(lines@) =~= overlay_lines(*s, source@, width, height, done, total));
        },
        SyncPhase::Done => match &s.report {
            Some(r) => {
                push_line(&mut lines, to_owned_string("网易云同步完成"));
                let mut a = count_text("歌单创建 ", r.playlists_created, " · 拉取 ");
                let b = count_text("", r.songs_pulled, " · 推送 ");
                push_str(&mut a, b.as_str());
                push_decimal(&mut a, r.songs_pushed as u64);
                push_line(&mut lines, a);
                let mut c = count_text("收藏拉取 ", r.favorites_pulled, " · 收藏推送 ");
                let d = count_text("", r.favorites_pushed, " · 未匹配 ");
                push_str(&mut c, d.as_str());
                push_decimal(&mut c, r.unmatched as u64);
                push_line(&mut lines, c);
                push_line(&mut lines, to_owned_string("[Enter/Esc] 返回"));
                assert(lines_view(lines@) =~= overlay_lines(*s, source@, width, height, done, total));
            },
            None => {},
        },
        SyncPhase::Failed | SyncPhase::Cancelled => {
            push_line(
                &mut lines,
                if s.phase == SyncPhase::Cancelled {
                    to_owned_string("同步已取消")
                } else {
                    to_owned_string("同步失败")
                },
            );
            push_line(
                &mut lines,
                match &s.error {
                    Some(e) => e.clone(),
                    None => to_owned_string("未知错误"),
                },
            );
            push_line(&mut lines, to_owned_string(""));
            push_line(&mut lines, to_owned_string("[R] 重试预览    [Esc] 返回"));
            proof {
                reveal_strlit("");
            }
            assert(lines_view(lines@) =~= overlay_lines(*s, source@, width, height, done, total));
        },
    }
    assert(lines_view(lines@) =~= overlay_lines(*s, source@, width, height, done, total));
    lines
}

/// The title of the dialog (see [`overlay_title`]).
pub fn overlay_title_text(source: &str) -> (r: String)
    ensures
        r@ == overlay_title(source@),
{
    let mut s = to_owned_string("同步预览 Diff · ");
    push_str(&mut s, source);
    s
}

} // verus!
