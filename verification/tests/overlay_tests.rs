use voicefox::sync::overlay::{overlay_text, overlay_title_text};
use voicefox::sync::report::{NeteaseSyncPreview, NeteaseSyncReport, PlaylistDiff, SyncPhase, SyncUiState};

fn state(phase: SyncPhase) -> SyncUiState {
    let mut s = SyncUiState::default();
    s.phase = phase;
    s
}

#[test]
fn preview_lists_counts_playlists_and_unmatched_songs() {
    let mut preview = NeteaseSyncPreview::default();
    preview.upload = 3;
    preview.download = 2;
    preview.matched = 7;
    preview.unmatched = 1;
    preview.favorites_upload = 4;
    preview.favorites_download = 5;
    preview.local_only = 1;
    preview.remote_only = 2;
    let mut diff = PlaylistDiff::default();
    diff.name = "跑步".to_string();
    diff.upload = 1;
    diff.mapping = "新建".to_string();
    preview.playlists = vec![diff.clone(), diff];
    preview.unmatched_songs = (0..6).map(|i| (format!("歌{i}"), "歌手".to_string())).collect();
    let mut s = state(SyncPhase::Preview);
    s.preview = Some(preview);
    let lines = overlay_text(&s, "网易云", 60, 11, 0, 0);
    assert_eq!(lines[0], "本次不会修改任何数据。确认后才执行。");
    assert_eq!(lines[2], "↑ 上传到网易云  3 首");
    assert_eq!(lines[3], "↓ 下载到本地      2 首");
    assert_eq!(lines[6], "收藏：↑ 4 / ↓ 5");
    assert_eq!(lines[7], "歌单：名称映射 1 个，本地独有 1，网易云独有 2");
    // One playlist row fits on a dialog eleven rows high.
    assert_eq!(lines[9], "  跑步  ↑1 ↓0 =0 ?0 [新建]");
    assert_eq!(lines[11], "未匹配歌曲：");
    assert_eq!(lines[12], "  ? 歌0 — 歌手");
    assert_eq!(lines[17], "  ... 还有 1 首");
    assert_eq!(lines.last().unwrap(), "[Enter/S] 确认执行    [Esc] 取消");
    assert_eq!(lines.len(), 20);
}

#[test]
fn running_shows_a_progress_bar() {
    let lines = overlay_text(&state(SyncPhase::Running), "网易云", 14, 10, 5, 10);
    assert_eq!(lines, vec!["正在同步，不会自动删除歌曲。", "进度  5/10", "[#####-----]", "[Esc] 取消"]);
    let empty = overlay_text(&state(SyncPhase::Running), "网易云", 6, 10, 0, 0);
    assert_eq!(empty[2], "[--]");
}

#[test]
fn finished_failed_and_cancelled_dialogs() {
    let mut done = state(SyncPhase::Done);
    let mut report = NeteaseSyncReport::default();
    report.playlists_created = 1;
    report.songs_pulled = 2;
    report.songs_pushed = 3;
    report.unmatched = 4;
    done.report = Some(report);
    let lines = overlay_text(&done, "网易云", 60, 20, 0, 0);
    assert_eq!(lines[1], "歌单创建 1 · 拉取 2 · 推送 3");
    assert_eq!(lines[2], "收藏拉取 0 · 收藏推送 0 · 未匹配 4");
    let failed = overlay_text(&state(SyncPhase::Failed), "网易云", 60, 20, 0, 0);
    assert_eq!(failed, vec!["同步失败", "未知错误", "", "[R] 重试预览    [Esc] 返回"]);
    let mut cancelled = state(SyncPhase::Cancelled);
    cancelled.error = Some("同步已取消".to_string());
    assert_eq!(overlay_text(&cancelled, "网易云", 60, 20, 0, 0)[0], "同步已取消");
    assert_eq!(overlay_text(&state(SyncPhase::Preparing), "网易云", 60, 20, 0, 0).len(), 1);
    assert_eq!(overlay_title_text("网易云"), "同步预览 Diff · 网易云");
}
