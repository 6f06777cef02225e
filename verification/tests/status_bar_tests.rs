use voicefox::source::{PlayerState, Quality};
use voicefox::time::Duration;
use voicefox::ui::status_bar::{format_time, status_segments, StatusBarItem, StatusInfo, StatusSegment};

fn info() -> StatusInfo {
    StatusInfo {
        state: PlayerState::Playing,
        position: Duration::from_secs(65),
        duration: Duration::from_secs(200),
        song: Some(("晴天".to_string(), "周杰伦".to_string())),
        source_name: "kw".to_string(),
        js_source_online: false,
        queue_len: 3,
        queue_index: 1,
        mode_label: "列表循环".to_string(),
        quality: Quality::Flac,
        volume: 75,
        sort_status: None,
    }
}

fn texts(segments: &[StatusSegment]) -> Vec<&str> {
    segments.iter().map(|s| s.text.as_str()).collect()
}

#[test]
fn status_bar_shows_every_segment_that_fits() {
    let items = [
        StatusBarItem::State,
        StatusBarItem::Source,
        StatusBarItem::Sort,
        StatusBarItem::Song,
        StatusBarItem::Time,
        StatusBarItem::Volume,
        StatusBarItem::Quality,
        StatusBarItem::Queue,
        StatusBarItem::JsSourceState,
    ];
    let segments = status_segments(&info(), &items, 200);
    assert_eq!(
        texts(&segments),
        vec![" 播放 ", "音源 kw", "晴天 - 周杰伦", "01:05/03:20", "音量 75%", "FLAC", "队列 2/3", "自定义音源离线"]
    );
    assert_eq!(segments[0].item, StatusBarItem::State);
}

#[test]
fn status_bar_cuts_the_song_and_drops_what_does_not_fit() {
    let items = [StatusBarItem::State, StatusBarItem::Song, StatusBarItem::Time, StatusBarItem::Volume];
    let segments = status_segments(&info(), &items, 20);
    assert_eq!(texts(&segments), vec![" 播放 ", "晴天 - …"]);
    assert!(status_segments(&info(), &items, 0).is_empty());
}

#[test]
fn status_bar_without_a_song_names_the_program() {
    let mut idle = info();
    idle.song = None;
    idle.state = PlayerState::Idle;
    idle.queue_len = 0;
    idle.sort_status = Some("名称".to_string());
    idle.duration = Duration::from_secs(0);
    idle.position = Duration::from_secs(5);
    let items = [
        StatusBarItem::State,
        StatusBarItem::Source,
        StatusBarItem::Song,
        StatusBarItem::Sort,
        StatusBarItem::Queue,
        StatusBarItem::Time,
    ];
    let segments = status_segments(&idle, &items, 120);
    assert_eq!(texts(&segments), vec![" 空闲 ", "音源 -", "voicefox", "排序 名称 (s)", "队列 0/0", "00:05"]);
}

#[test]
fn time_pads_minutes_and_seconds() {
    assert_eq!(format_time(Duration::from_secs(3), Duration::from_secs(0)), "00:03");
    assert_eq!(format_time(Duration::from_secs(6005), Duration::from_secs(61)), "100:05/01:01");
}
