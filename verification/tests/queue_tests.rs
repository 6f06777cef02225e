use voicefox::application::{ApplicationEvent, ApplicationEventKind};
use voicefox::events::InsertPosition;
use voicefox::player::{AbLoop, ChannelMode, ReplayGainMode};
use voicefox::queue::{PlayMode, PlaylistManager, QueueService};
use voicefox::song::SongInfo;
use voicefox::source::{PlayerState, SourceId};
use voicefox::time::Duration;

fn song(id: &str) -> SongInfo {
    SongInfo::new(id.to_string(), SourceId::Kw, id.to_string(), "artist".to_string())
}

fn ids(songs: &[SongInfo]) -> Vec<&str> {
    songs.iter().map(|song| song.id.as_str()).collect()
}

#[test]
fn removing_before_current_keeps_the_same_current_song() {
    let mut playlist = PlaylistManager::new(PlayMode::ListLoop);
    playlist.set_playlist(vec![song("a"), song("b"), song("c")], 2);

    playlist.remove(0);

    let (songs, current) = playlist.snapshot();
    assert_eq!(current, 1);
    assert_eq!(songs[current].id, "c");
}

#[test]
fn removing_current_selects_the_following_song() {
    let mut playlist = PlaylistManager::new(PlayMode::ListLoop);
    playlist.set_playlist(vec![song("a"), song("b"), song("c")], 1);

    playlist.remove(1);

    let (songs, current) = playlist.snapshot();
    assert_eq!(current, 1);
    assert_eq!(songs[current].id, "c");
}

#[test]
fn removing_last_current_song_selects_previous_song() {
    let mut playlist = PlaylistManager::new(PlayMode::ListLoop);
    playlist.set_playlist(vec![song("a"), song("b"), song("c")], 2);

    playlist.remove(2);

    let (songs, current) = playlist.snapshot();
    assert_eq!(current, 1);
    assert_eq!(songs[current].id, "b");
}

#[test]
fn moving_queue_items_preserves_current_song() {
    let mut playlist = PlaylistManager::new(PlayMode::ListLoop);
    playlist.set_playlist(vec![song("a"), song("b"), song("c"), song("d")], 2);

    playlist.move_item(0, 3);

    let (songs, current) = playlist.snapshot();
    assert_eq!(ids(&songs), vec!["b", "c", "d", "a"]);
    assert_eq!(songs[current].id, "c");
}

#[test]
fn appending_song_keeps_the_current_song() {
    let mut playlist = PlaylistManager::new(PlayMode::ListLoop);
    playlist.set_playlist(vec![song("a"), song("b")], 0);

    let inserted = playlist.insert(song("c"), InsertPosition::End);

    let (songs, current) = playlist.snapshot();
    assert_eq!(inserted, 2);
    assert_eq!(ids(&songs), vec!["a", "b", "c"]);
    assert_eq!(songs[current].id, "a");
}

#[test]
fn inserting_next_places_song_after_current() {
    let mut playlist = PlaylistManager::new(PlayMode::ListLoop);
    playlist.set_playlist(vec![song("a"), song("b"), song("c")], 1);

    let inserted = playlist.insert(song("next"), InsertPosition::Next);

    let (songs, current) = playlist.snapshot();
    assert_eq!(inserted, 2);
    assert_eq!(ids(&songs), vec!["a", "b", "next", "c"]);
    assert_eq!(songs[current].id, "b");
}

#[test]
fn inserting_into_empty_queue_selects_the_first_song() {
    let mut playlist = PlaylistManager::new(PlayMode::ListLoop);

    let inserted = playlist.insert(song("a"), InsertPosition::Next);

    let (songs, current) = playlist.snapshot();
    assert_eq!(inserted, 0);
    assert_eq!(current, 0);
    assert_eq!(songs[current].id, "a");
}

#[test]
fn single_loop_repeats_the_selected_bili_part() {
    let mut playlist = PlaylistManager::new(PlayMode::SingleLoop);
    playlist.set_playlist(
        vec![
            SongInfo::new("video-p1".to_string(), SourceId::Bili, "视频 · P1".to_string(), "UP主".to_string()),
            SongInfo::new("video-p2".to_string(), SourceId::Bili, "视频 · P2".to_string(), "UP主".to_string()),
            SongInfo::new("video-p3".to_string(), SourceId::Bili, "视频 · P3".to_string(), "UP主".to_string()),
        ],
        1,
    );

    let (songs, index) = playlist.next_entry(0).expect("single loop has a next entry");

    assert_eq!(index, 1);
    assert_eq!(songs[index].id, "video-p2");
}

#[test]
fn natural_end_respects_list_modes() {
    let mut list_loop = PlaylistManager::new(PlayMode::ListLoop);
    list_loop.set_playlist(vec![song("a"), song("b")], 1);
    assert_eq!(list_loop.next_entry(0).unwrap().1, 0);

    let mut list = PlaylistManager::new(PlayMode::List);
    list.set_playlist(vec![song("a"), song("b")], 0);
    assert_eq!(list.next_entry(0).unwrap().1, 1);
    assert!(list.next_entry(0).is_none());

    let mut stopped = PlaylistManager::new(PlayMode::Once);
    stopped.set_playlist(vec![song("a"), song("b")], 0);
    assert!(stopped.next_entry(0).is_none());
}

#[test]
fn playback_failure_skips_single_loop_song() {
    let mut playlist = PlaylistManager::new(PlayMode::SingleLoop);
    playlist.set_playlist(vec![song("a"), song("b"), song("c")], 0);

    let (songs, index) = playlist.next_after_failure(0).expect("another song should be attempted");

    assert_eq!(index, 1);
    assert_eq!(songs[index].id, "b");
}

#[test]
fn playback_failures_stop_after_one_list_loop_pass() {
    let mut playlist = PlaylistManager::new(PlayMode::ListLoop);
    playlist.set_playlist(vec![song("a"), song("b"), song("c")], 1);

    assert_eq!(playlist.next_after_failure(0).unwrap().1, 2);
    assert_eq!(playlist.next_after_failure(0).unwrap().1, 0);
    assert!(playlist.next_after_failure(0).is_none());
}

#[test]
fn successful_playback_resets_failure_limit() {
    let mut playlist = PlaylistManager::new(PlayMode::ListLoop);
    playlist.set_playlist(vec![song("a"), song("b")], 0);

    assert_eq!(playlist.next_after_failure(0).unwrap().1, 1);
    playlist.mark_playback_started();
    assert_eq!(playlist.next_after_failure(0).unwrap().1, 0);
}

#[test]
fn random_mode_goes_where_the_draw_points() {
    let mut playlist = PlaylistManager::new(PlayMode::Random);
    playlist.set_playlist(vec![song("a"), song("b"), song("c")], 0);
    assert_eq!(playlist.next_entry(2).unwrap().1, 2);
}

#[test]
fn play_modes_cycle_back_to_list_loop() {
    let mut playlist = PlaylistManager::new(PlayMode::ListLoop);
    let mut seen = vec![playlist.mode()];
    for _ in 0..5 {
        seen.push(playlist.cycle_mode());
    }
    assert_eq!(seen.first(), seen.last());
    assert_eq!(seen[0], PlayMode::ListLoop);
}

#[test]
fn clearing_empties_the_queue() {
    let mut playlist = PlaylistManager::new(PlayMode::List);
    playlist.set_playlist(vec![song("a"), song("b")], 1);
    playlist.clear();
    assert_eq!(playlist.len(), 0);
    assert!(playlist.next_entry(0).is_none());
}

#[test]
fn add_next_and_end_keep_current_index_stable() {
    let mut queue = QueueService::new();
    queue.add(song("a"), false);
    queue.add(song("b"), true);
    queue.add(song("c"), false);
    let (songs, index) = queue.snapshot();
    assert_eq!(ids(&songs), vec!["a", "b", "c"]);
    assert_eq!(index, 0);
}

#[test]
fn remove_before_current_adjusts_index() {
    let mut queue = QueueService::new();
    queue.replace(vec![song("a"), song("b"), song("c")], 2);
    queue.remove(0);
    let (songs, index) = queue.snapshot();
    assert_eq!(songs.len(), 2);
    assert_eq!(songs[index].id, "c");
    assert_eq!(index, 1);
}

#[test]
fn removing_outside_the_queue_returns_nothing() {
    let mut queue = QueueService::new();
    queue.replace(vec![song("a")], 0);
    assert!(queue.remove(3).is_none());
    assert_eq!(queue.remove(0).map(|s| s.id), Some("a".to_string()));
}

#[test]
fn event_kind_is_stable_for_frontend_routing() {
    let event = ApplicationEvent::PlaybackPaused;
    assert_eq!(event.kind(), ApplicationEventKind::Playback);
    assert_eq!(event.player_state(), Some(PlayerState::Paused));
}

#[test]
fn queue_and_search_events_have_distinct_kinds() {
    assert_eq!(ApplicationEvent::QueueChanged { queue: vec![], index: 0 }.kind(), ApplicationEventKind::Queue);
    assert_eq!(
        ApplicationEvent::SearchStarted { request_id: 1, keyword: "x".into() }.kind(),
        ApplicationEventKind::Search
    );
}

#[test]
fn ab_loop_requires_a_strictly_positive_range() {
    assert!(AbLoop::new(Duration::from_secs(1), Duration::from_secs(2)).is_some());
    assert!(AbLoop::new(Duration::from_secs(2), Duration::from_secs(2)).is_none());
    assert!(AbLoop::new(Duration::from_secs(3), Duration::from_secs(2)).is_none());
}

#[test]
fn playback_control_types_have_stable_defaults() {
    assert_eq!(ReplayGainMode::default(), ReplayGainMode::Off);
    assert_eq!(ChannelMode::default(), ChannelMode::Auto);
}
