use voicefox::events::InsertPosition;
use voicefox::keybinding::config::{Action, KeybindingConfig};
use voicefox::keybinding::keys::{KeyCode, KeyEvent, KeyModifiers};
use voicefox::keybinding::resolver::KeybindingResolver;
use voicefox::song::{SongInfo, EXTRA_FILE_MODIFIED_UNIX_NANOS};
use voicefox::source::SourceId;
use voicefox::time::Duration;
use voicefox::ui::context_menu::{MenuOutcome, Position, SongContextMenu, SongMenuAction, SongMenuKind};
use voicefox::ui::history::{handle_history_input, HistoryOutcome};
use voicefox::ui::list_filter::ListFilter;
use voicefox::ui::queue_keys::{clear_is_confirmed, queue_edit_command, QueueEditCommand};
use voicefox::ui::scroll::ensure_visible;
use voicefox::ui::settings::{
    next_accent, next_cover_protocol, next_fps, next_history_limit, next_network_timeout, next_notification_timeout,
    next_scan_depth, next_scroll_amount, shorten_source, SettingsPage, SETTING_OPTION_KEYS,
};
use voicefox::ui::sort::{sorted_indices, sorted_songs, SortMode, SortState, SortTarget};
use voicefox::ui::text_width::truncate_width;

fn key(code: KeyCode) -> KeyEvent {
    KeyEvent::new(code, KeyModifiers::none())
}

fn default_resolver() -> KeybindingResolver {
    KeybindingResolver::from_config(&KeybindingConfig::default())
}

fn timed_song(id: &str, name: &str, singer: &str, duration: u64) -> SongInfo {
    let mut song = SongInfo::new(id.to_string(), SourceId::Kw, name.to_string(), singer.to_string());
    song.duration = Duration::from_secs(duration);
    song
}

#[test]
fn new_filter_is_inactive_with_empty_query() {
    let f = ListFilter::new();
    assert!(!f.is_active());
    assert_eq!(f.query(), "");
}

#[test]
fn activate_and_deactivate() {
    let mut f = ListFilter::new();
    f.activate();
    assert!(f.is_active());
    f.deactivate();
    assert!(!f.is_active());
    assert_eq!(f.query(), "");
}

#[test]
fn reset_clears_everything() {
    let mut f = ListFilter::new();
    f.activate();
    f.set_query("hello");
    f.reset();
    assert!(!f.is_active());
    assert_eq!(f.query(), "");
}

#[test]
fn handle_input_consumes_when_active() {
    let mut f = ListFilter::new();
    f.activate();

    assert!(f.handle_input(&KeyEvent::from_code(KeyCode::Char('a'))));
    assert_eq!(f.query(), "a");

    assert!(f.handle_input(&KeyEvent::from_code(KeyCode::Backspace)));
    assert_eq!(f.query(), "");

    assert!(f.handle_input(&KeyEvent::from_code(KeyCode::Esc)));
    assert!(!f.is_active());
}

#[test]
fn handle_input_passes_through_when_inactive() {
    let mut f = ListFilter::new();
    assert!(!f.handle_input(&KeyEvent::from_code(KeyCode::Char('a'))));
    assert_eq!(f.query(), "");
}

#[test]
fn keeps_selection_inside_the_window() {
    let mut offset = 0;
    ensure_visible(12, 10, 30, &mut offset);
    assert_eq!(offset, 3);
    ensure_visible(1, 10, 30, &mut offset);
    assert_eq!(offset, 1);
    ensure_visible(5, 10, 30, &mut offset);
    assert_eq!(offset, 1);
}

#[test]
fn empty_list_resets_offset() {
    let mut offset = 7;
    ensure_visible(0, 0, 10, &mut offset);
    assert_eq!(offset, 0);
    ensure_visible(0, 10, 0, &mut offset);
    assert_eq!(offset, 0);
}

#[test]
fn aligns_to_the_last_full_window() {
    let mut offset = 0;
    ensure_visible(29, 10, 30, &mut offset);
    assert_eq!(offset, 20);
}

#[test]
fn borrows_when_within_width() {
    assert_eq!(truncate_width("abc", 5), "abc");
}

#[test]
fn truncates_cjk_by_display_columns() {
    assert_eq!(truncate_width("晴天周杰伦", 5), "晴天…");
    assert_eq!(truncate_width("晴天", 4), "晴天");
    assert_eq!(truncate_width("晴ab", 3), "晴…");
    assert_eq!(truncate_width("晴a", 3), "晴a");
}

#[test]
fn tiny_width_keeps_placeholder() {
    assert_eq!(truncate_width("abc", 1), "…");
    assert_eq!(truncate_width("abc", 0), "");
}

#[test]
fn shortens_unicode_source_path_on_character_boundaries() {
    let path = "/home/user/音乐音源/这是一个很长的第三方音源脚本文件名/latest.js";
    let shortened = shorten_source(path, 24);
    assert_eq!(shortened.chars().count(), 24);
    assert!(shortened.ends_with("..."));
}

#[test]
fn short_sources_are_kept_and_tiny_budgets_are_dots() {
    assert_eq!(shorten_source("abc", 5), "abc");
    assert_eq!(shorten_source("abcdef", 3), "...");
    assert_eq!(shorten_source("abcdef", 2), "..");
}

#[test]
fn settings_page_owns_every_option_key() {
    let resolver = default_resolver();
    for c in SETTING_OPTION_KEYS {
        let event = KeyEvent::new(KeyCode::Char(c), KeyModifiers::none());
        assert!(SettingsPage::consumes_key(&event, &resolver), "{c}");
    }
}

#[test]
fn settings_page_owns_the_configured_list_navigation_keys() {
    let mut config = KeybindingConfig::default();
    config.set_page_binding("settings", Action::ListSelectUp, "h".to_string());
    let resolver = KeybindingResolver::from_config(&config);
    let rebound = KeyEvent::new(KeyCode::Char('h'), KeyModifiers::none());
    let released = KeyEvent::new(KeyCode::Char('k'), KeyModifiers::none());

    assert!(SettingsPage::consumes_key(&rebound, &resolver));
    assert!(!SettingsPage::consumes_key(&released, &resolver));
}

#[test]
fn settings_page_leaves_playback_and_navigation_keys_global() {
    let resolver = default_resolver();
    let global = [
        KeyEvent::new(KeyCode::Char(' '), KeyModifiers::none()),
        KeyEvent::new(KeyCode::Tab, KeyModifiers::none()),
        KeyEvent::new(KeyCode::Esc, KeyModifiers::none()),
        KeyEvent::new(KeyCode::Char('l'), KeyModifiers::control_only()),
        KeyEvent::new(KeyCode::Char('r'), KeyModifiers::control_only()),
        KeyEvent::new(KeyCode::Char(','), KeyModifiers::none()),
        KeyEvent::new(KeyCode::Char('.'), KeyModifiers::none()),
    ];
    for event in global {
        assert!(!SettingsPage::consumes_key(&event, &resolver), "{:?}", event.code);
    }
}

#[test]
fn option_values_step_through_their_cycles() {
    assert_eq!(next_history_limit(100), 200);
    assert_eq!(next_fps(30), 60);
    assert_eq!(next_scroll_amount(1), 3);
    assert_eq!(next_scan_depth(4), 8);
    assert_eq!(next_network_timeout(10), 15);
    assert_eq!(next_notification_timeout(2), 4);
    assert_eq!(next_notification_timeout(9), 2);
    assert_eq!(next_cover_protocol("auto"), "kitty");
    assert_eq!(next_accent("#cba6f7"), "#89b4fa");
    assert_eq!(next_accent("unknown"), "#cba6f7");
}

#[test]
fn favorites_and_history_use_their_storage_order_for_recency() {
    let songs = vec![timed_song("1", "A", "X", 1), timed_song("2", "B", "Y", 2), timed_song("3", "C", "Z", 3)];

    assert_eq!(sorted_indices(&songs, SortMode::Newest, SortTarget::Favorites), vec![2, 1, 0]);
    assert_eq!(sorted_indices(&songs, SortMode::Newest, SortTarget::History), vec![0, 1, 2]);
}

#[test]
fn local_recency_uses_cached_file_modification_time() {
    let mut older = timed_song("1", "older", "X", 1);
    older.extra.push((EXTRA_FILE_MODIFIED_UNIX_NANOS.to_string(), "100".to_string()));
    let mut newer = timed_song("2", "newer", "Y", 2);
    newer.extra.push((EXTRA_FILE_MODIFIED_UNIX_NANOS.to_string(), "200".to_string()));

    let sorted = sorted_songs(vec![older, newer], SortMode::Newest, SortTarget::Local);

    assert_eq!(sorted[0].id, "2");
}

#[test]
fn title_and_duration_modes_sort_the_visible_song_list() {
    let songs = vec![timed_song("1", "beta", "X", 90), timed_song("2", "Alpha", "Y", 30)];

    let by_title = sorted_songs(songs.clone(), SortMode::TitleAsc, SortTarget::Favorites);
    let by_duration = sorted_songs(songs, SortMode::DurationDesc, SortTarget::Favorites);

    assert_eq!(by_title[0].name, "Alpha");
    assert_eq!(by_duration[0].duration.as_secs(), 90);
}

#[test]
fn sort_modes_cycle_through_all_nine_and_reset_the_position() {
    let mut state = SortState::new(SortMode::Newest);
    state.selected = 4;
    state.scroll = 2;
    assert_eq!(state.cycle(), SortMode::Oldest);
    assert_eq!((state.selected, state.scroll), (0, 0));
    for _ in 0..8 {
        state.cycle();
    }
    assert_eq!(state.mode, SortMode::Newest);
}

#[test]
fn queue_reorder_shortcuts_accept_terminal_shift_variants() {
    for key in [
        KeyEvent::new(KeyCode::Up, KeyModifiers::shift_only()),
        KeyEvent::new(KeyCode::Char('K'), KeyModifiers::shift_only()),
        KeyEvent::new(KeyCode::Char('k'), KeyModifiers::shift_only()),
        KeyEvent::new(KeyCode::Char('K'), KeyModifiers::none()),
    ] {
        assert_eq!(queue_edit_command(&key), Some(QueueEditCommand::MoveUp));
    }

    for key in [
        KeyEvent::new(KeyCode::Down, KeyModifiers::shift_only()),
        KeyEvent::new(KeyCode::Char('J'), KeyModifiers::shift_only()),
        KeyEvent::new(KeyCode::Char('j'), KeyModifiers::shift_only()),
        KeyEvent::new(KeyCode::Char('J'), KeyModifiers::none()),
    ] {
        assert_eq!(queue_edit_command(&key), Some(QueueEditCommand::MoveDown));
    }
}

#[test]
fn queue_delete_shortcuts_distinguish_one_song_from_the_whole_queue() {
    for key in [
        KeyEvent::new(KeyCode::Char('d'), KeyModifiers::none()),
        KeyEvent::new(KeyCode::Delete, KeyModifiers::none()),
    ] {
        assert_eq!(queue_edit_command(&key), Some(QueueEditCommand::RemoveSelected));
    }

    for key in [
        KeyEvent::new(KeyCode::Char('D'), KeyModifiers::shift_only()),
        KeyEvent::new(KeyCode::Char('d'), KeyModifiers::shift_only()),
        KeyEvent::new(KeyCode::Char('D'), KeyModifiers::none()),
    ] {
        assert_eq!(queue_edit_command(&key), Some(QueueEditCommand::Clear));
    }
}

#[test]
fn clearing_the_queue_needs_a_second_press_within_five_seconds() {
    assert!(!clear_is_confirmed(None));
    assert!(clear_is_confirmed(Some(Duration::from_secs(5))));
    assert!(clear_is_confirmed(Some(Duration::from_millis(300))));
    assert!(!clear_is_confirmed(Some(Duration::new(5, 1))));
    assert_eq!(queue_edit_command(&key(KeyCode::Char('x'))), None);
}

#[test]
fn history_keys_move_the_selection_and_wrap_when_asked() {
    let resolver = default_resolver();
    let mut state = SortState::new(SortMode::Newest);
    let outcome = handle_history_input(&key(KeyCode::Up), 3, &mut state, &resolver, true, false);
    assert_eq!(outcome, HistoryOutcome::Nothing);
    assert_eq!(state.selected, 2);
    handle_history_input(&key(KeyCode::Down), 3, &mut state, &resolver, true, false);
    assert_eq!(state.selected, 0);
    handle_history_input(&key(KeyCode::Up), 3, &mut state, &resolver, false, false);
    assert_eq!(state.selected, 0);
    handle_history_input(&key(KeyCode::End), 3, &mut state, &resolver, false, false);
    assert_eq!(state.selected, 2);
    handle_history_input(&key(KeyCode::PageUp), 3, &mut state, &resolver, false, false);
    assert_eq!(state.selected, 0);
    handle_history_input(&key(KeyCode::PageDown), 30, &mut state, &resolver, false, false);
    assert_eq!(state.selected, 10);
}

#[test]
fn history_keys_queue_play_and_sort() {
    let resolver = default_resolver();
    let mut state = SortState::new(SortMode::Newest);
    state.selected = 1;
    assert_eq!(
        handle_history_input(&key(KeyCode::Char('a')), 3, &mut state, &resolver, false, false),
        HistoryOutcome::AddToQueue { index: 1, position: InsertPosition::End }
    );
    assert_eq!(
        handle_history_input(&KeyEvent::new(KeyCode::Char('A'), KeyModifiers::shift_only()), 3, &mut state, &resolver, false, false),
        HistoryOutcome::AddToQueue { index: 1, position: InsertPosition::Next }
    );
    assert_eq!(
        handle_history_input(&key(KeyCode::Enter), 3, &mut state, &resolver, false, true),
        HistoryOutcome::Play { index: 1 }
    );
    assert_eq!(
        handle_history_input(&key(KeyCode::Char('s')), 3, &mut state, &resolver, false, false),
        HistoryOutcome::SortChanged(SortMode::Oldest)
    );
    assert_eq!(state.selected, 0);
    assert_eq!(state.mode, SortMode::Oldest);
    assert_eq!(
        handle_history_input(&key(KeyCode::Enter), 0, &mut state, &resolver, false, true),
        HistoryOutcome::Nothing
    );
}

fn songs() -> Vec<SongInfo> {
    vec![timed_song("1", "A", "X", 1), timed_song("2", "B", "Y", 2)]
}

#[test]
fn context_menu_opens_only_on_an_existing_song() {
    assert!(SongContextMenu::new(Position { x: 1, y: 1 }, songs(), 2, SongMenuKind::Standard, false).is_none());
    let menu = SongContextMenu::new(Position { x: 1, y: 1 }, songs(), 1, SongMenuKind::Queue, false).unwrap();
    assert_eq!(menu.song().id, "2");
    assert_eq!(menu.selected(), 0);
    assert_eq!(menu.activate(), MenuOutcome::Action(SongMenuAction::Play));
    assert_eq!(menu.item_count(), 3);
    assert_eq!(menu.item_label(0), "播放");
    assert_eq!(menu.item_label(1), "收藏歌曲");
    assert_eq!(menu.item_label(2), "从队列移除");
    assert_eq!(menu.origin(), Position { x: 1, y: 1 });
    let local = SongContextMenu::new(Position { x: 0, y: 0 }, songs(), 0, SongMenuKind::Local, true).unwrap();
    assert_eq!(local.item_label(3), "取消收藏");
    assert_eq!(local.item_label(4), "删除本地文件");
}

#[test]
fn context_menu_keys_wrap_and_close() {
    let resolver = default_resolver();
    let mut menu = SongContextMenu::new(Position { x: 0, y: 0 }, songs(), 0, SongMenuKind::Standard, true).unwrap();
    let n = menu.item_count();
    assert_eq!(menu.handle_key(&key(KeyCode::Up), &resolver, "main"), MenuOutcome::Unchanged);
    assert_eq!(menu.selected(), n - 1);
    assert_eq!(menu.handle_key(&key(KeyCode::Down), &resolver, "main"), MenuOutcome::Unchanged);
    assert_eq!(menu.selected(), 0);
    assert_eq!(menu.handle_key(&key(KeyCode::Esc), &resolver, "main"), MenuOutcome::Close);
    assert_eq!(menu.handle_key(&key(KeyCode::Enter), &resolver, "main"), MenuOutcome::Action(SongMenuAction::Play));
}

use voicefox::ui::main_keys::{filtered_indices, MainCommand, MainPageKeys};

fn queue() -> Vec<SongInfo> {
    vec![
        timed_song("1", "晴天", "周杰伦", 1),
        timed_song("2", "Hello", "Adele", 2),
        timed_song("3", "稻香", "周杰伦", 3),
    ]
}

fn main_key(keys: &mut MainPageKeys, event: KeyEvent, songs: &[SongInfo]) -> MainCommand {
    keys.handle_input(&event, songs, 0, &default_resolver(), false, event.code == KeyCode::Enter, Duration::from_secs(60))
}

#[test]
fn queue_filter_matches_title_singer_and_album_ignoring_case() {
    let songs = queue();
    assert_eq!(filtered_indices(&songs, ""), vec![0, 1, 2]);
    assert_eq!(filtered_indices(&songs, " 周杰伦 "), vec![0, 2]);
    assert_eq!(filtered_indices(&songs, "ADELE"), vec![1]);
    assert_eq!(filtered_indices(&songs, "zzz"), Vec::<usize>::new());
}

#[test]
fn typing_a_queue_filter_selects_the_first_match() {
    let songs = queue();
    let mut keys = MainPageKeys::new();
    keys.selected = 1;
    assert_eq!(main_key(&mut keys, key(KeyCode::Char('/')), &songs), MainCommand::Nothing);
    assert!(keys.queue_filter_active);
    for c in "稻".chars() {
        main_key(&mut keys, key(KeyCode::Char(c)), &songs);
    }
    assert_eq!(keys.selected, 2);
    main_key(&mut keys, key(KeyCode::Enter), &songs);
    assert!(!keys.queue_filter_active);
    assert_eq!(keys.queue_filter, "稻");
    assert_eq!(main_key(&mut keys, key(KeyCode::Enter), &songs), MainCommand::Play(2));
}

#[test]
fn queue_edits_move_remove_and_clear_with_confirmation() {
    let songs = queue();
    let mut keys = MainPageKeys::new();
    keys.selected = 1;
    assert_eq!(
        main_key(&mut keys, KeyEvent::new(KeyCode::Up, KeyModifiers::shift_only()), &songs),
        MainCommand::MoveItem { from: 1, to: 0 }
    );
    assert_eq!(keys.selected, 0);
    assert_eq!(main_key(&mut keys, key(KeyCode::Char('d')), &songs), MainCommand::RemoveAt(0));
    assert_eq!(main_key(&mut keys, key(KeyCode::Char('D')), &songs), MainCommand::ArmClear);
    assert!(keys.clear_armed);
    main_key(&mut keys, key(KeyCode::Esc), &songs);
    assert!(!keys.clear_armed);
    // After Esc the page is not armed: a quick second key only arms it again.
    let again = keys.handle_input(&key(KeyCode::Char('D')), &songs, 0, &default_resolver(), false, false, Duration::from_secs(1));
    assert_eq!(again, MainCommand::ArmClear);
    // Armed, but the second key comes too late: it arms again.
    let late = keys.handle_input(&key(KeyCode::Char('D')), &songs, 0, &default_resolver(), false, false, Duration::new(5, 1));
    assert_eq!(late, MainCommand::ArmClear);
    assert!(keys.clear_armed);
    let confirmed = keys.handle_input(&key(KeyCode::Char('D')), &songs, 0, &default_resolver(), false, false, Duration::from_secs(5));
    assert_eq!(confirmed, MainCommand::ClearQueue);
    assert!(!keys.clear_armed);
}

#[test]
fn lyrics_toggle_and_a_stale_selection_goes_to_the_current_song() {
    let songs = queue();
    let mut keys = MainPageKeys::new();
    keys.selected = 9;
    let r = keys.handle_input(&key(KeyCode::Char('v')), &songs, 1, &default_resolver(), false, false, Duration::from_secs(60));
    assert_eq!(r, MainCommand::Nothing);
    assert!(keys.lyric_fullscreen);
    assert_eq!(keys.selected, 1);
    keys.after_removal(2, 2);
    assert_eq!(keys.selected, 1);
    keys.resizing = true;
    assert_eq!(main_key(&mut keys, key(KeyCode::Esc), &songs), MainCommand::CancelResize);
    assert!(!keys.resizing);
}

#[test]
fn bound_navigation_moves_through_the_visible_songs() {
    let songs = queue();
    let mut keys = MainPageKeys::new();
    keys.queue_filter = "周杰伦".to_string();
    main_key(&mut keys, key(KeyCode::Char('j')), &songs);
    assert_eq!(keys.selected, 2);
    main_key(&mut keys, key(KeyCode::Char('j')), &songs);
    assert_eq!(keys.selected, 2);
    main_key(&mut keys, key(KeyCode::Char('k')), &songs);
    assert_eq!(keys.selected, 0);
    assert_eq!(main_key(&mut keys, key(KeyCode::Char('f')), &songs), MainCommand::ToggleFavorite(0));
}

use voicefox::ui::sort::SortedListCache;

#[test]
fn sorted_list_cache_rebuilds_only_when_the_data_or_mode_changes() {
    let builds = std::cell::Cell::new(0);
    let source = || {
        builds.set(builds.get() + 1);
        vec![timed_song("1", "beta", "X", 90), timed_song("2", "Alpha", "Y", 30)]
    };
    let mut cache = SortedListCache::new();
    assert_eq!(cache.get_or_build(1, SortMode::TitleAsc, SortTarget::Favorites, source)[0].name, "Alpha");
    assert_eq!(cache.get_or_build(1, SortMode::TitleAsc, SortTarget::Favorites, source).len(), 2);
    assert_eq!(builds.get(), 1);
    assert_eq!(cache.get_or_build(1, SortMode::DurationDesc, SortTarget::Favorites, source)[0].name, "beta");
    assert_eq!(builds.get(), 2);
    cache.get_or_build(2, SortMode::DurationDesc, SortTarget::Favorites, source);
    assert_eq!(builds.get(), 3);
}
