use voicefox::library::collection::{
    ensure_unique_custom_playlist_name, validate_custom_playlist_name, Library, PlaybackSession, SavedPlayerState,
};
use voicefox::library::identity::{
    local_song_matches_path, normalize_singer, normalize_text, same_song_identity, songs_equivalent,
};
use voicefox::library::import::{entry_song, parse_m3u, parse_source_id, split_m3u_label};
use voicefox::library::json_import::parse_playlist_json;
use voicefox::song::SongInfo;
use voicefox::source::SourceId;
use voicefox::time::Duration;

fn song(id: &str, source: SourceId, name: &str, singer: &str) -> SongInfo {
    SongInfo::new(id.to_string(), source, name.to_string(), singer.to_string())
}

fn ids(songs: &[SongInfo]) -> Vec<&str> {
    songs.iter().map(|song| song.id.as_str()).collect()
}

#[test]
fn same_song_from_another_source_matches_favorite() {
    let favorite = song("1", SourceId::Kw, "晴天 (Live)", "周杰伦、五月天");
    let toggled = song("2", SourceId::Kg, "晴天 Live", "五月天 & 周杰伦");

    assert!(songs_equivalent(&favorite, &toggled));
}

#[test]
fn different_singers_do_not_match() {
    let left = song("1", SourceId::Kw, "后来", "刘若英");
    let right = song("2", SourceId::Wy, "后来", "其他歌手");

    assert!(!songs_equivalent(&left, &right));
}

#[test]
fn empty_metadata_does_not_match_across_sources() {
    let left = song("1", SourceId::Kw, "", "");
    let right = song("2", SourceId::Wy, "", "");

    assert!(!songs_equivalent(&left, &right));
}

#[test]
fn missing_singers_do_not_match_across_sources() {
    let left = song("1", SourceId::Kw, "纯音乐", "");
    let right = song("2", SourceId::Wy, "纯音乐", "");

    assert!(!songs_equivalent(&left, &right));
}

#[test]
fn empty_song_ids_do_not_collapse_unrelated_tracks() {
    let first = song("", SourceId::Kw, "First", "Artist");
    let second = song("", SourceId::Kw, "Second", "Artist");

    assert!(!same_song_identity(&first, &second));
}

#[test]
fn equivalence_is_symmetric_on_an_example() {
    let a = song("1", SourceId::Kw, "晴天 (Live)", "周杰伦、五月天");
    let b = song("2", SourceId::Kg, "晴天 Live", "五月天 & 周杰伦");
    assert_eq!(songs_equivalent(&a, &b), songs_equivalent(&b, &a));
    assert!(songs_equivalent(&a, &a));
}

#[test]
fn titles_and_singers_are_normalized() {
    assert_eq!(normalize_text("晴天 (Live)!"), "晴天live");
    assert_eq!(normalize_singer("五月天 & 周杰伦"), normalize_singer("周杰伦、五月天"));
}

#[test]
fn local_songs_match_their_file_path_or_legacy_id() {
    let mut local = song("x", SourceId::Local, "Local", "Artist");
    local.file_path = Some("/music/a.flac".to_string());
    assert!(local_song_matches_path(&local, "/music/a.flac"));
    let legacy = song("/music/a.flac", SourceId::Local, "Legacy", "Artist");
    assert!(local_song_matches_path(&legacy, "/music/a.flac"));
    let online = song("/music/a.flac", SourceId::Kw, "Online", "Artist");
    assert!(!local_song_matches_path(&online, "/music/a.flac"));
}

#[test]
fn history_limit_delete_and_clear_are_persisted_in_memory() {
    let mut library = Library::new();
    let first = song("1", SourceId::Kw, "One", "Artist");
    let second = song("2", SourceId::Kg, "Two", "Artist");
    let third = song("3", SourceId::Wy, "Three", "Artist");

    library.add_history(&first, 2);
    library.add_history(&second, 2);
    library.add_history(&third, 2);
    assert_eq!(ids(&library.history), vec!["3", "2"]);
    assert!(library.remove_history(&second));
    assert_eq!(library.history.len(), 1);
    assert!(library.clear_history());
    assert!(library.history.is_empty());
    assert!(!library.clear_history());
}

#[test]
fn replaying_a_song_moves_it_to_the_front_of_history() {
    let mut library = Library::new();
    let a = song("a", SourceId::Kw, "A", "X");
    let b = song("b", SourceId::Kw, "B", "X");
    library.add_history(&a, 10);
    library.add_history(&b, 10);
    library.add_history(&a, 10);
    assert_eq!(ids(&library.history), vec!["a", "b"]);
    assert!(library.trim_history(1));
    assert_eq!(ids(&library.history), vec!["a"]);
}

#[test]
fn favorites_are_added_once_and_removed() {
    let mut library = Library::new();
    let a = song("1", SourceId::Kw, "晴天", "周杰伦");
    let same_elsewhere = song("9", SourceId::Kg, "晴天", "周杰伦");
    assert!(library.add_favorite(&a));
    assert!(library.is_favorite(&same_elsewhere));
    assert!(!library.add_favorite(&same_elsewhere));
    assert!(library.remove_favorite(&same_elsewhere));
    assert!(!library.is_favorite(&a));
}

#[test]
fn playback_session_round_trips_and_clamps_the_index() {
    let session = PlaybackSession {
        playlist: vec![song("1", SourceId::Bili, "第一 P", "UP主")],
        current_index: 8,
        position: Duration::from_secs(37),
        state: SavedPlayerState::Paused,
    };

    let restored = session.restored().unwrap();

    assert_eq!(restored.current_index, 0);
    assert_eq!(restored.position.as_secs(), 37);
    assert_eq!(restored.state, SavedPlayerState::Paused);
    let empty = PlaybackSession {
        playlist: vec![],
        current_index: 0,
        position: Duration::zero(),
        state: SavedPlayerState::Playing,
    };
    assert!(empty.restored().is_none());
}

#[test]
fn custom_playlists_store_network_and_local_songs_and_support_editing() {
    let mut library = Library::new();
    assert!(library.create_custom_playlist("   ", "p0".to_string(), 1).is_err());
    let playlist = library.create_custom_playlist("通勤", "p1".to_string(), 1).unwrap();
    assert!(library.create_custom_playlist("通勤", "p2".to_string(), 2).is_err());
    let network = song("network", SourceId::Wy, "Network", "Artist");
    let mut local = song("local", SourceId::Local, "Local", "Artist");
    local.file_path = Some("/data/local.flac".to_string());

    assert!(library.add_song_to_custom_playlist(&playlist.id, &network, 3).unwrap());
    assert!(library.add_song_to_custom_playlist(&playlist.id, &local, 4).unwrap());
    assert!(!library.add_song_to_custom_playlist(&playlist.id, &local, 5).unwrap());
    library.rename_custom_playlist(&playlist.id, "夜间通勤", 6).unwrap();

    let stored = library.custom_playlist(&playlist.id).unwrap();
    assert_eq!(stored.name, "夜间通勤");
    assert_eq!(stored.songs.len(), 2);
    assert_eq!(stored.songs[1].file_path, local.file_path);
    let summaries = library.custom_playlist_summaries();
    assert_eq!(summaries.len(), 1);
    assert_eq!(summaries[0].song_count, 2);
    assert!(library.remove_song_from_custom_playlist(&playlist.id, &network, 7).unwrap());
    assert_eq!(library.custom_playlist(&playlist.id).unwrap().songs.len(), 1);
    assert!(library.delete_custom_playlist(&playlist.id));
    assert!(library.custom_playlist_summaries().is_empty());
    assert!(library.add_song_to_custom_playlist("missing", &network, 8).is_err());
}

#[test]
fn deleting_a_local_file_cleans_all_custom_playlists_and_persists() {
    let mut library = Library::new();
    let first_playlist = library.create_custom_playlist("通勤", "a".to_string(), 1).unwrap();
    let second_playlist = library.create_custom_playlist("夜晚", "b".to_string(), 1).unwrap();
    let path = "/data/local.flac";
    let mut local = song(path, SourceId::Local, "Local", "Artist");
    local.file_path = Some(path.to_string());
    let legacy_local = song(path, SourceId::Local, "Legacy", "Artist");
    library.add_song_to_custom_playlist(&first_playlist.id, &local, 2).unwrap();
    library.add_song_to_custom_playlist(&second_playlist.id, &legacy_local, 2).unwrap();

    assert_eq!(library.remove_local_path_from_custom_playlists(path, 3), 2);
    assert!(library.custom_playlist(&first_playlist.id).unwrap().songs.is_empty());
    assert!(library.custom_playlist(&second_playlist.id).unwrap().songs.is_empty());
}

#[test]
fn playlist_names_are_trimmed_bounded_and_unique() {
    assert_eq!(validate_custom_playlist_name("  通勤  "), Ok("通勤".to_string()));
    assert!(validate_custom_playlist_name("").is_err());
    assert!(validate_custom_playlist_name(&"a".repeat(81)).is_err());
    assert!(validate_custom_playlist_name(&"a".repeat(80)).is_ok());
    let mut library = Library::new();
    let p = library.create_custom_playlist("A", "1".to_string(), 1).unwrap();
    assert!(ensure_unique_custom_playlist_name(&library.custom_playlists, "A", None).is_err());
    assert!(ensure_unique_custom_playlist_name(&library.custom_playlists, "A", Some(&p.id)).is_ok());
    assert!(library.rename_custom_playlist(&p.id, "B", 2).is_ok());
    assert!(library.create_custom_playlist("B", "2".to_string(), 3).is_err());
}

#[test]
fn imports_m3u_and_netease_style_json_into_custom_playlists() {
    let entries = parse_m3u("#EXTM3U\n#EXTINF:123,Artist - Local song\nmissing.flac\n");
    assert_eq!(entries.len(), 1);
    assert_eq!(entries[0].title, "Local song");
    assert_eq!(entries[0].artist, "Artist");
    let songs: Vec<Option<SongInfo>> = entries.iter().map(entry_song).collect();
    let mut library = Library::new();
    let report = library.import_songs("mix", &songs, "imported".to_string(), 1, 7).unwrap();
    assert_eq!(report.imported, 1);
    assert_eq!(library.custom_playlist(&report.playlist_id).unwrap().songs[0].source, SourceId::Local);
    let again = library.import_songs("mix", &songs, "imported-2".to_string(), 2, 8).unwrap();
    assert_ne!(again.playlist_name, report.playlist_name);

    let json = br#"{"playlist": {"tracks": [{"id": 42, "name": "Online", "ar": [{"name": "Singer"}], "al": {"name": "Album"}}]}}"#;
    let found = parse_playlist_json(json).unwrap();
    assert_eq!(found.len(), 1);
    let songs: Vec<Option<SongInfo>> = found.iter().map(|e| entry_song(&e.entry)).collect();
    let report = library.import_songs("netease", &songs, "imported-3".to_string(), 3, 9).unwrap();
    let songs = &library.custom_playlist(&report.playlist_id).unwrap().songs;
    assert_eq!(songs.len(), 1);
    assert_eq!(songs[0].source, SourceId::Wy);
    assert_eq!(songs[0].id, "42");
}

#[test]
fn json_playlists_yield_songs_with_their_fields() {
    let json = br#"[{"title": "A", "artists": ["X", {"name": "Y"}, true], "album_name": " ", "al": {"name": "B"},
        "duration": "oops", "dt": 215000, "platform": "kugou"},
        {"songName": "no artist"}, {"name": "  ", "id": 1},
        {"list": [{"name": "C", "singer": "Z", "url": "c.mp3", "duration": 200}]}]"#;
    let found = parse_playlist_json(json).unwrap();
    assert_eq!(found.len(), 2);
    assert_eq!(found[0].entry.title, "A");
    assert_eq!(found[0].entry.artist, "X、Y");
    assert_eq!(found[0].entry.album, "B");
    assert_eq!(found[0].entry.source, Some(SourceId::Kg));
    assert_eq!(found[0].durations, vec!["oops".to_string(), "215000".to_string()]);
    assert_eq!(found[1].entry.artist, "Z");
    assert_eq!(found[1].entry.url.as_deref(), Some("c.mp3"));
    assert_eq!(found[1].durations, vec!["200".to_string()]);
    let error = parse_playlist_json(b"{").unwrap_err();
    assert!(error.starts_with("歌单 JSON 格式无效: "));
}

#[test]
fn imports_succeed_only_with_kept_songs_and_a_free_name() {
    let mut library = Library::new();
    let none: Vec<Option<SongInfo>> = vec![None];
    assert_eq!(library.import_songs("x", &none, "a".to_string(), 1, 1).unwrap_err(), "歌单中没有可识别的歌曲");
    assert!(library.custom_playlists.is_empty());
    let long = "n".repeat(81);
    let songs = vec![Some(SongInfo::new("1".to_string(), SourceId::Kw, "t".to_string(), "s".to_string()))];
    assert!(library.import_songs(&long, &songs, "b".to_string(), 1, 1).is_err());
    let report = library.import_songs("", &songs, "c".to_string(), 1, 1).unwrap();
    assert_eq!(report.playlist_name, "导入歌单");
}

#[test]
fn m3u_labels_and_source_names_are_read() {
    assert_eq!(split_m3u_label("Artist - Title"), ("Artist".to_string(), "Title".to_string()));
    assert_eq!(parse_source_id("wy"), Some(SourceId::Wy));
    assert_eq!(parse_source_id("unknown"), None);
}
