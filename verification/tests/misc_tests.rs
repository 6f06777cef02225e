use voicefox::library::favorite_playlists::{FavoritePlaylists, Playlist};
use voicefox::source::AudioProperties;
use voicefox::download::{fake_audio, needs_shrink, pick_cover, DownloadMetadata, COVER_SHRINK_THRESHOLD};
use voicefox::source::{Quality, SourceId};
use voicefox::source_api::{ApplicationEventStreamError, FetchError, SearchError};
use voicefox::strings::{decimal_string, utf8_size};
use voicefox::sync::normalize::{normalize_artist, normalize_text};
use voicefox::text::trim_str;
use voicefox::ui::sort::lower_chars;
use voicefox::time::Duration;

#[test]
fn small_covers_are_left_untouched() {
    let cover = vec![1u8; 16];
    assert!(!needs_shrink(&cover));
    assert!(needs_shrink(&vec![0u8; COVER_SHRINK_THRESHOLD + 1]));
    assert_eq!(pick_cover(cover.clone(), Err("decode failed".into())), cover);
    assert_eq!(pick_cover(cover.clone(), Ok(vec![])), cover);
    assert_eq!(pick_cover(cover, Ok(vec![9, 9])), vec![9, 9]);
}

#[test]
fn download_metadata_is_trimmed() {
    let m = DownloadMetadata::new("  晴天 ", " 周杰伦", "叶惠美  ");
    assert_eq!((m.title.as_str(), m.artist.as_str(), m.album.as_str()), ("晴天", "周杰伦", "叶惠美"));
    assert!(m.cover.is_none() && m.lyric.is_none());
}

#[test]
fn sample_audio_starts_with_the_flac_magic() {
    let audio = fake_audio(300);
    assert_eq!(&audio[..4], b"fLaC");
    assert_eq!(audio.len(), 304);
    assert_eq!(audio[4 + 252], 1);
}

#[test]
fn error_messages_name_their_kind() {
    assert_eq!(SearchError::Network("timeout".into()).message(), "network error: timeout");
    assert_eq!(FetchError::NotFound.message(), "not found");
    assert_eq!(FetchError::Other("x".into()).message(), "x");
    assert_eq!(ApplicationEventStreamError::Lagged(3).message(), "application event stream lagged by 3 events");
    assert_eq!(ApplicationEventStreamError::Closed.message(), "application event stream closed");
}

#[test]
fn source_names_and_quality_labels_are_stable() {
    assert_eq!(SourceId::Bili.as_str(), "bili");
    assert_eq!(SourceId::from_name("wy"), Some(SourceId::Wy));
    assert_eq!(SourceId::from_name("WY"), None);
    assert_eq!(SourceId::all_online().len(), 6);
    assert_eq!(Quality::Flac.label(), "FLAC");
}

#[test]
fn durations_convert_to_milliseconds() {
    assert_eq!(Duration::from_millis(1_250).as_millis_saturating(), 1_250);
    assert_eq!(Duration::new(2, 500_000_000).as_millis_saturating(), 2_500);
    assert!(Duration::from_secs(1).lt(&Duration::from_millis(1_001)));
    assert!(Duration::from_secs(2).same(&Duration::from_millis(2_000)));
}

#[test]
fn text_helpers_follow_std() {
    assert_eq!(trim_str("\u{3000} a b \n"), "a b");
    assert_eq!(lower_chars("ÀB"), vec!['à', 'b']);
    assert_eq!(utf8_size(&"汉a".chars().collect()), 4);
    assert_eq!(decimal_string(1207), "1207");
    assert_eq!(decimal_string(0), "0");
}

#[test]
fn sync_normalization_ignores_case_and_punctuation() {
    assert_eq!(normalize_text(" Hello World "), "helloworld");
    assert_eq!(normalize_text("A·B"), "ab");
    assert_eq!(normalize_text("【A】"), " a ");
    assert_eq!(normalize_artist("B & A"), normalize_artist("A、B"));
}

use voicefox::download::audio_duration_ok;
use voicefox::library::collection::{backup_version, DATA_BACKUP_VERSION};

#[test]
fn downloaded_audio_length_is_checked_against_the_source() {
    let expected = Duration::from_secs(200);
    assert!(audio_duration_ok(Duration::from_secs(198), expected));
    assert!(!audio_duration_ok(Duration::from_secs(196), expected));
    assert!(audio_duration_ok(Duration::from_secs(201), expected));
    assert!(!audio_duration_ok(Duration::from_secs(204), expected));
    assert!(audio_duration_ok(Duration::zero(), expected));
    assert!(audio_duration_ok(Duration::from_secs(5), Duration::zero()));
}

#[test]
fn backup_versions_are_migrated_or_refused() {
    assert_eq!(backup_version(None), Ok(DATA_BACKUP_VERSION));
    assert_eq!(backup_version(Some(0)), Ok(DATA_BACKUP_VERSION));
    assert_eq!(backup_version(Some(1)), Ok(1));
    assert_eq!(backup_version(Some(2)), Err("不支持的数据版本 2，当前支持版本 1".to_string()));
}

#[test]
fn audio_labels_name_depth_rate_or_bitrate() {
    let lossless = AudioProperties { bitrate: Some(900), sample_rate: Some(44100), bit_depth: Some(16), lossless: true };
    assert_eq!(lossless.label("44.1"), Some("16/44.1".to_string()));
    let no_depth = AudioProperties { bit_depth: None, ..lossless };
    assert_eq!(no_depth.label("44.1"), Some("44.1kHz".to_string()));
    let no_rate = AudioProperties { sample_rate: None, ..lossless };
    assert_eq!(no_rate.label(""), None);
    let lossy = AudioProperties { bitrate: Some(320), sample_rate: Some(44100), bit_depth: None, lossless: false };
    assert_eq!(lossy.label("44.1"), Some("320K".to_string()));
    assert_eq!(AudioProperties { bitrate: None, ..lossy }.label("44.1"), None);
}

#[test]
fn favourite_playlists_are_known_by_id_and_source() {
    let p = |id: &str, source| Playlist { id: id.to_string(), name: format!("歌单{id}"), source };
    let mut favorites = FavoritePlaylists::new();
    assert!(favorites.add_favorite_playlist(&p("1", SourceId::Wy)));
    assert!(!favorites.add_favorite_playlist(&p("1", SourceId::Wy)));
    assert!(favorites.add_favorite_playlist(&p("1", SourceId::Kw)));
    assert!(favorites.is_favorite_playlist(&p("1", SourceId::Kw)));
    assert!(favorites.remove_favorite_playlist(&p("1", SourceId::Wy)));
    assert!(!favorites.remove_favorite_playlist(&p("1", SourceId::Wy)));
    let left = favorites.load_favorite_playlists();
    assert_eq!(left.len(), 1);
    assert_eq!(left[0].source, SourceId::Kw);
    assert_eq!(left[0].name, "歌单1");
}
