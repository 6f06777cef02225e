use voicefox::naming::{
    detect_extension, download_dir_choice, extension_from_url, normalize_extension, render_filename,
    sanitize_filename, unique_dest, DownloadDir, MAX_NAME_BYTES,
};
use voicefox::song::SongInfo;
use voicefox::source::{Quality, SourceId};

fn song(name: &str, singer: &str, album: &str) -> SongInfo {
    let mut song = SongInfo::new("1".to_string(), SourceId::Kw, name.to_string(), singer.to_string());
    song.album_name = album.to_string();
    song
}

#[test]
fn sanitize_replaces_illegal_characters() {
    assert_eq!(sanitize_filename("AC/DC: Back?in*Black"), "AC DC Back in Black");
    assert_eq!(sanitize_filename("  ..  "), "未命名");
    assert_eq!(sanitize_filename("a   b"), "a b");
}

#[test]
fn sanitize_truncates_long_names_on_char_boundaries() {
    let long = "汉".repeat(200);
    let cleaned = sanitize_filename(&long);
    assert!(cleaned.len() <= MAX_NAME_BYTES);
    assert!(cleaned.chars().all(|character| character == '汉'));
}

#[test]
fn sanitize_keeps_a_short_extension_when_truncating() {
    let long = format!("{}.flac", "a".repeat(300));
    let cleaned = sanitize_filename(&long);
    assert_eq!(cleaned.len(), MAX_NAME_BYTES);
    assert!(cleaned.ends_with(".flac"));
    assert_eq!(sanitize_filename("tab\there"), "tab here");
}

#[test]
fn template_renders_song_fields() {
    let song = song("晴天", "周杰伦", "叶惠美");
    assert_eq!(render_filename("{singer} - {name}", &song, Quality::High320), "周杰伦 - 晴天");
    assert_eq!(render_filename("{album} - {name} ({quality})", &song, Quality::Flac), "叶惠美 - 晴天 (FLAC)");
}

#[test]
fn template_falls_back_when_artist_is_missing() {
    let song = song("晴天", "", "");
    assert_eq!(render_filename("{singer} - {name}", &song, Quality::Flac), "晴天");
    assert_eq!(render_filename("   ", &song, Quality::Flac), "晴天");
}

#[test]
fn template_keeps_unknown_placeholders_and_fills_the_source() {
    let song = song("Song", "Artist", "");
    assert_eq!(render_filename("{source}-{name}-{year}", &song, Quality::Low128), "kw-Song-{year}");
}

#[test]
fn extension_is_read_from_url_without_query() {
    assert_eq!(extension_from_url("https://cdn.example.com/a/b/song.flac?auth=1"), Some("flac".to_string()));
    assert_eq!(extension_from_url("https://cdn.example.com/stream"), None);
}

#[test]
fn extension_from_url_lowercases_and_rejects_non_audio() {
    assert_eq!(extension_from_url("https://x/y/SONG.MP3#frag"), Some("mp3".to_string()));
    assert_eq!(extension_from_url("https://x/y/page.html"), None);
    assert_eq!(extension_from_url("https://x/y/voice.opus"), Some("opus".to_string()));
}

#[test]
fn magic_bytes_win_over_misleading_extension() {
    assert_eq!(detect_extension(b"fLaC\x00\x00"), Some("flac"));
    assert_eq!(detect_extension(b"ID3\x04\x00"), Some("mp3"));
    assert_eq!(detect_extension(b"OggS\x00\x02"), Some("ogg"));
    assert_eq!(detect_extension(b"\x00\x00\x00\x18ftypM4A "), Some("m4a"));
    assert_eq!(detect_extension(b"RIFF\x24\x08\x00\x00WAVE"), Some("wav"));
    assert_eq!(detect_extension(b"<html>"), None);
}

#[test]
fn short_or_frame_sync_headers_are_classified() {
    assert_eq!(detect_extension(b"ID3"), None);
    assert_eq!(detect_extension(&[0xFF, 0xFB, 0x90, 0x00]), Some("mp3"));
    assert_eq!(detect_extension(b"MAC \x00"), Some("ape"));
    assert_eq!(detect_extension(&[0x30, 0x26, 0xB2, 0x75, 0x00]), Some("wma"));
}

#[test]
fn extensions_are_normalized() {
    assert_eq!(normalize_extension(" .MP4 "), "m4a");
    assert_eq!(normalize_extension(""), "mp3");
    assert_eq!(normalize_extension("..Flac"), "flac");
}

#[test]
fn unique_dest_appends_suffix_instead_of_overwriting() {
    let first = unique_dest(&vec![], "song", "flac");
    assert_eq!(first, "song.flac");
    let second = unique_dest(&vec!["song.flac".to_string()], "song", "flac");
    assert_eq!(second, "song (2).flac");
    let third = unique_dest(&vec!["song.flac".to_string(), "song (2).flac".to_string()], "song", ".flac");
    assert_eq!(third, "song (3).flac");
}

#[test]
fn resolve_download_dir_expands_home_and_defaults() {
    match download_dir_choice("~/music-test") {
        DownloadDir::UnderHome { relative, configured } => {
            assert_eq!(relative, "music-test");
            assert_eq!(configured, "~/music-test");
        }
        _ => panic!("a path under the home directory"),
    }
    assert!(matches!(download_dir_choice(""), DownloadDir::Default));
    assert!(matches!(download_dir_choice("   "), DownloadDir::Default));
    match download_dir_choice("$HOME/x") {
        DownloadDir::UnderHome { relative, .. } => assert_eq!(relative, "x"),
        _ => panic!("a path under the home directory"),
    }
    match download_dir_choice(" /data/music ") {
        DownloadDir::Given(path) => assert_eq!(path, "/data/music"),
        _ => panic!("the configured path"),
    }
}

#[test]
fn a_cut_name_never_ends_in_a_space_or_dot() {
    let words = "a ".repeat(100);
    let cut = sanitize_filename(&words);
    assert_eq!(cut.len(), 179);
    assert!(cut.ends_with('a'));
    let dotted = format!("{}{}", "b.".repeat(120), "");
    let cut = sanitize_filename(&format!("{dotted}x"));
    assert!(!cut.ends_with('.') && !cut.ends_with(' '));
    assert!(cut.len() <= 180);
}
