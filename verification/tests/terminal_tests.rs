use voicefox::terminal::{
    art_url, attach_hook_command, channel_name, cover_referer, file_url, hook_name, is_passthrough_env,
    kitten_icat_args, normalize_url, session_target_from, write_kitty_apc, CellArea,
};

#[test]
fn the_session_target_comes_from_the_third_field_of_tmux_env() {
    assert_eq!(session_target_from("/tmp/tmux-1000/default,22518,0"), Some("$0".to_string()));
    assert_eq!(session_target_from("/tmp/tmux-1000/default,22518,17"), Some("$17".to_string()));
}

#[test]
fn a_malformed_tmux_env_yields_no_target() {
    assert_eq!(session_target_from("/tmp/socket,22518"), None);
    assert_eq!(session_target_from("/tmp/socket,22518,"), None);
    assert_eq!(session_target_from("/tmp/socket,22518,zero"), None);
    assert_eq!(session_target_from(""), None);
}

#[test]
fn hook_and_channel_names_carry_the_pid() {
    assert_eq!(hook_name(42), "client-attached[42]");
    assert_eq!(channel_name(42), "voicefox-attached-42");
    assert_eq!(attach_hook_command("chan"), "run-shell -b \"tmux wait-for -S chan\"");
}

#[test]
fn passthrough_is_detected_from_term_or_program() {
    assert!(is_passthrough_env(Some("tmux-256color"), None));
    assert!(is_passthrough_env(Some("xterm-kitty"), Some("tmux")));
    assert!(!is_passthrough_env(Some("xterm-kitty"), Some("WezTerm")));
    assert!(!is_passthrough_env(None, None));
}

#[test]
fn tmux_kitty_apc_escapes_inner_escape_bytes() {
    let mut output = Vec::new();
    write_kitty_apc(&mut output, b"a=d", true);

    assert_eq!(output, b"\x1bPtmux;\x1b\x1b_Ga=d\x1b\x1b\\\x1b\\".to_vec());
}

#[test]
fn kitty_apc_without_tmux_is_written_as_is() {
    let mut output = b"x".to_vec();
    write_kitty_apc(&mut output, b"a=d", false);
    assert_eq!(output, b"x\x1b_Ga=d\x1b\\".to_vec());
}

#[test]
fn kitten_uses_tmux_passthrough_and_exact_placement() {
    let args = kitten_icat_args(
        "/tmp/cover.jpg",
        CellArea { x: 5, y: 8, width: 28, height: 10 },
        Some((120, 40, 1200, 800)),
    );

    assert!(args.contains(&"--passthrough=tmux".to_string()));
    assert!(args.contains(&"--unicode-placeholder".to_string()));
    assert!(args.contains(&"--place=28x10@5x8".to_string()));
    assert!(args.contains(&"--use-window-size=120,40,1200,800".to_string()));
    assert_eq!(args.last(), Some(&"/tmp/cover.jpg".to_string()));
}

#[test]
fn cover_urls_are_normalized_and_get_their_referer() {
    assert_eq!(normalize_url("  //img.example.com/a.jpg "), "https://img.example.com/a.jpg");
    assert_eq!(normalize_url("http://a/b"), "http://a/b");
    assert_eq!(cover_referer("https://img1.kuwo.cn/x.jpg"), Some("https://www.kuwo.cn/"));
    assert_eq!(cover_referer("https://p1.music.126.net/x.jpg"), Some("https://music.163.com/"));
    assert_eq!(cover_referer("https://example.com/x.jpg"), None);
}

#[test]
fn local_cover_path_is_exposed_as_file_uri() {
    assert_eq!(art_url("/tmp/cover.jpg"), "file:///tmp/cover.jpg");
}

#[test]
fn remote_cover_url_is_kept() {
    assert_eq!(art_url("https://a/b.jpg"), "https://a/b.jpg");
    assert_eq!(file_url("/x"), "file:///x");
}

use voicefox::mpris::{micros, track_path, MprisSnapshot};
use voicefox::queue::PlayMode;
use voicefox::song::SongInfo;
use voicefox::source::{PlayerState, SourceId};
use voicefox::time::Duration;

#[test]
fn snapshot_exposes_track_metadata() {
    let mut song = SongInfo::new("42".to_string(), SourceId::Bili, "Song".to_string(), "Artist".to_string());
    song.album_name = "Album".to_string();
    song.duration = Duration::from_secs(90);
    song.cover_url = Some("https://example.com/cover.jpg".to_string());
    let snapshot = MprisSnapshot::new(
        PlayerState::Playing,
        Some(&song),
        Duration::from_secs(3),
        Duration::zero(),
        75,
        PlayMode::SingleLoop,
        3,
        0,
    );

    assert_eq!(snapshot.playback_status, "Playing");
    assert_eq!(snapshot.loop_status, "Track");
    assert_eq!(snapshot.duration_micros, 90_000_000);
    assert_eq!(snapshot.position_micros, 3_000_000);
    assert_eq!(snapshot.track_path, track_path(&song));
    assert!(snapshot.can_go_next);
    assert_eq!(snapshot.volume_percent, 75);
    assert_eq!(snapshot.art_url, "https://example.com/cover.jpg");
}

#[test]
fn snapshot_without_a_song_is_stopped_at_no_track() {
    let snapshot = MprisSnapshot::new(PlayerState::Idle, None, Duration::zero(), Duration::zero(), 250, PlayMode::Random, 1, 7);
    assert_eq!(snapshot.playback_status, "Stopped");
    assert_eq!(snapshot.loop_status, "None");
    assert!(snapshot.shuffle);
    assert_eq!(snapshot.track_path, "/org/mpris/MediaPlayer2/TrackList/NoTrack");
    assert_eq!(snapshot.volume_percent, 100);
    assert!(!snapshot.can_go_previous);
    assert_eq!(snapshot.position_epoch, 7);
    assert!(track_path(&SongInfo::new("1".into(), SourceId::Kw, "a".into(), "b".into())).starts_with("/org/mpris/MediaPlayer2/track/"));
    assert_eq!(micros(Duration::new(1, 2_500)), 1_000_002);
}
