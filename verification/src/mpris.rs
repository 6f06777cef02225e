//! What the desktop media controls (MPRIS) are told about playback.
use vstd::prelude::*;
use crate::queue::PlayMode;
use crate::song::SongInfo;
use crate::source::{PlayerState, SourceId};
use crate::strings::{decimal, push_decimal};
use crate::terminal::{art_url, file_url};
use crate::text::{has_prefix, push_str, to_owned_string};
use crate::time::Duration;
use std::collections::hash_map::DefaultHasher;
use std::hash::Hasher;

verus! {

/// The playback state as MPRIS reports it.
pub open spec fn playback_status_of(state: PlayerState) -> Seq<char> {
    match state {
        PlayerState::Playing | PlayerState::Loading => "Playing"@,
        PlayerState::Paused => "Paused"@,
        PlayerState::Idle | PlayerState::Stopped => "Stopped"@,
    }
}

/// The loop status of a play mode as MPRIS reports it.
pub open spec fn loop_status_of(mode: PlayMode) -> Seq<char> {
    match mode {
        PlayMode::SingleLoop => "Track"@,
        PlayMode::ListLoop => "Playlist"@,
        _ => "None"@,
    }
}

/// A span in whole microseconds, capped at `i64::MAX`.
pub open spec fn capped_micros(d: Duration) -> int {
    let us = d.total_nanos() / 1000;
    if us > i64::MAX { i64::MAX as int } else { us }
}

/// The object path of a track: a fixed prefix and a number.
pub open spec fn is_track_path(p: Seq<char>) -> bool {
    exists|h: u64| p == "/org/mpris/MediaPlayer2/track/"@ + decimal(h as nat)
}

/// The object path shown when nothing plays.
pub open spec fn no_track_path() -> Seq<char> {
    "/org/mpris/MediaPlayer2/TrackList/NoTrack"@
}

/// The state the media controls show.
#[derive(Debug, Clone)]
pub struct MprisSnapshot {
    pub playback_status: &'static str,
    pub loop_status: &'static str,
    pub shuffle: bool,
    pub track_path: String,
    pub title: String,
    pub artist: String,
    pub album: String,
    pub art_url: String,
    pub source_url: String,
    pub duration_micros: i64,
    pub position_micros: i64,
    /// Counts the jumps of the position; a new value starts a new timeline.
    pub position_epoch: u64,
    /// Volume in percent, at most 100.
    pub volume_percent: u32,
    pub can_go_next: bool,
    pub can_go_previous: bool,
}

impl Default for MprisSnapshot {
    /// Stopped, no track, volume 80 %.
    fn default() -> (r: MprisSnapshot)
        ensures
            r.playback_status@ == "Stopped"@,
            r.loop_status@ == "None"@,
            !r.shuffle,
            r.track_path@ == no_track_path(),
            r.title@.len() == 0 && r.artist@.len() == 0 && r.album@.len() == 0,
            r.art_url@.len() == 0 && r.source_url@.len() == 0,
            r.duration_micros == 0 && r.position_micros == 0 && r.position_epoch == 0,
            r.volume_percent == 80,
            !r.can_go_next && !r.can_go_previous,
    {
        MprisSnapshot {
            playback_status: "Stopped",
            loop_status: "None",
            shuffle: false,
            track_path: to_owned_string("/org/mpris/MediaPlayer2/TrackList/NoTrack"),
            title: String::new(),
            artist: String::new(),
            album: String::new(),
            art_url: String::new(),
            source_url: String::new(),
            duration_micros: 0,
            position_micros: 0,
            position_epoch: 0,
            volume_percent: 80,
            can_go_next: false,
            can_go_previous: false,
        }
    }
}

/// A span in whole microseconds, capped at `i64::MAX`.
pub fn micros(d: Duration) -> (r: i64)
    ensures
        r == capped_micros(d),
{
    let secs = d.as_secs();
    let nanos = d.subsec_nanos();
    let us: u128 = (secs as u128) * 1_000_000 + ((nanos / 1000) as u128);
    assert(d.total_nanos() / 1000 == secs * 1_000_000 + nanos / 1000) by (nonlinear_arith)
        requires
            d.total_nanos() == secs * 1_000_000_000 + nanos,
            nanos < 1_000_000_000,
    ;
    if us > 9223372036854775807u128 {
        9223372036854775807i64
    } else {
        us as i64
    }
}

/// Calls `Hash::hash` of `SourceId` (the derived impl) on `hasher`. What
/// it writes depends on the machine's width of the discriminant, so nothing
/// is stated of the hasher afterwards.
#[verifier::external_body]
fn hash_source(source: &SourceId, hasher: &mut DefaultHasher) {
    std::hash::Hash::hash(source, hasher);
}

/// Calls `Hash::hash` of `str` on `hasher`; nothing is stated of the
/// hasher afterwards.
#[verifier::external_body]
fn hash_text(text: &str, hasher: &mut DefaultHasher) {
    std::hash::Hash::hash(text, hasher);
}

/// The number a fresh `DefaultHasher` gives after hashing a source and an
/// id, which names a song's track. The hasher's algorithm is not specified,
/// so nothing is stated of the number.
fn track_hash(source: SourceId, id: &str) -> u64 {
    let mut hasher = DefaultHasher::new();
    hash_source(&source, &mut hasher);
    hash_text(id, &mut hasher);
    hasher.finish()
}

/// The object path of a song's track.
pub fn track_path(song: &SongInfo) -> (r: String)
    ensures
        is_track_path(r@),
{
    let h = track_hash(song.source, song.id.as_str());
    let mut r = to_owned_string("/org/mpris/MediaPlayer2/track/");
    push_decimal(&mut r, h);
    r
}

impl MprisSnapshot {
    /// The snapshot of the player: its state and position, the play mode,
    /// the queue length, the position's timeline and, when a song plays, its
    /// track; the song's duration stands in when `duration` is zero.
    pub fn new(
        state: PlayerState,
        song: Option<&SongInfo>,
        position: Duration,
        duration: Duration,
        volume: u32,
        play_mode: PlayMode,
        queue_len: usize,
        position_epoch: u64,
    ) -> (r: MprisSnapshot)
        ensures
            r.playback_status@ == playback_status_of(state),
            r.loop_status@ == loop_status_of(play_mode),
            r.shuffle == (play_mode == PlayMode::Random),
            r.position_micros == capped_micros(position),
            r.position_epoch == position_epoch,
            r.volume_percent == if volume < 100 { volume } else { 100 },
            r.can_go_next == (queue_len > 1),
            r.can_go_previous == (queue_len > 1),
            match song {
                Some(s) => {
                    &&& is_track_path(r.track_path@)
                    &&& r.title@ == s.name@
                    &&& r.artist@ == s.singer@
                    &&& r.album@ == s.album_name@
                    &&& r.art_url@ == match s.cover_url {
                        Some(c) => if has_prefix(c@, "/"@) { "file://"@ + c@ } else { c@ },
                        None => Seq::empty(),
                    }
                    &&& r.source_url@ == match s.file_path {
                        Some(p) => "file://"@ + p@,
                        None => Seq::empty(),
                    }
                    &&& r.duration_micros == if capped_micros(duration) == 0 {
                        capped_micros(s.duration)
                    } else {
                        capped_micros(duration)
                    }
                },
                None => {
                    &&& r.track_path@ == no_track_path()
                    &&& r.title@.len() == 0 && r.artist@.len() == 0 && r.album@.len() == 0
                    &&& r.art_url@.len() == 0 && r.source_url@.len() == 0
                    &&& r.duration_micros == capped_micros(duration)
                },
            },
    {
        let playback_status = match state {
            PlayerState::Playing | PlayerState::Loading => "Playing",
            PlayerState::Paused => "Paused",
            PlayerState::Idle | PlayerState::Stopped => "Stopped",
        };
        let loop_status = match play_mode {
            PlayMode::SingleLoop => "Track",
            PlayMode::ListLoop => "Playlist",
            _ => "None",
        };
        let mut snapshot = MprisSnapshot::default();
        snapshot.playback_status = playback_status;
        snapshot.loop_status = loop_status;
        snapshot.shuffle = play_mode == PlayMode::Random;
        snapshot.position_micros = micros(position);
        snapshot.position_epoch = position_epoch;
        snapshot.duration_micros = micros(duration);
        snapshot.volume_percent = if volume < 100 {
            volume
        } else {
            100
        };
        snapshot.can_go_next = queue_len > 1;
        snapshot.can_go_previous = queue_len > 1;
        match song {
            Some(s) => {
                snapshot.track_path = track_path(s);
                snapshot.title = s.name.clone();
                snapshot.artist = s.singer.clone();
                snapshot.album = s.album_name.clone();
                snapshot.art_url = match &s.cover_url {
                    Some(c) => art_url(c.as_str()),
                    None => String::new(),
                };
                snapshot.source_url = match &s.file_path {
                    Some(p) => file_url(p.as_str()),
                    None => String::new(),
                };
                if snapshot.duration_micros == 0 {
                    snapshot.duration_micros = micros(s.duration);
                }
            },
            None => {},
        }
        snapshot
    }
}

} // verus!
