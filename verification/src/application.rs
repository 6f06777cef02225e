//! The application layer's commands, events and state, shared by the
//! terminal front end and the Flutter bridge.
use vstd::prelude::*;
use crate::song::SongInfo;
use crate::source::{PlayerState, SourceId};
use crate::time::Duration;
use crate::text::to_owned_string;

verus! {

/// A playlist of an online source.
#[derive(Debug, Clone)]
pub struct Playlist {
    pub id: String,
    pub name: String,
    pub source: SourceId,
    pub cover_url: Option<String>,
    pub song_count: u32,
    pub description: Option<String>,
}

/// One line of synchronised lyrics; times in milliseconds.
#[derive(Debug, Clone)]
pub struct LyricLine {
    pub timestamp: u64,
    pub duration: u64,
    pub text: String,
}

/// The lyrics of the current song and where playback is in them.
#[derive(Debug, Clone)]
pub struct LyricState {
    pub current_line: usize,
    pub position_ms: u64,
    pub lines: Vec<LyricLine>,
    pub translation: Option<String>,
    pub is_empty: bool,
}

/// What the front ends ask the application to do.
#[derive(Debug)]
pub enum ApplicationCommand {
    Search { keyword: String, source: Option<SourceId> },
    SearchMore { keyword: String, page: u32, source: Option<SourceId> },
    Play { songs: Vec<SongInfo>, index: usize },
    PlayCurrent,
    Pause,
    Resume,
    Toggle,
    Stop,
    Seek(Duration),
    QueueAdd { song: SongInfo, next: bool },
    QueueRemove { index: usize },
    QueueClear,
    Next,
    Previous,
    PlaybackFailed { request_id: u64, error: String },
    RestorePlayback { songs: Vec<SongInfo>, index: usize, position: Duration, paused: bool },
    LoadLyrics { song: SongInfo },
    PlaylistOpen { playlist: Playlist },
    PlaylistSet(Vec<Playlist>),
}

/// What the application tells the front ends.
#[derive(Debug)]
pub enum ApplicationEvent {
    StateChanged(Box<ApplicationState>),
    SearchStarted { request_id: u64, keyword: String },
    SearchCompleted { request_id: u64, keyword: String, page: u32, append: bool, items: Vec<SongInfo>, has_more: bool },
    SearchFailed { request_id: u64, error: String },
    PlaybackStarted { request_id: u64, song: SongInfo, source_index: Option<usize> },
    PlaybackPaused,
    PlaybackResumed,
    PlaybackStopped,
    PlaybackEnded,
    PlaybackFailed { request_id: u64, error: String },
    QueueChanged { queue: Vec<SongInfo>, index: usize },
    LyricsChanged { song_id: String },
    PlaylistChanged { playlists: Vec<Playlist> },
    Notification { message: String },
}

/// The kind of an event, by which front ends route it.
#[derive(Debug, Clone, Copy, PartialEq, Eq, Structural)]
pub enum ApplicationEventKind {
    StateChanged,
    Search,
    Playback,
    Queue,
    Lyrics,
    Playlist,
    Notification,
}

/// The kind of event `e`.
pub open spec fn event_kind(e: ApplicationEvent) -> ApplicationEventKind {
    match e {
        ApplicationEvent::StateChanged(_) => ApplicationEventKind::StateChanged,
        ApplicationEvent::SearchStarted { .. } | ApplicationEvent::SearchCompleted { .. } | ApplicationEvent::SearchFailed {
            ..
        } => ApplicationEventKind::Search,
        ApplicationEvent::PlaybackStarted { .. } | ApplicationEvent::PlaybackPaused | ApplicationEvent::PlaybackResumed
        | ApplicationEvent::PlaybackStopped | ApplicationEvent::PlaybackEnded | ApplicationEvent::PlaybackFailed {
            ..
        } => ApplicationEventKind::Playback,
        ApplicationEvent::QueueChanged { .. } => ApplicationEventKind::Queue,
        ApplicationEvent::LyricsChanged { .. } => ApplicationEventKind::Lyrics,
        ApplicationEvent::PlaylistChanged { .. } => ApplicationEventKind::Playlist,
        ApplicationEvent::Notification { .. } => ApplicationEventKind::Notification,
    }
}

impl ApplicationEvent {
    /// The kind of the event (see [`event_kind`]).
    pub fn kind(&self) -> (r: ApplicationEventKind)
        ensures
            r == event_kind(*self),
    {
        match self {
            ApplicationEvent::StateChanged(_) => ApplicationEventKind::StateChanged,
            ApplicationEvent::SearchStarted { .. } | ApplicationEvent::SearchCompleted { .. }
            | ApplicationEvent::SearchFailed { .. } => ApplicationEventKind::Search,
            ApplicationEvent::PlaybackStarted { .. } | ApplicationEvent::PlaybackPaused
            | ApplicationEvent::PlaybackResumed | ApplicationEvent::PlaybackStopped
            | ApplicationEvent::PlaybackEnded | ApplicationEvent::PlaybackFailed { .. } => ApplicationEventKind::Playback,
            ApplicationEvent::QueueChanged { .. } => ApplicationEventKind::Queue,
            ApplicationEvent::LyricsChanged { .. } => ApplicationEventKind::Lyrics,
            ApplicationEvent::PlaylistChanged { .. } => ApplicationEventKind::Playlist,
            ApplicationEvent::Notification { .. } => ApplicationEventKind::Notification,
        }
    }

    /// The player state that a playback event announces: playing after a
    /// start or a resume, paused, stopped; none for other events.
    pub fn player_state(&self) -> (r: Option<PlayerState>)
        ensures
            r == match *self {
                ApplicationEvent::PlaybackStarted { .. } => Some(PlayerState::Playing),
                ApplicationEvent::PlaybackPaused => Some(PlayerState::Paused),
                ApplicationEvent::PlaybackResumed => Some(PlayerState::Playing),
                ApplicationEvent::PlaybackStopped => Some(PlayerState::Stopped),
                _ => None,
            },
    {
        match self {
            ApplicationEvent::PlaybackStarted { .. } => Some(PlayerState::Playing),
            ApplicationEvent::PlaybackPaused => Some(PlayerState::Paused),
            ApplicationEvent::PlaybackResumed => Some(PlayerState::Playing),
            ApplicationEvent::PlaybackStopped => Some(PlayerState::Stopped),
            _ => None,
        }
    }
}

/// Every state-announcing event is a playback event.
pub proof fn lemma_player_state_is_playback(e: ApplicationEvent)
    ensures
        (match e {
            ApplicationEvent::PlaybackStarted { .. } | ApplicationEvent::PlaybackPaused | ApplicationEvent::PlaybackResumed
            | ApplicationEvent::PlaybackStopped => true,
            _ => false,
        }) ==> event_kind(e) == ApplicationEventKind::Playback,
{
}

/// The player as the application sees it.
#[derive(Debug)]
pub struct PlaybackSnapshot {
    pub state: PlayerState,
    pub song: Option<SongInfo>,
    pub position: Duration,
    pub duration: Duration,
    pub volume: u32,
    pub generation: u64,
}

impl Default for PlaybackSnapshot {
    /// Idle, no song, at 0 of 0, full volume, first generation.
    fn default() -> (r: PlaybackSnapshot)
        ensures
            r.state == PlayerState::Idle,
            r.song is None,
            r.position.total_nanos() == 0,
            r.duration.total_nanos() == 0,
            r.volume == 100,
            r.generation == 0,
    {
        PlaybackSnapshot {
            state: PlayerState::Idle,
            song: None,
            position: Duration::zero(),
            duration: Duration::zero(),
            volume: 100,
            generation: 0,
        }
    }
}

/// The play queue as the application sees it.
#[derive(Debug)]
pub struct QueueState {
    pub songs: Vec<SongInfo>,
    pub index: usize,
}

/// The current search.
#[derive(Debug)]
pub struct SearchState {
    pub keyword: String,
    pub source: Option<SourceId>,
    pub page: u32,
    pub has_more: bool,
    pub items: Vec<SongInfo>,
    pub request_id: u64,
}

/// Everything the front ends show.
#[derive(Debug)]
pub struct ApplicationState {
    pub playback: PlaybackSnapshot,
    pub queue: QueueState,
    pub search: SearchState,
    pub lyrics: Option<LyricState>,
    pub playlists: Vec<Playlist>,
}

/// The name of a player state for the front ends.
pub open spec fn state_name(s: PlayerState) -> Seq<char> {
    match s {
        PlayerState::Idle => "idle"@,
        PlayerState::Loading => "loading"@,
        PlayerState::Playing => "playing"@,
        PlayerState::Paused => "paused"@,
        PlayerState::Stopped => "stopped"@,
    }
}

/// The name of a player state for the front ends (see [`state_name`]).
pub fn player_state_name(s: PlayerState) -> (r: String)
    ensures
        r@ == state_name(s),
{
    to_owned_string(
        match s {
            PlayerState::Idle => "idle",
            PlayerState::Loading => "loading",
            PlayerState::Playing => "playing",
            PlayerState::Paused => "paused",
            PlayerState::Stopped => "stopped",
        },
    )
}

/// The player state as a front end gets it: names in place of enums, times
/// in milliseconds.
#[derive(Debug, Clone)]
pub struct PlaybackStateDto {
    pub state: String,
    pub position_ms: u64,
    pub duration_ms: u64,
    pub volume: u32,
    pub generation: u64,
}

impl PlaybackStateDto {
    /// The front-end form of `value`; times are cut to 64 bits of
    /// milliseconds.
    pub fn from_snapshot(value: &PlaybackSnapshot) -> (r: PlaybackStateDto)
        ensures
            r.state@ == state_name(value.state),
            r.position_ms == value.position.total_millis() as u64,
            r.duration_ms == value.duration.total_millis() as u64,
            r.volume == value.volume,
            r.generation == value.generation,
    {
        PlaybackStateDto {
            state: player_state_name(value.state),
            position_ms: value.position.as_millis_wrapping(),
            duration_ms: value.duration.as_millis_wrapping(),
            volume: value.volume,
            generation: value.generation,
        }
    }
}

} // verus!
