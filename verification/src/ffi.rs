//! What crosses to the Flutter front end: plain data objects, commands and
//! events, with names in place of the application's enums.
use vstd::prelude::*;
use crate::application::{ApplicationCommand, ApplicationEvent, ApplicationEventKind, ApplicationState, LyricState, Playlist, event_kind, player_state_name, state_name};
use crate::song::{SongInfo, SongView, opt_view, songs_view};
use crate::source::{SourceId, source_from_name, source_name};
use crate::text::{push_str, to_owned_string};
use crate::time::Duration;

verus! {

/// A song as the front end gets it.
#[derive(Debug, Clone)]
pub struct SongDto {
    pub id: String,
    pub source: String,
    pub name: String,
    pub singer: String,
    pub album_name: String,
    pub duration_ms: u64,
    pub cover_url: Option<String>,
}

/// The content of a [`SongDto`].
pub struct SongDtoView {
    pub id: Seq<char>,
    pub source: Seq<char>,
    pub name: Seq<char>,
    pub singer: Seq<char>,
    pub album_name: Seq<char>,
    pub duration_ms: u64,
    pub cover_url: Option<Seq<char>>,
}

impl View for SongDto {
    type V = SongDtoView;

    open spec fn view(&self) -> SongDtoView {
        SongDtoView {
            id: self.id@,
            source: self.source@,
            name: self.name@,
            singer: self.singer@,
            album_name: self.album_name@,
            duration_ms: self.duration_ms,
            cover_url: opt_view(self.cover_url),
        }
    }
}

/// The front-end form of a song: the short source name, the length in
/// milliseconds cut to 64 bits.
pub open spec fn dto_of(s: SongView) -> SongDtoView {
    SongDtoView {
        id: s.id,
        source: source_name(s.source),
        name: s.name,
        singer: s.singer,
        album_name: s.album_name,
        duration_ms: s.duration.total_millis() as u64,
        cover_url: s.cover_url,
    }
}

/// The views of a list of song objects.
pub open spec fn dtos_view(v: Seq<SongDto>) -> Seq<SongDtoView> {
    v.map_values(|d: SongDto| d@)
}

impl SongDto {
    /// The front-end form of `song` (see [`dto_of`]).
    pub fn from_song(song: SongInfo) -> (r: SongDto)
        ensures
            r@ == dto_of(song@),
    {
        let duration_ms = song.duration.as_millis_wrapping();
        let source = to_owned_string(song.source.as_str());
        SongDto {
            id: song.id,
            source,
            name: song.name,
            singer: song.singer,
            album_name: song.album_name,
            duration_ms,
            cover_url: song.cover_url,
        }
    }

    /// The song the front end names: the source must be a known short name
    /// (else `unknown source: <name>`); album, length and cover are kept,
    /// every other field is empty.
    pub fn into_song(self) -> (r: Result<SongInfo, String>)
        ensures
            source_from_name(self.source@) is None <==> r is Err,
            r matches Err(e) ==> e@ == "unknown source: "@ + self.source@,
            r matches Ok(s) ==> {
                &&& s@.id == self.id@
                &&& Some(s@.source) == source_from_name(self.source@)
                &&& s@.name == self.name@
                &&& s@.singer == self.singer@
                &&& s@.album_name == self.album_name@
                &&& s@.duration.total_millis() == self.duration_ms
                &&& s@.cover_url == opt_view(self.cover_url)
                &&& s@.file_path is None
                &&& s@.extra.len() == 0
            },
    {
        let source = match SourceId::from_name(self.source.as_str()) {
            Some(s) => s,
            None => {
                let mut e = to_owned_string("unknown source: ");
                push_str(&mut e, self.source.as_str());
                return Err(e);
            },
        };
        let mut song = SongInfo::new(self.id, source, self.name, self.singer);
        song.album_name = self.album_name;
        song.duration = Duration::from_millis(self.duration_ms);
        song.cover_url = self.cover_url;
        assert(crate::song::pairs_view(song.extra@) =~= Seq::<(Seq<char>, Seq<char>)>::empty());
        Ok(song)
    }
}

/// The front-end form of each song of `v`, in order.
fn dtos_of(v: Vec<SongInfo>) -> (r: Vec<SongDto>)
    ensures
        dtos_view(r@) == songs_view(v@).map_values(|s: SongView| dto_of(s)),
{
    let ghost sv = songs_view(v@);
    let mut r: Vec<SongDto> = Vec::new();
    let rest = v;
    let mut i: usize = 0;
    while i < rest.len()
        invariant
            i <= rest.len(),
            sv == songs_view(rest@),
            dtos_view(r@) == sv.take(i as int).map_values(|s: SongView| dto_of(s)),
        decreases rest.len() - i,
    {
        let s = rest[i].clone();
        let ghost before = dtos_view(r@);
        r.push(SongDto::from_song(s));
        assert(dtos_view(r@) =~= before.push(dto_of(sv[i as int])));
        assert(sv.take(i + 1).map_values(|s: SongView| dto_of(s)) =~= sv.take(i as int).map_values(|s: SongView| dto_of(s)).push(
            dto_of(sv[i as int]),
        ));
        i += 1;
    }
    assert(sv.take(rest.len() as int) == sv);
    r
}

/// A command from the front end.
#[derive(Debug, Clone)]
pub enum FfiCommand {
    Pause,
    Resume,
    Toggle,
    Stop,
    SeekMs(u64),
    PlaySong { song: SongDto },
    QueueAdd { song: SongDto, next: bool },
    QueueRemove { index: u32 },
    QueueClear,
    Next,
    Previous,
    Search { keyword: String },
    SearchMore { keyword: String, page: u32 },
}

/// Pause playback.
pub fn command_pause() -> (r: FfiCommand)
    ensures
        r is Pause,
{
    FfiCommand::Pause
}

/// Resume playback.
pub fn command_resume() -> (r: FfiCommand)
    ensures
        r is Resume,
{
    FfiCommand::Resume
}

/// Toggle between playing and paused.
pub fn command_toggle() -> (r: FfiCommand)
    ensures
        r is Toggle,
{
    FfiCommand::Toggle
}

/// Stop playback.
pub fn command_stop() -> (r: FfiCommand)
    ensures
        r is Stop,
{
    FfiCommand::Stop
}

/// Play the next song.
pub fn command_next() -> (r: FfiCommand)
    ensures
        r is Next,
{
    FfiCommand::Next
}

/// Play the previous song.
pub fn command_previous() -> (r: FfiCommand)
    ensures
        r is Previous,
{
    FfiCommand::Previous
}

/// Search for `keyword`.
pub fn command_search(keyword: String) -> (r: FfiCommand)
    ensures
        r == (FfiCommand::Search { keyword }),
{
    FfiCommand::Search { keyword }
}

/// Fetch page `page` of the search for `keyword`.
pub fn command_search_more(keyword: String, page: u32) -> (r: FfiCommand)
    ensures
        r == (FfiCommand::SearchMore { keyword, page }),
{
    FfiCommand::SearchMore { keyword, page }
}

/// Play `song`.
pub fn command_play(song: SongDto) -> (r: FfiCommand)
    ensures
        r == (FfiCommand::PlaySong { song }),
{
    FfiCommand::PlaySong { song }
}

/// Add `song` at the end of the queue.
pub fn command_queue_add(song: SongDto) -> (r: FfiCommand)
    ensures
        r == (FfiCommand::QueueAdd { song, next: false }),
{
    FfiCommand::QueueAdd { song, next: false }
}

/// Remove the queue entry at `index`.
pub fn command_queue_remove(index: u32) -> (r: FfiCommand)
    ensures
        r == (FfiCommand::QueueRemove { index }),
{
    FfiCommand::QueueRemove { index }
}

/// Empty the queue.
pub fn command_queue_clear() -> (r: FfiCommand)
    ensures
        r is QueueClear,
{
    FfiCommand::QueueClear
}

impl FfiCommand {
    /// The application command for a front-end command; a song with an
    /// unknown source makes it fail (see [`SongDto::into_song`]). Seeking is
    /// by milliseconds; searches are on every source.
    pub fn into_application(self) -> (r: Result<ApplicationCommand, String>)
        ensures
            match self {
                FfiCommand::Pause => r matches Ok(ApplicationCommand::Pause),
                FfiCommand::Resume => r matches Ok(ApplicationCommand::Resume),
                FfiCommand::Toggle => r matches Ok(ApplicationCommand::Toggle),
                FfiCommand::Stop => r matches Ok(ApplicationCommand::Stop),
                FfiCommand::SeekMs(ms) => (r matches Ok(ApplicationCommand::Seek(d)) && d.total_millis() == ms
                    && d.total_nanos() == ms * 1_000_000),
                FfiCommand::PlaySong { song } => match source_from_name(song.source@) {
                    None => r is Err,
                    Some(src) => (r matches Ok(ApplicationCommand::Play { songs, index }) && songs@.len() == 1
                        && index == 0 && songs@[0]@.id == song.id@ && songs@[0]@.source == src),
                },
                FfiCommand::QueueAdd { song, next } => match source_from_name(song.source@) {
                    None => r is Err,
                    Some(src) => (r matches Ok(ApplicationCommand::QueueAdd { song: s, next: n }) && n == next
                        && s@.id == song.id@ && s@.source == src),
                },
                FfiCommand::QueueRemove { index } => (r matches Ok(ApplicationCommand::QueueRemove { index: i })
                    && i == index),
                FfiCommand::QueueClear => r matches Ok(ApplicationCommand::QueueClear),
                FfiCommand::Next => r matches Ok(ApplicationCommand::Next),
                FfiCommand::Previous => r matches Ok(ApplicationCommand::Previous),
                FfiCommand::Search { keyword } => (r matches Ok(ApplicationCommand::Search { keyword: k, source })
                    && k == keyword && source is None),
                FfiCommand::SearchMore { keyword, page } => (r matches Ok(
                    ApplicationCommand::SearchMore { keyword: k, page: p, source },
                ) && k == keyword && p == page && source is None),
            },
    {
        match self {
            FfiCommand::Pause => Ok(ApplicationCommand::Pause),
            FfiCommand::Resume => Ok(ApplicationCommand::Resume),
            FfiCommand::Toggle => Ok(ApplicationCommand::Toggle),
            FfiCommand::Stop => Ok(ApplicationCommand::Stop),
            FfiCommand::SeekMs(ms) => Ok(ApplicationCommand::Seek(Duration::from_millis(ms))),
            FfiCommand::PlaySong { song } => {
                let s = match song.into_song() {
                    Ok(s) => s,
                    Err(e) => {
                        return Err(e);
                    },
                };
                let mut songs: Vec<SongInfo> = Vec::new();
                songs.push(s);
                Ok(ApplicationCommand::Play { songs, index: 0 })
            },
            FfiCommand::QueueAdd { song, next } => {
                let s = match song.into_song() {
                    Ok(s) => s,
                    Err(e) => {
                        return Err(e);
                    },
                };
                Ok(ApplicationCommand::QueueAdd { song: s, next })
            },
            FfiCommand::QueueRemove { index } => Ok(ApplicationCommand::QueueRemove { index: index as usize }),
            FfiCommand::QueueClear => Ok(ApplicationCommand::QueueClear),
            FfiCommand::Next => Ok(ApplicationCommand::Next),
            FfiCommand::Previous => Ok(ApplicationCommand::Previous),
            FfiCommand::Search { keyword } => Ok(ApplicationCommand::Search { keyword, source: None }),
            FfiCommand::SearchMore { keyword, page } => Ok(ApplicationCommand::SearchMore { keyword, page, source: None }),
        }
    }
}

/// One line of lyrics as the front end gets it.
#[derive(Debug, Clone)]
pub struct LyricLineDto {
    pub timestamp_ms: u64,
    pub duration_ms: u64,
    pub text: String,
}

/// The lyrics as the front end gets them.
#[derive(Debug, Clone)]
pub struct LyricsDto {
    pub current_line: u32,
    pub position_ms: u64,
    pub lines: Vec<LyricLineDto>,
    pub translation: Option<String>,
    pub is_empty: bool,
}

impl Default for LyricsDto {
    /// No lyrics: line 0 at 0 ms, no lines, no translation, not marked empty.
    fn default() -> (r: LyricsDto)
        ensures
            r.current_line == 0,
            r.position_ms == 0,
            r.lines@.len() == 0,
            r.translation is None,
            !r.is_empty,
    {
        LyricsDto { current_line: 0, position_ms: 0, lines: Vec::new(), translation: None, is_empty: false }
    }
}

/// A playlist as the front end gets it.
#[derive(Debug, Clone)]
pub struct PlaylistDto {
    pub id: String,
    pub name: String,
    pub source: String,
    pub cover_url: Option<String>,
    pub song_count: u32,
    pub description: Option<String>,
}

/// The player as the front end gets it.
#[derive(Debug, Clone)]
pub struct PlaybackDto {
    pub state: String,
    pub song: Option<SongDto>,
    pub position_ms: u64,
    pub duration_ms: u64,
    pub volume: u32,
    pub generation: u64,
}

/// The search as the front end gets it.
#[derive(Debug, Clone)]
pub struct SearchDto {
    pub keyword: String,
    pub page: u32,
    pub has_more: bool,
    pub items: Vec<SongDto>,
    pub request_id: u64,
}

/// Everything the front end shows.
#[derive(Debug)]
pub struct VoicefoxState {
    pub playback: PlaybackDto,
    pub queue: Vec<SongDto>,
    pub queue_index: u32,
    pub search: SearchDto,
    pub lyrics: LyricsDto,
    pub playlists: Vec<PlaylistDto>,
}

/// The front-end form of the lyrics.
fn lyrics_dto(state: &LyricState) -> (r: LyricsDto)
    ensures
        r.current_line == state.current_line as u32,
        r.position_ms == state.position_ms,
        r.lines@.len() == state.lines@.len(),
        forall|i: int| 0 <= i < r.lines@.len() ==> {
            &&& (#[trigger] r.lines@[i]).timestamp_ms == state.lines@[i].timestamp
            &&& r.lines@[i].duration_ms == state.lines@[i].duration
            &&& r.lines@[i].text@ == state.lines@[i].text@
        },
        opt_view(r.translation) == opt_view(state.translation),
        r.is_empty == state.is_empty,
{
    let mut lines: Vec<LyricLineDto> = Vec::new();
    let mut i: usize = 0;
    while i < state.lines.len()
        invariant
            i <= state.lines.len(),
            lines@.len() == i,
            forall|k: int| 0 <= k < i ==> {
                &&& (#[trigger] lines@[k]).timestamp_ms == state.lines@[k].timestamp
                &&& lines@[k].duration_ms == state.lines@[k].duration
                &&& lines@[k].text@ == state.lines@[k].text@
            },
        decreases state.lines.len() - i,
    {
        let l = &state.lines[i];
        lines.push(LyricLineDto { timestamp_ms: l.timestamp, duration_ms: l.duration, text: l.text.clone() });
        i += 1;
    }
    LyricsDto {
        current_line: state.current_line as u32,
        position_ms: state.position_ms,
        lines,
        translation: crate::song::clone_opt_string(&state.translation),
        is_empty: state.is_empty,
    }
}

/// The front-end form of the playlists.
fn playlist_dtos(v: Vec<Playlist>) -> (r: Vec<PlaylistDto>)
    ensures
        r@.len() == v@.len(),
        forall|i: int| 0 <= i < r@.len() ==> {
            &&& (#[trigger] r@[i]).id@ == v@[i].id@
            &&& r@[i].name@ == v@[i].name@
            &&& r@[i].source@ == source_name(v@[i].source)
            &&& opt_view(r@[i].cover_url) == opt_view(v@[i].cover_url)
            &&& r@[i].song_count == v@[i].song_count
            &&& opt_view(r@[i].description) == opt_view(v@[i].description)
        },
{
    let mut r: Vec<PlaylistDto> = Vec::new();
    let mut i: usize = 0;
    while i < v.len()
        invariant
            i <= v.len(),
            r@.len() == i,
            forall|k: int| 0 <= k < i ==> {
                &&& (#[trigger] r@[k]).id@ == v@[k].id@
                &&& r@[k].name@ == v@[k].name@
                &&& r@[k].source@ == source_name(v@[k].source)
                &&& opt_view(r@[k].cover_url) == opt_view(v@[k].cover_url)
                &&& r@[k].song_count == v@[k].song_count
                &&& opt_view(r@[k].description) == opt_view(v@[k].description)
            },
        decreases v.len() - i,
    {
        let p = &v[i];
        r.push(PlaylistDto {
            id: p.id.clone(),
            name: p.name.clone(),
            source: to_owned_string(p.source.as_str()),
            cover_url: crate::song::clone_opt_string(&p.cover_url),
            song_count: p.song_count,
            description: crate::song::clone_opt_string(&p.description),
        });
        i += 1;
    }
    r
}

impl VoicefoxState {
    /// The front-end form of the application state: player state by name,
    /// times in milliseconds and positions cut to their low bits as the
    /// front end's integer types hold them, songs and playlists as data
    /// objects, the default lyrics object when there are no lyrics.
    pub fn from_state(value: ApplicationState) -> (r: VoicefoxState)
        ensures
            r.playback.state@ == state_name(value.playback.state),
            match value.playback.song {
                Some(s) => (r.playback.song matches Some(d) && d@ == dto_of(s@)),
                None => r.playback.song is None,
            },
            r.playback.position_ms == value.playback.position.total_millis() as u64,
            r.playback.duration_ms == value.playback.duration.total_millis() as u64,
            r.playback.volume == value.playback.volume,
            r.playback.generation == value.playback.generation,
            dtos_view(r.queue@) == songs_view(value.queue.songs@).map_values(|s: SongView| dto_of(s)),
            r.queue_index == value.queue.index as u32,
            r.search.keyword == value.search.keyword,
            r.search.page == value.search.page,
            r.search.has_more == value.search.has_more,
            dtos_view(r.search.items@) == songs_view(value.search.items@).map_values(|s: SongView| dto_of(s)),
            r.search.request_id == value.search.request_id,
            value.lyrics is None ==> (r.lyrics.lines@.len() == 0 && r.lyrics.current_line == 0 && !r.lyrics.is_empty),
            value.lyrics matches Some(l) ==> (r.lyrics.lines@.len() == l.lines@.len() && r.lyrics.is_empty == l.is_empty
                && r.lyrics.current_line == l.current_line as u32),
            r.playlists@.len() == value.playlists@.len(),
    {
        let lyrics = match &value.lyrics {
            Some(l) => lyrics_dto(l),
            None => LyricsDto::default(),
        };
        let state = player_state_name(value.playback.state);
        let position_ms = value.playback.position.as_millis_wrapping();
        let duration_ms = value.playback.duration.as_millis_wrapping();
        let song = match value.playback.song {
            Some(s) => Some(SongDto::from_song(s)),
            None => None,
        };
        VoicefoxState {
            playback: PlaybackDto {
                state,
                song,
                position_ms,
                duration_ms,
                volume: value.playback.volume,
                generation: value.playback.generation,
            },
            queue: dtos_of(value.queue.songs),
            queue_index: value.queue.index as u32,
            search: SearchDto {
                keyword: value.search.keyword,
                page: value.search.page,
                has_more: value.search.has_more,
                items: dtos_of(value.search.items),
                request_id: value.search.request_id,
            },
            lyrics,
            playlists: playlist_dtos(value.playlists),
        }
    }
}

/// An event as the front end gets it.
#[derive(Debug, Clone)]
pub struct VoicefoxEvent {
    pub kind: String,
    pub request_id: u64,
    pub keyword: Option<String>,
    pub page: u32,
    pub append: bool,
    pub has_more: bool,
    pub message: Option<String>,
    pub song: Option<SongDto>,
    pub items: Vec<SongDto>,
    pub queue: Vec<SongDto>,
    pub queue_index: u32,
}

/// The name of an event kind for the front end.
pub open spec fn kind_name(k: ApplicationEventKind) -> Seq<char> {
    match k {
        ApplicationEventKind::StateChanged => "state_changed"@,
        ApplicationEventKind::Search => "search"@,
        ApplicationEventKind::Playback => "playback"@,
        ApplicationEventKind::Queue => "queue"@,
        ApplicationEventKind::Lyrics => "lyrics"@,
        ApplicationEventKind::Playlist => "playlist"@,
        ApplicationEventKind::Notification => "notification"@,
    }
}

/// The front-end event carries nothing beyond its kind and the fields set
/// by the clauses of [`VoicefoxEvent::from_event`].
pub open spec fn bare(r: VoicefoxEvent, request: bool, message: bool) -> bool {
    &&& (!request ==> r.request_id == 0)
    &&& r.keyword is None
    &&& r.page == 0
    &&& !r.append
    &&& !r.has_more
    &&& (!message ==> r.message is None)
    &&& r.song is None
    &&& r.items@.len() == 0
    &&& r.queue@.len() == 0
    &&& r.queue_index == 0
}

impl VoicefoxEvent {
    /// The front-end form of an application event: its kind by name, and
    /// the fields that the event carries (a started search is on page 1;
    /// failures carry their error as the message).
    pub fn from_event(value: ApplicationEvent) -> (r: VoicefoxEvent)
        ensures
            r.kind@ == kind_name(event_kind(value)),
            match value {
                ApplicationEvent::SearchStarted { request_id, keyword } => {
                    &&& r.request_id == request_id
                    &&& r.keyword == Some(keyword)
                    &&& r.page == 1
                    &&& !r.append && !r.has_more
                    &&& r.message is None && r.song is None
                    &&& r.items@.len() == 0 && r.queue@.len() == 0 && r.queue_index == 0
                },
                ApplicationEvent::SearchCompleted { request_id, keyword, page, append, items, has_more } => {
                    &&& r.request_id == request_id
                    &&& r.keyword == Some(keyword)
                    &&& r.page == page && r.append == append && r.has_more == has_more
                    &&& r.message is None && r.song is None
                    &&& dtos_view(r.items@) == songs_view(items@).map_values(|s: SongView| dto_of(s))
                    &&& r.queue@.len() == 0 && r.queue_index == 0
                },
                ApplicationEvent::SearchFailed { request_id, error } => r.request_id == request_id && r.message
                    == Some(error) && bare(r, true, true),
                ApplicationEvent::PlaybackFailed { request_id, error } => r.request_id == request_id && r.message
                    == Some(error) && bare(r, true, true),
                ApplicationEvent::PlaybackStarted { request_id, song, .. } => {
                    &&& r.request_id == request_id
                    &&& (r.song matches Some(d) && d@ == dto_of(song@))
                    &&& r.keyword is None && r.page == 0 && !r.append && !r.has_more && r.message is None
                    &&& r.items@.len() == 0 && r.queue@.len() == 0 && r.queue_index == 0
                },
                ApplicationEvent::QueueChanged { queue, index } => {
                    &&& dtos_view(r.queue@) == songs_view(queue@).map_values(|s: SongView| dto_of(s))
                    &&& r.queue_index == index as u32
                    &&& r.request_id == 0 && r.keyword is None && r.page == 0 && !r.append && !r.has_more
                    &&& r.message is None && r.song is None && r.items@.len() == 0
                },
                ApplicationEvent::Notification { message } => r.message == Some(message) && bare(r, false, true),
                _ => bare(r, false, false),
            },
    {
        let kind = to_owned_string(
            match value.kind() {
                ApplicationEventKind::StateChanged => "state_changed",
                ApplicationEventKind::Search => "search",
                ApplicationEventKind::Playback => "playback",
                ApplicationEventKind::Queue => "queue",
                ApplicationEventKind::Lyrics => "lyrics",
                ApplicationEventKind::Playlist => "playlist",
                ApplicationEventKind::Notification => "notification",
            },
        );
        match value {
            ApplicationEvent::SearchStarted { request_id, keyword } => VoicefoxEvent {
                kind,
                request_id,
                keyword: Some(keyword),
                page: 1,
                append: false,
                has_more: false,
                message: None,
                song: None,
                items: Vec::new(),
                queue: Vec::new(),
                queue_index: 0,
            },
            ApplicationEvent::SearchCompleted { request_id, keyword, page, append, items, has_more } => VoicefoxEvent {
                kind,
                request_id,
                keyword: Some(keyword),
                page,
                append,
                has_more,
                message: None,
                song: None,
                items: dtos_of(items),
                queue: Vec::new(),
                queue_index: 0,
            },
            ApplicationEvent::SearchFailed { request_id, error } | ApplicationEvent::PlaybackFailed { request_id, error } => VoicefoxEvent {
                kind,
                request_id,
                keyword: None,
                page: 0,
                append: false,
                has_more: false,
                message: Some(error),
                song: None,
                items: Vec::new(),
                queue: Vec::new(),
                queue_index: 0,
            },
            ApplicationEvent::PlaybackStarted { request_id, song, .. } => VoicefoxEvent {
                kind,
                request_id,
                keyword: None,
                page: 0,
                append: false,
                has_more: false,
                message: None,
                song: Some(SongDto::from_song(song)),
                items: Vec::new(),
                queue: Vec::new(),
                queue_index: 0,
            },
            ApplicationEvent::QueueChanged { queue, index } => VoicefoxEvent {
                kind,
                request_id: 0,
                keyword: None,
                page: 0,
                append: false,
                has_more: false,
                message: None,
                song: None,
                items: Vec::new(),
                queue: dtos_of(queue),
                queue_index: index as u32,
            },
            ApplicationEvent::Notification { message } => VoicefoxEvent {
                kind,
                request_id: 0,
                keyword: None,
                page: 0,
                append: false,
                has_more: false,
                message: Some(message),
                song: None,
                items: Vec::new(),
                queue: Vec::new(),
                queue_index: 0,
            },
            _ => VoicefoxEvent {
                kind,
                request_id: 0,
                keyword: None,
                page: 0,
                append: false,
                has_more: false,
                message: None,
                song: None,
                items: Vec::new(),
                queue: Vec::new(),
                queue_index: 0,
            },
        }
    }
}

} // verus!
