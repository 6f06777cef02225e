//! The play queue: the list of songs being played, the current position in it,
//! and the play mode that decides which song comes next.
use vstd::prelude::*;
use crate::events::InsertPosition;
use crate::song::{SongInfo, SongView, songs_view, clone_songs};

verus! {

/// How the next song is chosen.
#[derive(Debug, Clone, Copy, PartialEq, Eq, Structural)]
pub enum PlayMode {
    /// Play the list in order and start over after the last song.
    ListLoop,
    /// Play the list in order and stop after the last song.
    List,
    /// Repeat the current song.
    SingleLoop,
    /// Jump to a position chosen by the caller's random source.
    Random,
    /// Stop after the current song.
    Once,
}

/// Position that follows `index` when a song ends by itself, in a list of `len`
/// songs; `pick` is the random draw used by [`PlayMode::Random`].
pub open spec fn natural_next(mode: PlayMode, index: int, len: int, pick: int) -> Option<int> {
    match mode {
        PlayMode::ListLoop => Some((index + 1) % len),
        PlayMode::List => if index + 1 < len {
            Some(index + 1)
        } else {
            None
        },
        PlayMode::SingleLoop => Some(index),
        PlayMode::Random => Some(pick % len),
        PlayMode::Once => None,
    }
}

/// Position that follows `index` when the user asks for the next song.
pub open spec fn manual_next(mode: PlayMode, index: int, len: int, pick: int) -> Option<int> {
    match mode {
        PlayMode::Random => Some(pick % len),
        _ => Some((index + 1) % len),
    }
}

/// Position that precedes `index` when the user asks for the previous song.
pub open spec fn manual_prev(mode: PlayMode, index: int, len: int, pick: int) -> Option<int> {
    match mode {
        PlayMode::Random => Some(pick % len),
        _ => Some((index + len - 1) % len),
    }
}

/// An optional position as a mathematical integer.
pub open spec fn opt_int(r: Option<usize>) -> Option<int> {
    match r {
        Some(i) => Some(i as int),
        None => None,
    }
}

/// The mode that follows `mode` when the user cycles through the modes.
pub open spec fn following_mode(mode: PlayMode) -> PlayMode {
    match mode {
        PlayMode::ListLoop => PlayMode::SingleLoop,
        PlayMode::SingleLoop => PlayMode::Random,
        PlayMode::Random => PlayMode::List,
        PlayMode::List => PlayMode::Once,
        PlayMode::Once => PlayMode::ListLoop,
    }
}

impl PlayMode {
    /// Position after `index` when the song at `index` ends by itself.
    pub fn next_index(self, index: usize, len: usize, pick: usize) -> (r: Option<usize>)
        requires
            index < len,
        ensures
            r matches Some(i) ==> i < len,
            opt_int(r) == natural_next(self, index as int, len as int, pick as int),
    {
        match self {
            PlayMode::ListLoop => Some((index + 1) % len),
            PlayMode::List => if index + 1 < len {
                Some(index + 1)
            } else {
                None
            },
            PlayMode::SingleLoop => Some(index),
            PlayMode::Random => Some(pick % len),
            PlayMode::Once => None,
        }
    }

    /// Position after `index` when the user skips forward.
    pub fn manual_next_index(self, index: usize, len: usize, pick: usize) -> (r: Option<usize>)
        requires
            index < len,
        ensures
            r matches Some(i) ==> i < len,
            opt_int(r) == manual_next(self, index as int, len as int, pick as int),
    {
        match self {
            PlayMode::Random => Some(pick % len),
            _ => Some((index + 1) % len),
        }
    }

    /// Position before `index` when the user skips backward.
    pub fn manual_prev_index(self, index: usize, len: usize, pick: usize) -> (r: Option<usize>)
        requires
            index < len,
        ensures
            r matches Some(i) ==> i < len,
            opt_int(r) == manual_prev(self, index as int, len as int, pick as int),
    {
        match self {
            PlayMode::Random => Some(pick % len),
            _ => {
                let prev = if index == 0 {
                    len - 1
                } else {
                    index - 1
                };
                assert(prev as int == (index + len - 1) % (len as int)) by (nonlinear_arith)
                    requires
                        index < len,
                        prev == (if index == 0 {
                            len - 1
                        } else {
                            index - 1
                        }),
                ;
                Some(prev)
            },
        }
    }

    /// The mode that follows this one.
    pub fn next_mode(self) -> (r: PlayMode)
        ensures
            r == following_mode(self),
    {
        match self {
            PlayMode::ListLoop => PlayMode::SingleLoop,
            PlayMode::SingleLoop => PlayMode::Random,
            PlayMode::Random => PlayMode::List,
            PlayMode::List => PlayMode::Once,
            PlayMode::Once => PlayMode::ListLoop,
        }
    }
}

/// Cycling through the modes comes back to the start after five steps.
pub proof fn lemma_mode_cycle(mode: PlayMode)
    ensures
        following_mode(following_mode(following_mode(following_mode(following_mode(mode)))))
            == mode,
{
}

/// A position is valid for a list of `len` songs: inside it, or zero when it is empty.
pub open spec fn valid_position(index: int, len: int) -> bool {
    if len == 0 {
        index == 0
    } else {
        0 <= index < len
    }
}

/// The position kept after removing the song at `target` from a list of `len`
/// songs whose current position was `index`.
pub open spec fn position_after_remove(index: int, target: int, len: int) -> int {
    if target < index {
        index - 1
    } else if index >= len - 1 {
        if len - 1 == 0 { 0 } else { len - 2 }
    } else {
        index
    }
}

/// The position kept after moving the song at `from` to `to`.
pub open spec fn position_after_move(index: int, from: int, to: int) -> int {
    if index == from {
        to
    } else if from < index && to >= index {
        index - 1
    } else if from > index && to <= index {
        index + 1
    } else {
        index
    }
}

/// `s` with the element at `from` moved to position `to`.
pub open spec fn seq_move<A>(s: Seq<A>, from: int, to: int) -> Seq<A> {
    s.remove(from).insert(to, s[from])
}

/// The play queue of the player.
pub struct PlaylistManager {
    current_list: Vec<SongInfo>,
    current_index: usize,
    play_mode: PlayMode,
    /// Failed playback attempts since the last song that started playing.
    consecutive_failures: usize,
}

impl PlaylistManager {
    /// The songs of the queue.
    pub closed spec fn songs(&self) -> Seq<SongInfo> {
        self.current_list@
    }

    /// The current position.
    pub closed spec fn index(&self) -> int {
        self.current_index as int
    }

    /// The play mode.
    pub closed spec fn mode_of(&self) -> PlayMode {
        self.play_mode
    }

    /// Failed attempts since the last successful start.
    pub closed spec fn failures(&self) -> int {
        self.consecutive_failures as int
    }

    /// The current position is valid for the queue.
    pub open spec fn wf(&self) -> bool {
        valid_position(self.index(), self.songs().len() as int)
    }

    /// An empty queue in the given mode.
    pub fn new(play_mode: PlayMode) -> (r: Self)
        ensures
            r.wf(),
            r.songs().len() == 0,
            r.index() == 0,
            r.mode_of() == play_mode,
            r.failures() == 0,
    {
        PlaylistManager {
            current_list: Vec::new(),
            current_index: 0,
            play_mode,
            consecutive_failures: 0,
        }
    }

    /// Replaces the queue; the position is clamped into it and the failure count reset.
    pub fn set_playlist(&mut self, songs: Vec<SongInfo>, index: usize)
        ensures
            final(self).wf(),
            final(self).songs() == songs@,
            final(self).index() == (if songs@.len() == 0 {
                0
            } else if index < songs@.len() {
                index as int
            } else {
                songs@.len() - 1
            }),
            final(self).mode_of() == old(self).mode_of(),
            final(self).failures() == 0,
    {
        self.set_playlist_inner(songs, index, true);
    }

    /// Replaces the queue after skipping a failed song; the failure count is kept.
    pub fn set_playlist_after_failure(&mut self, songs: Vec<SongInfo>, index: usize)
        ensures
            final(self).wf(),
            final(self).songs() == songs@,
            final(self).index() == (if songs@.len() == 0 {
                0
            } else if index < songs@.len() {
                index as int
            } else {
                songs@.len() - 1
            }),
            final(self).mode_of() == old(self).mode_of(),
            final(self).failures() == old(self).failures(),
    {
        self.set_playlist_inner(songs, index, false);
    }

    fn set_playlist_inner(&mut self, songs: Vec<SongInfo>, index: usize, reset_failures: bool)
        ensures
            final(self).wf(),
            final(self).songs() == songs@,
            final(self).index() == (if songs@.len() == 0 {
                0
            } else if index < songs@.len() {
                index as int
            } else {
                songs@.len() - 1
            }),
            final(self).mode_of() == old(self).mode_of(),
            final(self).failures() == (if reset_failures {
                0
            } else {
                old(self).failures()
            }),
    {
        let last = if songs.len() == 0 {
            0
        } else {
            songs.len() - 1
        };
        self.current_index = if index < last {
            index
        } else {
            last
        };
        self.current_list = songs;
        if reset_failures {
            self.consecutive_failures = 0;
        }
    }

    /// A copy of the queue and the current position.
    pub fn snapshot(&self) -> (r: (Vec<SongInfo>, usize))
        ensures
            songs_view(r.0@) == songs_view(self.songs()),
            r.1 == self.index(),
    {
        (clone_songs(&self.current_list), self.current_index)
    }

    /// Number of songs in the queue.
    pub fn len(&self) -> (r: usize)
        ensures
            r == self.songs().len(),
    {
        self.current_list.len()
    }

    /// Inserts a song and returns its position. Into an empty queue the song
    /// becomes the current one; otherwise the current song stays current.
    pub fn insert(&mut self, song: SongInfo, position: InsertPosition) -> (r: usize)
        requires
            old(self).wf(),
        ensures
            final(self).wf(),
            old(self).songs().len() == 0 ==> r == 0 && final(self).index() == 0,
            old(self).songs().len() > 0 ==> r == (match position {
                InsertPosition::Next => old(self).index() + 1,
                InsertPosition::End => old(self).songs().len() as int,
            }) && final(self).index() == old(self).index(),
            final(self).songs() == old(self).songs().insert(r as int, song),
            final(self).mode_of() == old(self).mode_of(),
            final(self).failures() == old(self).failures(),
            // the current song stays current
            old(self).songs().len() > 0 ==> final(self).songs()[final(self).index()] == old(self).songs()[old(self).index()],
    {
        if self.current_list.len() == 0 {
            self.current_list.push(song);
            self.current_index = 0;
            assert(self.current_list@ == old(self).songs().insert(0, song));
            return 0;
        }
        let index = match position {
            InsertPosition::Next => self.current_index + 1,
            InsertPosition::End => self.current_list.len(),
        };
        self.current_list.insert(index, song);
        index
    }

    /// Removes the song at `target`, if there is one. The current song stays
    /// current; when it is the one removed, the song after it becomes current
    /// (the one before it when it was the last).
    pub fn remove(&mut self, target: usize)
        requires
            old(self).wf(),
        ensures
            final(self).wf(),
            target >= old(self).songs().len() ==> final(self).songs() == old(self).songs()
                && final(self).index() == old(self).index(),
            target < old(self).songs().len() ==> final(self).songs() == old(self).songs().remove(
                target as int,
            ) && final(self).index() == position_after_remove(
                old(self).index(),
                target as int,
                old(self).songs().len() as int,
            ),
            final(self).mode_of() == old(self).mode_of(),
            final(self).failures() == old(self).failures(),
            // the current song stays current when another song is removed
            target < old(self).songs().len() && target != old(self).index()
                ==> final(self).songs()[final(self).index()] == old(self).songs()[old(self).index()],
            // removing the current song selects the one that followed it, or the
            // one before it when it was last
            target < old(self).songs().len() && target == old(self).index() && final(self).songs().len() > 0 ==> final(self).songs()[final(self).index()] == (if target + 1
                < old(self).songs().len() {
                old(self).songs()[target + 1]
            } else {
                old(self).songs()[target - 1]
            }),
    {
        if target >= self.current_list.len() {
            return ;
        }
        self.current_list.remove(target);
        let len = self.current_list.len();
        if target < self.current_index {
            self.current_index = self.current_index - 1;
        } else if self.current_index >= len {
            self.current_index = if len == 0 {
                0
            } else {
                len - 1
            };
        }
    }

    /// Moves the song at `from` to position `to`; the current song stays current.
    pub fn move_item(&mut self, from: usize, to: usize)
        requires
            old(self).wf(),
        ensures
            final(self).wf(),
            (from >= old(self).songs().len() || to >= old(self).songs().len() || from == to)
                ==> final(self).songs() == old(self).songs() && final(self).index() == old(self).index(),
            !(from >= old(self).songs().len() || to >= old(self).songs().len() || from == to)
                ==> final(self).songs() == seq_move(old(self).songs(), from as int, to as int)
                && final(self).index() == position_after_move(
                old(self).index(),
                from as int,
                to as int,
            ),
            final(self).mode_of() == old(self).mode_of(),
            final(self).failures() == old(self).failures(),
            // the current song stays current
            old(self).songs().len() > 0 ==> final(self).songs()[final(self).index()] == old(self).songs()[old(self).index()],
    {
        let len = self.current_list.len();
        if from >= len || to >= len || from == to {
            return ;
        }
        let song = self.current_list.remove(from);
        self.current_list.insert(to, song);
        let current = self.current_index;
        if current == from {
            self.current_index = to;
        } else if from < current && to >= current {
            self.current_index = current - 1;
        } else if from > current && to <= current {
            self.current_index = current + 1;
        }
    }

    /// Empties the queue and resets the failure count.
    pub fn clear(&mut self)
        ensures
            final(self).wf(),
            final(self).songs().len() == 0,
            final(self).index() == 0,
            final(self).mode_of() == old(self).mode_of(),
            final(self).failures() == 0,
    {
        self.current_list.clear();
        self.current_index = 0;
        self.consecutive_failures = 0;
    }

    /// Advances after the current song ended by itself; `pick` is the random
    /// draw used in random mode. `None` when the mode stops here.
    pub fn next_entry(&mut self, pick: usize) -> (r: Option<(Vec<SongInfo>, usize)>)
        requires
            old(self).wf(),
        ensures
            final(self).wf(),
            final(self).songs() == old(self).songs(),
            final(self).mode_of() == old(self).mode_of(),
            final(self).failures() == old(self).failures(),
            old(self).songs().len() == 0 ==> r is None && final(self).index() == old(self).index(),
            old(self).songs().len() > 0 ==> match natural_next(
                old(self).mode_of(),
                old(self).index(),
                old(self).songs().len() as int,
                pick as int,
            ) {
                Some(i) => r matches Some(p) && p.1 == i && final(self).index() == i
                    && songs_view(p.0@) == songs_view(old(self).songs()),
                None => r is None && final(self).index() == old(self).index(),
            },
    {
        let len = self.current_list.len();
        if len == 0 {
            return None;
        }
        match self.play_mode.next_index(self.current_index, len, pick) {
            Some(next) => {
                self.current_index = next;
                Some((clone_songs(&self.current_list), next))
            },
            None => None,
        }
    }

    /// Advances when the user skips forward.
    pub fn next_manual_entry(&mut self, pick: usize) -> (r: Option<(Vec<SongInfo>, usize)>)
        requires
            old(self).wf(),
        ensures
            final(self).wf(),
            final(self).songs() == old(self).songs(),
            final(self).mode_of() == old(self).mode_of(),
            final(self).failures() == old(self).failures(),
            old(self).songs().len() == 0 ==> r is None && final(self).index() == old(self).index(),
            old(self).songs().len() > 0 ==> match manual_next(
                old(self).mode_of(),
                old(self).index(),
                old(self).songs().len() as int,
                pick as int,
            ) {
                Some(i) => r matches Some(p) && p.1 == i && final(self).index() == i
                    && songs_view(p.0@) == songs_view(old(self).songs()),
                None => r is None && final(self).index() == old(self).index(),
            },
    {
        let len = self.current_list.len();
        if len == 0 {
            return None;
        }
        match self.play_mode.manual_next_index(self.current_index, len, pick) {
            Some(next) => {
                self.current_index = next;
                Some((clone_songs(&self.current_list), next))
            },
            None => None,
        }
    }

    /// Picks the next song after every way of playing the current one failed.
    /// Gives up (`None`) once as many songs failed in a row as the queue holds,
    /// so a queue of unplayable songs is tried at most once round.
    pub fn next_after_failure(&mut self, pick: usize) -> (r: Option<(Vec<SongInfo>, usize)>)
        requires
            old(self).wf(),
        ensures
            final(self).wf(),
            final(self).songs() == old(self).songs(),
            final(self).mode_of() == old(self).mode_of(),
            old(self).songs().len() == 0 ==> r is None && final(self).index() == old(self).index()
                && final(self).failures() == old(self).failures(),
            old(self).songs().len() > 0 ==> final(self).failures() == (if old(self).failures()
                == usize::MAX {
                usize::MAX as int
            } else {
                old(self).failures() + 1
            }),
            old(self).songs().len() > 0 && final(self).failures() >= old(self).songs().len()
                ==> r is None && final(self).index() == old(self).index(),
            old(self).songs().len() > 0 && final(self).failures() < old(self).songs().len()
                ==> match manual_next(
                old(self).mode_of(),
                old(self).index(),
                old(self).songs().len() as int,
                pick as int,
            ) {
                Some(i) => r matches Some(p) && p.1 == i && final(self).index() == i
                    && songs_view(p.0@) == songs_view(old(self).songs()),
                None => r is None && final(self).index() == old(self).index(),
            },
    {
        let len = self.current_list.len();
        if len == 0 {
            return None;
        }
        self.consecutive_failures = if self.consecutive_failures == usize::MAX {
            usize::MAX
        } else {
            self.consecutive_failures + 1
        };
        if self.consecutive_failures >= len {
            return None;
        }
        match self.play_mode.manual_next_index(self.current_index, len, pick) {
            Some(next) => {
                self.current_index = next;
                Some((clone_songs(&self.current_list), next))
            },
            None => None,
        }
    }

    /// Records that a song started playing: the failure count restarts from zero.
    pub fn mark_playback_started(&mut self)
        ensures
            final(self).songs() == old(self).songs(),
            final(self).index() == old(self).index(),
            final(self).mode_of() == old(self).mode_of(),
            final(self).failures() == 0,
    {
        self.consecutive_failures = 0;
    }

    /// Steps back when the user skips backward.
    pub fn prev_manual_entry(&mut self, pick: usize) -> (r: Option<(Vec<SongInfo>, usize)>)
        requires
            old(self).wf(),
        ensures
            final(self).wf(),
            final(self).songs() == old(self).songs(),
            final(self).mode_of() == old(self).mode_of(),
            final(self).failures() == old(self).failures(),
            old(self).songs().len() == 0 ==> r is None && final(self).index() == old(self).index(),
            old(self).songs().len() > 0 ==> match manual_prev(
                old(self).mode_of(),
                old(self).index(),
                old(self).songs().len() as int,
                pick as int,
            ) {
                Some(i) => r matches Some(p) && p.1 == i && final(self).index() == i
                    && songs_view(p.0@) == songs_view(old(self).songs()),
                None => r is None && final(self).index() == old(self).index(),
            },
    {
        let len = self.current_list.len();
        if len == 0 {
            return None;
        }
        match self.play_mode.manual_prev_index(self.current_index, len, pick) {
            Some(prev) => {
                self.current_index = prev;
                Some((clone_songs(&self.current_list), prev))
            },
            None => None,
        }
    }

    /// The play mode.
    pub fn mode(&self) -> (r: PlayMode)
        ensures
            r == self.mode_of(),
    {
        self.play_mode
    }

    /// Switches to the following play mode and returns it.
    pub fn cycle_mode(&mut self) -> (r: PlayMode)
        ensures
            r == following_mode(old(self).mode_of()),
            final(self).mode_of() == r,
            final(self).songs() == old(self).songs(),
            final(self).index() == old(self).index(),
            final(self).failures() == old(self).failures(),
    {
        self.play_mode = self.play_mode.next_mode();
        self.play_mode
    }
}

/// The queue kept by the application service: songs and a current position.
pub struct QueueService {
    songs: Vec<SongInfo>,
    index: usize,
}

/// `index` clamped into a list of `len` songs (zero when it is empty).
pub open spec fn clamp_position(index: int, len: int) -> int {
    if len == 0 {
        0
    } else if index < len {
        index
    } else {
        len - 1
    }
}

impl QueueService {
    /// The songs of the queue.
    pub closed spec fn songs(&self) -> Seq<SongInfo> {
        self.songs@
    }

    /// The current position.
    pub closed spec fn index(&self) -> int {
        self.index as int
    }

    /// The current position is valid for the queue.
    pub open spec fn wf(&self) -> bool {
        valid_position(self.index(), self.songs().len() as int)
    }

    /// An empty queue.
    pub fn new() -> (r: Self)
        ensures
            r.wf(),
            r.songs().len() == 0,
            r.index() == 0,
    {
        QueueService { songs: Vec::new(), index: 0 }
    }

    /// A copy of the songs and the current position.
    pub fn snapshot(&self) -> (r: (Vec<SongInfo>, usize))
        ensures
            songs_view(r.0@) == songs_view(self.songs()),
            r.1 == clamp_position(self.index(), self.songs().len() as int),
    {
        let len = self.songs.len();
        let last = if len == 0 {
            0
        } else {
            len - 1
        };
        let index = if self.index < last {
            self.index
        } else {
            last
        };
        (clone_songs(&self.songs), index)
    }

    /// Replaces the songs; the position is clamped into them.
    pub fn replace(&mut self, songs: Vec<SongInfo>, index: usize)
        ensures
            final(self).wf(),
            final(self).songs() == songs@,
            final(self).index() == clamp_position(index as int, songs@.len() as int),
    {
        let last = if songs.len() == 0 {
            0
        } else {
            songs.len() - 1
        };
        self.index = if index < last {
            index
        } else {
            last
        };
        self.songs = songs;
    }

    /// Adds a song after the current one (`next`) or at the end, and returns
    /// its position. Into an empty queue the song becomes the current one.
    pub fn add(&mut self, song: SongInfo, next: bool) -> (r: usize)
        requires
            old(self).wf(),
        ensures
            final(self).wf(),
            old(self).songs().len() == 0 ==> r == 0 && final(self).index() == 0,
            old(self).songs().len() > 0 ==> r == (if next {
                old(self).index() + 1
            } else {
                old(self).songs().len() as int
            }) && final(self).index() == old(self).index(),
            final(self).songs() == old(self).songs().insert(r as int, song),
    {
        if self.songs.len() == 0 {
            self.songs.push(song);
            self.index = 0;
            assert(self.songs@ == old(self).songs().insert(0, song));
            return 0;
        }
        let pos = if next {
            self.index + 1
        } else {
            self.songs.len()
        };
        self.songs.insert(pos, song);
        pos
    }

    /// Removes and returns the song at `index`; `None` when there is none.
    pub fn remove(&mut self, index: usize) -> (r: Option<SongInfo>)
        requires
            old(self).wf(),
        ensures
            final(self).wf(),
            index >= old(self).songs().len() ==> r is None && final(self).songs() == old(
                self).songs() && final(self).index() == old(self).index(),
            index < old(self).songs().len() ==> r == Some(old(self).songs()[index as int])
                && final(self).songs() == old(self).songs().remove(index as int)
                && final(self).index() == position_after_remove(
                old(self).index(),
                index as int,
                old(self).songs().len() as int,
            ),
            index < old(self).songs().len() && index != old(self).index()
                ==> final(self).songs()[final(self).index()] == old(self).songs()[old(self).index()],
    {
        if index >= self.songs.len() {
            return None;
        }
        let removed = self.songs.remove(index);
        let current = self.index;
        let len = self.songs.len();
        self.index = if len == 0 {
            0
        } else if index < current {
            current - 1
        } else if current < len - 1 {
            current
        } else {
            len - 1
        };
        Some(removed)
    }

    /// Empties the queue.
    pub fn clear(&mut self)
        ensures
            final(self).wf(),
            final(self).songs().len() == 0,
            final(self).index() == 0,
    {
        self.replace(Vec::new(), 0);
    }

    /// Moves the current position, clamped into the queue.
    pub fn set_index(&mut self, index: usize)
        ensures
            final(self).wf(),
            final(self).songs() == old(self).songs(),
            final(self).index() == clamp_position(index as int, old(self).songs().len() as int),
    {
        let len = self.songs.len();
        let last = if len == 0 {
            0
        } else {
            len - 1
        };
        self.index = if index < last {
            index
        } else {
            last
        };
    }
}

} // verus!
