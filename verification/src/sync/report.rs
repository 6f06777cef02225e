//! Results of synchronising the library with an account, and the phases the
//! synchronisation dialog goes through.
use vstd::prelude::*;
use crate::text::str_eq;

verus! {

/// What a synchronisation with an account did.
#[derive(Debug, Clone)]
pub struct NeteaseSyncReport {
    pub playlists_created: usize,
    pub playlists_pulled: usize,
    pub songs_pulled: usize,
    pub songs_pushed: usize,
    pub favorites_pulled: usize,
    pub favorites_pushed: usize,
    pub unmatched: usize,
    pub failed: usize,
}

impl Default for NeteaseSyncReport {
    fn default() -> (r: NeteaseSyncReport)
        ensures
            r.playlists_created == 0 && r.playlists_pulled == 0 && r.songs_pulled == 0 && r.songs_pushed == 0,
            r.favorites_pulled == 0 && r.favorites_pushed == 0 && r.unmatched == 0 && r.failed == 0,
    {
        NeteaseSyncReport {
            playlists_created: 0,
            playlists_pulled: 0,
            songs_pulled: 0,
            songs_pushed: 0,
            favorites_pulled: 0,
            favorites_pushed: 0,
            unmatched: 0,
            failed: 0,
        }
    }
}

/// The difference between a local playlist and the account's.
#[derive(Debug, Clone)]
pub struct PlaylistDiff {
    pub name: String,
    pub upload: usize,
    pub download: usize,
    pub matched: usize,
    pub unmatched: usize,
    pub mapping: String,
}

impl Default for PlaylistDiff {
    fn default() -> (r: PlaylistDiff)
        ensures
            r.name@.len() == 0 && r.mapping@.len() == 0,
            r.upload == 0 && r.download == 0 && r.matched == 0 && r.unmatched == 0,
    {
        PlaylistDiff { name: String::new(), upload: 0, download: 0, matched: 0, unmatched: 0, mapping: String::new() }
    }
}

/// What a synchronisation would do, shown before it runs.
#[derive(Debug, Clone)]
pub struct NeteaseSyncPreview {
    pub playlists: Vec<PlaylistDiff>,
    pub upload: usize,
    pub download: usize,
    pub matched: usize,
    pub unmatched: usize,
    pub favorites_upload: usize,
    pub favorites_download: usize,
    pub remote_only: usize,
    pub local_only: usize,
    /// Title and artist of songs without a match (at most 100).
    pub unmatched_songs: Vec<(String, String)>,
}

impl Default for NeteaseSyncPreview {
    fn default() -> (r: NeteaseSyncPreview)
        ensures
            r.playlists@.len() == 0 && r.unmatched_songs@.len() == 0,
            r.upload == 0 && r.download == 0 && r.matched == 0 && r.unmatched == 0,
            r.favorites_upload == 0 && r.favorites_download == 0 && r.remote_only == 0 && r.local_only == 0,
    {
        NeteaseSyncPreview {
            playlists: Vec::new(),
            upload: 0,
            download: 0,
            matched: 0,
            unmatched: 0,
            favorites_upload: 0,
            favorites_download: 0,
            remote_only: 0,
            local_only: 0,
            unmatched_songs: Vec::new(),
        }
    }
}

/// Phase of the synchronisation dialog.
#[derive(Debug, Clone, Copy, PartialEq, Eq, Structural)]
pub enum SyncPhase {
    Preparing,
    Preview,
    Running,
    Done,
    Failed,
    Cancelled,
}

/// State of the synchronisation dialog.
#[derive(Debug, Clone)]
pub struct SyncUiState {
    pub phase: SyncPhase,
    pub preview: Option<NeteaseSyncPreview>,
    pub report: Option<NeteaseSyncReport>,
    pub error: Option<String>,
}

impl Default for SyncUiState {
    /// Preparing, with nothing known yet.
    fn default() -> (r: SyncUiState)
        ensures
            r.phase == SyncPhase::Preparing,
            r.preview is None,
            r.report is None,
            r.error is None,
    {
        SyncUiState { phase: SyncPhase::Preparing, preview: None, report: None, error: None }
    }
}

/// The message of a synchronisation that was cancelled.
pub open spec fn cancelled_message() -> Seq<char> {
    "同步已取消"@
}

impl SyncUiState {
    /// The preview arrived: shown on success, the error otherwise.
    pub fn preview_loaded(&mut self, result: Result<NeteaseSyncPreview, String>)
        ensures
            match result {
                Ok(p) => final(self).phase == SyncPhase::Preview && final(self).preview == Some(p),
                Err(e) => final(self).phase == SyncPhase::Failed && final(self).error == Some(e),
            },
    {
        match result {
            Ok(p) => {
                self.preview = Some(p);
                self.phase = SyncPhase::Preview;
            },
            Err(e) => {
                self.error = Some(e);
                self.phase = SyncPhase::Failed;
            },
        }
    }

    /// Whether the synchronisation may be started: after a preview, a
    /// failure or a cancellation.
    pub fn can_confirm(&self) -> (r: bool)
        ensures
            r == (self.phase == SyncPhase::Preview || self.phase == SyncPhase::Failed || self.phase
                == SyncPhase::Cancelled),
    {
        match self.phase {
            SyncPhase::Preview | SyncPhase::Failed | SyncPhase::Cancelled => true,
            _ => false,
        }
    }

    /// The synchronisation started: running, no error.
    pub fn start_running(&mut self)
        ensures
            final(self).phase == SyncPhase::Running,
            final(self).error is None,
            final(self).preview == old(self).preview,
            final(self).report == old(self).report,
    {
        self.phase = SyncPhase::Running;
        self.error = None;
    }

    /// The synchronisation ended: done with its report, or the error, the
    /// phase being cancelled when the error says it was cancelled.
    pub fn sync_finished(&mut self, result: Result<NeteaseSyncReport, String>)
        ensures
            match result {
                Ok(rep) => final(self).phase == SyncPhase::Done && final(self).report == Some(rep),
                Err(e) => final(self).error == Some(e) && final(self).phase == if e@ == cancelled_message() {
                    SyncPhase::Cancelled
                } else {
                    SyncPhase::Failed
                },
            },
    {
        match result {
            Ok(rep) => {
                self.report = Some(rep);
                self.phase = SyncPhase::Done;
            },
            Err(e) => {
                let cancelled = str_eq(e.as_str(), "同步已取消");
                self.error = Some(e);
                self.phase = if cancelled {
                    SyncPhase::Cancelled
                } else {
                    SyncPhase::Failed
                };
            },
        }
    }

    /// The user cancelled: a synchronisation being prepared or running is
    /// cancelled; other phases stay.
    pub fn cancel(&mut self)
        ensures
            final(self).phase == if old(self).phase == SyncPhase::Preparing || old(self).phase == SyncPhase::Running {
                SyncPhase::Cancelled
            } else {
                old(self).phase
            },
            final(self).preview == old(self).preview,
            final(self).report == old(self).report,
            final(self).error == old(self).error,
    {
        if self.phase == SyncPhase::Preparing || self.phase == SyncPhase::Running {
            self.phase = SyncPhase::Cancelled;
        }
    }
}

} // verus!
