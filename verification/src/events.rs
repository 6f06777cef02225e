//! Small enumerations exchanged between pages and the player core.
use vstd::prelude::*;

verus! {

/// Page identifier.
#[derive(Debug, Clone, PartialEq, Eq, Structural)]
pub enum PageId {
    Main,
    Search,
    PlayQueue,
    Settings,
}

/// Severity of a notification.
#[derive(Debug, Clone, PartialEq, Eq, Structural)]
pub enum NotificationLevel {
    Info,
    Success,
    Warn,
    Error,
}

/// Where a song is inserted into the play queue.
#[derive(Debug, Clone, Copy, PartialEq, Eq, Structural)]
pub enum InsertPosition {
    /// Right after the current song.
    Next,
    /// At the end of the queue.
    End,
}

} // verus!
