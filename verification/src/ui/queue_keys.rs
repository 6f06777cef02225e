//! Editing keys of the play queue on the main page.
use vstd::prelude::*;
use crate::keybinding::keys::{KeyCode, KeyEvent, KeyModifiers, no_mods};
use crate::time::Duration;

verus! {

/// An edit of the play queue.
#[derive(Debug, Clone, Copy, PartialEq, Eq, Structural)]
pub enum QueueEditCommand {
    MoveUp,
    MoveDown,
    RemoveSelected,
    Clear,
}

/// Seconds within which a second clear key confirms clearing the queue.
pub const CLEAR_QUEUE_CONFIRM_SECS: u64 = 5;

/// The queue edit of a key: Shift with Up, `k` or `K`, or a bare `K`, moves
/// the selected song up; the same with Down, `j` and `J` moves it down; a
/// bare `d` or Delete removes it; Shift with `d` or `D`, or a bare `D`,
/// clears the queue.
pub open spec fn queue_edit(key: KeyEvent) -> Option<QueueEditCommand> {
    let plain = key.modifiers == no_mods();
    let shift = key.modifiers == (KeyModifiers { shift: true, ..no_mods() });
    let c = key.code;
    if (shift && (c == KeyCode::Up || c == KeyCode::Char('k') || c == KeyCode::Char('K'))) || (plain && c
        == KeyCode::Char('K')) {
        Some(QueueEditCommand::MoveUp)
    } else if (shift && (c == KeyCode::Down || c == KeyCode::Char('j') || c == KeyCode::Char('J'))) || (plain
        && c == KeyCode::Char('J')) {
        Some(QueueEditCommand::MoveDown)
    } else if plain && (c == KeyCode::Char('d') || c == KeyCode::Delete) {
        Some(QueueEditCommand::RemoveSelected)
    } else if (shift && (c == KeyCode::Char('d') || c == KeyCode::Char('D'))) || (plain && c == KeyCode::Char(
        'D',
    )) {
        Some(QueueEditCommand::Clear)
    } else {
        None
    }
}

/// The queue edit of a key (see [`queue_edit`]).
pub fn queue_edit_command(key: &KeyEvent) -> (r: Option<QueueEditCommand>)
    ensures
        r == queue_edit(*key),
{
    let plain = key.modifiers == KeyModifiers::none();
    let shift = key.modifiers == KeyModifiers::shift_only();
    let c = key.code;
    if (shift && (c == KeyCode::Up || c == KeyCode::Char('k') || c == KeyCode::Char('K'))) || (plain && c
        == KeyCode::Char('K')) {
        Some(QueueEditCommand::MoveUp)
    } else if (shift && (c == KeyCode::Down || c == KeyCode::Char('j') || c == KeyCode::Char('J'))) || (plain
        && c == KeyCode::Char('J')) {
        Some(QueueEditCommand::MoveDown)
    } else if plain && (c == KeyCode::Char('d') || c == KeyCode::Delete) {
        Some(QueueEditCommand::RemoveSelected)
    } else if (shift && (c == KeyCode::Char('d') || c == KeyCode::Char('D'))) || (plain && c == KeyCode::Char(
        'D',
    )) {
        Some(QueueEditCommand::Clear)
    } else {
        None
    }
}

/// Whether a clear key confirms clearing: a first clear key was pressed
/// `since_armed` ago, at most [`CLEAR_QUEUE_CONFIRM_SECS`] seconds.
pub fn clear_is_confirmed(since_armed: Option<Duration>) -> (r: bool)
    ensures
        r == (since_armed matches Some(d) && d.total_nanos() <= CLEAR_QUEUE_CONFIRM_SECS * 1_000_000_000),
{
    match since_armed {
        Some(d) => {
            let window = Duration::from_secs(CLEAR_QUEUE_CONFIRM_SECS);
            !window.lt(&d)
        },
        None => false,
    }
}

} // verus!
