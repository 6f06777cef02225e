//! Scrolling of lists: the selected row stays inside the visible window.
use vstd::prelude::*;

verus! {

/// The first visible row after scrolling so that `selected` shows in a window
/// of `visible` rows over `total` rows, from the first visible row `offset`:
/// 0 when the window or the list is empty; else scroll just enough to show
/// the selected row, then never past the last full window.
pub open spec fn scrolled_offset(selected: int, visible: int, total: int, offset: int) -> int {
    if visible == 0 || total == 0 {
        0
    } else {
        let end = if offset + visible > usize::MAX {
            usize::MAX as int
        } else {
            offset + visible
        };
        let o = if selected >= end {
            selected - (visible - 1)
        } else if selected < offset {
            selected
        } else {
            offset
        };
        let last = if total >= visible {
            total - visible
        } else {
            0
        };
        if o <= last {
            o
        } else {
            last
        }
    }
}

/// Moves `offset` so that row `selected` lies in the window of `visible` rows
/// (see [`scrolled_offset`]). When the selection is a row of the list, it is
/// inside the window afterwards, and the window does not run past the list.
pub fn ensure_visible(selected: usize, visible: usize, total: usize, offset: &mut usize)
    ensures
        *final(offset) == scrolled_offset(selected as int, visible as int, total as int, *old(offset) as int),
        visible > 0 && selected < total ==> *final(offset) <= selected < *final(offset) + visible,
        total >= visible ==> *final(offset) + visible <= total,
{
    if visible == 0 || total == 0 {
        *offset = 0;
        return;
    }
    if selected >= offset.saturating_add(visible) {
        *offset = selected.saturating_sub(visible - 1);
    } else if selected < *offset {
        *offset = selected;
    }
    let last = total.saturating_sub(visible);
    if *offset > last {
        *offset = last;
    }
}

} // verus!
