//! Where a click on the progress bar seeks to, as a fraction of the track.
use vstd::prelude::*;
use crate::terminal::CellArea;
use crate::ui::context_menu::Position;
use crate::ui::hit_test::covers;

verus! {

/// Columns of the progress row before the bar (the elapsed time label).
pub const BAR_LEFT_LABEL: u16 = 7;

/// Columns of the progress row that are not the bar (both time labels).
pub const BAR_LABELS: u16 = 16;

/// Below this width the whole row is the bar.
pub const BAR_MIN_ROW_WIDTH: u16 = 18;

/// The fraction `numerator / denominator` of the track.
#[derive(Debug, Clone, Copy, PartialEq, Eq, Structural)]
pub struct SeekFraction {
    pub numerator: u16,
    pub denominator: u16,
}

/// The larger of a value and one.
pub open spec fn at_least_one(v: u16) -> u16 {
    if v >= 1 { v } else { 1 }
}

/// Where a click in `column` of the progress row `area` seeks to. A narrow
/// row is all bar: the click's offset over the row's last column. A wider
/// row has the bar between the time labels: a click on the left label seeks
/// to the start, on the right label to the end, on the bar to its offset
/// over the bar's last column. Nothing for a click outside the row's first
/// line or an empty row.
pub open spec fn seek_fraction_at(area: CellArea, column: u16) -> Option<SeekFraction> {
    if area.width == 0 || !covers(area, Position { x: column, y: area.y }) {
        None
    } else if area.width < BAR_MIN_ROW_WIDTH {
        Some(SeekFraction {
            numerator: column.saturating_sub(area.x),
            denominator: at_least_one(area.width.saturating_sub(1)),
        })
    } else {
        let bar_x = area.x.saturating_add(BAR_LEFT_LABEL);
        let bar_width = at_least_one(area.width.saturating_sub(BAR_LABELS));
        if column < bar_x {
            Some(SeekFraction { numerator: 0, denominator: 1 })
        } else if column >= bar_x.saturating_add(bar_width) {
            Some(SeekFraction { numerator: 1, denominator: 1 })
        } else {
            Some(SeekFraction {
                numerator: (column - bar_x) as u16,
                denominator: at_least_one(bar_width.saturating_sub(1)),
            })
        }
    }
}

/// The fraction of the track a click in `column` of the progress row
/// `area` seeks to (see [`seek_fraction_at`]); it is never above one.
pub fn seek_fraction(area: CellArea, column: u16) -> (r: Option<SeekFraction>)
    ensures
        r == seek_fraction_at(area, column),
        r matches Some(f) ==> 0 < f.denominator && f.numerator <= f.denominator,
{
    if area.width == 0 || !area.contains(Position { x: column, y: area.y }) {
        return None;
    }
    if area.width < BAR_MIN_ROW_WIDTH {
        let width = area.width.saturating_sub(1);
        return Some(SeekFraction {
            numerator: column.saturating_sub(area.x),
            denominator: if width >= 1 { width } else { 1 },
        });
    }
    let bar_x = area.x.saturating_add(BAR_LEFT_LABEL);
    let w = area.width.saturating_sub(BAR_LABELS);
    let bar_width = if w >= 1 { w } else { 1 };
    if column < bar_x {
        Some(SeekFraction { numerator: 0, denominator: 1 })
    } else if column >= bar_x.saturating_add(bar_width) {
        Some(SeekFraction { numerator: 1, denominator: 1 })
    } else {
        let last = bar_width.saturating_sub(1);
        Some(SeekFraction { numerator: column - bar_x, denominator: if last >= 1 { last } else { 1 } })
    }
}

} // verus!
