//! Where the panels of the settings page go, and which option a click in
//! the options panel picks. The splitting itself is ratatui's layout solver.
use vstd::prelude::*;
use ratatui::layout::{Constraint, Direction, Layout, Rect};
use crate::terminal::CellArea;
use crate::ui::context_menu::Position;
use crate::keybinding::keys::{KeyCode, KeyEvent, KeyModifiers, no_mods, normalized};
use crate::keybinding::resolver::{KeybindingResolver, page_action};
use crate::text::to_owned_string;
use crate::ui::hit_test::{MouseButton, MouseEvent, MouseEventKind, covers, inside_border, min_u16};
use crate::ui::settings::{SETTING_OPTION_KEYS, SettingsPage};
use crate::ui::settings_input::{SettingsCommand, SettingsContext, SettingsModel, settings_step};

verus! {

/// Number of options of the settings page.
pub const SETTINGS_OPTION_COUNT: u16 = 27;

/// The narrowest options panel (inside its border) that shows the options
/// in two columns.
pub const TWO_COLUMN_OPTIONS_MIN_WIDTH: u16 = 36;

/// The narrowest settings page that puts the two source lists side by side.
pub const WIDE_SETTINGS_MIN_WIDTH: u16 = 72;

/// The parts that ratatui's layout solver gives for `area` split from top
/// to bottom into `top` rows and the rest (`Length(top)`, `Min(0)`).
pub uninterp spec fn solved_top_and_rest(area: CellArea, top: u16) -> (CellArea, CellArea);

/// The parts that ratatui's layout solver gives for `area` split from left
/// to right into two halves (`Percentage(50)` twice).
pub uninterp spec fn solved_halves(area: CellArea) -> (CellArea, CellArea);

/// The parts that ratatui's layout solver gives for `area` split from top
/// to bottom into `top` rows and two halves of the rest (`Length(top)`,
/// `Ratio(1, 2)` twice).
pub uninterp spec fn solved_top_and_two_halves(area: CellArea, top: u16) -> (CellArea, CellArea, CellArea);

/// Calls ratatui's `Layout::split` with a vertical `[Length(top), Min(0)]`
/// layout; claims only that the result is the solver's, named
/// [`solved_top_and_rest`].
#[verifier::external_body]
fn split_top_and_rest(area: CellArea, top: u16) -> (r: (CellArea, CellArea))
    ensures
        r == solved_top_and_rest(area, top),
{
    let p = Layout::default()
        .direction(Direction::Vertical)
        .constraints([Constraint::Length(top), Constraint::Min(0)])
        .split(Rect { x: area.x, y: area.y, width: area.width, height: area.height });
    (
        CellArea { x: p[0].x, y: p[0].y, width: p[0].width, height: p[0].height },
        CellArea { x: p[1].x, y: p[1].y, width: p[1].width, height: p[1].height },
    )
}

/// Calls ratatui's `Layout::split` with a horizontal
/// `[Percentage(50), Percentage(50)]` layout; claims only that the result is
/// the solver's, named [`solved_halves`].
#[verifier::external_body]
fn split_halves(area: CellArea) -> (r: (CellArea, CellArea))
    ensures
        r == solved_halves(area),
{
    let p = Layout::default()
        .direction(Direction::Horizontal)
        .constraints([Constraint::Percentage(50), Constraint::Percentage(50)])
        .split(Rect { x: area.x, y: area.y, width: area.width, height: area.height });
    (
        CellArea { x: p[0].x, y: p[0].y, width: p[0].width, height: p[0].height },
        CellArea { x: p[1].x, y: p[1].y, width: p[1].width, height: p[1].height },
    )
}

/// Calls ratatui's `Layout::split` with a vertical
/// `[Length(top), Ratio(1, 2), Ratio(1, 2)]` layout; claims only that the
/// result is the solver's, named [`solved_top_and_two_halves`].
#[verifier::external_body]
fn split_top_and_two_halves(area: CellArea, top: u16) -> (r: (CellArea, CellArea, CellArea))
    ensures
        r == solved_top_and_two_halves(area, top),
{
    let h = Constraint::Ratio(1, 2);
    let p = Layout::default()
        .direction(Direction::Vertical)
        .constraints([Constraint::Length(top), h, h])
        .split(Rect { x: area.x, y: area.y, width: area.width, height: area.height });
    (
        CellArea { x: p[0].x, y: p[0].y, width: p[0].width, height: p[0].height },
        CellArea { x: p[1].x, y: p[1].y, width: p[1].width, height: p[1].height },
        CellArea { x: p[2].x, y: p[2].y, width: p[2].width, height: p[2].height },
    )
}

/// Rows of the options panel of a page `panel_width` columns wide: the
/// options in two columns when the panel is wide enough, else one, and the
/// border.
pub open spec fn options_height(panel_width: u16) -> u16 {
    let rows = if panel_width.saturating_sub(2) >= TWO_COLUMN_OPTIONS_MIN_WIDTH {
        (SETTINGS_OPTION_COUNT + 1) / 2
    } else {
        SETTINGS_OPTION_COUNT as int
    };
    (rows + 2) as u16
}

/// Height of the options panel (see [`options_height`]).
pub fn setting_options_height(panel_width: u16) -> (r: u16)
    ensures
        r == options_height(panel_width),
{
    let rows = if panel_width.saturating_sub(2) >= TWO_COLUMN_OPTIONS_MIN_WIDTH {
        (SETTINGS_OPTION_COUNT + 1) / 2
    } else {
        SETTINGS_OPTION_COUNT
    };
    rows + 2
}

/// The panels of the settings page on `area`: options, JS sources, local
/// music folders. The options panel takes its height (at most the page's)
/// at the top; below it the two lists share the rest side by side on a wide
/// page, else they share it one above the other.
pub open spec fn settings_panels(area: CellArea) -> (CellArea, CellArea, CellArea) {
    let top = min_u16(options_height(area.width), area.height);
    if area.width >= WIDE_SETTINGS_MIN_WIDTH {
        let (upper, lower) = solved_top_and_rest(area, top);
        let (left, right) = solved_halves(lower);
        (upper, left, right)
    } else {
        solved_top_and_two_halves(area, top)
    }
}

/// The three panels of the settings page (see [`settings_panels`]).
pub fn settings_chunks(area: CellArea) -> (r: [CellArea; 3])
    ensures
        r@ == seq![settings_panels(area).0, settings_panels(area).1, settings_panels(area).2],
{
    let height = setting_options_height(area.width);
    let top = if height <= area.height { height } else { area.height };
    if area.width >= WIDE_SETTINGS_MIN_WIDTH {
        let (upper, lower) = split_top_and_rest(area, top);
        let (left, right) = split_halves(lower);
        let r = [upper, left, right];
        assert(r@ =~= seq![upper, left, right]);
        r
    } else {
        let (a, b, c) = split_top_and_two_halves(area, top);
        let r = [a, b, c];
        assert(r@ =~= seq![a, b, c]);
        r
    }
}

/// Whether the options panel whose inside is `area` shows two columns.
pub fn setting_options_use_two_columns(area: CellArea) -> (r: bool)
    ensures
        r == (area.width >= TWO_COLUMN_OPTIONS_MIN_WIDTH),
{
    area.width >= TWO_COLUMN_OPTIONS_MIN_WIDTH
}

/// The option that a click at `p` picks inside the options panel `area`:
/// the row below the panel's top, doubled and plus one in the right half
/// when the options are in two columns (saturating).
pub open spec fn option_index(area: CellArea, p: Position) -> u16 {
    let row = p.y.saturating_sub(area.y);
    if area.width < TWO_COLUMN_OPTIONS_MIN_WIDTH {
        row
    } else {
        let column: int = if covers(solved_halves(area).1, p) { 1 } else { 0 };
        if row * 2 + column <= u16::MAX { (row * 2 + column) as u16 } else { u16::MAX }
    }
}

/// The option clicked at `position` (see [`option_index`]).
pub fn setting_option_index(area: CellArea, position: Position) -> (r: u16)
    ensures
        r == option_index(area, position),
{
    let row = position.y.saturating_sub(area.y);
    if !setting_options_use_two_columns(area) {
        return row;
    }
    let (_, right) = split_halves(area);
    let column: u16 = if right.contains(position) { 1 } else { 0 };
    let doubled = if row <= u16::MAX / 2 { row * 2 } else { u16::MAX };
    doubled.saturating_add(column)
}

/// The entry of a list panel (two header rows inside the border) on
/// `panel` that `p` hits, among `len` entries.
pub open spec fn panel_entry(panel: CellArea, p: Position, len: usize) -> Option<usize> {
    let inner = inside_border(panel);
    if covers(inner, p) && p.y >= inner.y.saturating_add(2) && p.y - (inner.y + 2) < len {
        Some((p.y - (inner.y + 2)) as usize)
    } else {
        None
    }
}

/// The settings page after a mouse event on the page drawn on `area`, and
/// its request, `bound_of` giving the settings binding of a key. Nothing
/// happens while a script source is typed. The wheel moves through the
/// script sources. A left click on an option does what its key does; else
/// a click on a script source or a local folder selects and focuses it.
pub open spec fn settings_mouse(
    m: SettingsModel,
    event: MouseEvent,
    area: CellArea,
    ctx: SettingsContext,
    proxy_url: Seq<char>,
    bound_of: spec_fn(KeyEvent) -> Option<crate::keybinding::config::Action>,
) -> (SettingsModel, SettingsCommand<Seq<char>>) {
    let p = Position { x: event.column, y: event.row };
    if m.input_mode {
        (m, SettingsCommand::Nothing)
    } else {
        match event.kind {
            MouseEventKind::ScrollUp => (
                SettingsModel { selected_source: if m.selected_source >= 1 { (m.selected_source - 1) as usize } else { 0 }, ..m },
                SettingsCommand::Nothing,
            ),
            MouseEventKind::ScrollDown => {
                let last: int = if ctx.js_source_count >= 1 { ctx.js_source_count - 1 } else { 0 };
                (
                    SettingsModel { selected_source: (if m.selected_source + 1 <= last { m.selected_source + 1 } else { last }) as usize, ..m },
                    SettingsCommand::Nothing,
                )
            },
            MouseEventKind::Down(MouseButton::Left) => {
                let panels = settings_panels(area);
                let options = inside_border(panels.0);
                let index = option_index(options, p);
                if covers(options, p) && index < SETTINGS_OPTION_COUNT {
                    let key = KeyEvent { code: KeyCode::Char(SETTING_OPTION_KEYS@[index as int]), modifiers: no_mods() };
                    settings_step(m, key, ctx, proxy_url, bound_of(key))
                } else {
                    let m1 = match panel_entry(panels.1, p, ctx.js_source_count) {
                        Some(i) => SettingsModel { selected_source: i, focus: "js"@, ..m },
                        None => m,
                    };
                    let m2 = match panel_entry(panels.2, p, ctx.local_path_count) {
                        Some(i) => SettingsModel { selected_local_path: i, focus: "local"@, ..m1 },
                        None => m1,
                    };
                    (m2, SettingsCommand::Nothing)
                }
            },
            _ => (m, SettingsCommand::Nothing),
        }
    }
}

/// The entry of a list panel that `p` hits (see [`panel_entry`]).
fn panel_entry_at(panel: CellArea, p: Position, len: usize) -> (r: Option<usize>)
    ensures
        r == panel_entry(panel, p, len),
{
    let inner = panel.inner();
    if inner.contains(p) && p.y >= inner.y.saturating_add(2) {
        let index = (p.y - (inner.y + 2)) as usize;
        if index < len {
            return Some(index);
        }
    }
    None
}

impl SettingsPage {
    /// Handles a mouse event on the settings page drawn on `area` (see
    /// [`settings_mouse`]); `ctx`, `proxy_url` and `resolver` are those of
    /// [`SettingsPage::handle_input`].
    pub fn handle_mouse(
        &mut self,
        event: MouseEvent,
        area: CellArea,
        ctx: &SettingsContext,
        proxy_url: &str,
        resolver: &KeybindingResolver,
    ) -> (r: SettingsCommand<String>)
        requires
            !old(self).input_mode && event.kind == MouseEventKind::ScrollDown ==> old(self).selected_source < usize::MAX,
        ensures
            (final(self)@, r@) == settings_mouse(
                old(self)@,
                event,
                area,
                *ctx,
                proxy_url@,
                |k: KeyEvent| page_action(resolver.page_scopes(), "settings"@, normalized(k.modifiers, k.code)),
            ),
    {
        if self.input_mode {
            return SettingsCommand::Nothing;
        }
        let p = Position { x: event.column, y: event.row };
        match event.kind {
            MouseEventKind::ScrollUp => {
                self.selected_source = self.selected_source.saturating_sub(1);
            },
            MouseEventKind::ScrollDown => {
                let last = ctx.js_source_count.saturating_sub(1);
                let next = self.selected_source + 1;
                self.selected_source = if next <= last { next } else { last };
            },
            MouseEventKind::Down(MouseButton::Left) => {
                let chunks = settings_chunks(area);
                let options = chunks[0].inner();
                if options.contains(p) {
                    let index = setting_option_index(options, p);
                    if index < SETTINGS_OPTION_COUNT {
                        let key = KeyEvent { code: KeyCode::Char(SETTING_OPTION_KEYS[index as usize]), modifiers: KeyModifiers::none() };
                        return self.handle_input(key, ctx, proxy_url, resolver);
                    }
                }
                match panel_entry_at(chunks[1], p, ctx.js_source_count) {
                    Some(index) => {
                        self.selected_source = index;
                        self.focus = to_owned_string("js");
                    },
                    None => {},
                }
                match panel_entry_at(chunks[2], p, ctx.local_path_count) {
                    Some(index) => {
                        self.selected_local_path = index;
                        self.focus = to_owned_string("local");
                    },
                    None => {},
                }
            },
            _ => {},
        }
        SettingsCommand::Nothing
    }
}

} // verus!
