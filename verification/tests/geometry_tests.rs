use std::time::Duration;

use voicefox::song::SongInfo;
use voicefox::source::SourceId;
use voicefox::terminal::CellArea;
use voicefox::ui::context_menu::{MenuOutcome, Position, SongContextMenu, SongMenuAction, SongMenuKind};
use voicefox::ui::hit_test::{
    item_at, menu_area, queue_index_at, queue_index_at_filtered, row_at, song_index_at, MouseButton, MouseEvent,
    MouseEventKind,
};
use voicefox::ui::progress::seek_fraction;
use voicefox::ui::settings_layout::{setting_option_index, setting_options_height, settings_chunks};

/// The seek position of a click, as the progress bar computes it from the
/// library's fraction.
fn seek_position(area: CellArea, column: u16, duration: Duration) -> Option<Duration> {
    if duration.is_zero() {
        return None;
    }
    let fraction = seek_fraction(area, column)?;
    let ratio = f64::from(fraction.numerator) / f64::from(fraction.denominator);
    Some(Duration::from_secs_f64(duration.as_secs_f64() * ratio.clamp(0.0, 1.0)))
}

#[test]
fn row_hit_test_uses_the_same_rect_boundaries_as_rendering() {
    let area = CellArea::new(10, 5, 40, 12);
    assert_eq!(row_at(area, Position::new(11, 7), 3, 20, 1), Some(3));
    assert_eq!(row_at(area, Position::new(10, 7), 3, 20, 1), None);
    assert_eq!(row_at(area, Position::new(20, 17), 3, 20, 1), None);
}

#[test]
fn maps_visible_rows_to_scrolled_song_indices() {
    let area = CellArea::new(10, 5, 80, 12);

    assert_eq!(song_index_at(area, Position::new(12, 7), 4, 20), Some(4));
    assert_eq!(song_index_at(area, Position::new(12, 10), 4, 20), Some(7));
}

#[test]
fn ignores_header_border_and_unused_bottom_row() {
    let area = CellArea::new(10, 5, 80, 12);

    assert_eq!(song_index_at(area, Position::new(12, 6), 0, 20), None);
    assert_eq!(song_index_at(area, Position::new(12, 15), 0, 20), None);
    assert_eq!(song_index_at(area, Position::new(9, 7), 0, 20), None);
}

#[test]
fn queue_click_rows_align_with_rendered_rows() {
    let area = CellArea::new(0, 0, 100, 20);
    let click = |row: u16, scroll: usize, len: usize| queue_index_at(Position::new(50, row), area, scroll, len);

    assert_eq!(click(0, 0, 100), None);
    assert_eq!(click(1, 0, 100), None);
    assert_eq!(click(2, 0, 100), Some(0));
    assert_eq!(click(11, 0, 100), Some(9));
    assert_eq!(click(2, 7, 100), Some(7));
    assert_eq!(click(19, 0, 100), None);
}

#[test]
fn filtered_queue_clicks_map_rows_to_the_shown_entries() {
    let area = CellArea::new(0, 0, 100, 20);
    let shown = [4usize, 9, 13];
    assert_eq!(queue_index_at_filtered(Position::new(50, 2), area, 0, &shown), Some(4));
    assert_eq!(queue_index_at_filtered(Position::new(50, 3), area, 1, &shown), Some(13));
    assert_eq!(queue_index_at_filtered(Position::new(50, 5), area, 0, &shown), None);
}

#[test]
fn rect_edges_saturate_and_inner_area_drops_the_border() {
    let clipped = CellArea::new(65530, 3, 20, 4);
    assert_eq!(clipped.width, 5);
    assert_eq!(clipped.right(), 65535);
    let inner = CellArea::new(10, 5, 40, 12).inner();
    assert_eq!(inner, CellArea { x: 11, y: 6, width: 38, height: 10 });
    assert_eq!(CellArea::new(3, 3, 1, 1).inner(), CellArea { x: 4, y: 4, width: 0, height: 0 });
    assert!(!CellArea::new(0, 0, 0, 0).contains(Position::new(0, 0)));
}

#[test]
fn context_menu_is_clamped_inside_content_area() {
    let bounds = CellArea::new(10, 5, 40, 12);
    let area = menu_area(bounds, Position::new(48, 15), 5);

    assert!(bounds.contains(Position::new(area.x, area.y)));
    assert_eq!(area.right(), bounds.right());
    assert_eq!(area.bottom(), bounds.bottom());
}

#[test]
fn context_menu_has_no_area_in_empty_bounds() {
    let area = menu_area(CellArea::new(10, 5, 0, 12), Position::new(12, 6), 5);
    assert_eq!(area, CellArea { x: 0, y: 0, width: 0, height: 0 });
}

#[test]
fn menu_item_hit_test_ignores_border() {
    let area = CellArea::new(10, 5, 24, 7);

    assert_eq!(item_at(area, Position::new(12, 6), 5), Some(0));
    assert_eq!(item_at(area, Position::new(12, 10), 5), Some(4));
    assert_eq!(item_at(area, Position::new(10, 6), 5), None);
}

fn song(id: &str) -> SongInfo {
    SongInfo::new(id.to_string(), SourceId::Kw, "name".to_string(), "singer".to_string())
}

fn mouse(kind: MouseEventKind, column: u16, row: u16) -> MouseEvent {
    MouseEvent { kind, column, row }
}

#[test]
fn context_menu_follows_the_mouse_and_activates_on_click() {
    let bounds = CellArea::new(0, 0, 80, 24);
    let mut menu =
        SongContextMenu::new(Position::new(10, 5), vec![song("1")], 0, SongMenuKind::Standard, false).unwrap();
    // The menu is drawn at (10, 5); its first item is on row 6.
    assert_eq!(menu.area(bounds), CellArea { x: 10, y: 5, width: 24, height: 6 });
    assert_eq!(menu.handle_mouse(mouse(MouseEventKind::Moved, 12, 8), bounds), MenuOutcome::Unchanged);
    assert_eq!(menu.selected(), 2);
    assert_eq!(menu.handle_mouse(mouse(MouseEventKind::ScrollDown, 0, 0), bounds), MenuOutcome::Unchanged);
    assert_eq!(menu.selected(), 3);
    assert_eq!(menu.handle_mouse(mouse(MouseEventKind::ScrollUp, 0, 0), bounds), MenuOutcome::Unchanged);
    assert_eq!(menu.selected(), 2);
    assert_eq!(
        menu.handle_mouse(mouse(MouseEventKind::Down(MouseButton::Left), 12, 7), bounds),
        MenuOutcome::Action(SongMenuAction::PlayNext)
    );
    assert_eq!(menu.selected(), 1);
    assert_eq!(
        menu.handle_mouse(mouse(MouseEventKind::Down(MouseButton::Left), 2, 2), bounds),
        MenuOutcome::Close
    );
    assert_eq!(
        menu.handle_mouse(mouse(MouseEventKind::Down(MouseButton::Right), 12, 7), bounds),
        MenuOutcome::Close
    );
    assert_eq!(menu.selected(), 1);
}

#[test]
fn seek_uses_the_rendered_bar_instead_of_the_full_row() {
    let area = CellArea::new(10, 4, 100, 1);
    let duration = Duration::from_secs(200);

    assert_eq!(seek_position(area, 17, duration), Some(Duration::from_secs(0)));
    assert_eq!(seek_position(area, 100, duration), Some(Duration::from_secs(200)));
    let middle = seek_position(area, 58, duration).unwrap();
    assert!((middle.as_secs_f64() - 100.0).abs() < 2.0);
}

#[test]
fn clicks_on_time_labels_clamp_to_the_nearest_end() {
    let area = CellArea::new(0, 0, 80, 1);
    let duration = Duration::from_secs(120);

    assert_eq!(seek_position(area, 2, duration), Some(Duration::from_secs(0)));
    assert_eq!(seek_position(area, 76, duration), Some(Duration::from_secs(120)));
}

#[test]
fn narrow_progress_rows_are_all_bar() {
    let area = CellArea::new(0, 0, 11, 1);
    let fraction = seek_fraction(area, 5).unwrap();
    assert_eq!((fraction.numerator, fraction.denominator), (5, 10));
    assert!(seek_fraction(area, 11).is_none());
    assert!(seek_fraction(CellArea::new(0, 0, 0, 1), 0).is_none());
}

#[test]
fn narrow_settings_use_two_columns_when_the_width_allows_it() {
    let chunks = settings_chunks(CellArea::new(0, 0, 60, 24));

    assert_eq!(chunks[0].height, 16);
    assert!(chunks[1].height > 0);
    assert!(chunks[2].height > 0);
    assert_eq!(chunks[2].bottom(), 24);
}

#[test]
fn wide_settings_keep_both_source_lists_visible() {
    let chunks = settings_chunks(CellArea::new(0, 0, 120, 30));

    assert_eq!(chunks[0].height, 16);
    assert_eq!(chunks[1].y, chunks[0].bottom());
    assert_eq!(chunks[2].y, chunks[0].bottom());
    assert_eq!(chunks[1].width + chunks[2].width, 120);
}

#[test]
fn setting_mouse_rows_follow_the_two_column_layout() {
    let panel = settings_chunks(CellArea::new(0, 0, 60, 24))[0];
    let inner = panel.inner();
    let right_column_x = inner.x + inner.width / 2 + 1;

    assert_eq!(setting_option_index(inner, Position::new(inner.x, inner.y)), 0);
    assert_eq!(setting_option_index(inner, Position::new(right_column_x, inner.y)), 1);
    assert_eq!(setting_option_index(inner, Position::new(right_column_x, inner.y + 5)), 11);
}

#[test]
fn options_panel_height_counts_the_border() {
    assert_eq!(setting_options_height(60), 16);
    assert_eq!(setting_options_height(30), 29);
    let narrow = CellArea::new(0, 0, 30, 40);
    assert_eq!(setting_option_index(narrow, Position::new(20, 7)), 7);
}

use voicefox::keybinding::keys::{KeyCode, KeyEvent, KeyModifiers};
use voicefox::ui::source_selector::{SourceSelector, SourceSelectorKey};

fn selector() -> SourceSelector {
    SourceSelector::new(
        vec![
            (SourceSelectorKey::All, "全部".to_string()),
            (SourceSelectorKey::Source(SourceId::Kw), "kw".to_string()),
            (SourceSelectorKey::Source(SourceId::Wy), "wy".to_string()),
        ],
        7,
    )
}

fn plain(code: KeyCode) -> KeyEvent {
    KeyEvent { code, modifiers: KeyModifiers::none() }
}

#[test]
fn source_selector_cycles_round_the_tabs() {
    let mut s = selector();
    assert_eq!(s.selected_index(), 2);
    assert_eq!(s.handle_key(plain(KeyCode::Right)), Some(SourceSelectorKey::All));
    assert_eq!(s.handle_key(plain(KeyCode::Char('['))), Some(SourceSelectorKey::Source(SourceId::Wy)));
    assert_eq!(s.cycle(-4), Some(SourceSelectorKey::Source(SourceId::Kw)));
    assert_eq!(s.select(5), None);
    assert_eq!(s.select(0), Some(SourceSelectorKey::All));
}

#[test]
fn source_selector_popup_picks_with_keys_and_clicks() {
    let mut s = selector();
    assert_eq!(s.handle_key(plain(KeyCode::Char('p'))), None);
    assert!(s.is_open());
    assert_eq!(s.handle_key(plain(KeyCode::Home)), None);
    assert_eq!(s.handle_key(plain(KeyCode::Char('j'))), None);
    assert_eq!(s.selected_index(), 1);
    assert_eq!(s.handle_key(plain(KeyCode::Enter)), Some(SourceSelectorKey::Source(SourceId::Kw)));
    assert!(!s.is_open());

    let area = CellArea::new(0, 0, 80, 24);
    // 48 columns wide, 3 + 5 rows high, centred: entries from row 9.
    assert_eq!(s.popup_rect(area), CellArea { x: 16, y: 8, width: 48, height: 8 });
    s.open();
    let click = |row| MouseEvent { kind: MouseEventKind::Down(MouseButton::Left), column: 20, row };
    assert_eq!(s.handle_mouse(click(11), area), Some(SourceSelectorKey::Source(SourceId::Wy)));
    assert!(!s.is_open());
    s.open();
    assert_eq!(s.handle_mouse(click(1), area), None);
    assert!(!s.is_open());
}

use voicefox::ui::list_mouse::{handle_history_mouse, handle_local_mouse, history_context_song_at, local_context_song_at};
use voicefox::ui::sort::{SortMode, SortState};

#[test]
fn history_clicks_count_rows_below_the_header() {
    let area = CellArea::new(0, 0, 40, 12);
    let mut state = SortState::new(SortMode::Newest);
    state.scroll = 2;
    let click = MouseEvent { kind: MouseEventKind::Down(MouseButton::Left), column: 0, row: 3 };
    assert_eq!(handle_history_mouse(click, area, 10, &mut state, 3, true), Some(3));
    assert_eq!(state.selected, 3);
    let header = MouseEvent { kind: MouseEventKind::Down(MouseButton::Left), column: 5, row: 1 };
    assert_eq!(handle_history_mouse(header, area, 10, &mut state, 3, true), None);
    assert_eq!(state.selected, 3);
    assert_eq!(history_context_song_at(11, area, 10, &mut state), None);
    assert_eq!(history_context_song_at(9, area, 10, &mut state), Some(9));
    assert_eq!(state.selected, 9);
}

#[test]
fn the_wheel_moves_list_selections_by_the_scroll_amount() {
    let area = CellArea::new(0, 0, 40, 12);
    let mut state = SortState::new(SortMode::Newest);
    let down = MouseEvent { kind: MouseEventKind::ScrollDown, column: 0, row: 0 };
    let up = MouseEvent { kind: MouseEventKind::ScrollUp, column: 0, row: 0 };
    assert_eq!(handle_local_mouse(down, area, 5, &mut state, 3, true), None);
    assert_eq!(state.selected, 3);
    handle_local_mouse(down, area, 5, &mut state, 3, true);
    assert_eq!(state.selected, 4);
    handle_history_mouse(up, area, 5, &mut state, 0, true);
    assert_eq!(state.selected, 3);
}

#[test]
fn local_clicks_and_context_use_the_song_rows() {
    let area = CellArea::new(10, 5, 80, 12);
    let mut state = SortState::new(SortMode::Newest);
    let click = MouseEvent { kind: MouseEventKind::Down(MouseButton::Left), column: 12, row: 8 };
    assert_eq!(handle_local_mouse(click, area, 20, &mut state, 3, false), None);
    assert_eq!(state.selected, 1);
    assert_eq!(local_context_song_at(Position::new(12, 6), area, 20, &mut state), None);
    assert_eq!(local_context_song_at(Position::new(12, 10), area, 20, &mut state), Some(3));
    assert_eq!(state.selected, 3);
}
