use voicefox::queue::{PlayMode, PlaylistManager};
use voicefox::song::SongInfo;
use voicefox::source::SourceId;
use voicefox::terminal::CellArea;
use voicefox::ui::context_menu::Position;
use voicefox::ui::hit_test::{MouseButton, MouseEvent, MouseEventKind};
use voicefox::ui::main_keys::{MainPageKeys, RemoveOutcome};
use voicefox::ui::main_mouse::{resize_target_at, MainAreas, MainMouseCommand, ResizeTarget};

fn songs(n: usize) -> Vec<SongInfo> {
    (0..n)
        .map(|i| SongInfo::new(i.to_string(), SourceId::Kw, format!("歌{i}"), "歌手".to_string()))
        .collect()
}

fn narrow() -> MainAreas {
    MainAreas {
        wide: false,
        left: CellArea::new(0, 0, 0, 0),
        queue: CellArea::new(0, 0, 100, 20),
        cover: CellArea::new(0, 0, 0, 0),
        lyric: CellArea::new(0, 20, 100, 10),
    }
}

fn at(kind: MouseEventKind, column: u16, row: u16) -> MouseEvent {
    MouseEvent { kind, column, row }
}

const LEFT: MouseButton = MouseButton::Left;

#[test]
fn queue_clicks_play_and_drags_move_entries() {
    let queue = songs(5);
    let mut page = MainPageKeys::new();
    let layout = narrow();
    assert_eq!(page.handle_mouse(at(MouseEventKind::Down(LEFT), 50, 3), &layout, &queue, 0, 3, true), MainMouseCommand::Play(1));
    assert_eq!((page.selected, page.dragging), (1, Some(1)));
    assert_eq!(
        page.handle_mouse(at(MouseEventKind::Drag(LEFT), 50, 5), &layout, &queue, 0, 3, true),
        MainMouseCommand::MoveItem { from: 1, to: 3 }
    );
    assert_eq!((page.selected, page.dragging), (3, Some(3)));
    assert_eq!(page.handle_mouse(at(MouseEventKind::Drag(LEFT), 50, 5), &layout, &queue, 0, 3, true), MainMouseCommand::Nothing);
    assert_eq!(page.handle_mouse(at(MouseEventKind::Up(LEFT), 50, 5), &layout, &queue, 0, 3, true), MainMouseCommand::Nothing);
    assert_eq!(page.dragging, None);
    assert_eq!(page.handle_mouse(at(MouseEventKind::Down(LEFT), 50, 0), &layout, &queue, 2, 3, true), MainMouseCommand::Nothing);
    assert_eq!(page.selected, 2);
    page.handle_mouse(at(MouseEventKind::ScrollDown, 50, 5), &layout, &queue, 2, 3, true);
    assert_eq!(page.selected, 4);
    page.handle_mouse(at(MouseEventKind::ScrollUp, 50, 5), &layout, &queue, 2, 3, true);
    assert_eq!(page.selected, 1);
}

#[test]
fn dividers_are_grabbed_dragged_and_released() {
    let queue = songs(5);
    let mut page = MainPageKeys::new();
    let layout = narrow();
    assert_eq!(
        page.handle_mouse(at(MouseEventKind::Down(LEFT), 50, 19), &layout, &queue, 0, 3, true),
        MainMouseCommand::StartResize(ResizeTarget::NarrowQueueLyrics)
    );
    assert!(page.resizing);
    assert_eq!(page.handle_mouse(at(MouseEventKind::Drag(LEFT), 50, 15), &layout, &queue, 0, 3, true), MainMouseCommand::PreviewResize);
    assert_eq!(page.handle_mouse(at(MouseEventKind::ScrollDown, 50, 15), &layout, &queue, 0, 3, true), MainMouseCommand::Nothing);
    assert_eq!(page.selected, 0);
    assert_eq!(page.handle_mouse(at(MouseEventKind::Up(LEFT), 50, 15), &layout, &queue, 0, 3, true), MainMouseCommand::CommitResize);
    assert!(!page.resizing);
}

#[test]
fn wide_layout_dividers_follow_the_columns() {
    let layout = MainAreas {
        wide: true,
        left: CellArea::new(0, 0, 36, 30),
        queue: CellArea::new(36, 0, 64, 30),
        cover: CellArea::new(0, 0, 36, 15),
        lyric: CellArea::new(0, 15, 36, 15),
    };
    assert_eq!(resize_target_at(35, 5, &layout), Some(ResizeTarget::WideColumns));
    assert_eq!(resize_target_at(34, 5, &layout), Some(ResizeTarget::WideColumns));
    assert_eq!(resize_target_at(10, 14, &layout), Some(ResizeTarget::WideCoverLyrics));
    assert_eq!(resize_target_at(50, 14, &layout), None);
    assert_eq!(resize_target_at(10, 20, &layout), None);
}

#[test]
fn right_clicks_select_the_queue_song() {
    let mut page = MainPageKeys::new();
    page.dragging = Some(2);
    assert_eq!(page.context_song_at(Position::new(50, 4), CellArea::new(0, 0, 100, 20), 5), Some(2));
    assert_eq!((page.selected, page.dragging), (2, None));
    assert_eq!(page.context_song_at(Position::new(50, 10), CellArea::new(0, 0, 100, 20), 5), None);
}

#[test]
fn removing_the_current_song_plays_the_next_one() {
    let mut queue = PlaylistManager::new(PlayMode::ListLoop);
    queue.set_playlist(songs(3), 1);
    let mut page = MainPageKeys::new();
    page.selected = 2;
    assert_eq!(page.remove_at(0, &mut queue), RemoveOutcome::Nothing);
    assert_eq!(queue.snapshot().1, 0);
    assert_eq!(page.selected, 0);
    assert_eq!(page.remove_at(0, &mut queue), RemoveOutcome::Play(0));
    assert_eq!(queue.len(), 1);
    assert_eq!(page.remove_at(5, &mut queue), RemoveOutcome::Nothing);
    assert_eq!(page.remove_at(0, &mut queue), RemoveOutcome::Stopped);
    assert_eq!(queue.len(), 0);
}
