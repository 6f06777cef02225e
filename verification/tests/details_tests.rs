use voicefox::events::{InsertPosition, NotificationLevel};
use voicefox::keybinding::config::KeybindingConfig;
use voicefox::keybinding::keys::{KeyCode, KeyEvent, KeyModifiers};
use voicefox::keybinding::resolver::KeybindingResolver;
use voicefox::library::collection::Library;
use voicefox::song::SongInfo;
use voicefox::source::SourceId;
use voicefox::terminal::CellArea;
use voicefox::ui::details::{truncate, Album, Artist, DetailsCommand, DetailsFocus, DetailsPage, DetailsTarget};
use voicefox::ui::hit_test::{MouseButton, MouseEvent, MouseEventKind};

fn artist() -> Artist {
    Artist { id: "1".to_string(), name: "歌手".to_string(), source: SourceId::Kw, cover_url: None }
}

fn album(id: &str) -> Album {
    Album {
        id: id.to_string(),
        name: "专辑".to_string(),
        source: SourceId::Kw,
        cover_url: None,
        artist: "歌手".to_string(),
    }
}

fn song(id: &str) -> SongInfo {
    SongInfo::new(id.to_string(), SourceId::Kw, format!("歌{id}"), "歌手".to_string())
}

fn key(code: KeyCode) -> KeyEvent {
    KeyEvent { code, modifiers: KeyModifiers::none() }
}

fn resolver() -> KeybindingResolver {
    KeybindingResolver::from_config(&KeybindingConfig::default())
}

fn notice(level: NotificationLevel, message: &str) -> DetailsCommand {
    DetailsCommand::Notify { level, message: message.to_string() }
}

#[test]
fn artist_starts_with_album_focus_and_album_starts_with_song_focus() {
    let artist = DetailsPage::artist(artist());
    assert!(matches!(artist.target(), DetailsTarget::Artist(_)));
    assert_eq!(artist.focus(), DetailsFocus::Albums);
    assert!(artist.is_loading());

    let album = DetailsPage::album(album("1"));
    assert!(matches!(album.target(), DetailsTarget::Album(_)));
    assert_eq!(album.focus(), DetailsFocus::Songs);
}

#[test]
fn loading_an_artist_without_songs_reports_it() {
    let mut page = DetailsPage::artist(artist());
    page.update_artist(vec![album("1")], Err("network".to_string()));
    assert!(!page.is_loading());
    assert_eq!(page.error(), Some("未找到该歌手的歌曲"));
    assert_eq!(page.albums().len(), 1);

    let mut page = DetailsPage::album(album("1"));
    page.update_album(Ok(vec![song("1")]));
    assert_eq!(page.error(), None);
    page.update_error("失败".to_string());
    assert_eq!(page.error(), Some("失败"));
    assert!(page.songs().is_empty());
}

#[test]
fn details_keys_move_queue_and_leave() {
    let mut library = Library::new();
    let resolver = resolver();
    let mut page = DetailsPage::album(album("1"));
    page.update_album(Ok(vec![song("1"), song("2"), song("3")]));

    assert_eq!(page.handle_input(&key(KeyCode::Down), &mut library, &resolver, false), DetailsCommand::Nothing);
    assert_eq!(page.selected_song(), 1);
    assert_eq!(
        page.handle_input(&key(KeyCode::Char('a')), &mut library, &resolver, false),
        DetailsCommand::AddToQueue { index: 1, position: InsertPosition::End }
    );
    let shift_a = KeyEvent { code: KeyCode::Char('A'), modifiers: KeyModifiers::shift_only() };
    assert_eq!(
        page.handle_input(&shift_a, &mut library, &resolver, false),
        DetailsCommand::AddToQueue { index: 1, position: InsertPosition::Next }
    );
    assert_eq!(page.handle_input(&key(KeyCode::Char('p')), &mut library, &resolver, false), DetailsCommand::Play { index: 0 });
    assert_eq!(page.handle_input(&key(KeyCode::End), &mut library, &resolver, false), DetailsCommand::Nothing);
    assert_eq!(page.selected_song(), 2);
    assert_eq!(page.handle_input(&key(KeyCode::Esc), &mut library, &resolver, false), DetailsCommand::GoBack);
}

#[test]
fn details_wrapping_moves_round_the_ends() {
    let mut library = Library::new();
    let resolver = resolver();
    let mut page = DetailsPage::album(album("1"));
    page.update_album(Ok(vec![song("1"), song("2"), song("3")]));

    page.handle_input(&key(KeyCode::Up), &mut library, &resolver, true);
    assert_eq!(page.selected_song(), 2);
    page.handle_input(&key(KeyCode::Down), &mut library, &resolver, true);
    assert_eq!(page.selected_song(), 0);
    page.handle_input(&key(KeyCode::Up), &mut library, &resolver, false);
    assert_eq!(page.selected_song(), 0);
}

#[test]
fn details_favourite_key_toggles_the_library() {
    let mut library = Library::new();
    let resolver = resolver();
    let mut page = DetailsPage::album(album("1"));
    assert_eq!(
        page.handle_input(&key(KeyCode::Char('f')), &mut library, &resolver, false),
        notice(NotificationLevel::Info, "暂无可收藏歌曲")
    );
    page.update_album(Ok(vec![song("1")]));
    assert_eq!(
        page.handle_input(&key(KeyCode::Char('f')), &mut library, &resolver, false),
        notice(NotificationLevel::Success, "已收藏歌曲")
    );
    assert!(library.is_favorite(&song("1")));
    assert_eq!(
        page.handle_input(&key(KeyCode::Char('f')), &mut library, &resolver, false),
        notice(NotificationLevel::Success, "已取消收藏歌曲")
    );
    assert!(!library.is_favorite(&song("1")));
}

#[test]
fn artist_pages_switch_between_albums_and_songs() {
    let mut library = Library::new();
    let resolver = resolver();
    let mut page = DetailsPage::artist(artist());
    page.update_artist(vec![album("1"), album("2")], Ok(vec![song("1")]));

    assert_eq!(page.handle_input(&key(KeyCode::Down), &mut library, &resolver, false), DetailsCommand::Nothing);
    assert_eq!(page.selected_album(), 1);
    assert_eq!(page.handle_input(&key(KeyCode::Enter), &mut library, &resolver, false), DetailsCommand::Nothing);
    page.handle_input(&key(KeyCode::Tab), &mut library, &resolver, false);
    assert_eq!(page.focus(), DetailsFocus::Songs);
    page.handle_input(&key(KeyCode::Left), &mut library, &resolver, false);
    assert_eq!(page.focus(), DetailsFocus::Albums);
    page.handle_input(&key(KeyCode::Char('l')), &mut library, &resolver, false);
    assert_eq!(page.focus(), DetailsFocus::Songs);
    assert_eq!(
        page.handle_input(&key(KeyCode::Char('p')), &mut library, &resolver, false),
        DetailsCommand::Play { index: 0 }
    );
}

#[test]
fn album_page_clicks_select_and_activate_songs() {
    let mut page = DetailsPage::album(album("1"));
    page.update_album(Ok(vec![song("1"), song("2"), song("3")]));
    let area = CellArea::new(0, 0, 40, 10);
    let click = MouseEvent { kind: MouseEventKind::Down(MouseButton::Left), column: 3, row: 2 };
    assert_eq!(page.handle_mouse(click, area, true), DetailsCommand::Play { index: 2 });
    assert_eq!(page.selected_song(), 2);
    let wheel = MouseEvent { kind: MouseEventKind::ScrollUp, column: 3, row: 2 };
    assert_eq!(page.handle_mouse(wheel, area, false), DetailsCommand::Nothing);
    assert_eq!(page.selected_song(), 1);
    let outside = MouseEvent { kind: MouseEventKind::Down(MouseButton::Left), column: 3, row: 5 };
    assert_eq!(page.handle_mouse(outside, area, true), DetailsCommand::Nothing);
    assert_eq!(page.selected_song(), 1);
}

#[test]
fn artist_page_columns_split_albums_and_songs() {
    let page = DetailsPage::artist(artist());
    let (albums, songs) = page.content_chunks(CellArea::new(0, 0, 100, 10));
    assert_eq!(albums.x, 0);
    assert_eq!(songs.x, albums.width);
    assert_eq!(albums.width + songs.width, 100);
    assert!(albums.width < songs.width);
}

#[test]
fn details_titles_are_cut_with_an_ellipsis() {
    assert_eq!(truncate("abcdef", 4), "abc…");
    assert_eq!(truncate("abc", 4), "abc");
    assert_eq!(truncate("专辑名字", 3), "专辑…");
}
