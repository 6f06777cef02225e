use voicefox::keybinding::config::KeybindingConfig;
use voicefox::keybinding::keys::{KeyCode, KeyEvent, KeyModifiers};
use voicefox::keybinding::resolver::KeybindingResolver;
use voicefox::ui::settings::SettingsPage;
use voicefox::ui::settings_input::{SettingCycle, SettingToggle, SettingsCommand, SettingsContext};

fn key(code: KeyCode) -> KeyEvent {
    KeyEvent::new(code, KeyModifiers::none())
}

fn ctx() -> SettingsContext {
    SettingsContext { js_source_count: 3, local_path_count: 2, bili_logged_in: false }
}

fn press(page: &mut SettingsPage, event: KeyEvent) -> SettingsCommand<String> {
    let resolver = KeybindingResolver::from_config(&KeybindingConfig::default());
    page.handle_input(event, &ctx(), "http://proxy:8080", &resolver)
}

#[test]
fn typing_a_source_imports_the_trimmed_text() {
    let mut page = SettingsPage::new();
    assert!(matches!(press(&mut page, key(KeyCode::Char('a'))), SettingsCommand::Nothing));
    assert!(page.input_mode);
    for c in " x.js ".chars() {
        press(&mut page, key(KeyCode::Char(c)));
    }
    press(&mut page, key(KeyCode::Char('z')));
    press(&mut page, key(KeyCode::Backspace));
    assert_eq!(page.input_url, " x.js ");
    match press(&mut page, key(KeyCode::Enter)) {
        SettingsCommand::ImportSource(url) => assert_eq!(url, "x.js"),
        other => panic!("expected an import, got {other:?}"),
    }
    assert!(!page.input_mode);
    assert_eq!(page.input_url, "");
    assert_eq!(page.status_msg.as_deref(), Some("正在添加音源..."));
}

#[test]
fn an_empty_source_is_not_submitted_and_esc_cancels() {
    let mut page = SettingsPage::new();
    press(&mut page, key(KeyCode::Char('a')));
    press(&mut page, key(KeyCode::Char(' ')));
    assert!(matches!(press(&mut page, key(KeyCode::Enter)), SettingsCommand::Nothing));
    assert!(page.input_mode);
    press(&mut page, key(KeyCode::Esc));
    assert!(!page.input_mode);
    assert_eq!(page.input_url, "");
}

#[test]
fn removing_the_last_source_moves_the_selection_up() {
    let mut page = SettingsPage::new();
    page.selected_source = 2;
    assert!(matches!(press(&mut page, key(KeyCode::Char('d'))), SettingsCommand::RemoveSource(2)));
    assert_eq!(page.selected_source, 1);
    assert_eq!(page.status_msg.as_deref(), Some("已移除音源"));
    press(&mut page, key(KeyCode::Down));
    press(&mut page, key(KeyCode::Down));
    assert_eq!(page.selected_source, 2);
    press(&mut page, key(KeyCode::Up));
    assert_eq!(page.selected_source, 1);
}

#[test]
fn option_keys_name_their_setting() {
    let mut page = SettingsPage::new();
    assert!(matches!(press(&mut page, key(KeyCode::Char('t'))), SettingsCommand::Toggle(SettingToggle::EnableMouse)));
    assert!(matches!(
        press(&mut page, KeyEvent::new(KeyCode::Char('q'), KeyModifiers::shift_only())),
        SettingsCommand::Cycle(SettingCycle::Quality)
    ));
    assert!(matches!(press(&mut page, key(KeyCode::Char('Q'))), SettingsCommand::Cycle(SettingCycle::Quality)));
    assert!(matches!(press(&mut page, key(KeyCode::Char('['))), SettingsCommand::LyricOffset(-100)));
    assert!(matches!(press(&mut page, key(KeyCode::Char('b'))), SettingsCommand::BiliLogin));
    assert!(matches!(press(&mut page, key(KeyCode::Char('m'))), SettingsCommand::Cycle(SettingCycle::PlayMode)));
    assert!(matches!(press(&mut page, key(KeyCode::Char('?'))), SettingsCommand::Nothing));
}

#[test]
fn the_source_switch_wraps_over_the_online_sources() {
    let mut page = SettingsPage::new();
    page.enabled_source_index = 5;
    press(&mut page, key(KeyCode::Char('y')));
    assert_eq!(page.enabled_source_index, 0);
    assert!(matches!(press(&mut page, key(KeyCode::Char('K'))), SettingsCommand::ToggleEnabledSource(0)));
}

#[test]
fn the_proxy_is_edited_from_the_configured_value() {
    let mut page = SettingsPage::new();
    press(&mut page, key(KeyCode::Char('n')));
    assert!(page.proxy_input_mode);
    assert_eq!(page.proxy_input, "http://proxy:8080");
    for _ in 0.."http://proxy:8080".len() {
        press(&mut page, key(KeyCode::Backspace));
    }
    match press(&mut page, key(KeyCode::Enter)) {
        SettingsCommand::SaveProxy(p) => assert_eq!(p, ""),
        other => panic!("expected the proxy, got {other:?}"),
    }
    assert!(!page.proxy_input_mode);
}

#[test]
fn the_local_list_has_its_own_keys() {
    let mut page = SettingsPage::new();
    press(&mut page, key(KeyCode::Char('s')));
    assert_eq!(page.focus, "local");
    press(&mut page, key(KeyCode::Down));
    assert_eq!(page.selected_local_path, 1);
    assert_eq!(page.selected_source, 0);
    assert!(matches!(press(&mut page, key(KeyCode::Char('d'))), SettingsCommand::RemoveLocalPath(1)));
    assert_eq!(page.selected_local_path, 0);
    assert!(matches!(press(&mut page, key(KeyCode::Char('r'))), SettingsCommand::RescanLocal));
    assert!(matches!(press(&mut page, key(KeyCode::Char('t'))), SettingsCommand::Toggle(SettingToggle::EnableMouse)));
    press(&mut page, key(KeyCode::Char('a')));
    assert!(page.local_path_mode);
    for c in "/music".chars() {
        press(&mut page, key(KeyCode::Char(c)));
    }
    match press(&mut page, key(KeyCode::Enter)) {
        SettingsCommand::AddLocalPath(p) => assert_eq!(p, "/music"),
        other => panic!("expected a folder, got {other:?}"),
    }
    press(&mut page, key(KeyCode::Char('s')));
    assert_eq!(page.focus, "js");
}

use voicefox::terminal::CellArea;
use voicefox::ui::context_menu::Position;
use voicefox::ui::hit_test::{MouseButton, MouseEvent, MouseEventKind};
use voicefox::ui::settings_layout::settings_chunks;

fn click(page: &mut SettingsPage, area: CellArea, at: Position) -> SettingsCommand<String> {
    let resolver = KeybindingResolver::from_config(&KeybindingConfig::default());
    let event = MouseEvent { kind: MouseEventKind::Down(MouseButton::Left), column: at.x, row: at.y };
    page.handle_mouse(event, area, &ctx(), "http://proxy:8080", &resolver)
}

#[test]
fn clicking_an_option_acts_like_its_key() {
    let area = CellArea::new(0, 0, 60, 40);
    let options = settings_chunks(area)[0].inner();
    let mut page = SettingsPage::new();
    assert!(matches!(click(&mut page, area, Position::new(options.x, options.y)), SettingsCommand::Toggle(SettingToggle::EnableMouse)));
    let right = options.x + options.width / 2 + 1;
    assert!(matches!(
        click(&mut page, area, Position::new(right, options.y)),
        SettingsCommand::Toggle(SettingToggle::AggregateSearch)
    ));
}

#[test]
fn clicking_a_list_entry_selects_and_focuses_it() {
    let area = CellArea::new(0, 0, 60, 40);
    let chunks = settings_chunks(area);
    let sources = chunks[1].inner();
    let folders = chunks[2].inner();
    let mut page = SettingsPage::new();
    assert!(matches!(click(&mut page, area, Position::new(sources.x + 3, sources.y + 3)), SettingsCommand::Nothing));
    assert_eq!(page.selected_source, 1);
    assert_eq!(page.focus, "js");
    click(&mut page, area, Position::new(folders.x + 3, folders.y + 2));
    assert_eq!(page.selected_local_path, 0);
    assert_eq!(page.focus, "local");
    // Past the last folder nothing changes.
    click(&mut page, area, Position::new(folders.x + 3, folders.y + 6));
    assert_eq!(page.selected_local_path, 0);
}

#[test]
fn the_wheel_moves_through_the_script_sources() {
    let resolver = KeybindingResolver::from_config(&KeybindingConfig::default());
    let area = CellArea::new(0, 0, 60, 40);
    let mut page = SettingsPage::new();
    let wheel = |kind| MouseEvent { kind, column: 0, row: 0 };
    for _ in 0..5 {
        page.handle_mouse(wheel(MouseEventKind::ScrollDown), area, &ctx(), "", &resolver);
    }
    assert_eq!(page.selected_source, 2);
    page.handle_mouse(wheel(MouseEventKind::ScrollUp), area, &ctx(), "", &resolver);
    assert_eq!(page.selected_source, 1);
}
