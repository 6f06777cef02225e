use voicefox::keybinding::config::{colemak_preset, migrate_legacy_settings_bindings, Action, KeybindingConfig};
use voicefox::keybinding::keys::{parse_keybinding, KeyCode, KeyEvent, KeyModifiers};
use voicefox::keybinding::resolver::KeybindingResolver;

fn binding<'a>(config: &'a KeybindingConfig, page: &str, action: Action) -> Option<&'a str> {
    config.page_binding(page, action).map(String::as_str)
}

#[test]
fn parse_simple_char() {
    let b = parse_keybinding("q").unwrap();
    assert_eq!(b.code, KeyCode::Char('q'));
    assert_eq!(b.modifiers, KeyModifiers::none());
}

#[test]
fn parse_ctrl_combo() {
    let b = parse_keybinding("Ctrl+l").unwrap();
    assert_eq!(b.code, KeyCode::Char('l'));
    assert_eq!(b.modifiers, KeyModifiers::control_only());
}

#[test]
fn parse_shift_tab() {
    let b = parse_keybinding("Shift+Tab").unwrap();
    assert_eq!(b.code, KeyCode::BackTab);
    assert_eq!(b.modifiers, KeyModifiers::shift_only());
}

#[test]
fn parse_space() {
    let b = parse_keybinding("Space").unwrap();
    assert_eq!(b.code, KeyCode::Char(' '));
    assert_eq!(b.modifiers, KeyModifiers::none());
}

#[test]
fn parse_f_key() {
    let b = parse_keybinding("F5").unwrap();
    assert_eq!(b.code, KeyCode::F(5));
}

#[test]
fn unknown_key_names_do_not_parse() {
    assert!(parse_keybinding("Ctrl+Banana").is_none());
    assert!(parse_keybinding("").is_none());
}

#[test]
fn resolver_lookup() {
    let mut config = KeybindingConfig::default();
    config.set_global(Action::GlobalQuit, "q".to_string());

    let resolver = KeybindingResolver::from_config(&config);
    let event = KeyEvent::new(KeyCode::Char('q'), KeyModifiers::none());
    assert_eq!(resolver.resolve_global(&event), Some(Action::GlobalQuit));
}

#[test]
fn resolver_page_priority() {
    let mut config = KeybindingConfig::default();
    config.set_global(Action::ListSelectDown, "j".to_string());
    config.set_page_binding("search", Action::ListSelectDown, "n".to_string());

    let resolver = KeybindingResolver::from_config(&config);
    let event = KeyEvent::new(KeyCode::Char('n'), KeyModifiers::none());
    assert_eq!(resolver.resolve("search", &event), Some(Action::ListSelectDown));
}

#[test]
fn default_config_contains_all_default_scopes() {
    let config = KeybindingConfig::default();

    assert_eq!(config.global_binding(Action::GlobalQuit), Some(&"q".to_string()));
    assert_eq!(binding(&config, "local", Action::LocalRescan), Some("r"));
    for page in ["favorites", "history", "local"] {
        assert_eq!(binding(&config, page, Action::ListCycleSort), Some("s"));
    }
}

#[test]
fn list_favorite_action_defaults_to_f_on_song_pages() {
    let config = KeybindingConfig::default();
    for page in ["main", "search", "leaderboard", "playlists", "favorites", "history", "local"] {
        assert_eq!(binding(&config, page, Action::ListToggleFavorite), Some("f"));
    }
    assert_eq!(config.global_binding(Action::GlobalToggleFavorite), Some(&"Ctrl+l".to_string()));
}

#[test]
fn settings_defaults_cover_extended_playback_and_data_actions() {
    let config = KeybindingConfig::default();
    assert!(config.page("settings").is_some());
    let expected = [
        (Action::SettingsCyclePlaybackSpeed, "F1"),
        (Action::SettingsEditAudioDevice, "F2"),
        (Action::SettingsCycleReplayGainMode, "F3"),
        (Action::SettingsCycleChannelMode, "F4"),
        (Action::SettingsCycleReplayGainPreamp, "F5"),
        (Action::SettingsCycleBalance, "F6"),
        (Action::SettingsToggleReplayGainClip, "F7"),
        (Action::SettingsCycleFadeInDuration, "F8"),
        (Action::SettingsCycleFadeOutDuration, "F9"),
        (Action::SettingsCycleEqualizerPreset, "F10"),
        (Action::SettingsRunFadeIn, "Shift+F1"),
        (Action::SettingsRunFadeOut, "Shift+F2"),
        (Action::SettingsSetAbLoopStart, "Shift+F3"),
        (Action::SettingsSetAbLoopEnd, "Shift+F4"),
        (Action::SettingsClearAbLoop, "Shift+F5"),
        (Action::SettingsExportData, "Shift+F6"),
        (Action::SettingsImportData, "Shift+F7"),
        (Action::SettingsImportPlaylist, "Shift+F8"),
    ];

    for (action, key) in expected {
        assert_eq!(binding(&config, "settings", action), Some(key));
    }
}

#[test]
fn migrates_legacy_settings_keys_without_overwriting_modified_combinations() {
    let mut config = KeybindingConfig::default();
    config.set_page_binding("settings", Action::SettingsCyclePlaybackSpeed, "1".to_string());
    config.set_page_binding("settings", Action::SettingsRunFadeIn, "F".to_string());
    config.set_page_binding("settings", Action::SettingsImportData, "Ctrl+7".to_string());
    config.set_page_binding("settings", Action::ListSelectUp, "8".to_string());

    assert!(migrate_legacy_settings_bindings(&mut config));
    assert_eq!(binding(&config, "settings", Action::SettingsCyclePlaybackSpeed), Some("F1"));
    assert_eq!(binding(&config, "settings", Action::SettingsRunFadeIn), Some("Shift+F1"));
    assert_eq!(binding(&config, "settings", Action::SettingsImportData), Some("Ctrl+7"));
    assert_eq!(binding(&config, "settings", Action::ListSelectUp), Some("k"));
    assert!(!migrate_legacy_settings_bindings(&mut config));
}

#[test]
fn partial_config_keeps_unspecified_defaults() {
    let config = KeybindingConfig::with_overrides(
        vec![(Action::GlobalQuit, "Ctrl+q".to_string())],
        vec![("local".to_string(), vec![(Action::ListSelectUp, "e".to_string())])],
    );

    assert_eq!(config.global_binding(Action::GlobalQuit), Some(&"Ctrl+q".to_string()));
    assert_eq!(config.global_binding(Action::GlobalPlayPause), Some(&"Space".to_string()));
    assert_eq!(binding(&config, "local", Action::ListSelectUp), Some("e"));
    assert_eq!(binding(&config, "local", Action::ListSelectDown), Some("j"));
    assert!(config.page("search").is_some());
}

#[test]
fn uppercase_binding_matches_kitty_shift_event() {
    let mut config = KeybindingConfig::default();
    config.set_page_binding("local", Action::ListSelectLast, "G".to_string());
    let resolver = KeybindingResolver::from_config(&config);
    let event = KeyEvent::new(KeyCode::Char('G'), KeyModifiers::shift_only());

    assert_eq!(resolver.resolve_page("local", &event), Some(Action::ListSelectLast));
}

#[test]
fn lower_case_letter_with_shift_matches_the_upper_case_binding() {
    let mut config = KeybindingConfig::default();
    config.set_page_binding("local", Action::ListSelectLast, "G".to_string());
    let resolver = KeybindingResolver::from_config(&config);
    let event = KeyEvent::new(KeyCode::Char('g'), KeyModifiers::shift_only());

    assert_eq!(resolver.resolve_page("local", &event), Some(Action::ListSelectLast));
}

#[test]
fn unknown_page_falls_back_to_global_bindings() {
    let config = KeybindingConfig::default();
    let resolver = KeybindingResolver::from_config(&config);
    let event = KeyEvent::new(KeyCode::Char('q'), KeyModifiers::none());
    assert_eq!(resolver.resolve_page("no-such-page", &event), None);
    assert_eq!(resolver.resolve("no-such-page", &event), Some(Action::GlobalQuit));
}

#[test]
fn colemak_preset_keeps_defaults_and_updates_every_list_page() {
    let config = colemak_preset();

    assert_eq!(config.global_binding(Action::GlobalPlayPause), Some(&"Space".to_string()));
    for page in ["search", "main", "leaderboard", "playlists", "favorites", "history", "local", "settings"] {
        assert!(config.page(page).is_some());
        assert_eq!(binding(&config, page, Action::ListSelectUp), Some("e"));
        assert_eq!(binding(&config, page, Action::ListSelectDown), Some("n"));
    }
    assert_eq!(binding(&config, "local", Action::LocalRescan), Some("r"));
}
