//! Keyboard handling of the settings page as a state machine: a key press
//! moves the page to its next state and names the one request (a setting to
//! change, a source to import, a folder to scan) that the application carries
//! out with its configuration and services.
use vstd::prelude::*;
use crate::keybinding::config::Action;
use crate::keybinding::keys::{KeyCode, KeyEvent, KeyModifiers, no_mods, normalized};
use crate::keybinding::resolver::{KeybindingResolver, page_action};
use crate::text::{chars_of, push_char, str_eq, string_of_range, to_owned_string, trim_str, trim_ws};
use super::settings::SettingsPage;

verus! {

/// A boolean setting flipped by one key of the settings page.
#[derive(Debug, Clone, Copy, PartialEq, Eq, Structural)]
pub enum SettingToggle {
    EnableMouse,
    AggregateSearch,
    WrapNavigation,
    ShowCover,
    RememberPlayback,
    AutoToggleSource,
    ShowTranslation,
    ShowYrc,
    Mpris,
    InAppNotifications,
    Notifications,
    NotificationAlbumCover,
    NotificationTrackChange,
}

/// A setting stepped to its next value in a fixed cycle.
#[derive(Debug, Clone, Copy, PartialEq, Eq, Structural)]
pub enum SettingCycle {
    Quality,
    HistoryLimit,
    NetworkTimeout,
    CoverProtocol,
    Fps,
    ScrollAmount,
    NotificationTimeout,
    Accent,
    ScanDepth,
    PlayMode,
    DefaultSource,
}

/// The request of a key press on the settings page; `T` is the type of the
/// texts it carries.
#[derive(Debug, Clone)]
pub enum SettingsCommand<T> {
    Nothing,
    /// Import the script source at this URL or path.
    ImportSource(T),
    /// Remove the script source at this position of the configured list.
    RemoveSource(usize),
    Toggle(SettingToggle),
    Cycle(SettingCycle),
    /// Enable or disable the online source at this position of
    /// `SourceId::all_online()`.
    ToggleEnabledSource(usize),
    /// Move the lyric offset by this many milliseconds.
    LyricOffset(i32),
    /// Save this proxy address.
    SaveProxy(T),
    /// Add this local music folder and scan.
    AddLocalPath(T),
    /// Remove the local folder at this position and scan again.
    RemoveLocalPath(usize),
    /// Scan the local folders again.
    RescanLocal,
    BiliLogin,
    BiliLogout,
}

impl View for SettingsCommand<String> {
    type V = SettingsCommand<Seq<char>>;

    open spec fn view(&self) -> SettingsCommand<Seq<char>> {
        match *self {
            SettingsCommand::Nothing => SettingsCommand::Nothing,
            SettingsCommand::ImportSource(s) => SettingsCommand::ImportSource(s@),
            SettingsCommand::RemoveSource(i) => SettingsCommand::RemoveSource(i),
            SettingsCommand::Toggle(t) => SettingsCommand::Toggle(t),
            SettingsCommand::Cycle(c) => SettingsCommand::Cycle(c),
            SettingsCommand::ToggleEnabledSource(i) => SettingsCommand::ToggleEnabledSource(i),
            SettingsCommand::LyricOffset(d) => SettingsCommand::LyricOffset(d),
            SettingsCommand::SaveProxy(s) => SettingsCommand::SaveProxy(s@),
            SettingsCommand::AddLocalPath(s) => SettingsCommand::AddLocalPath(s@),
            SettingsCommand::RemoveLocalPath(i) => SettingsCommand::RemoveLocalPath(i),
            SettingsCommand::RescanLocal => SettingsCommand::RescanLocal,
            SettingsCommand::BiliLogin => SettingsCommand::BiliLogin,
            SettingsCommand::BiliLogout => SettingsCommand::BiliLogout,
        }
    }
}

/// What the settings page reads of the application when handling a key.
#[derive(Debug, Clone, Copy)]
pub struct SettingsContext {
    /// Number of configured script sources.
    pub js_source_count: usize,
    /// Number of configured local music folders.
    pub local_path_count: usize,
    pub bili_logged_in: bool,
}

/// The settings page as values.
pub struct SettingsModel {
    pub input_url: Seq<char>,
    pub input_mode: bool,
    pub status_msg: Option<Seq<char>>,
    pub selected_source: usize,
    pub local_path_input: Seq<char>,
    pub local_path_mode: bool,
    pub selected_local_path: usize,
    pub proxy_input: Seq<char>,
    pub proxy_input_mode: bool,
    pub enabled_source_index: usize,
    pub focus: Seq<char>,
}

impl View for SettingsPage {
    type V = SettingsModel;

    open spec fn view(&self) -> SettingsModel {
        SettingsModel {
            input_url: self.input_url@,
            input_mode: self.input_mode,
            status_msg: match self.status_msg {
                Some(s) => Some(s@),
                None => None,
            },
            selected_source: self.selected_source,
            local_path_input: self.local_path_input@,
            local_path_mode: self.local_path_mode,
            selected_local_path: self.selected_local_path,
            proxy_input: self.proxy_input@,
            proxy_input_mode: self.proxy_input_mode,
            enabled_source_index: self.enabled_source_index,
            focus: self.focus@,
        }
    }
}

/// What a key does to a text being typed.
#[derive(Debug, Clone, Copy, PartialEq, Eq, Structural)]
pub enum TextEdit {
    Cancel,
    Submit,
    Push(char),
    Pop,
    Ignore,
}

/// Esc cancels and Enter submits (both without modifiers), Backspace without
/// modifiers deletes, and a character typed without Control or Alt is added.
pub open spec fn text_edit(key: KeyEvent) -> TextEdit {
    let plain = key.modifiers == no_mods();
    if plain && key.code == KeyCode::Esc {
        TextEdit::Cancel
    } else if plain && key.code == KeyCode::Enter {
        TextEdit::Submit
    } else if plain && key.code == KeyCode::Backspace {
        TextEdit::Pop
    } else {
        match key.code {
            KeyCode::Char(c) => if !key.modifiers.control && !key.modifiers.alt { TextEdit::Push(c) } else { TextEdit::Ignore },
            _ => TextEdit::Ignore,
        }
    }
}

/// `s` without its last character (`String::pop`).
pub open spec fn pop_last(s: Seq<char>) -> Seq<char> {
    if s.len() > 0 { s.drop_last() } else { s }
}

/// The status shown while a script source is imported.
pub open spec fn adding_source_msg() -> Seq<char> {
    "正在添加音源..."@
}

/// The status shown when a script source is removed.
pub open spec fn removed_source_msg() -> Seq<char> {
    "已移除音源"@
}

/// The status shown while local music is scanned.
pub open spec fn scanning_msg() -> Seq<char> {
    "正在扫描本地音乐..."@
}

/// Typing the proxy address: Enter saves the trimmed address, even empty.
pub open spec fn proxy_step(m: SettingsModel, key: KeyEvent) -> (SettingsModel, SettingsCommand<Seq<char>>) {
    match text_edit(key) {
        TextEdit::Cancel => (SettingsModel { proxy_input_mode: false, proxy_input: Seq::empty(), ..m }, SettingsCommand::Nothing),
        TextEdit::Submit => (
            SettingsModel { proxy_input_mode: false, proxy_input: Seq::empty(), ..m },
            SettingsCommand::SaveProxy(trim_ws(m.proxy_input)),
        ),
        TextEdit::Push(c) => (SettingsModel { proxy_input: m.proxy_input.push(c), ..m }, SettingsCommand::Nothing),
        TextEdit::Pop => (SettingsModel { proxy_input: pop_last(m.proxy_input), ..m }, SettingsCommand::Nothing),
        TextEdit::Ignore => (m, SettingsCommand::Nothing),
    }
}

/// Typing a local folder: Enter adds the trimmed path unless it is empty.
pub open spec fn local_input_step(m: SettingsModel, key: KeyEvent) -> (SettingsModel, SettingsCommand<Seq<char>>) {
    match text_edit(key) {
        TextEdit::Cancel => (SettingsModel { local_path_mode: false, local_path_input: Seq::empty(), ..m }, SettingsCommand::Nothing),
        TextEdit::Submit => if trim_ws(m.local_path_input).len() > 0 {
            (
                SettingsModel { local_path_mode: false, local_path_input: Seq::empty(), ..m },
                SettingsCommand::AddLocalPath(trim_ws(m.local_path_input)),
            )
        } else {
            (m, SettingsCommand::Nothing)
        },
        TextEdit::Push(c) => (SettingsModel { local_path_input: m.local_path_input.push(c), ..m }, SettingsCommand::Nothing),
        TextEdit::Pop => (SettingsModel { local_path_input: pop_last(m.local_path_input), ..m }, SettingsCommand::Nothing),
        TextEdit::Ignore => (m, SettingsCommand::Nothing),
    }
}

/// Typing a script source: Enter imports the trimmed text unless it is empty.
pub open spec fn url_input_step(m: SettingsModel, key: KeyEvent) -> (SettingsModel, SettingsCommand<Seq<char>>) {
    match text_edit(key) {
        TextEdit::Cancel => (SettingsModel { input_mode: false, input_url: Seq::empty(), ..m }, SettingsCommand::Nothing),
        TextEdit::Submit => if trim_ws(m.input_url).len() > 0 {
            (
                SettingsModel { input_mode: false, input_url: Seq::empty(), status_msg: Some(adding_source_msg()), ..m },
                SettingsCommand::ImportSource(trim_ws(m.input_url)),
            )
        } else {
            (m, SettingsCommand::Nothing)
        },
        TextEdit::Push(c) => (SettingsModel { input_url: m.input_url.push(c), ..m }, SettingsCommand::Nothing),
        TextEdit::Pop => (SettingsModel { input_url: pop_last(m.input_url), ..m }, SettingsCommand::Nothing),
        TextEdit::Ignore => (m, SettingsCommand::Nothing),
    }
}

/// `sel` moved up one row, stopping at the top.
pub open spec fn row_up(sel: usize) -> usize {
    if sel > 0 { (sel - 1) as usize } else { sel }
}

/// `sel` moved down one row of `n`, stopping at the bottom.
pub open spec fn row_down(sel: usize, n: usize) -> usize {
    if sel + 1 < n { (sel + 1) as usize } else { sel }
}

/// The selection after removing row `sel` of `n`: it moves up when it was the last row.
pub open spec fn row_after_removal(sel: usize, n: usize) -> usize {
    if sel + 1 >= n && sel > 0 { (sel - 1) as usize } else { sel }
}

/// The key without modifiers on `c`.
pub open spec fn plain_char(key: KeyEvent, c: char) -> bool {
    key.modifiers == no_mods() && key.code == KeyCode::Char(c)
}

/// The key of an upper-case option: `upper` without modifiers, or either
/// case of the letter with Shift alone.
pub open spec fn shifted_char(key: KeyEvent, lower: char, upper: char) -> bool {
    ||| key.modifiers == no_mods() && key.code == KeyCode::Char(upper)
    ||| key.modifiers == (KeyModifiers { shift: true, ..no_mods() }) && (key.code == KeyCode::Char(upper) || key.code == KeyCode::Char(lower))
}

/// Keys on the local folders list (focus `local`); `None` when the key is
/// left to the rest of the page.
pub open spec fn local_step(m: SettingsModel, key: KeyEvent, ctx: SettingsContext, bound: Option<Action>) -> Option<(SettingsModel, SettingsCommand<Seq<char>>)> {
    let n = ctx.local_path_count;
    let plain = key.modifiers == no_mods();
    let up = SettingsModel { selected_local_path: row_up(m.selected_local_path), ..m };
    let down = SettingsModel { selected_local_path: row_down(m.selected_local_path, n), ..m };
    if bound == Some(Action::ListSelectUp) {
        Some((up, SettingsCommand::Nothing))
    } else if bound == Some(Action::ListSelectDown) {
        Some((down, SettingsCommand::Nothing))
    } else if plain_char(key, 's') {
        Some((SettingsModel { focus: "js"@, ..m }, SettingsCommand::Nothing))
    } else if plain_char(key, 'a') {
        Some((SettingsModel { local_path_mode: true, local_path_input: Seq::empty(), status_msg: None, ..m }, SettingsCommand::Nothing))
    } else if plain && key.code == KeyCode::Up {
        Some((up, SettingsCommand::Nothing))
    } else if plain && key.code == KeyCode::Down {
        Some((down, SettingsCommand::Nothing))
    } else if plain_char(key, 'd') {
        if m.selected_local_path < n {
            Some((
                SettingsModel { selected_local_path: row_after_removal(m.selected_local_path, n), ..m },
                SettingsCommand::RemoveLocalPath(m.selected_local_path),
            ))
        } else {
            Some((m, SettingsCommand::Nothing))
        }
    } else if plain_char(key, 'r') {
        Some((SettingsModel { status_msg: Some(scanning_msg()), ..m }, SettingsCommand::RescanLocal))
    } else {
        None
    }
}

/// The request of an option key that changes nothing on the page itself.
pub open spec fn option_command(key: KeyEvent, ctx: SettingsContext) -> SettingsCommand<Seq<char>> {
    if plain_char(key, 't') {
        SettingsCommand::Toggle(SettingToggle::EnableMouse)
    } else if plain_char(key, 'g') {
        SettingsCommand::Toggle(SettingToggle::AggregateSearch)
    } else if plain_char(key, 'w') {
        SettingsCommand::Toggle(SettingToggle::WrapNavigation)
    } else if plain_char(key, 'c') {
        SettingsCommand::Toggle(SettingToggle::ShowCover)
    } else if plain_char(key, 'e') {
        SettingsCommand::Toggle(SettingToggle::RememberPlayback)
    } else if shifted_char(key, 'q', 'Q') {
        SettingsCommand::Cycle(SettingCycle::Quality)
    } else if shifted_char(key, 'h', 'H') {
        SettingsCommand::Cycle(SettingCycle::HistoryLimit)
    } else if plain_char(key, 'v') {
        SettingsCommand::Cycle(SettingCycle::DefaultSource)
    } else if plain_char(key, 'u') {
        SettingsCommand::Toggle(SettingToggle::AutoToggleSource)
    } else if shifted_char(key, 't', 'T') {
        SettingsCommand::Toggle(SettingToggle::ShowTranslation)
    } else if shifted_char(key, 'y', 'Y') {
        SettingsCommand::Toggle(SettingToggle::ShowYrc)
    } else if plain_char(key, '[') {
        SettingsCommand::LyricOffset(-100i32)
    } else if plain_char(key, ']') {
        SettingsCommand::LyricOffset(100i32)
    } else if shifted_char(key, 'n', 'N') {
        SettingsCommand::Cycle(SettingCycle::NetworkTimeout)
    } else if shifted_char(key, 'p', 'P') {
        SettingsCommand::Cycle(SettingCycle::CoverProtocol)
    } else if plain_char(key, 'f') {
        SettingsCommand::Cycle(SettingCycle::Fps)
    } else if plain_char(key, 'z') {
        SettingsCommand::Cycle(SettingCycle::ScrollAmount)
    } else if plain_char(key, 'i') {
        SettingsCommand::Toggle(SettingToggle::Mpris)
    } else if plain_char(key, 'o') {
        SettingsCommand::Toggle(SettingToggle::InAppNotifications)
    } else if shifted_char(key, 'o', 'O') {
        SettingsCommand::Cycle(SettingCycle::NotificationTimeout)
    } else if plain_char(key, 'x') {
        SettingsCommand::Toggle(SettingToggle::Notifications)
    } else if shifted_char(key, 'x', 'X') {
        SettingsCommand::Toggle(SettingToggle::NotificationAlbumCover)
    } else if shifted_char(key, 'r', 'R') {
        SettingsCommand::Toggle(SettingToggle::NotificationTrackChange)
    } else if plain_char(key, 'm') {
        SettingsCommand::Cycle(SettingCycle::PlayMode)
    } else if plain_char(key, 'p') {
        SettingsCommand::Cycle(SettingCycle::Accent)
    } else if shifted_char(key, 'd', 'D') {
        SettingsCommand::Cycle(SettingCycle::ScanDepth)
    } else if plain_char(key, 'b') {
        if ctx.bili_logged_in { SettingsCommand::BiliLogout } else { SettingsCommand::BiliLogin }
    } else {
        SettingsCommand::Nothing
    }
}

/// Keys on the script sources list and the option keys.
pub open spec fn js_step(m: SettingsModel, key: KeyEvent, ctx: SettingsContext, proxy_url: Seq<char>, bound: Option<Action>) -> (SettingsModel, SettingsCommand<Seq<char>>) {
    let n = ctx.js_source_count;
    let plain = key.modifiers == no_mods();
    let up = SettingsModel { selected_source: row_up(m.selected_source), ..m };
    let down = SettingsModel { selected_source: row_down(m.selected_source, n), ..m };
    if bound == Some(Action::ListSelectUp) {
        (up, SettingsCommand::Nothing)
    } else if bound == Some(Action::ListSelectDown) {
        (down, SettingsCommand::Nothing)
    } else if plain_char(key, 'a') {
        (SettingsModel { input_mode: true, status_msg: None, ..m }, SettingsCommand::Nothing)
    } else if plain && key.code == KeyCode::Up {
        (up, SettingsCommand::Nothing)
    } else if plain && key.code == KeyCode::Down {
        (down, SettingsCommand::Nothing)
    } else if plain_char(key, 'd') {
        if m.selected_source < n {
            (
                SettingsModel {
                    status_msg: Some(removed_source_msg()),
                    selected_source: row_after_removal(m.selected_source, n),
                    ..m
                },
                SettingsCommand::RemoveSource(m.selected_source),
            )
        } else {
            (m, SettingsCommand::Nothing)
        }
    } else if plain_char(key, 'y') {
        (SettingsModel { enabled_source_index: ((m.enabled_source_index + 1) % 6) as usize, ..m }, SettingsCommand::Nothing)
    } else if shifted_char(key, 'k', 'K') {
        (m, SettingsCommand::ToggleEnabledSource(m.enabled_source_index))
    } else if plain_char(key, 'n') {
        (SettingsModel { proxy_input: proxy_url, proxy_input_mode: true, status_msg: None, ..m }, SettingsCommand::Nothing)
    } else if plain_char(key, 's') {
        (SettingsModel { focus: if m.focus == "js"@ { "local"@ } else { "js"@ }, ..m }, SettingsCommand::Nothing)
    } else {
        (m, option_command(key, ctx))
    }
}

/// The next state of the page and the request of a key press. `bound` is
/// the settings-page binding of the key, `proxy_url` the configured proxy.
pub open spec fn settings_step(m: SettingsModel, key: KeyEvent, ctx: SettingsContext, proxy_url: Seq<char>, bound: Option<Action>) -> (SettingsModel, SettingsCommand<Seq<char>>) {
    if m.proxy_input_mode {
        proxy_step(m, key)
    } else if m.local_path_mode {
        local_input_step(m, key)
    } else if m.input_mode {
        url_input_step(m, key)
    } else if m.focus == "local"@ && local_step(m, key, ctx, bound) is Some {
        local_step(m, key, ctx, bound)->0
    } else {
        js_step(m, key, ctx, proxy_url, bound)
    }
}

/// What a key does to a text being typed.
pub fn text_edit_of(key: &KeyEvent) -> (r: TextEdit)
    ensures
        r == text_edit(*key),
{
    let plain = key.modifiers == KeyModifiers::none();
    if plain && key.code == KeyCode::Esc {
        TextEdit::Cancel
    } else if plain && key.code == KeyCode::Enter {
        TextEdit::Submit
    } else if plain && key.code == KeyCode::Backspace {
        TextEdit::Pop
    } else {
        match key.code {
            KeyCode::Char(c) => if !key.modifiers.control && !key.modifiers.alt { TextEdit::Push(c) } else { TextEdit::Ignore },
            _ => TextEdit::Ignore,
        }
    }
}

/// Removes the last character of `s`, if any (`String::pop`).
fn pop_char(s: &mut String)
    ensures
        final(s)@ == pop_last(old(s)@),
{
    let v = chars_of(s.as_str());
    if v.len() > 0 {
        *s = string_of_range(&v, 0, v.len() - 1);
        assert(final(s)@ =~= pop_last(old(s)@));
    }
}

/// Whether the key is `c` without modifiers.
fn is_plain_char(key: &KeyEvent, c: char) -> (r: bool)
    ensures
        r == plain_char(*key, c),
{
    key.modifiers == KeyModifiers::none() && key.code == KeyCode::Char(c)
}

/// Whether the key is the upper-case option `upper` (see [`shifted_char`]).
fn is_shifted_char(key: &KeyEvent, lower: char, upper: char) -> (r: bool)
    ensures
        r == shifted_char(*key, lower, upper),
{
    (key.modifiers == KeyModifiers::none() && key.code == KeyCode::Char(upper)) || (key.modifiers
        == KeyModifiers::shift_only() && (key.code == KeyCode::Char(upper) || key.code == KeyCode::Char(lower)))
}

/// The request of an option key (see [`option_command`]).
pub fn option_key_command(key: &KeyEvent, ctx: &SettingsContext) -> (r: SettingsCommand<String>)
    ensures
        r@ == option_command(*key, *ctx),
{
    if is_plain_char(key, 't') {
        SettingsCommand::Toggle(SettingToggle::EnableMouse)
    } else if is_plain_char(key, 'g') {
        SettingsCommand::Toggle(SettingToggle::AggregateSearch)
    } else if is_plain_char(key, 'w') {
        SettingsCommand::Toggle(SettingToggle::WrapNavigation)
    } else if is_plain_char(key, 'c') {
        SettingsCommand::Toggle(SettingToggle::ShowCover)
    } else if is_plain_char(key, 'e') {
        SettingsCommand::Toggle(SettingToggle::RememberPlayback)
    } else if is_shifted_char(key, 'q', 'Q') {
        SettingsCommand::Cycle(SettingCycle::Quality)
    } else if is_shifted_char(key, 'h', 'H') {
        SettingsCommand::Cycle(SettingCycle::HistoryLimit)
    } else if is_plain_char(key, 'v') {
        SettingsCommand::Cycle(SettingCycle::DefaultSource)
    } else if is_plain_char(key, 'u') {
        SettingsCommand::Toggle(SettingToggle::AutoToggleSource)
    } else if is_shifted_char(key, 't', 'T') {
        SettingsCommand::Toggle(SettingToggle::ShowTranslation)
    } else if is_shifted_char(key, 'y', 'Y') {
        SettingsCommand::Toggle(SettingToggle::ShowYrc)
    } else if is_plain_char(key, '[') {
        SettingsCommand::LyricOffset(-100)
    } else if is_plain_char(key, ']') {
        SettingsCommand::LyricOffset(100)
    } else if is_shifted_char(key, 'n', 'N') {
        SettingsCommand::Cycle(SettingCycle::NetworkTimeout)
    } else if is_shifted_char(key, 'p', 'P') {
        SettingsCommand::Cycle(SettingCycle::CoverProtocol)
    } else if is_plain_char(key, 'f') {
        SettingsCommand::Cycle(SettingCycle::Fps)
    } else if is_plain_char(key, 'z') {
        SettingsCommand::Cycle(SettingCycle::ScrollAmount)
    } else if is_plain_char(key, 'i') {
        SettingsCommand::Toggle(SettingToggle::Mpris)
    } else if is_plain_char(key, 'o') {
        SettingsCommand::Toggle(SettingToggle::InAppNotifications)
    } else if is_shifted_char(key, 'o', 'O') {
        SettingsCommand::Cycle(SettingCycle::NotificationTimeout)
    } else if is_plain_char(key, 'x') {
        SettingsCommand::Toggle(SettingToggle::Notifications)
    } else if is_shifted_char(key, 'x', 'X') {
        SettingsCommand::Toggle(SettingToggle::NotificationAlbumCover)
    } else if is_shifted_char(key, 'r', 'R') {
        SettingsCommand::Toggle(SettingToggle::NotificationTrackChange)
    } else if is_plain_char(key, 'm') {
        SettingsCommand::Cycle(SettingCycle::PlayMode)
    } else if is_plain_char(key, 'p') {
        SettingsCommand::Cycle(SettingCycle::Accent)
    } else if is_shifted_char(key, 'd', 'D') {
        SettingsCommand::Cycle(SettingCycle::ScanDepth)
    } else if is_plain_char(key, 'b') {
        if ctx.bili_logged_in {
            SettingsCommand::BiliLogout
        } else {
            SettingsCommand::BiliLogin
        }
    } else {
        SettingsCommand::Nothing
    }
}

/// `sel` moved down one row of `n`.
fn row_down_of(sel: usize, n: usize) -> (r: usize)
    ensures
        r == row_down(sel, n),
{
    if n > 0 && sel < n - 1 {
        sel + 1
    } else {
        sel
    }
}

/// The selection after removing row `sel` of `n`.
fn row_after_removal_of(sel: usize, n: usize) -> (r: usize)
    requires
        sel < n,
    ensures
        r == row_after_removal(sel, n),
{
    if sel >= n - 1 && sel > 0 {
        sel - 1
    } else {
        sel
    }
}

impl SettingsPage {
    /// Handles a key while the proxy address is typed.
    fn proxy_key(&mut self, key: &KeyEvent) -> (r: SettingsCommand<String>)
        ensures
            (final(self)@, r@) == proxy_step(old(self)@, *key),
    {
        match text_edit_of(key) {
            TextEdit::Cancel => {
                self.proxy_input_mode = false;
                self.proxy_input = String::new();
                SettingsCommand::Nothing
            },
            TextEdit::Submit => {
                let proxy = trim_str(self.proxy_input.as_str());
                self.proxy_input_mode = false;
                self.proxy_input = String::new();
                SettingsCommand::SaveProxy(proxy)
            },
            TextEdit::Push(c) => {
                push_char(&mut self.proxy_input, c);
                SettingsCommand::Nothing
            },
            TextEdit::Pop => {
                pop_char(&mut self.proxy_input);
                SettingsCommand::Nothing
            },
            TextEdit::Ignore => SettingsCommand::Nothing,
        }
    }

    /// Handles a key while a local folder is typed.
    fn local_input_key(&mut self, key: &KeyEvent) -> (r: SettingsCommand<String>)
        ensures
            (final(self)@, r@) == local_input_step(old(self)@, *key),
    {
        match text_edit_of(key) {
            TextEdit::Cancel => {
                self.local_path_mode = false;
                self.local_path_input = String::new();
                SettingsCommand::Nothing
            },
            TextEdit::Submit => {
                let path = trim_str(self.local_path_input.as_str());
                if path.as_str().is_empty() {
                    SettingsCommand::Nothing
                } else {
                    self.local_path_mode = false;
                    self.local_path_input = String::new();
                    SettingsCommand::AddLocalPath(path)
                }
            },
            TextEdit::Push(c) => {
                push_char(&mut self.local_path_input, c);
                SettingsCommand::Nothing
            },
            TextEdit::Pop => {
                pop_char(&mut self.local_path_input);
                SettingsCommand::Nothing
            },
            TextEdit::Ignore => SettingsCommand::Nothing,
        }
    }

    /// Handles a key while a script source is typed.
    fn url_input_key(&mut self, key: &KeyEvent) -> (r: SettingsCommand<String>)
        ensures
            (final(self)@, r@) == url_input_step(old(self)@, *key),
    {
        match text_edit_of(key) {
            TextEdit::Cancel => {
                self.input_mode = false;
                self.input_url = String::new();
                SettingsCommand::Nothing
            },
            TextEdit::Submit => {
                let url = trim_str(self.input_url.as_str());
                if url.as_str().is_empty() {
                    SettingsCommand::Nothing
                } else {
                    self.input_mode = false;
                    self.input_url = String::new();
                    self.status_msg = Some(to_owned_string("正在添加音源..."));
                    SettingsCommand::ImportSource(url)
                }
            },
            TextEdit::Push(c) => {
                push_char(&mut self.input_url, c);
                SettingsCommand::Nothing
            },
            TextEdit::Pop => {
                pop_char(&mut self.input_url);
                SettingsCommand::Nothing
            },
            TextEdit::Ignore => SettingsCommand::Nothing,
        }
    }

    /// Handles a key on the local folders list; `None` leaves it to the rest of the page.
    fn local_list_key(&mut self, key: &KeyEvent, ctx: &SettingsContext, bound: Option<Action>) -> (r: Option<SettingsCommand<String>>)
        ensures
            match local_step(old(self)@, *key, *ctx, bound) {
                Some(p) => r is Some && (final(self)@, r->0@) == p,
                None => r is None && final(self)@ == old(self)@,
            },
    {
        let n = ctx.local_path_count;
        let plain = key.modifiers == KeyModifiers::none();
        let sel = self.selected_local_path;
        if bound == Some(Action::ListSelectUp) || (!(bound == Some(Action::ListSelectDown)) && !is_plain_char(key, 's')
            && !is_plain_char(key, 'a') && plain && key.code == KeyCode::Up) {
            if sel > 0 {
                self.selected_local_path = sel - 1;
            }
            Some(SettingsCommand::Nothing)
        } else if bound == Some(Action::ListSelectDown) || (!is_plain_char(key, 's') && !is_plain_char(key, 'a') && plain
            && key.code == KeyCode::Down) {
            self.selected_local_path = row_down_of(sel, n);
            Some(SettingsCommand::Nothing)
        } else if is_plain_char(key, 's') {
            self.focus = to_owned_string("js");
            Some(SettingsCommand::Nothing)
        } else if is_plain_char(key, 'a') {
            self.local_path_mode = true;
            self.local_path_input = String::new();
            self.status_msg = None;
            Some(SettingsCommand::Nothing)
        } else if is_plain_char(key, 'd') {
            if sel < n {
                self.selected_local_path = row_after_removal_of(sel, n);
                Some(SettingsCommand::RemoveLocalPath(sel))
            } else {
                Some(SettingsCommand::Nothing)
            }
        } else if is_plain_char(key, 'r') {
            self.status_msg = Some(to_owned_string("正在扫描本地音乐..."));
            Some(SettingsCommand::RescanLocal)
        } else {
            None
        }
    }

    /// Handles a key on the script sources list or an option key.
    fn js_list_key(&mut self, key: &KeyEvent, ctx: &SettingsContext, proxy_url: &str, bound: Option<Action>) -> (r: SettingsCommand<String>)
        ensures
            (final(self)@, r@) == js_step(old(self)@, *key, *ctx, proxy_url@, bound),
    {
        let n = ctx.js_source_count;
        let plain = key.modifiers == KeyModifiers::none();
        let sel = self.selected_source;
        if bound == Some(Action::ListSelectUp) || (!(bound == Some(Action::ListSelectDown)) && !is_plain_char(key, 'a')
            && plain && key.code == KeyCode::Up) {
            if sel > 0 {
                self.selected_source = sel - 1;
            }
            SettingsCommand::Nothing
        } else if bound == Some(Action::ListSelectDown) || (!is_plain_char(key, 'a') && plain && key.code == KeyCode::Down) {
            self.selected_source = row_down_of(sel, n);
            SettingsCommand::Nothing
        } else if is_plain_char(key, 'a') {
            self.input_mode = true;
            self.status_msg = None;
            SettingsCommand::Nothing
        } else if is_plain_char(key, 'd') {
            if sel < n {
                self.status_msg = Some(to_owned_string("已移除音源"));
                self.selected_source = row_after_removal_of(sel, n);
                SettingsCommand::RemoveSource(sel)
            } else {
                SettingsCommand::Nothing
            }
        } else if is_plain_char(key, 'y') {
            self.enabled_source_index = (self.enabled_source_index % 6 + 1) % 6;
            SettingsCommand::Nothing
        } else if is_shifted_char(key, 'k', 'K') {
            SettingsCommand::ToggleEnabledSource(self.enabled_source_index)
        } else if is_plain_char(key, 'n') {
            self.proxy_input = to_owned_string(proxy_url);
            self.proxy_input_mode = true;
            self.status_msg = None;
            SettingsCommand::Nothing
        } else if is_plain_char(key, 's') {
            let js = str_eq(self.focus.as_str(), "js");
            self.focus = if js { to_owned_string("local") } else { to_owned_string("js") };
            SettingsCommand::Nothing
        } else {
            option_key_command(key, ctx)
        }
    }

    /// Handles a key press on the settings page: updates the page and
    /// returns the request for the application (see [`settings_step`]).
    /// `ctx` holds the list sizes and the login state, `proxy_url` the
    /// configured proxy; `resolver` gives the settings-page bindings.
    pub fn handle_input(&mut self, key: KeyEvent, ctx: &SettingsContext, proxy_url: &str, resolver: &KeybindingResolver) -> (r: SettingsCommand<String>)
        ensures
            (final(self)@, r@) == settings_step(
                old(self)@,
                key,
                *ctx,
                proxy_url@,
                page_action(resolver.page_scopes(), "settings"@, normalized(key.modifiers, key.code)),
            ),
    {
        if self.proxy_input_mode {
            return self.proxy_key(&key);
        }
        if self.local_path_mode {
            return self.local_input_key(&key);
        }
        if self.input_mode {
            return self.url_input_key(&key);
        }
        let bound = resolver.resolve_page("settings", &key);
        if str_eq(self.focus.as_str(), "local") {
            match self.local_list_key(&key, ctx, bound) {
                Some(command) => {
                    return command;
                },
                None => {},
            }
        }
        self.js_list_key(&key, ctx, proxy_url, bound)
    }
}

} // verus!
