//! The settings page: its input state, which keys it owns, and the cycles
//! that its option keys step through.
use vstd::prelude::*;
use crate::keybinding::config::Action;
use crate::keybinding::keys::{KeyCode, KeyEvent, normalized};
use crate::keybinding::resolver::{KeybindingResolver, page_action};
use crate::source::Quality;
use crate::text::{chars_of, str_eq, string_of_range, to_owned_string};

verus! {

/// State of the settings page.
#[derive(Debug)]
pub struct SettingsPage {
    /// URL or path of a script source being typed.
    pub input_url: String,
    pub input_mode: bool,
    pub status_msg: Option<String>,
    /// Selected script source.
    pub selected_source: usize,
    /// Local music folder being typed.
    pub local_path_input: String,
    pub local_path_mode: bool,
    pub selected_local_path: usize,
    /// Proxy address being typed.
    pub proxy_input: String,
    pub proxy_input_mode: bool,
    /// Built-in source that the switch key points at.
    pub enabled_source_index: usize,
    /// Focused list: `js` or `local`.
    pub focus: String,
}

/// The character keys that the settings page owns: it uses the alphabet
/// for its options, so these never reach the global shortcuts there.
pub const SETTINGS_PAGE_CHAR_KEYS: [char; 34] = [
    'a', 'd', 'r', 's', 'y', '[', 'm', 'Q', 'v', 'p', 'b', 'n', 'o', 'c', 'e', 'f', 'g', 'i', 't',
    'u', 'w', 'x', 'z', 'D', 'H', 'K', 'N', 'O', 'P', 'R', 'T', 'X', 'Y', ']',
];

/// The keys of the options, in the order the page lists them.
pub const SETTING_OPTION_KEYS: [char; 27] = [
    't', 'g', 'w', 'c', 'e', 'Q', 'm', 'H', 'v', 'u', 'K', 'T', 'Y', ']', 'n', 'N', 'P', 'f', 'z',
    'i', 'o', 'x', 'X', 'R', 'p', 'D', 'b',
];

/// `c` is one of [`SETTINGS_PAGE_CHAR_KEYS`].
pub open spec fn page_char(c: char) -> bool {
    exists|i: int| 0 <= i < 34 && #[trigger] SETTINGS_PAGE_CHAR_KEYS@[i] == c
}

/// The settings page owns `key`: never with Control or Alt; always when the
/// settings scope binds it to moving the selection; else the arrow keys and
/// the page's character keys.
pub open spec fn owns_key(key: KeyEvent, page_binding: Option<Action>) -> bool {
    if key.modifiers.control || key.modifiers.alt {
        false
    } else if page_binding == Some(Action::ListSelectUp) || page_binding == Some(Action::ListSelectDown) {
        true
    } else {
        match key.code {
            KeyCode::Up | KeyCode::Down => true,
            KeyCode::Char(c) => page_char(c),
            _ => false,
        }
    }
}

impl SettingsPage {
    /// A page with nothing being typed, the first entries selected and the
    /// script sources focused.
    pub fn new() -> (r: SettingsPage)
        ensures
            r.input_url@.len() == 0,
            !r.input_mode,
            r.status_msg is None,
            r.selected_source == 0,
            r.local_path_input@.len() == 0,
            !r.local_path_mode,
            r.selected_local_path == 0,
            r.proxy_input@.len() == 0,
            !r.proxy_input_mode,
            r.enabled_source_index == 0,
            r.focus@ == "js"@,
    {
        SettingsPage {
            input_url: String::new(),
            input_mode: false,
            status_msg: None,
            selected_source: 0,
            local_path_input: String::new(),
            local_path_mode: false,
            selected_local_path: 0,
            proxy_input: String::new(),
            proxy_input_mode: false,
            enabled_source_index: 0,
            focus: to_owned_string("js"),
        }
    }

    /// Whether a text is being typed on the page.
    pub fn any_input_active(&self) -> (r: bool)
        ensures
            r == (self.input_mode || self.local_path_mode || self.proxy_input_mode),
    {
        self.input_mode || self.local_path_mode || self.proxy_input_mode
    }

    /// Whether the settings page owns `key` (see [`owns_key`]), the list
    /// navigation keys being those that `resolver` binds on the settings page.
    #[verifier::loop_isolation(false)]
    pub fn consumes_key(key: &KeyEvent, resolver: &KeybindingResolver) -> (r: bool)
        ensures
            r == owns_key(*key, page_action(resolver.page_scopes(), "settings"@, normalized(key.modifiers, key.code))),
    {
        if key.modifiers.control || key.modifiers.alt {
            return false;
        }
        let bound = resolver.resolve_page("settings", key);
        match bound {
            Some(Action::ListSelectUp) | Some(Action::ListSelectDown) => {
                return true;
            },
            _ => {},
        }
        match key.code {
            KeyCode::Up | KeyCode::Down => true,
            KeyCode::Char(c) => {
                let keys = SETTINGS_PAGE_CHAR_KEYS;
                let mut i: usize = 0;
                while i < 34
                    invariant
                        i <= 34,
                        keys@ == SETTINGS_PAGE_CHAR_KEYS@,
                        forall|j: int| 0 <= j < i ==> #[trigger] SETTINGS_PAGE_CHAR_KEYS@[j] != c,
                    decreases 34 - i,
                {
                    if keys[i] == c {
                        assert(SETTINGS_PAGE_CHAR_KEYS@[i as int] == c);
                        return true;
                    }
                    i += 1;
                }
                false
            },
            _ => false,
        }
    }
}

/// Every option key of the page is one of its own keys, so that it reaches
/// the page when typed without modifiers.
pub proof fn lemma_option_keys_owned()
    ensures
        forall|i: int| 0 <= i < 27 ==> page_char(#[trigger] SETTING_OPTION_KEYS@[i]),
{
    assert forall|i: int| 0 <= i < 27 implies page_char(#[trigger] SETTING_OPTION_KEYS@[i]) by {
        let k = SETTING_OPTION_KEYS@[i];
        let keys = SETTINGS_PAGE_CHAR_KEYS@;
        assert(exists|j: int| 0 <= j < 34 && #[trigger] keys[j] == k) by {
            if k == 't' { assert(keys[18] == k); }
            else if k == 'g' { assert(keys[16] == k); }
            else if k == 'w' { assert(keys[20] == k); }
            else if k == 'c' { assert(keys[13] == k); }
            else if k == 'e' { assert(keys[14] == k); }
            else if k == 'Q' { assert(keys[7] == k); }
            else if k == 'm' { assert(keys[6] == k); }
            else if k == 'H' { assert(keys[24] == k); }
            else if k == 'v' { assert(keys[8] == k); }
            else if k == 'u' { assert(keys[19] == k); }
            else if k == 'K' { assert(keys[25] == k); }
            else if k == 'T' { assert(keys[30] == k); }
            else if k == 'Y' { assert(keys[32] == k); }
            else if k == ']' { assert(keys[33] == k); }
            else if k == 'n' { assert(keys[11] == k); }
            else if k == 'N' { assert(keys[26] == k); }
            else if k == 'P' { assert(keys[28] == k); }
            else if k == 'f' { assert(keys[15] == k); }
            else if k == 'z' { assert(keys[22] == k); }
            else if k == 'i' { assert(keys[17] == k); }
            else if k == 'o' { assert(keys[12] == k); }
            else if k == 'x' { assert(keys[21] == k); }
            else if k == 'X' { assert(keys[31] == k); }
            else if k == 'R' { assert(keys[29] == k); }
            else if k == 'p' { assert(keys[9] == k); }
            else if k == 'D' { assert(keys[23] == k); }
            else { assert(k == 'b'); assert(keys[10] == k); }
        }
    }
}

/// A source path or URL shortened to `max_chars` characters: unchanged when
/// it fits; else its first `max_chars - 3` characters and `...` (only dots
/// when `max_chars` is at most 3).
pub open spec fn shortened(value: Seq<char>, max_chars: int) -> Seq<char> {
    if value.len() <= max_chars {
        value
    } else if max_chars <= 3 {
        Seq::new(max_chars as nat, |i: int| '.')
    } else {
        value.take(max_chars - 3) + "..."@
    }
}

/// A source path or URL shortened to `max_chars` characters (see
/// [`shortened`]); never longer than that.
pub fn shorten_source(value: &str, max_chars: usize) -> (r: String)
    ensures
        r@ == shortened(value@, max_chars as int),
        r@.len() == if value@.len() <= max_chars {
            value@.len() as int
        } else {
            max_chars as int
        },
{
    let v = chars_of(value);
    if v.len() <= max_chars {
        return to_owned_string(value);
    }
    if max_chars <= 3 {
        let mut s = String::new();
        let mut i: usize = 0;
        while i < max_chars
            invariant
                i <= max_chars,
                s@ == Seq::new(i as nat, |j: int| '.'),
            decreases max_chars - i,
        {
            crate::text::push_char(&mut s, '.');
            assert(s@ =~= Seq::new((i + 1) as nat, |j: int| '.'));
            i += 1;
        }
        return s;
    }
    let mut s = string_of_range(&v, 0, max_chars - 3);
    crate::text::push_str(&mut s, "...");
    proof {
        reveal_strlit("...");
        assert(v@.subrange(0, max_chars - 3) == v@.take(max_chars - 3));
    }
    s
}

/// The next quality tier: 128k, 320k, FLAC, Hi-Res, 128k.
pub fn next_quality(quality: Quality) -> (r: Quality)
    ensures
        r == match quality {
            Quality::Low128 => Quality::High320,
            Quality::High320 => Quality::Flac,
            Quality::Flac => Quality::Flac24,
            Quality::Flac24 => Quality::Low128,
        },
{
    match quality {
        Quality::Low128 => Quality::High320,
        Quality::High320 => Quality::Flac,
        Quality::Flac => Quality::Flac24,
        Quality::Flac24 => Quality::Low128,
    }
}

/// The label of a tier on the settings page.
pub fn quality_label(quality: Quality) -> (r: &'static str)
    ensures
        r@ == match quality {
            Quality::Low128 => "128k"@,
            Quality::High320 => "320k"@,
            Quality::Flac => "FLAC"@,
            Quality::Flac24 => "Hi-Res"@,
        },
{
    match quality {
        Quality::Low128 => "128k",
        Quality::High320 => "320k",
        Quality::Flac => "FLAC",
        Quality::Flac24 => "Hi-Res",
    }
}

/// The next history size: up to 25 gives 50, up to 50 gives 100, up to 100
/// gives 200, up to 200 gives 500, more gives 25.
pub fn next_history_limit(limit: usize) -> (r: usize)
    ensures
        r == if limit <= 25 {
            50usize
        } else if limit <= 50 {
            100
        } else if limit <= 100 {
            200
        } else if limit <= 200 {
            500
        } else {
            25
        },
{
    if limit <= 25 {
        50
    } else if limit <= 50 {
        100
    } else if limit <= 100 {
        200
    } else if limit <= 200 {
        500
    } else {
        25
    }
}

/// The next network timeout in seconds: 5, 10, 15, 30, 60, then 5.
pub fn next_network_timeout(timeout: u64) -> (r: u64)
    ensures
        r == if timeout <= 5 {
            10u64
        } else if timeout <= 10 {
            15
        } else if timeout <= 15 {
            30
        } else if timeout <= 30 {
            60
        } else {
            5
        },
{
    if timeout <= 5 {
        10
    } else if timeout <= 10 {
        15
    } else if timeout <= 15 {
        30
    } else if timeout <= 30 {
        60
    } else {
        5
    }
}

/// The next cover protocol: auto, kitty, sixel, iterm2, halfblocks, then
/// auto (also after an unknown one).
pub fn next_cover_protocol(protocol: &str) -> (r: &'static str)
    ensures
        r@ == if protocol@ == "auto"@ {
            "kitty"@
        } else if protocol@ == "kitty"@ {
            "sixel"@
        } else if protocol@ == "sixel"@ {
            "iterm2"@
        } else if protocol@ == "iterm2"@ {
            "halfblocks"@
        } else {
            "auto"@
        },
{
    if str_eq(protocol, "auto") {
        "kitty"
    } else if str_eq(protocol, "kitty") {
        "sixel"
    } else if str_eq(protocol, "sixel") {
        "iterm2"
    } else if str_eq(protocol, "iterm2") {
        "halfblocks"
    } else {
        "auto"
    }
}

/// The next frame rate limit: 10, 20, 30, 60, then 10.
pub fn next_fps(fps: u32) -> (r: u32)
    ensures
        r == if fps <= 10 {
            20u32
        } else if fps <= 20 {
            30
        } else if fps <= 30 {
            60
        } else {
            10
        },
{
    if fps <= 10 {
        20
    } else if fps <= 20 {
        30
    } else if fps <= 30 {
        60
    } else {
        10
    }
}

/// The next scroll step: 1, 3, 5, 10, then 1.
pub fn next_scroll_amount(amount: usize) -> (r: usize)
    ensures
        r == if amount <= 1 {
            3usize
        } else if amount <= 3 {
            5
        } else if amount <= 5 {
            10
        } else {
            1
        },
{
    if amount <= 1 {
        3
    } else if amount <= 3 {
        5
    } else if amount <= 5 {
        10
    } else {
        1
    }
}

/// The next folder scan depth: 0 (unlimited), 1, 2, 4, 8, 16, then 0.
pub fn next_scan_depth(depth: u32) -> (r: u32)
    ensures
        r == if depth == 0 {
            1u32
        } else if depth == 1 {
            2
        } else if depth == 2 {
            4
        } else if depth <= 4 {
            8
        } else if depth <= 8 {
            16
        } else {
            0
        },
{
    if depth == 0 {
        1
    } else if depth == 1 {
        2
    } else if depth == 2 {
        4
    } else if depth <= 4 {
        8
    } else if depth <= 8 {
        16
    } else {
        0
    }
}

/// The next in-app notification time in seconds: 2, 4, 6, 8, then 2.
pub fn next_notification_timeout(timeout: u64) -> (r: u64)
    ensures
        r == if timeout <= 2 {
            4u64
        } else if timeout <= 4 {
            6
        } else if timeout <= 6 {
            8
        } else {
            2
        },
{
    if timeout <= 2 {
        4
    } else if timeout <= 4 {
        6
    } else if timeout <= 6 {
        8
    } else {
        2
    }
}

/// The next accent colour of the theme: mauve, blue, teal, pink, peach, then
/// mauve (also after any other colour).
pub fn next_accent(accent: &str) -> (r: &'static str)
    ensures
        r@ == if accent@ == "#cba6f7"@ {
            "#89b4fa"@
        } else if accent@ == "#89b4fa"@ {
            "#94e2d5"@
        } else if accent@ == "#94e2d5"@ {
            "#f5c2e7"@
        } else if accent@ == "#f5c2e7"@ {
            "#fab387"@
        } else {
            "#cba6f7"@
        },
{
    if str_eq(accent, "#cba6f7") {
        "#89b4fa"
    } else if str_eq(accent, "#89b4fa") {
        "#94e2d5"
    } else if str_eq(accent, "#94e2d5") {
        "#f5c2e7"
    } else if str_eq(accent, "#f5c2e7") {
        "#fab387"
    } else {
        "#cba6f7"
    }
}

} // verus!
