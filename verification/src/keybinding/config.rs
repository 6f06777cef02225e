use vstd::prelude::*;
use crate::text::{chars_of, chars_eq, str_eq, to_owned_string, is_digit};

verus! {

/// A user action that can be bound to a key.
#[derive(Debug, Clone, Copy, PartialEq, Eq, Hash, Structural)]
pub enum Action {
    GlobalQuit,
    GlobalPlayPause,
    GlobalNextTrack,
    GlobalPrevTrack,
    GlobalCycleMode,
    GlobalSeekForward,
    GlobalSeekBackward,
    GlobalVolumeUp,
    GlobalVolumeDown,
    GlobalNextTab,
    GlobalPrevTab,
    GlobalGoToMain,
    GlobalToggleFavorite,
    GlobalRedraw,
    ListSelectUp,
    ListSelectDown,
    ListSelectFirst,
    ListSelectLast,
    ListPageUp,
    ListPageDown,
    ListActivate,
    ListToggleFavorite,
    ListGoBack,
    ListAddToQueue,
    ListAddToQueueNext,
    ListCycleSort,
    SearchInputMode,
    SearchStart,
    SearchToggleAggregate,
    SearchCycleSourcePrev,
    SearchCycleSourceNext,
    LocalRescan,
    LocalDelete,
    LocalFilter,
    HistoryFilter,
    FavoritesFilter,
    FavoritesRemove,
    SettingsToggle,
    SettingsCyclePlaybackSpeed,
    SettingsEditAudioDevice,
    SettingsCycleReplayGainMode,
    SettingsCycleReplayGainPreamp,
    SettingsCycleChannelMode,
    SettingsCycleBalance,
    SettingsToggleReplayGainClip,
    SettingsCycleFadeInDuration,
    SettingsCycleFadeOutDuration,
    SettingsCycleEqualizerPreset,
    SettingsRunFadeIn,
    SettingsRunFadeOut,
    SettingsSetAbLoopStart,
    SettingsSetAbLoopEnd,
    SettingsClearAbLoop,
    SettingsExportData,
    SettingsImportData,
    SettingsImportPlaylist,
}

/// Key descriptions of a scope, by action: the view of a binding list.
pub open spec fn bview(v: Seq<(Action, String)>) -> Seq<(Action, Seq<char>)> {
    v.map_values(|p: (Action, String)| (p.0, p.1@))
}

/// Position of the first binding of `a` in `s`, or -1.
pub open spec fn first_index(s: Seq<(Action, Seq<char>)>, a: Action) -> int
    decreases s.len(),
{
    if s.len() == 0 {
        -1
    } else if s[0].0 == a {
        0
    } else {
        let r = first_index(s.drop_first(), a);
        if r < 0 {
            -1
        } else {
            r + 1
        }
    }
}

/// The key description bound to `a` in `s` (its first binding), if any.
pub open spec fn lookup(s: Seq<(Action, Seq<char>)>, a: Action) -> Option<Seq<char>> {
    let i = first_index(s, a);
    if 0 <= i < s.len() {
        Some(s[i].1)
    } else {
        None
    }
}

/// `s` with `a` bound to `v`: its first binding replaced, or a new one appended.
pub open spec fn assoc_set(s: Seq<(Action, Seq<char>)>, a: Action, v: Seq<char>) -> Seq<(Action, Seq<char>)> {
    let i = first_index(s, a);
    if 0 <= i < s.len() {
        s.update(i, (a, v))
    } else {
        s.push((a, v))
    }
}

/// `first_index` is the first position holding `a`, or -1 when none does.
pub proof fn lemma_first_index(s: Seq<(Action, Seq<char>)>, a: Action)
    ensures
        -1 <= first_index(s, a) < s.len(),
        first_index(s, a) >= 0 ==> s[first_index(s, a)].0 == a,
        forall|j: int| 0 <= j < s.len() && (first_index(s, a) < 0 || j < first_index(s, a))
            ==> #[trigger] s[j].0 != a,
    decreases s.len(),
{
    if s.len() > 0 && s[0].0 != a {
        let t = s.drop_first();
        lemma_first_index(t, a);
        assert forall|j: int| 0 <= j < s.len() && (first_index(s, a) < 0 || j < first_index(s, a))
            implies #[trigger] s[j].0 != a by {
            if j > 0 {
                assert(s[j] == t[j - 1]);
            }
        }
    }
}

/// A position `i` holding `a` with no earlier one is `first_index`.
pub proof fn lemma_first_index_is(s: Seq<(Action, Seq<char>)>, a: Action, i: int)
    requires
        -1 <= i < s.len(),
        i >= 0 ==> s[i].0 == a,
        forall|j: int| 0 <= j < s.len() && (i < 0 || j < i) ==> #[trigger] s[j].0 != a,
    ensures
        first_index(s, a) == i,
{
    lemma_first_index(s, a);
    let f = first_index(s, a);
    if f >= 0 && (i < 0 || f < i) {
        assert(s[f].0 != a);
    }
    if i >= 0 && (f < 0 || i < f) {
        assert(s[i].0 != a);
    }
}

/// Binding `a` to `v` makes `v` the key of `a` and leaves every other action alone.
pub proof fn lemma_lookup_assoc_set(s: Seq<(Action, Seq<char>)>, a: Action, v: Seq<char>, b: Action)
    ensures
        lookup(assoc_set(s, a, v), b) == (if a == b {
            Some(v)
        } else {
            lookup(s, b)
        }),
{
    lemma_first_index(s, a);
    lemma_first_index(s, b);
    let t = assoc_set(s, a, v);
    let i = first_index(s, a);
    let k = first_index(s, b);
    if a == b {
        if 0 <= i < s.len() {
            lemma_first_index_is(t, b, i);
        } else {
            lemma_first_index_is(t, b, s.len() as int);
        }
    } else {
        if 0 <= i < s.len() {
            lemma_first_index_is(t, b, k);
        } else {
            if k >= 0 {
                lemma_first_index_is(t, b, k);
            } else {
                lemma_first_index_is(t, b, -1);
            }
        }
    }
}

/// Position of the first binding of `a` in `v`.
pub fn find_binding(v: &Vec<(Action, String)>, a: Action) -> (r: Option<usize>)
    ensures
        match r {
            Some(i) => i < v.len() && first_index(bview(v@), a) == i,
            None => first_index(bview(v@), a) == -1,
        },
{
    let ghost s = bview(v@);
    let mut i: usize = 0;
    while i < v.len()
        invariant
            i <= v.len(),
            s == bview(v@),
            forall|j: int| 0 <= j < i ==> #[trigger] s[j].0 != a,
        decreases v.len() - i,
    {
        if v[i].0 == a {
            proof {
                lemma_first_index_is(s, a, i as int);
            }
            return Some(i);
        }
        i += 1;
    }
    proof {
        lemma_first_index_is(s, a, -1);
    }
    None
}

/// The key description bound to `a` in `v`, if any.
pub fn get_binding(v: &Vec<(Action, String)>, a: Action) -> (r: Option<&String>)
    ensures
        match r {
            Some(k) => lookup(bview(v@), a) == Some(k@),
            None => lookup(bview(v@), a) is None,
        },
{
    match find_binding(v, a) {
        Some(i) => Some(&v[i].1),
        None => None,
    }
}

/// Binds `a` to `key` in `v` (replacing its binding, or appending one).
pub fn set_binding(v: &mut Vec<(Action, String)>, a: Action, key: String)
    ensures
        bview(final(v)@) == assoc_set(bview(old(v)@), a, key@),
{
    match find_binding(v, a) {
        Some(i) => {
            v[i] = (a, key);
            assert(bview(v@) =~= bview(old(v)@).update(i as int, (a, key@)));
        },
        None => {
            v.push((a, key));
            assert(bview(v@) =~= bview(old(v)@).push((a, key@)));
        },
    }
}

/// Appends the binding of `a` to the key described by `key`.
fn bind(v: &mut Vec<(Action, String)>, a: Action, key: &str)
    ensures
        bview(final(v)@) == bview(old(v)@).push((a, key@)),
{
    v.push((a, to_owned_string(key)));
    assert(bview(v@) =~= bview(old(v)@).push((a, key@)));
}

/// Page scopes: the view of the per-page binding lists.
pub open spec fn pview(p: Seq<(String, Vec<(Action, String)>)>) -> Seq<(Seq<char>, Seq<(Action, Seq<char>)>)> {
    p.map_values(|e: (String, Vec<(Action, String)>)| (e.0@, bview(e.1@)))
}

/// Position of the first page named `name`, or -1.
pub open spec fn first_page(p: Seq<(Seq<char>, Seq<(Action, Seq<char>)>)>, name: Seq<char>) -> int
    decreases p.len(),
{
    if p.len() == 0 {
        -1
    } else if p[0].0 == name {
        0
    } else {
        let r = first_page(p.drop_first(), name);
        if r < 0 {
            -1
        } else {
            r + 1
        }
    }
}

/// The bindings of the page named `name`, if any.
pub open spec fn lookup_page(p: Seq<(Seq<char>, Seq<(Action, Seq<char>)>)>, name: Seq<char>) -> Option<Seq<(Action, Seq<char>)>> {
    let i = first_page(p, name);
    if 0 <= i < p.len() {
        Some(p[i].1)
    } else {
        None
    }
}

/// `first_page` is the first position holding `name`, or -1.
pub proof fn lemma_first_page(p: Seq<(Seq<char>, Seq<(Action, Seq<char>)>)>, name: Seq<char>)
    ensures
        -1 <= first_page(p, name) < p.len(),
        first_page(p, name) >= 0 ==> p[first_page(p, name)].0 == name,
        forall|j: int| 0 <= j < p.len() && (first_page(p, name) < 0 || j < first_page(p, name))
            ==> #[trigger] p[j].0 != name,
    decreases p.len(),
{
    if p.len() > 0 && p[0].0 != name {
        let t = p.drop_first();
        lemma_first_page(t, name);
        assert forall|j: int| 0 <= j < p.len() && (first_page(p, name) < 0 || j < first_page(p, name))
            implies #[trigger] p[j].0 != name by {
            if j > 0 {
                assert(p[j] == t[j - 1]);
            }
        }
    }
}

/// A position `i` holding `name` with no earlier one is `first_page`.
pub proof fn lemma_first_page_is(p: Seq<(Seq<char>, Seq<(Action, Seq<char>)>)>, name: Seq<char>, i: int)
    requires
        -1 <= i < p.len(),
        i >= 0 ==> p[i].0 == name,
        forall|j: int| 0 <= j < p.len() && (i < 0 || j < i) ==> #[trigger] p[j].0 != name,
    ensures
        first_page(p, name) == i,
{
    lemma_first_page(p, name);
    let f = first_page(p, name);
    if f >= 0 && (i < 0 || f < i) {
        assert(p[f].0 != name);
    }
    if i >= 0 && (f < 0 || i < f) {
        assert(p[i].0 != name);
    }
}

/// Position of the first page named `name` in `p`.
pub fn find_page(p: &Vec<(String, Vec<(Action, String)>)>, name: &str) -> (r: Option<usize>)
    ensures
        match r {
            Some(i) => i < p.len() && first_page(pview(p@), name@) == i,
            None => first_page(pview(p@), name@) == -1,
        },
{
    let ghost s = pview(p@);
    let target = chars_of(name);
    let mut i: usize = 0;
    while i < p.len()
        invariant
            i <= p.len(),
            s == pview(p@),
            target@ == name@,
            forall|j: int| 0 <= j < i ==> #[trigger] s[j].0 != name@,
        decreases p.len() - i,
    {
        let here = chars_of(p[i].0.as_str());
        if chars_eq(&here, &target) {
            proof {
                lemma_first_page_is(s, name@, i as int);
            }
            return Some(i);
        }
        i += 1;
    }
    proof {
        lemma_first_page_is(s, name@, -1);
    }
    None
}

/// Default global bindings.
pub open spec fn default_global_spec() -> Seq<(Action, Seq<char>)> {
    seq![(Action::GlobalQuit, "q"@), (Action::GlobalPlayPause, "Space"@), (Action::GlobalNextTrack, "n"@), (Action::GlobalPrevTrack, "b"@), (Action::GlobalCycleMode, "m"@), (Action::GlobalSeekForward, "]"@), (Action::GlobalSeekBackward, "["@), (Action::GlobalVolumeUp, "."@), (Action::GlobalVolumeDown, ","@), (Action::GlobalNextTab, "Tab"@), (Action::GlobalPrevTab, "Shift+Tab"@), (Action::GlobalGoToMain, "Esc"@), (Action::GlobalToggleFavorite, "Ctrl+l"@), (Action::GlobalRedraw, "Ctrl+r"@)]
}

/// Default bindings of the `search` page.
pub open spec fn default_search_spec() -> Seq<(Action, Seq<char>)> {
    seq![(Action::SearchInputMode, "i"@), (Action::SearchStart, "Enter"@), (Action::SearchToggleAggregate, "v"@), (Action::ListSelectUp, "k"@), (Action::ListSelectDown, "j"@), (Action::ListSelectFirst, "g"@), (Action::ListSelectLast, "G"@), (Action::ListPageUp, "Ctrl+u"@), (Action::ListPageDown, "Ctrl+d"@), (Action::ListActivate, "l"@), (Action::ListToggleFavorite, "f"@), (Action::ListAddToQueue, "a"@), (Action::ListAddToQueueNext, "A"@), (Action::SearchCycleSourcePrev, "Left"@), (Action::SearchCycleSourceNext, "Right"@), (Action::ListGoBack, "Esc"@)]
}

/// Default bindings of the `main` page.
pub open spec fn default_main_spec() -> Seq<(Action, Seq<char>)> {
    seq![(Action::ListSelectUp, "k"@), (Action::ListSelectDown, "j"@), (Action::ListSelectFirst, "g"@), (Action::ListSelectLast, "G"@), (Action::ListPageUp, "Ctrl+u"@), (Action::ListPageDown, "Ctrl+d"@), (Action::ListActivate, "Enter"@), (Action::ListToggleFavorite, "f"@)]
}

/// Default bindings of the `leaderboard` page.
pub open spec fn default_leaderboard_spec() -> Seq<(Action, Seq<char>)> {
    seq![(Action::ListSelectUp, "k"@), (Action::ListSelectDown, "j"@), (Action::ListSelectFirst, "g"@), (Action::ListSelectLast, "G"@), (Action::ListPageUp, "Ctrl+u"@), (Action::ListPageDown, "Ctrl+d"@), (Action::ListActivate, "Enter"@), (Action::ListToggleFavorite, "f"@), (Action::ListAddToQueue, "a"@), (Action::ListAddToQueueNext, "A"@), (Action::SearchCycleSourcePrev, "Left"@), (Action::SearchCycleSourceNext, "Right"@), (Action::ListGoBack, "Esc"@)]
}

/// Default bindings of the `playlists` page.
pub open spec fn default_playlists_spec() -> Seq<(Action, Seq<char>)> {
    seq![(Action::ListSelectUp, "k"@), (Action::ListSelectDown, "j"@), (Action::ListSelectFirst, "g"@), (Action::ListSelectLast, "G"@), (Action::ListPageUp, "Ctrl+u"@), (Action::ListPageDown, "Ctrl+d"@), (Action::ListActivate, "Enter"@), (Action::ListToggleFavorite, "f"@), (Action::ListAddToQueue, "a"@), (Action::ListAddToQueueNext, "A"@), (Action::SearchCycleSourcePrev, "Left"@), (Action::SearchCycleSourceNext, "Right"@), (Action::ListGoBack, "Esc"@)]
}

/// Default bindings of the `favorites` page.
pub open spec fn default_favorites_spec() -> Seq<(Action, Seq<char>)> {
    seq![(Action::FavoritesFilter, "/"@), (Action::ListSelectUp, "k"@), (Action::ListSelectDown, "j"@), (Action::ListSelectFirst, "g"@), (Action::ListSelectLast, "G"@), (Action::ListPageUp, "Ctrl+u"@), (Action::ListPageDown, "Ctrl+d"@), (Action::ListActivate, "Enter"@), (Action::ListToggleFavorite, "f"@), (Action::ListAddToQueue, "a"@), (Action::ListAddToQueueNext, "A"@), (Action::ListCycleSort, "s"@), (Action::FavoritesRemove, "d"@), (Action::ListGoBack, "Esc"@)]
}

/// Default bindings of the `history` page.
pub open spec fn default_history_spec() -> Seq<(Action, Seq<char>)> {
    seq![(Action::ListSelectUp, "k"@), (Action::ListSelectDown, "j"@), (Action::ListSelectFirst, "g"@), (Action::ListSelectLast, "G"@), (Action::ListPageUp, "Ctrl+u"@), (Action::ListPageDown, "Ctrl+d"@), (Action::ListActivate, "Enter"@), (Action::ListToggleFavorite, "f"@), (Action::ListAddToQueue, "a"@), (Action::ListAddToQueueNext, "A"@), (Action::ListCycleSort, "s"@), (Action::HistoryFilter, "/"@)]
}

/// Default bindings of the `local` page.
pub open spec fn default_local_spec() -> Seq<(Action, Seq<char>)> {
    seq![(Action::ListSelectUp, "k"@), (Action::ListSelectDown, "j"@), (Action::ListSelectFirst, "g"@), (Action::ListSelectLast, "G"@), (Action::ListPageUp, "Ctrl+u"@), (Action::ListPageDown, "Ctrl+d"@), (Action::ListActivate, "Enter"@), (Action::ListToggleFavorite, "f"@), (Action::ListAddToQueue, "a"@), (Action::ListAddToQueueNext, "A"@), (Action::ListCycleSort, "s"@), (Action::LocalRescan, "r"@), (Action::LocalDelete, "d"@), (Action::LocalFilter, "/"@)]
}

/// Default bindings of the `settings` page.
pub open spec fn default_settings_spec() -> Seq<(Action, Seq<char>)> {
    seq![(Action::ListSelectUp, "k"@), (Action::ListSelectDown, "j"@), (Action::ListGoBack, "Esc"@), (Action::SettingsCyclePlaybackSpeed, "F1"@), (Action::SettingsEditAudioDevice, "F2"@), (Action::SettingsCycleReplayGainMode, "F3"@), (Action::SettingsCycleChannelMode, "F4"@), (Action::SettingsCycleReplayGainPreamp, "F5"@), (Action::SettingsCycleBalance, "F6"@), (Action::SettingsToggleReplayGainClip, "F7"@), (Action::SettingsCycleFadeInDuration, "F8"@), (Action::SettingsCycleFadeOutDuration, "F9"@), (Action::SettingsCycleEqualizerPreset, "F10"@), (Action::SettingsRunFadeIn, "Shift+F1"@), (Action::SettingsRunFadeOut, "Shift+F2"@), (Action::SettingsSetAbLoopStart, "Shift+F3"@), (Action::SettingsSetAbLoopEnd, "Shift+F4"@), (Action::SettingsClearAbLoop, "Shift+F5"@), (Action::SettingsExportData, "Shift+F6"@), (Action::SettingsImportData, "Shift+F7"@), (Action::SettingsImportPlaylist, "Shift+F8"@)]
}

/// Default bindings of the `bili_login` page.
pub open spec fn default_bili_login_spec() -> Seq<(Action, Seq<char>)> {
    seq![(Action::ListGoBack, "Esc"@)]
}

/// Default page scopes, in order.
pub open spec fn default_pages_spec() -> Seq<(Seq<char>, Seq<(Action, Seq<char>)>)> {
    seq![("search"@, default_search_spec()), ("main"@, default_main_spec()), ("leaderboard"@, default_leaderboard_spec()), ("playlists"@, default_playlists_spec()), ("favorites"@, default_favorites_spec()), ("history"@, default_history_spec()), ("local"@, default_local_spec()), ("settings"@, default_settings_spec()), ("bili_login"@, default_bili_login_spec())]
}

/// The default global bindings.
fn default_global_bindings() -> (r: Vec<(Action, String)>)
    ensures
        bview(r@) == default_global_spec(),
{
    let mut m: Vec<(Action, String)> = Vec::new();
    bind(&mut m, Action::GlobalQuit, "q");
    bind(&mut m, Action::GlobalPlayPause, "Space");
    bind(&mut m, Action::GlobalNextTrack, "n");
    bind(&mut m, Action::GlobalPrevTrack, "b");
    bind(&mut m, Action::GlobalCycleMode, "m");
    bind(&mut m, Action::GlobalSeekForward, "]");
    bind(&mut m, Action::GlobalSeekBackward, "[");
    bind(&mut m, Action::GlobalVolumeUp, ".");
    bind(&mut m, Action::GlobalVolumeDown, ",");
    bind(&mut m, Action::GlobalNextTab, "Tab");
    bind(&mut m, Action::GlobalPrevTab, "Shift+Tab");
    bind(&mut m, Action::GlobalGoToMain, "Esc");
    bind(&mut m, Action::GlobalToggleFavorite, "Ctrl+l");
    bind(&mut m, Action::GlobalRedraw, "Ctrl+r");
    assert(bview(m@) =~= default_global_spec());
    m
}

fn default_search_bindings() -> (r: Vec<(Action, String)>)
    ensures
        bview(r@) == default_search_spec(),
{
    let mut m: Vec<(Action, String)> = Vec::new();
    bind(&mut m, Action::SearchInputMode, "i");
    bind(&mut m, Action::SearchStart, "Enter");
    bind(&mut m, Action::SearchToggleAggregate, "v");
    bind(&mut m, Action::ListSelectUp, "k");
    bind(&mut m, Action::ListSelectDown, "j");
    bind(&mut m, Action::ListSelectFirst, "g");
    bind(&mut m, Action::ListSelectLast, "G");
    bind(&mut m, Action::ListPageUp, "Ctrl+u");
    bind(&mut m, Action::ListPageDown, "Ctrl+d");
    bind(&mut m, Action::ListActivate, "l");
    bind(&mut m, Action::ListToggleFavorite, "f");
    bind(&mut m, Action::ListAddToQueue, "a");
    bind(&mut m, Action::ListAddToQueueNext, "A");
    bind(&mut m, Action::SearchCycleSourcePrev, "Left");
    bind(&mut m, Action::SearchCycleSourceNext, "Right");
    bind(&mut m, Action::ListGoBack, "Esc");
    assert(bview(m@) =~= default_search_spec());
    m
}

fn default_main_bindings() -> (r: Vec<(Action, String)>)
    ensures
        bview(r@) == default_main_spec(),
{
    let mut m: Vec<(Action, String)> = Vec::new();
    bind(&mut m, Action::ListSelectUp, "k");
    bind(&mut m, Action::ListSelectDown, "j");
    bind(&mut m, Action::ListSelectFirst, "g");
    bind(&mut m, Action::ListSelectLast, "G");
    bind(&mut m, Action::ListPageUp, "Ctrl+u");
    bind(&mut m, Action::ListPageDown, "Ctrl+d");
    bind(&mut m, Action::ListActivate, "Enter");
    bind(&mut m, Action::ListToggleFavorite, "f");
    assert(bview(m@) =~= default_main_spec());
    m
}

fn default_leaderboard_bindings() -> (r: Vec<(Action, String)>)
    ensures
        bview(r@) == default_leaderboard_spec(),
{
    let mut m: Vec<(Action, String)> = Vec::new();
    bind(&mut m, Action::ListSelectUp, "k");
    bind(&mut m, Action::ListSelectDown, "j");
    bind(&mut m, Action::ListSelectFirst, "g");
    bind(&mut m, Action::ListSelectLast, "G");
    bind(&mut m, Action::ListPageUp, "Ctrl+u");
    bind(&mut m, Action::ListPageDown, "Ctrl+d");
    bind(&mut m, Action::ListActivate, "Enter");
    bind(&mut m, Action::ListToggleFavorite, "f");
    bind(&mut m, Action::ListAddToQueue, "a");
    bind(&mut m, Action::ListAddToQueueNext, "A");
    bind(&mut m, Action::SearchCycleSourcePrev, "Left");
    bind(&mut m, Action::SearchCycleSourceNext, "Right");
    bind(&mut m, Action::ListGoBack, "Esc");
    assert(bview(m@) =~= default_leaderboard_spec());
    m
}

fn default_playlists_bindings() -> (r: Vec<(Action, String)>)
    ensures
        bview(r@) == default_playlists_spec(),
{
    let mut m: Vec<(Action, String)> = Vec::new();
    bind(&mut m, Action::ListSelectUp, "k");
    bind(&mut m, Action::ListSelectDown, "j");
    bind(&mut m, Action::ListSelectFirst, "g");
    bind(&mut m, Action::ListSelectLast, "G");
    bind(&mut m, Action::ListPageUp, "Ctrl+u");
    bind(&mut m, Action::ListPageDown, "Ctrl+d");
    bind(&mut m, Action::ListActivate, "Enter");
    bind(&mut m, Action::ListToggleFavorite, "f");
    bind(&mut m, Action::ListAddToQueue, "a");
    bind(&mut m, Action::ListAddToQueueNext, "A");
    bind(&mut m, Action::SearchCycleSourcePrev, "Left");
    bind(&mut m, Action::SearchCycleSourceNext, "Right");
    bind(&mut m, Action::ListGoBack, "Esc");
    assert(bview(m@) =~= default_playlists_spec());
    m
}

fn default_favorites_bindings() -> (r: Vec<(Action, String)>)
    ensures
        bview(r@) == default_favorites_spec(),
{
    let mut m: Vec<(Action, String)> = Vec::new();
    bind(&mut m, Action::FavoritesFilter, "/");
    bind(&mut m, Action::ListSelectUp, "k");
    bind(&mut m, Action::ListSelectDown, "j");
    bind(&mut m, Action::ListSelectFirst, "g");
    bind(&mut m, Action::ListSelectLast, "G");
    bind(&mut m, Action::ListPageUp, "Ctrl+u");
    bind(&mut m, Action::ListPageDown, "Ctrl+d");
    bind(&mut m, Action::ListActivate, "Enter");
    bind(&mut m, Action::ListToggleFavorite, "f");
    bind(&mut m, Action::ListAddToQueue, "a");
    bind(&mut m, Action::ListAddToQueueNext, "A");
    bind(&mut m, Action::ListCycleSort, "s");
    bind(&mut m, Action::FavoritesRemove, "d");
    bind(&mut m, Action::ListGoBack, "Esc");
    assert(bview(m@) =~= default_favorites_spec());
    m
}

fn default_history_bindings() -> (r: Vec<(Action, String)>)
    ensures
        bview(r@) == default_history_spec(),
{
    let mut m: Vec<(Action, String)> = Vec::new();
    bind(&mut m, Action::ListSelectUp, "k");
    bind(&mut m, Action::ListSelectDown, "j");
    bind(&mut m, Action::ListSelectFirst, "g");
    bind(&mut m, Action::ListSelectLast, "G");
    bind(&mut m, Action::ListPageUp, "Ctrl+u");
    bind(&mut m, Action::ListPageDown, "Ctrl+d");
    bind(&mut m, Action::ListActivate, "Enter");
    bind(&mut m, Action::ListToggleFavorite, "f");
    bind(&mut m, Action::ListAddToQueue, "a");
    bind(&mut m, Action::ListAddToQueueNext, "A");
    bind(&mut m, Action::ListCycleSort, "s");
    bind(&mut m, Action::HistoryFilter, "/");
    assert(bview(m@) =~= default_history_spec());
    m
}

fn default_local_bindings() -> (r: Vec<(Action, String)>)
    ensures
        bview(r@) == default_local_spec(),
{
    let mut m: Vec<(Action, String)> = Vec::new();
    bind(&mut m, Action::ListSelectUp, "k");
    bind(&mut m, Action::ListSelectDown, "j");
    bind(&mut m, Action::ListSelectFirst, "g");
    bind(&mut m, Action::ListSelectLast, "G");
    bind(&mut m, Action::ListPageUp, "Ctrl+u");
    bind(&mut m, Action::ListPageDown, "Ctrl+d");
    bind(&mut m, Action::ListActivate, "Enter");
    bind(&mut m, Action::ListToggleFavorite, "f");
    bind(&mut m, Action::ListAddToQueue, "a");
    bind(&mut m, Action::ListAddToQueueNext, "A");
    bind(&mut m, Action::ListCycleSort, "s");
    bind(&mut m, Action::LocalRescan, "r");
    bind(&mut m, Action::LocalDelete, "d");
    bind(&mut m, Action::LocalFilter, "/");
    assert(bview(m@) =~= default_local_spec());
    m
}

fn default_settings_bindings() -> (r: Vec<(Action, String)>)
    ensures
        bview(r@) == default_settings_spec(),
{
    let mut m: Vec<(Action, String)> = Vec::new();
    bind(&mut m, Action::ListSelectUp, "k");
    bind(&mut m, Action::ListSelectDown, "j");
    bind(&mut m, Action::ListGoBack, "Esc");
    bind(&mut m, Action::SettingsCyclePlaybackSpeed, "F1");
    bind(&mut m, Action::SettingsEditAudioDevice, "F2");
    bind(&mut m, Action::SettingsCycleReplayGainMode, "F3");
    bind(&mut m, Action::SettingsCycleChannelMode, "F4");
    bind(&mut m, Action::SettingsCycleReplayGainPreamp, "F5");
    bind(&mut m, Action::SettingsCycleBalance, "F6");
    bind(&mut m, Action::SettingsToggleReplayGainClip, "F7");
    bind(&mut m, Action::SettingsCycleFadeInDuration, "F8");
    bind(&mut m, Action::SettingsCycleFadeOutDuration, "F9");
    bind(&mut m, Action::SettingsCycleEqualizerPreset, "F10");
    bind(&mut m, Action::SettingsRunFadeIn, "Shift+F1");
    bind(&mut m, Action::SettingsRunFadeOut, "Shift+F2");
    bind(&mut m, Action::SettingsSetAbLoopStart, "Shift+F3");
    bind(&mut m, Action::SettingsSetAbLoopEnd, "Shift+F4");
    bind(&mut m, Action::SettingsClearAbLoop, "Shift+F5");
    bind(&mut m, Action::SettingsExportData, "Shift+F6");
    bind(&mut m, Action::SettingsImportData, "Shift+F7");
    bind(&mut m, Action::SettingsImportPlaylist, "Shift+F8");
    assert(bview(m@) =~= default_settings_spec());
    m
}

fn default_bili_login_bindings() -> (r: Vec<(Action, String)>)
    ensures
        bview(r@) == default_bili_login_spec(),
{
    let mut m: Vec<(Action, String)> = Vec::new();
    bind(&mut m, Action::ListGoBack, "Esc");
    assert(bview(m@) =~= default_bili_login_spec());
    m
}

/// The default page bindings.
fn default_page_bindings() -> (r: Vec<(String, Vec<(Action, String)>)>)
    ensures
        pview(r@) == default_pages_spec(),
{
    let mut pages: Vec<(String, Vec<(Action, String)>)> = Vec::new();
    pages.push((to_owned_string("search"), default_search_bindings()));
    pages.push((to_owned_string("main"), default_main_bindings()));
    pages.push((to_owned_string("leaderboard"), default_leaderboard_bindings()));
    pages.push((to_owned_string("playlists"), default_playlists_bindings()));
    pages.push((to_owned_string("favorites"), default_favorites_bindings()));
    pages.push((to_owned_string("history"), default_history_bindings()));
    pages.push((to_owned_string("local"), default_local_bindings()));
    pages.push((to_owned_string("settings"), default_settings_bindings()));
    pages.push((to_owned_string("bili_login"), default_bili_login_bindings()));
    assert(pview(pages@) =~= default_pages_spec());
    pages
}


/// Key bindings: a global scope and one scope per page. Each scope maps an
/// action to a key description such as `"Ctrl+l"`.
#[derive(Debug)]
pub struct KeybindingConfig {
    /// Global bindings: action and key description.
    pub global: Vec<(Action, String)>,
    /// Page bindings: page name and its bindings.
    pub pages: Vec<(String, Vec<(Action, String)>)>,
}

impl KeybindingConfig {
    /// The key description bound to `action` in the global scope.
    pub fn global_binding(&self, action: Action) -> (r: Option<&String>)
        ensures
            match r {
                Some(k) => lookup(bview(self.global@), action) == Some(k@),
                None => lookup(bview(self.global@), action) is None,
            },
    {
        get_binding(&self.global, action)
    }

    /// The bindings of page `page`.
    pub fn page(&self, page: &str) -> (r: Option<&Vec<(Action, String)>>)
        ensures
            match r {
                Some(b) => lookup_page(pview(self.pages@), page@) == Some(bview(b@)),
                None => lookup_page(pview(self.pages@), page@) is None,
            },
    {
        match find_page(&self.pages, page) {
            Some(i) => Some(&self.pages[i].1),
            None => None,
        }
    }

    /// The key description bound to `action` on page `page`.
    pub fn page_binding(&self, page: &str, action: Action) -> (r: Option<&String>)
        ensures
            match r {
                Some(k) => lookup_page(pview(self.pages@), page@) matches Some(b) && lookup(b, action)
                    == Some(k@),
                None => lookup_page(pview(self.pages@), page@) matches Some(b) ==> lookup(b, action) is None,
            },
    {
        match self.page(page) {
            Some(b) => get_binding(b, action),
            None => None,
        }
    }

    /// Binds `action` to `key` in the global scope.
    pub fn set_global(&mut self, action: Action, key: String)
        ensures
            bview(final(self).global@) == assoc_set(bview(old(self).global@), action, key@),
            pview(final(self).pages@) == pview(old(self).pages@),
    {
        set_binding(&mut self.global, action, key);
    }

    /// Binds `action` to `key` on page `page`, creating the page scope if needed.
    pub fn set_page_binding(&mut self, page: &str, action: Action, key: String)
        ensures
            bview(final(self).global@) == bview(old(self).global@),
            pview(final(self).pages@) == page_set(pview(old(self).pages@), page@, action, key@),
    {
        match find_page(&self.pages, page) {
            Some(i) => {
                let ghost before = pview(self.pages@);
                let (name, mut bindings) = self.pages.remove(i);
                set_binding(&mut bindings, action, key);
                let ghost entry = (name@, bview(bindings@));
                self.pages.insert(i, (name, bindings));
                assert(pview(self.pages@) =~= before.update(i as int, entry));
            },
            None => {
                let mut bindings: Vec<(Action, String)> = Vec::new();
                bindings.push((action, key));
                assert(bview(bindings@) =~= seq![(action, key@)]);
                assert(assoc_set(Seq::<(Action, Seq<char>)>::empty(), action, key@) =~= seq![(action, key@)]);
                self.pages.push((to_owned_string(page), bindings));
                assert(pview(self.pages@) =~= pview(old(self).pages@).push((page@, seq![(action, key@)])));
            },
        }
    }
}

/// `p` with `action` bound to `key` on page `name` (the page is created when missing).
pub open spec fn page_set(p: Seq<(Seq<char>, Seq<(Action, Seq<char>)>)>, name: Seq<char>, action: Action, key: Seq<char>) -> Seq<(Seq<char>, Seq<(Action, Seq<char>)>)> {
    let i = first_page(p, name);
    if 0 <= i < p.len() {
        p.update(i, (p[i].0, assoc_set(p[i].1, action, key)))
    } else {
        p.push((name, assoc_set(Seq::empty(), action, key)))
    }
}

impl Default for KeybindingConfig {
    /// The default bindings.
    fn default() -> (r: Self)
        ensures
            bview(r.global@) == default_global_spec(),
            pview(r.pages@) == default_pages_spec(),
    {
        KeybindingConfig { global: default_global_bindings(), pages: default_page_bindings() }
    }
}

/// Settings-page bindings of earlier releases, which bare digits and letters used.
pub open spec fn legacy_settings_spec() -> Seq<(Action, Seq<char>)> {
    seq![(Action::SettingsCyclePlaybackSpeed, "1"@), (Action::SettingsEditAudioDevice, "2"@), (Action::SettingsCycleReplayGainMode, "3"@), (Action::SettingsCycleChannelMode, "4"@), (Action::SettingsCycleReplayGainPreamp, "5"@), (Action::SettingsCycleBalance, "6"@), (Action::SettingsToggleReplayGainClip, "7"@), (Action::SettingsCycleFadeInDuration, "8"@), (Action::SettingsCycleFadeOutDuration, "9"@), (Action::SettingsCycleEqualizerPreset, "0"@), (Action::SettingsRunFadeIn, "F"@), (Action::SettingsRunFadeOut, "G"@), (Action::SettingsSetAbLoopStart, "L"@), (Action::SettingsSetAbLoopEnd, "U"@), (Action::SettingsClearAbLoop, "C"@), (Action::SettingsExportData, "E"@), (Action::SettingsImportData, "I"@), (Action::SettingsImportPlaylist, "J"@)]
}

fn legacy_settings_bindings() -> (r: Vec<(Action, String)>)
    ensures
        bview(r@) == legacy_settings_spec(),
{
    let mut m: Vec<(Action, String)> = Vec::new();
    bind(&mut m, Action::SettingsCyclePlaybackSpeed, "1");
    bind(&mut m, Action::SettingsEditAudioDevice, "2");
    bind(&mut m, Action::SettingsCycleReplayGainMode, "3");
    bind(&mut m, Action::SettingsCycleChannelMode, "4");
    bind(&mut m, Action::SettingsCycleReplayGainPreamp, "5");
    bind(&mut m, Action::SettingsCycleBalance, "6");
    bind(&mut m, Action::SettingsToggleReplayGainClip, "7");
    bind(&mut m, Action::SettingsCycleFadeInDuration, "8");
    bind(&mut m, Action::SettingsCycleFadeOutDuration, "9");
    bind(&mut m, Action::SettingsCycleEqualizerPreset, "0");
    bind(&mut m, Action::SettingsRunFadeIn, "F");
    bind(&mut m, Action::SettingsRunFadeOut, "G");
    bind(&mut m, Action::SettingsSetAbLoopStart, "L");
    bind(&mut m, Action::SettingsSetAbLoopEnd, "U");
    bind(&mut m, Action::SettingsClearAbLoop, "C");
    bind(&mut m, Action::SettingsExportData, "E");
    bind(&mut m, Action::SettingsImportData, "I");
    bind(&mut m, Action::SettingsImportPlaylist, "J");
    assert(bview(m@) =~= legacy_settings_spec());
    m
}

/// A single ASCII digit: reserved for the sidebar on the settings page.
pub open spec fn is_bare_digit(key: Seq<char>) -> bool {
    key.len() == 1 && is_digit(key[0])
}

/// `key` is the binding an earlier release gave to `action`.
pub open spec fn is_legacy_default(action: Action, key: Seq<char>) -> bool {
    exists|i: int| 0 <= i < legacy_settings_spec().len() && #[trigger] legacy_settings_spec()[i] == (action, key)
}

/// The settings binding of `action` after migration: a bare digit or a binding
/// of an earlier release is replaced by the current default of the action.
pub open spec fn migrated_key(action: Action, key: Seq<char>) -> Seq<char> {
    let default = lookup(default_settings_spec(), action);
    if (is_bare_digit(key) || is_legacy_default(action, key)) && default is Some && default->0 != key {
        default->0
    } else {
        key
    }
}

/// A settings scope after migration.
pub open spec fn migrated(s: Seq<(Action, Seq<char>)>) -> Seq<(Action, Seq<char>)> {
    s.map_values(|p: (Action, Seq<char>)| (p.0, migrated_key(p.0, p.1)))
}

/// Law: migrating twice is migrating once; after a migration no binding of
/// the settings scope would change again, so a second run reports no change.
pub proof fn lemma_migration_idempotent(s: Seq<(Action, Seq<char>)>)
    ensures
        migrated(migrated(s)) == migrated(s),
        forall|i: int| 0 <= i < migrated(s).len() ==> #[trigger] migrated_key(migrated(s)[i].0, migrated(s)[i].1) == migrated(s)[i].1,
{
    assert forall|i: int| 0 <= i < migrated(s).len() implies #[trigger] migrated_key(migrated(s)[i].0, migrated(s)[i].1) == migrated(s)[i].1 by {
        let a = s[i].0;
        let k = s[i].1;
        assert(migrated(s)[i] == (a, migrated_key(a, k)));
    }
    assert(migrated(migrated(s)) =~= migrated(s));
}

fn is_legacy_exec(legacy: &Vec<(Action, String)>, action: Action, key: &String) -> (r: bool)
    requires
        bview(legacy@) == legacy_settings_spec(),
    ensures
        r == is_legacy_default(action, key@),
{
    let mut i: usize = 0;
    while i < legacy.len()
        invariant
            i <= legacy.len(),
            bview(legacy@) == legacy_settings_spec(),
            forall|j: int| 0 <= j < i ==> #[trigger] legacy_settings_spec()[j] != (action, key@),
        decreases legacy.len() - i,
    {
        assert(legacy_settings_spec()[i as int] == (legacy@[i as int].0, legacy@[i as int].1@));
        if legacy[i].0 == action && str_eq(legacy[i].1.as_str(), key.as_str()) {
            return true;
        }
        i += 1;
    }
    false
}

/// Moves settings-page bindings of earlier releases to the current defaults.
///
/// Bare digits on the settings page are reserved for the sidebar; they and the
/// earlier default bindings are replaced by the current default of their
/// action. Bindings with Ctrl/Alt/Shift stay. Returns whether anything changed.
pub fn migrate_legacy_settings_bindings(config: &mut KeybindingConfig) -> (changed: bool)
    ensures
        bview(final(config).global@) == bview(old(config).global@),
        match lookup_page(pview(old(config).pages@), "settings"@) {
            None => pview(final(config).pages@) == pview(old(config).pages@) && !changed,
            Some(s) => pview(final(config).pages@) == pview(old(config).pages@).update(
                first_page(pview(old(config).pages@), "settings"@),
                ("settings"@, migrated(s)),
            ) && changed == (exists|i: int| 0 <= i < s.len() && migrated_key(s[i].0, s[i].1) != s[i].1),
        },
{
    let pi = match find_page(&config.pages, "settings") {
        Some(i) => i,
        None => {
            return false;
        },
    };
    let ghost s = bview(config.pages@[pi as int].1@);
    proof {
        lemma_first_page(pview(config.pages@), "settings"@);
    }
    let defaults = default_settings_bindings();
    let legacy = legacy_settings_bindings();
    let (name, page) = config.pages.remove(pi);
    let mut new_page: Vec<(Action, String)> = Vec::new();
    let mut changed = false;
    let mut i: usize = 0;
    while i < page.len()
        invariant
            i <= page.len(),
            s == bview(page@),
            bview(defaults@) == default_settings_spec(),
            bview(legacy@) == legacy_settings_spec(),
            bview(new_page@) == migrated(s.take(i as int)),
            changed == (exists|j: int| 0 <= j < i && migrated_key(s[j].0, s[j].1) != s[j].1),
        decreases page.len() - i,
    {
        let action = page[i].0;
        let key = &page[i].1;
        let kc = chars_of(key.as_str());
        let bare = kc.len() == 1 && '0' <= kc[0] && kc[0] <= '9';
        let leg = is_legacy_exec(&legacy, action, key);
        let mut replaced = false;
        if bare || leg {
            match get_binding(&defaults, action) {
                Some(d) => {
                    if !str_eq(key.as_str(), d.as_str()) {
                        new_page.push((action, d.clone()));
                        replaced = true;
                        changed = true;
                    }
                },
                None => {},
            }
        }
        if !replaced {
            new_page.push((action, key.clone()));
        }
        proof {
            assert(s[i as int] == (action, key@));
            if replaced {
                assert(migrated_key(s[i as int].0, s[i as int].1) != s[i as int].1);
            } else {
                assert(migrated_key(s[i as int].0, s[i as int].1) == s[i as int].1);
            }
        }
        assert(migrated(s.take(i + 1)) =~= migrated(s.take(i as int)).push((action, migrated_key(action, key@))));
        assert(bview(new_page@) =~= migrated(s.take(i + 1)));
        i += 1;
    }
    assert(s.take(page.len() as int) == s);
    let ghost before = pview(old(config).pages@);
    config.pages.insert(pi, (name, new_page));
    assert(pview(config.pages@) =~= before.update(pi as int, ("settings"@, migrated(s))));
    changed
}

/// A list-page scope of the Colemak preset: up on `e`, down on `n`.
pub open spec fn colemak_page(s: Seq<(Action, Seq<char>)>) -> Seq<(Action, Seq<char>)> {
    assoc_set(assoc_set(s, Action::ListSelectUp, "e"@), Action::ListSelectDown, "n"@)
}

/// Page scopes of the Colemak preset.
pub open spec fn colemak_pages_spec() -> Seq<(Seq<char>, Seq<(Action, Seq<char>)>)> {
    seq![("search"@, colemak_page(default_search_spec())), ("main"@, colemak_page(default_main_spec())), ("leaderboard"@, colemak_page(default_leaderboard_spec())), ("playlists"@, colemak_page(default_playlists_spec())), ("favorites"@, colemak_page(default_favorites_spec())), ("history"@, colemak_page(default_history_spec())), ("local"@, colemak_page(default_local_spec())), ("settings"@, colemak_page(default_settings_spec())), ("bili_login"@, default_bili_login_spec())]
}

fn colemak_list_page(mut v: Vec<(Action, String)>) -> (r: Vec<(Action, String)>)
    ensures
        bview(r@) == colemak_page(bview(v@)),
{
    set_binding(&mut v, Action::ListSelectUp, to_owned_string("e"));
    set_binding(&mut v, Action::ListSelectDown, to_owned_string("n"));
    v
}

/// A Colemak layout preset: the defaults, with next/previous track on `k`/`h`
/// and list navigation on `e`/`n` on every list page.
pub fn colemak_preset() -> (r: KeybindingConfig)
    ensures
        bview(r.global@) == assoc_set(assoc_set(default_global_spec(), Action::GlobalNextTrack, "k"@), Action::GlobalPrevTrack, "h"@),
        pview(r.pages@) == colemak_pages_spec(),
{
    let mut global = default_global_bindings();
    set_binding(&mut global, Action::GlobalNextTrack, to_owned_string("k"));
    set_binding(&mut global, Action::GlobalPrevTrack, to_owned_string("h"));
    let mut pages: Vec<(String, Vec<(Action, String)>)> = Vec::new();
    pages.push((to_owned_string("search"), colemak_list_page(default_search_bindings())));
    pages.push((to_owned_string("main"), colemak_list_page(default_main_bindings())));
    pages.push((to_owned_string("leaderboard"), colemak_list_page(default_leaderboard_bindings())));
    pages.push((to_owned_string("playlists"), colemak_list_page(default_playlists_bindings())));
    pages.push((to_owned_string("favorites"), colemak_list_page(default_favorites_bindings())));
    pages.push((to_owned_string("history"), colemak_list_page(default_history_bindings())));
    pages.push((to_owned_string("local"), colemak_list_page(default_local_bindings())));
    pages.push((to_owned_string("settings"), colemak_list_page(default_settings_bindings())));
    pages.push((to_owned_string("bili_login"), default_bili_login_bindings()));
    assert(pview(pages@) =~= colemak_pages_spec());
    KeybindingConfig { global, pages }
}

/// `s` with every binding of `ov` applied in order (a later one wins).
pub open spec fn apply_all(s: Seq<(Action, Seq<char>)>, ov: Seq<(Action, Seq<char>)>) -> Seq<(Action, Seq<char>)>
    decreases ov.len(),
{
    if ov.len() == 0 {
        s
    } else {
        assoc_set(apply_all(s, ov.drop_last()), ov.last().0, ov.last().1)
    }
}

/// The last binding of `a` in `ov`, if any.
pub open spec fn lookup_last(ov: Seq<(Action, Seq<char>)>, a: Action) -> Option<Seq<char>>
    decreases ov.len(),
{
    if ov.len() == 0 {
        None
    } else if ov.last().0 == a {
        Some(ov.last().1)
    } else {
        lookup_last(ov.drop_last(), a)
    }
}

/// Overrides replace the bindings they name and keep every other one.
pub proof fn lemma_apply_all(s: Seq<(Action, Seq<char>)>, ov: Seq<(Action, Seq<char>)>, a: Action)
    ensures
        lookup(apply_all(s, ov), a) == (match lookup_last(ov, a) {
            Some(k) => Some(k),
            None => lookup(s, a),
        }),
    decreases ov.len(),
{
    if ov.len() > 0 {
        lemma_apply_all(s, ov.drop_last(), a);
        lemma_lookup_assoc_set(apply_all(s, ov.drop_last()), ov.last().0, ov.last().1, a);
    }
}

/// `p` with the bindings `ov` applied to page `name` (created when missing).
pub open spec fn page_extend(p: Seq<(Seq<char>, Seq<(Action, Seq<char>)>)>, name: Seq<char>, ov: Seq<(Action, Seq<char>)>) -> Seq<(Seq<char>, Seq<(Action, Seq<char>)>)> {
    let i = first_page(p, name);
    if 0 <= i < p.len() {
        p.update(i, (p[i].0, apply_all(p[i].1, ov)))
    } else {
        p.push((name, apply_all(Seq::empty(), ov)))
    }
}

/// `p` with every page of `ov` applied in order.
pub open spec fn apply_pages(p: Seq<(Seq<char>, Seq<(Action, Seq<char>)>)>, ov: Seq<(Seq<char>, Seq<(Action, Seq<char>)>)>) -> Seq<(Seq<char>, Seq<(Action, Seq<char>)>)>
    decreases ov.len(),
{
    if ov.len() == 0 {
        p
    } else {
        page_extend(apply_pages(p, ov.drop_last()), ov.last().0, ov.last().1)
    }
}

/// Applies the bindings of `ov` to `v` in order.
fn extend_bindings(v: &mut Vec<(Action, String)>, ov: &Vec<(Action, String)>)
    ensures
        bview(final(v)@) == apply_all(bview(old(v)@), bview(ov@)),
{
    let mut i: usize = 0;
    while i < ov.len()
        invariant
            i <= ov.len(),
            bview(v@) == apply_all(bview(old(v)@), bview(ov@).take(i as int)),
        decreases ov.len() - i,
    {
        let ghost t = bview(ov@).take(i + 1);
        assert(t.drop_last() == bview(ov@).take(i as int));
        assert(t.last() == (ov@[i as int].0, ov@[i as int].1@));
        set_binding(v, ov[i].0, ov[i].1.clone());
        i += 1;
    }
    assert(bview(ov@).take(ov.len() as int) == bview(ov@));
}

impl KeybindingConfig {
    /// The defaults with the bindings of a partial configuration applied: the
    /// global bindings it names replace the defaults, and each page scope it
    /// names is extended (or created); everything else keeps its default.
    pub fn with_overrides(global: Vec<(Action, String)>, pages: Vec<(String, Vec<(Action, String)>)>) -> (r: Self)
        ensures
            bview(r.global@) == apply_all(default_global_spec(), bview(global@)),
            pview(r.pages@) == apply_pages(default_pages_spec(), pview(pages@)),
    {
        let mut config = KeybindingConfig::default();
        extend_bindings(&mut config.global, &global);
        let mut i: usize = 0;
        while i < pages.len()
            invariant
                i <= pages.len(),
                bview(config.global@) == apply_all(default_global_spec(), bview(global@)),
                pview(config.pages@) == apply_pages(default_pages_spec(), pview(pages@).take(i as int)),
            decreases pages.len() - i,
        {
            let ghost t = pview(pages@).take(i + 1);
            assert(t.drop_last() == pview(pages@).take(i as int));
            assert(t.last() == (pages@[i as int].0@, bview(pages@[i as int].1@)));
            let ghost before = pview(config.pages@);
            match find_page(&config.pages, pages[i].0.as_str()) {
                Some(j) => {
                    let (name, mut bindings) = config.pages.remove(j);
                    extend_bindings(&mut bindings, &pages[i].1);
                    let ghost entry = (name@, bview(bindings@));
                    config.pages.insert(j, (name, bindings));
                    assert(pview(config.pages@) =~= before.update(j as int, entry));
                },
                None => {
                    let mut bindings: Vec<(Action, String)> = Vec::new();
                    assert(bview(bindings@) =~= Seq::<(Action, Seq<char>)>::empty());
                    extend_bindings(&mut bindings, &pages[i].1);
                    config.pages.push((pages[i].0.clone(), bindings));
                    assert(pview(config.pages@) =~= before.push((pages@[i as int].0@, bview(bindings@))));
                },
            }
            i += 1;
        }
        assert(pview(pages@).take(pages.len() as int) == pview(pages@));
        config
    }
}
} // verus!
