//! Run-time lookup from key events to actions.
use vstd::prelude::*;
use super::config::{Action, KeybindingConfig, bview, pview, first_page, find_page};
use super::keys::{KeyBinding, KeyEvent, binding_of, normalized, parse_keybinding};
use crate::text::{chars_of, chars_eq};

verus! {

/// The parsed bindings of a scope, in order; descriptions that do not parse are dropped.
pub open spec fn resolved_list(s: Seq<(Action, Seq<char>)>) -> Seq<(KeyBinding, Action)>
    decreases s.len(),
{
    if s.len() == 0 {
        Seq::empty()
    } else {
        let rest = resolved_list(s.drop_last());
        match binding_of(s.last().1) {
            Some(b) => rest.push((b, s.last().0)),
            None => rest,
        }
    }
}

/// The action bound to `b` in a parsed scope; a later binding of the same key wins.
pub open spec fn resolve_in(s: Seq<(KeyBinding, Action)>, b: KeyBinding) -> Option<Action>
    decreases s.len(),
{
    if s.len() == 0 {
        None
    } else if s.last().0 == b {
        Some(s.last().1)
    } else {
        resolve_in(s.drop_last(), b)
    }
}

/// Key bindings parsed once, for fast lookup of key events.
pub struct KeybindingResolver {
    global: Vec<(KeyBinding, Action)>,
    pages: Vec<(String, Vec<(KeyBinding, Action)>)>,
}

/// The names and parsed bindings of page scopes.
pub open spec fn resolved_pages(p: Seq<(String, Vec<(KeyBinding, Action)>)>) -> Seq<(Seq<char>, Seq<(KeyBinding, Action)>)> {
    p.map_values(|e: (String, Vec<(KeyBinding, Action)>)| (e.0@, e.1@))
}

/// Parses the bindings of one scope.
fn resolve_scope(v: &Vec<(Action, String)>) -> (r: Vec<(KeyBinding, Action)>)
    ensures
        r@ == resolved_list(bview(v@)),
{
    let mut r: Vec<(KeyBinding, Action)> = Vec::new();
    let mut i: usize = 0;
    while i < v.len()
        invariant
            i <= v.len(),
            r@ == resolved_list(bview(v@).take(i as int)),
        decreases v.len() - i,
    {
        let ghost before = bview(v@).take(i as int);
        let ghost after = bview(v@).take(i + 1);
        assert(after.drop_last() == before);
        assert(after.last() == (v@[i as int].0, v@[i as int].1@));
        match parse_keybinding(v[i].1.as_str()) {
            Some(b) => {
                r.push((b, v[i].0));
            },
            None => {},
        }
        i += 1;
    }
    assert(bview(v@).take(v.len() as int) == bview(v@));
    r
}

/// The action bound to `b` in a parsed scope.
fn lookup_resolved(s: &Vec<(KeyBinding, Action)>, b: KeyBinding) -> (r: Option<Action>)
    ensures
        r == resolve_in(s@, b),
{
    let mut i: usize = s.len();
    assert(s@.take(s.len() as int) == s@);
    while i > 0
        invariant
            i <= s.len(),
            resolve_in(s@, b) == resolve_in(s@.take(i as int), b),
        decreases i,
    {
        let ghost t = s@.take(i as int);
        assert(t.drop_last() == s@.take(i - 1));
        if s[i - 1].0 == b {
            return Some(s[i - 1].1);
        }
        i -= 1;
    }
    None
}

impl KeybindingResolver {
    /// The parsed global scope.
    pub closed spec fn global_scope(&self) -> Seq<(KeyBinding, Action)> {
        self.global@
    }

    /// The parsed page scopes.
    pub closed spec fn page_scopes(&self) -> Seq<(Seq<char>, Seq<(KeyBinding, Action)>)> {
        resolved_pages(self.pages@)
    }

    /// Parses every binding of `config`.
    pub fn from_config(config: &KeybindingConfig) -> (r: Self)
        ensures
            r.global_scope() == resolved_list(bview(config.global@)),
            r.page_scopes().len() == config.pages@.len(),
            forall|i: int| 0 <= i < config.pages@.len() ==> #[trigger] r.page_scopes()[i] == (
                pview(config.pages@)[i].0,
                resolved_list(pview(config.pages@)[i].1),
            ),
    {
        let global = resolve_scope(&config.global);
        let mut pages: Vec<(String, Vec<(KeyBinding, Action)>)> = Vec::new();
        let mut i: usize = 0;
        while i < config.pages.len()
            invariant
                i <= config.pages.len(),
                resolved_pages(pages@).len() == i,
                forall|j: int| 0 <= j < i ==> #[trigger] resolved_pages(pages@)[j] == (
                    pview(config.pages@)[j].0,
                    resolved_list(pview(config.pages@)[j].1),
                ),
            decreases config.pages.len() - i,
        {
            let scope = resolve_scope(&config.pages[i].1);
            let ghost prev = pages@;
            pages.push((config.pages[i].0.clone(), scope));
            assert forall|j: int| 0 <= j < i + 1 implies #[trigger] resolved_pages(pages@)[j] == (
                pview(config.pages@)[j].0,
                resolved_list(pview(config.pages@)[j].1),
            ) by {
                if j < i {
                    assert(pages@[j] == prev[j]);
                    assert(resolved_pages(prev)[j] == resolved_pages(pages@)[j]);
                }
            }
            i += 1;
        }
        KeybindingResolver { global, pages }
    }

    /// The global action of a key event.
    pub fn resolve_global(&self, event: &KeyEvent) -> (r: Option<Action>)
        ensures
            r == resolve_in(self.global_scope(), normalized(event.modifiers, event.code)),
    {
        let binding = KeyBinding::from_event(*event);
        lookup_resolved(&self.global, binding)
    }

    /// The action of a key event on page `page` (`None` when the page has no scope).
    pub fn resolve_page(&self, page: &str, event: &KeyEvent) -> (r: Option<Action>)
        ensures
            r == page_action(self.page_scopes(), page@, normalized(event.modifiers, event.code)),
    {
        let binding = KeyBinding::from_event(*event);
        let ghost ps = self.page_scopes();
        let target = chars_of(page);
        let mut i: usize = 0;
        while i < self.pages.len()
            invariant
                i <= self.pages.len(),
                ps == resolved_pages(self.pages@),
                ps == self.page_scopes(),
                binding == normalized(event.modifiers, event.code),
                target@ == page@,
                forall|j: int| 0 <= j < i ==> #[trigger] ps[j].0 != page@,
            decreases self.pages.len() - i,
        {
            let here = chars_of(self.pages[i].0.as_str());
            if chars_eq(&here, &target) {
                proof {
                    lemma_first_scope_is(ps, page@, i as int);
                    assert(ps[i as int].1 == self.pages@[i as int].1@);
                }
                return lookup_resolved(&self.pages[i].1, binding);
            }
            i += 1;
        }
        proof {
            lemma_first_scope_is(ps, page@, -1);
        }
        None
    }

    /// The action of a key event: the page binding first, then the global one.
    pub fn resolve(&self, page: &str, event: &KeyEvent) -> (r: Option<Action>)
        ensures
            r == (match page_action(self.page_scopes(), page@, normalized(event.modifiers, event.code)) {
                Some(a) => Some(a),
                None => resolve_in(self.global_scope(), normalized(event.modifiers, event.code)),
            }),
    {
        match self.resolve_page(page, event) {
            Some(a) => Some(a),
            None => self.resolve_global(event),
        }
    }
}

/// Position of the first scope named `name`, or -1.
pub open spec fn first_scope(p: Seq<(Seq<char>, Seq<(KeyBinding, Action)>)>, name: Seq<char>) -> int
    decreases p.len(),
{
    if p.len() == 0 {
        -1
    } else if p[0].0 == name {
        0
    } else {
        let r = first_scope(p.drop_first(), name);
        if r < 0 {
            -1
        } else {
            r + 1
        }
    }
}

/// The action bound to `b` on the first scope named `name`.
pub open spec fn page_action(p: Seq<(Seq<char>, Seq<(KeyBinding, Action)>)>, name: Seq<char>, b: KeyBinding) -> Option<Action> {
    let i = first_scope(p, name);
    if 0 <= i < p.len() {
        resolve_in(p[i].1, b)
    } else {
        None
    }
}

/// A position `i` holding `name` with no earlier one is `first_scope`.
pub proof fn lemma_first_scope_is(p: Seq<(Seq<char>, Seq<(KeyBinding, Action)>)>, name: Seq<char>, i: int)
    requires
        -1 <= i < p.len(),
        i >= 0 ==> p[i].0 == name,
        forall|j: int| 0 <= j < p.len() && (i < 0 || j < i) ==> #[trigger] p[j].0 != name,
    ensures
        first_scope(p, name) == i,
    decreases p.len(),
{
    if p.len() > 0 && i != 0 {
        let t = p.drop_first();
        assert(p[0].0 != name);
        assert forall|j: int| 0 <= j < t.len() && (i - 1 < 0 || j < i - 1) implies #[trigger] t[j].0 != name by {
            assert(t[j] == p[j + 1]);
        }
        if i > 0 {
            assert(t[i - 1] == p[i]);
            lemma_first_scope_is(t, name, i - 1);
        } else {
            lemma_first_scope_is(t, name, -1);
        }
    }
}

} // verus!
