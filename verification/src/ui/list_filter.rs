//! The filter line shared by list pages: typing narrows the list.
use vstd::prelude::*;
use crate::keybinding::keys::{KeyCode, KeyEvent, no_mods};
use crate::text::{chars_of, string_of_range, to_owned_string};

verus! {

/// State of a list filter: the query and whether it is being typed.
#[derive(Debug)]
pub struct ListFilter {
    query: String,
    active: bool,
}

/// The content of a [`ListFilter`].
pub struct ListFilterView {
    pub query: Seq<char>,
    pub active: bool,
}

impl View for ListFilter {
    type V = ListFilterView;

    closed spec fn view(&self) -> ListFilterView {
        ListFilterView { query: self.query@, active: self.active }
    }
}

/// The filter after `key` while it is active: Esc or Enter (without
/// modifiers) leave input mode and keep the query; Backspace removes the last
/// character and a character is appended (unless Control or Alt is held); any
/// other key changes nothing.
pub open spec fn filter_after_key(f: ListFilterView, key: KeyEvent) -> ListFilterView {
    let plain = !key.modifiers.control && !key.modifiers.alt;
    match key.code {
        KeyCode::Esc if key.modifiers == no_mods() => ListFilterView { active: false, ..f },
        KeyCode::Enter if key.modifiers == no_mods() => ListFilterView { active: false, ..f },
        KeyCode::Backspace if plain => ListFilterView {
            query: if f.query.len() > 0 {
                f.query.drop_last()
            } else {
                f.query
            },
            ..f
        },
        KeyCode::Char(c) if plain => ListFilterView { query: f.query.push(c), ..f },
        _ => f,
    }
}

impl ListFilter {
    /// An inactive filter with an empty query.
    pub fn new() -> (r: ListFilter)
        ensures
            r@.query == Seq::<char>::empty(),
            !r@.active,
    {
        ListFilter { query: String::new(), active: false }
    }

    /// Whether the query is being typed.
    pub fn is_active(&self) -> (r: bool)
        ensures
            r == self@.active,
    {
        self.active
    }

    /// The current query.
    pub fn query(&self) -> (r: &str)
        ensures
            r@ == self@.query,
    {
        self.query.as_str()
    }

    /// Replaces the query.
    pub fn set_query(&mut self, query: &str)
        ensures
            final(self)@.query == query@,
            final(self)@.active == old(self)@.active,
    {
        self.query = to_owned_string(query);
    }

    /// Starts typing the query.
    pub fn activate(&mut self)
        ensures
            final(self)@.active,
            final(self)@.query == old(self)@.query,
    {
        self.active = true;
    }

    /// Stops typing; the query stays as the filter.
    pub fn deactivate(&mut self)
        ensures
            !final(self)@.active,
            final(self)@.query == old(self)@.query,
    {
        self.active = false;
    }

    /// Clears the query and stops typing.
    pub fn reset(&mut self)
        ensures
            !final(self)@.active,
            final(self)@.query == Seq::<char>::empty(),
    {
        self.query = String::new();
        self.active = false;
    }

    /// Handles a key. While typing, the filter takes every key (so that no
    /// global shortcut fires) and changes as [`filter_after_key`] says;
    /// otherwise it takes none and stays as it is.
    pub fn handle_input(&mut self, key: &KeyEvent) -> (r: bool)
        ensures
            r == old(self)@.active,
            r ==> final(self)@ == filter_after_key(old(self)@, *key),
            !r ==> final(self)@ == old(self)@,
    {
        if !self.active {
            return false;
        }
        let plain = !key.modifiers.control && !key.modifiers.alt;
        match key.code {
            KeyCode::Esc => {
                if key.modifiers.is_empty() {
                    self.active = false;
                }
            },
            KeyCode::Enter => {
                if key.modifiers.is_empty() {
                    self.active = false;
                }
            },
            KeyCode::Backspace => {
                if plain {
                    let v = chars_of(self.query.as_str());
                    if v.len() > 0 {
                        self.query = string_of_range(&v, 0, v.len() - 1);
                    }
                }
            },
            KeyCode::Char(c) => {
                if plain {
                    crate::text::push_char(&mut self.query, c);
                }
            },
            _ => {},
        }
        true
    }
}

impl Default for ListFilter {
    fn default() -> (r: ListFilter)
        ensures
            r@.query == Seq::<char>::empty(),
            !r@.active,
    {
        ListFilter::new()
    }
}

} // verus!
