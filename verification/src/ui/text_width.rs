//! Cutting text to a number of terminal columns. Terminals lay text out by
//! columns, and CJK characters take two, so text is cut by display width,
//! which the `unicode-width` crate gives.
use vstd::prelude::*;
use crate::text::{chars_of, push_char, string_of_range, to_owned_string};
use unicode_width::{UnicodeWidthChar, UnicodeWidthStr};

verus! {

/// The display width of `c` that `UnicodeWidthChar::width` returns (UAX #11,
/// ambiguous characters narrow); `None` for a control character.
pub uninterp spec fn char_width(c: char) -> Option<usize>;

/// The display width of `s` that `UnicodeWidthStr::width` returns.
pub uninterp spec fn display_width(s: Seq<char>) -> nat;

/// `UnicodeWidthChar::width`: the width of `c` in columns; by the crate's
/// source, `None` below U+0020 and from U+007F to U+009F, 1 from U+0020 to
/// U+007E, and from U+00A0 on a width from its tables (a `u8`).
#[verifier::external_body]
fn char_columns(c: char) -> (r: Option<usize>)
    ensures
        r == char_width(c),
        (c as u32) < 0x20 ==> r is None,
        0x20 <= (c as u32) < 0x7F ==> r == Some(1usize),
        0x7F <= (c as u32) < 0xA0 ==> r is None,
        0xA0 <= (c as u32) ==> r is Some,
        r is Some ==> r->0 <= 255,
{
    UnicodeWidthChar::width(c)
}

/// `UnicodeWidthStr::width`: the width of `s` in columns (characters that
/// combine or join are taken together, so it is not a plain sum of
/// [`char_width`]; the crate's tables decide it).
#[verifier::external_body]
pub(crate) fn str_columns(s: &str) -> (r: usize)
    ensures
        r == display_width(s@),
{
    UnicodeWidthStr::width(s)
}

/// The columns that `c` counts for when text is cut: its width, 0 for a
/// control character.
pub open spec fn cols(c: char) -> int {
    match char_width(c) {
        Some(w) => w as int,
        None => 0,
    }
}

/// Number of characters of `s` kept from position `k` on, `used` columns
/// being taken: a character is kept while it still fits in `budget`.
pub open spec fn fit_cols(s: Seq<char>, budget: int, k: int, used: int) -> int
    decreases s.len() - k,
{
    if k >= s.len() || used + cols(s[k]) > budget {
        k
    } else {
        fit_cols(s, budget, k + 1, used + cols(s[k]))
    }
}

/// `s` cut to `max_cols` columns: unchanged when its display width fits;
/// else as many leading characters as fit in `max_cols - 1` columns and an
/// ellipsis (a wide character that would overflow is left out); for a
/// budget of one column or less, the ellipsis cut to that many characters.
pub open spec fn truncated(s: Seq<char>, max_cols: int) -> Seq<char> {
    if display_width(s) <= max_cols {
        s
    } else if max_cols <= 1 {
        "…"@.take(max_cols)
    } else {
        s.take(fit_cols(s, max_cols - 1, 0, 0)).push('…')
    }
}

/// `s` cut to `max_cols` columns (see [`truncated`]).
pub fn truncate_width(s: &str, max_cols: usize) -> (r: String)
    ensures
        r@ == truncated(s@, max_cols as int),
{
    if str_columns(s) <= max_cols {
        return to_owned_string(s);
    }
    if max_cols <= 1 {
        proof {
            reveal_strlit("…");
        }
        let mut r = String::new();
        if max_cols == 1 {
            push_char(&mut r, '…');
            assert(r@ =~= "…"@.take(1));
        } else {
            assert(r@ =~= "…"@.take(0));
        }
        return r;
    }
    let v = chars_of(s);
    let budget = max_cols - 1;
    let mut used: usize = 0;
    let mut k: usize = 0;
    while k < v.len()
        invariant
            k <= v.len(),
            used <= budget,
            budget == max_cols - 1,
            fit_cols(v@, budget as int, 0, 0) == fit_cols(v@, budget as int, k as int, used as int),
        ensures
            k <= v.len(),
            fit_cols(v@, budget as int, 0, 0) == k,
        decreases v.len() - k,
    {
        let w = match char_columns(v[k]) {
            Some(w) => w,
            None => 0,
        };
        assert(w == cols(v@[k as int]));
        if w > budget - used {
            break;
        }
        used = used + w;
        k += 1;
    }
    let mut r = string_of_range(&v, 0, k);
    push_char(&mut r, '…');
    assert(v@.subrange(0, k as int) == v@.take(k as int));
    r
}

} // verus!
