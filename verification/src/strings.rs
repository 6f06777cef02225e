//! String operations over character sequences: UTF-8 sizes, truncation on
//! character boundaries, search and replacement, decimal formatting.
use vstd::prelude::*;
use crate::text::{ascii_lower, push_all, push_char, to_ascii_lowercase};

verus! {

/// Number of bytes of `c` in UTF-8.
pub open spec fn utf8_len(c: char) -> nat {
    let u = c as u32;
    if u < 0x80 {
        1
    } else if u < 0x800 {
        2
    } else if u < 0x10000 {
        3
    } else {
        4
    }
}

/// Number of bytes of `s` in UTF-8 (`str::len`).
pub open spec fn utf8_len_seq(s: Seq<char>) -> nat
    decreases s.len(),
{
    if s.len() == 0 {
        0
    } else {
        utf8_len_seq(s.drop_last()) + utf8_len(s.last())
    }
}

/// The UTF-8 size of `c` (`char::len_utf8`).
pub fn char_len_utf8(c: char) -> (r: usize)
    ensures
        r == utf8_len(c),
        1 <= r <= 4,
{
    let u = c as u32;
    if u < 0x80 {
        1
    } else if u < 0x800 {
        2
    } else if u < 0x10000 {
        3
    } else {
        4
    }
}

/// The UTF-8 size of a prefix grows with its length.
pub proof fn lemma_utf8_len_prefix(s: Seq<char>, i: int, j: int)
    requires
        0 <= i <= j <= s.len(),
    ensures
        utf8_len_seq(s.take(i)) <= utf8_len_seq(s.take(j)),
        utf8_len_seq(s.take(j)) >= j - i + utf8_len_seq(s.take(i)),
    decreases j - i,
{
    if i < j {
        lemma_utf8_len_prefix(s, i, j - 1);
        assert(s.take(j).drop_last() == s.take(j - 1));
    }
}

/// The UTF-8 size of a concatenation is the sum of the sizes.
pub proof fn lemma_utf8_len_concat(a: Seq<char>, b: Seq<char>)
    ensures
        utf8_len_seq(a + b) == utf8_len_seq(a) + utf8_len_seq(b),
    decreases b.len(),
{
    if b.len() == 0 {
        assert(a + b == a);
    } else {
        lemma_utf8_len_concat(a, b.drop_last());
        assert((a + b).drop_last() == a + b.drop_last());
    }
}

/// The UTF-8 size of `s`.
pub fn utf8_size(s: &Vec<char>) -> (r: usize)
    requires
        utf8_len_seq(s@) <= usize::MAX,
    ensures
        r == utf8_len_seq(s@),
{
    let mut n: usize = 0;
    let mut i: usize = 0;
    while i < s.len()
        invariant
            i <= s.len(),
            n == utf8_len_seq(s@.take(i as int)),
            utf8_len_seq(s@) <= usize::MAX,
        decreases s.len() - i,
    {
        proof {
            assert(s@.take(i + 1).drop_last() == s@.take(i as int));
            lemma_utf8_len_prefix(s@, i + 1, s.len() as int);
            assert(s@.take(s.len() as int) == s@);
        }
        n = n + char_len_utf8(s[i]);
        i += 1;
    }
    assert(s@.take(s.len() as int) == s@);
    n
}

/// Number of leading characters of `s` kept when it is cut to at most `max`
/// bytes on a character boundary, counting from position `k`: the prefix grows
/// while the next character still fits.
pub open spec fn fit_from(s: Seq<char>, max: int, k: int) -> int
    decreases s.len() - k,
{
    if k >= s.len() || utf8_len_seq(s.take(k + 1)) > max {
        k
    } else {
        fit_from(s, max, k + 1)
    }
}

/// Number of characters of the longest prefix of `s` whose UTF-8 encoding
/// takes at most `max` bytes.
pub open spec fn fit_count(s: Seq<char>, max: int) -> int {
    fit_from(s, max, 0)
}

/// What `fit_from` counts is a prefix that fits and cannot grow.
pub proof fn lemma_fit_from(s: Seq<char>, max: int, k: int)
    requires
        0 <= k <= s.len(),
        utf8_len_seq(s.take(k)) <= max,
    ensures
        k <= fit_from(s, max, k) <= s.len(),
        utf8_len_seq(s.take(fit_from(s, max, k))) <= max,
        fit_from(s, max, k) < s.len() ==> utf8_len_seq(s.take(fit_from(s, max, k) + 1)) > max,
    decreases s.len() - k,
{
    if k < s.len() && utf8_len_seq(s.take(k + 1)) <= max {
        lemma_fit_from(s, max, k + 1);
    }
}

/// The longest prefix of `s` that fits in `max` bytes (`max >= 0`) takes at
/// most `max` bytes, and no longer prefix does.
pub proof fn lemma_fit_count(s: Seq<char>, max: int)
    requires
        max >= 0,
    ensures
        0 <= fit_count(s, max) <= s.len(),
        utf8_len_seq(s.take(fit_count(s, max))) <= max,
        forall|j: int| fit_count(s, max) < j <= s.len() ==> utf8_len_seq(#[trigger] s.take(j)) > max,
        utf8_len_seq(s) <= max ==> fit_count(s, max) == s.len(),
{
    assert(s.take(0) =~= Seq::<char>::empty());
    lemma_fit_from(s, max, 0);
    let f = fit_count(s, max);
    assert forall|j: int| f < j <= s.len() implies utf8_len_seq(#[trigger] s.take(j)) > max by {
        lemma_utf8_len_prefix(s, f + 1, j);
    }
    if utf8_len_seq(s) <= max && f < s.len() {
        assert(s.take(s.len() as int) == s);
        lemma_utf8_len_prefix(s, f + 1, s.len() as int);
    }
}

/// Number of characters of `s` kept when it is cut to at most `max` bytes on a
/// character boundary (the longest prefix that fits).
pub fn fit_prefix(s: &Vec<char>, max: usize) -> (r: usize)
    ensures
        r == fit_count(s@, max as int),
        r <= s.len(),
{
    proof {
        assert(s@.take(0) =~= Seq::<char>::empty());
    }
    let mut n: usize = 0;
    let mut k: usize = 0;
    while k < s.len()
        invariant
            k <= s.len(),
            n == utf8_len_seq(s@.take(k as int)),
            n <= max,
            fit_from(s@, max as int, 0) == fit_from(s@, max as int, k as int),
        decreases s.len() - k,
    {
        assert(s@.take(k + 1).drop_last() == s@.take(k as int));
        let c = char_len_utf8(s[k]);
        if c > max - n {
            return k;
        }
        n = n + c;
        k += 1;
    }
    proof {
        lemma_fit_from(s@, max as int, k as int);
    }
    k
}

/// `s` with every non-overlapping occurrence of `pat`, scanned from the left,
/// replaced by `rep` (`str::replace`; `pat` is not empty).
pub open spec fn replace_all(s: Seq<char>, pat: Seq<char>, rep: Seq<char>) -> Seq<char>
    decreases s.len(),
{
    if pat.len() == 0 || s.len() < pat.len() {
        s
    } else if s.take(pat.len() as int) == pat {
        rep + replace_all(s.skip(pat.len() as int), pat, rep)
    } else {
        seq![s[0]] + replace_all(s.skip(1), pat, rep)
    }
}

/// Whether `pat` occurs in `v` at position `at`.
pub fn occurs_at(v: &Vec<char>, at: usize, pat: &Vec<char>) -> (r: bool)
    requires
        at <= v.len(),
    ensures
        r == (v.len() - at >= pat.len() && v@.skip(at as int).take(pat.len() as int) == pat@),
{
    if v.len() - at < pat.len() {
        return false;
    }
    let mut i: usize = 0;
    while i < pat.len()
        invariant
            i <= pat.len() <= v.len() - at,
            forall|j: int| 0 <= j < i ==> v@[at + j] == pat@[j],
        decreases pat.len() - i,
    {
        if v[at + i] != pat[i] {
            assert(v@.skip(at as int).take(pat.len() as int)[i as int] == v@[at + i]);
            return false;
        }
        i += 1;
    }
    assert(v@.skip(at as int).take(pat.len() as int) =~= pat@);
    true
}

/// `v` with every occurrence of `pat` replaced by `rep` (see [`replace_all`]).
pub fn replace_chars(v: &Vec<char>, pat: &Vec<char>, rep: &Vec<char>) -> (r: Vec<char>)
    requires
        pat.len() > 0,
    ensures
        r@ == replace_all(v@, pat@, rep@),
{
    let mut out: Vec<char> = Vec::new();
    let mut i: usize = 0;
    assert(v@.skip(0) == v@);
    assert(out@ + replace_all(v@, pat@, rep@) == replace_all(v@, pat@, rep@));
    while i < v.len()
        invariant
            i <= v.len(),
            pat.len() > 0,
            out@ + replace_all(v@.skip(i as int), pat@, rep@) == replace_all(v@, pat@, rep@),
        decreases v.len() - i,
    {
        let ghost rest = v@.skip(i as int);
        if occurs_at(v, i, pat) {
            let ghost before = out@;
            let mut j: usize = 0;
            while j < rep.len()
                invariant
                    j <= rep.len(),
                    out@ == before + rep@.take(j as int),
                decreases rep.len() - j,
            {
                out.push(rep[j]);
                assert(rep@.take(j + 1) == rep@.take(j as int).push(rep@[j as int]));
                j += 1;
            }
            assert(rep@.take(rep.len() as int) == rep@);
            assert(rest.skip(pat.len() as int) == v@.skip(i + pat.len()));
            assert(before + (rep@ + replace_all(rest.skip(pat.len() as int), pat@, rep@)) == out@
                + replace_all(v@.skip(i + pat.len()), pat@, rep@));
            i = i + pat.len();
        } else {
            let ghost before = out@;
            proof {
                if rest.len() >= pat@.len() {
                    assert(replace_all(rest, pat@, rep@) == seq![rest[0]] + replace_all(rest.skip(1), pat@, rep@));
                } else {
                    assert(replace_all(rest, pat@, rep@) == rest);
                    assert(replace_all(rest.skip(1), pat@, rep@) == rest.skip(1));
                    assert(rest == seq![rest[0]] + rest.skip(1));
                }
            }
            out.push(v[i]);
            assert(rest.skip(1) == v@.skip(i + 1));
            assert(before + (seq![v@[i as int]] + replace_all(rest.skip(1), pat@, rep@)) == out@
                + replace_all(v@.skip(i + 1), pat@, rep@));
            i += 1;
        }
    }
    assert(v@.skip(v.len() as int) =~= Seq::<char>::empty());
    assert(out@ + Seq::<char>::empty() == out@);
    out
}

/// The decimal digits of `n`, most significant first, without leading zeros.
pub open spec fn decimal(n: nat) -> Seq<char>
    decreases n,
{
    if n < 10 {
        seq![(('0' as u32) + n) as char]
    } else {
        decimal(n / 10).push((('0' as u32) + n % 10) as char)
    }
}

/// The digit character of `d`, which is below 10.
fn digit_char(d: u64) -> (c: char)
    requires
        d < 10,
    ensures
        c == (('0' as u32) + d) as char,
{
    let b: u8 = 48u8 + (d as u8);
    b as char
}

/// Appends the decimal digits of `n` to `s`.
pub fn push_decimal(s: &mut String, n: u64)
    ensures
        final(s)@ == old(s)@ + decimal(n as nat),
    decreases n,
{
    if n < 10 {
        let d = digit_char(n);
        push_char(s, d);
        assert(seq![d] == decimal(n as nat));
    } else {
        push_decimal(s, n / 10);
        push_char(s, digit_char(n % 10));
        assert(decimal(n as nat) == decimal((n / 10) as nat).push((('0' as u32) + n % 10) as char));
    }
}

/// The decimal form of `n`.
pub fn decimal_string(n: u64) -> (r: String)
    ensures
        r@ == decimal(n as nat),
{
    let mut s = String::new();
    push_decimal(&mut s, n);
    s
}

/// The position of the last `c` in `s`, if any.
pub open spec fn last_index(s: Seq<char>, c: char) -> Option<int>
    decreases s.len(),
{
    if s.len() == 0 {
        None
    } else if s.last() == c {
        Some(s.len() - 1)
    } else {
        last_index(s.drop_last(), c)
    }
}

/// The position of the last `c` in `v`, if any.
pub fn find_last(v: &Vec<char>, c: char) -> (r: Option<usize>)
    ensures
        r matches Some(i) ==> last_index(v@, c) == Some(i as int) && i < v.len() && v@[i as int] == c,
        r is None ==> last_index(v@, c) is None,
{
    let mut k: usize = v.len();
    assert(v@.take(v.len() as int) == v@);
    while k > 0
        invariant
            k <= v.len(),
            last_index(v@, c) == last_index(v@.take(k as int), c),
        decreases k,
    {
        assert(v@.take(k as int).last() == v@[k - 1]);
        if v[k - 1] == c {
            return Some(k - 1);
        }
        assert(v@.take(k as int).drop_last() == v@.take(k - 1));
        k -= 1;
    }
    assert(v@.take(v.len() as int) == v@);
    None
}

/// `s` with every ASCII upper-case letter made lower case.
pub open spec fn lower_ascii(s: Seq<char>) -> Seq<char> {
    s.map_values(|c: char| ascii_lower(c))
}

/// `v` with every ASCII upper-case letter made lower case.
pub fn lower_ascii_chars(v: &Vec<char>) -> (r: Vec<char>)
    ensures
        r@ == lower_ascii(v@),
{
    let mut r: Vec<char> = Vec::new();
    let mut i: usize = 0;
    while i < v.len()
        invariant
            i <= v.len(),
            r@ == lower_ascii(v@.take(i as int)),
        decreases v.len() - i,
    {
        r.push(to_ascii_lowercase(v[i]));
        assert(lower_ascii(v@.take(i + 1)) == lower_ascii(v@.take(i as int)).push(ascii_lower(v@[i as int])));
        i += 1;
    }
    assert(v@.take(v.len() as int) == v@);
    r
}

/// Appends `t`'s characters and returns the string (`a + b`).
pub fn concat_chars(a: &Vec<char>, b: &Vec<char>) -> (r: Vec<char>)
    ensures
        r@ == a@ + b@,
{
    let mut r: Vec<char> = Vec::new();
    let mut i: usize = 0;
    while i < a.len()
        invariant
            i <= a.len(),
            r@ == a@.take(i as int),
        decreases a.len() - i,
    {
        r.push(a[i]);
        assert(a@.take(i + 1) == a@.take(i as int).push(a@[i as int]));
        i += 1;
    }
    assert(a@.take(a.len() as int) == a@);
    let mut j: usize = 0;
    while j < b.len()
        invariant
            j <= b.len(),
            r@ == a@ + b@.take(j as int),
        decreases b.len() - j,
    {
        r.push(b[j]);
        assert(b@.take(j + 1) == b@.take(j as int).push(b@[j as int]));
        j += 1;
    }
    assert(b@.take(b.len() as int) == b@);
    r
}

} // verus!
