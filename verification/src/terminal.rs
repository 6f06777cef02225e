//! What the player says to the terminal: tmux hooks, kitty graphics escape
//! sequences, the `kitten icat` command line, and cover URLs.
use vstd::prelude::*;
use crate::strings::{decimal, decimal_string, push_decimal};
use crate::sync::normalize::{split_by, split_chars, vv};
use crate::text::{all_digits, chars_of, has_prefix, push_all, push_str, starts_with_at, str_eq, string_of, to_owned_string, trim_chars, trim_ws};

verus! {

/// The third comma-separated field of `$TMUX`, if there is one.
pub open spec fn third_field(s: Seq<char>) -> Option<Seq<char>> {
    let parts = split_by(s, seq![',']);
    if parts.len() > 2 {
        Some(parts[2])
    } else {
        None
    }
}

/// The `set-hook` target of the session named by `$TMUX`: `$` and the
/// session number, its third field, when that is a non-empty run of ASCII
/// digits.
pub open spec fn session_target(tmux_env: Seq<char>) -> Option<Seq<char>> {
    match third_field(tmux_env) {
        Some(id) => if id.len() > 0 && all_digits(id) {
            Some(seq!['$'] + id)
        } else {
            None
        },
        None => None,
    }
}

/// The `set-hook` target of the session named by `$TMUX` (see
/// [`session_target`]).
pub fn session_target_from(tmux_env: &str) -> (r: Option<String>)
    ensures
        match session_target(tmux_env@) {
            Some(t) => (r matches Some(s) && s@ == t),
            None => r is None,
        },
{
    let v = chars_of(tmux_env);
    let comma = vec![','];
    let parts = split_chars(&v, &comma);
    assert(comma@ == seq![',']);
    if parts.len() <= 2 {
        return None;
    }
    let id = &parts[2];
    assert(vv(parts@)[2] == id@);
    assert(third_field(tmux_env@) == Some(id@));
    if id.len() == 0 {
        return None;
    }
    let mut i: usize = 0;
    while i < id.len()
        invariant
            i <= id.len(),
            third_field(tmux_env@) == Some(id@),
            forall|j: int| 0 <= j < i ==> crate::text::is_digit(#[trigger] id@[j]),
        decreases id.len() - i,
    {
        if !('0' <= id[i] && id[i] <= '9') {
            assert(!crate::text::is_digit(id@[i as int]));
            return None;
        }
        i += 1;
    }
    let mut s = String::new();
    crate::text::push_char(&mut s, '$');
    push_all(&mut s, id);
    assert(s@ =~= seq!['$'] + id@);
    Some(s)
}

/// The tmux hook slot used by process `pid`: `client-attached[<pid>]`.
pub fn hook_name(pid: u32) -> (r: String)
    ensures
        r@ == "client-attached["@ + decimal(pid as nat) + "]"@,
{
    let mut s = to_owned_string("client-attached[");
    push_decimal(&mut s, pid as u64);
    push_str(&mut s, "]");
    s
}

/// The tmux wait channel of process `pid`: `voicefox-attached-<pid>`.
pub fn channel_name(pid: u32) -> (r: String)
    ensures
        r@ == "voicefox-attached-"@ + decimal(pid as nat),
{
    let mut s = to_owned_string("voicefox-attached-");
    push_decimal(&mut s, pid as u64);
    s
}

/// The hook command that signals `channel` when a client attaches.
pub fn attach_hook_command(channel: &str) -> (r: String)
    ensures
        r@ == "run-shell -b \"tmux wait-for -S "@ + channel@ + "\""@,
{
    let mut s = to_owned_string("run-shell -b \"tmux wait-for -S ");
    push_str(&mut s, channel);
    push_str(&mut s, "\"");
    s
}

/// Graphics pass through tmux: `$TERM` starts with `tmux` or `$TERM_PROGRAM`
/// is `tmux`.
pub fn is_passthrough_env(term: Option<&str>, term_program: Option<&str>) -> (r: bool)
    ensures
        r == ((term matches Some(t) && has_prefix(t@, "tmux"@)) || (term_program matches Some(p) && p@ == "tmux"@)),
{
    let by_term = match term {
        Some(t) => {
            let v = chars_of(t);
            let p = chars_of("tmux");
            assert(v@.skip(0) == v@);
            starts_with_at(&v, 0, &p)
        },
        None => false,
    };
    let by_program = match term_program {
        Some(p) => str_eq(p, "tmux"),
        None => false,
    };
    by_term || by_program
}

/// `s` with each escape byte doubled, as tmux passthrough wants it.
pub open spec fn escape_doubled(s: Seq<u8>) -> Seq<u8>
    decreases s.len(),
{
    if s.len() == 0 {
        s
    } else if s.last() == 0x1b {
        escape_doubled(s.drop_last()) + seq![0x1bu8, 0x1bu8]
    } else {
        escape_doubled(s.drop_last()).push(s.last())
    }
}

/// The kitty graphics command `command` as an APC sequence
/// (`ESC _ G <command> ESC \`).
pub open spec fn kitty_apc(command: Seq<u8>) -> Seq<u8> {
    seq![0x1bu8, 0x5fu8, 0x47u8] + command + seq![0x1bu8, 0x5cu8]
}

/// What is written for `command`: the APC sequence, or inside tmux the
/// same with its escape bytes doubled, wrapped in `ESC P tmux;` ... `ESC \`.
pub open spec fn kitty_output(command: Seq<u8>, tmux: bool) -> Seq<u8> {
    if tmux {
        seq![0x1bu8, 0x50u8, 0x74u8, 0x6du8, 0x75u8, 0x78u8, 0x3bu8] + escape_doubled(kitty_apc(command)) + seq![0x1bu8, 0x5cu8]
    } else {
        kitty_apc(command)
    }
}

/// Appends the bytes `b` to `out`.
fn push_bytes(out: &mut Vec<u8>, b: &[u8])
    ensures
        final(out)@ == old(out)@ + b@,
{
    let mut i: usize = 0;
    while i < b.len()
        invariant
            i <= b.len(),
            out@ == old(out)@ + b@.take(i as int),
        decreases b.len() - i,
    {
        out.push(b[i]);
        assert(b@.take(i + 1) == b@.take(i as int).push(b@[i as int]));
        i += 1;
    }
    assert(b@.take(b.len() as int) == b@);
}

/// Appends the kitty graphics command `command` to `output` (see
/// [`kitty_output`]).
pub fn write_kitty_apc(output: &mut Vec<u8>, command: &[u8], tmux: bool)
    ensures
        final(output)@ == old(output)@ + kitty_output(command@, tmux),
{
    let mut apc: Vec<u8> = Vec::new();
    push_bytes(&mut apc, &[0x1bu8, 0x5fu8, 0x47u8]);
    push_bytes(&mut apc, command);
    push_bytes(&mut apc, &[0x1bu8, 0x5cu8]);
    assert(apc@ =~= kitty_apc(command@));
    if !tmux {
        push_bytes(output, apc.as_slice());
        return;
    }
    push_bytes(output, &[0x1bu8, 0x50u8, 0x74u8, 0x6du8, 0x75u8, 0x78u8, 0x3bu8]);
    let ghost start = output@;
    let mut i: usize = 0;
    while i < apc.len()
        invariant
            i <= apc.len(),
            output@ == start + escape_doubled(apc@.take(i as int)),
        decreases apc.len() - i,
    {
        let b = apc[i];
        assert(apc@.take(i + 1).drop_last() == apc@.take(i as int));
        assert(apc@.take(i + 1).last() == b);
        if b == 0x1b {
            output.push(0x1b);
        }
        output.push(b);
        assert(output@ =~= start + escape_doubled(apc@.take(i + 1)));
        i += 1;
    }
    assert(apc@.take(apc.len() as int) == apc@);
    push_bytes(output, &[0x1bu8, 0x5cu8]);
    assert(output@ =~= old(output)@ + kitty_output(command@, tmux));
}

/// A rectangle of terminal cells.
#[derive(Debug, Clone, Copy, PartialEq, Eq, Structural)]
pub struct CellArea {
    pub x: u16,
    pub y: u16,
    pub width: u16,
    pub height: u16,
}

/// Image id under which the cover is shown with the kitty protocol.
pub const KITTY_IMAGE_ID: u32 = 5654104;

/// The arguments of `kitten icat` that show the image at `path` in `area`,
/// through tmux, with unicode placeholders, centred and scaled up; the window
/// size (columns, rows, width, height in pixels) when known.
pub open spec fn icat_args(path: Seq<char>, area: CellArea, window: Option<(u16, u16, u16, u16)>) -> Seq<Seq<char>> {
    let head = seq![
        "icat"@,
        "--stdin=no"@,
        "--transfer-mode=stream"@,
        "--passthrough=tmux"@,
        "--unicode-placeholder"@,
        "--align=center"@,
        "--scale-up=yes"@,
        "--image-id="@ + decimal(KITTY_IMAGE_ID as nat),
        "--place="@ + decimal(area.width as nat) + "x"@ + decimal(area.height as nat) + "@"@ + decimal(area.x as nat) + "x"@
            + decimal(area.y as nat),
        "--no-trailing-newline"@,
    ];
    let sized = match window {
        Some((c, r, w, h)) => head.push(
            "--use-window-size="@ + decimal(c as nat) + ","@ + decimal(r as nat) + ","@ + decimal(w as nat) + ","@ + decimal(h as nat),
        ),
        None => head,
    };
    sized + seq!["--"@, path]
}

/// The views of a list of strings.
pub open spec fn texts_view(v: Seq<String>) -> Seq<Seq<char>> {
    v.map_values(|s: String| s@)
}

/// The arguments of `kitten icat` (see [`icat_args`]).
pub fn kitten_icat_args(path: &str, area: CellArea, window_size: Option<(u16, u16, u16, u16)>) -> (r: Vec<String>)
    ensures
        texts_view(r@) == icat_args(path@, area, window_size),
{
    let mut args: Vec<String> = Vec::new();
    args.push(to_owned_string("icat"));
    args.push(to_owned_string("--stdin=no"));
    args.push(to_owned_string("--transfer-mode=stream"));
    args.push(to_owned_string("--passthrough=tmux"));
    args.push(to_owned_string("--unicode-placeholder"));
    args.push(to_owned_string("--align=center"));
    args.push(to_owned_string("--scale-up=yes"));
    let mut id = to_owned_string("--image-id=");
    push_decimal(&mut id, 5654104);
    args.push(id);
    let mut place = to_owned_string("--place=");
    push_decimal(&mut place, area.width as u64);
    push_str(&mut place, "x");
    push_decimal(&mut place, area.height as u64);
    push_str(&mut place, "@");
    push_decimal(&mut place, area.x as u64);
    push_str(&mut place, "x");
    push_decimal(&mut place, area.y as u64);
    args.push(place);
    args.push(to_owned_string("--no-trailing-newline"));
    match window_size {
        Some((c, r, w, h)) => {
            let mut s = to_owned_string("--use-window-size=");
            push_decimal(&mut s, c as u64);
            push_str(&mut s, ",");
            push_decimal(&mut s, r as u64);
            push_str(&mut s, ",");
            push_decimal(&mut s, w as u64);
            push_str(&mut s, ",");
            push_decimal(&mut s, h as u64);
            args.push(s);
        },
        None => {},
    }
    args.push(to_owned_string("--"));
    args.push(to_owned_string(path));
    assert(texts_view(args@) =~= icat_args(path@, area, window_size));
    args
}

/// A cover URL as fetched: trimmed, `https:` before a scheme-relative `//`.
pub open spec fn normalized_url(url: Seq<char>) -> Seq<char> {
    let t = trim_ws(url);
    if has_prefix(t, "//"@) {
        "https:"@ + t
    } else {
        t
    }
}

/// A cover URL as fetched (see [`normalized_url`]).
pub fn normalize_url(url: &str) -> (r: String)
    ensures
        r@ == normalized_url(url@),
{
    let t = trim_chars(&chars_of(url));
    let slashes = chars_of("//");
    assert(t@.skip(0) == t@);
    if starts_with_at(&t, 0, &slashes) {
        let mut s = to_owned_string("https:");
        push_all(&mut s, &t);
        s
    } else {
        string_of(&t)
    }
}

/// The Referer a cover host wants, by the host named in the URL.
pub open spec fn referer_for(url: Seq<char>) -> Option<Seq<char>> {
    if crate::library::import::contains_text(url, "kuwo.cn"@) {
        Some("https://www.kuwo.cn/"@)
    } else if crate::library::import::contains_text(url, "kugou.com"@) {
        Some("https://www.kugou.com/"@)
    } else if crate::library::import::contains_text(url, "qq.com"@) {
        Some("https://y.qq.com/"@)
    } else if crate::library::import::contains_text(url, "music.163.com"@) || crate::library::import::contains_text(url, "126.net"@) {
        Some("https://music.163.com/"@)
    } else {
        None
    }
}

/// The Referer a cover host wants (see [`referer_for`]).
pub fn cover_referer(url: &str) -> (r: Option<&'static str>)
    ensures
        match referer_for(url@) {
            Some(v) => (r matches Some(s) && s@ == v),
            None => r is None,
        },
{
    let v = chars_of(url);
    if crate::library::import::contains_lit(&v, "kuwo.cn") {
        Some("https://www.kuwo.cn/")
    } else if crate::library::import::contains_lit(&v, "kugou.com") {
        Some("https://www.kugou.com/")
    } else if crate::library::import::contains_lit(&v, "qq.com") {
        Some("https://y.qq.com/")
    } else if crate::library::import::contains_lit(&v, "music.163.com") || crate::library::import::contains_lit(&v, "126.net") {
        Some("https://music.163.com/")
    } else {
        None
    }
}

/// The MPRIS art URL of a cover: a `file://` URL for an absolute local
/// path, the value itself otherwise.
pub fn art_url(value: &str) -> (r: String)
    ensures
        r@ == if has_prefix(value@, "/"@) {
            "file://"@ + value@
        } else {
            value@
        },
{
    let v = chars_of(value);
    let slash = chars_of("/");
    assert(v@.skip(0) == v@);
    if starts_with_at(&v, 0, &slash) {
        file_url(value)
    } else {
        to_owned_string(value)
    }
}

/// The `file://` URL of a path.
pub fn file_url(path: &str) -> (r: String)
    ensures
        r@ == "file://"@ + path@,
{
    let mut s = to_owned_string("file://");
    push_str(&mut s, path);
    s
}

/// How far the cover of the current song is.
#[derive(Debug, Clone, PartialEq, Eq)]
pub enum CoverState {
    Empty,
    Loading,
    Ready,
    Unavailable(String),
}

} // verus!
