//! Downloaded files: the metadata written into them, when a cover is made
//! smaller, and sample content for exercising downloads.
use vstd::prelude::*;
use crate::text::{trim_str, trim_ws};
use crate::time::Duration;

verus! {

/// The tags written into a downloaded file.
#[derive(Debug, Clone)]
pub struct DownloadMetadata {
    pub title: String,
    pub artist: String,
    pub album: String,
    pub cover: Option<Vec<u8>>,
    pub lyric: Option<String>,
}

impl DownloadMetadata {
    /// Trimmed title, artist and album; no cover and no lyrics.
    pub fn new(title: &str, artist: &str, album: &str) -> (r: DownloadMetadata)
        ensures
            r.title@ == trim_ws(title@),
            r.artist@ == trim_ws(artist@),
            r.album@ == trim_ws(album@),
            r.cover is None,
            r.lyric is None,
    {
        DownloadMetadata { title: trim_str(title), artist: trim_str(artist), album: trim_str(album), cover: None, lyric: None }
    }
}

/// Covers larger than this many bytes are made smaller before they are
/// embedded.
pub const COVER_SHRINK_THRESHOLD: usize = 2097152;

/// Longest side, in pixels, of a cover that was made smaller.
pub const COVER_MAX_SIDE: u32 = 640;

/// Whether a cover of `cover.len()` bytes is made smaller before embedding.
pub fn needs_shrink(cover: &[u8]) -> (r: bool)
    ensures
        r == (cover@.len() > COVER_SHRINK_THRESHOLD),
{
    cover.len() > COVER_SHRINK_THRESHOLD
}

/// The cover that is embedded: the smaller one when making it smaller gave
/// some bytes, the cover as it was otherwise.
pub fn pick_cover(cover: Vec<u8>, shrunk: Result<Vec<u8>, String>) -> (r: Vec<u8>)
    ensures
        r@ == match shrunk {
            Ok(s) => if s@.len() > 0 {
                s@
            } else {
                cover@
            },
            Err(_) => cover@,
        },
{
    match shrunk {
        Ok(s) => {
            if s.len() > 0 {
                s
            } else {
                cover
            }
        },
        Err(_) => cover,
    }
}

/// The span in nanoseconds.
fn nanos_of(d: Duration) -> (r: u128)
    ensures
        r == d.total_nanos(),
        r < 18446744073709551616u128 * 1_000_000_000,
{
    let secs = d.as_secs();
    let nanos = d.subsec_nanos();
    assert((secs as u128) * 1_000_000_000 + (nanos as u128) < 18446744073709551616u128 * 1_000_000_000) by (nonlinear_arith)
        requires
            secs < 18446744073709551616u128,
            nanos < 1_000_000_000,
    ;
    (secs as u128) * 1_000_000_000 + (nanos as u128)
}

/// Whether a file that plays for `actual` is the whole song that the source
/// said lasts `expected`: always when either is zero; else it may be shorter
/// by at most the tolerance (5 % of the expected length, at most 3 s) and
/// longer by at most the tolerance or 1.5 s, whichever is more. In
/// nanoseconds.
pub open spec fn duration_plausible(actual: int, expected: int) -> bool {
    let tolerance = if expected / 20 < 3_000_000_000 { expected / 20 } else { 3_000_000_000 };
    let longer = if tolerance > 1_500_000_000 { tolerance } else { 1_500_000_000 };
    expected == 0 || actual == 0 || !(actual + tolerance < expected || actual > expected + longer)
}

/// Whether the length of a downloaded file fits the song (see [`duration_plausible`]).
pub fn audio_duration_ok(actual: Duration, expected: Duration) -> (r: bool)
    ensures
        r == duration_plausible(actual.total_nanos(), expected.total_nanos()),
{
    let a = nanos_of(actual);
    let e = nanos_of(expected);
    if e == 0 || a == 0 {
        return true;
    }
    let twentieth = e / 20;
    let tolerance = if twentieth < 3_000_000_000 {
        twentieth
    } else {
        3_000_000_000
    };
    let longer = if tolerance > 1_500_000_000 {
        tolerance
    } else {
        1_500_000_000
    };
    !(a + tolerance < e || a > e + longer)
}

/// How a test server answers range requests.
#[derive(Debug, Clone, Copy, PartialEq, Eq, Structural)]
pub enum RangeMode {
    /// Ranges are served (206).
    Supported,
    /// Every request gets the whole content (200).
    Unsupported,
    /// Ranges are announced but ignored.
    Lying,
    /// Only bounded ranges up to the given size are served; anything else
    /// is refused.
    BoundedOnly(usize),
}

/// Addresses of a local test server.
#[derive(Debug, Clone)]
pub struct TestServer {
    pub audio_url: String,
    pub cover_url: String,
    /// An address that always answers 403.
    pub denied_url: String,
}

/// Predictable sample audio: the FLAC magic `fLaC`, then `len` bytes
/// counting from 0 modulo 251.
pub fn fake_audio(len: usize) -> (r: Vec<u8>)
    requires
        len <= usize::MAX - 4,
    ensures
        r@.len() == len + 4,
        r@.take(4) == seq![0x66u8, 0x4cu8, 0x61u8, 0x43u8],
        forall|i: int| 0 <= i < len ==> #[trigger] r@[i + 4] == (i % 251) as u8,
{
    let mut body: Vec<u8> = Vec::new();
    body.push(0x66);
    body.push(0x4c);
    body.push(0x61);
    body.push(0x43);
    let mut i: usize = 0;
    while i < len
        invariant
            i <= len,
            body@.len() == i + 4,
            body@.take(4) == seq![0x66u8, 0x4cu8, 0x61u8, 0x43u8],
            forall|j: int| 0 <= j < i ==> #[trigger] body@[j + 4] == (j % 251) as u8,
        decreases len - i,
    {
        let b: u8 = (i % 251) as u8;
        body.push(b);
        assert(body@.take(4) =~= seq![0x66u8, 0x4cu8, 0x61u8, 0x43u8]);
        i += 1;
    }
    body
}

} // verus!
