//! Music sources, audio quality tiers and player states.
use vstd::prelude::*;
use crate::strings::{decimal, push_decimal};
use crate::text::{push_str, str_eq, to_owned_string};

verus! {

/// Identifier of a music source.
#[derive(Debug, Clone, Copy, PartialEq, Eq, Hash, Structural)]
pub enum SourceId {
    Kw,
    Kg,
    Tx,
    Wy,
    Mg,
    Bili,
    Local,
}

/// The short name of a source.
pub open spec fn source_name(id: SourceId) -> Seq<char> {
    match id {
        SourceId::Kw => "kw"@,
        SourceId::Kg => "kg"@,
        SourceId::Tx => "tx"@,
        SourceId::Wy => "wy"@,
        SourceId::Mg => "mg"@,
        SourceId::Bili => "bili"@,
        SourceId::Local => "local"@,
    }
}

/// The online sources, in display order.
pub open spec fn online_sources() -> Seq<SourceId> {
    seq![SourceId::Kw, SourceId::Kg, SourceId::Tx, SourceId::Wy, SourceId::Mg, SourceId::Bili]
}

impl SourceId {
    /// The short name of the source.
    pub fn as_str(&self) -> (r: &'static str)
        ensures
            r@ == source_name(*self),
    {
        match self {
            SourceId::Kw => "kw",
            SourceId::Kg => "kg",
            SourceId::Tx => "tx",
            SourceId::Wy => "wy",
            SourceId::Mg => "mg",
            SourceId::Bili => "bili",
            SourceId::Local => "local",
        }
    }

    /// Every online source (all but `Local`), in display order.
    pub fn all_online() -> (r: Vec<SourceId>)
        ensures
            r@ == online_sources(),
    {
        let r = vec![
            SourceId::Kw,
            SourceId::Kg,
            SourceId::Tx,
            SourceId::Wy,
            SourceId::Mg,
            SourceId::Bili,
        ];
        assert(r@ == online_sources());
        r
    }

    /// The source whose short name is exactly `name`.
    pub fn from_name(name: &str) -> (r: Option<SourceId>)
        ensures
            r == source_from_name(name@),
    {
        proof {
            reveal_strlit("kw");
            reveal_strlit("kg");
            reveal_strlit("tx");
            reveal_strlit("wy");
            reveal_strlit("mg");
            reveal_strlit("bili");
            reveal_strlit("local");
        }
        if str_eq(name, "kw") {
            Some(SourceId::Kw)
        } else if str_eq(name, "kg") {
            Some(SourceId::Kg)
        } else if str_eq(name, "tx") {
            Some(SourceId::Tx)
        } else if str_eq(name, "wy") {
            Some(SourceId::Wy)
        } else if str_eq(name, "mg") {
            Some(SourceId::Mg)
        } else if str_eq(name, "bili") {
            Some(SourceId::Bili)
        } else if str_eq(name, "local") {
            Some(SourceId::Local)
        } else {
            None
        }
    }
}

/// The source whose short name is `name`, if any.
pub open spec fn source_from_name(name: Seq<char>) -> Option<SourceId> {
    if name == "kw"@ {
        Some(SourceId::Kw)
    } else if name == "kg"@ {
        Some(SourceId::Kg)
    } else if name == "tx"@ {
        Some(SourceId::Tx)
    } else if name == "wy"@ {
        Some(SourceId::Wy)
    } else if name == "mg"@ {
        Some(SourceId::Mg)
    } else if name == "bili"@ {
        Some(SourceId::Bili)
    } else if name == "local"@ {
        Some(SourceId::Local)
    } else {
        None
    }
}

/// Last connectivity probe of one source.
#[derive(Debug, Clone)]
pub struct SourceHealth {
    pub id: SourceId,
    pub name: String,
    pub ok: bool,
    pub latency_ms: u64,
    pub result_count: u32,
    pub detail: String,
}

/// Audio quality tier.
#[derive(Debug, Clone, Copy, PartialEq, Eq, PartialOrd, Ord, Hash, Structural)]
pub enum Quality {
    Low128,
    High320,
    Flac,
    Flac24,
}

/// The display label of a quality tier.
pub open spec fn quality_label(q: Quality) -> Seq<char> {
    match q {
        Quality::Low128 => "128K"@,
        Quality::High320 => "320K"@,
        Quality::Flac => "FLAC"@,
        Quality::Flac24 => "Hi-Res"@,
    }
}

/// Quality tiers in the order they are tried (best first).
pub open spec fn quality_order() -> Seq<Quality> {
    seq![Quality::Flac24, Quality::Flac, Quality::High320, Quality::Low128]
}

impl Quality {
    /// The display label of the tier.
    pub fn label(self) -> (r: &'static str)
        ensures
            r@ == quality_label(self),
    {
        match self {
            Quality::Low128 => "128K",
            Quality::High320 => "320K",
            Quality::Flac => "FLAC",
            Quality::Flac24 => "Hi-Res",
        }
    }

    /// Quality tiers in the order they are tried (best first).
    pub fn order() -> (r: Vec<Quality>)
        ensures
            r@ == quality_order(),
    {
        let r = vec![Quality::Flac24, Quality::Flac, Quality::High320, Quality::Low128];
        assert(r@ == quality_order());
        r
    }
}

/// Measured encoding parameters of an audio file.
#[derive(Debug, Clone, Copy, PartialEq, Eq)]
pub struct AudioProperties {
    /// Stream bitrate in kb/s.
    pub bitrate: Option<u32>,
    /// Sample rate in Hz.
    pub sample_rate: Option<u32>,
    /// Bit depth.
    pub bit_depth: Option<u8>,
    /// Whether the encoding is lossless.
    pub lossless: bool,
}

/// The measured quality of a stream whose sample rate reads `khz` in kHz:
/// bit depth and sample rate of a lossless stream (the rate alone when the
/// depth is unknown), the bitrate of a lossy one; nothing when those are
/// unknown.
pub open spec fn audio_label(p: AudioProperties, khz: Seq<char>) -> Option<Seq<char>> {
    if p.lossless {
        match (p.bit_depth, p.sample_rate) {
            (Some(d), Some(_)) => Some(decimal(d as nat) + seq!['/'] + khz),
            (None, Some(_)) => Some(khz + "kHz"@),
            _ => None,
        }
    } else {
        match p.bitrate {
            Some(b) => Some(decimal(b as nat) + seq!['K']),
            None => None,
        }
    }
}

impl AudioProperties {
    /// The measured quality (see [`audio_label`]); `khz` is the sample rate
    /// written in kHz.
    pub fn label(&self, khz: &str) -> (r: Option<String>)
        ensures
            opt_text(r) == audio_label(*self, khz@),
    {
        if self.lossless {
            return match (self.bit_depth, self.sample_rate) {
                (Some(d), Some(_)) => {
                    let mut s = String::new();
                    push_decimal(&mut s, d as u64);
                    push_str(&mut s, "/");
                    push_str(&mut s, khz);
                    proof {
                        reveal_strlit("/");
                    }
                    assert(s@ =~= decimal(d as nat) + seq!['/'] + khz@);
                    Some(s)
                },
                (None, Some(_)) => {
                    let mut s = to_owned_string(khz);
                    push_str(&mut s, "kHz");
                    Some(s)
                },
                _ => None,
            };
        }
        match self.bitrate {
            Some(b) => {
                let mut s = String::new();
                push_decimal(&mut s, b as u64);
                push_str(&mut s, "K");
                proof {
                    reveal_strlit("K");
                }
                assert(s@ =~= decimal(b as nat) + seq!['K']);
                Some(s)
            },
            None => None,
        }
    }
}

/// The text of an optional string.
pub open spec fn opt_text(s: Option<String>) -> Option<Seq<char>> {
    match s {
        Some(t) => Some(t@),
        None => None,
    }
}

/// State of the audio player.
#[derive(Debug, Clone, Copy, PartialEq, Eq, Structural)]
pub enum PlayerState {
    Idle,
    Loading,
    Playing,
    Paused,
    Stopped,
}

} // verus!
