//! What music sources answer: search results, playable URLs, and their
//! errors with the messages shown to the user.
use vstd::prelude::*;
use crate::song::SongInfo;
use crate::source::Quality;
use crate::strings::push_decimal;
use crate::text::{push_str, to_owned_string};
use crate::time::Duration;

verus! {

/// One page of search results.
#[derive(Debug)]
pub struct SearchResult {
    pub items: Vec<SongInfo>,
    pub total: u32,
    pub has_more: bool,
}

/// A playable URL of a song.
#[derive(Debug)]
pub struct SongUrl {
    pub url: String,
    pub quality: Quality,
    pub duration: Duration,
    pub cover_url: Option<String>,
    pub qualities: Vec<Quality>,
    /// Request headers the URL needs.
    pub headers: Vec<(String, String)>,
}

/// Why a search failed.
#[derive(Debug)]
pub enum SearchError {
    Network(String),
    Parse(String),
    Api(String),
    Other(String),
}

/// Why fetching a URL, lyrics or a cover failed.
#[derive(Debug)]
pub enum FetchError {
    Network(String),
    NotFound,
    TooManyRequests,
    Parse(String),
    Other(String),
}

/// `prefix` followed by `detail`.
fn prefixed(prefix: &str, detail: &String) -> (r: String)
    ensures
        r@ == prefix@ + detail@,
{
    let mut s = to_owned_string(prefix);
    push_str(&mut s, detail.as_str());
    s
}

impl SearchError {
    /// The message shown for the error.
    pub fn message(&self) -> (r: String)
        ensures
            r@ == match self {
                SearchError::Network(d) => "network error: "@ + d@,
                SearchError::Parse(d) => "parse error: "@ + d@,
                SearchError::Api(d) => "api error: "@ + d@,
                SearchError::Other(d) => d@,
            },
    {
        match self {
            SearchError::Network(d) => prefixed("network error: ", d),
            SearchError::Parse(d) => prefixed("parse error: ", d),
            SearchError::Api(d) => prefixed("api error: ", d),
            SearchError::Other(d) => d.clone(),
        }
    }
}

impl FetchError {
    /// The message shown for the error.
    pub fn message(&self) -> (r: String)
        ensures
            r@ == match self {
                FetchError::Network(d) => "network error: "@ + d@,
                FetchError::NotFound => "not found"@,
                FetchError::TooManyRequests => "too many requests"@,
                FetchError::Parse(d) => "parse error: "@ + d@,
                FetchError::Other(d) => d@,
            },
    {
        match self {
            FetchError::Network(d) => prefixed("network error: ", d),
            FetchError::NotFound => to_owned_string("not found"),
            FetchError::TooManyRequests => to_owned_string("too many requests"),
            FetchError::Parse(d) => prefixed("parse error: ", d),
            FetchError::Other(d) => d.clone(),
        }
    }
}

/// Why reading the application's event stream failed.
#[derive(Debug, Clone, Copy, PartialEq, Eq, Structural)]
pub enum ApplicationEventStreamError {
    /// The reader fell behind by this many events.
    Lagged(u64),
    Closed,
}

impl ApplicationEventStreamError {
    /// The message shown for the error.
    pub fn message(&self) -> (r: String)
        ensures
            r@ == match *self {
                ApplicationEventStreamError::Lagged(n) => "application event stream lagged by "@ + crate::strings::decimal(n as nat)
                    + " events"@,
                ApplicationEventStreamError::Closed => "application event stream closed"@,
            },
    {
        match self {
            ApplicationEventStreamError::Lagged(n) => {
                let mut s = to_owned_string("application event stream lagged by ");
                push_decimal(&mut s, *n);
                push_str(&mut s, " events");
                s
            },
            ApplicationEventStreamError::Closed => to_owned_string("application event stream closed"),
        }
    }
}

} // verus!
