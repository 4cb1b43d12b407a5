//! Verified core of the Instagram media proxy: building the Graph API
//! requests, converting media records, naming cached images, validating map
//! tile requests, keeping the access token in the secrets vault, and the
//! decisions of the OAuth callback.
use vstd::prelude::*;
use vstd::string::StringExecFns;
use crate::media::{Media, MediaView};

pub mod auth;
pub mod instagram;
pub mod media;
pub mod text;
pub mod tile;

verus! {

/// Base address of the Instagram Graph API that every media and profile
/// request is sent to.
pub const INSTAGRAM_GRAPH_ENDPOINT: &'static str = "https://graph.instagram.com/v25.0";

/// An HTTP GET request: the address and its query parameters in order.
#[derive(Debug)]
pub struct ApiRequest {
    pub url: String,
    pub query: Vec<(String, String)>,
}

/// The text of an optional string.
pub open spec fn opt_view(o: Option<String>) -> Option<Seq<char>> {
    match o {
        Some(s) => Some(s@),
        None => None,
    }
}

impl ApiRequest {
    /// The query parameters as pairs of texts.
    pub open spec fn query_view(&self) -> Seq<(Seq<char>, Seq<char>)> {
        self.query@.map_values(|p: (String, String)| (p.0@, p.1@))
    }
}

/// A query parameter `key=value`.
pub fn query_pair(key: &str, value: &str) -> (p: (String, String))
    ensures
        p.0@ == key@,
        p.1@ == value@,
{
    (key.to_owned(), value.to_owned())
}

/// The address `INSTAGRAM_GRAPH_ENDPOINT` followed by `path`.
pub fn graph_url(path: &str) -> (url: String)
    ensures
        url@ == INSTAGRAM_GRAPH_ENDPOINT@ + path@,
{
    let mut url = String::from_str(INSTAGRAM_GRAPH_ENDPOINT);
    url.append(path);
    url
}

/// How often the served media are rebuilt from the Graph API (a day).
pub const MEDIA_REFRESH_INTERVAL_SECS: u64 = 24 * 60 * 60;

/// How often the long-lived access token is refreshed (20 days).
pub const TOKEN_REFRESH_INTERVAL_SECS: u64 = 20 * 24 * 60 * 60;

/// The media records currently served.
#[derive(Debug)]
pub struct MediaCache {
    pub items: Vec<Media>,
}

impl View for MediaCache {
    type V = Seq<MediaView>;

    open spec fn view(&self) -> Seq<MediaView> {
        self.items@.map_values(|m: Media| m@)
    }
}

impl MediaCache {
    /// A cache that serves nothing yet.
    pub fn new() -> (cache: MediaCache)
        ensures
            cache@ == Seq::<MediaView>::empty(),
    {
        let cache = MediaCache { items: Vec::new() };
        assert(cache@ =~= Seq::<MediaView>::empty());
        cache
    }

    /// A copy of the records served.
    pub fn snapshot(&self) -> (media: Vec<Media>)
        ensures
            media@.map_values(|m: Media| m@) == self@,
    {
        let mut media: Vec<Media> = Vec::new();
        let n = self.items.len();
        let mut i: usize = 0;
        while i < n
            invariant
                i <= n,
                n == self.items@.len(),
                media@.len() == i,
                forall|j: int| 0 <= j < i ==> #[trigger] media@[j]@ == self.items@[j]@,
            decreases n - i,
        {
            media.push(self.items[i].copy());
            i = i + 1;
        }
        assert(media@.map_values(|m: Media| m@) =~= self@);
        media
    }

    /// Takes the outcome of a rebuild: a successful rebuild replaces the
    /// records served; a failed one leaves them as they were and hands the
    /// error back.
    pub fn apply_refresh<E>(&mut self, outcome: Result<Vec<Media>, E>) -> (failure: Option<E>)
        ensures
            match outcome {
                Ok(media) => final(self)@ == media@.map_values(|m: Media| m@) && failure is None,
                Err(e) => final(self)@ == old(self)@ && failure == Some(e),
            },
    {
        match outcome {
            Ok(media) => {
                self.items = media;
                None
            },
            Err(e) => Some(e),
        }
    }
}

} // verus!
