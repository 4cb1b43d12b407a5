//! The Instagram Graph API's media records and the request that lists them.
use vstd::prelude::*;
use crate::{graph_url, query_pair, ApiRequest, INSTAGRAM_GRAPH_ENDPOINT};

verus! {

/// The kind of a post as the Graph API names it (`CAROUSEL_ALBUM`, `VIDEO`,
/// `IMAGE`).
#[derive(Debug, Clone, Copy, PartialEq, Eq, Structural)]
pub enum MediaType {
    Carousel,
    Reel,
    Image,
}

/// One post of the Graph API's media listing.
#[derive(Debug)]
pub struct InstagramMediaData {
    pub id: String,
    pub media_type: MediaType,
    pub permalink: Option<String>,
    pub media_url: Option<String>,
    pub thumbnail_url: Option<String>,
    pub caption: Option<String>,
    pub alt_text: Option<String>,
    pub timestamp: String,
}

/// The fields that the media listing asks for.
pub const MEDIA_FIELDS: &'static str = "caption,media_type,media_url,permalink,thumbnail_url,timestamp,alt_text";

/// How many posts the media listing asks for.
pub const MEDIA_LIMIT: &'static str = "12";

/// The request that lists the account's latest posts: `/me/media` with the
/// fields, the limit and the access token.
pub fn media_request(token: &str) -> (req: ApiRequest)
    ensures
        req.url@ == INSTAGRAM_GRAPH_ENDPOINT@ + "/me/media"@,
        req.query_view() == seq![
            ("fields"@, MEDIA_FIELDS@),
            ("limit"@, MEDIA_LIMIT@),
            ("access_token"@, token@),
        ],
{
    let url = graph_url("/me/media");
    let mut query: Vec<(String, String)> = Vec::new();
    query.push(query_pair("fields", MEDIA_FIELDS));
    query.push(query_pair("limit", MEDIA_LIMIT));
    query.push(query_pair("access_token", token));
    let req = ApiRequest { url, query };
    assert(req.query_view() =~= seq![
        ("fields"@, MEDIA_FIELDS@),
        ("limit"@, MEDIA_LIMIT@),
        ("access_token"@, token@),
    ]);
    req
}

} // verus!
