//! Media records as the proxy serves them, converted from the Graph API's
//! posts, and the names of the locally cached images.
use vstd::prelude::*;
use vstd::string::StrSliceExecFns;
use vstd::string::StringExecFns;
use vstd::utf8::encode_utf8;
use sha2::Digest;
use crate::instagram::{self, InstagramMediaData};
use crate::opt_view;
use crate::text::digit_char;

verus! {

/// The kind of a served media record.
#[derive(Debug, Clone, Copy, PartialEq, Eq, Structural)]
pub enum MediaType {
    Gallery,
    Video,
    Image,
}

/// The served kind of a Graph API kind: a carousel is a gallery, a reel a
/// video, an image an image.
pub open spec fn media_type_of(value: instagram::MediaType) -> MediaType {
    match value {
        instagram::MediaType::Carousel => MediaType::Gallery,
        instagram::MediaType::Reel => MediaType::Video,
        instagram::MediaType::Image => MediaType::Image,
    }
}

impl From<instagram::MediaType> for MediaType {
    fn from(value: instagram::MediaType) -> (kind: MediaType) {
        match value {
            instagram::MediaType::Carousel => MediaType::Gallery,
            instagram::MediaType::Reel => MediaType::Video,
            instagram::MediaType::Image => MediaType::Image,
        }
    }
}

impl vstd::std_specs::convert::FromSpecImpl<instagram::MediaType> for MediaType {
    open spec fn obeys_from_spec() -> bool {
        true
    }

    open spec fn from_spec(value: instagram::MediaType) -> MediaType {
        media_type_of(value)
    }
}

/// A served media record.
#[derive(Debug, Clone)]
pub struct Media {
    pub id: String,
    pub media_type: MediaType,
    pub permalink: Option<String>,
    pub image_url: String,
    pub caption: String,
    pub alt_text: String,
    pub timestamp: String,
}

/// The contents of a media record.
pub struct MediaView {
    pub id: Seq<char>,
    pub media_type: MediaType,
    pub permalink: Option<Seq<char>>,
    pub image_url: Seq<char>,
    pub caption: Seq<char>,
    pub alt_text: Seq<char>,
    pub timestamp: Seq<char>,
}

impl View for Media {
    type V = MediaView;

    open spec fn view(&self) -> MediaView {
        MediaView {
            id: self.id@,
            media_type: self.media_type,
            permalink: opt_view(self.permalink),
            image_url: self.image_url@,
            caption: self.caption@,
            alt_text: self.alt_text@,
            timestamp: self.timestamp@,
        }
    }
}

/// A post can be served: it has an image (a thumbnail or the media itself)
/// and a description (an alt text or a caption).
pub open spec fn is_servable(post: InstagramMediaData) -> bool {
    &&& (post.thumbnail_url is Some || post.media_url is Some)
    &&& (post.alt_text is Some || post.caption is Some)
}

/// The served record of a post: the thumbnail is preferred to the media as
/// the image, the alt text to the caption as the description, and a missing
/// caption is empty.
pub open spec fn media_of_post(post: InstagramMediaData) -> MediaView {
    MediaView {
        id: post.id@,
        media_type: media_type_of(post.media_type),
        permalink: opt_view(post.permalink),
        image_url: match post.thumbnail_url {
            Some(u) => u@,
            None => post.media_url.unwrap()@,
        },
        caption: match post.caption {
            Some(c) => c@,
            None => Seq::empty(),
        },
        alt_text: match post.alt_text {
            Some(a) => a@,
            None => post.caption.unwrap()@,
        },
        timestamp: post.timestamp@,
    }
}

/// A served record's kind follows its post's kind as the `From` conversion
/// does: a carousel album is served as a gallery, a reel as a video, an image
/// as an image; posts of different kinds are never served as the same kind.
pub proof fn lemma_served_kind_follows_post_kind(post: InstagramMediaData, other: InstagramMediaData)
    ensures
        media_of_post(post).media_type == <MediaType as vstd::std_specs::convert::FromSpec<
            instagram::MediaType,
        >>::from_spec(post.media_type),
        post.media_type == instagram::MediaType::Carousel ==> media_of_post(post).media_type
            == MediaType::Gallery,
        post.media_type == instagram::MediaType::Reel ==> media_of_post(post).media_type
            == MediaType::Video,
        post.media_type == instagram::MediaType::Image ==> media_of_post(post).media_type
            == MediaType::Image,
        post.media_type != other.media_type ==> media_of_post(post).media_type != media_of_post(
            other,
        ).media_type,
{
}

/// A copy of an optional string.
fn copy_opt(o: &Option<String>) -> (c: Option<String>)
    ensures
        opt_view(c) == opt_view(*o),
{
    match o {
        Some(s) => Some(s.clone()),
        None => None,
    }
}

impl Media {
    /// The served record of a servable post (see `media_of_post`).
    pub fn from_instagram(value: InstagramMediaData) -> (media: Media)
        requires
            is_servable(value),
        ensures
            media@ == media_of_post(value),
            media.media_type == match value.media_type {
                instagram::MediaType::Carousel => MediaType::Gallery,
                instagram::MediaType::Reel => MediaType::Video,
                instagram::MediaType::Image => MediaType::Image,
            },
    {
        let image_url = match value.thumbnail_url {
            Some(u) => u,
            None => value.media_url.unwrap(),
        };
        let caption = match &value.caption {
            Some(c) => c.clone(),
            None => String::new(),
        };
        let alt_text = match value.alt_text {
            Some(a) => a,
            None => value.caption.unwrap(),
        };
        Media {
            id: value.id,
            media_type: MediaType::from(value.media_type),
            permalink: value.permalink,
            image_url,
            caption,
            alt_text,
            timestamp: value.timestamp,
        }
    }

    /// A copy of this record.
    pub fn copy(&self) -> (c: Media)
        ensures
            c@ == self@,
    {
        Media {
            id: self.id.clone(),
            media_type: self.media_type,
            permalink: copy_opt(&self.permalink),
            image_url: self.image_url.clone(),
            caption: self.caption.clone(),
            alt_text: self.alt_text.clone(),
            timestamp: self.timestamp.clone(),
        }
    }
}

/// The served records of a listing of servable posts, in order.
pub fn media_from_posts(posts: Vec<InstagramMediaData>) -> (media: Vec<Media>)
    requires
        forall|i: int| 0 <= i < posts@.len() ==> #[trigger] is_servable(posts@[i]),
    ensures
        media@.len() == posts@.len(),
        forall|i: int| 0 <= i < posts@.len() ==> #[trigger] media@[i]@ == media_of_post(posts@[i]),
{
    let ghost listed = posts@;
    let mut rest = posts;
    let mut media: Vec<Media> = Vec::new();
    while rest.len() > 0
        invariant
            media@.len() + rest@.len() == listed.len(),
            rest@ == listed.subrange(media@.len() as int, listed.len() as int),
            forall|i: int| 0 <= i < listed.len() ==> #[trigger] is_servable(listed[i]),
            forall|i: int| 0 <= i < media@.len() ==> #[trigger] media@[i]@ == media_of_post(listed[i]),
        decreases rest@.len(),
    {
        let post = rest.remove(0);
        assert(post == listed[media@.len() as int]);
        media.push(Media::from_instagram(post));
        assert(rest@ =~= listed.subrange(media@.len() as int, listed.len() as int));
    }
    media
}

/// The SHA-256 digest of `data`, as the `sha2` crate computes it.
pub uninterp spec fn sha256_of(data: Seq<u8>) -> Seq<u8>;

/// `sha2::Sha256::digest`: the SHA-256 digest of `data`. Trusted to equal
/// `sha256_of(data)` and to be 32 bytes long, as the hash's output size is.
#[verifier::external_body]
fn sha256_digest(data: &[u8]) -> (digest: Vec<u8>)
    ensures
        digest@ == sha256_of(data@),
        digest@.len() == 32,
{
    sha2::Sha256::digest(data).to_vec()
}

/// The lowercase hexadecimal character of a nibble `n < 16`.
pub open spec fn hex_char(n: nat) -> char {
    if n < 10 {
        digit_char(n)
    } else {
        ((n - 10 + 97) as u32) as char
    }
}

/// The lowercase hexadecimal rendering of `bytes`, two characters per byte,
/// high nibble first.
pub open spec fn hex_lower(bytes: Seq<u8>) -> Seq<char>
    decreases bytes.len(),
{
    if bytes.len() == 0 {
        Seq::empty()
    } else {
        seq![hex_char((bytes[0] / 16) as nat), hex_char((bytes[0] % 16) as nat)] + hex_lower(
            bytes.drop_first(),
        )
    }
}

/// `hex::encode`: the lowercase hexadecimal rendering of `data`. Trusted to
/// equal `hex_lower(data)`, as the crate's table `0123456789abcdef` gives it.
#[verifier::external_body]
fn hex_encode(data: &[u8]) -> (text: String)
    ensures
        text@ == hex_lower(data@),
{
    hex::encode(data)
}

/// The index of the first `c` in `s`, or the length of `s` if there is none.
pub open spec fn first_index_of(s: Seq<char>, c: char) -> nat
    decreases s.len(),
{
    if s.len() == 0 {
        0
    } else if s[0] == c {
        0
    } else {
        1 + first_index_of(s.drop_first(), c)
    }
}

/// The index just after the last `c` in `s`, or 0 if there is none.
pub open spec fn after_last_index_of(s: Seq<char>, c: char) -> nat
    decreases s.len(),
{
    if s.len() == 0 {
        0
    } else if s.last() == c {
        s.len()
    } else {
        after_last_index_of(s.drop_last(), c)
    }
}

/// The extension of an image address: the part before the first `?`, from
/// just after its last `.` (the whole part if it holds no `.`).
pub open spec fn url_extension(url: Seq<char>) -> Seq<char> {
    let base = url.take(first_index_of(url, '?') as int);
    base.skip(after_last_index_of(base, '.') as int)
}

/// The cache file name of an image given a digest: the digest's first 16
/// bytes in lowercase hex, a `.`, and the image address's extension.
pub open spec fn image_file_name_from(digest: Seq<u8>, url: Seq<char>) -> Seq<char> {
    hex_lower(digest.take(16)) + seq!['.'] + url_extension(url)
}

/// The file that a post's image is cached in, named after the SHA-256 digest
/// of the post's id (its UTF-8 bytes) and the image address.
pub open spec fn image_file_name_of(id: Seq<char>, url: Seq<char>) -> Seq<char> {
    image_file_name_from(sha256_of(encode_utf8(id)), url)
}

/// `c` is a lowercase hexadecimal digit.
pub open spec fn is_lower_hex(c: char) -> bool {
    ('0' <= c && c <= '9') || ('a' <= c && c <= 'f')
}

proof fn lemma_hex_lower_shape(bytes: Seq<u8>)
    ensures
        hex_lower(bytes).len() == 2 * bytes.len(),
        forall|i: int| 0 <= i < hex_lower(bytes).len() ==> #[trigger] is_lower_hex(hex_lower(bytes)[i]),
    decreases bytes.len(),
{
    if bytes.len() > 0 {
        lemma_hex_lower_shape(bytes.drop_first());
        let hi = hex_char((bytes[0] / 16) as nat);
        let lo = hex_char((bytes[0] % 16) as nat);
        assert(is_lower_hex(hi) && is_lower_hex(lo)) by {
            let h = (bytes[0] / 16) as nat;
            let l = (bytes[0] % 16) as nat;
            assert(h < 16 && l < 16);
            if h < 10 {
                assert(hi as u32 == h + 48);
            } else {
                assert(hi as u32 == h + 87);
            }
            if l < 10 {
                assert(lo as u32 == l + 48);
            } else {
                assert(lo as u32 == l + 87);
            }
        }
        let rest = hex_lower(bytes.drop_first());
        let all = seq![hi, lo] + rest;
        assert(hex_lower(bytes) == all);
        assert forall|i: int| 0 <= i < all.len() implies #[trigger] is_lower_hex(all[i]) by {
            if i >= 2 {
                assert(all[i] == rest[i - 2]);
            }
        }
    }
}

proof fn lemma_nothing_after_last(s: Seq<char>, c: char)
    ensures
        after_last_index_of(s, c) <= s.len(),
        forall|j: int| after_last_index_of(s, c) <= j < s.len() ==> #[trigger] s[j] != c,
    decreases s.len(),
{
    if s.len() > 0 && s.last() != c {
        lemma_nothing_after_last(s.drop_last(), c);
        assert forall|j: int| after_last_index_of(s, c) <= j < s.len() implies #[trigger] s[j] != c by {
            if j < s.len() - 1 {
                assert(s[j] == s.drop_last()[j]);
            }
        }
    }
}

/// An image's cache file stays inside the media directory: its name starts
/// with 32 lowercase hex digits and a `.`, and holds no other `.`, so it is
/// not an absolute path and none of its `/`-separated parts is `.` or `..`.
pub proof fn lemma_image_file_name_is_contained(digest: Seq<u8>, url: Seq<char>)
    requires
        digest.len() >= 16,
    ensures
        image_file_name_from(digest, url).len() >= 33,
        forall|i: int| 0 <= i < 32 ==> #[trigger] is_lower_hex(image_file_name_from(digest, url)[i]),
        image_file_name_from(digest, url)[32] == '.',
        forall|i: int|
            32 < i < image_file_name_from(digest, url).len() ==> #[trigger] image_file_name_from(
                digest,
                url,
            )[i] != '.',
{
    let hex = hex_lower(digest.take(16));
    lemma_hex_lower_shape(digest.take(16));
    let base = url.take(first_index_of(url, '?') as int);
    lemma_nothing_after_last(base, '.');
    let ext = url_extension(url);
    let name = image_file_name_from(digest, url);
    assert(hex.len() == 32);
    assert forall|i: int| 0 <= i < 32 implies #[trigger] is_lower_hex(name[i]) by {
        assert(name[i] == hex[i]);
    }
    assert forall|i: int| 32 < i < name.len() implies #[trigger] name[i] != '.' by {
        assert(name[i] == ext[i - 33]);
        assert(ext[i - 33] == base[after_last_index_of(base, '.') + i - 33]);
    }
}

/// The address under which the proxy serves a cached image file.
pub open spec fn local_image_url_of(file_name: Seq<char>) -> Seq<char> {
    seq!['m', 'e', 'd', 'i', 'a', '/'] + file_name
}

proof fn lemma_first_index_of(s: Seq<char>, c: char, k: int)
    requires
        0 <= k <= s.len(),
        forall|j: int| 0 <= j < k ==> s[j] != c,
        k < s.len() ==> s[k] == c,
    ensures
        first_index_of(s, c) == k,
    decreases s.len(),
{
    if s.len() > 0 && k > 0 {
        lemma_first_index_of(s.drop_first(), c, k - 1);
    }
}

proof fn lemma_after_last_index_of(s: Seq<char>, c: char, k: int)
    requires
        0 <= k <= s.len(),
        forall|j: int| k <= j < s.len() ==> s[j] != c,
        k > 0 ==> s[k - 1] == c,
    ensures
        after_last_index_of(s, c) == k,
    decreases s.len(),
{
    if s.len() > 0 && k < s.len() {
        lemma_after_last_index_of(s.drop_last(), c, k);
    }
}

/// The extension of an image address (see `url_extension`).
fn image_extension(url: &str) -> (ext: String)
    ensures
        ext@ == url_extension(url@),
{
    let n = url.unicode_len();
    let mut end: usize = 0;
    while end < n && url.get_char(end) != '?'
        invariant
            end <= n,
            n == url@.len(),
            forall|j: int| 0 <= j < end ==> url@[j] != '?',
        decreases n - end,
    {
        end = end + 1;
    }
    proof {
        lemma_first_index_of(url@, '?', end as int);
    }
    let ghost base = url@.take(end as int);
    let mut start: usize = end;
    while start > 0 && url.get_char(start - 1) != '.'
        invariant
            start <= end,
            end <= n,
            n == url@.len(),
            base == url@.take(end as int),
            forall|j: int| start <= j < end ==> base[j] != '.',
        decreases start,
    {
        start = start - 1;
    }
    proof {
        lemma_after_last_index_of(base, '.', start as int);
    }
    let ext = url.substring_char(start, end).to_owned();
    assert(ext@ =~= base.skip(start as int));
    ext
}

/// The cache file name of an image given a digest (see
/// `image_file_name_from`).
pub fn image_file_name_from_digest(digest: &[u8], url: &str) -> (name: String)
    requires
        digest@.len() >= 16,
    ensures
        name@ == image_file_name_from(digest@, url@),
{
    let mut prefix: Vec<u8> = Vec::new();
    let mut i: usize = 0;
    while i < 16
        invariant
            i <= 16,
            digest@.len() >= 16,
            prefix@ == digest@.take(i as int),
        decreases 16 - i,
    {
        prefix.push(digest[i]);
        i = i + 1;
        assert(prefix@ =~= digest@.take(i as int));
    }
    let mut name = hex_encode(prefix.as_slice());
    name.append(".");
    let ext = image_extension(url);
    name.append(ext.as_str());
    proof {
        reveal_strlit(".");
    }
    assert(name@ =~= image_file_name_from(digest@, url@));
    name
}

/// The file a post's image is cached in (see `image_file_name_of`).
pub fn image_file_name(id: &str, url: &str) -> (name: String)
    ensures
        name@ == image_file_name_of(id@, url@),
{
    let digest = sha256_digest(id.as_bytes());
    image_file_name_from_digest(digest.as_slice(), url)
}

/// The address under which the proxy serves the cached file `file_name`:
/// `media/` followed by the name.
pub fn local_image_url(file_name: &str) -> (url: String)
    ensures
        url@ == local_image_url_of(file_name@),
{
    let mut url = String::from_str("media/");
    url.append(file_name);
    proof {
        reveal_strlit("media/");
    }
    assert(url@ =~= local_image_url_of(file_name@));
    url
}

/// Points every record's image at its locally cached copy; nothing else of
/// a record changes.
pub fn localize_image_urls(media: &mut Vec<Media>)
    ensures
        final(media)@.len() == old(media)@.len(),
        forall|i: int|
            0 <= i < old(media)@.len() ==> #[trigger] final(media)@[i]@ == (MediaView {
                image_url: local_image_url_of(
                    image_file_name_of(old(media)@[i].id@, old(media)@[i].image_url@),
                ),
                ..old(media)@[i]@
            }),
{
    let n = media.len();
    let mut i: usize = 0;
    while i < n
        invariant
            i <= n,
            n == old(media)@.len(),
            media@.len() == n,
            forall|j: int|
                0 <= j < i ==> #[trigger] media@[j]@ == (MediaView {
                    image_url: local_image_url_of(
                        image_file_name_of(old(media)@[j].id@, old(media)@[j].image_url@),
                    ),
                    ..old(media)@[j]@
                }),
            forall|j: int| i <= j < n ==> #[trigger] media@[j] == old(media)@[j],
        decreases n - i,
    {
        let item = &media[i];
        let name = image_file_name(item.id.as_str(), item.image_url.as_str());
        let relinked = Media {
            id: item.id.clone(),
            media_type: item.media_type,
            permalink: copy_opt(&item.permalink),
            image_url: local_image_url(name.as_str()),
            caption: item.caption.clone(),
            alt_text: item.alt_text.clone(),
            timestamp: item.timestamp.clone(),
        };
        media.set(i, relinked);
        i = i + 1;
    }
}

} // verus!
