//! Map tile proxy: which tile requests are accepted, where an accepted tile
//! is cached and fetched from, and how the upstream reply is relayed.
use vstd::prelude::*;
use vstd::arithmetic::power2::{pow2, lemma_pow2_strictly_increases, lemma2_to64};
use vstd::bits::{lemma_u32_pow2_no_overflow, lemma_u32_shl_is_mul};
use vstd::string::StrSliceExecFns;
use vstd::string::StringExecFns;
use crate::text::{
    all_digits, decimal, digit_value, digits_value, is_digit, lemma_decimal_denotes,
    lemma_decimal_is_digits, push_decimal,
};

verus! {

/// Highest zoom level that the tile server serves.
pub const MAX_ZOOM: u32 = 19;

/// How long a cached tile is served before it is fetched again (30 days).
pub const TILE_CACHE_TTL_SECS: u64 = 30 * 24 * 60 * 60;

/// Why a tile request is refused; every refusal is answered with status 400.
#[derive(Debug, Clone, Copy, PartialEq, Eq, Structural)]
pub enum TileError {
    InvalidSubdomain,
    InvalidZoom,
    InvalidCoordinate,
}

impl TileError {
    /// The HTTP status of a refused tile request.
    pub fn status(&self) -> (code: u16)
        ensures
            code == 400,
    {
        400
    }

    /// The text sent back with a refused tile request.
    pub fn message(&self) -> (text: &'static str)
        ensures
            text@ == match *self {
                TileError::InvalidSubdomain => "Invalid tile subdomain"@,
                TileError::InvalidZoom => "Invalid zoom level"@,
                TileError::InvalidCoordinate => "Invalid tile coordinate"@,
            },
    {
        match self {
            TileError::InvalidSubdomain => "Invalid tile subdomain",
            TileError::InvalidZoom => "Invalid zoom level",
            TileError::InvalidCoordinate => "Invalid tile coordinate",
        }
    }
}

/// The tile servers `a`, `b` and `c`.
pub open spec fn is_tile_subdomain(s: Seq<char>) -> bool {
    s == seq!['a'] || s == seq!['b'] || s == seq!['c']
}

/// The file suffix every requested tile name carries.
pub open spec fn png_suffix() -> Seq<char> {
    seq!['.', 'p', 'n', 'g']
}

/// The row number of a tile name `<digits>.png` with at least one digit;
/// `None` for any other name.
pub open spec fn tile_row_number(y: Seq<char>) -> Option<nat> {
    if y.len() > 4 && y.skip(y.len() - 4) == png_suffix() && all_digits(y.take(y.len() - 4)) {
        Some(digits_value(y.take(y.len() - 4)))
    } else {
        None
    }
}

/// The answer to a request for tile `(z, x, y)` of server `s`: accepted, or
/// the first check that fails, in the order subdomain, zoom, column, row.
/// A zoom level `z` has `2^z` columns and rows.
pub open spec fn tile_check(s: Seq<char>, z: u32, x: u32, y: Seq<char>) -> Result<(), TileError> {
    if !is_tile_subdomain(s) {
        Err(TileError::InvalidSubdomain)
    } else if z > MAX_ZOOM {
        Err(TileError::InvalidZoom)
    } else if x >= pow2(z as nat) {
        Err(TileError::InvalidCoordinate)
    } else if !(tile_row_number(y) matches Some(n) && n < pow2(z as nat)) {
        Err(TileError::InvalidCoordinate)
    } else {
        Ok(())
    }
}

/// Where the cache keeps tile `(z, x, y)` of server `s`.
pub open spec fn tile_cache_path(s: Seq<char>, z: nat, x: nat, y: Seq<char>) -> Seq<char> {
    "./tile-cache/"@ + s + "/"@ + decimal(z) + "/"@ + decimal(x) + "/"@ + y
}

/// The address of tile `(z, x, y)` on the OpenStreetMap server `s`.
pub open spec fn tile_upstream_url(s: Seq<char>, z: nat, x: nat, y: Seq<char>) -> Seq<char> {
    "https://"@ + s + ".tile.openstreetmap.org/"@ + decimal(z) + "/"@ + decimal(x) + "/"@ + y
}

/// A path component that cannot leave the directory it is joined to.
pub open spec fn is_plain_component(c: Seq<char>) -> bool {
    &&& c.len() > 0
    &&& !c.contains('/')
    &&& c != seq!['.']
    &&& c != seq!['.', '.']
}

/// A tile request that passed validation.
#[derive(Debug)]
pub struct TileRequest {
    pub subdomain: String,
    pub zoom: u32,
    pub x: u32,
    pub row: String,
}

impl TileRequest {
    /// The request's fields are those of an accepted request.
    pub open spec fn wf(&self) -> bool {
        tile_check(self.subdomain@, self.zoom, self.x, self.row@) is Ok
    }

    /// The cache file of this tile.
    pub fn cache_path(&self) -> (path: String)
        ensures
            path@ == tile_cache_path(self.subdomain@, self.zoom as nat, self.x as nat, self.row@),
    {
        let mut path = String::from_str("./tile-cache/");
        path.append(self.subdomain.as_str());
        path.append("/");
        push_decimal(&mut path, self.zoom);
        path.append("/");
        push_decimal(&mut path, self.x);
        path.append("/");
        path.append(self.row.as_str());
        assert(path@ =~= tile_cache_path(self.subdomain@, self.zoom as nat, self.x as nat, self.row@));
        path
    }

    /// The upstream address of this tile.
    pub fn upstream_url(&self) -> (url: String)
        ensures
            url@ == tile_upstream_url(self.subdomain@, self.zoom as nat, self.x as nat, self.row@),
    {
        let mut url = String::from_str("https://");
        url.append(self.subdomain.as_str());
        url.append(".tile.openstreetmap.org/");
        push_decimal(&mut url, self.zoom);
        url.append("/");
        push_decimal(&mut url, self.x);
        url.append("/");
        url.append(self.row.as_str());
        assert(url@ =~= tile_upstream_url(self.subdomain@, self.zoom as nat, self.x as nat, self.row@));
        url
    }
}

/// Whether `s` names one of the tile servers `a`, `b`, `c`.
fn is_valid_subdomain(s: &str) -> (ok: bool)
    ensures
        ok == is_tile_subdomain(s@),
{
    if s.unicode_len() != 1 {
        return false;
    }
    let c = s.get_char(0);
    if c == 'a' {
        assert(s@ =~= seq!['a']);
        true
    } else if c == 'b' {
        assert(s@ =~= seq!['b']);
        true
    } else if c == 'c' {
        assert(s@ =~= seq!['c']);
        true
    } else {
        false
    }
}

/// The value of a digit string is at least that of any of its prefixes.
proof fn lemma_prefix_value_le(s: Seq<char>, i: int)
    requires
        0 <= i <= s.len(),
    ensures
        digits_value(s.take(i)) <= digits_value(s),
    decreases s.len(),
{
    if i < s.len() {
        lemma_prefix_value_le(s.drop_last(), i);
        assert(s.drop_last().take(i) =~= s.take(i));
    } else {
        assert(s.take(i) =~= s);
    }
}

/// Whether `y` is a tile name `<digits>.png` whose row number is below `bound`.
fn row_is_below(y: &str, bound: u32) -> (ok: bool)
    ensures
        ok == (tile_row_number(y@) matches Some(n) && n < bound),
{
    if bound == 0 {
        return false;
    }
    let len = y.unicode_len();
    if len <= 4 {
        return false;
    }
    let stem_len = len - 4;
    if !(y.get_char(stem_len) == '.' && y.get_char(stem_len + 1) == 'p' && y.get_char(stem_len + 2)
        == 'n' && y.get_char(stem_len + 3) == 'g') {
        proof {
            if y@.skip(y@.len() - 4) == png_suffix() {
                assert(y@.skip(y@.len() - 4)[0] == y@[stem_len as int]);
                assert(y@.skip(y@.len() - 4)[1] == y@[stem_len + 1]);
                assert(y@.skip(y@.len() - 4)[2] == y@[stem_len + 2]);
                assert(y@.skip(y@.len() - 4)[3] == y@[stem_len + 3]);
            }
        }
        return false;
    }
    assert(y@.skip(y@.len() - 4) =~= png_suffix());
    let ghost stem = y@.take(y@.len() - 4);
    let mut value: u64 = 0;
    let mut i: usize = 0;
    assert(stem.take(0) =~= Seq::<char>::empty());
    while i < stem_len
        invariant
            i <= stem_len,
            stem_len + 4 == y@.len(),
            stem == y@.take(y@.len() - 4),
            all_digits(stem.take(i as int)),
            value == digits_value(stem.take(i as int)),
            value < bound,
        decreases stem_len - i,
    {
        let c = y.get_char(i);
        assert(stem[i as int] == c);
        if !('0' <= c && c <= '9') {
            assert(!is_digit(stem[i as int]));
            return false;
        }
        let d = (c as u32 - 48) as u64;
        assert(d == digit_value(c));
        let ghost before = stem.take(i as int);
        value = value * 10 + d;
        i = i + 1;
        proof {
            let now = stem.take(i as int);
            assert(now.drop_last() =~= before);
            assert(now.last() == c);
            assert forall|k: int| 0 <= k < now.len() implies #[trigger] is_digit(now[k]) by {
                if k < before.len() {
                    assert(now[k] == before[k]);
                    assert(is_digit(before[k]));
                }
            }
        }
        if value >= bound as u64 {
            proof {
                if all_digits(stem) {
                    lemma_prefix_value_le(stem, i as int);
                }
            }
            return false;
        }
    }
    assert(stem.take(stem_len as int) =~= stem);
    true
}

/// Accepts or refuses a request for tile `(z, x, y)` of server `s`, with the
/// checks of `tile_check` in its order.
pub fn parse_tile_request(s: &str, z: u32, x: u32, y: &str) -> (res: Result<TileRequest, TileError>)
    ensures
        match res {
            Ok(req) => {
                &&& tile_check(s@, z, x, y@) is Ok
                &&& req.subdomain@ == s@
                &&& req.zoom == z
                &&& req.x == x
                &&& req.row@ == y@
            },
            Err(e) => tile_check(s@, z, x, y@) == Err::<(), TileError>(e),
        },
{
    if !is_valid_subdomain(s) {
        return Err(TileError::InvalidSubdomain);
    }
    if z > MAX_ZOOM {
        return Err(TileError::InvalidZoom);
    }
    proof {
        lemma_u32_pow2_no_overflow(z as nat);
        lemma_u32_shl_is_mul(1, z);
    }
    let max_tile: u32 = 1u32 << z;
    assert(max_tile == pow2(z as nat));
    if x >= max_tile {
        return Err(TileError::InvalidCoordinate);
    }
    if !row_is_below(y, max_tile) {
        return Err(TileError::InvalidCoordinate);
    }
    Ok(TileRequest { subdomain: s.to_owned(), zoom: z, x, row: y.to_owned() })
}

/// Every component of the cache path of an accepted tile request is plain
/// (no `/`, not `.` or `..`) and the file is a `.png`: an accepted request
/// cannot name a file outside the tile cache.
pub proof fn lemma_accepted_tile_path_is_plain(s: Seq<char>, z: u32, x: u32, y: Seq<char>)
    requires
        tile_check(s, z, x, y) is Ok,
    ensures
        is_plain_component(s),
        is_plain_component(decimal(z as nat)),
        is_plain_component(decimal(x as nat)),
        is_plain_component(y),
        y.skip(y.len() - 4) == png_suffix(),
        tile_cache_path(s, z as nat, x as nat, y) == "./tile-cache/"@ + s + "/"@ + decimal(z as nat)
            + "/"@ + decimal(x as nat) + "/"@ + y,
{
    lemma_decimal_is_digits(z as nat);
    lemma_decimal_is_digits(x as nat);
    assert(!s.contains('/') && s != seq!['.'] && s != seq!['.', '.']) by {
        assert(s.len() == 1);
        assert(s[0] != '/' && s[0] != '.');
        if s.contains('/') {
            let k = choose|k: int| 0 <= k < s.len() && s[k] == '/';
        }
        if s == seq!['.'] {
            assert(s[0] == '.');
        }
    }
    assert(!decimal(z as nat).contains('/')) by {
        if decimal(z as nat).contains('/') {
            let k = choose|k: int| 0 <= k < decimal(z as nat).len() && decimal(z as nat)[k] == '/';
            assert(is_digit(decimal(z as nat)[k]));
        }
    }
    assert(!decimal(x as nat).contains('/')) by {
        if decimal(x as nat).contains('/') {
            let k = choose|k: int| 0 <= k < decimal(x as nat).len() && decimal(x as nat)[k] == '/';
            assert(is_digit(decimal(x as nat)[k]));
        }
    }
    assert(decimal(z as nat) != seq!['.']) by {
        if decimal(z as nat) == seq!['.'] {
            assert(is_digit(decimal(z as nat)[0]));
        }
    }
    assert(decimal(z as nat) != seq!['.', '.']) by {
        if decimal(z as nat) == seq!['.', '.'] {
            assert(is_digit(decimal(z as nat)[0]));
        }
    }
    assert(decimal(x as nat) != seq!['.']) by {
        if decimal(x as nat) == seq!['.'] {
            assert(is_digit(decimal(x as nat)[0]));
        }
    }
    assert(decimal(x as nat) != seq!['.', '.']) by {
        if decimal(x as nat) == seq!['.', '.'] {
            assert(is_digit(decimal(x as nat)[0]));
        }
    }
    let stem = y.take(y.len() - 4);
    assert(!y.contains('/')) by {
        if y.contains('/') {
            let k = choose|k: int| 0 <= k < y.len() && y[k] == '/';
            if k < y.len() - 4 {
                assert(stem[k] == y[k]);
                assert(is_digit(stem[k]));
            } else {
                assert(y.skip(y.len() - 4)[k - (y.len() - 4)] == y[k]);
            }
        }
    }
}

/// The zoom and column written into a tile's cache path and upstream address
/// read back as the tile's own zoom and column: each is the decimal digits of
/// the number, without a leading zero.
pub proof fn lemma_tile_address_reads_back(s: Seq<char>, z: u32, x: u32, y: Seq<char>)
    ensures
        exists|zs: Seq<char>, xs: Seq<char>|
            {
                &&& tile_cache_path(s, z as nat, x as nat, y) == "./tile-cache/"@ + s + "/"@ + zs
                    + "/"@ + xs + "/"@ + y
                &&& tile_upstream_url(s, z as nat, x as nat, y) == "https://"@ + s
                    + ".tile.openstreetmap.org/"@ + zs + "/"@ + xs + "/"@ + y
                &&& zs.len() > 0 && all_digits(zs) && digits_value(zs) == z
                &&& xs.len() > 0 && all_digits(xs) && digits_value(xs) == x
                &&& (z > 0 ==> zs[0] != '0') && (x > 0 ==> xs[0] != '0')
            },
{
    lemma_decimal_denotes(z as nat);
    lemma_decimal_denotes(x as nat);
    let zs = decimal(z as nat);
    let xs = decimal(x as nat);
    assert(tile_cache_path(s, z as nat, x as nat, y) == "./tile-cache/"@ + s + "/"@ + zs + "/"@ + xs
        + "/"@ + y);
}

/// A tile reply counts as a success exactly when its status is in the 2xx
/// range, as `http::StatusCode::is_success` decides: only then is the tile
/// written to the cache and served with a long cache lifetime; informational,
/// redirect, client-error and server-error replies (such as 304, 403, 404,
/// 429 or 503) never are.
pub proof fn lemma_success_is_exactly_2xx(status: u16)
    ensures
        is_success(status) <==> (200 <= status && status < 300),
        status < 200 ==> !is_success(status),
        status >= 300 ==> !is_success(status),
{
}

/// A status in the 2xx range.
pub open spec fn is_success(status: u16) -> bool {
    200 <= status <= 299
}

/// Whether `status` is a success; only successful tiles are cached.
pub fn is_success_status(status: u16) -> (ok: bool)
    ensures
        ok == is_success(status),
        ok <==> (200 <= status && status < 300),
{
    200 <= status && status <= 299
}

/// The status relayed for an upstream reply: the upstream code when it is a
/// valid HTTP status (100 to 999), else 502 Bad Gateway.
pub fn relay_status(upstream: u16) -> (code: u16)
    ensures
        code == if 100 <= upstream <= 999 {
            upstream
        } else {
            502u16
        },
{
    if 100 <= upstream && upstream <= 999 {
        upstream
    } else {
        502
    }
}

/// The `cache-control` header of a tile reply: a year for a success,
/// `no-store` otherwise.
pub fn cache_control_for(status: u16) -> (value: &'static str)
    ensures
        value@ == if is_success(status) {
            "public, max-age=31536000"@
        } else {
            "no-store"@
        },
        value@ == if 200 <= status && status < 300 {
            "public, max-age=31536000"@
        } else {
            "no-store"@
        },
{
    if is_success_status(status) {
        "public, max-age=31536000"
    } else {
        "no-store"
    }
}

/// The content type of a tile reply: the upstream's header when it was
/// readable, else `image/png`.
pub fn tile_content_type(header: Option<String>) -> (content_type: String)
    ensures
        content_type@ == match header {
            Some(h) => h@,
            None => "image/png"@,
        },
{
    match header {
        Some(h) => h,
        None => String::from_str("image/png"),
    }
}

/// Whether a cached tile of the given age (in whole seconds) is still
/// served from the cache.
pub fn cache_is_fresh(age_secs: u64) -> (fresh: bool)
    ensures
        fresh == (age_secs < TILE_CACHE_TTL_SECS),
{
    age_secs < TILE_CACHE_TTL_SECS
}

} // verus!
