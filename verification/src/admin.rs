//! Data of the admin endpoints: statistics, paged listings of cached images,
//! and the file name a cached image is stored under.

use vstd::prelude::*;
use vstd::string::*;

verus! {

/// Counts shown on the admin dashboard.
pub struct StatsResponse {
    pub total_images: u64,
    pub total_api_keys: u64,
    pub mem_cache_entries: u64,
    pub id_cache_entries: u64,
    pub ratings_cache_entries: u64,
    pub image_mem_cache_mb: u64,
}

/// Paging parameters of an image listing.
pub struct ListImagesQuery {
    pub page: u64,
    pub page_size: u64,
}

/// The page shown when none is requested.
pub fn default_page() -> (p: u64)
    ensures
        p == 1,
{
    1
}

/// The page size used when none is requested.
pub fn default_page_size() -> (s: u64)
    ensures
        s == 50,
{
    50
}

/// One cached image in a listing.
pub struct ImageMetaItem {
    pub cache_key: String,
    pub release_date: Option<String>,
    pub created_at: i64,
    pub updated_at: i64,
}

/// One page of cached images.
pub struct ListImagesResponse {
    pub items: Vec<ImageMetaItem>,
    pub total: u64,
    pub page: u64,
    pub page_size: u64,
}

/// The page actually served: page numbers start at 1, and a page holds 1 to 100
/// items.
pub open spec fn page_window_spec(page: u64, page_size: u64) -> (u64, u64) {
    (
        if page < 1 {
            1
        } else {
            page
        },
        if page_size < 1 {
            1
        } else if page_size > 100 {
            100
        } else {
            page_size
        },
    )
}

/// Normalizes the requested page and page size.
pub fn page_window(query: &ListImagesQuery) -> (r: (u64, u64))
    ensures
        r == page_window_spec(query.page, query.page_size),
{
    let page = if query.page < 1 {
        1
    } else {
        query.page
    };
    let page_size = if query.page_size < 1 {
        1
    } else if query.page_size > 100 {
        100
    } else {
        query.page_size
    };
    (page, page_size)
}

/// Dashboard memory figure: bytes expressed in whole mebibytes.
pub fn bytes_to_mb(bytes: u64) -> (mb: u64)
    ensures
        mb == bytes / 1048576u64,
{
    bytes / (1024 * 1024)
}

/// The cache file base name of an image id value: colons become underscores
/// (e.g. `tt123:logo:fanart` is stored as `tt123_logo_fanart`).
pub open spec fn cache_file_base_spec(id_value: Seq<char>) -> Seq<char> {
    id_value.map_values(|c: char| if c == ':' { '_' } else { c })
}

/// Maps an image id value to its cache file base name.
pub fn cache_file_base(id_value: &str) -> (r: String)
    ensures
        r@ == cache_file_base_spec(id_value@),
{
    proof {
        reveal_strlit("_");
    }
    let n = id_value.unicode_len();
    let mut out = String::new();
    let mut i: usize = 0;
    while i < n
        invariant
            n == id_value@.len(),
            i <= n,
            out@ == cache_file_base_spec(id_value@.take(i as int)),
        decreases n - i,
    {
        proof {
            reveal_strlit("_");
        }
        if id_value.get_char(i) == ':' {
            out.append("_");
        } else {
            let one = id_value.substring_char(i, i + 1);
            assert(one@ =~= seq![id_value@[i as int]]);
            out.append(one);
        }
        assert(cache_file_base_spec(id_value@.take(i + 1)) =~= cache_file_base_spec(id_value@.take(i as int)).push(
            if id_value@[i as int] == ':' { '_' } else { id_value@[i as int] }));
        assert(out@ =~= cache_file_base_spec(id_value@.take(i + 1)));
        i = i + 1;
    }
    assert(id_value@.take(n as int) =~= id_value@);
    out
}

/// The error for a cached image that does not exist (or lies outside the
/// cache directory).
pub open spec fn image_not_found_spec(id_type: Seq<char>, id_value: Seq<char>) -> Seq<char> {
    "Image not found: "@ + id_type + "/"@ + id_value
}

/// The message of the not-found error of a cached image.
pub fn image_not_found(id_type: &str, id_value: &str) -> (m: String)
    ensures
        m@ == image_not_found_spec(id_type@, id_value@),
{
    let mut m = String::from_str("Image not found: ");
    m.append(id_type);
    m.append("/");
    m.append(id_value);
    m
}

} // verus!
