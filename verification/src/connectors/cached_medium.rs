//! Answers of the Medium API served through a cache: the keys they are kept
//! under, and the order of lookup, fetch and store.

use vstd::prelude::*;

verus! {

/// Cursor used in cache keys for the first page of previews.
pub open spec fn first_page_cursor() -> Seq<char> {
    "default"@
}

/// Cache key of a page of post previews: `<username> - <cursor>`, with
/// `default` as the cursor of the first page.
pub open spec fn preview_cache_key(username: Seq<char>, from: Option<Seq<char>>) -> Seq<char> {
    username + " - "@ + match from {
        Some(f) => f,
        None => first_page_cursor(),
    }
}

/// Law: for one creator, pages with different cursors are cached under
/// different keys (the first page counting as the cursor `default`).
pub proof fn lemma_preview_keys_distinct(
    username: Seq<char>,
    a: Option<Seq<char>>,
    b: Option<Seq<char>>,
)
    requires
        (match a {
            Some(f) => f,
            None => first_page_cursor(),
        }) != (match b {
            Some(f) => f,
            None => first_page_cursor(),
        }),
    ensures
        preview_cache_key(username, a) != preview_cache_key(username, b),
{
    let ca = match a {
        Some(f) => f,
        None => first_page_cursor(),
    };
    let cb = match b {
        Some(f) => f,
        None => first_page_cursor(),
    };
    let prefix = username + " - "@;
    if preview_cache_key(username, a) == preview_cache_key(username, b) {
        assert(preview_cache_key(username, a) == prefix + ca);
        assert(preview_cache_key(username, b) == prefix + cb);
        assert((prefix + ca).subrange(prefix.len() as int, (prefix + ca).len() as int) =~= ca);
        assert((prefix + cb).subrange(prefix.len() as int, (prefix + cb).len() as int) =~= cb);
    }
}

/// Cache key of a page of post previews.
pub fn preview_key(username: &str, creator_page_posts_from: Option<&str>) -> (r: String)
    ensures
        r@ == preview_cache_key(
            username@,
            match creator_page_posts_from {
                Some(f) => Some(f@),
                None => None,
            },
        ),
{
    let cursor = match creator_page_posts_from {
        Some(f) => f,
        None => "default",
    };
    String::from_str(username).concat(" - ").concat(cursor)
}

/// The first decision of serving an answer through a cache, taken on what
/// the cache holds for the key.
pub enum CacheStep<V> {
    /// The cache holds the answer: serve it; nothing is fetched or stored.
    Serve(V),
    /// The cache holds nothing: fetch the answer.
    Fetch,
}

/// The decision after a fetch, taken on what the fetch returned.
pub enum FetchStep<V> {
    /// The fetch succeeded: store the answer in the cache, then serve it.
    StoreAndServe(V),
    /// The fetch failed: return the error as it came; nothing is stored.
    Fail(String),
}

/// Decides on a cache lookup: a hit is served as cached, without a
/// fetch; a miss leads to a fetch.
pub fn cache_step<V>(cached: Option<V>) -> (r: CacheStep<V>)
    ensures
        cached matches Some(v) ==> r == CacheStep::Serve(v),
        cached is None ==> r == CacheStep::<V>::Fetch,
{
    match cached {
        Some(v) => CacheStep::Serve(v),
        None => CacheStep::Fetch,
    }
}

/// Decides after a fetch: a success is stored, then served; a failure is
/// returned as it came and nothing is stored.
pub fn fetch_step<V>(fetched: Result<V, String>) -> (r: FetchStep<V>)
    ensures
        fetched matches Ok(v) ==> r == FetchStep::StoreAndServe(v),
        fetched matches Err(e) ==> r == FetchStep::<V>::Fail(e),
{
    match fetched {
        Ok(v) => FetchStep::StoreAndServe(v),
        Err(e) => FetchStep::Fail(e),
    }
}

} // verus!
