//! Defaults and small decisions for the history search path: page defaults,
//! page-size clamping, and collecting the URLs of a lookup request.

use vstd::prelude::*;

verus! {

/// Default page number for a search request that does not give one.
pub fn default_page() -> (r: Option<i32>)
    ensures
        r == Some(1i32),
{
    Some(1)
}

/// Default page size for a search request that does not give one.
pub fn default_page_size() -> (r: Option<i32>)
    ensures
        r == Some(30i32),
{
    Some(30)
}

/// Largest page size the search path will serve in one request.
pub const MAX_PAGE_SIZE: i32 = 1000;

/// The page number actually used for a request: the given one, or the default.
pub fn effective_page(page: Option<i32>) -> (r: i32)
    ensures
        r == (match page {
            Some(p) => p,
            None => 1i32,
        }),
{
    match page {
        Some(p) => p,
        None => 1,
    }
}

/// The page size actually used for a request: the given one clamped to
/// `MAX_PAGE_SIZE`, or the default.
pub fn effective_page_size(page_size: Option<i32>) -> (r: i32)
    ensures
        r == (match page_size {
            Some(p) => if p < MAX_PAGE_SIZE { p } else { MAX_PAGE_SIZE },
            None => 30i32,
        }),
{
    match page_size {
        Some(p) => if p < MAX_PAGE_SIZE {
            p
        } else {
            MAX_PAGE_SIZE
        },
        None => 30,
    }
}

/// The URLs a lookup request asks about: the single one (if given) followed
/// by the batch (if given), in order.
pub fn collect_query_urls(url: Option<String>, urls: Option<Vec<String>>) -> (r: Vec<String>)
    ensures
        r@ == (match url {
            Some(u) => seq![u],
            None => Seq::<String>::empty(),
        }) + (match urls {
            Some(v) => v@,
            None => Seq::<String>::empty(),
        }),
{
    let ghost url0 = url;
    let ghost urls0 = urls;
    let mut out: Vec<String> = Vec::new();
    if let Some(u) = url {
        out.push(u);
    }
    if let Some(mut v) = urls {
        out.append(&mut v);
    }
    proof {
        assert(out@ =~= (match url0 {
            Some(u) => seq![u],
            None => Seq::<String>::empty(),
        }) + (match urls0 {
            Some(v) => v@,
            None => Seq::<String>::empty(),
        }));
    }
    out
}

} // verus!
