//! Search-engine side of the pipeline: building the query URL and pulling
//! the candidate result links out of a search-results page.

use crate::scrape::result_links_of;
use crate::scrape::scrape_result_links;
use vstd::prelude::*;
use vstd::string::*;

verus! {

/// The fixed prefix of every search query URL.
pub open spec fn query_url_prefix() -> Seq<char> {
    "https://www.google.com/search?q=site:stackoverflow.com%20"@
}

/// Builds the search URL that the surrounding program fires with an HTTP GET.
pub fn get_query_url(query: &String) -> (r: String)
    ensures
        r@ == query_url_prefix() + query@,
{
    let prefix = String::from_str("https://www.google.com/search?q=site:stackoverflow.com%20");
    prefix.concat(query.as_str())
}

/// Extracts the candidate links of a search-results page, in document order.
///
/// Returns `None` when the page holds no result anchor at all, so that the
/// caller can report "no results" rather than an empty listing; no filtering
/// or deduplication happens here.
pub fn extract_links(page: &String) -> (r: Option<Vec<String>>)
    ensures
        r is Some <==> result_links_of(page@).len() > 0,
        r matches Some(v) ==> v.deep_view() == result_links_of(page@),
{
    let links = scrape_result_links(page.as_str());
    proof {
        assert(links.deep_view().len() == links@.len());
    }
    if links.len() == 0 {
        None
    } else {
        Some(links)
    }
}

} // verus!
