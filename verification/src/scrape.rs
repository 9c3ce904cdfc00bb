//! Trusted boundary around the HTML parser (`select`) and the URL parser
//! (`url`).  Each wrapper makes one query against a parsed page and hands the
//! outcome back as plain values; the parse is deterministic, so each outcome
//! is given a name that the rest of the library's contracts speak of.

use select::document::Document;
use select::predicate::{Class, Name, Predicate};
use vstd::prelude::*;

verus! {

/// The `href` attributes of anchors nested in result containers of a
/// search-results page, in document order.
pub uninterp spec fn result_links_of(page: Seq<char>) -> Seq<Seq<char>>;

/// The text of the topic-tag elements of a question page, in document order.
pub uninterp spec fn tags_of(page: Seq<char>) -> Seq<Seq<char>>;

/// Whether a question page holds at least one answer element.
pub uninterp spec fn has_answer_of(page: Seq<char>) -> bool;

/// The text of the first preformatted block inside the first answer element,
/// when both exist.
pub uninterp spec fn answer_pre_of(page: Seq<char>) -> Option<Seq<char>>;

/// The text of the first inline code element inside the first answer
/// element, when both exist.
pub uninterp spec fn answer_code_of(page: Seq<char>) -> Option<Seq<char>>;

/// The flattened text of the first prose-and-code container inside the first
/// answer element, when both exist.
pub uninterp spec fn post_text_of(page: Seq<char>) -> Option<Seq<char>>;

/// The direct children of the first prose-and-code container inside the
/// first answer element: each child's element name (`None` for a bare text
/// node) and its flattened text, in document order.
pub uninterp spec fn post_children_of(page: Seq<char>) -> Option<
    Seq<(Option<Seq<char>>, Seq<char>)>,
>;

/// The path component of a link, when the link parses as an absolute URL.
pub uninterp spec fn url_path_of(link: Seq<char>) -> Option<Seq<char>>;

/// Relies on select's `Document::from`, `Document::find` with
/// `Class("r").descendant(Name("a"))`, and `Node::attr`: the `href`
/// attributes of anchors nested in result containers, in document order.
/// Parsing is tolerant: a malformed page yields zero matches, never an error.
#[verifier::external_body]
pub(crate) fn scrape_result_links(page: &str) -> (r: Vec<String>)
    ensures
        r.deep_view() == result_links_of(page@),
{
    let doc = Document::from(page);
    doc.find(Class("r").descendant(Name("a")))
        .filter_map(|n| n.attr("href").map(String::from))
        .collect()
}

/// Relies on select's `Document::find` with `Class("post-tag")` and
/// `Node::text`: the text of each topic-tag element, in document order.
#[verifier::external_body]
pub(crate) fn scrape_tags(page: &str) -> (r: Vec<String>)
    ensures
        r.deep_view() == tags_of(page@),
{
    let doc = Document::from(page);
    doc.find(Class("post-tag")).map(|t| t.text()).collect()
}

/// Relies on select's `Document::find` with `Class("answer")`: whether the
/// page holds at least one answer element.
#[verifier::external_body]
pub(crate) fn scrape_has_answer(page: &str) -> (r: bool)
    ensures
        r == has_answer_of(page@),
{
    let doc = Document::from(page);
    doc.find(Class("answer")).next().is_some()
}

/// Relies on select's `Node::find` with `Name("pre")` under the first
/// `Class("answer")` match, and `Node::text`.
#[verifier::external_body]
pub(crate) fn scrape_answer_pre(page: &str) -> (r: Option<String>)
    ensures
        r.deep_view() == answer_pre_of(page@),
{
    let doc = Document::from(page);
    doc.find(Class("answer")).next().and_then(|a| a.find(Name("pre")).next()).map(|n| n.text())
}

/// Relies on select's `Node::find` with `Name("code")` under the first
/// `Class("answer")` match, and `Node::text`.
#[verifier::external_body]
pub(crate) fn scrape_answer_code(page: &str) -> (r: Option<String>)
    ensures
        r.deep_view() == answer_code_of(page@),
{
    let doc = Document::from(page);
    doc.find(Class("answer")).next().and_then(|a| a.find(Name("code")).next()).map(|n| n.text())
}

/// Relies on select's `Node::find` with `Class("post-text")` under the first
/// `Class("answer")` match, and `Node::text`: the container's flattened text.
#[verifier::external_body]
pub(crate) fn scrape_post_text(page: &str) -> (r: Option<String>)
    ensures
        r.deep_view() == post_text_of(page@),
{
    let doc = Document::from(page);
    doc.find(Class("answer")).next().and_then(|a| a.find(Class("post-text")).next()).map(
        |n| n.text(),
    )
}

/// Relies on select's `Node::children`, `Node::name` and `Node::text` on the
/// first `Class("post-text")` match under the first `Class("answer")` match:
/// each direct child's element name (`None` for a text node) and its text.
#[verifier::external_body]
pub(crate) fn scrape_post_children(page: &str) -> (r: Option<Vec<(Option<String>, String)>>)
    ensures
        r.deep_view() == post_children_of(page@),
{
    let doc = Document::from(page);
    doc.find(Class("answer")).next().and_then(|a| a.find(Class("post-text")).next()).map(
        |pt| pt.children().map(|c| (c.name().map(String::from), c.text())).collect(),
    )
}

/// Relies on `url::Url::parse` and `Url::path`: the path component of the
/// parsed URL, or `None` when the string is not a valid absolute URL.
#[verifier::external_body]
pub(crate) fn url_path(link: &str) -> (r: Option<String>)
    ensures
        r.deep_view() == url_path_of(link@),
{
    match url::Url::parse(link) {
        Ok(u) => Some(String::from(u.path())),
        Err(_) => None,
    }
}

} // verus!
