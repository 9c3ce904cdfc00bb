//! Answer extraction and result assembly: locating the first answer region
//! of a question page, rendering it according to the output mode, and
//! joining the per-link blocks into the final output string.
//!
//! Fetching is the surrounding program's job: the assembly functions here
//! consume the candidate links together with the already-fetched page text
//! (or `None` where a fetch failed), so one failed link never aborts a
//! batch — it yields its own placeholder block instead.

use crate::config::Config;
use crate::config::OutputMode;
use crate::highlight::colorized_code;
use crate::highlight::spec_colorized;
use crate::scrape::answer_code_of;
use crate::scrape::answer_pre_of;
use crate::scrape::has_answer_of;
use crate::scrape::post_children_of;
use crate::scrape::post_text_of;
use crate::scrape::scrape_answer_code;
use crate::scrape::scrape_answer_pre;
use crate::scrape::scrape_has_answer;
use crate::scrape::scrape_post_children;
use crate::scrape::scrape_post_text;
use crate::scrape::scrape_tags;
use crate::scrape::tags_of;
use crate::scrape::url_path;
use crate::scrape::url_path_of;
use crate::text::contains_substr;
use crate::text::extract_question;
use crate::text::has_substr;
use crate::text::join_blocks;
use crate::text::question_marker;
use crate::text::question_title;
use crate::text::spec_join;
use crate::text::splitter;
use crate::text::splitter_spec;
use vstd::pervasive::unreached;
use vstd::prelude::*;
use vstd::string::*;

verus! {

/// The header line prefix that names the link an answer came from.
pub open spec fn answer_header_prefix() -> Seq<char> {
    "- Answer from "@
}

/// The placeholder prefix for a link whose answer could not be retrieved.
pub open spec fn cant_get_prefix() -> Seq<char> {
    "Can't get answer from "@
}

/// The prefix of each links-only block.
pub open spec fn title_prefix() -> Seq<char> {
    "Title - "@
}

/// How many of the candidate links fall inside the requested budget.
pub open spec fn spec_budget(n: int, len: int) -> int {
    if n <= len {
        n
    } else {
        len
    }
}

/// The rendering of one direct child of the prose-and-code container: a
/// preformatted block is colorized and followed by a newline, an inline code
/// element is colorized with no trailing newline, any other element
/// contributes its text followed by a blank line, and a bare text node is
/// skipped.
pub open spec fn spec_render_child(
    child: (Option<Seq<char>>, Seq<char>),
    tags: Seq<Seq<char>>,
) -> Seq<char> {
    match child.0 {
        Some(name) => if name == "pre"@ {
            spec_colorized(child.1, tags) + "\n"@
        } else if name == "code"@ {
            spec_colorized(child.1, tags)
        } else {
            child.1 + "\n\n"@
        },
        None => Seq::empty(),
    }
}

/// The concatenated rendering of the first `k` children.
pub open spec fn spec_render_children(
    children: Seq<(Option<Seq<char>>, Seq<char>)>,
    tags: Seq<Seq<char>>,
    k: int,
) -> Seq<char>
    decreases k,
{
    if k <= 0 {
        Seq::empty()
    } else {
        spec_render_children(children, tags, k - 1) + spec_render_child(children[k - 1], tags)
    }
}

/// A code block rendered for output: colorized when asked, verbatim else.
pub open spec fn spec_code_block(code: Seq<char>, tags: Seq<Seq<char>>, colorize: bool) -> Seq<
    char,
> {
    if colorize {
        spec_colorized(code, tags)
    } else {
        code
    }
}

/// What `parse_answer` returns for a page: `None` when the page has no
/// answer element or when the mode's target region is missing, the rendered
/// region otherwise.
pub open spec fn spec_parse_answer(page: Seq<char>, mode: OutputMode, colorize: bool) -> Option<
    Seq<char>,
> {
    if !has_answer_of(page) {
        None
    } else if mode is CodeOnly {
        match answer_pre_of(page) {
            Some(code) => Some(spec_code_block(code, tags_of(page), colorize)),
            None => match answer_code_of(page) {
                Some(code) => Some(spec_code_block(code, tags_of(page), colorize)),
                None => None,
            },
        }
    } else if mode is Detailed {
        if !colorize {
            post_text_of(page)
        } else {
            match post_children_of(page) {
                Some(children) => Some(
                    spec_render_children(children, tags_of(page), children.len() as int),
                ),
                None => None,
            }
        }
    } else {
        None
    }
}

/// Whether an element name equals the given literal name.
fn is_named(name: &String, what: &str) -> (r: bool)
    ensures
        r == (name@ == what@),
{
    name.eq(&String::from_str(what))
}

/// Renders one code block, colorized under the tag-guessed grammar when
/// asked for.
fn render_code_block(code: String, tags: &Vec<String>, colorize: bool) -> (r: String)
    ensures
        r@ == spec_code_block(code@, tags.deep_view(), colorize),
{
    if colorize {
        colorized_code(&code, tags)
    } else {
        code
    }
}

/// Reconstructs the prose-and-code container child by child, preserving the
/// prose/code distinction that a single flattening pass would lose: code
/// children are colorized, other element children keep a blank line after
/// their text, bare text nodes are skipped.
fn render_children(children: &Vec<(Option<String>, String)>, tags: &Vec<String>) -> (r: String)
    ensures
        r@ == spec_render_children(
            children.deep_view(),
            tags.deep_view(),
            children.deep_view().len() as int,
        ),
{
    let ghost cs: Seq<(Option<Seq<char>>, Seq<char>)> = children.deep_view();
    let mut out = String::new();
    let mut i: usize = 0;
    while i < children.len()
        invariant
            i <= children@.len(),
            cs == children.deep_view(),
            cs.len() == children@.len(),
            forall|t: int| 0 <= t < cs.len() ==> cs[t] == #[trigger] children@[t].deep_view(),
            out@ == spec_render_children(cs, tags.deep_view(), i as int),
        decreases children@.len() - i,
    {
        let child = &children[i];
        proof {
            assert(cs[i as int].0 == child.0.deep_view());
            assert(cs[i as int].1 == child.1@);
        }
        match &child.0 {
            Some(name) => {
                if is_named(name, "pre") {
                    let colorized = colorized_code(&child.1, tags);
                    out.append(colorized.as_str());
                    out.append("\n");
                } else if is_named(name, "code") {
                    let colorized = colorized_code(&child.1, tags);
                    out.append(colorized.as_str());
                } else {
                    out.append(child.1.as_str());
                    out.append("\n\n");
                }
            },
            None => {},
        }
        i += 1;
    }
    out
}

/// Extracts and renders the first answer of a question page.
///
/// The first answer element encountered is taken, not necessarily the
/// accepted or highest-voted one — a deliberate simplification.  Absence of
/// the answer element or of the mode's target region is `None`, never an
/// error; the links-only mode is routed around this function entirely and is
/// excluded by precondition.
pub fn parse_answer(page: &String, conf: &Config) -> (r: Option<String>)
    requires
        conf.mode != OutputMode::LinksOnly,
    ensures
        r.deep_view() == spec_parse_answer(page@, conf.mode, conf.colorize),
{
    if !scrape_has_answer(page.as_str()) {
        return None;
    }
    let tags = scrape_tags(page.as_str());
    match conf.mode {
        OutputMode::CodeOnly => {
            match scrape_answer_pre(page.as_str()) {
                Some(code) => Some(render_code_block(code, &tags, conf.colorize)),
                None => match scrape_answer_code(page.as_str()) {
                    Some(code) => Some(render_code_block(code, &tags, conf.colorize)),
                    None => None,
                },
            }
        },
        OutputMode::Detailed => {
            if !conf.colorize {
                scrape_post_text(page.as_str())
            } else {
                match scrape_post_children(page.as_str()) {
                    Some(children) => Some(render_children(&children, &tags)),
                    None => None,
                }
            }
        },
        OutputMode::LinksOnly => unreached(),
    }
}

/// The path a links-only block reconstructs its title from: the URL's path
/// component, or the raw link when it does not parse as an absolute URL (a
/// graceful degradation — the title still comes from the last segment).
pub open spec fn spec_link_path(link: Seq<char>) -> Seq<char> {
    match url_path_of(link) {
        Some(path) => path,
        None => link,
    }
}

/// One links-only block: the reconstructed title and the raw link.
pub open spec fn spec_link_block(link: Seq<char>) -> Seq<char> {
    title_prefix() + question_title(spec_link_path(link)) + "\n"@ + link
}

/// The links-only blocks for the first `k` candidate links: one block per
/// link that carries the question marker; other links consume their slot
/// without yielding a block.
pub open spec fn spec_link_blocks(links: Seq<Seq<char>>, k: int) -> Seq<Seq<char>>
    decreases k,
{
    if k <= 0 {
        Seq::empty()
    } else {
        spec_link_blocks(links, k - 1) + if has_substr(links[k - 1], question_marker()) {
            seq![spec_link_block(links[k - 1])]
        } else {
            Seq::empty()
        }
    }
}

/// The complete links-only output for a budget of `n` candidates.
pub open spec fn spec_links_only(links: Seq<Seq<char>>, n: int) -> Seq<char> {
    spec_join(spec_link_blocks(links, spec_budget(n, links.len() as int)), splitter_spec())
}

/// Renders the links-only output: one block per question link among the
/// first `restricted_length` candidates, holding the reconstructed title and
/// the raw link, joined with the divider.  A candidate without the question
/// marker consumes one slot of the budget but yields no block; running out
/// of links before the budget is spent is not a fault.
pub fn get_results_with_links_only(links: &Vec<String>, restricted_length: usize) -> (r: String)
    ensures
        r@ == spec_links_only(links.deep_view(), restricted_length as int),
{
    let ghost all: Seq<Seq<char>> = links.deep_view();
    let mut results: Vec<String> = Vec::new();
    let bound: usize = if restricted_length <= links.len() {
        restricted_length
    } else {
        links.len()
    };
    let mut index: usize = 0;
    while index < bound
        invariant
            index <= bound,
            bound == spec_budget(restricted_length as int, links@.len() as int),
            all == links.deep_view(),
            all.len() == links@.len(),
            forall|t: int| 0 <= t < all.len() ==> all[t] == links@[t]@,
            results.deep_view() == spec_link_blocks(all, index as int),
        decreases bound - index,
    {
        let link = &links[index];
        let ghost before: Seq<Seq<char>> = results.deep_view();
        if contains_substr(link.as_str(), "question") {
            let path = match url_path(link.as_str()) {
                Some(path) => path,
                None => link.clone(),
            };
            let title = extract_question(path.as_str());
            let block = String::from_str("Title - ").concat(title.as_str()).concat("\n").concat(
                link.as_str(),
            );
            results.push(block);
            proof {
                assert(results.deep_view() =~= before.push(spec_link_block(all[index as int])));
                assert(spec_link_blocks(all, index + 1 as int) =~= before.push(
                    spec_link_block(all[index as int]),
                ));
            }
        } else {
            proof {
                assert(spec_link_blocks(all, index + 1 as int) =~= before);
            }
        }
        index += 1;
    }
    join_blocks(&results, splitter())
}

/// One detailed-mode block: the header naming the link followed by the
/// rendered answer, or the placeholder when the fetch failed or no answer
/// could be extracted.
pub open spec fn spec_answer_block(
    link: Seq<char>,
    page: Option<Seq<char>>,
    mode: OutputMode,
    colorize: bool,
) -> Seq<char> {
    match page {
        Some(text) => match spec_parse_answer(text, mode, colorize) {
            Some(content) => answer_header_prefix() + link + "\n"@ + content,
            None => cant_get_prefix() + link,
        },
        None => cant_get_prefix() + link,
    }
}

/// The detailed-mode blocks for the first `k` candidate links: one block per
/// link that carries the question marker; other links consume their slot
/// without yielding a block.
pub open spec fn spec_answer_blocks(
    links: Seq<Seq<char>>,
    pages: Seq<Option<Seq<char>>>,
    k: int,
    mode: OutputMode,
    colorize: bool,
) -> Seq<Seq<char>>
    decreases k,
{
    if k <= 0 {
        Seq::empty()
    } else {
        spec_answer_blocks(links, pages, k - 1, mode, colorize) + if has_substr(
            links[k - 1],
            question_marker(),
        ) {
            seq![spec_answer_block(links[k - 1], pages[k - 1], mode, colorize)]
        } else {
            Seq::empty()
        }
    }
}

/// The complete output for a configuration: the links-only listing in
/// links-only mode, the joined answer blocks otherwise.
pub open spec fn spec_get_answers(
    links: Seq<Seq<char>>,
    pages: Seq<Option<Seq<char>>>,
    conf: Config,
) -> Seq<char> {
    if conf.mode is LinksOnly {
        spec_links_only(links, conf.numbers as int)
    } else {
        spec_join(
            spec_answer_blocks(
                links,
                pages,
                spec_budget(conf.numbers as int, links.len() as int),
                conf.mode,
                conf.colorize,
            ),
            splitter_spec(),
        )
    }
}

/// Assembles the final output from the candidate links and their
/// already-fetched pages.
///
/// `pages[i]` is the fetched HTML of candidate link `i`, `None` where the
/// fetch failed; entries of links that are skipped or beyond the budget are
/// never read.  Every processed question link yields exactly one block —
/// a failed fetch or a missing answer yields its placeholder — so link count
/// and block count stay in lockstep.
pub fn get_answers(links: &Vec<String>, pages: &Vec<Option<String>>, conf: &Config) -> (r: String)
    requires
        conf.mode != OutputMode::LinksOnly ==> pages@.len() == links@.len(),
    ensures
        r@ == spec_get_answers(links.deep_view(), pages.deep_view(), *conf),
{
    match conf.mode {
        OutputMode::LinksOnly => get_results_with_links_only(links, conf.numbers),
        _ => get_detailed_answer(links, pages, conf),
    }
}

/// Assembles the detailed output for the non-links-only modes: one labeled
/// block per question link within the budget, joined with the divider.
pub fn get_detailed_answer(links: &Vec<String>, pages: &Vec<Option<String>>, conf: &Config) -> (r:
    String)
    requires
        conf.mode != OutputMode::LinksOnly,
        pages@.len() == links@.len(),
    ensures
        r@ == spec_join(
            spec_answer_blocks(
                links.deep_view(),
                pages.deep_view(),
                spec_budget(conf.numbers as int, links.deep_view().len() as int),
                conf.mode,
                conf.colorize,
            ),
            splitter_spec(),
        ),
{
    let ghost all: Seq<Seq<char>> = links.deep_view();
    let ghost fetched: Seq<Option<Seq<char>>> = pages.deep_view();
    let mut results: Vec<String> = Vec::new();
    let bound: usize = if conf.numbers <= links.len() {
        conf.numbers
    } else {
        links.len()
    };
    let mut index: usize = 0;
    while index < bound
        invariant
            index <= bound,
            bound == spec_budget(conf.numbers as int, links@.len() as int),
            all == links.deep_view(),
            fetched == pages.deep_view(),
            all.len() == links@.len(),
            fetched.len() == pages@.len(),
            pages@.len() == links@.len(),
            conf.mode != OutputMode::LinksOnly,
            forall|t: int| 0 <= t < all.len() ==> all[t] == links@[t]@,
            forall|t: int| 0 <= t < fetched.len() ==> fetched[t] == #[trigger] pages@[t].deep_view(),
            results.deep_view() == spec_answer_blocks(
                all,
                fetched,
                index as int,
                conf.mode,
                conf.colorize,
            ),
        decreases bound - index,
    {
        let link = &links[index];
        let ghost before: Seq<Seq<char>> = results.deep_view();
        if contains_substr(link.as_str(), "question") {
            let block: String = match &pages[index] {
                Some(page) => match parse_answer(page, conf) {
                    Some(content) => String::from_str("- Answer from ").concat(
                        link.as_str(),
                    ).concat("\n").concat(content.as_str()),
                    None => String::from_str("Can't get answer from ").concat(link.as_str()),
                },
                None => String::from_str("Can't get answer from ").concat(link.as_str()),
            };
            results.push(block);
            proof {
                let expected = spec_answer_block(
                    all[index as int],
                    fetched[index as int],
                    conf.mode,
                    conf.colorize,
                );
                assert(results.deep_view() =~= before.push(expected));
                assert(spec_answer_blocks(all, fetched, index + 1 as int, conf.mode, conf.colorize)
                    =~= before.push(expected));
            }
        } else {
            proof {
                assert(spec_answer_blocks(all, fetched, index + 1 as int, conf.mode, conf.colorize)
                    =~= before);
            }
        }
        index += 1;
    }
    join_blocks(&results, splitter())
}

/// Absence law: a page without any answer element extracts to `None`,
/// whatever the mode and colorization ask for.
pub proof fn lemma_no_answer_none(page: Seq<char>, mode: OutputMode, colorize: bool)
    requires
        !has_answer_of(page),
    ensures
        spec_parse_answer(page, mode, colorize) is None,
{
}

/// Determinism law: extraction is a function of the page, the mode and the
/// colorization flag alone, so re-running it on an unchanged page yields an
/// identical result.  `parse_answer` ensures its result equals
/// `spec_parse_answer` of its inputs, so any two results of the same call
/// agree.
pub proof fn lemma_parse_answer_deterministic(
    page: Seq<char>,
    mode: OutputMode,
    colorize: bool,
    r1: Option<Seq<char>>,
    r2: Option<Seq<char>>,
)
    requires
        r1 == spec_parse_answer(page, mode, colorize),
        r2 == spec_parse_answer(page, mode, colorize),
    ensures
        r1 == r2,
{
}

/// How many of the first `k` candidate links carry the question marker.
pub open spec fn count_question_links(links: Seq<Seq<char>>, k: int) -> int
    decreases k,
{
    if k <= 0 {
        0
    } else {
        count_question_links(links, k - 1) + if has_substr(links[k - 1], question_marker()) {
            1int
        } else {
            0int
        }
    }
}

/// Block-count law: the detailed output holds exactly one block per question
/// link within the budget — a failed fetch or a missing answer still yields
/// its placeholder block — and hence never more blocks than the budget.
pub proof fn lemma_answer_block_count(
    links: Seq<Seq<char>>,
    pages: Seq<Option<Seq<char>>>,
    k: int,
    mode: OutputMode,
    colorize: bool,
)
    ensures
        spec_answer_blocks(links, pages, k, mode, colorize).len() == count_question_links(
            links,
            k,
        ),
        k >= 0 ==> count_question_links(links, k) <= k,
    decreases k,
{
    if k > 0 {
        lemma_answer_block_count(links, pages, k - 1, mode, colorize);
    }
}

/// The same count law for the links-only output.
pub proof fn lemma_link_block_count(links: Seq<Seq<char>>, k: int)
    ensures
        spec_link_blocks(links, k).len() == count_question_links(links, k),
        k >= 0 ==> count_question_links(links, k) <= k,
    decreases k,
{
    if k > 0 {
        lemma_link_block_count(links, k - 1);
    }
}

/// Paragraph-boundary law: in the colorized detailed reconstruction, a prose
/// paragraph followed by a preformatted code block followed by another prose
/// paragraph yields the two paragraphs each closed by a blank line and the
/// colorized code closed by a newline, in page order.
pub proof fn lemma_detailed_preserves_paragraphs(
    children: Seq<(Option<Seq<char>>, Seq<char>)>,
    tags: Seq<Seq<char>>,
)
    requires
        children.len() == 3,
        children[0].0 matches Some(name) && name != "pre"@ && name != "code"@,
        children[1].0 == Some("pre"@),
        children[2].0 matches Some(name) && name != "pre"@ && name != "code"@,
    ensures
        spec_render_children(children, tags, 3) == (children[0].1 + "\n\n"@) + (spec_colorized(
            children[1].1,
            tags,
        ) + "\n"@) + (children[2].1 + "\n\n"@),
{
    assert(spec_render_child(children[0], tags) == children[0].1 + "\n\n"@);
    assert(spec_render_child(children[1], tags) == spec_colorized(children[1].1, tags) + "\n"@);
    assert(spec_render_child(children[2], tags) == children[2].1 + "\n\n"@);
    assert(spec_render_children(children, tags, 0) == Seq::<char>::empty());
    assert(spec_render_children(children, tags, 1) == spec_render_children(children, tags, 0)
        + spec_render_child(children[0], tags));
    assert(spec_render_children(children, tags, 2) == spec_render_children(children, tags, 1)
        + spec_render_child(children[1], tags));
    assert(spec_render_children(children, tags, 3) == spec_render_children(children, tags, 2)
        + spec_render_child(children[2], tags));
    assert(spec_render_children(children, tags, 3) =~= (children[0].1 + "\n\n"@) + (spec_colorized(
        children[1].1,
        tags,
    ) + "\n"@) + (children[2].1 + "\n\n"@));
}

} // verus!
