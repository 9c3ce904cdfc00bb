//! Syntax highlighting: a verified first-match language guess over the
//! question's topic tags, around a trusted rendering call into syntect.

use syntect::easy::HighlightLines;
use syntect::highlighting::ThemeSet;
use syntect::parsing::SyntaxSet;
use syntect::util::as_24_bit_terminal_escaped;
use syntect::util::LinesWithEndings;
use vstd::prelude::*;

verus! {

/// The grammar name that syntect's bundled default set associates with a
/// hint token, when it knows one.
pub uninterp spec fn token_syntax_of(tag: Seq<char>) -> Option<Seq<char>>;

/// The ANSI-escaped rendering of a code block under the grammar of the given
/// name (`None` renders as plain text) and the fixed dark theme.
pub uninterp spec fn rendered_of(code: Seq<char>, syntax: Option<Seq<char>>) -> Seq<char>;

/// Relies on syntect's `SyntaxSet::load_defaults_newlines` and
/// `SyntaxSet::find_syntax_by_token`: the name of the grammar the bundled
/// default set finds for the token (by file extension, then by
/// case-insensitive name), or `None` when no grammar matches.  The bundled
/// set is fixed at build time, so the result depends on the token alone.
#[verifier::external_body]
fn syntax_for_token(tag: &str) -> (r: Option<String>)
    ensures
        r.deep_view() == token_syntax_of(tag@),
{
    let ss = SyntaxSet::load_defaults_newlines();
    ss.find_syntax_by_token(tag).map(|s| s.name.clone())
}

/// Relies on syntect's `HighlightLines::highlight_line` over the bundled
/// default grammars with the fixed `base16-eighties.dark` theme, and on
/// `as_24_bit_terminal_escaped`: renders the code line by line into one
/// ANSI-escaped string.  The highlighter carries parser state from each line
/// into the next, so the block is rendered in a single call; the rendering
/// is deterministic in `code` and the grammar name (`None` means plain
/// text), which is what `rendered_of` names.
#[verifier::external_body]
fn render_with(code: &str, syntax_name: &Option<String>) -> (r: String)
    ensures
        r@ == rendered_of(code@, syntax_name.deep_view()),
{
    let ss = SyntaxSet::load_defaults_newlines();
    let ts = ThemeSet::load_defaults();
    let syntax = match syntax_name {
        Some(n) => ss.find_syntax_by_name(n).unwrap_or_else(|| ss.find_syntax_plain_text()),
        None => ss.find_syntax_plain_text(),
    };
    let mut h = HighlightLines::new(syntax, &ts.themes["base16-eighties.dark"]);
    let mut out = String::new();
    for line in LinesWithEndings::from(code) {
        match h.highlight_line(line, &ss) {
            Ok(spans) => out.push_str(&as_24_bit_terminal_escaped(&spans, false)),
            Err(_) => out.push_str(line),
        }
    }
    out
}

/// The first-match language guess: the grammar of the first tag that
/// resolves to one, or `None` when no tag does.
pub open spec fn chosen_syntax(tags: Seq<Seq<char>>) -> Option<Seq<char>>
    decreases tags.len(),
{
    if tags.len() == 0 {
        None
    } else if token_syntax_of(tags[0]) is Some {
        token_syntax_of(tags[0])
    } else {
        chosen_syntax(tags.drop_first())
    }
}

/// Probes the hint tags in page order and returns the grammar name of the
/// first tag the default set knows; `None` when no tag matches.  This is a
/// first-match policy, not a best-match one: tag order is the tie-break.
pub fn guess_syntax(possible_tags: &Vec<String>) -> (r: Option<String>)
    ensures
        r.deep_view() == chosen_syntax(possible_tags.deep_view()),
{
    let ghost all: Seq<Seq<char>> = possible_tags.deep_view();
    proof {
        assert(all.skip(0) =~= all);
    }
    let mut i: usize = 0;
    while i < possible_tags.len()
        invariant
            i <= possible_tags@.len(),
            all == possible_tags.deep_view(),
            all.len() == possible_tags@.len(),
            forall|t: int| 0 <= t < all.len() ==> all[t] == possible_tags@[t]@,
            chosen_syntax(all) == chosen_syntax(all.skip(i as int)),
        decreases possible_tags@.len() - i,
    {
        let s = syntax_for_token(possible_tags[i].as_str());
        proof {
            assert(all.skip(i as int)[0] == all[i as int]);
        }
        match s {
            Some(name) => {
                return Some(name);
            },
            None => {},
        }
        proof {
            assert(all.skip(i as int).drop_first() =~= all.skip(i + 1 as int));
        }
        i += 1;
    }
    proof {
        assert(all.skip(i as int).len() == 0);
    }
    None
}

/// The colorized rendering of a code block under the first-match guess.
pub open spec fn spec_colorized(code: Seq<char>, tags: Seq<Seq<char>>) -> Seq<char> {
    rendered_of(code, chosen_syntax(tags))
}

/// Renders a code block as one ANSI-escaped, colorized string, guessing the
/// language from the question's topic tags.  An unrecognized set of hints
/// never fails the call: it degrades to plain-text rendering.
pub fn colorized_code(code: &String, possible_tags: &Vec<String>) -> (r: String)
    ensures
        r@ == spec_colorized(code@, possible_tags.deep_view()),
{
    let syntax = guess_syntax(possible_tags);
    render_with(code.as_str(), &syntax)
}

/// First-match law: when every tag before position `i` resolves to no known
/// grammar and the tag at `i` resolves to one, the guess is exactly the
/// grammar of the tag at `i`, independent of what any later tag would give.
pub proof fn lemma_first_match(tags: Seq<Seq<char>>, i: int)
    requires
        0 <= i < tags.len(),
        forall|j: int| 0 <= j < i ==> token_syntax_of(#[trigger] tags[j]) is None,
        token_syntax_of(tags[i]) is Some,
    ensures
        chosen_syntax(tags) == token_syntax_of(tags[i]),
    decreases i,
{
    if i > 0 {
        assert(forall|j: int|
            0 <= j < i - 1 ==> token_syntax_of(#[trigger] tags.drop_first()[j]) is None) by {
            assert(forall|j: int| 0 <= j < i - 1 ==> #[trigger] tags.drop_first()[j] == tags[j + 1]);
        }
        assert(tags.drop_first()[i - 1] == tags[i]);
        lemma_first_match(tags.drop_first(), i - 1);
    }
}

/// Fallback law: when no tag resolves to a known grammar, the guess is
/// `None`, and colorizing renders the code under the plain-text grammar.
pub proof fn lemma_fallback_plain(code: Seq<char>, tags: Seq<Seq<char>>)
    requires
        forall|j: int| 0 <= j < tags.len() ==> token_syntax_of(#[trigger] tags[j]) is None,
    ensures
        chosen_syntax(tags) is None,
        spec_colorized(code, tags) == rendered_of(code, None),
    decreases tags.len(),
{
    if tags.len() > 0 {
        assert(forall|j: int|
            0 <= j < tags.drop_first().len() ==> token_syntax_of(
                #[trigger] tags.drop_first()[j],
            ) is None) by {
            assert(forall|j: int|
                0 <= j < tags.drop_first().len() ==> #[trigger] tags.drop_first()[j] == tags[j
                    + 1]);
        }
        lemma_fallback_plain(code, tags.drop_first());
    }
}

} // verus!
