//! Verified string helpers: substring search, path-segment extraction,
//! dash-to-space rewriting, and joining blocks with the output divider.

use vstd::prelude::*;
use vstd::string::*;

verus! {

/// Relies on `String::push` (std): appends the given character to the end of
/// the string.
pub assume_specification[ String::push ](s: &mut String, ch: char)
    ensures
        final(s)@ == old(s)@.push(ch),
;

/// The divider printed between output blocks.  It is deliberately a string
/// that normal prose or code does not produce.
pub open spec fn splitter_spec() -> Seq<char> {
    "\n^_^ ==================================================== ^_^\n\n"@
}

/// The divider printed between output blocks.
pub fn splitter() -> (r: &'static str)
    ensures
        r@ == splitter_spec(),
{
    "\n^_^ ==================================================== ^_^\n\n"
}

/// The marker that identifies a candidate link as a question page.
pub open spec fn question_marker() -> Seq<char> {
    "question"@
}

/// `sub` occurs in `s` starting at position `i`.
pub open spec fn has_substr_at(s: Seq<char>, sub: Seq<char>, i: int) -> bool {
    0 <= i && i + sub.len() <= s.len() && s.subrange(i, i + sub.len() as int) == sub
}

/// `sub` occurs somewhere in `s`.
pub open spec fn has_substr(s: Seq<char>, sub: Seq<char>) -> bool {
    exists|i: int| has_substr_at(s, sub, i)
}

/// Substring search: decides `has_substr(s@, sub@)`.
pub fn contains_substr(s: &str, sub: &str) -> (b: bool)
    ensures
        b == has_substr(s@, sub@),
{
    let n = s.unicode_len();
    let m = sub.unicode_len();
    if m > n {
        proof {
            assert(!has_substr(s@, sub@)) by {
                if has_substr(s@, sub@) {
                    let k = choose|k: int| has_substr_at(s@, sub@, k);
                    assert(k >= 0 && k + sub@.len() <= s@.len());
                }
            }
        }
        return false;
    }
    let mut i: usize = 0;
    while i <= n - m
        invariant
            m <= n,
            n == s@.len(),
            m == sub@.len(),
            i <= n - m + 1,
            forall|k: int| 0 <= k < i ==> !has_substr_at(s@, sub@, k),
        decreases n - m + 1 - i,
    {
        let mut j: usize = 0;
        while j < m && s.get_char(i + j) == sub.get_char(j)
            invariant
                m <= n,
                n == s@.len(),
                m == sub@.len(),
                i <= n - m,
                j <= m,
                forall|t: int| 0 <= t < j ==> s@[i + t] == sub@[t],
            decreases m - j,
        {
            j += 1;
        }
        if j == m {
            proof {
                assert(s@.subrange(i as int, i + m as int) =~= sub@);
                assert(has_substr_at(s@, sub@, i as int));
            }
            return true;
        }
        proof {
            assert(!has_substr_at(s@, sub@, i as int)) by {
                if s@.subrange(i as int, i + sub@.len() as int) == sub@ {
                    assert(s@.subrange(i as int, i + sub@.len() as int)[j as int] == s@[i + j]);
                }
            }
        }
        i += 1;
    }
    proof {
        assert(!has_substr(s@, sub@)) by {
            if has_substr(s@, sub@) {
                let k = choose|k: int| has_substr_at(s@, sub@, k);
                assert(k < i);
            }
        }
    }
    false
}

/// The part of `s` after its last `'/'`; all of `s` when it has no `'/'`.
pub open spec fn last_segment(s: Seq<char>) -> Seq<char>
    decreases s.len(),
{
    if s.len() == 0 {
        s
    } else if s.last() == '/' {
        Seq::empty()
    } else {
        last_segment(s.drop_last()).push(s.last())
    }
}

/// Every `'-'` replaced by a space; other characters kept.
pub open spec fn dash_to_space(s: Seq<char>) -> Seq<char> {
    s.map_values(|c: char| if c == '-' { ' ' } else { c })
}

/// The human-readable title reconstructed from a URL path: the last path
/// segment with hyphens turned into spaces.
pub open spec fn question_title(path: Seq<char>) -> Seq<char> {
    dash_to_space(last_segment(path))
}

/// `last_segment` is the suffix after the last slash: `k` is the position of
/// the last `'/'` of `s`, or `-1` when `s` has none.
proof fn lemma_last_segment_suffix(s: Seq<char>, k: int)
    requires
        -1 <= k < s.len(),
        k >= 0 ==> s[k] == '/',
        forall|t: int| k < t < s.len() ==> s[t] != '/',
    ensures
        last_segment(s) == s.subrange(k + 1, s.len() as int),
    decreases s.len(),
{
    if k + 1 == s.len() {
        assert(last_segment(s) =~= s.subrange(k + 1, s.len() as int));
    } else {
        assert(s[s.len() - 1] != '/');
        lemma_last_segment_suffix(s.drop_last(), k);
        assert(last_segment(s) =~= s.subrange(k + 1, s.len() as int));
    }
}

/// Reconstructs a question title from a URL path: the last `'/'`-separated
/// segment, with each hyphen replaced by a space.
pub fn extract_question(path: &str) -> (r: String)
    ensures
        r@ == question_title(path@),
{
    let n = path.unicode_len();
    let mut start: usize = 0;
    let mut i: usize = 0;
    while i < n
        invariant
            i <= n,
            n == path@.len(),
            start <= i,
            start >= 1 ==> path@[start - 1] == '/',
            forall|t: int| start <= t < i ==> path@[t] != '/',
        decreases n - i,
    {
        if path.get_char(i) == '/' {
            start = i + 1;
        }
        i += 1;
    }
    let mut r = String::new();
    let mut j: usize = start;
    while j < n
        invariant
            start <= j <= n,
            n == path@.len(),
            r@.len() == j - start,
            forall|t: int|
                start <= t < j ==> r@[t - start] == (if path@[t] == '-' {
                    ' '
                } else {
                    path@[t]
                }),
        decreases n - j,
    {
        let c = path.get_char(j);
        if c == '-' {
            r.push(' ');
        } else {
            r.push(c);
        }
        j += 1;
    }
    proof {
        lemma_last_segment_suffix(path@, start as int - 1);
        assert(r@ =~= question_title(path@));
    }
    r
}

/// The blocks joined with `sep` between consecutive blocks.
pub open spec fn spec_join(blocks: Seq<Seq<char>>, sep: Seq<char>) -> Seq<char>
    decreases blocks.len(),
{
    if blocks.len() == 0 {
        Seq::empty()
    } else if blocks.len() == 1 {
        blocks[0]
    } else {
        blocks[0] + sep + spec_join(blocks.drop_first(), sep)
    }
}

/// Joining after appending one more block extends the joined string by a
/// separator (when anything was there before) and the new block.
proof fn lemma_join_push(blocks: Seq<Seq<char>>, b: Seq<char>, sep: Seq<char>)
    ensures
        blocks.len() == 0 ==> spec_join(blocks.push(b), sep) == b,
        blocks.len() > 0 ==> spec_join(blocks.push(b), sep) == spec_join(blocks, sep) + sep + b,
    decreases blocks.len(),
{
    if blocks.len() == 0 {
        assert(blocks.push(b).len() == 1);
        assert(spec_join(blocks.push(b), sep) == blocks.push(b)[0]);
        assert(blocks.push(b)[0] == b);
    } else {
        assert(blocks.push(b).drop_first() =~= blocks.drop_first().push(b));
        lemma_join_push(blocks.drop_first(), b, sep);
        if blocks.len() == 1 {
            assert(spec_join(blocks.push(b), sep) == blocks[0] + sep + b);
            assert(spec_join(blocks, sep) == blocks[0]);
        } else {
            assert(spec_join(blocks.push(b), sep) == blocks[0] + sep + (spec_join(
                blocks.drop_first(),
                sep,
            ) + sep + b));
            assert(blocks[0] + sep + (spec_join(blocks.drop_first(), sep) + sep + b) =~= (blocks[0]
                + sep + spec_join(blocks.drop_first(), sep)) + sep + b);
        }
    }
}

/// Joins the blocks with `sep` between consecutive blocks.
pub fn join_blocks(blocks: &Vec<String>, sep: &str) -> (r: String)
    ensures
        r@ == spec_join(blocks.deep_view(), sep@),
{
    let mut r = String::new();
    let mut i: usize = 0;
    while i < blocks.len()
        invariant
            i <= blocks.len(),
            blocks.deep_view().len() == blocks@.len(),
            forall|t: int| 0 <= t < blocks@.len() ==> blocks.deep_view()[t] == blocks@[t]@,
            r@ == spec_join(blocks.deep_view().take(i as int), sep@),
        decreases blocks.len() - i,
    {
        if i > 0 {
            r.append(sep);
        }
        r.append(blocks[i].as_str());
        proof {
            lemma_join_push(blocks.deep_view().take(i as int), blocks.deep_view()[i as int], sep@);
            assert(blocks.deep_view().take(i + 1 as int) =~= blocks.deep_view().take(
                i as int,
            ).push(blocks.deep_view()[i as int]));
        }
        i += 1;
    }
    proof {
        assert(blocks.deep_view().take(blocks@.len() as int) =~= blocks.deep_view());
    }
    r
}

} // verus!
