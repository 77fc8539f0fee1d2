//! Bounded, display-only previews of the citations attached to a request.
use vstd::prelude::*;
use vstd::string::{StrSliceExecFns, StringExecFns};

verus! {

/// How many citations a preview shows at most.
pub const PREVIEW_LIMIT: usize = 3;

/// Longest snippet shown whole, in characters.
pub const SNIPPET_LIMIT: usize = 80;

/// A source reference supplied by the caller.
pub struct Citation {
    pub url: String,
    pub title: Option<String>,
    pub snippet: String,
}

/// Count and preview of a list of citations.
pub struct CitationSummary {
    pub count: usize,
    pub preview: Vec<String>,
}

pub open spec fn ellipsis() -> Seq<char> {
    "\u{2026}"@
}

pub open spec fn separator() -> Seq<char> {
    " | "@
}

/// A snippet as shown: whole up to the limit, else its first characters and an ellipsis.
pub open spec fn shown_snippet(s: Seq<char>) -> Seq<char> {
    if s.len() <= SNIPPET_LIMIT {
        s
    } else {
        s.subrange(0, SNIPPET_LIMIT as int) + ellipsis()
    }
}

pub open spec fn shown_title(t: Option<String>) -> Seq<char> {
    match t {
        Some(s) => s@,
        None => "untitled"@,
    }
}

/// The preview line of one citation: `title | url | snippet`.
pub open spec fn preview_line(c: Citation) -> Seq<char> {
    shown_title(c.title) + separator() + c.url@ + separator() + shown_snippet(c.snippet@)
}

/// The preview lines of the first citations, in order.
pub open spec fn preview_lines(cs: Seq<Citation>) -> Seq<Seq<char>> {
    cs.take(min_nat(cs.len(), PREVIEW_LIMIT as nat) as int).map_values(
        |c: Citation| preview_line(c),
    )
}

pub open spec fn min_nat(a: nat, b: nat) -> nat {
    if a <= b {
        a
    } else {
        b
    }
}

/// Cuts a snippet longer than the limit to its first characters, followed by an ellipsis.
/// Works on characters, so a multi-byte character is never split.
pub fn truncate_snippet(s: &str) -> (r: String)
    ensures
        r@ == shown_snippet(s@),
{
    let n = s.unicode_len();
    if n <= SNIPPET_LIMIT {
        String::from_str(s)
    } else {
        let mut r = String::from_str(s.substring_char(0, SNIPPET_LIMIT));
        r.append("\u{2026}");
        r
    }
}

/// The preview line of one citation.
pub fn citation_preview(c: &Citation) -> (r: String)
    ensures
        r@ == preview_line(*c),
{
    let mut r = match &c.title {
        Some(t) => String::from_str(t.as_str()),
        None => String::from_str("untitled"),
    };
    r.append(" | ");
    r.append(c.url.as_str());
    r.append(" | ");
    let snippet = truncate_snippet(c.snippet.as_str());
    r.append(snippet.as_str());
    proof {
        assert(r@ =~= preview_line(*c));
    }
    r
}

/// Counts all citations and previews the first few, in their order.
pub fn summarize_citations(citations: &Vec<Citation>) -> (r: CitationSummary)
    ensures
        r.count == citations@.len(),
        r.preview@.map_values(|s: String| s@) == preview_lines(citations@),
{
    let n = citations.len();
    let limit: usize = if n < PREVIEW_LIMIT {
        n
    } else {
        PREVIEW_LIMIT
    };
    let mut preview: Vec<String> = Vec::new();
    let mut i: usize = 0;
    while i < limit
        invariant
            limit <= n,
            n == citations@.len(),
            limit == min_nat(n as nat, PREVIEW_LIMIT as nat),
            i <= limit,
            preview@.len() == i,
            forall|j: int| 0 <= j < i ==> #[trigger] preview@[j]@ == preview_line(citations@[j]),
        decreases limit - i,
    {
        let line = citation_preview(&citations[i]);
        preview.push(line);
        i = i + 1;
    }
    proof {
        assert(preview@.map_values(|s: String| s@) =~= preview_lines(citations@));
    }
    CitationSummary { count: n, preview }
}

/// A list of `n` citations previews as `min(n, 3)` lines, the first ones in their order.
pub proof fn lemma_preview_bound(citations: Seq<Citation>)
    ensures
        preview_lines(citations).len() == min_nat(citations.len(), PREVIEW_LIMIT as nat),
        preview_lines(citations).len() <= PREVIEW_LIMIT,
        forall|i: int|
            0 <= i < preview_lines(citations).len() ==> #[trigger] preview_lines(citations)[i]
                == preview_line(citations[i]),
{
}

/// A snippet within the limit is shown unchanged; a longer one is shown as exactly its
/// first characters up to the limit and an ellipsis.
pub proof fn lemma_snippet_truncation(s: Seq<char>)
    ensures
        s.len() <= SNIPPET_LIMIT ==> shown_snippet(s) == s,
        s.len() > SNIPPET_LIMIT ==> shown_snippet(s).len() == SNIPPET_LIMIT + 1,
        s.len() > SNIPPET_LIMIT ==> shown_snippet(s).subrange(0, SNIPPET_LIMIT as int)
            == s.subrange(0, SNIPPET_LIMIT as int),
        s.len() > SNIPPET_LIMIT ==> shown_snippet(s).last() == '\u{2026}',
{
    reveal_strlit("\u{2026}");
    if s.len() > SNIPPET_LIMIT {
        assert(shown_snippet(s).subrange(0, SNIPPET_LIMIT as int) =~= s.subrange(
            0,
            SNIPPET_LIMIT as int,
        ));
    }
}

} // verus!
