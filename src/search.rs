//! Results of a text search over a project, and the decisions taken on the
//! search tool's exit status and on each record it prints.
use vstd::prelude::*;
use vstd::string::StrSliceExecFns;

verus! {

/// Byte span of one match within a line.
#[derive(Clone, Copy, PartialEq, Eq, Structural, Debug)]
pub struct SearchMatch {
    pub start: usize,
    pub end: usize,
}

/// One matching line.
pub struct SearchResult {
    pub path: String,
    pub line: usize,
    pub content: String,
    pub matches: Vec<SearchMatch>,
}

/// What a finished search run amounts to.
#[derive(Clone, Copy, PartialEq, Eq, Structural, Debug)]
pub enum SearchExit {
    /// The tool succeeded: its output holds the records.
    Records,
    /// The tool found nothing: the result is empty.
    NoMatches,
    /// The tool failed: its error output is the error.
    Failed,
}

/// The exit code by which the search tool reports that nothing matched.
pub const NO_MATCH_EXIT_CODE: i32 = 1;

/// The record type that reports a matching line.
pub const MATCH_RECORD: &'static str = "match";

/// Classifies a finished run of the search tool.
pub fn classify_search_exit(success: bool, code: Option<i32>) -> (r: SearchExit)
    ensures
        r == (if success {
            SearchExit::Records
        } else if code == Some(NO_MATCH_EXIT_CODE) {
            SearchExit::NoMatches
        } else {
            SearchExit::Failed
        }),
{
    if success {
        SearchExit::Records
    } else {
        match code {
            Some(c) => if c == NO_MATCH_EXIT_CODE {
                SearchExit::NoMatches
            } else {
                SearchExit::Failed
            },
            None => SearchExit::Failed,
        }
    }
}

/// The submatches that carry both bounds, in order.
pub open spec fn complete_spans(bounds: Seq<(Option<u64>, Option<u64>)>) -> Seq<SearchMatch>
    decreases bounds.len(),
{
    if bounds.len() == 0 {
        Seq::empty()
    } else {
        let rest = complete_spans(bounds.drop_last());
        match bounds.last() {
            (Some(s), Some(e)) => rest.push(SearchMatch { start: s as usize, end: e as usize }),
            _ => rest,
        }
    }
}

/// Keeps the submatches whose start and end are both given.
pub fn collect_matches(bounds: &Vec<(Option<u64>, Option<u64>)>) -> (r: Vec<SearchMatch>)
    ensures
        r@ == complete_spans(bounds@),
{
    let mut r: Vec<SearchMatch> = Vec::new();
    let mut i: usize = 0;
    while i < bounds.len()
        invariant
            i <= bounds@.len(),
            r@ == complete_spans(bounds@.subrange(0, i as int)),
        decreases bounds@.len() - i,
    {
        assert(bounds@.subrange(0, i + 1).drop_last() =~= bounds@.subrange(0, i as int));
        match bounds[i] {
            (Some(s), Some(e)) => {
                r.push(SearchMatch { start: s as usize, end: e as usize });
            },
            _ => {},
        }
        i = i + 1;
    }
    assert(bounds@.subrange(0, bounds@.len() as int) =~= bounds@);
    r
}

/// Builds the result for one record of the tool's output: only `match`
/// records give one; a missing path or text reads as empty, a missing line
/// number as zero.
pub fn search_record(
    kind: &str,
    path: Option<String>,
    line: Option<u64>,
    content: Option<String>,
    bounds: &Vec<(Option<u64>, Option<u64>)>,
) -> (r: Option<SearchResult>)
    ensures
        kind@ != MATCH_RECORD@ ==> r is None,
        kind@ == MATCH_RECORD@ ==> (r matches Some(res) && res.path@ == (match path {
            Some(p) => p@,
            None => Seq::<char>::empty(),
        }) && res.line == (match line {
            Some(n) => n as usize,
            None => 0usize,
        }) && res.content@ == (match content {
            Some(c) => c@,
            None => Seq::<char>::empty(),
        }) && res.matches@ == complete_spans(bounds@)),
{
    if !str_eq(kind, MATCH_RECORD) {
        return None;
    }
    let path = match path {
        Some(p) => p,
        None => String::new(),
    };
    let line = match line {
        Some(n) => n as usize,
        None => 0,
    };
    let content = match content {
        Some(c) => c,
        None => String::new(),
    };
    Some(SearchResult { path, line, content, matches: collect_matches(bounds) })
}

/// Whether two strings hold the same characters.
fn str_eq(a: &str, b: &str) -> (r: bool)
    ensures
        r == (a@ == b@),
{
    let n = a.unicode_len();
    if n != b.unicode_len() {
        return false;
    }
    let mut i: usize = 0;
    while i < n
        invariant
            n == a@.len() == b@.len(),
            i <= n,
            a@.subrange(0, i as int) == b@.subrange(0, i as int),
        decreases n - i,
    {
        if a.get_char(i) != b.get_char(i) {
            assert(a@[i as int] != b@[i as int]);
            return false;
        }
        assert(a@.subrange(0, i + 1) =~= a@.subrange(0, i as int).push(a@[i as int]));
        assert(b@.subrange(0, i + 1) =~= b@.subrange(0, i as int).push(b@[i as int]));
        i = i + 1;
    }
    assert(a@ =~= a@.subrange(0, n as int));
    assert(b@ =~= b@.subrange(0, n as int));
    true
}

} // verus!
