//! The regular-expression engine, as far as this library relies on it.
//!
//! Patterns are compiled and run by the `regex` crate. What it answers is
//! not derived here: it is given a name, and everything else in the library
//! is proved relative to those names.

use crate::text::on_char_boundaries;
use regex::Regex;
use vstd::prelude::*;

verus! {

/// The error with which `regex` refuses a pattern.
#[verifier::external_type_specification]
#[verifier::external_body]
pub struct ExRegexError(regex::Error);

/// A match as a half-open range of byte offsets into the scanned text.
#[derive(Clone, Copy, Debug, PartialEq, Eq)]
pub struct Span {
    pub start: usize,
    pub end: usize,
}

/// Whether `regex::Regex::new` accepts `pattern`.
pub uninterp spec fn pattern_compiles(pattern: Seq<char>) -> bool;

/// The matches that `regex::Regex::find_iter` yields for `pattern` in
/// `content`, in the order in which it yields them.
pub uninterp spec fn pattern_spans(pattern: Seq<char>, content: Seq<char>) -> Seq<Span>;

/// Every span is a byte range of `content` between character boundaries.
pub open spec fn spans_fit(spans: Seq<Span>, content: Seq<char>) -> bool {
    forall|i: int|
        0 <= i < spans.len() ==> on_char_boundaries(
            content,
            (#[trigger] spans[i]).start as int,
            spans[i].end as int,
        )
}

/// The spans come from left to right and none reaches into a later one.
pub open spec fn spans_ascend(spans: Seq<Span>) -> bool {
    forall|i: int, j: int|
        0 <= i < j < spans.len() ==> (#[trigger] spans[i]).end <= (#[trigger] spans[j]).start
}

/// Compiles `pattern` with `regex::Regex::new` and collects what
/// `Regex::find_iter` yields on `content`, each match reduced to its
/// `start()` and `end()`.
///
/// Trusted, as the crate documents it: the pattern is refused or accepted
/// whatever the content; the matches are successive and do not overlap; and
/// the offsets of each satisfy `start <= end` and fall on UTF-8 boundaries of
/// the content, so that they can slice it.
#[verifier::external_body]
pub(crate) fn find_spans(pattern: &str, content: &str) -> (found: Result<Vec<Span>, regex::Error>)
    ensures
        found is Ok <==> pattern_compiles(pattern@),
        found matches Ok(spans) ==> spans@ == pattern_spans(pattern@, content@),
        found matches Ok(spans) ==> spans_fit(spans@, content@) && spans_ascend(spans@),
{
    let compiled = Regex::new(pattern)?;
    Ok(compiled.find_iter(content).map(|m| Span { start: m.start(), end: m.end() }).collect())
}

} // verus!
