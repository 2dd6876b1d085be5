//! Applying one pattern to one text, and the records that come of it.

use crate::matcher::{find_spans, pattern_compiles, pattern_spans, spans_fit, Span};
use crate::patterns::{credit_card_detection, credit_card_spec, email_detection, email_spec};
use crate::patterns::{ssn_detection, ssn_spec, PatternView, RegexDetection};
use crate::text::{byte_len, slice_text, span_text};
use vstd::prelude::*;
use vstd::string::StringExecFns;
use vstd::utf8::{encode_utf8, encode_utf8_decode_utf8};

verus! {

/// The confidence of a match that a pattern decides exactly, in percent.
pub const EXACT_SCORE_PERCENT: u8 = 100;

/// One located occurrence of a pattern in a text.
///
/// `start..end` is the half-open range of byte offsets at which `text`
/// stands in the scanned text.
#[derive(Clone, Debug, PartialEq, Eq)]
pub struct DetectionResponse {
    pub start: usize,
    pub end: usize,
    pub text: String,
    pub detection_type: String,
    pub detection: String,
    pub score_percent: u8,
}

/// What a `DetectionResponse` holds, as mathematical values.
pub struct DetectionView {
    pub start: int,
    pub end: int,
    pub text: Seq<char>,
    pub detection_type: Seq<char>,
    pub detection: Seq<char>,
    pub score_percent: int,
}

impl View for DetectionResponse {
    type V = DetectionView;

    open spec fn view(&self) -> DetectionView {
        DetectionView {
            start: self.start as int,
            end: self.end as int,
            text: self.text@,
            detection_type: self.detection_type@,
            detection: self.detection@,
            score_percent: self.score_percent as int,
        }
    }
}

impl DeepView for DetectionResponse {
    type V = DetectionView;

    open spec fn deep_view(&self) -> DetectionView {
        self@
    }
}

/// A pattern that `regex` refused to compile.
#[derive(Clone, Debug, PartialEq, Eq)]
pub struct PatternCompileError {
    pub pattern: String,
}

impl View for PatternCompileError {
    type V = Seq<char>;

    open spec fn view(&self) -> Seq<char> {
        self.pattern@
    }
}

impl DeepView for PatternCompileError {
    type V = Seq<char>;

    open spec fn deep_view(&self) -> Seq<char> {
        self@
    }
}

impl PatternCompileError {
    /// What to tell a reader of the error: that the pattern is invalid, and
    /// the pattern.
    pub fn message(&self) -> (message: String)
        ensures
            message@ == "invalid regex pattern: "@ + self@,
    {
        "invalid regex pattern: ".to_owned().concat(self.pattern.as_str())
    }
}

/// The record for one span that `pattern` matched in `content`.
pub open spec fn shape(pattern: PatternView, content: Seq<char>, span: Span) -> DetectionView {
    DetectionView {
        start: span.start as int,
        end: span.end as int,
        text: span_text(content, span.start as int, span.end as int),
        detection_type: pattern.detection_type,
        detection: pattern.detection,
        score_percent: EXACT_SCORE_PERCENT as int,
    }
}

/// The records for `spans`, one for each and in their order.
pub open spec fn shape_all(pattern: PatternView, content: Seq<char>, spans: Seq<Span>) -> Seq<
    DetectionView,
> {
    Seq::new(spans.len(), |i: int| shape(pattern, content, spans[i]))
}

/// What applying `pattern` to `content` gives: the records of all its
/// matches, or the pattern text back where it does not compile.
pub open spec fn match_spec(pattern: PatternView, content: Seq<char>) -> Result<
    Seq<DetectionView>,
    Seq<char>,
> {
    if pattern_compiles(pattern.regex) {
        Ok(shape_all(pattern, content, pattern_spans(pattern.regex, content)))
    } else {
        Err(pattern.regex)
    }
}

/// The view of what `regex_match` returns.
pub open spec fn match_view(outcome: Result<Vec<DetectionResponse>, PatternCompileError>) -> Result<
    Seq<DetectionView>,
    Seq<char>,
> {
    match outcome {
        Ok(found) => Ok(found.deep_view()),
        Err(refused) => Err(refused@),
    }
}

/// Every record lies within `content`, holds the text of its own range, and
/// ends before the next one begins.
pub open spec fn detections_in_order(found: Seq<DetectionView>, content: Seq<char>) -> bool {
    &&& forall|i: int|
        0 <= i < found.len() ==> {
            &&& 0 <= (#[trigger] found[i]).start <= found[i].end <= byte_len(content)
            &&& found[i].text == span_text(content, found[i].start, found[i].end)
        }
    &&& forall|i: int, j: int|
        0 <= i < j < found.len() ==> (#[trigger] found[i]).end <= (#[trigger] found[j]).start
}

/// Turns the spans that a pattern matched in `content` into records: the
/// offsets of each span, the text that `content` holds there, and the
/// classification of `detection`.
pub fn shape_detections(detection: &RegexDetection, content: &str, spans: &Vec<Span>) -> (found:
    Vec<DetectionResponse>)
    requires
        spans_fit(spans@, content@),
    ensures
        found.deep_view() == shape_all(detection@, content@, spans@),
{
    let mut found: Vec<DetectionResponse> = Vec::new();
    let mut i: usize = 0;
    while i < spans.len()
        invariant
            spans_fit(spans@, content@),
            i <= spans@.len(),
            found@.len() == i,
            forall|k: int| 0 <= k < i ==> (#[trigger] found@[k])@ == shape(detection@, content@, spans@[k]),
        decreases spans@.len() - i,
    {
        let span = spans[i];
        found.push(
            DetectionResponse {
                start: span.start,
                end: span.end,
                text: slice_text(content, span.start, span.end).to_owned(),
                detection_type: detection.detection_type.clone(),
                detection: detection.detection.clone(),
                score_percent: EXACT_SCORE_PERCENT,
            },
        );
        i += 1;
    }
    assert(found.deep_view() =~= shape_all(detection@, content@, spans@));
    found
}

/// Finds all matches of the pattern of `regex_detection` in `content`, from
/// left to right and without overlap, and reports each as a record.
///
/// A pattern that does not compile is an error that names the pattern.
pub fn regex_match(regex_detection: RegexDetection, content: &str) -> (outcome: Result<
    Vec<DetectionResponse>,
    PatternCompileError,
>)
    ensures
        match_view(outcome) == match_spec(regex_detection@, content@),
        outcome matches Ok(found) ==> detections_in_order(found.deep_view(), content@),
{
    match find_spans(regex_detection.regex.as_str(), content) {
        Ok(spans) => {
            let found = shape_detections(&regex_detection, content, &spans);
            Ok(found)
        },
        Err(_) => Err(PatternCompileError { pattern: regex_detection.regex }),
    }
}

/// Finds the e-mail addresses in `content`.
pub fn email_address_detector(content: &String) -> (outcome: Result<
    Vec<DetectionResponse>,
    PatternCompileError,
>)
    ensures
        match_view(outcome) == match_spec(email_spec(), content@),
        outcome matches Ok(found) ==> detections_in_order(found.deep_view(), content@),
{
    regex_match(email_detection(), content.as_str())
}

/// Finds the social security numbers in `content`.
pub fn ssn_detector(content: &String) -> (outcome: Result<
    Vec<DetectionResponse>,
    PatternCompileError,
>)
    ensures
        match_view(outcome) == match_spec(ssn_spec(), content@),
        outcome matches Ok(found) ==> detections_in_order(found.deep_view(), content@),
{
    regex_match(ssn_detection(), content.as_str())
}

/// Finds the credit card numbers in `content`.
pub fn credit_card_detector(content: &String) -> (outcome: Result<
    Vec<DetectionResponse>,
    PatternCompileError,
>)
    ensures
        match_view(outcome) == match_spec(credit_card_spec(), content@),
        outcome matches Ok(found) ==> detections_in_order(found.deep_view(), content@),
{
    regex_match(credit_card_detection(), content.as_str())
}

/// A pattern that matches a text exactly once, from its first byte to its
/// last, gives a single record: it starts at 0, ends at the length of the
/// text, and holds the text whole.
pub proof fn lemma_whole_text_match(pattern: PatternView, content: Seq<char>, spans: Seq<Span>)
    requires
        spans.len() == 1,
        spans[0].start == 0,
        spans[0].end == byte_len(content),
    ensures
        shape_all(pattern, content, spans) == seq![
            DetectionView {
                start: 0,
                end: byte_len(content) as int,
                text: content,
                detection_type: pattern.detection_type,
                detection: pattern.detection,
                score_percent: EXACT_SCORE_PERCENT as int,
            },
        ],
        pattern_compiles(pattern.regex) && pattern_spans(pattern.regex, content) == spans
            ==> match_spec(pattern, content) == Ok::<Seq<DetectionView>, Seq<char>>(
            shape_all(pattern, content, spans),
        ),
{
    let bytes = encode_utf8(content);
    assert(bytes.subrange(0, bytes.len() as int) =~= bytes);
    encode_utf8_decode_utf8(content);
    assert(shape_all(pattern, content, spans) =~= seq![shape(pattern, content, spans[0])]);
}

} // verus!
