//! The detection engine: every requested pattern on every submitted text.

use crate::detection::{detections_in_order, match_spec, regex_match};
use crate::detection::{DetectionResponse, DetectionView, PatternCompileError};
use crate::patterns::{resolve, resolve_spec};
use vstd::prelude::*;
use vstd::seq_lib::lemma_flatten_concat;

verus! {

/// The patterns that a request asks for, in the order in which they are to
/// be run: reserved names of built-in detectors, or literal patterns.
#[derive(Clone, Debug, PartialEq, Eq)]
pub struct DetectorParams {
    pub regex: Vec<String>,
}

/// A batch of texts and the patterns to run on each of them.
#[derive(Clone, Debug, PartialEq, Eq)]
pub struct DetectionRequest {
    pub contents: Vec<String>,
    pub detector_params: DetectorParams,
}

/// What a `DetectionRequest` holds, as sequences of characters.
pub struct RequestView {
    pub contents: Seq<Seq<char>>,
    pub regex: Seq<Seq<char>>,
}

impl View for DetectorParams {
    type V = Seq<Seq<char>>;

    open spec fn view(&self) -> Seq<Seq<char>> {
        self.regex.deep_view()
    }
}

impl View for DetectionRequest {
    type V = RequestView;

    open spec fn view(&self) -> RequestView {
        RequestView { contents: self.contents.deep_view(), regex: self.detector_params@ }
    }
}

/// Why a request as a whole is refused.
#[derive(Clone, Debug, PartialEq, Eq)]
pub enum RequestError {
    /// The request does not meet the engine's contract; the message says how.
    BadRequest(String),
}

/// What a `RequestError` holds, as sequences of characters.
pub enum RequestErrorView {
    BadRequest(Seq<char>),
}

impl View for RequestError {
    type V = RequestErrorView;

    open spec fn view(&self) -> RequestErrorView {
        match self {
            RequestError::BadRequest(message) => RequestErrorView::BadRequest(message@),
        }
    }
}

/// The records that the pattern requested as `id` gives on `content`: those
/// of its matches, or none where it does not compile.
pub open spec fn pair_detections(content: Seq<char>, id: Seq<char>) -> Seq<DetectionView> {
    match match_spec(resolve_spec(id), content) {
        Ok(found) => found,
        Err(_) => Seq::empty(),
    }
}

/// The pattern requested as `id`, where it does not compile on `content`.
pub open spec fn pair_refusals(content: Seq<char>, id: Seq<char>) -> Seq<Seq<char>> {
    match match_spec(resolve_spec(id), content) {
        Ok(_) => Seq::empty(),
        Err(refused) => seq![refused],
    }
}

/// The records of one text: those of each requested pattern, one pattern
/// after the other.
pub open spec fn content_detections(content: Seq<char>, ids: Seq<Seq<char>>) -> Seq<
    DetectionView,
> {
    ids.flat_map(|id: Seq<char>| pair_detections(content, id))
}

/// The patterns that were skipped on one text, in the order of the request.
pub open spec fn content_refusals(content: Seq<char>, ids: Seq<Seq<char>>) -> Seq<Seq<char>> {
    ids.flat_map(|id: Seq<char>| pair_refusals(content, id))
}

/// The records of a batch: those of each text, one text after the other.
pub open spec fn scan_detections(contents: Seq<Seq<char>>, ids: Seq<Seq<char>>) -> Seq<
    DetectionView,
> {
    contents.flat_map(|content: Seq<char>| content_detections(content, ids))
}

/// The patterns that were skipped over a batch, text by text.
pub open spec fn scan_refusals(contents: Seq<Seq<char>>, ids: Seq<Seq<char>>) -> Seq<Seq<char>> {
    contents.flat_map(|content: Seq<char>| content_refusals(content, ids))
}

/// On one text, the records of every pattern of `ids` lie within the text,
/// hold the text of their own range, and come from left to right without
/// overlap.
pub open spec fn content_in_order(content: Seq<char>, ids: Seq<Seq<char>>) -> bool {
    forall|j: int|
        0 <= j < ids.len() ==> detections_in_order(
            #[trigger] pair_detections(content, ids[j]),
            content,
        )
}

/// The same on every text of a batch.
pub open spec fn batch_in_order(contents: Seq<Seq<char>>, ids: Seq<Seq<char>>) -> bool {
    forall|i: int| 0 <= i < contents.len() ==> content_in_order(#[trigger] contents[i], ids)
}

/// What a request is answered with: an error where it names no pattern,
/// else the records of the batch.
pub open spec fn scan_spec(request: RequestView) -> Result<Seq<DetectionView>, RequestErrorView> {
    if request.regex.len() == 0 {
        Err(RequestErrorView::BadRequest("empty regex"@))
    } else {
        Ok(scan_detections(request.contents, request.regex))
    }
}

/// The diagnostics that answering a request emits: one for each text and
/// pattern that does not compile, and none for a request that is refused.
pub open spec fn scan_diagnostics(request: RequestView) -> Seq<Seq<char>> {
    if request.regex.len() == 0 {
        Seq::empty()
    } else {
        scan_refusals(request.contents, request.regex)
    }
}

/// The view of what `handle_text_contents` returns.
pub open spec fn outcome_view(outcome: Result<Vec<DetectionResponse>, RequestError>) -> Result<
    Seq<DetectionView>,
    RequestErrorView,
> {
    match outcome {
        Ok(found) => Ok(found.deep_view()),
        Err(refused) => Err(refused@),
    }
}

/// Runs every pattern of `ids` on `content`, in their order, and returns the
/// records of all of them. A pattern that does not compile is skipped and
/// reported to `diagnostics`.
pub fn scan_content(
    content: &str,
    ids: &Vec<String>,
    diagnostics: &mut Vec<PatternCompileError>,
) -> (found: Vec<DetectionResponse>)
    ensures
        found.deep_view() == content_detections(content@, ids.deep_view()),
        final(diagnostics).deep_view() == old(diagnostics).deep_view() + content_refusals(
            content@,
            ids.deep_view(),
        ),
        content_in_order(content@, ids.deep_view()),
{
    let mut found: Vec<DetectionResponse> = Vec::new();
    let ghost names = ids.deep_view();
    let ghost detect = |id: Seq<char>| pair_detections(content@, id);
    let ghost refuse = |id: Seq<char>| pair_refusals(content@, id);
    let mut j: usize = 0;
    assert(found.deep_view() =~= names.take(0).flat_map(detect));
    assert(diagnostics.deep_view() =~= old(diagnostics).deep_view() + names.take(0).flat_map(refuse));
    while j < ids.len()
        invariant
            names == ids.deep_view(),
            detect == |id: Seq<char>| pair_detections(content@, id),
            refuse == |id: Seq<char>| pair_refusals(content@, id),
            j <= ids@.len(),
            found.deep_view() == names.take(j as int).flat_map(detect),
            diagnostics.deep_view() == old(diagnostics).deep_view() + names.take(j as int).flat_map(
                refuse,
            ),
            content_in_order(content@, names.take(j as int)),
        decreases ids@.len() - j,
    {
        let ghost found_before = found.deep_view();
        let ghost diagnostics_before = diagnostics.deep_view();
        let detection = resolve(ids[j].as_str());
        match regex_match(detection, content) {
            Ok(mut more) => {
                let ghost added = more.deep_view();
                found.append(&mut more);
                assert(found.deep_view() =~= found_before + added);
                assert(diagnostics.deep_view() =~= diagnostics_before + Seq::empty());
            },
            Err(refused) => {
                diagnostics.push(refused);
                assert(diagnostics.deep_view() =~= diagnostics_before + seq![refused@]);
                assert(found.deep_view() =~= found_before + Seq::empty());
            },
        }
        proof {
            assert(names[j as int] == ids@[j as int]@);
            names.lemma_flat_map_take_append(detect, j as int);
            names.lemma_flat_map_take_append(refuse, j as int);
            assert(names.take(j + 1) =~= names.take(j as int).push(names[j as int]));
        }
        j += 1;
    }
    assert(names.take(j as int) =~= names);
    found
}

/// Answers a request: runs every requested pattern on every text and returns
/// the records in the order of the texts and, for each text, in the order of
/// the patterns.
///
/// A request that names no pattern is refused before any text is looked at.
/// A pattern that does not compile is skipped, text by text, and reported to
/// `diagnostics`; it fails nothing else.
pub fn handle_text_contents(
    payload: &DetectionRequest,
    diagnostics: &mut Vec<PatternCompileError>,
) -> (outcome: Result<Vec<DetectionResponse>, RequestError>)
    ensures
        outcome_view(outcome) == scan_spec(payload@),
        final(diagnostics).deep_view() == old(diagnostics).deep_view() + scan_diagnostics(payload@),
        outcome is Err <==> payload.detector_params.regex@.len() == 0,
        payload.detector_params.regex@.len() == 0 ==> outcome_view(outcome) == Err::<
            Seq<DetectionView>,
            RequestErrorView,
        >(RequestErrorView::BadRequest("empty regex"@)) && final(diagnostics)@ == old(
            diagnostics,
        )@,
        payload.detector_params.regex@.len() > 0 && payload.contents@.len() == 0 ==> (outcome matches Ok(
            found,
        ) && found@.len() == 0),
        outcome is Ok ==> batch_in_order(payload@.contents, payload@.regex),
{
    if payload.detector_params.regex.len() == 0 {
        assert(diagnostics.deep_view() =~= old(diagnostics).deep_view() + Seq::empty());
        return Err(RequestError::BadRequest("empty regex".to_owned()));
    }
    let mut detections: Vec<DetectionResponse> = Vec::new();
    let ghost texts = payload.contents.deep_view();
    let ghost names = payload.detector_params.regex.deep_view();
    let ghost detect = |content: Seq<char>| content_detections(content, names);
    let ghost refuse = |content: Seq<char>| content_refusals(content, names);
    let mut i: usize = 0;
    assert(detections.deep_view() =~= texts.take(0).flat_map(detect));
    assert(diagnostics.deep_view() =~= old(diagnostics).deep_view() + texts.take(0).flat_map(refuse));
    while i < payload.contents.len()
        invariant
            texts == payload.contents.deep_view(),
            names == payload.detector_params.regex.deep_view(),
            detect == |content: Seq<char>| content_detections(content, names),
            refuse == |content: Seq<char>| content_refusals(content, names),
            i <= payload.contents@.len(),
            detections.deep_view() == texts.take(i as int).flat_map(detect),
            diagnostics.deep_view() == old(diagnostics).deep_view() + texts.take(i as int).flat_map(
                refuse,
            ),
            batch_in_order(texts.take(i as int), names),
        decreases payload.contents@.len() - i,
    {
        let ghost detections_before = detections.deep_view();
        let ghost diagnostics_before = diagnostics.deep_view();
        let mut more = scan_content(
            payload.contents[i].as_str(),
            &payload.detector_params.regex,
            diagnostics,
        );
        let ghost added = more.deep_view();
        detections.append(&mut more);
        proof {
            assert(detections.deep_view() =~= detections_before + added);
            assert(texts[i as int] == payload.contents@[i as int]@);
            texts.lemma_flat_map_take_append(detect, i as int);
            texts.lemma_flat_map_take_append(refuse, i as int);
            assert(texts.take(i + 1) =~= texts.take(i as int).push(texts[i as int]));
        }
        i += 1;
    }
    assert(texts.take(i as int) =~= texts);
    Ok(detections)
}

/// What `each` gives over `items` is what it gives over the items before
/// `at`, then for the item at `at`, then over the items after it.
proof fn lemma_flat_map_split<A, B>(items: Seq<A>, each: spec_fn(A) -> Seq<B>, at: int)
    requires
        0 <= at < items.len(),
    ensures
        items.flat_map(each) == items.take(at).flat_map(each) + each(items[at]) + items.skip(
            at + 1,
        ).flat_map(each),
{
    let head = items.take(at + 1);
    let tail = items.skip(at + 1);
    assert(items =~= head + tail);
    assert((head + tail).map_values(each) =~= head.map_values(each) + tail.map_values(each));
    lemma_flatten_concat(head.map_values(each), tail.map_values(each));
    items.lemma_flat_map_take_append(each, at);
}

/// The records of a batch are grouped by text first and by pattern second,
/// however many matches each pair of them gives: before the records of the
/// pattern at `j` on the text at `i` stand those of all earlier texts and
/// then those of the earlier patterns on the same text; after them stand
/// those of the later patterns on the same text and then those of all later
/// texts.
pub proof fn lemma_scan_order(contents: Seq<Seq<char>>, ids: Seq<Seq<char>>, i: int, j: int)
    requires
        0 <= i < contents.len(),
        0 <= j < ids.len(),
    ensures
        scan_detections(contents, ids) == scan_detections(contents.take(i), ids)
            + content_detections(contents[i], ids.take(j)) + pair_detections(contents[i], ids[j])
            + content_detections(contents[i], ids.skip(j + 1)) + scan_detections(
            contents.skip(i + 1),
            ids,
        ),
{
    lemma_flat_map_split(contents, |content: Seq<char>| content_detections(content, ids), i);
    lemma_flat_map_split(ids, |id: Seq<char>| pair_detections(contents[i], id), j);
}

/// The engine keeps no state: two answers to requests that hold the same
/// texts and the same patterns hold the same records, or the same error.
pub proof fn lemma_scan_repeatable(
    first: DetectionRequest,
    second: DetectionRequest,
    first_outcome: Result<Vec<DetectionResponse>, RequestError>,
    second_outcome: Result<Vec<DetectionResponse>, RequestError>,
)
    requires
        first@ == second@,
        outcome_view(first_outcome) == scan_spec(first@),
        outcome_view(second_outcome) == scan_spec(second@),
    ensures
        outcome_view(first_outcome) == outcome_view(second_outcome),
{
}

} // verus!
