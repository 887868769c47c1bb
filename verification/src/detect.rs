use vstd::prelude::*;

use crate::utils::detection::{DetectionBox, Point, Rectangle};
use crate::utils::fraction::Fraction;

verus! {

/// The error of the post-processing step.
#[derive(Debug, Clone, Copy, PartialEq, Eq, Structural)]
pub enum DetectionError {
    /// The candidate arrays are shorter than the number of candidates the
    /// caller asked to examine: `scores` holds fewer than `max_hands`
    /// entries, or `boxes` fewer than `4 * max_hands`.
    SizeMismatch,
}

/// The box decoded for candidate `i`: the four normalized coordinates at
/// `4*i .. 4*i + 3`, in (top, left, bottom, right) order, each denormalized
/// by the matching image dimension and floored, carrying the candidate's
/// own score unchanged.
pub open spec fn spec_box_at(
    scores: Seq<Fraction>,
    boxes: Seq<Fraction>,
    height: u64,
    width: u64,
    i: int,
) -> DetectionBox {
    DetectionBox {
        rect: Rectangle {
            lt: Point {
                x: boxes[4 * i + 1].denormalize_spec(width),
                y: boxes[4 * i].denormalize_spec(height),
            },
            rb: Point {
                x: boxes[4 * i + 3].denormalize_spec(width),
                y: boxes[4 * i + 2].denormalize_spec(height),
            },
        },
        score: scores[i],
    }
}

/// The post-processor's output on the first `n` candidates: the decoded box
/// of every candidate whose score strictly exceeds the threshold, in
/// candidate order, with no re-sorting, deduplication or overlap
/// suppression.
pub open spec fn spec_detection_boxes(
    scores: Seq<Fraction>,
    boxes: Seq<Fraction>,
    score_threshold: Fraction,
    n: nat,
    height: u64,
    width: u64,
) -> Seq<DetectionBox>
    decreases n,
{
    if n == 0 {
        Seq::empty()
    } else {
        let prefix = spec_detection_boxes(scores, boxes, score_threshold, (n - 1) as nat, height, width);
        if scores[n - 1].gt_spec(score_threshold) {
            prefix.push(spec_box_at(scores, boxes, height, width, n - 1))
        } else {
            prefix
        }
    }
}

/// The output never holds more boxes than the number of candidates
/// examined.
pub proof fn lemma_detection_boxes_len(
    scores: Seq<Fraction>,
    boxes: Seq<Fraction>,
    score_threshold: Fraction,
    n: nat,
    height: u64,
    width: u64,
)
    ensures
        spec_detection_boxes(scores, boxes, score_threshold, n, height, width).len() <= n,
    decreases n,
{
    if n > 0 {
        lemma_detection_boxes_len(scores, boxes, score_threshold, (n - 1) as nat, height, width);
    }
}

/// Every box in the output has a score strictly greater than the
/// threshold; no box at or below the threshold is ever returned.
pub proof fn lemma_detection_boxes_scores_exceed(
    scores: Seq<Fraction>,
    boxes: Seq<Fraction>,
    score_threshold: Fraction,
    n: nat,
    height: u64,
    width: u64,
)
    ensures
        forall|i: int|
            0 <= i < spec_detection_boxes(scores, boxes, score_threshold, n, height, width).len()
                ==> (#[trigger] spec_detection_boxes(scores, boxes, score_threshold, n, height,
                width)[i]).score.gt_spec(score_threshold),
    decreases n,
{
    if n > 0 {
        lemma_detection_boxes_scores_exceed(scores, boxes, score_threshold, (n - 1) as nat, height, width);
        let prev = spec_detection_boxes(scores, boxes, score_threshold, (n - 1) as nat, height, width);
        let cur = spec_detection_boxes(scores, boxes, score_threshold, n, height, width);
        if scores[n - 1].gt_spec(score_threshold) {
            assert(cur == prev.push(spec_box_at(scores, boxes, height, width, n - 1)));
            assert(forall|i: int| 0 <= i < prev.len() ==> cur[i] == prev[i]);
            assert(cur[cur.len() - 1] == spec_box_at(scores, boxes, height, width, n - 1));
        } else {
            assert(cur == prev);
        }
    }
}

/// The post-processor is a pure function of its inputs: any two outputs
/// obtained from identical inputs are identical.
pub proof fn lemma_detection_boxes_deterministic(
    scores: Seq<Fraction>,
    boxes: Seq<Fraction>,
    score_threshold: Fraction,
    n: nat,
    height: u64,
    width: u64,
    r1: Seq<DetectionBox>,
    r2: Seq<DetectionBox>,
)
    requires
        r1 == spec_detection_boxes(scores, boxes, score_threshold, n, height, width),
        r2 == spec_detection_boxes(scores, boxes, score_threshold, n, height, width),
    ensures
        r1 == r2,
{
}

/// With `max_hands` zero, no candidate is examined and the output is empty,
/// whatever the arrays and the threshold hold.
pub proof fn lemma_zero_max_hands_empty(
    scores: Seq<Fraction>,
    boxes: Seq<Fraction>,
    score_threshold: Fraction,
    height: u64,
    width: u64,
)
    ensures
        spec_detection_boxes(scores, boxes, score_threshold, 0, height, width)
            == Seq::<DetectionBox>::empty(),
{
}

/// With a threshold of at least one and scores of at most one, no score
/// strictly exceeds the threshold, so the output is empty.
pub proof fn lemma_threshold_at_least_one_empty(
    scores: Seq<Fraction>,
    boxes: Seq<Fraction>,
    score_threshold: Fraction,
    n: nat,
    height: u64,
    width: u64,
)
    requires
        n <= scores.len(),
        score_threshold.num >= score_threshold.den,
        forall|i: int| 0 <= i < n ==> (#[trigger] scores[i]).num <= scores[i].den,
    ensures
        spec_detection_boxes(scores, boxes, score_threshold, n, height, width)
            == Seq::<DetectionBox>::empty(),
    decreases n,
{
    if n > 0 {
        lemma_threshold_at_least_one_empty(scores, boxes, score_threshold, (n - 1) as nat, height, width);
        let s = scores[n - 1];
        assert(s.num * score_threshold.den <= score_threshold.num * s.den) by (nonlinear_arith)
            requires
                s.num <= s.den,
                score_threshold.den <= score_threshold.num,
        ;
    }
}

/// Extracts the boxes whose score strictly exceeds `score_threshold` from
/// the detector's raw output arrays.
///
/// The first `max_hands` candidates are examined, in order. For each
/// passing candidate the four normalized coordinates at `4*i .. 4*i + 3`,
/// laid out as (top, left, bottom, right), are scaled by the image's
/// height or width and floored to pixel coordinates; the box keeps the
/// candidate's score unchanged. Arrays too short for `max_hands`
/// candidates are rejected rather than read out of bounds.
pub fn detection_boxes(
    scores: &Vec<Fraction>,
    boxes: &Vec<Fraction>,
    score_threshold: Fraction,
    max_hands: usize,
    height: u64,
    width: u64,
) -> (r: Result<Vec<DetectionBox>, DetectionError>)
    requires
        forall|i: int| 0 <= i < boxes@.len() ==> (#[trigger] boxes@[i]).valid(),
    ensures
        match r {
            Ok(v) => {
                &&& max_hands <= scores@.len()
                &&& 4 * max_hands <= boxes@.len()
                &&& v@ == spec_detection_boxes(scores@, boxes@, score_threshold, max_hands as nat, height, width)
                &&& v@.len() <= max_hands
                &&& forall|i: int|
                    0 <= i < v@.len() ==> (#[trigger] v@[i]).score.gt_spec(score_threshold)
            },
            Err(e) => {
                &&& (scores@.len() < max_hands || boxes@.len() < 4 * max_hands)
                &&& e == DetectionError::SizeMismatch
            },
        },
{
    if scores.len() < max_hands {
        return Err(DetectionError::SizeMismatch);
    }
    let boxes_len = boxes.len();
    let needed = match max_hands.checked_mul(4) {
        Some(needed) => needed,
        None => {
            // 4 * max_hands exceeds usize::MAX, which no array length reaches.
            return Err(DetectionError::SizeMismatch);
        },
    };
    if boxes_len < needed {
        return Err(DetectionError::SizeMismatch);
    }

    let mut out: Vec<DetectionBox> = Vec::new();
    let mut i: usize = 0;
    while i < max_hands
        invariant
            max_hands <= scores@.len(),
            4 * max_hands <= boxes@.len(),
            4 * max_hands <= usize::MAX,
            forall|k: int| 0 <= k < boxes@.len() ==> (#[trigger] boxes@[k]).valid(),
            i <= max_hands,
            out@ == spec_detection_boxes(scores@, boxes@, score_threshold, i as nat, height, width),
            out@.len() <= i,
        decreases max_hands - i,
    {
        let s = scores[i];
        if s.gt(&score_threshold) {
            // Each candidate's box starts at index i * 4 of the flat array.
            let index = 4 * i;
            let top = boxes[index].denormalize(height);
            let left = boxes[index + 1].denormalize(width);
            let bottom = boxes[index + 2].denormalize(height);
            let right = boxes[index + 3].denormalize(width);

            let lt_point = Point::new(left, top);
            let rb_point = Point::new(right, bottom);
            let rect = Rectangle::new(lt_point, rb_point);
            out.push(DetectionBox::new(rect, s));
        }
        i = i + 1;
    }
    proof {
        lemma_detection_boxes_scores_exceed(scores@, boxes@, score_threshold, max_hands as nat, height, width);
    }
    Ok(out)
}

} // verus!
