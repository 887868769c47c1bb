use handtrack_rs::detect::{detection_boxes, DetectionError};
use handtrack_rs::utils::detection::{DetectionBox, Point, Rectangle};
use handtrack_rs::utils::fraction::Fraction;
use handtrack_rs::utils::opts::DetectionOptions;

fn synthetic_inputs() -> (Vec<Fraction>, Vec<Fraction>) {
    let scores = vec![Fraction::new(9, 10), Fraction::new(5, 10)];
    let boxes = vec![
        Fraction::new(1, 10),
        Fraction::new(2, 10),
        Fraction::new(3, 10),
        Fraction::new(4, 10),
        Fraction::new(0, 1),
        Fraction::new(0, 1),
        Fraction::new(0, 1),
        Fraction::new(0, 1),
    ];
    (scores, boxes)
}

#[test]
fn synthetic_known_values() {
    let (scores, boxes) = synthetic_inputs();
    let out = detection_boxes(&scores, &boxes, Fraction::new(7, 10), 2, 100, 200).unwrap();
    assert_eq!(out.len(), 1);
    let b = &out[0];
    assert_eq!(b.rect.lt, Point::new(40, 10));
    assert_eq!(b.rect.rb, Point::new(80, 30));
    assert_eq!(b.score, Fraction::new(9, 10));
}

#[test]
fn scores_at_or_below_threshold_are_dropped() {
    // A score exactly equal to the threshold is excluded: the comparison
    // is strict.
    let scores = vec![Fraction::new(7, 10), Fraction::new(70, 100), Fraction::new(71, 100)];
    let boxes = vec![Fraction::new(1, 2); 12];
    let out = detection_boxes(&scores, &boxes, Fraction::new(7, 10), 3, 10, 10).unwrap();
    assert_eq!(out.len(), 1);
    assert_eq!(out[0].score, Fraction::new(71, 100));
}

#[test]
fn output_never_longer_than_max_hands() {
    let scores = vec![Fraction::new(1, 1); 5];
    let boxes = vec![Fraction::new(1, 2); 20];
    for max_hands in 0..5 {
        let out =
            detection_boxes(&scores, &boxes, Fraction::new(0, 1), max_hands, 100, 100).unwrap();
        assert_eq!(out.len(), max_hands);
        assert!(out.len() <= max_hands);
    }
}

#[test]
fn candidate_order_is_preserved() {
    let scores = vec![Fraction::new(3, 10), Fraction::new(9, 10), Fraction::new(8, 10)];
    let boxes = vec![
        Fraction::new(0, 1),
        Fraction::new(0, 1),
        Fraction::new(1, 1),
        Fraction::new(1, 1),
        Fraction::new(0, 1),
        Fraction::new(0, 1),
        Fraction::new(1, 2),
        Fraction::new(1, 2),
        Fraction::new(0, 1),
        Fraction::new(0, 1),
        Fraction::new(1, 4),
        Fraction::new(1, 4),
    ];
    let out = detection_boxes(&scores, &boxes, Fraction::new(5, 10), 3, 100, 100).unwrap();
    assert_eq!(out.len(), 2);
    // Candidate 1 (score 9/10) comes before candidate 2 (score 8/10).
    assert_eq!(out[0].rect.rb, Point::new(50, 50));
    assert_eq!(out[1].rect.rb, Point::new(25, 25));
}

#[test]
fn half_over_101_floors_down() {
    // Denormalization and floor are applied consistently: 0.5 * 101 floors
    // to 50, not 51.
    let scores = vec![Fraction::new(1, 1)];
    let boxes = vec![
        Fraction::new(1, 2),
        Fraction::new(1, 2),
        Fraction::new(1, 2),
        Fraction::new(1, 2),
    ];
    let out = detection_boxes(&scores, &boxes, Fraction::new(0, 1), 1, 101, 101).unwrap();
    assert_eq!(out[0].rect.lt, Point::new(50, 50));
    assert_eq!(out[0].rect.rb, Point::new(50, 50));
}

#[test]
fn running_twice_gives_identical_output() {
    let (scores, boxes) = synthetic_inputs();
    let first = detection_boxes(&scores, &boxes, Fraction::new(7, 10), 2, 100, 200).unwrap();
    let second = detection_boxes(&scores, &boxes, Fraction::new(7, 10), 2, 100, 200).unwrap();
    assert_eq!(first, second);
}

#[test]
fn zero_max_hands_gives_empty_output() {
    let (scores, boxes) = synthetic_inputs();
    let out = detection_boxes(&scores, &boxes, Fraction::new(0, 1), 0, 100, 200).unwrap();
    assert!(out.is_empty());
}

#[test]
fn threshold_of_one_gives_empty_output() {
    let scores = vec![Fraction::new(1, 1), Fraction::new(9, 10)];
    let boxes = vec![Fraction::new(1, 2); 8];
    let out = detection_boxes(&scores, &boxes, Fraction::new(1, 1), 2, 100, 200).unwrap();
    assert!(out.is_empty());
}

#[test]
fn short_scores_array_is_rejected() {
    let scores = vec![Fraction::new(9, 10)];
    let boxes = vec![Fraction::new(1, 2); 8];
    let r = detection_boxes(&scores, &boxes, Fraction::new(7, 10), 2, 100, 200);
    assert_eq!(r, Err(DetectionError::SizeMismatch));
}

#[test]
fn short_boxes_array_is_rejected() {
    let scores = vec![Fraction::new(9, 10), Fraction::new(9, 10)];
    let boxes = vec![Fraction::new(1, 2); 7];
    let r = detection_boxes(&scores, &boxes, Fraction::new(7, 10), 2, 100, 200);
    assert_eq!(r, Err(DetectionError::SizeMismatch));
}

#[test]
fn empty_arrays_with_positive_max_hands_are_rejected() {
    let scores: Vec<Fraction> = Vec::new();
    let boxes: Vec<Fraction> = Vec::new();
    let r = detection_boxes(&scores, &boxes, Fraction::new(7, 10), 1, 100, 200);
    assert_eq!(r, Err(DetectionError::SizeMismatch));
}

#[test]
fn empty_arrays_with_zero_max_hands_are_accepted() {
    let scores: Vec<Fraction> = Vec::new();
    let boxes: Vec<Fraction> = Vec::new();
    let out = detection_boxes(&scores, &boxes, Fraction::new(7, 10), 0, 100, 200).unwrap();
    assert!(out.is_empty());
}

#[test]
fn saturating_denormalization_caps_at_u32_max() {
    // A fraction far above one, scaled by a large dimension, exceeds the
    // pixel coordinate range and saturates.
    let f = Fraction::new(u64::MAX, 1);
    assert_eq!(f.denormalize(u64::MAX), u32::MAX);
    // An in-range product is exact: (3/2) * 100 = 150.
    assert_eq!(Fraction::new(3, 2).denormalize(100), 150);
}

#[test]
fn fraction_comparison_is_exact() {
    assert!(Fraction::new(9, 10).gt(&Fraction::new(7, 10)));
    assert!(!Fraction::new(7, 10).gt(&Fraction::new(7, 10)));
    assert!(!Fraction::new(5, 10).gt(&Fraction::new(7, 10)));
    // Equal values under different representations do not compare greater.
    assert!(!Fraction::new(70, 100).gt(&Fraction::new(7, 10)));
    assert!(Fraction::new(701, 1000).gt(&Fraction::new(7, 10)));
}

#[test]
fn constructors_store_their_fields() {
    let p = Point::new(3, 4);
    assert_eq!((p.x, p.y), (3, 4));
    let rect = Rectangle::new(Point::new(1, 2), Point::new(5, 6));
    assert_eq!(rect.lt, Point::new(1, 2));
    assert_eq!(rect.rb, Point::new(5, 6));
    let b = DetectionBox::new(rect, Fraction::new(4, 5));
    assert_eq!(b.rect, rect);
    assert_eq!(b.score, Fraction::new(4, 5));
    let opts = DetectionOptions::new(2, Fraction::new(7, 10));
    assert_eq!(opts.max_hands, 2);
    assert_eq!(opts.score_threshold, Fraction::new(7, 10));
}
