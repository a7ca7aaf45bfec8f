use memory_rs::vector_store::ranking::rank;
use memory_rs::vector_store::Score;

fn score(v: f32) -> Score {
    Score::from_bits(v.to_bits())
}

fn all(values: &[f32]) -> Vec<Score> {
    values.iter().map(|v| score(*v)).collect()
}

#[test]
fn rank_orders_by_descending_score() {
    assert_eq!(rank(&all(&[0.1, 0.9, 0.5]), None, 10), vec![1, 2, 0]);
}

#[test]
fn rank_keeps_equal_scores_in_their_order() {
    assert_eq!(rank(&all(&[0.5, 0.9, 0.5, 0.9, 0.5]), None, 10), vec![1, 3, 0, 2, 4]);
}

#[test]
fn rank_cuts_to_the_limit() {
    assert_eq!(rank(&all(&[0.1, 0.9, 0.5]), None, 2), vec![1, 2]);
    assert_eq!(rank(&all(&[0.1, 0.9, 0.5]), None, 0), Vec::<usize>::new());
    assert_eq!(rank(&all(&[]), None, 3), Vec::<usize>::new());
}

#[test]
fn rank_drops_what_is_below_the_threshold() {
    assert_eq!(rank(&all(&[0.1, 0.9, 0.5]), Some(score(0.5)), 10), vec![1, 2]);
    assert_eq!(rank(&all(&[0.1, 0.9, 0.5]), Some(score(0.95)), 10), Vec::<usize>::new());
}

#[test]
fn rank_orders_negative_scores_and_both_zeros() {
    assert_eq!(rank(&all(&[-0.5, 0.0, -1.0, -0.0, 0.25]), None, 10), vec![4, 1, 3, 0, 2]);
}

#[test]
fn rank_with_infinities() {
    assert_eq!(
        rank(&all(&[f32::NEG_INFINITY, 1.0, f32::INFINITY]), None, 10),
        vec![2, 1, 0]
    );
}

#[test]
fn rank_treats_a_score_that_is_no_number_as_equal_to_all() {
    // The second score is in no order with the others: it stays behind
    // the first and the third is placed in front of neither.
    assert_eq!(rank(&all(&[0.1, f32::NAN, 0.8]), None, 10), vec![0, 1, 2]);
    assert_eq!(rank(&all(&[0.1, 0.8, f32::NAN]), None, 10), vec![1, 0, 2]);
    assert_eq!(rank(&all(&[f32::NAN, 0.1, 0.8]), Some(score(0.5)), 10), vec![0, 2]);
    assert_eq!(rank(&all(&[0.1, 0.8]), Some(score(f32::NAN)), 10), vec![1, 0]);
}

#[test]
fn score_keys_and_order() {
    assert_eq!(Score::zero().to_bits(), 0);
    assert_eq!(Score::one().to_bits(), 1.0f32.to_bits());
    assert_eq!(score(0.0).sort_key(), 0);
    assert_eq!(score(-0.0).sort_key(), 0);
    assert_eq!(score(1.0).sort_key(), 0x3F80_0000);
    assert_eq!(score(-1.0).sort_key(), -0x3F80_0000);
    assert!(score(-1.0).less_than(&score(-0.5)));
    assert!(score(-0.5).less_than(&score(0.5)));
    assert!(!score(0.5).less_than(&score(0.5)));
    assert!(!score(0.0).less_than(&score(-0.0)));
    assert!(!score(-0.0).less_than(&score(0.0)));
    assert!(!score(f32::NAN).less_than(&score(1.0)));
    assert!(!score(1.0).less_than(&score(f32::NAN)));
    assert!(score(f32::NAN).is_incomparable());
    assert!(!score(f32::INFINITY).is_incomparable());
    assert!(!score(f32::NEG_INFINITY).is_incomparable());
}

#[test]
fn score_order_agrees_with_the_numbers() {
    let values = [
        f32::NEG_INFINITY,
        -3.5,
        -1.0,
        -1e-30,
        -0.0,
        0.0,
        1e-40,
        0.5,
        0.95,
        1.0,
        7.25,
        f32::INFINITY,
    ];
    for a in values {
        for b in values {
            assert_eq!(score(a).less_than(&score(b)), a < b);
        }
    }
}
