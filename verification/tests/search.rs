use sales_forecast::score::Score;
use sales_forecast::grid::search_grid;
use sales_forecast::search::Search;
use std::cell::RefCell;

fn score(value: f32) -> Score {
    Score::from_bits(value.to_bits())
}

#[test]
fn new_search_holds_ceiling_and_initial_payload() {
    let search: Search<&str> = Search::new("initial");
    assert_eq!(search.floor().to_bits(), f32::MAX.to_bits());
    assert_eq!(*search.best(), "initial");
    assert_eq!(search.selected(), None);
    assert_eq!(search.trials(), 0);
}

#[test]
fn first_of_two_equal_scores_is_retained() {
    let mut search: Search<&str> = Search::new("initial");
    assert!(search.record(score(2.5), "first"));
    assert!(!search.record(score(2.5), "second"));
    assert_eq!(search.selected(), Some(0));
    assert_eq!(*search.best(), "first");
    assert_eq!(search.floor().to_bits(), 2.5_f32.to_bits());
    assert_eq!(search.trials(), 2);
}

#[test]
fn first_of_equal_minima_is_retained_among_other_trials() {
    let mut search: Search<u32> = Search::new(0);
    let scores = [9.0_f32, 4.0, 7.0, 4.0, 5.0, 4.0];
    let mut replaced = Vec::new();
    for (n, value) in scores.iter().enumerate() {
        replaced.push(search.record(score(*value), n as u32 + 100));
    }
    assert_eq!(replaced, vec![true, true, false, false, false, false]);
    assert_eq!(search.selected(), Some(1));
    assert_eq!(search.into_best(), 101);
}

#[test]
fn strictly_lower_score_replaces_what_is_held() {
    let mut search: Search<u32> = Search::new(0);
    assert!(search.record(score(3.0), 1));
    assert!(search.record(score(2.0), 2));
    assert!(!search.record(score(2.5), 3));
    assert!(search.record(score(1.0), 4));
    assert_eq!(search.selected(), Some(3));
    assert_eq!(search.floor().to_bits(), 1.0_f32.to_bits());
    assert_eq!(search.trials(), 4);
    assert_eq!(search.into_best(), 4);
}

#[test]
fn scores_that_are_not_finite_are_never_selected() {
    let mut search: Search<u32> = Search::new(7);
    for value in [f32::NAN, f32::INFINITY, f32::NEG_INFINITY, -f32::NAN] {
        assert!(!search.record(score(value), 1));
    }
    assert_eq!(search.selected(), None);
    assert_eq!(search.floor().to_bits(), f32::MAX.to_bits());
    assert_eq!(search.trials(), 4);
    assert_eq!(search.into_best(), 7);
}

#[test]
fn score_that_is_not_finite_does_not_displace_a_finite_one() {
    let mut search: Search<u32> = Search::new(0);
    assert!(!search.record(score(f32::NAN), 1));
    assert!(search.record(score(10.0), 2));
    assert!(!search.record(score(f32::NEG_INFINITY), 3));
    assert!(!search.record(score(f32::NAN), 4));
    assert_eq!(search.selected(), Some(1));
    assert_eq!(search.into_best(), 2);
}

#[test]
fn score_equal_to_the_ceiling_is_not_selected() {
    let mut search: Search<u32> = Search::new(0);
    assert!(!search.record(score(f32::MAX), 1));
    assert_eq!(search.selected(), None);
    assert!(search.record(score(3.0e38), 2));
    assert_eq!(search.selected(), Some(1));
}

#[test]
fn zero_of_either_sign_ties_with_zero() {
    let mut search: Search<u32> = Search::new(0);
    assert!(search.record(score(0.0), 1));
    assert!(!search.record(score(-0.0), 2));
    assert_eq!(search.selected(), Some(0));
}

#[test]
fn negative_finite_scores_are_ordered_by_value() {
    let mut search: Search<u32> = Search::new(0);
    assert!(search.record(score(-1.0), 1));
    assert!(search.record(score(-2.0), 2));
    assert!(!search.record(score(-1.5), 3));
    assert_eq!(search.selected(), Some(1));
}

#[test]
fn grid_is_tried_row_by_row_with_the_last_axis_fastest() {
    let order: RefCell<Vec<(usize, usize, usize)>> = RefCell::new(Vec::new());
    let trial = |i: usize, j: usize, k: usize| {
        order.borrow_mut().push((i, j, k));
        (score(100.0 - (i * 100 + j * 10 + k) as f32 * 0.0), (i, j, k))
    };
    let search = search_grid(2, 3, 2, (9, 9, 9), &trial);
    assert_eq!(search.trials(), 12);
    assert_eq!(
        *order.borrow(),
        vec![
            (0, 0, 0),
            (0, 0, 1),
            (0, 1, 0),
            (0, 1, 1),
            (0, 2, 0),
            (0, 2, 1),
            (1, 0, 0),
            (1, 0, 1),
            (1, 1, 0),
            (1, 1, 1),
            (1, 2, 0),
            (1, 2, 1),
        ]
    );
    // every trial scored alike: the first one made is retained
    assert_eq!(search.selected(), Some(0));
    assert_eq!(search.into_best(), (0, 0, 0));
}

#[test]
fn grid_search_retains_the_lowest_score_and_the_first_of_its_equals() {
    // the score depends on the first two places only, so the two trials of a
    // pair along the last axis tie
    let trial = |i: usize, j: usize, k: usize| {
        let distance = (i as f32 - 2.0).abs() + (j as f32 - 1.0).abs();
        (score(distance), (i, j, k))
    };
    let search = search_grid(4, 3, 2, (9, 9, 9), &trial);
    assert_eq!(search.trials(), 24);
    assert_eq!(search.selected(), Some((2 * 3 + 1) * 2));
    assert_eq!(search.floor().to_bits(), 0.0_f32.to_bits());
    assert_eq!(search.into_best(), (2, 1, 0));
}

#[test]
fn grid_with_an_empty_axis_makes_no_trial() {
    let calls: RefCell<u32> = RefCell::new(0);
    let trial = |_i: usize, _j: usize, _k: usize| {
        *calls.borrow_mut() += 1;
        (score(1.0), 1_u32)
    };
    let search = search_grid(5, 0, 3, 0_u32, &trial);
    assert_eq!(*calls.borrow(), 0);
    assert_eq!(search.trials(), 0);
    assert_eq!(search.selected(), None);
    assert_eq!(search.floor().to_bits(), f32::MAX.to_bits());
    assert_eq!(search.into_best(), 0);
}

#[test]
fn grid_search_without_a_finite_score_keeps_the_initial_payload() {
    let trial = |i: usize, _j: usize, _k: usize| {
        let value = if i % 2 == 0 { f32::NAN } else { f32::INFINITY };
        (score(value), 1_u32)
    };
    let search = search_grid(3, 3, 3, 42_u32, &trial);
    assert_eq!(search.trials(), 27);
    assert_eq!(search.selected(), None);
    assert_eq!(search.floor().to_bits(), f32::MAX.to_bits());
    assert_eq!(search.into_best(), 42);
}
