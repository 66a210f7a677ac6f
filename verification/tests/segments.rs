use input_dispatch::segments::line_segments;
use input_dispatch::segments::PathStep;

#[test]
fn open_path_gives_the_lines_between_its_points() {
    let steps = vec![PathStep::MoveTo(1), PathStep::LineTo(2), PathStep::LineTo(3)];
    assert_eq!(line_segments(&steps), Some(vec![(1, 2), (2, 3)]));
}

#[test]
fn closing_joins_the_first_start_to_the_last_end() {
    let steps = vec![PathStep::MoveTo(1), PathStep::LineTo(2), PathStep::LineTo(3), PathStep::ClosePath];
    assert_eq!(line_segments(&steps), Some(vec![(1, 2), (2, 3), (1, 3)]));
}

#[test]
fn second_outline_closes_towards_the_first_line_of_all() {
    let steps = vec![
        PathStep::MoveTo(1),
        PathStep::LineTo(2),
        PathStep::ClosePath,
        PathStep::MoveTo(5),
        PathStep::LineTo(6),
        PathStep::LineTo(7),
        PathStep::ClosePath,
        PathStep::ClosePath,
    ];
    assert_eq!(line_segments(&steps), Some(vec![(1, 2), (1, 2), (5, 6), (6, 7), (1, 7), (1, 7)]));
}

#[test]
fn no_steps_give_no_lines() {
    assert_eq!(line_segments(&Vec::<PathStep<u8>>::new()), Some(vec![]));
    assert_eq!(line_segments(&vec![PathStep::MoveTo(1)]), Some(vec![]));
}

#[test]
fn steps_that_cannot_be_drawn_give_nothing() {
    assert_eq!(line_segments(&vec![PathStep::LineTo(1)]), None);
    assert_eq!(line_segments(&vec![PathStep::MoveTo(1), PathStep::MoveTo(2)]), None);
    assert_eq!(line_segments(&vec![PathStep::<u8>::ClosePath]), None);
    assert_eq!(line_segments(&vec![PathStep::MoveTo(1), PathStep::ClosePath]), None);
    assert_eq!(line_segments(&vec![PathStep::MoveTo(1), PathStep::LineTo(2), PathStep::ClosePath, PathStep::LineTo(3)]), None);
}

#[test]
fn points_may_be_of_any_kind() {
    let steps = vec![PathStep::MoveTo((0.5f32, 1.)), PathStep::LineTo((2., 3.)), PathStep::ClosePath];
    assert_eq!(line_segments(&steps), Some(vec![((0.5, 1.), (2., 3.)), ((0.5, 1.), (2., 3.))]));
}
