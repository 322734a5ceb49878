use text_viewer::coords::{Position, Size, EOL};

fn at(line: usize, column: usize) -> Position {
    Position { line, column }
}

#[test]
fn start_is_the_origin() {
    assert_eq!(Position::start(), at(0, 0));
}

#[test]
fn end_is_past_everything() {
    assert_eq!(Position::end(), at(usize::MAX, usize::MAX));
    assert!(at(7, 9) <= Position::end());
}

#[test]
fn next_over_the_terminator_starts_a_line() {
    assert_eq!(at(3, 7).next('\n'), at(4, 0));
    assert_eq!(at(0, 0).next(EOL), at(1, 0));
}

#[test]
fn next_over_another_character_moves_a_column() {
    assert_eq!(at(3, 7).next('x'), at(3, 8));
    assert_eq!(at(3, 7).next('\r'), at(3, 8));
    assert_eq!(at(0, 0).next('é'), at(0, 1));
}

#[test]
fn positions_are_ordered_by_line_then_column() {
    assert!(at(1, 9) < at(2, 0));
    assert!(at(2, 0) < at(2, 1));
    assert!(at(2, 1).precedes(at(2, 1)));
    assert!(at(1, 9).precedes(at(2, 0)));
    assert!(!at(2, 0).precedes(at(1, 9)));
    assert!(!at(2, 2).precedes(at(2, 1)));
}

#[test]
fn shift_recentres_on_a_far_target() {
    let size = Size { lines: 10, columns: 20 };
    assert_eq!(at(0, 0).shift(at(50, 0), size), (at(45, 0), true));
}

#[test]
fn shift_twice_changes_nothing_the_second_time() {
    let size = Size { lines: 10, columns: 20 };
    let target = at(50, 33);
    let (offset, changed) = at(0, 0).shift(target, size);
    assert!(changed);
    assert_eq!(offset, at(45, 23));
    assert_eq!(offset.shift(target, size), (offset, false));
}

#[test]
fn shift_keeps_a_window_that_shows_the_target() {
    let size = Size { lines: 10, columns: 20 };
    assert_eq!(at(5, 5).shift(at(14, 24), size), (at(5, 5), false));
    assert_eq!(at(5, 5).shift(at(5, 5), size), (at(5, 5), false));
}

#[test]
fn shift_recentres_at_the_window_edge() {
    let size = Size { lines: 10, columns: 20 };
    assert_eq!(at(5, 5).shift(at(15, 5), size), (at(10, 5), true));
    assert_eq!(at(5, 5).shift(at(5, 25), size), (at(5, 15), true));
    assert_eq!(at(5, 5).shift(at(4, 4), size), (at(0, 0), true));
}

#[test]
fn shift_moves_each_axis_by_itself() {
    let size = Size { lines: 10, columns: 20 };
    assert_eq!(at(0, 0).shift(at(3, 100), size), (at(0, 90), true));
    assert_eq!(at(0, 0).shift(at(100, 3), size), (at(95, 0), true));
}

#[test]
fn shift_stops_at_zero() {
    let size = Size { lines: 10, columns: 20 };
    assert_eq!(at(40, 40).shift(at(2, 3), size), (at(0, 0), true));
    assert_eq!(at(40, 40).shift(at(5, 10), size), (at(0, 0), true));
    assert_eq!(at(40, 40).shift(at(6, 11), size), (at(1, 1), true));
}

#[test]
fn shift_of_an_empty_window_follows_the_target() {
    let size = Size { lines: 0, columns: 0 };
    assert_eq!(at(3, 3).shift(at(7, 9), size), (at(7, 9), true));
    assert_eq!(at(7, 9).shift(at(7, 9), size), (at(7, 9), false));
}

#[test]
fn shift_takes_the_largest_numbers() {
    let size = Size { lines: usize::MAX, columns: usize::MAX };
    let far = at(usize::MAX, usize::MAX);
    assert_eq!(at(usize::MAX, usize::MAX).shift(far, size), (far, false));
    assert_eq!(at(1, 1).shift(far, size), (at(1, 1), false));
    let size = Size { lines: usize::MAX - 1, columns: usize::MAX - 1 };
    let middle = usize::MAX - (usize::MAX - 1) / 2;
    assert_eq!(at(1, 1).shift(far, size), (at(middle, middle), true));
}

#[test]
fn a_position_and_a_size_add_up() {
    assert_eq!(at(2, 3) + Size { lines: 10, columns: 20 }, at(12, 23));
    assert_eq!(Position::start() + Size { lines: 0, columns: 0 }, at(0, 0));
}

#[test]
fn two_positions_differ_by_a_size() {
    assert_eq!(at(12, 23) - at(2, 3), Size { lines: 10, columns: 20 });
    assert_eq!(at(2, 3) - at(2, 3), Size { lines: 0, columns: 0 });
}

#[test]
fn the_relative_cursor_is_origin_plus_distance() {
    let position = at(50, 7);
    let offset = at(45, 0);
    assert_eq!(Position::start() + (position - offset), at(5, 7));
}

#[test]
fn cells_count_from_one() {
    assert_eq!(Position::from_cell((1, 1)), at(0, 0));
    assert_eq!(Position::from_cell((80, 24)), at(23, 79));
    assert_eq!(at(0, 0).to_cell(), Some((1, 1)));
    assert_eq!(at(23, 79).to_cell(), Some((80, 24)));
    assert_eq!(at(65534, 65534).to_cell(), Some((65535, 65535)));
}

#[test]
fn a_position_beyond_the_terminal_has_no_cell() {
    assert_eq!(at(65535, 0).to_cell(), None);
    assert_eq!(at(0, 65535).to_cell(), None);
    assert_eq!(at(usize::MAX, usize::MAX).to_cell(), None);
}

#[test]
fn a_size_comes_from_columns_and_rows() {
    assert_eq!(Size::from((80, 24)), Size { lines: 24, columns: 80 });
    let size: Size = (0, 65535).into();
    assert_eq!(size, Size { lines: 65535, columns: 0 });
}

#[test]
fn a_size_goes_back_to_columns_and_rows() {
    assert_eq!(Size { lines: 24, columns: 80 }.to_cells(), Some((80, 24)));
    assert_eq!(Size { lines: 65535, columns: 65535 }.to_cells(), Some((65535, 65535)));
    assert_eq!(Size { lines: 65536, columns: 80 }.to_cells(), None);
    assert_eq!(Size { lines: 24, columns: 65536 }.to_cells(), None);
}

#[test]
fn targets_of_moves() {
    assert_eq!(at(3, 7).up(), at(2, 7));
    assert_eq!(at(0, 7).up(), at(0, 7));
    assert_eq!(at(3, 7).down(), at(4, 7));
    assert_eq!(at(usize::MAX, 7).down(), at(usize::MAX, 7));
    assert_eq!(at(3, 7).left(), at(3, 6));
    assert_eq!(at(3, 0).left(), at(2, usize::MAX));
    assert_eq!(at(0, 0).left(), at(0, 0));
    assert_eq!(at(3, 7).right(), at(3, 8));
    assert_eq!(at(3, usize::MAX).right(), at(3, usize::MAX));
    assert_eq!(at(3, 7).below(), at(4, 0));
    assert_eq!(at(3, 7).line_start(), at(3, 0));
    assert_eq!(at(3, 7).line_end(), at(3, usize::MAX));
}
