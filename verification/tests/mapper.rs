use text_viewer::coords::Position;
use text_viewer::mapper::resolve;

fn at(line: usize, column: usize) -> Position {
    Position { line, column }
}

#[test]
fn resolve_finds_a_position_of_the_text() {
    assert_eq!(resolve("ab\ncd", at(1, 1)), at(1, 1));
}

#[test]
fn resolve_keeps_every_position_of_the_text() {
    let content = "ab\ncd";
    for position in [at(0, 0), at(0, 1), at(0, 2), at(1, 0), at(1, 1), at(1, 2)] {
        assert_eq!(resolve(content, position), position);
    }
}

#[test]
fn resolve_clamps_past_the_end_of_a_line() {
    assert_eq!(resolve("ab\ncd", at(0, 9)), at(0, 2));
    assert_eq!(resolve("ab\ncd", at(0, usize::MAX)), at(0, 2));
    assert_eq!(resolve("ab\n\ncd", at(1, 5)), at(1, 0));
}

#[test]
fn resolve_clamps_past_the_end_of_the_text() {
    assert_eq!(resolve("ab\ncd", at(1, 9)), at(1, 2));
    assert_eq!(resolve("ab\ncd", at(7, 0)), at(1, 2));
    assert_eq!(resolve("ab\ncd", Position::end()), at(1, 2));
    assert_eq!(resolve("ab\ncd\n", Position::end()), at(2, 0));
}

#[test]
fn resolve_in_an_empty_text_is_the_start() {
    assert_eq!(resolve("", at(0, 0)), at(0, 0));
    assert_eq!(resolve("", at(3, 4)), at(0, 0));
    assert_eq!(resolve("", Position::end()), at(0, 0));
}

#[test]
fn resolve_counts_characters_not_bytes() {
    assert_eq!(resolve("héé\nü", at(0, 9)), at(0, 3));
    assert_eq!(resolve("héé\nü", at(1, 9)), at(1, 1));
}

#[test]
fn resolve_counts_a_carriage_return_as_a_column() {
    assert_eq!(resolve("ab\r\ncd", at(0, 9)), at(0, 3));
}

#[test]
fn resolve_is_never_after_the_target() {
    let content = "one\ntwo three\n\nfour";
    for line in 0..6 {
        for column in 0..12 {
            let target = at(line, column);
            let landing = resolve(content, target);
            assert!(landing <= target);
            assert_eq!(resolve(content, landing), landing);
        }
    }
}
