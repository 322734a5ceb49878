use text_viewer::utils::{lines, slice, sub};

fn strings(items: &[&str]) -> Vec<String> {
    items.iter().map(|item| item.to_string()).collect()
}

#[test]
fn sub_takes_a_range_of_bytes() {
    assert_eq!(sub("hello world", 0..5), "hello");
    assert_eq!(sub("hello world", 6..11), "world");
    assert_eq!(sub("hello world", 3..3), "");
}

#[test]
fn sub_stops_at_the_end_of_the_string() {
    assert_eq!(sub("hello", 2..100), "llo");
    assert_eq!(sub("hello", 0..usize::MAX), "hello");
    assert_eq!(sub("hello", 5..9), "");
    assert_eq!(sub("", 0..9), "");
}

#[test]
fn sub_of_a_range_out_of_the_string_is_empty() {
    assert_eq!(sub("hello", 6..9), "");
    assert_eq!(sub("hello", 4..2), "");
    assert_eq!(sub("", 1..2), "");
}

#[test]
fn sub_is_empty_where_a_character_is_cut() {
    assert_eq!(sub("héllo", 0..2), "");
    assert_eq!(sub("héllo", 2..4), "");
    assert_eq!(sub("héllo", 1..3), "é");
    assert_eq!(sub("héllo", 0..3), "hé");
    assert_eq!(sub("héllo", 3..9), "llo");
}

#[test]
fn lines_are_what_std_takes_for_lines() {
    let samples = [
        "",
        "a",
        "a\n",
        "a\nb",
        "a\nb\n",
        "\n",
        "\n\n",
        "a\n\nb",
        "a\r\nb",
        "a\r\n",
        "a\r",
        "a\rb\n",
        "\r\n",
        "\r",
        "\r\r\n",
        "a\r\r\nb\r",
        "héé\nü\n",
        "one\ntwo three\n\nfour",
    ];
    for sample in samples {
        let expected: Vec<String> = sample.lines().map(|line| line.to_string()).collect();
        assert_eq!(lines(sample, 0, usize::MAX), expected, "{:?}", sample);
    }
}

#[test]
fn lines_from_a_line_on() {
    let content = "zero\none\ntwo\nthree\nfour";
    assert_eq!(lines(content, 1, 2), strings(&["one", "two"]));
    assert_eq!(lines(content, 3, 5), strings(&["three", "four"]));
    assert_eq!(lines(content, 4, 1), strings(&["four"]));
    assert_eq!(lines(content, 5, 1), Vec::<String>::new());
    assert_eq!(lines(content, 0, 0), Vec::<String>::new());
    assert_eq!(lines(content, usize::MAX, usize::MAX), Vec::<String>::new());
    assert_eq!(lines(content, 2, usize::MAX), strings(&["two", "three", "four"]));
}

#[test]
fn lines_through_a_window_are_what_std_skips_and_takes() {
    let content = "a\r\nbb\n\nccc\r\n\ndddd";
    for first in 0..8 {
        for limit in 0..8 {
            let expected: Vec<String> =
                content.lines().skip(first).take(limit).map(|line| line.to_string()).collect();
            assert_eq!(lines(content, first, limit), expected);
        }
    }
}

#[test]
fn slice_is_a_window_on_a_list() {
    let list = strings(&["a", "b", "c", "d"]);
    assert_eq!(slice(&list, 0, 2), strings(&["a", "b"]));
    assert_eq!(slice(&list, 1, 2), strings(&["b", "c"]));
    assert_eq!(slice(&list, 3, 2), strings(&["d"]));
    assert_eq!(slice(&list, 4, 2), Vec::<String>::new());
    assert_eq!(slice(&list, 9, usize::MAX), Vec::<String>::new());
    assert_eq!(slice(&list, 1, 0), Vec::<String>::new());
    assert_eq!(slice(&list, 0, usize::MAX), list);
}
