use hecto::line::{GraphemeWidth, Line};

fn text_of(line: &Line) -> String {
    line.to_string()
}

#[test]
fn line_from_keeps_the_text() {
    for text in ["", "hello", "a😀b", "e\u{301}x", "tab\there", "你好, world"] {
        assert_eq!(text_of(&Line::from(text)), text);
    }
}

#[test]
fn default_line_is_empty() {
    let line = Line::default();
    assert_eq!(text_of(&line), "");
    assert_eq!(line.grapheme_count(), 0);
    assert_eq!(line.width(), 0);
}

#[test]
fn clone_keeps_the_text() {
    let line = Line::from("a😀b");
    let copy = line.clone();
    assert_eq!(text_of(&copy), "a😀b");
    assert_eq!(copy.grapheme_count(), 3);
}

#[test]
fn grapheme_count_counts_clusters_not_characters() {
    assert_eq!(Line::from("hello").grapheme_count(), 5);
    assert_eq!(Line::from("e\u{301}x").grapheme_count(), 2);
    assert_eq!(Line::from("🇷🇺🇸🇹").grapheme_count(), 2);
    assert_eq!(Line::from("").grapheme_count(), 0);
}

#[test]
fn saturating_add_adds_the_width_of_the_cell() {
    assert_eq!(GraphemeWidth::Half.saturating_add(0), 1);
    assert_eq!(GraphemeWidth::Full.saturating_add(0), 2);
    assert_eq!(GraphemeWidth::Half.saturating_add(41), 42);
    assert_eq!(GraphemeWidth::Full.saturating_add(40), 42);
}

#[test]
fn saturating_add_stops_at_the_largest_number() {
    assert_eq!(GraphemeWidth::Half.saturating_add(usize::MAX), usize::MAX);
    assert_eq!(GraphemeWidth::Full.saturating_add(usize::MAX - 1), usize::MAX);
    assert_eq!(GraphemeWidth::Full.saturating_add(usize::MAX - 2), usize::MAX);
    assert_eq!(GraphemeWidth::Half.saturating_add(usize::MAX - 1), usize::MAX);
}

#[test]
fn width_until_adds_up_the_cells() {
    let line = Line::from("a你b");
    assert_eq!(line.width_until(0), 0);
    assert_eq!(line.width_until(1), 1);
    assert_eq!(line.width_until(2), 3);
    assert_eq!(line.width_until(3), 4);
    assert_eq!(line.width_until(9), 4);
    assert_eq!(line.width(), 4);
}

#[test]
fn width_until_never_shrinks_and_ends_at_the_width() {
    for text in ["", "hello", "a😀b", "\ta\u{200b}b你", "e\u{301}x"] {
        let line = Line::from(text);
        let mut previous = 0;
        for n in 0..=line.grapheme_count() + 2 {
            let columns = line.width_until(n);
            assert!(previous <= columns);
            assert!(columns <= line.width());
            previous = columns;
        }
        assert_eq!(line.width_until(line.grapheme_count()), line.width());
    }
}

#[test]
fn full_width_emoji_takes_two_columns() {
    let line = Line::from("a😀b");
    assert_eq!(line.grapheme_count(), 3);
    assert_eq!(line.width(), 4);
    assert_eq!(line.get_visible_graphemes(0..4), "a😀b");
}

#[test]
fn emoji_that_fits_the_range_is_shown_whole() {
    let line = Line::from("a😀b");
    assert_eq!(line.get_visible_graphemes(1..3), "😀");
}

#[test]
fn emoji_cut_by_the_range_is_shown_as_the_clip_marker() {
    let line = Line::from("a😀b");
    assert_eq!(line.get_visible_graphemes(0..2), "a⋯");
    assert_eq!(line.get_visible_graphemes(1..2), "⋯");
    assert_eq!(line.get_visible_graphemes(2..4), "⋯b");
    assert_eq!(line.get_visible_graphemes(2..3), "⋯");
}

#[test]
fn visible_graphemes_of_an_empty_range_are_empty() {
    let line = Line::from("hello");
    assert_eq!(line.get_visible_graphemes(2..2), "");
    assert_eq!(line.get_visible_graphemes(3..1), "");
    assert_eq!(line.get_visible_graphemes(5..9), "");
}

#[test]
fn visible_graphemes_take_the_columns_asked_for() {
    let line = Line::from("fghi");
    assert_eq!(line.get_visible_graphemes(0..4), "fghi");
    assert_eq!(line.get_visible_graphemes(1..3), "gh");
    assert_eq!(line.get_visible_graphemes(0..100), "fghi");
    assert_eq!(line.get_visible_graphemes(3..100), "i");
}

#[test]
fn tab_is_shown_as_a_space() {
    let line = Line::from("a\tb");
    assert_eq!(line.grapheme_count(), 3);
    assert_eq!(line.width(), 3);
    assert_eq!(line.get_visible_graphemes(0..3), "a b");
}

#[test]
fn space_is_shown_as_it_is() {
    let line = Line::from("a b");
    assert_eq!(line.get_visible_graphemes(0..3), "a b");
}

#[test]
fn wide_whitespace_is_shown_as_a_marker() {
    let line = Line::from("a\u{a0}b");
    assert_eq!(line.width(), 3);
    assert_eq!(line.get_visible_graphemes(0..3), "a␣b");
}

#[test]
fn zero_width_cluster_is_shown_as_a_marker() {
    let line = Line::from("a\u{200b}b");
    assert_eq!(line.grapheme_count(), 3);
    assert_eq!(line.width(), 3);
    assert_eq!(line.get_visible_graphemes(0..3), "a·b");
}

#[test]
fn lone_control_character_without_width_is_shown_as_a_marker() {
    let line = Line::from("\n");
    assert_eq!(line.grapheme_count(), 1);
    assert_eq!(line.width(), 1);
    assert_eq!(line.get_visible_graphemes(0..1), "▯");
}

#[test]
fn cluster_of_two_control_characters_is_shown_as_the_zero_width_marker() {
    let line = Line::from("\r\n");
    assert_eq!(line.grapheme_count(), 1);
    assert_eq!(line.get_visible_graphemes(0..1), "·");
}

#[test]
fn combining_mark_stays_with_its_base() {
    let line = Line::from("e\u{301}x");
    assert_eq!(line.width(), 2);
    assert_eq!(line.get_visible_graphemes(0..1), "e\u{301}");
    assert_eq!(line.get_visible_graphemes(1..2), "x");
}

#[test]
fn insert_char_inserts_before_the_grapheme() {
    let mut line = Line::from("hllo");
    line.insert_char('e', 1);
    assert_eq!(text_of(&line), "hello");
    line.insert_char('>', 0);
    assert_eq!(text_of(&line), ">hello");
    assert_eq!(line.grapheme_count(), 6);
}

#[test]
fn insert_char_counts_graphemes_not_characters() {
    let mut line = Line::from("e\u{301}x");
    line.insert_char('-', 1);
    assert_eq!(text_of(&line), "e\u{301}-x");
}

#[test]
fn insert_char_past_the_end_appends() {
    let mut line = Line::from("ab");
    line.insert_char('c', 2);
    assert_eq!(text_of(&line), "abc");
    line.insert_char('d', 99);
    assert_eq!(text_of(&line), "abcd");
}

#[test]
fn append_char_appends() {
    let mut line = Line::from("");
    line.append_char('h');
    line.append_char('i');
    assert_eq!(text_of(&line), "hi");
    assert_eq!(line.grapheme_count(), 2);
}

#[test]
fn delete_removes_the_whole_grapheme() {
    let mut line = Line::from("e\u{301}x");
    line.delete(0);
    assert_eq!(text_of(&line), "x");
    let mut line = Line::from("a😀b");
    line.delete(1);
    assert_eq!(text_of(&line), "ab");
}

#[test]
fn delete_out_of_range_does_nothing() {
    let mut line = Line::from("abc");
    line.delete(3);
    assert_eq!(text_of(&line), "abc");
    line.delete(100);
    assert_eq!(text_of(&line), "abc");
    let mut empty = Line::from("");
    empty.delete(0);
    assert_eq!(text_of(&empty), "");
}

#[test]
fn delete_last_removes_the_last_grapheme() {
    let mut line = Line::from("abe\u{301}");
    line.delete_last();
    assert_eq!(text_of(&line), "ab");
    line.delete_last();
    line.delete_last();
    assert_eq!(text_of(&line), "");
    line.delete_last();
    assert_eq!(text_of(&line), "");
}

#[test]
fn insert_then_delete_gives_the_line_back() {
    for text in ["", "hello", "a😀b", "e\u{301}x"] {
        let count = Line::from(text).grapheme_count();
        for at in 0..=count {
            let mut line = Line::from(text);
            line.insert_char('z', at);
            assert_eq!(line.grapheme_count(), count + 1);
            line.delete(at);
            assert_eq!(text_of(&line), text);
        }
    }
}

#[test]
fn inserted_mark_that_joins_its_neighbour_is_not_deleted_alone() {
    let mut line = Line::from("e");
    line.insert_char('\u{301}', 1);
    assert_eq!(line.grapheme_count(), 1);
    line.delete(1);
    assert_eq!(text_of(&line), "e\u{301}");
}

#[test]
fn append_joins_the_texts() {
    let mut line = Line::from("hello, ");
    line.append(&Line::from("world"));
    assert_eq!(text_of(&line), "hello, world");
    assert_eq!(line.grapheme_count(), 12);
    line.append(&Line::from(""));
    assert_eq!(text_of(&line), "hello, world");
}

#[test]
fn split_cuts_before_the_grapheme() {
    let mut line = Line::from("ae\u{301}b");
    let remainder = line.split(1);
    assert_eq!(text_of(&line), "a");
    assert_eq!(text_of(&remainder), "e\u{301}b");
    let mut line = Line::from("abc");
    let remainder = line.split(0);
    assert_eq!(text_of(&line), "");
    assert_eq!(text_of(&remainder), "abc");
}

#[test]
fn split_out_of_range_leaves_the_line_whole() {
    let mut line = Line::from("abc");
    let remainder = line.split(3);
    assert_eq!(text_of(&line), "abc");
    assert_eq!(text_of(&remainder), "");
    let remainder = line.split(17);
    assert_eq!(text_of(&line), "abc");
    assert_eq!(text_of(&remainder), "");
}

#[test]
fn split_then_append_gives_the_line_back() {
    for text in ["", "hello", "a😀b", "e\u{301}x", "🇷🇺🇸🇹"] {
        let count = Line::from(text).grapheme_count();
        for at in 0..=count + 1 {
            let mut line = Line::from(text);
            let remainder = line.split(at);
            line.append(&remainder);
            assert_eq!(text_of(&line), text);
            assert_eq!(line.grapheme_count(), count);
        }
    }
}

#[test]
fn search_forward_finds_the_first_occurrence_from_the_start() {
    let line = Line::from("hello");
    assert_eq!(line.search_forward("lo", 0), Some(3));
    assert_eq!(line.search_forward("l", 0), Some(2));
    assert_eq!(line.search_forward("l", 2), Some(2));
    assert_eq!(line.search_forward("l", 3), Some(3));
    assert_eq!(line.search_forward("l", 4), None);
    assert_eq!(line.search_forward("x", 0), None);
    assert_eq!(line.search_forward("hello", 0), Some(0));
    assert_eq!(line.search_forward("hello!", 0), None);
}

#[test]
fn search_forward_at_the_end_of_the_line_finds_nothing() {
    let line = Line::from("hello");
    assert_eq!(line.search_forward("o", 5), None);
    assert_eq!(line.search_forward("", 5), None);
    assert_eq!(Line::from("").search_forward("a", 0), None);
}

#[test]
fn search_forward_past_the_end_starts_over() {
    let line = Line::from("hello");
    assert_eq!(line.search_forward("h", 9), Some(0));
}

#[test]
fn search_forward_answers_in_graphemes() {
    let line = Line::from("e\u{301}😀lo");
    assert_eq!(line.search_forward("lo", 0), Some(2));
    assert_eq!(line.search_forward("😀", 1), Some(1));
    assert_eq!(line.search_forward("😀", 2), None);
}

#[test]
fn search_forward_for_part_of_a_grapheme_answers_with_the_next_one() {
    let line = Line::from("e\u{301}x");
    assert_eq!(line.search_forward("\u{301}", 0), Some(1));
    let line = Line::from("xe\u{301}");
    assert_eq!(line.search_forward("\u{301}", 0), Some(0));
}

#[test]
fn search_forward_for_nothing_finds_the_start() {
    let line = Line::from("hello");
    assert_eq!(line.search_forward("", 0), Some(0));
    assert_eq!(line.search_forward("", 3), Some(3));
}

#[test]
fn search_backward_finds_the_last_occurrence_before_the_start() {
    let line = Line::from("hello");
    assert_eq!(line.search_backward("l", 5), Some(3));
    assert_eq!(line.search_backward("l", 4), Some(3));
    assert_eq!(line.search_backward("l", 3), Some(2));
    assert_eq!(line.search_backward("l", 2), None);
    assert_eq!(line.search_backward("lo", 5), Some(3));
    assert_eq!(line.search_backward("lo", 4), None);
    assert_eq!(line.search_backward("x", 5), None);
}

#[test]
fn search_backward_at_the_start_of_the_line_finds_nothing() {
    let line = Line::from("hello");
    assert_eq!(line.search_backward("h", 0), None);
    assert_eq!(Line::from("").search_backward("a", 0), None);
    assert_eq!(Line::from("").search_backward("a", 3), None);
}

#[test]
fn search_backward_takes_matches_that_do_not_overlap() {
    let line = Line::from("aaa");
    assert_eq!(line.search_backward("aa", 3), Some(0));
    let line = Line::from("aaaa");
    assert_eq!(line.search_backward("aa", 4), Some(2));
}

#[test]
fn search_backward_answers_in_graphemes() {
    let line = Line::from("lo😀e\u{301}lo");
    assert_eq!(line.search_backward("lo", 6), Some(4));
    assert_eq!(line.search_backward("lo", 5), Some(0));
    assert_eq!(line.search_backward("😀", 4), Some(2));
}

#[test]
fn split_beyond_the_end_gives_a_line_without_graphemes() {
    let mut line = Line::from("abc");
    let remainder = line.split(4);
    assert_eq!(remainder.grapheme_count(), 0);
    assert_eq!(remainder.width(), 0);
    assert_eq!(text_of(&remainder), "");
    assert_eq!(text_of(&line), "abc");
    assert_eq!(line.grapheme_count(), 3);
}

#[test]
fn cluster_gives_the_grapheme_and_where_it_begins() {
    let line = Line::from("ae\u{301}😀b");
    assert_eq!(line.cluster(0), Some(String::from("a")));
    assert_eq!(line.cluster(1), Some(String::from("e\u{301}")));
    assert_eq!(line.cluster(2), Some(String::from("😀")));
    assert_eq!(line.cluster(3), Some(String::from("b")));
    assert_eq!(line.cluster(4), None);
    assert_eq!(line.cluster_start(0), Some(0));
    assert_eq!(line.cluster_start(1), Some(1));
    assert_eq!(line.cluster_start(2), Some(3));
    assert_eq!(line.cluster_start(3), Some(4));
    assert_eq!(line.cluster_start(4), None);
    assert_eq!(Line::from("").cluster(0), None);
    assert_eq!(Line::from("").cluster_start(0), None);
}

#[test]
fn inserted_stands_alone_tells_whether_the_character_joins_a_neighbour() {
    let line = Line::from("e");
    assert!(line.inserted_stands_alone('x', 0));
    assert!(line.inserted_stands_alone('x', 1));
    assert!(!line.inserted_stands_alone('x', 7));
    assert!(!line.inserted_stands_alone('\u{301}', 1));
    assert!(line.inserted_stands_alone('\u{301}', 0));
    assert_eq!(text_of(&line), "e");
    let flag = Line::from("🇩");
    assert!(!flag.inserted_stands_alone('🇪', 1));
    assert!(!flag.inserted_stands_alone('🇪', 0));
    assert!(flag.inserted_stands_alone('a', 1));
    assert!(Line::from("").inserted_stands_alone('a', 0));
}

#[test]
fn each_grapheme_moves_the_column_on_by_one_or_two() {
    for text in ["hello", "a😀b", "\ta\u{200b}b你", "e\u{301}x", "🇷🇺🇸🇹"] {
        let line = Line::from(text);
        for n in 0..line.grapheme_count() {
            let step = line.width_until(n + 1) - line.width_until(n);
            assert!(step == 1 || step == 2);
        }
    }
}
