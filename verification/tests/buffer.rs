use hecto::buffer::Buffer;
use hecto::location::Location;

fn at(line_idx: usize, grapheme_idx: usize) -> Location {
    Location { line_idx, grapheme_idx }
}

fn texts(buffer: &Buffer) -> Vec<String> {
    buffer.lines.iter().map(|line| line.to_string()).collect()
}

fn document(lines: &[&str]) -> Buffer {
    let mut contents = String::new();
    for line in lines {
        contents.push_str(line);
        contents.push('\n');
    }
    Buffer::load("test.txt", &contents)
}

#[test]
fn default_buffer_is_empty_and_clean() {
    let buffer = Buffer::default();
    assert!(buffer.is_empty());
    assert_eq!(buffer.height(), 0);
    assert!(!buffer.dirty);
    assert!(!buffer.is_file_loaded());
    assert_eq!(buffer.file_name, None);
}

#[test]
fn load_makes_one_line_for_each_line_of_text() {
    let buffer = Buffer::load("notes.txt", "abc\nde\nfghi");
    assert_eq!(texts(&buffer), vec!["abc", "de", "fghi"]);
    assert_eq!(buffer.height(), 3);
    assert!(!buffer.is_empty());
    assert!(!buffer.dirty);
    assert!(buffer.is_file_loaded());
    assert_eq!(buffer.file_name, Some(String::from("notes.txt")));
}

#[test]
fn load_strips_the_terminators() {
    assert_eq!(texts(&Buffer::load("f", "abc\nde\n")), vec!["abc", "de"]);
    assert_eq!(texts(&Buffer::load("f", "abc\r\nde\r\n")), vec!["abc", "de"]);
    assert_eq!(texts(&Buffer::load("f", "a\n\nb")), vec!["a", "", "b"]);
    assert_eq!(texts(&Buffer::load("f", "\n")), vec![""]);
    assert_eq!(texts(&Buffer::load("f", "\r\n")), vec![""]);
    assert_eq!(texts(&Buffer::load("f", "\n\n")), vec!["", ""]);
}

#[test]
fn load_keeps_a_carriage_return_that_no_line_feed_follows() {
    assert_eq!(texts(&Buffer::load("f", "ab\rcd\n")), vec!["ab\rcd"]);
    assert_eq!(texts(&Buffer::load("f", "a\r")), vec!["a\r"]);
    assert_eq!(texts(&Buffer::load("f", "a\r\r\n")), vec!["a\r"]);
}

#[test]
fn load_of_an_empty_file_gives_no_line() {
    let buffer = Buffer::load("f", "");
    assert!(buffer.is_empty());
    assert_eq!(buffer.height(), 0);
}

#[test]
fn load_splits_as_the_standard_library_does() {
    let files =
        ["", "a", "a\n", "a\r\n", "\n", "a\nb", "a\n\n", "\r", "x\r\ny\rz\n\r\n", "é\n😀"];
    for contents in files {
        let expected: Vec<String> = contents.lines().map(String::from).collect();
        assert_eq!(texts(&Buffer::load("f", contents)), expected);
    }
}

#[test]
fn contents_end_each_line_with_a_line_feed() {
    assert_eq!(document(&["hi", "lo"]).contents(), "hi\nlo\n");
    assert_eq!(document(&["", ""]).contents(), "\n\n");
    assert_eq!(Buffer::default().contents(), "");
}

#[test]
fn save_without_a_file_asks_for_nothing() {
    let mut buffer = Buffer::default();
    buffer.insert_char('x', at(0, 0));
    assert!(buffer.save().is_none());
    assert!(buffer.dirty);
}

#[test]
fn save_asks_to_write_the_document_to_its_file() {
    let mut buffer = Buffer::load("notes.txt", "abc\r\nde");
    buffer.insert_char('!', at(1, 2));
    let request = buffer.save().unwrap();
    assert_eq!(request.file_name, "notes.txt");
    assert_eq!(request.contents, "abc\nde!\n");
    assert!(buffer.dirty);
}

#[test]
fn save_as_asks_to_write_the_document_to_the_file_named() {
    let buffer = document(&["one", "two"]);
    let request = buffer.save_as("other.txt");
    assert_eq!(request.file_name, "other.txt");
    assert_eq!(request.contents, "one\ntwo\n");
    assert_eq!(buffer.file_name, Some(String::from("test.txt")));
}

#[test]
fn finished_save_clears_the_dirty_flag_and_takes_the_name() {
    let mut buffer = Buffer::default();
    buffer.insert_char('x', at(0, 0));
    assert!(buffer.dirty);
    buffer.finish_save("new.txt", true);
    assert!(!buffer.dirty);
    assert_eq!(buffer.file_name, Some(String::from("new.txt")));
    assert_eq!(texts(&buffer), vec!["x"]);
}

#[test]
fn failed_save_leaves_the_dirty_flag_and_the_name() {
    let mut buffer = Buffer::load("old.txt", "a");
    buffer.insert_char('x', at(0, 0));
    buffer.finish_save("new.txt", false);
    assert!(buffer.dirty);
    assert_eq!(buffer.file_name, Some(String::from("old.txt")));
    assert_eq!(texts(&buffer), vec!["xa"]);
    let mut unnamed = Buffer::default();
    unnamed.insert_char('x', at(0, 0));
    unnamed.finish_save("new.txt", false);
    assert!(unnamed.dirty);
    assert_eq!(unnamed.file_name, None);
}

#[test]
fn insert_char_in_a_line() {
    let mut buffer = document(&["hllo", "world"]);
    buffer.insert_char('e', at(0, 1));
    assert_eq!(texts(&buffer), vec!["hello", "world"]);
    assert!(buffer.dirty);
}

#[test]
fn insert_char_behind_the_last_line_makes_a_new_line() {
    let mut buffer = document(&["a"]);
    buffer.insert_char('b', at(1, 0));
    assert_eq!(texts(&buffer), vec!["a", "b"]);
    assert!(buffer.dirty);
    let mut empty = Buffer::default();
    empty.insert_char('x', at(0, 5));
    assert_eq!(texts(&empty), vec!["x"]);
}

#[test]
fn insert_char_beyond_the_document_does_nothing() {
    let mut buffer = document(&["a"]);
    buffer.insert_char('b', at(2, 0));
    assert_eq!(texts(&buffer), vec!["a"]);
    assert!(!buffer.dirty);
}

#[test]
fn delete_within_a_line_removes_the_grapheme() {
    let mut buffer = document(&["ae\u{301}b", "c"]);
    buffer.delete(at(0, 1));
    assert_eq!(texts(&buffer), vec!["ab", "c"]);
    assert!(buffer.dirty);
}

#[test]
fn delete_at_the_end_of_a_line_joins_the_next_line() {
    let mut buffer = document(&["ab", "cd", "ef"]);
    buffer.delete(at(0, 2));
    assert_eq!(texts(&buffer), vec!["abcd", "ef"]);
    assert!(buffer.dirty);
    buffer.delete(at(0, 9));
    assert_eq!(texts(&buffer), vec!["abcdef"]);
}

#[test]
fn delete_at_the_end_of_the_document_does_nothing() {
    let mut buffer = document(&["ab", "cd"]);
    buffer.delete(at(1, 2));
    assert_eq!(texts(&buffer), vec!["ab", "cd"]);
    assert!(!buffer.dirty);
    buffer.delete(at(2, 0));
    assert_eq!(texts(&buffer), vec!["ab", "cd"]);
    buffer.delete(at(7, 0));
    assert_eq!(texts(&buffer), vec!["ab", "cd"]);
    assert!(!buffer.dirty);
}

#[test]
fn insert_newline_cuts_the_line() {
    let mut buffer = document(&["hello", "world"]);
    buffer.insert_newline(at(0, 2));
    assert_eq!(texts(&buffer), vec!["he", "llo", "world"]);
    assert!(buffer.dirty);
}

#[test]
fn insert_newline_at_the_ends_of_a_line() {
    let mut buffer = document(&["ab"]);
    buffer.insert_newline(at(0, 0));
    assert_eq!(texts(&buffer), vec!["", "ab"]);
    buffer.insert_newline(at(1, 2));
    assert_eq!(texts(&buffer), vec!["", "ab", ""]);
}

#[test]
fn insert_newline_behind_the_last_line_adds_an_empty_line() {
    let mut buffer = document(&["ab"]);
    buffer.insert_newline(at(1, 0));
    assert_eq!(texts(&buffer), vec!["ab", ""]);
    assert!(buffer.dirty);
    let mut empty = Buffer::default();
    empty.insert_newline(at(0, 0));
    assert_eq!(texts(&empty), vec![""]);
}

#[test]
fn insert_newline_beyond_the_document_does_nothing() {
    let mut buffer = document(&["ab"]);
    buffer.insert_newline(at(2, 0));
    assert_eq!(texts(&buffer), vec!["ab"]);
    assert!(!buffer.dirty);
}

#[test]
fn typing_two_lines_into_an_empty_buffer() {
    let mut buffer = Buffer::default();
    buffer.insert_char('h', at(0, 0));
    buffer.insert_char('i', at(0, 1));
    buffer.insert_newline(at(0, 2));
    buffer.insert_char('l', at(1, 0));
    buffer.insert_char('o', at(1, 1));
    assert_eq!(texts(&buffer), vec!["hi", "lo"]);
    assert_eq!(buffer.height(), 2);
    assert!(buffer.dirty);
}

#[test]
fn search_forward_finds_the_occurrence_in_the_first_line() {
    let buffer = document(&["hello", "world"]);
    assert_eq!(buffer.search_forward("lo", at(0, 0)), Some(at(0, 3)));
    assert_eq!(buffer.search_forward("lo", at(0, 3)), Some(at(0, 3)));
}

#[test]
fn search_forward_goes_on_in_the_next_line() {
    let buffer = document(&["hello", "world"]);
    assert_eq!(buffer.search_forward("lo", at(0, 4)), None);
    assert_eq!(buffer.search_forward("o", at(0, 5)), Some(at(1, 1)));
    assert_eq!(buffer.search_forward("l", at(0, 4)), Some(at(1, 3)));
    assert_eq!(buffer.search_forward("hello", at(1, 0)), None);
}

#[test]
fn search_forward_does_not_begin_again_at_the_top() {
    let buffer = document(&["hello", "world"]);
    assert_eq!(buffer.search_forward("h", at(0, 1)), None);
    assert_eq!(buffer.search_forward("h", at(2, 0)), None);
    assert_eq!(buffer.search_forward("h", at(9, 0)), None);
}

#[test]
fn search_backward_finds_the_occurrence_before_the_start() {
    let buffer = document(&["hello", "world"]);
    assert_eq!(buffer.search_backward("lo", at(2, 0)), Some(at(0, 3)));
    assert_eq!(buffer.search_backward("lo", at(1, 5)), Some(at(0, 3)));
    assert_eq!(buffer.search_backward("o", at(1, 5)), Some(at(1, 1)));
    assert_eq!(buffer.search_backward("o", at(1, 1)), Some(at(0, 4)));
    assert_eq!(buffer.search_backward("o", at(0, 4)), None);
}

#[test]
fn search_backward_does_not_begin_again_at_the_bottom() {
    let buffer = document(&["hello", "world"]);
    assert_eq!(buffer.search_backward("d", at(0, 5)), None);
    assert_eq!(buffer.search_backward("w", at(1, 0)), None);
}

#[test]
fn search_backward_from_beyond_the_document_looks_at_the_last_line() {
    let buffer = document(&["hello", "world"]);
    assert_eq!(buffer.search_backward("d", at(2, 0)), Some(at(1, 4)));
    assert_eq!(buffer.search_backward("d", at(30, 7)), Some(at(1, 4)));
    assert_eq!(Buffer::default().search_backward("d", at(0, 0)), None);
}

#[test]
fn searches_meet_at_the_same_occurrences() {
    let buffer = document(&["lo and lo", "", "hello"]);
    let mut forward = Vec::new();
    let mut from = at(0, 0);
    while let Some(found) = buffer.search_forward("lo", from) {
        forward.push(found);
        from = at(found.line_idx, found.grapheme_idx + 1);
    }
    assert_eq!(forward, vec![at(0, 0), at(0, 7), at(2, 3)]);
    let mut backward = Vec::new();
    let mut from = at(3, 0);
    while let Some(found) = buffer.search_backward("lo", from) {
        backward.push(found);
        from = found;
    }
    backward.reverse();
    assert_eq!(backward, forward);
}

#[test]
fn what_save_writes_loads_back_as_the_same_document() {
    let documents: [&[&str]; 5] =
        [&[], &[""], &["abc"], &["hi", "", "lo"], &["a\rb", "é😀", "", ""]];
    for lines in documents {
        let buffer = document(lines);
        let loaded = Buffer::load("again.txt", &buffer.contents());
        assert_eq!(texts(&loaded), texts(&buffer));
        assert_eq!(texts(&loaded), lines.to_vec());
    }
}

#[test]
fn line_that_ends_in_a_carriage_return_loses_it_on_the_way() {
    let mut buffer = Buffer::default();
    buffer.insert_char('a', at(0, 0));
    buffer.insert_char('\r', at(0, 1));
    assert_eq!(texts(&buffer), vec!["a\r"]);
    let loaded = Buffer::load("again.txt", &buffer.contents());
    assert_eq!(texts(&loaded), vec!["a"]);
}
