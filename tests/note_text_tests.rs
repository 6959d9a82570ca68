use notes_tui::note_text::{note_text, text_lines};

fn chars(s: &str) -> Vec<char> {
    s.chars().collect()
}

fn strings(lines: &[Vec<char>]) -> Vec<String> {
    lines.iter().map(|l| l.iter().collect()).collect()
}

#[test]
fn note_text_ends_each_line_with_newline() {
    let text = note_text(&vec![chars("one"), chars(""), chars("three")]);
    assert_eq!(text.iter().collect::<String>(), "one\n\nthree\n");
}

#[test]
fn note_text_of_no_lines_is_empty() {
    assert!(note_text(&Vec::new()).is_empty());
}

#[test]
fn text_lines_splits_at_newlines() {
    assert_eq!(strings(&text_lines(&chars("one\ntwo\n"))), vec!["one", "two"]);
    assert_eq!(strings(&text_lines(&chars("one\ntwo"))), vec!["one", "two"]);
    assert_eq!(strings(&text_lines(&chars("a\n\nb\n\n"))), vec!["a", "", "b", ""]);
}

#[test]
fn text_lines_drops_carriage_return_of_line_ending() {
    assert_eq!(strings(&text_lines(&chars("one\r\ntwo\r\n"))), vec!["one", "two"]);
    assert_eq!(strings(&text_lines(&chars("a\rb\n"))), vec!["a\rb"]);
}

#[test]
fn text_lines_of_empty_text_is_one_empty_line() {
    assert_eq!(strings(&text_lines(&chars(""))), vec![""]);
    assert_eq!(strings(&text_lines(&chars("\n"))), vec![""]);
}

#[test]
fn saved_text_reads_back_as_same_lines() {
    let lines = vec![chars("first"), chars(""), chars("third line")];
    assert_eq!(text_lines(&note_text(&lines)), lines);
}
