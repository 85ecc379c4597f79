use gorkitale::text::wrap_text;

#[test]
fn empty_text_gives_one_empty_line() {
    assert_eq!(wrap_text("", 75), vec!["".to_string()]);
}

#[test]
fn short_text_fits_on_one_line() {
    assert_eq!(wrap_text("abc", 75), vec!["abc".to_string()]);
}

#[test]
fn long_text_chunks_with_short_tail() {
    assert_eq!(
        wrap_text("abcde", 2),
        vec!["ab".to_string(), "cd".to_string(), "e".to_string()]
    );
}

#[test]
fn exact_multiple_has_no_tail() {
    assert_eq!(wrap_text("abcd", 2), vec!["ab".to_string(), "cd".to_string()]);
}

#[test]
fn chunk_boundary_at_line_width() {
    let text = "x".repeat(76);
    let lines = wrap_text(&text, 75);
    assert_eq!(lines.len(), 2);
    assert_eq!(lines[0].len(), 75);
    assert_eq!(lines[1], "x");
}

#[test]
fn chunks_concatenate_back_to_the_text() {
    let text = "the quick brown fox jumps over the lazy dog";
    for width in 1..10usize {
        let joined: String = wrap_text(text, width).concat();
        assert_eq!(joined, text);
    }
}

#[test]
fn multibyte_characters_count_as_single_chars() {
    let lines = wrap_text("çakar çakmaz", 6);
    assert_eq!(lines, vec!["çakar ".to_string(), "çakmaz".to_string()]);
}
