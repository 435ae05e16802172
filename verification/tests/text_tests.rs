use ownership_basics::text::{calculate_length, first_word, OffsetError, TextBuffer};

#[test]
fn first_word_finds_the_first_space() {
    assert_eq!(first_word(&String::from("hello world")), 5);
}

#[test]
fn first_word_of_a_single_word_is_its_length() {
    assert_eq!(first_word(&String::from("hello")), 5);
}

#[test]
fn first_word_of_an_empty_string_is_zero() {
    assert_eq!(first_word(&String::from("")), 0);
}

#[test]
fn first_word_with_a_leading_space_is_zero() {
    assert_eq!(first_word(&String::from(" hello")), 0);
}

#[test]
fn first_word_stops_at_the_first_of_several_spaces() {
    assert_eq!(first_word(&String::from("a b c")), 1);
}

#[test]
fn calculate_length_returns_the_character_count() {
    assert_eq!(calculate_length(&String::from("hello")), 5);
    assert_eq!(calculate_length(&String::from("")), 0);
}

#[test]
fn fresh_offset_is_accepted() {
    let buffer = TextBuffer::new(String::from("hello world"));
    let offset = buffer.first_word_offset();
    assert_eq!(buffer.checked_offset(&offset), Ok(5));
}

#[test]
fn offset_goes_stale_when_the_buffer_is_cleared() {
    let mut buffer = TextBuffer::new(String::from("hello world"));
    let offset = buffer.first_word_offset();
    buffer.clear();
    assert_eq!(buffer.checked_offset(&offset), Err(OffsetError::Stale));
    assert_eq!(buffer.text(), "");
}

#[test]
fn offset_goes_stale_when_the_text_is_replaced() {
    let mut buffer = TextBuffer::new(String::from("hello world"));
    let offset = buffer.first_word_offset();
    buffer.set_text(String::from("bye now"));
    assert_eq!(buffer.checked_offset(&offset), Err(OffsetError::Stale));
    let fresh = buffer.first_word_offset();
    assert_eq!(buffer.checked_offset(&fresh), Ok(3));
}
