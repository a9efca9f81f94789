//! Tests of saving and loading: what the saved text holds, how text is
//! split back into lines, and that a document without cross-outs survives
//! the round trip byte for byte.

use typewriter::buffer::Buffer;
use typewriter::types::CharacterState;

#[test]
fn saved_text_excludes_crossed_out_cells() {
    // type "ab", retreat once, type "x": the 'b' cell is crossed out with
    // its symbol unchanged, the cursor returns to the end, and the saved
    // output for the line is "a" alone — 'x' was never added as a cell
    let mut buffer = Buffer::new(100);
    buffer.insert_char('a', 0);
    buffer.insert_char('b', 0);
    buffer.backspace();
    assert_eq!(buffer.cursor_position().1, 1);
    assert!(buffer.is_mark_out_mode());
    buffer.insert_char('x', 1);
    assert_eq!(buffer.lines[0].characters[1].state, CharacterState::MarkedOut);
    assert_eq!(buffer.lines[0].characters[1].value, 'b');
    assert_eq!(buffer.cursor_position().1, 2);
    assert!(!buffer.is_mark_out_mode());
    assert_eq!(buffer.saved_text(), vec!['a']);
}

#[test]
fn saved_text_joins_lines_with_newlines() {
    let mut buffer = Buffer::new(100);
    buffer.insert_char('a', 0);
    buffer.new_line();
    buffer.insert_char('b', 0);
    assert_eq!(buffer.saved_text(), vec!['a', '\n', 'b']);
}

#[test]
fn empty_buffer_saves_to_empty_text() {
    let buffer = Buffer::new(100);
    assert_eq!(buffer.saved_text(), Vec::<char>::new());
}

#[test]
fn from_text_of_empty_text_gives_one_empty_line() {
    let buffer = Buffer::from_text(&Vec::new(), 100, 0);
    assert_eq!(buffer.lines.len(), 1);
    assert!(buffer.lines[0].characters.is_empty());
    assert_eq!(buffer.cursor_position(), (0, 0));
    assert!(!buffer.is_mark_out_mode());
    assert!(!buffer.is_modified());
}

#[test]
fn from_text_splits_lines_and_stamps_cells() {
    let text: Vec<char> = "one\ntwo".chars().collect();
    let buffer = Buffer::from_text(&text, 100, 7);
    assert_eq!(buffer.lines.len(), 2);
    let first: Vec<char> = buffer.lines[0].characters.iter().map(|c| c.value).collect();
    let second: Vec<char> = buffer.lines[1].characters.iter().map(|c| c.value).collect();
    assert_eq!(first, vec!['o', 'n', 'e']);
    assert_eq!(second, vec!['t', 'w', 'o']);
    for line in &buffer.lines {
        for cell in &line.characters {
            assert_eq!(cell.state, CharacterState::Normal);
            assert_eq!(cell.timestamp, 7);
        }
    }
}

#[test]
fn from_text_treats_final_newline_as_optional() {
    let text: Vec<char> = "one\n".chars().collect();
    let buffer = Buffer::from_text(&text, 100, 0);
    assert_eq!(buffer.lines.len(), 1);
    assert_eq!(buffer.lines[0].characters.len(), 3);
}

#[test]
fn from_text_strips_carriage_return_before_newline() {
    let text: Vec<char> = "one\r\ntwo\r".chars().collect();
    let buffer = Buffer::from_text(&text, 100, 0);
    assert_eq!(buffer.lines.len(), 2);
    // the '\r' before the newline is stripped; the final lone '\r' is kept
    assert_eq!(buffer.lines[0].characters.len(), 3);
    let second: Vec<char> = buffer.lines[1].characters.iter().map(|c| c.value).collect();
    assert_eq!(second, vec!['t', 'w', 'o', '\r']);
}

#[test]
fn round_trip_without_cross_outs_is_byte_identical() {
    let mut buffer = Buffer::new(100);
    for c in ['h', 'e', 'l', 'l', 'o'] {
        buffer.insert_char(c, 3);
    }
    buffer.new_line();
    for c in ['w', 'o', 'r', 'l', 'd'] {
        buffer.insert_char(c, 4);
    }
    let saved = buffer.saved_text();
    let reloaded = Buffer::from_text(&saved, 100, 99);
    assert_eq!(reloaded.saved_text(), saved);
    assert_eq!(reloaded.lines.len(), 2);
    let first: Vec<char> = reloaded.lines[0].characters.iter().map(|c| c.value).collect();
    assert_eq!(first, vec!['h', 'e', 'l', 'l', 'o']);
}

#[test]
fn round_trip_of_a_single_typed_line() {
    let mut buffer = Buffer::new(100);
    for c in ['o', 'k'] {
        buffer.insert_char(c, 0);
    }
    let saved = buffer.saved_text();
    assert_eq!(saved, vec!['o', 'k']);
    let reloaded = Buffer::from_text(&saved, 100, 0);
    assert_eq!(reloaded.saved_text(), saved);
}
