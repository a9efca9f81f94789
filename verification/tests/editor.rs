//! Tests of the buffer's editing model: insertion, retreat and mark-out,
//! cursor movement, and line handling.

use typewriter::buffer::Buffer;
use typewriter::types::{Character, CharacterState, Line};

#[test]
fn test_buffer_creation() {
    let buffer = Buffer::new(100);
    assert_eq!(buffer.lines.len(), 1);
    assert_eq!(buffer.cursor_position().0, 0);
    assert_eq!(buffer.cursor_position().1, 0);
    assert!(!buffer.is_mark_out_mode());
}

#[test]
fn test_character_insertion() {
    let mut buffer = Buffer::new(100);

    buffer.insert_char('a', 0);
    assert_eq!(buffer.lines[0].characters[0].value, 'a');
    assert_eq!(buffer.cursor_position().1, 1);

    buffer.insert_char('b', 0);
    assert_eq!(buffer.lines[0].characters[1].value, 'b');
    assert_eq!(buffer.cursor_position().1, 2);
}

#[test]
fn test_backspace_and_mark_out() {
    let mut buffer = Buffer::new(100);

    buffer.insert_char('a', 0);
    buffer.insert_char('b', 0);
    buffer.insert_char('c', 0);

    buffer.backspace();
    assert!(buffer.is_mark_out_mode());
    assert_eq!(buffer.cursor_position().1, 2);

    buffer.insert_char('x', 0);
    assert!(!buffer.is_mark_out_mode()); // reached the end of existing text
    assert_eq!(buffer.lines[0].characters[2].state, CharacterState::MarkedOut);

    // a second retreat engages the mode again for the cell before it
    buffer.backspace();
    assert!(buffer.is_mark_out_mode());
}

#[test]
fn test_move_right() {
    let mut buffer = Buffer::new(100);

    buffer.insert_char('a', 0);
    buffer.insert_char('b', 0);

    buffer.backspace();
    assert!(buffer.is_mark_out_mode());

    buffer.move_right();
    assert_eq!(buffer.cursor_position().1, 2);
    assert!(!buffer.is_mark_out_mode()); // mode clears once the cursor reaches line end

    // does not move past the end of the text
    buffer.move_right();
    assert_eq!(buffer.cursor_position().1, 2);
    assert!(!buffer.is_mark_out_mode());
}

#[test]
fn test_new_line() {
    let mut buffer = Buffer::new(100);

    buffer.insert_char('a', 0);
    buffer.new_line();

    assert_eq!(buffer.lines.len(), 2);
    assert_eq!(buffer.cursor_position().0, 1);
    assert_eq!(buffer.cursor_position().1, 0);
    assert!(!buffer.is_mark_out_mode());

    // the new line starts fresh
    buffer.insert_char('b', 0);
    assert_eq!(buffer.lines[1].characters[0].value, 'b');
    assert_eq!(buffer.cursor_position().1, 1);
}

#[test]
fn test_backspace_at_line_start() {
    let mut buffer = Buffer::new(100);

    buffer.insert_char('a', 0);
    buffer.new_line();
    buffer.insert_char('b', 0);

    buffer.backspace();
    assert!(buffer.is_mark_out_mode());
    buffer.backspace();

    // moved to the end of the previous line
    assert_eq!(buffer.cursor_position().0, 0);
    assert_eq!(buffer.cursor_position().1, 1);
    assert!(!buffer.is_mark_out_mode());
}

#[test]
fn test_new_character() {
    let c = Character::new('a', 0);
    assert_eq!(c.value, 'a');
    assert_eq!(c.state, CharacterState::Normal);
}

#[test]
fn test_mark_out_character() {
    let mut c = Character::new('a', 0);
    c.mark_out();
    assert_eq!(c.state, CharacterState::MarkedOut);
}

#[test]
fn test_character_timestamp() {
    let c = Character::new('a', 10);
    assert_eq!(c.timestamp, 10);
}

#[test]
fn test_line_operations() {
    let mut line = Line::new();
    assert!(line.is_empty());
    assert_eq!(line.len(), 0);

    line.push(Character::new('a', 0));
    assert!(!line.is_empty());
    assert_eq!(line.len(), 1);
    assert_eq!(line.characters[0].value, 'a');
}

#[test]
fn typed_run_appends_normal_cells() {
    // a run of insertions grows the line by one Normal cell per symbol
    let mut buffer = Buffer::new(100);
    let symbols = ['t', 'y', 'p', 'e', 'd'];
    for (k, c) in symbols.iter().enumerate() {
        buffer.insert_char(*c, k as u64);
    }
    assert_eq!(buffer.lines[0].characters.len(), symbols.len());
    for (k, c) in symbols.iter().enumerate() {
        assert_eq!(buffer.lines[0].characters[k].value, *c);
        assert_eq!(buffer.lines[0].characters[k].state, CharacterState::Normal);
        assert_eq!(buffer.lines[0].characters[k].timestamp, k as u64);
    }
    assert!(!buffer.is_mark_out_mode());
}

#[test]
fn retreat_then_type_same_count_restores_mode_and_length() {
    let mut buffer = Buffer::new(100);
    for c in ['w', 'o', 'r', 'd'] {
        buffer.insert_char(c, 0);
    }
    // retreat three times, then type three symbols
    buffer.backspace();
    buffer.backspace();
    buffer.backspace();
    assert!(buffer.is_mark_out_mode());
    buffer.insert_char('x', 1);
    buffer.insert_char('y', 1);
    assert!(buffer.is_mark_out_mode());
    buffer.insert_char('z', 1);
    assert!(!buffer.is_mark_out_mode());
    assert_eq!(buffer.cursor_position().1, 4);
    // the line length never changed; the last three cells are crossed out
    // but keep their original symbols and timestamps
    assert_eq!(buffer.lines[0].characters.len(), 4);
    assert_eq!(buffer.lines[0].characters[0].state, CharacterState::Normal);
    for k in 1..4 {
        assert_eq!(buffer.lines[0].characters[k].state, CharacterState::MarkedOut);
        assert_eq!(buffer.lines[0].characters[k].timestamp, 0);
    }
    assert_eq!(buffer.lines[0].characters[1].value, 'o');
    assert_eq!(buffer.lines[0].characters[2].value, 'r');
    assert_eq!(buffer.lines[0].characters[3].value, 'd');
}

#[test]
fn backspace_at_document_start_is_a_no_op() {
    let mut buffer = Buffer::new(100);
    buffer.backspace();
    assert_eq!(buffer.cursor_position(), (0, 0));
    assert!(!buffer.is_mark_out_mode());
    assert_eq!(buffer.lines.len(), 1);
}

#[test]
fn modified_flag_tracks_insertions_and_saves() {
    let mut buffer = Buffer::new(100);
    assert!(!buffer.is_modified());
    buffer.insert_char('a', 0);
    assert!(buffer.is_modified());
    buffer.mark_saved();
    assert!(!buffer.is_modified());
}

#[test]
fn set_file_path_records_the_path() {
    let mut buffer = Buffer::new(100);
    assert!(buffer.file_path.is_none());
    buffer.set_file_path("notes.txt");
    assert_eq!(buffer.file_path.as_deref(), Some("notes.txt"));
}
