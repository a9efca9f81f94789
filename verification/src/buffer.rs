//! The document model: an append-only sequence of lines, a cursor, and the
//! mark-out editing mode. Characters are never deleted; typing over
//! previously retreated-over text crosses the existing cells out instead.

use vstd::prelude::*;
use crate::types::{Character, CharacterState, Line};
use crate::persist::{spec_doc_text, spec_line_text, spec_symbols, spec_parse_lines, spec_load_lines};

verus! {

/// The mathematical model of a [`Buffer`]: the lines as sequences of
/// character cells, the cursor, the mark-out flag, and the bookkeeping
/// fields. Every public buffer operation is specified as a function on
/// this model.
#[verifier::ext_equal]
pub struct BufferModel {
    /// Each line, as the sequence of its character cells.
    pub lines: Seq<Seq<Character>>,
    /// Index of the line the cursor stands on.
    pub cursor_line: nat,
    /// Column of the cursor within the current line; may equal the line length.
    pub cursor_column: nat,
    /// Whether the next insertion crosses out an existing cell.
    pub mark_out: bool,
    /// Minimum age, in milliseconds, before a cell counts as revealed.
    pub reveal_rate: u64,
    /// The file the buffer is associated with, if any.
    pub file_path: Option<Seq<char>>,
    /// Whether the buffer holds unsaved changes.
    pub modified: bool,
}

impl BufferModel {
    /// The line the cursor currently stands on.
    pub open spec fn current_line(self) -> Seq<Character> {
        self.lines[self.cursor_line as int]
    }

    /// Well-formedness: there is at least one line, the cursor addresses an
    /// existing line, it sits at most one past that line's last cell, and
    /// mark-out mode holds only while the cursor stands on an existing cell.
    pub open spec fn inv(self) -> bool {
        &&& self.lines.len() >= 1
        &&& self.cursor_line < self.lines.len()
        &&& self.cursor_column <= self.current_line().len()
        &&& self.mark_out ==> self.cursor_column < self.current_line().len()
    }
}

/// The effect of [`Buffer::insert_char`] on the model. In mark-out mode the
/// cell under the cursor is crossed out in place (no cell is added) and the
/// mode clears once the cursor reaches the end of the line's existing cells;
/// otherwise a fresh `Normal` cell stamped `now` is appended to the current
/// line. Either way the cursor advances one column and the buffer is marked
/// modified.
pub open spec fn spec_insert_char(m: BufferModel, c: char, now: u64) -> BufferModel {
    if m.mark_out {
        let marked = (Character {
            state: CharacterState::MarkedOut,
            ..m.current_line()[m.cursor_column as int]
        });
        let new_line = m.current_line().update(m.cursor_column as int, marked);
        BufferModel {
            lines: m.lines.update(m.cursor_line as int, new_line),
            cursor_column: m.cursor_column + 1,
            mark_out: m.cursor_column + 1 < new_line.len(),
            modified: true,
            ..m
        }
    } else {
        let cell = (Character { value: c, state: CharacterState::Normal, timestamp: now });
        let new_line = m.current_line().push(cell);
        BufferModel {
            lines: m.lines.update(m.cursor_line as int, new_line),
            cursor_column: m.cursor_column + 1,
            modified: true,
            ..m
        }
    }
}

/// The effect of [`Buffer::backspace`] on the model: within a line the
/// cursor retreats one column and mark-out mode engages; at column zero of a
/// later line the cursor moves to the end of the previous line with mark-out
/// mode cleared; at the very start of the document nothing changes.
pub open spec fn spec_backspace(m: BufferModel) -> BufferModel {
    if m.cursor_column > 0 {
        BufferModel { cursor_column: (m.cursor_column - 1) as nat, mark_out: true, ..m }
    } else if m.cursor_line > 0 {
        BufferModel {
            cursor_line: (m.cursor_line - 1) as nat,
            cursor_column: m.lines[m.cursor_line - 1].len(),
            mark_out: false,
            ..m
        }
    } else {
        m
    }
}

/// The effect of [`Buffer::move_right`] on the model: the cursor advances
/// one column if cells remain, and mark-out mode clears once the cursor
/// reaches the end of the line's existing cells.
pub open spec fn spec_move_right(m: BufferModel) -> BufferModel {
    if m.cursor_column < m.current_line().len() {
        let c2 = m.cursor_column + 1;
        BufferModel {
            cursor_column: c2,
            mark_out: if c2 >= m.current_line().len() { false } else { m.mark_out },
            ..m
        }
    } else {
        m
    }
}

/// The effect of [`Buffer::new_line`] on the model: a new empty line is
/// appended and the cursor moves to its start with mark-out mode cleared.
pub open spec fn spec_new_line(m: BufferModel) -> BufferModel {
    BufferModel {
        lines: m.lines.push(Seq::empty()),
        cursor_line: m.lines.len(),
        cursor_column: 0,
        mark_out: false,
        ..m
    }
}

/// The main editor buffer: the whole document plus the cursor state.
#[derive(Debug)]
pub struct Buffer {
    /// All lines in the buffer. Lines are never merged or removed.
    pub lines: Vec<Line>,
    /// Index of the line being edited.
    current_line: usize,
    /// Column position in the current line.
    current_column: usize,
    /// Whether we are in mark-out mode (after a retreat).
    mark_out_mode: bool,
    /// Minimum age, in milliseconds, before a character counts as revealed.
    reveal_rate: u64,
    /// The file path if the buffer is associated with a file.
    pub file_path: Option<String>,
    /// Whether the buffer has unsaved changes.
    is_modified: bool,
}

impl View for Buffer {
    type V = BufferModel;

    closed spec fn view(&self) -> BufferModel {
        BufferModel {
            lines: self.lines@.map_values(|l: Line| l@),
            cursor_line: self.current_line as nat,
            cursor_column: self.current_column as nat,
            mark_out: self.mark_out_mode,
            reveal_rate: self.reveal_rate,
            file_path: match self.file_path {
                Option::Some(s) => Option::Some(s@),
                Option::None => Option::None,
            },
            modified: self.is_modified,
        }
    }
}

impl Buffer {
    /// Well-formedness of the buffer, stated on its model.
    pub open spec fn wf(&self) -> bool {
        self@.inv()
    }

    /// Creates a new empty buffer — a single empty line, cursor at its
    /// start — with the given reveal rate in milliseconds.
    pub fn new(reveal_rate: u64) -> (r: Buffer)
        ensures
            r.wf(),
            r@ == (BufferModel {
                lines: seq![Seq::<Character>::empty()],
                cursor_line: 0,
                cursor_column: 0,
                mark_out: false,
                reveal_rate,
                file_path: None,
                modified: false,
            }),
    {
        let mut lines = Vec::new();
        lines.push(Line::new());
        let r = Buffer {
            lines,
            current_line: 0,
            current_column: 0,
            mark_out_mode: false,
            reveal_rate,
            file_path: None,
            is_modified: false,
        };
        proof {
            assert(r@.lines =~~= seq![Seq::<Character>::empty()]);
        }
        r
    }

    /// Runtime check of the well-formedness invariant, for callers outside
    /// verified code that must establish `wf` before using the buffer.
    pub fn is_well_formed(&self) -> (r: bool)
        ensures
            r == self.wf(),
    {
        if self.current_line >= self.lines.len() {
            return false;
        }
        let len = self.lines[self.current_line].characters.len();
        if self.current_column > len {
            return false;
        }
        if self.mark_out_mode && self.current_column >= len {
            return false;
        }
        true
    }

    /// Returns the number of lines in the buffer.
    pub fn line_count(&self) -> (r: usize)
        ensures
            r == self@.lines.len(),
    {
        self.lines.len()
    }

    /// Returns the line at the given index.
    pub fn line(&self, i: usize) -> (r: &Line)
        requires
            i < self@.lines.len(),
        ensures
            r@ == self@.lines[i as int],
    {
        &self.lines[i]
    }

    /// Inserts a typed symbol at the cursor, stamped with the moment `now`
    /// (milliseconds). Outside mark-out mode a fresh `Normal` cell is
    /// appended to the current line; in mark-out mode the existing cell at
    /// the cursor is crossed out instead, and the mode clears when the
    /// cursor reaches the end of the line's existing cells.
    pub fn insert_char(&mut self, c: char, now: u64)
        requires
            old(self).wf(),
        ensures
            final(self).wf(),
            final(self)@ == spec_insert_char(old(self)@, c, now),
    {
        let i = self.current_line;
        if self.mark_out_mode {
            let j = self.current_column;
            let line = &mut self.lines[i];
            let cell = &mut line.characters[j];
            cell.mark_out();
            let line_len = self.lines[i].characters.len();
            self.current_column = j + 1;
            if self.current_column >= line_len {
                self.mark_out_mode = false;
            }
        } else {
            let character = Character::new(c, now);
            let line = &mut self.lines[i];
            line.characters.push(character);
            let line_len = self.lines[i].characters.len();
            proof {
                // the line just grew, so the cursor has headroom to advance
                assert(self.current_column < line_len);
            }
            self.current_column = self.current_column + 1;
        }
        self.is_modified = true;
        proof {
            assert(self@.lines =~~= spec_insert_char(old(self)@, c, now).lines);
            assert(self@ =~~= spec_insert_char(old(self)@, c, now));
        }
    }

    /// Handles a retreat ("backspace"): within a line the cursor moves back
    /// one column and mark-out mode engages; at the start of a later line
    /// the cursor moves to the end of the previous line and mark-out mode
    /// clears; at the very start of the document this is a no-op. The cells
    /// themselves never change.
    pub fn backspace(&mut self)
        requires
            old(self).wf(),
        ensures
            final(self).wf(),
            final(self)@ == spec_backspace(old(self)@),
    {
        if self.current_column > 0 {
            self.current_column = self.current_column - 1;
            self.mark_out_mode = true;
        } else if self.current_line > 0 {
            self.current_line = self.current_line - 1;
            self.current_column = self.lines[self.current_line].characters.len();
            self.mark_out_mode = false;
        }
        proof {
            assert(self@ =~~= spec_backspace(old(self)@));
        }
    }

    /// Advances the cursor one column if cells remain on the current line;
    /// mark-out mode clears once the cursor reaches the end of the line's
    /// existing cells.
    pub fn move_right(&mut self)
        requires
            old(self).wf(),
        ensures
            final(self).wf(),
            final(self)@ == spec_move_right(old(self)@),
    {
        let line_len = self.lines[self.current_line].characters.len();
        if self.current_column < line_len {
            self.current_column = self.current_column + 1;
            if self.current_column >= line_len {
                self.mark_out_mode = false;
            }
        }
        proof {
            assert(self@ =~~= spec_move_right(old(self)@));
        }
    }

    /// Handles a line return: appends a new empty line and moves the cursor
    /// to its start, clearing mark-out mode. Earlier lines are sealed from
    /// further cursor movement except by retreats.
    pub fn new_line(&mut self)
        requires
            old(self).wf(),
        ensures
            final(self).wf(),
            final(self)@ == spec_new_line(old(self)@),
    {
        self.lines.push(Line::new());
        self.current_line = self.lines.len() - 1;
        self.current_column = 0;
        self.mark_out_mode = false;
        proof {
            assert(self@.lines =~~= spec_new_line(old(self)@).lines);
            assert(self@ =~~= spec_new_line(old(self)@));
        }
    }

    /// Associates the buffer with a file path.
    pub fn set_file_path(&mut self, path: &str)
        ensures
            final(self)@ == (BufferModel { file_path: Some(path@), ..old(self)@ }),
    {
        self.file_path = Some(path.to_owned());
        proof {
            assert(self@ =~~= (BufferModel { file_path: Some(path@), ..old(self)@ }));
        }
    }

    /// Returns whether the buffer has unsaved changes.
    pub fn is_modified(&self) -> (r: bool)
        ensures
            r == self@.modified,
    {
        self.is_modified
    }

    /// Clears the modified flag; called once the buffer's content has been
    /// written out successfully.
    pub fn mark_saved(&mut self)
        ensures
            final(self)@ == (BufferModel { modified: false, ..old(self)@ }),
    {
        self.is_modified = false;
        proof {
            assert(self@ =~~= (BufferModel { modified: false, ..old(self)@ }));
        }
    }

    /// Serializes the buffer for saving: each line's `Normal` cells in
    /// order, lines joined by single newlines, no trailing newline.
    /// Crossed-out cells are excluded for good. The caller writes these
    /// characters out and calls [`Buffer::mark_saved`] on success.
    pub fn saved_text(&self) -> (r: Vec<char>)
        ensures
            r@ == spec_doc_text(self@.lines),
    {
        let mut out: Vec<char> = Vec::new();
        let mut i: usize = 0;
        proof {
            assert(self@.lines.take(0) =~= Seq::<Seq<Character>>::empty());
            assert(self@.lines.take(0).map_values(|l: Seq<Character>| spec_line_text(l))
                =~= Seq::<Seq<char>>::empty());
        }
        while i < self.lines.len()
            invariant
                i <= self.lines@.len(),
                self@.lines.len() == self.lines@.len(),
                out@ == spec_doc_text(self@.lines.take(i as int)) + (if i > 0 && i
                    < self.lines@.len() {
                    seq!['\n']
                } else {
                    Seq::<char>::empty()
                }),
                i > 0 && i < self.lines@.len() ==> self@.lines.take(i as int).len() > 0,
            decreases self.lines@.len() - i,
        {
            let ghost pre = out@;
            let line = &self.lines[i];
            let mut j: usize = 0;
            proof {
                assert(line@.take(0) =~= Seq::<Character>::empty());
            }
            while j < line.characters.len()
                invariant
                    j <= line@.len(),
                    line@ == self@.lines[i as int],
                    out@ == pre + spec_line_text(line@.take(j as int)),
                decreases line@.len() - j,
            {
                let cell = line.characters[j];
                proof {
                    assert(line@.take(j + 1).drop_last() =~= line@.take(j as int));
                    assert(line@.take(j + 1).last() == line@[j as int]);
                }
                if matches!(cell.state, CharacterState::Normal) {
                    out.push(cell.value);
                }
                j = j + 1;
            }
            proof {
                let lts = |l: Seq<Character>| spec_line_text(l);
                assert(line@.take(line@.len() as int) =~= line@);
                let t1 = self@.lines.take(i + 1);
                assert(t1.map_values(lts).drop_last() =~= self@.lines.take(i as int).map_values(
                    lts,
                ));
                assert(t1.map_values(lts).last() == spec_line_text(line@));
                assert(out@ == spec_doc_text(t1));
            }
            i = i + 1;
            if i < self.lines.len() {
                out.push('\n');
            }
        }
        proof {
            assert(self@.lines.take(self.lines@.len() as int) =~= self@.lines);
        }
        out
    }

    /// Hydrates a buffer from a file's text: the text is split on line
    /// endings (a newline, or a carriage return followed by a newline, the
    /// final one optional), every character becomes a `Normal` cell stamped
    /// with the present moment `now`, and an empty document yields a single
    /// empty line. The cursor starts at the top left.
    #[verifier::loop_isolation(false)]
    pub fn from_text(text: &Vec<char>, reveal_rate: u64, now: u64) -> (r: Buffer)
        ensures
            r.wf(),
            r@.cursor_line == 0,
            r@.cursor_column == 0,
            !r@.mark_out,
            r@.reveal_rate == reveal_rate,
            r@.file_path is None,
            !r@.modified,
            r@.lines.len() == spec_load_lines(text@).len(),
            forall|i: int| 0 <= i < r@.lines.len() ==> spec_symbols(#[trigger] r@.lines[i])
                == spec_load_lines(text@)[i],
            forall|i: int, j: int| 0 <= i < r@.lines.len() && 0 <= j < r@.lines[i].len()
                ==> r@.lines[i][j].state == CharacterState::Normal && r@.lines[i][j].timestamp
                == now,
    {
        let ghost syms: spec_fn(Line) -> Seq<char> = |l: Line| spec_symbols(l@);
        let mut lines: Vec<Line> = Vec::new();
        let mut cur: Line = Line::new();
        let mut i: usize = 0;
        proof {
            assert(spec_symbols(cur@) =~= Seq::<char>::empty());
            assert(lines@.map_values(syms) =~= Seq::<Seq<char>>::empty());
            assert(text@.skip(0) =~= text@);
        }
        while i < text.len()
            invariant
                i <= text@.len(),
                spec_parse_lines(text@, Seq::empty(), Seq::empty()) == spec_parse_lines(
                    text@.skip(i as int),
                    spec_symbols(cur@),
                    lines@.map_values(syms),
                ),
                forall|k: int| 0 <= k < cur@.len() ==> (#[trigger] cur@[k]).state
                    == CharacterState::Normal && cur@[k].timestamp == now,
                forall|li: int, k: int| 0 <= li < lines@.len() && 0 <= k < lines@[li]@.len()
                    ==> lines@[li]@[k].state == CharacterState::Normal && lines@[li]@[k].timestamp
                    == now,
            decreases text@.len() - i,
        {
            let ghost s = text@.skip(i as int);
            proof {
                assert(s[0] == text@[i as int]);
                assert(s.skip(1) =~= text@.skip(i + 1));
            }
            let c = text[i];
            if c == '\n' {
                let ghost cursym = spec_symbols(cur@);
                if cur.characters.len() > 0 && cur.characters[cur.characters.len() - 1].value
                    == '\r' {
                    proof {
                        assert(cursym.last() == cur@.last().value);
                    }
                    let _ = cur.characters.pop();
                    proof {
                        assert(spec_symbols(cur@) =~= cursym.drop_last());
                    }
                } else {
                    proof {
                        if cursym.len() > 0 {
                            assert(cursym.last() == cur@.last().value);
                        }
                    }
                }
                let ghost accsym = lines@.map_values(syms);
                let ghost pushed = cur@;
                lines.push(cur);
                proof {
                    assert(lines@.map_values(syms) =~= accsym.push(spec_symbols(pushed)));
                }
                cur = Line::new();
                proof {
                    assert(spec_symbols(cur@) =~= Seq::<char>::empty());
                }
            } else {
                let ghost cursym = spec_symbols(cur@);
                cur.characters.push(Character::new(c, now));
                proof {
                    assert(spec_symbols(cur@) =~= cursym.push(c));
                }
            }
            i = i + 1;
        }
        proof {
            assert(text@.skip(text@.len() as int) =~= Seq::<char>::empty());
        }
        if cur.characters.len() > 0 {
            let ghost accsym = lines@.map_values(syms);
            let ghost pushed = cur@;
            lines.push(cur);
            proof {
                assert(lines@.map_values(syms) =~= accsym.push(spec_symbols(pushed)));
            }
        }
        proof {
            assert(lines@.map_values(syms) == spec_load_lines(text@) || lines@.len() == 0);
        }
        if lines.len() == 0 {
            lines.push(Line::new());
            proof {
                assert(spec_symbols(lines@[0]@) =~= Seq::<char>::empty());
                assert(lines@.map_values(syms) =~= seq![Seq::<char>::empty()]);
            }
        }
        let r = Buffer {
            lines,
            current_line: 0,
            current_column: 0,
            mark_out_mode: false,
            reveal_rate,
            file_path: None,
            is_modified: false,
        };
        proof {
            assert(r@.lines =~= r.lines@.map_values(|l: Line| l@));
            assert forall|i2: int| 0 <= i2 < r@.lines.len() implies spec_symbols(
                #[trigger] r@.lines[i2],
            ) == spec_load_lines(text@)[i2] by {
                assert(r@.lines[i2] == r.lines@[i2]@);
                assert(r.lines@.map_values(syms)[i2] == spec_symbols(r.lines@[i2]@));
            }
        }
        r
    }

    /// Returns the reveal rate, in milliseconds.
    pub fn reveal_rate(&self) -> (r: u64)
        ensures
            r == self@.reveal_rate,
    {
        self.reveal_rate
    }

    /// Returns the current cursor position as (line, column).
    pub fn cursor_position(&self) -> (r: (usize, usize))
        ensures
            r.0 == self@.cursor_line,
            r.1 == self@.cursor_column,
    {
        (self.current_line, self.current_column)
    }

    /// Returns true if the cursor is in mark-out mode.
    pub fn is_mark_out_mode(&self) -> (r: bool)
        ensures
            r == self@.mark_out,
    {
        self.mark_out_mode
    }
}

} // verus!
