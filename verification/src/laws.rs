//! Laws of the mark-out editing model, proved over the buffer's
//! mathematical model: what a whole sequence of insertions does, and how a
//! run of retreats followed by typing the same number of symbols crosses
//! cells out without ever changing a line's length.

use vstd::prelude::*;
use crate::types::{Character, CharacterState};
use crate::buffer::{
    BufferModel, spec_insert_char, spec_backspace, spec_move_right, spec_new_line,
};

verus! {

/// Nothing is ever deleted between two buffer states: no line disappears,
/// no cell leaves its line or moves, every cell keeps its symbol and its
/// timestamp, and a crossed-out cell never returns to `Normal`.
pub open spec fn spec_cells_preserved(m1: BufferModel, m2: BufferModel) -> bool {
    &&& m2.lines.len() >= m1.lines.len()
    &&& (forall|i: int| 0 <= i < m1.lines.len()
        ==> (#[trigger] m2.lines[i]).len() >= m1.lines[i].len())
    &&& (forall|i: int, j: int| 0 <= i < m1.lines.len() && 0 <= j < m1.lines[i].len()
        ==> m2.lines[i][j].value == m1.lines[i][j].value && m2.lines[i][j].timestamp
        == m1.lines[i][j].timestamp)
    &&& (forall|i: int, j: int| 0 <= i < m1.lines.len() && 0 <= j < m1.lines[i].len()
        && m1.lines[i][j].state == CharacterState::MarkedOut
        ==> m2.lines[i][j].state == CharacterState::MarkedOut)
}

/// Law: no buffer operation deletes. Insertion, retreat, cursor movement,
/// and line return each only add cells or lines and only cross cells out;
/// a cell's symbol and timestamp are permanent and its cross-out is one-way.
pub proof fn lemma_no_deletion(m: BufferModel, c: char, now: u64)
    requires
        m.inv(),
    ensures
        spec_cells_preserved(m, spec_insert_char(m, c, now)),
        spec_cells_preserved(m, spec_backspace(m)),
        spec_cells_preserved(m, spec_move_right(m)),
        spec_cells_preserved(m, spec_new_line(m)),
{
}

/// Folds a sequence of insertions over the model: for each cell of `cells`,
/// in order, its symbol is typed at its timestamp.
pub open spec fn spec_insert_all(m: BufferModel, cells: Seq<Character>) -> BufferModel
    decreases cells.len(),
{
    if cells.len() == 0 {
        m
    } else {
        spec_insert_all(spec_insert_char(m, cells[0].value, cells[0].timestamp), cells.skip(1))
    }
}

/// Applies `n` retreats to the model, in order.
pub open spec fn spec_backspace_n(m: BufferModel, n: nat) -> BufferModel
    decreases n,
{
    if n == 0 {
        m
    } else {
        spec_backspace_n(spec_backspace(m), (n - 1) as nat)
    }
}

/// One insertion outside mark-out mode: the typed cell is appended to the
/// current line, the cursor advances one column, the buffer is marked
/// modified, and nothing else changes.
pub proof fn lemma_insert_char_appends(m: BufferModel, c: char, now: u64)
    requires
        m.inv(),
        !m.mark_out,
    ensures
        spec_insert_char(m, c, now) =~~= (BufferModel {
            lines: m.lines.update(
                m.cursor_line as int,
                m.current_line().push(
                    (Character { value: c, state: CharacterState::Normal, timestamp: now }),
                ),
            ),
            cursor_column: m.cursor_column + 1,
            modified: true,
            ..m
        }),
        spec_insert_char(m, c, now).inv(),
{
}

/// Law: outside mark-out mode, a sequence of insertions appends exactly the
/// typed cells to the current line — in typing order — advances the cursor
/// by the number of insertions, leaves every other line untouched, and
/// never engages mark-out mode.
pub proof fn lemma_insert_all_appends(m: BufferModel, cells: Seq<Character>)
    requires
        m.inv(),
        !m.mark_out,
        forall|i: int| 0 <= i < cells.len() ==> (#[trigger] cells[i]).state == CharacterState::Normal,
    ensures
        spec_insert_all(m, cells) =~~= (BufferModel {
            lines: m.lines.update(m.cursor_line as int, m.current_line() + cells),
            cursor_column: m.cursor_column + cells.len(),
            modified: cells.len() > 0 || m.modified,
            ..m
        }),
        spec_insert_all(m, cells).inv(),
    decreases cells.len(),
{
    if cells.len() == 0 {
        assert(m.current_line() + cells =~= m.current_line());
        assert(m.lines.update(m.cursor_line as int, m.current_line()) =~= m.lines);
    } else {
        lemma_insert_char_appends(m, cells[0].value, cells[0].timestamp);
        let m1 = spec_insert_char(m, cells[0].value, cells[0].timestamp);
        assert(m1.current_line() == m.current_line().push(cells[0]));
        lemma_insert_all_appends(m1, cells.skip(1));
        assert(m1.current_line() + cells.skip(1) =~= m.current_line() + cells);
        assert(m1.lines.update(m1.cursor_line as int, m1.current_line() + cells.skip(1))
            =~= m.lines.update(m.cursor_line as int, m.current_line() + cells));
    }
}

/// Law: with mark-out mode off and the current line empty, typing a
/// sequence of symbols yields a current line that is exactly the typed
/// cells: its length equals the number of insertions and every cell is
/// `Normal`, holding the typed symbol and its timestamp.
pub proof fn lemma_inserts_build_normal_line(m: BufferModel, cells: Seq<Character>)
    requires
        m.inv(),
        !m.mark_out,
        m.current_line().len() == 0,
        forall|i: int| 0 <= i < cells.len() ==> (#[trigger] cells[i]).state == CharacterState::Normal,
    ensures
        spec_insert_all(m, cells).current_line() == cells,
        spec_insert_all(m, cells).inv(),
{
    lemma_insert_all_appends(m, cells);
    assert(spec_insert_all(m, cells).current_line() =~= cells);
}

/// A run of retreats that stays within the current line: the cursor moves
/// back `n` columns, mark-out mode engages, and nothing else changes.
pub proof fn lemma_backspace_n_within_line(m: BufferModel, n: nat)
    requires
        m.inv(),
        1 <= n <= m.cursor_column,
    ensures
        spec_backspace_n(m, n) =~~= (BufferModel {
            cursor_column: (m.cursor_column - n) as nat,
            mark_out: true,
            ..m
        }),
        spec_backspace_n(m, n).inv(),
    decreases n,
{
    let m1 = spec_backspace(m);
    if n == 1 {
        assert(spec_backspace_n(m1, 0) == m1);
    } else {
        lemma_backspace_n_within_line(m1, (n - 1) as nat);
    }
}

/// One insertion while mark-out mode is engaged: the cell under the cursor
/// is crossed out in place, keeping its symbol and timestamp; the cursor
/// advances, and the mode clears exactly when the cursor reaches the end of
/// the line's existing cells.
pub proof fn lemma_insert_char_marks_out(m: BufferModel, c: char, now: u64)
    requires
        m.inv(),
        m.mark_out,
    ensures
        spec_insert_char(m, c, now) =~~= (BufferModel {
            lines: m.lines.update(
                m.cursor_line as int,
                m.current_line().update(
                    m.cursor_column as int,
                    (Character {
                        state: CharacterState::MarkedOut,
                        ..m.current_line()[m.cursor_column as int]
                    }),
                ),
            ),
            cursor_column: m.cursor_column + 1,
            mark_out: m.cursor_column + 1 < m.current_line().len(),
            modified: true,
            ..m
        }),
        spec_insert_char(m, c, now).inv(),
{
}

/// Typing a run of symbols while mark-out mode is engaged: each symbol
/// crosses out the cell under the cursor in place. The line's length never
/// changes, cells outside the typed range keep their state, the crossed-out
/// cells keep their symbol and timestamp, and mark-out mode clears exactly
/// when the cursor reaches the end of the line's existing cells.
pub proof fn lemma_insert_all_marks_out(m: BufferModel, cells: Seq<Character>)
    requires
        m.inv(),
        m.cursor_column + cells.len() <= m.current_line().len(),
        m.mark_out == (m.cursor_column < m.current_line().len()),
    ensures
        ({
            let r = spec_insert_all(m, cells);
            &&& r.inv()
            &&& r.cursor_line == m.cursor_line
            &&& r.cursor_column == m.cursor_column + cells.len()
            &&& r.mark_out == (m.cursor_column + cells.len() < m.current_line().len())
            &&& r.current_line().len() == m.current_line().len()
            &&& (forall|i: int| 0 <= i < m.cursor_column
                ==> r.current_line()[i] == m.current_line()[i])
            &&& (forall|i: int| m.cursor_column <= i < m.cursor_column + cells.len()
                ==> r.current_line()[i] == (Character {
                    state: CharacterState::MarkedOut,
                    ..m.current_line()[i]
                }))
            &&& (forall|i: int| m.cursor_column + cells.len() <= i < m.current_line().len()
                ==> r.current_line()[i] == m.current_line()[i])
            &&& r.lines =~= m.lines.update(m.cursor_line as int, r.current_line())
            &&& r.reveal_rate == m.reveal_rate
            &&& r.file_path == m.file_path
        }),
    decreases cells.len(),
{
    if cells.len() == 0 {
        assert(m.lines.update(m.cursor_line as int, m.current_line()) =~= m.lines);
    } else {
        lemma_insert_char_marks_out(m, cells[0].value, cells[0].timestamp);
        let m1 = spec_insert_char(m, cells[0].value, cells[0].timestamp);
        lemma_insert_all_marks_out(m1, cells.skip(1));
        let r = spec_insert_all(m, cells);
        assert(r.lines =~= m.lines.update(m.cursor_line as int, r.current_line()));
    }
}

/// Law: from a cursor standing at the end of its line outside mark-out
/// mode, retreating `n` columns and then typing `n` symbols crosses out
/// exactly the last `n` cells — each keeping its original symbol and
/// timestamp — returns the cursor to the end of the line, clears mark-out
/// mode, and leaves the length of every line unchanged.
pub proof fn lemma_retreat_then_type_restores(m: BufferModel, cells: Seq<Character>, n: nat)
    requires
        m.inv(),
        !m.mark_out,
        m.cursor_column == m.current_line().len(),
        cells.len() == n,
        1 <= n <= m.cursor_column,
    ensures
        ({
            let r = spec_insert_all(spec_backspace_n(m, n), cells);
            &&& r.inv()
            &&& !r.mark_out
            &&& r.cursor_line == m.cursor_line
            &&& r.cursor_column == m.cursor_column
            &&& r.current_line().len() == m.current_line().len()
            &&& (forall|i: int| 0 <= i < m.current_line().len() - n
                ==> r.current_line()[i] == m.current_line()[i])
            &&& (forall|i: int| m.current_line().len() - n <= i < m.current_line().len()
                ==> r.current_line()[i] == (Character {
                    state: CharacterState::MarkedOut,
                    ..m.current_line()[i]
                }))
            &&& r.lines =~= m.lines.update(m.cursor_line as int, r.current_line())
        }),
{
    lemma_backspace_n_within_line(m, n);
    let m2 = spec_backspace_n(m, n);
    assert(m2.current_line() == m.current_line());
    lemma_insert_all_marks_out(m2, cells);
}

} // verus!
