//! Per-cell rendering decisions — whether a cell is drawn, crossed out,
//! dimmed, or highlighted — and the renderer's own small state. The actual
//! terminal drawing is the host program's business; every decision it needs
//! comes from here.

use vstd::prelude::*;
use crate::buffer::Buffer;
use crate::types::CharacterState;
use crate::reveal_gate::{is_revealed, spec_is_revealed};

verus! {

/// How many trailing lines stay fully visible; lines above them are dimmed.
pub const VISIBLE_LINES: usize = 2;

/// How one revealed cell is to be drawn.
#[derive(Debug, Clone, Copy, PartialEq, Eq, Structural)]
pub struct CellAppearance {
    /// Draw the symbol struck through.
    pub crossed_out: bool,
    /// Dim the symbol: its line lies above the trailing window of active lines.
    pub dim: bool,
    /// Highlight the symbol: it stands under or after the cursor on the
    /// active line while mark-out mode is engaged.
    pub highlight: bool,
}

/// How the cell at `(line_idx, char_idx)` is to be drawn at the moment
/// `now`: `None` while the cell's reveal moment has not come, otherwise its
/// appearance.
pub open spec fn spec_cell_appearance(
    m: crate::buffer::BufferModel,
    line_idx: int,
    char_idx: int,
    now: u64,
) -> Option<CellAppearance> {
    let cell = m.lines[line_idx][char_idx];
    if spec_is_revealed(now, cell.timestamp, m.reveal_rate) {
        Some(
            (CellAppearance {
                crossed_out: cell.state == CharacterState::MarkedOut,
                dim: line_idx + VISIBLE_LINES < m.lines.len(),
                highlight: m.mark_out && line_idx == m.cursor_line && char_idx >= m.cursor_column,
            }),
        )
    } else {
        None
    }
}

/// Decides how the cell at `(line_idx, char_idx)` of the buffer is drawn at
/// the moment `now`.
pub fn cell_appearance(buffer: &Buffer, line_idx: usize, char_idx: usize, now: u64) -> (r: Option<
    CellAppearance,
>)
    requires
        line_idx < buffer@.lines.len(),
        char_idx < buffer@.lines[line_idx as int].len(),
    ensures
        r == spec_cell_appearance(buffer@, line_idx as int, char_idx as int, now),
{
    let line = buffer.line(line_idx);
    let cell = line.characters[char_idx];
    if is_revealed(&cell, now, buffer.reveal_rate()) {
        let count = buffer.line_count();
        let (cursor_line, cursor_column) = buffer.cursor_position();
        Some(
            CellAppearance {
                crossed_out: matches!(cell.state, CharacterState::MarkedOut),
                dim: count >= VISIBLE_LINES && line_idx < count - VISIBLE_LINES,
                highlight: buffer.is_mark_out_mode() && line_idx == cursor_line && char_idx
                    >= cursor_column,
            },
        )
    } else {
        None
    }
}

/// Renderer state: the output sink it draws to and the terminal cell the
/// cursor was last placed at. Drawing itself happens in the host program.
pub struct Renderer<W> {
    /// The output writer (usually standard output).
    pub output: W,
    /// Cursor position in terminal coordinates (column, row).
    pub cursor_pos: (u16, u16),
}

impl<W> Renderer<W> {
    /// Creates a new renderer over the given output sink, with the cursor
    /// at the top-left cell.
    pub fn new(output: W) -> (r: Renderer<W>)
        ensures
            r.cursor_pos == (0u16, 0u16),
    {
        Renderer { output, cursor_pos: (0, 0) }
    }

    /// Returns the cursor position in terminal coordinates.
    pub fn cursor_pos(&self) -> (r: (u16, u16))
        ensures
            r == self.cursor_pos,
    {
        self.cursor_pos
    }

    /// Records where the terminal cursor was placed.
    pub fn set_cursor_pos(&mut self, col: u16, row: u16)
        ensures
            final(self).cursor_pos == (col, row),
            final(self).output == old(self).output,
    {
        self.cursor_pos = (col, row);
    }
}

} // verus!
