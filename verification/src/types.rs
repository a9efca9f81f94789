//! The leaf data model: a single typed character cell and a line of cells.

use vstd::prelude::*;

verus! {

/// The visibility state of a character cell. A cell starts `Normal` and may
/// transition one-way to `MarkedOut`; it is never removed from its line.
#[derive(Debug, Clone, Copy, PartialEq, Eq, Structural)]
pub enum CharacterState {
    /// A normal, visible character.
    Normal,
    /// A character that has been crossed out by typing over it.
    MarkedOut,
}

/// A single character cell: its symbol, its visibility state, and the
/// moment (in milliseconds on the caller's clock) at which it was typed.
/// Once created, `value` and `timestamp` never change.
#[derive(Debug, Clone, Copy, PartialEq, Eq, Structural)]
pub struct Character {
    /// The typed symbol.
    pub value: char,
    /// The current visibility state.
    pub state: CharacterState,
    /// When this character was typed, in milliseconds.
    pub timestamp: u64,
}

impl Character {
    /// Creates a new character in `Normal` state, stamped with the given moment.
    pub fn new(value: char, timestamp: u64) -> (r: Character)
        ensures
            r == (Character { value, state: CharacterState::Normal, timestamp }),
    {
        Character { value, state: CharacterState::Normal, timestamp }
    }

    /// Crosses this character out, keeping its symbol and timestamp.
    pub fn mark_out(&mut self)
        ensures
            *final(self) == (Character { state: CharacterState::MarkedOut, ..*old(self) }),
    {
        self.state = CharacterState::MarkedOut;
    }
}

/// A line of text: an ordered, growable sequence of character cells.
/// Cells are only ever appended or crossed out in place, never removed.
#[derive(Debug, Clone, PartialEq)]
pub struct Line {
    /// The characters in this line.
    pub characters: Vec<Character>,
}

impl View for Line {
    type V = Seq<Character>;

    open spec fn view(&self) -> Seq<Character> {
        self.characters@
    }
}

impl Line {
    /// Creates a new empty line.
    pub fn new() -> (r: Line)
        ensures
            r@ == Seq::<Character>::empty(),
    {
        Line { characters: Vec::new() }
    }

    /// Appends a character to the end of this line.
    pub fn push(&mut self, character: Character)
        ensures
            final(self)@ == old(self)@.push(character),
    {
        self.characters.push(character);
    }

    /// Returns the number of characters in this line.
    pub fn len(&self) -> (r: usize)
        ensures
            r == self@.len(),
    {
        self.characters.len()
    }

    /// Returns true if this line has no characters.
    pub fn is_empty(&self) -> (r: bool)
        ensures
            r == (self@.len() == 0),
    {
        self.characters.is_empty()
    }
}

} // verus!
