use vstd::prelude::*;

verus! {

/// Position of a character in the source text: its row and column
/// (both counted from 1) and its byte offset (counted from 0).
#[derive(Debug, Clone, Copy)]
pub struct Position {
    pub row: usize,
    pub col: usize,
    pub byte: usize,
}

impl Position {
    /// Forwards the column.
    pub fn next_col(&mut self)
        requires
            old(self).col < usize::MAX,
        ensures
            *final(self) == (Position { col: (old(self).col + 1) as usize, ..*old(self) }),
    {
        self.col = self.col + 1;
    }

    /// Forwards the line and resets the column.
    pub fn next_line(&mut self)
        requires
            old(self).row < usize::MAX,
        ensures
            *final(self) == (Position { row: (old(self).row + 1) as usize, col: 1, ..*old(self) }),
    {
        self.row = self.row + 1;
        self.col = 1;
    }

    /// Forwards the byte offset by the given amount.
    pub fn next_bytes(&mut self, bytes: usize)
        requires
            old(self).byte + bytes <= usize::MAX,
        ensures
            *final(self) == (Position { byte: (old(self).byte + bytes) as usize, ..*old(self) }),
    {
        self.byte = self.byte + bytes;
    }
}

impl Default for Position {
    fn default() -> (r: Self)
        ensures
            r == (Position { row: 1, col: 1, byte: 0 }),
    {
        Position { row: 1, col: 1, byte: 0 }
    }
}

} // verus!
