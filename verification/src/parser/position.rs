use vstd::prelude::*;

verus! {

/// Position of a token: row and column in the source text.
#[derive(Debug, Clone, Copy, PartialEq, Eq, Structural)]
pub struct Position {
    pub row: usize,
    pub col: usize,
}

impl Position {
    pub fn new(row: usize, col: usize) -> (r: Self)
        ensures
            r == (Position { row, col }),
    {
        Self { row, col }
    }
}

} // verus!
