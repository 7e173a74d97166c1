use vstd::prelude::*;

verus! {

/// Iterator which buffers the last result.
pub trait Scannable<T> {
    /// The buffered element.
    fn curr(&self) -> T;

    /// Moves to the next element and reports on it. What the report means is
    /// each scanner's own: the parser and its token scanner report whether
    /// the end of the tokens has been reached, the in-memory scanner of
    /// tokens used in tests whether a token remains.
    fn pop(&mut self) -> bool;
}

} // verus!
