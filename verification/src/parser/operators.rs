use vstd::prelude::*;

verus! {

/// Possible operators
#[derive(Debug, Clone, Copy, PartialEq, Eq, Structural)]
pub enum Operator {
    Plus,  // +
    Minus,  // -
    Asterisk,  // *
    Slash,  // /
    Modulo,  // %
    ExclamationMark,  // !
    And,  // &
    Or,  // |
    Unequal,  // !=
    DoubleEqual,  // ==
    Greater,  // >
    GreaterEqual,  // >=
    Lesser,  // <
    LesserEqual,  // <=
    OpenRoundBracket,  // (
    CloseRoundBracket,  // )
    OpenSquareBracket,  // [
    CloseSquareBracket,  // ]
    OpenCurlyBracket,  // {
    CloseCurlyBracket,  // }
    Colon,  // :
    DoubleColon,  // ::
    Equal,  // =
    Arrow,  // ->
    Semicolon,  // ;
    Split,  // ,
}

} // verus!
