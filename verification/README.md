# interpreter

The front end of a small imperative language, verified with Verus.

- `src/scanner.rs`, `src/position.rs`, `src/token.rs`: the character scanner
  that feeds the lexer, and the token builder. Every character the scanner
  moves to is newline-normalised: `\n`, `\r`, `\r\n`, `\n\r` and the record
  separator each read as one `\n`, the first character included. It tracks
  rows, columns and bytes;
  `law_scanner_positions` states where every scanned character lies.
- `src/parser/token_scanner.rs`: from the lexer's tokens to the parser's;
  comments are skipped and an end-of-tokens marker closes the list. The
  parser reads them through `TokenScanner`, whose `pop` tells whether the
  end of the tokens has been reached.
- `src/parser/`: the recursive-descent parser from tokens to a syntax tree.
  Each `parse_*` function is specified by a spec function of the same
  grammar rule over an abstract parser state (token index, position,
  warnings); the contracts also state that parsing never moves backwards,
  keeps every reported warning, consumes a token whenever it finds
  something, consumes nothing when it finds nothing, and that a critical
  error carries the position where the last consumed token stopped.
- `src/parser/grammar/program.rs`: a program keeps at most one function per
  name; a later definition takes the place of an earlier one. The program
  starts from `main`, which returns nothing and takes no parameters.
- `src/interpreter.rs` and the value operations in
  `src/parser/grammar/expressions/{binary,list_access,unary}.rs`: run-time
  errors, checked integer arithmetic, boolean and string operators, unary
  operators, list and string indexing and slicing.
- `app/`: reading source text (UTF-8), floating point operations, RON output
  of programs and human-readable diagnostics.
- `tests/`: the parser's scenarios and the laws on concrete values.

Floats are carried through the library as their IEEE 754 bit patterns.
