use vstd::prelude::*;

use crate::position::Position;

verus! {

/// End of text: what the scanner reads past the end of its source.
pub const END_OF_TEXT: char = '\x03';

/// The number of bytes that encode `c` in UTF-8.
pub open spec fn utf8_width(c: char) -> nat {
    if (c as u32) < 0x80 {
        1
    } else if (c as u32) < 0x800 {
        2
    } else if (c as u32) < 0x10000 {
        3
    } else {
        4
    }
}

/// The number of bytes that encode `c` in UTF-8.
pub fn len_utf8(c: char) -> (r: usize)
    ensures
        r == utf8_width(c),
{
    let code = c as u32;
    if code < 0x80 {
        1
    } else if code < 0x800 {
        2
    } else if code < 0x10000 {
        3
    } else {
        4
    }
}

/// The character at index `i` of the source, end of text past its end.
pub open spec fn source_char(source: Seq<char>, i: int) -> char {
    if 0 <= i < source.len() {
        source[i]
    } else {
        END_OF_TEXT
    }
}

/// Mathematical model of a scanner.
pub struct ScannerModel {
    /// The characters to scan.
    pub source: Seq<char>,
    /// How many characters of the source have been read.
    pub read: int,
    /// Position just after the current character.
    pub position: Position,
    /// Position before the last move.
    pub prev_position: Position,
    /// The current character.
    pub current: char,
    /// The character after the current one.
    pub next: char,
}

/// Reading the next character of the source.
pub open spec fn spec_read(m: ScannerModel) -> (ScannerModel, char) {
    let c = source_char(m.source, m.read);
    let read = if m.read < m.source.len() {
        m.read + 1
    } else {
        m.read
    };
    (ScannerModel { read, ..m }, c)
}

/// Moving one character forward: the column and the byte offset follow.
pub open spec fn spec_forward(m: ScannerModel) -> ScannerModel {
    let current = m.next;
    let (m1, next) = spec_read(m);
    ScannerModel {
        current,
        next,
        position: Position {
            col: (m.position.col + 1) as usize,
            byte: (m.position.byte + utf8_width(current)) as usize,
            ..m.position
        },
        ..m1
    }
}

/// The position at the start of the next line.
pub open spec fn next_line(p: Position) -> Position {
    Position { row: (p.row + 1) as usize, col: 1, ..p }
}

/// Turning a newline (`\n`, `\r`, the pairs `\n\r` and `\r\n`, or a
/// record separator) into a single `\n` and moving to the next line.
pub open spec fn spec_normalize_newlines(m: ScannerModel) -> ScannerModel {
    if (m.current == '\n' && m.next == '\r') || (m.current == '\r' && m.next == '\n') {
        let m1 = spec_forward(m);
        ScannerModel { position: next_line(m1.position), current: '\n', ..m1 }
    } else if m.current == '\n' || m.current == '\r' || m.current == '\x1e' {
        ScannerModel { position: next_line(m.position), current: '\n', ..m }
    } else {
        m
    }
}

/// Moving one character forward, newlines normalized.
pub open spec fn spec_scanner_pop(m: ScannerModel) -> ScannerModel {
    spec_normalize_newlines(spec_forward(ScannerModel { prev_position: m.position, ..m }))
}

/// The scanner after `n` pops.
pub open spec fn scanner_after_pops(m: ScannerModel, n: nat) -> ScannerModel
    decreases n,
{
    if n == 0 {
        m
    } else {
        spec_scanner_pop(scanner_after_pops(m, (n - 1) as nat))
    }
}

/// A scanner over `source` that has read its first two characters; the
/// first one is current, newlines normalized as on every move.
pub open spec fn spec_scanner_new(source: Seq<char>) -> ScannerModel {
    let start = ScannerModel {
        source,
        read: 0,
        position: Position { row: 1, col: 1, byte: 0 },
        prev_position: Position { row: 1, col: 1, byte: 0 },
        current: '\0',
        next: '\0',
    };
    let (m1, c) = spec_read(start);
    spec_normalize_newlines(spec_forward(ScannerModel { next: c, ..m1 }))
}

/// A character that ends a line: line feed, carriage return or record
/// separator.
pub open spec fn is_line_break(c: char) -> bool {
    c == '\n' || c == '\r' || c == '\x1e'
}

/// Whether a two-character line break (`\n\r` or `\r\n`) starts at `k`.
pub open spec fn is_break_pair(source: Seq<char>, k: int) -> bool {
    let c = source_char(source, k);
    let d = source_char(source, k + 1);
    (c == '\n' && d == '\r') || (c == '\r' && d == '\n')
}

/// How many source characters make up the character scanned at `k`: two
/// for a two-character line break, else one.
pub open spec fn group_len(source: Seq<char>, k: int) -> int {
    if is_break_pair(source, k) {
        2
    } else {
        1
    }
}

/// The character scanned at `k`: every line break reads as `\n`.
pub open spec fn group_char(source: Seq<char>, k: int) -> char {
    if is_line_break(source_char(source, k)) {
        '\n'
    } else {
        source_char(source, k)
    }
}

/// The position just after the character scanned at `k`, which starts at
/// `p`: a line break moves to column 1 of the next row, any other character
/// one column on; the byte offset grows by the UTF-8 width of what was read.
pub open spec fn after_group(source: Seq<char>, k: int, p: Position) -> Position {
    let c = source_char(source, k);
    let byte1 = (p.byte + utf8_width(c)) as usize;
    if is_break_pair(source, k) {
        Position {
            row: (p.row + 1) as usize,
            col: 1,
            byte: (byte1 + utf8_width(source_char(source, k + 1))) as usize,
        }
    } else if is_line_break(c) {
        Position { row: (p.row + 1) as usize, col: 1, byte: byte1 }
    } else {
        Position { row: p.row, col: (p.col + 1) as usize, byte: byte1 }
    }
}

/// Where the `n`-th scanned character (counting from 0) starts in the
/// source, and its position.
pub open spec fn walk(source: Seq<char>, n: nat) -> (int, Position)
    decreases n,
{
    if n == 0 {
        (0, Position { row: 1, col: 1, byte: 0 })
    } else {
        let (k, p) = walk(source, (n - 1) as nat);
        (k + group_len(source, k), after_group(source, k, p))
    }
}

/// How the scanner stands on the `n`-th scanned character.
pub open spec fn scanning_at(m: ScannerModel, n: nat) -> bool {
    let (k, p) = walk(m.source, n);
    let g = group_len(m.source, k);
    &&& 0 <= k
    &&& m.current == group_char(m.source, k)
    &&& m.prev_position == p
    &&& m.position == after_group(m.source, k, p)
    &&& m.next == source_char(m.source, k + g)
    &&& m.read == if k + g + 1 < m.source.len() {
        k + g + 1
    } else {
        m.source.len() as int
    }
}

proof fn lemma_pop_scans_next(m: ScannerModel, n: nat)
    requires
        scanning_at(m, n),
    ensures
        scanning_at(spec_scanner_pop(m), n + 1),
{
    let (k, p) = walk(m.source, n);
    assert(walk(m.source, n + 1) == (k + group_len(m.source, k), after_group(m.source, k, p)));
}

/// Scanning any source, after any number `n` of pops the current character is the `n`-th scanned
/// character and the last position is where it starts: rows count line
/// breaks (`\n`, `\r`, `\r\n`, `\n\r` and the record separator each once),
/// columns count characters since the last line break, and the byte offset
/// is the UTF-8 width of all source characters before it.
pub proof fn law_scanner_positions(source: Seq<char>, n: nat)
    ensures
        scanner_after_pops(spec_scanner_new(source), n).current == group_char(
            source,
            walk(source, n).0,
        ),
        scanner_after_pops(spec_scanner_new(source), n).prev_position == walk(source, n).1,
        scanning_at(scanner_after_pops(spec_scanner_new(source), n), n),
        scanner_after_pops(spec_scanner_new(source), n).source == source,
        walk(source, n).0 >= source.len() ==> scanner_after_pops(
            spec_scanner_new(source),
            n,
        ).current == END_OF_TEXT,
    decreases n,
{
    let m = scanner_after_pops(spec_scanner_new(source), n);
    if n == 0 {
        assert(scanning_at(spec_scanner_new(source), 0));
    } else {
        let m0 = scanner_after_pops(spec_scanner_new(source), (n - 1) as nat);
        law_scanner_positions(source, (n - 1) as nat);
        lemma_pop_scans_next(m0, (n - 1) as nat);
        assert(m == spec_scanner_pop(m0));
    }
    let (k, p) = walk(source, n);
    assert(m.current == group_char(source, k) && m.prev_position == p);
}

/// Whether the positions can move forward twice more without overflow.
pub open spec fn can_advance(p: Position) -> bool {
    p.row < usize::MAX && p.col + 2 <= usize::MAX && p.byte + 8 <= usize::MAX
}

/// Lexer pre-processor and single `char` buffer
pub struct Scanner {
    source: Vec<char>,
    read: usize,
    position: Position,
    prev_position: Position,
    current: char,
    next: char,
}

impl Scanner {
    pub closed spec fn model(&self) -> ScannerModel {
        ScannerModel {
            source: self.source@,
            read: self.read as int,
            position: self.position,
            prev_position: self.prev_position,
            current: self.current,
            next: self.next,
        }
    }

    /// Creates a new tracking scanner over the given characters; the first
    /// one is current, a line break read as `\n` like any later one.
    pub fn new(source: Vec<char>) -> (r: Self)
        ensures
            r.model() == spec_scanner_new(source@),
            r.model().current != '\r',
            r.model().current != '\x1e',
    {
        let mut scanner = Self {
            source,
            read: 0,
            position: Position::default(),
            prev_position: Position::default(),
            current: '\0',
            next: '\0',
        };
        scanner.next = scanner.next_char();
        scanner.forward();
        scanner.normalize_newlines();
        scanner
    }

    /// Returns next character; past the end of the source, the end of text
    /// character.
    fn next_char(&mut self) -> (r: char)
        ensures
            (final(self).model(), r) == spec_read(old(self).model()),
    {
        if self.read < self.source.len() {
            let c = self.source[self.read];
            self.read = self.read + 1;
            c
        } else {
            END_OF_TEXT
        }
    }

    /// Replaces newlines with `'\n'`
    fn normalize_newlines(&mut self)
        requires
            old(self).model().position.row < usize::MAX,
            old(self).model().position.col < usize::MAX,
            old(self).model().position.byte + 4 <= usize::MAX,
        ensures
            final(self).model() == spec_normalize_newlines(old(self).model()),
    {
        if (self.current == '\n' && self.next == '\r') || (self.current == '\r' && self.next
            == '\n') {
            self.forward();
            self.position.next_line();
            self.current = '\n';
        } else if self.current == '\n' || self.current == '\r' || self.current == '\x1e' {
            self.position.next_line();
            self.current = '\n';
        }
    }

    /// Moves the scanner one character forward
    fn forward(&mut self)
        requires
            old(self).model().position.col < usize::MAX,
            old(self).model().position.byte + 4 <= usize::MAX,
        ensures
            final(self).model() == spec_forward(old(self).model()),
    {
        self.current = self.next;
        self.next = self.next_char();
        self.position.next_bytes(len_utf8(self.current));
        self.position.next_col();
    }

    /// Moves the scanner one character forward
    /// Turns all newlines into `'\n'`
    pub fn pop(&mut self)
        requires
            can_advance(old(self).model().position),
        ensures
            final(self).model() == spec_scanner_pop(old(self).model()),
            final(self).model().current != '\r',
            final(self).model().current != '\x1e',
            final(self).model().current == '\n' ==> {
                &&& final(self).model().position.row == old(self).model().position.row + 1
                &&& final(self).model().position.col == 1
            },
            final(self).model().current != '\n' ==> final(self).model().position.row
                == old(self).model().position.row,
    {
        self.prev_position = self.position;
        self.forward();
        self.normalize_newlines();
    }

    /// Returns the current character
    pub fn peek(&self) -> (r: char)
        ensures
            r == self.model().current,
    {
        self.current
    }

    /// Returns the position before the last move
    pub fn last_pos(&self) -> (r: Position)
        ensures
            r == self.model().prev_position,
    {
        self.prev_position
    }
}

/// A character scanner
pub trait Scan {
    fn peek(&self) -> char;

    fn pop(&mut self);

    /// Return the start position
    fn last_pos(&self) -> Position;
}

} // verus!
