use vstd::prelude::*;

verus! {

/// The linear index of the sentinel position, which names no square.
pub const EMPTY_INDEX: u8 = 255;

/// A square of the board as the linear index `row * 8 + col`.
///
/// Indices in `[0, 64)` are squares; any other value (such as the one of
/// `Pos::empty()`) names no square. Offset arithmetic does not check bounds.
#[derive(Debug, Clone, Copy, PartialEq, Eq, Structural)]
pub struct Pos(pub u8);

/// The character of a file, `'a'` to `'h'`, as a code point.
pub open spec fn file_char(col: int) -> int {
    'a' as int + col
}

/// The character of a rank, `'1'` to `'8'`, as a code point.
pub open spec fn rank_char(row: int) -> int {
    '1' as int + row
}

/// What algebraic notation denotes: two characters, a file `'a'..='h'` and a
/// rank `'1'..='8'`; anything else denotes no square.
pub open spec fn parse_notation(s: Seq<char>) -> Option<Pos> {
    if s.len() == 2 && 'a' as int <= s[0] as int <= 'h' as int && '1' as int <= s[1] as int
        <= '8' as int {
        Some(Pos(((s[1] as int - '1' as int) * 8 + (s[0] as int - 'a' as int)) as u8))
    } else {
        None
    }
}

/// The notation of a square: its file letter then its rank digit.
pub open spec fn render_notation(p: Pos) -> Seq<char> {
    seq![file_char(p.col_spec()) as char, rank_char(p.row_spec()) as char]
}

impl Pos {
    /// The sentinel position of a piece that is off the board.
    pub fn empty() -> (r: Pos)
        ensures
            r.0 == EMPTY_INDEX,
            !r.valid(),
    {
        Pos(EMPTY_INDEX)
    }

    /// Whether the position names one of the 64 squares.
    pub open spec fn valid(self) -> bool {
        self.0 < 64
    }

    pub open spec fn row_spec(self) -> int {
        self.0 as int / 8
    }

    pub open spec fn col_spec(self) -> int {
        self.0 as int % 8
    }

    /// The square at column `col` and row `row`.
    pub fn new(col: u8, row: u8) -> (r: Pos)
        requires
            row * 8 + col <= u8::MAX,
        ensures
            r.0 == row * 8 + col,
    {
        Pos(row * 8 + col)
    }

    /// Parses two-character algebraic notation such as `"e4"`.
    pub fn from_notation(s: &str) -> (r: Option<Pos>)
        ensures
            r == parse_notation(s@),
    {
        if s.unicode_len() != 2 {
            return None;
        }
        let file = s.get_char(0);
        let rank = s.get_char(1);
        if !('a' as u32 <= file as u32 && file as u32 <= 'h' as u32) || !('1' as u32 <= rank as u32
            && rank as u32 <= '8' as u32) {
            return None;
        }
        let col = (file as u32 - 'a' as u32) as u8;
        let row = (rank as u32 - '1' as u32) as u8;
        Some(Pos::new(col, row))
    }

    /// The notation of a square: file letter, then rank digit.
    pub fn to_notation(self) -> (r: (char, char))
        requires
            self.valid(),
        ensures
            seq![r.0, r.1] == render_notation(self),
    {
        let file = ('a' as u8 + self.col()) as char;
        let rank = ('1' as u8 + self.row()) as char;
        (file, rank)
    }

    /// The position with linear index `i`.
    pub fn from_pos_index(i: usize) -> (r: Pos)
        requires
            i < 64,
        ensures
            r.0 == i,
            r.valid(),
    {
        Pos(i as u8)
    }

    pub fn row(self) -> (r: u8)
        ensures
            r == self.row_spec(),
    {
        self.0 / 8
    }

    pub fn col(self) -> (r: u8)
        ensures
            r == self.col_spec(),
    {
        self.0 % 8
    }

    /// Adds `x` to the linear index, keeping its low eight bits.
    pub fn add_col(self, x: i16) -> (r: Pos)
        requires
            i16::MIN <= self.0 + x <= i16::MAX,
        ensures
            r.0 == #[verifier::truncate] ((self.0 + x) as u8),
    {
        let y = self.0 as i16;
        Pos(#[verifier::truncate] ((y + x) as u8))
    }

    /// Adds `8 * x` to the linear index, keeping its low eight bits.
    pub fn add_row(self, x: i16) -> (r: Pos)
        requires
            i16::MIN <= x * 8 <= i16::MAX,
            i16::MIN <= self.0 + x * 8 <= i16::MAX,
        ensures
            r.0 == #[verifier::truncate] ((self.0 + x * 8) as u8),
    {
        let y = self.0 as i16;
        Pos(#[verifier::truncate] ((y + x * 8) as u8))
    }

    pub fn pos_index(self) -> (r: usize)
        ensures
            r == self.0,
    {
        self.0 as usize
    }
}

/// Rendering a square and parsing the result gives the square back.
pub proof fn lemma_notation_round_trip(p: Pos)
    requires
        p.valid(),
    ensures
        parse_notation(render_notation(p)) == Some(p),
{
    let s = render_notation(p);
    assert(s[0] as int == file_char(p.col_spec()));
    assert(s[1] as int == rank_char(p.row_spec()));
}

} // verus!
