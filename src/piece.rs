use vstd::prelude::*;
use crate::pos::Pos;

verus! {

#[derive(Debug, Clone, Copy, PartialEq, Eq, Structural)]
pub enum Color {
    White,
    Black,
}

#[derive(Debug, Clone, Copy, PartialEq, Eq, Structural)]
pub enum PieceType {
    Pawn,
    Rook,
    Knight,
    Bishop,
    Queen,
    King,
}

/// A piece, identified by its slot in `[0, 32)`: slots below 16 are White,
/// the rest Black, and the slot modulo 16 fixes the piece type.
#[derive(Debug, Clone, Copy, PartialEq, Eq, Structural)]
pub struct Piece(pub u8);

/// The first slot of the Black pieces.
pub const BLACK_START: u8 = 16;

/// The number of piece slots.
pub const PIECE_COUNT: u8 = 32;

/// The other side.
pub open spec fn other(c: Color) -> Color {
    match c {
        Color::White => Color::Black,
        Color::Black => Color::White,
    }
}

pub open spec fn abs(x: int) -> int {
    if x < 0 {
        -x
    } else {
        x
    }
}

/// The row step of a pawn's advance: rows grow toward Black's back rank.
pub open spec fn forward(side: Color) -> int {
    match side {
        Color::White => 1,
        Color::Black => -1,
    }
}

/// The type on each file of White's back rank, from the a-file on.
pub open spec fn back_rank(col: int) -> PieceType {
    if col == 0 || col == 7 {
        PieceType::Rook
    } else if col == 1 || col == 6 {
        PieceType::Knight
    } else if col == 2 || col == 5 {
        PieceType::Bishop
    } else if col == 3 {
        PieceType::Queen
    } else if col == 4 {
        PieceType::King
    } else {
        PieceType::Pawn
    }
}

/// The type of the piece in a slot: each colour's 16 slots hold its back rank
/// in file order, then its eight pawns.
pub open spec fn slot_type(slot: int) -> PieceType {
    back_rank(slot % 16)
}

/// The slot of the piece that starts on square `s`: White counts up from a1
/// through its pawns; Black counts from a8 along its back rank, then from a7
/// along its pawns, so that Black's layout mirrors White's.
pub open spec fn start_slot(s: int) -> int {
    if s / 8 < 3 {
        s
    } else if s / 8 == 7 {
        BLACK_START + s % 8
    } else {
        BLACK_START + 8 + s % 8
    }
}

/// The opening layout: type and colour on each square, or nothing.
pub open spec fn canonical(s: int) -> Option<(PieceType, Color)> {
    let row = s / 8;
    let col = s % 8;
    if row == 0 {
        Some((back_rank(col), Color::White))
    } else if row == 1 {
        Some((PieceType::Pawn, Color::White))
    } else if row == 6 {
        Some((PieceType::Pawn, Color::Black))
    } else if row == 7 {
        Some((back_rank(col), Color::Black))
    } else {
        None
    }
}

/// The movement geometry of a piece type for a displacement of `dr` rows and
/// `dc` columns, regardless of what stands on the board.
pub open spec fn geometry(kind: PieceType, side: Color, dr: int, dc: int) -> bool {
    match kind {
        PieceType::Pawn => {
            let f = forward(side);
            (dr == f && dc == 0) || (dr == 2 * f && dc == 0) || (dr == f && abs(dc) == 1)
        },
        PieceType::Rook => dr == 0 || dc == 0,
        PieceType::Knight => (abs(dr) == 1 && abs(dc) == 2) || (abs(dr) == 2 && abs(dc) == 1),
        PieceType::Bishop => abs(dr) == abs(dc) && dr != 0,
        PieceType::Queen => dr == 0 || dc == 0 || abs(dr) == abs(dc),
        PieceType::King => abs(dr) <= 1 && abs(dc) <= 1,
    }
}

/// The lowercase letter of a piece type.
pub open spec fn type_letter(kind: PieceType) -> char {
    match kind {
        PieceType::Pawn => 'p',
        PieceType::Rook => 'r',
        PieceType::Knight => 'n',
        PieceType::Bishop => 'b',
        PieceType::Queen => 'q',
        PieceType::King => 'k',
    }
}

/// The display letter of a piece: uppercase for White, lowercase for Black.
pub open spec fn letter_of(kind: PieceType, side: Color) -> char {
    match side {
        Color::White => (type_letter(kind) as int - 32) as char,
        Color::Black => type_letter(kind),
    }
}

impl PieceType {
    /// Whether the type slides along rays (Rook, Bishop, Queen).
    pub fn ray_piece(self) -> (r: bool)
        ensures
            r == (self == PieceType::Rook || self == PieceType::Bishop || self == PieceType::Queen),
    {
        match self {
            PieceType::Rook | PieceType::Bishop | PieceType::Queen => true,
            _ => false,
        }
    }
}

impl Color {
    pub fn opposite(self) -> (r: Color)
        ensures
            r == other(self),
    {
        match self {
            Color::White => Color::Black,
            Color::Black => Color::White,
        }
    }
}

impl Piece {
    pub open spec fn kind(self) -> PieceType {
        slot_type(self.0 as int)
    }

    pub open spec fn side(self) -> Color {
        if self.0 >= BLACK_START {
            Color::Black
        } else {
            Color::White
        }
    }

    /// The piece that stands on `pos` in the opening layout.
    pub fn from_start_pos(pos: Pos) -> (r: Piece)
        requires
            pos.valid(),
            !(3 <= pos.row_spec() <= 5),
        ensures
            r.0 == start_slot(pos.0 as int),
            r.0 < PIECE_COUNT,
            pos.row_spec() != 2 ==> canonical(pos.0 as int) == Some((r.kind(), r.side())),
    {
        let i = pos.pos_index() as u8;
        if pos.row() < 3 {
            Piece(i)
        } else if pos.row() == 7 {
            Piece(BLACK_START + pos.col())
        } else {
            Piece(BLACK_START + 8 + pos.col())
        }
    }

    pub fn piece_index(self) -> (r: usize)
        ensures
            r == self.0,
    {
        self.0 as usize
    }

    pub fn typ(self) -> (r: PieceType)
        ensures
            r == self.kind(),
    {
        match self.0 % 16 {
            0 | 7 => PieceType::Rook,
            1 | 6 => PieceType::Knight,
            2 | 5 => PieceType::Bishop,
            3 => PieceType::Queen,
            4 => PieceType::King,
            _ => PieceType::Pawn,
        }
    }

    pub fn color(self) -> (r: Color)
        ensures
            r == self.side(),
    {
        if self.0 >= BLACK_START {
            Color::Black
        } else {
            Color::White
        }
    }

    /// Whether the move from `start` to `end` has this piece's movement
    /// geometry, whatever occupies the board. Displacements are measured in
    /// rows and columns, so no step wraps from one rank onto the next.
    pub fn can_move(self, start: Pos, end: Pos) -> (r: bool)
        ensures
            r == geometry(
                self.kind(),
                self.side(),
                end.row_spec() - start.row_spec(),
                end.col_spec() - start.col_spec(),
            ),
    {
        let dr: i16 = end.row() as i16 - start.row() as i16;
        let dc: i16 = end.col() as i16 - start.col() as i16;
        let adr: i16 = if dr < 0 { -dr } else { dr };
        let adc: i16 = if dc < 0 { -dc } else { dc };
        match self.typ() {
            PieceType::Pawn => {
                let dir: i16 = match self.color() {
                    Color::White => 1,
                    Color::Black => -1,
                };
                (dr == dir && dc == 0) || (dr == 2 * dir && dc == 0) || (dr == dir && adc == 1)
            },
            PieceType::Rook => dr == 0 || dc == 0,
            PieceType::Knight => (adr == 1 && adc == 2) || (adr == 2 && adc == 1),
            PieceType::Bishop => adr == adc && dr != 0,
            PieceType::Queen => dr == 0 || dc == 0 || adr == adc,
            PieceType::King => adr <= 1 && adc <= 1,
        }
    }
}

/// The display letter of a piece: uppercase for White, lowercase for Black.
pub fn piece_letter(piece: Piece) -> (r: char)
    ensures
        r == letter_of(piece.kind(), piece.side()),
{
    let ch: char = match piece.typ() {
        PieceType::Pawn => 'p',
        PieceType::Rook => 'r',
        PieceType::Knight => 'n',
        PieceType::Bishop => 'b',
        PieceType::Queen => 'q',
        PieceType::King => 'k',
    };
    match piece.color() {
        Color::White => ((ch as u8) - 32) as char,
        Color::Black => ch,
    }
}

} // verus!
