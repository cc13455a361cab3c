use vstd::prelude::*;
use crate::pos::{Pos, EMPTY_INDEX};
use crate::piece::{
    abs, canonical, forward, geometry, other, start_slot, Color, Piece, PieceType, BLACK_START,
    PIECE_COUNT,
};

verus! {

/// The opening occupant of square `s`: the piece of slot `start_slot(s)` on
/// the two back ranks of each side, nothing in rows 2 to 5.
pub open spec fn start_occupant(s: int) -> Option<Piece> {
    if 16 <= s < 48 {
        None
    } else {
        Some(Piece(start_slot(s) as u8))
    }
}

/// The opening square of the piece in slot `k`.
pub open spec fn start_square(k: int) -> int {
    if k < BLACK_START {
        k
    } else if k < BLACK_START + 8 {
        56 + (k - BLACK_START)
    } else {
        48 + (k - BLACK_START - 8)
    }
}

/// `k` steps along an axis whose direction is the sign of `d`.
pub open spec fn offset(d: int, k: int) -> int {
    if d > 0 {
        k
    } else if d < 0 {
        -k
    } else {
        0
    }
}

/// The square `k` steps from `s` along the line whose row and column
/// directions are the signs of `dr` and `dc`.
pub open spec fn line_square(s: Pos, dr: int, dc: int, k: int) -> int {
    (s.row_spec() + offset(dr, k)) * 8 + s.col_spec() + offset(dc, k)
}

/// Whether the displacement lies on a rank, a file or a diagonal.
pub open spec fn aligned(dr: int, dc: int) -> bool {
    dr == 0 || dc == 0 || abs(dr) == abs(dc)
}

/// The number of single steps that a ray walk takes for the displacement.
pub open spec fn ray_len(dr: int, dc: int) -> int {
    if abs(dr) >= abs(dc) {
        abs(dr)
    } else {
        abs(dc)
    }
}

/// The model of a board: the square of each piece slot (or the sentinel),
/// the occupant of each square, and the side to move.
pub struct BoardState {
    pub pieces: Seq<Pos>,
    pub squares: Seq<Option<Piece>>,
    pub turn: Color,
}

impl BoardState {
    /// Every occupied square holds a piece whose tracked location is that
    /// square.
    pub open spec fn index_consistent(self) -> bool {
        forall|s: int|
            0 <= s < 64 && (#[trigger] self.squares[s]) is Some ==> {
                let p = self.squares[s]->0;
                p.0 < PIECE_COUNT && self.pieces[p.0 as int].0 == s
            }
    }

    pub open spec fn wf(self) -> bool {
        &&& self.pieces.len() == PIECE_COUNT
        &&& self.squares.len() == 64
        &&& self.index_consistent()
    }

    /// Whether `s` names a square that holds a piece.
    pub open spec fn occupied(self, s: Pos) -> bool {
        s.valid() && self.squares[s.0 as int] is Some
    }

    /// The board after the piece on `start` (if any) moves to `end`,
    /// overwriting what stood there.
    pub open spec fn after_move(self, start: Pos, end: Pos) -> BoardState {
        match self.squares[start.0 as int] {
            Some(p) => BoardState {
                pieces: self.pieces.update(p.0 as int, end),
                squares: self.squares.update(start.0 as int, None).update(end.0 as int, Some(p)),
                turn: self.turn,
            },
            None => self,
        }
    }

    /// The board after the piece on `pos` (if any) is taken off.
    pub open spec fn after_remove(self, pos: Pos) -> BoardState {
        match self.squares[pos.0 as int] {
            Some(p) => BoardState {
                pieces: self.pieces.update(p.0 as int, Pos(EMPTY_INDEX)),
                squares: self.squares.update(pos.0 as int, None),
                turn: self.turn,
            },
            None => self,
        }
    }

    /// The board after a sequence of moves, applied in order.
    pub open spec fn after_moves(self, moves: Seq<(Pos, Pos)>) -> BoardState
        decreases moves.len(),
    {
        if moves.len() == 0 {
            self
        } else {
            self.after_move(moves[0].0, moves[0].1).after_moves(moves.drop_first())
        }
    }

    /// Whether no square strictly between `s` and `e` on their common rank,
    /// file or diagonal is occupied; false when the two are not aligned or
    /// are the same square.
    pub open spec fn ray_clear(self, s: Pos, e: Pos) -> bool {
        let dr = e.row_spec() - s.row_spec();
        let dc = e.col_spec() - s.col_spec();
        &&& aligned(dr, dc)
        &&& ray_len(dr, dc) > 0
        &&& forall|k: int|
            0 < k < ray_len(dr, dc) ==> (#[trigger] self.squares[line_square(s, dr, dc, k)]) is None
    }

    /// The pawn's occupancy rule: a double step needs the square passed over
    /// and the destination empty, a straight step the destination empty, and
    /// a diagonal step an occupied destination (of either colour).
    pub open spec fn pawn_clear(self, s: Pos, e: Pos, side: Color) -> bool {
        let dr = e.row_spec() - s.row_spec();
        if abs(dr) == 2 {
            &&& self.squares[(s.row_spec() + forward(side)) * 8 + s.col_spec()] is None
            &&& self.squares[e.0 as int] is None
        } else if s.col_spec() == e.col_spec() {
            self.squares[e.0 as int] is None
        } else {
            self.squares[e.0 as int] is Some
        }
    }

    /// The occupancy check of each piece type; Knight and King have none.
    pub open spec fn path_clear(self, kind: PieceType, side: Color, s: Pos, e: Pos) -> bool {
        match kind {
            PieceType::Rook | PieceType::Bishop | PieceType::Queen => self.ray_clear(s, e),
            PieceType::Pawn => self.pawn_clear(s, e, side),
            _ => true,
        }
    }

    /// Pseudo-legality: both squares on the board, a piece of the side to
    /// move on `s`, the piece's geometry, and its occupancy check.
    pub open spec fn legal(self, s: Pos, e: Pos) -> bool {
        &&& s.valid()
        &&& e.valid()
        &&& self.squares[s.0 as int] is Some
        &&& {
            let p = self.squares[s.0 as int]->0;
            &&& p.side() == self.turn
            &&& geometry(
                p.kind(),
                p.side(),
                e.row_spec() - s.row_spec(),
                e.col_spec() - s.col_spec(),
            )
            &&& self.path_clear(p.kind(), p.side(), s, e)
        }
    }
}

/// Whether `e` holds a piece of the same colour as the piece on `s`.
pub open spec fn friendly_target(b: BoardState, s: Pos, e: Pos) -> bool {
    &&& b.squares[e.0 as int] is Some
    &&& b.squares[s.0 as int] is Some
    &&& b.squares[e.0 as int]->0.side() == b.squares[s.0 as int]->0.side()
}

/// A chessboard: the square of each of the 32 piece slots, the occupant of
/// each of the 64 squares, and the side to move.
pub struct Board {
    pub pieces: [Pos; 32],
    pub squares: [Option<Piece>; 64],
    pub turn: Color,
}

impl View for Board {
    type V = BoardState;

    open spec fn view(&self) -> BoardState {
        BoardState { pieces: self.pieces@, squares: self.squares@, turn: self.turn }
    }
}

impl Board {
    pub open spec fn wf(&self) -> bool {
        self@.wf()
    }

    /// The side to move, as seen from outside.
    pub fn turn(&self) -> (r: Color)
        ensures
            r == self.turn,
    {
        self.turn
    }

    /// The occupant of square `pos`.
    pub fn occupant_at(&self, pos: Pos) -> (r: Option<Piece>)
        requires
            pos.valid(),
        ensures
            r == self@.squares[pos.0 as int],
    {
        self.squares[pos.pos_index()]
    }

    /// The tracked square of `piece`, or the sentinel once it was removed.
    pub fn location_of(&self, piece: Piece) -> (r: Pos)
        requires
            piece.0 < PIECE_COUNT,
        ensures
            r == self@.pieces[piece.0 as int],
    {
        self.pieces[piece.piece_index()]
    }

    /// The standard opening layout with White to move.
    pub fn starting_board() -> (r: Board)
        ensures
            r.wf(),
            r.turn == Color::White,
            forall|s: int| 0 <= s < 64 ==> #[trigger] r@.squares[s] == start_occupant(s),
            forall|k: int| 0 <= k < 32 ==> (#[trigger] r@.pieces[k]).0 == start_square(k),
            forall|s: int|
                0 <= s < 64 ==> match #[trigger] r@.squares[s] {
                    None => canonical(s) is None,
                    Some(p) => canonical(s) == Some((p.kind(), p.side())),
                },
    {
        let mut pieces: [Pos; 32] = [Pos(EMPTY_INDEX); 32];
        let mut squares: [Option<Piece>; 64] = [None; 64];
        let mut i: usize = 0;
        while i < 64
            invariant
                i <= 64,
                forall|s: int| 0 <= s < i ==> #[trigger] squares@[s] == start_occupant(s),
                forall|s: int| i <= s < 64 ==> (#[trigger] squares@[s]) is None,
                forall|k: int|
                    0 <= k < 32 ==> (#[trigger] pieces@[k]).0 == if start_square(k) < i {
                        start_square(k)
                    } else {
                        EMPTY_INDEX as int
                    },
            decreases 64 - i,
        {
            if i < 16 || i >= 48 {
                let pos = Pos::from_pos_index(i);
                let piece = Piece::from_start_pos(pos);
                pieces[piece.piece_index()] = pos;
                squares[i] = Some(piece);
            }
            i = i + 1;
        }
        let r = Board { pieces, squares, turn: Color::White };
        proof {
            assert forall|s: int| 0 <= s < 64 && (#[trigger] r@.squares[s]) is Some implies ({
                let p = r@.squares[s]->0;
                p.0 < PIECE_COUNT && r@.pieces[p.0 as int].0 == s
            }) by {
                assert(r@.squares[s] == start_occupant(s));
                assert(r@.pieces[start_slot(s)].0 == start_square(start_slot(s)));
            }
            assert forall|s: int| 0 <= s < 64 implies match #[trigger] r@.squares[s] {
                None => canonical(s) is None,
                Some(p) => canonical(s) == Some((p.kind(), p.side())),
            } by {
                assert(r@.squares[s] == start_occupant(s));
            }
        }
        r
    }

    /// Takes the piece on `pos` off the board, marking its location with the
    /// sentinel; does nothing when `pos` is empty.
    pub fn remove_piece(&mut self, pos: Pos)
        requires
            old(self).wf(),
            pos.valid(),
        ensures
            final(self)@ == old(self)@.after_remove(pos),
            final(self).wf(),
    {
        if let Some(piece) = self.squares[pos.pos_index()] {
            self.squares[pos.pos_index()] = None;
            self.pieces[piece.piece_index()] = Pos::empty();
        }
        assert(self@.pieces =~= old(self)@.after_remove(pos).pieces);
        assert(self@.squares =~= old(self)@.after_remove(pos).squares);
    }

    /// Moves the piece on `start` to `end`, overwriting whatever stood on
    /// `end` (whose own tracked location is left as it was); does nothing
    /// when `start` is empty.
    pub fn move_piece(&mut self, start: Pos, end: Pos)
        requires
            old(self).wf(),
            start.valid(),
            end.valid(),
        ensures
            final(self)@ == old(self)@.after_move(start, end),
            final(self).wf(),
    {
        if let Some(piece) = self.squares[start.pos_index()] {
            self.pieces[piece.piece_index()] = end;
            self.squares[start.pos_index()] = None;
            self.squares[end.pos_index()] = Some(piece);
        }
        assert(self@.pieces =~= old(self)@.after_move(start, end).pieces);
        assert(self@.squares =~= old(self)@.after_move(start, end).squares);
    }

    /// Walks from `start` one square at a time in direction
    /// (`step_r`, `step_c`) and tells whether the `n - 1` squares before the
    /// `n`-th step are all empty.
    fn clear_between(&self, start: Pos, step_r: i16, step_c: i16, n: i16) -> (r: bool)
        requires
            start.valid(),
            -1 <= step_r <= 1,
            -1 <= step_c <= 1,
            n >= 1,
            0 <= start.row_spec() + offset(step_r as int, n as int) < 8,
            0 <= start.col_spec() + offset(step_c as int, n as int) < 8,
        ensures
            r == forall|k: int|
                0 < k < n ==> (#[trigger] self@.squares[line_square(
                    start,
                    step_r as int,
                    step_c as int,
                    k,
                )]) is None,
    {
        let mut row: i16 = start.row() as i16 + step_r;
        let mut col: i16 = start.col() as i16 + step_c;
        let mut k: i16 = 1;
        while k < n
            invariant
                1 <= k <= n,
                start.valid(),
                -1 <= step_r <= 1,
                -1 <= step_c <= 1,
                0 <= start.row_spec() + offset(step_r as int, n as int) < 8,
                0 <= start.col_spec() + offset(step_c as int, n as int) < 8,
                row == start.row_spec() + offset(step_r as int, k as int),
                col == start.col_spec() + offset(step_c as int, k as int),
                forall|j: int|
                    0 < j < k ==> (#[trigger] self@.squares[line_square(
                        start,
                        step_r as int,
                        step_c as int,
                        j,
                    )]) is None,
            decreases n - k,
        {
            let idx: usize = (row * 8 + col) as usize;
            assert(idx == line_square(start, step_r as int, step_c as int, k as int));
            if self.squares[idx].is_some() {
                return false;
            }
            k = k + 1;
            row = row + step_r;
            col = col + step_c;
        }
        true
    }

    /// The ray walk of a bishop: diagonal steps toward `end`.
    fn sudo_legal_bishop(&self, start: Pos, end: Pos) -> (r: bool)
        requires
            start.valid(),
            end.valid(),
            abs(end.row_spec() - start.row_spec()) == abs(end.col_spec() - start.col_spec()),
            start != end,
        ensures
            r == self@.ray_clear(start, end),
    {
        let inc_r: i16 = if end.row() > start.row() { 1 } else { -1 };
        let inc_c: i16 = if end.col() > start.col() { 1 } else { -1 };
        let n: i16 = if end.row() > start.row() {
            end.row() as i16 - start.row() as i16
        } else {
            start.row() as i16 - end.row() as i16
        };
        let r = self.clear_between(start, inc_r, inc_c, n);
        proof {
            let dr = end.row_spec() - start.row_spec();
            let dc = end.col_spec() - start.col_spec();
            assert forall|k: int| 0 < k < n implies line_square(start, dr, dc, k) == line_square(
                start,
                inc_r as int,
                inc_c as int,
                k,
            ) by {}
        }
        r
    }

    /// The ray walk of a rook: steps along the one axis that differs.
    fn sudo_legal_rook(&self, start: Pos, end: Pos) -> (r: bool)
        requires
            start.valid(),
            end.valid(),
            start.row_spec() == end.row_spec() || start.col_spec() == end.col_spec(),
            start != end,
        ensures
            r == self@.ray_clear(start, end),
    {
        let (inc_r, inc_c, n): (i16, i16, i16) = if end.col() > start.col() {
            (0, 1, end.col() as i16 - start.col() as i16)
        } else if end.col() < start.col() {
            (0, -1, start.col() as i16 - end.col() as i16)
        } else if end.row() > start.row() {
            (1, 0, end.row() as i16 - start.row() as i16)
        } else {
            (-1, 0, start.row() as i16 - end.row() as i16)
        };
        let r = self.clear_between(start, inc_r, inc_c, n);
        proof {
            let dr = end.row_spec() - start.row_spec();
            let dc = end.col_spec() - start.col_spec();
            assert forall|k: int| 0 < k < n implies line_square(start, dr, dc, k) == line_square(
                start,
                inc_r as int,
                inc_c as int,
                k,
            ) by {}
        }
        r
    }

    /// The queen walks as a rook when on a rank or file, else as a bishop.
    fn sudo_legal_queen(&self, start: Pos, end: Pos) -> (r: bool)
        requires
            start.valid(),
            end.valid(),
            aligned(end.row_spec() - start.row_spec(), end.col_spec() - start.col_spec()),
        ensures
            r == self@.ray_clear(start, end),
    {
        if start.0 == end.0 {
            false
        } else if start.col() == end.col() || start.row() == end.row() {
            self.sudo_legal_rook(start, end)
        } else {
            self.sudo_legal_bishop(start, end)
        }
    }

    /// The pawn's occupancy rule for a move with pawn geometry.
    fn sudo_legal_pawn(&self, start: Pos, end: Pos, side: Color) -> (r: bool)
        requires
            start.valid(),
            end.valid(),
            geometry(
                PieceType::Pawn,
                side,
                end.row_spec() - start.row_spec(),
                end.col_spec() - start.col_spec(),
            ),
        ensures
            r == self@.pawn_clear(start, end, side),
    {
        let dif: i16 = start.row() as i16 - end.row() as i16;
        if dif == 2 || dif == -2 {
            let mid = match side {
                Color::White => start.add_row(1),
                Color::Black => start.add_row(-1),
            };
            self.squares[mid.pos_index()].is_none() && self.squares[end.pos_index()].is_none()
        } else if start.col() == end.col() {
            self.squares[end.pos_index()].is_none()
        } else {
            self.squares[end.pos_index()].is_some()
        }
    }

    /// Whether moving the piece on `start` to `end` is pseudo-legal: a piece
    /// of the side to move stands on `start`, the displacement has its
    /// geometry, and its occupancy check passes. Squares off the board give
    /// `false`. Whether `end` holds a friendly piece is not checked.
    pub fn sudo_legal(&self, start: Pos, end: Pos) -> (r: bool)
        ensures
            r == self@.legal(start, end),
    {
        if start.0 >= 64 || end.0 >= 64 {
            return false;
        }
        match self.squares[start.pos_index()] {
            None => false,
            Some(piece) => {
                piece.color() == self.turn && piece.can_move(start, end) && match piece.typ() {
                    PieceType::Bishop => self.sudo_legal_bishop(start, end),
                    PieceType::Rook => {
                        if start.0 == end.0 {
                            false
                        } else {
                            self.sudo_legal_rook(start, end)
                        }
                    },
                    PieceType::Queen => self.sudo_legal_queen(start, end),
                    PieceType::Pawn => self.sudo_legal_pawn(start, end, piece.color()),
                    _ => true,
                }
            },
        }
    }

    /// `sudo_legal`, and with `strict` set also refuses a destination that
    /// holds a piece of the mover's own colour.
    pub fn sudo_legal_with(&self, start: Pos, end: Pos, strict: bool) -> (r: bool)
        ensures
            r == (self@.legal(start, end) && !(strict && friendly_target(self@, start, end))),
    {
        if !self.sudo_legal(start, end) {
            return false;
        }
        if !strict {
            return true;
        }
        match (self.squares[start.pos_index()], self.squares[end.pos_index()]) {
            (Some(mover), Some(target)) => mover.color() != target.color(),
            _ => true,
        }
    }

    /// Plays one turn: when the move is pseudo-legal, makes it and passes the
    /// turn to the other side; otherwise leaves the board as it is. Returns
    /// whether the move was made.
    pub fn play_move(&mut self, start: Pos, end: Pos) -> (r: bool)
        requires
            old(self).wf(),
        ensures
            r == old(self)@.legal(start, end),
            r ==> final(self)@ == (BoardState {
                turn: other(old(self).turn),
                ..old(self)@.after_move(start, end)
            }),
            !r ==> final(self)@ == old(self)@,
            final(self).wf(),
    {
        if self.sudo_legal(start, end) {
            self.move_piece(start, end);
            self.switch_turn();
            true
        } else {
            false
        }
    }

    pub fn switch_turn(&mut self)
        ensures
            final(self).wf() == old(self).wf(),
            final(self)@ == (BoardState { turn: other(old(self).turn), ..old(self)@ }),
    {
        self.turn = self.turn.opposite();
    }
}

/// A single move keeps every occupied square's piece located on that square.
pub proof fn lemma_move_keeps_round_trip(b: BoardState, start: Pos, end: Pos)
    requires
        b.wf(),
        start.valid(),
        end.valid(),
    ensures
        b.after_move(start, end).wf(),
{
}

/// From a well-formed board, after any sequence of moves between squares,
/// the piece on each occupied square is still tracked at that square.
pub proof fn lemma_moves_keep_round_trip(b: BoardState, moves: Seq<(Pos, Pos)>)
    requires
        b.wf(),
        forall|i: int| 0 <= i < moves.len() ==> (#[trigger] moves[i]).0.valid() && moves[i].1.valid(),
    ensures
        b.after_moves(moves).index_consistent(),
        b.after_moves(moves).wf(),
    decreases moves.len(),
{
    if moves.len() > 0 {
        assert(moves[0].0.valid() && moves[0].1.valid());
        lemma_move_keeps_round_trip(b, moves[0].0, moves[0].1);
        let rest = moves.drop_first();
        assert forall|i: int| 0 <= i < rest.len() implies (#[trigger] rest[i]).0.valid()
            && rest[i].1.valid() by {
            assert(rest[i] == moves[i + 1]);
        }
        lemma_moves_keep_round_trip(b.after_move(moves[0].0, moves[0].1), rest);
    }
}

/// No move starts from a square without a piece.
pub proof fn lemma_empty_start_rejected(b: BoardState, start: Pos, end: Pos)
    requires
        !b.occupied(start),
    ensures
        !b.legal(start, end),
{
}

/// No move is legal for a piece of the side that is not to move.
pub proof fn lemma_wrong_side_rejected(b: BoardState, start: Pos, end: Pos)
    requires
        b.occupied(start),
        b.squares[start.0 as int]->0.side() != b.turn,
    ensures
        !b.legal(start, end),
{
}

} // verus!
