use chess_board::board::Board;
use chess_board::piece::{Color, Piece, PieceType};
use chess_board::pos::Pos;

fn at(s: &str) -> Pos {
    Pos::from_notation(s).unwrap()
}

fn kind_at(board: &Board, s: &str) -> Option<(PieceType, Color)> {
    board.occupant_at(at(s)).map(|p| (p.typ(), p.color()))
}

fn assert_round_trip(board: &Board) {
    for i in 0..64usize {
        let s = Pos::from_pos_index(i);
        if let Some(p) = board.occupant_at(s) {
            assert_eq!(board.location_of(p), s);
        }
    }
}

#[test]
fn starting_layout() {
    let board = Board::starting_board();
    let back = [
        PieceType::Rook,
        PieceType::Knight,
        PieceType::Bishop,
        PieceType::Queen,
        PieceType::King,
        PieceType::Bishop,
        PieceType::Knight,
        PieceType::Rook,
    ];
    for col in 0..8u8 {
        let occ = |row: u8| {
            board.occupant_at(Pos::new(col, row)).map(|p| (p.typ(), p.color()))
        };
        assert_eq!(occ(0), Some((back[col as usize], Color::White)));
        assert_eq!(occ(1), Some((PieceType::Pawn, Color::White)));
        for row in 2..6u8 {
            assert_eq!(occ(row), None);
        }
        assert_eq!(occ(6), Some((PieceType::Pawn, Color::Black)));
        assert_eq!(occ(7), Some((back[col as usize], Color::Black)));
    }
    assert_eq!(board.turn(), Color::White);
    assert_eq!(kind_at(&board, "d1"), Some((PieceType::Queen, Color::White)));
    assert_eq!(kind_at(&board, "d8"), Some((PieceType::Queen, Color::Black)));
    assert_eq!(kind_at(&board, "e8"), Some((PieceType::King, Color::Black)));
}

#[test]
fn starting_locations() {
    let board = Board::starting_board();
    assert_round_trip(&board);
    for k in 0..32u8 {
        let s = board.location_of(Piece(k));
        assert_eq!(board.occupant_at(s), Some(Piece(k)));
    }
    assert_eq!(board.location_of(Piece(16)), at("a8"));
    assert_eq!(board.location_of(Piece(31)), at("h7"));
}

#[test]
fn round_trip_after_moves() {
    let mut board = Board::starting_board();
    let moves = [("e2", "e4"), ("d7", "d5"), ("e4", "d5"), ("d8", "d5"), ("g1", "f3"), ("a1", "a1")];
    for (s, e) in moves {
        board.move_piece(at(s), at(e));
        assert_round_trip(&board);
    }
    assert_eq!(kind_at(&board, "d5"), Some((PieceType::Queen, Color::Black)));
    assert_eq!(kind_at(&board, "a1"), Some((PieceType::Rook, Color::White)));
}

#[test]
fn move_from_empty_square_does_nothing() {
    let mut board = Board::starting_board();
    board.move_piece(at("e4"), at("e5"));
    assert_eq!(board.occupant_at(at("e5")), None);
    assert_eq!(board.occupant_at(at("e4")), None);
    assert_round_trip(&board);
}

#[test]
fn remove_piece_marks_location_empty() {
    let mut board = Board::starting_board();
    let pawn = board.occupant_at(at("c2")).unwrap();
    board.remove_piece(at("c2"));
    assert_eq!(board.occupant_at(at("c2")), None);
    assert_eq!(board.location_of(pawn), Pos::empty());
    board.remove_piece(at("c4"));
    assert_eq!(board.occupant_at(at("c4")), None);
    assert_round_trip(&board);
}

#[test]
fn switch_turn_flips_side() {
    let mut board = Board::starting_board();
    board.switch_turn();
    assert_eq!(board.turn(), Color::Black);
    board.switch_turn();
    assert_eq!(board.turn(), Color::White);
}

#[test]
fn empty_start_is_illegal() {
    let board = Board::starting_board();
    assert!(!board.sudo_legal(at("e4"), at("e5")));
    assert!(!board.sudo_legal(at("a3"), at("a4")));
}

#[test]
fn wrong_side_is_illegal() {
    let mut board = Board::starting_board();
    assert!(!board.sudo_legal(at("e7"), at("e5")));
    assert!(!board.sudo_legal(at("g8"), at("f6")));
    board.switch_turn();
    assert!(!board.sudo_legal(at("e2"), at("e4")));
    assert!(board.sudo_legal(at("e7"), at("e5")));
}

#[test]
fn off_board_squares_are_illegal() {
    let board = Board::starting_board();
    assert!(!board.sudo_legal(Pos::empty(), at("e4")));
    assert!(!board.sudo_legal(at("e2"), Pos::empty()));
    assert!(!board.sudo_legal(at("e2"), Pos(64)));
}

#[test]
fn rook_blocked_by_friendly_pawn() {
    let mut board = Board::starting_board();
    board.move_piece(at("a2"), at("a4"));
    assert!(!board.sudo_legal(at("a1"), at("a5")));
    assert!(board.sudo_legal(at("a1"), at("a3")));
    assert!(board.sudo_legal(at("a1"), at("a2")));
    assert!(board.sudo_legal(at("a1"), at("a4")));
    assert!(!board.sudo_legal(at("a1"), at("a1")));
    assert!(!board.sudo_legal(at("a1"), at("b3")));
}

#[test]
fn pawn_double_step_needs_both_squares_empty() {
    let mut board = Board::starting_board();
    assert!(board.sudo_legal(at("e2"), at("e4")));
    assert!(board.sudo_legal(at("e2"), at("e3")));
    board.move_piece(at("e7"), at("e3"));
    assert!(!board.sudo_legal(at("e2"), at("e4")));
    assert!(!board.sudo_legal(at("e2"), at("e3")));
    let mut board = Board::starting_board();
    board.move_piece(at("e7"), at("e4"));
    assert!(!board.sudo_legal(at("e2"), at("e4")));
    assert!(board.sudo_legal(at("e2"), at("e3")));
}

#[test]
fn pawn_diagonal_needs_an_occupant() {
    let mut board = Board::starting_board();
    assert!(!board.sudo_legal(at("e2"), at("d3")));
    board.move_piece(at("d7"), at("d3"));
    assert!(board.sudo_legal(at("e2"), at("d3")));
    board.move_piece(at("d3"), at("f3"));
    assert!(board.sudo_legal(at("e2"), at("f3")));
    assert!(!board.sudo_legal(at("h2"), at("a4")));
}

#[test]
fn knight_from_b1() {
    let board = Board::starting_board();
    assert!(board.sudo_legal(at("b1"), at("a3")));
    assert!(board.sudo_legal(at("b1"), at("c3")));
    assert!(!board.sudo_legal(at("b1"), at("b3")));
    assert!(!board.sudo_legal(at("b1"), at("a1")));
    assert!(board.sudo_legal(at("b1"), at("d2")));
}

#[test]
fn bishop_walks_each_diagonal() {
    let mut board = Board::starting_board();
    assert!(!board.sudo_legal(at("c1"), at("g5")));
    board.move_piece(at("d2"), at("d3"));
    assert!(board.sudo_legal(at("c1"), at("g5")));
    assert!(board.sudo_legal(at("c1"), at("h6")));
    assert!(!board.sudo_legal(at("c1"), at("c3")));
    assert!(!board.sudo_legal(at("f1"), at("a6")));
    let mut board = Board::starting_board();
    board.move_piece(at("e2"), at("e4"));
    assert!(board.sudo_legal(at("f1"), at("a6")));
    assert!(board.sudo_legal(at("f1"), at("b5")));
    board.move_piece(at("d7"), at("c4"));
    assert!(!board.sudo_legal(at("f1"), at("a6")));
    assert!(board.sudo_legal(at("f1"), at("c4")));
}

#[test]
fn queen_walks_as_rook_or_bishop() {
    let mut board = Board::starting_board();
    assert!(!board.sudo_legal(at("d1"), at("d3")));
    assert!(!board.sudo_legal(at("d1"), at("h5")));
    board.move_piece(at("d2"), at("d4"));
    board.move_piece(at("e2"), at("e4"));
    assert!(board.sudo_legal(at("d1"), at("d3")));
    assert!(!board.sudo_legal(at("d1"), at("d5")));
    assert!(board.sudo_legal(at("d1"), at("h5")));
    assert!(!board.sudo_legal(at("d1"), at("e3")));
    assert!(!board.sudo_legal(at("d1"), at("d1")));
}

#[test]
fn king_one_step_any_occupant() {
    let mut board = Board::starting_board();
    assert!(board.sudo_legal(at("e1"), at("e2")));
    assert!(board.sudo_legal(at("e1"), at("e1")));
    board.move_piece(at("e1"), at("e4"));
    assert!(board.sudo_legal(at("e4"), at("d5")));
    assert!(!board.sudo_legal(at("e4"), at("e6")));
}

#[test]
fn opening_exchange() {
    let mut board = Board::starting_board();
    assert!(board.sudo_legal(at("e2"), at("e4")));
    board.move_piece(at("e2"), at("e4"));
    board.switch_turn();
    assert!(board.sudo_legal(at("e7"), at("e5")));
    board.move_piece(at("e7"), at("e5"));
    board.switch_turn();
    assert_eq!(kind_at(&board, "e4"), Some((PieceType::Pawn, Color::White)));
    assert_eq!(kind_at(&board, "e5"), Some((PieceType::Pawn, Color::Black)));
    assert_eq!(board.occupant_at(at("e2")), None);
    assert_eq!(board.occupant_at(at("e7")), None);
    assert_eq!(board.turn(), Color::White);
    assert_round_trip(&board);
}

#[test]
fn strict_check_refuses_friendly_capture() {
    let board = Board::starting_board();
    assert!(board.sudo_legal(at("b1"), at("d2")));
    assert!(board.sudo_legal_with(at("b1"), at("d2"), false));
    assert!(!board.sudo_legal_with(at("b1"), at("d2"), true));
    assert!(board.sudo_legal_with(at("b1"), at("c3"), true));
    assert!(!board.sudo_legal_with(at("b1"), at("b3"), false));
    let mut board = Board::starting_board();
    board.move_piece(at("d7"), at("d3"));
    assert!(board.sudo_legal_with(at("e2"), at("d3"), true));
}

#[test]
fn play_move_applies_only_legal_moves() {
    let mut board = Board::starting_board();
    assert!(!board.play_move(at("e2"), at("e5")));
    assert_eq!(board.turn(), Color::White);
    assert_eq!(kind_at(&board, "e2"), Some((PieceType::Pawn, Color::White)));
    assert!(board.play_move(at("e2"), at("e4")));
    assert_eq!(board.turn(), Color::Black);
    assert_eq!(board.occupant_at(at("e2")), None);
    assert_eq!(kind_at(&board, "e4"), Some((PieceType::Pawn, Color::White)));
    assert!(!board.play_move(at("d2"), at("d4")));
    assert!(board.play_move(at("e7"), at("e5")));
    assert_eq!(board.turn(), Color::White);
    assert_round_trip(&board);
}
