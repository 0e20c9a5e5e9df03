use chess_rules::board::{Board, BoardError, Move, Position};
use chess_rules::convert;
use chess_rules::piece::{Color, Piece, PieceType};

fn pos(row: i8, col: i8) -> Position {
    Position { row, col }
}

fn play(moves: &[&str]) -> Board {
    let mut board = Board::new();
    for text in moves {
        assert_eq!(board.is_legal(&convert(text)), true);
        board.make_move(&convert(text)).unwrap();
    }
    board
}

fn piece(kind: PieceType, color: Color) -> Option<Piece> {
    Some(Piece { piece_type: kind, color })
}

fn count(board: &Board, wanted: Option<Piece>) -> usize {
    let grid = board.get_board();
    let mut n = 0;
    for row in 0..8 {
        for col in 0..8 {
            if grid[row][col] == wanted {
                n += 1;
            }
        }
    }
    n
}

fn king_square(board: &Board, color: Color) -> Position {
    let grid = board.get_board();
    for row in 0..8 {
        for col in 0..8 {
            if grid[row][col] == piece(PieceType::King, color) {
                return pos(row as i8, col as i8);
            }
        }
    }
    panic!("no king");
}

#[test]
fn a_move_carries_the_piece_and_passes_the_turn() {
    let mut board = Board::new();
    assert_eq!(board.make_move(&convert("e2e4")), Ok(()));
    let grid = board.get_board();
    assert_eq!(grid[6][4], None);
    assert_eq!(grid[4][4], piece(PieceType::Pawn, Color::White));
    assert_eq!(board.whose_turn(), Color::Black);
    assert_eq!(board.make_move(&convert("g8f6")), Ok(()));
    let grid = board.get_board();
    assert_eq!(grid[0][6], None);
    assert_eq!(grid[2][5], piece(PieceType::Knight, Color::Black));
    assert_eq!(board.whose_turn(), Color::White);
    assert_eq!(count(&board, None), 32);
}

#[test]
fn a_capture_replaces_the_piece() {
    let board = play(&["e2e4", "d7d5", "e4d5"]);
    let grid = board.get_board();
    assert_eq!(grid[3][3], piece(PieceType::Pawn, Color::White));
    assert_eq!(grid[4][4], None);
    assert_eq!(count(&board, piece(PieceType::Pawn, Color::Black)), 7);
    assert_eq!(count(&board, piece(PieceType::Pawn, Color::White)), 8);
}

#[test]
fn an_illegal_move_is_refused_and_changes_nothing() {
    let mut board = play(&["e2e4", "e7e5", "g1f3"]);
    let before = format!("{:?}", board);
    for text in ["e2e4", "e5e4", "e8e6", "a8a5", "d8d5", "h7h4", "e7e5"] {
        assert_eq!(board.make_move(&convert(text)), Err(BoardError::IllegalMove));
        assert_eq!(format!("{:?}", board), before);
    }
    let off = Move { from: pos(0, 0), to: pos(-1, 0), promotion: None };
    assert_eq!(board.make_move(&off), Err(BoardError::IllegalMove));
    assert_eq!(format!("{:?}", board), before);
    assert_eq!(board.whose_turn(), Color::Black);
}

#[test]
fn capture_in_passing_takes_the_pawn_beside() {
    let board = play(&["e2e4", "a7a6", "e4e5", "d7d5", "e5d6"]);
    let grid = board.get_board();
    assert_eq!(grid[2][3], piece(PieceType::Pawn, Color::White));
    assert_eq!(grid[3][3], None);
    assert_eq!(grid[3][4], None);
    assert_eq!(count(&board, piece(PieceType::Pawn, Color::Black)), 7);
}

#[test]
fn black_captures_in_passing_too() {
    let board = play(&["a2a3", "d7d5", "a3a4", "d5d4", "e2e4", "d4e3"]);
    let grid = board.get_board();
    assert_eq!(grid[5][4], piece(PieceType::Pawn, Color::Black));
    assert_eq!(grid[4][4], None);
    assert_eq!(grid[4][3], None);
    assert_eq!(count(&board, piece(PieceType::Pawn, Color::White)), 7);
}

#[test]
fn castling_short_brings_the_rook_over() {
    let board = play(&[
        "e2e4", "e7e5", "g1f3", "b8c6", "f1c4", "g8f6", "d2d3", "f8c5", "e1g1", "e8g8",
    ]);
    let grid = board.get_board();
    assert_eq!(grid[7][6], piece(PieceType::King, Color::White));
    assert_eq!(grid[7][5], piece(PieceType::Rook, Color::White));
    assert_eq!(grid[7][4], None);
    assert_eq!(grid[7][7], None);
    assert_eq!(grid[0][6], piece(PieceType::King, Color::Black));
    assert_eq!(grid[0][5], piece(PieceType::Rook, Color::Black));
    assert_eq!(grid[0][4], None);
    assert_eq!(grid[0][7], None);
}

#[test]
fn castling_long_brings_the_rook_over() {
    let board = play(&[
        "d2d4", "d7d5", "b1c3", "b8c6", "c1f4", "c8f5", "d1d2", "d8d7", "e1c1", "e8c8",
    ]);
    let grid = board.get_board();
    assert_eq!(grid[7][2], piece(PieceType::King, Color::White));
    assert_eq!(grid[7][3], piece(PieceType::Rook, Color::White));
    assert_eq!(grid[7][0], None);
    assert_eq!(grid[7][1], None);
    assert_eq!(grid[7][4], None);
    assert_eq!(grid[0][2], piece(PieceType::King, Color::Black));
    assert_eq!(grid[0][3], piece(PieceType::Rook, Color::Black));
    assert_eq!(grid[0][0], None);
    assert_eq!(grid[0][4], None);
}

#[test]
fn a_castled_king_is_found_where_it_stands() {
    // After castling the king on g1 is what the other side must attack.
    let mut board = play(&[
        "e2e4", "e7e5", "g1f3", "b8c6", "f1c4", "g8f6", "d2d3", "f8c5", "e1g1", "f6g4", "h2h3",
        "c5f2",
    ]);
    // The bishop on f2 checks the king on g1.
    assert_eq!(board.is_attacked_by_opponent(&pos(7, 6)), true);
    assert_eq!(board.is_legal(&convert("a2a3")), false);
    assert_eq!(board.is_legal(&convert("g1h1")), true);
    assert_eq!(board.is_legal(&convert("f1f2")), true);
    assert_eq!(board.is_legal(&convert("g1f2")), false);
    board.make_move(&convert("g1h1")).unwrap();
    assert_eq!(king_square(&board, Color::White), pos(7, 7));
}

#[test]
fn a_promoted_pawn_becomes_the_named_piece() {
    let moves = ["h2h4", "g7g5", "h4g5", "h7h6", "g5h6", "g8f6", "h6h7", "f6g8"];
    for kind in [PieceType::Queen, PieceType::Rook, PieceType::Bishop, PieceType::Knight] {
        let mut board = play(&moves);
        let mut capture = convert("h7g8");
        capture.promotion = Some(kind);
        assert_eq!(board.make_move(&capture), Ok(()));
        let grid = board.get_board();
        assert_eq!(grid[0][6], piece(kind, Color::White));
        assert_eq!(grid[1][7], None);
        assert_eq!(count(&board, piece(PieceType::Pawn, Color::White)), 7);
    }
    let mut board = play(&moves);
    let before = format!("{:?}", board);
    assert_eq!(board.make_move(&convert("h7g8")), Err(BoardError::IllegalMove));
    assert_eq!(format!("{:?}", board), before);
}

#[test]
fn crowning_a_pawn_is_refused_and_changes_nothing() {
    let mut board = play(&[
        "h2h4", "g7g5", "h4g5", "g8f6", "g5g6", "f6e4", "g6g7", "e4c5",
    ]);
    let before = format!("{:?}", board);
    for text in ["g7g8", "g7f8", "g7h8"] {
        let mut mv = convert(text);
        mv.promotion = Some(PieceType::King);
        assert_eq!(board.make_move(&mv), Err(BoardError::IllegalMove));
        assert_eq!(format!("{:?}", board), before);
        assert_eq!(count(&board, piece(PieceType::King, Color::White)), 1);
    }
    let mut mv = convert("g7g8");
    mv.promotion = Some(PieceType::Queen);
    assert_eq!(board.make_move(&mv), Ok(()));
    assert_eq!(board.get_board()[0][6], piece(PieceType::Queen, Color::White));
    assert_eq!(king_square(&board, Color::White), pos(7, 4));
}

#[test]
fn a_black_pawn_promotes_on_row_seven() {
    let moves = [
        "a2a3", "h7h5", "g2g4", "h5g4", "a3a4", "g4g3", "a4a5", "g3h2", "a5a6",
    ];
    let mut board = play(&moves);
    let mut capture = convert("h2g1");
    assert_eq!(board.is_legal(&capture), false);
    capture.promotion = Some(PieceType::Queen);
    assert_eq!(board.make_move(&capture), Ok(()));
    assert_eq!(board.get_board()[7][6], piece(PieceType::Queen, Color::Black));
}

#[test]
fn a_lost_castling_right_does_not_come_back() {
    let mut board = play(&["g1f3", "a7a6", "e2e4", "a6a5", "f1c4", "a5a4"]);
    assert_eq!(board.is_legal(&convert("e1g1")), true);
    for text in ["e1e2", "b7b6", "e2e1", "b6b5"] {
        board.make_move(&convert(text)).unwrap();
    }
    assert_eq!(board.is_legal(&convert("e1g1")), false);
    for text in ["c4b5", "c7c6", "b5c4", "c6c5", "a2a3", "h7h6"] {
        board.make_move(&convert(text)).unwrap();
        assert_eq!(board.is_legal(&convert("e1g1")), false);
    }
}

#[test]
fn each_side_keeps_one_king_through_a_game() {
    let moves = [
        "e2e4", "e7e5", "g1f3", "b8c6", "f1c4", "g8f6", "d2d3", "f8c5", "b1c3", "d7d6", "c1e3",
        "c8d7", "d1e2", "d8e7", "e1c1", "h7h5", "f3e5", "h5h4", "e5f7", "h8h7", "g2g4", "h4g3",
        "f2g3", "c5e3", "c1b1",
    ];
    let mut board = Board::new();
    for text in moves {
        board.make_move(&convert(text)).unwrap();
        assert_eq!(count(&board, piece(PieceType::King, Color::White)), 1);
        assert_eq!(count(&board, piece(PieceType::King, Color::Black)), 1);
    }
    assert_eq!(king_square(&board, Color::White), pos(7, 1));
    assert_eq!(king_square(&board, Color::Black), pos(0, 4));
}

#[test]
fn no_legal_move_leaves_the_own_king_attacked() {
    let positions: [&[&str]; 4] = [
        &[],
        &["e2e4", "e7e5", "g1f3", "d8e7", "f3e5", "e7e5", "b1c3", "e5e4"],
        &["e2e4", "d7d5", "e1e2", "d5d4"],
        &["f2f3", "e7e5", "g2g3", "d8h4"],
    ];
    for moves in positions {
        let mut start = Board::new();
        for text in moves {
            start.make_move(&convert(text)).unwrap();
        }
        let mover = start.whose_turn();
        for mv in start.generate_legal_moves() {
            let mut board = start.clone();
            assert_eq!(board.make_move(&mv), Ok(()));
            let king = king_square(&board, mover);
            assert_eq!(board.is_attacked(&king, &mover.flip()), false);
            assert_eq!(board.is_attacked_by_player(&king), false);
        }
    }
}
