use chess_rules::board::{Board, Move, Position};
use chess_rules::convert;
use chess_rules::piece::PieceType;

fn pos(row: i8, col: i8) -> Position {
    Position { row, col }
}

fn play(moves: &[&str]) -> Board {
    let mut board = Board::new();
    for text in moves {
        assert_eq!(board.is_legal(&convert(text)), true);
        board.make_move(&convert(text)).unwrap();
    }
    board
}

fn legal(board: &Board, text: &str) -> bool {
    board.is_legal(&convert(text))
}

#[test]
fn a_move_must_stay_on_the_board() {
    let board = Board::new();
    let off = Move { from: pos(7, 1), to: pos(8, 3), promotion: None };
    assert_eq!(board.is_legal(&off), false);
    let off = Move { from: pos(6, 0), to: pos(5, -1), promotion: None };
    assert_eq!(board.is_legal(&off), false);
    let off = Move { from: pos(-1, 0), to: pos(0, 0), promotion: None };
    assert_eq!(board.is_legal(&off), false);
    let off = Move { from: pos(6, 8), to: pos(5, 7), promotion: None };
    assert_eq!(board.is_legal(&off), false);
}

#[test]
fn a_move_must_move_a_piece_of_the_side_to_move() {
    let board = Board::new();
    assert_eq!(legal(&board, "e2e2"), false);
    assert_eq!(legal(&board, "e4e5"), false);
    assert_eq!(legal(&board, "e7e5"), false);
    let board = play(&["e2e4"]);
    assert_eq!(legal(&board, "d2d4"), false);
    assert_eq!(legal(&board, "e7e5"), true);
}

#[test]
fn pawn_steps() {
    let board = Board::new();
    assert_eq!(legal(&board, "e2e3"), true);
    assert_eq!(legal(&board, "e2e4"), true);
    assert_eq!(legal(&board, "e2e5"), false);
    assert_eq!(legal(&board, "e2d3"), false);
    assert_eq!(legal(&board, "e2f3"), false);
    assert_eq!(legal(&board, "e2e1"), false);
    // Off the starting row a pawn steps one row only.
    let board = play(&["e2e3", "a7a6"]);
    assert_eq!(legal(&board, "e3e4"), true);
    assert_eq!(legal(&board, "e3e5"), false);
    assert_eq!(legal(&board, "e3e2"), false);
}

#[test]
fn pawn_steps_need_empty_squares() {
    // White pawn e4, black pawn e5: neither steps on.
    let board = play(&["e2e4", "e7e5"]);
    assert_eq!(legal(&board, "e4e5"), false);
    // Black knight on a3 in front of the pawn on a2.
    let board = play(&["e2e4", "b8c6", "e4e5", "c6b4", "e5e6", "b4a2", "e6f7", "e8f7", "h2h3", "a2b4", "h3h4", "b4c2", "e1e2", "c2a3"]);
    assert_eq!(legal(&board, "a1a2"), true);
    let board = play(&["g1f3", "a7a6", "f3h4", "a6a5", "h4g6", "a5a4", "g6h8", "a4a3"]);
    // Black pawn on a3: the pawn on a2 can step neither one row nor two.
    assert_eq!(legal(&board, "a2a3"), false);
    assert_eq!(legal(&board, "a2a4"), false);
    // The pawn on b2 takes it.
    assert_eq!(legal(&board, "b2a3"), true);
    assert_eq!(legal(&board, "b2c3"), false);
}

#[test]
fn pawn_double_step_needs_the_square_between() {
    // Black knight on e3 in front of the pawn on e2.
    let board = play(&["a2a3", "g8f6", "a3a4", "f6g4", "a4a5", "g4e3"]);
    assert_eq!(legal(&board, "e2e4"), false);
    assert_eq!(legal(&board, "e2e3"), false);
    assert_eq!(legal(&board, "d2e3"), true);
    assert_eq!(legal(&board, "f2e3"), true);
}

#[test]
fn knight_jumps() {
    let board = Board::new();
    assert_eq!(legal(&board, "b1a3"), true);
    assert_eq!(legal(&board, "b1c3"), true);
    assert_eq!(legal(&board, "b1d2"), false);
    assert_eq!(legal(&board, "b1b3"), false);
    assert_eq!(legal(&board, "b1c4"), false);
}

#[test]
fn rook_moves_along_clear_rows_and_columns() {
    let board = Board::new();
    assert_eq!(legal(&board, "a1a3"), false);
    assert_eq!(legal(&board, "a1a2"), false);
    let board = play(&["a2a4", "a7a5"]);
    assert_eq!(legal(&board, "a1a2"), true);
    assert_eq!(legal(&board, "a1a3"), true);
    assert_eq!(legal(&board, "a1a4"), false);
    assert_eq!(legal(&board, "a1a5"), false);
    assert_eq!(legal(&board, "a1b2"), false);
    let board = play(&["a2a4", "a7a5", "a1a3", "h7h6"]);
    assert_eq!(legal(&board, "a3h3"), true);
    assert_eq!(legal(&board, "a3d3"), true);
    assert_eq!(legal(&board, "a3d4"), false);
    assert_eq!(legal(&board, "a3a1"), true);
}

#[test]
fn bishop_moves_along_clear_diagonals() {
    let board = Board::new();
    assert_eq!(legal(&board, "f1d3"), false);
    let board = play(&["e2e4", "e7e5"]);
    assert_eq!(legal(&board, "f1e2"), true);
    assert_eq!(legal(&board, "f1a6"), true);
    assert_eq!(legal(&board, "f1b5"), true);
    assert_eq!(legal(&board, "f1f2"), false);
    assert_eq!(legal(&board, "f1g2"), false);
    assert_eq!(legal(&board, "f1d4"), false);
}

#[test]
fn queen_moves_as_rook_and_as_bishop() {
    let board = play(&["e2e4", "e7e5"]);
    assert_eq!(legal(&board, "d1e2"), true);
    assert_eq!(legal(&board, "d1h5"), true);
    assert_eq!(legal(&board, "d1d2"), false);
    assert_eq!(legal(&board, "d1d3"), false);
    let board = play(&["d2d4", "e7e5"]);
    assert_eq!(legal(&board, "d1d3"), true);
    assert_eq!(legal(&board, "d1d4"), false);
    assert_eq!(legal(&board, "d1e3"), false);
}

#[test]
fn king_steps_one_square() {
    let board = play(&["e2e4", "e7e5"]);
    assert_eq!(legal(&board, "e1e2"), true);
    assert_eq!(legal(&board, "e1d1"), false);
    assert_eq!(legal(&board, "e1e3"), false);
    let board = play(&["e2e4", "e7e5", "e1e2", "a7a6"]);
    assert_eq!(legal(&board, "e2d3"), true);
    assert_eq!(legal(&board, "e2e3"), true);
    assert_eq!(legal(&board, "e2f3"), true);
    assert_eq!(legal(&board, "e2e1"), true);
    assert_eq!(legal(&board, "e2c4"), false);
}

#[test]
fn king_may_not_step_into_a_pawn_attack() {
    // Black pawn on d4 attacks e3 and c3.
    let board = play(&["e2e4", "d7d5", "e1e2", "d5d4"]);
    assert_eq!(legal(&board, "e2e3"), false);
    assert_eq!(legal(&board, "e2d3"), true);
    assert_eq!(legal(&board, "e2f3"), true);
}

#[test]
fn a_pinned_piece_stays() {
    // Black queen on e7 behind nothing, white king e1, white knight moved
    // onto the open e-column is pinned.
    let board = play(&["e2e4", "e7e5", "g1f3", "d8e7", "f3e5", "e7e5", "b1c3", "e5e4"]);
    // The queen checks on the e-column: the knight may step in, nothing
    // else of it is legal.
    assert_eq!(legal(&board, "c3e2"), true);
    assert_eq!(legal(&board, "c3b5"), false);
    assert_eq!(legal(&board, "a2a3"), false);
    assert_eq!(legal(&board, "f1e2"), true);
    assert_eq!(legal(&board, "d1e2"), true);
    assert_eq!(legal(&board, "c3e4"), true);
    let board = play(&["e2e4", "e7e5", "g1f3", "d8e7", "f3e5", "e7e5", "b1c3", "e5e4", "c3e2", "a7a6"]);
    // Now the knight on e2 is pinned to the king.
    assert_eq!(legal(&board, "e2c3"), false);
    assert_eq!(legal(&board, "e2g3"), false);
    assert_eq!(legal(&board, "e2d4"), false);
    assert_eq!(legal(&board, "d2d3"), true);
}

#[test]
fn castling_short_needs_empty_squares() {
    let board = Board::new();
    assert_eq!(legal(&board, "e1g1"), false);
    let board = play(&["g1f3", "a7a6"]);
    assert_eq!(legal(&board, "e1g1"), false);
    let board = play(&["g1f3", "a7a6", "e2e4", "a6a5", "f1c4", "a5a4"]);
    assert_eq!(legal(&board, "e1g1"), true);
    assert_eq!(legal(&board, "e1c1"), false);
}

#[test]
fn castling_is_lost_when_the_king_has_moved() {
    let board = play(&["g1f3", "a7a6", "e2e4", "a6a5", "f1c4", "a5a4", "e1e2", "b7b6", "e2e1", "b6b5"]);
    assert_eq!(legal(&board, "e1g1"), false);
    assert_eq!(legal(&board, "e1f1"), true);
}

#[test]
fn castling_is_lost_when_the_rook_has_moved() {
    let board = play(&["g1f3", "a7a6", "e2e4", "a6a5", "f1c4", "a5a4", "h1g1", "b7b6", "g1h1", "b6b5"]);
    assert_eq!(legal(&board, "e1g1"), false);
    // The other wing keeps its right: clear it and castle long.
    let board = play(&[
        "g1f3", "a7a6", "e2e4", "a6a5", "f1c4", "a5a4", "h1g1", "b7b6", "g1h1", "b6b5", "d2d3",
        "h7h6", "c1e3", "h6h5", "b1c3", "h5h4", "d1d2", "h4h3",
    ]);
    assert_eq!(legal(&board, "e1g1"), false);
    assert_eq!(legal(&board, "e1c1"), true);
}

#[test]
fn castling_may_not_pass_an_attacked_square() {
    let board = play(&["e2e4", "b7b6", "g1f3", "c8a6", "g2g3", "e7e6", "f1g2", "a6f1"]);
    // A black bishop stands on f1, between king and rook.
    assert_eq!(legal(&board, "e1g1"), false);
    let board = play(&["e2e4", "b7b6", "g1f3", "c8a6", "g2g3", "e7e6", "f1h3", "d8e7"]);
    // The bishop on a6 attacks f1, the square the king would pass.
    assert_eq!(legal(&board, "e1g1"), false);
    let board = play(&["e2e4", "b7b6", "g1f3", "c8a6", "g2g3", "e7e6", "f1h3", "d8e7", "d2d3", "a6b7"]);
    assert_eq!(legal(&board, "e1g1"), true);
}

#[test]
fn castling_asks_for_the_passed_and_the_final_square_only() {
    // The black knight on d3 attacks e1, but neither f1 nor g1.
    let board = play(&["e2e4", "b7b6", "g1f3", "c8a6", "f1a6", "b8a6", "d2d3", "a6b4", "a2a3", "b4d3"]);
    assert_eq!(board.is_attacked_by_opponent(&pos(7, 4)), true);
    assert_eq!(board.is_attacked_by_opponent(&pos(7, 5)), false);
    assert_eq!(board.is_attacked_by_opponent(&pos(7, 6)), false);
    assert_eq!(legal(&board, "e1g1"), true);
    // A black rook on the g-column attacks g1, where the king would end.
    let board = play(&[
        "g1f3", "h7h5", "g2g4", "h5g4", "f1h3", "g4h3", "f3g5", "h8h6", "g5e4", "h6g6", "e4c3",
        "a7a6",
    ]);
    assert_eq!(board.is_attacked_by_opponent(&pos(7, 6)), true);
    assert_eq!(board.is_attacked_by_opponent(&pos(7, 5)), false);
    assert_eq!(legal(&board, "e1g1"), false);
}

#[test]
fn castling_after_the_rook_was_captured() {
    let board = play(&[
        "e2e4", "e7e5", "g1f3", "b8c6", "f1c4", "g8f6", "d2d3", "f8c5", "b1c3", "d7d6", "c1e3",
        "c8d7", "d1e2", "d8e7", "e1c1", "h7h5", "f3e5", "h5h4", "e5f7",
    ]);
    assert_eq!(legal(&board, "e8c8"), false);
    let board = play(&[
        "e2e4", "e7e5", "g1f3", "b8c6", "f1c4", "g8f6", "d2d3", "f8c5", "b1c3", "d7d6", "c1e3",
        "c8d7", "d1e2", "d8e7", "e1c1", "h7h5", "f3e5", "h5h4", "e5f7", "a7a6", "f7h8",
    ]);
    // The knight has taken the rook on h8: the short right is gone, the
    // long one is left.
    assert_eq!(legal(&board, "e8g8"), false);
    assert_eq!(legal(&board, "e8c8"), true);
}

#[test]
fn promotion_must_be_named() {
    let moves = [
        "h2h4", "g7g5", "h4g5", "h7h6", "g5h6", "g8f6", "h6h7", "f6g8",
    ];
    let board = play(&moves);
    // The white pawn on h7 takes the knight on g8 or ... the rook's square
    // is occupied, so only the capture brings it to the last row.
    let mut capture = convert("h7g8");
    assert_eq!(board.is_legal(&capture), false);
    capture.promotion = Some(PieceType::Pawn);
    assert_eq!(board.is_legal(&capture), false);
    capture.promotion = Some(PieceType::King);
    assert_eq!(board.is_legal(&capture), false);
    capture.promotion = Some(PieceType::Queen);
    assert_eq!(board.is_legal(&capture), true);
    capture.promotion = Some(PieceType::Rook);
    assert_eq!(board.is_legal(&capture), true);
    capture.promotion = Some(PieceType::Bishop);
    assert_eq!(board.is_legal(&capture), true);
    capture.promotion = Some(PieceType::Knight);
    assert_eq!(board.is_legal(&capture), true);
    let mut push = convert("h7h8");
    push.promotion = Some(PieceType::Queen);
    assert_eq!(board.is_legal(&push), false);
}

#[test]
fn a_pawn_may_not_become_a_king() {
    // White pawn on g7, g8 empty: the step and the captures reach row 0.
    let board = play(&[
        "h2h4", "g7g5", "h4g5", "g8f6", "g5g6", "f6e4", "g6g7", "e4c5",
    ]);
    for text in ["g7g8", "g7f8", "g7h8"] {
        let mut mv = convert(text);
        mv.promotion = Some(PieceType::King);
        assert_eq!(board.is_legal(&mv), false);
        mv.promotion = Some(PieceType::Pawn);
        assert_eq!(board.is_legal(&mv), false);
        mv.promotion = None;
        assert_eq!(board.is_legal(&mv), false);
        mv.promotion = Some(PieceType::Knight);
        assert_eq!(board.is_legal(&mv), true);
    }
    // Black, on row 7.
    let board = play(&[
        "a2a3", "h7h5", "g2g4", "h5g4", "a3a4", "g4g3", "a4a5", "g3h2", "a5a6",
    ]);
    let mut mv = convert("h2g1");
    mv.promotion = Some(PieceType::King);
    assert_eq!(board.is_legal(&mv), false);
    mv.promotion = Some(PieceType::Rook);
    assert_eq!(board.is_legal(&mv), true);
}

#[test]
fn promotion_is_ignored_off_the_last_row() {
    let board = Board::new();
    let mut push = convert("e2e4");
    push.promotion = Some(PieceType::Pawn);
    assert_eq!(board.is_legal(&push), true);
    push.promotion = Some(PieceType::King);
    assert_eq!(board.is_legal(&push), true);
    let mut jump = convert("g1f3");
    jump.promotion = Some(PieceType::Queen);
    assert_eq!(board.is_legal(&jump), true);
}

#[test]
fn capture_in_passing_is_legal_for_one_move() {
    let board = play(&["e2e4", "a7a6", "e4e5", "d7d5"]);
    assert_eq!(legal(&board, "e5d6"), true);
    assert_eq!(legal(&board, "e5f6"), false);
    let board = play(&["e2e4", "a7a6", "e4e5", "d7d5", "a2a3", "a6a5"]);
    assert_eq!(legal(&board, "e5d6"), false);
    // A pawn that came by single steps cannot be captured in passing.
    let board = play(&["e2e4", "d7d6", "e4e5", "a7a6", "a2a3", "d6d5"]);
    assert_eq!(legal(&board, "e5d6"), false);
}

#[test]
fn retain_legal_keeps_the_order() {
    let board = Board::new();
    let moves = vec![
        convert("e2e5"),
        convert("e2e4"),
        convert("e7e5"),
        convert("g1f3"),
        convert("g1f3"),
        convert("a1a2"),
        convert("b1a3"),
    ];
    let kept = board.retain_legal(moves);
    assert_eq!(kept, vec![convert("e2e4"), convert("g1f3"), convert("g1f3"), convert("b1a3")]);
    assert_eq!(board.retain_legal(Vec::new()), Vec::new());
}

#[test]
fn retain_capturing_keeps_moves_onto_pieces() {
    let board = Board::new();
    let off = Move { from: pos(7, 1), to: pos(8, 3), promotion: None };
    let moves = vec![
        convert("e2e4"),
        convert("a1a2"),
        off,
        convert("a1a7"),
        convert("b1c3"),
        convert("e4e1"),
    ];
    let kept = board.retain_capturing(moves);
    assert_eq!(kept, vec![convert("a1a2"), convert("a1a7"), convert("e4e1")]);
}

#[test]
fn retain_legal_capturing_keeps_legal_captures() {
    let board = play(&["e2e4", "d7d5"]);
    let moves = vec![
        convert("e4e5"),
        convert("e4d5"),
        convert("d1d2"),
        convert("a1a7"),
        convert("f1b5"),
    ];
    let kept = board.retain_legal_capturing(moves);
    assert_eq!(kept, vec![convert("e4d5")]);
}
