use chess_rules::board::{Board, Move, Position};
use chess_rules::convert;
use chess_rules::piece::PieceType;

fn pos(row: i8, col: i8) -> Position {
    Position { row, col }
}

fn targets(moves: &Vec<Move>) -> Vec<(i8, i8)> {
    moves.iter().map(|m| (m.to.row, m.to.col)).collect()
}

fn play(moves: &[&str]) -> Board {
    let mut board = Board::new();
    for text in moves {
        assert_eq!(board.is_legal(&convert(text)), true);
        board.make_move(&convert(text)).unwrap();
    }
    board
}

#[test]
fn knight_jumps_come_in_pairs() {
    let moves = Board::new().generate_moves_knight(&pos(4, 4));
    assert_eq!(
        targets(&moves),
        vec![(5, 6), (3, 2), (6, 5), (2, 3), (5, 2), (3, 6), (6, 3), (2, 5)]
    );
    for m in &moves {
        assert_eq!(m.from, pos(4, 4));
        assert_eq!(m.promotion, None);
    }
}

#[test]
fn knight_jumps_may_leave_the_board() {
    let moves = Board::new().generate_moves_knight(&pos(7, 1));
    assert_eq!(
        targets(&moves),
        vec![(8, 3), (6, -1), (9, 2), (5, 0), (8, -1), (6, 3), (9, 0), (5, 2)]
    );
}

#[test]
fn king_steps_then_castling() {
    let moves = Board::new().generate_moves_king(&pos(7, 4));
    assert_eq!(
        targets(&moves),
        vec![
            (6, 3),
            (6, 4),
            (6, 5),
            (7, 3),
            (7, 5),
            (8, 3),
            (8, 4),
            (8, 5),
            (7, 6),
            (7, 2)
        ]
    );
    assert_eq!(moves.len(), 10);
    for m in &moves {
        assert_eq!(m.from, pos(7, 4));
        assert_eq!(m.promotion, None);
        assert_ne!(m.to, m.from);
    }
}

#[test]
fn white_pawn_moves_towards_row_zero() {
    let moves = Board::new().generate_moves_pawn(&pos(6, 0));
    assert_eq!(targets(&moves), vec![(5, 0), (4, 0), (5, 1), (5, -1)]);
    for m in &moves {
        assert_eq!(m.from, pos(6, 0));
        assert_eq!(m.promotion, Some(PieceType::Queen));
    }
}

#[test]
fn black_pawn_moves_towards_row_seven() {
    let board = play(&["e2e4"]);
    let moves = board.generate_moves_pawn(&pos(1, 7));
    assert_eq!(targets(&moves), vec![(2, 7), (3, 7), (2, 8), (2, 6)]);
}

#[test]
fn pawn_double_step_is_listed_from_any_row() {
    let board = play(&["e2e4", "a7a6"]);
    let moves = board.generate_moves_pawn(&pos(4, 4));
    assert_eq!(targets(&moves), vec![(3, 4), (2, 4), (3, 5), (3, 3)]);
}

#[test]
fn rays_end_on_the_first_piece() {
    let board = Board::new();
    let moves = board.generate_moves_adjacent(&pos(7, 0));
    assert_eq!(targets(&moves), vec![(7, 1), (6, 0)]);
    let moves = board.generate_moves_adjacent(&pos(4, 4));
    assert_eq!(
        targets(&moves),
        vec![
            (5, 4),
            (6, 4),
            (4, 5),
            (4, 6),
            (4, 7),
            (3, 4),
            (2, 4),
            (1, 4),
            (4, 3),
            (4, 2),
            (4, 1),
            (4, 0)
        ]
    );
    let moves = board.generate_moves_diagonal(&pos(4, 4));
    assert_eq!(
        targets(&moves),
        vec![(5, 5), (6, 6), (3, 3), (2, 2), (1, 1), (5, 3), (6, 2), (3, 5), (2, 6), (1, 7)]
    );
}

#[test]
fn line_moves_follow_any_step() {
    let board = Board::new();
    let moves = board.generate_moves_line(&pos(2, 0), &vec![[0, 0], [1, 2], [-1, 1]]);
    assert_eq!(targets(&moves), vec![(3, 2), (4, 4), (5, 6), (1, 1)]);
    for m in &moves {
        assert_eq!(m.from, pos(2, 0));
        assert_eq!(m.promotion, None);
    }
    assert_eq!(board.generate_moves_line(&pos(2, 0), &vec![]).len(), 0);
    assert_eq!(board.generate_moves_line(&pos(2, 0), &vec![[0, 0]]).len(), 0);
}

#[test]
fn only_pieces_of_the_side_to_move_are_listed() {
    let board = Board::new();
    assert_eq!(board.generate_moves_piece(&pos(4, 4)).len(), 0);
    assert_eq!(board.generate_moves_piece(&pos(0, 1)).len(), 0);
    assert_eq!(board.generate_moves_piece(&pos(1, 0)).len(), 0);
    assert_eq!(board.generate_moves_piece(&pos(7, 1)).len(), 8);
    assert_eq!(board.generate_moves_piece(&pos(6, 3)).len(), 4);
    assert_eq!(board.generate_moves_piece(&pos(7, 4)).len(), 10);
}

#[test]
fn queen_lists_diagonals_before_rows_and_columns() {
    let board = play(&["d2d4", "a7a6"]);
    // Queen on d1: the diagonals end on the pawns on c2 and e2, the column
    // on the pawn on d4.
    let moves = board.generate_moves_piece(&pos(7, 3));
    assert_eq!(
        targets(&moves),
        vec![(6, 2), (6, 4), (7, 4), (6, 3), (5, 3), (4, 3), (7, 2)]
    );
}

#[test]
fn capturing_moves_leave_out_the_capture_in_passing() {
    let board = play(&["e2e4", "a7a6", "e4e5", "d7d5"]);
    let passing = Move { from: pos(3, 4), to: pos(2, 3), promotion: Some(PieceType::Queen) };
    let legal = board.generate_legal_moves();
    assert_eq!(legal.contains(&passing), true);
    let capturing = board.generate_legal_capturing_moves();
    assert_eq!(capturing, vec![Move { from: pos(7, 5), to: pos(2, 0), promotion: None }]);
}

#[test]
fn capturing_moves_after_an_exchange_offer() {
    let board = play(&["e2e4", "d7d5"]);
    let capturing = board.generate_legal_capturing_moves();
    assert_eq!(
        capturing,
        vec![Move { from: pos(4, 4), to: pos(3, 3), promotion: Some(PieceType::Queen) }]
    );
}
